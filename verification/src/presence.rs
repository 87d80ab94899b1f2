//! The holder of the presence: it builds the request for each operation and
//! keeps track of what the service displays.
//!
//! The holder never talks to the service itself. [`Presence::update_presence`]
//! and [`Presence::clear_presence`] hand the request they have built to a
//! `submit` function of the caller, which carries it over the named transport
//! and answers whether the service accepted it. A caller that cannot submit
//! from inside such a function builds the request with
//! [`Presence::update_request`] or [`Presence::clear_request`] and reports the
//! answer through [`Presence::settle`].

use vstd::prelude::*;
use crate::activity::{Activity, ActivityView};
use crate::platform::{Platform, Transport};

verus! {

/// Why a request cannot be built.
#[derive(Clone, Copy, Debug, PartialEq, Eq, Structural)]
pub enum PresenceError {
    /// The start mark does not fit the signed seconds of the named pipe.
    TimestampOutOfRange,
}

/// What the service is asked to do.
#[derive(Clone, Debug, PartialEq, Eq)]
pub enum Command {
    /// Display the given activity.
    SetActivity(Activity),
    /// Display nothing.
    ClearActivity,
}

/// Mathematical model of [`Command`].
pub enum CommandView {
    SetActivity(ActivityView),
    ClearActivity,
}

impl CommandView {
    /// What the service displays once it has accepted the command.
    pub open spec fn displays(self) -> ActivityView {
        match self {
            CommandView::SetActivity(activity) => activity,
            CommandView::ClearActivity => ActivityView::empty(),
        }
    }
}

impl View for Command {
    type V = CommandView;

    open spec fn view(&self) -> CommandView {
        match self {
            Command::SetActivity(activity) => CommandView::SetActivity(activity@),
            Command::ClearActivity => CommandView::ClearActivity,
        }
    }
}

/// A command together with the transport that has to carry it.
#[derive(Clone, Debug, PartialEq, Eq)]
pub struct Request {
    pub transport: Transport,
    pub command: Command,
}

/// Mathematical model of [`Request`].
pub struct RequestView {
    pub transport: Transport,
    pub command: CommandView,
}

impl View for Request {
    type V = RequestView;

    open spec fn view(&self) -> RequestView {
        RequestView { transport: self.transport, command: self.command@ }
    }
}

impl RequestView {
    /// Whether the start mark `now` can be carried on `platform`: the named
    /// pipe carries signed seconds, the socket unsigned ones.
    pub open spec fn representable(platform: Platform, now: u64) -> bool {
        Transport::of(platform) == Transport::NamedPipe ==> now <= i64::MAX
    }

    /// The request that announces `game` on `platform` at time `now`.
    pub open spec fn update(platform: Platform, game: Seq<char>, now: u64) -> RequestView {
        RequestView {
            transport: Transport::of(platform),
            command: CommandView::SetActivity(ActivityView::playing(game, now)),
        }
    }

    /// The request that takes the presence down on `platform`. Over the named
    /// pipe an activity without any part is submitted; over the socket the
    /// service is told to clear.
    pub open spec fn clear(platform: Platform) -> RequestView {
        let transport = Transport::of(platform);
        RequestView {
            transport,
            command: if transport == Transport::NamedPipe {
                CommandView::SetActivity(ActivityView::empty())
            } else {
                CommandView::ClearActivity
            },
        }
    }
}

/// Model of [`Presence`]: the platform it serves and what the service displays.
pub struct PresenceView {
    pub platform: Platform,
    pub displayed: ActivityView,
}

impl PresenceView {
    /// The holder after the service has answered `request`: an accepted
    /// request is displayed, a refused one changes nothing.
    pub open spec fn settled(self, request: RequestView, accepted: bool) -> PresenceView {
        PresenceView {
            platform: self.platform,
            displayed: if accepted {
                request.command.displays()
            } else {
                self.displayed
            },
        }
    }

    /// The holder after a whole history of answers has been settled, first
    /// to last.
    pub open spec fn settled_all(self, answers: Seq<(RequestView, bool)>) -> PresenceView
        decreases answers.len(),
    {
        if answers.len() == 0 {
            self
        } else {
            self.settled_all(answers.drop_last()).settled(answers.last().0, answers.last().1)
        }
    }
}

/// Holder of the presence of one process.
#[derive(Clone, Debug, PartialEq, Eq)]
pub struct Presence {
    platform: Platform,
    displayed: Activity,
}

impl View for Presence {
    type V = PresenceView;

    closed spec fn view(&self) -> PresenceView {
        PresenceView { platform: self.platform, displayed: self.displayed@ }
    }
}

impl Presence {
    /// A holder for `platform`. Nothing is displayed yet.
    pub fn new(platform: Platform) -> (presence: Presence)
        ensures
            presence@.platform == platform,
            presence@.displayed == ActivityView::empty(),
    {
        Presence { platform, displayed: Activity::empty() }
    }

    /// The platform this holder serves.
    pub fn platform(&self) -> (platform: Platform)
        ensures
            platform == self@.platform,
    {
        self.platform
    }

    /// The transport that carries this holder's requests.
    pub fn transport(&self) -> (transport: Transport)
        ensures
            transport == Transport::of(self@.platform),
    {
        Transport::for_platform(self.platform)
    }

    /// What the service displays, as far as its answers tell.
    pub fn displayed(&self) -> (activity: &Activity)
        ensures
            activity@ == self@.displayed,
    {
        &self.displayed
    }

    /// Builds the request that announces `game`, played since `now` (seconds
    /// since the Unix epoch). Fails only where the transport cannot carry
    /// `now`. The holder changes when the answer is settled, not here.
    pub fn update_request(&self, game: String, now: u64) -> (request: Result<
        Request,
        PresenceError,
    >)
        ensures
            request is Ok <==> RequestView::representable(self@.platform, now),
            request matches Ok(r) ==> r@ == RequestView::update(self@.platform, game@, now),
            request matches Err(e) ==> e == PresenceError::TimestampOutOfRange,
    {
        let transport = Transport::for_platform(self.platform);
        let activity = Activity::playing(game, now);
        match transport {
            Transport::NamedPipe => {
                if now > 0x7fff_ffff_ffff_ffffu64 {
                    return Err(PresenceError::TimestampOutOfRange);
                }
            },
            Transport::UnixSocket => {},
        }
        Ok(Request { transport, command: Command::SetActivity(activity) })
    }

    /// Builds the request that takes the presence down.
    pub fn clear_request(&self) -> (request: Request)
        ensures
            request@ == RequestView::clear(self@.platform),
    {
        let transport = Transport::for_platform(self.platform);
        let command = match transport {
            Transport::NamedPipe => Command::SetActivity(Activity::empty()),
            Transport::UnixSocket => Command::ClearActivity,
        };
        Request { transport, command }
    }

    /// Records the service's answer to `request` and returns it: `true` if
    /// and only if the service accepted the submission. An accepted request
    /// replaces what is displayed; a refused one leaves it as it was.
    pub fn settle(&mut self, request: Request, accepted: bool) -> (success: bool)
        ensures
            success == accepted,
            final(self)@ == old(self)@.settled(request@, accepted),
    {
        if accepted {
            self.displayed = match request.command {
                Command::SetActivity(activity) => activity,
                Command::ClearActivity => Activity::empty(),
            };
        }
        accepted
    }

    /// Announces `game`, played since `now` (seconds since the Unix epoch):
    /// builds the request, hands it to `submit`, and returns `submit`'s
    /// answer, which is what the holder then displays or keeps. Where the
    /// transport cannot carry `now`, nothing is submitted and the answer is
    /// `false`.
    pub fn update_presence<F: FnOnce(&Request) -> bool>(
        &mut self,
        game: String,
        now: u64,
        submit: F,
    ) -> (success: bool)
        requires
            forall|request: Request| call_requires(submit, (&request,)),
        ensures
            !RequestView::representable(old(self)@.platform, now) ==> !success && final(self)@
                == old(self)@,
            RequestView::representable(old(self)@.platform, now) ==> (exists|request: Request|
                request@ == RequestView::update(old(self)@.platform, game@, now)
                    && #[trigger] call_ensures(submit, (&request,), success)
                    && final(self)@ == old(self)@.settled(request@, success)),
    {
        match self.update_request(game, now) {
            Ok(request) => {
                let accepted = submit(&request);
                let ghost submitted = request;
                let success = self.settle(request, accepted);
                assert(call_ensures(submit, (&submitted,), success));
                success
            },
            Err(_) => false,
        }
    }

    /// Takes the presence down: builds the request, hands it to `submit`, and
    /// returns `submit`'s answer. Once the service has accepted, nothing is
    /// displayed.
    pub fn clear_presence<F: FnOnce(&Request) -> bool>(&mut self, submit: F) -> (success: bool)
        requires
            forall|request: Request| call_requires(submit, (&request,)),
        ensures
            (exists|request: Request|
                request@ == RequestView::clear(old(self)@.platform)
                    && #[trigger] call_ensures(submit, (&request,), success)
                    && final(self)@ == old(self)@.settled(request@, success)),
            success ==> final(self)@.displayed == ActivityView::empty(),
            !success ==> final(self)@ == old(self)@,
    {
        let request = self.clear_request();
        let accepted = submit(&request);
        let ghost submitted = request;
        let success = self.settle(request, accepted);
        assert(call_ensures(submit, (&submitted,), success));
        success
    }
}

/// An accepted clear request leaves nothing on display, on every platform and
/// whatever was displayed before.
pub proof fn lemma_accepted_clear_displays_nothing(before: PresenceView)
    ensures
        before.settled(RequestView::clear(before.platform), true).displayed
            == ActivityView::empty(),
        before.settled(RequestView::clear(before.platform), true).platform == before.platform,
{
}

/// An accepted update displays the announced game: its title is the state
/// line and the hover text of the large image, and the start mark is the time
/// of the update.
pub proof fn lemma_accepted_update_displays_game(before: PresenceView, game: Seq<char>, now: u64)
    ensures
        ({
            let after = before.settled(RequestView::update(before.platform, game, now), true);
            &&& after.displayed == ActivityView::playing(game, now)
            &&& after.displayed.state == Some(game)
            &&& after.displayed.assets matches Some(assets) && assets.large_text == game
            &&& after.displayed.timestamps matches Some(marks) && marks.start == now
        }),
{
}

/// A refused request changes nothing.
pub proof fn lemma_refused_request_changes_nothing(before: PresenceView, request: RequestView)
    ensures
        before.settled(request, false) == before,
{
}

/// Every request names the transport of its holder's platform: the named
/// pipe on Windows and only there.
pub proof fn lemma_requests_use_platform_transport(platform: Platform, game: Seq<char>, now: u64)
    ensures
        RequestView::update(platform, game, now).transport == Transport::of(platform),
        RequestView::clear(platform).transport == Transport::of(platform),
        Transport::of(platform) == Transport::NamedPipe <==> platform == Platform::Windows,
{
}

/// Whether answer `i` of a history is an acceptance that no later acceptance
/// follows.
pub open spec fn is_last_accepted(answers: Seq<(RequestView, bool)>, i: int) -> bool {
    &&& 0 <= i < answers.len()
    &&& answers[i].1
    &&& forall|j: int| i < j < answers.len() ==> !(#[trigger] answers[j]).1
}

/// The platform of a holder never changes, whatever is settled.
pub proof fn lemma_platform_never_changes(before: PresenceView, answers: Seq<(RequestView, bool)>)
    ensures
        before.settled_all(answers).platform == before.platform,
    decreases answers.len(),
{
    if answers.len() > 0 {
        lemma_platform_never_changes(before, answers.drop_last());
    }
}

/// A history without any acceptance leaves the holder as it was.
pub proof fn lemma_refusals_change_nothing(before: PresenceView, answers: Seq<(RequestView, bool)>)
    requires
        forall|i: int| 0 <= i < answers.len() ==> !(#[trigger] answers[i]).1,
    ensures
        before.settled_all(answers) == before,
    decreases answers.len(),
{
    if answers.len() > 0 {
        let earlier = answers.drop_last();
        assert forall|i: int| 0 <= i < earlier.len() implies !(#[trigger] earlier[i]).1 by {
            assert(earlier[i] == answers[i]);
        }
        lemma_refusals_change_nothing(before, earlier);
        assert(!answers[answers.len() - 1].1);
    }
}

/// However many answers are settled one after another, the display is that
/// of the last accepted request.
pub proof fn lemma_display_follows_last_accepted(
    before: PresenceView,
    answers: Seq<(RequestView, bool)>,
    i: int,
)
    requires
        is_last_accepted(answers, i),
    ensures
        before.settled_all(answers).displayed == answers[i].0.command.displays(),
    decreases answers.len(),
{
    if i < answers.len() - 1 {
        let earlier = answers.drop_last();
        assert(earlier[i] == answers[i]);
        assert forall|j: int| i < j < earlier.len() implies !(#[trigger] earlier[j]).1 by {
            assert(earlier[j] == answers[j]);
        }
        lemma_display_follows_last_accepted(before, earlier, i);
        assert(!answers[answers.len() - 1].1);
    }
}

} // verus!
