//! The activity payload that is submitted to the presence service.

use vstd::prelude::*;

verus! {

/// Icon id of the large image of every activity.
pub const LARGE_IMAGE: &'static str = "switch";

/// Icon id of the small image of every activity.
pub const SMALL_IMAGE: &'static str = "green";

/// Hover text of the small image: the application's own name.
pub const SMALL_TEXT: &'static str = "SwitchPresence";

/// Art assets of an activity and their hover texts.
#[derive(Clone, Debug, PartialEq, Eq)]
pub struct Assets {
    pub large_image: String,
    pub large_text: String,
    pub small_image: String,
    pub small_text: String,
}

/// Mathematical model of [`Assets`].
pub struct AssetsView {
    pub large_image: Seq<char>,
    pub large_text: Seq<char>,
    pub small_image: Seq<char>,
    pub small_text: Seq<char>,
}

impl View for Assets {
    type V = AssetsView;

    open spec fn view(&self) -> AssetsView {
        AssetsView {
            large_image: self.large_image@,
            large_text: self.large_text@,
            small_image: self.small_image@,
            small_text: self.small_text@,
        }
    }
}

/// Time marks of an activity, in seconds since the Unix epoch.
#[derive(Clone, Copy, Debug, PartialEq, Eq, Structural)]
pub struct Timestamps {
    pub start: u64,
}

impl Timestamps {
    /// The start mark as the signed number that the named-pipe transport
    /// carries, or `None` where it does not fit.
    pub fn signed_start(&self) -> (signed: Option<i64>)
        ensures
            signed is Some <==> self.start <= i64::MAX,
            signed matches Some(s) ==> s == self.start,
    {
        if self.start <= 0x7fff_ffff_ffff_ffffu64 {
            Some(self.start as i64)
        } else {
            None
        }
    }
}

/// What the presence service is asked to display. A part that is `None` is
/// left out of the submission.
#[derive(Clone, Debug, PartialEq, Eq)]
pub struct Activity {
    pub state: Option<String>,
    pub assets: Option<Assets>,
    pub timestamps: Option<Timestamps>,
}

/// Mathematical model of [`Activity`].
pub struct ActivityView {
    pub state: Option<Seq<char>>,
    pub assets: Option<AssetsView>,
    pub timestamps: Option<Timestamps>,
}

impl ActivityView {
    /// The activity without any part: nothing is displayed.
    pub open spec fn empty() -> ActivityView {
        ActivityView { state: None, assets: None, timestamps: None }
    }

    /// The activity that announces `game`, played since `started_at`: the
    /// title is the state line and the hover text of the large image, the
    /// icons and the small hover text are fixed.
    pub open spec fn playing(game: Seq<char>, started_at: u64) -> ActivityView {
        ActivityView {
            state: Some(game),
            assets: Some(
                AssetsView {
                    large_image: LARGE_IMAGE@,
                    large_text: game,
                    small_image: SMALL_IMAGE@,
                    small_text: SMALL_TEXT@,
                },
            ),
            timestamps: Some(Timestamps { start: started_at }),
        }
    }
}

impl View for Activity {
    type V = ActivityView;

    open spec fn view(&self) -> ActivityView {
        ActivityView {
            state: match self.state {
                Some(s) => Some(s@),
                None => None,
            },
            assets: match self.assets {
                Some(a) => Some(a@),
                None => None,
            },
            timestamps: self.timestamps,
        }
    }
}

impl Activity {
    /// An activity without any part.
    pub fn empty() -> (activity: Activity)
        ensures
            activity@ == ActivityView::empty(),
    {
        Activity { state: None, assets: None, timestamps: None }
    }

    /// Builds the activity that announces `game`, played since `started_at`
    /// (seconds since the Unix epoch).
    pub fn playing(game: String, started_at: u64) -> (activity: Activity)
        ensures
            activity@ == ActivityView::playing(game@, started_at),
    {
        let assets = Assets {
            large_image: LARGE_IMAGE.to_owned(),
            large_text: game.clone(),
            small_image: SMALL_IMAGE.to_owned(),
            small_text: SMALL_TEXT.to_owned(),
        };
        Activity {
            state: Some(game),
            assets: Some(assets),
            timestamps: Some(Timestamps { start: started_at }),
        }
    }

    /// Whether the activity has no part at all.
    pub fn is_empty(&self) -> (blank: bool)
        ensures
            blank == (self@ == ActivityView::empty()),
    {
        self.state.is_none() && self.assets.is_none() && self.timestamps.is_none()
    }
}

} // verus!
