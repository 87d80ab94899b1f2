//! From a menu or tray event to the action it asks for. The caller performs
//! the action; nothing here touches a window or a process.

use vstd::prelude::*;
use crate::menu::{
    tray_menu, window_menu, MenuEntryView, TrayEntryView, ID_CLEAR, ID_EDIT, ID_FOCUS, ID_GITHUB,
    ID_QUIT,
};
use crate::platform::Platform;
use crate::text::same_text;

verus! {

/// Address of the project page.
pub const PROJECT_URL: &'static str = "https://github.com/dilanx/switchpresence";

/// Label of the window that tray actions address.
pub const MAIN_WINDOW: &'static str = "main";

/// Event that asks the user interface to open the activity editor.
pub const EVENT_EDIT_PRESENCE: &'static str = "event_edit_presence";

/// Event that asks the user interface to take the presence down.
pub const EVENT_CLEAR_PRESENCE: &'static str = "event_clear_presence";

/// What the caller has to do in answer to an event.
#[derive(Clone, Debug, PartialEq, Eq)]
pub enum Action {
    /// The event asks for nothing.
    Nothing,
    /// Open the address in the user's browser.
    OpenUrl(String),
    /// Bring the main window to the front.
    FocusWindow,
    /// Send the named event to the user interface.
    Emit(String),
    /// End the process.
    Quit,
}

/// Mathematical model of [`Action`].
pub enum ActionView {
    Nothing,
    OpenUrl(Seq<char>),
    FocusWindow,
    Emit(Seq<char>),
    Quit,
}

impl View for Action {
    type V = ActionView;

    open spec fn view(&self) -> ActionView {
        match self {
            Action::Nothing => ActionView::Nothing,
            Action::OpenUrl(url) => ActionView::OpenUrl(url@),
            Action::FocusWindow => ActionView::FocusWindow,
            Action::Emit(event) => ActionView::Emit(event@),
            Action::Quit => ActionView::Quit,
        }
    }
}

/// Something that happened at the tray icon.
#[derive(Clone, Debug, PartialEq, Eq)]
pub enum TrayEvent {
    /// The icon was clicked with the primary button.
    LeftClick,
    /// The item with the given id was chosen from the tray menu.
    MenuItemClick(String),
    /// Anything else.
    Other,
}

/// Mathematical model of [`TrayEvent`].
pub enum TrayEventView {
    LeftClick,
    MenuItemClick(Seq<char>),
    Other,
}

impl View for TrayEvent {
    type V = TrayEventView;

    open spec fn view(&self) -> TrayEventView {
        match self {
            TrayEvent::LeftClick => TrayEventView::LeftClick,
            TrayEvent::MenuItemClick(id) => TrayEventView::MenuItemClick(id@),
            TrayEvent::Other => TrayEventView::Other,
        }
    }
}

/// The action behind the item `id` of the window menu: the project page or
/// the clear event; any other id asks for nothing.
pub open spec fn window_item_action(id: Seq<char>) -> ActionView {
    if id == ID_GITHUB@ {
        ActionView::OpenUrl(PROJECT_URL@)
    } else if id == ID_CLEAR@ {
        ActionView::Emit(EVENT_CLEAR_PRESENCE@)
    } else {
        ActionView::Nothing
    }
}

/// The action behind the item `id` of the tray menu; an unknown id asks for
/// nothing.
pub open spec fn tray_item_action(id: Seq<char>) -> ActionView {
    if id == ID_FOCUS@ {
        ActionView::FocusWindow
    } else if id == ID_EDIT@ {
        ActionView::Emit(EVENT_EDIT_PRESENCE@)
    } else if id == ID_CLEAR@ {
        ActionView::Emit(EVENT_CLEAR_PRESENCE@)
    } else if id == ID_GITHUB@ {
        ActionView::OpenUrl(PROJECT_URL@)
    } else if id == ID_QUIT@ {
        ActionView::Quit
    } else {
        ActionView::Nothing
    }
}

/// The action behind a tray event on `platform`. A click on the icon brings
/// the window to the front on Windows and does nothing elsewhere; a chosen
/// item acts by its id.
pub open spec fn tray_event_action(platform: Platform, event: TrayEventView) -> ActionView {
    match event {
        TrayEventView::LeftClick => if platform == Platform::Windows {
            ActionView::FocusWindow
        } else {
            ActionView::Nothing
        },
        TrayEventView::MenuItemClick(id) => tray_item_action(id),
        TrayEventView::Other => ActionView::Nothing,
    }
}

/// Decides what a click on the item `id` of the window menu asks for.
pub fn menu_action(id: &str) -> (action: Action)
    ensures
        action@ == window_item_action(id@),
{
    if same_text(id, ID_GITHUB) {
        Action::OpenUrl(PROJECT_URL.to_owned())
    } else if same_text(id, ID_CLEAR) {
        Action::Emit(EVENT_CLEAR_PRESENCE.to_owned())
    } else {
        Action::Nothing
    }
}

/// Decides what a tray event on `platform` asks for.
pub fn tray_action(platform: Platform, event: &TrayEvent) -> (action: Action)
    ensures
        action@ == tray_event_action(platform, event@),
{
    match event {
        TrayEvent::LeftClick => {
            if platform == Platform::Windows {
                Action::FocusWindow
            } else {
                Action::Nothing
            }
        },
        TrayEvent::MenuItemClick(id) => {
            let id = id.as_str();
            if same_text(id, ID_FOCUS) {
                Action::FocusWindow
            } else if same_text(id, ID_EDIT) {
                Action::Emit(EVENT_EDIT_PRESENCE.to_owned())
            } else if same_text(id, ID_CLEAR) {
                Action::Emit(EVENT_CLEAR_PRESENCE.to_owned())
            } else if same_text(id, ID_GITHUB) {
                Action::OpenUrl(PROJECT_URL.to_owned())
            } else if same_text(id, ID_QUIT) {
                Action::Quit
            } else {
                Action::Nothing
            }
        },
        TrayEvent::Other => Action::Nothing,
    }
}

/// The item ids are five different texts.
pub proof fn lemma_item_ids_differ()
    ensures
        ID_FOCUS@ != ID_EDIT@,
        ID_FOCUS@ != ID_CLEAR@,
        ID_FOCUS@ != ID_GITHUB@,
        ID_FOCUS@ != ID_QUIT@,
        ID_EDIT@ != ID_CLEAR@,
        ID_EDIT@ != ID_GITHUB@,
        ID_EDIT@ != ID_QUIT@,
        ID_CLEAR@ != ID_GITHUB@,
        ID_CLEAR@ != ID_QUIT@,
        ID_GITHUB@ != ID_QUIT@,
{
    reveal_strlit("sp-focus");
    reveal_strlit("sp-edit");
    reveal_strlit("sp-clear");
    reveal_strlit("sp-github");
    reveal_strlit("sp-quit");
    assert(ID_FOCUS@[3] == 'f');
    assert(ID_EDIT@[3] == 'e');
    assert(ID_CLEAR@[3] == 'c');
    assert(ID_GITHUB@[3] == 'g');
    assert(ID_QUIT@[3] == 'q');
}

/// Each item of the tray menu is dispatched to its own action: focusing the
/// window, the edit event, the clear event, the project page, and quitting.
pub proof fn lemma_tray_items_dispatch()
    ensures
        tray_item_action(ID_FOCUS@) == ActionView::FocusWindow,
        tray_item_action(ID_EDIT@) == ActionView::Emit(EVENT_EDIT_PRESENCE@),
        tray_item_action(ID_CLEAR@) == ActionView::Emit(EVENT_CLEAR_PRESENCE@),
        tray_item_action(ID_GITHUB@) == ActionView::OpenUrl(PROJECT_URL@),
        tray_item_action(ID_QUIT@) == ActionView::Quit,
{
    lemma_item_ids_differ();
}

/// The items that the window menu shares with the tray menu ask for the same
/// action in both; the tray's other items ask for nothing in the window menu.
pub proof fn lemma_window_items_dispatch()
    ensures
        window_item_action(ID_GITHUB@) == tray_item_action(ID_GITHUB@),
        window_item_action(ID_CLEAR@) == tray_item_action(ID_CLEAR@),
        window_item_action(ID_FOCUS@) == ActionView::Nothing,
        window_item_action(ID_EDIT@) == ActionView::Nothing,
        window_item_action(ID_QUIT@) == ActionView::Nothing,
{
    lemma_item_ids_differ();
}

/// No line of the tray menu is dead: every item of the application's own
/// asks for an action when it is chosen.
pub proof fn lemma_every_tray_item_acts(i: int)
    requires
        0 <= i < tray_menu().entries.len(),
    ensures
        tray_menu().entries[i] matches TrayEntryView::Custom(item) ==> tray_item_action(item.id)
            != ActionView::Nothing,
{
}

/// No line of the window menu is dead either, on any platform and under any
/// title: every item of the application's own asks for an action.
pub proof fn lemma_every_window_item_acts(platform: Platform, title: Seq<char>, s: int, i: int)
    requires
        0 <= s < window_menu(platform, title).submenus.len(),
        0 <= i < window_menu(platform, title).submenus[s].entries.len(),
    ensures
        window_menu(platform, title).submenus[s].entries[i] matches MenuEntryView::Custom(item)
            ==> window_item_action(item.id) != ActionView::Nothing,
{
}

} // verus!
