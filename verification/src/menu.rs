//! The window menu and the tray menu, as plain descriptions that the caller
//! turns into the widgets of its toolkit.

use vstd::prelude::*;
use crate::platform::Platform;

verus! {

/// Name under which the application presents itself.
pub const APP_NAME: &'static str = "SwitchPresence";

/// Copyright line of the about box.
pub const COPYRIGHT: &'static str = "Copyright © 2022 Dilan Nair (dilanxd.com)";

/// Id of the item that brings the main window to the front.
pub const ID_FOCUS: &'static str = "sp-focus";

/// Id of the item that opens the activity editor.
pub const ID_EDIT: &'static str = "sp-edit";

/// Id of the item that takes the presence down.
pub const ID_CLEAR: &'static str = "sp-clear";

/// Id of the item that opens the project page.
pub const ID_GITHUB: &'static str = "sp-github";

/// Id of the item that ends the process.
pub const ID_QUIT: &'static str = "sp-quit";

/// Keyboard shortcut of the clear item in the window menu.
pub const CLEAR_ACCELERATOR: &'static str = "CmdOrCtrl+K";

/// A menu item of the application's own, told apart by its id.
#[derive(Clone, Debug, PartialEq, Eq)]
pub struct CustomItem {
    pub id: String,
    pub title: String,
    pub accelerator: Option<String>,
}

/// Mathematical model of [`CustomItem`].
pub struct CustomItemView {
    pub id: Seq<char>,
    pub title: Seq<char>,
    pub accelerator: Option<Seq<char>>,
}

impl View for CustomItem {
    type V = CustomItemView;

    open spec fn view(&self) -> CustomItemView {
        CustomItemView {
            id: self.id@,
            title: self.title@,
            accelerator: match self.accelerator {
                Some(keys) => Some(keys@),
                None => None,
            },
        }
    }
}

impl CustomItemView {
    /// The item with the given id and title and no shortcut.
    pub open spec fn plain(id: Seq<char>, title: Seq<char>) -> CustomItemView {
        CustomItemView { id, title, accelerator: None }
    }
}

impl CustomItem {
    /// An item with the given id and title and no shortcut.
    pub fn new(id: &str, title: &str) -> (item: CustomItem)
        ensures
            item@ == CustomItemView::plain(id@, title@),
    {
        CustomItem { id: id.to_owned(), title: title.to_owned(), accelerator: None }
    }

    /// The same item with the keyboard shortcut `keys`.
    pub fn accelerator(self, keys: &str) -> (item: CustomItem)
        ensures
            item@ == (CustomItemView { accelerator: Some(keys@), ..self@ }),
    {
        CustomItem { id: self.id, title: self.title, accelerator: Some(keys.to_owned()) }
    }
}

/// One line of a submenu of the window menu.
#[derive(Clone, Debug, PartialEq, Eq)]
pub enum MenuEntry {
    /// An item of the application's own.
    Custom(CustomItem),
    /// The platform's about box, with the application's name and copyright.
    About { name: String, copyright: String },
    Separator,
    Hide,
    HideOthers,
    ShowAll,
    Quit,
}

/// Mathematical model of [`MenuEntry`].
pub enum MenuEntryView {
    Custom(CustomItemView),
    About { name: Seq<char>, copyright: Seq<char> },
    Separator,
    Hide,
    HideOthers,
    ShowAll,
    Quit,
}

impl View for MenuEntry {
    type V = MenuEntryView;

    open spec fn view(&self) -> MenuEntryView {
        match self {
            MenuEntry::Custom(item) => MenuEntryView::Custom(item@),
            MenuEntry::About { name, copyright } => MenuEntryView::About {
                name: name@,
                copyright: copyright@,
            },
            MenuEntry::Separator => MenuEntryView::Separator,
            MenuEntry::Hide => MenuEntryView::Hide,
            MenuEntry::HideOthers => MenuEntryView::HideOthers,
            MenuEntry::ShowAll => MenuEntryView::ShowAll,
            MenuEntry::Quit => MenuEntryView::Quit,
        }
    }
}

/// A titled list of entries in the window menu.
#[derive(Clone, Debug, PartialEq, Eq)]
pub struct Submenu {
    pub title: String,
    pub entries: Vec<MenuEntry>,
}

/// Mathematical model of [`Submenu`].
pub struct SubmenuView {
    pub title: Seq<char>,
    pub entries: Seq<MenuEntryView>,
}

impl View for Submenu {
    type V = SubmenuView;

    open spec fn view(&self) -> SubmenuView {
        SubmenuView {
            title: self.title@,
            entries: self.entries@.map_values(|entry: MenuEntry| entry@),
        }
    }
}

/// The window menu: its submenus from left to right.
#[derive(Clone, Debug, PartialEq, Eq)]
pub struct Menu {
    pub submenus: Vec<Submenu>,
}

/// Mathematical model of [`Menu`].
pub struct MenuView {
    pub submenus: Seq<SubmenuView>,
}

impl View for Menu {
    type V = MenuView;

    open spec fn view(&self) -> MenuView {
        MenuView { submenus: self.submenus@.map_values(|submenu: Submenu| submenu@) }
    }
}

/// One line of the tray menu.
#[derive(Clone, Debug, PartialEq, Eq)]
pub enum TrayEntry {
    Custom(CustomItem),
    Separator,
}

/// Mathematical model of [`TrayEntry`].
pub enum TrayEntryView {
    Custom(CustomItemView),
    Separator,
}

impl View for TrayEntry {
    type V = TrayEntryView;

    open spec fn view(&self) -> TrayEntryView {
        match self {
            TrayEntry::Custom(item) => TrayEntryView::Custom(item@),
            TrayEntry::Separator => TrayEntryView::Separator,
        }
    }
}

/// The tray icon's menu, from top to bottom.
#[derive(Clone, Debug, PartialEq, Eq)]
pub struct SystemTray {
    pub entries: Vec<TrayEntry>,
}

/// Mathematical model of [`SystemTray`].
pub struct SystemTrayView {
    pub entries: Seq<TrayEntryView>,
}

impl View for SystemTray {
    type V = SystemTrayView;

    open spec fn view(&self) -> SystemTrayView {
        SystemTrayView { entries: self.entries@.map_values(|entry: TrayEntry| entry@) }
    }
}

/// The application's own submenu: about box, project page and the platform's
/// usual window items.
pub open spec fn app_submenu(title: Seq<char>) -> SubmenuView {
    SubmenuView {
        title,
        entries: seq![
            MenuEntryView::About { name: APP_NAME@, copyright: COPYRIGHT@ },
            MenuEntryView::Custom(CustomItemView::plain(ID_GITHUB@, "View on GitHub"@)),
            MenuEntryView::Separator,
            MenuEntryView::Hide,
            MenuEntryView::HideOthers,
            MenuEntryView::ShowAll,
            MenuEntryView::Separator,
            MenuEntryView::Quit,
        ],
    }
}

/// The submenu of presence commands: clearing the activity, with its shortcut.
pub open spec fn discord_submenu() -> SubmenuView {
    SubmenuView {
        title: "Discord"@,
        entries: seq![
            MenuEntryView::Custom(
                CustomItemView {
                    id: ID_CLEAR@,
                    title: "Clear Activity"@,
                    accelerator: Some(CLEAR_ACCELERATOR@),
                },
            ),
        ],
    }
}

/// The window menu of `platform`: on macOS the application's submenu under
/// `title` followed by the presence submenu, elsewhere no entry at all.
pub open spec fn window_menu(platform: Platform, title: Seq<char>) -> MenuView {
    MenuView {
        submenus: if platform == Platform::MacOs {
            seq![app_submenu(title), discord_submenu()]
        } else {
            Seq::empty()
        },
    }
}

/// The tray menu, the same on every platform.
pub open spec fn tray_menu() -> SystemTrayView {
    SystemTrayView {
        entries: seq![
            TrayEntryView::Custom(CustomItemView::plain(ID_FOCUS@, "Focus Window"@)),
            TrayEntryView::Separator,
            TrayEntryView::Custom(CustomItemView::plain(ID_EDIT@, "Edit Activity"@)),
            TrayEntryView::Custom(CustomItemView::plain(ID_CLEAR@, "Clear Activity"@)),
            TrayEntryView::Separator,
            TrayEntryView::Custom(CustomItemView::plain(ID_GITHUB@, "View on GitHub"@)),
            TrayEntryView::Custom(CustomItemView::plain(ID_QUIT@, "Quit"@)),
        ],
    }
}

/// Describes the window menu for `platform`, with the application's submenu
/// under `title`.
pub fn init_window_menu(platform: Platform, title: String) -> (menu: Menu)
    ensures
        menu@ == window_menu(platform, title@),
{
    let mut submenus: Vec<Submenu> = Vec::new();
    if platform == Platform::MacOs {
        let mut about: Vec<MenuEntry> = Vec::new();
        about.push(MenuEntry::About { name: APP_NAME.to_owned(), copyright: COPYRIGHT.to_owned() });
        about.push(MenuEntry::Custom(CustomItem::new(ID_GITHUB, "View on GitHub")));
        about.push(MenuEntry::Separator);
        about.push(MenuEntry::Hide);
        about.push(MenuEntry::HideOthers);
        about.push(MenuEntry::ShowAll);
        about.push(MenuEntry::Separator);
        about.push(MenuEntry::Quit);
        let about = Submenu { title, entries: about };
        assert(about@.entries =~= app_submenu(title@).entries);

        let mut discord: Vec<MenuEntry> = Vec::new();
        discord.push(
            MenuEntry::Custom(
                CustomItem::new(ID_CLEAR, "Clear Activity").accelerator(CLEAR_ACCELERATOR),
            ),
        );
        let discord = Submenu { title: "Discord".to_owned(), entries: discord };
        assert(discord@.entries =~= discord_submenu().entries);

        submenus.push(about);
        submenus.push(discord);
    }
    let menu = Menu { submenus };
    assert(menu@.submenus =~= window_menu(platform, title@).submenus);
    menu
}

/// Describes the tray menu.
pub fn init_system_tray() -> (tray: SystemTray)
    ensures
        tray@ == tray_menu(),
{
    let mut entries: Vec<TrayEntry> = Vec::new();
    entries.push(TrayEntry::Custom(CustomItem::new(ID_FOCUS, "Focus Window")));
    entries.push(TrayEntry::Separator);
    entries.push(TrayEntry::Custom(CustomItem::new(ID_EDIT, "Edit Activity")));
    entries.push(TrayEntry::Custom(CustomItem::new(ID_CLEAR, "Clear Activity")));
    entries.push(TrayEntry::Separator);
    entries.push(TrayEntry::Custom(CustomItem::new(ID_GITHUB, "View on GitHub")));
    entries.push(TrayEntry::Custom(CustomItem::new(ID_QUIT, "Quit")));
    let tray = SystemTray { entries };
    assert(tray@.entries =~= tray_menu().entries);
    tray
}

} // verus!
