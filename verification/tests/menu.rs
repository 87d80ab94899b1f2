use switchpresence::menu::{
    init_system_tray, init_window_menu, CustomItem, Menu, MenuEntry, Submenu, SystemTray,
    TrayEntry, APP_NAME, CLEAR_ACCELERATOR, COPYRIGHT, ID_CLEAR, ID_EDIT, ID_FOCUS, ID_GITHUB,
    ID_QUIT,
};
use switchpresence::platform::Platform;

fn item(id: &str, title: &str) -> CustomItem {
    CustomItem { id: id.to_string(), title: title.to_string(), accelerator: None }
}

#[test]
fn item_ids_have_their_values() {
    assert_eq!(ID_FOCUS, "sp-focus");
    assert_eq!(ID_EDIT, "sp-edit");
    assert_eq!(ID_CLEAR, "sp-clear");
    assert_eq!(ID_GITHUB, "sp-github");
    assert_eq!(ID_QUIT, "sp-quit");
    assert_eq!(APP_NAME, "SwitchPresence");
    assert_eq!(CLEAR_ACCELERATOR, "CmdOrCtrl+K");
    assert_eq!(COPYRIGHT, "Copyright © 2022 Dilan Nair (dilanxd.com)");
}

#[test]
fn custom_item_starts_without_shortcut() {
    assert_eq!(CustomItem::new("a", "B"), item("a", "B"));
}

#[test]
fn accelerator_sets_only_the_shortcut() {
    let with_keys = CustomItem::new("a", "B").accelerator("Ctrl+B");
    assert_eq!(
        with_keys,
        CustomItem { id: "a".to_string(), title: "B".to_string(), accelerator: Some("Ctrl+B".to_string()) }
    );
    let replaced = with_keys.accelerator("Ctrl+C");
    assert_eq!(replaced.accelerator.as_deref(), Some("Ctrl+C"));
    assert_eq!(replaced.id, "a");
    assert_eq!(replaced.title, "B");
}

#[test]
fn window_menu_on_macos() {
    let menu = init_window_menu(Platform::MacOs, "SwitchPresence".to_string());
    let expected = Menu {
        submenus: vec![
            Submenu {
                title: "SwitchPresence".to_string(),
                entries: vec![
                    MenuEntry::About {
                        name: "SwitchPresence".to_string(),
                        copyright: "Copyright © 2022 Dilan Nair (dilanxd.com)".to_string(),
                    },
                    MenuEntry::Custom(item("sp-github", "View on GitHub")),
                    MenuEntry::Separator,
                    MenuEntry::Hide,
                    MenuEntry::HideOthers,
                    MenuEntry::ShowAll,
                    MenuEntry::Separator,
                    MenuEntry::Quit,
                ],
            },
            Submenu {
                title: "Discord".to_string(),
                entries: vec![MenuEntry::Custom(CustomItem {
                    id: "sp-clear".to_string(),
                    title: "Clear Activity".to_string(),
                    accelerator: Some("CmdOrCtrl+K".to_string()),
                })],
            },
        ],
    };
    assert_eq!(menu, expected);
}

#[test]
fn window_menu_title_names_only_the_first_submenu() {
    let menu = init_window_menu(Platform::MacOs, "Other Name".to_string());
    assert_eq!(menu.submenus.len(), 2);
    assert_eq!(menu.submenus[0].title, "Other Name");
    assert_eq!(menu.submenus[1].title, "Discord");
    assert_eq!(
        menu.submenus[0].entries[0],
        MenuEntry::About {
            name: "SwitchPresence".to_string(),
            copyright: "Copyright © 2022 Dilan Nair (dilanxd.com)".to_string(),
        }
    );
}

#[test]
fn window_menu_is_empty_off_macos() {
    assert_eq!(init_window_menu(Platform::Windows, "SwitchPresence".to_string()), Menu { submenus: vec![] });
    assert_eq!(init_window_menu(Platform::Other, "SwitchPresence".to_string()), Menu { submenus: vec![] });
}

#[test]
fn tray_menu_lists_its_seven_lines() {
    let expected = SystemTray {
        entries: vec![
            TrayEntry::Custom(item("sp-focus", "Focus Window")),
            TrayEntry::Separator,
            TrayEntry::Custom(item("sp-edit", "Edit Activity")),
            TrayEntry::Custom(item("sp-clear", "Clear Activity")),
            TrayEntry::Separator,
            TrayEntry::Custom(item("sp-github", "View on GitHub")),
            TrayEntry::Custom(item("sp-quit", "Quit")),
        ],
    };
    assert_eq!(init_system_tray(), expected);
}

#[test]
fn item_ids_differ() {
    let ids = [ID_FOCUS, ID_EDIT, ID_CLEAR, ID_GITHUB, ID_QUIT];
    for (i, a) in ids.iter().enumerate() {
        for (j, b) in ids.iter().enumerate() {
            assert_eq!(a == b, i == j);
        }
    }
}
