use tray_shell::menu::{tray_menu, MenuEntry};

#[test]
fn identifiers_are_show_settings_quit() {
    assert_eq!(MenuEntry::Show.id(), "show");
    assert_eq!(MenuEntry::Settings.id(), "settings");
    assert_eq!(MenuEntry::Quit.id(), "quit");
}

#[test]
fn labels_are_those_of_the_menu() {
    assert_eq!(MenuEntry::Show.label(), "显示主界面");
    assert_eq!(MenuEntry::Settings.label(), "设置");
    assert_eq!(MenuEntry::Quit.label(), "退出");
}

#[test]
fn menu_lists_show_then_settings_then_quit() {
    assert_eq!(tray_menu(), vec![MenuEntry::Show, MenuEntry::Settings, MenuEntry::Quit]);
}

#[test]
fn each_identifier_names_its_entry() {
    assert_eq!(MenuEntry::from_id("show"), Some(MenuEntry::Show));
    assert_eq!(MenuEntry::from_id("settings"), Some(MenuEntry::Settings));
    assert_eq!(MenuEntry::from_id("quit"), Some(MenuEntry::Quit));
}

#[test]
fn every_entry_of_the_menu_is_found_under_its_identifier() {
    for entry in tray_menu() {
        assert_eq!(MenuEntry::from_id(entry.id()), Some(entry));
    }
}

#[test]
fn identifiers_of_different_entries_differ() {
    let entries = tray_menu();
    for (i, a) in entries.iter().enumerate() {
        for (j, b) in entries.iter().enumerate() {
            assert_eq!(a.id() == b.id(), i == j);
        }
    }
}

#[test]
fn unknown_identifier_names_no_entry() {
    assert_eq!(MenuEntry::from_id("about"), None);
    assert_eq!(MenuEntry::from_id("open-settings"), None);
    assert_eq!(MenuEntry::from_id("main"), None);
}

#[test]
fn empty_identifier_names_no_entry() {
    assert_eq!(MenuEntry::from_id(""), None);
}

#[test]
fn identifiers_are_case_sensitive() {
    assert_eq!(MenuEntry::from_id("Show"), None);
    assert_eq!(MenuEntry::from_id("QUIT"), None);
    assert_eq!(MenuEntry::from_id("Settings"), None);
}

#[test]
fn identifiers_are_not_trimmed_or_matched_by_prefix() {
    assert_eq!(MenuEntry::from_id(" show"), None);
    assert_eq!(MenuEntry::from_id("quit "), None);
    assert_eq!(MenuEntry::from_id("sho"), None);
    assert_eq!(MenuEntry::from_id("settings2"), None);
}

#[test]
fn labels_do_not_serve_as_identifiers() {
    for entry in tray_menu() {
        assert_eq!(MenuEntry::from_id(entry.label()), None);
    }
}
