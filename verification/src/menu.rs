//! The context menu of the tray icon.

use crate::text::same_text;
use vstd::prelude::*;

verus! {

/// An entry of the tray icon's context menu.
#[derive(Clone, Copy, Debug, PartialEq, Eq)]
pub enum MenuEntry {
    /// Brings the main window to the front.
    Show,
    /// Opens the settings view in the main window.
    Settings,
    /// Ends the program.
    Quit,
}

impl MenuEntry {
    /// The identifier under which the entry is registered with the window
    /// system and under which its clicks are reported.
    pub open spec fn id_of(self) -> Seq<char> {
        match self {
            MenuEntry::Show => "show"@,
            MenuEntry::Settings => "settings"@,
            MenuEntry::Quit => "quit"@,
        }
    }

    /// The text the entry shows.
    pub open spec fn label_of(self) -> Seq<char> {
        match self {
            MenuEntry::Show => "显示主界面"@,
            MenuEntry::Settings => "设置"@,
            MenuEntry::Quit => "退出"@,
        }
    }

    /// The entry registered under `id`, if there is one.
    pub open spec fn with_id(id: Seq<char>) -> Option<MenuEntry> {
        if id == MenuEntry::Show.id_of() {
            Some(MenuEntry::Show)
        } else if id == MenuEntry::Settings.id_of() {
            Some(MenuEntry::Settings)
        } else if id == MenuEntry::Quit.id_of() {
            Some(MenuEntry::Quit)
        } else {
            None
        }
    }

    /// The entry's identifier.
    pub fn id(self) -> (id: &'static str)
        ensures
            id@ == self.id_of(),
    {
        match self {
            MenuEntry::Show => "show",
            MenuEntry::Settings => "settings",
            MenuEntry::Quit => "quit",
        }
    }

    /// The entry's label.
    pub fn label(self) -> (label: &'static str)
        ensures
            label@ == self.label_of(),
    {
        match self {
            MenuEntry::Show => "显示主界面",
            MenuEntry::Settings => "设置",
            MenuEntry::Quit => "退出",
        }
    }

    /// Finds the entry that a reported identifier names. Identifiers are
    /// compared character by character; one that names no entry gives `None`.
    pub fn from_id(id: &str) -> (entry: Option<MenuEntry>)
        ensures
            entry == MenuEntry::with_id(id@),
    {
        if same_text(id, MenuEntry::Show.id()) {
            Some(MenuEntry::Show)
        } else if same_text(id, MenuEntry::Settings.id()) {
            Some(MenuEntry::Settings)
        } else if same_text(id, MenuEntry::Quit.id()) {
            Some(MenuEntry::Quit)
        } else {
            None
        }
    }
}

/// The entries of the tray menu, from top to bottom.
pub open spec fn tray_menu_entries() -> Seq<MenuEntry> {
    seq![MenuEntry::Show, MenuEntry::Settings, MenuEntry::Quit]
}

/// The entries of the tray menu, from top to bottom.
pub fn tray_menu() -> (entries: Vec<MenuEntry>)
    ensures
        entries@ == tray_menu_entries(),
{
    let mut entries: Vec<MenuEntry> = Vec::new();
    entries.push(MenuEntry::Show);
    entries.push(MenuEntry::Settings);
    entries.push(MenuEntry::Quit);
    entries
}

/// No two entries share an identifier.
pub proof fn lemma_ids_are_distinct(a: MenuEntry, b: MenuEntry)
    requires
        a != b,
    ensures
        a.id_of() != b.id_of(),
{
    reveal_strlit("show");
    reveal_strlit("settings");
    reveal_strlit("quit");
    assert(MenuEntry::Show.id_of().len() == 4);
    assert(MenuEntry::Settings.id_of().len() == 8);
    assert(MenuEntry::Quit.id_of().len() == 4);
    assert(MenuEntry::Show.id_of()[0] == 's');
    assert(MenuEntry::Quit.id_of()[0] == 'q');
}

/// An identifier names an entry exactly when it is that entry's identifier.
pub proof fn lemma_with_id_inverts_id(id: Seq<char>, entry: MenuEntry)
    ensures
        MenuEntry::with_id(id) == Some(entry) <==> id == entry.id_of(),
{
    lemma_ids_are_distinct(MenuEntry::Show, MenuEntry::Settings);
    lemma_ids_are_distinct(MenuEntry::Show, MenuEntry::Quit);
    lemma_ids_are_distinct(MenuEntry::Settings, MenuEntry::Quit);
}

/// Every entry of the menu is found again under its identifier, and the menu
/// lists every entry once.
pub proof fn lemma_menu_is_complete(entry: MenuEntry)
    ensures
        MenuEntry::with_id(entry.id_of()) == Some(entry),
        exists|i: int| 0 <= i < tray_menu_entries().len() && tray_menu_entries()[i] == entry,
        forall|i: int, j: int|
            0 <= i < j < tray_menu_entries().len() ==> tray_menu_entries()[i]
                != tray_menu_entries()[j],
{
    lemma_with_id_inverts_id(entry.id_of(), entry);
    let entries = tray_menu_entries();
    assert(entries[0] == MenuEntry::Show);
    assert(entries[1] == MenuEntry::Settings);
    assert(entries[2] == MenuEntry::Quit);
}

} // verus!
