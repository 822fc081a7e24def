//! The tray icon's menu, rebuilt whenever the list of accounts changes, and
//! what each of its entries does.
use vstd::prelude::*;
use crate::config::model::Account;
use crate::text::{chars_of, push_str, slice_chars, str_eq, string_of};
use crate::urls::{starts_with, starts_with_str};

verus! {

/// Id of the tray icon.
pub const TRAY_ID: &'static str = "wrusp-tray";

/// What the ids of the account entries start with.
pub const OPEN_PREFIX: &'static str = "open-";

/// Tooltip before any count is known.
pub const TOOLTIP: &'static str = "Wrusp — WhatsApp no oficial";

/// An entry of the menu: an item with its id and label, or a separator.
pub enum MenuEntry {
    Item(String, String),
    Separator,
}

/// An entry as plain values: `None` for a separator.
pub open spec fn entry_view(e: MenuEntry) -> Option<(Seq<char>, Seq<char>)> {
    match e {
        MenuEntry::Item(id, label) => Some((id@, label@)),
        MenuEntry::Separator => None,
    }
}

/// The menu: open the window, then one entry per account (with a separator
/// after them when there are any), then the settings and quitting.
pub open spec fn menu_spec(accounts: Seq<Account>) -> Seq<Option<(Seq<char>, Seq<char>)>> {
    seq![Some(("show-main"@, "Abrir Wrusp"@)), None] + accounts.map_values(
        |a: Account| Some((OPEN_PREFIX@ + a.id@, a.name@)),
    ) + (if accounts.len() > 0 {
        seq![None]
    } else {
        Seq::empty()
    }) + seq![Some(("settings"@, "Ajustes"@)), Some(("quit"@, "Salir"@))]
}

fn item(id: &str, label: &str) -> (e: MenuEntry)
    ensures
        entry_view(e) == Some((id@, label@)),
{
    MenuEntry::Item(String::from_str(id), String::from_str(label))
}

/// Builds the tray menu for the accounts.
pub fn build_menu(accounts: &Vec<Account>) -> (menu: Vec<MenuEntry>)
    ensures
        menu@.map_values(|e: MenuEntry| entry_view(e)) == menu_spec(accounts@),
{
    let mut menu: Vec<MenuEntry> = Vec::new();
    menu.push(item("show-main", "Abrir Wrusp"));
    menu.push(MenuEntry::Separator);
    let ghost head = menu@.map_values(|e: MenuEntry| entry_view(e));
    let mut i: usize = 0;
    while i < accounts.len()
        invariant
            i <= accounts@.len(),
            head == seq![Some(("show-main"@, "Abrir Wrusp"@)), None::<(Seq<char>, Seq<char>)>],
            menu@.map_values(|e: MenuEntry| entry_view(e)) == head + accounts@.take(
                i as int,
            ).map_values(|a: Account| Some((OPEN_PREFIX@ + a.id@, a.name@))),
        decreases accounts.len() - i,
    {
        let mut id = String::from_str(OPEN_PREFIX);
        push_str(&mut id, accounts[i].id.as_str());
        let e = MenuEntry::Item(id, accounts[i].name.clone());
        let ghost before = menu@;
        let ghost expected = |a: Account| Some((OPEN_PREFIX@ + a.id@, a.name@));
        assert(entry_view(e) == expected(accounts@[i as int]));
        menu.push(e);
        proof {
            assert(accounts@.take(i + 1) =~= accounts@.take(i as int).push(accounts@[i as int]));
            assert(menu@ =~= before.push(e));
            assert(menu@.map_values(|e: MenuEntry| entry_view(e)) =~= before.map_values(
                |e: MenuEntry| entry_view(e),
            ).push(entry_view(e)));
            assert(accounts@.take(i + 1).map_values(expected) =~= accounts@.take(
                i as int,
            ).map_values(expected).push(expected(accounts@[i as int])));
        }
        i = i + 1;
        assert(menu@.map_values(|e: MenuEntry| entry_view(e)) =~= head + accounts@.take(
            i as int,
        ).map_values(|a: Account| Some((OPEN_PREFIX@ + a.id@, a.name@))));
    }
    assert(accounts@.take(accounts@.len() as int) =~= accounts@);
    let ghost middle = menu@.map_values(|e: MenuEntry| entry_view(e));
    if accounts.len() > 0 {
        menu.push(MenuEntry::Separator);
    }
    let ghost with_sep = menu@.map_values(|e: MenuEntry| entry_view(e));
    assert(with_sep =~= middle + (if accounts@.len() > 0 {
        seq![None::<(Seq<char>, Seq<char>)>]
    } else {
        Seq::empty()
    }));
    menu.push(item("settings", "Ajustes"));
    menu.push(item("quit", "Salir"));
    assert(menu@.map_values(|e: MenuEntry| entry_view(e)) =~= menu_spec(accounts@));
    menu
}

/// What an entry of the tray menu asks for.
pub enum TrayAction {
    Quit,
    ShowMain,
    Settings,
    /// Show the account with this id.
    OpenAccount(String),
    Nothing,
}

/// The action of the entry with the id `id`.
pub fn menu_action(id: &str) -> (a: TrayAction)
    ensures
        id@ == "quit"@ ==> a is Quit,
        id@ == "show-main"@ ==> a is ShowMain,
        id@ == "settings"@ ==> a is Settings,
        id@ != "quit"@ && id@ != "show-main"@ && id@ != "settings"@ ==> if starts_with(
            id@,
            OPEN_PREFIX@,
        ) {
            a matches TrayAction::OpenAccount(acc) && acc@ == id@.skip(OPEN_PREFIX@.len() as int)
        } else {
            a is Nothing
        },
{
    proof {
        reveal_strlit("quit");
        reveal_strlit("show-main");
        reveal_strlit("settings");
        assert("quit"@.len() == 4);
        assert("show-main"@.len() == 9);
        assert("settings"@.len() == 8);
    }
    if str_eq(id, "quit") {
        TrayAction::Quit
    } else if str_eq(id, "show-main") {
        TrayAction::ShowMain
    } else if str_eq(id, "settings") {
        TrayAction::Settings
    } else if starts_with_str(id, OPEN_PREFIX) {
        let v = chars_of(id);
        let p = chars_of(OPEN_PREFIX);
        let rest = slice_chars(&v, p.len(), v.len());
        assert(rest@ =~= id@.skip(OPEN_PREFIX@.len() as int));
        TrayAction::OpenAccount(string_of(&rest))
    } else {
        TrayAction::Nothing
    }
}

} // verus!
