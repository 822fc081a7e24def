use wrusp::accounts::{
    add_account, remove_account, rename_account, reorder_accounts, set_account_color,
    set_account_muted, profile_to_delete, step_account_zoom, EMPTY_NAME, NOT_FOUND,
};
use wrusp::config::{sanitize_accounts, valid_account_id, Account};
use wrusp::shell::ActiveView;

fn cuenta(id: &str, name: &str) -> Account {
    Account { id: id.into(), name: name.into(), zoom_percent: 100, color: None, muted: false }
}

fn ids(accs: &[Account]) -> Vec<&str> {
    accs.iter().map(|a| a.id.as_str()).collect()
}

#[test]
fn ids_de_cuenta_solo_uuid_canonico() {
    assert!(valid_account_id("3f0a2b9c-1234-4abc-8def-0123456789ab"));

    assert!(!valid_account_id(""));
    assert!(!valid_account_id("../otro"));
    assert!(!valid_account_id("/etc/passwd"));
    assert!(!valid_account_id("3F0A2B9C-1234-4ABC-8DEF-0123456789AB")); // mayúsculas
    assert!(!valid_account_id("{3f0a2b9c-1234-4abc-8def-0123456789ab}")); // con llaves
    assert!(!valid_account_id("3f0a2b9c12344abc8def0123456789ab")); // sin guiones
}

#[test]
fn el_saneado_descarta_ids_invalidos_y_duplicados() {
    let valida = "3f0a2b9c-1234-4abc-8def-0123456789ab";
    let mut accounts = vec![
        cuenta(valida, "buena"),
        cuenta(valida, "duplicada"),
        cuenta("../fuera", "escapista"),
        cuenta("/etc", "absoluta"),
        cuenta("", "vacía"),
    ];
    sanitize_accounts(&mut accounts);
    assert_eq!(accounts.len(), 1);
    assert_eq!(accounts[0].name, "buena");
}

#[test]
fn new_accounts_get_a_trimmed_name_and_a_fresh_canonical_id() {
    let mut accs = Vec::new();
    let a = add_account(&mut accs, "  Personal \n").expect("a name");
    assert_eq!(a.name, "Personal");
    assert!(valid_account_id(&a.id));
    assert_eq!(a.zoom_percent, 100);
    assert_eq!(a.color, None);
    assert!(!a.muted);
    let b = add_account(&mut accs, "Trabajo").unwrap();
    assert_ne!(a.id, b.id, "two accounts never share an id");
    assert_eq!(ids(&accs), vec![a.id.as_str(), b.id.as_str()]);

    assert_eq!(add_account(&mut accs, "   ").unwrap_err(), EMPTY_NAME);
    assert_eq!(accs.len(), 2);
}

#[test]
fn renaming_recolouring_and_muting_touch_only_that_account() {
    let mut accs = vec![cuenta("a", "Uno"), cuenta("b", "Dos")];
    assert_eq!(rename_account(&mut accs, "b", "  Tres "), Ok(()));
    assert_eq!(accs[1].name, "Tres");
    assert_eq!(accs[0].name, "Uno");
    assert_eq!(rename_account(&mut accs, "b", " "), Err(EMPTY_NAME.to_string()));
    assert_eq!(rename_account(&mut accs, "zz", "X"), Err(NOT_FOUND.to_string()));

    assert_eq!(set_account_color(&mut accs, "a", Some(" #1fa855 ")), Ok(()));
    assert_eq!(accs[0].color.as_deref(), Some("#1fa855"));
    assert_eq!(set_account_color(&mut accs, "a", Some("   ")), Ok(()));
    assert_eq!(accs[0].color, None, "a blank colour means none");
    assert_eq!(set_account_color(&mut accs, "zz", None), Err(NOT_FOUND.to_string()));

    assert_eq!(set_account_muted(&mut accs, "a", true), Ok(()));
    assert!(accs[0].muted);
    assert!(!accs[1].muted);
    assert_eq!(set_account_muted(&mut accs, "zz", true), Err(NOT_FOUND.to_string()));
}

#[test]
fn reordering_follows_the_page_and_keeps_every_account() {
    let mut accs = vec![cuenta("a", "A"), cuenta("b", "B"), cuenta("c", "C"), cuenta("d", "D")];
    reorder_accounts(&mut accs, &vec!["c".to_string(), "a".to_string()]);
    assert_eq!(ids(&accs), vec!["c", "a", "b", "d"]);
    // Unknown ids are skipped; the order of the rest is kept.
    reorder_accounts(&mut accs, &vec!["x".to_string(), "d".to_string()]);
    assert_eq!(ids(&accs), vec!["d", "c", "a", "b"]);
    reorder_accounts(&mut accs, &vec![]);
    assert_eq!(ids(&accs), vec!["d", "c", "a", "b"]);
    // An id sent twice places its account once.
    reorder_accounts(&mut accs, &vec!["a".to_string(), "a".to_string(), "b".to_string()]);
    assert_eq!(ids(&accs), vec!["a", "b", "d", "c"]);
}

#[test]
fn removing_an_account_says_whether_it_was_on_screen() {
    let mut accs = vec![cuenta("a", "A"), cuenta("b", "B")];
    assert!(remove_account(&mut accs, &ActiveView("a".into()), "a"));
    assert_eq!(ids(&accs), vec!["b"]);
    assert!(!remove_account(&mut accs, &ActiveView("settings".into()), "b"));
    assert!(accs.is_empty());
    assert!(!remove_account(&mut accs, &ActiveView("x".into()), "nadie"));
}

#[test]
fn only_the_confined_profile_of_a_valid_id_is_deleted() {
    let root = "/tmp/wrusp-perfiles";
    let id = "3f0a2b9c-1234-4abc-8def-0123456789ab";
    assert_eq!(profile_to_delete(root, id), Some(format!("{root}/{id}")));
    assert_eq!(profile_to_delete(root, "../otro"), None);
    assert_eq!(profile_to_delete(root, "/etc"), None);
    assert_eq!(profile_to_delete(root, ""), None);
}

#[test]
fn the_zoom_step_changes_only_the_active_account() {
    let mut accs = vec![cuenta("a", "A"), cuenta("b", "B")];
    assert_eq!(step_account_zoom(&mut accs, "b", "in"), Some(110));
    assert_eq!(accs[1].zoom_percent, 110);
    assert_eq!(accs[0].zoom_percent, 100);
    assert_eq!(step_account_zoom(&mut accs, "b", "reset"), Some(100));
    assert_eq!(step_account_zoom(&mut accs, "a", "out"), Some(90));
    assert_eq!(step_account_zoom(&mut accs, "nadie", "in"), None);
    assert_eq!(accs[0].zoom_percent, 90);
    assert_eq!(accs[1].zoom_percent, 100);
}
