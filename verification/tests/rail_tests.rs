use serde_json::Value;
use wrusp::config::Account;
use wrusp::rail::{initials, runtime_script, state_script, WIDTH};
use wrusp::shell::Unread;

fn cuenta(id: &str, name: &str) -> Account {
    Account { id: id.into(), name: name.into(), zoom_percent: 100, color: None, muted: false }
}

#[test]
fn initials_come_from_the_first_two_words() {
    assert_eq!(initials("maría josé pérez"), "MJ");
    assert_eq!(initials("  trabajo  "), "T");
    assert_eq!(initials(""), "?");
    assert_eq!(initials("   \t "), "?");
    assert_eq!(initials("ßig deal"), "SSD", "upper case may take two letters");
    assert_eq!(initials("émile\u{3000}zola"), "ÉZ", "any Unicode white space separates words");
}

fn expected_state(accounts: &[(&str, &str, &str, u64)], active: &str, dark: bool) -> String {
    let items: Vec<Value> = accounts
        .iter()
        .map(|(id, name, ini, unread)| {
            let mut m = serde_json::Map::new();
            m.insert("id".to_string(), Value::String(id.to_string()));
            m.insert("name".to_string(), Value::String(name.to_string()));
            m.insert("initials".to_string(), Value::String(ini.to_string()));
            m.insert("unread".to_string(), Value::from(*unread));
            Value::Object(m)
        })
        .collect();
    let mut state = serde_json::Map::new();
    state.insert("accounts".to_string(), Value::Array(items));
    state.insert("active".to_string(), Value::String(active.to_string()));
    state.insert("dark".to_string(), Value::Bool(dark));
    state.insert("width".to_string(), Value::from(WIDTH));
    format!("window.__wruspState = {}; window.__wruspRender && window.__wruspRender();", Value::Object(state))
}

#[test]
fn the_sidebar_state_is_the_json_serde_json_writes() {
    let cuentas = vec![cuenta("a", "Personal \"casa\""), cuenta("b", "Trabajo\n\tdos\u{1}")];
    let mut unread = Unread::new();
    unread.set("b", 7);
    let esperado = expected_state(
        &[("a", "Personal \"casa\"", "P\"", 0), ("b", "Trabajo\n\tdos\u{1}", "TD", 7)],
        "settings",
        true,
    );
    assert_eq!(state_script(&cuentas, "settings", true, &unread), esperado);
    assert_eq!(
        state_script(&vec![], "a\\b", false, &Unread::new()),
        expected_state(&[], "a\\b", false)
    );
}

#[test]
fn the_sidebar_machinery_knows_its_own_view() {
    let s = runtime_script("3f0a2b9c-1234-4abc-8def-0123456789ab");
    assert!(s.starts_with("(function () {\n"));
    assert!(s.contains("window.__wruspSelf = \"3f0a2b9c-1234-4abc-8def-0123456789ab\";"));
    assert!(s.ends_with("})();"));
    assert!(!s.contains("{{"), "the braces of the template are single");
    let settings = runtime_script("settings");
    assert!(settings.contains("window.__wruspSelf = \"settings\";"));
    let raro = runtime_script("a\"b");
    assert!(raro.contains("window.__wruspSelf = \"a\\\"b\";"));
}
