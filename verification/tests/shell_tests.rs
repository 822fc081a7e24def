use wrusp::config::Account;
use wrusp::shell::{
    aislado, decide_order, notification_is_redundant, order_of_uri, total_unread, unread_count_from_title,
    unread_indicators, unread_order_authorized, view_label, zoom_after_step, Orden, Unread,
};
use wrusp::urls::{account_navigation_allowed, UrlParts};

fn url(s: &str) -> UrlParts {
    UrlParts::parse(s).expect("una dirección válida")
}

fn cuenta(id: &str, name: &str) -> Account {
    Account { id: id.into(), name: name.into(), zoom_percent: 100, color: None, muted: false }
}

#[test]
fn una_vista_solo_actualiza_su_propio_contador() {
    assert!(unread_order_authorized("account-personal", "personal"));

    assert!(!unread_order_authorized("account-trabajo", "personal"));
    assert!(!unread_order_authorized("settings", "personal"));
    assert!(!unread_order_authorized("personal", "personal")); // sin prefijo
}

#[test]
fn notifications_are_only_redundant_for_the_focused_account() {
    assert!(notification_is_redundant(true, "personal", "personal"));
    assert!(!notification_is_redundant(false, "personal", "personal"));
    assert!(!notification_is_redundant(true, "personal", "trabajo"));
}

#[test]
fn account_views_only_accept_whatsapp_origins() {
    let whatsapp = url("https://web.whatsapp.com/");
    // Infraestructura que la propia página carga en iframes.
    let pdf = url("https://webtp.whatsapp.net/pdf-viewer/?locale=es_ES");
    let flows = url("https://flows.whatsapp.net/flows/cache_management/");

    let subdomain = url("https://assets.web.whatsapp.com/");
    let lookalike = url("https://web.whatsapp.com.example.org/");
    // No basta con que el dominio termine parecido.
    let net_lookalike = url("https://malo.whatsapp.net.example.org/");
    // La web pública no es la aplicación: sus enlaces se abren fuera.
    let publica = url("https://www.whatsapp.com/");
    let insecure = url("http://web.whatsapp.com/");
    let custom_port = url("https://web.whatsapp.com:444/");

    assert!(account_navigation_allowed(&whatsapp));
    assert!(account_navigation_allowed(&pdf));
    assert!(account_navigation_allowed(&flows));

    assert!(!account_navigation_allowed(&subdomain));
    assert!(!account_navigation_allowed(&lookalike));
    assert!(!account_navigation_allowed(&net_lookalike));
    assert!(!account_navigation_allowed(&publica));
    assert!(!account_navigation_allowed(&insecure));
    assert!(!account_navigation_allowed(&custom_port));
}

#[test]
fn blob_downloads_only_from_the_page_itself() {
    // Así entrega WhatsApp los ficheros de un chat: navegación a un blob
    // creado por la propia página, que WebKit convierte en descarga.
    let propio = url("blob:https://web.whatsapp.com/3f0a2b9c");

    let ajeno = url("blob:https://ejemplo.org/3f0a2b9c");
    let publico = url("blob:https://www.whatsapp.com/3f0a2b9c");
    let anidado = url("blob:blob:https://web.whatsapp.com/x");
    let ilegible = url("blob:no-es-una-url");

    assert!(account_navigation_allowed(&propio));

    assert!(!account_navigation_allowed(&ajeno));
    assert!(!account_navigation_allowed(&publico));
    assert!(!account_navigation_allowed(&anidado));
    assert!(!account_navigation_allowed(&ilegible));
}

#[test]
fn unread_count_only_comes_from_the_title_prefix() {
    assert_eq!(unread_count_from_title("(12) WhatsApp"), 12);
    assert_eq!(unread_count_from_title("WhatsApp (12)"), 0);
    assert_eq!(unread_count_from_title("(no) WhatsApp"), 0);
    assert_eq!(unread_count_from_title("WhatsApp"), 0);
}

#[test]
fn the_empty_page_is_allowed_and_other_schemes_are_not() {
    assert!(account_navigation_allowed(&url("about:blank")));
    assert!(!account_navigation_allowed(&url("file:///etc/passwd")));
    assert!(!account_navigation_allowed(&url("https://web.whatsapp.com.evil/")));
}

#[test]
fn view_labels_and_isolated_scripts() {
    assert_eq!(view_label("abc"), "account-abc");
    assert_eq!(aislado(String::new()), "");
    assert_eq!(
        aislado("x();".to_string()),
        "try {\nx();\n} catch (e) { console.error('wrusp: falló un script de arranque', e); }"
    );
}

#[test]
fn zoom_steps_stay_between_half_and_two_and_a_half() {
    assert_eq!(zoom_after_step(100, "in"), 110);
    assert_eq!(zoom_after_step(100, "out"), 90);
    assert_eq!(zoom_after_step(250, "in"), 250);
    assert_eq!(zoom_after_step(50, "out"), 50);
    assert_eq!(zoom_after_step(170, "reset"), 100);
    assert_eq!(zoom_after_step(170, "cualquier cosa"), 100);
}

#[test]
fn unread_counts_add_up_and_show_in_title_and_tooltip() {
    let cuentas = vec![cuenta("a", "Personal"), cuenta("b", "Trabajo"), cuenta("c", "Otra")];
    let mut unread = Unread::new();
    assert_eq!(total_unread(&cuentas, &unread), 0);
    let (title, tooltip) = unread_indicators(&cuentas, &unread);
    assert_eq!(title, "Wrusp");
    assert_eq!(tooltip, "Wrusp — sin mensajes nuevos");

    assert!(unread.set("a", 3));
    assert!(!unread.set("a", 3), "the same count changes nothing");
    assert!(unread.set("b", 12));
    assert!(unread.set("zzz", 100), "counts of unknown accounts are kept but not added");
    assert_eq!(unread.get("a"), Some(3));
    assert_eq!(unread.get("c"), None);
    assert_eq!(total_unread(&cuentas, &unread), 15);
    let (title, tooltip) = unread_indicators(&cuentas, &unread);
    assert_eq!(title, "(15) Wrusp");
    assert_eq!(tooltip, "Wrusp — Personal: 3 · Trabajo: 12");
}

#[test]
fn orders_from_the_views_are_decided_by_their_host() {
    assert!(matches!(decide_order("settings", "switch", "/abc", None), Orden::Switch(id) if id == "abc"));
    assert!(matches!(decide_order("settings", "settings", "", None), Orden::Settings));
    assert!(matches!(decide_order("settings", "add", "", None), Orden::Add));
    assert!(matches!(decide_order("x", "hide", "", None), Orden::Hide));
    assert!(matches!(decide_order("x", "quit", "", None), Orden::Quit));
    assert!(matches!(decide_order("x", "zoom", "/in", None), Orden::Zoom(z) if z == "in"));
    assert!(matches!(decide_order("x", "pegar", "", None), Orden::Paste));
    assert!(matches!(decide_order("account-a", "unread", "/a/7", None), Orden::Unread(id, 7) if id == "a"));
    assert!(matches!(decide_order("account-b", "unread", "/a/7", None), Orden::UnreadRefused(_)));
    assert!(matches!(decide_order("account-a", "unread", "/a/siete", None), Orden::Unread(_, 0)));
    assert!(matches!(decide_order("account-a", "unread", "/sin-barra", None), Orden::Nothing));
    assert!(matches!(decide_order("x", "otra", "", None), Orden::Unknown(a) if a == "otra"));
    assert!(matches!(decide_order("x", "log", "/", Some("hola\u{7}mundo")), Orden::Log(m) if m == "holamundo"));
}

#[test]
fn command_uris_are_read_into_orders() {
    assert!(order_of_uri("settings", "no es una url").is_none());
    assert!(matches!(order_of_uri("settings", "wrusp://switch/abc"), Some(Orden::Switch(id)) if id == "abc"));
    assert!(matches!(order_of_uri("settings", "wrusp://add"), Some(Orden::Add)));
    assert!(matches!(
        order_of_uri("account-abc", "wrusp://log/?x=1&m=hola%20mundo&m=otro"),
        Some(Orden::Log(l)) if l == "hola mundo"
    ));
    assert!(matches!(order_of_uri("account-abc", "wrusp://log/"), Some(Orden::Log(l)) if l.is_empty()));
    assert!(matches!(
        order_of_uri("account-abc", "wrusp://unread/abc/3"),
        Some(Orden::Unread(id, 3)) if id == "abc"
    ));
    assert!(matches!(
        order_of_uri("account-otra", "wrusp://unread/abc/3"),
        Some(Orden::UnreadRefused(id)) if id == "abc"
    ));
    assert!(matches!(order_of_uri("settings", "wrusp://zoom/in"), Some(Orden::Zoom(z)) if z == "in"));
}
