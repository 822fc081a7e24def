use wrusp::config::store::{load, mutate, rescue_path, temporary_path};
use wrusp::config::system::{
    fijar_para_el_motor, folder_from_dialog, get_diagnostics, is_registry_cache,
    set_autostart_enabled, sistema_operativo, spell_check_languages, system_download_dir,
    validate_dir, AutostartAction, FolderChoice, NOT_ABSOLUTE,
};
use wrusp::config::{confined_profile_path, set_toggle, Account, AppConfig, ThemeMode};
use wrusp::icon::{
    badge_mark, digit_glyph, icon_resource, unknown_icon, valid_icon_name, AppliedIcon, BadgeMark,
};
use wrusp::notifications::{on_signal, Shown, Signal};
use wrusp::permissions::{
    media_session_feature, notification_query_granted, permission_allowed, restart_target,
    PermissionKind,
};
use wrusp::startup::{engine_environment, exit_prevented, GST_RANK_VALUE};
use wrusp::tray::{build_menu, menu_action, MenuEntry, TrayAction};
use wrusp::urls::{external_url_allowed, open_external, opens_in_browser, UrlParts, NOT_ALLOWED};
use wrusp::browser::{disguise_script, fix_large_mp4_blobs_script, quiet_idle_audio_script};
use wrusp::paths::{unique_path, Reserva};
use wrusp::platform::Platform;
use wrusp::views::{
    account_of_label, account_view_scripts, chrome_user_agent, download_name, settings_view_script,
};

fn cuenta(id: &str, name: &str) -> Account {
    Account { id: id.into(), name: name.into(), zoom_percent: 100, color: None, muted: false }
}

#[test]
fn open_external_solo_abre_el_repositorio_del_proyecto() {
    let permitidas = [
        "https://github.com/Aleixenandros/Wrusp",
        "https://github.com/Aleixenandros/Wrusp/releases",
        "https://github.com/Aleixenandros/Wrusp/releases/tag/v0.4.17",
        "https://github.com/Aleixenandros/Wrusp/releases/download/v0.4.17/Wrusp-0.4.17-1.x86_64.rpm",
        "https://github.com/Aleixenandros/Wrusp/blob/main/LICENSE",
    ];
    for url in permitidas {
        assert!(external_url_allowed(url), "debería permitirse: {url}");
        assert_eq!(open_external(url), Ok(()));
    }

    let prohibidas = [
        "https://github.com/Aleixenandros/Wrusp-falso/releases",
        "https://github.com/Aleixenandros/Wruspicito",
        "https://github.com.evil.example/Aleixenandros/Wrusp",
        "https://github.com@otro.example/Aleixenandros/Wrusp",
        "https://github.com/otro/Wrusp/releases",
        "http://github.com/Aleixenandros/Wrusp",
        "https://github.com:8443/Aleixenandros/Wrusp",
        "file:///etc/passwd",
        "javascript:alert(1)",
        "data:text/html,<h1>hola",
        "",
        "no es una dirección",
    ];
    for url in prohibidas {
        assert!(!external_url_allowed(url), "no debería permitirse: {url}");
        assert_eq!(open_external(url), Err(NOT_ALLOWED.to_string()));
    }
}

#[test]
fn chat_links_reach_the_desktop_only_over_http() {
    let abre = |s: &str| opens_in_browser(&UrlParts::parse(s).unwrap());
    assert!(abre("https://example.org/"));
    assert!(abre("http://example.org/"));
    assert!(!abre("file:///etc/passwd"));
    assert!(!abre("javascript:alert(1)"));
}

#[test]
fn la_ruta_de_perfil_queda_confinada() {
    let root = "/tmp/wrusp-perfiles";
    let id = "3f0a2b9c-1234-4abc-8def-0123456789ab";
    assert_eq!(confined_profile_path(root, id), Ok(format!("{root}/{id}")));
    let ruta = confined_profile_path(root, id).unwrap();
    assert_eq!(std::path::Path::new(&ruta).parent(), Some(std::path::Path::new(root)));
    assert_eq!(std::path::Path::new(&ruta).file_name().and_then(|n| n.to_str()), Some(id));
    assert!(confined_profile_path(root, "../fuera").is_err());
    assert!(confined_profile_path(root, "/etc/passwd").is_err());
    assert!(confined_profile_path(root, "").is_err());
    assert_eq!(
        confined_profile_path(root, "no-un-uuid"),
        Err("Identificador de cuenta no válido: \"no-un-uuid\"".to_string())
    );
}

#[test]
fn a_failed_change_or_save_leaves_the_configuration_as_it_was() {
    let mut cfg = AppConfig::default();
    let r: Result<(), String> = mutate(&mut cfg, |c| set_toggle(c, "autostart", true), |_| Err("disco lleno".into()));
    assert_eq!(r, Err("disco lleno".to_string()));
    assert!(!cfg.autostart);
    let r = mutate(&mut cfg, |c| set_toggle(c, "nada", true), |_| Ok(()));
    assert_eq!(r, Err("Ajuste desconocido: nada".to_string()));
    let r = mutate(&mut cfg, |c| set_toggle(c, "autostart", true), |c| if c.autostart { Ok(()) } else { Err("x".into()) });
    assert_eq!(r, Ok(()));
    assert!(cfg.autostart);
}

#[test]
fn loading_starts_fresh_or_keeps_only_sound_accounts() {
    let fresh = load(None);
    assert!(fresh.accounts.is_empty() && fresh.close_to_tray && fresh.notifications);
    let mut leido = AppConfig::default();
    leido.theme = ThemeMode::Dark;
    leido.accounts = vec![cuenta("3f0a2b9c-1234-4abc-8def-0123456789ab", "buena"), cuenta("../x", "mala")];
    let cfg = load(Some(leido));
    assert_eq!(cfg.accounts.len(), 1);
    assert_eq!(cfg.theme, ThemeMode::Dark);
    assert_eq!(rescue_path("/home/u/.local/share/wrusp/config.json"), "/home/u/.local/share/wrusp/config.json.corrupto");
    assert_eq!(temporary_path("/d/config.json"), "/d/config.json.tmp");
}

#[test]
fn autostart_writes_or_removes_the_desktop_entry() {
    match set_autostart_enabled(true, Some("/usr/bin/wrusp"), false) {
        AutostartAction::Write(t) => assert_eq!(
            t,
            "[Desktop Entry]\nType=Application\nName=Wrusp\nComment=Cliente no oficial de WhatsApp\nExec=\"/usr/bin/wrusp\" --hidden\nIcon=wrusp\nTerminal=false\nCategories=Network;InstantMessaging;\n"
        ),
        _ => panic!("should write"),
    }
    match set_autostart_enabled(true, None, true) {
        AutostartAction::Write(t) => assert!(t.contains("Exec=\"wrusp\" --hidden")),
        _ => panic!("should write"),
    }
    assert!(matches!(set_autostart_enabled(false, None, true), AutostartAction::Remove));
    assert!(matches!(set_autostart_enabled(false, None, false), AutostartAction::Nothing));
}

#[test]
fn the_system_is_described_from_what_was_probed() {
    assert_eq!(sistema_operativo("NAME=Fedora\nPRETTY_NAME=\"Fedora Linux 44 (Workstation)\"\n"), "Fedora Linux 44 (Workstation)");
    assert_eq!(sistema_operativo("PRETTY_NAME='Debian 13'\r\nPRETTY_NAME=otro\n"), "Debian 13");
    assert_eq!(sistema_operativo("NAME=x\n"), "Linux");
    assert_eq!(sistema_operativo(""), "Linux");
    let d = get_diagnostics("W".into(), false, true, false, 1, 2, 3, "linux x86_64".into());
    assert!(d.has_h264_decoder);
    assert_eq!(d.h264_decoder_name, "openh264dec (Baseline)");
    let d = get_diagnostics("W".into(), true, true, true, 1, 2, 3, "o".into());
    assert_eq!(d.h264_decoder_name, "avdec_h264 (FFmpeg / libavcodec)");
    let d = get_diagnostics("W".into(), false, false, true, 1, 2, 3, "o".into());
    assert!(!d.has_h264_decoder && d.has_aac_decoder);
    assert_eq!(d.h264_decoder_name, "No detectado");
    assert!(is_registry_cache("registry.x86_64.bin"));
    assert!(!is_registry_cache("otra.bin"));
}

#[test]
fn folders_are_checked_and_defaulted() {
    assert!(matches!(validate_dir(""), Ok(FolderChoice::System)));
    assert!(matches!(validate_dir("/home/u/Descargas"), Ok(FolderChoice::Custom)));
    assert!(matches!(validate_dir("relativa"), Err(e) if e == NOT_ABSOLUTE));
    assert_eq!(folder_from_dialog("  /home/u/x \n"), Some("/home/u/x".to_string()));
    assert_eq!(folder_from_dialog("\n"), None);
    assert_eq!(system_download_dir(Some("/home/u/Descargas\n"), Some("/home/u"), "/tmp"), "/home/u/Descargas");
    assert_eq!(system_download_dir(Some(" "), Some("/home/u"), "/tmp"), "/home/u/Downloads");
    assert_eq!(system_download_dir(None, None, "/tmp"), "/tmp");
}

#[test]
fn engine_variables_are_recorded_unless_the_user_set_them() {
    let mut registro = Vec::new();
    assert!(fijar_para_el_motor(&mut registro, "GST_DEBUG", false));
    assert!(!fijar_para_el_motor(&mut registro, "TMPDIR", true));
    assert_eq!(registro, vec!["GST_DEBUG".to_string()]);
    let env = engine_environment(false, true, true);
    assert_eq!(env, vec![("GST_PLUGIN_FEATURE_RANK", GST_RANK_VALUE)]);
    assert_eq!(
        engine_environment(false, false, false),
        vec![
            ("GST_DEBUG", "0"),
            ("GST_PLUGIN_FEATURE_RANK", GST_RANK_VALUE),
            ("WEBKIT_GST_DISABLE_GL_SINK", "1"),
        ]
    );
    assert_eq!(engine_environment(true, false, true), vec![("WEBKIT_GST_DISABLE_GL_SINK", "1")]);
    assert!(exit_prevented(None, true));
    assert!(!exit_prevented(Some(0), true));
    assert!(!exit_prevented(None, false));
    assert_eq!(
        spell_check_languages(&vec!["es:ca".to_string(), "C".to_string(), "es_ES.UTF-8".to_string()]),
        vec!["es", "ca", "es_ES", "en_US"]
    );
}

#[test]
fn the_tray_menu_lists_the_accounts_between_separators() {
    let menu = build_menu(&vec![cuenta("a", "Personal"), cuenta("b", "Trabajo")]);
    let vista: Vec<Option<(String, String)>> = menu
        .into_iter()
        .map(|e| match e {
            MenuEntry::Item(id, label) => Some((id, label)),
            MenuEntry::Separator => None,
        })
        .collect();
    let item = |a: &str, b: &str| Some((a.to_string(), b.to_string()));
    assert_eq!(
        vista,
        vec![
            item("show-main", "Abrir Wrusp"),
            None,
            item("open-a", "Personal"),
            item("open-b", "Trabajo"),
            None,
            item("settings", "Ajustes"),
            item("quit", "Salir"),
        ]
    );
    assert_eq!(build_menu(&vec![]).len(), 4);
    assert!(matches!(menu_action("quit"), TrayAction::Quit));
    assert!(matches!(menu_action("show-main"), TrayAction::ShowMain));
    assert!(matches!(menu_action("settings"), TrayAction::Settings));
    assert!(matches!(menu_action("open-abc"), TrayAction::OpenAccount(id) if id == "abc"));
    assert!(matches!(menu_action("otra"), TrayAction::Nothing));
}

#[test]
fn icons_have_plain_names_and_are_drawn_only_when_something_changed() {
    assert!(valid_icon_name("whatsapp-logo-2449-orange"));
    assert!(!valid_icon_name(""));
    assert!(!valid_icon_name("../x"));
    assert!(!valid_icon_name("ñ"));
    assert_eq!(icon_resource("azul"), "appicons/azul.png");
    assert_eq!(unknown_icon("x"), "Icono desconocido: x");
    let mut aplicado = AppliedIcon { last: None };
    assert!(aplicado.should_apply("azul", 0));
    assert!(!aplicado.should_apply("azul", 0));
    assert!(aplicado.should_apply("azul", 3));
    assert!(aplicado.should_apply("rojo", 3));
}

#[test]
fn only_whatsapp_may_notify_and_media_sessions_are_found() {
    assert!(notification_query_granted("notifications", Some("https"), Some("web.whatsapp.com")));
    assert!(!notification_query_granted("notifications", Some("http"), Some("web.whatsapp.com")));
    assert!(!notification_query_granted("geolocation", Some("https"), Some("web.whatsapp.com")));
    assert!(!notification_query_granted("notifications", None, Some("web.whatsapp.com")));
    assert!(permission_allowed(PermissionKind::UserMedia));
    assert!(permission_allowed(PermissionKind::Notification));
    assert!(!permission_allowed(PermissionKind::Other));
    let ids = vec![None, Some(b"WebGPU".to_vec()), Some(b"MediaSession".to_vec()), Some(b"MediaSession".to_vec())];
    assert_eq!(media_session_feature(&ids), Some(2));
    assert_eq!(media_session_feature(&vec![Some(b"Media".to_vec())]), None);
    assert_eq!(restart_target(Some("https://web.whatsapp.com/")), Some("https://web.whatsapp.com/".to_string()));
    assert_eq!(restart_target(Some("")), None);
    assert_eq!(restart_target(None), None);
}

#[test]
fn a_click_opens_the_account_of_its_notification_once() {
    let mut shown = Shown::new();
    shown.sent(7, "cuenta-a".to_string());
    shown.sent(8, "cuenta-b".to_string());
    assert_eq!(on_signal(&mut shown, Signal::ActionInvoked(7)), Some("cuenta-a".to_string()));
    assert_eq!(on_signal(&mut shown, Signal::ActionInvoked(7)), None);
    assert_eq!(on_signal(&mut shown, Signal::NotificationClosed(8)), None);
    assert_eq!(on_signal(&mut shown, Signal::ActionInvoked(8)), None);
    assert_eq!(on_signal(&mut shown, Signal::Other), None);
}

#[test]
fn account_views_get_their_start_up_scripts_isolated() {
    let scripts = account_view_scripts(Platform::Linux, "abc", ThemeMode::Dark, true);
    assert_eq!(scripts.len(), 9);
    assert!(scripts.iter().all(|s| s.starts_with("try {\n") && s.ends_with("falló un script de arranque', e); }")));
    assert!(scripts[2].contains("window.__wruspGuardarFallos = true;"));
    assert!(scripts[5].contains("localStorage.setItem('theme', JSON.stringify('dark'));"));
    assert!(scripts[6].contains("window.__wruspSelf = \"abc\";"));
    assert!(settings_view_script().contains("window.__wruspSelf = \"settings\";"));
    assert_eq!(account_of_label("account-abc"), "abc");
    assert_eq!(account_of_label("settings"), "");
    assert_eq!(download_name(Some("foto.jpg")), "foto.jpg");
    assert_eq!(download_name(None), "descarga");
}

#[test]
fn the_disguise_is_that_of_each_platform() {
    assert!(chrome_user_agent(Platform::Linux).contains("(X11; Linux x86_64)"));
    assert!(chrome_user_agent(Platform::Windows).contains("(Windows NT 10.0; Win64; x64)"));
    assert!(chrome_user_agent(Platform::MacOs).contains("(Macintosh; Intel Mac OS X 10_15_7)"));
    for p in [Platform::Linux, Platform::Windows, Platform::MacOs] {
        assert!(chrome_user_agent(p).contains("Chrome/131.0.0.0"));
        let d = disguise_script(p);
        assert!(d.contains("Google Inc."));
        assert_eq!(d.contains("(X11; Linux x86_64)"), p == Platform::Linux);
        assert_eq!(fix_large_mp4_blobs_script(p).is_empty(), p != Platform::Linux);
        assert_eq!(quiet_idle_audio_script(p).is_empty(), p != Platform::Linux);
    }
    let w = account_view_scripts(Platform::Windows, "abc", ThemeMode::Dark, true);
    assert_eq!(w.len(), 9);
    assert!(!w[0].contains("(X11; Linux x86_64)"));
}

#[test]
fn sin_no_leidos_no_hay_insignia() {
    assert!(badge_mark(0, 512, 512).is_none());
}

#[test]
fn the_badge_writes_up_to_two_digits_and_needs_room() {
    assert!(badge_mark(3, 15, 512).is_none());
    assert!(badge_mark(3, 512, 15).is_none());
    assert!(matches!(badge_mark(150, 16, 16), Some(BadgeMark::Circle)));
    assert!(matches!(badge_mark(100, 32, 32), Some(BadgeMark::Circle)));
    match badge_mark(7, 32, 32) {
        Some(BadgeMark::Digits(d)) => assert_eq!(d, vec![7u8]),
        _ => panic!("expected digits"),
    }
    match badge_mark(42, 512, 512) {
        Some(BadgeMark::Digits(d)) => assert_eq!(d, vec![4u8, 2]),
        _ => panic!("expected digits"),
    }
    match badge_mark(99, 512, 512) {
        Some(BadgeMark::Digits(d)) => assert_eq!(d, vec![9u8, 9]),
        _ => panic!("expected digits"),
    }
    assert_eq!(digit_glyph(0), [0b111, 0b101, 0b101, 0b101, 0b111]);
    assert_eq!(digit_glyph(1), [0b010, 0b110, 0b010, 0b010, 0b111]);
    assert_eq!(digit_glyph(4), [0b101, 0b101, 0b111, 0b001, 0b001]);
    assert_eq!(digit_glyph(9), [0b111, 0b101, 0b111, 0b001, 0b111]);
}

#[test]
fn a_download_takes_its_own_name_or_the_lowest_free_number() {
    let taken = |ocupadas: &'static [&'static str]| {
        move |p: &String| if ocupadas.contains(&p.as_str()) { Reserva::Ocupada } else { Reserva::Hecha }
    };
    let libre = unique_path("/d/foto.jpg".to_string(), taken(&[]), || 7u128);
    assert_eq!(libre, "/d/foto.jpg");
    let dos = unique_path("/d/foto.jpg".to_string(), taken(&["/d/foto.jpg"]), || 7u128);
    assert_eq!(dos, "/d/foto (2).jpg");
    let tres = unique_path(
        "/d/foto.jpg".to_string(),
        taken(&["/d/foto.jpg", "/d/foto (2).jpg", "/d/foto (4).jpg"]),
        || 7u128,
    );
    assert_eq!(tres, "/d/foto (3).jpg");
    let imposible = unique_path("/d/foto.jpg".to_string(), |_: &String| Reserva::Imposible, || 7u128);
    assert_eq!(imposible, "/d/foto.jpg");
    let todas = unique_path("/d/fichero".to_string(), |_: &String| Reserva::Ocupada, || 123u128);
    assert_eq!(todas, "/d/fichero (123)");
}
