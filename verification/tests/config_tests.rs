use wrusp::config::{geometry_on_screen, normalize_languages, package_suffix_from, Rect};
use wrusp::config::{get_about, get_toggles, set_toggle, AppConfig, ThemeMode, DEFAULT_ICON};

#[test]
fn el_paquete_ofrecido_es_el_de_la_familia_de_la_distribucion() {
    let casos = [
        (
            "ID=fedora\nVERSION_ID=44\n",
            ".rpm",
            "Fedora, el equipo de desarrollo",
        ),
        ("ID=debian\n", ".deb", "Debian"),
        // Una derivada se reconoce por su familia, no por su nombre.
        (
            "ID=ubuntu\nID_LIKE=debian\n",
            ".deb",
            "Ubuntu declara su familia",
        ),
        (
            "ID=\"opensuse-tumbleweed\"\nID_LIKE=\"opensuse suse\"\n",
            ".rpm",
            "los valores pueden venir entrecomillados y la familia traer varios",
        ),
        ("ID=manjaro\nID_LIKE=arch\n", ".pkg.tar.zst", "Manjaro"),
        ("ID=arch\n", ".pkg.tar.zst", "Arch"),
        // Sin familia conocida, el AppImage: es el único que no necesita
        // gestor de paquetes.
        (
            "ID=void\n",
            ".AppImage",
            "una distribución que no está en la lista",
        ),
        ("", ".AppImage", "sin fichero que leer"),
        (
            "PRETTY_NAME=\"Algo\"\n# ID=fedora comentado\n",
            ".AppImage",
            "nada que parsear",
        ),
    ];
    for (os_release, esperado, caso) in casos {
        assert_eq!(package_suffix_from(os_release), esperado, "{caso}");
    }
}

#[test]
fn package_suffix_lines_may_end_in_carriage_returns_and_families_in_capitals() {
    assert_eq!(package_suffix_from("ID=\"Fedora\"\r\n"), ".rpm");
    assert_eq!(package_suffix_from("  ID  =  'Debian'  \n"), ".deb");
    assert_eq!(package_suffix_from("ID=void\nID_LIKE=\"  \"\n"), ".AppImage");
    assert_eq!(package_suffix_from("NAME=fedora\n"), ".AppImage");
}

#[test]
fn los_sufijos_casan_con_los_nombres_que_publica_el_empaquetado() {
    let publicados = [
        "Wrusp-0.4.16-1.x86_64.rpm",
        "Wrusp_0.4.16_amd64.deb",
        "Wrusp-0.4.16-1-x86_64.pkg.tar.zst",
        "Wrusp_0.4.16_amd64.AppImage",
    ];
    for sufijo in [".rpm", ".deb", ".pkg.tar.zst", ".AppImage"] {
        let casan = publicados.iter().filter(|n| n.ends_with(sufijo)).count();
        assert_eq!(
            casan, 1,
            "{sufijo} tiene que casar con un fichero y solo uno"
        );
    }
}

#[test]
fn los_idiomas_del_corrector_se_limpian_y_no_se_repiten() {
    let casos: [(&[&str], &[&str], &str); 6] = [
        (&["es_ES.UTF-8"], &["es_ES"], "la codificación sobra"),
        (&["ca_ES@valencia"], &["ca_ES"], "la variante también"),
        (&["es-ES"], &["es_ES"], "el guion se normaliza"),
        (
            &["es:en", "es_ES.UTF-8", "en_US"],
            &["es", "en", "es_ES", "en_US"],
            "se conserva el orden de preferencia y no se repite",
        ),
        (&["C", "POSIX", ""], &[], "eso no son idiomas"),
        (
            &["es_ES; rm -rf /", "en_US"],
            &["en_US"],
            "lo que no parece un idioma no llega al motor",
        ),
    ];
    for (entrada, esperado, caso) in casos {
        let crudos: Vec<String> = entrada.iter().map(|s| (*s).to_string()).collect();
        assert_eq!(normalize_languages(&crudos), esperado, "{caso}");
    }
}

#[test]
fn languages_are_trimmed_with_unicode_white_space() {
    let crudos: Vec<String> = vec!["\u{3000} fr_FR \u{a0}".to_string(), ":::".to_string()];
    assert_eq!(normalize_languages(&crudos), vec!["fr_FR".to_string()]);
}

#[test]
fn la_posicion_guardada_solo_vale_si_se_ve_en_alguna_pantalla() {
    // Portátil (0,0 1920x1080) con una pantalla externa a su derecha.
    let dos = [(0, 0, 1920, 1080), (1920, 0, 2560, 1440)];
    let solo_portatil = [(0, 0, 1920, 1080)];

    let casos: [(Rect, &[Rect], bool, &str); 7] = [
        ((100, 100, 1100, 720), &dos, true, "dentro del portátil"),
        ((2200, 300, 1100, 720), &dos, true, "dentro de la externa"),
        (
            (2200, 300, 1100, 720),
            &solo_portatil,
            false,
            "en la externa, que ya no está conectada",
        ),
        (
            (1870, 200, 1100, 720),
            &solo_portatil,
            false,
            "a caballo, pero solo asoman 50 px: no hay de dónde agarrarla",
        ),
        (
            (1600, 200, 1100, 720),
            &solo_portatil,
            true,
            "a caballo con un trozo suficiente dentro",
        ),
        (
            (-1100, 0, 1100, 720),
            &dos,
            false,
            "justo a la izquierda de todo",
        ),
        ((0, 0, 1100, 720), &[], false, "sin pantallas que consultar"),
    ];
    for (ventana, monitores, esperado, caso) in casos {
        assert_eq!(geometry_on_screen(ventana, monitores), esperado, "{caso}");
    }
}

#[test]
fn a_fresh_install_has_the_documented_settings() {
    let por_defecto = AppConfig::default();
    assert!(por_defecto.accounts.is_empty());
    assert!(por_defecto.theme == ThemeMode::System);
    assert_eq!(por_defecto.icon, DEFAULT_ICON);
    assert!(por_defecto.close_to_tray);
    assert!(por_defecto.notifications);
    assert!(por_defecto.spell_check);
    assert!(!por_defecto.autostart);
    assert!(!por_defecto.save_failed_media);
    assert!(!por_defecto.notification_privacy);
}

#[test]
fn unknown_switches_are_refused_and_change_nothing() {
    let mut cfg = AppConfig::default();
    assert_eq!(set_toggle(&mut cfg, "autostart", true), Ok(()));
    assert!(cfg.autostart);
    assert_eq!(
        set_toggle(&mut cfg, "modoTurbo", true),
        Err("Ajuste desconocido: modoTurbo".to_string())
    );
    let t = get_toggles(&cfg);
    assert!(t.autostart && t.close_to_tray && t.notifications && t.spell_check);
    assert!(!t.notification_privacy && !t.save_failed_media);
    assert_eq!(set_toggle(&mut cfg, "closeToTray", false), Ok(()));
    assert!(!get_toggles(&cfg).close_to_tray);
}

#[test]
fn about_pages_hang_from_the_repository() {
    let a = get_about("https://github.com/Aleixenandros/Wrusp", "0.4.17", ".rpm", "x86_64");
    assert_eq!(a.releases, "https://github.com/Aleixenandros/Wrusp/releases");
    assert_eq!(a.issues, "https://github.com/Aleixenandros/Wrusp/issues");
    assert_eq!(a.license, "https://github.com/Aleixenandros/Wrusp/blob/main/LICENSE");
    assert_eq!(a.package_suffix, ".rpm");
}
