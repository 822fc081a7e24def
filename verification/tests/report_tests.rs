use wrusp::config::SystemDiagnostics;
use wrusp::report::{anonymize_path, megas, report_markdown};

fn diag() -> SystemDiagnostics {
    SystemDiagnostics {
        webkit_version: "WebKitGTK 2.52.5".into(),
        has_h264_decoder: true,
        h264_decoder_name: "avdec_h264 (FFmpeg / libavcodec)".into(),
        has_aac_decoder: true,
        gstreamer_cache_size: 1024 * 1024,
        profiles_size: 300 * 1024 * 1024,
        log_size: 5 * 1024 * 1024,
        os_info: "linux x86_64".into(),
    }
}

#[test]
fn el_informe_de_diagnostico_no_lleva_datos_personales() {
    let variables = vec![("GST_PLUGIN_FEATURE_RANK".to_string(), "vah264dec:0".to_string())];
    let informe = report_markdown(
        &diag(),
        2,
        "1100×720 px, escala 1",
        "Fedora Linux 44",
        &variables,
        "/home/aleixenandros",
        "0.4.17",
    );

    for esperado in [
        "0.4.17",
        "Fedora Linux 44",
        "WebKitGTK 2.52.5",
        "avdec_h264",
        "GST_PLUGIN_FEATURE_RANK",
        "300.0 MiB",
    ] {
        assert!(informe.contains(esperado), "debería informar de {esperado}");
    }
    assert!(!informe.contains('@'), "nada que parezca un correo");

    // La carpeta personal lleva el nombre de quien usa el equipo.
    let con_home = anonymize_path(
        "perfiles en /home/aleixenandros/.local/share/wrusp/profiles",
        "/home/aleixenandros",
    );
    assert_eq!(con_home, "perfiles en ~/.local/share/wrusp/profiles");
    // Sin HOME que sustituir, el texto se queda como está en vez de
    // llenarse de tildes.
    assert_eq!(anonymize_path("/usr/share", ""), "/usr/share");
    assert_eq!(anonymize_path("/usr/share", "/"), "/usr/share");
}

#[test]
fn the_report_has_every_line_in_order() {
    let informe = report_markdown(&diag(), 2, "sin ventana", "Fedora Linux 44", &vec![], "/home/u", "0.4.17");
    assert_eq!(
        informe,
        "### Diagnóstico de Wrusp\n\n\
         - **Wrusp:** 0.4.17\n\
         - **Sistema:** Fedora Linux 44 (linux x86_64)\n\
         - **Motor:** WebKitGTK 2.52.5\n\
         - **Decodificador H.264:** avdec_h264 (FFmpeg / libavcodec)\n\
         - **Decodificador AAC:** avdec_aac\n\
         - **Ventana:** sin ventana\n\
         - **Cuentas configuradas:** 2\n\
         - **En disco:** perfiles 300.0 MiB, caché de GStreamer 1.0 MiB, registro 5.0 MiB\n\
         - **Variables multimedia:** ninguna\n\
         \n_Sin nombres de cuenta, identificadores ni contenido de mensajes. Las rutas personales aparecen como `~`._\n"
    );
}

#[test]
fn the_home_folder_never_shows_in_the_report() {
    let home = "/home/maria";
    let mut d = diag();
    d.has_h264_decoder = false;
    d.has_aac_decoder = false;
    d.webkit_version = "/home/maria/webkit".into();
    let variables = vec![
        ("GST_DEBUG".to_string(), "/home/maria/gst.log".to_string()),
        ("WRUSP_GUARDAR_MEDIOS_FALLIDOS".to_string(), "/home/maria/home/maria".to_string()),
    ];
    let informe = report_markdown(&d, 0, "/home/maria", "/home/mariano", &variables, home, "1");
    assert!(!informe.contains(home), "{informe}");
    assert!(informe.contains("~no (linux x86_64)"));
    assert!(informe.contains("`GST_DEBUG=~/gst.log`, `WRUSP_GUARDAR_MEDIOS_FALLIDOS=~~`"));
    assert!(informe.contains("- **Decodificador H.264:** no detectado\n"));
    assert!(informe.contains("- **Decodificador AAC:** no detectado\n"));
}

#[test]
fn replacing_goes_left_to_right_without_overlap() {
    assert_eq!(anonymize_path("aaaa", "aa"), "~~");
    assert_eq!(anonymize_path("aaa", "aa"), "~a");
    assert_eq!(anonymize_path("xay", "a"), "x~y");
}

#[test]
fn sizes_in_mib_match_the_float_formatting() {
    let mut casos: Vec<u64> = vec![
        0,
        1,
        52428,
        52429,
        104857,
        262144,
        786432,
        1048576,
        1572864,
        314572800,
        5 * 1024 * 1024,
        (1u64 << 53) - 1,
        1u64 << 53,
        (1u64 << 53) + 1,
        (1u64 << 54) + 2,
        (1u64 << 54) + 6,
        u64::MAX,
        u64::MAX - 1024,
        12345678901234567890,
    ];
    for k in 0..200u64 {
        casos.push(k * 26214 + 13107);
        casos.push(k.wrapping_mul(0x9E37_79B9_7F4A_7C15));
    }
    for b in casos {
        let esperado = format!("{:.1} MiB", b as f64 / (1024.0 * 1024.0));
        assert_eq!(megas(b), esperado, "{b} bytes");
    }
}
