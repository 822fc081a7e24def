use wrusp::clipboard::{imagen_de_la_pagina, script_leer_imagen, ImagenFallida, MAX_IMAGEN};
use wrusp::diagnostico::{medio_de_la_pagina, nombre_medio_fallido, pedir_medio_fallido, MedioFallido};
use wrusp::filedrop::{
    pasted_file_paths,
    admite_fichero, mime_for_extension, mime_por_extension, nombre_de_fichero, script,
    script_entregar, script_fichero, script_trozo, MAX_FICHERO,
};

#[test]
fn the_content_type_comes_from_the_extension_in_any_case() {
    assert_eq!(mime_por_extension("/tmp/foto.PNG"), "image/png");
    assert_eq!(mime_por_extension("/tmp/a.b.JpEg"), "image/jpeg");
    assert_eq!(mime_por_extension("informe.docx"), "application/vnd.openxmlformats-officedocument.wordprocessingml.document");
    assert_eq!(mime_por_extension("copia.tar.gz"), "application/gzip");
    assert_eq!(mime_por_extension("sin_extension"), "application/octet-stream");
    assert_eq!(mime_por_extension(".oculto"), "application/octet-stream");
    assert_eq!(mime_por_extension("raro.xyz"), "application/octet-stream");
    assert_eq!(mime_for_extension("opus"), "audio/opus");
    assert_eq!(mime_for_extension("OPUS"), "application/octet-stream", "the table is in lower case");
}

#[test]
fn the_scripts_carry_the_pieces_and_the_names() {
    assert_eq!(script_trozo(0, b"foo"), "window.__wruspTrozo && window.__wruspTrozo(0, \"Zm9v\")");
    assert_eq!(
        script_fichero(2, "mi \"foto\".png", "image/png"),
        "window.__wruspFichero && window.__wruspFichero(2, \"mi \\\"foto\\\".png\", \"image/png\")"
    );
    assert_eq!(script_entregar(-1, -1), "window.__wruspEntregar && window.__wruspEntregar(-1, -1)");
    assert_eq!(script_entregar(120, 45), "window.__wruspEntregar && window.__wruspEntregar(120, 45)");
    assert_eq!(
        script_entregar(i64::MIN, i64::MAX),
        "window.__wruspEntregar && window.__wruspEntregar(-9223372036854775808, 9223372036854775807)"
    );
    assert_eq!(nombre_de_fichero("/home/u/Descargas/foto.png"), "foto.png");
    assert_eq!(nombre_de_fichero("/"), "fichero");
    assert!(admite_fichero(MAX_FICHERO));
    assert!(!admite_fichero(MAX_FICHERO + 1));
    let s = script();
    assert!(s.starts_with("(function () {"));
    assert!(s.contains("window.__wruspEntregar = async function (x, y)"));
    assert!(s.ends_with("})();"));
}

#[test]
fn copied_images_are_checked_before_reaching_the_clipboard() {
    assert_eq!(script_leer_imagen("blob:https://web.whatsapp.com/x"), "return await window.__wruspLeerImagen(\"blob:https://web.whatsapp.com/x\");");
    assert!(matches!(imagen_de_la_pagina(""), Err(ImagenFallida::Vacia)));
    assert!(matches!(imagen_de_la_pagina("Zm9v!"), Err(ImagenFallida::Ilegible)));
    assert_eq!(imagen_de_la_pagina("Zm9v").ok(), Some(b"foo".to_vec()));
    let grande = "A".repeat(MAX_IMAGEN / 3 * 4 + 9);
    assert!(matches!(imagen_de_la_pagina(&grande), Err(ImagenFallida::DemasiadoGrande)));
}

#[test]
fn failed_media_are_asked_for_only_when_the_dump_is_on() {
    assert_eq!(pedir_medio_fallido(false, "f1"), None);
    assert_eq!(pedir_medio_fallido(true, "f/1"), None);
    assert_eq!(pedir_medio_fallido(true, "f123456789"), None);
    assert_eq!(pedir_medio_fallido(true, ""), None);
    assert_eq!(
        pedir_medio_fallido(true, "f1").as_deref(),
        Some("return await window.__wruspLeerFallido(\"f1\");")
    );
    assert!(matches!(medio_de_la_pagina(""), Err(MedioFallido::NoEntregado)));
    assert!(matches!(medio_de_la_pagina("@@@@"), Err(MedioFallido::Ilegible)));
    assert_eq!(medio_de_la_pagina("Zm9vYmFy").ok(), Some(b"foobar".to_vec()));
    assert_eq!(nombre_medio_fallido(1700000000, "f3"), "1700000000-f3.mp4");
}

#[test]
fn pasted_uris_give_the_paths_of_local_files_in_order() {
    let uris = vec![
        "file:///tmp/una%20foto.jpg".to_string(),
        "https://example.com/x.pdf".to_string(),
        "no es una uri".to_string(),
        "file://localhost/home/ana/notas.txt".to_string(),
        "file://otra-maquina/x".to_string(),
    ];
    assert_eq!(
        pasted_file_paths(&uris),
        vec!["/tmp/una foto.jpg".to_string(), "/home/ana/notas.txt".to_string()]
    );
    assert!(pasted_file_paths(&Vec::new()).is_empty());
}
