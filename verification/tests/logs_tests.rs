use wrusp::logs::{
    after_chunk, fecha_utc, rotate_at_start, tail_lines, tail_needs_more, tail_step, tail_text,
    MAX_BYTES, TAIL_CHUNK, TAIL_MAX_LINES,
};

fn ahora() -> i64 {
    std::time::SystemTime::now()
        .duration_since(std::time::UNIX_EPOCH)
        .map(|d| d.as_secs())
        .unwrap_or(0) as i64
}

#[test]
fn fecha_con_formato_iso() {
    let f = fecha_utc(ahora());
    assert_eq!(f.len(), "2026-08-17 12:00:00 UTC".len());
    assert!(f.ends_with(" UTC"));
    assert!(f.starts_with("20"));
}

#[test]
fn known_instants_give_their_calendar_dates() {
    assert_eq!(fecha_utc(0), "1970-01-01 00:00:00 UTC");
    assert_eq!(fecha_utc(-1), "1969-12-31 23:59:59 UTC");
    assert_eq!(fecha_utc(951_782_400), "2000-02-29 00:00:00 UTC");
    assert_eq!(fecha_utc(951_868_799), "2000-02-29 23:59:59 UTC");
    assert_eq!(fecha_utc(1_709_251_199), "2024-02-29 23:59:59 UTC");
    assert_eq!(fecha_utc(4_107_542_400), "2100-03-01 00:00:00 UTC");
    assert_eq!(fecha_utc(1_234_567_890), "2009-02-13 23:31:30 UTC");
    assert_eq!(fecha_utc(253_402_300_799), "9999-12-31 23:59:59 UTC");
    assert_eq!(fecha_utc(253_402_300_800), "10000-01-01 00:00:00 UTC");
    assert_eq!(fecha_utc(-62_167_219_200), "0000-01-01 00:00:00 UTC");
    assert_eq!(fecha_utc(-62_167_219_201), "-001-12-31 23:59:59 UTC");
    // The extremes of the range do not overflow.
    assert!(fecha_utc(i64::MAX).ends_with(" UTC"));
    assert!(fecha_utc(i64::MIN).starts_with('-'));
}

#[test]
fn the_log_rotates_past_five_mebibytes() {
    assert!(!rotate_at_start(None));
    assert!(!rotate_at_start(Some(MAX_BYTES)));
    assert!(rotate_at_start(Some(MAX_BYTES + 1)));
    assert_eq!(after_chunk(4000, 100, true, 4096), (4100, true));
    assert_eq!(after_chunk(4000, 100, false, 4096), (4000, false));
    assert_eq!(after_chunk(0, 4096, true, 4096), (4096, false));
}

#[test]
fn the_tail_reads_back_in_chunks_until_it_has_enough_lines() {
    assert_eq!(tail_lines(0), 1);
    assert_eq!(tail_lines(300), 300);
    assert_eq!(tail_lines(10_000), TAIL_MAX_LINES);
    assert_eq!(tail_step(100), (100, 0));
    assert_eq!(tail_step(TAIL_CHUNK + 5), (TAIL_CHUNK, 5));
    assert!(tail_needs_more(10, &b"a\nb\n".to_vec(), 2));
    assert!(!tail_needs_more(10, &b"a\nb\nc\n".to_vec(), 2));
    assert!(!tail_needs_more(0, &Vec::new(), 2));
}

#[test]
fn la_cola_del_registro_devuelve_las_ultimas_lineas() {
    let contenido: String = (1..=500).map(|n| format!("línea {n}\n")).collect();
    assert_eq!(tail_text(contenido.as_bytes(), 3), "línea 498\nlínea 499\nlínea 500");
    let todo = tail_text(contenido.as_bytes(), 10_000);
    assert_eq!(todo.lines().count(), 500, "no se pierde ninguna");
    assert!(todo.starts_with("línea 1\n"), "empieza por el principio");
}

#[test]
fn the_tail_follows_str_lines() {
    for texto in ["", "\n", "a", "a\n", "a\r\nb\r\n", "a\n\nb", "x\r", "\r\n\r\n", "uno\ndos\r\ntres"] {
        for n in 1..5 {
            let lineas: Vec<&str> = texto.lines().collect();
            let desde = lineas.len().saturating_sub(n);
            assert_eq!(tail_text(texto.as_bytes(), n), lineas[desde..].join("\n"), "{texto:?} {n}");
        }
    }
    // Output that is not UTF-8 is replaced, not refused.
    assert_eq!(tail_text(&[b'a', 0xff, b'\n', b'b'], 5), "a\u{fffd}\nb");
}

/// Reads `contenido` back from its end as the settings page does, chunk by
/// chunk, while more lines are needed.
fn cola_en_trozos(contenido: &[u8], lines: usize) -> (String, usize) {
    let lines = tail_lines(lines);
    let mut desde = contenido.len() as u64;
    let mut buffer: Vec<u8> = Vec::new();
    let mut trozos = 0;
    while tail_needs_more(desde, &buffer, lines) {
        let (paso, nuevo) = tail_step(desde);
        desde = nuevo;
        let mut trozo = contenido[desde as usize..(desde + paso) as usize].to_vec();
        trozo.extend_from_slice(&buffer);
        buffer = trozo;
        trozos += 1;
    }
    (tail_text(&buffer, lines), trozos)
}

#[test]
fn the_tail_of_a_log_larger_than_a_chunk_crosses_chunks() {
    let relleno: String = (1..=20_000).map(|n| format!("ruido {n}\n")).collect();
    assert!(relleno.len() as u64 > TAIL_CHUNK, "el banco tiene que cruzar un trozo");
    let (cola, trozos) = cola_en_trozos(relleno.as_bytes(), 2);
    assert_eq!(cola, "ruido 19999\nruido 20000");
    assert_eq!(trozos, 1);
    let (cola, _) = cola_en_trozos(relleno.as_bytes(), TAIL_MAX_LINES);
    let esperado: Vec<String> = (18_001..=20_000).map(|n| format!("ruido {n}")).collect();
    assert_eq!(cola, esperado.join("\n"));
    // Long lines: the lines asked for span several chunks.
    let largas: String = (1..=3_000).map(|n| format!("{n:0>99}\n")).collect();
    let (cola, trozos) = cola_en_trozos(largas.as_bytes(), TAIL_MAX_LINES);
    assert!(trozos >= 3, "dos mil líneas de cien bytes no caben en un trozo");
    let esperado: Vec<String> = (1_001..=3_000).map(|n| format!("{n:0>99}")).collect();
    assert_eq!(cola, esperado.join("\n"));
    let (todo, _) = cola_en_trozos(b"uno\ndos\n", 10);
    assert_eq!(todo, "uno\ndos");
}
