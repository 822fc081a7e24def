use wrusp::clipboard::desde_base64;
use wrusp::filedrop::base64;

#[test]
fn clipboard_base64_con_los_vectores_del_rfc() {
    assert_eq!(desde_base64("").unwrap(), b"");
    assert_eq!(desde_base64("Zg==").unwrap(), b"f");
    assert_eq!(desde_base64("Zm8=").unwrap(), b"fo");
    assert_eq!(desde_base64("Zm9v").unwrap(), b"foo");
    assert_eq!(desde_base64("Zm9vYg==").unwrap(), b"foob");
    assert_eq!(desde_base64("Zm9vYmE=").unwrap(), b"fooba");
    assert_eq!(desde_base64("Zm9vYmFy").unwrap(), b"foobar");
    // Bytes altos: los que delatarían un desplazamiento con signo.
    assert_eq!(desde_base64("//79").unwrap(), vec![0xff, 0xfe, 0xfd]);
    assert_eq!(desde_base64("AAAA").unwrap(), vec![0x00, 0x00, 0x00]);
}

#[test]
fn base64_rechaza_lo_que_no_es_base64() {
    assert!(desde_base64("no es base64 ni de lejos ****").is_none());
    assert!(desde_base64("Zm9v\n").is_some()); // los espacios sí se saltan
}

#[test]
fn base64_ida_y_vuelta_con_todos_los_bytes() {
    let original: Vec<u8> = (0..=255u8).collect();
    let texto = base64(&original);
    assert_eq!(desde_base64(&texto).unwrap(), original);
}

#[test]
fn filedrop_base64_con_los_vectores_del_rfc() {
    assert_eq!(base64(b""), "");
    assert_eq!(base64(b"f"), "Zg==");
    assert_eq!(base64(b"fo"), "Zm8=");
    assert_eq!(base64(b"foo"), "Zm9v");
    assert_eq!(base64(b"foob"), "Zm9vYg==");
    assert_eq!(base64(b"fooba"), "Zm9vYmE=");
    assert_eq!(base64(b"foobar"), "Zm9vYmFy");
    // Bytes altos: los que delatarían un desplazamiento con signo.
    assert_eq!(base64(&[0xff, 0xfe, 0xfd]), "//79");
    assert_eq!(base64(&[0x00, 0x00, 0x00]), "AAAA");
}

#[test]
fn base64_round_trip_for_every_length_up_to_a_few_groups() {
    for len in 0..40usize {
        let datos: Vec<u8> = (0..len).map(|i| (i * 97 + 13) as u8).collect();
        let texto = base64(&datos);
        assert_eq!(texto.len(), (len + 2) / 3 * 4);
        assert_eq!(desde_base64(&texto).unwrap(), datos);
    }
}

#[test]
fn base64_decoding_skips_padding_and_ascii_white_space_anywhere() {
    assert_eq!(desde_base64(" Zm\t9v\r\n").unwrap(), b"foo");
    assert_eq!(desde_base64("Z=m=9=v").unwrap(), b"foo");
    // Bits that do not fill a byte are dropped.
    assert_eq!(desde_base64("Zm9vY").unwrap(), b"foo");
    // Vertical tab is not ASCII white space for the decoder.
    assert!(desde_base64("Zm9v\u{b}").is_none());
    assert!(desde_base64("Zm9vñ").is_none());
}
