//! Files handed to a chat, dropped on the view or pasted.
//!
//! The engine hands over a drop as file paths without building the `File`
//! the page expects, and a pasted image reaches the page empty. So the
//! application reads the bytes and pushes them to the view with `eval`, in
//! base64 pieces; the page builds the files and gives them to WhatsApp as a
//! normal drop. This module holds the encoding, the scripts that carry the
//! pieces and the content type guessed from a file's extension.
use vstd::prelude::*;
use crate::json::{json_quoted, quoted_or};
use crate::paths::{extension_of, file_name_of, path_extension, path_file_name};
use crate::text::{decimal, decimal_string, push_str, signed_decimal, signed_decimal_string, str_eq};

verus! {

/// The symbol of the standard base64 alphabet (RFC 4648) for `v < 64`.
pub open spec fn b64_symbol(v: nat) -> char {
    if v < 26 {
        (('A' as nat) + v) as char
    } else if v < 52 {
        (('a' as nat) + (v - 26)) as char
    } else if v < 62 {
        (('0' as nat) + (v - 52)) as char
    } else if v == 62 {
        '+'
    } else {
        '/'
    }
}

/// Byte `i` of `d`, or zero past its end.
pub open spec fn byte_or_zero(d: Seq<u8>, i: int) -> nat {
    if 0 <= i < d.len() {
        d[i] as nat
    } else {
        0
    }
}

/// Character `k` of the encoding of `d`: each group of three bytes becomes
/// four symbols, and a short last group is completed with `=`.
pub open spec fn encoded_char(d: Seq<u8>, k: int) -> char {
    let g = k / 4;
    let p = k % 4;
    let b0 = byte_or_zero(d, 3 * g);
    let b1 = byte_or_zero(d, 3 * g + 1);
    let b2 = byte_or_zero(d, 3 * g + 2);
    if p == 0 {
        b64_symbol(b0 / 4)
    } else if p == 1 {
        b64_symbol((b0 % 4) * 16 + b1 / 16)
    } else if p == 2 {
        if 3 * g + 1 < d.len() {
            b64_symbol((b1 % 16) * 4 + b2 / 64)
        } else {
            '='
        }
    } else {
        if 3 * g + 2 < d.len() {
            b64_symbol(b2 % 64)
        } else {
            '='
        }
    }
}

/// Length of the padded encoding of `n` bytes.
pub open spec fn encoded_len(n: nat) -> nat {
    ((n + 2) / 3) * 4
}

/// The standard padded base64 encoding of `d`.
pub open spec fn base64_spec(d: Seq<u8>) -> Seq<char> {
    Seq::new(encoded_len(d.len()), |k: int| encoded_char(d, k))
}

fn symbol(v: u32) -> (c: char)
    requires
        v < 64,
    ensures
        c == b64_symbol(v as nat),
{
    if v < 26 {
        let b: u8 = 65u8 + (v as u8);
        b as char
    } else if v < 52 {
        let b: u8 = 97u8 + ((v - 26) as u8);
        b as char
    } else if v < 62 {
        let b: u8 = 48u8 + ((v - 52) as u8);
        b as char
    } else if v == 62 {
        '+'
    } else {
        '/'
    }
}

proof fn lemma_group_bits(b0: u32, b1: u32, b2: u32)
    requires
        b0 < 256,
        b1 < 256,
        b2 < 256,
    ensures
        ((((b0 << 16u32) | (b1 << 8u32)) | b2) >> 18u32) & 63u32 == b0 / 4,
        ((((b0 << 16u32) | (b1 << 8u32)) | b2) >> 12u32) & 63u32 == (b0 % 4) * 16 + b1 / 16,
        ((((b0 << 16u32) | (b1 << 8u32)) | b2) >> 6u32) & 63u32 == (b1 % 16) * 4 + b2 / 64,
        (((b0 << 16u32) | (b1 << 8u32)) | b2) & 63u32 == b2 % 64,
{
    assert(((((b0 << 16u32) | (b1 << 8u32)) | b2) >> 18u32) & 63u32 == b0 / 4) by (bit_vector)
        requires
            b0 < 256,
            b1 < 256,
            b2 < 256,
    ;
    assert(((((b0 << 16u32) | (b1 << 8u32)) | b2) >> 12u32) & 63u32 == (b0 % 4) * 16 + b1 / 16)
        by (bit_vector)
        requires
            b0 < 256,
            b1 < 256,
            b2 < 256,
    ;
    assert(((((b0 << 16u32) | (b1 << 8u32)) | b2) >> 6u32) & 63u32 == (b1 % 16) * 4 + b2 / 64)
        by (bit_vector)
        requires
            b0 < 256,
            b1 < 256,
            b2 < 256,
    ;
    assert((((b0 << 16u32) | (b1 << 8u32)) | b2) & 63u32 == b2 % 64) by (bit_vector)
        requires
            b0 < 256,
            b1 < 256,
            b2 < 256,
    ;
}

pub(crate) proof fn lemma_index_split(g: int, q: int)
    requires
        0 <= g,
        0 <= q < 4,
    ensures
        (4 * g + q) / 4 == g,
        (4 * g + q) % 4 == q,
{
    assert((4 * g + q) / 4 == g && (4 * g + q) % 4 == q) by (nonlinear_arith)
        requires
            0 <= g,
            0 <= q < 4,
    ;
}

/// Standard base64 (RFC 4648), with `=` padding.
pub fn base64(datos: &[u8]) -> (s: String)
    ensures
        s@ == base64_spec(datos@),
{
    let n = datos.len();
    let mut salida = String::new();
    let mut i: usize = 0;
    let ghost d = datos@;
    while i < n
        invariant
            n == datos@.len(),
            d == datos@,
            i <= n + 2,
            i % 3 == 0,
            salida@.len() == (i / 3) * 4,
            forall|k: int| 0 <= k < salida@.len() ==> #[trigger] salida@[k] == encoded_char(d, k),
        decreases n + 3 - i,
    {
        let b0: u32 = datos[i] as u32;
        let b1: u32 = if i + 1 < n {
            datos[i + 1] as u32
        } else {
            0
        };
        let b2: u32 = if i + 2 < n {
            datos[i + 2] as u32
        } else {
            0
        };
        let grupo: u32 = ((b0 << 16u32) | (b1 << 8u32)) | b2;
        proof {
            lemma_group_bits(b0, b1, b2);
        }
        let ghost g = (i / 3) as int;
        let ghost base = salida@;
        salida.push(symbol((grupo >> 18u32) & 63u32));
        salida.push(symbol((grupo >> 12u32) & 63u32));
        if i + 1 < n {
            salida.push(symbol((grupo >> 6u32) & 63u32));
        } else {
            salida.push('=');
        }
        if i + 2 < n {
            salida.push(symbol(grupo & 63u32));
        } else {
            salida.push('=');
        }
        proof {
            assert(3 * g == i);
            assert forall|k: int| 0 <= k < salida@.len() implies #[trigger] salida@[k]
                == encoded_char(d, k) by {
                if k >= base.len() {
                    let q = k - 4 * g;
                    lemma_index_split(g, q);
                    assert(k == 4 * g + q);
                    assert(byte_or_zero(d, 3 * g) == b0);
                    assert(byte_or_zero(d, 3 * g + 1) == b1);
                    assert(byte_or_zero(d, 3 * g + 2) == b2);
                } else {
                    assert(salida@[k] == base[k]);
                }
            }
        }
        i = i + 3;
    }
    proof {
        assert((i / 3) * 4 == encoded_len(n as nat)) by (nonlinear_arith)
            requires
                i % 3 == 0,
                n <= i,
                i <= n + 2,
        ;
        assert(salida@ =~= base64_spec(d));
    }
    salida
}


/// Bytes per `eval`: a little over 1 MB of script per trip once in base64.
pub const TROZO: usize = 786432;

/// Largest file passed through the view: 256 MiB. Beyond that it costs the
/// web process too much memory.
pub const MAX_FICHERO: u64 = 268435456;

/// One MiB, for the messages.
pub const MB: u64 = 1048576;

/// Drop point "wherever it belongs": what is pasted has no coordinates and
/// goes to the focused element (the open chat's box).
pub const DONDE_TOCA: i64 = -1;

/// Is a file of `tamano` bytes small enough to be handed to the view?
pub fn admite_fichero(tamano: u64) -> (b: bool)
    ensures
        b == (tamano <= MAX_FICHERO),
{
    tamano <= MAX_FICHERO
}

/// The script that hands the page one base64 piece of the file `indice`.
pub open spec fn trozo_text(indice: nat, datos: Seq<u8>) -> Seq<char> {
    "window.__wruspTrozo && window.__wruspTrozo("@ + decimal(indice) + ", \""@ + base64_spec(datos)
        + "\")"@
}

/// Script with one piece of the file `indice`. Base64 only has characters
/// that are safe inside a JavaScript string.
pub fn script_trozo(indice: usize, datos: &[u8]) -> (s: String)
    ensures
        s@ == trozo_text(indice as nat, datos@),
{
    let mut s = String::from_str("window.__wruspTrozo && window.__wruspTrozo(");
    let n = decimal_string(indice as u128);
    push_str(&mut s, n.as_str());
    push_str(&mut s, ", \"");
    let b = base64(datos);
    push_str(&mut s, b.as_str());
    push_str(&mut s, "\")");
    s
}

/// The script that closes the file `indice` on the page, with its name and
/// content type.
pub open spec fn fichero_text(indice: nat, nombre: Seq<char>, tipo: Seq<char>) -> Seq<char> {
    "window.__wruspFichero && window.__wruspFichero("@ + decimal(indice) + ", "@ + json_quoted(nombre)
        + ", "@ + json_quoted(tipo) + ")"@
}

/// Script that turns the pieces of file `indice` into a `File` on the page.
pub fn script_fichero(indice: usize, nombre: &str, tipo: &str) -> (s: String)
    ensures
        s@ == fichero_text(indice as nat, nombre@, tipo@),
{
    let nombre = quoted_or(nombre, "\"fichero\"");
    let tipo = quoted_or(tipo, "\"application/octet-stream\"");
    let mut s = String::from_str("window.__wruspFichero && window.__wruspFichero(");
    let n = decimal_string(indice as u128);
    push_str(&mut s, n.as_str());
    push_str(&mut s, ", ");
    push_str(&mut s, nombre.as_str());
    push_str(&mut s, ", ");
    push_str(&mut s, tipo.as_str());
    push_str(&mut s, ")");
    s
}

/// The script that asks the page to drop what it received at `(x, y)` (a
/// negative `x` means pasted, with no point to drop it on).
pub open spec fn entregar_text(x: int, y: int) -> Seq<char> {
    "window.__wruspEntregar && window.__wruspEntregar("@ + signed_decimal(x) + ", "@ + signed_decimal(y)
        + ")"@
}

pub fn script_entregar(x: i64, y: i64) -> (s: String)
    ensures
        s@ == entregar_text(x as int, y as int),
{
    let mut s = String::from_str("window.__wruspEntregar && window.__wruspEntregar(");
    let a = signed_decimal_string(x);
    push_str(&mut s, a.as_str());
    push_str(&mut s, ", ");
    let b = signed_decimal_string(y);
    push_str(&mut s, b.as_str());
    push_str(&mut s, ")");
    s
}

/// The name a file is handed over with: its own, or `fichero`.
pub open spec fn nombre_text(ruta: Seq<char>) -> Seq<char> {
    match path_file_name(ruta) {
        Some(n) => n,
        None => "fichero"@,
    }
}

pub fn nombre_de_fichero(ruta: &str) -> (s: String)
    ensures
        s@ == nombre_text(ruta@),
{
    match file_name_of(ruta) {
        Some(n) => n,
        None => String::from_str("fichero"),
    }
}

/// What `str::to_lowercase` gives for a text.
pub uninterp spec fn lowercased(s: Seq<char>) -> Seq<char>;

/// Calls `str::to_lowercase`; its result is named `lowercased`.
#[verifier::external_body]
fn to_lowercase(s: &str) -> (r: String)
    ensures
        r@ == lowercased(s@),
{
    s.to_lowercase()
}

/// The content type for a lower-case extension; unknown ones are treated as
/// a generic document.
pub open spec fn mime_for(ext: Seq<char>) -> Seq<char> {
    if ext == "png"@ {
        "image/png"@
    } else if ext == "jpg"@ || ext == "jpeg"@ {
        "image/jpeg"@
    } else if ext == "gif"@ {
        "image/gif"@
    } else if ext == "webp"@ {
        "image/webp"@
    } else if ext == "bmp"@ {
        "image/bmp"@
    } else if ext == "svg"@ {
        "image/svg+xml"@
    } else if ext == "mp4"@ || ext == "m4v"@ {
        "video/mp4"@
    } else if ext == "mov"@ {
        "video/quicktime"@
    } else if ext == "webm"@ {
        "video/webm"@
    } else if ext == "mkv"@ {
        "video/x-matroska"@
    } else if ext == "mp3"@ {
        "audio/mpeg"@
    } else if ext == "ogg"@ || ext == "oga"@ {
        "audio/ogg"@
    } else if ext == "opus"@ {
        "audio/opus"@
    } else if ext == "wav"@ {
        "audio/wav"@
    } else if ext == "m4a"@ {
        "audio/mp4"@
    } else if ext == "heic"@ {
        "image/heic"@
    } else if ext == "avif"@ {
        "image/avif"@
    } else if ext == "pdf"@ {
        "application/pdf"@
    } else if ext == "txt"@ || ext == "log"@ {
        "text/plain"@
    } else if ext == "md"@ {
        "text/markdown"@
    } else if ext == "csv"@ {
        "text/csv"@
    } else if ext == "json"@ {
        "application/json"@
    } else if ext == "xml"@ {
        "application/xml"@
    } else if ext == "html"@ || ext == "htm"@ {
        "text/html"@
    } else if ext == "doc"@ {
        "application/msword"@
    } else if ext == "docx"@ {
        "application/vnd.openxmlformats-officedocument.wordprocessingml.document"@
    } else if ext == "xls"@ {
        "application/vnd.ms-excel"@
    } else if ext == "xlsx"@ {
        "application/vnd.openxmlformats-officedocument.spreadsheetml.sheet"@
    } else if ext == "ppt"@ {
        "application/vnd.ms-powerpoint"@
    } else if ext == "pptx"@ {
        "application/vnd.openxmlformats-officedocument.presentationml.presentation"@
    } else if ext == "odt"@ {
        "application/vnd.oasis.opendocument.text"@
    } else if ext == "ods"@ {
        "application/vnd.oasis.opendocument.spreadsheet"@
    } else if ext == "zip"@ {
        "application/zip"@
    } else if ext == "gz"@ || ext == "tgz"@ {
        "application/gzip"@
    } else if ext == "tar"@ {
        "application/x-tar"@
    } else if ext == "7z"@ {
        "application/x-7z-compressed"@
    } else if ext == "rar"@ {
        "application/vnd.rar"@
    } else {
        "application/octet-stream"@
    }
}

/// The type sent for each extension the file picker knows, entry by entry;
/// any other extension is sent as a generic document,
/// `application/octet-stream`.
pub proof fn lemma_mime_table(ext: Seq<char>)
    ensures
        mime_for("png"@) == "image/png"@,
        mime_for("jpg"@) == "image/jpeg"@,
        mime_for("jpeg"@) == "image/jpeg"@,
        mime_for("gif"@) == "image/gif"@,
        mime_for("webp"@) == "image/webp"@,
        mime_for("bmp"@) == "image/bmp"@,
        mime_for("svg"@) == "image/svg+xml"@,
        mime_for("mp4"@) == "video/mp4"@,
        mime_for("m4v"@) == "video/mp4"@,
        mime_for("mov"@) == "video/quicktime"@,
        mime_for("webm"@) == "video/webm"@,
        mime_for("mkv"@) == "video/x-matroska"@,
        mime_for("mp3"@) == "audio/mpeg"@,
        mime_for("ogg"@) == "audio/ogg"@,
        mime_for("oga"@) == "audio/ogg"@,
        mime_for("opus"@) == "audio/opus"@,
        mime_for("wav"@) == "audio/wav"@,
        mime_for("m4a"@) == "audio/mp4"@,
        mime_for("heic"@) == "image/heic"@,
        mime_for("avif"@) == "image/avif"@,
        mime_for("pdf"@) == "application/pdf"@,
        mime_for("txt"@) == "text/plain"@,
        mime_for("log"@) == "text/plain"@,
        mime_for("md"@) == "text/markdown"@,
        mime_for("csv"@) == "text/csv"@,
        mime_for("json"@) == "application/json"@,
        mime_for("xml"@) == "application/xml"@,
        mime_for("html"@) == "text/html"@,
        mime_for("htm"@) == "text/html"@,
        mime_for("doc"@) == "application/msword"@,
        mime_for("docx"@) == "application/vnd.openxmlformats-officedocument.wordprocessingml.document"@,
        mime_for("xls"@) == "application/vnd.ms-excel"@,
        mime_for("xlsx"@) == "application/vnd.openxmlformats-officedocument.spreadsheetml.sheet"@,
        mime_for("ppt"@) == "application/vnd.ms-powerpoint"@,
        mime_for("pptx"@) == "application/vnd.openxmlformats-officedocument.presentationml.presentation"@,
        mime_for("odt"@) == "application/vnd.oasis.opendocument.text"@,
        mime_for("ods"@) == "application/vnd.oasis.opendocument.spreadsheet"@,
        mime_for("zip"@) == "application/zip"@,
        mime_for("gz"@) == "application/gzip"@,
        mime_for("tgz"@) == "application/gzip"@,
        mime_for("tar"@) == "application/x-tar"@,
        mime_for("7z"@) == "application/x-7z-compressed"@,
        mime_for("rar"@) == "application/vnd.rar"@,
        (ext != "png"@ && ext != "jpg"@ && ext != "jpeg"@ && ext != "gif"@ && ext != "webp"@ && ext != "bmp"@ && ext != "svg"@ && ext != "mp4"@ && ext != "m4v"@ && ext != "mov"@ && ext != "webm"@ && ext != "mkv"@ && ext != "mp3"@ && ext != "ogg"@ && ext != "oga"@ && ext != "opus"@ && ext != "wav"@ && ext != "m4a"@ && ext != "heic"@ && ext != "avif"@ && ext != "pdf"@ && ext != "txt"@ && ext != "log"@ && ext != "md"@ && ext != "csv"@ && ext != "json"@ && ext != "xml"@ && ext != "html"@ && ext != "htm"@ && ext != "doc"@ && ext != "docx"@ && ext != "xls"@ && ext != "xlsx"@ && ext != "ppt"@ && ext != "pptx"@ && ext != "odt"@ && ext != "ods"@ && ext != "zip"@ && ext != "gz"@ && ext != "tgz"@ && ext != "tar"@ && ext != "7z"@ && ext != "rar"@) ==> mime_for(ext) == "application/octet-stream"@,
{
    reveal_strlit("png");
    assert("png"@.len() == 3);
    assert("png"@[0] == 'p');
    assert("png"@[1] == 'n');
    assert("png"@[2] == 'g');
    reveal_strlit("jpg");
    assert("jpg"@.len() == 3);
    assert("jpg"@[0] == 'j');
    assert("jpg"@[1] == 'p');
    assert("jpg"@[2] == 'g');
    reveal_strlit("jpeg");
    assert("jpeg"@.len() == 4);
    assert("jpeg"@[0] == 'j');
    assert("jpeg"@[1] == 'p');
    assert("jpeg"@[2] == 'e');
    assert("jpeg"@[3] == 'g');
    reveal_strlit("gif");
    assert("gif"@.len() == 3);
    assert("gif"@[0] == 'g');
    assert("gif"@[1] == 'i');
    assert("gif"@[2] == 'f');
    reveal_strlit("webp");
    assert("webp"@.len() == 4);
    assert("webp"@[0] == 'w');
    assert("webp"@[1] == 'e');
    assert("webp"@[2] == 'b');
    assert("webp"@[3] == 'p');
    reveal_strlit("bmp");
    assert("bmp"@.len() == 3);
    assert("bmp"@[0] == 'b');
    assert("bmp"@[1] == 'm');
    assert("bmp"@[2] == 'p');
    reveal_strlit("svg");
    assert("svg"@.len() == 3);
    assert("svg"@[0] == 's');
    assert("svg"@[1] == 'v');
    assert("svg"@[2] == 'g');
    reveal_strlit("mp4");
    assert("mp4"@.len() == 3);
    assert("mp4"@[0] == 'm');
    assert("mp4"@[1] == 'p');
    assert("mp4"@[2] == '4');
    reveal_strlit("m4v");
    assert("m4v"@.len() == 3);
    assert("m4v"@[0] == 'm');
    assert("m4v"@[1] == '4');
    assert("m4v"@[2] == 'v');
    reveal_strlit("mov");
    assert("mov"@.len() == 3);
    assert("mov"@[0] == 'm');
    assert("mov"@[1] == 'o');
    assert("mov"@[2] == 'v');
    reveal_strlit("webm");
    assert("webm"@.len() == 4);
    assert("webm"@[0] == 'w');
    assert("webm"@[1] == 'e');
    assert("webm"@[2] == 'b');
    assert("webm"@[3] == 'm');
    reveal_strlit("mkv");
    assert("mkv"@.len() == 3);
    assert("mkv"@[0] == 'm');
    assert("mkv"@[1] == 'k');
    assert("mkv"@[2] == 'v');
    reveal_strlit("mp3");
    assert("mp3"@.len() == 3);
    assert("mp3"@[0] == 'm');
    assert("mp3"@[1] == 'p');
    assert("mp3"@[2] == '3');
    reveal_strlit("ogg");
    assert("ogg"@.len() == 3);
    assert("ogg"@[0] == 'o');
    assert("ogg"@[1] == 'g');
    assert("ogg"@[2] == 'g');
    reveal_strlit("oga");
    assert("oga"@.len() == 3);
    assert("oga"@[0] == 'o');
    assert("oga"@[1] == 'g');
    assert("oga"@[2] == 'a');
    reveal_strlit("opus");
    assert("opus"@.len() == 4);
    assert("opus"@[0] == 'o');
    assert("opus"@[1] == 'p');
    assert("opus"@[2] == 'u');
    assert("opus"@[3] == 's');
    reveal_strlit("wav");
    assert("wav"@.len() == 3);
    assert("wav"@[0] == 'w');
    assert("wav"@[1] == 'a');
    assert("wav"@[2] == 'v');
    reveal_strlit("m4a");
    assert("m4a"@.len() == 3);
    assert("m4a"@[0] == 'm');
    assert("m4a"@[1] == '4');
    assert("m4a"@[2] == 'a');
    reveal_strlit("heic");
    assert("heic"@.len() == 4);
    assert("heic"@[0] == 'h');
    assert("heic"@[1] == 'e');
    assert("heic"@[2] == 'i');
    assert("heic"@[3] == 'c');
    reveal_strlit("avif");
    assert("avif"@.len() == 4);
    assert("avif"@[0] == 'a');
    assert("avif"@[1] == 'v');
    assert("avif"@[2] == 'i');
    assert("avif"@[3] == 'f');
    reveal_strlit("pdf");
    assert("pdf"@.len() == 3);
    assert("pdf"@[0] == 'p');
    assert("pdf"@[1] == 'd');
    assert("pdf"@[2] == 'f');
    reveal_strlit("txt");
    assert("txt"@.len() == 3);
    assert("txt"@[0] == 't');
    assert("txt"@[1] == 'x');
    assert("txt"@[2] == 't');
    reveal_strlit("log");
    assert("log"@.len() == 3);
    assert("log"@[0] == 'l');
    assert("log"@[1] == 'o');
    assert("log"@[2] == 'g');
    reveal_strlit("md");
    assert("md"@.len() == 2);
    assert("md"@[0] == 'm');
    assert("md"@[1] == 'd');
    reveal_strlit("csv");
    assert("csv"@.len() == 3);
    assert("csv"@[0] == 'c');
    assert("csv"@[1] == 's');
    assert("csv"@[2] == 'v');
    reveal_strlit("json");
    assert("json"@.len() == 4);
    assert("json"@[0] == 'j');
    assert("json"@[1] == 's');
    assert("json"@[2] == 'o');
    assert("json"@[3] == 'n');
    reveal_strlit("xml");
    assert("xml"@.len() == 3);
    assert("xml"@[0] == 'x');
    assert("xml"@[1] == 'm');
    assert("xml"@[2] == 'l');
    reveal_strlit("html");
    assert("html"@.len() == 4);
    assert("html"@[0] == 'h');
    assert("html"@[1] == 't');
    assert("html"@[2] == 'm');
    assert("html"@[3] == 'l');
    reveal_strlit("htm");
    assert("htm"@.len() == 3);
    assert("htm"@[0] == 'h');
    assert("htm"@[1] == 't');
    assert("htm"@[2] == 'm');
    reveal_strlit("doc");
    assert("doc"@.len() == 3);
    assert("doc"@[0] == 'd');
    assert("doc"@[1] == 'o');
    assert("doc"@[2] == 'c');
    reveal_strlit("docx");
    assert("docx"@.len() == 4);
    assert("docx"@[0] == 'd');
    assert("docx"@[1] == 'o');
    assert("docx"@[2] == 'c');
    assert("docx"@[3] == 'x');
    reveal_strlit("xls");
    assert("xls"@.len() == 3);
    assert("xls"@[0] == 'x');
    assert("xls"@[1] == 'l');
    assert("xls"@[2] == 's');
    reveal_strlit("xlsx");
    assert("xlsx"@.len() == 4);
    assert("xlsx"@[0] == 'x');
    assert("xlsx"@[1] == 'l');
    assert("xlsx"@[2] == 's');
    assert("xlsx"@[3] == 'x');
    reveal_strlit("ppt");
    assert("ppt"@.len() == 3);
    assert("ppt"@[0] == 'p');
    assert("ppt"@[1] == 'p');
    assert("ppt"@[2] == 't');
    reveal_strlit("pptx");
    assert("pptx"@.len() == 4);
    assert("pptx"@[0] == 'p');
    assert("pptx"@[1] == 'p');
    assert("pptx"@[2] == 't');
    assert("pptx"@[3] == 'x');
    reveal_strlit("odt");
    assert("odt"@.len() == 3);
    assert("odt"@[0] == 'o');
    assert("odt"@[1] == 'd');
    assert("odt"@[2] == 't');
    reveal_strlit("ods");
    assert("ods"@.len() == 3);
    assert("ods"@[0] == 'o');
    assert("ods"@[1] == 'd');
    assert("ods"@[2] == 's');
    reveal_strlit("zip");
    assert("zip"@.len() == 3);
    assert("zip"@[0] == 'z');
    assert("zip"@[1] == 'i');
    assert("zip"@[2] == 'p');
    reveal_strlit("gz");
    assert("gz"@.len() == 2);
    assert("gz"@[0] == 'g');
    assert("gz"@[1] == 'z');
    reveal_strlit("tgz");
    assert("tgz"@.len() == 3);
    assert("tgz"@[0] == 't');
    assert("tgz"@[1] == 'g');
    assert("tgz"@[2] == 'z');
    reveal_strlit("tar");
    assert("tar"@.len() == 3);
    assert("tar"@[0] == 't');
    assert("tar"@[1] == 'a');
    assert("tar"@[2] == 'r');
    reveal_strlit("7z");
    assert("7z"@.len() == 2);
    assert("7z"@[0] == '7');
    assert("7z"@[1] == 'z');
    reveal_strlit("rar");
    assert("rar"@.len() == 3);
    assert("rar"@[0] == 'r');
    assert("rar"@[1] == 'a');
    assert("rar"@[2] == 'r');
}

/// The content type for an extension already in lower case.
pub fn mime_for_extension(ext: &str) -> (t: &'static str)
    ensures
        t@ == mime_for(ext@),
{
    if str_eq(ext, "png") {
        "image/png"
    } else if str_eq(ext, "jpg") || str_eq(ext, "jpeg") {
        "image/jpeg"
    } else if str_eq(ext, "gif") {
        "image/gif"
    } else if str_eq(ext, "webp") {
        "image/webp"
    } else if str_eq(ext, "bmp") {
        "image/bmp"
    } else if str_eq(ext, "svg") {
        "image/svg+xml"
    } else if str_eq(ext, "mp4") || str_eq(ext, "m4v") {
        "video/mp4"
    } else if str_eq(ext, "mov") {
        "video/quicktime"
    } else if str_eq(ext, "webm") {
        "video/webm"
    } else if str_eq(ext, "mkv") {
        "video/x-matroska"
    } else if str_eq(ext, "mp3") {
        "audio/mpeg"
    } else if str_eq(ext, "ogg") || str_eq(ext, "oga") {
        "audio/ogg"
    } else if str_eq(ext, "opus") {
        "audio/opus"
    } else if str_eq(ext, "wav") {
        "audio/wav"
    } else if str_eq(ext, "m4a") {
        "audio/mp4"
    } else if str_eq(ext, "heic") {
        "image/heic"
    } else if str_eq(ext, "avif") {
        "image/avif"
    } else if str_eq(ext, "pdf") {
        "application/pdf"
    } else if str_eq(ext, "txt") || str_eq(ext, "log") {
        "text/plain"
    } else if str_eq(ext, "md") {
        "text/markdown"
    } else if str_eq(ext, "csv") {
        "text/csv"
    } else if str_eq(ext, "json") {
        "application/json"
    } else if str_eq(ext, "xml") {
        "application/xml"
    } else if str_eq(ext, "html") || str_eq(ext, "htm") {
        "text/html"
    } else if str_eq(ext, "doc") {
        "application/msword"
    } else if str_eq(ext, "docx") {
        "application/vnd.openxmlformats-officedocument.wordprocessingml.document"
    } else if str_eq(ext, "xls") {
        "application/vnd.ms-excel"
    } else if str_eq(ext, "xlsx") {
        "application/vnd.openxmlformats-officedocument.spreadsheetml.sheet"
    } else if str_eq(ext, "ppt") {
        "application/vnd.ms-powerpoint"
    } else if str_eq(ext, "pptx") {
        "application/vnd.openxmlformats-officedocument.presentationml.presentation"
    } else if str_eq(ext, "odt") {
        "application/vnd.oasis.opendocument.text"
    } else if str_eq(ext, "ods") {
        "application/vnd.oasis.opendocument.spreadsheet"
    } else if str_eq(ext, "zip") {
        "application/zip"
    } else if str_eq(ext, "gz") || str_eq(ext, "tgz") {
        "application/gzip"
    } else if str_eq(ext, "tar") {
        "application/x-tar"
    } else if str_eq(ext, "7z") {
        "application/x-7z-compressed"
    } else if str_eq(ext, "rar") {
        "application/vnd.rar"
    } else {
        "application/octet-stream"
    }
}

/// The content type of a file, guessed from its extension in lower case.
/// Only so the page sees something sensible: WhatsApp decides what to do
/// with the file.
pub open spec fn mime_of_path(ruta: Seq<char>) -> Seq<char> {
    match path_extension(ruta) {
        Some(e) => mime_for(lowercased(e)),
        None => mime_for(lowercased(Seq::empty())),
    }
}

pub fn mime_por_extension(ruta: &str) -> (s: String)
    ensures
        s@ == mime_of_path(ruta@),
{
    let ext = match extension_of(ruta) {
        Some(e) => e,
        None => String::new(),
    };
    let lower = to_lowercase(ext.as_str());
    String::from_str(mime_for_extension(lower.as_str()))
}

pub const SCRIPT_0: &'static str = r#"(function () {
  const partes = new Map();   // índice de fichero → trozos recibidos
  const listos = [];

  // Rust empuja los bytes en base64. La página no puede pedirlos (la CSP de
  // WhatsApp no admite `wrusp://` en connect-src), pero sí recibirlos: lo que
  // llega por `eval` no lo gobierna la CSP.
  window.__wruspTrozo = function (i, b64) {
    const bruto = atob(b64);
    const bytes = new Uint8Array(bruto.length);
    for (let k = 0; k < bruto.length; k++) bytes[k] = bruto.charCodeAt(k);
    const trozos = partes.get(i) || [];
    trozos.push(bytes);
    partes.set(i, trozos);
  };

  window.__wruspFichero = function (i, nombre, tipo) {
    listos.push(new File(partes.get(i) || [], nombre, { type: tipo }));
    partes.delete(i);
  };

  // Sin esto no hay forma de saber por qué falla una entrega: la página es la
  // única que ve si WhatsApp la acepta.
  const anotar = (texto) => {
    if (window.__wruspOrden) window.__wruspOrden('log/?m=' + encodeURIComponent(texto));
  };
  const esperar = (ms) => new Promise((listo) => setTimeout(listo, ms));

  const transporte = (ficheros) => {
    const datos = new DataTransfer();
    for (const f of ficheros) datos.items.add(f);
    return datos;
  };

  // ── ¿Ha aceptado WhatsApp el adjunto? ────────────────────────────────────
  // Un soltado no dice por sí solo si ha servido de algo: `preventDefault` lo
  // llama cualquiera que escuche `dragover` —WhatsApp el primero— para que el
  // navegador no abra el fichero en la vista. Lo que sí se ve es el efecto:
  // cuando WhatsApp acepta un adjunto abre su previsualizador, con el botón
  // de enviar.
  //
  // El marcado de ese botón ha cambiado más de una vez: la 0.4.3 buscaba
  // exactamente `data-icon="send"` y con la WhatsApp real no acertó ni una
  // vez (cero «aceptado» en el registro desde entonces). Al no verlo, Wrusp
  // seguía probando vía tras vía y cada una añadía la misma imagen al
  // previsualizador: de ahí las fotos que se enviaban por duplicado. Ahora se
  // buscan varias formas del botón y del panel y, sobre todo, se compara la
  // página de antes con la de después: si aparecen botones de enviar o
  // paneles, o desaparecen las entradas de fichero del menú de adjuntar
  // (WhatsApp las desmonta al abrir el previsualizador), es que lo ha tomado.
  const SELECTOR_ENVIAR = '[data-icon="send"], [data-icon^="send"], [data-icon*="-send"], [data-icon$="send-filled"], [data-testid="send"], button[aria-label="Enviar" i], div[role="button"][aria-label="Enviar" i], button[aria-label="Send" i], div[role="button"][aria-label="Send" i]';
  const SELECTOR_PANEL = '[data-animate-modal-body], [data-animate-modal-popup], [data-animate-media-viewer], [data-testid="media-editor"], [data-testid="media-caption-input-container"], [role="dialog"]';

  // `offsetParent` cubre lo que esté oculto por cualquier ancestro; la medida
  // cubre lo que va en capas fijas, que no tienen offsetParent.
  const visible = (nodo) => {
    if (nodo.offsetParent !== null) return true;
    const caja = nodo.getBoundingClientRect();
    return caja.width > 0 && caja.height > 0;
  };
  const cuantos = (selector) => Array.prototype.filter.call(document.querySelectorAll(selector), visible).length;
  const foto = () => ({
    enviar: cuantos(SELECTOR_ENVIAR),
    paneles: cuantos(SELECTOR_PANEL),
    entradas: document.querySelectorAll('input[type="file"]').length,
  });
  const haCambiado = (antes) => {
    const ahora = foto();
    if (ahora.enviar > antes.enviar) return 'botón de enviar';
    if (ahora.paneles > antes.paneles) return 'panel';
    if (antes.entradas > 0 && ahora.entradas < antes.entradas) return 'entradas desmontadas';
    return '';
  };
  // Un previsualizador abierto ahora mismo: un botón de enviar visible dentro
  // de un panel visible. El de la caja de escritura no está en ningún panel,
"#;

pub const SCRIPT_1: &'static str = r#"  // así que tener texto a medias no cuenta.
  const previsualizadorAbierto = () => Array.prototype.some.call(
    document.querySelectorAll(SELECTOR_PANEL),
    (panel) => visible(panel) && Array.prototype.some.call(panel.querySelectorAll(SELECTOR_ENVIAR), visible));

  const esperarConfirmacion = async (antes, ms) => {
    for (let esperado = 0; esperado < ms; esperado += 100) {
      await esperar(100);
      const señal = haCambiado(antes);
      if (señal) return señal;
      if (previsualizadorAbierto()) return 'previsualizador';
    }
    return '';
  };

  // ── Las tres vías ────────────────────────────────────────────────────────
  const eventoArrastre = (tipo, x, y, ficheros) => new DragEvent(tipo, {
    bubbles: true, cancelable: true, composed: true,
    clientX: x, clientY: y, dataTransfer: transporte(ficheros),
  });
  const nuestro = (nodo) => !!(nodo && nodo.closest && nodo.closest('#wrusp-rail'));

  // El `dragenter` va donde cayó el ratón; el `drop`, sobre lo que haya en
  // ese punto un instante después. WhatsApp monta su capa «Suelta aquí» al
  // entrar el arrastre, y es esa capa la que escucha el `drop`: soltarlo
  // sobre el elemento original —un enlace de un mensaje, en el registro real—
  // no llegaba a ninguna parte.
  const soltarEn = async (destino, x, y, ficheros) => {
    destino.dispatchEvent(eventoArrastre('dragenter', x, y, ficheros));
    await esperar(150); // WhatsApp decide con estado de React entre un evento y el siguiente
    let objetivo = document.elementFromPoint(x, y);
    if (!objetivo || nuestro(objetivo)) objetivo = destino;
    if (objetivo !== destino) {
      objetivo.dispatchEvent(eventoArrastre('dragenter', x, y, ficheros));
      await esperar(40);
    }
    for (const tipo of ['dragover', 'dragover', 'drop']) {
      objetivo.dispatchEvent(eventoArrastre(tipo, x, y, ficheros));
      await esperar(40);
    }
    return objetivo;
  };

  const pegarEn = (destino, ficheros) => {
    const evento = new ClipboardEvent('paste', {
      clipboardData: transporte(ficheros), bubbles: true, cancelable: true, composed: true
    });
    destino.dispatchEvent(evento);
    return evento.defaultPrevented;
  };

  // Respaldo cuando el soltado no cuaja: la misma entrada de fichero que hay
  // detrás del menú de adjuntar. Solo las que declaren aceptar lo que traemos
  // (o, si no hay ninguna que lo declare, la primera que haya): probar las
  // demás «por si acaso» es lo que adjuntaba por partida doble.
  const porEntradaDeFichero = async (ficheros, antes) => {
    const soloMedios = ficheros.every((f) => /^(image|video)\//.test(f.type));
    const entradas = [...document.querySelectorAll('input[type="file"]')];
    const declara = (e) => /image|video/.test((e.getAttribute('accept') || '').toLowerCase());
    let preferidas = entradas.filter((e) => (soloMedios ? declara(e) : !declara(e)));
    if (!preferidas.length && entradas.length) preferidas = [entradas[0]];
    for (const entrada of preferidas) {
      try {
        entrada.files = transporte(ficheros).files;
      } catch (e) {
        continue; // esa entrada no admite que le pongamos ficheros
      }
      entrada.dispatchEvent(new Event('change', { bubbles: true }));
      if (await esperarConfirmacion(antes, 1500)) return entrada.getAttribute('accept') || 'sin accept';
    }
    return null;
  };

  // ── Una entrega por gesto ────────────────────────────────────────────────
  // Mientras una entrega está en curso no se empieza otra: en el registro
  // real dos Ctrl+V seguidos se solapaban y las dos cascadas se pisaban.
  let entregando = false;

  // `x` negativa = viene del portapapeles y no hay punto donde soltarlo.
  window.__wruspEntregar = async function (x, y) {
"#;

pub const SCRIPT_2: &'static str = r#"    const ficheros = listos.splice(0, listos.length);
    if (!ficheros.length) return;
    const nombres = ficheros.map((f) => f.name).join(', ');
    if (entregando) {
      anotar('hay una entrega en curso: se descarta ' + nombres);
      return;
    }
    // Con el previsualizador ya abierto no hay forma de distinguir si lo que
    // se ve es de este adjunto o del anterior, así que no se toca nada.
    if (previsualizadorAbierto()) {
      anotar('hay un adjunto a medias sin enviar: no se entrega ' + nombres);
      return;
    }
    entregando = true;
    try {
      await entregar(x, y, ficheros, nombres);
    } catch (e) {
      anotar('la entrega de ' + nombres + ' falló: ' + ((e && e.message) || e));
    } finally {
      entregando = false;
    }
  };

  async function entregar(x, y, ficheros, nombres) {
    const antes = foto();
    const foco = document.activeElement;
    const chat = document.querySelector('#main, [role="region"], [data-testid="conversation-panel-wrapper"], footer, [contenteditable="true"]');

    // Lo pegado se entrega como pegado, que es lo que WhatsApp espera de una
    // captura, y una sola vez: si su manejador se lo queda (`preventDefault`)
    // ya está adjuntado, se vea o no el previsualizador. Volver a intentarlo
    // por otra vía es justo lo que duplicaba las imágenes.
    if (x < 0) {
      const destino = (foco && foco !== document.body && !nuestro(foco)) ? foco : (chat || document.body);
      if (pegarEn(destino, ficheros)) {
        const señal = await esperarConfirmacion(antes, 1500);
        anotar('pegado aceptado' + (señal ? ' (' + señal + ')' : ' (sin confirmación visual)') + ': ' + nombres);
        return;
      }
      anotar('nadie recogió el pegado de ' + nombres + ': se prueba como soltado');
    }

    // Soltado: en el punto del ratón o, para lo pegado, en el centro del
    // panel de conversación.
    const px = x < 0 ? Math.round(window.innerWidth / 2) : x;
    const py = x < 0 ? Math.round(window.innerHeight / 2) : y;
    let destino = document.elementFromPoint(px, py);
    if (!destino || nuestro(destino)) destino = chat || document.body;
    const objetivo = await soltarEn(destino, px, py, ficheros);
    let señal = await esperarConfirmacion(antes, 1500);
    if (señal) {
      anotar('soltado aceptado en ' + (objetivo.tagName || '?') + ' (' + señal + '): ' + nombres);
      return;
    }
    // Una sola vía de respaldo, y solo si el soltado no ha dejado rastro.
    const entrada = await porEntradaDeFichero(ficheros, antes);
    if (entrada) {
      anotar('adjuntado por la entrada de fichero [' + entrada + ']: ' + nombres);
      return;
    }
    señal = haCambiado(antes);
    anotar('nadie aceptó ' + ficheros.length + ' fichero(s): ' + nombres +
           ' · soltado en ' + (objetivo.tagName || '?') +
           ' · entradas=' + document.querySelectorAll('input[type=file]').length +
           (señal ? ' · cambio tardío: ' + señal : ''));
  }

  // Pegar: si el motor no le pasa nada a la página —ni tipos ni ficheros—, es
  // que lo del portapapeles no es texto y se lo ha guardado. Lo lee Rust.
  window.addEventListener('paste', function (evento) {
    const datos = evento.clipboardData;
    if (!datos) return;
    const tipos = datos.types || [];
    if (tipos.length || (datos.files && datos.files.length)) return;
    // Sin esto, WebKit incrusta la imagen en la caja de texto como <img blob:>.
    evento.preventDefault();
    anotar('pegado vacío: se lo pedimos a Rust');
    if (window.__wruspOrden) window.__wruspOrden('pegar');
  }, true);
})();"#;

/// The script injected in the account views: it receives the files the
/// application pushes, hands them to WhatsApp as a drop, and tells when what
/// was pasted did not reach the page.
pub open spec fn script_text() -> Seq<char> {
    SCRIPT_0@ + SCRIPT_1@ + SCRIPT_2@
}

pub fn script() -> (s: String)
    ensures
        s@ == script_text(),
{
    let mut s = String::from_str(SCRIPT_0);
    push_str(&mut s, SCRIPT_1);
    push_str(&mut s, SCRIPT_2);
    s
}


// ───────────────────────────── pasted files ──────────────────────────────

/// The file path the `url` crate reads from a URI of a copied file, written
/// as text; none when the URI does not parse or names no local file.
pub uninterp spec fn uri_file_path(uri: Seq<char>) -> Option<Seq<char>>;

/// Calls `url::Url::parse` and then `Url::to_file_path`, and writes the path
/// as text with `to_string_lossy`; the result, a function of the URI alone,
/// is named `uri_file_path`.
#[verifier::external_body]
fn file_path_of_uri(uri: &str) -> (r: Option<String>)
    ensures
        r.deep_view() == uri_file_path(uri@),
{
    match url::Url::parse(uri) {
        Ok(u) => match u.to_file_path() {
            Ok(p) => Some(p.to_string_lossy().into_owned()),
            Err(()) => None,
        },
        Err(_) => None,
    }
}

/// The file paths of the URIs of a clipboard's list, in their order: the
/// URIs that name no local file are left out.
pub open spec fn file_paths_of(uris: Seq<Seq<char>>) -> Seq<Seq<char>>
    decreases uris.len(),
{
    if uris.len() == 0 {
        Seq::empty()
    } else {
        let front = file_paths_of(uris.drop_last());
        match uri_file_path(uris.last()) {
            Some(p) => front.push(p),
            None => front,
        }
    }
}

/// The files a paste offers, from the `text/uri-list` of the clipboard: the
/// path of each URI that names a local file, in the list's order. Whether
/// each one is a file that can be attached is for the caller to look up.
pub fn pasted_file_paths(uris: &Vec<String>) -> (r: Vec<String>)
    ensures
        r.deep_view() == file_paths_of(uris.deep_view()),
{
    let mut r: Vec<String> = Vec::new();
    let mut i: usize = 0;
    while i < uris.len()
        invariant
            i <= uris@.len(),
            uris.deep_view().len() == uris@.len(),
            r.deep_view() == file_paths_of(uris.deep_view().take(i as int)),
        decreases uris.len() - i,
    {
        proof {
            assert(uris.deep_view().take(i + 1).drop_last() =~= uris.deep_view().take(i as int));
            assert(uris.deep_view().take(i + 1).last() == uris@[i as int]@);
        }
        match file_path_of_uri(uris[i].as_str()) {
            Some(p) => {
                let ghost before = r.deep_view();
                r.push(p);
                proof {
                    assert(r.deep_view() =~= before.push(p@));
                }
            },
            None => {},
        }
        i = i + 1;
    }
    proof {
        assert(uris.deep_view().take(uris@.len() as int) =~= uris.deep_view());
    }
    r
}

} // verus!
