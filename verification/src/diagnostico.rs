//! Keeping on disk the media that fail to play, when the user asks for it in
//! the environment: the switch the page sees and the ids it may offer.
use vstd::prelude::*;
use vstd::string::StringSliceAdditionalSpecFns;
use crate::clipboard::{desde_base64, from_base64_spec};
use crate::json::{json_quoted, quoted_or};
use crate::text::{chars_of, decimal, decimal_string, push_str, str_eq};

verus! {

/// The environment variable that turns the dump on.
pub const VARIABLE: &'static str = "WRUSP_GUARDAR_MEDIOS_FALLIDOS";

/// Start-up script: the page only offers dumps when someone collects them.
pub fn init_script(activo: bool) -> (s: String)
    ensures
        s@ == "window.__wruspGuardarFallos = "@ + (if activo {
            "true"@
        } else {
            "false"@
        }) + ";"@,
{
    let mut s = String::from_str("window.__wruspGuardarFallos = ");
    push_str(&mut s, if activo {
        "true"
    } else {
        "false"
    });
    push_str(&mut s, ";");
    s
}

pub open spec fn is_ascii_alnum(c: char) -> bool {
    ('0' <= c <= '9') || ('A' <= c <= 'Z') || ('a' <= c <= 'z')
}

/// The ids our page script makes up (`f1`, `f2`…): one to eight ASCII
/// letters or digits, nothing else.
pub open spec fn failed_media_id_ok(id: Seq<char>) -> bool {
    &&& 1 <= id.len() <= 8
    &&& forall|i: int| 0 <= i < id.len() ==> is_ascii_alnum(#[trigger] id[i])
}

/// Is `id` one of the ids our page script hands out?
pub fn failed_media_id_valid(id: &str) -> (b: bool)
    ensures
        b == failed_media_id_ok(id@),
{
    let v = chars_of(id);
    if v.len() == 0 || v.len() > 8 {
        return false;
    }
    let mut i: usize = 0;
    while i < v.len()
        invariant
            v@ == id@,
            i <= v.len(),
            forall|k: int| 0 <= k < i ==> is_ascii_alnum(#[trigger] v@[k]),
        decreases v.len() - i,
    {
        let c = v[i];
        if !(('0' <= c && c <= '9') || ('A' <= c && c <= 'Z') || ('a' <= c && c <= 'z')) {
            assert(!is_ascii_alnum(id@[i as int]));
            return false;
        }
        i = i + 1;
    }
    true
}

/// Where the dumps go: the folder named by the variable when it names one
/// (`value_is_dir`), and otherwise `wrusp-medios-fallidos` under `temp`.
pub fn failed_media_dir(value: &str, value_is_dir: bool, temp: &str) -> (s: String)
    ensures
        s@ == (if value@.len() > 0 && value@ != "1"@ && value_is_dir {
            value@
        } else {
            crate::paths::path_joined(temp@, "wrusp-medios-fallidos"@)
        }),
{
    if !value.is_empty() && !str_eq(value, "1") && value_is_dir {
        String::from_str(value)
    } else {
        crate::paths::join_path(temp, "wrusp-medios-fallidos")
    }
}


/// Largest dump taken from the page, in base64: what 64 MiB of video become.
pub const MAX_BASE64: usize = 89478492;

/// The body of the function that asks the page for the failed medium `id`.
pub open spec fn leer_fallido_text(id: Seq<char>) -> Seq<char> {
    "return await window.__wruspLeerFallido("@ + json_quoted(id) + ");"@
}

/// The request for a failed medium the page offers, when the dump is on and
/// the id is one our page script hands out; nothing otherwise.
pub fn pedir_medio_fallido(activo: bool, id: &str) -> (r: Option<String>)
    ensures
        (activo && failed_media_id_ok(id@)) == r is Some,
        r matches Some(s) ==> s@ == leer_fallido_text(id@),
{
    if !activo || !failed_media_id_valid(id) {
        return None;
    }
    let mut s = String::from_str("return await window.__wruspLeerFallido(");
    let q = quoted_or(id, "''");
    push_str(&mut s, q.as_str());
    push_str(&mut s, ");");
    Some(s)
}

/// Why the page's answer gives nothing to write.
#[derive(PartialEq, Eq, Structural, Clone, Copy, Debug)]
pub enum MedioFallido {
    /// Empty, or larger than `MAX_BASE64`.
    NoEntregado,
    /// Not base64.
    Ilegible,
}

/// The bytes of a failed medium in the page's answer, or why there are none.
pub fn medio_de_la_pagina(base64: &str) -> (r: Result<Vec<u8>, MedioFallido>)
    ensures
        (base64@.len() == 0 || base64.len() > MAX_BASE64) ==> r == Err::<
            Vec<u8>,
            MedioFallido,
        >(MedioFallido::NoEntregado),
        !(base64@.len() == 0 || base64.len() > MAX_BASE64) ==> match r {
            Ok(v) => from_base64_spec(base64.spec_bytes()) == Some(v@),
            Err(e) => e == MedioFallido::Ilegible && from_base64_spec(base64.spec_bytes()) is None,
        },
{
    if base64.is_empty() || base64.len() > MAX_BASE64 {
        return Err(MedioFallido::NoEntregado);
    }
    match desde_base64(base64) {
        Some(bytes) => Ok(bytes),
        None => Err(MedioFallido::Ilegible),
    }
}

/// The file a dump is written to: `<seconds since the epoch>-<id>.mp4`.
pub fn nombre_medio_fallido(secs: u64, id: &str) -> (s: String)
    ensures
        s@ == decimal(secs as nat) + "-"@ + id@ + ".mp4"@,
{
    let mut s = decimal_string(secs as u128);
    push_str(&mut s, "-");
    push_str(&mut s, id);
    push_str(&mut s, ".mp4");
    s
}

} // verus!
