//! Copying chat images to the desktop clipboard.
//!
//! The engine's own "copy image" put the `blob:` address on the clipboard
//! instead of the picture. The application replaces that menu entry: it asks
//! the page for the bytes, in base64, and hands them to the desktop. This
//! module holds the page script, the request, the checks on the answer, the
//! decoder, and the law that ties it to the encoder of `filedrop`.
use vstd::prelude::*;
use vstd::string::StringSliceAdditionalSpecFns;
use crate::json::{json_quoted, quoted_or};
use crate::text::push_str;
use crate::filedrop::{b64_symbol, base64_spec, byte_or_zero, encoded_char, encoded_len, lemma_index_split};

verus! {

/// Bytes the decoder passes over: padding and ASCII white space.
pub open spec fn is_skipped(b: u8) -> bool {
    b == 61 || b == 32 || b == 9 || b == 10 || b == 12 || b == 13
}

/// Bytes of the standard base64 alphabet.
pub open spec fn is_symbol_byte(b: u8) -> bool {
    (65 <= b <= 90) || (97 <= b <= 122) || (48 <= b <= 57) || b == 43 || b == 47
}

/// Position of an alphabet byte in the alphabet.
pub open spec fn symbol_value(b: u8) -> u8 {
    if 65 <= b <= 90 {
        (b - 65) as u8
    } else if 97 <= b <= 122 {
        (b - 71) as u8
    } else if 48 <= b <= 57 {
        (b + 4) as u8
    } else if b == 43 {
        62
    } else {
        63
    }
}

/// The six-bit values of a text, in order, skipping padding and white space;
/// `None` as soon as a byte is neither.
pub open spec fn sextets(s: Seq<u8>) -> Option<Seq<u8>>
    decreases s.len(),
{
    if s.len() == 0 {
        Some(Seq::empty())
    } else {
        match sextets(s.drop_last()) {
            None => None,
            Some(v) => if is_skipped(s.last()) {
                Some(v)
            } else if is_symbol_byte(s.last()) {
                Some(v.push(symbol_value(s.last())))
            } else {
                None
            },
        }
    }
}

/// Byte `j` of the bit stream that the six-bit values `v` spell.
pub open spec fn sextet_byte(v: Seq<u8>, j: int) -> u8 {
    let g = j / 3;
    let p = j % 3;
    if p == 0 {
        ((v[4 * g] as int) * 4 + (v[4 * g + 1] as int) / 16) as u8
    } else if p == 1 {
        (((v[4 * g + 1] as int) % 16) * 16 + (v[4 * g + 2] as int) / 4) as u8
    } else {
        (((v[4 * g + 2] as int) % 4) * 64 + (v[4 * g + 3] as int)) as u8
    }
}

/// The whole bytes spelled by six-bit values; trailing bits that do not fill
/// a byte are dropped.
pub open spec fn bytes_from_sextets(v: Seq<u8>) -> Seq<u8> {
    Seq::new((3 * v.len() / 4) as nat, |j: int| sextet_byte(v, j))
}

/// What the decoder gives for the bytes of a text.
pub open spec fn from_base64_spec(s: Seq<u8>) -> Option<Seq<u8>> {
    match sextets(s) {
        Some(v) => Some(bytes_from_sextets(v)),
        None => None,
    }
}

fn value_of(b: u8) -> (r: Option<u8>)
    ensures
        r == (if is_symbol_byte(b) {
            Some(symbol_value(b))
        } else {
            None::<u8>
        }),
{
    if 65 <= b && b <= 90 {
        Some(b - 65)
    } else if 97 <= b && b <= 122 {
        Some(b - 71)
    } else if 48 <= b && b <= 57 {
        Some(b + 4)
    } else if b == 43 {
        Some(62)
    } else if b == 47 {
        Some(63)
    } else {
        None
    }
}

/// Bits still waiting for a byte after `k` six-bit values.
pub open spec fn pending_bits(k: nat) -> u32 {
    if k % 4 == 0 {
        0
    } else if k % 4 == 1 {
        6
    } else if k % 4 == 2 {
        4
    } else {
        2
    }
}

/// Their value: the low bits of the last six-bit value.
pub open spec fn pending_value(v: Seq<u8>) -> u32 {
    let k = v.len();
    if k % 4 == 0 {
        0
    } else if k % 4 == 1 {
        v.last() as u32
    } else if k % 4 == 2 {
        (v.last() % 16) as u32
    } else {
        (v.last() % 4) as u32
    }
}

proof fn lemma_step_bits(acc: u32, val: u32, bits: u32)
    requires
        val < 64,
        bits == 0 || bits == 2 || bits == 4 || bits == 6,
    ensures
        bits == 0 ==> ((acc << 6u32) | val) & 63u32 == val,
        bits == 6 ==> ((((acc << 6u32) | val) >> 4u32) as u8) as u32 == (acc & 63u32) * 4 + val
            / 16,
        bits == 6 ==> ((acc << 6u32) | val) & 15u32 == val % 16,
        bits == 4 ==> ((((acc << 6u32) | val) >> 2u32) as u8) as u32 == (acc & 15u32) * 16 + val
            / 4,
        bits == 4 ==> ((acc << 6u32) | val) & 3u32 == val % 4,
        bits == 2 ==> ((((acc << 6u32) | val) >> 0u32) as u8) as u32 == (acc & 3u32) * 64 + val,
{
    assert(((acc << 6u32) | val) & 63u32 == val) by (bit_vector)
        requires
            val < 64,
    ;
    assert(((((acc << 6u32) | val) >> 4u32) as u8) as u32 == (acc & 63u32) * 4 + val / 16)
        by (bit_vector)
        requires
            val < 64,
    ;
    assert(((acc << 6u32) | val) & 15u32 == val % 16) by (bit_vector)
        requires
            val < 64,
    ;
    assert(((((acc << 6u32) | val) >> 2u32) as u8) as u32 == (acc & 15u32) * 16 + val / 4)
        by (bit_vector)
        requires
            val < 64,
    ;
    assert(((acc << 6u32) | val) & 3u32 == val % 4) by (bit_vector)
        requires
            val < 64,
    ;
    assert(((((acc << 6u32) | val) >> 0u32) as u8) as u32 == (acc & 3u32) * 64 + val)
        by (bit_vector)
        requires
            val < 64,
    ;
}

proof fn lemma_mask_of(acc: u32, bits: u32)
    ensures
        bits == 6 ==> acc & 63u32 == acc % 64,
        bits == 4 ==> acc & 15u32 == acc % 16,
        bits == 2 ==> acc & 3u32 == acc % 4,
{
    assert(acc & 63u32 == acc % 64) by (bit_vector);
    assert(acc & 15u32 == acc % 16) by (bit_vector);
    assert(acc & 3u32 == acc % 4) by (bit_vector);
}

proof fn lemma_div_parts(k: int)
    requires
        k >= 0,
    ensures
        k % 4 == 0 ==> 3 * (k + 1) / 4 == 3 * k / 4,
        k % 4 == 1 ==> 3 * (k + 1) / 4 == 3 * k / 4 + 1 && (3 * k / 4) / 3 == k / 4 && (3 * k
            / 4) % 3 == 0,
        k % 4 == 2 ==> 3 * (k + 1) / 4 == 3 * k / 4 + 1 && (3 * k / 4) / 3 == k / 4 && (3 * k
            / 4) % 3 == 1,
        k % 4 == 3 ==> 3 * (k + 1) / 4 == 3 * k / 4 + 1 && (3 * k / 4) / 3 == k / 4 && (3 * k
            / 4) % 3 == 2,
        (k / 4) * 4 + k % 4 == k,
{
    assert(k % 4 == 0 ==> 3 * (k + 1) / 4 == 3 * k / 4) by (nonlinear_arith)
        requires
            k >= 0,
    ;
    assert(k % 4 == 1 ==> 3 * (k + 1) / 4 == 3 * k / 4 + 1 && (3 * k / 4) / 3 == k / 4 && (3 * k
        / 4) % 3 == 0) by (nonlinear_arith)
        requires
            k >= 0,
    ;
    assert(k % 4 == 2 ==> 3 * (k + 1) / 4 == 3 * k / 4 + 1 && (3 * k / 4) / 3 == k / 4 && (3 * k
        / 4) % 3 == 1) by (nonlinear_arith)
        requires
            k >= 0,
    ;
    assert(k % 4 == 3 ==> 3 * (k + 1) / 4 == 3 * k / 4 + 1 && (3 * k / 4) / 3 == k / 4 && (3 * k
        / 4) % 3 == 2) by (nonlinear_arith)
        requires
            k >= 0,
    ;
    assert((k / 4) * 4 + k % 4 == k) by (nonlinear_arith)
        requires
            k >= 0,
    ;
}

/// Once a prefix holds a byte outside the alphabet, so does every longer one.
proof fn lemma_sextets_none_extends(s: Seq<u8>, i: int)
    requires
        0 <= i <= s.len(),
        sextets(s.take(i)) is None,
    ensures
        sextets(s) is None,
    decreases s.len() - i,
{
    if i < s.len() {
        assert(s.take(i + 1).drop_last() =~= s.take(i));
        lemma_sextets_none_extends(s, i + 1);
    } else {
        assert(s.take(i) =~= s);
    }
}

proof fn lemma_indices_in_range(t: int, k: int)
    requires
        0 <= t < 3 * k / 4,
        k >= 0,
    ensures
        4 * (t / 3) + t % 3 + 1 < k,
{
    assert(4 * (t / 3) + t % 3 + 1 < k) by (nonlinear_arith)
        requires
            0 <= t < 3 * k / 4,
            k >= 0,
    ;
}

/// Decodes standard base64, skipping padding and ASCII white space; `None` if
/// a character outside the alphabet shows up.
pub fn desde_base64(texto: &str) -> (r: Option<Vec<u8>>)
    ensures
        match r {
            Some(v) => from_base64_spec(texto.spec_bytes()) == Some(v@),
            None => from_base64_spec(texto.spec_bytes()) is None,
        },
{
    let bytes = texto.as_bytes();
    let ghost s = texto.spec_bytes();
    let mut salida: Vec<u8> = Vec::new();
    let mut acumulado: u32 = 0;
    let mut bits: u32 = 0;
    let ghost mut v: Seq<u8> = Seq::empty();
    let mut i: usize = 0;
    while i < bytes.len()
        invariant
            bytes@ == s,
            s == texto.spec_bytes(),
            i <= bytes.len(),
            sextets(s.take(i as int)) == Some(v),
            bits == pending_bits(v.len()),
            bits == 0 || acumulado % (if bits == 6 {
                64u32
            } else if bits == 4 {
                16u32
            } else {
                4u32
            }) == pending_value(v),
            salida@ == bytes_from_sextets(v),
            forall|k: int| 0 <= k < v.len() ==> #[trigger] v[k] < 64,
        decreases bytes.len() - i,
    {
        let byte = bytes[i];
        proof {
            assert(s.take(i + 1).drop_last() =~= s.take(i as int));
            assert(s.take(i + 1).last() == byte);
        }
        if byte == 61 || byte == 32 || byte == 9 || byte == 10 || byte == 12 || byte == 13 {
            i = i + 1;
            continue;
        }
        let valor = match value_of(byte) {
            Some(x) => x,
            None => {
                proof {
                    assert(sextets(s.take(i + 1)) is None);
                    lemma_sextets_none_extends(s, i + 1);
                }
                return None;
            },
        };
        let ghost old_v = v;
        let ghost old_acc = acumulado;
        let ghost k = v.len() as int;
        let val = valor as u32;
        proof {
            assert(symbol_value(byte) < 64);
            lemma_step_bits(acumulado, val, bits);
            lemma_mask_of(acumulado, bits);
            lemma_div_parts(k);
            v = v.push(valor);
        }
        acumulado = (acumulado << 6u32) | val;
        bits = bits + 6;
        proof {
            lemma_mask_of(acumulado, 6);
            lemma_mask_of(acumulado, 4);
            lemma_mask_of(acumulado, 2);
        }
        if bits >= 8 {
            bits = bits - 8;
            let b = #[verifier::truncate] ((acumulado >> bits) as u8);
            salida.push(b);
            proof {
                let j = 3 * k / 4;
                let g = k / 4;
                assert(j / 3 == g);
                if k % 4 == 1 {
                    assert(4 * g == k - 1);
                    assert(sextet_byte(v, j) == b);
                } else if k % 4 == 2 {
                    assert(4 * g + 1 == k - 1);
                    assert(sextet_byte(v, j) == b);
                } else {
                    assert(k % 4 == 3);
                    assert(4 * g + 2 == k - 1);
                    assert(sextet_byte(v, j) == b);
                }
                assert forall|t: int| 0 <= t < j implies sextet_byte(v, t) == sextet_byte(
                    old_v,
                    t,
                ) by {
                    lemma_indices_in_range(t, k);
                }
                assert(salida@ =~= bytes_from_sextets(v));
            }
        } else {
            proof {
                assert(bytes_from_sextets(v) =~= bytes_from_sextets(old_v));
            }
        }
        i = i + 1;
    }
    proof {
        assert(s.take(bytes.len() as int) =~= s);
    }
    Some(salida)
}

} // verus!

verus! {

/// The six-bit value that character `k` of the encoding of `d` stands for.
pub open spec fn enc_value(d: Seq<u8>, k: int) -> nat {
    let g = k / 4;
    let p = k % 4;
    let b0 = byte_or_zero(d, 3 * g);
    let b1 = byte_or_zero(d, 3 * g + 1);
    let b2 = byte_or_zero(d, 3 * g + 2);
    if p == 0 {
        b0 / 4
    } else if p == 1 {
        (b0 % 4) * 16 + b1 / 16
    } else if p == 2 {
        (b1 % 16) * 4 + b2 / 64
    } else {
        b2 % 64
    }
}

/// How many characters of the encoding of `n` bytes are symbols, not padding.
pub open spec fn symbol_count(n: nat) -> nat {
    if n % 3 == 0 {
        4 * (n / 3)
    } else {
        4 * (n / 3) + n % 3 + 1
    }
}

proof fn lemma_symbol_roundtrip(x: nat)
    requires
        x < 64,
    ensures
        is_symbol_byte(b64_symbol(x) as u8),
        !is_skipped(b64_symbol(x) as u8),
        symbol_value(b64_symbol(x) as u8) == x,
{
}

proof fn lemma_char_shape(d: Seq<u8>, k: int)
    requires
        0 <= k < encoded_len(d.len()),
    ensures
        k < symbol_count(d.len()) ==> enc_value(d, k) < 64 && encoded_char(d, k) == b64_symbol(
            enc_value(d, k),
        ),
        k >= symbol_count(d.len()) ==> encoded_char(d, k) == '=',
{
    let n = d.len() as int;
    let g = k / 4;
    let p = k % 4;
    assert(k == 4 * g + p && 0 <= p < 4 && g >= 0) by (nonlinear_arith)
        requires
            k >= 0,
            g == k / 4,
            p == k % 4,
    ;
    assert(3 * g < n) by (nonlinear_arith)
        requires
            0 <= k < ((n + 2) / 3) * 4,
            k == 4 * g + p,
            0 <= p < 4,
            n >= 0,
    ;
    assert((k < symbol_count(n as nat)) <==> (if p <= 1 {
        3 * g < n
    } else if p == 2 {
        3 * g + 1 < n
    } else {
        3 * g + 2 < n
    })) by (nonlinear_arith)
        requires
            k == 4 * g + p,
            0 <= p < 4,
            g >= 0,
            n >= 0,
            3 * g < n,
            symbol_count(n as nat) == (if n % 3 == 0 {
                4 * (n / 3)
            } else {
                4 * (n / 3) + n % 3 + 1
            }),
    ;
    let b0 = byte_or_zero(d, 3 * g);
    let b1 = byte_or_zero(d, 3 * g + 1);
    let b2 = byte_or_zero(d, 3 * g + 2);
    assert(b0 < 256 && b1 < 256 && b2 < 256);
}

proof fn lemma_prefix_sextets(d: Seq<u8>, b: Seq<u8>, i: int)
    requires
        b.len() == encoded_len(d.len()),
        forall|k: int| 0 <= k < b.len() ==> #[trigger] b[k] == encoded_char(d, k) as u8,
        0 <= i <= b.len(),
    ensures
        sextets(b.take(i)) == Some(
            Seq::new(
                (if i < symbol_count(d.len()) {
                    i
                } else {
                    symbol_count(d.len()) as int
                }) as nat,
                |k: int| enc_value(d, k) as u8,
            ),
        ),
    decreases i,
{
    let m = symbol_count(d.len()) as int;
    if i == 0 {
        assert(b.take(0) =~= Seq::<u8>::empty());
        assert(Seq::new(0, |k: int| enc_value(d, k) as u8) =~= Seq::<u8>::empty());
    } else {
        lemma_prefix_sextets(d, b, i - 1);
        assert(b.take(i).drop_last() =~= b.take(i - 1));
        assert(b.take(i).last() == b[i - 1]);
        lemma_char_shape(d, i - 1);
        let prev = Seq::new(
            (if i - 1 < m {
                i - 1
            } else {
                m
            }) as nat,
            |k: int| enc_value(d, k) as u8,
        );
        if i - 1 < m {
            lemma_symbol_roundtrip(enc_value(d, i - 1));
            assert(prev.push(enc_value(d, i - 1) as u8) =~= Seq::new(
                i as nat,
                |k: int| enc_value(d, k) as u8,
            ));
        } else {
            assert(b[i - 1] == 61);
        }
    }
}

proof fn lemma_group_bytes(b0: u8, b1: u8, b2: u8)
    ensures
        ((b0 / 4) as int) * 4 + (((b0 % 4) as int) * 16 + (b1 / 16) as int) / 16 == b0,
        ((((b0 % 4) as int) * 16 + (b1 / 16) as int) % 16) * 16 + (((b1 % 16) as int) * 4 + (b2
            / 64) as int) / 4 == b1,
        ((((b1 % 16) as int) * 4 + (b2 / 64) as int) % 4) * 64 + (b2 % 64) as int == b2,
{
    assert(((b0 / 4) as int) * 4 + (((b0 % 4) as int) * 16 + (b1 / 16) as int) / 16 == b0)
        by (nonlinear_arith);
    assert(((((b0 % 4) as int) * 16 + (b1 / 16) as int) % 16) * 16 + (((b1 % 16) as int) * 4 + (
    b2 / 64) as int) / 4 == b1) by (nonlinear_arith);
    assert(((((b1 % 16) as int) * 4 + (b2 / 64) as int) % 4) * 64 + (b2 % 64) as int == b2)
        by (nonlinear_arith);
}

/// Decoding the encoding of any bytes gives those bytes back: whatever
/// `base64` writes, `desde_base64` reads back unchanged.
pub proof fn lemma_base64_round_trip(texto: &str, data: Seq<u8>)
    requires
        texto@ == base64_spec(data),
    ensures
        from_base64_spec(texto.spec_bytes()) == Some(data),
{
    let e = base64_spec(data);
    let n = data.len() as int;
    // The encoding is ASCII, so its bytes are its characters.
    assert forall|k: int| 0 <= k < e.len() implies ((#[trigger] e[k]) as u32) < 128 by {
        lemma_char_shape(data, k);
    }
    assert(vstd::string::is_ascii(texto));
    vstd::string::is_ascii_spec_bytes(texto);
    let b = texto.spec_bytes();
    assert forall|k: int| 0 <= k < b.len() implies #[trigger] b[k] == encoded_char(data, k)
        as u8 by {}
    lemma_prefix_sextets(data, b, b.len() as int);
    assert(b.take(b.len() as int) =~= b);
    let m = symbol_count(data.len()) as int;
    assert(m <= encoded_len(data.len())) by (nonlinear_arith)
        requires
            n >= 0,
            m == (if n % 3 == 0 {
                4 * (n / 3)
            } else {
                4 * (n / 3) + n % 3 + 1
            }),
            encoded_len(data.len()) == ((n + 2) / 3) * 4,
    ;
    let v = Seq::new(m as nat, |k: int| enc_value(data, k) as u8);
    assert(3 * m / 4 == n) by (nonlinear_arith)
        requires
            n >= 0,
            m == (if n % 3 == 0 {
                4 * (n / 3)
            } else {
                4 * (n / 3) + n % 3 + 1
            }),
    ;
    assert forall|j: int| 0 <= j < n implies #[trigger] sextet_byte(v, j) == data[j] by {
        let g = j / 3;
        let p = j % 3;
        assert(j == 3 * g + p && 0 <= p < 3 && g >= 0) by (nonlinear_arith)
            requires
                j >= 0,
                g == j / 3,
                p == j % 3,
        ;
        lemma_indices_in_range(j, m);
        lemma_index_split(g, 0);
        lemma_index_split(g, 1);
        lemma_index_split(g, 2);
        lemma_index_split(g, 3);
        let b0 = data[3 * g];
        let b1: u8 = if 3 * g + 1 < n {
            data[3 * g + 1]
        } else {
            0
        };
        let b2: u8 = if 3 * g + 2 < n {
            data[3 * g + 2]
        } else {
            0
        };
        assert(byte_or_zero(data, 3 * g) == b0);
        assert(byte_or_zero(data, 3 * g + 1) == b1);
        assert(byte_or_zero(data, 3 * g + 2) == b2);
        lemma_group_bytes(b0, b1, b2);
        assert(enc_value(data, 4 * g) == b0 / 4);
        assert(enc_value(data, 4 * g + 1) == (b0 % 4) * 16 + b1 / 16);
        assert(enc_value(data, 4 * g + 2) == (b1 % 16) * 4 + b2 / 64);
        assert(enc_value(data, 4 * g + 3) == b2 % 64);
    }
    assert(bytes_from_sextets(v) =~= data);
}


/// Largest image passed through the view: 32 MiB (four thirds of that in
/// base64, in one JavaScript value).
pub const MAX_IMAGEN: usize = 33554432;

/// Script injected in the account views: reads an image's bytes for the
/// application, and copies the image itself when the page would copy its
/// `blob:` address as text.
pub const SCRIPT: &'static str = r#"(function () {
  const MAX_IMAGEN = 32 * 1024 * 1024;

  // Dos caminos, por orden de fidelidad. El primero entrega los bytes
  // originales; el segundo repinta lo que ya se ve, y sirve cuando la CSP de
  // WhatsApp veta la petición o el blob ya no existe.
  async function comoBlob(uri) {
    try {
      const respuesta = await fetch(uri);
      if (respuesta.ok) return await respuesta.blob();
    } catch (e) { /* queda el lienzo */ }

    const img = Array.prototype.find.call(
      document.images, (i) => i.currentSrc === uri || i.src === uri
    );
    if (!img || !img.naturalWidth) return null;
    const lienzo = document.createElement('canvas');
    lienzo.width = img.naturalWidth;
    lienzo.height = img.naturalHeight;
    lienzo.getContext('2d').drawImage(img, 0, 0);
    return await new Promise((listo) => lienzo.toBlob(listo, 'image/png'));
  }

  function aBase64(bytes) {
    // A trozos: `String.fromCharCode` con un array entero desborda la pila.
    let bruto = '';
    for (let i = 0; i < bytes.length; i += 8192)
      bruto += String.fromCharCode.apply(null, bytes.subarray(i, i + 8192));
    return btoa(bruto);
  }

  // Lo llama Rust cuando se pulsa «Copiar imagen» (ver `clipboard.rs`).
  window.__wruspLeerImagen = async function (uri) {
    const blob = await comoBlob(uri);
    if (!blob || !blob.size || blob.size > MAX_IMAGEN) return '';
    return aBase64(new Uint8Array(await blob.arrayBuffer()));
  };

  // Remiendo para el otro camino: si la página copia como texto la dirección
  // de una imagen suya, se copia la imagen. WebKitGTK admite escribir
  // `image/png` y `image/jpeg` desde aquí (comprobado), así que no hace falta
  // molestar a Rust.
  const portapapeles = navigator.clipboard;
  if (portapapeles && portapapeles.writeText && typeof ClipboardItem === 'function') {
    const escribirTexto = portapapeles.writeText.bind(portapapeles);
    portapapeles.writeText = function (texto) {
      if (typeof texto === 'string' && texto.indexOf('blob:') === 0) {
        return comoBlob(texto).then((blob) => {
          if (!blob || !/^image\//.test(blob.type)) return escribirTexto(texto);
          return portapapeles.write([new ClipboardItem({ [blob.type]: blob })]);
        }).catch(() => escribirTexto(texto));
      }
      return escribirTexto(texto);
    };
  }
})();"#;

/// The body of the function that asks the page for the bytes of `uri`.
pub open spec fn leer_imagen_text(uri: Seq<char>) -> Seq<char> {
    "return await window.__wruspLeerImagen("@ + json_quoted(uri) + ");"@
}

pub fn script_leer_imagen(uri: &str) -> (s: String)
    ensures
        s@ == leer_imagen_text(uri@),
{
    let mut s = String::from_str("return await window.__wruspLeerImagen(");
    let q = quoted_or(uri, "''");
    push_str(&mut s, q.as_str());
    push_str(&mut s, ");");
    s
}

/// Why the answer of the page gives no image to copy.
#[derive(PartialEq, Eq, Structural, Clone, Copy, Debug)]
pub enum ImagenFallida {
    /// The page could not deliver it.
    Vacia,
    /// More than the view may carry.
    DemasiadoGrande,
    /// Not base64.
    Ilegible,
}

/// The image in the page's answer, or why there is none: nothing at all,
/// more base64 than `MAX_IMAGEN` bytes can take, or not base64.
pub fn imagen_de_la_pagina(base64: &str) -> (r: Result<Vec<u8>, ImagenFallida>)
    ensures
        base64@.len() == 0 ==> r == Err::<Vec<u8>, ImagenFallida>(ImagenFallida::Vacia),
        base64@.len() > 0 && base64.len() > MAX_IMAGEN / 3 * 4 + 8 ==> r == Err::<
            Vec<u8>,
            ImagenFallida,
        >(ImagenFallida::DemasiadoGrande),
        base64@.len() > 0 && base64.len() <= MAX_IMAGEN / 3 * 4 + 8 ==> match r {
            Ok(v) => from_base64_spec(base64.spec_bytes()) == Some(v@),
            Err(e) => e == ImagenFallida::Ilegible && from_base64_spec(base64.spec_bytes()) is None,
        },
{
    if base64.is_empty() {
        return Err(ImagenFallida::Vacia);
    }
    if base64.len() > MAX_IMAGEN / 3 * 4 + 8 {
        return Err(ImagenFallida::DemasiadoGrande);
    }
    match desde_base64(base64) {
        Some(bytes) => Ok(bytes),
        None => Err(ImagenFallida::Ilegible),
    }
}

} // verus!
