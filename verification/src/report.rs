//! The diagnostic report, in Markdown, ready to paste into an issue.
//!
//! It carries what every media issue asks for and nothing more: no account
//! names or ids, no phone numbers, not a line of the log. Paths under the
//! home folder are shortened to `~`, because the name of the system account
//! is often the person's real name.
use vstd::prelude::*;
use crate::config::model::SystemDiagnostics;
use crate::shell::joined;
use crate::text::{chars_of, decimal, decimal_string, digit, digit_char, push_chars, push_str, str_eq};

verus! {

// ───────────────────────────── anonymising ─────────────────────────────

/// `s` with every occurrence of `pat`, taken left to right without overlap,
/// replaced by `~` (what `str::replace` does).
pub open spec fn replaced(s: Seq<char>, pat: Seq<char>) -> Seq<char>
    decreases s.len(),
{
    if pat.len() == 0 || s.len() == 0 {
        s
    } else if s.len() >= pat.len() && s.take(pat.len() as int) == pat {
        seq!['~'] + replaced(s.skip(pat.len() as int), pat)
    } else {
        seq![s[0]] + replaced(s.skip(1), pat)
    }
}

/// The text with the home folder written as `~`; with no home to replace
/// (empty, or the root), the text as it is.
pub open spec fn anonymized(text: Seq<char>, home: Seq<char>) -> Seq<char> {
    if home.len() == 0 || home == seq!['/'] {
        text
    } else {
        replaced(text, home)
    }
}

/// Does `pat` occur in `s` at position `i`?
pub open spec fn occurs_at(s: Seq<char>, pat: Seq<char>, i: int) -> bool {
    0 <= i && i + pat.len() <= s.len() && s.subrange(i, i + pat.len()) == pat
}

/// Does `pat` occur anywhere in `s`?
pub open spec fn occurs(s: Seq<char>, pat: Seq<char>) -> bool {
    exists|i: int| occurs_at(s, pat, i)
}

/// Does `pat` start at `i` in the character vector?
fn matches_at(s: &Vec<char>, i: usize, pat: &Vec<char>) -> (b: bool)
    requires
        i <= s.len(),
    ensures
        b == (s@.len() - i >= pat@.len() && s@.skip(i as int).take(pat@.len() as int) == pat@),
{
    if s.len() - i < pat.len() {
        return false;
    }
    let mut k: usize = 0;
    while k < pat.len()
        invariant
            i <= s.len(),
            s.len() - i >= pat.len(),
            k <= pat.len(),
            forall|j: int| 0 <= j < k ==> s@[i + j] == pat@[j],
        decreases pat.len() - k,
    {
        if s[i + k] != pat[k] {
            assert(s@.skip(i as int).take(pat@.len() as int)[k as int] != pat@[k as int]);
            return false;
        }
        k = k + 1;
    }
    assert(s@.skip(i as int).take(pat@.len() as int) =~= pat@);
    true
}

/// `str::replace(text, home, "~")`.
fn replace_home(text: &str, home: &str) -> (r: String)
    requires
        home@.len() > 0,
    ensures
        r@ == replaced(text@, home@),
{
    let s = chars_of(text);
    let pat = chars_of(home);
    let mut out: Vec<char> = Vec::new();
    let mut i: usize = 0;
    assert(s@.skip(0) =~= s@);
    while i < s.len()
        invariant
            s@ == text@,
            pat@ == home@,
            pat@.len() > 0,
            i <= s.len(),
            out@ + replaced(s@.skip(i as int), pat@) == replaced(s@, pat@),
        decreases s.len() - i,
    {
        let ghost rest = s@.skip(i as int);
        if matches_at(&s, i, &pat) {
            assert(rest.skip(pat@.len() as int) =~= s@.skip(i + pat@.len()));
            out.push('~');
            i = i + pat.len();
            assert(out@ + replaced(s@.skip(i as int), pat@) =~= replaced(s@, pat@));
        } else {
            assert(rest.skip(1) =~= s@.skip(i + 1));
            assert(rest[0] == s@[i as int]);
            out.push(s[i]);
            i = i + 1;
            assert(out@ + replaced(s@.skip(i as int), pat@) =~= replaced(s@, pat@));
        }
    }
    assert(s@.skip(i as int) =~= Seq::<char>::empty());
    assert(out@ =~= replaced(s@, pat@));
    let mut r = String::new();
    push_chars(&mut r, &out);
    assert(r@ =~= out@);
    r
}

/// Replaces the home folder by `~`. The name of the system account is often
/// the real name of whoever uses it, and it shows in every path.
pub fn anonymize_path(texto: &str, home: &str) -> (r: String)
    ensures
        r@ == anonymized(texto@, home@),
{
    proof {
        reveal_strlit("/");
        assert("/"@ =~= seq!['/']);
    }
    if home.is_empty() || str_eq(home, "/") {
        return String::from_str(texto);
    }
    replace_home(texto, home)
}

/// Every `~` in the output is one of the replacements: as long as no `~`
/// shows up, the output is the input.
proof fn lemma_replaced_prefix(s: Seq<char>, pat: Seq<char>, j: int)
    requires
        pat.len() > 0,
        0 <= j <= replaced(s, pat).len(),
        forall|k: int| 0 <= k < j ==> replaced(s, pat)[k] != '~',
    ensures
        j <= s.len(),
        replaced(s, pat).take(j) == s.take(j),
    decreases s.len(),
{
    if s.len() == 0 || j == 0 {
    } else if s.len() >= pat.len() && s.take(pat.len() as int) == pat {
        assert(replaced(s, pat)[0] == '~');
    } else {
        let r = replaced(s.skip(1), pat);
        assert(replaced(s, pat) == seq![s[0]] + r);
        assert forall|k: int| 0 <= k < j - 1 implies r[k] != '~' by {
            assert(replaced(s, pat)[k + 1] == r[k]);
        }
        lemma_replaced_prefix(s.skip(1), pat, j - 1);
        assert(replaced(s, pat).take(j) =~= seq![s[0]] + r.take(j - 1));
        assert(s.take(j) =~= seq![s[0]] + s.skip(1).take(j - 1));
    }
}

/// After the replacement the home folder no longer appears, as long as it
/// does not itself hold a `~`.
pub proof fn lemma_replaced_hides(s: Seq<char>, pat: Seq<char>)
    requires
        pat.len() > 0,
        forall|k: int| 0 <= k < pat.len() ==> pat[k] != '~',
    ensures
        !occurs(replaced(s, pat), pat),
    decreases s.len(),
{
    if s.len() == 0 {
        assert forall|i: int| !occurs_at(replaced(s, pat), pat, i) by {}
    } else if s.len() >= pat.len() && s.take(pat.len() as int) == pat {
        let rest = replaced(s.skip(pat.len() as int), pat);
        lemma_replaced_hides(s.skip(pat.len() as int), pat);
        let out = seq!['~'] + rest;
        assert(replaced(s, pat) == out);
        assert forall|i: int| !occurs_at(out, pat, i) by {
            if occurs_at(out, pat, i) {
                if i == 0 {
                    assert(out.subrange(0, pat.len() as int)[0] == '~');
                } else {
                    assert(rest.subrange(i - 1, i - 1 + pat.len()) =~= out.subrange(
                        i,
                        i + pat.len(),
                    ));
                    assert(occurs_at(rest, pat, i - 1));
                }
            }
        }
    } else {
        let rest = replaced(s.skip(1), pat);
        lemma_replaced_hides(s.skip(1), pat);
        let out = seq![s[0]] + rest;
        assert(replaced(s, pat) == out);
        assert forall|i: int| !occurs_at(out, pat, i) by {
            if occurs_at(out, pat, i) {
                if i == 0 {
                    let j = pat.len() - 1;
                    assert forall|k: int| 0 <= k < j implies rest[k] != '~' by {
                        assert(out.subrange(0, pat.len() as int)[k + 1] == rest[k]);
                        assert(pat[k + 1] != '~');
                    }
                    lemma_replaced_prefix(s.skip(1), pat, j);
                    assert(s.take(pat.len() as int) =~= seq![s[0]] + s.skip(1).take(j));
                    assert(out.subrange(0, pat.len() as int) =~= seq![s[0]] + rest.take(j));
                } else {
                    assert(rest.subrange(i - 1, i - 1 + pat.len()) =~= out.subrange(
                        i,
                        i + pat.len(),
                    ));
                    assert(occurs_at(rest, pat, i - 1));
                }
            }
        }
    }
}

// ───────────────────────────── sizes ─────────────────────────────

/// `x / p` rounded to the nearest whole number, halves to the even one.
pub open spec fn div_round_even(x: nat, p: nat) -> nat {
    let q = x / p;
    let r = x % p;
    if 2 * r > p || (2 * r == p && q % 2 == 1) {
        q + 1
    } else {
        q
    }
}

/// The power of two by which `n` has more than the 53 significant bits a
/// double-precision float holds (1 when it fits).
pub open spec fn float_scale(n: nat) -> nat
    decreases n,
{
    if n < 0x20000000000000 {
        1
    } else {
        2 * float_scale(n / 2)
    }
}

/// The value of `n as f64`: the nearest number with 53 significant bits,
/// halves to the even one.
pub open spec fn as_double(n: nat) -> nat {
    div_round_even(n, float_scale(n)) * float_scale(n)
}

/// A number of bytes in MiB, in tenths, as `{:.1}` rounds the double that
/// `bytes as f64 / 1048576.0` gives: exactly, halves to the even tenth.
pub open spec fn mib_tenths(bytes: nat) -> nat {
    div_round_even(as_double(bytes) * 10, 1048576)
}

/// `12.3 MiB`.
pub open spec fn mib_text(bytes: nat) -> Seq<char> {
    decimal(mib_tenths(bytes) / 10) + seq!['.', digit_char(mib_tenths(bytes) % 10)] + " MiB"@
}

fn div_round_even_exec(x: u128, p: u128) -> (r: u128)
    requires
        p > 0,
        x / p < u128::MAX,
    ensures
        r == div_round_even(x as nat, p as nat),
{
    let q = x / p;
    let r = x % p;
    if r > p - r || (r == p - r && q % 2 == 1) {
        q + 1
    } else {
        q
    }
}

/// A size in MiB with one decimal: the text `{:.1}` writes for the `f64`
/// nearest to `bytes / 2^20`, rounded to even as that formatting does.
pub fn megas(bytes: u64) -> (s: String)
    ensures
        s@ == mib_text(bytes as nat),
{
    let n = bytes as u128;
    let mut p: u128 = 1;
    while n / p >= 0x20000000000000
        invariant
            1 <= p <= 4096,
            n <= u64::MAX,
            float_scale(n as nat) == p * float_scale((n / p) as nat),
        decreases 4096 - p,
    {
        proof {
            vstd::arithmetic::div_mod::lemma_div_denominator(n as int, p as int, 2);
            vstd::arithmetic::div_mod::lemma_fundamental_div_mod(n as int, p as int);
            let qq = n / p;
            assert(float_scale(qq as nat) == 2 * float_scale((qq / 2) as nat));
            assert((qq as int) / 2 == (n as int) / ((p as int) * 2));
            let x = float_scale((qq / 2) as nat);
            assert(p * (2 * x) == (p * 2) * x) by (nonlinear_arith);
            assert(p < 2048) by (nonlinear_arith)
                requires
                    n <= u64::MAX,
                    qq >= 0x20000000000000,
                    p >= 1,
                    qq * p <= n,
            ;
        }
        p = p * 2;
    }
    proof {
        let f = float_scale((n / p) as nat);
        assert(f == 1);
        assert(p * f == p) by (nonlinear_arith)
            requires
                f == 1,
        ;
    }
    let q = div_round_even_exec(n, p);
    assert(q <= 0x20000000000000);
    assert(q * p <= 0x20000000000000 * 4096) by (nonlinear_arith)
        requires
            q <= 0x20000000000000,
            p <= 4096,
    ;
    let v = q * p;
    let t = div_round_even_exec(v * 10, 1048576);
    let mut s = decimal_string(t / 10);
    s.push('.');
    s.push(digit(t % 10));
    push_str(&mut s, " MiB");
    proof {
        assert(float_scale(n as nat) == p);
        assert(s@ =~= mib_text(bytes as nat));
    }
    s
}

// ───────────────────────────── the report ─────────────────────────────

/// One line of the report: the label in bold, then the value with the home
/// folder hidden.
pub open spec fn row(label: Seq<char>, value: Seq<char>, home: Seq<char>) -> Seq<char> {
    "- **"@ + label + ":** "@ + anonymized(value, home) + "\n"@
}

pub open spec fn h264_text(d: SystemDiagnostics) -> Seq<char> {
    if d.has_h264_decoder {
        d.h264_decoder_name@
    } else {
        "no detectado"@
    }
}

pub open spec fn aac_text(d: SystemDiagnostics) -> Seq<char> {
    if d.has_aac_decoder {
        "avdec_aac"@
    } else {
        "no detectado"@
    }
}

/// What the profiles, the GStreamer cache and the log take on disk.
pub open spec fn disk_text(d: SystemDiagnostics) -> Seq<char> {
    "perfiles "@ + mib_text(d.profiles_size as nat) + ", caché de GStreamer "@ + mib_text(
        d.gstreamer_cache_size as nat,
    ) + ", registro "@ + mib_text(d.log_size as nat)
}

/// `` `KEY=value` ``.
pub open spec fn variable_item(kv: (Seq<char>, Seq<char>)) -> Seq<char> {
    "`"@ + kv.0 + "="@ + kv.1 + "`"@
}

/// The media variables set in the environment, or `ninguna`.
pub open spec fn variables_text(vars: Seq<(Seq<char>, Seq<char>)>) -> Seq<char> {
    if vars.len() == 0 {
        "ninguna"@
    } else {
        joined(vars.map_values(|kv: (Seq<char>, Seq<char>)| variable_item(kv)), ", "@)
    }
}

/// The pairs of texts of some pairs of strings.
pub open spec fn pair_texts(v: Seq<(String, String)>) -> Seq<(Seq<char>, Seq<char>)> {
    v.map_values(|p: (String, String)| (p.0@, p.1@))
}

pub open spec fn report_header() -> Seq<char> {
    "### Diagnóstico de Wrusp\n\n"@
}

pub open spec fn report_footer() -> Seq<char> {
    "\n_Sin nombres de cuenta, identificadores ni contenido de mensajes. Las rutas personales aparecen como `~`._\n"@
}

/// The whole report.
pub open spec fn report_text(
    d: SystemDiagnostics,
    cuentas: nat,
    pantalla: Seq<char>,
    sistema: Seq<char>,
    vars: Seq<(Seq<char>, Seq<char>)>,
    home: Seq<char>,
    version: Seq<char>,
) -> Seq<char> {
    report_header() + row("Wrusp"@, version, home) + row(
        "Sistema"@,
        sistema + " ("@ + d.os_info@ + ")"@,
        home,
    ) + row("Motor"@, d.webkit_version@, home) + row("Decodificador H.264"@, h264_text(d), home)
        + row("Decodificador AAC"@, aac_text(d), home) + row("Ventana"@, pantalla, home) + row(
        "Cuentas configuradas"@,
        decimal(cuentas),
        home,
    ) + row("En disco"@, disk_text(d), home) + row(
        "Variables multimedia"@,
        variables_text(vars),
        home,
    ) + report_footer()
}

fn push_row(out: &mut String, label: &str, value: &str, home: &str)
    ensures
        final(out)@ == old(out)@ + row(label@, value@, home@),
{
    push_str(out, "- **");
    push_str(out, label);
    push_str(out, ":** ");
    let v = anonymize_path(value, home);
    push_str(out, v.as_str());
    push_str(out, "\n");
    assert(final(out)@ =~= old(out)@ + row(label@, value@, home@));
}

fn variables_line(variables: &Vec<(String, String)>) -> (s: String)
    ensures
        s@ == variables_text(pair_texts(variables@)),
{
    if variables.len() == 0 {
        return String::from_str("ninguna");
    }
    let ghost items = pair_texts(variables@).map_values(
        |kv: (Seq<char>, Seq<char>)| variable_item(kv),
    );
    let mut s = String::new();
    let mut i: usize = 0;
    while i < variables.len()
        invariant
            i <= variables@.len(),
            variables@.len() > 0,
            items == pair_texts(variables@).map_values(
                |kv: (Seq<char>, Seq<char>)| variable_item(kv),
            ),
            s@ == joined(items.take(i as int), ", "@),
        decreases variables.len() - i,
    {
        proof {
            assert(items.take(i + 1).drop_last() =~= items.take(i as int));
            assert(items.take(i + 1).last() == items[i as int]);
            assert(items[i as int] == variable_item((variables@[i as int].0@, variables@[i as int].1@)));
            if i == 0 {
                assert(items.take(1) =~= seq![items[0]]);
                assert(joined(items.take(0), ", "@) =~= Seq::<char>::empty());
            }
        }
        let ghost before = s@;
        if i > 0 {
            push_str(&mut s, ", ");
        }
        push_str(&mut s, "`");
        push_str(&mut s, variables[i].0.as_str());
        push_str(&mut s, "=");
        push_str(&mut s, variables[i].1.as_str());
        push_str(&mut s, "`");
        proof {
            if i == 0 {
                assert(s@ =~= items[0]);
            } else {
                assert(s@ =~= before + ", "@ + items[i as int]);
            }
        }
        i = i + 1;
    }
    assert(items.take(variables@.len() as int) =~= items);
    s
}

/// The diagnostic report in Markdown: version, system, engine, decoders,
/// window, number of accounts, sizes on disk and the media variables of the
/// environment, every value with the home folder shown as `~`.
pub fn report_markdown(
    diag: &SystemDiagnostics,
    cuentas: usize,
    pantalla: &str,
    sistema: &str,
    variables: &Vec<(String, String)>,
    home: &str,
    version: &str,
) -> (s: String)
    ensures
        s@ == report_text(
            *diag,
            cuentas as nat,
            pantalla@,
            sistema@,
            pair_texts(variables@),
            home@,
            version@,
        ),
{
    let mut salida = String::from_str("### Diagnóstico de Wrusp\n\n");
    push_row(&mut salida, "Wrusp", version, home);
    let mut sis = String::from_str(sistema);
    push_str(&mut sis, " (");
    push_str(&mut sis, diag.os_info.as_str());
    push_str(&mut sis, ")");
    push_row(&mut salida, "Sistema", sis.as_str(), home);
    push_row(&mut salida, "Motor", diag.webkit_version.as_str(), home);
    let h264: &str = if diag.has_h264_decoder {
        diag.h264_decoder_name.as_str()
    } else {
        "no detectado"
    };
    push_row(&mut salida, "Decodificador H.264", h264, home);
    let aac: &str = if diag.has_aac_decoder {
        "avdec_aac"
    } else {
        "no detectado"
    };
    push_row(&mut salida, "Decodificador AAC", aac, home);
    push_row(&mut salida, "Ventana", pantalla, home);
    let n = decimal_string(cuentas as u128);
    push_row(&mut salida, "Cuentas configuradas", n.as_str(), home);
    let mut disco = String::from_str("perfiles ");
    let m = megas(diag.profiles_size);
    push_str(&mut disco, m.as_str());
    push_str(&mut disco, ", caché de GStreamer ");
    let m = megas(diag.gstreamer_cache_size);
    push_str(&mut disco, m.as_str());
    push_str(&mut disco, ", registro ");
    let m = megas(diag.log_size);
    push_str(&mut disco, m.as_str());
    push_row(&mut salida, "En disco", disco.as_str(), home);
    let vars = variables_line(variables);
    push_row(&mut salida, "Variables multimedia", vars.as_str(), home);
    push_str(
        &mut salida,
        "\n_Sin nombres de cuenta, identificadores ni contenido de mensajes. Las rutas personales aparecen como `~`._\n",
    );
    salida
}

// ───────────────────────────── what the report hides ─────────────────────────────

/// A home folder the report can hide: an absolute path other than the root,
/// without `~` and without line breaks.
pub open spec fn hideable_home(home: Seq<char>) -> bool {
    &&& home.len() > 1
    &&& home[0] == '/'
    &&& forall|k: int| 0 <= k < home.len() ==> home[k] != '~' && home[k] != '\n'
}

/// `s` holds no `/`.
pub open spec fn no_slash(s: Seq<char>) -> bool {
    forall|k: int| 0 <= k < s.len() ==> s[k] != '/'
}

/// Every `/` of `s` has a line break after it, further on in `s`.
pub open spec fn slashes_closed(s: Seq<char>) -> bool {
    forall|k: int|
        0 <= k < s.len() && s[k] == '/' ==> exists|j: int| k < j < s.len() && s[j] == '\n'
}

/// An occurrence in `a + b` lies in `a`, in `b`, or across the two.
proof fn lemma_occurrence_parts(a: Seq<char>, b: Seq<char>, pat: Seq<char>, i: int)
    requires
        occurs_at(a + b, pat, i),
    ensures
        i + pat.len() <= a.len() ==> occurs_at(a, pat, i),
        i >= a.len() ==> occurs_at(b, pat, i - a.len()),
{
    if i + pat.len() <= a.len() {
        assert(a.subrange(i, i + pat.len()) =~= (a + b).subrange(i, i + pat.len()));
    }
    if i >= a.len() {
        assert(b.subrange(i - a.len(), i - a.len() + pat.len()) =~= (a + b).subrange(
            i,
            i + pat.len(),
        ));
    }
}

/// A text without `/` holds no absolute path.
proof fn lemma_no_slash_no_home(s: Seq<char>, home: Seq<char>)
    requires
        hideable_home(home),
        no_slash(s),
    ensures
        !occurs(s, home),
{
    assert forall|i: int| !occurs_at(s, home, i) by {
        if occurs_at(s, home, i) {
            assert(s.subrange(i, i + home.len())[0] == home[0]);
        }
    }
}

/// Appending text after one whose slashes are all closed by a line break
/// adds no occurrence across the two.
proof fn lemma_append_after_closed(a: Seq<char>, b: Seq<char>, home: Seq<char>)
    requires
        hideable_home(home),
        slashes_closed(a),
        !occurs(a, home),
        !occurs(b, home),
    ensures
        !occurs(a + b, home),
{
    assert forall|i: int| !occurs_at(a + b, home, i) by {
        if occurs_at(a + b, home, i) {
            lemma_occurrence_parts(a, b, home, i);
            if i < a.len() && a.len() < i + home.len() {
                assert((a + b)[i] == (a + b).subrange(i, i + home.len())[0]);
                assert(a[i] == '/');
                let j = choose|j: int| i < j < a.len() && a[j] == '\n';
                assert((a + b).subrange(i, i + home.len())[j - i] == (a + b)[j]);
            }
        }
    }
}

/// Appending text that starts with a line break and holds no `/` adds no
/// occurrence, and leaves every slash closed.
proof fn lemma_append_line_break(a: Seq<char>, f: Seq<char>, home: Seq<char>)
    requires
        hideable_home(home),
        !occurs(a, home),
        f.len() > 0,
        f[0] == '\n',
        no_slash(f),
    ensures
        !occurs(a + f, home),
        slashes_closed(a + f),
{
    lemma_no_slash_no_home(f, home);
    assert forall|i: int| !occurs_at(a + f, home, i) by {
        if occurs_at(a + f, home, i) {
            lemma_occurrence_parts(a, f, home, i);
            if i < a.len() && a.len() < i + home.len() {
                assert((a + f).subrange(i, i + home.len())[a.len() - i] == (a + f)[a.len() as int]);
            }
        }
    }
    assert forall|k: int| 0 <= k < (a + f).len() && (a + f)[k] == '/' implies exists|j: int|
        k < j < (a + f).len() && (a + f)[j] == '\n' by {
        assert((a + f)[a.len() as int] == '\n');
    }
}

/// One line of the report keeps the home folder out.
proof fn lemma_row_hides(acc: Seq<char>, label: Seq<char>, value: Seq<char>, home: Seq<char>)
    requires
        hideable_home(home),
        !occurs(acc, home),
        slashes_closed(acc),
        no_slash(label),
    ensures
        !occurs(acc + row(label, value, home), home),
        slashes_closed(acc + row(label, value, home)),
{
    reveal_strlit("- **");
    reveal_strlit(":** ");
    reveal_strlit("\n");
    let f = "- **"@ + label + ":** "@;
    assert(no_slash(f)) by {
        assert forall|k: int| 0 <= k < f.len() implies f[k] != '/' by {
            if 4 <= k < 4 + label.len() {
                assert(f[k] == label[k - 4]);
            }
        }
    }
    lemma_no_slash_no_home(f, home);
    lemma_append_after_closed(acc, f, home);
    assert(slashes_closed(acc + f)) by {
        assert forall|k: int| 0 <= k < (acc + f).len() && (acc + f)[k] == '/' implies exists|j: int|
            k < j < (acc + f).len() && (acc + f)[j] == '\n' by {
            assert(k < acc.len());
            assert(acc[k] == '/');
            let j = choose|j: int| k < j < acc.len() && acc[j] == '\n';
            assert((acc + f)[j] == acc[j]);
        }
    }
    assert(home != seq!['/']) by {
        assert(home.len() != 1);
    }
    let v = anonymized(value, home);
    lemma_replaced_hides(value, home);
    lemma_append_after_closed(acc + f, v, home);
    lemma_append_line_break(acc + f + v, "\n"@, home);
    assert(acc + row(label, value, home) =~= acc + f + v + "\n"@);
}

/// The report never shows the home folder: whatever the paths, the system
/// name or the variables hold, every occurrence is written as `~`. This
/// holds for any home folder that is an absolute path other than the root
/// and holds no `~` or line break.
pub proof fn lemma_report_hides_home(
    d: SystemDiagnostics,
    cuentas: nat,
    pantalla: Seq<char>,
    sistema: Seq<char>,
    vars: Seq<(Seq<char>, Seq<char>)>,
    home: Seq<char>,
    version: Seq<char>,
)
    requires
        hideable_home(home),
    ensures
        !occurs(report_text(d, cuentas, pantalla, sistema, vars, home, version), home),
{
    reveal_strlit("### Diagnóstico de Wrusp\n\n");
    reveal_strlit("Wrusp");
    reveal_strlit("Sistema");
    reveal_strlit("Motor");
    reveal_strlit("Decodificador H.264");
    reveal_strlit("Decodificador AAC");
    reveal_strlit("Ventana");
    reveal_strlit("Cuentas configuradas");
    reveal_strlit("En disco");
    reveal_strlit("Variables multimedia");
    reveal_strlit(
        "\n_Sin nombres de cuenta, identificadores ni contenido de mensajes. Las rutas personales aparecen como `~`._\n",
    );
    let h = report_header();
    assert(no_slash(h));
    lemma_no_slash_no_home(h, home);
    let a1 = h + row("Wrusp"@, version, home);
    lemma_row_hides(h, "Wrusp"@, version, home);
    let a2 = a1 + row("Sistema"@, sistema + " ("@ + d.os_info@ + ")"@, home);
    lemma_row_hides(a1, "Sistema"@, sistema + " ("@ + d.os_info@ + ")"@, home);
    let a3 = a2 + row("Motor"@, d.webkit_version@, home);
    lemma_row_hides(a2, "Motor"@, d.webkit_version@, home);
    let a4 = a3 + row("Decodificador H.264"@, h264_text(d), home);
    lemma_row_hides(a3, "Decodificador H.264"@, h264_text(d), home);
    let a5 = a4 + row("Decodificador AAC"@, aac_text(d), home);
    lemma_row_hides(a4, "Decodificador AAC"@, aac_text(d), home);
    let a6 = a5 + row("Ventana"@, pantalla, home);
    lemma_row_hides(a5, "Ventana"@, pantalla, home);
    let a7 = a6 + row("Cuentas configuradas"@, decimal(cuentas), home);
    lemma_row_hides(a6, "Cuentas configuradas"@, decimal(cuentas), home);
    let a8 = a7 + row("En disco"@, disk_text(d), home);
    lemma_row_hides(a7, "En disco"@, disk_text(d), home);
    let a9 = a8 + row("Variables multimedia"@, variables_text(vars), home);
    lemma_row_hides(a8, "Variables multimedia"@, variables_text(vars), home);
    let f = report_footer();
    assert(no_slash(f));
    lemma_append_line_break(a9, f, home);
}

} // verus!
