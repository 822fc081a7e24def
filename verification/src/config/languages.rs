//! Spell-checker languages cleaned out of locale values.
use vstd::prelude::*;
use crate::text::{
    chars_eq, chars_of, is_white, lemma_split_on_nonempty, split_chars, split_on, string_of, trim,
    trimmed, views,
};

verus! {

/// The part of `s` before its first `.` or `@` (what `split(['.', '@'])`
/// yields first).
pub open spec fn head_before_stop(s: Seq<char>) -> Seq<char>
    decreases s.len(),
{
    if s.len() == 0 {
        s
    } else if s[0] == '.' || s[0] == '@' {
        Seq::empty()
    } else {
        seq![s[0]] + head_before_stop(s.skip(1))
    }
}

/// Every `-` of `s` turned into `_`.
pub open spec fn dashes_to_underscores(s: Seq<char>) -> Seq<char> {
    s.map_values(|c: char| if c == '-' {
        '_'
    } else {
        c
    })
}

/// A locale value reduced to a dictionary name: `es_ES.UTF-8@euro` → `es_ES`,
/// `es-ES` → `es_ES`.
pub open spec fn clean_locale(s: Seq<char>) -> Seq<char> {
    dashes_to_underscores(trim(head_before_stop(s)))
}

pub open spec fn is_ascii_alnum(c: char) -> bool {
    ('0' <= c <= '9') || ('A' <= c <= 'Z') || ('a' <= c <= 'z')
}

/// Looks like a language: not empty, not `C` or `POSIX` (which mean no
/// language at all), and only ASCII letters, digits and `_`.
pub open spec fn is_language(s: Seq<char>) -> bool {
    &&& s.len() > 0
    &&& s != seq!['C']
    &&& s != seq!['P', 'O', 'S', 'I', 'X']
    &&& forall|i: int| 0 <= i < s.len() ==> is_ascii_alnum(#[trigger] s[i]) || s[i] == '_'
}

/// All the `:`-separated pieces of the raw values, in order.
pub open spec fn locale_pieces(crudos: Seq<Seq<char>>) -> Seq<Seq<char>>
    decreases crudos.len(),
{
    if crudos.len() == 0 {
        Seq::empty()
    } else {
        locale_pieces(crudos.drop_last()) + split_on(crudos.last(), ':')
    }
}

/// The cleaned pieces that are languages, each once, in order of first
/// appearance.
pub open spec fn languages_of(pieces: Seq<Seq<char>>) -> Seq<Seq<char>>
    decreases pieces.len(),
{
    if pieces.len() == 0 {
        Seq::empty()
    } else {
        let out = languages_of(pieces.drop_last());
        let c = clean_locale(pieces.last());
        if is_language(c) && !out.contains(c) {
            out.push(c)
        } else {
            out
        }
    }
}

pub open spec fn no_repeats(s: Seq<Seq<char>>) -> bool {
    forall|i: int, j: int| 0 <= i < j < s.len() ==> s[i] != s[j]
}

/// What comes out holds only languages, none of them twice.
pub proof fn lemma_languages_clean(pieces: Seq<Seq<char>>)
    ensures
        no_repeats(languages_of(pieces)),
        forall|i: int|
            0 <= i < languages_of(pieces).len() ==> is_language(#[trigger] languages_of(pieces)[i]),
    decreases pieces.len(),
{
    if pieces.len() > 0 {
        lemma_languages_clean(pieces.drop_last());
        let out = languages_of(pieces.drop_last());
        let c = clean_locale(pieces.last());
        if is_language(c) && !out.contains(c) {
            let o2 = out.push(c);
            assert forall|i: int, j: int| 0 <= i < j < o2.len() implies o2[i] != o2[j] by {
                if j == out.len() {
                    assert(o2[i] == out[i]);
                    assert(out.contains(out[i]));
                }
            }
        }
    }
}

fn head_part(s: &Vec<char>) -> (r: Vec<char>)
    ensures
        r@ == head_before_stop(s@),
{
    let mut i: usize = 0;
    while i < s.len() && s[i] != '.' && s[i] != '@'
        invariant
            i <= s.len(),
            forall|k: int| 0 <= k < i ==> s@[k] != '.' && s@[k] != '@',
        decreases s.len() - i,
    {
        i = i + 1;
    }
    proof {
        lemma_head_is_prefix(s@, i as int);
    }
    crate::text::slice_chars(s, 0, i)
}

proof fn lemma_head_is_prefix(s: Seq<char>, i: int)
    requires
        0 <= i <= s.len(),
        forall|k: int| 0 <= k < i ==> s[k] != '.' && s[k] != '@',
        i == s.len() || s[i] == '.' || s[i] == '@',
    ensures
        head_before_stop(s) == s.subrange(0, i),
    decreases i,
{
    if i == 0 {
        assert(s.subrange(0, 0) =~= Seq::<char>::empty());
        if s.len() > 0 {
            assert(s[0] == '.' || s[0] == '@');
        }
    } else {
        let t = s.skip(1);
        assert forall|k: int| 0 <= k < i - 1 implies t[k] != '.' && t[k] != '@' by {
            assert(t[k] == s[k + 1]);
        }
        if i < s.len() {
            assert(t[i - 1] == s[i]);
        }
        lemma_head_is_prefix(t, i - 1);
        assert(seq![s[0]] + t.subrange(0, i - 1) =~= s.subrange(0, i));
    }
}

fn dashes(s: &Vec<char>) -> (r: Vec<char>)
    ensures
        r@ == dashes_to_underscores(s@),
{
    let mut r: Vec<char> = Vec::new();
    let mut i: usize = 0;
    while i < s.len()
        invariant
            i <= s.len(),
            r@ == dashes_to_underscores(s@.take(i as int)),
        decreases s.len() - i,
    {
        let c = s[i];
        r.push(if c == '-' {
            '_'
        } else {
            c
        });
        i = i + 1;
        assert(r@ =~= dashes_to_underscores(s@.take(i as int)));
    }
    assert(s@.take(s.len() as int) =~= s@);
    r
}

fn language_shaped(s: &Vec<char>) -> (b: bool)
    ensures
        b == is_language(s@),
{
    if s.len() == 0 {
        return false;
    }
    if s.len() == 1 && s[0] == 'C' {
        assert(s@ =~= seq!['C']);
        return false;
    }
    if s.len() == 5 && s[0] == 'P' && s[1] == 'O' && s[2] == 'S' && s[3] == 'I' && s[4] == 'X' {
        assert(s@ =~= seq!['P', 'O', 'S', 'I', 'X']);
        return false;
    }
    let mut i: usize = 0;
    while i < s.len()
        invariant
            i <= s.len(),
            forall|k: int| 0 <= k < i ==> is_ascii_alnum(#[trigger] s@[k]) || s@[k] == '_',
        decreases s.len() - i,
    {
        let c = s[i];
        if !(('0' <= c && c <= '9') || ('A' <= c && c <= 'Z') || ('a' <= c && c <= 'z') || c
            == '_') {
            return false;
        }
        i = i + 1;
    }
    true
}

fn contains_chars(out: &Vec<Vec<char>>, c: &Vec<char>) -> (b: bool)
    ensures
        b == views(out@).contains(c@),
{
    let mut i: usize = 0;
    while i < out.len()
        invariant
            i <= out.len(),
            forall|k: int| 0 <= k < i ==> views(out@)[k] != c@,
        decreases out.len() - i,
    {
        if chars_eq(&out[i], c) {
            assert(views(out@)[i as int] == c@);
            return true;
        }
        i = i + 1;
    }
    false
}

/// Cleans a list of locale values into dictionary names (`es_ES`), splitting
/// at `:` as `LANGUAGE` separates its preferences, dropping what is not a
/// language and keeping only the first appearance of each.
pub fn normalize_languages(crudos: &[String]) -> (salida: Vec<String>)
    ensures
        salida@.map_values(|s: String| s@) == languages_of(
            locale_pieces(crudos@.map_values(|s: String| s@)),
        ),
        no_repeats(salida@.map_values(|s: String| s@)),
{
    let ghost raw = crudos@.map_values(|s: String| s@);
    let mut out: Vec<Vec<char>> = Vec::new();
    let mut n: usize = 0;
    while n < crudos.len()
        invariant
            n <= crudos.len(),
            raw == crudos@.map_values(|s: String| s@),
            views(out@) == languages_of(locale_pieces(raw.take(n as int))),
        decreases crudos.len() - n,
    {
        let chars = chars_of(crudos[n].as_str());
        let piezas = split_chars(&chars, ':');
        let ghost before = locale_pieces(raw.take(n as int));
        proof {
            assert(raw.take(n + 1).drop_last() =~= raw.take(n as int));
            assert(raw.take(n + 1).last() == chars@);
        }
        let mut p: usize = 0;
        while p < piezas.len()
            invariant
                p <= piezas.len(),
                views(piezas@) == split_on(chars@, ':'),
                views(out@) == languages_of(before + views(piezas@).take(p as int)),
            decreases piezas.len() - p,
        {
            let ghost ps = before + views(piezas@).take(p as int);
            let ghost ps2 = before + views(piezas@).take(p + 1);
            proof {
                assert(ps2.drop_last() =~= ps);
                assert(ps2.last() == piezas@[p as int]@);
            }
            let head = head_part(&piezas[p]);
            let t = trimmed(&head);
            let limpio = dashes(&t);
            if language_shaped(&limpio) && !contains_chars(&out, &limpio) {
                let ghost o = views(out@);
                out.push(limpio);
                assert(views(out@) =~= o.push(limpio@));
            }
            p = p + 1;
        }
        proof {
            assert(views(piezas@).take(piezas.len() as int) =~= views(piezas@));
        }
        n = n + 1;
    }
    proof {
        assert(raw.take(crudos.len() as int) =~= raw);
    }
    let mut salida: Vec<String> = Vec::new();
    let mut k: usize = 0;
    while k < out.len()
        invariant
            k <= out.len(),
            salida@.map_values(|s: String| s@) == views(out@).take(k as int),
        decreases out.len() - k,
    {
        let s = string_of(&out[k]);
        assert(s@ == views(out@)[k as int]);
        let ghost prev = salida@.map_values(|s: String| s@);
        salida.push(s);
        assert(salida@.map_values(|s: String| s@) =~= prev.push(s@));
        k = k + 1;
        assert(salida@.map_values(|s: String| s@) =~= views(out@).take(k as int));
    }
    proof {
        assert(views(out@).take(out.len() as int) =~= views(out@));
        lemma_languages_clean(locale_pieces(raw));
    }
    salida
}

} // verus!
