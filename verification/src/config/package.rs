//! Which of the published packages suits this system, from `/etc/os-release`.
use vstd::prelude::*;
use crate::text::{
    before_first, before_first_exec, split_once, chars_are, chars_of, is_white, is_white_char, lemma_split_on_nonempty, slice_chars,
    split_chars, split_on, trim, trimmed, views, split_white, non_empty, words, split_white_chars,
};

verus! {

pub open spec fn is_quote(c: char) -> bool {
    c == '"' || c == '\''
}

/// `s` without the quotes at its start.
pub open spec fn trim_start_quotes(s: Seq<char>) -> Seq<char>
    decreases s.len(),
{
    if s.len() > 0 && is_quote(s[0]) {
        trim_start_quotes(s.skip(1))
    } else {
        s
    }
}

/// `s` without the quotes at its end.
pub open spec fn trim_end_quotes(s: Seq<char>) -> Seq<char>
    decreases s.len(),
{
    if s.len() > 0 && is_quote(s.last()) {
        trim_end_quotes(s.drop_last())
    } else {
        s
    }
}

/// `trim_matches(['"', '\''])`.
pub open spec fn trim_quotes(s: Seq<char>) -> Seq<char> {
    trim_end_quotes(trim_start_quotes(s))
}

pub open spec fn to_ascii_lower(s: Seq<char>) -> Seq<char> {
    s.map_values(|c: char| if 'A' <= c <= 'Z' {
        ((c as nat) + 32) as char
    } else {
        c
    })
}

/// The families named by one line: the words of the value of an `ID` or
/// `ID_LIKE` line, unquoted and lowered; nothing from any other line.
pub open spec fn line_families(line: Seq<char>) -> Seq<Seq<char>> {
    match split_once(line, '=') {
        None => Seq::empty(),
        Some((k, v)) => {
            let key = trim(k);
            if key != "ID"@ && key != "ID_LIKE"@ {
                Seq::empty()
            } else {
                words(trim_quotes(trim(v))).map_values(|w: Seq<char>| to_ascii_lower(w))
            }
        },
    }
}

/// The families named by the lines, in file order.
pub open spec fn families_of(lines: Seq<Seq<char>>) -> Seq<Seq<char>>
    decreases lines.len(),
{
    if lines.len() == 0 {
        Seq::empty()
    } else {
        families_of(lines.drop_last()) + line_families(lines.last())
    }
}

/// The package of a known family.
pub open spec fn family_suffix(f: Seq<char>) -> Option<Seq<char>> {
    if f == "fedora"@ || f == "rhel"@ || f == "centos"@ || f == "almalinux"@ || f == "rocky"@
        || f == "opensuse"@ || f == "suse"@ || f == "mageia"@ {
        Some(".rpm"@)
    } else if f == "debian"@ || f == "ubuntu"@ || f == "linuxmint"@ || f == "pop"@ || f
        == "raspbian"@ {
        Some(".deb"@)
    } else if f == "arch"@ || f == "archlinux"@ || f == "manjaro"@ || f == "endeavouros"@ || f
        == "cachyos"@ {
        Some(".pkg.tar.zst"@)
    } else {
        None
    }
}

/// The package of the first known family; the AppImage, which needs no
/// package manager, when none is known.
pub open spec fn first_suffix(fams: Seq<Seq<char>>) -> Seq<char>
    decreases fams.len(),
{
    if fams.len() == 0 {
        ".AppImage"@
    } else {
        match family_suffix(fams[0]) {
            Some(s) => s,
            None => first_suffix(fams.skip(1)),
        }
    }
}

/// The package suffix for the contents of `/etc/os-release`.
pub open spec fn package_suffix_spec(os_release: Seq<char>) -> Seq<char> {
    first_suffix(families_of(split_on(os_release, '\n')))
}

proof fn lemma_trim_start_quotes(s: Seq<char>, i: int)
    requires
        0 <= i <= s.len(),
        forall|k: int| 0 <= k < i ==> is_quote(#[trigger] s[k]),
        i == s.len() || !is_quote(s[i]),
    ensures
        trim_start_quotes(s) == s.skip(i),
    decreases i,
{
    if i > 0 {
        lemma_trim_start_quotes(s.skip(1), i - 1);
        assert(s.skip(1).skip(i - 1) =~= s.skip(i));
        assert(is_quote(s[0]));
    } else {
        assert(s.skip(0) =~= s);
    }
}

proof fn lemma_trim_end_quotes(s: Seq<char>, j: int)
    requires
        0 <= j <= s.len(),
        forall|k: int| j <= k < s.len() ==> is_quote(#[trigger] s[k]),
        j == 0 || !is_quote(s[j - 1]),
    ensures
        trim_end_quotes(s) == s.take(j),
    decreases s.len() - j,
{
    if j < s.len() {
        assert(is_quote(s[s.len() - 1]));
        lemma_trim_end_quotes(s.drop_last(), j);
        assert(s.drop_last().take(j) =~= s.take(j));
    } else {
        assert(s.take(j) =~= s);
    }
}

pub(crate) fn unquote(s: &Vec<char>) -> (r: Vec<char>)
    ensures
        r@ == trim_quotes(s@),
{
    let mut i: usize = 0;
    while i < s.len() && (s[i] == '"' || s[i] == '\'')
        invariant
            i <= s.len(),
            forall|k: int| 0 <= k < i ==> is_quote(#[trigger] s@[k]),
        decreases s.len() - i,
    {
        i = i + 1;
    }
    proof {
        lemma_trim_start_quotes(s@, i as int);
    }
    let mut j: usize = s.len();
    while j > i && (s[j - 1] == '"' || s[j - 1] == '\'')
        invariant
            i <= j <= s.len(),
            forall|k: int| j <= k < s.len() ==> is_quote(#[trigger] s@[k]),
        decreases j,
    {
        j = j - 1;
    }
    proof {
        let t = s@.skip(i as int);
        assert forall|k: int| (j - i) <= k < t.len() implies is_quote(#[trigger] t[k]) by {
            assert(t[k] == s@[k + i]);
        }
        if j > i {
            assert(t[j - i - 1] == s@[j - 1]);
        }
        lemma_trim_end_quotes(t, j - i);
        assert(t.take(j - i) =~= s@.subrange(i as int, j as int));
    }
    slice_chars(s, i, j)
}

/// Splits at white space, as `split(char::is_whitespace)` does.
fn lower_ascii(s: &Vec<char>) -> (r: Vec<char>)
    ensures
        r@ == to_ascii_lower(s@),
{
    let mut r: Vec<char> = Vec::new();
    let mut i: usize = 0;
    while i < s.len()
        invariant
            i <= s.len(),
            r@ == to_ascii_lower(s@.take(i as int)),
        decreases s.len() - i,
    {
        let c = s[i];
        if 'A' <= c && c <= 'Z' {
            let b: u8 = (c as u8) + 32;
            r.push(b as char);
        } else {
            r.push(c);
        }
        i = i + 1;
        assert(r@ =~= to_ascii_lower(s@.take(i as int)));
    }
    assert(s@.take(s.len() as int) =~= s@);
    r
}

/// Appends to `fams` the families named by `line`.
fn push_line_families(fams: &mut Vec<Vec<char>>, line: &Vec<char>)
    ensures
        views(final(fams)@) == views(old(fams)@) + line_families(line@),
{
    let ghost start = views(fams@);
    let eq = match before_first_exec(line, '=') {
        None => {
            assert(views(fams@) =~= start + Seq::<Seq<char>>::empty());
            return;
        },
        Some(i) => i,
    };
    proof {
        assert(crate::text::has_char(line@, '='));
    }
    let clave = slice_chars(line, 0, eq);
    let clave = trimmed(&clave);
    if !(chars_are(&clave, "ID") || chars_are(&clave, "ID_LIKE")) {
        assert(views(fams@) =~= start + Seq::<Seq<char>>::empty());
        return;
    }
    let valor = slice_chars(line, eq + 1, line.len());
    proof {
        assert(valor@ =~= line@.skip(eq + 1));
    }
    let valor = trimmed(&valor);
    let valor = unquote(&valor);
    let piezas = split_white_chars(&valor);
    let ghost ws = words(valor@);
    let mut p: usize = 0;
    let ghost mut seen: Seq<Seq<char>> = Seq::empty();
    while p < piezas.len()
        invariant
            p <= piezas.len(),
            views(piezas@) == split_white(valor@),
            seen == non_empty(views(piezas@).take(p as int)),
            views(fams@) == start + seen.map_values(|w: Seq<char>| to_ascii_lower(w)),
        decreases piezas.len() - p,
    {
        proof {
            assert(views(piezas@).take(p + 1).drop_last() =~= views(piezas@).take(p as int));
            assert(views(piezas@).take(p + 1).last() == piezas@[p as int]@);
        }
        if piezas[p].len() > 0 {
            let w = lower_ascii(&piezas[p]);
            let ghost before = views(fams@);
            fams.push(w);
            proof {
                let old_seen = seen;
                seen = seen.push(piezas@[p as int]@);
                assert(views(fams@) =~= before.push(w@));
                assert(seen.map_values(|w: Seq<char>| to_ascii_lower(w)) =~= old_seen.map_values(
                    |w: Seq<char>| to_ascii_lower(w),
                ).push(w@));
            }
        }
        p = p + 1;
    }
    proof {
        assert(views(piezas@).take(piezas.len() as int) =~= views(piezas@));
    }
}

fn suffix_of_family(f: &Vec<char>) -> (r: Option<&'static str>)
    ensures
        r is None <==> family_suffix(f@) is None,
        r matches Some(s) ==> family_suffix(f@) == Some(s@),
{
    if chars_are(f, "fedora") || chars_are(f, "rhel") || chars_are(f, "centos") || chars_are(
        f,
        "almalinux",
    ) || chars_are(f, "rocky") || chars_are(f, "opensuse") || chars_are(f, "suse") || chars_are(
        f,
        "mageia",
    ) {
        Some(".rpm")
    } else if chars_are(f, "debian") || chars_are(f, "ubuntu") || chars_are(f, "linuxmint")
        || chars_are(f, "pop") || chars_are(f, "raspbian") {
        Some(".deb")
    } else if chars_are(f, "arch") || chars_are(f, "archlinux") || chars_are(f, "manjaro")
        || chars_are(f, "endeavouros") || chars_are(f, "cachyos") {
        Some(".pkg.tar.zst")
    } else {
        None
    }
}

/// The end of the name of the published package that installs here:
/// `.rpm`, `.deb` or `.pkg.tar.zst` for the first family of `ID` and
/// `ID_LIKE` that is known, in file order; `.AppImage` otherwise.
pub fn package_suffix_from(os_release: &str) -> (r: &'static str)
    ensures
        r@ == package_suffix_spec(os_release@),
{
    let texto = chars_of(os_release);
    let lineas = split_chars(&texto, '\n');
    let mut familias: Vec<Vec<char>> = Vec::new();
    let mut l: usize = 0;
    while l < lineas.len()
        invariant
            l <= lineas.len(),
            views(lineas@) == split_on(os_release@, '\n'),
            views(familias@) == families_of(views(lineas@).take(l as int)),
        decreases lineas.len() - l,
    {
        proof {
            assert(views(lineas@).take(l + 1).drop_last() =~= views(lineas@).take(l as int));
            assert(views(lineas@).take(l + 1).last() == lineas@[l as int]@);
        }
        push_line_families(&mut familias, &lineas[l]);
        l = l + 1;
    }
    proof {
        assert(views(lineas@).take(lineas.len() as int) =~= views(lineas@));
    }
    let ghost fams = views(familias@);
    assert(fams.skip(0) =~= fams);
    let mut k: usize = 0;
    while k < familias.len()
        invariant
            k <= familias.len(),
            fams == views(familias@),
            fams == families_of(split_on(os_release@, '\n')),
            first_suffix(fams) == first_suffix(fams.skip(k as int)),
        decreases familias.len() - k,
    {
        proof {
            assert(fams.skip(k as int)[0] == familias@[k as int]@);
            assert(fams.skip(k as int).skip(1) =~= fams.skip(k + 1));
        }
        match suffix_of_family(&familias[k]) {
            Some(s) => {
                return s;
            },
            None => {},
        }
        k = k + 1;
    }
    proof {
        assert(fams.skip(k as int).len() == 0);
    }
    ".AppImage"
}

} // verus!
