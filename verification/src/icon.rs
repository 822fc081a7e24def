//! The application icon the user picks, and when to draw it again.
use vstd::prelude::*;
use vstd::string::StringSliceAdditionalSpecFns;
use crate::text::{push_str, str_eq};

verus! {

/// May this byte appear in the name of an icon?
pub open spec fn icon_name_byte(b: u8) -> bool {
    (48 <= b <= 57) || (65 <= b <= 90) || (97 <= b <= 122) || b == 45 || b == 95
}

/// The names of icons come from the settings page: only plain names (ASCII
/// letters, digits, `-` and `_`), so that loading one never leaves the
/// folder of icons.
pub open spec fn valid_icon_name_spec(name: Seq<u8>) -> bool {
    name.len() > 0 && forall|i: int| 0 <= i < name.len() ==> icon_name_byte(#[trigger] name[i])
}

pub fn valid_icon_name(name: &str) -> (b: bool)
    ensures
        b == valid_icon_name_spec(name.spec_bytes()),
{
    let bytes = name.as_bytes();
    if bytes.len() == 0 {
        return false;
    }
    let mut i: usize = 0;
    while i < bytes.len()
        invariant
            bytes@ == name.spec_bytes(),
            i <= bytes@.len(),
            forall|k: int| 0 <= k < i ==> icon_name_byte(#[trigger] bytes@[k]),
        decreases bytes.len() - i,
    {
        let b = bytes[i];
        if !((48 <= b && b <= 57) || (65 <= b && b <= 90) || (97 <= b && b <= 122) || b == 45 || b
            == 95) {
            assert(!icon_name_byte(bytes@[i as int]));
            return false;
        }
        i = i + 1;
    }
    true
}

/// Where the picture of an icon lives among the bundle's resources.
pub fn icon_resource(name: &str) -> (s: String)
    ensures
        s@ == "appicons/"@ + name@ + ".png"@,
{
    let mut s = String::from_str("appicons/");
    push_str(&mut s, name);
    push_str(&mut s, ".png");
    s
}

/// The answer to an icon that cannot be loaded.
pub fn unknown_icon(name: &str) -> (s: String)
    ensures
        s@ == "Icono desconocido: "@ + name@,
{
    let mut s = String::from_str("Icono desconocido: ");
    push_str(&mut s, name);
    s
}

/// The icon last drawn on the tray and the windows: its name and the unread
/// count of its badge.
pub struct AppliedIcon {
    pub last: Option<(String, u32)>,
}

impl AppliedIcon {
    /// Is there anything new to draw for the icon `name` with `unread`
    /// messages? Nothing is when it is what was drawn last; either way,
    /// that becomes what was drawn last.
    pub fn should_apply(&mut self, name: &str, unread: u32) -> (b: bool)
        ensures
            b == !(old(self).last matches Some(p) && p.0@ == name@ && p.1 == unread),
            final(self).last matches Some(p) && p.0@ == name@ && p.1 == unread,
    {
        let same = match &self.last {
            Some(p) => str_eq(p.0.as_str(), name) && p.1 == unread,
            None => false,
        };
        if same {
            return false;
        }
        self.last = Some((String::from_str(name), unread));
        true
    }
}

/// What the unread badge over the icon shows: a plain circle when the count
/// does not fit in two digits, else the count's decimal digits.
pub enum BadgeMark {
    Circle,
    Digits(Vec<u8>),
}

/// The decimal digits of a count under a hundred, most significant first.
pub open spec fn badge_digits(n: nat) -> Seq<u8> {
    if n < 10 {
        seq![n as u8]
    } else {
        seq![(n / 10) as u8, (n % 10) as u8]
    }
}

/// Smallest side, in pixels, of an icon that gets a badge at all.
pub const BADGE_MIN_SIDE: u32 = 16;

/// Largest count whose digits are written inside the badge.
pub const BADGE_MAX_WRITTEN: u32 = 99;

/// The badge for `unread` messages over an icon of `width` by `height`
/// pixels: none without unread messages or on an icon too small to hold one.
pub fn badge_mark(unread: u32, width: u32, height: u32) -> (r: Option<BadgeMark>)
    ensures
        r is None <==> (unread == 0 || width < BADGE_MIN_SIDE || height < BADGE_MIN_SIDE),
        r matches Some(BadgeMark::Circle) <==> (r is Some && unread > BADGE_MAX_WRITTEN),
        r matches Some(BadgeMark::Digits(d)) ==> d@ == badge_digits(unread as nat),
{
    if unread == 0 || width < BADGE_MIN_SIDE || height < BADGE_MIN_SIDE {
        return None;
    }
    if unread > BADGE_MAX_WRITTEN {
        return Some(BadgeMark::Circle);
    }
    let mut d: Vec<u8> = Vec::new();
    if unread < 10 {
        d.push(unread as u8);
    } else {
        d.push((unread / 10) as u8);
        d.push((unread % 10) as u8);
    }
    Some(BadgeMark::Digits(d))
}

/// The rows of a digit drawn on a grid three pixels wide and five high; in
/// each row the bit of value 4 is the left column and that of value 1 the
/// right one.
pub open spec fn glyph_spec(d: nat) -> Seq<u8> {
    if d == 0 {
        seq![7u8, 5, 5, 5, 7]
    } else if d == 1 {
        seq![2u8, 6, 2, 2, 7]
    } else if d == 2 {
        seq![7u8, 1, 7, 4, 7]
    } else if d == 3 {
        seq![7u8, 1, 7, 1, 7]
    } else if d == 4 {
        seq![5u8, 5, 7, 1, 1]
    } else if d == 5 {
        seq![7u8, 4, 7, 1, 7]
    } else if d == 6 {
        seq![7u8, 4, 7, 5, 7]
    } else if d == 7 {
        seq![7u8, 1, 2, 2, 2]
    } else if d == 8 {
        seq![7u8, 5, 7, 5, 7]
    } else {
        seq![7u8, 5, 7, 1, 7]
    }
}

/// The glyph of the decimal digit `d`.
pub fn digit_glyph(d: u8) -> (g: [u8; 5])
    requires
        d < 10,
    ensures
        g@ == glyph_spec(d as nat),
{
    let g: [u8; 5] = if d == 0 {
        [7, 5, 5, 5, 7]
    } else if d == 1 {
        [2, 6, 2, 2, 7]
    } else if d == 2 {
        [7, 1, 7, 4, 7]
    } else if d == 3 {
        [7, 1, 7, 1, 7]
    } else if d == 4 {
        [5, 5, 7, 1, 1]
    } else if d == 5 {
        [7, 4, 7, 1, 7]
    } else if d == 6 {
        [7, 4, 7, 5, 7]
    } else if d == 7 {
        [7, 1, 2, 2, 2]
    } else if d == 8 {
        [7, 5, 7, 5, 7]
    } else {
        [7, 5, 7, 1, 7]
    };
    assert(g@ =~= glyph_spec(d as nat));
    g
}

} // verus!
