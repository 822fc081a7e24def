//! Whether a remembered window position can still be seen on some screen.
use vstd::prelude::*;

verus! {

/// A rectangle in physical pixels: `(x, y, width, height)`.
pub type Rect = (i32, i32, u32, u32);

pub open spec fn min_int(a: int, b: int) -> int {
    if a <= b {
        a
    } else {
        b
    }
}

pub open spec fn max_int(a: int, b: int) -> int {
    if a >= b {
        a
    } else {
        b
    }
}

/// How much two rectangles overlap, as `(width, height)`; never negative.
pub open spec fn overlap_spec(a: Rect, b: Rect) -> (int, int) {
    let w = min_int(a.0 + a.2, b.0 + b.2) - max_int(a.0 as int, b.0 as int);
    let h = min_int(a.1 + a.3, b.1 + b.3) - max_int(a.1 as int, b.1 as int);
    (max_int(w, 0), max_int(h, 0))
}

/// Width and height that must stay inside a screen: a piece to grab.
pub const MIN_VISIBLE_W: u32 = 200;
pub const MIN_VISIBLE_H: u32 = 80;

/// Does `ventana` show a piece that can be grabbed on the screen `m`?
pub open spec fn visible_on(ventana: Rect, m: Rect) -> bool {
    overlap_spec(ventana, m).0 >= MIN_VISIBLE_W && overlap_spec(ventana, m).1 >= MIN_VISIBLE_H
}

/// The overlap of two rectangles, width and height measured apart: a strip
/// 50 px wide and 720 tall has a large area and nothing to grab.
pub fn overlap(a: Rect, b: Rect) -> (r: (i64, i64))
    ensures
        r.0 == overlap_spec(a, b).0,
        r.1 == overlap_spec(a, b).1,
{
    let ar = a.0 as i64 + a.2 as i64;
    let br = b.0 as i64 + b.2 as i64;
    let right = if ar <= br {
        ar
    } else {
        br
    };
    let left = if a.0 >= b.0 {
        a.0 as i64
    } else {
        b.0 as i64
    };
    let ab = a.1 as i64 + a.3 as i64;
    let bb = b.1 as i64 + b.3 as i64;
    let bottom = if ab <= bb {
        ab
    } else {
        bb
    };
    let top = if a.1 >= b.1 {
        a.1 as i64
    } else {
        b.1 as i64
    };
    let w = right - left;
    let h = bottom - top;
    (if w > 0 {
        w
    } else {
        0
    }, if h > 0 {
        h
    } else {
        0
    })
}

/// Would the window be seen where it was saved? True exactly when some screen
/// shows at least 200×80 px of it; never with no screens.
pub fn geometry_on_screen(ventana: Rect, monitores: &[Rect]) -> (r: bool)
    ensures
        r == exists|i: int| 0 <= i < monitores@.len() && visible_on(ventana, #[trigger] monitores@[i]),
{
    let mut i: usize = 0;
    while i < monitores.len()
        invariant
            i <= monitores@.len(),
            forall|k: int| 0 <= k < i ==> !visible_on(ventana, #[trigger] monitores@[k]),
        decreases monitores.len() - i,
    {
        let (ancho, alto) = overlap(ventana, monitores[i]);
        if ancho >= MIN_VISIBLE_W as i64 && alto >= MIN_VISIBLE_H as i64 {
            return true;
        }
        i = i + 1;
    }
    false
}


/// Is `a` wholly inside `b`?
pub open spec fn inside(a: Rect, b: Rect) -> bool {
    &&& b.0 <= a.0
    &&& a.0 + a.2 <= b.0 + b.2
    &&& b.1 <= a.1
    &&& a.1 + a.3 <= b.1 + b.3
}

/// The overlap is that of the two rectangles themselves: a window wholly
/// inside a screen overlaps it by its whole size, whoever is passed first;
/// the overlap never exceeds either rectangle and does not change when both
/// are moved by the same amount.
pub proof fn lemma_overlap_is_the_intersection(a: Rect, b: Rect, a2: Rect, b2: Rect, dx: int, dy: int)
    requires
        a2.0 == a.0 + dx,
        a2.1 == a.1 + dy,
        a2.2 == a.2,
        a2.3 == a.3,
        b2.0 == b.0 + dx,
        b2.1 == b.1 + dy,
        b2.2 == b.2,
        b2.3 == b.3,
    ensures
        inside(a, b) ==> overlap_spec(a, b) == (a.2 as int, a.3 as int),
        overlap_spec(a, b) == overlap_spec(b, a),
        0 <= overlap_spec(a, b).0 <= a.2 && overlap_spec(a, b).0 <= b.2,
        0 <= overlap_spec(a, b).1 <= a.3 && overlap_spec(a, b).1 <= b.3,
        overlap_spec(a2, b2) == overlap_spec(a, b),
{
}

/// A window of at least 200×80 px that lies wholly inside a screen is on
/// that screen: its saved position is kept.
pub proof fn lemma_window_inside_a_screen_is_seen(ventana: Rect, m: Rect)
    requires
        inside(ventana, m),
        ventana.2 >= MIN_VISIBLE_W,
        ventana.3 >= MIN_VISIBLE_H,
    ensures
        visible_on(ventana, m),
{
    lemma_overlap_is_the_intersection(ventana, m, ventana, m, 0, 0);
}

} // verus!
