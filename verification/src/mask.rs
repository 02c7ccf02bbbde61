//! The solid obstacle: a disc inscribed in the object's bounding box.
use vstd::prelude::*;
use vstd::arithmetic::div_mod::lemma_fundamental_div_mod_converse;
use crate::bytes::{cast_words_to_bytes, words_be_bytes, words_le_bytes};

verus! {

/// The mask can be computed without overflowing: the number of cells fits in a `u32`,
/// and, when there is a cell, the squared distance from the box's first cell to its
/// centre fits in an `i32`.
pub open spec fn mask_fits(w: int, h: int) -> bool {
    &&& 0 <= w
    &&& 0 <= h
    &&& w * h <= u32::MAX
    &&& (w * h == 0 || (w / 2) * (w / 2) + (h / 2) * (h / 2) <= i32::MAX)
}

/// Whether the cell at `index` (row-major in a `w`-wide box of height `h`) lies in
/// the disc centred at `(w / 2, h / 2)` whose radius is half the shorter side.
pub open spec fn in_disc(w: int, h: int, index: int) -> bool {
    let x = index % w;
    let y = index / w;
    let dx = x - w / 2;
    let dy = y - h / 2;
    let radius = (if w <= h { w } else { h }) / 2;
    dx * dx + dy * dy <= radius * radius
}

/// The mask value of a cell: `1` inside the disc, `0` outside.
pub open spec fn mask_value(w: int, h: int, index: int) -> u32 {
    if in_disc(w, h, index) { 1u32 } else { 0u32 }
}

proof fn lemma_square_bound(a: int, b: int)
    by (nonlinear_arith)
    requires
        -b <= a <= b,
    ensures
        a * a <= b * b,
{
}

proof fn lemma_half_small(w: int)
    by (nonlinear_arith)
    requires
        0 <= w,
        (w / 2) * (w / 2) <= i32::MAX,
    ensures
        w <= 92681,
{
}

/// Bounds on every quantity the loop of `object_mask` computes for one cell.
proof fn lemma_cell_bounds(w: int, h: int, index: int)
    requires
        mask_fits(w, h),
        0 <= index < w * h,
    ensures
        w > 0,
        h > 0,
        w <= 92681,
        h <= 92681,
        0 <= index % w < w,
        0 <= index / w < h,
        (index % w - w / 2) * (index % w - w / 2) <= (w / 2) * (w / 2),
        (index / w - h / 2) * (index / w - h / 2) <= (h / 2) * (h / 2),
        ((if w <= h { w } else { h }) / 2) * ((if w <= h { w } else { h }) / 2) <= (w / 2) * (w / 2),
{
    assert(w > 0 && h > 0) by (nonlinear_arith)
        requires
            0 <= w,
            0 <= h,
            0 <= index < w * h,
    ;
    lemma_half_small(w);
    assert((h / 2) * (h / 2) <= i32::MAX) by (nonlinear_arith)
        requires
            (w / 2) * (w / 2) + (h / 2) * (h / 2) <= i32::MAX,
    ;
    lemma_half_small(h);
    assert(index / w < h) by (nonlinear_arith)
        requires
            w > 0,
            0 <= index < w * h,
    ;
    assert(0 <= index / w) by (nonlinear_arith)
        requires
            w > 0,
            0 <= index,
    ;
    lemma_square_bound(index % w - w / 2, w / 2);
    lemma_square_bound(index / w - h / 2, h / 2);
    let m = if w <= h { w } else { h };
    lemma_square_bound(m / 2, w / 2);
}

/// Builds the obstacle mask of a `w_object` by `h_object` box, row by row:
/// `1` for each cell inside the inscribed disc, `0` for the others.
pub fn object_mask(w_object: u32, h_object: u32) -> (mask: Vec<u32>)
    requires
        mask_fits(w_object as int, h_object as int),
    ensures
        mask.len() == w_object * h_object,
        forall|i: int|
            0 <= i < mask.len() ==> #[trigger] mask[i] == mask_value(
                w_object as int,
                h_object as int,
                i,
            ),
{
    let n: u32 = w_object * h_object;
    let mut mask: Vec<u32> = Vec::new();
    let mut index: u32 = 0;
    while index < n
        invariant
            mask_fits(w_object as int, h_object as int),
            n == w_object * h_object,
            index <= n,
            mask.len() == index,
            forall|i: int|
                0 <= i < index ==> #[trigger] mask[i] == mask_value(
                    w_object as int,
                    h_object as int,
                    i,
                ),
        decreases n - index,
    {
        proof {
            lemma_cell_bounds(w_object as int, h_object as int, index as int);
        }
        let x = (index % w_object) as i32;
        let y = (index / w_object) as i32;
        let cx = (w_object / 2) as i32;
        let cy = (h_object / 2) as i32;
        let shorter: u32 = if w_object <= h_object { w_object } else { h_object };
        let radius = (shorter / 2) as i32;
        let dx = x - cx;
        let dy = y - cy;
        assert(dx as int == index as int % w_object as int - w_object as int / 2);
        assert(dy as int == index as int / w_object as int - h_object as int / 2);
        assert(dx * dx >= 0 && dy * dy >= 0 && radius * radius >= 0) by (nonlinear_arith);
        assert(dx * dx <= i32::MAX && dy * dy <= i32::MAX && dx * dx + dy * dy <= i32::MAX);
        let inside = dx * dx + dy * dy <= radius * radius;
        let value: u32 = if inside { 1 } else { 0 };
        mask.push(value);
        index = index + 1;
    }
    mask
}

proof fn lemma_square_monotone(a: int, b: int)
    by (nonlinear_arith)
    requires
        0 <= a <= b,
    ensures
        a * a <= b * b,
{
}

/// The cell in column `x` and row `y` of a `w` by `h` box is solid exactly when
/// its squared distance from the centre `(w / 2, h / 2)` is within both the
/// squared half-width and the squared half-height: the disc's radius is half the
/// shorter side.
pub proof fn lemma_mask_is_inscribed_disc(w: int, h: int, x: int, y: int)
    requires
        w > 0,
        h > 0,
        0 <= x < w,
        0 <= y < h,
    ensures
        mask_value(w, h, y * w + x) == 1 || mask_value(w, h, y * w + x) == 0,
        mask_value(w, h, y * w + x) == 1 <==> {
            let d2 = (x - w / 2) * (x - w / 2) + (y - h / 2) * (y - h / 2);
            &&& d2 <= (w / 2) * (w / 2)
            &&& d2 <= (h / 2) * (h / 2)
        },
{
    lemma_fundamental_div_mod_converse(y * w + x, w, y, x);
    let m = if w <= h { w } else { h };
    if w <= h {
        lemma_square_monotone(w / 2, h / 2);
    } else {
        lemma_square_monotone(h / 2, w / 2);
    }
    assert(m / 2 == w / 2 || m / 2 == h / 2);
}

/// The mask is symmetric under transposing the box: cell `(x, y)` of a `w` by `h`
/// box is solid exactly when cell `(y, x)` of an `h` by `w` box is.
pub proof fn lemma_mask_transpose(w: int, h: int, x: int, y: int)
    requires
        w > 0,
        h > 0,
        0 <= x < w,
        0 <= y < h,
    ensures
        mask_value(w, h, y * w + x) == mask_value(h, w, x * h + y),
{
    lemma_mask_is_inscribed_disc(w, h, x, y);
    lemma_mask_is_inscribed_disc(h, w, y, x);
}

/// The obstacle is never empty: a box with at least one cell has its centre cell
/// solid.
pub proof fn lemma_centre_is_solid(w: int, h: int)
    requires
        w > 0,
        h > 0,
    ensures
        mask_value(w, h, (h / 2) * w + w / 2) == 1,
{
    let index = (h / 2) * w + w / 2;
    assert(0 <= w / 2 < w);
    assert(h / 2 >= 0);
    assert(index % w == w / 2 && index / w == h / 2) by (nonlinear_arith)
        requires
            w > 0,
            0 <= w / 2 < w,
            h / 2 >= 0,
            index == (h / 2) * w + w / 2,
    ;
    assert(in_disc(w, h, index)) by (nonlinear_arith)
        requires
            index % w == w / 2,
            index / w == h / 2,
            w > 0,
            h > 0,
    {
        let m = if w <= h { w } else { h };
        assert((m / 2) * (m / 2) >= 0);
    }
}

/// The whole mask, cell by cell.
pub open spec fn mask_cells(w: int, h: int) -> Seq<u32> {
    Seq::new((w * h) as nat, |i: int| mask_value(w, h, i))
}

/// The bytes that initialise the GPU buffer of the obstacle: the mask of
/// `object_mask`, each word in the machine's byte order.
pub fn object_mask_bytes(w_object: u32, h_object: u32) -> (bytes: Vec<u8>)
    requires
        mask_fits(w_object as int, h_object as int),
    ensures
        bytes@ == words_le_bytes(mask_cells(w_object as int, h_object as int))
            || bytes@ == words_be_bytes(mask_cells(w_object as int, h_object as int)),
        bytes.len() == 4 * (w_object * h_object),
{
    let mask = object_mask(w_object, h_object);
    assert(mask@ =~= mask_cells(w_object as int, h_object as int));
    cast_words_to_bytes(mask.as_slice())
}

} // verus!
