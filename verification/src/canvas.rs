//! A frame's way back from the graphics card: its rows come padded, and the
//! padding is taken off.

use vstd::prelude::*;

use crate::pictures::png_rgba_of;
use crate::scene::LoadedLayer;
use crate::text::copy_range;

verus! {

/// Rows in a copy from the graphics card begin at multiples of this.
pub const ROW_ALIGNMENT: u32 = 256;

/// How wide a project's thumbnail is at most.
pub const THUMBNAIL_WIDTH: u32 = 320;

/// The bytes of a row, brought up to the alignment.
pub open spec fn padded_row(width: int) -> int {
    (4 * width + 255) / 256 * 256
}

/// How many bytes a row of four bytes a pixel takes in a copy from the
/// graphics card.
pub fn padded_bytes_per_row(width: u32) -> (r: u32)
    requires
        padded_row(width as int) <= u32::MAX,
    ensures
        r == padded_row(width as int),
        r % ROW_ALIGNMENT == 0,
        4 * width <= r < 4 * width + ROW_ALIGNMENT,
{
    let unpadded = 4 * width;
    let padding = (ROW_ALIGNMENT - unpadded % ROW_ALIGNMENT) % ROW_ALIGNMENT;
    unpadded + padding
}

/// The first `n` rows of a padded copy, without the padding.
pub open spec fn unpadded(view: Seq<u8>, row: int, padded: int, n: int) -> Seq<u8>
    decreases n,
{
    if n <= 0 {
        seq![]
    } else {
        unpadded(view, row, padded, n - 1) + view.subrange((n - 1) * padded, (n - 1) * padded + row)
    }
}

/// Takes the padding off the rows of a copy from the graphics card.
pub fn strip_padding(view: &[u8], width: u32, height: u32) -> (r: Vec<u8>)
    requires
        padded_row(width as int) <= u32::MAX,
        view@.len() >= padded_row(width as int) * height,
    ensures
        r@ == unpadded(view@, 4 * width, padded_row(width as int), height as int),
{
    let padded: usize = padded_bytes_per_row(width) as usize;
    let row: usize = (4 * width) as usize;
    let total: usize = view.len();
    let rows: usize = height as usize;
    let mut out: Vec<u8> = Vec::new();
    let mut n: usize = 0;
    while n < rows
        invariant
            n <= rows,
            row <= padded,
            total == view@.len(),
            total >= padded * rows,
            out@ == unpadded(view@, row as int, padded as int, n as int),
        decreases rows - n,
    {
        assert(0 <= n * padded && n * padded + row <= total) by (nonlinear_arith)
            requires
                n + 1 <= rows,
                row <= padded,
                total >= padded * rows,
        ;
        let mut part = copy_range(view, n * padded, n * padded + row);
        out.append(&mut part);
        n += 1;
    }
    out
}

/// The picture without padding holds each row of the copy, in its place.
pub proof fn stripped_rows_are_the_picture(
    view: Seq<u8>,
    width: int,
    height: int,
    row: int,
    column: int,
)
    requires
        0 <= row < height,
        0 <= column < 4 * width,
        view.len() >= padded_row(width) * height,
    ensures
        unpadded(view, 4 * width, padded_row(width), height).len() == 4 * width * height,
        unpadded(view, 4 * width, padded_row(width), height)[row * (4 * width) + column]
            == view[row * padded_row(width) + column],
{
    let padded = padded_row(width);
    assert(4 * width <= padded);
    rows_in_place(view, 4 * width, padded, height, row, column);
    assert(4 * width * height == height * (4 * width)) by (nonlinear_arith);
}

proof fn rows_in_place(view: Seq<u8>, len: int, padded: int, n: int, row: int, column: int)
    requires
        0 <= len <= padded,
        0 <= row < n,
        0 <= column < len,
        view.len() >= padded * n,
    ensures
        unpadded(view, len, padded, n).len() == n * len,
        unpadded(view, len, padded, n)[row * len + column] == view[row * padded + column],
    decreases n,
{
    let before = unpadded(view, len, padded, n - 1);
    let last = view.subrange((n - 1) * padded, (n - 1) * padded + len);
    assert(0 <= (n - 1) * padded && (n - 1) * padded + len <= padded * n && (n - 1) * len + len
        == n * len && padded * (n - 1) <= padded * n) by (nonlinear_arith)
        requires
            1 <= n,
            0 <= len <= padded,
    ;
    if n == 1 {
        assert(before.len() == 0);
        assert(0 * len == 0 && 0 * padded == 0);
    } else if row == n - 1 {
        rows_in_place(view, len, padded, n - 1, 0, column);
    } else {
        rows_in_place(view, len, padded, n - 1, row, column);
        assert(0 <= row * len + column < (n - 1) * len) by (nonlinear_arith)
            requires
                0 <= row < n - 1,
                0 <= column < len,
        ;
    }
}

/// The size of a project's thumbnail: at most `THUMBNAIL_WIDTH` wide, in the
/// proportions of its scene, and never nothing.
pub open spec fn thumbnail_dims(width: u32, height: u32) -> (int, int) {
    let w = if width == 0 {
        1int
    } else if width < THUMBNAIL_WIDTH {
        width as int
    } else {
        THUMBNAIL_WIDTH as int
    };
    let h = w * height / (if width == 0 {
        1int
    } else {
        width as int
    });
    (w, if h < 1 {
        1
    } else {
        h
    })
}

/// The size of a project's thumbnail.
pub fn thumbnail_size(width: u32, height: u32) -> (r: (u32, u32))
    ensures
        (r.0 as int, r.1 as int) == thumbnail_dims(width, height),
{
    let w: u32 = if width == 0 {
        1
    } else if width < THUMBNAIL_WIDTH {
        width
    } else {
        THUMBNAIL_WIDTH
    };
    let base: u64 = if width == 0 {
        1
    } else {
        width as u64
    };
    assert(w * height <= 320 * 0xffff_ffff) by (nonlinear_arith)
        requires
            w <= 320,
            height <= 0xffff_ffff,
    ;
    let product: u64 = w as u64 * height as u64;
    let h: u64 = product / base;
    assert(product / base <= height) by (nonlinear_arith)
        requires
            product == w * height,
            w <= base,
            0 < base,
    ;
    let h32: u32 = if h < 1 {
        1
    } else {
        h as u32
    };
    (w, h32)
}

/// The size of the thumbnail of a scene.
pub fn scene_thumbnail_size(layers: &Vec<LoadedLayer>) -> (r: Result<(u32, u32), String>)
    ensures
        match r {
            Ok(size) => layers@.len() > 0 && (size.0 as int, size.1 as int) == thumbnail_dims(
                crate::scene::canvas_size(layers@).0,
                crate::scene::canvas_size(layers@).1,
            ),
            Err(e) => layers@.len() == 0 && e@ == "no scene loaded"@,
        },
{
    if layers.len() == 0 {
        return Err("no scene loaded".to_string());
    }
    let (width, height) = layers[0].size();
    Ok(thumbnail_size(width, height))
}

/// The file of a thumbnail, from the copy that came from the graphics card.
pub fn thumbnail_file(view: &[u8], width: u32, height: u32) -> (r: Result<Vec<u8>, String>)
    requires
        padded_row(width as int) <= u32::MAX,
        view@.len() >= padded_row(width as int) * height,
    ensures
        crate::paint::file_view(r) == crate::pictures::png_rgba(
            unpadded(view@, 4 * width, padded_row(width as int), height as int),
            width,
            height,
        ),
{
    let pixels = strip_padding(view, width, height);
    proof {
        unpadded_len(view@, 4 * width, padded_row(width as int), height as int);
        assert(4 * width * height == height * (4 * width)) by (nonlinear_arith);
    }
    png_rgba_of(pixels.as_slice(), width, height)
}

proof fn unpadded_len(view: Seq<u8>, len: int, padded: int, n: int)
    requires
        0 <= len <= padded,
        0 <= n,
        view.len() >= padded * n,
    ensures
        unpadded(view, len, padded, n).len() == n * len,
    decreases n,
{
    if n > 0 {
        assert(0 <= (n - 1) * padded && (n - 1) * padded + len <= padded * n && (n - 1) * len + len
            == n * len && padded * (n - 1) <= padded * n) by (nonlinear_arith)
            requires
                1 <= n,
                0 <= len <= padded,
        ;
        unpadded_len(view, len, padded, n - 1);
    } else {
        assert(0 * len == 0);
    }
}


/// A thumbnail is never nothing, no wider than the most and no wider than the
/// scene; it has the scene's proportions, but for a part of a pixel, and a
/// small scene's own size.
pub proof fn thumbnail_has_the_proportions(width: u32, height: u32)
    ensures
        ({
            let (w, h) = thumbnail_dims(width, height);
            &&& 0 < w <= THUMBNAIL_WIDTH
            &&& 0 < h
            &&& width > 0 ==> w <= width
            &&& width >= THUMBNAIL_WIDTH ==> w == THUMBNAIL_WIDTH
            &&& 0 < width <= THUMBNAIL_WIDTH && height > 0 ==> w == width && h == height
            &&& width > 0 ==> w * height < (h + 1) * width
            &&& width > 0 && h > 1 ==> h * width <= w * height
        }),
{
    let (w, h) = thumbnail_dims(width, height);
    if width > 0 {
        let q = w * height / (width as int);
        assert(q * width <= w * height < (q + 1) * width) by (nonlinear_arith)
            requires
                q == w * height / (width as int),
                width > 0,
        ;
        assert(w * height < (h + 1) * width) by (nonlinear_arith)
            requires
                w * height < (q + 1) * width,
                q <= h,
                width > 0,
        ;
        if w == width && height > 0 {
            assert(q == height) by (nonlinear_arith)
                requires
                    q * width <= w * height < (q + 1) * width,
                    w == width,
                    width > 0,
            ;
        }
    }
}

} // verus!
