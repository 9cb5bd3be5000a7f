//! Frames as BMP files. The masks in the header say in which order a pixel's
//! bytes come, so that rows are copied as they are.

use vstd::prelude::*;

use crate::bytes::{push_le2, push_le4};
use crate::text::copy_range;

verus! {

/// Where the pixels begin.
pub const PIXELS_AT: u32 = 122;

/// The file's own header.
pub open spec fn file_header(pixel_bytes: int) -> Seq<u8> {
    seq![66u8, 77u8] + crate::bytes::le4((PIXELS_AT + pixel_bytes) as u32) + crate::bytes::le2(0)
        + crate::bytes::le2(0) + crate::bytes::le4(PIXELS_AT)
}

/// The picture's header, of the fourth version: its size, 32 bits a pixel,
/// the channels' masks, and sRGB as the colour space.
pub open spec fn picture_header(width: u32, height: u32, pixel_bytes: int) -> Seq<u8> {
    crate::bytes::le4(108) + crate::bytes::le4(width) + crate::bytes::le4(height)
        + crate::bytes::le2(1) + crate::bytes::le2(32) + crate::bytes::le4(3) + crate::bytes::le4(
        pixel_bytes as u32,
    ) + crate::bytes::zeros(16) + crate::bytes::le4(0x0000_00ff) + crate::bytes::le4(0x0000_ff00)
        + crate::bytes::le4(0x00ff_0000) + crate::bytes::le4(0xff00_0000) + crate::bytes::le4(
        0x7352_4742,
    ) + crate::bytes::zeros(48)
}

/// The first `n` rows of a picture, the last of them first.
pub open spec fn bottom_up(rgba: Seq<u8>, row_bytes: int, n: int) -> Seq<u8>
    decreases n,
{
    if n <= 0 {
        seq![]
    } else {
        rgba.subrange((n - 1) * row_bytes, n * row_bytes) + bottom_up(rgba, row_bytes, n - 1)
    }
}

/// The BMP file of a picture of four bytes a pixel.
pub open spec fn bmp_file(rgba: Seq<u8>, width: u32, height: u32) -> Seq<u8> {
    let pixel_bytes = 4 * width * height;
    file_header(pixel_bytes) + picture_header(width, height, pixel_bytes) + bottom_up(
        rgba,
        4 * width,
        height as int,
    )
}

fn push_zeros(out: &mut Vec<u8>, n: usize)
    ensures
        final(out)@ == old(out)@ + crate::bytes::zeros(n as nat),
{
    let ghost before = out@;
    let mut i: usize = 0;
    assert(before + crate::bytes::zeros(0) =~= before);
    while i < n
        invariant
            i <= n,
            out@ == before + crate::bytes::zeros(i as nat),
        decreases n - i,
    {
        out.push(0u8);
        i += 1;
        assert(out@ =~= before + crate::bytes::zeros(i as nat));
    }
}

/// Writes a picture of four bytes a pixel as a BMP file.
pub fn encode_bmp(rgba: &[u8], width: u32, height: u32) -> (r: Vec<u8>)
    requires
        rgba@.len() >= 4 * width * height,
        PIXELS_AT + 4 * width * height <= u32::MAX,
    ensures
        r@ == bmp_file(rgba@, width, height),
{
    let ghost pixel_bytes = 4 * width * height;
    assert(0 <= 4 * width * height) by (nonlinear_arith);
    let rows: usize = height as usize;
    let mut out: Vec<u8> = Vec::new();
    if width == 0 || height == 0 {
        assert(4 * width * height == 0) by (nonlinear_arith)
            requires
                width == 0 || height == 0,
        ;
        push_header(&mut out, width, height, 0);
        assert(4 * width == 0 || height == 0);
        proof {
            empty_rows(rgba@, 4 * width, height as int);
        }
        assert(out@ =~= bmp_file(rgba@, width, height));
        return out;
    }
    assert(4 * width <= pixel_bytes) by (nonlinear_arith)
        requires
            pixel_bytes == 4 * width * height,
            height >= 1,
    ;
    let row_bytes: usize = 4 * width as usize;
    assert(row_bytes * rows == pixel_bytes) by (nonlinear_arith)
        requires
            pixel_bytes == 4 * width * height,
            row_bytes == 4 * width,
            rows == height,
    ;
    push_header(&mut out, width, height, (row_bytes * rows) as u32);
    let ghost header = out@;
    let mut n: usize = rows;
    let ghost all = bottom_up(rgba@, row_bytes as int, rows as int);
    assert(header + all =~= out@ + all);
    while n > 0
        invariant
            n <= rows,
            row_bytes * rows == pixel_bytes,
            row_bytes >= 0,
            pixel_bytes <= rgba@.len(),
            pixel_bytes <= u32::MAX,
            header + all == out@ + bottom_up(rgba@, row_bytes as int, n as int),
        decreases n,
    {
        assert(0 <= (n - 1) * row_bytes <= n * row_bytes <= pixel_bytes) by (nonlinear_arith)
            requires
                1 <= n <= rows,
                row_bytes * rows == pixel_bytes,
                row_bytes >= 0,
        ;
        let ghost before = out@;
        let mut row = copy_range(rgba, (n - 1) * row_bytes, n * row_bytes);
        let ghost r = row@;
        out.append(&mut row);
        n -= 1;
        assert(before + (r + bottom_up(rgba@, row_bytes as int, n as int)) =~= out@ + bottom_up(
            rgba@,
            row_bytes as int,
            n as int,
        ));
    }
    assert(out@ =~= header + all);
    assert(out@ =~= bmp_file(rgba@, width, height));
    out
}

proof fn empty_rows(rgba: Seq<u8>, row_bytes: int, n: int)
    requires
        row_bytes == 0 || n <= 0,
    ensures
        bottom_up(rgba, row_bytes, n) == Seq::<u8>::empty(),
    decreases n,
{
    if n > 0 {
        empty_rows(rgba, row_bytes, n - 1);
        assert((n - 1) * row_bytes == 0 && n * row_bytes == 0);
        assert(rgba.subrange(0, 0) =~= Seq::<u8>::empty());
        assert(bottom_up(rgba, row_bytes, n) =~= Seq::<u8>::empty());
    }
}

fn push_header(out: &mut Vec<u8>, width: u32, height: u32, pixel_bytes: u32)
    requires
        old(out)@.len() == 0,
        PIXELS_AT + pixel_bytes <= u32::MAX,
    ensures
        final(out)@ == file_header(pixel_bytes as int) + picture_header(
            width,
            height,
            pixel_bytes as int,
        ),
{
    out.push(66u8);
    out.push(77u8);
    push_le4(out, PIXELS_AT + pixel_bytes);
    push_le2(out, 0);
    push_le2(out, 0);
    push_le4(out, PIXELS_AT);
    assert(out@ =~= file_header(pixel_bytes as int));
    push_le4(out, 108);
    push_le4(out, width);
    push_le4(out, height);
    push_le2(out, 1);
    push_le2(out, 32);
    push_le4(out, 3);
    push_le4(out, pixel_bytes);
    push_zeros(out, 16);
    push_le4(out, 0x0000_00ff);
    push_le4(out, 0x0000_ff00);
    push_le4(out, 0x00ff_0000);
    push_le4(out, 0xff00_0000);
    push_le4(out, 0x7352_4742);
    push_zeros(out, 48);
    assert(out@ =~= file_header(pixel_bytes as int) + picture_header(
        width,
        height,
        pixel_bytes as int,
    ));
}

// --- Laws ------------------------------------------------------------------

/// The headers end where they say that the pixels begin.
pub proof fn pixels_begin_behind_the_headers(width: u32, height: u32, pixel_bytes: int)
    ensures
        (file_header(pixel_bytes) + picture_header(width, height, pixel_bytes)).len()
            == PIXELS_AT,
{
}

/// Every row of the picture stands in the file, the first row last.
pub proof fn rows_stand_bottom_up(rgba: Seq<u8>, width: u32, height: u32, row: int)
    requires
        rgba.len() >= 4 * width * height,
        0 <= row < height,
    ensures
        bmp_file(rgba, width, height).len() == PIXELS_AT + 4 * width * height,
        bmp_file(rgba, width, height).subrange(
            PIXELS_AT + (height - 1 - row) * (4 * width),
            PIXELS_AT + (height - row) * (4 * width),
        ) == rgba.subrange(row * (4 * width), (row + 1) * (4 * width)),
{
    let row_bytes = 4 * width;
    let pixel_bytes = 4 * width * height;
    assert(pixel_bytes == height * row_bytes) by (nonlinear_arith)
        requires
            pixel_bytes == 4 * width * height,
            row_bytes == 4 * width,
    ;
    rows_from(rgba, row_bytes, height as int, row);
    let head = file_header(pixel_bytes) + picture_header(width, height, pixel_bytes);
    pixels_begin_behind_the_headers(width, height, pixel_bytes);
    let all = bottom_up(rgba, row_bytes, height as int);
    let file = bmp_file(rgba, width, height);
    let from = (height - 1 - row) * row_bytes;
    let to = (height - row) * row_bytes;
    assert(0 <= from <= to <= pixel_bytes) by (nonlinear_arith)
        requires
            0 <= row < height,
            0 <= row_bytes,
            pixel_bytes == height * row_bytes,
            from == (height - 1 - row) * row_bytes,
            to == (height - row) * row_bytes,
    ;
    assert(file.subrange(PIXELS_AT + from, PIXELS_AT + to) =~= all.subrange(from, to));
}

proof fn rows_from(rgba: Seq<u8>, row_bytes: int, n: int, row: int)
    requires
        0 <= row_bytes,
        0 <= row < n,
        rgba.len() >= n * row_bytes,
    ensures
        bottom_up(rgba, row_bytes, n).len() == n * row_bytes,
        bottom_up(rgba, row_bytes, n).subrange((n - 1 - row) * row_bytes, (n - row) * row_bytes)
            == rgba.subrange(row * row_bytes, (row + 1) * row_bytes),
    decreases n,
{
    let first = rgba.subrange((n - 1) * row_bytes, n * row_bytes);
    let rest = bottom_up(rgba, row_bytes, n - 1);
    let all = bottom_up(rgba, row_bytes, n);
    assert(0 <= (n - 1) * row_bytes <= n * row_bytes && n * row_bytes - (n - 1) * row_bytes
        == row_bytes) by (nonlinear_arith)
        requires
            1 <= n,
            0 <= row_bytes,
    ;
    if n == 1 {
        assert(rest.len() == 0);
        assert(0 * row_bytes == 0 && 1 * row_bytes == row_bytes);
        assert(all.subrange(0, row_bytes) =~= rgba.subrange(0, row_bytes));
    } else if row == n - 1 {
        rows_from(rgba, row_bytes, n - 1, 0);
        assert(0 * row_bytes == 0 && 1 * row_bytes == row_bytes);
        assert(all.subrange(0, row_bytes) =~= first);
    } else {
        rows_from(rgba, row_bytes, n - 1, row);
        let from = (n - 1 - row) * row_bytes;
        let to = (n - row) * row_bytes;
        assert(row_bytes <= from <= to && from - row_bytes == (n - 2 - row) * row_bytes && to
            - row_bytes == (n - 1 - row) * row_bytes && to <= n * row_bytes) by (nonlinear_arith)
            requires
                from == (n - 1 - row) * row_bytes,
                to == (n - row) * row_bytes,
                0 <= row < n - 1,
                0 <= row_bytes,
        ;
        assert(all.subrange(from, to) =~= rest.subrange(from - row_bytes, to - row_bytes));
    }
}


/// What the headers say of the picture: the marks of the format, how large the
/// file and the picture are, 32 bits a pixel, and for red, green and blue the
/// first, second and third of a pixel's bytes.
pub proof fn headers_tell_the_picture(rgba: Seq<u8>, width: u32, height: u32)
    requires
        PIXELS_AT + 4 * width * height <= u32::MAX,
    ensures
        ({
            let f = bmp_file(rgba, width, height);
            &&& f.len() >= PIXELS_AT
            &&& f[0] == 66 && f[1] == 77
            &&& crate::bytes::from_le4(f.subrange(2, 6)) == PIXELS_AT + 4 * width * height
            &&& crate::bytes::from_le4(f.subrange(10, 14)) == PIXELS_AT
            &&& crate::bytes::from_le4(f.subrange(14, 18)) == PIXELS_AT - 14
            &&& crate::bytes::from_le4(f.subrange(18, 22)) == width
            &&& crate::bytes::from_le4(f.subrange(22, 26)) == height
            &&& f[26] == 1 && f[27] == 0
            &&& f[28] == 32 && f[29] == 0
            &&& crate::bytes::from_le4(f.subrange(30, 34)) == 3
            &&& crate::bytes::from_le4(f.subrange(34, 38)) == 4 * width * height
            &&& f.subrange(54, 58) == seq![255u8, 0u8, 0u8, 0u8]
            &&& f.subrange(58, 62) == seq![0u8, 255u8, 0u8, 0u8]
            &&& f.subrange(62, 66) == seq![0u8, 0u8, 255u8, 0u8]
            &&& f.subrange(66, 70) == seq![0u8, 0u8, 0u8, 255u8]
        }),
{
    let pixel_bytes = 4 * width * height;
    let f = bmp_file(rgba, width, height);
    pixels_begin_behind_the_headers(width, height, pixel_bytes);
    let sized = (PIXELS_AT + pixel_bytes) as u32;
    crate::bytes::le4_round_trip(sized);
    crate::bytes::le4_round_trip(PIXELS_AT);
    crate::bytes::le4_round_trip(108);
    crate::bytes::le4_round_trip(width);
    crate::bytes::le4_round_trip(height);
    crate::bytes::le4_round_trip(3);
    crate::bytes::le4_round_trip(pixel_bytes as u32);
    assert(pixel_bytes >= 0) by (nonlinear_arith)
        requires
            pixel_bytes == 4 * width * height,
            width >= 0,
            height >= 0,
    ;
    assert(f.subrange(2, 6) =~= crate::bytes::le4(sized));
    assert(f.subrange(10, 14) =~= crate::bytes::le4(PIXELS_AT));
    assert(f.subrange(14, 18) =~= crate::bytes::le4(108));
    assert(f.subrange(18, 22) =~= crate::bytes::le4(width));
    assert(f.subrange(22, 26) =~= crate::bytes::le4(height));
    assert(f.subrange(26, 28) =~= crate::bytes::le2(1));
    assert(f.subrange(28, 30) =~= crate::bytes::le2(32));
    assert(f.subrange(30, 34) =~= crate::bytes::le4(3));
    assert(f.subrange(34, 38) =~= crate::bytes::le4(pixel_bytes as u32));
    assert(f[26] == f.subrange(26, 28)[0] && f[27] == f.subrange(26, 28)[1]);
    assert(f[28] == f.subrange(28, 30)[0] && f[29] == f.subrange(28, 30)[1]);
    crate::bytes::two_bytes_make_the_number(1);
    crate::bytes::two_bytes_make_the_number(32);
    assert(f.subrange(54, 58) =~= crate::bytes::le4(0x0000_00ff));
    assert(f.subrange(58, 62) =~= crate::bytes::le4(0x0000_ff00));
    assert(f.subrange(62, 66) =~= crate::bytes::le4(0x00ff_0000));
    assert(f.subrange(66, 70) =~= crate::bytes::le4(0xff00_0000));
    crate::bytes::bytes_make_the_number(0x0000_00ff);
    crate::bytes::bytes_make_the_number(0x0000_ff00);
    crate::bytes::bytes_make_the_number(0x00ff_0000);
    crate::bytes::bytes_make_the_number(0xff00_0000);
    assert(crate::bytes::le4(0x0000_00ff) =~= seq![255u8, 0u8, 0u8, 0u8]);
    assert(crate::bytes::le4(0x0000_ff00) =~= seq![0u8, 255u8, 0u8, 0u8]);
    assert(crate::bytes::le4(0x00ff_0000) =~= seq![0u8, 0u8, 255u8, 0u8]);
    assert(crate::bytes::le4(0xff00_0000) =~= seq![0u8, 0u8, 0u8, 255u8]);
}

} // verus!
