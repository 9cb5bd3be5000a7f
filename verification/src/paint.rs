//! Masks that are painted: their buffers as pictures.

use vstd::prelude::*;

use crate::editor::PAINT_MASK_RESOLUTION;
use crate::pictures::{gray_file_of, gray_resized_of, path_of_format, picture_gray_of};

verus! {

/// The number of pixels of a painted mask.
pub const PAINT_PIXELS: usize = 1_048_576;

/// A painted mask as the file at `path`; or what is wrong with it.
pub open spec fn painted_file(path: Seq<char>, gray: Seq<u8>) -> Result<Seq<u8>, Seq<char>> {
    if gray.len() < PAINT_PIXELS {
        Err("paint buffer size doesn't match PAINT_MASK_RESOLUTION"@)
    } else {
        crate::pictures::gray_file(
            path,
            gray.take(PAINT_PIXELS as int),
            PAINT_MASK_RESOLUTION,
            PAINT_MASK_RESOLUTION,
        )
    }
}

pub open spec fn file_view(r: Result<Vec<u8>, String>) -> Result<Seq<u8>, Seq<char>> {
    match r {
        Ok(b) => Ok(b@),
        Err(e) => Err(e@),
    }
}

/// Writes a painted mask as the file at `path`: a PNG file, unless the mask's
/// picture is of another kind. A buffer that is too small is an error. Read
/// again from a PNG file, the mask is as it was painted.
pub fn save_paint_buffer_png(buffer: &Vec<u8>, path: &str) -> (r: Result<Vec<u8>, String>)
    ensures
        file_view(r) == painted_file(path@, buffer@),
        r matches Ok(file) ==> crate::paths::extension_of(path@) == Some("png"@) ==> forall|
            p: Seq<char>,
        |
            crate::paths::extension_of(p) == Some("png"@) ==> buffer_of(
                #[trigger] crate::pictures::picture_gray(crate::pictures::format_path(p), file@),
            ) == Ok::<Seq<u8>, Seq<char>>(buffer@.take(PAINT_PIXELS as int)),
{
    if buffer.len() < PAINT_PIXELS {
        return Err("paint buffer size doesn't match PAINT_MASK_RESOLUTION".to_string());
    }
    let gray = crate::text::copy_range(buffer.as_slice(), 0, PAINT_PIXELS);
    assert(gray@ == buffer@.take(PAINT_PIXELS as int));
    proof {
        reveal_strlit("png");
    }
    gray_file_of(path, gray.as_slice(), PAINT_MASK_RESOLUTION, PAINT_MASK_RESOLUTION)
}

/// A picture as a buffer to paint in, brought to a buffer's size where it has
/// another; or what is wrong with the picture.
pub open spec fn buffer_of(decoded: Result<(Seq<u8>, u32, u32), Seq<char>>) -> Result<
    Seq<u8>,
    Seq<char>,
> {
    match decoded {
        Ok((gray, w, h)) => if w == PAINT_MASK_RESOLUTION && h == PAINT_MASK_RESOLUTION {
            Ok(gray)
        } else {
            Ok(crate::pictures::gray_resized(gray, w, h, PAINT_MASK_RESOLUTION))
        },
        Err(e) => Err(e),
    }
}

/// Reads a picture file as a buffer to paint in, whatever the picture's size.
pub fn load_paint_buffer_from_file(path: &str, bytes: &[u8]) -> (r: Result<Vec<u8>, String>)
    ensures
        file_view(r) == buffer_of(
            crate::pictures::picture_gray(crate::pictures::format_path(path@), bytes@),
        ),
        r matches Ok(b) ==> b@.len() == PAINT_PIXELS,
{
    match picture_gray_of(path_of_format(path).as_str(), bytes) {
        Ok((gray, w, h)) => {
            assert(PAINT_MASK_RESOLUTION * PAINT_MASK_RESOLUTION == PAINT_PIXELS);
            Ok(gray_resized_of(gray, w, h, PAINT_MASK_RESOLUTION))
        },
        Err(e) => Err(e),
    }
}

/// A buffer with nothing painted.
pub fn blank_paint_buffer() -> (r: Vec<u8>)
    ensures
        r@ == crate::bytes::zeros(PAINT_PIXELS as nat),
{
    let r = vec![0u8; PAINT_PIXELS];
    assert(r@ =~= crate::bytes::zeros(PAINT_PIXELS as nat));
    r
}

/// A greyscale picture with opaque pixels of four bytes each.
pub open spec fn expanded(gray: Seq<u8>) -> Seq<u8> {
    Seq::new(
        gray.len() * 4,
        |k: int|
            if k % 4 == 3 {
                255u8
            } else {
                gray[k / 4]
            },
    )
}

/// Gives each brightness as an opaque pixel of four bytes.
pub fn expand_gray_to_rgba(gray: &[u8]) -> (r: Vec<u8>)
    ensures
        r@ == expanded(gray@),
{
    let mut rgba: Vec<u8> = Vec::new();
    let mut i: usize = 0;
    while i < gray.len()
        invariant
            i <= gray@.len(),
            rgba@.len() == 4 * i,
            forall|k: int| 0 <= k < 4 * i ==> #[trigger] rgba@[k] == expanded(gray@)[k],
        decreases gray.len() - i,
    {
        let g = gray[i];
        rgba.push(g);
        rgba.push(g);
        rgba.push(g);
        rgba.push(255);
        i += 1;
    }
    assert(rgba@ =~= expanded(gray@));
    rgba
}


/// Each brightness becomes a grey pixel that hides what is below it.
pub proof fn brightness_becomes_a_pixel(gray: Seq<u8>, p: int)
    requires
        0 <= p < gray.len(),
    ensures
        expanded(gray).len() == 4 * gray.len(),
        expanded(gray)[4 * p] == gray[p],
        expanded(gray)[4 * p + 1] == gray[p],
        expanded(gray)[4 * p + 2] == gray[p],
        expanded(gray)[4 * p + 3] == 255,
{
}

/// A picture of a buffer's size is painted on as it is; any other is brought to
/// that size.
pub proof fn picture_is_painted_on_as_it_is(gray: Seq<u8>, w: u32, h: u32)
    ensures
        w == 1024 && h == 1024 ==> buffer_of(Ok((gray, w, h))) == Ok::<Seq<u8>, Seq<char>>(gray),
        !(w == 1024 && h == 1024) ==> buffer_of(Ok((gray, w, h))) == Ok::<Seq<u8>, Seq<char>>(
            crate::pictures::gray_resized(gray, w, h, 1024),
        ),
{
}

/// The whole of a buffer is painted, however it came about that more is held,
/// and a buffer that is too small is not.
pub proof fn whole_buffer_is_painted(path: Seq<char>, a: Seq<u8>, b: Seq<u8>)
    requires
        a.len() >= 1024 * 1024,
        b.len() < 1024 * 1024,
    ensures
        painted_file(path, a) == crate::pictures::gray_file(
            path,
            a.take(1_048_576),
            1024,
            1024,
        ),
        painted_file(path, b) is Err,
{
}

} // verus!
