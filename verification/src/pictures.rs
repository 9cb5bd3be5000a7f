//! Pictures in files: decoding and encoding by the `image` crate, and what the
//! engine makes of the results.

use vstd::prelude::*;

use crate::paths::extension;
use crate::text::{chars_of, push_str, quoted_text, string_of};

verus! {

/// The most pixels for which a picture that was written is sure to be read
/// again: four bytes for each of them stay far below what the decoder may
/// allocate.
pub const SURE_PIXELS: u32 = 0x0200_0000;

/// A size that a picture can have and be sure to be read again.
pub open spec fn sure_size(width: u32, height: u32) -> bool {
    0 < width < 65536 && 0 < height < 65536 && width * height <= SURE_PIXELS
}

/// The pixels of a picture file, four bytes each, and its size; or what is
/// wrong with the file. The format goes by the path's extension.
pub uninterp spec fn picture_rgba(path: Seq<char>, bytes: Seq<u8>) -> Result<
    (Seq<u8>, u32, u32),
    Seq<char>,
>;

/// `image::ImageReader::decode` with the format that `image::ImageFormat`
/// takes from the path, then `into_rgba8`: four bytes for each pixel. The
/// bytes are named, not described.
#[verifier::external_body]
fn picture_rgba_of(path: &str, bytes: &[u8]) -> (r: Result<(Vec<u8>, u32, u32), String>)
    ensures
        match r {
            Ok((rgba, w, h)) => picture_rgba(path@, bytes@) == Ok::<
                (Seq<u8>, u32, u32),
                Seq<char>,
            >((rgba@, w, h)) && rgba@.len() == 4 * w * h,
            Err(e) => picture_rgba(path@, bytes@) == Err::<(Seq<u8>, u32, u32), Seq<char>>(e@),
        },
{
    let format = image::ImageFormat::from_path(path).map_err(|e| e.to_string())?;
    let reader = image::ImageReader::with_format(std::io::Cursor::new(bytes), format);
    let picture = reader.decode().map_err(|e| e.to_string())?.into_rgba8();
    let (width, height) = picture.dimensions();
    Ok((picture.into_raw(), width, height))
}

/// The brightness of each pixel of a picture file, and its size; or what is
/// wrong with the file.
pub uninterp spec fn picture_gray(path: Seq<char>, bytes: Seq<u8>) -> Result<
    (Seq<u8>, u32, u32),
    Seq<char>,
>;

/// `image::ImageReader::decode` with the format that `image::ImageFormat`
/// takes from the path, then `to_luma8`: one byte for each pixel. The bytes are
/// named, not described.
#[verifier::external_body]
pub(crate) fn picture_gray_of(path: &str, bytes: &[u8]) -> (r: Result<(Vec<u8>, u32, u32), String>)
    ensures
        match r {
            Ok((gray, w, h)) => picture_gray(path@, bytes@) == Ok::<
                (Seq<u8>, u32, u32),
                Seq<char>,
            >((gray@, w, h)) && gray@.len() == w * h,
            Err(e) => picture_gray(path@, bytes@) == Err::<(Seq<u8>, u32, u32), Seq<char>>(e@),
        },
{
    let format = image::ImageFormat::from_path(path).map_err(|e| e.to_string())?;
    let reader = image::ImageReader::with_format(std::io::Cursor::new(bytes), format);
    let picture = reader.decode().map_err(|e| e.to_string())?.to_luma8();
    let (width, height) = picture.dimensions();
    Ok((picture.into_raw(), width, height))
}

/// A greyscale picture brought to a square of the given side.
pub uninterp spec fn gray_resized(gray: Seq<u8>, width: u32, height: u32, side: u32) -> Seq<u8>;

/// `image::imageops::resize` of a greyscale picture with a triangle filter:
/// one byte for each pixel of the new square. A picture that has the size
/// already is copied. Else the bytes are named, not described.
#[verifier::external_body]
pub(crate) fn gray_resized_of(gray: Vec<u8>, width: u32, height: u32, side: u32) -> (r: Vec<u8>)
    requires
        gray@.len() == width * height,
        0 < side < 65536,
    ensures
        r@ == gray_resized(gray@, width, height, side),
        r@.len() == side * side,
        width == side && height == side ==> r@ == gray@,
{
    let picture = image::GrayImage::from_raw(width, height, gray).unwrap();
    image::imageops::resize(&picture, side, side, image::imageops::FilterType::Triangle).into_raw()
}

/// The pixels of a frame, four bytes each, and its size; or what is wrong with
/// it. The format is told by the bytes.
pub uninterp spec fn frame_rgba(bytes: Seq<u8>) -> Result<(Seq<u8>, u32, u32), Seq<char>>;

/// `image::guess_format`, which goes by the bytes alone, then
/// `image::ImageReader::decode` in that format and `into_rgba8`: four bytes for
/// each pixel. The bytes are named, not described, but for the BMP files that
/// the library writes: their masks tell the decoder where each channel stands,
/// and it gives the pixels back.
#[verifier::external_body]
pub(crate) fn frame_rgba_of(bytes: &[u8]) -> (r: Result<(Vec<u8>, u32, u32), String>)
    ensures
        match r {
            Ok((rgba, w, h)) => frame_rgba(bytes@) == Ok::<(Seq<u8>, u32, u32), Seq<char>>(
                (rgba@, w, h),
            ) && rgba@.len() == 4 * w * h,
            Err(e) => frame_rgba(bytes@) == Err::<(Seq<u8>, u32, u32), Seq<char>>(e@),
        },
        (forall|rgba: Seq<u8>, w: u32, h: u32|
            bytes@ == #[trigger] crate::bmp::bmp_file(rgba, w, h) && sure_size(w, h) && rgba.len()
                == 4 * w * h ==> decoded_view(r) == Ok::<(Seq<u8>, u32, u32), Seq<char>>(
                (rgba, w, h),
            )),
{
    let format = image::guess_format(bytes).map_err(|e| e.to_string())?;
    let reader = image::ImageReader::with_format(std::io::Cursor::new(bytes), format);
    let picture = reader.decode().map_err(|e| e.to_string())?.into_rgba8();
    let (width, height) = picture.dimensions();
    Ok((picture.into_raw(), width, height))
}

/// A picture brought to another size.
pub uninterp spec fn rgba_resized(
    rgba: Seq<u8>,
    width: u32,
    height: u32,
    new_width: u32,
    new_height: u32,
) -> Seq<u8>;

/// `image::imageops::resize` of a picture of four bytes a pixel, by the
/// nearest pixel. The bytes are named, not described.
#[verifier::external_body]
pub(crate) fn rgba_resized_of(
    rgba: Vec<u8>,
    width: u32,
    height: u32,
    new_width: u32,
    new_height: u32,
) -> (r: Vec<u8>)
    requires
        rgba@.len() == 4 * width * height,
        0 < new_width < 65536,
        0 < new_height < 65536,
    ensures
        r@ == rgba_resized(rgba@, width, height, new_width, new_height),
        r@.len() == 4 * new_width * new_height,
{
    let picture = image::RgbaImage::from_raw(width, height, rgba).unwrap();
    let nearest = image::imageops::FilterType::Nearest;
    image::imageops::resize(&picture, new_width, new_height, nearest).into_raw()
}

/// A PNG file with the given pixels, four bytes each; or what is wrong.
pub uninterp spec fn png_rgba(rgba: Seq<u8>, width: u32, height: u32) -> Result<
    Seq<u8>,
    Seq<char>,
>;

/// `image::write_buffer_with_format` as PNG. The file is named, not described;
/// PNG loses nothing, so that `image::ImageReader::decode` of it, in the format
/// that `image::guess_format` takes from its bytes, gives the pixels back.
#[verifier::external_body]
pub(crate) fn png_rgba_of(rgba: &[u8], width: u32, height: u32) -> (r: Result<Vec<u8>, String>)
    requires
        rgba@.len() == 4 * width * height,
    ensures
        match r {
            Ok(file) => png_rgba(rgba@, width, height) == Ok::<Seq<u8>, Seq<char>>(file@) && (
            sure_size(width, height) ==> frame_rgba(file@) == Ok::<
                (Seq<u8>, u32, u32),
                Seq<char>,
            >((rgba@, width, height))),
            Err(e) => png_rgba(rgba@, width, height) == Err::<Seq<u8>, Seq<char>>(e@),
        },
{
    let mut file: Vec<u8> = Vec::new();
    let kind = image::ExtendedColorType::Rgba8;
    let mut out = std::io::Cursor::new(&mut file);
    image::write_buffer_with_format(&mut out, rgba, width, height, kind, image::ImageFormat::Png)
        .map_err(|e| e.to_string())?;
    Ok(file)
}

/// A picture file with the given brightnesses, in the format of the path's
/// extension; or what is wrong.
pub uninterp spec fn gray_file(path: Seq<char>, gray: Seq<u8>, width: u32, height: u32) -> Result<
    Seq<u8>,
    Seq<char>,
>;

/// `image::write_buffer_with_format` in the format that `image::ImageFormat`
/// takes from the path, with one byte for each pixel. The file is named, not
/// described. A PNG file loses nothing: `image::ImageReader::decode` of it,
/// under any path with a PNG file's extension, then `to_luma8`, gives the
/// brightnesses back.
#[verifier::external_body]
pub(crate) fn gray_file_of(path: &str, gray: &[u8], width: u32, height: u32) -> (r: Result<
    Vec<u8>,
    String,
>)
    requires
        gray@.len() == width * height,
        sure_size(width, height),
    ensures
        match r {
            Ok(file) => gray_file(path@, gray@, width, height) == Ok::<Seq<u8>, Seq<char>>(file@)
                && (crate::paths::extension_of(path@) == Some("png"@) ==> forall|p: Seq<char>|
                crate::paths::extension_of(p) == Some("png"@) ==> #[trigger] picture_gray(p, file@)
                    == Ok::<(Seq<u8>, u32, u32), Seq<char>>((gray@, width, height))),
            Err(e) => gray_file(path@, gray@, width, height) == Err::<Seq<u8>, Seq<char>>(e@),
        },
{
    let format = image::ImageFormat::from_path(path).map_err(|e| e.to_string())?;
    let mut file: Vec<u8> = Vec::new();
    let kind = image::ExtendedColorType::L8;
    let mut out = std::io::Cursor::new(&mut file);
    image::write_buffer_with_format(&mut out, gray, width, height, kind, format)
        .map_err(|e| e.to_string())?;
    Ok(file)
}

/// A message about a file: what failed, the path in quotes, and why.
pub open spec fn file_message(what: Seq<char>, path: Seq<char>, why: Seq<char>) -> Seq<char> {
    what + crate::text::quoted(path) + ": "@ + why
}

/// Writes a message about a file.
pub fn file_message_text(what: &str, path: &str, why: &str) -> (r: String)
    ensures
        r@ == file_message(what@, path@, why@),
{
    let mut m: Vec<char> = Vec::new();
    push_str(&mut m, what);
    push_str(&mut m, quoted_text(path).as_str());
    push_str(&mut m, ": ");
    push_str(&mut m, why);
    assert(m@ =~= file_message(what@, path@, why@));
    string_of(m.as_slice())
}

/// What a picture file at `path` gives, when decoding it gave `decoded`.
pub open spec fn opened_picture(
    path: Seq<char>,
    decoded: Result<(Seq<u8>, u32, u32), Seq<char>>,
) -> Result<(Seq<u8>, u32, u32), Seq<char>> {
    match decoded {
        Ok(picture) => Ok(picture),
        Err(why) => Err(file_message("failed to open image "@, path, why)),
    }
}

pub open spec fn decoded_view(d: Result<(Vec<u8>, u32, u32), String>) -> Result<
    (Seq<u8>, u32, u32),
    Seq<char>,
> {
    match d {
        Ok((bytes, w, h)) => Ok((bytes@, w, h)),
        Err(e) => Err(e@),
    }
}

/// Gives what was decoded, or a message that names the file.
pub fn picture_opened(path: &str, decoded: Result<(Vec<u8>, u32, u32), String>) -> (r: Result<
    (Vec<u8>, u32, u32),
    String,
>)
    ensures
        decoded_view(r) == opened_picture(path@, decoded_view(decoded)),
{
    match decoded {
        Ok(picture) => Ok(picture),
        Err(why) => Err(file_message_text("failed to open image ", path, why.as_str())),
    }
}

/// The path that tells a picture's format. A path that ends in a dot tells
/// none, as one without an extension.
pub open spec fn format_path(path: Seq<char>) -> Seq<char> {
    if crate::paths::extension_of(path) == Some(Seq::<char>::empty()) {
        seq![]
    } else {
        path
    }
}

/// The path by which a picture's format is told.
pub(crate) fn path_of_format(path: &str) -> (r: String)
    ensures
        r@ == format_path(path@),
{
    match extension(path) {
        Some(e) => if chars_of(e.as_str()).len() == 0 {
            assert(e@ =~= seq![]);
            let r = String::new();
            assert(r@ =~= format_path(path@));
            r
        } else {
            path.to_string()
        },
        None => path.to_string(),
    }
}

/// The pixels of a picture file, four bytes each, and its size.
pub fn open_rgba(path: &str, bytes: &[u8]) -> (r: Result<(Vec<u8>, u32, u32), String>)
    ensures
        decoded_view(r) == opened_picture(path@, picture_rgba(format_path(path@), bytes@)),
        r matches Ok((rgba, w, h)) ==> rgba@.len() == 4 * w * h,
{
    picture_opened(path, picture_rgba_of(path_of_format(path).as_str(), bytes))
}

/// What stands for a wallpaper among its likes: its picture, or one pixel of
/// nothing where there is no picture to be had.
pub open spec fn thumbnail(decoded: Result<(Seq<u8>, u32, u32), Seq<char>>) -> (
    Seq<u8>,
    u32,
    u32,
) {
    match decoded {
        Ok(picture) => picture,
        Err(_) => (seq![0u8, 0u8, 0u8, 0u8], 1, 1),
    }
}

/// Gives the picture, or one pixel of nothing.
pub fn thumbnail_pixels(decoded: Result<(Vec<u8>, u32, u32), String>) -> (r: (Vec<u8>, u32, u32))
    ensures
        (r.0@, r.1, r.2) == thumbnail(decoded_view(decoded)),
{
    match decoded {
        Ok(picture) => picture,
        Err(_) => {
            let blank: Vec<u8> = vec![0u8, 0u8, 0u8, 0u8];
            assert(blank@ =~= seq![0u8, 0u8, 0u8, 0u8]);
            (blank, 1, 1)
        },
    }
}


/// A picture that could be read is shown as it was read; of one that could not,
/// the message names the file, and says why. In a list of pictures, one pixel
/// that shows nothing stands for it.
pub proof fn picture_is_shown_as_read(
    path: Seq<char>,
    picture: (Seq<u8>, u32, u32),
    why: Seq<char>,
)
    ensures
        opened_picture(path, Ok(picture)) == Ok::<(Seq<u8>, u32, u32), Seq<char>>(picture),
        opened_picture(path, Err(why)) matches Err(said) && said == "failed to open image "@
            + crate::text::quoted(path) + ": "@ + why,
        thumbnail(Ok(picture)) == picture,
        ({
            let (pixels, w, h) = thumbnail(Err(why));
            w == 1 && h == 1 && pixels.len() == 4 && pixels[3] == 0
        }),
{
}


/// The format of a picture goes by its path, unless the path ends in a dot.
pub proof fn format_goes_by_the_path(path: Seq<char>)
    ensures
        crate::paths::extension_of(path) is None ==> format_path(path) == path,
        (crate::paths::extension_of(path) matches Some(e) && e.len() > 0) ==> format_path(path)
            == path,
        (crate::paths::extension_of(path) matches Some(e) && e.len() == 0) ==> format_path(
            path,
        ).len() == 0,
{
    if crate::paths::extension_of(path) is Some && crate::paths::extension_of(path)->0.len() == 0 {
        assert(crate::paths::extension_of(path)->0 =~= Seq::<char>::empty());
    }
}

} // verus!
