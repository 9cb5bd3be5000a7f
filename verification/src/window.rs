//! One monitor's wallpaper window: what to ask the render server, when to ask
//! again, and how a frame goes to the X server.

use vstd::prelude::*;
use vstd::utf8::*;

use crate::pictures::{frame_rgba_of, rgba_resized_of};
use crate::pixfmt::{convert_rgba, NativeFormat};
use crate::randr::OutputGeometry;
use crate::render_server::{get, parse_meta, post, read_response, Meta};
use crate::text::{
    copy_range, decimal_chars, push_str, signed_decimal_chars, string_of, utf8_text,
};

verus! {

// --- Requests --------------------------------------------------------------

/// The bytes that ask what the server says of a monitor's frames.
pub open spec fn meta_asked(monitor_query: Seq<char>) -> Seq<u8> {
    crate::render_server::request_bytes("GET"@, "/meta?"@ + monitor_query, seq![])
}

/// The bytes that ask for a monitor's frame.
pub open spec fn frame_asked(monitor_query: Seq<char>) -> Seq<u8> {
    crate::render_server::request_bytes("GET"@, "/frame?"@ + monitor_query, seq![])
}

/// The bytes that tell where a monitor shows.
pub open spec fn geometry_told(
    monitor_query: Seq<char>,
    o: crate::randr::OutputModel,
) -> Seq<u8> {
    crate::render_server::request_bytes(
        "POST"@,
        "/geometry?"@ + monitor_query,
        geometry_text(o.x as int, o.y as int, o.width as nat, o.height as nat),
    )
}

/// The request for what the server says of a monitor's frames.
pub fn meta_request(monitor_query: &str) -> (r: Vec<u8>)
    ensures
        r@ == meta_asked(monitor_query@),
{
    let mut path: Vec<char> = Vec::new();
    push_str(&mut path, "/meta?");
    push_str(&mut path, monitor_query);
    get(string_of(path.as_slice()).as_str())
}

/// The request for a monitor's frame.
pub fn frame_request(monitor_query: &str) -> (r: Vec<u8>)
    ensures
        r@ == frame_asked(monitor_query@),
{
    let mut path: Vec<char> = Vec::new();
    push_str(&mut path, "/frame?");
    push_str(&mut path, monitor_query);
    get(string_of(path.as_slice()).as_str())
}

/// A monitor's place and size as the server takes them.
pub open spec fn geometry_text(x: int, y: int, width: nat, height: nat) -> Seq<char> {
    crate::text::signed_decimal(x) + ","@ + crate::text::signed_decimal(y) + ","@
        + crate::text::decimal(width) + ","@ + crate::text::decimal(height)
}

/// The request that tells the server where a monitor shows.
pub fn push_geometry(monitor_query: &str, geometry: &OutputGeometry) -> (r: Vec<u8>)
    ensures
        r@ == geometry_told(monitor_query@, geometry@),
{
    let mut path: Vec<char> = Vec::new();
    push_str(&mut path, "/geometry?");
    push_str(&mut path, monitor_query);
    let mut body = signed_decimal_chars(geometry.x as i64);
    push_str(&mut body, ",");
    let mut y = signed_decimal_chars(geometry.y as i64);
    body.append(&mut y);
    push_str(&mut body, ",");
    let mut width = decimal_chars(geometry.width as u64);
    body.append(&mut width);
    push_str(&mut body, ",");
    let mut height = decimal_chars(geometry.height as u64);
    body.append(&mut height);
    post(string_of(path.as_slice()).as_str(), string_of(body.as_slice()).as_str())
}

/// What an answer says of a monitor's frames.
pub open spec fn answered_meta(raw: Seq<u8>) -> Option<Meta> {
    match crate::render_server::response_body(raw) {
        Some(body) => if valid_utf8(body) {
            crate::render_server::meta_of(decode_utf8(body))
        } else {
            None
        },
        None => None,
    }
}

/// Reads the answer to a request for what the server says of a monitor's
/// frames.
pub fn fetch_meta(raw: &[u8]) -> (r: Option<Meta>)
    ensures
        r == answered_meta(raw@),
{
    match read_response(raw) {
        Some(body) => match utf8_text(body.as_slice()) {
            Some(text) => parse_meta(text.as_str()),
            None => None,
        },
        None => None,
    }
}

// --- Polling ---------------------------------------------------------------

/// What a window keeps between two looks at the server.
pub struct Poller {
    pub fps: u32,
    /// The frame that was shown last.
    pub last_frame_id: u64,
}

/// What to do after a look at the server.
#[derive(Debug, Clone, Copy)]
pub struct PollStep {
    /// The server does not know where the monitor shows, and has to be told
    /// again.
    pub push_geometry: bool,
    /// There is a new frame to fetch.
    pub fetch_frame: bool,
}

/// What a window keeps after a look at the server, and what it does.
pub open spec fn polled(p: Poller, meta: Option<Meta>) -> (Poller, PollStep) {
    match meta {
        Some(m) => {
            let fetch_frame = m.ready && m.frame_id != p.last_frame_id;
            (
                Poller {
                    fps: if m.fps != 0 {
                        m.fps
                    } else {
                        p.fps
                    },
                    last_frame_id: if fetch_frame {
                        m.frame_id
                    } else {
                        p.last_frame_id
                    },
                },
                PollStep { push_geometry: !m.has_geometry, fetch_frame },
            )
        },
        None => (p, PollStep { push_geometry: false, fetch_frame: false }),
    }
}

impl Poller {
    /// A window that has shown nothing yet.
    pub fn new() -> (r: Poller)
        ensures
            r.fps == 30,
            r.last_frame_id == u64::MAX,
    {
        Poller { fps: 30, last_frame_id: u64::MAX }
    }

    /// Takes in what the server says; nothing where it did not answer.
    pub fn step(&mut self, meta: &Option<Meta>) -> (r: PollStep)
        ensures
            (*final(self), r) == polled(*old(self), *meta),
    {
        match meta {
            Some(m) => {
                if m.fps != 0 {
                    self.fps = m.fps;
                }
                let fetch = m.ready && m.frame_id != self.last_frame_id;
                if fetch {
                    self.last_frame_id = m.frame_id;
                }
                PollStep { push_geometry: !m.has_geometry, fetch_frame: fetch }
            },
            None => PollStep { push_geometry: false, fetch_frame: false },
        }
    }

    /// How long to wait until the next look, in milliseconds: a frame's time,
    /// but never so little that the looks follow each other without a pause.
    pub fn interval_ms(&self) -> (r: u64)
        ensures
            r == wait_ms(self.fps),
            8 <= r <= 1000,
    {
        let fps: u64 = if self.fps == 0 {
            1
        } else {
            self.fps as u64
        };
        let interval = 1000 / fps;
        if interval < 8 {
            8
        } else {
            interval
        }
    }
}

/// The time between two looks at the server.
pub open spec fn wait_ms(fps: u32) -> int {
    let each = 1000int / (if fps == 0 {
        1int
    } else {
        fps as int
    });
    if each < 8 {
        8
    } else {
        each
    }
}

/// How long to sleep before the next look at whether the window has to go, of
/// what remains of the wait.
pub fn sleep_step_ms(remaining: u64) -> (r: u64)
    ensures
        r == if remaining < 20 {
            remaining
        } else {
            20
        },
{
    if remaining < 20 {
        remaining
    } else {
        20
    }
}

// --- Showing ---------------------------------------------------------------

/// A run of a frame's rows, as one request to the X server holds it.
pub struct ImageChunk {
    /// The first row.
    pub y: usize,
    pub rows: usize,
    pub data: Vec<u8>,
}

pub struct ChunkModel {
    pub y: int,
    pub rows: int,
    pub data: Seq<u8>,
}

impl View for ImageChunk {
    type V = ChunkModel;

    open spec fn view(&self) -> ChunkModel {
        ChunkModel { y: self.y as int, rows: self.rows as int, data: self.data@ }
    }
}

pub open spec fn chunks_view(chunks: Seq<ImageChunk>) -> Seq<ChunkModel> {
    chunks.map_values(|c: ImageChunk| c@)
}

/// How many rows a request can hold, with room for what goes in front of them;
/// one at least.
pub open spec fn rows_per_chunk(max_request: int, row_bytes: int) -> int {
    let room = if max_request < 64 {
        0
    } else {
        max_request - 64
    };
    if row_bytes > 0 && room / row_bytes > 1 {
        room / row_bytes
    } else {
        1
    }
}

/// A frame's rows from `y` on, in runs of at most `per`.
pub open spec fn chunked(
    native: Seq<u8>,
    row_bytes: int,
    height: int,
    per: int,
    y: int,
) -> Seq<ChunkModel>
    decreases height - y,
{
    if y >= height || per <= 0 {
        seq![]
    } else {
        let rows = if per < height - y {
            per
        } else {
            height - y
        };
        seq![
            ChunkModel {
                y,
                rows,
                data: native.subrange(y * row_bytes, (y + rows) * row_bytes),
            },
        ] + chunked(native, row_bytes, height, per, y + rows)
    }
}

/// The requests that show a frame.
pub open spec fn frame_chunks(
    native: Seq<u8>,
    width: int,
    height: int,
    max_request: int,
) -> Seq<ChunkModel> {
    chunked(native, 4 * width, height, rows_per_chunk(max_request, 4 * width), 0)
}

/// Cuts a frame into runs of rows that fit in a request each.
pub fn put_image_chunks(
    native: &Vec<u8>,
    width: usize,
    height: usize,
    max_request_bytes: usize,
) -> (r: Vec<ImageChunk>)
    requires
        0 < width < 65536,
        native@.len() == 4 * width * height,
    ensures
        chunks_view(r@) == frame_chunks(
            native@,
            width as int,
            height as int,
            max_request_bytes as int,
        ),
{
    let row_bytes: usize = width * 4;
    let room: usize = if max_request_bytes < 64 {
        0
    } else {
        max_request_bytes - 64
    };
    let fitting: usize = room / row_bytes;
    let per: usize = if fitting > 1 {
        fitting
    } else {
        1
    };
    let mut r: Vec<ImageChunk> = Vec::new();
    let mut y: usize = 0;
    let ghost all = frame_chunks(native@, width as int, height as int, max_request_bytes as int);
    let total: usize = native.len();
    assert(total == row_bytes * height) by (nonlinear_arith)
        requires
            total == 4 * width * height,
            row_bytes == width * 4,
    ;
    assert(chunks_view(r@) + all =~= all);
    while y < height
        invariant
            y <= height,
            per >= 1,
            0 < row_bytes,
            total == native@.len(),
            total == row_bytes * height,
            chunks_view(r@) + chunked(
                native@,
                row_bytes as int,
                height as int,
                per as int,
                y as int,
            ) == all,
        decreases height - y,
    {
        let rows: usize = if per < height - y {
            per
        } else {
            height - y
        };
        assert(y * row_bytes <= (y + rows) * row_bytes <= total) by (nonlinear_arith)
            requires
                0 <= y,
                0 <= rows,
                y + rows <= height,
                total == row_bytes * height,
                0 < row_bytes,
        ;
        let data = copy_range(native.as_slice(), y * row_bytes, (y + rows) * row_bytes);
        let ghost before = chunks_view(r@);
        let ghost rest = chunked(
            native@,
            row_bytes as int,
            height as int,
            per as int,
            y + rows,
        );
        let chunk = ImageChunk { y, rows, data };
        let ghost model = chunk@;
        r.push(chunk);
        assert(chunks_view(r@) =~= before.push(model));
        assert(chunks_view(r@) + rest =~= before + (seq![model] + rest));
        y += rows;
    }
    assert(chunks_view(r@) =~= all);
    r
}

/// The rows of a frame at the monitor's size.
pub open spec fn fitted(rgba: Seq<u8>, w: u32, h: u32, width: u16, height: u16) -> Seq<u8> {
    if w == width && h == height {
        rgba
    } else {
        crate::pictures::rgba_resized(rgba, w, h, width as u32, height as u32)
    }
}

/// The requests that show a picture on a monitor.
pub open spec fn shown(
    format: NativeFormat,
    width: u16,
    height: u16,
    max_request: int,
    rgba: Seq<u8>,
    w: u32,
    h: u32,
) -> Seq<ChunkModel> {
    if width == 0 || height == 0 {
        seq![]
    } else {
        frame_chunks(
            crate::pixfmt::native_pixels(
                format,
                fitted(rgba, w, h, width, height),
                width * height,
            ),
            width as int,
            height as int,
            max_request,
        )
    }
}

/// Brings a picture to a monitor's size and pixels, and cuts it into the
/// requests that show it.
pub fn show_picture(
    format: &NativeFormat,
    geometry: &OutputGeometry,
    max_request_bytes: usize,
    rgba: Vec<u8>,
    w: u32,
    h: u32,
) -> (r: Vec<ImageChunk>)
    requires
        format.wf(),
        rgba@.len() == 4 * w * h,
    ensures
        chunks_view(r@) == shown(
            *format,
            geometry.width,
            geometry.height,
            max_request_bytes as int,
            rgba@,
            w,
            h,
        ),
{
    let width = geometry.width as u32;
    let height = geometry.height as u32;
    if width == 0 || height == 0 {
        let r: Vec<ImageChunk> = Vec::new();
        assert(chunks_view(r@) =~= seq![]);
        return r;
    }
    let pixels = if w == width && h == height {
        rgba
    } else {
        rgba_resized_of(rgba, w, h, width, height)
    };
    let native = convert_rgba(format, pixels.as_slice());
    let ghost count = width * height;
    assert(4 * width * height == 4 * count) by (nonlinear_arith)
        requires
            count == width * height,
    ;
    assert(pixels@.len() as int / 4 == count);
    assert(native@.len() == 4 * (geometry.width as usize) * (geometry.height as usize));
    put_image_chunks(
        &native,
        geometry.width as usize,
        geometry.height as usize,
        max_request_bytes,
    )
}

/// What showing a frame takes, by what decoding it gave.
pub open spec fn shown_frame(
    format: NativeFormat,
    width: u16,
    height: u16,
    max_request: int,
    decoded: Result<(Seq<u8>, u32, u32), Seq<char>>,
) -> Result<Seq<ChunkModel>, Seq<char>> {
    match decoded {
        Ok((rgba, w, h)) => Ok(shown(format, width, height, max_request, rgba, w, h)),
        Err(e) => Err(e),
    }
}

/// The requests that show a frame, as the server sent it, on a monitor: it is
/// stretched to the monitor's size. What the server sent as a BMP file shows as
/// it was rendered.
pub fn show_frame(
    format: &NativeFormat,
    geometry: &OutputGeometry,
    max_request_bytes: usize,
    frame_bytes: &[u8],
) -> (r: Result<Vec<ImageChunk>, String>)
    requires
        format.wf(),
    ensures
        match r {
            Ok(chunks) => shown_frame(
                *format,
                geometry.width,
                geometry.height,
                max_request_bytes as int,
                crate::pictures::frame_rgba(frame_bytes@),
            ) == Ok::<Seq<ChunkModel>, Seq<char>>(chunks_view(chunks@)),
            Err(e) => shown_frame(
                *format,
                geometry.width,
                geometry.height,
                max_request_bytes as int,
                crate::pictures::frame_rgba(frame_bytes@),
            ) == Err::<Seq<ChunkModel>, Seq<char>>(e@),
        },
        forall|rgba: Seq<u8>, w: u32, h: u32|
            frame_bytes@ == #[trigger] crate::bmp::bmp_file(rgba, w, h)
                && crate::pictures::sure_size(w, h) && rgba.len() == 4 * w * h ==> (
            r matches Ok(chunks) && chunks_view(chunks@) == shown(
                *format,
                geometry.width,
                geometry.height,
                max_request_bytes as int,
                rgba,
                w,
                h,
            )),
{
    match frame_rgba_of(frame_bytes) {
        Ok((rgba, w, h)) => Ok(show_picture(format, geometry, max_request_bytes, rgba, w, h)),
        Err(e) => Err(e),
    }
}

// --- Laws ------------------------------------------------------------------

/// What the runs hold, one after the other.
pub open spec fn chunk_data(chunks: Seq<ChunkModel>) -> Seq<u8>
    decreases chunks.len(),
{
    if chunks.len() == 0 {
        seq![]
    } else {
        chunks[0].data + chunk_data(chunks.skip(1))
    }
}

/// The runs follow each other from `y` to `end`, none of them empty.
pub open spec fn chunks_adjoin(chunks: Seq<ChunkModel>, y: int, end: int) -> bool
    decreases chunks.len(),
{
    if chunks.len() == 0 {
        y == end
    } else {
        chunks[0].y == y && chunks[0].rows > 0 && chunks_adjoin(
            chunks.skip(1),
            y + chunks[0].rows,
            end,
        )
    }
}

/// Each row of a frame goes to the X server once, in its place: the runs
/// adjoin and hold the frame's bytes together, and none of them is larger
/// than a request can be, where a row fits in one.
pub proof fn chunks_are_the_frame(
    native: Seq<u8>,
    width: int,
    height: int,
    max_request: int,
)
    requires
        0 < width,
        0 <= height,
        native.len() == 4 * width * height,
    ensures
        chunks_adjoin(frame_chunks(native, width, height, max_request), 0, height),
        chunk_data(frame_chunks(native, width, height, max_request)) == native,
        max_request >= 64 + 4 * width ==> forall|i: int|
            0 <= i < frame_chunks(native, width, height, max_request).len() ==> (
            #[trigger] frame_chunks(native, width, height, max_request)[i]).data.len() + 64
                <= max_request,
{
    let row = 4 * width;
    let per = rows_per_chunk(max_request, row);
    assert(native.len() == row * height) by (nonlinear_arith)
        requires
            native.len() == 4 * width * height,
            row == 4 * width,
    ;
    if max_request >= 64 + row {
        let room = max_request - 64;
        assert(room / row >= 1 && (room / row) * row <= room) by (nonlinear_arith)
            requires
                room >= row,
                row > 0,
        ;
        assert(per * row <= room);
    }
    chunks_from(native, row, height, per, 0, max_request);
    assert(0 * row == 0);
    assert(native.skip(0) =~= native);
}

proof fn chunks_from(
    native: Seq<u8>,
    row: int,
    height: int,
    per: int,
    y: int,
    max_request: int,
)
    requires
        0 < row,
        0 <= y <= height,
        per >= 1,
        native.len() == row * height,
        max_request >= 64 + row ==> per * row <= max_request - 64,
    ensures
        0 <= y * row <= native.len(),
        chunks_adjoin(chunked(native, row, height, per, y), y, height),
        chunk_data(chunked(native, row, height, per, y)) == native.skip(y * row),
        max_request >= 64 + row ==> forall|i: int|
            0 <= i < chunked(native, row, height, per, y).len() ==> (#[trigger] chunked(
                native,
                row,
                height,
                per,
                y,
            )[i]).data.len() + 64 <= max_request,
    decreases height - y,
{
    let all = chunked(native, row, height, per, y);
    assert(0 <= y * row <= native.len()) by (nonlinear_arith)
        requires
            0 <= y <= height,
            0 < row,
            native.len() == row * height,
    ;
    if y >= height {
        assert(y * row == native.len()) by (nonlinear_arith)
            requires
                y == height,
                native.len() == row * height,
        ;
        assert(native.skip(y * row) =~= seq![]);
    } else {
        let rows = if per < height - y {
            per
        } else {
            height - y
        };
        let from = y * row;
        let to = (y + rows) * row;
        assert(0 <= from <= to <= native.len() && to - from <= per * row) by (nonlinear_arith)
            requires
                0 <= y,
                0 < rows <= per,
                y + rows <= height,
                0 < row,
                native.len() == row * height,
                from == y * row,
                to == (y + rows) * row,
        ;
        chunks_from(native, row, height, per, y + rows, max_request);
        let rest = chunked(native, row, height, per, y + rows);
        assert(all.skip(1) =~= rest);
        assert(native.subrange(from, to) + native.skip(to) =~= native.skip(from));
        if max_request >= 64 + row {
            assert forall|i: int| 0 <= i < all.len() implies (#[trigger] all[i]).data.len() + 64
                <= max_request by {
                if i > 0 {
                    assert(all[i] == rest[i - 1]);
                }
            }
        }
    }
}


/// A frame is fetched once: as soon as it is ready and not the one that shows,
/// and not again before there is another.
pub proof fn frame_is_fetched_once(p: Poller, m: Meta, next: Meta)
    requires
        m.ready,
    ensures
        ({
            let (shows, first) = polled(p, Some(m));
            let (_, again) = polled(shows, Some(next));
            &&& m.frame_id != p.last_frame_id ==> first.fetch_frame
            &&& m.frame_id == p.last_frame_id ==> !first.fetch_frame
            &&& next.frame_id == m.frame_id ==> !again.fetch_frame
            &&& next.frame_id != m.frame_id && next.ready ==> again.fetch_frame
            &&& !next.ready ==> !again.fetch_frame
        }),
{
}

/// The server is told where the monitor shows just when it answers that it does
/// not know; the rate is the one that it gives, where it gives one. Without an
/// answer nothing happens, and what was shown last is not forgotten.
pub proof fn answers_are_followed(p: Poller, m: Meta)
    ensures
        ({
            let (after, does) = polled(p, Some(m));
            &&& does.push_geometry <==> !m.has_geometry
            &&& m.fps > 0 ==> after.fps == m.fps
            &&& m.fps == 0 ==> after.fps == p.fps
            &&& !m.ready ==> after.last_frame_id == p.last_frame_id && !does.fetch_frame
        }),
        ({
            let (after, does) = polled(p, None);
            after == p && !does.push_geometry && !does.fetch_frame
        }),
{
}

/// A window looks at the server once in a frame's time, but never more often
/// than every eight milliseconds; where no rate is known, once in a second.
pub proof fn looks_follow_the_rate(fps: u32)
    ensures
        8 <= wait_ms(fps) <= 1000,
        fps == 0 ==> wait_ms(fps) == 1000,
        wait_ms(fps) > 8 && fps > 0 ==> wait_ms(fps) * fps <= 1000 < (wait_ms(fps) + 1) * fps,
        wait_ms(fps) == 8 ==> 1000 < 9 * fps,
{
    if fps > 0 {
        let each = 1000int / (fps as int);
        assert(each * fps <= 1000 < (each + 1) * fps) by (nonlinear_arith)
            requires
                each == 1000int / (fps as int),
                fps > 0,
        ;
        if each <= 8 {
            assert(1000 < 9 * fps) by (nonlinear_arith)
                requires
                    1000 < (each + 1) * fps,
                    each <= 8,
                    fps > 0,
            ;
        }
        assert(each <= 1000) by (nonlinear_arith)
            requires
                each * fps <= 1000,
                fps >= 1,
        ;
    }
}

/// A picture of the monitor's size shows as it is; a monitor without a size
/// shows nothing.
pub proof fn picture_of_the_size_shows_as_it_is(
    format: NativeFormat,
    width: u16,
    height: u16,
    max_request: int,
    rgba: Seq<u8>,
)
    ensures
        width > 0 && height > 0 ==> shown(
            format,
            width,
            height,
            max_request,
            rgba,
            width as u32,
            height as u32,
        ) == frame_chunks(
            crate::pixfmt::native_pixels(format, rgba, width * height),
            width as int,
            height as int,
            max_request,
        ),
        width == 0 || height == 0 ==> forall|w: u32, h: u32| #[trigger]
            shown(format, width, height, max_request, rgba, w, h).len() == 0,
{
}


/// A request holds as many rows as fit, with room for what goes in front of
/// them, and one where not even one fits.
pub proof fn requests_are_filled(max_request: int, row_bytes: int)
    requires
        0 < row_bytes,
        0 <= max_request,
    ensures
        ({
            let per = rows_per_chunk(max_request, row_bytes);
            &&& per >= 1
            &&& per > 1 ==> per * row_bytes + 64 <= max_request
            &&& (per + 1) * row_bytes + 64 > max_request
        }),
{
    let room = if max_request < 64 {
        0
    } else {
        max_request - 64
    };
    let q = room / row_bytes;
    assert(q * row_bytes <= room < (q + 1) * row_bytes) by (nonlinear_arith)
        requires
            q == room / row_bytes,
            row_bytes > 0,
    ;
    let per = rows_per_chunk(max_request, row_bytes);
    assert((per + 1) * row_bytes > room) by (nonlinear_arith)
        requires
            room < (q + 1) * row_bytes,
            q <= per,
            row_bytes > 0,
    ;
}

} // verus!
