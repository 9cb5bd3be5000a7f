//! Looping animations: frames with their delays, and the frame that stands at
//! a given time.

use vstd::prelude::*;

use crate::pictures::file_message_text;
use crate::text::{push_str, quoted_text, string_of};

verus! {

/// One frame of an animation: its pixels, four bytes each, and how long it
/// stands.
pub struct GifFrame {
    pub rgba: Vec<u8>,
    pub delay_ms: u64,
}

/// What is wrong with a GIF file's header; nothing where it can be read.
pub uninterp spec fn gif_header_error(bytes: Seq<u8>) -> Option<Seq<char>>;

/// The frames of a GIF file: pixels, size, and the delay in milliseconds as a
/// fraction; or what is wrong with them.
pub uninterp spec fn gif_frames(bytes: Seq<u8>) -> Result<
    Seq<(Seq<u8>, (u32, u32), (u32, u32))>,
    Seq<char>,
>;

/// `image::codecs::gif::GifDecoder::new`: the message of its error where it
/// fails. The message is named, not described.
#[verifier::external_body]
fn gif_header_error_of(bytes: &[u8]) -> (r: Option<String>)
    ensures
        match r {
            Some(e) => gif_header_error(bytes@) == Some(e@),
            None => gif_header_error(bytes@) is None,
        },
{
    image::codecs::gif::GifDecoder::new(std::io::Cursor::new(bytes)).err().map(|e| e.to_string())
}

/// A frame as the decoder gives it: pixels, size, delay.
pub type RawFrame = (Vec<u8>, (u32, u32), (u32, u32));

pub open spec fn raw_view(frames: Result<Vec<RawFrame>, String>) -> Result<
    Seq<(Seq<u8>, (u32, u32), (u32, u32))>,
    Seq<char>,
> {
    match frames {
        Ok(f) => Ok(f@.map_values(|x: RawFrame| (x.0@, x.1, x.2))),
        Err(e) => Err(e@),
    }
}

/// `image::AnimationDecoder::into_frames` and `Frames::collect_frames`, and of
/// each frame its pixels, its size and its delay. What they are is named, not
/// described.
#[verifier::external_body]
fn gif_frames_of(bytes: &[u8]) -> (r: Result<Vec<RawFrame>, String>)
    ensures
        raw_view(r) == gif_frames(bytes@),
{
    let decoder = image::codecs::gif::GifDecoder::new(std::io::Cursor::new(bytes))
        .map_err(|e| e.to_string())?;
    let frames = image::AnimationDecoder::into_frames(decoder).collect_frames()
        .map_err(|e| e.to_string())?;
    Ok(
        frames.into_iter().map(|frame| {
            let (size, delay) = (frame.buffer().dimensions(), frame.delay().numer_denom_ms());
            (frame.into_buffer().into_raw(), size, delay)
        }).collect(),
    )
}

/// How long a frame stands whose file gives the delay as a fraction: never
/// less than 20 milliseconds.
pub open spec fn frame_delay(numer: u32, denom: u32) -> u64 {
    if denom == 0 {
        100
    } else if numer / denom < 20 {
        20
    } else {
        (numer / denom) as u64
    }
}

fn frame_delay_ms(numer: u32, denom: u32) -> (r: u64)
    ensures
        r == frame_delay(numer, denom),
{
    if denom == 0 {
        100
    } else if numer / denom < 20 {
        20
    } else {
        (numer / denom) as u64
    }
}

pub open spec fn frames_view(frames: Seq<GifFrame>) -> Seq<(Seq<u8>, u64)> {
    frames.map_values(|f: GifFrame| (f.rgba@, f.delay_ms))
}

/// An animation, or what is wrong with its file.
pub open spec fn decoded_gif(
    path: Seq<char>,
    header_error: Option<Seq<char>>,
    frames: Result<Seq<(Seq<u8>, (u32, u32), (u32, u32))>, Seq<char>>,
) -> Result<(Seq<(Seq<u8>, u64)>, u32, u32), Seq<char>> {
    if header_error is Some {
        Err(
            crate::pictures::file_message("failed to decode gif "@, path, header_error->0),
        )
    } else {
        match frames {
            Err(why) => Err(
                crate::pictures::file_message("failed to decode gif frames "@, path, why),
            ),
            Ok(f) => if f.len() == 0 {
                Err("gif "@ + crate::text::quoted(path) + " has no frames"@)
            } else {
                Ok(
                    (
                        f.map_values(
                            |x: (Seq<u8>, (u32, u32), (u32, u32))|
                                (x.0, frame_delay(x.2.0, x.2.1)),
                        ),
                        f[0].1.0,
                        f[0].1.1,
                    ),
                )
            },
        }
    }
}

pub open spec fn gif_view(r: Result<(Vec<GifFrame>, u32, u32), String>) -> Result<
    (Seq<(Seq<u8>, u64)>, u32, u32),
    Seq<char>,
> {
    match r {
        Ok((frames, w, h)) => Ok((frames_view(frames@), w, h)),
        Err(e) => Err(e@),
    }
}

/// The animation that a decoder's results describe.
pub fn gif_from_frames(
    path: &str,
    header_error: Option<String>,
    frames: Result<Vec<RawFrame>, String>,
) -> (r: Result<(Vec<GifFrame>, u32, u32), String>)
    ensures
        gif_view(r) == decoded_gif(path@, crate::text::opt_view(header_error), raw_view(frames)),
{
    match header_error {
        Some(why) => {
            return Err(file_message_text("failed to decode gif ", path, why.as_str()));
        },
        None => {},
    }
    match frames {
        Err(why) => Err(file_message_text("failed to decode gif frames ", path, why.as_str())),
        Ok(raw) => {
            if raw.len() == 0 {
                let mut m: Vec<char> = Vec::new();
                push_str(&mut m, "gif ");
                push_str(&mut m, quoted_text(path).as_str());
                push_str(&mut m, " has no frames");
                return Err(string_of(m.as_slice()));
            }
            let ghost whole = raw@;
            let (width, height) = raw[0].1;
            let mut r: Vec<GifFrame> = Vec::new();
            for frame in it: raw.into_iter()
                invariant
                    it.seq() == whole,
                    r@.len() == it.index(),
                    forall|i: int|
                        0 <= i < r@.len() ==> (#[trigger] r@[i]).rgba@ == whole[i].0@
                            && r@[i].delay_ms == frame_delay(whole[i].2.0, whole[i].2.1),
            {
                let (numer, denom) = frame.2;
                r.push(GifFrame { rgba: frame.0, delay_ms: frame_delay_ms(numer, denom) });
            }
            proof {
                let model = raw_view(Ok::<Vec<RawFrame>, String>(raw))->Ok_0;
                assert(frames_view(r@) =~= model.map_values(
                    |x: (Seq<u8>, (u32, u32), (u32, u32))| (x.0, frame_delay(x.2.0, x.2.1)),
                ));
            }
            Ok((r, width, height))
        },
    }
}

/// The frames of a GIF file, and its size.
pub fn decode_gif(path: &str, bytes: &[u8]) -> (r: Result<(Vec<GifFrame>, u32, u32), String>)
    ensures
        gif_view(r) == decoded_gif(path@, gif_header_error(bytes@), gif_frames(bytes@)),
{
    gif_from_frames(path, gif_header_error_of(bytes), gif_frames_of(bytes))
}

/// The time from the start of the animation to the end of its first `n`
/// frames.
pub open spec fn time_after(frames: Seq<GifFrame>, n: int) -> nat
    decreases n,
{
    if n <= 0 {
        0
    } else {
        time_after(frames, n - 1) + frames[n - 1].delay_ms as nat
    }
}

/// More frames take no less time.
pub proof fn time_after_grows(frames: Seq<GifFrame>, m: int, n: int)
    requires
        0 <= m <= n <= frames.len(),
    ensures
        time_after(frames, m) <= time_after(frames, n),
    decreases n - m,
{
    if m < n {
        time_after_grows(frames, m, n - 1);
    }
}

/// The time at which each frame ends.
pub fn cumulative_delays(frames: &[GifFrame]) -> (r: Vec<u64>)
    requires
        time_after(frames@, frames@.len() as int) <= u64::MAX,
    ensures
        r@.len() == frames@.len(),
        forall|i: int| 0 <= i < r@.len() ==> #[trigger] r@[i] == time_after(frames@, i + 1),
{
    let mut total: u64 = 0;
    let mut r: Vec<u64> = Vec::new();
    let mut i: usize = 0;
    while i < frames.len()
        invariant
            i <= frames@.len(),
            total == time_after(frames@, i as int),
            time_after(frames@, frames@.len() as int) <= u64::MAX,
            r@.len() == i,
            forall|j: int| 0 <= j < i ==> #[trigger] r@[j] == time_after(frames@, j + 1),
        decreases frames.len() - i,
    {
        proof {
            time_after_grows(frames@, i as int + 1, frames@.len() as int);
        }
        total = total + frames[i].delay_ms;
        r.push(total);
        i += 1;
    }
    r
}

/// Frame `i` is the one that stands at time `t` of the animation.
pub open spec fn stands_at(frames: Seq<GifFrame>, t: int, i: int) -> bool {
    0 <= i < frames.len() && time_after(frames, i) <= t < time_after(frames, i + 1)
}

/// At no time do two frames stand.
pub proof fn one_frame_stands(frames: Seq<GifFrame>, t: int, i: int, j: int)
    requires
        stands_at(frames, t, i),
        stands_at(frames, t, j),
    ensures
        i == j,
{
    if i < j {
        time_after_grows(frames, i + 1, j);
    } else if j < i {
        time_after_grows(frames, j + 1, i);
    }
}

/// How many of the times in `ends` are not after `t`. `ends` grows.
fn ended_by(ends: &Vec<u64>, t: u64) -> (r: usize)
    requires
        forall|i: int, j: int| 0 <= i <= j < ends@.len() ==> ends@[i] <= ends@[j],
    ensures
        r <= ends@.len(),
        forall|i: int| 0 <= i < r ==> #[trigger] ends@[i] <= t,
        forall|i: int| r <= i < ends@.len() ==> #[trigger] ends@[i] > t,
{
    let mut low: usize = 0;
    let mut high: usize = ends.len();
    while low < high
        invariant
            low <= high <= ends@.len(),
            forall|i: int, j: int| 0 <= i <= j < ends@.len() ==> ends@[i] <= ends@[j],
            forall|i: int| 0 <= i < low ==> #[trigger] ends@[i] <= t,
            forall|i: int| high <= i < ends@.len() ==> #[trigger] ends@[i] > t,
        decreases high - low,
    {
        let mid = low + (high - low) / 2;
        if ends[mid] <= t {
            low = mid + 1;
        } else {
            high = mid;
        }
    }
    low
}

/// An animation that is playing.
pub struct Animation {
    pub frames: Vec<GifFrame>,
    /// The time at which each frame ends.
    pub cumulative_ms: Vec<u64>,
    pub total_ms: u64,
    /// The frame that is shown.
    pub current: usize,
}

impl Animation {
    pub open spec fn wf(self) -> bool {
        &&& self.frames@.len() > 0
        &&& self.total_ms == time_after(self.frames@, self.frames@.len() as int)
        &&& self.total_ms > 0
        &&& self.cumulative_ms@.len() == self.frames@.len()
        &&& forall|i: int|
            0 <= i < self.frames@.len() ==> #[trigger] self.cumulative_ms@[i] == time_after(
                self.frames@,
                i + 1,
            )
        &&& self.current < self.frames@.len()
    }

    /// The animation at its first frame.
    pub fn new(frames: Vec<GifFrame>) -> (r: Animation)
        requires
            frames@.len() > 0,
            0 < time_after(frames@, frames@.len() as int) <= u64::MAX,
        ensures
            r.wf(),
            r.frames@ == frames@,
            r.current == 0,
    {
        let cumulative_ms = cumulative_delays(frames.as_slice());
        let total_ms = cumulative_ms[frames.len() - 1];
        Animation { frames, cumulative_ms, total_ms, current: 0 }
    }

    /// Goes to the frame that stands `elapsed_ms` after the start, round and
    /// round. Says whether that is another frame than before.
    pub fn advance(&mut self, elapsed_ms: u64) -> (changed: bool)
        requires
            old(self).wf(),
        ensures
            final(self).wf(),
            final(self).frames == old(self).frames,
            final(self).total_ms == old(self).total_ms,
            stands_at(
                old(self).frames@,
                (elapsed_ms % old(self).total_ms) as int,
                final(self).current as int,
            ),
            changed == (final(self).current != old(self).current),
    {
        let t = elapsed_ms % self.total_ms;
        proof {
            assert forall|i: int, j: int| 0 <= i <= j < self.cumulative_ms@.len() implies
                self.cumulative_ms@[i] <= self.cumulative_ms@[j] by {
                time_after_grows(self.frames@, i + 1, j + 1);
            }
        }
        let ended = ended_by(&self.cumulative_ms, t);
        let last = self.frames.len() - 1;
        assert(self.cumulative_ms@[last as int] == self.total_ms);
        assert(ended <= last);
        proof {
            if ended > 0 {
                assert(self.cumulative_ms@[ended - 1] <= t);
            }
            assert(self.cumulative_ms@[ended as int] > t);
        }
        let changed = ended != self.current;
        self.current = ended;
        changed
    }
}

/// The same frame stands again after the whole animation has played.
pub proof fn animation_repeats(frames: Seq<GifFrame>, elapsed: nat, i: int)
    requires
        time_after(frames, frames.len() as int) > 0,
    ensures
        stands_at(frames, (elapsed % time_after(frames, frames.len() as int)) as int, i)
            <==> stands_at(
            frames,
            ((elapsed + time_after(frames, frames.len() as int)) % time_after(
                frames,
                frames.len() as int,
            )) as int,
            i,
        ),
{
    let total = time_after(frames, frames.len() as int) as int;
    vstd::arithmetic::div_mod::lemma_mod_add_multiples_vanish(elapsed as int, total);
    assert((total + elapsed) % total == elapsed as int % total);
}

/// At every time some frame stands.
pub proof fn some_frame_stands(frames: Seq<GifFrame>, t: int)
    requires
        0 <= t < time_after(frames, frames.len() as int),
    ensures
        exists|i: int| stands_at(frames, t, i),
{
    some_frame_among(frames, t, frames.len() as int);
}

proof fn some_frame_among(frames: Seq<GifFrame>, t: int, n: int)
    requires
        0 <= n <= frames.len(),
        0 <= t < time_after(frames, n),
    ensures
        exists|i: int| stands_at(frames, t, i),
    decreases n,
{
    if n > 0 {
        if time_after(frames, n - 1) <= t {
            assert(stands_at(frames, t, n - 1));
        } else {
            some_frame_among(frames, t, n - 1);
        }
    }
}


/// A frame stands as long as its file says, to the millisecond below, but for
/// 20 milliseconds at least, and for a tenth of a second where the file's
/// fraction is none.
pub proof fn frame_stands_as_the_file_says(numer: u32, denom: u32)
    ensures
        frame_delay(numer, denom) >= 20,
        denom == 0 ==> frame_delay(numer, denom) == 100,
        denom > 0 && numer >= 20 * denom ==> frame_delay(numer, denom) * denom <= numer < (
        frame_delay(numer, denom) + 1) * denom,
        denom > 0 && numer < 20 * denom ==> frame_delay(numer, denom) == 20,
{
    if denom > 0 {
        let q = numer / denom;
        assert(q * denom <= numer < (q + 1) * denom) by (nonlinear_arith)
            requires
                q == numer / denom,
                denom > 0,
        ;
        if q < 20 {
            assert(numer < 20 * denom) by (nonlinear_arith)
                requires
                    numer < (q + 1) * denom,
                    q < 20,
                    denom > 0,
            ;
        } else {
            assert(numer >= 20 * denom) by (nonlinear_arith)
                requires
                    q * denom <= numer,
                    q >= 20,
                    denom > 0,
            ;
        }
    }
}

/// An animation has every frame of its file, in their order and with their
/// pixels, and the size of the first; a file without frames is none.
pub proof fn animation_has_every_frame(
    path: Seq<char>,
    frames: Seq<(Seq<u8>, (u32, u32), (u32, u32))>,
    i: int,
)
    requires
        0 <= i < frames.len(),
    ensures
        decoded_gif(path, None, Ok(frames)) matches Ok((shown, w, h)) && {
            &&& shown.len() == frames.len()
            &&& shown[i].0 == frames[i].0
            &&& shown[i].1 == frame_delay(frames[i].2.0, frames[i].2.1)
            &&& (w, h) == frames[0].1
        },
        decoded_gif(path, None, Ok(seq![])) is Err,
        forall|e: Seq<char>| (#[trigger] decoded_gif(path, Some(e), Ok(frames))) is Err,
{
}


/// What is said of a file that is no animation: what could not be read, where
/// the file lies, and why.
pub proof fn broken_animations_are_named(
    path: Seq<char>,
    why: Seq<char>,
    frames: Seq<(Seq<u8>, (u32, u32), (u32, u32))>,
)
    ensures
        decoded_gif(path, Some(why), Ok(frames)) matches Err(said) && said
            == "failed to decode gif "@ + crate::text::quoted(path) + ": "@ + why,
        decoded_gif(path, None, Err(why)) matches Err(said) && said
            == "failed to decode gif frames "@ + crate::text::quoted(path) + ": "@ + why,
        decoded_gif(path, None, Ok(seq![])) matches Err(said) && said == "gif "@
            + crate::text::quoted(path) + " has no frames"@,
{
}

} // verus!
