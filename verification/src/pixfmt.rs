//! The pixels of an X server's root visual, and frames converted to them.

use vstd::prelude::*;

use crate::bytes::{push_be4, push_le4};
use crate::text::{decimal_chars, push_str, string_of};

verus! {

/// How the root visual lays a pixel out: by how many bits each channel is
/// shifted in a word, and in which order the word's bytes come.
#[derive(Debug, Clone, Copy)]
pub struct NativeFormat {
    pub depth: u8,
    pub msb_first: bool,
    pub red_shift: u32,
    pub green_shift: u32,
    pub blue_shift: u32,
}

impl NativeFormat {
    /// Each channel lies inside the word.
    pub open spec fn wf(self) -> bool {
        self.red_shift <= 24 && self.green_shift <= 24 && self.blue_shift <= 24
    }

    /// The channels do not overlap.
    pub open spec fn disjoint(self) -> bool {
        &&& apart(self.red_shift, self.green_shift)
        &&& apart(self.green_shift, self.blue_shift)
        &&& apart(self.blue_shift, self.red_shift)
    }
}

/// Two channels of eight bits do not overlap.
pub open spec fn apart(a: u32, b: u32) -> bool {
    a + 8 <= b || b + 8 <= a
}

/// A visual of the screen: its id and the masks of its channels.
#[derive(Debug, Clone, Copy)]
pub struct VisualInfo {
    pub id: u32,
    pub red_mask: u32,
    pub green_mask: u32,
    pub blue_mask: u32,
}

/// How pixmaps of a depth are stored.
#[derive(Debug, Clone, Copy)]
pub struct PixmapFormat {
    pub depth: u8,
    pub bits_per_pixel: u8,
}

/// What a server says of its screen.
pub struct ScreenInfo {
    pub root_visual: u32,
    pub root_depth: u8,
    /// The visuals of all depths, in the server's order.
    pub visuals: Vec<VisualInfo>,
    pub formats: Vec<PixmapFormat>,
    pub msb_first: bool,
}

/// The mask is that of a channel of eight bits, shifted by `n`.
pub open spec fn is_channel(mask: u32, n: u32) -> bool {
    n <= 24 && mask == 0xffu32 << n
}

/// A mask is that of a channel by one shift at most.
pub proof fn one_shift(mask: u32, a: u32, b: u32)
    requires
        is_channel(mask, a),
        is_channel(mask, b),
    ensures
        a == b,
{
    assert(a == b) by (bit_vector)
        requires
            a <= 24,
            b <= 24,
            0xffu32 << a == 0xffu32 << b,
    ;
}

/// The shift of a channel of eight bits without gaps; nothing for any other
/// mask.
pub fn mask_shift(mask: u32) -> (r: Option<u32>)
    ensures
        match r {
            Some(n) => is_channel(mask, n),
            None => forall|n: u32| !is_channel(mask, n),
        },
{
    let mut n: u32 = 0;
    while n <= 24
        invariant
            n <= 25,
            forall|k: u32| k < n ==> !is_channel(mask, k),
        decreases 25 - n,
    {
        if mask == 0xffu32 << n {
            return Some(n);
        }
        n += 1;
    }
    None
}

/// The first visual with the id.
pub open spec fn visual_at(visuals: Seq<VisualInfo>, id: u32, i: int) -> bool {
    0 <= i < visuals.len() && visuals[i].id == id && forall|j: int|
        0 <= j < i ==> (#[trigger] visuals[j]).id != id
}

/// The first format for the depth.
pub open spec fn format_at(formats: Seq<PixmapFormat>, depth: u8, i: int) -> bool {
    0 <= i < formats.len() && formats[i].depth == depth && forall|j: int|
        0 <= j < i ==> (#[trigger] formats[j]).depth != depth
}

pub open spec fn no_format_message(depth: u8) -> Seq<char> {
    "no pixmap format advertised for depth "@ + crate::text::decimal(depth as nat)
}

pub open spec fn bits_message(bits: u8) -> Seq<char> {
    "unsupported bits_per_pixel "@ + crate::text::decimal(bits as nat)
        + " for the root visual (only 24/32 are supported)"@
}

/// What the format of a screen's root visual is, or why it is not supported.
pub open spec fn detects(screen: ScreenInfo, r: Result<NativeFormat, String>) -> bool {
    if !(exists|i: int| visual_at(screen.visuals@, screen.root_visual, i)) {
        r matches Err(e) && e@ == "root visual not found in Setup's allowed_depths"@
    } else if !(exists|i: int| format_at(screen.formats@, screen.root_depth, i)) {
        r matches Err(e) && e@ == no_format_message(screen.root_depth)
    } else {
        let visual = screen.visuals@[choose|i: int|
            visual_at(screen.visuals@, screen.root_visual, i)];
        let bits = screen.formats@[choose|i: int|
            format_at(screen.formats@, screen.root_depth, i)].bits_per_pixel;
        if bits != 24 && bits != 32 {
            r matches Err(e) && e@ == bits_message(bits)
        } else if forall|n: u32| !is_channel(visual.red_mask, n) {
            r matches Err(e) && e@ == "red_mask is not a contiguous 8-bit field"@
        } else if forall|n: u32| !is_channel(visual.green_mask, n) {
            r matches Err(e) && e@ == "green_mask is not a contiguous 8-bit field"@
        } else if forall|n: u32| !is_channel(visual.blue_mask, n) {
            r matches Err(e) && e@ == "blue_mask is not a contiguous 8-bit field"@
        } else {
            r matches Ok(f) && {
                &&& f.depth == screen.root_depth
                &&& f.msb_first == screen.msb_first
                &&& is_channel(visual.red_mask, f.red_shift)
                &&& is_channel(visual.green_mask, f.green_shift)
                &&& is_channel(visual.blue_mask, f.blue_shift)
            }
        }
    }
}

fn find_visual(visuals: &Vec<VisualInfo>, id: u32) -> (r: Option<VisualInfo>)
    ensures
        match r {
            Some(v) => exists|i: int| visual_at(visuals@, id, i) && visuals@[i] == v,
            None => !(exists|i: int| visual_at(visuals@, id, i)),
        },
{
    let mut i: usize = 0;
    while i < visuals.len()
        invariant
            i <= visuals@.len(),
            forall|j: int| 0 <= j < i ==> (#[trigger] visuals@[j]).id != id,
        decreases visuals.len() - i,
    {
        if visuals[i].id == id {
            assert(visual_at(visuals@, id, i as int));
            return Some(visuals[i]);
        }
        i += 1;
    }
    None
}

fn find_format(formats: &Vec<PixmapFormat>, depth: u8) -> (r: Option<u8>)
    ensures
        match r {
            Some(b) => exists|i: int|
                format_at(formats@, depth, i) && formats@[i].bits_per_pixel == b,
            None => !(exists|i: int| format_at(formats@, depth, i)),
        },
{
    let mut i: usize = 0;
    while i < formats.len()
        invariant
            i <= formats@.len(),
            forall|j: int| 0 <= j < i ==> (#[trigger] formats@[j]).depth != depth,
        decreases formats.len() - i,
    {
        if formats[i].depth == depth {
            assert(format_at(formats@, depth, i as int));
            return Some(formats[i].bits_per_pixel);
        }
        i += 1;
    }
    None
}

proof fn one_first_visual(visuals: Seq<VisualInfo>, id: u32, a: int, b: int)
    requires
        visual_at(visuals, id, a),
        visual_at(visuals, id, b),
    ensures
        a == b,
{
    if a < b {
        assert(visuals[a].id != id);
    } else if b < a {
        assert(visuals[b].id != id);
    }
}

proof fn one_first_format(formats: Seq<PixmapFormat>, depth: u8, a: int, b: int)
    requires
        format_at(formats, depth, a),
        format_at(formats, depth, b),
    ensures
        a == b,
{
    if a < b {
        assert(formats[a].depth != depth);
    } else if b < a {
        assert(formats[b].depth != depth);
    }
}

/// The format of a screen's root visual. Only channels of eight bits in pixels
/// of 24 or 32 are supported.
pub fn detect(screen: &ScreenInfo) -> (r: Result<NativeFormat, String>)
    ensures
        detects(*screen, r),
        r matches Ok(f) ==> f.wf(),
{
    let visual = match find_visual(&screen.visuals, screen.root_visual) {
        Some(v) => v,
        None => {
            return Err("root visual not found in Setup's allowed_depths".to_string());
        },
    };
    let bits = match find_format(&screen.formats, screen.root_depth) {
        Some(b) => b,
        None => {
            let mut m: Vec<char> = Vec::new();
            push_str(&mut m, "no pixmap format advertised for depth ");
            let mut number = decimal_chars(screen.root_depth as u64);
            m.append(&mut number);
            return Err(string_of(m.as_slice()));
        },
    };
    proof {
        let i = choose|i: int|
            visual_at(screen.visuals@, screen.root_visual, i) && screen.visuals@[i] == visual;
        let c = choose|i: int| visual_at(screen.visuals@, screen.root_visual, i);
        one_first_visual(screen.visuals@, screen.root_visual, i, c);
        let j = choose|i: int|
            format_at(screen.formats@, screen.root_depth, i) && screen.formats@[i].bits_per_pixel
                == bits;
        let d = choose|i: int| format_at(screen.formats@, screen.root_depth, i);
        one_first_format(screen.formats@, screen.root_depth, j, d);
    }
    if bits != 24 && bits != 32 {
        let mut m: Vec<char> = Vec::new();
        push_str(&mut m, "unsupported bits_per_pixel ");
        let mut number = decimal_chars(bits as u64);
        m.append(&mut number);
        push_str(&mut m, " for the root visual (only 24/32 are supported)");
        assert(m@ =~= bits_message(bits));
        return Err(string_of(m.as_slice()));
    }
    let red_shift = match mask_shift(visual.red_mask) {
        Some(n) => n,
        None => {
            return Err("red_mask is not a contiguous 8-bit field".to_string());
        },
    };
    let green_shift = match mask_shift(visual.green_mask) {
        Some(n) => n,
        None => {
            return Err("green_mask is not a contiguous 8-bit field".to_string());
        },
    };
    let blue_shift = match mask_shift(visual.blue_mask) {
        Some(n) => n,
        None => {
            return Err("blue_mask is not a contiguous 8-bit field".to_string());
        },
    };
    Ok(
        NativeFormat {
            depth: screen.root_depth,
            msb_first: screen.msb_first,
            red_shift,
            green_shift,
            blue_shift,
        },
    )
}

/// A pixel as a word of the native format.
pub open spec fn native_word(fmt: NativeFormat, r: u8, g: u8, b: u8) -> u32 {
    ((r as u32) << fmt.red_shift) | ((g as u32) << fmt.green_shift) | ((b as u32)
        << fmt.blue_shift)
}

/// The bytes of pixel `i` of a frame in the native format.
pub open spec fn native_pixel(fmt: NativeFormat, rgba: Seq<u8>, i: int) -> Seq<u8> {
    let word = native_word(fmt, rgba[4 * i], rgba[4 * i + 1], rgba[4 * i + 2]);
    if fmt.msb_first {
        crate::bytes::be4(word)
    } else {
        crate::bytes::le4(word)
    }
}

/// The first `n` pixels of a frame in the native format.
pub open spec fn native_pixels(fmt: NativeFormat, rgba: Seq<u8>, n: int) -> Seq<u8>
    decreases n,
{
    if n <= 0 {
        seq![]
    } else {
        native_pixels(fmt, rgba, n - 1) + native_pixel(fmt, rgba, n - 1)
    }
}

/// The native pixels take as many bytes as the frame's.
pub proof fn native_pixels_len(fmt: NativeFormat, rgba: Seq<u8>, n: int)
    requires
        0 <= n,
    ensures
        native_pixels(fmt, rgba, n).len() == 4 * n,
    decreases n,
{
    if n > 0 {
        native_pixels_len(fmt, rgba, n - 1);
    }
}

/// A frame of pixels of four bytes each, in the native format. Bytes that make
/// no whole pixel at the end are passed over.
pub fn convert_rgba(fmt: &NativeFormat, rgba: &[u8]) -> (r: Vec<u8>)
    requires
        fmt.wf(),
    ensures
        r@ == native_pixels(*fmt, rgba@, rgba@.len() as int / 4),
        r@.len() == 4 * (rgba@.len() as int / 4),
{
    let mut out: Vec<u8> = Vec::new();
    let total: usize = rgba.len();
    let count: usize = total / 4;
    let mut i: usize = 0;
    while i < count
        invariant
            fmt.wf(),
            total == rgba@.len(),
            count == total / 4,
            i <= count,
            out@ == native_pixels(*fmt, rgba@, i as int),
        decreases count - i,
    {
        let r = rgba[4 * i] as u32;
        let g = rgba[4 * i + 1] as u32;
        let b = rgba[4 * i + 2] as u32;
        let word = (r << fmt.red_shift) | (g << fmt.green_shift) | (b << fmt.blue_shift);
        if fmt.msb_first {
            push_be4(&mut out, word);
        } else {
            push_le4(&mut out, word);
        }
        i += 1;
    }
    proof {
        native_pixels_len(*fmt, rgba@, count as int);
    }
    out
}

/// The converted frame holds each pixel in its place.
pub proof fn native_pixel_in_place(fmt: NativeFormat, rgba: Seq<u8>, n: int, i: int)
    requires
        0 <= i < n,
    ensures
        native_pixels(fmt, rgba, n).subrange(4 * i, 4 * i + 4) == native_pixel(fmt, rgba, i),
    decreases n,
{
    native_pixels_len(fmt, rgba, n);
    native_pixels_len(fmt, rgba, n - 1);
    let all = native_pixels(fmt, rgba, n);
    let before = native_pixels(fmt, rgba, n - 1);
    if i == n - 1 {
        assert(all.subrange(4 * i, 4 * i + 4) =~= native_pixel(fmt, rgba, i));
    } else {
        native_pixel_in_place(fmt, rgba, n - 1, i);
        assert(all.subrange(4 * i, 4 * i + 4) =~= before.subrange(4 * i, 4 * i + 4));
    }
}

/// The channels of a converted pixel read back where the server's masks say.
pub proof fn native_channels_read_back(fmt: NativeFormat, r: u8, g: u8, b: u8)
    requires
        fmt.wf(),
        fmt.disjoint(),
    ensures
        (native_word(fmt, r, g, b) >> fmt.red_shift) & 0xff == r,
        (native_word(fmt, r, g, b) >> fmt.green_shift) & 0xff == g,
        (native_word(fmt, r, g, b) >> fmt.blue_shift) & 0xff == b,
{
    let rs = fmt.red_shift;
    let gs = fmt.green_shift;
    let bs = fmt.blue_shift;
    let x = r as u32;
    let y = g as u32;
    let z = b as u32;
    assert((((x << rs) | (y << gs) | (z << bs)) >> rs) & 0xff == x && (((x << rs) | (y << gs) | (z
        << bs)) >> gs) & 0xff == y && (((x << rs) | (y << gs) | (z << bs)) >> bs) & 0xff == z)
        by (bit_vector)
        requires
            x < 256,
            y < 256,
            z < 256,
            rs <= 24,
            gs <= 24,
            bs <= 24,
            rs + 8 <= gs || gs + 8 <= rs,
            gs + 8 <= bs || bs + 8 <= gs,
            bs + 8 <= rs || rs + 8 <= bs,
    ;
}


/// A screen is supported just when its root visual is there, with channels of
/// eight bits each, in pixels of 24 or 32 bits. A pixel then has each channel
/// where the visual's own mask says.
pub proof fn pixels_are_where_the_masks_say(
    screen: ScreenInfo,
    result: Result<NativeFormat, String>,
    i: int,
    k: int,
    r: u8,
    g: u8,
    b: u8,
)
    requires
        detects(screen, result),
        0 <= i < screen.visuals@.len(),
        screen.visuals@[i].id == screen.root_visual,
        forall|j: int| 0 <= j < i ==> (#[trigger] screen.visuals@[j]).id != screen.root_visual,
        0 <= k < screen.formats@.len(),
        screen.formats@[k].depth == screen.root_depth,
        forall|j: int| 0 <= j < k ==> (#[trigger] screen.formats@[j]).depth != screen.root_depth,
    ensures
        ({
            let v = screen.visuals@[i];
            let bits = screen.formats@[k].bits_per_pixel;
            let channels = (exists|n: u32| is_channel(v.red_mask, n)) && (exists|n: u32|
                is_channel(v.green_mask, n)) && (exists|n: u32| is_channel(v.blue_mask, n));
            &&& result is Ok <==> (bits == 24 || bits == 32) && channels
            &&& result matches Ok(f) ==> {
                &&& f.wf()
                &&& f.depth == screen.root_depth && f.msb_first == screen.msb_first
                &&& v.red_mask & v.green_mask == 0 && v.red_mask & v.blue_mask == 0 && v.green_mask
                    & v.blue_mask == 0 ==> {
                    let word = native_word(f, r, g, b);
                    &&& (word & v.red_mask) == (r as u32) << f.red_shift
                    &&& (word & v.green_mask) == (g as u32) << f.green_shift
                    &&& (word & v.blue_mask) == (b as u32) << f.blue_shift
                }
            }
        }),
{
    assert(visual_at(screen.visuals@, screen.root_visual, i));
    assert(format_at(screen.formats@, screen.root_depth, k));
    let a = choose|n: int| visual_at(screen.visuals@, screen.root_visual, n);
    let c = choose|n: int| format_at(screen.formats@, screen.root_depth, n);
    one_first_visual(screen.visuals@, screen.root_visual, a, i);
    one_first_format(screen.formats@, screen.root_depth, c, k);
    let v = screen.visuals@[i];
    if result is Ok {
        let f = result->Ok_0;
        let (rs, gs, bs) = (f.red_shift, f.green_shift, f.blue_shift);
        let (rm, gm, bm) = (v.red_mask, v.green_mask, v.blue_mask);
        assert(is_channel(rm, rs) && is_channel(gm, gs) && is_channel(bm, bs));
        if rm & gm == 0 && rm & bm == 0 && gm & bm == 0 {
            masked_channel(rs, gs, bs, r, g, b);
            let word = native_word(f, r, g, b);
            let other = ((g as u32) << gs) | ((r as u32) << rs) | ((b as u32) << bs);
            let third = ((b as u32) << bs) | ((r as u32) << rs) | ((g as u32) << gs);
            let (x, y, z) = ((r as u32) << rs, (g as u32) << gs, (b as u32) << bs);
            assert(x | y | z == y | x | z && x | y | z == z | x | y) by (bit_vector);
            assert(rm & gm == gm & rm && rm & bm == bm & rm && gm & bm == bm & gm) by (bit_vector);
            masked_channel(gs, rs, bs, g, r, b);
            masked_channel(bs, rs, gs, b, r, g);
        }
    }
}

/// A channel that no other overlaps is all that its mask lets through.
proof fn masked_channel(a: u32, b: u32, c: u32, x: u8, y: u8, z: u8)
    requires
        a <= 24,
        b <= 24,
        c <= 24,
        (0xffu32 << a) & (0xffu32 << b) == 0,
        (0xffu32 << a) & (0xffu32 << c) == 0,
    ensures
        ((((x as u32) << a) | ((y as u32) << b) | ((z as u32) << c)) & (0xffu32 << a)) == (x as u32)
            << a,
{
    assert(((((x as u32) << a) | ((y as u32) << b) | ((z as u32) << c)) & (0xffu32 << a)) == (
    x as u32) << a) by (bit_vector)
        requires
            a <= 24,
            b <= 24,
            c <= 24,
            (0xffu32 << a) & (0xffu32 << b) == 0,
            (0xffu32 << a) & (0xffu32 << c) == 0,
    ;
}

/// The bytes of a pixel come in the server's order: the one that counts most
/// first where the server says so, and last else.
pub proof fn bytes_come_in_the_servers_order(fmt: NativeFormat, rgba: Seq<u8>, i: int)
    ensures
        ({
            let p = native_pixel(fmt, rgba, i);
            let word = native_word(fmt, rgba[4 * i], rgba[4 * i + 1], rgba[4 * i + 2]);
            &&& p.len() == 4
            &&& fmt.msb_first ==> word == 16777216 * p[0] + 65536 * p[1] + 256 * p[2] + p[3]
            &&& !fmt.msb_first ==> word == 16777216 * p[3] + 65536 * p[2] + 256 * p[1] + p[0]
        }),
{
    let word = native_word(fmt, rgba[4 * i], rgba[4 * i + 1], rgba[4 * i + 2]);
    crate::bytes::bytes_make_the_number(word);
}


/// A channel has eight bits, next to each other: its mask is 255 times the value
/// of its lowest bit, which is the bit that its shift names.
pub proof fn channels_have_eight_bits(mask: u32, n: u32)
    requires
        is_channel(mask, n),
    ensures
        n <= 24,
        mask >> n == 255,
        forall|bit: u32| bit < n ==> #[trigger] (mask >> bit) % 2 == 0,
        is_channel(255, 0) && is_channel(0xff00, 8) && is_channel(0xff_0000, 16) && is_channel(
            0xff00_0000,
            24,
        ),
{
    assert((0xffu32 << n) >> n == 255) by (bit_vector)
        requires
            n <= 24,
    ;
    assert forall|bit: u32| bit < n implies #[trigger] (mask >> bit) % 2 == 0 by {
        assert(((0xffu32 << n) >> bit) % 2 == 0) by (bit_vector)
            requires
                n <= 24,
                bit < n,
        ;
    }
    assert(0xffu32 << 0u32 == 255 && 0xffu32 << 8u32 == 0xff00 && 0xffu32 << 16u32 == 0xff_0000
        && 0xffu32 << 24u32 == 0xff00_0000) by (bit_vector);
}


/// What is said of a screen that is not supported names its depth or its bits.
pub proof fn unsupported_screens_are_named(depth: u8, bits: u8)
    ensures
        no_format_message(depth) == "no pixmap format advertised for depth "@
            + crate::text::decimal(depth as nat),
        bits_message(bits) == "unsupported bits_per_pixel "@ + crate::text::decimal(bits as nat)
            + " for the root visual (only 24/32 are supported)"@,
{
}

} // verus!
