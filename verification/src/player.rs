//! A scene straight on the screen: the sizes of the outputs' surfaces, and the
//! time between two frames.

use vstd::prelude::*;

verus! {

/// The surface of an output.
#[derive(Debug, Clone, Copy)]
pub struct OutputSize {
    pub width: u32,
    pub height: u32,
    /// The surface can be drawn on.
    pub configured: bool,
}

/// A surface once the compositor has given a size, and whether it is drawn.
pub open spec fn configured(surface: OutputSize, width: u32, height: u32) -> (OutputSize, bool) {
    let w = if width == 0 {
        surface.width
    } else {
        width
    };
    let h = if height == 0 {
        surface.height
    } else {
        height
    };
    let draw = w != 0 && h != 0;
    (OutputSize { width: w, height: h, configured: surface.configured || draw }, draw)
}

impl OutputSize {
    /// A surface that has no size yet.
    pub fn new() -> (r: OutputSize)
        ensures
            r == (OutputSize { width: 0, height: 0, configured: false }),
    {
        OutputSize { width: 0, height: 0, configured: false }
    }

    /// Takes in the size that the compositor gives; zero leaves the choice,
    /// and the size stays. Says whether the surface is to be set up and drawn:
    /// not before both sizes are known.
    pub fn configure(&mut self, width: u32, height: u32) -> (draw: bool)
        ensures
            (*final(self), draw) == configured(*old(self), width, height),
    {
        if width != 0 {
            self.width = width;
        }
        if height != 0 {
            self.height = height;
        }
        let draw = self.width != 0 && self.height != 0;
        if draw {
            self.configured = true;
        }
        draw
    }
}

/// The time from one moment to another; none where it went backwards.
pub open spec fn since(last_ms: u64, now_ms: u64) -> int {
    if now_ms < last_ms {
        0
    } else {
        now_ms - last_ms
    }
}

/// Measures the time between two frames.
#[derive(Debug, Clone, Copy)]
pub struct FrameClock {
    pub last_ms: u64,
}

impl FrameClock {
    pub fn new() -> (r: FrameClock)
        ensures
            r.last_ms == 0,
    {
        FrameClock { last_ms: 0 }
    }

    /// The time since the frame before; none where the time went backwards.
    pub fn step(&mut self, elapsed_ms: u64) -> (r: u64)
        ensures
            final(self).last_ms == elapsed_ms,
            r == since(old(self).last_ms, elapsed_ms),
    {
        let r = elapsed_ms.saturating_sub(self.last_ms);
        self.last_ms = elapsed_ms;
        r
    }
}


// --- Laws ------------------------------------------------------------------

/// A surface takes the size that it is given, and keeps the one that it has
/// where the choice is left to it. It is drawn just when both sides are known,
/// and once set up it stays so.
pub proof fn surface_takes_the_size(surface: OutputSize, width: u32, height: u32)
    ensures
        ({
            let (after, draw) = configured(surface, width, height);
            &&& width > 0 ==> after.width == width
            &&& width == 0 ==> after.width == surface.width
            &&& height > 0 ==> after.height == height
            &&& height == 0 ==> after.height == surface.height
            &&& draw <==> after.width > 0 && after.height > 0
            &&& draw || surface.configured ==> after.configured
            &&& after.configured ==> draw || surface.configured
            &&& configured(after, 0, 0) == (
                OutputSize { configured: after.configured, ..after },
                draw,
            )
        }),
{
}

/// The times between the frames add up to the time that has gone by.
pub proof fn times_add_up(a: u64, b: u64, c: u64)
    requires
        a <= b <= c,
    ensures
        since(a, b) + since(b, c) == since(a, c),
        since(0, a) == a,
        since(b, a) == 0 || a == b,
{
}

} // verus!
