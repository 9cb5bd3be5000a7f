//! The monitors that an X server drives.

use vstd::prelude::*;

use crate::text_source::lossy_text_of;

verus! {

/// A monitor: its name, and where on the screen it shows.
pub struct OutputGeometry {
    pub name: String,
    pub x: i16,
    pub y: i16,
    pub width: u16,
    pub height: u16,
}

/// What a server says of an output.
pub struct OutputInfo {
    pub connected: bool,
    /// What drives it; 0 where nothing does.
    pub crtc: u32,
    pub name: Vec<u8>,
}

/// What a server says of what drives an output.
#[derive(Debug, Clone, Copy)]
pub struct CrtcInfo {
    pub x: i16,
    pub y: i16,
    pub width: u16,
    pub height: u16,
}

/// What drives an output that is connected.
pub open spec fn driver_of(info: Option<OutputInfo>) -> Option<u32> {
    match info {
        Some(i) => if i.connected && i.crtc != 0 {
            Some(i.crtc)
        } else {
            None
        },
        None => None,
    }
}

/// What to ask the server about next to learn where an output shows, if there
/// is anything to ask. `info` is nothing where the server did not answer.
pub fn wanted_crtc(info: &Option<OutputInfo>) -> (r: Option<u32>)
    ensures
        r == driver_of(*info),
{
    match info {
        Some(i) => if i.connected && i.crtc != 0 {
            Some(i.crtc)
        } else {
            None
        },
        None => None,
    }
}

/// A monitor's name and geometry.
pub struct OutputModel {
    pub name: Seq<char>,
    pub x: i16,
    pub y: i16,
    pub width: u16,
    pub height: u16,
}

impl View for OutputGeometry {
    type V = OutputModel;

    open spec fn view(&self) -> OutputModel {
        OutputModel {
            name: self.name@,
            x: self.x,
            y: self.y,
            width: self.width,
            height: self.height,
        }
    }
}

pub open spec fn outputs_view(outputs: Seq<OutputGeometry>) -> Seq<OutputModel> {
    outputs.map_values(|o: OutputGeometry| o@)
}

/// The monitor that an output is: one that is connected, and driven at a size
/// that is not nothing.
pub open spec fn output_of(info: Option<OutputInfo>, crtc: Option<CrtcInfo>) -> Option<
    OutputModel,
> {
    if driver_of(info) is Some && crtc is Some && crtc->0.width != 0 && crtc->0.height != 0 {
        Some(
            OutputModel {
                name: crate::text_source::lossy_text(info->0.name@),
                x: crtc->0.x,
                y: crtc->0.y,
                width: crtc->0.width,
                height: crtc->0.height,
            },
        )
    } else {
        None
    }
}

/// The monitors among the server's answers, in their order.
pub open spec fn outputs_of(replies: Seq<(Option<OutputInfo>, Option<CrtcInfo>)>) -> Seq<
    OutputModel,
>
    decreases replies.len(),
{
    if replies.len() == 0 {
        seq![]
    } else {
        match output_of(replies.last().0, replies.last().1) {
            Some(o) => outputs_of(replies.drop_last()).push(o),
            None => outputs_of(replies.drop_last()),
        }
    }
}

/// The monitors that show something. Each output comes with what the server
/// said of it and of what drives it; an answer that failed leaves just that
/// output out.
pub fn active_outputs(replies: &Vec<(Option<OutputInfo>, Option<CrtcInfo>)>) -> (r: Vec<
    OutputGeometry,
>)
    ensures
        outputs_view(r@) == outputs_of(replies@),
{
    let mut r: Vec<OutputGeometry> = Vec::new();
    let mut i: usize = 0;
    assert(replies@.take(0) =~= seq![]);
    assert(outputs_view(r@) =~= seq![]);
    while i < replies.len()
        invariant
            i <= replies@.len(),
            outputs_view(r@) == outputs_of(replies@.take(i as int)),
        decreases replies.len() - i,
    {
        let ghost before = outputs_view(r@);
        let reply = &replies[i];
        assert(replies@.take(i as int + 1).drop_last() =~= replies@.take(i as int));
        assert(replies@.take(i as int + 1).last() == reply);
        match (&reply.0, &reply.1) {
            (Some(info), Some(crtc)) => {
                if info.connected && info.crtc != 0 && crtc.width != 0 && crtc.height != 0 {
                    let output = OutputGeometry {
                        name: lossy_text_of(info.name.as_slice()),
                        x: crtc.x,
                        y: crtc.y,
                        width: crtc.width,
                        height: crtc.height,
                    };
                    let ghost o = output@;
                    r.push(output);
                    assert(outputs_view(r@) =~= before.push(o));
                }
            },
            _ => {},
        }
        i += 1;
    }
    assert(replies@.take(replies@.len() as int) =~= replies@);
    r
}


// --- Laws ------------------------------------------------------------------

/// The answers tell of a monitor that shows something.
pub open spec fn tells_of_a_monitor(reply: (Option<OutputInfo>, Option<CrtcInfo>)) -> bool {
    let (info, crtc) = reply;
    &&& info matches Some(i) && i.connected && i.crtc != 0
    &&& crtc matches Some(c) && c.width != 0 && c.height != 0
}

/// Every monitor that shows something is listed, with its name, its place and
/// its size.
pub proof fn every_monitor_is_listed(
    replies: Seq<(Option<OutputInfo>, Option<CrtcInfo>)>,
    k: int,
) -> (at: int)
    requires
        0 <= k < replies.len(),
        tells_of_a_monitor(replies[k]),
    ensures
        0 <= at < outputs_of(replies).len(),
        ({
            let o = outputs_of(replies)[at];
            let (info, crtc) = replies[k];
            &&& o.name == crate::text_source::lossy_text(info->0.name@)
            &&& o.x == crtc->0.x && o.y == crtc->0.y
            &&& o.width == crtc->0.width && o.height == crtc->0.height
        }),
    decreases replies.len(),
{
    if k == replies.len() - 1 {
        outputs_of(replies).len() - 1
    } else {
        assert(replies.drop_last()[k] == replies[k]);
        every_monitor_is_listed(replies.drop_last(), k)
    }
}

/// Nothing is listed but monitors that show something, and each once: there are
/// just as many.
pub proof fn only_monitors_are_listed(
    replies: Seq<(Option<OutputInfo>, Option<CrtcInfo>)>,
)
    ensures
        outputs_of(replies).len() == replies.filter(
            |r: (Option<OutputInfo>, Option<CrtcInfo>)| tells_of_a_monitor(r),
        ).len(),
    decreases replies.len(),
{
    reveal(Seq::filter);
    if replies.len() > 0 {
        only_monitors_are_listed(replies.drop_last());
    }
}

/// What drives an output is asked for just where the output is connected and
/// something drives it.
pub proof fn drivers_are_asked_for(info: OutputInfo)
    ensures
        info.connected && info.crtc != 0 ==> driver_of(Some(info)) == Some(info.crtc),
        !info.connected || info.crtc == 0 ==> driver_of(Some(info)) is None,
        driver_of(None) is None,
{
}

} // verus!
