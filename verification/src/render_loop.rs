//! The render server's loop: when a monitor's scene is rendered, and what of
//! it goes out.

use vstd::prelude::*;

use crate::bmp::encode_bmp;
use crate::paths::file_name;
use crate::pictures::png_rgba_of;
use crate::project_format::{any_animated, Layer, Project, Single};
use crate::scene::LoadedLayer;
use crate::server_state::FrameFormat;
use crate::trust_store::is_trusted;

verus! {

/// The time between two ticks while no project is loaded.
pub const IDLE_TICK_MS: u64 = 33;

/// How often the power profile is looked at, and how long a tick takes while
/// power is saved.
pub const POWER_PROFILE_POLL_MS: u64 = 2000;

// --- Scenes ----------------------------------------------------------------

/// What the loop goes by of a scene.
#[derive(Debug, Clone, Copy)]
pub struct SceneInfo {
    pub canvas_width: u32,
    pub canvas_height: u32,
    /// The scene has to be rendered again and again.
    pub dynamic: bool,
    /// Something in the scene reacts to the cursor.
    pub needs_cursor: bool,
    /// Something in the scene moves all the time.
    pub continuous: bool,
    pub fps: u32,
}

/// A layer that moves all the time: it has an effect that goes by the time.
pub open spec fn moves_on(layer: crate::project_format::LayerModel) -> bool {
    exists|i: int|
        0 <= i < layer.effects().len() && (#[trigger] layer.effects()[i]).enabled
            && layer.effects()[i].kind.animated()
}

/// A layer that reacts to the cursor. One that is panned comes to rest when the
/// cursor does.
pub open spec fn follows_cursor(layer: crate::project_format::LayerModel) -> bool {
    layer is Xray || layer is Parallax || moves_on(layer)
}

/// The rate at which a project is rendered: one frame a second at least, sixty
/// at most.
pub open spec fn clamped_fps(fps: u32) -> u32 {
    if fps < 1 {
        1
    } else if fps > 60 {
        60
    } else {
        fps
    }
}

/// What the loop goes by of a project whose first layer has the given size.
pub open spec fn info_of(
    project: crate::project_format::ProjectModel,
    first_size: (u32, u32),
) -> SceneInfo {
    SceneInfo {
        canvas_width: first_size.0,
        canvas_height: first_size.1,
        dynamic: exists|i: int|
            0 <= i < project.layers.len() && (#[trigger] project.layers[i]).dynamic(),
        needs_cursor: exists|i: int|
            0 <= i < project.layers.len() && follows_cursor(#[trigger] project.layers[i]),
        continuous: exists|i: int|
            0 <= i < project.layers.len() && moves_on(#[trigger] project.layers[i]),
        fps: clamped_fps(project.fps),
    }
}

/// A project without layers cannot be rendered.
pub fn check_project(project: &Project) -> (r: Result<(), String>)
    ensures
        match r {
            Ok(()) => project@.layers.len() > 0,
            Err(e) => project@.layers.len() == 0 && e@ == "project has no layers"@,
        },
{
    assert(project@.layers.len() == project.layers@.len());
    if project.layers.len() == 0 {
        Err("project has no layers".to_string())
    } else {
        Ok(())
    }
}

/// What the loop goes by of a project and its scene. The layer at the bottom
/// sets the size.
pub fn scene_info(project: &Project, layers: &Vec<LoadedLayer>) -> (r: SceneInfo)
    requires
        layers@.len() > 0,
    ensures
        r == info_of(project@, crate::scene::canvas_size(layers@)),
{
    let size = layers[0].size();
    let ghost models = project@.layers;
    let mut dynamic = false;
    let mut needs_cursor = false;
    let mut continuous = false;
    let mut i: usize = 0;
    while i < project.layers.len()
        invariant
            models == project@.layers,
            models.len() == project.layers@.len(),
            i <= project.layers@.len(),
            dynamic == exists|k: int| 0 <= k < i && (#[trigger] models[k]).dynamic(),
            needs_cursor == exists|k: int| 0 <= k < i && follows_cursor(#[trigger] models[k]),
            continuous == exists|k: int| 0 <= k < i && moves_on(#[trigger] models[k]),
        decreases project.layers.len() - i,
    {
        let layer = &project.layers[i];
        assert(models[i as int] == layer@);
        let follows = match layer {
            Layer::Xray { .. } | Layer::Parallax { .. } => true,
            _ => false,
        };
        let moves = any_animated(layer.effects());
        if layer.is_dynamic() {
            dynamic = true;
        }
        if follows || moves {
            needs_cursor = true;
        }
        if moves {
            continuous = true;
        }
        i += 1;
    }
    let fps: u32 = if project.fps < 1 {
        1
    } else if project.fps > 60 {
        60
    } else {
        project.fps
    };
    SceneInfo {
        canvas_width: size.0,
        canvas_height: size.1,
        dynamic,
        needs_cursor,
        continuous,
        fps,
    }
}

/// The commands of the project in a directory may run.
pub open spec fn trusts(trusted: Set<Seq<char>>, project_dir: Seq<char>) -> bool {
    match crate::paths::file_name_of(project_dir) {
        Some(id) => trusted.contains(id),
        None => false,
    }
}

/// Whether the commands of the project in a directory may run: a project goes
/// by the directory's name.
pub fn project_trusted(trusted_file: &Option<String>, project_dir: &str) -> (r: bool)
    ensures
        r == trusts(
            crate::trust_store::trusted(crate::text::opt_view(*trusted_file)),
            project_dir@,
        ),
{
    match file_name(project_dir) {
        Some(id) => is_trusted(trusted_file, id.as_str()),
        None => false,
    }
}

/// Whether the profile is the one that saves power.
pub fn is_power_saver(profile: &str) -> (r: bool)
    ensures
        r == (profile@ == "power-saver"@),
{
    profile.to_string() == "power-saver".to_string()
}

// --- Ticks -----------------------------------------------------------------

/// A number that is not one.
pub open spec fn single_is_nan(a: Single) -> bool {
    a % 0x8000_0000 > 0x7f80_0000
}

/// Two numbers are equal, as numbers: zero with either sign is zero, and what
/// is not a number equals nothing.
pub open spec fn singles_equal(a: Single, b: Single) -> bool {
    !single_is_nan(a) && !single_is_nan(b) && (a == b || (a % 0x8000_0000 == 0 && b % 0x8000_0000
        == 0))
}

fn same_single(a: Single, b: Single) -> (r: bool)
    ensures
        r == singles_equal(a, b),
{
    let nan = a % 0x8000_0000 > 0x7f80_0000 || b % 0x8000_0000 > 0x7f80_0000;
    !nan && (a == b || (a % 0x8000_0000 == 0 && b % 0x8000_0000 == 0))
}

/// Two places of the cursor are the same.
pub open spec fn cursors_equal(
    a: Option<(Single, Single)>,
    b: Option<(Single, Single)>,
) -> bool {
    match (a, b) {
        (Some(p), Some(q)) => singles_equal(p.0, q.0) && singles_equal(p.1, q.1),
        (None, None) => true,
        _ => false,
    }
}

fn same_cursor(a: Option<(Single, Single)>, b: Option<(Single, Single)>) -> (r: bool)
    ensures
        r == cursors_equal(a, b),
{
    match (a, b) {
        (Some(p), Some(q)) => same_single(p.0, q.0) && same_single(p.1, q.1),
        (None, None) => true,
        _ => false,
    }
}

/// What the loop keeps for a monitor.
#[derive(Debug, Clone, Copy)]
pub struct RenderState {
    pub scene: Option<SceneInfo>,
    /// A scene was loaded and has not been rendered yet.
    pub needs_render: bool,
    /// Where the cursor was in the last frame.
    pub last_cursor: Option<(Single, Single)>,
    pub tick_ms: u64,
    /// When the next tick is due.
    pub next_ms: u64,
}

impl RenderState {
    pub open spec fn wf(self) -> bool {
        &&& self.scene matches Some(s) ==> 1 <= s.fps <= 60
        &&& self.tick_ms <= 1000
    }

    pub fn new() -> (r: RenderState)
        ensures
            r.wf(),
            r.scene is None,
            !r.needs_render,
            r.last_cursor is None,
            r.tick_ms == IDLE_TICK_MS,
            r.next_ms == 0,
    {
        RenderState {
            scene: None,
            needs_render: false,
            last_cursor: None,
            tick_ms: IDLE_TICK_MS,
            next_ms: 0,
        }
    }

    /// Takes in a scene that was loaded. Where loading failed, what is shown
    /// stays.
    pub fn loaded(&mut self, scene: Option<SceneInfo>)
        requires
            old(self).wf(),
            scene matches Some(s) ==> 1 <= s.fps <= 60,
        ensures
            final(self).wf(),
            *final(self) == old(self).with_scene(scene),
            scene matches Some(s) ==> final(self).tick_ms * s.fps <= 1000 < (final(self).tick_ms
                + 1) * s.fps,
    {
        match scene {
            Some(s) => {
                self.scene = scene;
                self.needs_render = true;
                self.last_cursor = None;
                self.tick_ms = 1000 / (s.fps as u64);
                proof {
                    let each = self.tick_ms as int;
                    let fps = s.fps as int;
                    assert(each * fps <= 1000 < (each + 1) * fps) by (nonlinear_arith)
                        requires
                            fps > 0,
                            each == 1000int / fps,
                    ;
                }
            },
            None => {},
        }
    }

    /// What is kept once a scene was loaded, or could not be.
    pub open spec fn with_scene(self, scene: Option<SceneInfo>) -> RenderState {
        match scene {
            Some(s) => RenderState {
                scene,
                needs_render: true,
                last_cursor: None,
                tick_ms: (1000int / s.fps as int) as u64,
                next_ms: self.next_ms,
            },
            None => self,
        }
    }

    /// The scene is moved on in this tick.
    pub open spec fn moves(self, power_saving: bool) -> bool {
        self.scene matches Some(s) && s.dynamic && !power_saving
    }

    /// Whether the scene is to be moved on in this tick: not while power is
    /// saved.
    pub fn advances(&self, power_saving: bool) -> (r: bool)
        ensures
            r == self.moves(power_saving),
    {
        match self.scene {
            Some(s) => s.dynamic && !power_saving,
            None => false,
        }
    }

    /// Where the scene sees the cursor in this tick.
    pub open spec fn seen_cursor(
        self,
        power_saving: bool,
        cursor: Option<(Single, Single)>,
    ) -> Option<(Single, Single)> {
        if self.scene is Some && self.scene->0.needs_cursor && !power_saving {
            cursor
        } else {
            None
        }
    }

    /// A frame is rendered in this tick.
    pub open spec fn renders(
        self,
        power_saving: bool,
        moved: bool,
        cursor: Option<(Single, Single)>,
    ) -> bool {
        &&& self.scene is Some
        &&& {
            ||| self.needs_render
            ||| self.moves(power_saving) && (moved || self.scene->0.continuous)
            ||| self.scene->0.needs_cursor && !power_saving && !cursors_equal(
                cursor,
                self.last_cursor,
            )
        }
    }

    /// The frame of this tick, if there is one, by where it shows the cursor.
    pub open spec fn frame(
        self,
        power_saving: bool,
        moved: bool,
        cursor: Option<(Single, Single)>,
    ) -> Option<Option<(Single, Single)>> {
        if self.renders(power_saving, moved, cursor) {
            Some(self.seen_cursor(power_saving, cursor))
        } else {
            None
        }
    }

    /// What is kept after this tick.
    pub open spec fn ticked(
        self,
        power_saving: bool,
        moved: bool,
        cursor: Option<(Single, Single)>,
    ) -> RenderState {
        if self.renders(power_saving, moved, cursor) {
            RenderState {
                needs_render: false,
                last_cursor: self.seen_cursor(power_saving, cursor),
                ..self
            }
        } else {
            self
        }
    }

    /// Decides whether this tick renders a frame. `moved` says whether moving
    /// the scene on changed something in it, `cursor` where the cursor is, if
    /// it is over the monitor. Gives where the frame shows the cursor.
    pub fn tick(
        &mut self,
        power_saving: bool,
        moved: bool,
        cursor: Option<(Single, Single)>,
    ) -> (r: Option<Option<(Single, Single)>>)
        requires
            old(self).wf(),
        ensures
            final(self).wf(),
            *final(self) == old(self).ticked(power_saving, moved, cursor),
            r == old(self).frame(power_saving, moved, cursor),
    {
        match self.scene {
            Some(s) => {
                let seen = if s.needs_cursor && !power_saving {
                    cursor
                } else {
                    None
                };
                let changed = s.dynamic && !power_saving && (moved || s.continuous);
                let cursor_changed = s.needs_cursor && !power_saving && !same_cursor(
                    seen,
                    self.last_cursor,
                );
                if self.needs_render || changed || cursor_changed {
                    self.last_cursor = seen;
                    self.needs_render = false;
                    Some(seen)
                } else {
                    None
                }
            },
            None => None,
        }
    }

    /// A tick is due.
    pub open spec fn is_due(self, now_ms: u64) -> bool {
        now_ms >= self.next_ms
    }

    /// What is kept once the next tick is set.
    pub open spec fn scheduled(self, began_ms: u64, power_saving: bool) -> RenderState {
        RenderState { next_ms: next_tick(self.tick_ms, began_ms, power_saving), ..self }
    }

    /// Whether a tick is due.
    pub fn due(&self, now_ms: u64) -> (r: bool)
        ensures
            r == self.is_due(now_ms),
    {
        now_ms >= self.next_ms
    }

    /// Sets when the next tick is due, by when this one began: a tick's work
    /// is part of its time.
    pub fn schedule(&mut self, began_ms: u64, power_saving: bool)
        requires
            old(self).wf(),
        ensures
            final(self).wf(),
            *final(self) == old(self).scheduled(began_ms, power_saving),
    {
        let interval = if power_saving {
            POWER_PROFILE_POLL_MS
        } else {
            self.tick_ms
        };
        self.next_ms = if began_ms > u64::MAX - interval {
            u64::MAX
        } else {
            began_ms + interval
        };
    }
}

/// When the tick after one is due.
pub open spec fn next_tick(tick_ms: u64, began_ms: u64, power_saving: bool) -> u64 {
    let next = began_ms + (if power_saving {
        POWER_PROFILE_POLL_MS
    } else {
        tick_ms
    });
    if next > u64::MAX {
        u64::MAX
    } else {
        next as u64
    }
}

/// How long it is until a monitor's next tick.
pub open spec fn time_left(state: RenderState, now_ms: u64) -> u64 {
    if state.next_ms <= now_ms {
        0
    } else {
        (state.next_ms - now_ms) as u64
    }
}

/// The loop sleeps for `r` milliseconds: until the first tick that is due, or
/// for the time of an idle one.
pub open spec fn sleeps(states: Seq<RenderState>, now_ms: u64, power_saving: bool, r: u64) -> bool {
    if states.len() == 0 {
        r == if power_saving {
            POWER_PROFILE_POLL_MS
        } else {
            IDLE_TICK_MS
        }
    } else {
        &&& exists|i: int| 0 <= i < states.len() && r == time_left(#[trigger] states[i], now_ms)
        &&& forall|i: int| 0 <= i < states.len() ==> r <= time_left(#[trigger] states[i], now_ms)
    }
}

/// How long to sleep until the next look at the monitors: until the first tick
/// that is due. Where there is no monitor it is an idle tick, or until the next
/// look at the power profile while power is saved.
pub fn sleep_ms(states: &Vec<RenderState>, now_ms: u64, power_saving: bool) -> (r: u64)
    ensures
        sleeps(states@, now_ms, power_saving, r),
{
    if states.len() == 0 {
        return if power_saving {
            POWER_PROFILE_POLL_MS
        } else {
            IDLE_TICK_MS
        };
    }
    let mut best: usize = 0;
    let mut i: usize = 1;
    while i < states.len()
        invariant
            best < i <= states@.len(),
            forall|k: int|
                0 <= k < i ==> time_left(states@[best as int], now_ms) <= time_left(
                    #[trigger] states@[k],
                    now_ms,
                ),
        decreases states.len() - i,
    {
        if states[i].next_ms < states[best].next_ms {
            best = i;
        }
        i += 1;
    }
    let next = states[best].next_ms;
    if next <= now_ms {
        0
    } else {
        next - now_ms
    }
}

// --- Frames ----------------------------------------------------------------

/// A frame as it goes out: packed where the scene stands still, as it is where
/// the next frame follows soon.
pub open spec fn encoded_frame(rgba: Seq<u8>, width: u32, height: u32, dynamic: bool) -> Result<
    (Seq<u8>, FrameFormat),
    Seq<char>,
> {
    if dynamic {
        Ok((crate::bmp::bmp_file(rgba, width, height), FrameFormat::Bmp))
    } else {
        match crate::pictures::png_rgba(rgba, width, height) {
            Ok(file) => Ok((file, FrameFormat::Png)),
            Err(e) => Err(e),
        }
    }
}

/// Writes a frame as it goes out. Packing loses nothing: the pixels can be read
/// from it again.
pub fn encode_frame(rgba: &[u8], width: u32, height: u32, dynamic: bool) -> (r: Result<
    (Vec<u8>, FrameFormat),
    String,
>)
    requires
        rgba@.len() == 4 * width * height,
        dynamic ==> crate::bmp::PIXELS_AT + 4 * width * height <= u32::MAX,
    ensures
        match r {
            Ok((bytes, format)) => encoded_frame(rgba@, width, height, dynamic) == Ok::<
                (Seq<u8>, FrameFormat),
                Seq<char>,
            >((bytes@, format)),
            Err(e) => encoded_frame(rgba@, width, height, dynamic) == Err::<
                (Seq<u8>, FrameFormat),
                Seq<char>,
            >(e@),
        },
        r matches Ok((bytes, _)) ==> !dynamic && crate::pictures::sure_size(width, height)
            ==> crate::pictures::frame_rgba(bytes@) == Ok::<(Seq<u8>, u32, u32), Seq<char>>(
            (rgba@, width, height),
        ),
{
    if dynamic {
        Ok((encode_bmp(rgba, width, height), FrameFormat::Bmp))
    } else {
        match png_rgba_of(rgba, width, height) {
            Ok(file) => Ok((file, FrameFormat::Png)),
            Err(e) => Err(e),
        }
    }
}

// --- Laws ------------------------------------------------------------------

/// What follows the cursor or moves all the time is rendered again and again.
pub proof fn moving_scenes_are_dynamic(
    project: crate::project_format::ProjectModel,
    size: (u32, u32),
)
    ensures
        info_of(project, size).needs_cursor ==> info_of(project, size).dynamic,
        info_of(project, size).continuous ==> info_of(project, size).needs_cursor,
{
    if info_of(project, size).needs_cursor {
        let i = choose|i: int|
            0 <= i < project.layers.len() && follows_cursor(#[trigger] project.layers[i]);
        assert(project.layers[i].dynamic());
    }
    if info_of(project, size).continuous {
        let i = choose|i: int|
            0 <= i < project.layers.len() && moves_on(#[trigger] project.layers[i]);
        assert(follows_cursor(project.layers[i]));
    }
}

/// While power is saved, the last frame stays: nothing but a scene that was
/// just loaded is rendered.
pub proof fn saving_power_freezes(
    state: RenderState,
    moved: bool,
    cursor: Option<(Single, Single)>,
)
    requires
        !state.needs_render,
    ensures
        !state.renders(true, moved, cursor),
        state.ticked(true, moved, cursor) == state,
        !state.moves(true),
{
}

/// A scene that was just loaded is rendered, even while power is saved, and
/// then waits for something to change.
pub proof fn loaded_scene_is_rendered(
    state: RenderState,
    power_saving: bool,
    moved: bool,
    cursor: Option<(Single, Single)>,
)
    requires
        state.scene is Some,
        state.needs_render,
    ensures
        state.renders(power_saving, moved, cursor),
        !state.ticked(power_saving, moved, cursor).needs_render,
{
}

/// A scene in which nothing moves and nothing follows the cursor is rendered
/// once.
pub proof fn still_scene_is_rendered_once(
    state: RenderState,
    power_saving: bool,
    moved: bool,
    cursor: Option<(Single, Single)>,
)
    requires
        state.scene matches Some(s) && !s.dynamic && !s.needs_cursor,
        !state.needs_render,
    ensures
        !state.renders(power_saving, moved, cursor),
{
}

/// A cursor that rests renders nothing new: after a frame, one in which
/// nothing moved and the cursor is where it was is left out.
pub proof fn resting_cursor_renders_nothing(
    state: RenderState,
    moved: bool,
    cursor: Option<(Single, Single)>,
)
    requires
        state.scene matches Some(s) && !s.continuous && s.needs_cursor,
        state.renders(false, moved, cursor),
        cursors_equal(cursor, cursor),
    ensures
        !state.ticked(false, moved, cursor).renders(false, false, cursor),
{
}

/// A pan that has settled renders nothing: in a project without an effect that
/// goes by the time, a tick in which nothing moved and the cursor is where the
/// last frame showed it is left out.
pub proof fn settled_scene_renders_nothing(
    project: crate::project_format::ProjectModel,
    size: (u32, u32),
    state: RenderState,
    power_saving: bool,
    cursor: Option<(Single, Single)>,
)
    requires
        forall|i: int| 0 <= i < project.layers.len() ==> !moves_on(#[trigger] project.layers[i]),
        state.scene == Some(info_of(project, size)),
        !state.needs_render,
        cursors_equal(cursor, state.last_cursor),
    ensures
        !state.renders(power_saving, false, cursor),
        state.ticked(power_saving, false, cursor) == state,
{
}

/// What moved is rendered: while power is not saved, a tick in which moving the
/// scene on changed something renders a frame, whether or not anything in the
/// scene follows the cursor.
pub proof fn moved_scene_is_rendered(state: RenderState, cursor: Option<(Single, Single)>)
    requires
        state.scene matches Some(s) && s.dynamic,
    ensures
        state.renders(false, true, cursor),
        state.moves(false),
{
}

/// What goes by the time is rendered in every tick while power is not saved.
pub proof fn animated_scene_is_rendered(
    state: RenderState,
    moved: bool,
    cursor: Option<(Single, Single)>,
)
    requires
        state.scene matches Some(s) && s.dynamic && s.continuous,
    ensures
        state.renders(false, moved, cursor),
{
}

/// A cursor that moved, came or went is rendered where something follows it,
/// and the frame shows it where it is.
pub proof fn moved_cursor_is_rendered(
    state: RenderState,
    moved: bool,
    cursor: Option<(Single, Single)>,
)
    requires
        state.scene matches Some(s) && s.needs_cursor,
        !cursors_equal(cursor, state.last_cursor),
    ensures
        state.renders(false, moved, cursor),
        state.seen_cursor(false, cursor) == cursor,
        state.ticked(false, moved, cursor).last_cursor == cursor,
{
}

/// A cursor that nothing follows is not shown, and nothing but the frame that
/// was just loaded waits to be rendered.
pub proof fn tick_keeps_the_scene(
    state: RenderState,
    power_saving: bool,
    moved: bool,
    cursor: Option<(Single, Single)>,
)
    ensures
        ({
            let after = state.ticked(power_saving, moved, cursor);
            &&& after.scene == state.scene
            &&& after.tick_ms == state.tick_ms
            &&& after.next_ms == state.next_ms
            &&& state.scene is Some ==> !after.needs_render
            &&& state.scene is None ==> !state.renders(power_saving, moved, cursor)
        }),
        state.scene matches Some(s) && !s.needs_cursor ==> state.seen_cursor(power_saving, cursor)
            is None,
        state.seen_cursor(true, cursor) is None,
{
}

/// Two places of the cursor whose numbers have the same bits are the same,
/// unless one of them is not a number; numbers of different bits are different,
/// but for the two zeros.
pub proof fn cursor_places_are_compared(a: (Single, Single), b: (Single, Single))
    requires
        !single_is_nan(a.0) && !single_is_nan(a.1),
        !single_is_nan(b.0) && !single_is_nan(b.1),
        a.0 % 0x8000_0000 != 0 && a.1 % 0x8000_0000 != 0,
    ensures
        cursors_equal(Some(a), Some(b)) <==> a == b,
        !cursors_equal(Some(a), None) && !cursors_equal(None, Some(a)),
        cursors_equal(None, None),
{
}

/// Which projects have to be rendered again and again, which react to the
/// cursor and which move all the time, layer by layer. One layer is enough.
pub proof fn layers_make_the_scene(
    project: crate::project_format::ProjectModel,
    size: (u32, u32),
    i: int,
)
    requires
        0 <= i < project.layers.len(),
    ensures
        ({
            let info = info_of(project, size);
            let layer = project.layers[i];
            &&& layer is Gif || layer is Xray || layer is Parallax ==> info.dynamic
            &&& layer is Xray || layer is Parallax ==> info.needs_cursor
            &&& (layer matches crate::project_format::LayerModel::Text { source, .. } && !(
            source is Literal)) ==> info.dynamic
            &&& forall|e: int|
                0 <= e < layer.effects().len() && (#[trigger] layer.effects()[e]).enabled && (
                layer.effects()[e].kind is Smoke || layer.effects()[e].kind is Shader)
                    ==> info.dynamic && info.needs_cursor && info.continuous
        }),
{
    let info = info_of(project, size);
    let layer = project.layers[i];
    assert forall|e: int|
        0 <= e < layer.effects().len() && (#[trigger] layer.effects()[e]).enabled && (
        layer.effects()[e].kind is Smoke || layer.effects()[e].kind is Shader) implies info.dynamic
        && info.needs_cursor && info.continuous by {
        assert(layer.effects()[e].kind.animated());
        assert(moves_on(layer));
        assert(follows_cursor(layer));
        assert(layer.dynamic());
    }
    if layer is Xray || layer is Parallax {
        assert(follows_cursor(layer));
    }
    if layer is Gif || layer is Xray || layer is Parallax {
        assert(layer.dynamic());
    }
    if layer matches crate::project_format::LayerModel::Text { source, .. } && !(
    source is Literal) {
        assert(layer.dynamic());
    }
}

/// A project of pictures and fixed texts, with no effect switched on that goes
/// by the time, is rendered once: it is not dynamic, and reacts to nothing.
pub proof fn still_project_is_still(
    project: crate::project_format::ProjectModel,
    size: (u32, u32),
)
    requires
        forall|i: int|
            0 <= i < project.layers.len() ==> match #[trigger] project.layers[i] {
                crate::project_format::LayerModel::Image { .. } => true,
                crate::project_format::LayerModel::Adjustment { .. } => true,
                crate::project_format::LayerModel::Text { source, .. } => source is Literal,
                _ => false,
            },
        forall|i: int, e: int|
            0 <= i < project.layers.len() && 0 <= e < project.layers[i].effects().len()
                && (#[trigger] project.layers[i].effects()[e]).enabled ==> !(
            project.layers[i].effects()[e].kind is Smoke) && !(
            project.layers[i].effects()[e].kind is Shader),
    ensures
        !info_of(project, size).dynamic,
        !info_of(project, size).needs_cursor,
        !info_of(project, size).continuous,
{
    assert forall|i: int| 0 <= i < project.layers.len() implies !(
    #[trigger] project.layers[i]).dynamic() && !follows_cursor(project.layers[i]) && !moves_on(
        project.layers[i],
    ) by {
        let layer = project.layers[i];
        if moves_on(layer) {
            let e = choose|e: int|
                0 <= e < layer.effects().len() && (#[trigger] layer.effects()[e]).enabled
                    && layer.effects()[e].kind.animated();
            assert(project.layers[i].effects()[e].enabled);
        }
        if layer.dynamic() {
            assert(moves_on(layer));
        }
    }
}

/// A project is rendered at its own rate, between one frame a second and sixty,
/// on a canvas of its first layer's size.
pub proof fn scene_keeps_the_rate(
    project: crate::project_format::ProjectModel,
    size: (u32, u32),
)
    ensures
        1 <= info_of(project, size).fps <= 60,
        1 <= project.fps <= 60 ==> info_of(project, size).fps == project.fps,
        project.fps > 60 ==> info_of(project, size).fps == 60,
        info_of(project, size).canvas_width == size.0,
        info_of(project, size).canvas_height == size.1,
{
}

/// The next tick is due an interval after the last began, and the longer one
/// while power is saved.
pub proof fn ticks_follow_the_interval(tick_ms: u64, began_ms: u64, power_saving: bool)
    requires
        began_ms < u64::MAX / 2,
        tick_ms <= 1000,
    ensures
        next_tick(tick_ms, began_ms, power_saving) - began_ms == if power_saving {
            2000
        } else {
            tick_ms as int
        },
{
}


/// A frame is rendered just when there is something new, and shows the cursor
/// where it is if anything in the scene follows it; while power is saved it
/// shows none.
pub proof fn frame_shows_the_cursor(
    state: RenderState,
    power_saving: bool,
    moved: bool,
    cursor: Option<(Single, Single)>,
)
    ensures
        ({
            let frame = state.frame(power_saving, moved, cursor);
            &&& frame is Some <==> state.renders(power_saving, moved, cursor)
            &&& frame is Some && state.scene->0.needs_cursor && !power_saving ==> frame == Some(
                cursor,
            )
            &&& frame is Some && (!state.scene->0.needs_cursor || power_saving) ==> frame == Some(
                None::<(Single, Single)>,
            )
            &&& frame is Some ==> state.ticked(power_saving, moved, cursor).last_cursor == frame->0
        }),
{
}

/// A scene that was loaded takes the place of the one before, and is rendered
/// in the next tick; one that could not be loaded leaves everything as it is.
pub proof fn loaded_scene_takes_over(
    state: RenderState,
    scene: SceneInfo,
    power_saving: bool,
    moved: bool,
    cursor: Option<(Single, Single)>,
)
    ensures
        state.with_scene(Some(scene)).scene == Some(scene),
        state.with_scene(Some(scene)).next_ms == state.next_ms,
        state.with_scene(Some(scene)).last_cursor is None,
        state.with_scene(Some(scene)).frame(power_saving, moved, cursor) is Some,
        state.with_scene(None) == state,
{
}

/// A tick that is set is due an interval after this one began, and not before.
pub proof fn tick_is_due_after_its_interval(
    state: RenderState,
    began_ms: u64,
    power_saving: bool,
    now_ms: u64,
)
    requires
        began_ms < u64::MAX / 2,
        state.tick_ms <= 1000,
    ensures
        state.scheduled(began_ms, power_saving).is_due(now_ms) <==> now_ms >= began_ms + (
        if power_saving {
            2000
        } else {
            state.tick_ms as int
        }),
        state.scheduled(began_ms, power_saving).scene == state.scene,
        state.scheduled(began_ms, power_saving).needs_render == state.needs_render,
        state.scheduled(began_ms, power_saving).last_cursor == state.last_cursor,
        state.scheduled(began_ms, power_saving).tick_ms == state.tick_ms,
{
}

/// The loop sleeps through no tick, and no longer than it has to: while it
/// sleeps none is due, and when it wakes one is.
pub proof fn no_tick_is_slept_through(
    states: Seq<RenderState>,
    now_ms: u64,
    power_saving: bool,
    r: u64,
)
    requires
        states.len() > 0,
        sleeps(states, now_ms, power_saving, r),
    ensures
        now_ms + r <= u64::MAX,
        forall|i: int, t: u64|
            0 <= i < states.len() && now_ms <= t < now_ms + r ==> !#[trigger] states[i].is_due(t),
        exists|i: int|
            0 <= i < states.len() && #[trigger] states[i].is_due((now_ms + r) as u64),
{
    let k = choose|i: int| 0 <= i < states.len() && r == time_left(#[trigger] states[i], now_ms);
    assert(states[k].is_due((now_ms + r) as u64));
    assert forall|i: int, t: u64|
        0 <= i < states.len() && now_ms <= t < now_ms + r implies !#[trigger] states[i].is_due(
        t,
    ) by {
        assert(r <= time_left(states[i], now_ms));
    }
}

/// A project of the library may run its commands just when the library's id of
/// it is trusted, wherever the library lies.
pub proof fn projects_are_trusted_by_id(trusted: Set<Seq<char>>, root: Seq<char>, id: Seq<char>)
    requires
        crate::paths::is_name(id),
    ensures
        trusts(trusted, crate::paths::joined(root, id)) <==> trusted.contains(id),
        trusts(trusted.insert(id), crate::paths::joined(root, id)),
        !trusts(Set::empty(), crate::paths::joined(root, id)),
        crate::paths::file_name_of(root) is None ==> !trusts(trusted, root),
{
    crate::paths::file_keeps_its_name(root, id);
}

/// A frame of a moving scene goes out as a BMP file, one of a still scene as a
/// PNG file, and is said to be what it is.
pub proof fn frame_is_what_it_is_said_to_be(rgba: Seq<u8>, width: u32, height: u32)
    ensures
        encoded_frame(rgba, width, height, true) == Ok::<(Seq<u8>, FrameFormat), Seq<char>>(
            (crate::bmp::bmp_file(rgba, width, height), FrameFormat::Bmp),
        ),
        match crate::pictures::png_rgba(rgba, width, height) {
            Ok(file) => encoded_frame(rgba, width, height, false) == Ok::<
                (Seq<u8>, FrameFormat),
                Seq<char>,
            >((file, FrameFormat::Png)),
            Err(e) => encoded_frame(rgba, width, height, false) == Err::<
                (Seq<u8>, FrameFormat),
                Seq<char>,
            >(e),
        },
{
}


/// Numbers are compared as numbers: those of the same bits are equal and those
/// of different bits are not, but for the two zeros, which are equal, and for
/// what is not a number, which equals nothing.
pub proof fn numbers_are_compared(a: Single, b: Single)
    ensures
        single_is_nan(a) || single_is_nan(b) ==> !singles_equal(a, b),
        !single_is_nan(a) && a == b ==> singles_equal(a, b),
        singles_equal(0, 0x8000_0000) && singles_equal(0x8000_0000, 0),
        a != b && a != 0 && a != 0x8000_0000 ==> !singles_equal(a, b),
        a != b && b != 0 && b != 0x8000_0000 ==> !singles_equal(a, b),
        singles_equal(a, b) == singles_equal(b, a),
        single_is_nan(0x7fc0_0000) && single_is_nan(0xffc0_0000) && !single_is_nan(0x7f80_0000)
            && !single_is_nan(0xff80_0000) && !single_is_nan(0),
{
}

} // verus!
