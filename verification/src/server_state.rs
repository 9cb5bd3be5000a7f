//! What the render server keeps for each monitor, and how it answers requests.

use vstd::prelude::*;

use crate::monitors_config::Assignments;
use crate::query::{monitor_of, path_of};
use crate::shader_params::Double;
use crate::text::{chars_of, decimal_chars, push_str, split_at_char, string_of, trim_chars};

verus! {

pub const HTTP_ADDR: &'static str = "127.0.0.1:47824";

/// Where a monitor shows on the desktop.
#[derive(Debug, Clone, Copy)]
pub struct Geometry {
    pub x: Double,
    pub y: Double,
    pub width: Double,
    pub height: Double,
}

/// The formats that frames go out in.
#[derive(Debug, Clone, Copy, PartialEq, Eq, Structural)]
pub enum FrameFormat {
    Png,
    Bmp,
}

pub open spec fn content_type_of(format: FrameFormat) -> Seq<char> {
    match format {
        FrameFormat::Png => "image/png"@,
        FrameFormat::Bmp => "image/bmp"@,
    }
}

/// What the server keeps for a monitor.
pub struct MonitorState {
    pub name: String,
    /// A frame has been rendered.
    pub ready: bool,
    pub needs_cursor: bool,
    pub fps: u32,
    pub frame_bytes: Vec<u8>,
    pub frame_format: FrameFormat,
    pub frame_id: u64,
    pub geometry: Option<Geometry>,
    /// A project that the render loop has still to load.
    pub pending_project: Option<String>,
}

pub struct MonitorModel {
    pub ready: bool,
    pub needs_cursor: bool,
    pub fps: u32,
    pub frame_bytes: Seq<u8>,
    pub frame_format: FrameFormat,
    pub frame_id: u64,
    pub geometry: Option<Geometry>,
    pub pending_project: Option<Seq<char>>,
}

impl View for MonitorState {
    type V = MonitorModel;

    open spec fn view(&self) -> MonitorModel {
        MonitorModel {
            ready: self.ready,
            needs_cursor: self.needs_cursor,
            fps: self.fps,
            frame_bytes: self.frame_bytes@,
            frame_format: self.frame_format,
            frame_id: self.frame_id,
            geometry: self.geometry,
            pending_project: crate::text::opt_view(self.pending_project),
        }
    }
}

impl MonitorModel {
    /// What is kept once a project has been handed to the render loop.
    pub open spec fn with_pending(self, dir: Seq<char>) -> MonitorModel {
        MonitorModel { pending_project: Some(dir), ..self }
    }

    /// What is kept once the render loop has taken the project.
    pub open spec fn without_pending(self) -> MonitorModel {
        MonitorModel { pending_project: None, ..self }
    }

    /// What is kept once it is known where the monitor shows.
    pub open spec fn with_geometry(self, geometry: Option<Geometry>) -> MonitorModel {
        MonitorModel { geometry, ..self }
    }

    /// What is kept once a new frame was put out.
    pub open spec fn with_frame(
        self,
        needs_cursor: bool,
        fps: u32,
        frame_bytes: Seq<u8>,
        frame_format: FrameFormat,
    ) -> MonitorModel {
        MonitorModel {
            ready: true,
            needs_cursor,
            fps,
            frame_bytes,
            frame_format,
            frame_id: (self.frame_id + 1) as u64,
            ..self
        }
    }
}

/// A monitor that nothing is known of yet.
pub open spec fn blank_monitor() -> MonitorModel {
    MonitorModel {
        ready: false,
        needs_cursor: false,
        fps: 0,
        frame_bytes: seq![],
        frame_format: FrameFormat::Png,
        frame_id: 0,
        geometry: None,
        pending_project: None,
    }
}

fn new_monitor(name: &str) -> (r: MonitorState)
    ensures
        r.name@ == name@,
        r@ == blank_monitor(),
{
    MonitorState {
        name: name.to_string(),
        ready: false,
        needs_cursor: false,
        fps: 0,
        frame_bytes: Vec::new(),
        frame_format: FrameFormat::Png,
        frame_id: 0,
        geometry: None,
        pending_project: None,
    }
}

/// What the server keeps, each monitor for itself.
pub struct ServerState {
    pub monitors: Vec<MonitorState>,
}

/// Where a monitor stands among others; their number where it does not.
pub open spec fn place_of(monitors: Seq<MonitorState>, name: Seq<char>) -> int
    decreases monitors.len(),
{
    if monitors.len() == 0 || monitors[0].name@ == name {
        0
    } else {
        1 + place_of(monitors.skip(1), name)
    }
}

/// The place is the first, and there is none where it is the number.
proof fn place_is_first(monitors: Seq<MonitorState>, name: Seq<char>)
    ensures
        0 <= place_of(monitors, name) <= monitors.len(),
        place_of(monitors, name) < monitors.len() ==> monitors[place_of(
            monitors,
            name,
        )].name@ == name,
        forall|j: int| 0 <= j < place_of(monitors, name) ==> (#[trigger] monitors[j]).name@ != name,
    decreases monitors.len(),
{
    if monitors.len() > 0 && monitors[0].name@ != name {
        place_is_first(monitors.skip(1), name);
        assert forall|j: int| 0 <= j < place_of(monitors, name) implies (
        #[trigger] monitors[j]).name@ != name by {
            if j > 0 {
                assert(monitors[j] == monitors.skip(1)[j - 1]);
            }
        }
    }
}

proof fn first_is_place(monitors: Seq<MonitorState>, name: Seq<char>, i: int)
    requires
        0 <= i <= monitors.len(),
        i < monitors.len() ==> monitors[i].name@ == name,
        forall|j: int| 0 <= j < i ==> (#[trigger] monitors[j]).name@ != name,
    ensures
        place_of(monitors, name) == i,
{
    place_is_first(monitors, name);
    let k = place_of(monitors, name);
    if k < i {
        assert(monitors[k].name@ != name);
    } else if i < k {
        assert(monitors[i].name@ != name);
    }
}

impl ServerState {
    /// No monitor stands twice.
    pub open spec fn wf(self) -> bool {
        forall|i: int, j: int|
            0 <= i < j < self.monitors@.len() ==> (#[trigger] self.monitors@[i]).name@ != (
            #[trigger] self.monitors@[j]).name@
    }

    /// What is kept for a monitor.
    pub open spec fn at(self, name: Seq<char>) -> MonitorModel {
        let i = place_of(self.monitors@, name);
        if i < self.monitors@.len() {
            self.monitors@[i]@
        } else {
            blank_monitor()
        }
    }

    /// What is kept for one monitor has changed, and for no other.
    pub open spec fn differs_at(self, other: ServerState, name: Seq<char>, now: MonitorModel) -> bool {
        &&& self.at(name) == now
        &&& forall|n: Seq<char>| n != name ==> #[trigger] self.at(n) == other.at(n)
    }

    pub fn new() -> (r: ServerState)
        ensures
            r.wf(),
            forall|n: Seq<char>| #[trigger] r.at(n) == blank_monitor(),
    {
        ServerState { monitors: Vec::new() }
    }

    fn find(&self, name: &str) -> (r: usize)
        ensures
            r == place_of(self.monitors@, name@),
            r <= self.monitors@.len(),
    {
        let wanted = name.to_string();
        let mut i: usize = 0;
        while i < self.monitors.len() && self.monitors[i].name != wanted
            invariant
                wanted@ == name@,
                i <= self.monitors@.len(),
                forall|j: int| 0 <= j < i ==> (#[trigger] self.monitors@[j]).name@ != name@,
            decreases self.monitors.len() - i,
        {
            i += 1;
        }
        proof {
            first_is_place(self.monitors@, name@, i as int);
        }
        i
    }

    /// Finds a monitor, and adds it where it is not there yet.
    fn find_or_add(&mut self, name: &str) -> (r: usize)
        requires
            old(self).wf(),
        ensures
            final(self).wf(),
            r < final(self).monitors@.len(),
            final(self).monitors@[r as int].name@ == name@,
            final(self).monitors@[r as int]@ == old(self).at(name@),
            place_of(final(self).monitors@, name@) == r,
            forall|n: Seq<char>| #[trigger] final(self).at(n) == old(self).at(n),
    {
        let i = self.find(name);
        proof {
            place_is_first(self.monitors@, name@);
        }
        if i == self.monitors.len() {
            let ghost before = *self;
            self.monitors.push(new_monitor(name));
            proof {
                assert forall|n: Seq<char>| #[trigger] self.at(n) == before.at(n) by {
                    place_is_first(before.monitors@, n);
                    let p = place_of(before.monitors@, n);
                    if p < before.monitors@.len() || n == name@ {
                        first_is_place(self.monitors@, n, p);
                    } else {
                        first_is_place(self.monitors@, n, p + 1);
                    }
                }
                first_is_place(self.monitors@, name@, i as int);
            }
        }
        i
    }
}

/// A change to what is kept for one monitor touches no other.
proof fn changed_at(before: ServerState, after: ServerState, i: int)
    requires
        before.wf(),
        0 <= i < before.monitors@.len(),
        after.monitors@ == before.monitors@.update(i, after.monitors@[i]),
        after.monitors@[i].name@ == before.monitors@[i].name@,
    ensures
        after.wf(),
        after.differs_at(before, before.monitors@[i].name@, after.monitors@[i]@),
{
    let name = before.monitors@[i].name@;
    assert forall|a: int, b: int| 0 <= a < b < after.monitors@.len() implies (
    #[trigger] after.monitors@[a]).name@ != (#[trigger] after.monitors@[b]).name@ by {
        assert(before.monitors@[a].name@ != before.monitors@[b].name@);
    }
    assert forall|n: Seq<char>| n != name implies #[trigger] after.at(n) == before.at(n) by {
        place_is_first(before.monitors@, n);
        let p = place_of(before.monitors@, n);
        assert forall|j: int| 0 <= j < p implies (#[trigger] after.monitors@[j]).name@ != n by {
            assert(before.monitors@[j].name@ != n);
        }
        first_is_place(after.monitors@, n, p);
    }
    assert forall|j: int| 0 <= j < i implies (#[trigger] after.monitors@[j]).name@ != name by {
        assert(before.monitors@[j].name@ != before.monitors@[i].name@);
    }
    first_is_place(after.monitors@, name, i);
}

// --- Requests --------------------------------------------------------------

#[derive(Debug, Clone, Copy, PartialEq, Eq, Structural)]
pub enum Method {
    Get,
    Post,
    Other,
}

/// What a request is about.
#[derive(Debug, Clone, Copy, PartialEq, Eq, Structural)]
pub enum Route {
    /// Load a project.
    Project,
    /// Take in where a monitor shows.
    Geometry,
    /// Give the frame.
    Frame,
    /// Say what there is to know of the frames.
    Meta,
    NotFound,
}

pub open spec fn route_of(method: Method, path: Seq<char>) -> Route {
    if method is Post && path == "/project"@ {
        Route::Project
    } else if method is Post && path == "/geometry"@ {
        Route::Geometry
    } else if method is Get && path == "/frame"@ {
        Route::Frame
    } else if method is Get && path == "/meta"@ {
        Route::Meta
    } else {
        Route::NotFound
    }
}

/// What a request is about, by its method and the path of its target.
pub fn route(method: Method, target: &str) -> (r: Route)
    ensures
        r == route_of(method, crate::query::path_part(target@)),
{
    let path = path_of(target);
    match method {
        Method::Post => if path == "/project".to_string() {
            Route::Project
        } else if path == "/geometry".to_string() {
            Route::Geometry
        } else {
            Route::NotFound
        },
        Method::Get => if path == "/frame".to_string() {
            Route::Frame
        } else if path == "/meta".to_string() {
            Route::Meta
        } else {
            Route::NotFound
        },
        Method::Other => Route::NotFound,
    }
}

/// The four numbers of a geometry as a body gives them: parted by commas, with
/// spaces around them. What follows a fourth part is passed over.
pub open spec fn geometry_texts(body: Seq<char>) -> Option<Seq<Seq<char>>> {
    let parts = crate::text::split_char(crate::text::trimmed(body), ',');
    if parts.len() < 4 {
        None
    } else {
        Some(
            seq![
                crate::text::trimmed(parts[0]),
                crate::text::trimmed(parts[1]),
                crate::text::trimmed(parts[2]),
                crate::text::trimmed(parts[3]),
            ],
        )
    }
}

/// Cuts a body into the four numbers of a geometry.
pub fn parse_geometry(body: &str) -> (r: Option<(String, String, String, String)>)
    ensures
        match r {
            Some((x, y, w, h)) => geometry_texts(body@) == Some(seq![x@, y@, w@, h@]),
            None => geometry_texts(body@) is None,
        },
{
    let text = trim_chars(chars_of(body).as_slice());
    let parts = split_at_char(text.as_slice(), ',');
    let ghost views = crate::text::parts_view(parts@);
    if parts.len() < 4 {
        assert(views.len() == parts@.len());
        return None;
    }
    assert(views[0] == parts@[0]@ && views[1] == parts@[1]@ && views[2] == parts@[2]@ && views[3]
        == parts@[3]@);
    let x = string_of(trim_chars(parts[0].as_slice()).as_slice());
    let y = string_of(trim_chars(parts[1].as_slice()).as_slice());
    let w = string_of(trim_chars(parts[2].as_slice()).as_slice());
    let h = string_of(trim_chars(parts[3].as_slice()).as_slice());
    assert(geometry_texts(body@)->0 =~= seq![x@, y@, w@, h@]);
    Some((x, y, w, h))
}

/// A request, with its body as far as it could be read.
pub struct Request {
    pub method: Method,
    pub target: String,
    pub body: String,
    /// Why the body could not be read to its end.
    pub body_error: Option<String>,
    /// The numbers that `parse_geometry` cuts the body into, where they are
    /// numbers.
    pub geometry: Option<Geometry>,
}

/// An answer.
pub struct Reply {
    pub status: u16,
    /// Plain text where nothing is said.
    pub content_type: Option<String>,
    pub body: Vec<u8>,
}

pub struct ReplyModel {
    pub status: u16,
    pub content_type: Option<Seq<char>>,
    pub body: Seq<u8>,
}

impl View for Reply {
    type V = ReplyModel;

    open spec fn view(&self) -> ReplyModel {
        ReplyModel {
            status: self.status,
            content_type: crate::text::opt_view(self.content_type),
            body: self.body@,
        }
    }
}

/// An answer in plain text.
pub open spec fn text_reply(status: u16, text: Seq<char>) -> ReplyModel {
    ReplyModel { status, content_type: None, body: vstd::utf8::encode_utf8(text) }
}

fn bytes_of(text: &str) -> (r: Vec<u8>)
    ensures
        r@ == vstd::utf8::encode_utf8(text@),
{
    let bytes = text.as_bytes();
    let r = crate::text::copy_range(bytes, 0, bytes.len());
    assert(r@ =~= bytes@);
    r
}

/// An answer in plain text.
pub fn text_response(status: u16, text: &str) -> (r: Reply)
    ensures
        r@ == text_reply(status, text@),
{
    Reply { status, content_type: None, body: bytes_of(text) }
}

pub open spec fn bool_text(b: bool) -> Seq<char> {
    if b {
        "true"@
    } else {
        "false"@
    }
}

/// What the server says of a monitor's frames.
pub open spec fn meta_json(m: MonitorModel) -> Seq<char> {
    "{\"ready\":"@ + bool_text(m.ready) + ",\"frame_id\":"@ + crate::text::decimal(
        m.frame_id as nat,
    ) + ",\"needs_cursor\":"@ + bool_text(m.needs_cursor) + ",\"fps\":"@
        + crate::text::decimal(m.fps as nat) + ",\"has_geometry\":"@ + bool_text(
        m.geometry is Some,
    ) + "}"@
}

fn push_bool(out: &mut Vec<char>, b: bool)
    ensures
        final(out)@ == old(out)@ + bool_text(b),
{
    if b {
        push_str(out, "true");
    } else {
        push_str(out, "false");
    }
}

/// What the server says of a monitor's frames.
pub fn meta_body(m: &MonitorState) -> (r: String)
    ensures
        r@ == meta_json(m@),
{
    let mut text: Vec<char> = Vec::new();
    push_str(&mut text, "{\"ready\":");
    push_bool(&mut text, m.ready);
    push_str(&mut text, ",\"frame_id\":");
    let mut id = decimal_chars(m.frame_id);
    text.append(&mut id);
    push_str(&mut text, ",\"needs_cursor\":");
    push_bool(&mut text, m.needs_cursor);
    push_str(&mut text, ",\"fps\":");
    let mut rate = decimal_chars(m.fps as u64);
    text.append(&mut rate);
    push_str(&mut text, ",\"has_geometry\":");
    push_bool(&mut text, m.geometry.is_some());
    push_str(&mut text, "}");
    assert(text@ =~= meta_json(m@));
    string_of(text.as_slice())
}

/// The answer to who asks for a frame.
pub open spec fn frame_reply(m: MonitorModel) -> ReplyModel {
    if m.frame_bytes.len() == 0 {
        text_reply(404, "no project loaded"@)
    } else {
        ReplyModel {
            status: 200,
            content_type: Some(content_type_of(m.frame_format)),
            body: m.frame_bytes,
        }
    }
}

/// The answer to who asks what there is to know of the frames.
pub open spec fn meta_reply(m: MonitorModel) -> ReplyModel {
    ReplyModel {
        status: 200,
        content_type: Some("application/json"@),
        body: vstd::utf8::encode_utf8(meta_json(m)),
    }
}

/// The answer to a request, by what is kept for the monitor that it is about.
pub open spec fn reply_to(request: Request, m: MonitorModel) -> ReplyModel {
    match route_of(request.method, crate::query::path_part(request.target@)) {
        Route::Project => match crate::text::opt_view(request.body_error) {
            Some(e) => text_reply(400, "bad request body: "@ + e),
            None => text_reply(200, "ok"@),
        },
        Route::Geometry => text_reply(200, "ok"@),
        Route::Frame => frame_reply(m),
        Route::Meta => meta_reply(m),
        Route::NotFound => text_reply(404, "not found"@),
    }
}

/// What is kept for a monitor after a request about it.
pub open spec fn after_request(request: Request, m: MonitorModel) -> MonitorModel {
    match route_of(request.method, crate::query::path_part(request.target@)) {
        Route::Project => if request.body_error is None {
            MonitorModel {
                pending_project: Some(crate::text::trimmed(request.body@)),
                ..m
            }
        } else {
            m
        },
        Route::Geometry => MonitorModel { geometry: request.geometry, ..m },
        _ => m,
    }
}

impl ServerState {
    /// Hands the render loop a project to load for a monitor.
    pub fn set_pending(&mut self, monitor: &str, project_dir: String)
        requires
            old(self).wf(),
        ensures
            final(self).wf(),
            final(self).differs_at(
                *old(self),
                monitor@,
                old(self).at(monitor@).with_pending(project_dir@),
            ),
    {
        let i = self.find_or_add(monitor);
        let ghost before = *self;
        self.monitors[i].pending_project = Some(project_dir);
        proof {
            changed_at(before, *self, i as int);
        }
    }

    /// Takes in where a monitor shows.
    pub fn set_geometry(&mut self, monitor: &str, geometry: Option<Geometry>)
        requires
            old(self).wf(),
        ensures
            final(self).wf(),
            final(self).differs_at(
                *old(self),
                monitor@,
                old(self).at(monitor@).with_geometry(geometry),
            ),
    {
        let i = self.find_or_add(monitor);
        let ghost before = *self;
        self.monitors[i].geometry = geometry;
        proof {
            changed_at(before, *self, i as int);
        }
    }

    /// The answer to a request that changes nothing.
    fn read(&self, route: Route, monitor: &str) -> (r: Reply)
        requires
            route is Frame || route is Meta,
        ensures
            r@ == match route {
                Route::Frame => frame_reply(self.at(monitor@)),
                _ => meta_reply(self.at(monitor@)),
            },
    {
        let i = self.find(monitor);
        let blank = new_monitor(monitor);
        let m = if i < self.monitors.len() {
            &self.monitors[i]
        } else {
            &blank
        };
        assert(m@ == self.at(monitor@));
        match route {
            Route::Frame => if m.frame_bytes.len() == 0 {
                text_response(404, "no project loaded")
            } else {
                let body = crate::text::copy_range(
                    m.frame_bytes.as_slice(),
                    0,
                    m.frame_bytes.len(),
                );
                assert(body@ =~= m.frame_bytes@);
                Reply {
                    status: 200,
                    content_type: Some(content_type(m.frame_format)),
                    body,
                }
            },
            _ => Reply {
                status: 200,
                content_type: Some("application/json".to_string()),
                body: bytes_of(meta_body(m).as_str()),
            },
        }
    }

    /// Answers a request, and takes in what it says of its monitor.
    pub fn respond(&mut self, request: &Request) -> (r: Reply)
        requires
            old(self).wf(),
        ensures
            final(self).wf(),
            r@ == reply_to(*request, old(self).at(crate::query::monitor_named(request.target@))),
            final(self).differs_at(
                *old(self),
                crate::query::monitor_named(request.target@),
                after_request(
                    *request,
                    old(self).at(crate::query::monitor_named(request.target@)),
                ),
            ),
    {
        let monitor = monitor_of(request.target.as_str());
        match route(request.method, request.target.as_str()) {
            Route::Project => match &request.body_error {
                Some(e) => {
                    let mut text: Vec<char> = Vec::new();
                    push_str(&mut text, "bad request body: ");
                    push_str(&mut text, e.as_str());
                    text_response(400, string_of(text.as_slice()).as_str())
                },
                None => {
                    let dir = trim_chars(chars_of(request.body.as_str()).as_slice());
                    self.set_pending(monitor.as_str(), string_of(dir.as_slice()));
                    text_response(200, "ok")
                },
            },
            Route::Geometry => {
                self.set_geometry(monitor.as_str(), request.geometry);
                text_response(200, "ok")
            },
            Route::Frame => self.read(Route::Frame, monitor.as_str()),
            Route::Meta => self.read(Route::Meta, monitor.as_str()),
            Route::NotFound => text_response(404, "not found"),
        }
    }

    /// Takes a project that has still to be loaded, with the monitor that it
    /// is for.
    pub fn take_pending(&mut self) -> (r: Option<(String, String)>)
        requires
            old(self).wf(),
        ensures
            final(self).wf(),
            match r {
                Some((monitor, dir)) => {
                    &&& old(self).at(monitor@).pending_project == Some(dir@)
                    &&& final(self).differs_at(
                        *old(self),
                        monitor@,
                        old(self).at(monitor@).without_pending(),
                    )
                },
                None => {
                    &&& *final(self) == *old(self)
                    &&& forall|n: Seq<char>| (#[trigger] old(self).at(n)).pending_project is None
                },
            },
    {
        let mut i: usize = 0;
        while i < self.monitors.len()
            invariant
                *self == *old(self),
                self.wf(),
                i <= self.monitors@.len(),
                forall|j: int|
                    0 <= j < i ==> (#[trigger] self.monitors@[j]).pending_project is None,
            decreases self.monitors.len() - i,
        {
            if self.monitors[i].pending_project.is_some() {
                let ghost before = *self;
                let name = self.monitors[i].name.clone();
                let mut pending: Option<String> = None;
                std::mem::swap(&mut pending, &mut self.monitors[i].pending_project);
                proof {
                    assert forall|j: int| 0 <= j < i implies (
                    #[trigger] before.monitors@[j]).name@ != name@ by {
                        assert(before.monitors@[j].name@ != before.monitors@[i as int].name@);
                    }
                    first_is_place(before.monitors@, name@, i as int);
                    changed_at(before, *self, i as int);
                }
                return match pending {
                    Some(dir) => Some((name, dir)),
                    None => None,
                };
            }
            i += 1;
        }
        proof {
            assert forall|n: Seq<char>| (#[trigger] self.at(n)).pending_project is None by {
                place_is_first(self.monitors@, n);
            }
        }
        None
    }

    /// Puts a new frame of a monitor out.
    pub fn publish(
        &mut self,
        monitor: &str,
        needs_cursor: bool,
        fps: u32,
        frame_bytes: Vec<u8>,
        frame_format: FrameFormat,
    )
        requires
            old(self).wf(),
            old(self).at(monitor@).frame_id < u64::MAX,
        ensures
            final(self).wf(),
            final(self).differs_at(
                *old(self),
                monitor@,
                old(self).at(monitor@).with_frame(
                    needs_cursor,
                    fps,
                    frame_bytes@,
                    frame_format,
                ),
            ),
    {
        let i = self.find_or_add(monitor);
        let ghost before = *self;
        self.monitors[i].ready = true;
        self.monitors[i].needs_cursor = needs_cursor;
        self.monitors[i].fps = fps;
        self.monitors[i].frame_bytes = frame_bytes;
        self.monitors[i].frame_format = frame_format;
        self.monitors[i].frame_id = self.monitors[i].frame_id + 1;
        proof {
            assert(self.monitors@ =~= before.monitors@.update(i as int, self.monitors@[i as int]));
            changed_at(before, *self, i as int);
        }
    }

    /// Hands the render loop the projects that are assigned to monitors.
    pub fn seed(&mut self, assignments: &Assignments)
        requires
            old(self).wf(),
            assignments.wf(),
        ensures
            final(self).wf(),
            forall|n: Seq<char>| #[trigger]
                final(self).at(n) == if assignments@.dom().contains(n) {
                    old(self).at(n).with_pending(assignments@[n])
                } else {
                    old(self).at(n)
                },
    {
        let mut i: usize = 0;
        let ghost pairs = assignments.entries@;
        assert(pairs.take(0) =~= seq![]);
        while i < assignments.entries.len()
            invariant
                self.wf(),
                pairs == assignments.entries@,
                i <= pairs.len(),
                forall|n: Seq<char>| #[trigger]
                    self.at(n) == if crate::json::pairs_map(pairs.take(i as int)).dom().contains(
                        n,
                    ) {
                        MonitorModel {
                            pending_project: Some(crate::json::pairs_map(pairs.take(i as int))[n]),
                            ..old(self).at(n)
                        }
                    } else {
                        old(self).at(n)
                    },
            decreases assignments.entries.len() - i,
        {
            let ghost before = *self;
            let entry = &assignments.entries[i];
            self.set_pending(entry.0.as_str(), entry.1.clone());
            assert(pairs.take(i as int + 1).drop_last() =~= pairs.take(i as int));
            assert(pairs.take(i as int + 1).last() == entry);
            i += 1;
        }
        assert(pairs.take(i as int) =~= pairs);
    }
}

/// The content type of frames in a format.
pub fn content_type(format: FrameFormat) -> (r: String)
    ensures
        r@ == content_type_of(format),
{
    match format {
        FrameFormat::Png => "image/png".to_string(),
        FrameFormat::Bmp => "image/bmp".to_string(),
    }
}

} // verus!
