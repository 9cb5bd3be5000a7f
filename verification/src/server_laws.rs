//! What the render server's answers give to those who ask.

use vstd::prelude::*;

use crate::render_server::Meta;
use crate::server_state::{FrameFormat, MonitorModel, Request, ServerState};

verus! {

/// Every quote in `s` is followed, inside `s`, by a character that a key does
/// not have behind its own first quote.
spec fn shielded(s: Seq<char>, key: Seq<char>) -> bool {
    forall|j: int|
        0 <= j < s.len() && #[trigger] s[j] == '"' ==> {
            &&& j + 1 < s.len()
            &&& s[j + 1] != key[1] || (j + 2 < s.len() && s[j + 2] != key[2])
        }
}

proof fn shields_join(a: Seq<char>, b: Seq<char>, key: Seq<char>)
    requires
        shielded(a, key),
        shielded(b, key),
    ensures
        shielded(a + b, key),
{
    let s = a + b;
    assert forall|j: int| 0 <= j < s.len() && #[trigger] s[j] == '"' implies j + 1 < s.len() && (
    s[j + 1] != key[1] || (j + 2 < s.len() && s[j + 2] != key[2])) by {
        if j < a.len() {
            assert(a[j] == '"');
        } else {
            assert(b[j - a.len()] == '"');
        }
    }
}

/// Behind a part that is shielded, a key is found where it stands.
proof fn key_is_found(front: Seq<char>, key: Seq<char>, rest: Seq<char>)
    requires
        key.len() >= 3,
        key[0] == '"',
        shielded(front, key),
    ensures
        crate::render_server::field_start(front + key + rest, key) == Some(rest),
{
    let s = front + key + rest;
    let n = front.len() as int;
    assert(s.subrange(n, n + key.len()) =~= key);
    assert forall|j: int| 0 <= j < n implies !crate::text::occurs_at(s, key, j) by {
        if crate::text::occurs_at(s, key, j) {
            let part = s.subrange(j, j + key.len());
            assert(part[0] == s[j] && part[1] == s[j + 1] && part[2] == s[j + 2]);
            assert(front[j] == '"');
            assert(front[j + 1] == s[j + 1]);
        }
    }
    crate::text::first_is_found(s, key, n);
    assert(s.skip(n + key.len()) =~= rest);
}

proof fn number_is_shielded(n: nat, key: Seq<char>)
    ensures
        shielded(crate::text::decimal(n), key),
{
    crate::text::decimal_value(n);
}

proof fn bool_is_shielded(b: bool, key: Seq<char>)
    ensures
        shielded(crate::server_state::bool_text(b), key),
{
    reveal_strlit("true");
    reveal_strlit("false");
}

/// A truth value in front of a text is read as it was written.
proof fn bool_is_read(b: bool, rest: Seq<char>)
    ensures
        ({
            let s = crate::server_state::bool_text(b) + rest;
            (if crate::text::starts_with(s, "true"@) {
                Some(true)
            } else if crate::text::starts_with(s, "false"@) {
                Some(false)
            } else {
                None
            }) == Some(b)
        }),
{
    reveal_strlit("true");
    reveal_strlit("false");
    let s = crate::server_state::bool_text(b) + rest;
    if b {
        assert(s.take(4) =~= "true"@);
    } else {
        assert(s[0] == 'f');
        if crate::text::starts_with(s, "true"@) {
            assert(s.take(4)[0] == 't');
        }
        assert(s.take(5) =~= "false"@);
    }
}

/// A number in front of a text is read as it was written.
proof fn number_is_read(n: u64, rest: Seq<char>)
    requires
        rest.len() > 0,
        !crate::text::is_digit(rest[0]),
    ensures
        ({
            let s = crate::text::decimal(n as nat) + rest;
            crate::text::parsed_u64(s.take(crate::text::digits_in_front(s))) == Some(n)
        }),
{
    let d = crate::text::decimal(n as nat);
    let s = d + rest;
    crate::text::decimal_value(n as nat);
    assert forall|i: int| 0 <= i < d.len() implies crate::text::is_digit(#[trigger] s[i]) by {
        assert(s[i] == d[i]);
    }
    crate::text::digits_in_front_is(s, d.len() as int);
    assert(s.take(d.len() as int) =~= d);
}

/// Sequences can be joined in any grouping.
proof fn regrouped(front: Seq<char>, c: Seq<char>, key: Seq<char>, q: Seq<char>, rest: Seq<char>)
    requires
        q == c + key,
    ensures
        front + q + rest == front + c + key + rest,
{
    assert(front + q + rest =~= front + c + key + rest);
}

/// What follows a front can be taken as one.
proof fn behind_the_front(
    a: Seq<char>,
    b: Seq<char>,
    c: Seq<char>,
    d: Seq<char>,
    e: Seq<char>,
    f: Seq<char>,
    g: Seq<char>,
    h: Seq<char>,
    i: Seq<char>,
    j: Seq<char>,
)
    ensures
        a + b + c + d + e + f + g + h + i + j == a + (b + c + d + e + f + g + h + i + j),
{
    let s2 = b + c;
    assert(a + b + c =~= a + s2);
    let s3 = s2 + d;
    assert(a + s2 + d =~= a + s3);
    let s4 = s3 + e;
    assert(a + s3 + e =~= a + s4);
    let s5 = s4 + f;
    assert(a + s4 + f =~= a + s5);
    let s6 = s5 + g;
    assert(a + s5 + g =~= a + s6);
    let s7 = s6 + h;
    assert(a + s6 + h =~= a + s7);
    let s8 = s7 + i;
    assert(a + s7 + i =~= a + s8);
    let s9 = s8 + j;
    assert(a + s8 + j =~= a + s9);
}

#[verifier::spinoff_prover]
proof fn ready_reads_back(m: MonitorModel)
    ensures
        crate::render_server::bool_field(crate::server_state::meta_json(m), "\"ready\":"@)
            == Some(m.ready),
{
    let t1 = crate::server_state::bool_text(m.ready);
    let k = "\"ready\":"@;
    let rest = ",\"frame_id\":"@ + crate::text::decimal(m.frame_id as nat) + ",\"needs_cursor\":"@
        + crate::server_state::bool_text(m.needs_cursor) + ",\"fps\":"@ + crate::text::decimal(
        m.fps as nat,
    ) + ",\"has_geometry\":"@ + crate::server_state::bool_text(m.geometry is Some) + "}"@;
    behind_the_front(
        "{\"ready\":"@ + t1,
        ",\"frame_id\":"@,
        crate::text::decimal(m.frame_id as nat),
        ",\"needs_cursor\":"@,
        crate::server_state::bool_text(m.needs_cursor),
        ",\"fps\":"@,
        crate::text::decimal(m.fps as nat),
        ",\"has_geometry\":"@,
        crate::server_state::bool_text(m.geometry is Some),
        "}"@,
    );
    assert("{\"ready\":"@ + t1 + rest =~= "{\"ready\":"@ + (t1 + rest));
    assert(crate::server_state::meta_json(m) == "{\"ready\":"@ + (t1 + rest));
    bool_is_read(m.ready, rest);
    let front = seq!['{'];
    assert("{\"ready\":"@ == front + k && k.len() >= 3 && k[0] == '"' && shielded(front, k)) by {
        reveal_strlit("{\"ready\":");
        reveal_strlit("\"ready\":");
        assert("{\"ready\":"@ =~= front + k);
    }
    key_is_found(front, k, t1 + rest);
}

#[verifier::spinoff_prover]
proof fn frame_id_reads_back(m: MonitorModel)
    ensures
        crate::render_server::number_field(crate::server_state::meta_json(m), "\"frame_id\":"@)
            == Some(m.frame_id),
{
    let t1 = crate::server_state::bool_text(m.ready);
    let t2 = crate::text::decimal(m.frame_id as nat);
    let q1 = "{\"ready\":"@;
    let q = ",\"frame_id\":"@;
    let k = "\"frame_id\":"@;
    let c = seq![','];
    let rest = ",\"needs_cursor\":"@ + crate::server_state::bool_text(m.needs_cursor)
        + ",\"fps\":"@ + crate::text::decimal(m.fps as nat) + ",\"has_geometry\":"@
        + crate::server_state::bool_text(m.geometry is Some) + "}"@;
    let front = q1 + t1;
    assert(crate::server_state::meta_json(m) =~= front + q + (t2 + rest));
    assert(rest.len() > 0 && rest[0] == ',') by {
        reveal_strlit(",\"needs_cursor\":");
    }
    number_is_read(m.frame_id, rest);
    assert(q == c + k && k.len() >= 3 && k[0] == '"' && shielded(c, k) && shielded(q1, k)) by {
        reveal_strlit("{\"ready\":");
        reveal_strlit(",\"frame_id\":");
        reveal_strlit("\"frame_id\":");
        assert(q =~= c + k);
    }
    regrouped(front, c, k, q, t2 + rest);
    bool_is_shielded(m.ready, k);
    shields_join(q1, t1, k);
    shields_join(front, c, k);
    key_is_found(front + c, k, t2 + rest);
}

/// The part of the answer in front of the rate is shielded.
proof fn middle_is_shielded(m: MonitorModel, key: Seq<char>)
    requires
        key == "\"fps\":"@ || key == "\"has_geometry\":"@,
    ensures
        shielded(
            "{\"ready\":"@ + crate::server_state::bool_text(m.ready) + ",\"frame_id\":"@
                + crate::text::decimal(m.frame_id as nat) + ",\"needs_cursor\":"@
                + crate::server_state::bool_text(m.needs_cursor),
            key,
        ),
{
    let t1 = crate::server_state::bool_text(m.ready);
    let t2 = crate::text::decimal(m.frame_id as nat);
    let t3 = crate::server_state::bool_text(m.needs_cursor);
    let q1 = "{\"ready\":"@;
    let q2 = ",\"frame_id\":"@;
    let q3 = ",\"needs_cursor\":"@;
    assert(shielded(q1, key) && shielded(q2, key) && shielded(q3, key)) by {
        reveal_strlit("{\"ready\":");
        reveal_strlit(",\"frame_id\":");
        reveal_strlit(",\"needs_cursor\":");
        reveal_strlit("\"fps\":");
        reveal_strlit("\"has_geometry\":");
    }
    bool_is_shielded(m.ready, key);
    number_is_shielded(m.frame_id as nat, key);
    bool_is_shielded(m.needs_cursor, key);
    shields_join(q1, t1, key);
    shields_join(q1 + t1, q2, key);
    shields_join(q1 + t1 + q2, t2, key);
    shields_join(q1 + t1 + q2 + t2, q3, key);
    shields_join(q1 + t1 + q2 + t2 + q3, t3, key);
}

#[verifier::spinoff_prover]
proof fn fps_reads_back(m: MonitorModel)
    ensures
        crate::render_server::number_field(crate::server_state::meta_json(m), "\"fps\":"@) == Some(
            m.fps as u64,
        ),
{
    let t4 = crate::text::decimal(m.fps as nat);
    let q = ",\"fps\":"@;
    let k = "\"fps\":"@;
    let c = seq![','];
    let front = "{\"ready\":"@ + crate::server_state::bool_text(m.ready) + ",\"frame_id\":"@
        + crate::text::decimal(m.frame_id as nat) + ",\"needs_cursor\":"@
        + crate::server_state::bool_text(m.needs_cursor);
    let rest = ",\"has_geometry\":"@ + crate::server_state::bool_text(m.geometry is Some) + "}"@;
    assert(crate::server_state::meta_json(m) =~= front + q + (t4 + rest));
    middle_is_shielded(m, k);
    assert(rest.len() > 0 && rest[0] == ',') by {
        reveal_strlit(",\"has_geometry\":");
    }
    number_is_read(m.fps as u64, rest);
    assert(q == c + k && k.len() >= 3 && k[0] == '"' && shielded(c, k)) by {
        reveal_strlit(",\"fps\":");
        reveal_strlit("\"fps\":");
        assert(q =~= c + k);
    }
    regrouped(front, c, k, q, t4 + rest);
    shields_join(front, c, k);
    key_is_found(front + c, k, t4 + rest);
}

#[verifier::spinoff_prover]
proof fn has_geometry_reads_back(m: MonitorModel)
    ensures
        crate::render_server::bool_field(crate::server_state::meta_json(m), "\"has_geometry\":"@)
            == Some(m.geometry is Some),
{
    let t4 = crate::text::decimal(m.fps as nat);
    let t5 = crate::server_state::bool_text(m.geometry is Some);
    let q4 = ",\"fps\":"@;
    let q = ",\"has_geometry\":"@;
    let k = "\"has_geometry\":"@;
    let c = seq![','];
    let middle = "{\"ready\":"@ + crate::server_state::bool_text(m.ready) + ",\"frame_id\":"@
        + crate::text::decimal(m.frame_id as nat) + ",\"needs_cursor\":"@
        + crate::server_state::bool_text(m.needs_cursor);
    let front = middle + q4 + t4;
    let rest = "}"@;
    assert(crate::server_state::meta_json(m) =~= front + q + (t5 + rest));
    middle_is_shielded(m, k);
    bool_is_read(m.geometry is Some, rest);
    assert(q == c + k && k.len() >= 3 && k[0] == '"' && shielded(c, k) && shielded(q4, k)) by {
        reveal_strlit(",\"fps\":");
        reveal_strlit(",\"has_geometry\":");
        reveal_strlit("\"has_geometry\":");
        assert(q =~= c + k);
    }
    number_is_shielded(m.fps as nat, k);
    shields_join(middle, q4, k);
    shields_join(middle + q4, t4, k);
    shields_join(front, c, k);
    regrouped(front, c, k, q, t5 + rest);
    key_is_found(front + c, k, t5 + rest);
}

/// Whether the cursor is wanted can be read from what the server says of a
/// monitor's frames.
#[verifier::spinoff_prover]
pub proof fn needs_cursor_reads_back(m: MonitorModel)
    ensures
        crate::render_server::bool_field(crate::server_state::meta_json(m), "\"needs_cursor\":"@)
            == Some(m.needs_cursor),
{
    let t1 = crate::server_state::bool_text(m.ready);
    let t2 = crate::text::decimal(m.frame_id as nat);
    let t3 = crate::server_state::bool_text(m.needs_cursor);
    let q1 = "{\"ready\":"@;
    let q2 = ",\"frame_id\":"@;
    let q = ",\"needs_cursor\":"@;
    let k = "\"needs_cursor\":"@;
    let c = seq![','];
    let front = q1 + t1 + q2 + t2;
    let rest = ",\"fps\":"@ + crate::text::decimal(m.fps as nat) + ",\"has_geometry\":"@
        + crate::server_state::bool_text(m.geometry is Some) + "}"@;
    assert(crate::server_state::meta_json(m) =~= front + q + (t3 + rest));
    bool_is_read(m.needs_cursor, rest);
    assert(q == c + k && k.len() >= 3 && k[0] == '"' && shielded(c, k) && shielded(q1, k)
        && shielded(q2, k)) by {
        reveal_strlit("{\"ready\":");
        reveal_strlit(",\"frame_id\":");
        reveal_strlit(",\"needs_cursor\":");
        reveal_strlit("\"needs_cursor\":");
        assert(q =~= c + k);
    }
    bool_is_shielded(m.ready, k);
    number_is_shielded(m.frame_id as nat, k);
    shields_join(q1, t1, k);
    shields_join(q1 + t1, q2, k);
    shields_join(q1 + t1 + q2, t2, k);
    shields_join(front, c, k);
    regrouped(front, c, k, q, t3 + rest);
    key_is_found(front + c, k, t3 + rest);
}

/// What the server says of a monitor's frames is what its clients read.
pub proof fn meta_reads_back(m: MonitorModel)
    ensures
        crate::render_server::meta_of(crate::server_state::meta_json(m)) == Some(
            Meta {
                ready: m.ready,
                frame_id: m.frame_id,
                fps: m.fps,
                has_geometry: m.geometry is Some,
            },
        ),
{
    ready_reads_back(m);
    frame_id_reads_back(m);
    fps_reads_back(m);
    has_geometry_reads_back(m);
    let fps = m.fps;
    assert((fps as u64) as u32 == fps) by (bit_vector);
}

/// A geometry that a window tells the server of is cut into its four numbers.
pub proof fn geometry_reads_back(x: int, y: int, width: nat, height: nat)
    ensures
        crate::server_state::geometry_texts(crate::window::geometry_text(x, y, width, height))
            == Some(
            seq![
                crate::text::signed_decimal(x),
                crate::text::signed_decimal(y),
                crate::text::decimal(width),
                crate::text::decimal(height),
            ],
        ),
{
    let a = crate::text::signed_decimal(x);
    let b = crate::text::signed_decimal(y);
    let c = crate::text::decimal(width);
    let d = crate::text::decimal(height);
    reveal_strlit(",");
    let s = crate::window::geometry_text(x, y, width, height);
    signed_is_plain(x);
    signed_is_plain(y);
    crate::text::decimal_value(width);
    crate::text::decimal_value(height);
    let after_a = b + ","@ + c + ","@ + d;
    let after_b = c + ","@ + d;
    assert(s =~= a + ","@ + after_a);
    assert(after_a =~= b + ","@ + after_b);
    trimmed_as_it_is(s);
    part_in_front(a, after_a);
    part_in_front(b, after_b);
    part_in_front(c, d);
    crate::text::first_is_index_of_char(d, ',', d.len() as int);
    let parts = crate::text::split_char(s, ',');
    assert(crate::text::split_char(d, ',') =~= seq![d]);
    assert(parts =~= seq![a, b, c, d]);
    trimmed_as_it_is(a);
    trimmed_as_it_is(b);
    trimmed_as_it_is(c);
    trimmed_as_it_is(d);
    assert(crate::server_state::geometry_texts(s)->0 =~= seq![a, b, c, d]);
}

proof fn signed_is_plain(n: int)
    ensures
        crate::text::signed_decimal(n).len() > 0,
        forall|i: int|
            0 <= i < crate::text::signed_decimal(n).len() ==> #[trigger] crate::text::signed_decimal(
                n,
            )[i] != ',' && !crate::text::is_space(crate::text::signed_decimal(n)[i]),
{
    if n < 0 {
        let d = crate::text::decimal((-n) as nat);
        crate::text::decimal_value((-n) as nat);
        let s = crate::text::signed_decimal(n);
        assert forall|i: int| 0 <= i < s.len() implies #[trigger] s[i] != ','
            && !crate::text::is_space(s[i]) by {
            if i > 0 {
                assert(s[i] == d[i - 1]);
            }
        }
    } else {
        crate::text::decimal_value(n as nat);
    }
}

/// A text with no space at either end is left as it is.
proof fn trimmed_as_it_is(s: Seq<char>)
    requires
        s.len() > 0,
        !crate::text::is_space(s[0]),
        !crate::text::is_space(s.last()),
    ensures
        crate::text::trimmed(s) == s,
{
}

/// What stands before the first comma is the first part.
proof fn part_in_front(a: Seq<char>, rest: Seq<char>)
    requires
        forall|i: int| 0 <= i < a.len() ==> a[i] != ',',
    ensures
        crate::text::split_char(a + ","@ + rest, ',') == seq![a] + crate::text::split_char(
            rest,
            ',',
        ),
{
    reveal_strlit(",");
    let s = a + ","@ + rest;
    crate::text::first_is_index_of_char(s, ',', a.len() as int);
    assert(s.take(a.len() as int) =~= a);
    assert(s.skip(a.len() as int + 1) =~= rest);
}

/// A request about one monitor changes nothing of what is answered about
/// another.
pub proof fn monitors_are_independent(
    before: ServerState,
    after: ServerState,
    request: Request,
    other: Seq<char>,
)
    requires
        after.differs_at(
            before,
            crate::query::monitor_named(request.target@),
            crate::server_state::after_request(
                request,
                before.at(crate::query::monitor_named(request.target@)),
            ),
        ),
        other != crate::query::monitor_named(request.target@),
    ensures
        crate::server_state::frame_reply(after.at(other)) == crate::server_state::frame_reply(
            before.at(other),
        ),
        crate::server_state::meta_reply(after.at(other)) == crate::server_state::meta_reply(
            before.at(other),
        ),
{
    assert(after.at(other) == before.at(other));
}

/// A frame that is not empty is given out as it was put out, until the next
/// one.
pub proof fn published_frame_is_given_out(m: MonitorModel, frame: Seq<u8>, format: FrameFormat)
    requires
        frame.len() > 0,
        m.frame_bytes == frame,
        m.frame_format == format,
    ensures
        crate::server_state::frame_reply(m).status == 200,
        crate::server_state::frame_reply(m).body == frame,
        crate::server_state::frame_reply(m).content_type == Some(
            crate::server_state::content_type_of(format),
        ),
{
}

/// Asking changes nothing: neither for a frame, nor for what there is to know
/// of the frames, nor for what is not there.
pub proof fn asking_changes_nothing(request: Request, m: MonitorModel)
    requires
        !(crate::server_state::route_of(request.method, crate::query::path_part(request.target@))
            is Project),
        !(crate::server_state::route_of(request.method, crate::query::path_part(request.target@))
            is Geometry),
    ensures
        crate::server_state::after_request(request, m) == m,
{
}


// --- Routes ----------------------------------------------------------------

/// A project that is posted is handed to the render loop as it was posted, but
/// for the white space around it, and nothing else changes. One whose body
/// could not be read changes nothing, and is answered with an error.
pub proof fn posted_project_is_handed_over(request: Request, m: MonitorModel) -> (ends: (
    Seq<char>,
    Seq<char>,
))
    requires
        request.method is Post,
        crate::query::path_part(request.target@) == "/project"@,
    ensures
        ({
            let (front, back) = ends;
            let after = crate::server_state::after_request(request, m);
            let reply = crate::server_state::reply_to(request, m);
            &&& request.body_error is None ==> {
                &&& after.pending_project is Some
                &&& request.body@ == front + after.pending_project->0 + back
                &&& crate::text::all_space(front) && crate::text::all_space(back)
                &&& after.pending_project->0.len() > 0 ==> !crate::text::is_space(
                    after.pending_project->0[0],
                ) && !crate::text::is_space(after.pending_project->0.last())
                &&& after == m.with_pending(after.pending_project->0)
                &&& reply.status == 200
            }
            &&& request.body_error is Some ==> after == m && reply.status == 400
        }),
{
    crate::text::trimming_takes_space_alone(request.body@)
}

/// A geometry that is posted is taken in, and nothing else changes.
pub proof fn posted_geometry_is_taken_in(request: Request, m: MonitorModel)
    requires
        request.method is Post,
        crate::query::path_part(request.target@) == "/geometry"@,
    ensures
        crate::server_state::after_request(request, m).geometry == request.geometry,
        crate::server_state::after_request(request, m) == m.with_geometry(request.geometry),
        crate::server_state::reply_to(request, m).status == 200,
{
    routes_differ();
}

/// Who asks for the frame is given it, with its format; nothing is there before
/// the first.
pub proof fn asked_frame_is_given(request: Request, m: MonitorModel)
    requires
        request.method is Get,
        crate::query::path_part(request.target@) == "/frame"@,
    ensures
        ({
            let reply = crate::server_state::reply_to(request, m);
            &&& m.frame_bytes.len() > 0 ==> {
                &&& reply.status == 200
                &&& reply.body == m.frame_bytes
                &&& m.frame_format is Png ==> reply.content_type == Some("image/png"@)
                &&& m.frame_format is Bmp ==> reply.content_type == Some("image/bmp"@)
            }
            &&& m.frame_bytes.len() == 0 ==> reply.status == 404
        }),
        crate::server_state::after_request(request, m) == m,
{
    routes_differ();
}

/// Who asks what there is to know of the frames is told, as text that reads
/// back.
pub proof fn asked_meta_is_told(request: Request, m: MonitorModel)
    requires
        request.method is Get,
        crate::query::path_part(request.target@) == "/meta"@,
    ensures
        ({
            let reply = crate::server_state::reply_to(request, m);
            let text = crate::server_state::meta_json(m);
            &&& reply.status == 200
            &&& reply.content_type == Some("application/json"@)
            &&& reply.body == vstd::utf8::encode_utf8(text)
            &&& crate::render_server::meta_of(text) == Some(
                Meta {
                    ready: m.ready,
                    frame_id: m.frame_id,
                    fps: m.fps,
                    has_geometry: m.geometry is Some,
                },
            )
        }),
        crate::server_state::after_request(request, m) == m,
{
    routes_differ();
    meta_reads_back(m);
}

/// Whatever else is asked is not there.
pub proof fn all_else_is_not_there(request: Request, m: MonitorModel)
    requires
        ({
            let path = crate::query::path_part(request.target@);
            match request.method {
                crate::server_state::Method::Post => path != "/project"@ && path != "/geometry"@,
                crate::server_state::Method::Get => path != "/frame"@ && path != "/meta"@,
                crate::server_state::Method::Other => true,
            }
        }),
    ensures
        crate::server_state::reply_to(request, m).status == 404,
        crate::server_state::after_request(request, m) == m,
{
}

proof fn routes_differ()
    ensures
        "/project"@ != "/geometry"@,
        "/frame"@ != "/meta"@,
{
    reveal_strlit("/project");
    reveal_strlit("/geometry");
    reveal_strlit("/frame");
    reveal_strlit("/meta");
    assert("/project"@.len() == 8 && "/geometry"@.len() == 9);
    assert("/frame"@.len() == 6 && "/meta"@.len() == 5);
}

// --- What the render loop does ---------------------------------------------

/// A frame that is put out is another than the one before, and what is answered
/// is the frame as it was put out. Where the monitor shows and what has still
/// to be loaded stay.
pub proof fn put_out_frame_is_new(
    m: MonitorModel,
    needs_cursor: bool,
    fps: u32,
    bytes: Seq<u8>,
    format: FrameFormat,
)
    requires
        m.frame_id < u64::MAX,
    ensures
        ({
            let after = m.with_frame(needs_cursor, fps, bytes, format);
            &&& after.ready
            &&& after.frame_id > m.frame_id
            &&& after.needs_cursor == needs_cursor && after.fps == fps
            &&& after.frame_format == format
            &&& after.geometry == m.geometry && after.pending_project == m.pending_project
            &&& bytes.len() > 0 ==> crate::server_state::frame_reply(after).body == bytes
                && crate::server_state::frame_reply(after).status == 200
        }),
{
}

/// A window that has shown the frame before fetches the next one, once.
pub proof fn next_frame_is_fetched(
    m: MonitorModel,
    needs_cursor: bool,
    fps: u32,
    bytes: Seq<u8>,
    format: FrameFormat,
    p: crate::window::Poller,
)
    requires
        m.frame_id < u64::MAX,
        p.last_frame_id == m.frame_id,
    ensures
        ({
            let after = m.with_frame(needs_cursor, fps, bytes, format);
            let told = crate::render_server::meta_of(crate::server_state::meta_json(after));
            let (shows, first) = crate::window::polled(p, told);
            let (_, again) = crate::window::polled(shows, told);
            first.fetch_frame && !again.fetch_frame
        }),
{
    meta_reads_back(m.with_frame(needs_cursor, fps, bytes, format));
}

/// A project that is handed over waits until it is taken, and is not taken
/// twice; what is shown meanwhile stays.
pub proof fn pending_project_is_taken_once(m: MonitorModel, dir: Seq<char>)
    ensures
        m.with_pending(dir).pending_project == Some(dir),
        m.with_pending(dir).without_pending().pending_project is None,
        crate::server_state::frame_reply(m.with_pending(dir)) == crate::server_state::frame_reply(
            m,
        ),
        crate::server_state::meta_reply(m.with_pending(dir)) == crate::server_state::meta_reply(m),
        crate::server_state::frame_reply(m.without_pending()) == crate::server_state::frame_reply(
            m,
        ),
        crate::server_state::meta_reply(m.without_pending()) == crate::server_state::meta_reply(m),
{
}

// --- Clients ---------------------------------------------------------------

/// The bytes are a request with the method, target and body.
pub open spec fn is_request(
    bytes: Seq<u8>,
    method: Seq<char>,
    target: Seq<char>,
    body: Seq<char>,
) -> bool {
    bytes == vstd::utf8::encode_utf8(
        method + " "@ + target + " "@ + "HTTP/1.0\r\nHost: 127.0.0.1\r\n"@ + "Content-Length: "@
            + crate::text::decimal(vstd::utf8::encode_utf8(body).len()) + "\r\n\r\n"@,
    ) + vstd::utf8::encode_utf8(body)
}

/// A window's requests reach what they are for, and are about its monitor.
pub proof fn windows_reach_their_routes(name: Seq<char>, o: crate::randr::OutputModel)
    ensures
        ({
            let query = crate::query::monitor_query_text(name);
            &&& is_request(crate::window::meta_asked(query), "GET"@, "/meta?"@ + query, seq![])
            &&& is_request(crate::window::frame_asked(query), "GET"@, "/frame?"@ + query, seq![])
            &&& is_request(
                crate::window::geometry_told(query, o),
                "POST"@,
                "/geometry?"@ + query,
                crate::window::geometry_text(
                    o.x as int,
                    o.y as int,
                    o.width as nat,
                    o.height as nat,
                ),
            )
            &&& crate::query::path_part("/meta?"@ + query) == "/meta"@
            &&& crate::query::path_part("/frame?"@ + query) == "/frame"@
            &&& crate::query::path_part("/geometry?"@ + query) == "/geometry"@
            &&& crate::query::monitor_named("/meta?"@ + query) == name
            &&& crate::query::monitor_named("/frame?"@ + query) == name
            &&& crate::query::monitor_named("/geometry?"@ + query) == name
        }),
{
    let query = crate::query::monitor_query_text(name);
    reveal_strlit("/meta?");
    reveal_strlit("/frame?");
    reveal_strlit("/geometry?");
    reveal_strlit("/meta");
    reveal_strlit("/frame");
    reveal_strlit("/geometry");
    reveal_strlit("?");
    assert("/meta?"@ =~= "/meta"@ + "?"@);
    assert("/frame?"@ =~= "/frame"@ + "?"@);
    assert("/geometry?"@ =~= "/geometry"@ + "?"@);
    crate::query::request_names_its_monitor("/meta"@, name);
    crate::query::request_names_its_monitor("/frame"@, name);
    crate::query::request_names_its_monitor("/geometry"@, name);
    request_is_framed("GET"@, "/meta?"@ + query, seq![]);
    request_is_framed("GET"@, "/frame?"@ + query, seq![]);
    request_is_framed(
        "POST"@,
        "/geometry?"@ + query,
        crate::window::geometry_text(o.x as int, o.y as int, o.width as nat, o.height as nat),
    );
}

/// A request is one line with its method and target, lines of fields, the last
/// of which tells how long the body is, a blank line, and the body.
pub proof fn request_is_framed(method: Seq<char>, path: Seq<char>, body: Seq<char>) -> (fields: Seq<
    char,
>)
    ensures
        ({
            let len = vstd::utf8::encode_utf8(body).len();
            &&& crate::render_server::request_bytes(method, path, body)
                == vstd::utf8::encode_utf8(
                method + " "@ + path + " "@ + fields + "Content-Length: "@ + crate::text::decimal(
                    len,
                ) + "\r\n\r\n"@,
            ) + vstd::utf8::encode_utf8(body)
            &&& fields == "HTTP/1.0\r\nHost: 127.0.0.1\r\n"@
        }),
{
    let len = vstd::utf8::encode_utf8(body).len();
    let fields = "HTTP/1.0\r\nHost: 127.0.0.1\r\n"@;
    reveal_strlit(" HTTP/1.0\r\nHost: 127.0.0.1\r\nContent-Length: ");
    reveal_strlit("HTTP/1.0\r\nHost: 127.0.0.1\r\n");
    reveal_strlit("Content-Length: ");
    reveal_strlit(" ");
    assert(" HTTP/1.0\r\nHost: 127.0.0.1\r\nContent-Length: "@ =~= " "@ + fields
        + "Content-Length: "@);
    assert(crate::render_server::request_head(method, path, len) =~= method + " "@ + path + " "@
        + fields + "Content-Length: "@ + crate::text::decimal(len) + "\r\n\r\n"@);
    fields
}

/// The request that tells the server of a project posts the project's directory
/// to the route for projects, about the monitor that it is for.
pub proof fn pushed_project_is_framed(monitor: Seq<char>, body: Seq<char>) -> (fields: Seq<char>)
    ensures
        ({
            let len = vstd::utf8::encode_utf8(body).len();
            &&& crate::push::push_request(monitor, body, len) == "POST "@ + ("/project?monitor="@
                + monitor) + " "@ + fields + "Content-Length: "@ + crate::text::decimal(len)
                + "\r\nConnection: close\r\n\r\n"@ + body
            &&& fields == "HTTP/1.1\r\nHost: 127.0.0.1\r\n"@
        }),
        (forall|i: int| 0 <= i < monitor.len() ==> monitor[i] != '%' && monitor[i] != '&') ==> {
            &&& crate::query::monitor_named("/project?monitor="@ + monitor) == monitor
            &&& crate::query::path_part("/project?monitor="@ + monitor) == "/project"@
        },
{
    let len = vstd::utf8::encode_utf8(body).len();
    let fields = "HTTP/1.1\r\nHost: 127.0.0.1\r\n"@;
    reveal_strlit("POST /project?monitor=");
    reveal_strlit("POST ");
    reveal_strlit("/project?monitor=");
    reveal_strlit("?monitor=");
    reveal_strlit("/project");
    reveal_strlit(" HTTP/1.1\r\nHost: 127.0.0.1\r\nContent-Length: ");
    reveal_strlit("HTTP/1.1\r\nHost: 127.0.0.1\r\n");
    reveal_strlit("Content-Length: ");
    reveal_strlit(" ");
    assert("POST /project?monitor="@ =~= "POST "@ + "/project?monitor="@);
    assert("/project?monitor="@ =~= "/project"@ + "?monitor="@);
    assert(" HTTP/1.1\r\nHost: 127.0.0.1\r\nContent-Length: "@ =~= " "@ + fields
        + "Content-Length: "@);
    assert(crate::push::push_request(monitor, body, len) =~= "POST "@ + ("/project?monitor="@
        + monitor) + " "@ + fields + "Content-Length: "@ + crate::text::decimal(len)
        + "\r\nConnection: close\r\n\r\n"@ + body);
    if forall|i: int| 0 <= i < monitor.len() ==> monitor[i] != '%' && monitor[i] != '&' {
        crate::query::plain_name_is_understood("/project"@, monitor);
    }
    fields
}

/// A reply means success just when its status is 200, whatever follows; else
/// its first line is what went wrong.
pub proof fn replies_are_understood(rest: Seq<char>, other: Seq<char>)
    requires
        other.len() >= 12,
        other[9] != '2' || other[10] != '0' || other[11] != '0',
    ensures
        crate::push::reply_meaning("HTTP/1.1 200"@ + rest) is Ok,
        crate::push::reply_meaning(other) is Err,
        crate::text::lines_of(other).len() > 0 ==> crate::push::reply_meaning(other)
            == Err::<(), Seq<char>>(
            "render-server responded: "@ + crate::text::lines_of(other)[0],
        ),
{
    reveal_strlit("HTTP/1.1 200");
    assert(("HTTP/1.1 200"@ + rest).take(12) =~= "HTTP/1.1 200"@);
    if crate::text::starts_with(other, "HTTP/1.1 200"@) {
        assert(other.take(12)[9] == '2' && other.take(12)[10] == '0' && other.take(12)[11] == '0');
    }
}


/// A body that gives fewer than four numbers gives no geometry; spaces around
/// the numbers are no part of them.
pub proof fn geometry_needs_four_numbers(a: Seq<char>, b: Seq<char>, c: Seq<char>)
    requires
        forall|i: int| 0 <= i < a.len() ==> a[i] != ',',
        forall|i: int| 0 <= i < b.len() ==> b[i] != ',',
        forall|i: int| 0 <= i < c.len() ==> c[i] != ',',
        a.len() > 0,
        c.len() > 0,
        !crate::text::is_space(a[0]),
        !crate::text::is_space(c.last()),
    ensures
        crate::server_state::geometry_texts(a + ","@ + (b + ","@ + c)) is None,
{
    let body = a + ","@ + (b + ","@ + c);
    reveal_strlit(",");
    assert(body[0] == a[0]);
    assert(body.last() == c.last());
    trimmed_as_it_is(body);
    part_in_front(a, b + ","@ + c);
    part_in_front(b, c);
    crate::text::first_is_index_of_char(c, ',', c.len() as int);
}


/// Of a monitor that nothing is known of there is no frame, no rate, no place,
/// and nothing to load.
pub proof fn unknown_monitor_has_nothing()
    ensures
        ({
            let m = crate::server_state::blank_monitor();
            &&& crate::server_state::frame_reply(m).status == 404
            &&& m.pending_project is None
            &&& crate::render_server::meta_of(crate::server_state::meta_json(m)) == Some(
                Meta { ready: false, frame_id: 0, fps: 0, has_geometry: false },
            )
            &&& !m.needs_cursor
        }),
{
    meta_reads_back(crate::server_state::blank_monitor());
}

} // verus!
