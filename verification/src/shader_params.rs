//! The parameters that a user's shader declares: fields of its uniform struct
//! with a JSON annotation in a comment behind them.

use vstd::prelude::*;

use crate::json::{
    json_error_of, json_number_member_of, json_numbers_member_of, json_text_member_of,
};
use crate::text::{
    chars_of, copy_range, decimal_chars, find_chars, lines, push_str, same_chars, split_once_char,
    string_of, trim_chars,
};

verus! {

/// The bit pattern of an IEEE 754 double.
pub type Double = u64;

/// One parameter of a shader: its field's name, what an editor calls it, its
/// first value and the bounds of its slider.
#[derive(Debug, PartialEq)]
pub struct ShaderParamSpec {
    pub name: String,
    pub label: String,
    pub default: Double,
    pub range: (Double, Double),
}

pub struct ShaderParamModel {
    pub name: Seq<char>,
    pub label: Seq<char>,
    pub default: Double,
    pub range: (Double, Double),
}

impl View for ShaderParamSpec {
    type V = ShaderParamModel;

    open spec fn view(&self) -> ShaderParamModel {
        ShaderParamModel {
            name: self.name@,
            label: self.label@,
            default: self.default,
            range: self.range,
        }
    }
}

/// What an annotation's JSON says: what is wrong with it, and what stands
/// under its three keys.
pub struct Annotation {
    pub error: Option<String>,
    pub label: Option<String>,
    pub default: Option<Double>,
    pub range: Option<Vec<Option<Double>>>,
}

pub struct AnnotationModel {
    pub error: Option<Seq<char>>,
    pub label: Option<Seq<char>>,
    pub default: Option<Double>,
    pub range: Option<Seq<Option<Double>>>,
}

impl View for Annotation {
    type V = AnnotationModel;

    open spec fn view(&self) -> AnnotationModel {
        AnnotationModel {
            error: match self.error {
                Some(e) => Some(e@),
                None => None,
            },
            label: match self.label {
                Some(l) => Some(l@),
                None => None,
            },
            default: self.default,
            range: match self.range {
                Some(r) => Some(r@),
                None => None,
            },
        }
    }
}

/// What the annotation's JSON says.
pub open spec fn annotation_of(text: Seq<char>) -> AnnotationModel {
    AnnotationModel {
        error: crate::json::json_error(text),
        label: crate::json::json_text_member(text, "label"@),
        default: crate::json::json_number_member(text, "default"@),
        range: crate::json::json_numbers_member(text, "range"@),
    }
}

/// `s` without the commas at its end.
pub open spec fn without_commas(s: Seq<char>) -> Seq<char>
    decreases s.len(),
{
    if s.len() > 0 && s.last() == ',' {
        without_commas(s.drop_last())
    } else {
        s
    }
}

/// The field that an annotation stands behind, as the code in front of the
/// comment writes it.
pub open spec fn field_text(code: Seq<char>) -> Seq<char> {
    crate::text::trimmed(without_commas(crate::text::trimmed(code)))
}

pub open spec fn no_field_message(line: nat) -> Seq<char> {
    "shader param annotation on line "@ + crate::text::decimal(line)
        + " isn't attached to a `name: type` field declaration"@
}

/// The beginning of every message about a named parameter.
pub open spec fn param_message(name: Seq<char>, line: nat) -> Seq<char> {
    "shader param '"@ + name + "' on line "@ + crate::text::decimal(line)
}

pub open spec fn wrong_type_message(name: Seq<char>, line: nat, ty: Seq<char>) -> Seq<char> {
    param_message(name, line) + " has type '"@ + ty
        + "' -- only f32 params are supported for now"@
}

/// The parameter that a field with an annotation declares, or what is wrong
/// with the annotation.
pub open spec fn annotated_param(name: Seq<char>, line: nat, a: AnnotationModel) -> Result<
    ShaderParamModel,
    Seq<char>,
> {
    if a.error is Some {
        Err(param_message(name, line) + " has an invalid annotation: "@ + a.error->0)
    } else if a.default is None {
        Err(param_message(name, line) + " is missing a numeric \"default\""@)
    } else if a.range is None || a.range->0.len() != 2 || a.range->0[0] is None
        || a.range->0[1] is None {
        Err(param_message(name, line) + " is missing a two-number \"range\""@)
    } else {
        Ok(
            ShaderParamModel {
                name,
                label: match a.label {
                    Some(l) => l,
                    None => name,
                },
                default: a.default->0,
                range: (a.range->0[0]->0, a.range->0[1]->0),
            },
        )
    }
}

/// What one line of a shader declares: nothing, a parameter, or an annotation
/// that is wrong.
pub open spec fn line_param(line: nat, s: Seq<char>) -> Result<
    Option<ShaderParamModel>,
    Seq<char>,
> {
    match crate::text::found(s, "//"@) {
        None => Ok(None),
        Some(at) => {
            let comment = crate::text::trimmed(s.skip(at + 2));
            if comment.len() == 0 || comment[0] != '{' {
                Ok(None)
            } else {
                match crate::text::cut_at(field_text(s.take(at)), ':') {
                    None => Err(no_field_message(line)),
                    Some((left, right)) => {
                        let name = crate::text::trimmed(left);
                        let ty = crate::text::trimmed(right);
                        if ty != "f32"@ {
                            Err(wrong_type_message(name, line, ty))
                        } else {
                            match annotated_param(name, line, annotation_of(comment)) {
                                Ok(p) => Ok(Some(p)),
                                Err(e) => Err(e),
                            }
                        }
                    },
                }
            }
        },
    }
}

/// The parameters that the lines declare, in order, or the first thing that is
/// wrong.
pub open spec fn lines_params(lines: Seq<Seq<char>>) -> Result<Seq<ShaderParamModel>, Seq<char>>
    decreases lines.len(),
{
    if lines.len() == 0 {
        Ok(seq![])
    } else {
        match lines_params(lines.drop_last()) {
            Err(e) => Err(e),
            Ok(before) => match line_param(lines.len(), lines.last()) {
                Err(e) => Err(e),
                Ok(None) => Ok(before),
                Ok(Some(p)) => Ok(before.push(p)),
            },
        }
    }
}

pub open spec fn params_view(params: Seq<ShaderParamSpec>) -> Seq<ShaderParamModel> {
    params.map_values(|p: ShaderParamSpec| p@)
}

fn strip_commas(s: Vec<char>) -> (r: Vec<char>)
    ensures
        r@ == without_commas(s@),
{
    let ghost whole = s@;
    let mut r = s;
    while r.len() > 0 && r[r.len() - 1] == ','
        invariant
            without_commas(r@) == without_commas(whole),
        decreases r.len(),
    {
        r.pop();
    }
    r
}

fn param_message_chars(name: &str, line: u64) -> (r: Vec<char>)
    ensures
        r@ == param_message(name@, line as nat),
{
    let mut m: Vec<char> = Vec::new();
    push_str(&mut m, "shader param '");
    push_str(&mut m, name);
    push_str(&mut m, "' on line ");
    let mut number = decimal_chars(line);
    m.append(&mut number);
    assert(m@ == param_message(name@, line as nat));
    m
}

/// The parameter that the field `name` on line `line` declares by its
/// annotation.
pub fn param_from_annotation(name: &str, line: u64, annotation: Annotation) -> (r: Result<
    ShaderParamSpec,
    String,
>)
    ensures
        match r {
            Ok(p) => annotated_param(name@, line as nat, annotation@) == Ok::<
                ShaderParamModel,
                Seq<char>,
            >(p@),
            Err(e) => annotated_param(name@, line as nat, annotation@) == Err::<
                ShaderParamModel,
                Seq<char>,
            >(e@),
        },
{
    match annotation.error {
        Some(error) => {
            let mut m = param_message_chars(name, line);
            push_str(&mut m, " has an invalid annotation: ");
            push_str(&mut m, error.as_str());
            return Err(string_of(m.as_slice()));
        },
        None => {},
    }
    let default = match annotation.default {
        Some(d) => d,
        None => {
            let mut m = param_message_chars(name, line);
            push_str(&mut m, " is missing a numeric \"default\"");
            return Err(string_of(m.as_slice()));
        },
    };
    let range: Option<(Double, Double)> = match &annotation.range {
        Some(items) => if items.len() == 2 {
            match (items[0], items[1]) {
                (Some(low), Some(high)) => Some((low, high)),
                _ => None,
            }
        } else {
            None
        },
        None => None,
    };
    match range {
        Some(bounds) => {
            let label = match annotation.label {
                Some(l) => l,
                None => name.to_string(),
            };
            Ok(ShaderParamSpec { name: name.to_string(), label, default, range: bounds })
        },
        None => {
            let mut m = param_message_chars(name, line);
            push_str(&mut m, " is missing a two-number \"range\"");
            Err(string_of(m.as_slice()))
        },
    }
}

fn read_annotation(text: &str) -> (r: Annotation)
    ensures
        r@ == annotation_of(text@),
{
    Annotation {
        error: json_error_of(text),
        label: json_text_member_of(text, "label"),
        default: json_number_member_of(text, "default"),
        range: json_numbers_member_of(text, "range"),
    }
}

fn parse_line(line: u64, s: &Vec<char>) -> (r: Result<Option<ShaderParamSpec>, String>)
    ensures
        match r {
            Ok(None) => line_param(line as nat, s@) == Ok::<
                Option<ShaderParamModel>,
                Seq<char>,
            >(None),
            Ok(Some(p)) => line_param(line as nat, s@) == Ok::<
                Option<ShaderParamModel>,
                Seq<char>,
            >(Some(p@)),
            Err(e) => line_param(line as nat, s@) == Err::<
                Option<ShaderParamModel>,
                Seq<char>,
            >(e@),
        },
{
    let slashes = chars_of("//");
    proof {
        reveal_strlit("//");
    }
    match find_chars(s.as_slice(), slashes.as_slice()) {
        None => Ok(None),
        Some(at) => {
            let end = s.len();
            let comment = trim_chars(copy_range(s.as_slice(), at + 2, end).as_slice());
            assert(s@.subrange(at + 2, s@.len() as int) == s@.skip(at + 2));
            if comment.len() == 0 || comment[0] != '{' {
                return Ok(None);
            }
            let code = copy_range(s.as_slice(), 0, at);
            assert(code@ == s@.take(at as int));
            let stripped = strip_commas(trim_chars(code.as_slice()));
            let field = trim_chars(stripped.as_slice());
            match split_once_char(field.as_slice(), ':') {
                None => {
                    let mut m: Vec<char> = Vec::new();
                    push_str(&mut m, "shader param annotation on line ");
                    let mut number = decimal_chars(line);
                    m.append(&mut number);
                    push_str(&mut m, " isn't attached to a `name: type` field declaration");
                    assert(m@ == no_field_message(line as nat));
                    Err(string_of(m.as_slice()))
                },
                Some((left, right)) => {
                    let name = string_of(trim_chars(left.as_slice()).as_slice());
                    let ty = trim_chars(right.as_slice());
                    let wanted = chars_of("f32");
                    if !same_chars(ty.as_slice(), wanted.as_slice()) {
                        let mut m = param_message_chars(name.as_str(), line);
                        push_str(&mut m, " has type '");
                        push_str(&mut m, string_of(ty.as_slice()).as_str());
                        push_str(&mut m, "' -- only f32 params are supported for now");
                        return Err(string_of(m.as_slice()));
                    }
                    let annotation = read_annotation(string_of(comment.as_slice()).as_str());
                    match param_from_annotation(name.as_str(), line, annotation) {
                        Ok(p) => Ok(Some(p)),
                        Err(e) => Err(e),
                    }
                },
            }
        },
    }
}

/// Reads the parameters that a shader declares, in the order of its lines. An
/// annotation that is wrong is an error, never passed over: the place of every
/// later parameter depends on it.
pub fn parse_shader_params(source: &str) -> (r: Result<Vec<ShaderParamSpec>, String>)
    ensures
        match r {
            Ok(params) => lines_params(crate::text::lines_of(source@)) == Ok::<
                Seq<ShaderParamModel>,
                Seq<char>,
            >(params_view(params@)),
            Err(e) => lines_params(crate::text::lines_of(source@)) == Err::<
                Seq<ShaderParamModel>,
                Seq<char>,
            >(e@),
        },
{
    let text = chars_of(source);
    let all = lines(text.as_slice());
    let ghost whole = crate::text::parts_view(all@);
    let mut params: Vec<ShaderParamSpec> = Vec::new();
    let mut i: usize = 0;
    assert(whole.take(0) == Seq::<Seq<char>>::empty());
    assert(params_view(params@) == Seq::<ShaderParamModel>::empty());
    while i < all.len()
        invariant
            i <= all@.len(),
            whole == crate::text::parts_view(all@),
            whole == crate::text::lines_of(source@),
            lines_params(whole.take(i as int)) == Ok::<Seq<ShaderParamModel>, Seq<char>>(
                params_view(params@),
            ),
        decreases all.len() - i,
    {
        let ghost upto = whole.take(i as int + 1);
        assert(upto.drop_last() == whole.take(i as int));
        assert(upto.last() == all@[i as int]@);
        match parse_line(i as u64 + 1, &all[i]) {
            Err(e) => {
                proof {
                    first_error_stays(whole, i as int + 1);
                }
                return Err(e);
            },
            Ok(None) => {},
            Ok(Some(p)) => {
                let ghost before = params@;
                params.push(p);
                assert(params_view(params@) == params_view(before).push(p@));
            },
        }
        i += 1;
    }
    assert(whole.take(all@.len() as int) == whole);
    Ok(params)
}

/// What is wrong with the first lines is what is wrong with all of them.
proof fn first_error_stays(lines: Seq<Seq<char>>, n: int)
    requires
        0 <= n <= lines.len(),
        lines_params(lines.take(n)) is Err,
    ensures
        lines_params(lines) == lines_params(lines.take(n)),
    decreases lines.len() - n,
{
    if n == lines.len() {
        assert(lines.take(n) == lines);
    } else {
        assert(lines.take(n + 1).drop_last() == lines.take(n));
        first_error_stays(lines, n + 1);
    }
}

/// No line is passed over: a shader without errors has as many parameters as
/// it has lines with an annotation.
pub proof fn every_annotation_is_a_parameter(lines: Seq<Seq<char>>)
    requires
        lines_params(lines) is Ok,
    ensures
        forall|i: int|
            0 <= i < lines.len() ==> line_param((i + 1) as nat, #[trigger] lines[i]) is Ok,
        lines_params(lines)->Ok_0.len() == lines.map(
            |i: int, s: Seq<char>| line_param((i + 1) as nat, s),
        ).filter(|p: Result<Option<ShaderParamModel>, Seq<char>>| p->Ok_0 is Some).len(),
    decreases lines.len(),
{
    let of_line = |i: int, s: Seq<char>| line_param((i + 1) as nat, s);
    let declares = |p: Result<Option<ShaderParamModel>, Seq<char>>| p->Ok_0 is Some;
    if lines.len() == 0 {
        reveal(Seq::filter);
        assert(lines.map(of_line) =~= seq![]);
    } else {
        let before = lines.drop_last();
        every_annotation_is_a_parameter(before);
        assert(lines.map(of_line).drop_last() =~= before.map(of_line));
        assert(lines.map(of_line).last() == line_param(lines.len(), lines.last()));
        reveal(Seq::filter);
        assert forall|i: int| 0 <= i < lines.len() implies line_param(
            (i + 1) as nat,
            #[trigger] lines[i],
        ) is Ok by {
            if i < lines.len() - 1 {
                assert(before[i] == lines[i]);
            }
        }
    }
}

/// A carriage return at the end of a line changes nothing in what it declares.
proof fn carriage_return_declares_nothing(line: nat, s: Seq<char>)
    ensures
        line_param(line, s) == line_param(line, crate::text::without_cr(s)),
{
    let t = crate::text::without_cr(s);
    if s != t {
        reveal_strlit("//");
        let slashes = "//"@;
        crate::text::found_is_first(s, slashes);
        crate::text::found_is_first(t, slashes);
        assert forall|i: int| crate::text::occurs_at(s, slashes, i) == crate::text::occurs_at(
            t,
            slashes,
            i,
        ) by {
            if crate::text::occurs_at(s, slashes, i) {
                assert(s.subrange(i, i + 2)[1] == s[i + 1]);
                assert(t.subrange(i, i + 2) =~= s.subrange(i, i + 2));
            }
            if crate::text::occurs_at(t, slashes, i) {
                assert(t.subrange(i, i + 2) =~= s.subrange(i, i + 2));
            }
        }
        match crate::text::found(t, slashes) {
            None => {},
            Some(at) => {
                crate::text::first_is_found(s, slashes, at);
                assert(s.skip(at + 2) =~= t.skip(at + 2).push('\r'));
                crate::text::trimmed_with_space(t.skip(at + 2), '\r');
                assert(s.take(at) =~= t.take(at));
            },
        }
    }
}

/// What lines declare, one after the other.
proof fn params_of_joined_lines(x: Seq<Seq<char>>, y: Seq<Seq<char>>)
    ensures
        lines_params(x) is Err ==> lines_params(x + y) == lines_params(x),
        lines_params(x) is Ok ==> lines_params(x + y) is Ok == lines_params(y) is Ok,
        lines_params(x) is Ok && lines_params(y) is Ok ==> lines_params(x + y) == Ok::<
            Seq<ShaderParamModel>,
            Seq<char>,
        >(lines_params(x)->Ok_0 + lines_params(y)->Ok_0),
    decreases y.len(),
{
    if y.len() == 0 {
        assert(x + y =~= x);
        if lines_params(x) is Ok {
            assert(lines_params(x)->Ok_0 + seq![] =~= lines_params(x)->Ok_0);
        }
    } else {
        params_of_joined_lines(x, y.drop_last());
        assert((x + y).drop_last() =~= x + y.drop_last());
        assert((x + y).last() == y.last());
        if lines_params(x) is Ok && lines_params(y) is Ok {
            assert(lines_params((x + y).drop_last()) is Ok);
            assert(lines_params(x + y)->Ok_0 =~= lines_params(x)->Ok_0 + lines_params(y)->Ok_0);
        }
    }
}

/// A line feed behind a shader changes nothing in what it declares.
proof fn params_of_ended_lines(s: Seq<char>)
    ensures
        lines_params(crate::text::ended_lines(s)) == lines_params(crate::text::lines_of(s)),
{
    let lines = crate::text::lines_of(s);
    let ended = crate::text::ended_lines(s);
    crate::text::ended_lines_are_lines(s);
    if s.len() == 0 || s.last() == '\n' {
        let empty: Seq<char> = seq![];
        assert(ended.drop_last() =~= lines);
        reveal_strlit("//");
        crate::text::found_is_first(empty, "//"@);
        assert(line_param(ended.len(), empty) == Ok::<Option<ShaderParamModel>, Seq<char>>(None));
    } else {
        assert(ended.drop_last() =~= lines.drop_last());
        carriage_return_declares_nothing(lines.len(), lines.last());
    }
}

/// A shader made of two parts, the one on the lines behind the other, declares
/// the parameters of the first and then those of the second. It is wrong where
/// either part is; where the first part is, in the same words.
pub proof fn params_of_joined_shaders(a: Seq<char>, b: Seq<char>)
    ensures
        ({
            let first = lines_params(crate::text::lines_of(a));
            let second = lines_params(crate::text::lines_of(b));
            let joined = lines_params(crate::text::lines_of(a + seq!['\n'] + b));
            &&& first is Ok && second is Ok ==> joined == Ok::<
                Seq<ShaderParamModel>,
                Seq<char>,
            >(first->Ok_0 + second->Ok_0)
            &&& first is Err ==> joined == first
            &&& first is Err || second is Err ==> joined is Err
        }),
{
    crate::text::lines_of_joined(a, b);
    params_of_ended_lines(a);
    params_of_joined_lines(crate::text::ended_lines(a), crate::text::lines_of(b));
}


// --- What a line declares --------------------------------------------------

/// The text can be a field's name or type: it is not empty, has no white space
/// at its ends, and nothing that parts a declaration.
pub open spec fn is_word(s: Seq<char>) -> bool {
    &&& s.len() > 0
    &&& !crate::text::is_space(s[0])
    &&& !crate::text::is_space(s.last())
    &&& forall|i: int|
        0 <= i < s.len() ==> #[trigger] s[i] != ':' && s[i] != '/' && s[i] != ','
}

/// A field with an annotation behind it, as shaders write it: its name, a
/// colon, its type, a comma, and the annotation in a comment, with as much
/// white space between them as anyone likes.
pub open spec fn declaration(
    gaps: Seq<Seq<char>>,
    name: Seq<char>,
    ty: Seq<char>,
    comment: Seq<char>,
) -> Seq<char> {
    gaps[0] + name + gaps[1] + seq![':'] + gaps[2] + ty + gaps[3] + seq![','] + gaps[4] + "//"@
        + comment
}

/// A field with an annotation behind it is the parameter that the annotation
/// describes, under the field's name; of another type it is an error.
pub proof fn declared_field_is_read(
    line: nat,
    gaps: Seq<Seq<char>>,
    name: Seq<char>,
    ty: Seq<char>,
    comment: Seq<char>,
)
    requires
        gaps.len() == 5,
        forall|g: int| 0 <= g < 5 ==> crate::text::all_space(#[trigger] gaps[g]),
        is_word(name),
        is_word(ty),
        crate::text::trimmed(comment).len() > 0,
        crate::text::trimmed(comment)[0] == '{',
    ensures
        ({
            let said = line_param(line, declaration(gaps, name, ty, comment));
            let param = annotated_param(
                name,
                line,
                annotation_of(crate::text::trimmed(comment)),
            );
            &&& ty == "f32"@ ==> match param {
                Ok(p) => said == Ok::<Option<ShaderParamModel>, Seq<char>>(Some(p)),
                Err(e) => said == Err::<Option<ShaderParamModel>, Seq<char>>(e),
            }
            &&& ty != "f32"@ ==> said is Err
        }),
{
    let bare = name + gaps[1] + seq![':'] + gaps[2] + ty;
    let comma = bare + gaps[3] + seq![','];
    let code = gaps[0] + comma + gaps[4];
    let s = declaration(gaps, name, ty, comment);
    reveal_strlit("//");
    assert(s =~= code + "//"@ + comment);
    assert forall|g: int, i: int| 0 <= g < 5 && 0 <= i < gaps[g].len() implies {
        &&& #[trigger] gaps[g][i] != '/'
        &&& gaps[g][i] != ':'
        &&& gaps[g][i] != ','
    } by {
        assert(crate::text::all_space(gaps[g]));
        assert(crate::text::is_space(gaps[g][i]));
    }
    plain_code(gaps, name, ty);
    assert forall|j: int| 0 <= j < code.len() implies !crate::text::occurs_at(s, "//"@, j) by {
        if crate::text::occurs_at(s, "//"@, j) {
            assert(s.subrange(j, j + 2)[0] == '/');
            assert(s[j] == code[j]);
        }
    }
    assert(s.subrange(code.len() as int, code.len() as int + 2) =~= "//"@);
    crate::text::first_is_found(s, "//"@, code.len() as int);
    assert(s.skip(code.len() as int + 2) =~= comment);
    assert(s.take(code.len() as int) =~= code);
    assert(crate::text::all_space(gaps[0]) && crate::text::all_space(gaps[4]));
    assert(comma[0] == name[0] && comma.last() == ',');
    crate::text::space_around_is_trimmed(gaps[0], comma, gaps[4]);
    let open = bare + gaps[3];
    assert(comma.drop_last() =~= open);
    if gaps[3].len() > 0 {
        assert(open.last() == gaps[3][gaps[3].len() - 1]);
    } else {
        assert(open.last() == ty[ty.len() - 1]);
    }
    assert(without_commas(open) == open);
    assert(without_commas(comma) == open);
    let nothing: Seq<char> = seq![];
    assert(open =~= nothing + bare + gaps[3]);
    assert(crate::text::all_space(gaps[3]));
    assert(bare[0] == name[0] && bare.last() == ty.last());
    crate::text::space_around_is_trimmed(nothing, bare, gaps[3]);
    assert(field_text(code) == bare);
    let at = (name.len() + gaps[1].len()) as int;
    assert forall|j: int| 0 <= j < at implies bare[j] != ':' by {
        if j < name.len() {
            assert(bare[j] == name[j]);
        } else {
            assert(bare[j] == gaps[1][j - name.len()]);
        }
    }
    assert(bare[at] == ':');
    crate::text::first_is_index_of_char(bare, ':', at);
    assert(bare.take(at) =~= nothing + name + gaps[1]);
    assert(bare.skip(at + 1) =~= gaps[2] + ty + nothing);
    assert(crate::text::all_space(gaps[1]) && crate::text::all_space(gaps[2]));
    crate::text::space_around_is_trimmed(nothing, name, gaps[1]);
    crate::text::space_around_is_trimmed(gaps[2], ty, nothing);
}

/// No part of the code in front of an annotation has a `/`.
proof fn plain_code(gaps: Seq<Seq<char>>, name: Seq<char>, ty: Seq<char>)
    requires
        gaps.len() == 5,
        forall|g: int, i: int|
            0 <= g < 5 && 0 <= i < gaps[g].len() ==> #[trigger] gaps[g][i] != '/',
        is_word(name),
        is_word(ty),
    ensures
        ({
            let code = gaps[0] + (name + gaps[1] + seq![':'] + gaps[2] + ty + gaps[3] + seq![','])
                + gaps[4];
            forall|j: int| 0 <= j < code.len() ==> #[trigger] code[j] != '/'
        }),
{
    no_slash(name, gaps[1]);
    no_slash(name + gaps[1], seq![':']);
    no_slash(name + gaps[1] + seq![':'], gaps[2]);
    no_slash(name + gaps[1] + seq![':'] + gaps[2], ty);
    no_slash(name + gaps[1] + seq![':'] + gaps[2] + ty, gaps[3]);
    no_slash(name + gaps[1] + seq![':'] + gaps[2] + ty + gaps[3], seq![',']);
    let comma = name + gaps[1] + seq![':'] + gaps[2] + ty + gaps[3] + seq![','];
    no_slash(gaps[0], comma);
    no_slash(gaps[0] + comma, gaps[4]);
}

proof fn no_slash(a: Seq<char>, b: Seq<char>)
    requires
        forall|j: int| 0 <= j < a.len() ==> #[trigger] a[j] != '/',
        forall|j: int| 0 <= j < b.len() ==> #[trigger] b[j] != '/',
    ensures
        forall|j: int| 0 <= j < (a + b).len() ==> #[trigger] (a + b)[j] != '/',
{
}

/// A line without a comment declares nothing, and neither does one whose
/// comment is no annotation.
pub proof fn plain_lines_declare_nothing(line: nat, s: Seq<char>)
    ensures
        crate::text::found(s, "//"@) is None ==> line_param(line, s) == Ok::<
            Option<ShaderParamModel>,
            Seq<char>,
        >(None),
        crate::text::found(s, "//"@) matches Some(at) ==> (crate::text::trimmed(
            s.skip(at + 2),
        ).len() == 0 || crate::text::trimmed(s.skip(at + 2))[0] != '{') ==> line_param(line, s)
            == Ok::<Option<ShaderParamModel>, Seq<char>>(None),
{
}

/// A parameter has the annotation's values, each for what it is; where the
/// annotation has no label, the field's name stands for it. What an annotation
/// lacks is an error.
pub proof fn parameter_has_the_annotations_values(
    name: Seq<char>,
    line: nat,
    label: Option<Seq<char>>,
    default: Double,
    low: Double,
    high: Double,
)
    ensures
        ({
            let whole = AnnotationModel {
                error: None,
                label,
                default: Some(default),
                range: Some(seq![Some(low), Some(high)]),
            };
            &&& annotated_param(name, line, whole) matches Ok(p) && {
                &&& p.name == name
                &&& p.default == default
                &&& p.range == (low, high)
                &&& label matches Some(l) ==> p.label == l
                &&& label is None ==> p.label == name
            }
            &&& annotated_param(name, line, AnnotationModel { default: None, ..whole }) is Err
            &&& annotated_param(name, line, AnnotationModel { range: None, ..whole }) is Err
            &&& annotated_param(
                name,
                line,
                AnnotationModel { range: Some(seq![Some(low)]), ..whole },
            ) is Err
            &&& annotated_param(
                name,
                line,
                AnnotationModel { range: Some(seq![Some(low), None]), ..whole },
            ) is Err
            &&& forall|e: Seq<char>|
                annotated_param(
                    name,
                    line,
                    AnnotationModel { error: Some(e), ..whole },
                ) == Err::<ShaderParamModel, Seq<char>>(
                    #[trigger] (param_message(name, line) + " has an invalid annotation: "@ + e),
                )
        }),
{
}


/// However many commas stand behind a field, they are no part of it.
pub proof fn commas_behind_a_field_are_left_out(s: Seq<char>)
    ensures
        without_commas(s.push(',')) == without_commas(s),
        without_commas(s).len() > 0 ==> without_commas(s).last() != ',',
        s.len() > 0 && s.last() != ',' ==> without_commas(s) == s,
    decreases s.len(),
{
    assert(s.push(',').drop_last() =~= s);
    if s.len() > 0 {
        commas_behind_a_field_are_left_out(s.drop_last());
    }
}


/// An annotation says what stands under its keys, and what is wrong with it.
pub proof fn annotations_are_read_by_their_keys(text: Seq<char>)
    ensures
        annotation_of(text).error == crate::json::json_error(text),
        annotation_of(text).label == crate::json::json_text_member(text, "label"@),
        annotation_of(text).default == crate::json::json_number_member(text, "default"@),
        annotation_of(text).range == crate::json::json_numbers_member(text, "range"@),
{
}


/// What is said of an annotation that is wrong names its line, and the field
/// where there is one.
pub proof fn wrong_annotations_are_named(name: Seq<char>, line: nat, ty: Seq<char>)
    ensures
        no_field_message(line) == "shader param annotation on line "@ + crate::text::decimal(line)
            + " isn't attached to a `name: type` field declaration"@,
        wrong_type_message(name, line, ty) == "shader param '"@ + name + "' on line "@
            + crate::text::decimal(line) + " has type '"@ + ty
            + "' -- only f32 params are supported for now"@,
{
}

} // verus!
