//! A short animation that shows what a shader does to a picture.

use vstd::prelude::*;

use crate::project_format::{Effect, EffectKind, Layer, Mask, Project, Single};

verus! {

/// The side of the animation, in pixels.
pub const CANVAS_SIZE: u32 = 256;

pub const FPS: u32 = 20;

/// Two seconds.
pub const FRAME_COUNT: u32 = 40;

/// The project that shows a shader: one picture, with the shader switched on.
pub open spec fn shown_project(
    image: Seq<char>,
    shader: Seq<char>,
    params: Seq<Single>,
) -> crate::project_format::ProjectModel {
    crate::project_format::ProjectModel {
        name: seq![],
        description: seq![],
        layers: seq![
            crate::project_format::LayerModel::Image {
                path: image,
                effects: seq![
                    crate::project_format::EffectModel {
                        kind: crate::project_format::EffectKindModel::Shader {
                            wgsl_path: shader,
                            params,
                        },
                        mask: crate::project_format::MaskModel::Unmasked,
                        enabled: true,
                    },
                ],
            },
        ],
        fps: FPS,
    }
}

/// The project that shows a shader, with the given values for its parameters.
pub fn preview_project(image: String, shader: String, params: Vec<Single>) -> (r: Project)
    ensures
        r@ == shown_project(image@, shader@, params@),
{
    let ghost i = image@;
    let ghost s = shader@;
    let ghost p = params@;
    let effect = Effect {
        kind: EffectKind::Shader { wgsl_path: shader, params },
        mask: Mask::Unmasked,
        enabled: true,
    };
    let effects: Vec<Effect> = vec![effect];
    assert(crate::project_format::effects_view(effects@) =~= seq![effects@[0]@]);
    let layers: Vec<Layer> = vec![Layer::Image { path: image, effects }];
    let r = Project { name: String::new(), description: String::new(), layers, fps: FPS };
    assert(r@.layers =~= shown_project(i, s, p).layers);
    assert(r@.name =~= seq![]);
    assert(r@.description =~= seq![]);
    r
}

/// The side of the squares of a checkered picture: an eighth of its longer
/// side, and a pixel at least.
pub open spec fn cell_side(width: u32, height: u32) -> u32 {
    let side = if width > height {
        width
    } else {
        height
    };
    if side < 8 {
        1
    } else {
        side / 8
    }
}

/// The side of the squares of the checkered picture that stands in for one of
/// the user's own.
pub fn checker_cell(width: u32, height: u32) -> (r: u32)
    ensures
        r >= 1,
        r == cell_side(width, height),
{
    let side = if width > height {
        width
    } else {
        height
    };
    if side < 8 {
        1
    } else {
        side / 8
    }
}

/// A pixel lies in one of the light squares.
pub open spec fn is_light(x: int, y: int, cell: int) -> bool {
    (x / cell + y / cell) % 2 == 0
}

/// Whether a pixel lies in one of the light squares.
pub fn on_light_square(x: u32, y: u32, cell: u32) -> (r: bool)
    requires
        cell >= 1,
    ensures
        r == is_light(x as int, y as int, cell as int),
{
    (x / cell) % 2 == (y / cell) % 2
}


// --- Laws ------------------------------------------------------------------

/// The project shows the picture with the shader on all of it, switched on, and
/// with the given values.
pub proof fn shader_is_shown(image: Seq<char>, shader: Seq<char>, params: Seq<Single>)
    ensures
        ({
            let p = shown_project(image, shader, params);
            let nowhere: Seq<char> = seq![];
            &&& p.layers.len() == 1
            &&& crate::load::picture_files(nowhere, p.layers[0]) == seq![image]
            &&& p.layers[0].effects().len() == 1
            &&& crate::load::shader_file_of(nowhere, p.layers[0].effects()[0].kind) == Some(shader)
            &&& p.layers[0].effects()[0].kind->params == params
            &&& p.layers[0].effects()[0].enabled
            &&& p.layers[0].effects()[0].mask is Unmasked
        }),
{
    let nowhere: Seq<char> = seq![];
    assert(crate::paths::joined(nowhere, image) =~= image);
    assert(crate::paths::joined(nowhere, shader) =~= shader);
    assert(crate::load::picture_files(
        nowhere,
        shown_project(image, shader, params).layers[0],
    ) =~= seq![image]);
}

/// Light and dark squares take turns, to the right and downwards, and about
/// eight of them fit the longer side.
pub proof fn squares_take_turns(x: int, y: int, width: u32, height: u32)
    requires
        0 <= x,
        0 <= y,
    ensures
        ({
            let cell = cell_side(width, height) as int;
            &&& cell >= 1
            &&& is_light(0, 0, cell)
            &&& is_light(x + cell, y, cell) != is_light(x, y, cell)
            &&& is_light(x, y + cell, cell) != is_light(x, y, cell)
            &&& forall|dx: int, dy: int|
                0 <= dx < cell && 0 <= dy < cell ==> #[trigger] is_light(
                    x / cell * cell + dx,
                    y / cell * cell + dy,
                    cell,
                ) == is_light(x, y, cell)
            &&& width >= 8 && width >= height ==> 8 * cell <= width < 8 * (cell + 1)
            &&& height >= 8 && height >= width ==> 8 * cell <= height < 8 * (cell + 1)
        }),
{
    let cell = cell_side(width, height) as int;
    next_square(x, cell);
    next_square(y, cell);
    assert(0int / cell == 0) by (nonlinear_arith)
        requires
            cell >= 1,
    ;
    assert forall|dx: int, dy: int| 0 <= dx < cell && 0 <= dy < cell implies #[trigger] is_light(
        x / cell * cell + dx,
        y / cell * cell + dy,
        cell,
    ) == is_light(x, y, cell) by {
        within_square(x / cell, dx, cell);
        within_square(y / cell, dy, cell);
    }
}

proof fn next_square(x: int, cell: int)
    requires
        cell >= 1,
    ensures
        (x + cell) / cell == x / cell + 1,
{
    assert((x + cell) / cell == x / cell + 1) by (nonlinear_arith)
        requires
            cell >= 1,
    ;
}

proof fn within_square(q: int, d: int, cell: int)
    requires
        0 <= d < cell,
    ensures
        (q * cell + d) / cell == q,
{
    assert((q * cell + d) / cell == q) by (nonlinear_arith)
        requires
            0 <= d < cell,
    ;
}

} // verus!
