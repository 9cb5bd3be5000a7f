//! The bytes of the uniform buffers that the effect shaders read.

use vstd::prelude::*;

use crate::bytes::byte;
use crate::project_format::{Mask, Single, Transform2D, ONE, THREE, TWO, ZERO};

verus! {

/// The bytes of a run of singles, each least significant byte first.
pub open spec fn singles_bytes(values: Seq<Single>) -> Seq<u8>
    decreases values.len(),
{
    if values.len() == 0 {
        seq![]
    } else {
        singles_bytes(values.drop_last()) + crate::bytes::le4(values.last())
    }
}

fn pack4(a: Single, b: Single, c: Single, d: Single) -> (r: [u8; 16])
    ensures
        r@ == singles_bytes(seq![a, b, c, d]),
{
    let r = [
        byte(a, 0),
        byte(a, 8),
        byte(a, 16),
        byte(a, 24),
        byte(b, 0),
        byte(b, 8),
        byte(b, 16),
        byte(b, 24),
        byte(c, 0),
        byte(c, 8),
        byte(c, 16),
        byte(c, 24),
        byte(d, 0),
        byte(d, 8),
        byte(d, 16),
        byte(d, 24),
    ];
    proof {
        four_singles(a, b, c, d);
        assert(r@ =~= crate::bytes::le4(a) + crate::bytes::le4(b) + crate::bytes::le4(c)
            + crate::bytes::le4(d));
    }
    r
}

proof fn four_singles(a: Single, b: Single, c: Single, d: Single)
    ensures
        singles_bytes(seq![a, b, c, d]) == crate::bytes::le4(a) + crate::bytes::le4(b)
            + crate::bytes::le4(c) + crate::bytes::le4(d),
{
    reveal_with_fuel(singles_bytes, 5);
    assert(seq![a, b, c, d].drop_last() =~= seq![a, b, c]);
    assert(seq![a, b, c].drop_last() =~= seq![a, b]);
    assert(seq![a, b].drop_last() =~= seq![a]);
    assert(seq![a].drop_last() =~= Seq::<Single>::empty());
    assert(singles_bytes(seq![a]) =~= crate::bytes::le4(a));
}

/// Bytes of one run of singles behind those of another.
proof fn singles_bytes_append(x: Seq<Single>, y: Seq<Single>)
    ensures
        singles_bytes(x + y) == singles_bytes(x) + singles_bytes(y),
    decreases y.len(),
{
    if y.len() == 0 {
        assert(x + y =~= x);
        assert(singles_bytes(x) + singles_bytes(y) =~= singles_bytes(x));
    } else {
        singles_bytes_append(x, y.drop_last());
        assert((x + y).drop_last() =~= x + y.drop_last());
        assert(singles_bytes(x + y) =~= singles_bytes(x) + singles_bytes(y));
    }
}

fn pack8(low: [u8; 16], high: [u8; 16]) -> (r: [u8; 32])
    ensures
        r@ == low@ + high@,
{
    let r = [
        low[0],
        low[1],
        low[2],
        low[3],
        low[4],
        low[5],
        low[6],
        low[7],
        low[8],
        low[9],
        low[10],
        low[11],
        low[12],
        low[13],
        low[14],
        low[15],
        high[0],
        high[1],
        high[2],
        high[3],
        high[4],
        high[5],
        high[6],
        high[7],
        high[8],
        high[9],
        high[10],
        high[11],
        high[12],
        high[13],
        high[14],
        high[15],
    ];
    assert(r@ =~= low@ + high@);
    r
}

/// The parameters of the vignette shader.
pub fn vignette_uniform_bytes(strength: Single, softness: Single) -> (r: [u8; 16])
    ensures
        r@ == singles_bytes(seq![strength, softness, ZERO, ZERO]),
{
    pack4(strength, softness, ZERO, ZERO)
}

/// The parameters of the colour adjustment shader.
pub fn coloradjust_uniform_bytes(brightness: Single, contrast: Single, saturation: Single) -> (r:
    [u8; 16])
    ensures
        r@ == singles_bytes(seq![brightness, contrast, saturation, ZERO]),
{
    pack4(brightness, contrast, saturation, ZERO)
}

/// The parameters of one pass of the blur shader: `(1, 0)` is the direction of
/// the horizontal pass, `(0, 1)` that of the vertical one.
pub fn blur_uniform_bytes(radius: Single, direction: (Single, Single)) -> (r: [u8; 16])
    ensures
        r@ == singles_bytes(seq![radius, direction.0, direction.1, ZERO]),
{
    pack4(radius, direction.0, direction.1, ZERO)
}

/// The parameters of the smoke shader.
pub fn smoke_uniform_bytes(
    color: [Single; 4],
    cursor_uv: (Single, Single),
    decay: Single,
    radius: Single,
) -> (r: [u8; 32])
    ensures
        r@ == singles_bytes(color@ + seq![cursor_uv.0, cursor_uv.1, decay, radius]),
{
    let low = pack4(color[0], color[1], color[2], color[3]);
    let high = pack4(cursor_uv.0, cursor_uv.1, decay, radius);
    proof {
        assert(seq![color[0], color[1], color[2], color[3]] =~= color@);
        singles_bytes_append(color@, seq![cursor_uv.0, cursor_uv.1, decay, radius]);
    }
    pack8(low, high)
}

/// The parameters of the x-ray shader: the cursor and the circle's radius.
pub fn xray_uniform_bytes(cursor_px: (Single, Single), radius: Single) -> (r: [u8; 16])
    ensures
        r@ == singles_bytes(seq![cursor_px.0, cursor_px.1, radius, ZERO]),
{
    pack4(cursor_px.0, cursor_px.1, radius, ZERO)
}

/// What a mask's shader reads: transform, feather, whether it is inverted, and
/// which kind of mask it is.
pub open spec fn mask_singles(
    mask: crate::project_format::MaskModel,
    canvas_aspect: Single,
) -> Seq<Single> {
    let (transform, feather, invert, mode) = match mask {
        crate::project_format::MaskModel::Unmasked => (
            Transform2D::centred(),
            ZERO,
            false,
            ZERO,
        ),
        crate::project_format::MaskModel::Circle { transform, feather, invert } => (
            transform,
            feather,
            invert,
            ONE,
        ),
        crate::project_format::MaskModel::Gradient { transform, feather, invert } => (
            transform,
            feather,
            invert,
            TWO,
        ),
        crate::project_format::MaskModel::Texture { invert, .. } => (
            Transform2D::centred(),
            ZERO,
            invert,
            THREE,
        ),
    };
    seq![
        transform.x,
        transform.y,
        transform.scale,
        transform.rotation,
        feather,
        (if invert {
            ONE
        } else {
            ZERO
        }),
        mode,
        canvas_aspect,
    ]
}

/// The parameters of the mask shader.
pub fn mask_uniform_bytes(mask: &Mask, canvas_aspect: Single) -> (r: [u8; 32])
    ensures
        r@ == singles_bytes(mask_singles(mask@, canvas_aspect)),
{
    let (transform, feather, invert, mode): (Transform2D, Single, bool, Single) = match mask {
        Mask::Unmasked => (Transform2D::default(), ZERO, false, ZERO),
        Mask::Circle { transform, feather, invert } => (*transform, *feather, *invert, ONE),
        Mask::Gradient { transform, feather, invert } => (*transform, *feather, *invert, TWO),
        Mask::Texture { invert, .. } => (Transform2D::default(), ZERO, *invert, THREE),
    };
    let inverted: Single = if invert {
        ONE
    } else {
        ZERO
    };
    let low = pack4(transform.x, transform.y, transform.scale, transform.rotation);
    let high = pack4(feather, inverted, mode, canvas_aspect);
    proof {
        let front = seq![transform.x, transform.y, transform.scale, transform.rotation];
        let back = seq![feather, inverted, mode, canvas_aspect];
        singles_bytes_append(front, back);
        assert(front + back =~= mask_singles(mask@, canvas_aspect));
    }
    pack8(low, high)
}

/// The parameters of a user's shader: the cursor, the time and the canvas's
/// aspect, then the values of its own parameters in order.
pub fn shader_uniform_bytes(
    cursor: (Single, Single),
    time: Single,
    canvas_aspect: Single,
    params: &Vec<Single>,
) -> (r: Vec<u8>)
    ensures
        r@ == singles_bytes(seq![cursor.0, cursor.1, time, canvas_aspect] + params@),
{
    let engine = pack4(cursor.0, cursor.1, time, canvas_aspect);
    let ghost front = seq![cursor.0, cursor.1, time, canvas_aspect];
    let mut r: Vec<u8> = Vec::new();
    let mut k: usize = 0;
    while k < 16
        invariant
            k <= 16,
            r@ == engine@.take(k as int),
        decreases 16 - k,
    {
        r.push(engine[k]);
        assert(engine@.take(k as int + 1) =~= engine@.take(k as int).push(engine@[k as int]));
        k += 1;
    }
    assert(engine@.take(16) =~= engine@);
    let mut i: usize = 0;
    assert(front + params@.take(0) =~= front);
    while i < params.len()
        invariant
            i <= params@.len(),
            r@ == singles_bytes(front + params@.take(i as int)),
        decreases params.len() - i,
    {
        crate::bytes::push_le4(&mut r, params[i]);
        assert((front + params@.take(i as int + 1)).drop_last() =~= front + params@.take(
            i as int,
        ));
        i += 1;
    }
    assert(params@.take(params@.len() as int) =~= params@);
    r
}

/// Every uniform buffer is four bytes for each of its singles.
pub proof fn singles_bytes_len(values: Seq<Single>)
    ensures
        singles_bytes(values).len() == 4 * values.len(),
    decreases values.len(),
{
    if values.len() > 0 {
        singles_bytes_len(values.drop_last());
    }
}

/// What a shader reads at the place of a value is that value.
pub proof fn single_reads_back(values: Seq<Single>, i: int)
    requires
        0 <= i < values.len(),
    ensures
        crate::bytes::from_le4(singles_bytes(values).subrange(4 * i, 4 * i + 4)) == values[i],
    decreases values.len(),
{
    singles_bytes_len(values);
    singles_bytes_len(values.drop_last());
    let all = singles_bytes(values);
    let before = singles_bytes(values.drop_last());
    if i == values.len() - 1 {
        assert(all.subrange(4 * i, 4 * i + 4) =~= crate::bytes::le4(values[i]));
        crate::bytes::le4_round_trip(values[i]);
    } else {
        single_reads_back(values.drop_last(), i);
        assert(all.subrange(4 * i, 4 * i + 4) =~= before.subrange(4 * i, 4 * i + 4));
    }
}

} // verus!
