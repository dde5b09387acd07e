//! Addressing of face coordinates into the flat "vertical cross" buffer.
use vstd::prelude::*;
use crate::cube::{Face, Uv};

verus! {

/// The buffer of a cube with edge `resolution` holds `6 * resolution^2`
/// pixels, and their count must be addressable.
pub open spec fn valid_resolution(resolution: u32) -> bool {
    1 <= resolution && 6 * resolution * resolution <= usize::MAX
}

/// First row of a face's band.
pub open spec fn y_min(resolution: u32, face: Face) -> int {
    face.index_spec() * resolution
}

/// Last row of a face's band.
pub open spec fn y_max(resolution: u32, face: Face) -> int {
    y_min(resolution, face) + resolution - 1
}

/// Last column.
pub open spec fn x_max(resolution: u32) -> int {
    resolution - 1
}

/// `floor(k - num / den)`.
pub open spec fn floor_below(k: int, num: int, den: int) -> int {
    (k * den - num) / den
}

/// `floor(k + num / den)`.
pub open spec fn floor_above(k: int, num: int, den: int) -> int {
    (k * den + num) / den
}

/// The buffer column and row of a point of a face, each truncated from the
/// continuous value that the face's transform gives.
pub open spec fn face_xy(resolution: u32, face: Face, uv: Uv) -> (int, int) {
    let u = uv.u_num as int;
    let v = uv.v_num as int;
    let d = uv.den as int;
    let ymin = y_min(resolution, face);
    let ymax = y_max(resolution, face);
    let xmax = x_max(resolution);
    match face {
        Face::PX => (floor_above(0, v, d), floor_below(ymax, u, d)),
        Face::NX => (floor_below(xmax, v, d), floor_below(ymax, u, d)),
        Face::PY => (floor_above(0, u, d), floor_below(ymax, v, d)),
        Face::NY => (floor_above(0, u, d), floor_above(ymin, v, d)),
        Face::PZ => (floor_below(xmax, u, d), floor_below(ymax, v, d)),
        Face::NZ => (floor_above(0, u, d), floor_below(ymax, v, d)),
    }
}

/// Index of a point of a face in the buffer: column plus row times `resolution`.
pub open spec fn address_spec(resolution: u32, face: Face, uv: Uv) -> int {
    let (x, y) = face_xy(resolution, face, uv);
    x + y * resolution
}

proof fn lemma_floor_below_bounds(k: int, num: int, den: int, span: int)
    requires
        0 < den,
        0 <= num <= span * den,
        0 <= span <= k,
    ensures
        k - span <= floor_below(k, num, den) <= k,
{
    assert(k * den - num <= k * den);
    assert((k - span) * den <= k * den - num) by (nonlinear_arith)
        requires
            num <= span * den,
    ;
    vstd::arithmetic::div_mod::lemma_div_is_ordered(k * den - num, k * den, den);
    vstd::arithmetic::div_mod::lemma_div_is_ordered((k - span) * den, k * den - num, den);
    vstd::arithmetic::div_mod::lemma_div_by_multiple(k, den);
    vstd::arithmetic::div_mod::lemma_div_by_multiple(k - span, den);
}

proof fn lemma_floor_above_bounds(k: int, num: int, den: int, span: int)
    requires
        0 < den,
        0 <= num <= span * den,
        0 <= k,
        0 <= span,
    ensures
        k <= floor_above(k, num, den) <= k + span,
{
    assert(k * den <= k * den + num);
    assert(k * den + num <= (k + span) * den) by (nonlinear_arith)
        requires
            num <= span * den,
    ;
    vstd::arithmetic::div_mod::lemma_div_is_ordered(k * den, k * den + num, den);
    vstd::arithmetic::div_mod::lemma_div_is_ordered(k * den + num, (k + span) * den, den);
    vstd::arithmetic::div_mod::lemma_div_by_multiple(k, den);
    vstd::arithmetic::div_mod::lemma_div_by_multiple(k + span, den);
}

/// Every point of a face lands in the face's band of rows, inside the buffer.
pub proof fn lemma_face_xy_in_band(resolution: u32, face: Face, uv: Uv)
    requires
        resolution >= 1,
        uv.wf(resolution),
    ensures
        0 <= face_xy(resolution, face, uv).0 <= x_max(resolution),
        y_min(resolution, face) <= face_xy(resolution, face, uv).1 <= y_max(resolution, face),
{
    let u = uv.u_num as int;
    let v = uv.v_num as int;
    let d = uv.den as int;
    let span = resolution - 1;
    let ymin = y_min(resolution, face);
    let ymax = y_max(resolution, face);
    assert(0 <= ymin) by (nonlinear_arith)
        requires
            ymin == face.index_spec() * resolution,
    ;
    lemma_floor_above_bounds(0, u, d, span);
    lemma_floor_above_bounds(0, v, d, span);
    lemma_floor_below_bounds(span, u, d, span);
    lemma_floor_below_bounds(span, v, d, span);
    lemma_floor_below_bounds(ymax, u, d, span);
    lemma_floor_below_bounds(ymax, v, d, span);
    lemma_floor_above_bounds(ymin, v, d, span);
}

/// Every point of a face has an index inside the buffer.
pub proof fn lemma_address_in_range(resolution: u32, face: Face, uv: Uv)
    requires
        resolution >= 1,
        uv.wf(resolution),
    ensures
        0 <= address_spec(resolution, face, uv) < 6 * resolution * resolution,
{
    lemma_face_xy_in_band(resolution, face, uv);
    let (x, y) = face_xy(resolution, face, uv);
    let res = resolution as int;
    assert(face.index_spec() * res <= 5 * res) by (nonlinear_arith)
        requires
            face.index_spec() <= 5,
            res >= 1,
    ;
    assert(0 <= x + y * res <= (res - 1) + (6 * res - 1) * res) by (nonlinear_arith)
        requires
            0 <= x <= res - 1,
            0 <= y <= 6 * res - 1,
    ;
    assert((res - 1) + (6 * res - 1) * res < 6 * res * res) by (nonlinear_arith)
        requires
            res >= 1,
    ;
}

/// The buffer column and row of face coordinates `(0, 0)` of each face.
pub open spec fn low_corner(resolution: u32, face: Face) -> (int, int) {
    let ymin = y_min(resolution, face);
    let ymax = y_max(resolution, face);
    let xmax = x_max(resolution);
    match face {
        Face::PX => (0, ymax),
        Face::NX => (xmax, ymax),
        Face::PY => (0, ymax),
        Face::NY => (0, ymin),
        Face::PZ => (xmax, ymax),
        Face::NZ => (0, ymax),
    }
}

/// The buffer column and row of face coordinates
/// `(resolution - 1, resolution - 1)` of each face.
pub open spec fn high_corner(resolution: u32, face: Face) -> (int, int) {
    let ymin = y_min(resolution, face);
    let ymax = y_max(resolution, face);
    let xmax = x_max(resolution);
    match face {
        Face::PX => (xmax, ymin),
        Face::NX => (0, ymin),
        Face::PY => (xmax, ymin),
        Face::NY => (xmax, ymax),
        Face::PZ => (0, ymin),
        Face::NZ => (xmax, ymin),
    }
}

/// On every face, coordinates `(0, 0)` and `(resolution - 1, resolution - 1)`
/// land on the corners of the face's square that the vertical cross layout
/// puts them on.
pub proof fn lemma_face_corners(resolution: u32, face: Face)
    requires
        resolution >= 1,
    ensures
        face_xy(resolution, face, Uv { u_num: 0, v_num: 0, den: 1 }) == low_corner(resolution, face),
        face_xy(
            resolution,
            face,
            Uv { u_num: (resolution - 1) as u64, v_num: (resolution - 1) as u64, den: 1 },
        ) == high_corner(resolution, face),
{
}

/// `floor(k - num / den)` in machine arithmetic.
fn floor_below_exec(k: u64, num: u64, den: u64) -> (r: u64)
    requires
        0 < den,
        num <= k * den,
    ensures
        r == floor_below(k as int, num as int, den as int),
{
    proof {
        lemma_floor_below_bounds(k as int, num as int, den as int, k as int);
        assert(k * den <= u64::MAX * u64::MAX) by (nonlinear_arith)
            requires
                k <= u64::MAX,
                den <= u64::MAX,
        ;
    }
    let wide: u128 = k as u128 * den as u128 - num as u128;
    (wide / den as u128) as u64
}

/// `floor(k + num / den)` in machine arithmetic.
fn floor_above_exec(k: u64, num: u64, den: u64, span: u64) -> (r: u64)
    requires
        0 < den,
        num <= span * den,
        k + span <= u64::MAX,
    ensures
        r == floor_above(k as int, num as int, den as int),
{
    proof {
        lemma_floor_above_bounds(k as int, num as int, den as int, span as int);
        assert(k * den + num <= (k + span) * den) by (nonlinear_arith)
            requires
                num <= span * den,
        ;
        assert((k + span) * den <= u64::MAX * u64::MAX) by (nonlinear_arith)
            requires
                k + span <= u64::MAX,
                den <= u64::MAX,
        ;
    }
    let wide: u128 = k as u128 * den as u128 + num as u128;
    (wide / den as u128) as u64
}

/// The buffer index of a point of a face.  The point's continuous column and
/// row are given by the face's transform and then truncated.
pub fn address(res: u32, face: Face, pos: Uv) -> (r: usize)
    requires
        valid_resolution(res),
        pos.wf(res),
    ensures
        r == address_spec(res, face, pos),
        r < 6 * res * res,
{
    proof {
        lemma_face_xy_in_band(res, face, pos);
        lemma_address_in_range(res, face, pos);
        assert(face.index_spec() * res <= 5 * res) by (nonlinear_arith)
            requires
                face.index_spec() <= 5,
        ;
    }
    let span: u64 = (res - 1) as u64;
    let y_min: u64 = face.index() as u64 * res as u64;
    let y_max: u64 = y_min + span;
    let x_max: u64 = span;
    let u = pos.u_num;
    let v = pos.v_num;
    let d = pos.den;
    proof {
        assert(span * d <= y_max * d) by (nonlinear_arith)
            requires
                span <= y_max,
        ;
    }
    let (x, y) = match face {
        Face::PX => (floor_above_exec(0, v, d, span), floor_below_exec(y_max, u, d)),
        Face::NX => (floor_below_exec(x_max, v, d), floor_below_exec(y_max, u, d)),
        Face::PY => (floor_above_exec(0, u, d, span), floor_below_exec(y_max, v, d)),
        Face::NY => (floor_above_exec(0, u, d, span), floor_above_exec(y_min, v, d, span)),
        Face::PZ => (floor_below_exec(x_max, u, d), floor_below_exec(y_max, v, d)),
        Face::NZ => (floor_above_exec(0, u, d, span), floor_below_exec(y_max, v, d)),
    };
    proof {
        assert(y <= y * res) by (nonlinear_arith)
            requires
                res >= 1,
                y >= 0,
        ;
    }
    (x as usize) + (y as usize) * (res as usize)
}

} // verus!
