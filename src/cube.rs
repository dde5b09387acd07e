//! Dominant-axis projection of a direction onto the faces of a cube.
use vstd::prelude::*;

verus! {

/// One of the six faces of the cube; the order gives the face's band of
/// rows in the buffer.
#[derive(Debug, Clone, Copy, PartialEq, Eq, Structural)]
pub enum Face {
    PX,
    NX,
    PY,
    NY,
    PZ,
    NZ,
}

impl Face {
    /// Position of the face in the buffer, counted in bands of `resolution` rows.
    pub open spec fn index_spec(self) -> nat {
        match self {
            Face::PX => 0,
            Face::NX => 1,
            Face::PY => 2,
            Face::NY => 3,
            Face::PZ => 4,
            Face::NZ => 5,
        }
    }

    pub fn index(self) -> (r: u32)
        ensures
            r == self.index_spec(),
            r < 6,
    {
        match self {
            Face::PX => 0,
            Face::NX => 1,
            Face::PY => 2,
            Face::NY => 3,
            Face::PZ => 4,
            Face::NZ => 5,
        }
    }
}

/// A direction in space, in fixed-point components.  Only the ratios of
/// the components matter to the projection.
#[derive(Debug, Clone, Copy, PartialEq, Eq, Structural)]
pub struct Direction {
    pub x: i32,
    pub y: i32,
    pub z: i32,
}

/// Absolute value of a component.
pub open spec fn mag(c: i32) -> nat {
    if c < 0 {
        (-c) as nat
    } else {
        c as nat
    }
}

/// Continuous face-local coordinates: `u = u_num / den`, `v = v_num / den`.
#[derive(Debug, Clone, Copy, PartialEq, Eq, Structural)]
pub struct Uv {
    pub u_num: u64,
    pub v_num: u64,
    pub den: u64,
}

impl Uv {
    /// Both coordinates lie in `[0, resolution - 1]`.
    pub open spec fn wf(self, resolution: u32) -> bool {
        &&& self.den > 0
        &&& self.u_num <= (resolution - 1) * self.den
        &&& self.v_num <= (resolution - 1) * self.den
    }
}

/// Maps the ratio `s / d` of a component `s` to the signed dominant
/// component `d` from `[-1, 1]` to `[0, resolution - 1]`; the result is the
/// numerator over the denominator `2 * |d|`.
pub open spec fn remap_num(s: int, d: int, resolution: u32) -> int {
    if d > 0 {
        (s + d) * (resolution - 1)
    } else {
        (-d - s) * (resolution - 1)
    }
}

/// The face and coordinates that a direction projects to.  The dominant
/// axis is the one of largest magnitude, with ties going to X, then Y.  The
/// other two components are divided by the signed dominant component, so
/// the zero direction, which has no dominant component, goes to +X at
/// `(0, 0)`.
pub open spec fn project_spec(resolution: u32, n: Direction) -> (Face, Uv) {
    let ax = mag(n.x);
    let ay = mag(n.y);
    let az = mag(n.z);
    if ax >= ay && ax >= az {
        if ax == 0 {
            (Face::PX, Uv { u_num: 0, v_num: 0, den: 1 })
        } else {
            (
                if n.x > 0 { Face::PX } else { Face::NX },
                Uv {
                    u_num: remap_num(n.y as int, n.x as int, resolution) as u64,
                    v_num: remap_num(n.z as int, n.x as int, resolution) as u64,
                    den: (2 * ax) as u64,
                },
            )
        }
    } else if ay >= az {
        (
            if n.y > 0 { Face::PY } else { Face::NY },
            Uv {
                u_num: remap_num(n.x as int, n.y as int, resolution) as u64,
                v_num: remap_num(n.z as int, n.y as int, resolution) as u64,
                den: (2 * ay) as u64,
            },
        )
    } else {
        (
            if n.z > 0 { Face::PZ } else { Face::NZ },
            Uv {
                u_num: remap_num(n.x as int, n.z as int, resolution) as u64,
                v_num: remap_num(n.y as int, n.z as int, resolution) as u64,
                den: (2 * az) as u64,
            },
        )
    }
}

proof fn lemma_remap_bounds(s: i32, d: i32, resolution: u32)
    requires
        d != 0,
        mag(s) <= mag(d),
        resolution >= 1,
    ensures
        0 <= remap_num(s as int, d as int, resolution) <= (resolution - 1) * (2 * mag(d)),
        (resolution - 1) * (2 * mag(d)) <= u64::MAX,
{
    let a = mag(d) as int;
    let shifted: int = if d > 0 { s + d } else { -d - s };
    let scale: int = resolution - 1;
    assert(0 <= shifted <= 2 * a);
    assert(0 <= shifted * scale <= scale * (2 * a)) by (nonlinear_arith)
        requires
            0 <= shifted <= 2 * a,
            0 <= scale,
    ;
    assert(scale * (2 * a) <= 0x1_0000_0000 * 0xffff_ffff) by (nonlinear_arith)
        requires
            0 < a <= 0x8000_0000,
            0 <= scale <= 0xffff_ffff,
    ;
}

/// The coordinates of every projection lie on the face.
pub proof fn lemma_project_wf(resolution: u32, n: Direction)
    requires
        resolution >= 1,
    ensures
        project_spec(resolution, n).1.wf(resolution),
{
    let ax = mag(n.x);
    let ay = mag(n.y);
    let az = mag(n.z);
    if ax > 0 && ax >= ay && ax >= az {
        lemma_remap_bounds(n.y, n.x, resolution);
        lemma_remap_bounds(n.z, n.x, resolution);
    } else if ay > 0 && ay >= az {
        lemma_remap_bounds(n.x, n.y, resolution);
        lemma_remap_bounds(n.z, n.y, resolution);
    } else if az > 0 {
        lemma_remap_bounds(n.x, n.z, resolution);
        lemma_remap_bounds(n.y, n.z, resolution);
    }
}

/// A direction of magnitude `k` along the axis of a face, pointing out of it.
pub open spec fn axis_direction(face: Face, k: i32) -> Direction {
    match face {
        Face::PX => Direction { x: k, y: 0, z: 0 },
        Face::NX => Direction { x: (-k) as i32, y: 0, z: 0 },
        Face::PY => Direction { x: 0, y: k, z: 0 },
        Face::NY => Direction { x: 0, y: (-k) as i32, z: 0 },
        Face::PZ => Direction { x: 0, y: 0, z: k },
        Face::NZ => Direction { x: 0, y: 0, z: (-k) as i32 },
    }
}

/// Both coordinates are `(resolution - 1) / 2`, the centre of the face.
pub open spec fn centred(uv: Uv, resolution: u32) -> bool {
    &&& 2 * uv.u_num == (resolution - 1) * uv.den
    &&& 2 * uv.v_num == (resolution - 1) * uv.den
}

/// A direction along an axis projects to the centre of that axis's face.
pub proof fn lemma_axis_projects_to_centre(resolution: u32, face: Face, k: i32)
    requires
        0 < k,
        resolution >= 1,
    ensures
        project_spec(resolution, axis_direction(face, k)).0 == face,
        centred(project_spec(resolution, axis_direction(face, k)).1, resolution),
{
    let a = k as int;
    lemma_remap_bounds(0, k, resolution);
    lemma_remap_bounds(0, (-k) as i32, resolution);
    assert(2 * (a * (resolution - 1)) == (resolution - 1) * (2 * a)) by (nonlinear_arith);
}

/// Where the magnitudes of x and y are equal and exceed that of z, the
/// direction goes to an X face.
pub proof fn lemma_tie_prefers_x(resolution: u32, n: Direction)
    requires
        mag(n.x) == mag(n.y),
        mag(n.y) > mag(n.z),
    ensures
        project_spec(resolution, n).0 == Face::PX || project_spec(resolution, n).0 == Face::NX,
{
}

/// The zero direction goes to +X at coordinates `(0, 0)`.
pub proof fn lemma_zero_direction(resolution: u32)
    ensures
        project_spec(resolution, Direction { x: 0, y: 0, z: 0 }).0 == Face::PX,
        project_spec(resolution, Direction { x: 0, y: 0, z: 0 }).1.u_num == 0,
        project_spec(resolution, Direction { x: 0, y: 0, z: 0 }).1.v_num == 0,
        project_spec(resolution, Direction { x: 0, y: 0, z: 0 }).1.den > 0,
{
}

fn magnitude(c: i32) -> (r: u64)
    ensures
        r == mag(c),
        r <= 0x8000_0000,
{
    if c < 0 {
        (-(c as i64)) as u64
    } else {
        c as u64
    }
}

/// Numerator of `remap_num`, proved to fit and to lie in
/// `[0, (resolution - 1) * 2|d|]`.
fn remap(s: i32, d: i32, resolution: u32) -> (r: u64)
    requires
        d != 0,
        mag(s) <= mag(d),
        resolution >= 1,
    ensures
        r == remap_num(s as int, d as int, resolution),
        r <= (resolution - 1) * (2 * mag(d)),
{
    proof {
        lemma_remap_bounds(s, d, resolution);
    }
    let shifted: u64 = if d > 0 {
        (s as i64 + d as i64) as u64
    } else {
        (-(d as i64) - s as i64) as u64
    };
    let scale: u64 = (resolution - 1) as u64;
    shifted * scale
}

/// Projects a direction onto the cube: the face of its dominant axis and the
/// continuous coordinates on that face.
pub fn project(res: u32, n: Direction) -> (r: (Face, Uv))
    requires
        res >= 1,
    ensures
        r == project_spec(res, n),
        r.1.wf(res),
{
    let ax = magnitude(n.x);
    let ay = magnitude(n.y);
    let az = magnitude(n.z);
    if ax >= ay && ax >= az {
        if ax == 0 {
            (Face::PX, Uv { u_num: 0, v_num: 0, den: 1 })
        } else {
            let face = if n.x > 0 {
                Face::PX
            } else {
                Face::NX
            };
            (face, Uv { u_num: remap(n.y, n.x, res), v_num: remap(n.z, n.x, res), den: 2 * ax })
        }
    } else if ay >= az {
        let face = if n.y > 0 {
            Face::PY
        } else {
            Face::NY
        };
        (face, Uv { u_num: remap(n.x, n.y, res), v_num: remap(n.z, n.y, res), den: 2 * ay })
    } else {
        let face = if n.z > 0 {
            Face::PZ
        } else {
            Face::NZ
        };
        (face, Uv { u_num: remap(n.x, n.z, res), v_num: remap(n.y, n.z, res), den: 2 * az })
    }
}

} // verus!
