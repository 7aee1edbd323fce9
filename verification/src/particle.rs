//! The particle record and its per-frame update rule.
//!
//! Coordinates and colour channels are fixed-point integers in milli-units:
//! the real value 1.0 is the integer `UNIT`. This keeps the whole record in
//! plain integers, which the contracts below speak about exactly.

use vstd::prelude::*;

verus! {

/// Number of fixed-point steps that stand for the real value 1.0.
pub const UNIT: i32 = 1000;

/// Horizontal component of the constant drift every particle starts with.
pub const DRIFT_X: i32 = 0;

/// Vertical component of the constant drift: -0.1 per simulated step,
/// in milli-units. The drift is applied once per frame, not per second.
pub const DRIFT_Y: i32 = -100;

/// A two-component fixed-point vector.
#[derive(Clone, Copy, PartialEq, Eq, Structural, Debug)]
pub struct Vec2 {
    pub x: i32,
    pub y: i32,
}

/// A colour with four fixed-point channels in [0, UNIT].
#[derive(Clone, Copy, PartialEq, Eq, Structural, Debug)]
pub struct Rgba {
    pub r: i32,
    pub g: i32,
    pub b: i32,
    pub a: i32,
}

/// One particle record: position, velocity and colour.
#[derive(Clone, Copy, PartialEq, Eq, Structural, Debug)]
pub struct Particle {
    pub pos: Vec2,
    pub vel: Vec2,
    pub color: Rgba,
}

/// Bytes of one particle record in the GPU layout: eight 32-bit fields
/// (two position, two velocity, four colour), tightly packed in that order.
pub const PARTICLE_BYTES: u32 = 32;

/// A channel value inside [0, 1], in milli-units.
pub open spec fn unit_range(v: i32) -> bool {
    0 <= v <= UNIT
}

/// A coordinate inside [-1, 1], in milli-units.
pub open spec fn coord_range(v: i32) -> bool {
    -UNIT <= v <= UNIT
}

/// A particle as initialization makes it: position inside the square
/// [-1, 1] x [-1, 1], velocity the constant downward drift, colour channels
/// inside [0, 1] with alpha exactly 1.
pub open spec fn is_initial(p: Particle) -> bool {
    &&& coord_range(p.pos.x)
    &&& coord_range(p.pos.y)
    &&& p.vel.x == DRIFT_X
    &&& p.vel.y == DRIFT_Y
    &&& unit_range(p.color.r)
    &&& unit_range(p.color.g)
    &&& unit_range(p.color.b)
    &&& p.color.a == UNIT
}

/// Whether one integration step of `p` stays inside the machine range.
pub open spec fn step_fits(p: Particle) -> bool {
    &&& i32::MIN <= p.pos.x + p.vel.x <= i32::MAX
    &&& i32::MIN <= p.pos.y + p.vel.y <= i32::MAX
}

/// The compute stage's update rule for one particle: integrate the velocity
/// into the position; velocity and colour stay as they are.
pub open spec fn stepped(p: Particle) -> Particle {
    Particle {
        pos: Vec2 { x: (p.pos.x + p.vel.x) as i32, y: (p.pos.y + p.vel.y) as i32 },
        vel: p.vel,
        color: p.color,
    }
}

/// Advances one particle by one simulated step.
pub fn step_particle(p: Particle) -> (r: Particle)
    requires
        step_fits(p),
    ensures
        r == stepped(p),
{
    Particle {
        pos: Vec2 { x: p.pos.x + p.vel.x, y: p.pos.y + p.vel.y },
        vel: p.vel,
        color: p.color,
    }
}

/// Builds one initial particle from five uniform samples in [0, UNIT]:
/// two for the position, stretched to [-1, 1], and three for the colour.
pub fn initial_particle(px: i32, py: i32, cr: i32, cg: i32, cb: i32) -> (p: Particle)
    requires
        unit_range(px),
        unit_range(py),
        unit_range(cr),
        unit_range(cg),
        unit_range(cb),
    ensures
        is_initial(p),
        p.pos.x == 2 * px - UNIT,
        p.pos.y == 2 * py - UNIT,
        p.color == (Rgba { r: cr, g: cg, b: cb, a: UNIT }),
{
    Particle {
        pos: Vec2 { x: 2 * px - UNIT, y: 2 * py - UNIT },
        vel: Vec2 { x: DRIFT_X, y: DRIFT_Y },
        color: Rgba { r: cr, g: cg, b: cb, a: UNIT },
    }
}

/// Bytes a buffer of `count` particle records occupies in the GPU layout.
pub fn buffer_size(count: u32) -> (n: u32)
    requires
        count * PARTICLE_BYTES <= u32::MAX,
    ensures
        n == count * PARTICLE_BYTES,
{
    count * PARTICLE_BYTES
}

} // verus!
