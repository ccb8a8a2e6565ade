//! The data model: 2D vectors, polygon vertices and the run settings.

use crate::colour::{colour_spec, ColourType, Rgb};
use crate::fixed::{wrap_degrees, DEG_FULL, FP_ONE};
use crate::rules::Rule;
use vstd::arithmetic::div_mod::lemma_div_is_ordered;
use vstd::prelude::*;

verus! {

/// A minimal 2-element column vector. Components are fixed-point values:
/// `x` stands for the real number `x / FP_ONE`.
#[derive(Clone, Copy, Debug, PartialEq, Eq, Structural)]
pub struct Vec2 {
    pub x: i64,
    pub y: i64,
}

/// Scalar multiplication by a fixed-point fraction, with the product
/// truncated toward zero.
pub open spec fn scale_spec(a: int, t: int) -> int {
    if a >= 0 {
        a * t / (FP_ONE as int)
    } else {
        -((-a) * t / (FP_ONE as int))
    }
}

impl Vec2 {
    /// Constructs a new vector with the given x and y values.
    pub fn new(x: i64, y: i64) -> (r: Vec2)
        ensures
            r == (Vec2 { x, y }),
    {
        Vec2 { x, y }
    }

    /// Componentwise vector addition.
    pub fn add(self, rhs: Vec2) -> (r: Vec2)
        requires
            i64::MIN <= self.x + rhs.x <= i64::MAX,
            i64::MIN <= self.y + rhs.y <= i64::MAX,
        ensures
            r.x == self.x + rhs.x,
            r.y == self.y + rhs.y,
    {
        Vec2 { x: self.x + rhs.x, y: self.y + rhs.y }
    }

    /// Negation of both components.
    pub fn neg(self) -> (r: Vec2)
        requires
            self.x > i64::MIN,
            self.y > i64::MIN,
        ensures
            r.x == -self.x,
            r.y == -self.y,
    {
        Vec2 { x: -self.x, y: -self.y }
    }

    /// Componentwise vector subtraction.
    pub fn sub(self, rhs: Vec2) -> (r: Vec2)
        requires
            i64::MIN <= self.x - rhs.x <= i64::MAX,
            i64::MIN <= self.y - rhs.y <= i64::MAX,
        ensures
            r.x == self.x - rhs.x,
            r.y == self.y - rhs.y,
    {
        Vec2 { x: self.x - rhs.x, y: self.y - rhs.y }
    }

    /// Multiplication of the vector by a fixed-point fraction in `[0, 1]`.
    pub fn scale(self, t: i64) -> (r: Vec2)
        requires
            0 <= t <= FP_ONE,
        ensures
            r.x == scale_spec(self.x as int, t as int),
            r.y == scale_spec(self.y as int, t as int),
            -abs_spec(self.x as int) <= r.x <= abs_spec(self.x as int),
            -abs_spec(self.y as int) <= r.y <= abs_spec(self.y as int),
    {
        Vec2 { x: scale_component(self.x, t), y: scale_component(self.y, t) }
    }
}

impl Default for Vec2 {
    /// The zero vector.
    fn default() -> (r: Vec2)
        ensures
            r == (Vec2 { x: 0, y: 0 }),
    {
        Vec2 { x: 0, y: 0 }
    }
}

/// The absolute value of an integer.
pub open spec fn abs_spec(a: int) -> int {
    if a >= 0 {
        a
    } else {
        -a
    }
}

/// One component of a scalar multiplication by a fixed-point fraction.
fn scale_component(a: i64, t: i64) -> (r: i64)
    requires
        0 <= t <= FP_ONE,
    ensures
        r == scale_spec(a as int, t as int),
        -abs_spec(a as int) <= r <= abs_spec(a as int),
{
    if a >= 0 {
        proof {
            assert(0 <= a * t <= a * FP_ONE) by (nonlinear_arith)
                requires
                    a >= 0,
                    0 <= t <= FP_ONE,
            ;
            lemma_div_is_ordered(a as int * t as int, a as int * FP_ONE as int, FP_ONE as int);
        }
        ((a as u128) * (t as u128) / (FP_ONE as u128)) as i64
    } else {
        let m: u128 = (-(a as i128)) as u128;
        proof {
            let m_int = -(a as int);
            assert(0 <= m_int * t <= m_int * FP_ONE) by (nonlinear_arith)
                requires
                    m_int >= 0,
                    0 <= t <= FP_ONE,
            ;
            lemma_div_is_ordered(m_int * t as int, m_int * FP_ONE as int, FP_ONE as int);
        }
        let q: u128 = m * (t as u128) / (FP_ONE as u128);
        (-(q as i128)) as i64
    }
}

/// A single vertex of the fractal polygon.
#[derive(Clone, Copy, Debug, PartialEq, Eq, Structural)]
pub struct Vertex {
    pub index: usize,
    pub pos: Vec2,
    pub angle: i64,
    pub sides: usize,
    pub colour: Rgb,
}

impl Vertex {
    /// A vertex is well formed when it belongs to a polygon with at least
    /// one side, carries an index within that polygon, and sits within
    /// the unit square that the accumulator maps to the raster.
    pub open spec fn wf(self) -> bool {
        &&& 1 <= self.sides
        &&& self.index < self.sides
        &&& -FP_ONE <= self.pos.x <= FP_ONE
        &&& -FP_ONE <= self.pos.y <= FP_ONE
    }

    /// Constructs a new vertex; its colour is assigned once from its
    /// angular coordinate in fixed-point degrees.
    pub fn new(index: usize, pos: Vec2, angle: i64, settings: &FractalSettings) -> (r: Vertex)
        requires
            index < settings.sides,
        ensures
            r.index == index,
            r.pos == pos,
            r.angle == angle,
            r.sides == settings.sides,
            r.colour.r == colour_spec(
                settings.colour_type,
                angle as int % (DEG_FULL as int),
            ).0,
            r.colour.g == colour_spec(
                settings.colour_type,
                angle as int % (DEG_FULL as int),
            ).1,
            r.colour.b == colour_spec(
                settings.colour_type,
                angle as int % (DEG_FULL as int),
            ).2,
    {
        Vertex {
            index,
            pos,
            angle,
            sides: settings.sides,
            colour: settings.colour_type.get_colour(wrap_degrees(angle)),
        }
    }
}

/// All configuration parameters for generating a fractal: the number of
/// polygon sides, the fixed-point interpolation ratio, the vertex
/// colouring strategy, the polygon's rotation offset in fixed-point
/// degrees, and the vertex acceptance rule.
#[derive(Clone, Copy, Debug, PartialEq, Eq, Structural)]
pub struct FractalSettings {
    pub sides: usize,
    pub ratio: i64,
    pub rotation_offset: i64,
    pub colour_type: ColourType,
    pub rule: Rule,
}

impl FractalSettings {
    /// Constructs a new settings value. The length of the history window
    /// is the one the rule declares.
    pub fn new(
        sides: usize,
        ratio: i64,
        colour_type: ColourType,
        rotation_offset: i64,
        rule: Rule,
    ) -> (r: FractalSettings)
        ensures
            r == (FractalSettings { sides, ratio, rotation_offset, colour_type, rule }),
    {
        FractalSettings { sides, ratio, rotation_offset, colour_type, rule }
    }
}

} // verus!
