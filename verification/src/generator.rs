//! The Chaos Game core: polygon construction, the iterative
//! rejection-sampling loop, and the weighted pixel accumulator.

use crate::colour::{colour_spec, Rgb};
use crate::fixed::{lerp, lerp_spec, mul_frac, wrap_degrees, DEG_FULL, FP_ONE};
use crate::picker::{ProgressSink, VertexPicker};
use crate::rules::{
    accepted_run, accepts, evaluate, lemma_run_push, lemma_window_push, window_after,
};
use crate::trig::{sin_cos, sin_cos_spec};
use crate::types::{FractalSettings, Vec2, Vertex};
use std::collections::VecDeque;
use vstd::arithmetic::div_mod::{
    lemma_div_is_ordered, lemma_div_is_ordered_by_denominator, lemma_fundamental_div_mod,
    lemma_mod_multiples_vanish, lemma_small_mod,
};
use vstd::prelude::*;

verus! {

/// The largest accepted number of polygon sides.
pub const MAX_SIDES: usize = 16777216;

/// The largest accepted raster width and height.
pub const MAX_IMAGE_SIZE: usize = 32768;

/// The largest accepted iteration count.
pub const MAX_ITERATIONS: u64 = 281474976710656;

/// The largest accepted brightness factor (256, in fixed point).
pub const MAX_BRIGHTNESS: u64 = 1099511627776;

/// How many candidates the rejection sampler draws for one iteration
/// before it reports the rule unsatisfiable.
pub const MAX_DRAW_ATTEMPTS: u64 = 10000;

/// The saturation value of an accumulated colour channel: 255, in fixed
/// point.
pub const MAX_CHANNEL: u64 = 255 * 4294967296;

/// A configuration that the generator rejects before the loop starts.
#[derive(Clone, Copy, Debug, PartialEq, Eq, Structural)]
pub enum ConfigError {
    /// The polygon needs at least one vertex, and at most `MAX_SIDES`.
    SidesOutOfRange,
    /// The raster needs at least one pixel on a side, and at most
    /// `MAX_IMAGE_SIZE`.
    ImageSizeOutOfRange,
    /// The interpolation ratio must be a fraction in `[0, 1]`.
    RatioOutOfRange,
    /// The iteration count is over `MAX_ITERATIONS`.
    IterationsOutOfRange,
    /// The normalization scale came out zero, too large to represent, or
    /// the brightness factor was over `MAX_BRIGHTNESS`.
    ColourScaleOutOfRange,
}

/// A failure of the generation loop itself.
#[derive(Clone, Copy, Debug, PartialEq, Eq, Structural)]
pub enum GenerateError {
    /// The rejection sampler exhausted `MAX_DRAW_ATTEMPTS` candidates
    /// without the rule accepting one.
    RuleUnsatisfiable,
}

/// An accumulated colour, one fixed-point value per channel, each
/// clamped to `MAX_CHANNEL`.
#[derive(Clone, Copy, Debug, PartialEq, Eq, Structural)]
pub struct Pixel {
    pub r: u64,
    pub g: u64,
    pub b: u64,
}

/// Every channel of every accumulated pixel is at most `MAX_CHANNEL`.
pub open spec fn channels_bounded(pixels: Seq<Pixel>) -> bool {
    forall|i: int|
        0 <= i < pixels.len() ==> {
            let p = #[trigger] pixels[i];
            p.r <= MAX_CHANNEL && p.g <= MAX_CHANNEL && p.b <= MAX_CHANNEL
        }
}

/// The normalization scale: `iterations / image_size^2`, in fixed point,
/// times the brightness factor.
pub open spec fn colour_scale_spec(iterations: int, image_size: int, factor: int) -> int {
    iterations * (FP_ONE as int) / (image_size * image_size) * factor / (FP_ONE as int)
}

/// The angular step between neighbouring vertices: a full turn divided
/// by the number of sides, in fixed-point degrees.
pub open spec fn polygon_delta_spec(sides: int) -> int {
    (DEG_FULL as int) / sides
}

/// The vertex of index `i` of the polygon that the settings describe:
/// its angular coordinate steps clockwise from the rotation offset, its
/// position is `(sin, -cos)` of that angle, so that angle zero points to
/// the top of the circle, and its colour comes from the colour mapper.
pub open spec fn polygon_vertex_spec(settings: FractalSettings, i: int) -> Vertex {
    let rot = settings.rotation_offset as int % (DEG_FULL as int);
    let angle = rot + i * polygon_delta_spec(settings.sides as int);
    let reduced = angle % (DEG_FULL as int);
    let sc = sin_cos_spec(reduced);
    let col = colour_spec(settings.colour_type, reduced);
    Vertex {
        index: i as usize,
        pos: Vec2 { x: sc.0 as i64, y: (-sc.1) as i64 },
        angle: angle as i64,
        sides: settings.sides,
        colour: Rgb { r: col.0 as u8, g: col.1 as u8, b: col.2 as u8 },
    }
}

/// The screen-space coordinate, in fixed point, of an abstract
/// coordinate in `[-1, 1]`: `image_size * (coord + 1) / 2`.
pub open spec fn screen_spec(image_size: int, coord: int) -> int {
    image_size * (coord + FP_ONE as int) / 2
}

/// The fixed-point contribution of one 8-bit channel with the given
/// weight: `channel * weight / colour_scale`.
pub open spec fn contribution_spec(channel: int, weight: int, scale: int) -> int {
    channel * weight * (FP_ONE as int) / scale
}

/// An accumulated channel value after adding a contribution, saturating
/// at `MAX_CHANNEL`.
pub open spec fn add_clamped_spec(acc: int, add: int) -> int {
    if acc + add > MAX_CHANNEL as int {
        MAX_CHANNEL as int
    } else {
        acc + add
    }
}

/// An accumulated pixel after a colour is deposited on it with the
/// given weight.
pub open spec fn pixel_after_spec(p: Pixel, colour: Rgb, weight: int, scale: int) -> Pixel {
    Pixel {
        r: add_clamped_spec(p.r as int, contribution_spec(colour.r as int, weight, scale)) as u64,
        g: add_clamped_spec(p.g as int, contribution_spec(colour.g as int, weight, scale)) as u64,
        b: add_clamped_spec(p.b as int, contribution_spec(colour.b as int, weight, scale)) as u64,
    }
}

/// The buffer after one weighted deposit on the pixel at `(x, y)`; a
/// target outside the raster is silently dropped.
pub open spec fn splat_spec(
    pixels: Seq<Pixel>,
    image_size: int,
    scale: int,
    x: int,
    y: int,
    weight: int,
    colour: Rgb,
) -> Seq<Pixel> {
    if 0 <= x < image_size && 0 <= y < image_size {
        let index = y * image_size + x;
        pixels.update(index, pixel_after_spec(pixels[index], colour, weight, scale))
    } else {
        pixels
    }
}

/// The buffer after a point is deposited by bilinear splatting: the
/// screen position splits into integer pixel coordinates `(x, y)` and
/// fixed-point fractional offsets `(dx, dy)`, and the colour goes to the
/// four surrounding pixels with the bilinear weights.
pub open spec fn plot_spec(
    pixels: Seq<Pixel>,
    image_size: int,
    scale: int,
    point: Vec2,
    colour: Rgb,
) -> Seq<Pixel> {
    let fp = FP_ONE as int;
    let sx = screen_spec(image_size, point.x as int);
    let sy = screen_spec(image_size, point.y as int);
    let x = sx / fp;
    let y = sy / fp;
    let dx = sx % fp;
    let dy = sy % fp;
    let w_tl = (fp - dx) * (fp - dy) / fp;
    let w_tr = dx * (fp - dy) / fp;
    let w_bl = (fp - dx) * dy / fp;
    let w_br = dx * dy / fp;
    let after_tl = splat_spec(pixels, image_size, scale, x, y, w_tl, colour);
    let after_tr = splat_spec(after_tl, image_size, scale, x + 1, y, w_tr, colour);
    let after_bl = splat_spec(after_tr, image_size, scale, x, y + 1, w_bl, colour);
    splat_spec(after_bl, image_size, scale, x + 1, y + 1, w_br, colour)
}

/// A zero-initialized accumulation buffer of the given length.
pub open spec fn zero_buffer_spec(len: nat) -> Seq<Pixel> {
    Seq::new(len, |i: int| Pixel { r: 0, g: 0, b: 0 })
}

/// One advance of the running point: linear interpolation of both
/// components toward the accepted vertex by the fixed ratio.
pub open spec fn step_point_spec(ratio: int, point: Vec2, vertex: Vertex) -> Vec2 {
    Vec2 {
        x: lerp_spec(point.x as int, vertex.pos.x as int, ratio) as i64,
        y: lerp_spec(point.y as int, vertex.pos.y as int, ratio) as i64,
    }
}

/// The running point after a run of accepted vertices, starting from
/// the origin.
pub open spec fn run_point_spec(ratio: int, trace: Seq<Vertex>) -> Vec2
    decreases trace.len(),
{
    if trace.len() == 0 {
        Vec2 { x: 0, y: 0 }
    } else {
        step_point_spec(ratio, run_point_spec(ratio, trace.drop_last()), trace.last())
    }
}

/// The accumulation buffer after a run of accepted vertices: starting
/// from a black raster, each accepted vertex moves the running point and
/// deposits the vertex's colour there.
pub open spec fn run_buffer_spec(
    ratio: int,
    image_size: int,
    scale: int,
    trace: Seq<Vertex>,
) -> Seq<Pixel>
    decreases trace.len(),
{
    if trace.len() == 0 {
        zero_buffer_spec((image_size * image_size) as nat)
    } else {
        plot_spec(
            run_buffer_spec(ratio, image_size, scale, trace.drop_last()),
            image_size,
            scale,
            run_point_spec(ratio, trace),
            trace.last().colour,
        )
    }
}

/// An accumulated buffer as a flat raster of 8-bit channel values,
/// three per pixel in row-major order, each fixed-point channel
/// truncated to an integer.
pub open spec fn quantize_spec(pixels: Seq<Pixel>) -> Seq<u8> {
    Seq::new(
        3 * pixels.len(),
        |j: int|
            {
                let p = pixels[j / 3];
                if j % 3 == 0 {
                    (p.r as int / (FP_ONE as int)) as u8
                } else if j % 3 == 1 {
                    (p.g as int / (FP_ONE as int)) as u8
                } else {
                    (p.b as int / (FP_ONE as int)) as u8
                }
            },
    )
}

/// The main fractal generator, which holds the configuration and the
/// precomputed polygon required to generate a fractal image with the
/// Chaos Game algorithm.
pub struct FractalGenerator {
    pub settings: FractalSettings,
    pub image_size: usize,
    pub iterations: u64,
    pub colour_scale: u64,
    pub polygon: Vec<Vertex>,
}

impl FractalGenerator {
    /// A generator is well formed when its configuration passed the
    /// constructor's checks and its polygon matches the settings.
    pub open spec fn wf(self) -> bool {
        &&& 1 <= self.settings.sides <= MAX_SIDES
        &&& 0 <= self.settings.ratio <= FP_ONE
        &&& 1 <= self.image_size <= MAX_IMAGE_SIZE
        &&& 1 <= self.colour_scale
        &&& self.polygon@.len() == self.settings.sides
        &&& forall|i: int|
            0 <= i < self.polygon@.len() ==> {
                &&& (#[trigger] self.polygon@[i]).wf()
                &&& self.polygon@[i].index == i
                &&& self.polygon@[i].sides == self.settings.sides
            }
    }

    /// Creates a new generator with the given settings. `colour_scale`
    /// is the fixed-point brightness factor; the stored normalization
    /// scale multiplies it by the iteration count per pixel.
    pub fn new(
        settings: FractalSettings,
        image_size: usize,
        iterations: u64,
        colour_scale: u64,
    ) -> (r: Result<FractalGenerator, ConfigError>)
        ensures
            r matches Err(e) && e == ConfigError::SidesOutOfRange <==> !(1 <= settings.sides
                <= MAX_SIDES),
            r matches Err(e) && e == ConfigError::ImageSizeOutOfRange <==> (1 <= settings.sides
                <= MAX_SIDES) && !(1 <= image_size <= MAX_IMAGE_SIZE),
            r matches Err(e) && e == ConfigError::RatioOutOfRange <==> (1 <= settings.sides
                <= MAX_SIDES) && (1 <= image_size <= MAX_IMAGE_SIZE) && !(0 <= settings.ratio
                <= FP_ONE),
            r matches Err(e) && e == ConfigError::IterationsOutOfRange <==> (1 <= settings.sides
                <= MAX_SIDES) && (1 <= image_size <= MAX_IMAGE_SIZE) && (0 <= settings.ratio
                <= FP_ONE) && iterations > MAX_ITERATIONS,
            r matches Err(e) && e == ConfigError::ColourScaleOutOfRange <==> (1 <= settings.sides
                <= MAX_SIDES) && (1 <= image_size <= MAX_IMAGE_SIZE) && (0 <= settings.ratio
                <= FP_ONE) && iterations <= MAX_ITERATIONS && (colour_scale > MAX_BRIGHTNESS || !(1
                <= colour_scale_spec(iterations as int, image_size as int, colour_scale as int)
                <= u64::MAX)),
            r matches Ok(g) ==> {
                &&& g.wf()
                &&& g.settings == settings
                &&& g.image_size == image_size
                &&& g.iterations == iterations
                &&& g.colour_scale == colour_scale_spec(
                    iterations as int,
                    image_size as int,
                    colour_scale as int,
                )
                &&& forall|i: int|
                    0 <= i < g.polygon@.len() ==> #[trigger] g.polygon@[i] == polygon_vertex_spec(
                        settings,
                        i,
                    )
            },
    {
        if settings.sides == 0 || settings.sides > MAX_SIDES {
            return Err(ConfigError::SidesOutOfRange);
        }
        if image_size == 0 || image_size > MAX_IMAGE_SIZE {
            return Err(ConfigError::ImageSizeOutOfRange);
        }
        if settings.ratio < 0 || settings.ratio > FP_ONE {
            return Err(ConfigError::RatioOutOfRange);
        }
        if iterations > MAX_ITERATIONS {
            return Err(ConfigError::IterationsOutOfRange);
        }
        if colour_scale > MAX_BRIGHTNESS {
            return Err(ConfigError::ColourScaleOutOfRange);
        }

        proof {
            assert(1 <= image_size as int * image_size as int <= 0x40000000)
                by (nonlinear_arith)
                requires
                    1 <= image_size as int <= 32768,
            ;
        }
        let area: u128 = (image_size as u128) * (image_size as u128);
        let iter_scale: u128 = (iterations as u128) * (FP_ONE as u128) / area;
        proof {
            lemma_div_is_ordered_by_denominator(
                iterations as int * FP_ONE as int,
                1,
                image_size as int * image_size as int,
            );
            assert(iter_scale * colour_scale <= (iterations as int * FP_ONE as int) * (
            MAX_BRIGHTNESS as int)) by (nonlinear_arith)
                requires
                    0 <= iter_scale <= iterations as int * FP_ONE as int,
                    0 <= colour_scale <= MAX_BRIGHTNESS as int,
            ;
        }
        let scale_wide: u128 = iter_scale * (colour_scale as u128) / (FP_ONE as u128);
        if scale_wide == 0 || scale_wide > u64::MAX as u128 {
            return Err(ConfigError::ColourScaleOutOfRange);
        }

        let polygon = FractalGenerator::create_polygon(&settings);
        Ok(
            FractalGenerator {
                settings,
                image_size,
                iterations,
                colour_scale: scale_wide as u64,
                polygon,
            },
        )
    }

    /// Constructs the vertices of the fractal polygon: `sides` vertices,
    /// equally spaced by a step of `360 / sides` degrees around the unit
    /// circle, the first at the rotation offset.
    pub fn create_polygon(settings: &FractalSettings) -> (r: Vec<Vertex>)
        requires
            1 <= settings.sides <= MAX_SIDES,
        ensures
            r@.len() == settings.sides,
            forall|i: int|
                0 <= i < r@.len() ==> #[trigger] r@[i] == polygon_vertex_spec(*settings, i),
            forall|i: int| 0 <= i < r@.len() ==> (#[trigger] r@[i]).wf(),
    {
        let mut vertices: Vec<Vertex> = Vec::new();
        let sides_i: i64 = settings.sides as i64;
        let delta: i64 = DEG_FULL / sides_i;
        let rot: i64 = wrap_degrees(settings.rotation_offset);
        proof {
            lemma_fundamental_div_mod(DEG_FULL as int, sides_i as int);
        }

        let mut i: usize = 0;
        while i < settings.sides
            invariant
                1 <= settings.sides <= MAX_SIDES,
                i <= settings.sides,
                sides_i == settings.sides,
                delta == polygon_delta_spec(settings.sides as int),
                0 <= delta <= DEG_FULL,
                sides_i as int * delta as int <= DEG_FULL,
                0 <= rot < DEG_FULL,
                rot == settings.rotation_offset as int % (DEG_FULL as int),
                vertices@.len() == i,
                forall|j: int|
                    0 <= j < i ==> #[trigger] vertices@[j] == polygon_vertex_spec(*settings, j),
                forall|j: int| 0 <= j < i ==> (#[trigger] vertices@[j]).wf(),
            decreases settings.sides - i,
        {
            proof {
                assert((i as int) * delta <= (sides_i as int) * delta) by (nonlinear_arith)
                    requires
                        0 <= i as int <= sides_i as int,
                        0 <= delta,
                ;
                assert(0 <= (i as int) * delta) by (nonlinear_arith)
                    requires
                        0 <= i as int,
                        0 <= delta,
                ;
            }
            let angle: i64 = rot + (i as i64) * delta;
            let reduced: i64 = if angle >= DEG_FULL {
                angle - DEG_FULL
            } else {
                angle
            };
            proof {
                if angle >= DEG_FULL {
                    lemma_mod_multiples_vanish(1, angle - DEG_FULL, DEG_FULL as int);
                    lemma_small_mod((angle - DEG_FULL) as nat, DEG_FULL as nat);
                } else {
                    lemma_small_mod(angle as nat, DEG_FULL as nat);
                }
            }
            let (s, c) = sin_cos(reduced);
            let pos = Vec2::new(s, -c);
            let vertex = Vertex::new(i, pos, angle, settings);
            vertices.push(vertex);
            i += 1;
        }
        vertices
    }

    /// Selects a vertex of the polygon that the rule accepts for the
    /// current history window, by rejection sampling: candidates are
    /// drawn from the picker until one is accepted, and after
    /// `MAX_DRAW_ATTEMPTS` rejected draws the rule is reported
    /// unsatisfiable. The permissive rule always accepts the first draw.
    pub fn select_vertex<P: VertexPicker>(
        &self,
        picker: &mut P,
        history: &VecDeque<Vertex>,
    ) -> (r: Result<Vertex, GenerateError>)
        requires
            self.wf(),
            forall|i: int|
                0 <= i < history@.len() ==> #[trigger] history@[i].index < self.settings.sides,
        ensures
            r matches Ok(v) ==> {
                &&& v.index < self.settings.sides
                &&& v == self.polygon@[v.index as int]
                &&& accepts(self.settings.rule, history@, v)
            },
            r matches Err(e) ==> e == GenerateError::RuleUnsatisfiable && !(self.settings.rule
                is Default),
    {
        let mut attempts: u64 = 0;
        while attempts < MAX_DRAW_ATTEMPTS
            invariant
                self.wf(),
                forall|i: int|
                    0 <= i < history@.len() ==> #[trigger] history@[i].index < self.settings.sides,
                self.settings.rule is Default ==> attempts == 0,
                attempts <= MAX_DRAW_ATTEMPTS,
            decreases MAX_DRAW_ATTEMPTS - attempts,
        {
            let index = picker.pick(self.settings.sides);
            let candidate = self.polygon[index];
            if evaluate(self.settings.rule, history, &candidate) {
                return Ok(candidate);
            }
            attempts += 1;
        }
        Err(GenerateError::RuleUnsatisfiable)
    }

    /// Updates one pixel's colour, scaled by an interpolation weight in
    /// `[0, 1]`; a target outside the raster is silently dropped.
    pub fn update_pixel_with_weight(
        &self,
        pixels: &mut Vec<Pixel>,
        x: usize,
        y: usize,
        weight: u64,
        colour: Rgb,
    )
        requires
            self.wf(),
            old(pixels)@.len() == self.image_size as int * self.image_size as int,
            channels_bounded(old(pixels)@),
            weight <= FP_ONE,
        ensures
            final(pixels)@ == splat_spec(
                old(pixels)@,
                self.image_size as int,
                self.colour_scale as int,
                x as int,
                y as int,
                weight as int,
                colour,
            ),
            final(pixels)@.len() == old(pixels)@.len(),
            channels_bounded(final(pixels)@),
    {
        if x < self.image_size && y < self.image_size {
            proof {
                assert(y as int * self.image_size as int + x < self.image_size as int
                    * self.image_size as int && 0 <= y as int * self.image_size as int
                    && self.image_size as int * self.image_size as int <= 0x40000000)
                    by (nonlinear_arith)
                    requires
                        0 <= x < self.image_size as int,
                        0 <= y < self.image_size as int,
                        self.image_size as int <= 32768,
                ;
            }
            let index: usize = y * self.image_size + x;
            let p = pixels[index];
            let updated = Pixel {
                r: add_contribution(p.r, colour.r, weight, self.colour_scale),
                g: add_contribution(p.g, colour.g, weight, self.colour_scale),
                b: add_contribution(p.b, colour.b, weight, self.colour_scale),
            };
            pixels[index] = updated;
        }
    }

    /// Plots a single point onto the pixel buffer with bilinear
    /// interpolation: the point, with both coordinates in `[-1, 1]`, is
    /// mapped to screen space, and its colour is distributed over the
    /// four surrounding pixels weighted by the fractional offsets.
    pub fn plot_point(&self, pixels: &mut Vec<Pixel>, point: Vec2, colour: Rgb)
        requires
            self.wf(),
            old(pixels)@.len() == self.image_size as int * self.image_size as int,
            channels_bounded(old(pixels)@),
            -FP_ONE <= point.x <= FP_ONE,
            -FP_ONE <= point.y <= FP_ONE,
        ensures
            final(pixels)@ == plot_spec(
                old(pixels)@,
                self.image_size as int,
                self.colour_scale as int,
                point,
                colour,
            ),
            final(pixels)@.len() == old(pixels)@.len(),
            channels_bounded(final(pixels)@),
    {
        let fp: u64 = FP_ONE as u64;
        proof {
            assert(0 <= self.image_size as int * (point.x as int + 4294967296)
                <= 0x8000000000000000 && 0 <= self.image_size as int * (point.y as int
                + 4294967296) <= 0x8000000000000000) by (nonlinear_arith)
                requires
                    1 <= self.image_size as int <= 32768,
                    0 <= point.x as int + 4294967296 <= 0x200000000,
                    0 <= point.y as int + 4294967296 <= 0x200000000,
            ;
        }
        let sx: u64 = (self.image_size as u64) * ((point.x + FP_ONE) as u64) / 2;
        let sy: u64 = (self.image_size as u64) * ((point.y + FP_ONE) as u64) / 2;
        let x: u64 = sx / fp;
        let y: u64 = sy / fp;
        let dx: u64 = sx % fp;
        let dy: u64 = sy % fp;

        let w_tl: u64 = mul_frac(fp - dx, fp - dy);
        let w_tr: u64 = mul_frac(dx, fp - dy);
        let w_bl: u64 = mul_frac(fp - dx, dy);
        let w_br: u64 = mul_frac(dx, dy);

        self.update_pixel_with_weight(pixels, x as usize, y as usize, w_tl, colour);
        self.update_pixel_with_weight(pixels, x as usize + 1, y as usize, w_tr, colour);
        self.update_pixel_with_weight(pixels, x as usize, y as usize + 1, w_bl, colour);
        self.update_pixel_with_weight(pixels, x as usize + 1, y as usize + 1, w_br, colour);
    }

    /// Writes the accumulated pixels to a flat raster of 8-bit channel
    /// values, three per pixel in row-major order, truncating each
    /// fixed-point channel to an integer.
    pub fn pixels_to_buffer(&self, pixels: &Vec<Pixel>) -> (r: Vec<u8>)
        requires
            self.wf(),
            pixels@.len() == self.image_size as int * self.image_size as int,
            channels_bounded(pixels@),
        ensures
            r@.len() == 3 * pixels@.len(),
            r@ == quantize_spec(pixels@),
            forall|i: int|
                0 <= i < pixels@.len() ==> {
                    &&& r@[3 * i] == (#[trigger] pixels@[i]).r as int / (FP_ONE as int)
                    &&& r@[3 * i + 1] == pixels@[i].g as int / (FP_ONE as int)
                    &&& r@[3 * i + 2] == pixels@[i].b as int / (FP_ONE as int)
                },
    {
        let fp: u64 = FP_ONE as u64;
        let mut buffer: Vec<u8> = Vec::new();
        let mut i: usize = 0;
        proof {
            assert(pixels@.len() <= 0x40000000) by (nonlinear_arith)
                requires
                    pixels@.len() == self.image_size as int * self.image_size as int,
                    0 <= self.image_size as int <= 32768,
            ;
        }
        while i < pixels.len()
            invariant
                pixels@.len() <= 0x40000000,
                channels_bounded(pixels@),
                fp == FP_ONE,
                i <= pixels@.len(),
                buffer@.len() == 3 * i,
                forall|j: int|
                    0 <= j < i ==> {
                        &&& buffer@[3 * j] == (#[trigger] pixels@[j]).r as int / (FP_ONE as int)
                        &&& buffer@[3 * j + 1] == pixels@[j].g as int / (FP_ONE as int)
                        &&& buffer@[3 * j + 2] == pixels@[j].b as int / (FP_ONE as int)
                    },
            decreases pixels@.len() - i,
        {
            let p = pixels[i];
            proof {
                lemma_div_is_ordered(p.r as int, MAX_CHANNEL as int, FP_ONE as int);
                lemma_div_is_ordered(p.g as int, MAX_CHANNEL as int, FP_ONE as int);
                lemma_div_is_ordered(p.b as int, MAX_CHANNEL as int, FP_ONE as int);
            }
            buffer.push((p.r / fp) as u8);
            buffer.push((p.g / fp) as u8);
            buffer.push((p.b / fp) as u8);
            i += 1;
        }
        proof {
            assert forall|j: int| 0 <= j < buffer@.len() implies buffer@[j] == quantize_spec(
                pixels@,
            )[j] by {
                lemma_fundamental_div_mod(j, 3);
                let q = j / 3;
                assert(q < pixels@.len() && 3 * q <= j <= 3 * q + 2);
                assert(buffer@[3 * q] == pixels@[q].r as int / (FP_ONE as int));
            }
            assert(buffer@ =~= quantize_spec(pixels@));
        }
        buffer
    }

    /// Generates the fractal image by running the Chaos Game: for each
    /// iteration a vertex satisfying the rule is drawn by rejection
    /// sampling, the running point moves toward it by the configured
    /// ratio, the point's colour is deposited on the raster, the history
    /// window is shifted, and the progress sink hears the iteration
    /// index. The returned raster holds three 8-bit channels per pixel
    /// in row-major order, and it is exactly the rendering of a run of
    /// polygon vertices that the rule accepts, one vertex per iteration;
    /// under the permissive rule the loop cannot fail.
    pub fn generate<P: VertexPicker, S: ProgressSink>(&self, picker: &mut P, progress: &mut S) -> (r:
        Result<Vec<u8>, GenerateError>)
        requires
            self.wf(),
        ensures
            r matches Ok(buffer) ==> buffer@.len() == 3 * (self.image_size as int
                * self.image_size as int),
            r matches Ok(buffer) ==> exists|t: Seq<Vertex>|
                {
                    &&& #[trigger] accepted_run(self.settings.rule, t)
                    &&& t.len() == self.iterations
                    &&& (forall|j: int|
                        0 <= j < t.len() ==> #[trigger] t[j] == self.polygon@[t[j].index as int]
                            && t[j].index < self.settings.sides)
                    &&& buffer@ == quantize_spec(
                        run_buffer_spec(
                            self.settings.ratio as int,
                            self.image_size as int,
                            self.colour_scale as int,
                            t,
                        ),
                    )
                },
            r matches Err(e) ==> e == GenerateError::RuleUnsatisfiable && !(self.settings.rule
                is Default),
    {
        proof {
            assert(self.image_size as int * self.image_size as int <= 0x40000000)
                by (nonlinear_arith)
                requires
                    1 <= self.image_size as int <= 32768,
            ;
        }
        let mut pixels = zero_pixels(self.image_size * self.image_size);
        let mut current_point = Vec2::default();
        let mut history: VecDeque<Vertex> = VecDeque::new();
        let capacity = self.settings.rule.history_length();
        let ghost mut trace: Seq<Vertex> = Seq::empty();

        let mut i: u64 = 0;
        while i < self.iterations
            invariant
                self.wf(),
                capacity == self.settings.rule.history_length_spec(),
                pixels@.len() == self.image_size as int * self.image_size as int,
                channels_bounded(pixels@),
                -FP_ONE <= current_point.x <= FP_ONE,
                -FP_ONE <= current_point.y <= FP_ONE,
                history@ == window_after(trace, capacity as nat),
                forall|j: int|
                    0 <= j < history@.len() ==> #[trigger] history@[j].index < self.settings.sides,
                accepted_run(self.settings.rule, trace),
                trace.len() == i,
                forall|j: int| 0 <= j < trace.len() ==> #[trigger] trace[j] == self.polygon@[
                    trace[j].index as int] && trace[j].index < self.settings.sides,
                current_point == run_point_spec(self.settings.ratio as int, trace),
                pixels@ == run_buffer_spec(
                    self.settings.ratio as int,
                    self.image_size as int,
                    self.colour_scale as int,
                    trace,
                ),
                i <= self.iterations,
            decreases self.iterations - i,
        {
            let vertex = match self.select_vertex(picker, &history) {
                Ok(v) => v,
                Err(e) => {
                    return Err(e);
                },
            };

            current_point = Vec2 {
                x: lerp(current_point.x, vertex.pos.x, self.settings.ratio),
                y: lerp(current_point.y, vertex.pos.y, self.settings.ratio),
            };

            self.plot_point(&mut pixels, current_point, vertex.colour);

            let ghost old_history = history@;
            if capacity > 0 {
                if history.len() == capacity {
                    history.pop_back();
                }
                history.push_front(vertex);
            }

            proof {
                assert(trace.push(vertex).drop_last() =~= trace);
                lemma_run_push(self.settings.rule, trace, vertex);
                let cap = capacity as nat;
                if cap >= 1 {
                    lemma_window_push(trace, vertex, cap);
                    if old_history.len() == cap {
                        assert(window_after(trace, (cap - 1) as nat) =~= old_history.subrange(
                            0,
                            cap as int - 1,
                        ));
                    } else {
                        assert(window_after(trace, (cap - 1) as nat) =~= old_history);
                    }
                } else {
                    assert(window_after(trace.push(vertex), cap) =~= old_history);
                }
                trace = trace.push(vertex);
            }

            progress.report(i);
            i += 1;
        }

        Ok(self.pixels_to_buffer(&pixels))
    }
}

/// Consecutive vertices of the polygon are spaced by exactly the
/// angular step `360 / sides` degrees: each vertex's angular coordinate
/// exceeds its predecessor's by `polygon_delta_spec(sides)`.
pub proof fn lemma_polygon_spacing(settings: FractalSettings, i: int)
    requires
        1 <= i < settings.sides,
    ensures
        polygon_vertex_spec(settings, i).angle == polygon_vertex_spec(settings, i - 1).angle
            + polygon_delta_spec(settings.sides as int),
{
    let sides = settings.sides as int;
    let delta = polygon_delta_spec(sides);
    let rot = settings.rotation_offset as int % (DEG_FULL as int);
    lemma_fundamental_div_mod(DEG_FULL as int, sides);
    assert(0 <= delta && sides * delta <= DEG_FULL);
    assert(i * delta == (i - 1) * delta + delta) by (nonlinear_arith);
    assert(0 <= (i - 1) * delta && i * delta <= sides * delta) by (nonlinear_arith)
        requires
            0 <= i - 1,
            i <= sides,
            0 <= delta,
    ;
    assert(0 <= rot + (i - 1) * delta <= rot + i * delta < 2 * (DEG_FULL as int));
}

/// One accumulated channel value after a weighted, scaled contribution
/// of an 8-bit channel, saturating at `MAX_CHANNEL`.
fn add_contribution(acc: u64, channel: u8, weight: u64, scale: u64) -> (r: u64)
    requires
        acc <= MAX_CHANNEL,
        weight <= FP_ONE,
        scale >= 1,
    ensures
        r == add_clamped_spec(acc as int, contribution_spec(channel as int, weight as int, scale as int)),
        r <= MAX_CHANNEL,
{
    proof {
        assert(0 <= channel as int * weight as int <= 255 * FP_ONE as int) by (nonlinear_arith)
            requires
                0 <= channel as int <= 255,
                0 <= weight as int <= FP_ONE as int,
        ;
    }
    proof {
        lemma_div_is_ordered_by_denominator(
            channel as int * weight as int * FP_ONE as int,
            1,
            scale as int,
        );
    }
    let contribution: u128 = (channel as u128) * (weight as u128) * (FP_ONE as u128) / (
    scale as u128);
    let sum: u128 = (acc as u128) + contribution;
    if sum > MAX_CHANNEL as u128 {
        MAX_CHANNEL
    } else {
        sum as u64
    }
}

/// A zero-initialized accumulation buffer of the given length.
fn zero_pixels(len: usize) -> (r: Vec<Pixel>)
    ensures
        r@ == zero_buffer_spec(len as nat),
        channels_bounded(r@),
{
    let mut pixels: Vec<Pixel> = Vec::new();
    let mut i: usize = 0;
    while i < len
        invariant
            i <= len,
            pixels@.len() == i,
            forall|j: int| 0 <= j < i ==> #[trigger] pixels@[j] == (Pixel { r: 0u64, g: 0u64, b: 0u64 }),
        decreases len - i,
    {
        pixels.push(Pixel { r: 0, g: 0, b: 0 });
        i += 1;
    }
    proof {
        assert(pixels@ =~= zero_buffer_spec(len as nat));
    }
    pixels
}

} // verus!
