//! The declarative "shader" language of the badge: colour sources, pattern
//! effects, per-pixel fragment shaders, and the render manager that
//! composites an ordered list of layers into the framebuffer each tick.
//!
//! Time is integer milliseconds. Speeds are thousandths of a cycle (or of an
//! animation step) per second, so an index of the form
//! `floor(t_seconds * speed)` is computed as `t_ms * speed / 1_000_000`,
//! exactly.

use vstd::prelude::*;

use crate::matrix::LedMatrix;
use crate::matrix::RawFramebuffer;
use crate::matrix::spec_get_pixel;
use crate::matrix::spec_set_pixel;
use crate::pixel::LedPixel;
use crate::rng::rng_below;
use rand::rngs::SmallRng;

verus! {

/// A 9-bit mask saying which of the 3x3 cells an effect lights.
pub type LedPattern = u16;

/// A colour source: a pure function of time.
#[derive(Debug)]
#[verifier::ext_equal]
pub enum ColorPalette {
    /// Hue cycling at `speed` thousandths of a turn per second.
    Rainbow(u32),
    /// A fixed colour.
    Solid(LedPixel),
    /// A custom palette of up to 16 colours stepped through at `speed`
    /// thousandths of a step per second.
    Custom(Vec<LedPixel>, u32),
}

/// A per-pixel colour transform, applied after the base colour is chosen.
#[derive(Clone, Copy, PartialEq, Eq, Structural, Debug)]
pub enum FragmentShader {
    /// Luminance follows a raised sine at `speed` thousandths of a cycle
    /// per second.
    Breathing(u32),
    /// Pass-through for the first half of each cycle, black for the second.
    Blinking(u32),
    /// Per-channel IIR low-pass over the persistent filter memory;
    /// `tau` counts render calls.
    LowPass(u32),
    /// The same filter with instant attack: the output never drops below
    /// the current raw input.
    LowPassWithPeak(u32),
    /// Hue from the cell position plus time; ignores the base colour.
    Rainbow2D(u32),
}

/// A pattern effect: a function of time (and, for the random variant, of the
/// persistent frame counter and the RNG) to an active 9-bit mask.
#[derive(Debug)]
#[verifier::ext_equal]
pub enum Pattern {
    /// A fixed mask.
    Simple(LedPattern),
    /// ASCII text stepped through at `speed` thousandths of a character per
    /// second; glyphs come from the 26-entry font table.
    Text(Vec<u8>, u32),
    /// A sequence of masks stepped through at `speed` thousandths of a step
    /// per second.
    Animation(Vec<LedPattern>, u32),
    /// The same sequence walked backwards.
    AnimationReverse(Vec<LedPattern>, u32),
    /// A uniformly random mask of the sequence once every `decimation`
    /// render calls, the zero mask in between.
    AnimationRandom(Vec<LedPattern>, u16),
}

/// One visual layer: an effect gated by a colour source, with shader lists
/// applied to lit cells (`pattern_shaders`) and to every cell over the
/// current framebuffer contents (`screen_shaders`).
#[derive(Debug)]
#[verifier::ext_equal]
pub struct RenderCommand {
    pub effect: Pattern,
    pub color: ColorPalette,
    pub pattern_shaders: Vec<FragmentShader>,
    pub screen_shaders: Vec<FragmentShader>,
    /// Milliseconds added to the render clock for this layer.
    pub time_offset: u64,
}

/// Longest render clock the pipeline accepts: about 31 years, so that a
/// tick time plus any layer offset stays far below the integer limits.
pub const MAX_TIME_MS: u64 = 1000000000000;

impl ColorPalette {
    /// Structural equivalence: the same variant with the same scalar fields
    /// and palettes holding the same colours.
    pub open spec fn spec_eq(self, other: ColorPalette) -> bool {
        match (self, other) {
            (ColorPalette::Rainbow(a), ColorPalette::Rainbow(b)) => a == b,
            (ColorPalette::Solid(a), ColorPalette::Solid(b)) => a == b,
            (ColorPalette::Custom(pa, sa), ColorPalette::Custom(pb, sb)) => pa@ == pb@ && sa == sb,
            _ => false,
        }
    }

    pub open spec fn wf(self) -> bool {
        match self {
            ColorPalette::Custom(palette, _) => 0 < palette@.len() <= 16,
            _ => true,
        }
    }
}

impl FragmentShader {
    pub open spec fn wf(self) -> bool {
        match self {
            FragmentShader::LowPass(tau) => tau >= 1,
            FragmentShader::LowPassWithPeak(tau) => tau >= 1,
            _ => true,
        }
    }
}

impl Pattern {
    pub open spec fn wf(self) -> bool {
        match self {
            Pattern::Simple(_) => true,
            Pattern::Text(text, _) => 0 < text@.len(),
            Pattern::Animation(seq, _) => 0 < seq@.len(),
            Pattern::AnimationReverse(seq, _) => 0 < seq@.len(),
            Pattern::AnimationRandom(seq, decimation) => 0 < seq@.len() && decimation > 0,
        }
    }
}

impl RenderCommand {
    pub open spec fn wf(self) -> bool {
        &&& self.effect.wf()
        &&& self.color.wf()
        &&& self.pattern_shaders@.len() <= 8
        &&& self.screen_shaders@.len() <= 8
        &&& (forall|i: int| 0 <= i < self.pattern_shaders@.len() ==> (#[trigger] self.pattern_shaders@[i]).wf())
        &&& (forall|i: int| 0 <= i < self.screen_shaders@.len() ==> (#[trigger] self.screen_shaders@[i]).wf())
        &&& self.time_offset <= MAX_TIME_MS
    }
}

/// `floor(t_seconds * speed)` for a time in milliseconds and a speed in
/// thousandths per second.
pub open spec fn spec_scaled_time(t: int, speed: u32) -> int {
    t * speed / 1000000
}

/// Position within the current cycle, in thousandths of a cycle.
pub open spec fn spec_cycle_phase(t: int, speed: u32) -> int {
    (t * speed / 1000) % 1000
}

/// Index into a sequence of `len` steps at `speed` steps per second.
pub open spec fn spec_step_index(t: int, speed: u32, len: int) -> int {
    spec_scaled_time(t, speed) % len
}

fn scaled_time(t: u64, speed: u32) -> (r: u64)
    requires
        t <= 2 * MAX_TIME_MS,
    ensures
        r == spec_scaled_time(t as int, speed),
{
    proof {
        assert(t as int * speed as int <= 2 * MAX_TIME_MS as int * u32::MAX as int) by (nonlinear_arith)
            requires
                t as int <= 2 * MAX_TIME_MS as int,
                speed as int <= u32::MAX as int,
        ;
    }
    let wide: u128 = t as u128 * speed as u128 / 1000000;
    wide as u64
}

fn cycle_phase(t: u64, speed: u32) -> (r: u32)
    ensures
        r == spec_cycle_phase(t as int, speed),
        r < 1000,
{
    proof {
        assert(t as int * speed as int <= u64::MAX as int * u32::MAX as int) by (nonlinear_arith)
            requires
                t as int <= u64::MAX as int,
                speed as int <= u32::MAX as int,
        ;
    }
    let wide: u128 = (t as u128 * speed as u128 / 1000) % 1000;
    wide as u32
}

fn step_index(t: u64, speed: u32, len: usize) -> (r: usize)
    requires
        t <= 2 * MAX_TIME_MS,
        len > 0,
    ensures
        r == spec_step_index(t as int, speed, len as int),
        r < len,
{
    let s = scaled_time(t, speed);
    (s % len as u64) as usize
}

/// Fixed-point half-turn sine: for `q` thousandths of a half turn in
/// `[0, 500]`, a rational approximation of `sin(pi * q / 500)` in
/// thousandths, exact at 0, the peak and the end of the half turn.
pub open spec fn spec_sin_half_milli(q: int) -> int {
    4000 * (q * (500 - q)) / (312500 - q * (500 - q))
}

/// Fixed-point sine over a full turn: `p` is thousandths of a turn in
/// `[0, 1000)`, the result is `sin(2 pi p / 1000)` in thousandths,
/// in `[-1000, 1000]`.
pub open spec fn spec_sin_milli(p: int) -> int {
    if p < 500 {
        spec_sin_half_milli(p)
    } else {
        -spec_sin_half_milli(p - 500)
    }
}

proof fn lemma_sin_half_bounds(q: int)
    requires
        0 <= q <= 500,
    ensures
        0 <= q * (500 - q) <= 62500,
        0 <= spec_sin_half_milli(q) <= 1000,
{
    assert(0 <= q * (500 - q) <= 62500) by (nonlinear_arith)
        requires
            0 <= q <= 500,
    ;
    let u = q * (500 - q);
    assert(4000 * u / (312500 - u) <= 1000) by (nonlinear_arith)
        requires
            0 <= u <= 62500,
    ;
    assert(4000 * u / (312500 - u) >= 0) by (nonlinear_arith)
        requires
            0 <= u <= 62500,
    ;
}

fn sin_half_milli(q: u32) -> (r: u32)
    requires
        q <= 500,
    ensures
        r == spec_sin_half_milli(q as int),
        r <= 1000,
{
    proof {
        lemma_sin_half_bounds(q as int);
    }
    let u: u32 = q * (500 - q);
    4000 * u / (312500 - u)
}

/// Raised-sine luminance for the breathing shader, in thousandths:
/// `(1000 + sin) / 2`, always in `[0, 1000]`.
pub open spec fn spec_breath_level(p: int) -> int {
    (1000 + spec_sin_milli(p)) / 2
}

fn breath_level(p: u32) -> (r: u32)
    requires
        p < 1000,
    ensures
        r == spec_breath_level(p as int),
        r <= 1000,
{
    if p < 500 {
        let s = sin_half_milli(p);
        (1000 + s) / 2
    } else {
        let s = sin_half_milli(p - 500);
        proof {
            lemma_sin_half_bounds(p as int - 500);
        }
        (1000 - s) / 2
    }
}

/// Fixed-point HSL to RGB conversion. `h` is thousandths of a turn in
/// `[0, 1000)`, `s` and `l` are thousandths in `[0, 1000]`; each output
/// channel is rounded to `0..=255`.
pub open spec fn spec_hsl2rgb(h: int, s: int, l: int) -> LedPixel {
    let c = (1000 - abs_int(2 * l - 1000)) * s / 1000;
    let hp = 6 * h;
    let x = c * (1000 - abs_int(hp % 2000 - 1000)) / 1000;
    let m = l - c / 2;
    let seg = hp / 1000;
    let rgb: (int, int, int) = if seg == 0 {
        (c, x, 0)
    } else if seg == 1 {
        (x, c, 0)
    } else if seg == 2 {
        (0, c, x)
    } else if seg == 3 {
        (0, x, c)
    } else if seg == 4 {
        (x, 0, c)
    } else {
        (c, 0, x)
    };
    LedPixel {
        r: (((rgb.0 + m) * 255 + 500) / 1000) as u8,
        g: (((rgb.1 + m) * 255 + 500) / 1000) as u8,
        b: (((rgb.2 + m) * 255 + 500) / 1000) as u8,
        w: 0,
    }
}

pub open spec fn abs_int(v: int) -> int {
    if v < 0 {
        -v
    } else {
        v
    }
}

proof fn lemma_hsl_ranges(h: int, s: int, l: int)
    requires
        0 <= h < 1000,
        0 <= s <= 1000,
        0 <= l <= 1000,
    ensures
        ({
            let c = (1000 - abs_int(2 * l - 1000)) * s / 1000;
            let hp = 6 * h;
            let x = c * (1000 - abs_int(hp % 2000 - 1000)) / 1000;
            let m = l - c / 2;
            &&& 0 <= c <= 1000
            &&& 0 <= x <= c
            &&& 0 <= m
            &&& c + m <= 1000
            &&& 0 <= hp / 1000 < 6
        }),
{
    let a = 1000 - abs_int(2 * l - 1000);
    assert(0 <= a <= 1000);
    let c = a * s / 1000;
    assert(0 <= c <= a) by (nonlinear_arith)
        requires
            0 <= a <= 1000,
            0 <= s <= 1000,
            c == a * s / 1000,
    ;
    let hp = 6 * h;
    let b = 1000 - abs_int(hp % 2000 - 1000);
    assert(0 <= b <= 1000);
    let x = c * b / 1000;
    assert(0 <= x <= c) by (nonlinear_arith)
        requires
            0 <= c <= 1000,
            0 <= b <= 1000,
            x == c * b / 1000,
    ;
    let m = l - c / 2;
    assert(c <= a);
    if 2 * l - 1000 < 0 {
        assert(a == 2 * l);
    } else {
        assert(a == 2000 - 2 * l);
    }
    assert(0 <= m);
    assert(c + m <= 1000);
}

fn hsl2rgb(h: u32, s: u32, l: u32) -> (p: LedPixel)
    requires
        h < 1000,
        s <= 1000,
        l <= 1000,
    ensures
        p == spec_hsl2rgb(h as int, s as int, l as int),
{
    proof {
        lemma_hsl_ranges(h as int, s as int, l as int);
    }
    let aw: u32 = if 2 * l >= 1000 {
        2 * l - 1000
    } else {
        1000 - 2 * l
    };
    let c: u32 = (1000 - aw) * s / 1000;
    let hp: u32 = 6 * h;
    let bw: u32 = if hp % 2000 >= 1000 {
        hp % 2000 - 1000
    } else {
        1000 - hp % 2000
    };
    let x: u32 = c * (1000 - bw) / 1000;
    let m: u32 = l - c / 2;
    let seg: u32 = hp / 1000;
    let (r0, g0, b0): (u32, u32, u32) = if seg == 0 {
        (c, x, 0)
    } else if seg == 1 {
        (x, c, 0)
    } else if seg == 2 {
        (0, c, x)
    } else if seg == 3 {
        (0, x, c)
    } else if seg == 4 {
        (x, 0, c)
    } else {
        (c, 0, x)
    };
    LedPixel {
        r: (((r0 + m) * 255 + 500) / 1000) as u8,
        g: (((g0 + m) * 255 + 500) / 1000) as u8,
        b: (((b0 + m) * 255 + 500) / 1000) as u8,
        w: 0,
    }
}

/// The colour a palette yields at time `t` (milliseconds).
pub open spec fn spec_palette_color(p: ColorPalette, t: int) -> LedPixel {
    match p {
        ColorPalette::Rainbow(speed) => spec_hsl2rgb(spec_cycle_phase(t, speed), 1000, 500),
        ColorPalette::Solid(rgb) => rgb,
        ColorPalette::Custom(palette, speed) => palette@[spec_step_index(t, speed, palette@.len() as int)],
    }
}

impl ColorPalette {
    /// The base colour of a layer is a pure function of the (offset) render
    /// clock; in particular a solid palette is the same colour at every time.
    pub fn render(&self, t: u64) -> (c: LedPixel)
        requires
            self.wf(),
            t <= 2 * MAX_TIME_MS,
        ensures
            c == spec_palette_color(*self, t as int),
    {
        match self {
            ColorPalette::Rainbow(speed) => {
                let phase = cycle_phase(t, *speed);
                hsl2rgb(phase, 1000, 500)
            },
            ColorPalette::Solid(rgb) => *rgb,
            ColorPalette::Custom(palette, speed) => {
                let idx = step_index(t, *speed, palette.len());
                palette[idx]
            },
        }
    }

    pub fn duplicate(&self) -> (r: Self)
        ensures
            r.spec_eq(*self),
    {
        match self {
            ColorPalette::Rainbow(speed) => ColorPalette::Rainbow(*speed),
            ColorPalette::Solid(rgb) => ColorPalette::Solid(*rgb),
            ColorPalette::Custom(palette, speed) => {
                let mut copy: Vec<LedPixel> = Vec::new();
                let mut i: usize = 0;
                let n = palette.len();
                while i < n
                    invariant
                        i <= n,
                        n == palette@.len(),
                        copy@ == palette@.take(i as int),
                    decreases n - i,
                {
                    copy.push(palette[i]);
                    proof {
                        assert(copy@ =~= palette@.take(i + 1));
                    }
                    i = i + 1;
                }
                proof {
                    assert(copy@ =~= palette@);
                }
                ColorPalette::Custom(copy, *speed)
            },
        }
    }
}

impl Default for ColorPalette {
    /// The default colour source is solid white.
    fn default() -> (c: Self)
        ensures
            c == ColorPalette::Solid(LedPixel::spec_rgb(255, 255, 255)),
    {
        ColorPalette::Solid(LedPixel::rgb(255, 255, 255))
    }
}

} // verus!

verus! {

/// The per-pixel filter memory and frame counter that live for the process
/// lifetime: mutated on every render call, never explicitly reset.
#[derive(Debug)]
pub struct ShaderPersistentData {
    pub frame_counter: u32,
    pub lowpass: RawFramebuffer,
}

impl ShaderPersistentData {
    pub open spec fn wf(self) -> bool {
        self.lowpass.wf()
    }
}

impl Default for ShaderPersistentData {
    fn default() -> (d: Self)
        ensures
            d.wf(),
            d.frame_counter == 0,
            d.lowpass@ == Seq::new(9, |i: int| LedPixel::spec_black()),
    {
        ShaderPersistentData { frame_counter: 0, lowpass: RawFramebuffer::new() }
    }
}

/// The frame counter advances by one on each random-effect evaluation,
/// wrapping at the 32-bit boundary.
pub open spec fn spec_wrap_inc(c: u32) -> u32 {
    if c == u32::MAX {
        0u32
    } else {
        (c + 1) as u32
    }
}

/// One channel of the IIR low-pass filter: the state moves towards the
/// input by a `1/tau` fraction of the gap, truncated towards the state.
/// The result always lies between the old state and the input.
pub open spec fn spec_lowpass_step(s: u8, c: u8, tau: u32) -> int {
    if c >= s {
        s + (c - s) / (tau as int)
    } else {
        s - (s - c) / (tau as int)
    }
}

pub proof fn lemma_lowpass_step_range(s: u8, c: u8, tau: u32)
    requires
        tau >= 1,
    ensures
        c >= s ==> s <= spec_lowpass_step(s, c, tau) <= c,
        c < s ==> c <= spec_lowpass_step(s, c, tau) <= s,
        0 <= spec_lowpass_step(s, c, tau) <= 255,
{
    if c >= s {
        assert(0 <= (c - s) / (tau as int) <= c - s) by (nonlinear_arith)
            requires
                tau >= 1,
                c >= s,
        ;
    } else {
        assert(0 <= (s - c) / (tau as int) <= s - c) by (nonlinear_arith)
            requires
                tau >= 1,
                c < s,
        ;
    }
}

fn lowpass_channel(s: u8, c: u8, tau: u32) -> (r: u8)
    requires
        tau >= 1,
    ensures
        r == spec_lowpass_step(s, c, tau),
{
    proof {
        lemma_lowpass_step_range(s, c, tau);
    }
    if c >= s {
        s + ((c - s) as u32 / tau) as u8
    } else {
        s - ((s - c) as u32 / tau) as u8
    }
}

fn scale_channel(c: u8, l: u32) -> (r: u8)
    requires
        l <= 1000,
    ensures
        r == c * l / 1000,
{
    proof {
        assert(c * l <= 255 * 1000) by (nonlinear_arith)
            requires
                c <= 255,
                l <= 1000,
        ;
        assert(c * l / 1000 <= 255) by (nonlinear_arith)
            requires
                c * l <= 255 * 1000,
        ;
    }
    (c as u32 * l / 1000) as u8
}

/// What one fragment shader turns a colour into at cell (x, y), and what it
/// leaves in the persistent filter memory.
pub open spec fn spec_shader_apply(
    sh: FragmentShader,
    t: int,
    color: LedPixel,
    x: int,
    y: int,
    lp: Seq<LedPixel>,
) -> (LedPixel, Seq<LedPixel>) {
    match sh {
        FragmentShader::Breathing(speed) => {
            let l = spec_breath_level(spec_cycle_phase(t, speed));
            let c = LedPixel {
                r: (color.r * l / 1000) as u8,
                g: (color.g * l / 1000) as u8,
                b: (color.b * l / 1000) as u8,
                w: 0,
            };
            (c, lp)
        },
        FragmentShader::Blinking(speed) => {
            if spec_cycle_phase(t, speed) < 500 {
                (color, lp)
            } else {
                (LedPixel::spec_black(), lp)
            }
        },
        FragmentShader::LowPass(tau) => {
            let prev = spec_get_pixel(lp, x, y);
            let f = LedPixel {
                r: spec_lowpass_step(prev.r, color.r, tau) as u8,
                g: spec_lowpass_step(prev.g, color.g, tau) as u8,
                b: spec_lowpass_step(prev.b, color.b, tau) as u8,
                w: 0,
            };
            (f, spec_set_pixel(lp, x, y, f))
        },
        FragmentShader::LowPassWithPeak(tau) => {
            let prev = spec_get_pixel(lp, x, y);
            let f = LedPixel {
                r: spec_max_int(spec_lowpass_step(prev.r, color.r, tau), color.r as int) as u8,
                g: spec_max_int(spec_lowpass_step(prev.g, color.g, tau), color.g as int) as u8,
                b: spec_max_int(spec_lowpass_step(prev.b, color.b, tau), color.b as int) as u8,
                w: 0,
            };
            let lp2 = spec_set_pixel(lp, x, y, f);
            (spec_get_pixel(lp2, x, y), lp2)
        },
        FragmentShader::Rainbow2D(speed) => {
            let h = ((x + y) * 1000 / 16 + spec_cycle_phase(t, speed)) % 1000;
            (spec_hsl2rgb(h, 1000, 500), lp)
        },
    }
}

pub open spec fn spec_max_int(a: int, b: int) -> int {
    if a >= b {
        a
    } else {
        b
    }
}

impl FragmentShader {
    /// Apply this shader to one cell's colour; the low-pass variants also
    /// read and write the persistent filter memory at that cell.
    pub fn render(&self, t: u64, color: LedPixel, x: usize, y: usize, lowpass: &mut RawFramebuffer) -> (c: LedPixel)
        requires
            self.wf(),
            old(lowpass).wf(),
            x < 3,
            y < 3,
        ensures
            final(lowpass).wf(),
            (c, final(lowpass)@) == spec_shader_apply(*self, t as int, color, x as int, y as int, old(lowpass)@),
    {
        match self {
            FragmentShader::Breathing(speed) => {
                let l = breath_level(cycle_phase(t, *speed));
                LedPixel {
                    r: scale_channel(color.r, l),
                    g: scale_channel(color.g, l),
                    b: scale_channel(color.b, l),
                    w: 0,
                }
            },
            FragmentShader::Blinking(speed) => {
                if cycle_phase(t, *speed) < 500 {
                    color
                } else {
                    LedPixel::black()
                }
            },
            FragmentShader::LowPass(tau) => {
                let prev = lowpass.get_pixel(x, y);
                let col = LedPixel {
                    r: lowpass_channel(prev.r, color.r, *tau),
                    g: lowpass_channel(prev.g, color.g, *tau),
                    b: lowpass_channel(prev.b, color.b, *tau),
                    w: 0,
                };
                lowpass.set_pixel(x, y, col);
                col
            },
            FragmentShader::LowPassWithPeak(tau) => {
                proof {
                    lemma_lowpass_step_range(spec_get_pixel(old(lowpass)@, x as int, y as int).r, color.r, *tau);
                    lemma_lowpass_step_range(spec_get_pixel(old(lowpass)@, x as int, y as int).g, color.g, *tau);
                    lemma_lowpass_step_range(spec_get_pixel(old(lowpass)@, x as int, y as int).b, color.b, *tau);
                }
                let prev = lowpass.get_pixel(x, y);
                let fr = lowpass_channel(prev.r, color.r, *tau);
                let fg = lowpass_channel(prev.g, color.g, *tau);
                let fb = lowpass_channel(prev.b, color.b, *tau);
                let col = LedPixel {
                    r: if fr >= color.r { fr } else { color.r },
                    g: if fg >= color.g { fg } else { color.g },
                    b: if fb >= color.b { fb } else { color.b },
                    w: 0,
                };
                lowpass.set_pixel(x, y, col);
                lowpass.get_pixel(x, y)
            },
            FragmentShader::Rainbow2D(speed) => {
                let h = ((x as u32 + y as u32) * 1000 / 16 + cycle_phase(t, *speed)) % 1000;
                hsl2rgb(h, 1000, 500)
            },
        }
    }
}

} // verus!

verus! {

/// The glyph a byte selects: letters (after ASCII uppercasing) index the
/// 26-entry font table, anything else yields the zero mask.
pub open spec fn spec_glyph(font: Seq<LedPattern>, ch: u8) -> LedPattern {
    let up = if 97 <= ch <= 122 {
        (ch - 32) as u8
    } else {
        ch
    };
    if 65 <= up <= 90 && up - 65 < font.len() {
        font[up - 65]
    } else {
        0u16
    }
}

/// The mask an animation shows at time `t`: the step index walks the
/// sequence forward.
pub open spec fn spec_animation_mask(seq: Seq<LedPattern>, speed: u32, t: int) -> LedPattern {
    seq[spec_step_index(t, speed, seq.len() as int)]
}

/// The mask the reversed animation shows: the same step index read from
/// the far end of the sequence.
pub open spec fn spec_animation_reverse_mask(seq: Seq<LedPattern>, speed: u32, t: int) -> LedPattern {
    seq[seq.len() - 1 - spec_step_index(t, speed, seq.len() as int)]
}

/// The mask a text effect shows at time `t`.
pub open spec fn spec_text_mask(font: Seq<LedPattern>, text: Seq<u8>, speed: u32, t: int) -> LedPattern {
    spec_glyph(font, text[spec_step_index(t, speed, text.len() as int)])
}

/// The mask of a deterministic pattern effect at time `t`. The random
/// variant is not a function of time; it is described by
/// `spec_pattern_step` instead.
pub open spec fn spec_pattern_mask(p: Pattern, t: int, font: Seq<LedPattern>) -> LedPattern {
    match p {
        Pattern::Simple(mask) => mask,
        Pattern::Text(text, speed) => spec_text_mask(font, text@, speed, t),
        Pattern::Animation(seq, speed) => spec_animation_mask(seq@, speed, t),
        Pattern::AnimationReverse(seq, speed) => spec_animation_reverse_mask(seq@, speed, t),
        Pattern::AnimationRandom(_, _) => 0u16,
    }
}

/// How one evaluation of a pattern effect relates the frame counter before
/// (`c0`) and after (`c1`) to the produced mask. Deterministic effects leave
/// the counter alone and yield `spec_pattern_mask`; the random effect always
/// advances the counter and yields some mask of its sequence on every
/// `decimation`-th call, the zero mask otherwise.
pub open spec fn spec_pattern_step(
    p: Pattern,
    t: int,
    font: Seq<LedPattern>,
    c0: u32,
    c1: u32,
    mask: LedPattern,
) -> bool {
    match p {
        Pattern::AnimationRandom(seq, decimation) => {
            &&& c1 == spec_wrap_inc(c0)
            &&& if c1 % (decimation as u32) == 0 {
                exists|i: int| 0 <= i < seq@.len() && mask == seq@[i]
            } else {
                mask == 0
            }
        },
        _ => c1 == c0 && mask == spec_pattern_mask(p, t, font),
    }
}

impl Pattern {
    /// Structural equivalence: the same variant with the same contents.
    pub open spec fn spec_eq(self, other: Pattern) -> bool {
        match (self, other) {
            (Pattern::Simple(a), Pattern::Simple(b)) => a == b,
            (Pattern::Text(ta, sa), Pattern::Text(tb, sb)) => ta@ == tb@ && sa == sb,
            (Pattern::Animation(qa, sa), Pattern::Animation(qb, sb)) => qa@ == qb@ && sa == sb,
            (Pattern::AnimationReverse(qa, sa), Pattern::AnimationReverse(qb, sb)) => qa@ == qb@ && sa == sb,
            (Pattern::AnimationRandom(qa, da), Pattern::AnimationRandom(qb, db)) => qa@ == qb@ && da == db,
            _ => false,
        }
    }

    /// Evaluate the effect at time `t`: the active 9-bit mask.
    pub fn render(&self, t: u64, persistent: &mut ShaderPersistentData, rng: &mut SmallRng, font: &Vec<LedPattern>) -> (mask: LedPattern)
        requires
            self.wf(),
            t <= 2 * MAX_TIME_MS,
            old(persistent).wf(),
        ensures
            final(persistent).wf(),
            final(persistent).lowpass@ == old(persistent).lowpass@,
            spec_pattern_step(*self, t as int, font@,
                old(persistent).frame_counter, final(persistent).frame_counter, mask),
    {
        match self {
            Pattern::Simple(mask) => *mask,
            Pattern::Text(text, speed) => {
                let idx = step_index(t, *speed, text.len());
                let ch = text[idx];
                let up = if 97 <= ch && ch <= 122 {
                    ch - 32
                } else {
                    ch
                };
                if 65 <= up && up <= 90 && ((up - 65) as usize) < font.len() {
                    font[(up - 65) as usize]
                } else {
                    0u16
                }
            },
            Pattern::Animation(seq, speed) => {
                let idx = step_index(t, *speed, seq.len());
                seq[idx]
            },
            Pattern::AnimationReverse(seq, speed) => {
                let idx = step_index(t, *speed, seq.len());
                seq[seq.len() - idx - 1]
            },
            Pattern::AnimationRandom(seq, decimation) => {
                let next = if persistent.frame_counter == u32::MAX {
                    0
                } else {
                    persistent.frame_counter + 1
                };
                persistent.frame_counter = next;
                if next % (*decimation as u32) == 0 {
                    let idx = rng_below(rng, seq.len());
                    seq[idx]
                } else {
                    0u16
                }
            },
        }
    }

    pub fn duplicate(&self) -> (r: Self)
        ensures
            r.spec_eq(*self),
    {
        match self {
            Pattern::Simple(mask) => Pattern::Simple(*mask),
            Pattern::Text(text, speed) => Pattern::Text(duplicate_bytes(text), *speed),
            Pattern::Animation(seq, speed) => Pattern::Animation(duplicate_masks(seq), *speed),
            Pattern::AnimationReverse(seq, speed) => Pattern::AnimationReverse(duplicate_masks(seq), *speed),
            Pattern::AnimationRandom(seq, decimation) => Pattern::AnimationRandom(duplicate_masks(seq), *decimation),
        }
    }
}

impl Default for Pattern {
    /// The default effect lights all 9 cells.
    fn default() -> (p: Self)
        ensures
            p == Pattern::Simple(0b111111111u16),
    {
        Pattern::Simple(0b111111111)
    }
}

fn duplicate_bytes(v: &Vec<u8>) -> (r: Vec<u8>)
    ensures
        r@ == v@,
{
    let mut copy: Vec<u8> = Vec::new();
    let mut i: usize = 0;
    let n = v.len();
    while i < n
        invariant
            i <= n,
            n == v@.len(),
            copy@ == v@.take(i as int),
        decreases n - i,
    {
        copy.push(v[i]);
        proof {
            assert(copy@ =~= v@.take(i + 1));
        }
        i = i + 1;
    }
    proof {
        assert(copy@ =~= v@);
    }
    copy
}

pub(crate) fn duplicate_masks(v: &Vec<LedPattern>) -> (r: Vec<LedPattern>)
    ensures
        r@ == v@,
{
    let mut copy: Vec<LedPattern> = Vec::new();
    let mut i: usize = 0;
    let n = v.len();
    while i < n
        invariant
            i <= n,
            n == v@.len(),
            copy@ == v@.take(i as int),
        decreases n - i,
    {
        copy.push(v[i]);
        proof {
            assert(copy@ =~= v@.take(i + 1));
        }
        i = i + 1;
    }
    proof {
        assert(copy@ =~= v@);
    }
    copy
}

} // verus!

verus! {

/// The part of the render manager's state that one render call reads and
/// writes: raw framebuffer, persistent filter memory, frame counter.
pub struct RenderState {
    pub fb: Seq<LedPixel>,
    pub lp: Seq<LedPixel>,
    pub counter: u32,
}

/// Fold the pattern-shader list over a lit cell's colour, starting at list
/// position `from`.
pub open spec fn spec_pattern_chain(
    shaders: Seq<FragmentShader>,
    from: int,
    t: int,
    c: LedPixel,
    x: int,
    y: int,
    lp: Seq<LedPixel>,
) -> (LedPixel, Seq<LedPixel>)
    decreases shaders.len() - from,
{
    if from < 0 || from >= shaders.len() {
        (c, lp)
    } else {
        let (c2, lp2) = spec_shader_apply(shaders[from], t, c, x, y, lp);
        spec_pattern_chain(shaders, from + 1, t, c2, x, y, lp2)
    }
}

/// Fold the screen-shader list over a cell as a read-modify-write on the
/// framebuffer itself, starting at list position `from`.
pub open spec fn spec_screen_chain(
    shaders: Seq<FragmentShader>,
    from: int,
    t: int,
    x: int,
    y: int,
    fb: Seq<LedPixel>,
    lp: Seq<LedPixel>,
) -> (Seq<LedPixel>, Seq<LedPixel>)
    decreases shaders.len() - from,
{
    if from < 0 || from >= shaders.len() {
        (fb, lp)
    } else {
        let c = spec_get_pixel(fb, x, y);
        let (c2, lp2) = spec_shader_apply(shaders[from], t, c, x, y, lp);
        spec_screen_chain(shaders, from + 1, t, x, y, spec_set_pixel(fb, x, y, c2), lp2)
    }
}

/// The fixed bit-to-cell table: bit `i` of a mask drives the cell at
/// `(x, y) = (i / 3, 2 - i % 3)`.
pub open spec fn spec_bit_x(i: int) -> int {
    i / 3
}

pub open spec fn spec_bit_y(i: int) -> int {
    2 - (i % 3)
}

/// What processing the cell of bit `i` does to the framebuffer and the
/// filter memory: lit cells take the shaded base colour, then the screen
/// shaders run over the stored value of every cell.
pub open spec fn spec_render_cell(
    cmd: RenderCommand,
    t: int,
    mask: LedPattern,
    base: LedPixel,
    fb: Seq<LedPixel>,
    lp: Seq<LedPixel>,
    i: int,
) -> (Seq<LedPixel>, Seq<LedPixel>) {
    let x = spec_bit_x(i);
    let y = spec_bit_y(i);
    let lit = mask & (1u16 << (i as u16)) != 0;
    let step1 = if lit {
        let (c, lpa) = spec_pattern_chain(cmd.pattern_shaders@, 0, t, base, x, y, lp);
        (spec_set_pixel(fb, x, y, c), lpa)
    } else {
        (fb, lp)
    };
    spec_screen_chain(cmd.screen_shaders@, 0, t, x, y, step1.0, step1.1)
}

/// Process the cells of bits `0 .. n` in order.
pub open spec fn spec_render_cells(
    cmd: RenderCommand,
    t: int,
    mask: LedPattern,
    base: LedPixel,
    fb: Seq<LedPixel>,
    lp: Seq<LedPixel>,
    n: int,
) -> (Seq<LedPixel>, Seq<LedPixel>)
    decreases n,
{
    if n <= 0 {
        (fb, lp)
    } else {
        let prev = spec_render_cells(cmd, t, mask, base, fb, lp, n - 1);
        spec_render_cell(cmd, t, mask, base, prev.0, prev.1, n - 1)
    }
}

/// How one layer relates the render state before and after: the base colour
/// is the palette at the offset clock, the active mask comes from one
/// pattern-effect evaluation, and the 9 cells are composited in order.
pub open spec fn spec_render_single_rel(
    cmd: RenderCommand,
    t: int,
    font: Seq<LedPattern>,
    s0: RenderState,
    s1: RenderState,
) -> bool {
    let tp = t + cmd.time_offset;
    let base = spec_palette_color(cmd.color, tp);
    exists|mask: LedPattern|
        {
            &&& #[trigger] spec_pattern_step(cmd.effect, tp, font, s0.counter, s1.counter, mask)
            &&& (s1.fb, s1.lp) == spec_render_cells(cmd, tp, mask, base, s0.fb, s0.lp, 9)
        }
}

/// How a whole scene (the layers `from .. to` of `scene`) relates the render
/// state before and after: the single-layer relation chained in order.
pub open spec fn spec_render_rel(
    scene: Seq<RenderCommand>,
    from: int,
    to: int,
    t: int,
    font: Seq<LedPattern>,
    s0: RenderState,
    s1: RenderState,
) -> bool
    decreases to - from,
{
    if from >= to {
        s1.fb == s0.fb && s1.lp == s0.lp && s1.counter == s0.counter
    } else {
        exists|mid: RenderState|
            {
                &&& #[trigger] spec_render_single_rel(scene[from], t, font, s0, mid)
                &&& spec_render_rel(scene, from + 1, to, t, font, mid, s1)
            }
    }
}

/// Chaining one more layer onto an already-chained prefix.
pub proof fn lemma_render_rel_snoc(
    scene: Seq<RenderCommand>,
    from: int,
    to: int,
    t: int,
    font: Seq<LedPattern>,
    s0: RenderState,
    s1: RenderState,
    s2: RenderState,
)
    requires
        0 <= from <= to < scene.len(),
        spec_render_rel(scene, from, to, t, font, s0, s1),
        spec_render_single_rel(scene[to], t, font, s1, s2),
    ensures
        spec_render_rel(scene, from, to + 1, t, font, s0, s2),
    decreases to - from,
{
    if from >= to {
        assert(spec_render_single_rel(scene[from], t, font, s0, s2)) by {
            assert(s1.fb == s0.fb && s1.lp == s0.lp && s1.counter == s0.counter);
            let tp = t + scene[from].time_offset;
            let base = spec_palette_color(scene[from].color, tp);
            let mask = choose|mask: LedPattern|
                {
                    &&& #[trigger] spec_pattern_step(scene[from].effect, tp, font, s1.counter, s2.counter, mask)
                    &&& (s2.fb, s2.lp) == spec_render_cells(scene[from], tp, mask, base, s1.fb, s1.lp, 9)
                };
            assert(spec_pattern_step(scene[from].effect, tp, font, s0.counter, s2.counter, mask));
        };
        let mid = s2;
        assert(spec_render_rel(scene, from + 1, to + 1, t, font, mid, s2));
    } else {
        let mid = choose|mid: RenderState|
            {
                &&& #[trigger] spec_render_single_rel(scene[from], t, font, s0, mid)
                &&& spec_render_rel(scene, from + 1, to, t, font, mid, s1)
            };
        lemma_render_rel_snoc(scene, from + 1, to, t, font, mid, s1, s2);
        assert(spec_render_single_rel(scene[from], t, font, s0, mid));
        assert(spec_render_rel(scene, from + 1, to + 1, t, font, mid, s2));
    }
}

/// Every layer of a scene is well formed.
pub open spec fn spec_scene_wf(scene: Seq<RenderCommand>) -> bool {
    forall|i: int| 0 <= i < scene.len() ==> (#[trigger] scene[i]).wf()
}

/// Composites scenes into the LED matrix. Owns the matrix, the
/// process-lifetime RNG, the persistent shader state and the font table.
pub struct RenderManager {
    pub mtrx: LedMatrix,
    pub rng: SmallRng,
    pub persistent_data: ShaderPersistentData,
    pub font: Vec<LedPattern>,
}

impl RenderManager {
    pub open spec fn wf(self) -> bool {
        self.mtrx.wf() && self.persistent_data.wf()
    }

    /// The state one render call works on.
    pub open spec fn render_state(self) -> RenderState {
        RenderState {
            fb: self.mtrx.raw_framebuffer@,
            lp: self.persistent_data.lowpass@,
            counter: self.persistent_data.frame_counter,
        }
    }

    /// Everything a render call leaves alone.
    pub open spec fn spec_same_but_render_state(pre: RenderManager, post: RenderManager) -> bool {
        &&& post.mtrx.corrected_gain == pre.mtrx.corrected_gain
        &&& post.mtrx.raw_gain == pre.mtrx.raw_gain
        &&& post.mtrx.gamma_corrected_framebuffer@ == pre.mtrx.gamma_corrected_framebuffer@
        &&& post.font@ == pre.font@
    }

    pub fn new(font: Vec<LedPattern>, seed: u64) -> (r: Self)
        ensures
            r.wf(),
            r.font@ == font@,
            r.mtrx.raw_framebuffer@ == Seq::new(9, |i: int| LedPixel::spec_black()),
            r.mtrx.corrected_gain == 1000,
            r.mtrx.raw_gain == 1000,
            r.persistent_data.frame_counter == 0,
            r.persistent_data.lowpass@ == Seq::new(9, |i: int| LedPixel::spec_black()),
    {
        RenderManager {
            mtrx: LedMatrix::new(),
            rng: crate::rng::rng_from_seed(seed),
            persistent_data: Default::default(),
            font,
        }
    }

    /// Composite one layer into the framebuffer at time `t`.
    fn render_single(&mut self, command: &RenderCommand, t: u64)
        requires
            old(self).wf(),
            command.wf(),
            t <= MAX_TIME_MS,
        ensures
            final(self).wf(),
            RenderManager::spec_same_but_render_state(*old(self), *final(self)),
            spec_render_single_rel(*command, t as int, old(self).font@,
                old(self).render_state(), final(self).render_state()),
    {
        let tp = t + command.time_offset;
        let startcolor = command.color.render(tp);
        let mask = command.effect.render(tp, &mut self.persistent_data, &mut self.rng, &self.font);

        let ghost fb0 = self.mtrx.raw_framebuffer.framebuffer@;
        let ghost lp0 = self.persistent_data.lowpass.framebuffer@;
        let ghost counter1 = self.persistent_data.frame_counter;

        let mut i: usize = 0;
        while i < 9
            invariant
                self.mtrx.wf(),
                self.persistent_data.lowpass.framebuffer@.len() == 9,
                command.wf(),
                i <= 9,
                tp <= 2 * MAX_TIME_MS,
                self.persistent_data.frame_counter == counter1,
                self.mtrx.corrected_gain == old(self).mtrx.corrected_gain,
                self.mtrx.raw_gain == old(self).mtrx.raw_gain,
                self.mtrx.gamma_corrected_framebuffer.framebuffer@ == old(self).mtrx.gamma_corrected_framebuffer.framebuffer@,
                self.font@ == old(self).font@,
                (self.mtrx.raw_framebuffer.framebuffer@, self.persistent_data.lowpass.framebuffer@)
                    == spec_render_cells(*command, tp as int, mask, startcolor, fb0, lp0, i as int),
            decreases 9 - i,
        {
            let ghost fb_cell = self.mtrx.raw_framebuffer.framebuffer@;
            let ghost lp_cell = self.persistent_data.lowpass.framebuffer@;

            let x = i / 3;
            let y = 2 - (i % 3);

            if mask & (1u16 << (i as u16)) != 0 {
                let mut color = startcolor;
                let ghost lp_in = self.persistent_data.lowpass.framebuffer@;
                let mut k: usize = 0;
                while k < command.pattern_shaders.len()
                    invariant
                        self.mtrx.wf(),
                        self.persistent_data.lowpass.framebuffer@.len() == 9,
                        command.wf(),
                        k <= command.pattern_shaders@.len(),
                        tp <= 2 * MAX_TIME_MS,
                        x < 3,
                        y < 3,
                        self.persistent_data.frame_counter == counter1,
                        self.mtrx.corrected_gain == old(self).mtrx.corrected_gain,
                        self.mtrx.raw_gain == old(self).mtrx.raw_gain,
                        self.mtrx.gamma_corrected_framebuffer.framebuffer@ == old(self).mtrx.gamma_corrected_framebuffer.framebuffer@,
                        self.font@ == old(self).font@,
                        self.mtrx.raw_framebuffer.framebuffer@ == fb_cell,
                        spec_pattern_chain(command.pattern_shaders@, k as int, tp as int, color,
                            x as int, y as int, self.persistent_data.lowpass.framebuffer@)
                            == spec_pattern_chain(command.pattern_shaders@, 0, tp as int, startcolor,
                                x as int, y as int, lp_in),
                    decreases command.pattern_shaders@.len() - k,
                {
                    let sh = command.pattern_shaders[k];
                    color = sh.render(tp, color, x, y, &mut self.persistent_data.lowpass);
                    k = k + 1;
                }
                self.mtrx.set_pixel(x, y, color);
            }

            let ghost fb_mid = self.mtrx.raw_framebuffer.framebuffer@;
            let ghost lp_mid = self.persistent_data.lowpass.framebuffer@;

            let mut k: usize = 0;
            while k < command.screen_shaders.len()
                invariant
                    self.mtrx.wf(),
                    self.persistent_data.lowpass.framebuffer@.len() == 9,
                    command.wf(),
                    k <= command.screen_shaders@.len(),
                    tp <= 2 * MAX_TIME_MS,
                    x < 3,
                    y < 3,
                    self.persistent_data.frame_counter == counter1,
                    self.mtrx.corrected_gain == old(self).mtrx.corrected_gain,
                    self.mtrx.raw_gain == old(self).mtrx.raw_gain,
                    self.mtrx.gamma_corrected_framebuffer.framebuffer@ == old(self).mtrx.gamma_corrected_framebuffer.framebuffer@,
                    self.font@ == old(self).font@,
                    spec_screen_chain(command.screen_shaders@, k as int, tp as int, x as int, y as int,
                        self.mtrx.raw_framebuffer.framebuffer@, self.persistent_data.lowpass.framebuffer@)
                        == spec_screen_chain(command.screen_shaders@, 0, tp as int, x as int, y as int,
                            fb_mid, lp_mid),
                decreases command.screen_shaders@.len() - k,
            {
                let sh = command.screen_shaders[k];
                let cur = self.mtrx.get_pixel(x, y);
                let shaded = sh.render(tp, cur, x, y, &mut self.persistent_data.lowpass);
                self.mtrx.set_pixel(x, y, shaded);
                k = k + 1;
            }

            proof {
                assert((self.mtrx.raw_framebuffer.framebuffer@, self.persistent_data.lowpass.framebuffer@)
                    == spec_render_cell(*command, tp as int, mask, startcolor, fb_cell, lp_cell, i as int));
            }
            i = i + 1;
        }

        proof {
            let s0 = old(self).render_state();
            let s1 = self.render_state();
            let tpi = t as int + command.time_offset as int;
            assert(spec_pattern_step(command.effect, tpi, old(self).font@, s0.counter, s1.counter, mask));
            assert((s1.fb, s1.lp) == spec_render_cells(*command, tpi, mask, startcolor, s0.fb, s0.lp, 9));
        }
    }

    /// Composite a whole scene, layer by layer, into the framebuffer.
    /// Later layers observe the pixels earlier layers wrote in the same
    /// tick: layers are deliberately not isolated.
    pub fn render(&mut self, command: &[RenderCommand], t: u64)
        requires
            old(self).wf(),
            spec_scene_wf(command@),
            t <= MAX_TIME_MS,
        ensures
            final(self).wf(),
            RenderManager::spec_same_but_render_state(*old(self), *final(self)),
            spec_render_rel(command@, 0, command@.len() as int, t as int, old(self).font@,
                old(self).render_state(), final(self).render_state()),
    {
        let n = command.len();
        let mut i: usize = 0;
        while i < n
            invariant
                self.wf(),
                spec_scene_wf(command@),
                n == command@.len(),
                i <= n,
                t <= MAX_TIME_MS,
                RenderManager::spec_same_but_render_state(*old(self), *self),
                spec_render_rel(command@, 0, i as int, t as int, old(self).font@,
                    old(self).render_state(), self.render_state()),
            decreases n - i,
        {
            let ghost s_before = self.render_state();
            let c: &RenderCommand = &command[i];
            self.render_single(c, t);
            proof {
                lemma_render_rel_snoc(command@, 0, i as int, t as int, old(self).font@,
                    old(self).render_state(), s_before, self.render_state());
            }
            i = i + 1;
        }
    }
}

} // verus!

verus! {

impl RenderCommand {
    /// Structural equivalence: same effect, colour source, shader lists and
    /// time offset.
    pub open spec fn spec_eq(self, other: RenderCommand) -> bool {
        &&& self.effect.spec_eq(other.effect)
        &&& self.color.spec_eq(other.color)
        &&& self.pattern_shaders@ == other.pattern_shaders@
        &&& self.screen_shaders@ == other.screen_shaders@
        &&& self.time_offset == other.time_offset
    }

    pub fn duplicate(&self) -> (r: Self)
        ensures
            r.spec_eq(*self),
            r.wf() <==> self.wf(),
    {
        RenderCommand {
            effect: self.effect.duplicate(),
            color: self.color.duplicate(),
            pattern_shaders: duplicate_shaders(&self.pattern_shaders),
            screen_shaders: duplicate_shaders(&self.screen_shaders),
            time_offset: self.time_offset,
        }
    }
}

impl Default for RenderCommand {
    /// The default layer lights every cell solid white with no shaders and
    /// no time offset.
    fn default() -> (c: Self)
        ensures
            c.effect == Pattern::Simple(0b111111111u16),
            c.color == ColorPalette::Solid(LedPixel::spec_rgb(255, 255, 255)),
            c.pattern_shaders@.len() == 0,
            c.screen_shaders@.len() == 0,
            c.time_offset == 0,
            c.wf(),
    {
        RenderCommand {
            effect: Pattern::Simple(0b111111111),
            color: ColorPalette::Solid(LedPixel::rgb(255, 255, 255)),
            pattern_shaders: Vec::new(),
            screen_shaders: Vec::new(),
            time_offset: 0,
        }
    }
}

fn duplicate_shaders(v: &Vec<FragmentShader>) -> (r: Vec<FragmentShader>)
    ensures
        r@ == v@,
{
    let mut copy: Vec<FragmentShader> = Vec::new();
    let mut i: usize = 0;
    let n = v.len();
    while i < n
        invariant
            i <= n,
            n == v@.len(),
            copy@ == v@.take(i as int),
        decreases n - i,
    {
        copy.push(v[i]);
        proof {
            assert(copy@ =~= v@.take(i + 1));
        }
        i = i + 1;
    }
    proof {
        assert(copy@ =~= v@);
    }
    copy
}

/// A solid colour source is time-invariant: it renders its colour at every
/// time.
pub proof fn lemma_solid_palette_time_invariant(c: LedPixel, t1: int, t2: int)
    ensures
        spec_palette_color(ColorPalette::Solid(c), t1) == c,
        spec_palette_color(ColorPalette::Solid(c), t1)
            == spec_palette_color(ColorPalette::Solid(c), t2),
{
}

/// Walking an animation backwards shows, at every time, the mask the
/// forward animation of the reversed sequence shows; equivalently, where
/// the forward walk reads index `i`, the backward walk reads index
/// `len - 1 - i`.
pub proof fn lemma_animation_reverse_mirrors(seq: Seq<LedPattern>, speed: u32, t: int)
    requires
        0 < seq.len(),
    ensures
        ({
            let i = spec_step_index(t, speed, seq.len() as int);
            &&& 0 <= i < seq.len()
            &&& spec_animation_mask(seq, speed, t) == seq[i]
            &&& spec_animation_reverse_mask(seq, speed, t) == seq[seq.len() - 1 - i]
            &&& spec_animation_reverse_mask(seq, speed, t)
                == spec_animation_mask(seq.reverse(), speed, t)
        }),
{
    let len = seq.len() as int;
    let i = spec_step_index(t, speed, len);
    assert(0 <= i < len) by (nonlinear_arith)
        requires
            len > 0,
            i == spec_scaled_time(t, speed) % len,
    ;
    assert(seq.reverse()[i] == seq[len - 1 - i]);
}

/// The peak-holding low pass never outputs below the current raw input on
/// any channel; and where the stored filter value does not exceed the raw
/// input, the output does not drop below the stored value either.
pub proof fn lemma_low_pass_peak_floor(
    tau: u32,
    t: int,
    color: LedPixel,
    x: int,
    y: int,
    lp: Seq<LedPixel>,
)
    requires
        tau >= 1,
        lp.len() == 9,
        0 <= x < 3,
        0 <= y < 3,
    ensures
        ({
            let prev = spec_get_pixel(lp, x, y);
            let out = spec_shader_apply(FragmentShader::LowPassWithPeak(tau), t, color, x, y, lp).0;
            &&& out.r >= color.r && out.g >= color.g && out.b >= color.b
            &&& prev.r <= color.r ==> out.r >= prev.r
            &&& prev.g <= color.g ==> out.g >= prev.g
            &&& prev.b <= color.b ==> out.b >= prev.b
        }),
{
    let prev = spec_get_pixel(lp, x, y);
    lemma_lowpass_step_range(prev.r, color.r, tau);
    lemma_lowpass_step_range(prev.g, color.g, tau);
    lemma_lowpass_step_range(prev.b, color.b, tau);
}

/// A layer whose effect is a fixed mask and whose shader lists are empty
/// lights exactly the cells whose bits are set, with the base colour, and
/// touches nothing else: cell by cell over the fixed bit table, and the
/// filter memory stays as it was.
pub proof fn lemma_simple_mask_lights_exactly(
    cmd: RenderCommand,
    t: int,
    mask: LedPattern,
    base: LedPixel,
    fb: Seq<LedPixel>,
    lp: Seq<LedPixel>,
)
    requires
        cmd.pattern_shaders@.len() == 0,
        cmd.screen_shaders@.len() == 0,
        fb.len() == 9,
    ensures
        ({
            let out = spec_render_cells(cmd, t, mask, base, fb, lp, 9);
            let lit = LedPixel { r: base.r, g: base.g, b: base.b, w: 0 };
            &&& out.1 == lp
            &&& out.0.len() == 9
            &&& out.0[6] == (if mask & 0x001u16 != 0 { lit } else { fb[6] })
            &&& out.0[3] == (if mask & 0x002u16 != 0 { lit } else { fb[3] })
            &&& out.0[0] == (if mask & 0x004u16 != 0 { lit } else { fb[0] })
            &&& out.0[7] == (if mask & 0x008u16 != 0 { lit } else { fb[7] })
            &&& out.0[4] == (if mask & 0x010u16 != 0 { lit } else { fb[4] })
            &&& out.0[1] == (if mask & 0x020u16 != 0 { lit } else { fb[1] })
            &&& out.0[8] == (if mask & 0x040u16 != 0 { lit } else { fb[8] })
            &&& out.0[5] == (if mask & 0x080u16 != 0 { lit } else { fb[5] })
            &&& out.0[2] == (if mask & 0x100u16 != 0 { lit } else { fb[2] })
        }),
{
    assert(1u16 << 0u16 == 0x001u16) by (bit_vector);
    assert(1u16 << 1u16 == 0x002u16) by (bit_vector);
    assert(1u16 << 2u16 == 0x004u16) by (bit_vector);
    assert(1u16 << 3u16 == 0x008u16) by (bit_vector);
    assert(1u16 << 4u16 == 0x010u16) by (bit_vector);
    assert(1u16 << 5u16 == 0x020u16) by (bit_vector);
    assert(1u16 << 6u16 == 0x040u16) by (bit_vector);
    assert(1u16 << 7u16 == 0x080u16) by (bit_vector);
    assert(1u16 << 8u16 == 0x100u16) by (bit_vector);
    let s0 = (fb, lp);
    let s1 = spec_render_cell(cmd, t, mask, base, s0.0, s0.1, 0);
    let s2 = spec_render_cell(cmd, t, mask, base, s1.0, s1.1, 1);
    let s3 = spec_render_cell(cmd, t, mask, base, s2.0, s2.1, 2);
    let s4 = spec_render_cell(cmd, t, mask, base, s3.0, s3.1, 3);
    let s5 = spec_render_cell(cmd, t, mask, base, s4.0, s4.1, 4);
    let s6 = spec_render_cell(cmd, t, mask, base, s5.0, s5.1, 5);
    let s7 = spec_render_cell(cmd, t, mask, base, s6.0, s6.1, 6);
    let s8 = spec_render_cell(cmd, t, mask, base, s7.0, s7.1, 7);
    let s9 = spec_render_cell(cmd, t, mask, base, s8.0, s8.1, 8);
    assert(spec_render_cells(cmd, t, mask, base, fb, lp, 0) == s0);
    assert(spec_render_cells(cmd, t, mask, base, fb, lp, 1) == s1);
    assert(spec_render_cells(cmd, t, mask, base, fb, lp, 2) == s2);
    assert(spec_render_cells(cmd, t, mask, base, fb, lp, 3) == s3);
    assert(spec_render_cells(cmd, t, mask, base, fb, lp, 4) == s4);
    assert(spec_render_cells(cmd, t, mask, base, fb, lp, 5) == s5);
    assert(spec_render_cells(cmd, t, mask, base, fb, lp, 6) == s6);
    assert(spec_render_cells(cmd, t, mask, base, fb, lp, 7) == s7);
    assert(spec_render_cells(cmd, t, mask, base, fb, lp, 8) == s8);
    assert(spec_render_cells(cmd, t, mask, base, fb, lp, 9) == s9);
}

/// The same fact bound to a whole rendered layer: any render state a
/// fixed-mask, shader-free layer can produce lights exactly the set cells.
pub proof fn lemma_simple_layer_lights_exactly(
    cmd: RenderCommand,
    t: int,
    font: Seq<LedPattern>,
    s0: RenderState,
    s1: RenderState,
    mask: LedPattern,
)
    requires
        cmd.effect == Pattern::Simple(mask),
        cmd.pattern_shaders@.len() == 0,
        cmd.screen_shaders@.len() == 0,
        s0.fb.len() == 9,
        spec_render_single_rel(cmd, t, font, s0, s1),
    ensures
        ({
            let lit = ({
                let base = spec_palette_color(cmd.color, t + cmd.time_offset);
                LedPixel { r: base.r, g: base.g, b: base.b, w: 0 }
            });
            &&& s1.lp == s0.lp
            &&& s1.counter == s0.counter
            &&& s1.fb.len() == 9
            &&& s1.fb[6] == (if mask & 0x001u16 != 0 { lit } else { s0.fb[6] })
            &&& s1.fb[3] == (if mask & 0x002u16 != 0 { lit } else { s0.fb[3] })
            &&& s1.fb[0] == (if mask & 0x004u16 != 0 { lit } else { s0.fb[0] })
            &&& s1.fb[7] == (if mask & 0x008u16 != 0 { lit } else { s0.fb[7] })
            &&& s1.fb[4] == (if mask & 0x010u16 != 0 { lit } else { s0.fb[4] })
            &&& s1.fb[1] == (if mask & 0x020u16 != 0 { lit } else { s0.fb[1] })
            &&& s1.fb[8] == (if mask & 0x040u16 != 0 { lit } else { s0.fb[8] })
            &&& s1.fb[5] == (if mask & 0x080u16 != 0 { lit } else { s0.fb[5] })
            &&& s1.fb[2] == (if mask & 0x100u16 != 0 { lit } else { s0.fb[2] })
        }),
{
    let tp = t + cmd.time_offset;
    let base = spec_palette_color(cmd.color, tp);
    let m = choose|m: LedPattern|
        {
            &&& #[trigger] spec_pattern_step(cmd.effect, tp, font, s0.counter, s1.counter, m)
            &&& (s1.fb, s1.lp) == spec_render_cells(cmd, tp, m, base, s0.fb, s0.lp, 9)
        };
    assert(m == mask);
    lemma_simple_mask_lights_exactly(cmd, tp, mask, base, s0.fb, s0.lp);
}

} // verus!

verus! {

/// Structurally equal colour sources yield the same colour at every time.
pub proof fn lemma_palette_spec_eq_color(a: ColorPalette, b: ColorPalette, t: int)
    requires
        a.spec_eq(b),
    ensures
        spec_palette_color(a, t) == spec_palette_color(b, t),
{
}

/// Structurally equal effects admit exactly the same evaluation steps.
pub proof fn lemma_pattern_spec_eq_step(
    a: Pattern,
    b: Pattern,
    t: int,
    font: Seq<LedPattern>,
    c0: u32,
    c1: u32,
    mask: LedPattern,
)
    requires
        a.spec_eq(b),
    ensures
        spec_pattern_step(a, t, font, c0, c1, mask) == spec_pattern_step(b, t, font, c0, c1, mask),
{
}

proof fn lemma_cells_spec_eq(
    a: RenderCommand,
    b: RenderCommand,
    t: int,
    mask: LedPattern,
    base: LedPixel,
    fb: Seq<LedPixel>,
    lp: Seq<LedPixel>,
    n: int,
)
    requires
        a.pattern_shaders@ == b.pattern_shaders@,
        a.screen_shaders@ == b.screen_shaders@,
    ensures
        spec_render_cells(a, t, mask, base, fb, lp, n) == spec_render_cells(b, t, mask, base, fb, lp, n),
    decreases n,
{
    if n > 0 {
        lemma_cells_spec_eq(a, b, t, mask, base, fb, lp, n - 1);
    }
}

/// Rendering a structurally equal copy of a layer relates the very same
/// states: what a duplicated override layer draws is what the original
/// would have drawn.
pub proof fn lemma_render_single_spec_eq(
    a: RenderCommand,
    b: RenderCommand,
    t: int,
    font: Seq<LedPattern>,
    s0: RenderState,
    s1: RenderState,
)
    requires
        a.spec_eq(b),
        spec_render_single_rel(a, t, font, s0, s1),
    ensures
        spec_render_single_rel(b, t, font, s0, s1),
{
    let tp = t + a.time_offset;
    let base = spec_palette_color(a.color, tp);
    let mask = choose|mask: LedPattern|
        {
            &&& #[trigger] spec_pattern_step(a.effect, tp, font, s0.counter, s1.counter, mask)
            &&& (s1.fb, s1.lp) == spec_render_cells(a, tp, mask, base, s0.fb, s0.lp, 9)
        };
    lemma_pattern_spec_eq_step(a.effect, b.effect, tp, font, s0.counter, s1.counter, mask);
    lemma_palette_spec_eq_color(a.color, b.color, tp);
    lemma_cells_spec_eq(a, b, tp, mask, base, s0.fb, s0.lp, 9);
    assert(spec_pattern_step(b.effect, tp, font, s0.counter, s1.counter, mask));
}

} // verus!

verus! {

/// A one-layer scene relates states exactly as its single layer does.
pub proof fn lemma_single_layer_scene(
    scene: Seq<RenderCommand>,
    t: int,
    font: Seq<LedPattern>,
    s0: RenderState,
    s1: RenderState,
)
    requires
        scene.len() == 1,
        spec_render_rel(scene, 0, 1, t, font, s0, s1),
    ensures
        spec_render_single_rel(scene[0], t, font, s0, s1),
{
    let mid = choose|mid: RenderState|
        {
            &&& #[trigger] spec_render_single_rel(scene[0], t, font, s0, mid)
            &&& spec_render_rel(scene, 1, 1, t, font, mid, s1)
        };
    let tp = t + scene[0].time_offset;
    let base = spec_palette_color(scene[0].color, tp);
    let mask = choose|mask: LedPattern|
        {
            &&& #[trigger] spec_pattern_step(scene[0].effect, tp, font, s0.counter, mid.counter, mask)
            &&& (mid.fb, mid.lp) == spec_render_cells(scene[0], tp, mask, base, s0.fb, s0.lp, 9)
        };
    assert(spec_pattern_step(scene[0].effect, tp, font, s0.counter, s1.counter, mask));
    assert((s1.fb, s1.lp) == spec_render_cells(scene[0], tp, mask, base, s0.fb, s0.lp, 9));
}

} // verus!

verus! {

/// The fixed points of the fixed-point sine: zero at the start and the
/// half turn, full scale at the quarter turns.
pub proof fn lemma_sin_fixed_points()
    ensures
        spec_sin_milli(0) == 0,
        spec_sin_milli(250) == 1000,
        spec_sin_milli(500) == 0,
        spec_sin_milli(750) == -1000,
{
    assert(0 * (500 - 0) == 0) by (nonlinear_arith);
    assert(250 * (500 - 250) == 62500) by (nonlinear_arith);
    assert(4000 * 62500 == 250000000) by (nonlinear_arith);
    assert(spec_sin_half_milli(0) == 0);
    assert(spec_sin_half_milli(250) == 250000000int / 250000);
}

} // verus!
