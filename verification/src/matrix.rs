//! The 3x3 LED matrix: a raw framebuffer written by the render pipeline and
//! a gamma/gain-corrected framebuffer derived from it on demand.
//!
//! Both gains are fixed-point thousandths: `corrected_gain` is the
//! brightness-tier multiplier applied before the gamma lookup,
//! `raw_gain` is the thermal-throttle multiplier applied strictly after it.

use vstd::prelude::*;

use crate::pixel::LedPixel;

verus! {

pub const LED_MATRIX_WIDTH: usize = 3;
pub const LED_MATRIX_HEIGHT: usize = 3;
pub const LED_MATRIX_SIZE: usize = 9;

/// Set to true if the fitted LEDs are RGBW, false if plain RGB.
pub const HAS_WHITE_LED: bool = false;

/// A plain 9-pixel framebuffer addressed by (x, y) with (0, 0) top-left.
/// Out-of-range writes are silently dropped, out-of-range reads return the
/// all-off pixel.
#[derive(Debug)]
pub struct RawFramebuffer {
    pub framebuffer: Vec<LedPixel>,
}

/// Cell (x, y) lives at index `y * 3 + x` of the flat buffer.
pub open spec fn cell_index(x: int, y: int) -> int {
    y * 3 + x
}

/// What a bounds-checked write leaves in the buffer.
pub open spec fn spec_set_pixel(fb: Seq<LedPixel>, x: int, y: int, c: LedPixel) -> Seq<LedPixel> {
    if 0 <= x < 3 && 0 <= y < 3 {
        fb.update(cell_index(x, y), LedPixel { r: c.r, g: c.g, b: c.b, w: 0 })
    } else {
        fb
    }
}

/// What a bounds-checked read returns.
pub open spec fn spec_get_pixel(fb: Seq<LedPixel>, x: int, y: int) -> LedPixel {
    if 0 <= x < 3 && 0 <= y < 3 {
        fb[cell_index(x, y)]
    } else {
        LedPixel::spec_black()
    }
}

impl RawFramebuffer {
    /// A framebuffer always holds exactly the 9 pixels of the matrix.
    pub open spec fn wf(self) -> bool {
        self.framebuffer@.len() == 9
    }

    pub open spec fn view(self) -> Seq<LedPixel> {
        self.framebuffer@
    }

    pub fn new() -> (fb: Self)
        ensures
            fb.wf(),
            fb@ == Seq::new(9, |i: int| LedPixel::spec_black()),
    {
        let fb = RawFramebuffer { framebuffer: vec![LedPixel::black(); 9] };
        proof {
            assert(fb@ =~= Seq::new(9, |i: int| LedPixel::spec_black()));
        }
        fb
    }

    pub fn set_pixel(&mut self, x: usize, y: usize, colour: LedPixel)
        requires
            old(self).wf(),
        ensures
            final(self).wf(),
            final(self)@ == spec_set_pixel(old(self)@, x as int, y as int, colour),
    {
        if x < LED_MATRIX_WIDTH && y < LED_MATRIX_HEIGHT {
            let color = LedPixel { r: colour.r, g: colour.g, b: colour.b, w: 0 };
            self.framebuffer[y * LED_MATRIX_WIDTH + x] = color;
        }
    }

    pub fn get_pixel(&self, x: usize, y: usize) -> (p: LedPixel)
        requires
            self.wf(),
        ensures
            p == spec_get_pixel(self@, x as int, y as int),
    {
        if x < LED_MATRIX_WIDTH && y < LED_MATRIX_HEIGHT {
            self.framebuffer[y * LED_MATRIX_WIDTH + x]
        } else {
            LedPixel::black()
        }
    }

    pub fn set_all(&mut self, rgb: LedPixel)
        requires
            old(self).wf(),
        ensures
            final(self).wf(),
            final(self)@ == Seq::new(9, |i: int| rgb),
    {
        let mut i: usize = 0;
        while i < LED_MATRIX_SIZE
            invariant
                self.wf(),
                i <= 9,
                forall|j: int| 0 <= j < i ==> self.framebuffer@[j] == rgb,
            decreases 9 - i,
        {
            self.framebuffer[i] = rgb;
            i = i + 1;
        }
        proof {
            assert(self@ =~= Seq::new(9, |i: int| rgb));
        }
    }

    /// Fold uniform greys onto the white channel of every pixel.
    pub fn update_rgbw(&mut self)
        requires
            old(self).wf(),
        ensures
            final(self).wf(),
            final(self)@ == Seq::new(9, |i: int| old(self)@[i].spec_with_white()),
    {
        let mut i: usize = 0;
        while i < LED_MATRIX_SIZE
            invariant
                self.wf(),
                i <= 9,
                forall|j: int| i <= j < 9 ==> self.framebuffer@[j] == old(self).framebuffer@[j],
                forall|j: int| 0 <= j < i ==> self.framebuffer@[j] == old(self).framebuffer@[j].spec_with_white(),
            decreases 9 - i,
        {
            let mut p = self.framebuffer[i];
            p.set_white();
            self.framebuffer[i] = p;
            i = i + 1;
        }
        proof {
            assert(self@ =~= Seq::new(9, |i: int| old(self)@[i].spec_with_white()));
        }
    }

    pub fn get_raw(&self) -> (r: &Vec<LedPixel>)
        ensures
            r@ == self@,
    {
        &self.framebuffer
    }

    pub fn duplicate(&self) -> (r: Self)
        ensures
            r@ == self@,
            r.wf() <==> self.wf(),
    {
        let mut copy: Vec<LedPixel> = Vec::new();
        let mut i: usize = 0;
        let n = self.framebuffer.len();
        while i < n
            invariant
                i <= n,
                n == self.framebuffer@.len(),
                copy@ == self.framebuffer@.take(i as int),
            decreases n - i,
        {
            copy.push(self.framebuffer[i]);
            proof {
                assert(copy@ =~= self.framebuffer@.take(i + 1));
            }
            i = i + 1;
        }
        proof {
            assert(copy@ =~= self.framebuffer@);
        }
        RawFramebuffer { framebuffer: copy }
    }
}

/// The fixed perceptual gamma lookup table (roughly a 2.2 exponent curve).
pub open spec fn spec_gamma_table() -> Seq<u8> {
    seq![
        0u8, 0, 0, 0, 0, 0, 0, 0, 0, 0, 0, 0, 0, 0, 0, 0, 0, 0, 0, 0, 0, 0, 0, 0, 0, 0, 0, 0, 1,
        1, 1, 1, 1, 1, 1, 1, 1, 1, 1, 1, 1, 2, 2, 2, 2, 2, 2, 2, 2, 3, 3, 3, 3, 3, 3, 3, 4, 4,
        4, 4, 4, 5, 5, 5, 5, 6, 6, 6, 6, 7, 7, 7, 7, 8, 8, 8, 9, 9, 9, 10, 10, 10, 11, 11, 11,
        12, 12, 13, 13, 13, 14, 14, 15, 15, 16, 16, 17, 17, 18, 18, 19, 19, 20, 20, 21, 21, 22,
        22, 23, 24, 24, 25, 25, 26, 27, 27, 28, 29, 29, 30, 31, 32, 32, 33, 34, 35, 35, 36, 37,
        38, 39, 39, 40, 41, 42, 43, 44, 45, 46, 47, 48, 49, 50, 50, 51, 52, 54, 55, 56, 57, 58,
        59, 60, 61, 62, 63, 64, 66, 67, 68, 69, 70, 72, 73, 74, 75, 77, 78, 79, 81, 82, 83, 85,
        86, 87, 89, 90, 92, 93, 95, 96, 98, 99, 101, 102, 104, 105, 107, 109, 110, 112, 114,
        115, 117, 119, 120, 122, 124, 126, 127, 129, 131, 133, 135, 137, 138, 140, 142, 144,
        146, 148, 150, 152, 154, 156, 158, 160, 162, 164, 167, 169, 171, 173, 175, 177, 180,
        182, 184, 186, 189, 191, 193, 196, 198, 200, 203, 205, 208, 210, 213, 215, 218, 220,
        223, 225, 228, 231, 233, 236, 239, 241, 244, 247, 249, 252, 255,
    ]
}

/// Look one channel value up in the gamma table.
pub fn gamma_correction(v: u8) -> (r: u8)
    ensures
        r == spec_gamma_table()[v as int],
{
    let table: [u8; 256] = [
        0u8, 0, 0, 0, 0, 0, 0, 0, 0, 0, 0, 0, 0, 0, 0, 0, 0, 0, 0, 0, 0, 0, 0, 0, 0, 0, 0, 0, 1,
        1, 1, 1, 1, 1, 1, 1, 1, 1, 1, 1, 1, 2, 2, 2, 2, 2, 2, 2, 2, 3, 3, 3, 3, 3, 3, 3, 4, 4,
        4, 4, 4, 5, 5, 5, 5, 6, 6, 6, 6, 7, 7, 7, 7, 8, 8, 8, 9, 9, 9, 10, 10, 10, 11, 11, 11,
        12, 12, 13, 13, 13, 14, 14, 15, 15, 16, 16, 17, 17, 18, 18, 19, 19, 20, 20, 21, 21, 22,
        22, 23, 24, 24, 25, 25, 26, 27, 27, 28, 29, 29, 30, 31, 32, 32, 33, 34, 35, 35, 36, 37,
        38, 39, 39, 40, 41, 42, 43, 44, 45, 46, 47, 48, 49, 50, 50, 51, 52, 54, 55, 56, 57, 58,
        59, 60, 61, 62, 63, 64, 66, 67, 68, 69, 70, 72, 73, 74, 75, 77, 78, 79, 81, 82, 83, 85,
        86, 87, 89, 90, 92, 93, 95, 96, 98, 99, 101, 102, 104, 105, 107, 109, 110, 112, 114,
        115, 117, 119, 120, 122, 124, 126, 127, 129, 131, 133, 135, 137, 138, 140, 142, 144,
        146, 148, 150, 152, 154, 156, 158, 160, 162, 164, 167, 169, 171, 173, 175, 177, 180,
        182, 184, 186, 189, 191, 193, 196, 198, 200, 203, 205, 208, 210, 213, 215, 218, 220,
        223, 225, 228, 231, 233, 236, 239, 241, 244, 247, 249, 252, 255,
    ];
    proof {
        assert(table@ =~= spec_gamma_table());
    }
    table[v as usize]
}

/// One channel through the full output correction: scale by the brightness
/// tier, clamp into the table, look the gamma value up, then scale by the
/// thermal multiplier, saturating at full drive.
pub open spec fn spec_gamma_channel(ch: u8, corrected_gain: u32, raw_gain: u32) -> u8 {
    let idx = if ch * corrected_gain / 1000 > 255 { 255int } else { ch * corrected_gain / 1000 };
    let g = spec_gamma_table()[idx];
    if g * raw_gain / 1000 > 255 { 255u8 } else { (g * raw_gain / 1000) as u8 }
}

/// A whole pixel through the output correction.
pub open spec fn spec_gamma_pixel(p: LedPixel, corrected_gain: u32, raw_gain: u32) -> LedPixel {
    LedPixel {
        r: spec_gamma_channel(p.r, corrected_gain, raw_gain),
        g: spec_gamma_channel(p.g, corrected_gain, raw_gain),
        b: spec_gamma_channel(p.b, corrected_gain, raw_gain),
        w: spec_gamma_channel(p.w, corrected_gain, raw_gain),
    }
}

fn gamma_channel(ch: u8, corrected_gain: u32, raw_gain: u32) -> (r: u8)
    ensures
        r == spec_gamma_channel(ch, corrected_gain, raw_gain),
{
    proof {
        assert((ch as u64) * (corrected_gain as u64) <= 255u64 * 4294967295u64) by (nonlinear_arith)
            requires
                ch as u64 <= 255,
                corrected_gain as u64 <= 4294967295,
        ;
    }
    let scaled: u64 = ch as u64 * corrected_gain as u64 / 1000;
    let idx: u8 = if scaled > 255 { 255 } else { scaled as u8 };
    let g = gamma_correction(idx);
    proof {
        assert((g as u64) * (raw_gain as u64) <= 255u64 * 4294967295u64) by (nonlinear_arith)
            requires
                g as u64 <= 255,
                raw_gain as u64 <= 4294967295,
        ;
    }
    let out: u64 = g as u64 * raw_gain as u64 / 1000;
    if out > 255 { 255 } else { out as u8 }
}

/// The raw and the derived gamma-corrected framebuffer, with the two gain
/// stages applied in a fixed order: brightness tier before the table,
/// thermal throttle after it.
#[derive(Debug)]
pub struct LedMatrix {
    pub raw_framebuffer: RawFramebuffer,
    pub gamma_corrected_framebuffer: RawFramebuffer,
    pub corrected_gain: u32,
    pub raw_gain: u32,
}

impl LedMatrix {
    pub open spec fn wf(self) -> bool {
        self.raw_framebuffer.wf() && self.gamma_corrected_framebuffer.wf()
    }

    /// What the corrected output frame is for a raw frame and the two gains,
    /// including the white-channel fold on RGBW hardware.
    pub open spec fn spec_output_frame(raw: Seq<LedPixel>, corrected_gain: u32, raw_gain: u32) -> Seq<LedPixel> {
        let corrected = Seq::new(raw.len(), |i: int| spec_gamma_pixel(raw[i], corrected_gain, raw_gain));
        if HAS_WHITE_LED {
            Seq::new(corrected.len(), |i: int| corrected[i].spec_with_white())
        } else {
            corrected
        }
    }

    pub fn new() -> (m: Self)
        ensures
            m.wf(),
            m.raw_framebuffer@ == Seq::new(9, |i: int| LedPixel::spec_black()),
            m.corrected_gain == 1000,
            m.raw_gain == 1000,
    {
        LedMatrix {
            raw_framebuffer: RawFramebuffer::new(),
            gamma_corrected_framebuffer: RawFramebuffer::new(),
            corrected_gain: 1000,
            raw_gain: 1000,
        }
    }

    /// Set the brightness-tier multiplier (thousandths, applied pre-gamma).
    pub fn set_gain(&mut self, gain: u32)
        ensures
            final(self).corrected_gain == gain,
            final(self).raw_gain == old(self).raw_gain,
            final(self).raw_framebuffer@ == old(self).raw_framebuffer@,
            final(self).gamma_corrected_framebuffer@ == old(self).gamma_corrected_framebuffer@,
            final(self).wf() <==> old(self).wf(),
    {
        self.corrected_gain = gain;
    }

    /// Set the thermal-throttle multiplier (thousandths, applied post-gamma,
    /// so the brightness tier cannot bypass it).
    pub fn set_raw_gain(&mut self, gain: u32)
        ensures
            final(self).raw_gain == gain,
            final(self).corrected_gain == old(self).corrected_gain,
            final(self).raw_framebuffer@ == old(self).raw_framebuffer@,
            final(self).gamma_corrected_framebuffer@ == old(self).gamma_corrected_framebuffer@,
            final(self).wf() <==> old(self).wf(),
    {
        self.raw_gain = gain;
    }

    pub fn get_pixel(&self, x: usize, y: usize) -> (p: LedPixel)
        requires
            self.wf(),
        ensures
            p == spec_get_pixel(self.raw_framebuffer@, x as int, y as int),
    {
        self.raw_framebuffer.get_pixel(x, y)
    }

    pub fn set_pixel(&mut self, x: usize, y: usize, colour: LedPixel)
        requires
            old(self).wf(),
        ensures
            final(self).wf(),
            final(self).corrected_gain == old(self).corrected_gain,
            final(self).raw_gain == old(self).raw_gain,
            final(self).gamma_corrected_framebuffer@ == old(self).gamma_corrected_framebuffer@,
            final(self).raw_framebuffer@ == spec_set_pixel(
                old(self).raw_framebuffer@, x as int, y as int, colour),
    {
        self.raw_framebuffer.set_pixel(x, y, colour);
    }

    pub fn set_all(&mut self, rgb: LedPixel)
        requires
            old(self).wf(),
        ensures
            final(self).wf(),
            final(self).corrected_gain == old(self).corrected_gain,
            final(self).raw_gain == old(self).raw_gain,
            final(self).gamma_corrected_framebuffer@ == old(self).gamma_corrected_framebuffer@,
            final(self).raw_framebuffer@ == Seq::new(9, |i: int| rgb),
    {
        self.raw_framebuffer.set_all(rgb);
    }

    /// Recompute the gamma-corrected framebuffer from the raw one.
    pub fn update_gamma_correction_and_gain(&mut self)
        requires
            old(self).wf(),
        ensures
            final(self).wf(),
            final(self).corrected_gain == old(self).corrected_gain,
            final(self).raw_gain == old(self).raw_gain,
            final(self).raw_framebuffer@ == old(self).raw_framebuffer@,
            final(self).gamma_corrected_framebuffer@ == Seq::new(9, |i: int|
                spec_gamma_pixel(old(self).raw_framebuffer@[i], old(self).corrected_gain, old(self).raw_gain)),
    {
        let mut i: usize = 0;
        while i < LED_MATRIX_SIZE
            invariant
                self.wf(),
                i <= 9,
                self.raw_framebuffer.framebuffer@ == old(self).raw_framebuffer.framebuffer@,
                self.corrected_gain == old(self).corrected_gain,
                self.raw_gain == old(self).raw_gain,
                forall|j: int| 0 <= j < i ==> self.gamma_corrected_framebuffer.framebuffer@[j]
                    == spec_gamma_pixel(old(self).raw_framebuffer.framebuffer@[j], old(self).corrected_gain, old(self).raw_gain),
            decreases 9 - i,
        {
            let colour = self.raw_framebuffer.framebuffer[i];
            let corrected = LedPixel {
                r: gamma_channel(colour.r, self.corrected_gain, self.raw_gain),
                g: gamma_channel(colour.g, self.corrected_gain, self.raw_gain),
                b: gamma_channel(colour.b, self.corrected_gain, self.raw_gain),
                w: gamma_channel(colour.w, self.corrected_gain, self.raw_gain),
            };
            self.gamma_corrected_framebuffer.framebuffer[i] = corrected;
            i = i + 1;
        }
        proof {
            assert(self.gamma_corrected_framebuffer@ =~= Seq::new(9, |i: int|
                spec_gamma_pixel(old(self).raw_framebuffer@[i], old(self).corrected_gain, old(self).raw_gain)));
        }
    }

    /// Recompute and hand out the frame to drive the LEDs with.
    pub fn get_gamma_corrected(&mut self) -> (frame: &Vec<LedPixel>)
        requires
            old(self).wf(),
        ensures
            final(self).wf(),
            final(self).corrected_gain == old(self).corrected_gain,
            final(self).raw_gain == old(self).raw_gain,
            final(self).raw_framebuffer@ == old(self).raw_framebuffer@,
            frame@ == LedMatrix::spec_output_frame(
                old(self).raw_framebuffer@, old(self).corrected_gain, old(self).raw_gain),
            final(self).gamma_corrected_framebuffer@ == frame@,
    {
        self.update_gamma_correction_and_gain();
        if HAS_WHITE_LED {
            self.gamma_corrected_framebuffer.update_rgbw();
        }
        proof {
            assert(self.gamma_corrected_framebuffer@ =~= LedMatrix::spec_output_frame(
                old(self).raw_framebuffer@, old(self).corrected_gain, old(self).raw_gain));
        }
        self.gamma_corrected_framebuffer.get_raw()
    }

    pub fn clear(&mut self)
        requires
            old(self).wf(),
        ensures
            final(self).wf(),
            final(self).corrected_gain == old(self).corrected_gain,
            final(self).raw_gain == old(self).raw_gain,
            final(self).gamma_corrected_framebuffer@ == old(self).gamma_corrected_framebuffer@,
            final(self).raw_framebuffer@ == Seq::new(9, |i: int| LedPixel::spec_black()),
    {
        self.set_all(LedPixel::black());
    }
}

} // verus!

verus! {

/// The output path's zero fixpoints: an all-off framebuffer comes out all
/// off at the full brightness tier whatever the thermal multiplier; and a
/// zero brightness tier blanks every frame whatever the thermal
/// multiplier, because it can only reach the zero entry of the gamma
/// table.
pub proof fn lemma_gamma_zero(fb: Seq<LedPixel>, raw_gain: u32)
    requires
        fb.len() == 9,
    ensures
        (forall|i: int| 0 <= i < 9 ==> fb[i] == LedPixel::spec_black())
            ==> LedMatrix::spec_output_frame(fb, 1000, raw_gain)
                =~= Seq::new(9, |i: int| LedPixel::spec_black()),
        LedMatrix::spec_output_frame(fb, 0, raw_gain)
            =~= Seq::new(9, |i: int| LedPixel::spec_black()),
{
    assert(spec_gamma_table()[0] == 0);
    assert(0 * raw_gain == 0) by (nonlinear_arith);
    assert forall|ch: u8| spec_gamma_channel(ch, 0, raw_gain) == 0 by {
        assert(ch * 0 == 0) by (nonlinear_arith);
        assert(ch * 0 / 1000 == 0);
        assert(spec_gamma_table()[ch * 0 / 1000] == 0);
        assert(0 * raw_gain / 1000 == 0);
    }
    assert(0 * 1000 == 0) by (nonlinear_arith);
    assert(0 * 1000 / 1000 == 0);
    assert(spec_gamma_channel(0, 1000, raw_gain) == 0);
}

} // verus!

verus! {

/// The gamma curve never dims a brighter input below a darker one: the
/// table is monotone from end to end.
#[verifier::rlimit(100)]
pub proof fn lemma_gamma_table_monotone()
    ensures
        forall|i: int, j: int| 0 <= i <= j < 256
            ==> spec_gamma_table()[i] <= spec_gamma_table()[j],
{
    assert forall|i: int, j: int| 0 <= i <= j < 256
        implies spec_gamma_table()[i] <= spec_gamma_table()[j] by {
        let s = spec_gamma_table();
        lemma_gamma_monotone_step(s, i, j);
    }
}

proof fn lemma_gamma_monotone_step(s: Seq<u8>, i: int, j: int)
    requires
        s == spec_gamma_table(),
        0 <= i <= j < 256,
    ensures
        s[i] <= s[j],
    decreases j - i,
{
    if i < j {
        lemma_gamma_monotone_step(s, i + 1, j);
        assert(s[i] <= s[i + 1]);
    }
}

} // verus!
