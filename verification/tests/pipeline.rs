use minibadge::effects::{ColorPalette, FragmentShader, Pattern, RenderCommand, RenderManager};
use minibadge::matrix::{gamma_correction, LedMatrix, RawFramebuffer};
use minibadge::pixel::LedPixel;
use minibadge::rng::rng_from_seed;
use minibadge::scenes::patterns;

fn white() -> LedPixel {
    LedPixel::rgb(255, 255, 255)
}

fn manager() -> RenderManager {
    let p = patterns();
    RenderManager::new(p.font, 69420)
}

fn simple_layer(mask: u16, color: LedPixel) -> RenderCommand {
    RenderCommand {
        effect: Pattern::Simple(mask),
        color: ColorPalette::Solid(color),
        pattern_shaders: Vec::new(),
        screen_shaders: Vec::new(),
        time_offset: 0,
    }
}

#[test]
fn solid_palette_is_time_invariant() {
    let c = LedPixel::rgb(10, 20, 30);
    for t in [0u64, 1, 999, 123456, 1_000_000_000] {
        let p = ColorPalette::Solid(c);
        assert_eq!(p.render(t), c);
    }
}

#[test]
fn rainbow_palette_starts_red() {
    let p = ColorPalette::Rainbow(1000);
    assert_eq!(p.render(0), LedPixel::rgb(255, 0, 0));
}

#[test]
fn custom_palette_steps_through_entries() {
    let colors = vec![LedPixel::rgb(1, 0, 0), LedPixel::rgb(0, 2, 0), LedPixel::rgb(0, 0, 3)];
    let p = ColorPalette::Custom(colors, 1000);
    assert_eq!(p.render(0), LedPixel::rgb(1, 0, 0));
    assert_eq!(p.render(1000), LedPixel::rgb(0, 2, 0));
    assert_eq!(p.render(2000), LedPixel::rgb(0, 0, 3));
    assert_eq!(p.render(3000), LedPixel::rgb(1, 0, 0));
}

#[test]
fn simple_all_on_lights_all_nine_cells() {
    let mut rm = manager();
    let scene = vec![simple_layer(0b111111111, white())];
    rm.render(scene.as_slice(), 0);
    for x in 0..3 {
        for y in 0..3 {
            assert_eq!(rm.mtrx.get_pixel(x, y), white());
        }
    }
}

#[test]
fn simple_zero_lights_no_cell() {
    let mut rm = manager();
    let scene = vec![simple_layer(0, white())];
    rm.render(scene.as_slice(), 0);
    for x in 0..3 {
        for y in 0..3 {
            assert_eq!(rm.mtrx.get_pixel(x, y), LedPixel::black());
        }
    }
}

#[test]
fn simple_mask_follows_the_bit_table() {
    // bit i drives cell (i / 3, 2 - i % 3)
    let table = [
        (0, 2), (0, 1), (0, 0), (1, 2), (1, 1), (1, 0), (2, 2), (2, 1), (2, 0),
    ];
    for (i, (x, y)) in table.iter().enumerate() {
        let mut rm = manager();
        let scene = vec![simple_layer(1u16 << i, white())];
        rm.render(scene.as_slice(), 0);
        for cx in 0..3 {
            for cy in 0..3 {
                let expected = if cx == *x && cy == *y { white() } else { LedPixel::black() };
                assert_eq!(rm.mtrx.get_pixel(cx, cy), expected, "bit {} cell {},{}", i, cx, cy);
            }
        }
    }
}

#[test]
fn animation_reverse_mirrors_animation() {
    let p = patterns();
    let mut persistent: minibadge::effects::ShaderPersistentData = Default::default();
    let mut rng = rng_from_seed(1);
    let frames = vec![1u16, 2, 3, 4, 5];
    // one step per second; at t = 3 s the forward index is 3
    let fwd = Pattern::Animation(frames.clone(), 1000);
    let rev = Pattern::AnimationReverse(frames.clone(), 1000);
    for (t, i) in [(0u64, 0usize), (1000, 1), (3000, 3), (4000, 4), (5000, 0)] {
        let m_fwd = fwd.render(t, &mut persistent, &mut rng, &p.font);
        let m_rev = rev.render(t, &mut persistent, &mut rng, &p.font);
        assert_eq!(m_fwd, frames[i]);
        assert_eq!(m_rev, frames[frames.len() - 1 - i]);
    }
}

#[test]
fn text_effect_reads_glyphs_and_drops_non_letters() {
    let p = patterns();
    let mut persistent: minibadge::effects::ShaderPersistentData = Default::default();
    let mut rng = rng_from_seed(1);
    let text = Pattern::Text(b"Az ".to_vec(), 1000);
    assert_eq!(text.render(0, &mut persistent, &mut rng, &p.font), p.font[0]);
    assert_eq!(text.render(1000, &mut persistent, &mut rng, &p.font), p.font[25]);
    // a space maps to no glyph: the zero mask
    assert_eq!(text.render(2000, &mut persistent, &mut rng, &p.font), 0);
}

#[test]
fn animation_random_draws_from_the_sequence() {
    let p = patterns();
    let mut persistent: minibadge::effects::ShaderPersistentData = Default::default();
    let mut rng = rng_from_seed(7);
    // with a single frame and no decimation every call must yield it
    let eff = Pattern::AnimationRandom(vec![0b101u16], 1);
    for _ in 0..10 {
        assert_eq!(eff.render(0, &mut persistent, &mut rng, &p.font), 0b101);
    }
    // decimation 2: every other call yields the zero mask
    let eff2 = Pattern::AnimationRandom(vec![0b111u16], 2);
    let a = eff2.render(0, &mut persistent, &mut rng, &p.font);
    let b = eff2.render(0, &mut persistent, &mut rng, &p.font);
    assert!(a == 0 && b == 0b111 || a == 0b111 && b == 0);
}

#[test]
fn blinking_shader_gates_on_the_half_cycle() {
    let mut lp = RawFramebuffer::new();
    let sh = FragmentShader::Blinking(1000);
    assert_eq!(sh.render(0, white(), 0, 0, &mut lp), white());
    assert_eq!(sh.render(600, white(), 0, 0, &mut lp), LedPixel::black());
    assert_eq!(sh.render(1100, white(), 0, 0, &mut lp), white());
}

#[test]
fn breathing_shader_peaks_a_quarter_in_and_dies_at_three_quarters() {
    let mut lp = RawFramebuffer::new();
    let sh = FragmentShader::Breathing(1000);
    // phase 250/1000: the sine peak, full luminance
    assert_eq!(sh.render(250, white(), 0, 0, &mut lp), LedPixel::rgb(255, 255, 255));
    // phase 750/1000: the trough, black
    assert_eq!(sh.render(750, white(), 0, 0, &mut lp), LedPixel::rgb(0, 0, 0));
}

#[test]
fn low_pass_moves_towards_the_input() {
    let mut lp = RawFramebuffer::new();
    let sh = FragmentShader::LowPass(2);
    // from 0 towards 100 with tau 2: 50
    let out = sh.render(0, LedPixel::rgb(100, 100, 100), 1, 1, &mut lp);
    assert_eq!(out, LedPixel::rgb(50, 50, 50));
    // the filter memory holds the new value
    assert_eq!(lp.get_pixel(1, 1), LedPixel::rgb(50, 50, 50));
    // again: 50 + (100 - 50) / 2 = 75
    let out2 = sh.render(0, LedPixel::rgb(100, 100, 100), 1, 1, &mut lp);
    assert_eq!(out2, LedPixel::rgb(75, 75, 75));
}

#[test]
fn low_pass_with_peak_never_drops_below_the_input() {
    let mut lp = RawFramebuffer::new();
    let sh = FragmentShader::LowPassWithPeak(2);
    // rising: output snaps straight to the input
    let out = sh.render(0, LedPixel::rgb(100, 100, 100), 0, 1, &mut lp);
    assert_eq!(out, LedPixel::rgb(100, 100, 100));
    // falling: the filter decays, and the output follows the filter,
    // never below the (lower) raw input
    let out2 = sh.render(0, LedPixel::black(), 0, 1, &mut lp);
    assert_eq!(out2, LedPixel::rgb(50, 50, 50));
}

#[test]
fn screen_shaders_observe_earlier_layers() {
    // a second layer's screen shader reads what the first layer wrote
    let mut rm = manager();
    let mut second = RenderCommand {
        effect: Pattern::Simple(0),
        color: ColorPalette::Solid(white()),
        pattern_shaders: Vec::new(),
        screen_shaders: Vec::new(),
        time_offset: 0,
    };
    second.screen_shaders.push(FragmentShader::Blinking(1000));
    let scene = vec![simple_layer(0b111111111, LedPixel::rgb(40, 50, 60)), second];
    // second half of the blink cycle: the screen shader blanks the layer
    // the first command just drew
    rm.render(scene.as_slice(), 600);
    assert_eq!(rm.mtrx.get_pixel(0, 0), LedPixel::black());
    let mut rm2 = manager();
    let scene2 = vec![simple_layer(0b111111111, LedPixel::rgb(40, 50, 60))];
    rm2.render(scene2.as_slice(), 600);
    assert_eq!(rm2.mtrx.get_pixel(0, 0), LedPixel::rgb(40, 50, 60));
}

#[test]
fn gamma_table_spot_values() {
    assert_eq!(gamma_correction(0), 0);
    assert_eq!(gamma_correction(27), 0);
    assert_eq!(gamma_correction(28), 1);
    assert_eq!(gamma_correction(255), 255);
    // monotone over the whole range
    for v in 1..=255u16 {
        assert!(gamma_correction(v as u8) >= gamma_correction((v - 1) as u8));
    }
}

#[test]
fn gamma_of_zero_frame_is_zero() {
    let mut m = LedMatrix::new();
    let frame = m.get_gamma_corrected().clone();
    for p in frame.iter() {
        assert_eq!(*p, LedPixel::black());
    }
}

#[test]
fn zero_gain_blanks_any_frame_regardless_of_raw_gain() {
    let mut m = LedMatrix::new();
    m.set_all(white());
    m.set_gain(0);
    m.set_raw_gain(1000);
    let frame = m.get_gamma_corrected().clone();
    for p in frame.iter() {
        assert_eq!(*p, LedPixel::black());
    }
}

#[test]
fn raw_gain_scales_after_the_table() {
    let mut m = LedMatrix::new();
    m.set_all(white());
    m.set_gain(1000);
    m.set_raw_gain(500);
    let frame = m.get_gamma_corrected().clone();
    // gamma of 255 is 255; half the thermal multiplier gives 127
    assert_eq!(frame[0], LedPixel { r: 127, g: 127, b: 127, w: 0 });
}

#[test]
fn out_of_range_pixel_access_is_harmless() {
    let mut fb = RawFramebuffer::new();
    fb.set_pixel(5, 7, white());
    assert_eq!(fb.get_pixel(5, 7), LedPixel::black());
    for x in 0..3 {
        for y in 0..3 {
            assert_eq!(fb.get_pixel(x, y), LedPixel::black());
        }
    }
}

#[test]
fn set_white_folds_uniform_grey() {
    let mut p = LedPixel::rgb(9, 9, 9);
    p.set_white();
    assert_eq!(p, LedPixel { r: 0, g: 0, b: 0, w: 9 });
    let mut q = LedPixel::rgb(9, 9, 8);
    q.set_white();
    assert_eq!(q, LedPixel { r: 9, g: 9, b: 8, w: 0 });
}

#[test]
fn scene_catalog_has_sixteen_scenes() {
    let p = patterns();
    let scenes = minibadge::scenes::scenes(&p);
    assert_eq!(scenes.len(), 16);
    for s in scenes.iter() {
        assert!(!s.is_empty() && s.len() <= 8);
    }
}

#[test]
fn rainbow2d_shader_is_red_at_the_origin() {
    let mut lp = RawFramebuffer::new();
    let sh = FragmentShader::Rainbow2D(1000);
    // at t = 0 and cell (0, 0) the hue is zero: pure red, whatever the
    // base colour was
    assert_eq!(sh.render(0, LedPixel::rgb(1, 2, 3), 0, 0, &mut lp), LedPixel::rgb(255, 0, 0));
}

#[test]
fn empty_scene_renders_nothing() {
    let mut rm = manager();
    let scene: Vec<RenderCommand> = Vec::new();
    rm.render(scene.as_slice(), 0);
    for x in 0..3 {
        for y in 0..3 {
            assert_eq!(rm.mtrx.get_pixel(x, y), LedPixel::black());
        }
    }
}

#[test]
fn custom_palette_at_the_full_sixteen_colours() {
    let mut colors = Vec::new();
    for i in 0..16u8 {
        colors.push(LedPixel::rgb(i, 0, 0));
    }
    let p = ColorPalette::Custom(colors, 1000);
    assert_eq!(p.render(15_000), LedPixel::rgb(15, 0, 0));
    assert_eq!(p.render(16_000), LedPixel::rgb(0, 0, 0));
}
