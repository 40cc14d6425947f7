//! The fixed pattern tables (power indicators, glyph font, animations) and
//! the immutable scene catalog built once at startup.

use vstd::prelude::*;

use crate::effects::ColorPalette;
use crate::effects::FragmentShader;
use crate::effects::LedPattern;
use crate::effects::Pattern;
use crate::effects::RenderCommand;
use crate::effects::spec_scene_wf;
use crate::pixel::LedPixel;

verus! {

/// One scene: an ordered list of at most 8 layers composited per tick.
pub type Scene = Vec<RenderCommand>;

/// The catalog of selectable scenes, at most 20.
pub type Scenes = Vec<Scene>;

/// The six dice faces.
pub open spec fn spec_dice() -> Seq<LedPattern> {
    seq![
        0b000010000u16,
        0b100000001,
        0b100010001,
        0b101000101,
        0b101010101,
        0b101101101,
    ]
}

/// The 26 glyphs for 'A' through 'Z'.
pub open spec fn spec_font() -> Seq<LedPattern> {
    seq![
        0b010111101u16,
        0b110111111,
        0b011100111,
        0b110101110,
        0b111110111,
        0b111110100,
        0b110101111,
        0b101111101,
        0b111010111,
        0b111010110,
        0b101110101,
        0b100100111,
        0b111111101,
        0b111101101,
        0b111101111,
        0b111111100,
        0b111101110,
        0b110111101,
        0b011010110,
        0b111010010,
        0b101101111,
        0b101101010,
        0b101111111,
        0b101010101,
        0b101010010,
        0b110010011,
    ]
}

/// Each cell once, in bit order.
pub open spec fn spec_everything_once() -> Seq<LedPattern> {
    seq![
        0b100000000u16,
        0b010000000,
        0b001000000,
        0b000100000,
        0b000010000,
        0b000001000,
        0b000000100,
        0b000000010,
        0b000000001,
    ]
}

/// The boot sweep.
pub open spec fn spec_boot_animation() -> Seq<LedPattern> {
    seq![
        0b010000000u16,
        0b010010000,
        0b111111000,
        0b000111111,
        0b000000111,
        0b000000010,
        0b000000000,
        0b000000000,
        0b000000000,
        0b000000000,
    ]
}

/// The police-light palette: red flashes, a pause, blue flashes.
pub open spec fn spec_police_palette() -> Seq<LedPixel> {
    seq![
        LedPixel::spec_black(),
        LedPixel::spec_rgb(255, 0, 0),
        LedPixel::spec_black(),
        LedPixel::spec_rgb(255, 0, 0),
        LedPixel::spec_black(),
        LedPixel::spec_black(),
        LedPixel::spec_black(),
        LedPixel::spec_black(),
        LedPixel::spec_rgb(0, 0, 255),
        LedPixel::spec_black(),
        LedPixel::spec_rgb(0, 0, 255),
        LedPixel::spec_black(),
        LedPixel::spec_black(),
        LedPixel::spec_black(),
        LedPixel::spec_black(),
    ]
}

/// The named fixed masks and mask sequences the firmware draws from.
#[derive(Debug)]
pub struct Patterns {
    pub power_100: LedPattern,
    pub power_75: LedPattern,
    pub power_50: LedPattern,
    pub power_25: LedPattern,
    pub glider: LedPattern,
    pub all_on: LedPattern,
    pub vertical_stripe_1: LedPattern,
    pub vertical_stripe_2: LedPattern,
    pub vertical_stripe_3: LedPattern,
    pub dice: Vec<LedPattern>,
    pub font: Vec<LedPattern>,
    pub everything_once: Vec<LedPattern>,
    pub boot_animation: Vec<LedPattern>,
}

impl Patterns {
    /// The table holds exactly its canonical contents.
    pub open spec fn wf(self) -> bool {
        &&& self.power_100 == 0b111111111u16
        &&& self.power_75 == 0b000111111u16
        &&& self.power_50 == 0b000000111u16
        &&& self.power_25 == 0b000000001u16
        &&& self.glider == 0b010001111u16
        &&& self.all_on == 0b111111111u16
        &&& self.vertical_stripe_1 == 0b100100100u16
        &&& self.vertical_stripe_2 == 0b010010010u16
        &&& self.vertical_stripe_3 == 0b001001001u16
        &&& self.dice@ == spec_dice()
        &&& self.font@ == spec_font()
        &&& self.everything_once@ == spec_everything_once()
        &&& self.boot_animation@ == spec_boot_animation()
    }
}

fn masks_from<const N: usize>(arr: &[LedPattern; N]) -> (r: Vec<LedPattern>)
    ensures
        r@ == arr@,
{
    let mut copy: Vec<LedPattern> = Vec::new();
    let mut i: usize = 0;
    while i < N
        invariant
            i <= N,
            copy@ == arr@.take(i as int),
        decreases N - i,
    {
        copy.push(arr[i]);
        proof {
            assert(copy@ =~= arr@.take(i + 1));
        }
        i = i + 1;
    }
    proof {
        assert(copy@ =~= arr@);
    }
    copy
}

/// Build the fixed pattern tables.
pub fn patterns() -> (p: Patterns)
    ensures
        p.wf(),
{
    let dice: [LedPattern; 6] = [
        0b000010000, 0b100000001, 0b100010001, 0b101000101, 0b101010101, 0b101101101,
    ];
    let font: [LedPattern; 26] = [
        0b010111101, 0b110111111, 0b011100111, 0b110101110, 0b111110111, 0b111110100,
        0b110101111, 0b101111101, 0b111010111, 0b111010110, 0b101110101, 0b100100111,
        0b111111101, 0b111101101, 0b111101111, 0b111111100, 0b111101110, 0b110111101,
        0b011010110, 0b111010010, 0b101101111, 0b101101010, 0b101111111, 0b101010101,
        0b101010010, 0b110010011,
    ];
    let everything_once: [LedPattern; 9] = [
        0b100000000, 0b010000000, 0b001000000, 0b000100000, 0b000010000, 0b000001000,
        0b000000100, 0b000000010, 0b000000001,
    ];
    let boot_animation: [LedPattern; 10] = [
        0b010000000, 0b010010000, 0b111111000, 0b000111111, 0b000000111, 0b000000010,
        0b000000000, 0b000000000, 0b000000000, 0b000000000,
    ];
    let p = Patterns {
        power_100: 0b111111111,
        power_75: 0b000111111,
        power_50: 0b000000111,
        power_25: 0b000000001,
        glider: 0b010001111,
        all_on: 0b111111111,
        vertical_stripe_1: 0b100100100,
        vertical_stripe_2: 0b010010010,
        vertical_stripe_3: 0b001001001,
        dice: masks_from(&dice),
        font: masks_from(&font),
        everything_once: masks_from(&everything_once),
        boot_animation: masks_from(&boot_animation),
    };
    proof {
        assert(p.dice@ =~= spec_dice());
        assert(p.font@ =~= spec_font());
        assert(p.everything_once@ =~= spec_everything_once());
        assert(p.boot_animation@ =~= spec_boot_animation());
    }
    p
}

/// A single layer that shows a fixed mask in a solid colour, with no
/// shaders and no time offset.
pub open spec fn spec_solid_layer(c: RenderCommand, mask: LedPattern, color: LedPixel) -> bool {
    &&& c.effect == Pattern::Simple(mask)
    &&& c.color == ColorPalette::Solid(color)
    &&& c.pattern_shaders@.len() == 0
    &&& c.screen_shaders@.len() == 0
    &&& c.time_offset == 0
}

/// Build one solid-colour layer.
pub fn solid_layer(mask: LedPattern, r: u8, g: u8, b: u8) -> (c: RenderCommand)
    ensures
        spec_solid_layer(c, mask, LedPixel::spec_rgb(r, g, b)),
        c.wf(),
{
    RenderCommand {
        effect: Pattern::Simple(mask),
        color: ColorPalette::Solid(LedPixel::rgb(r, g, b)),
        pattern_shaders: Vec::new(),
        screen_shaders: Vec::new(),
        time_offset: 0,
    }
}

fn single(c: RenderCommand) -> (s: Scene)
    ensures
        s@.len() == 1,
        s@[0] == c,
{
    let mut s: Scene = Vec::new();
    s.push(c);
    s
}

/// Build the immutable scene catalog: 16 scenes, selected by index in order.
/// It is built once at startup, before the render context starts, and only
/// ever read afterwards.
pub fn scenes(patterns: &Patterns) -> (r: Scenes)
    requires
        patterns.wf(),
    ensures
        r@.len() == 16,
        forall|i: int| 0 <= i < 16 ==> spec_scene_wf((#[trigger] r@[i])@),
        forall|i: int| 0 <= i < 16 ==> 0 < (#[trigger] r@[i])@.len() <= 8,
        // three solid gliders, blue / green / red
        r@[0]@.len() == 1 && spec_solid_layer(r@[0]@[0], 0b010001111u16, LedPixel::spec_rgb(0, 0, 255)),
        r@[1]@.len() == 1 && spec_solid_layer(r@[1]@[0], 0b010001111u16, LedPixel::spec_rgb(0, 255, 0)),
        r@[2]@.len() == 1 && spec_solid_layer(r@[2]@[0], 0b010001111u16, LedPixel::spec_rgb(255, 0, 0)),
        // breathing glider
        r@[3]@.len() == 1 && r@[3]@[0].effect == Pattern::Simple(0b010001111u16)
            && r@[3]@[0].color == ColorPalette::Solid(LedPixel::spec_rgb(0, 0, 255))
            && r@[3]@[0].pattern_shaders@ == seq![FragmentShader::Breathing(700u32)]
            && r@[3]@[0].screen_shaders@.len() == 0 && r@[3]@[0].time_offset == 0,
        // the flag: three vertical stripes
        r@[4]@.len() == 3 && spec_solid_layer(r@[4]@[0], 0b100100100u16, LedPixel::spec_rgb(0, 255, 0))
            && spec_solid_layer(r@[4]@[1], 0b010010010u16, LedPixel::spec_rgb(255, 255, 255))
            && spec_solid_layer(r@[4]@[2], 0b001001001u16, LedPixel::spec_rgb(255, 0, 0)),
        // rainbow glider
        r@[5]@.len() == 1 && r@[5]@[0].effect == Pattern::Simple(0b010001111u16)
            && r@[5]@[0].color == ColorPalette::Solid(LedPixel::spec_rgb(255, 255, 255))
            && r@[5]@[0].pattern_shaders@ == seq![FragmentShader::Rainbow2D(500u32)]
            && r@[5]@[0].screen_shaders@.len() == 0 && r@[5]@[0].time_offset == 0,
        // full-screen rainbow
        r@[6]@.len() == 1 && r@[6]@[0].effect == Pattern::Simple(0b111111111u16)
            && r@[6]@[0].color == ColorPalette::Solid(LedPixel::spec_rgb(255, 255, 255))
            && r@[6]@[0].pattern_shaders@.len() == 0
            && r@[6]@[0].screen_shaders@ == seq![FragmentShader::Rainbow2D(500u32)]
            && r@[6]@[0].time_offset == 0,
        // solid red, green, blue, white full screens
        r@[7]@.len() == 1 && spec_solid_layer(r@[7]@[0], 0b111111111u16, LedPixel::spec_rgb(255, 0, 0)),
        r@[8]@.len() == 1 && spec_solid_layer(r@[8]@[0], 0b111111111u16, LedPixel::spec_rgb(0, 255, 0)),
        r@[9]@.len() == 1 && spec_solid_layer(r@[9]@[0], 0b111111111u16, LedPixel::spec_rgb(0, 0, 255)),
        r@[10]@.len() == 1 && spec_solid_layer(r@[10]@[0], 0b111111111u16, LedPixel::spec_rgb(255, 255, 255)),
        // police lights: full screen over the custom palette
        r@[11]@.len() == 1 && r@[11]@[0].effect == Pattern::Simple(0b111111111u16)
            && (r@[11]@[0].color is Custom)
            && (r@[11]@[0].color)->Custom_0@ == spec_police_palette()
            && (r@[11]@[0].color)->Custom_1 == 15000u32
            && r@[11]@[0].pattern_shaders@.len() == 0
            && r@[11]@[0].screen_shaders@.len() == 0 && r@[11]@[0].time_offset == 0,
        // dice animation
        r@[12]@.len() == 1 && (r@[12]@[0].effect is Animation)
            && (r@[12]@[0].effect)->Animation_0@ == spec_dice()
            && (r@[12]@[0].effect)->Animation_1 == 500u32
            && r@[12]@[0].color == ColorPalette::Solid(LedPixel::spec_rgb(255, 0, 0))
            && r@[12]@[0].pattern_shaders@.len() == 0
            && r@[12]@[0].screen_shaders@.len() == 0 && r@[12]@[0].time_offset == 0,
        // scrolling text over a rainbow
        r@[13]@.len() == 1 && (r@[13]@[0].effect is Text)
            && (r@[13]@[0].effect)->Text_0@ == seq![69u8, 83u8, 67u8, 32u8]
            && (r@[13]@[0].effect)->Text_1 == 2000u32
            && r@[13]@[0].color == ColorPalette::Rainbow(500u32)
            && r@[13]@[0].pattern_shaders@.len() == 0
            && r@[13]@[0].screen_shaders@.len() == 0 && r@[13]@[0].time_offset == 0,
        // the whole alphabet over a rainbow
        r@[14]@.len() == 1 && (r@[14]@[0].effect is Animation)
            && (r@[14]@[0].effect)->Animation_0@ == spec_font()
            && (r@[14]@[0].effect)->Animation_1 == 2000u32
            && r@[14]@[0].color == ColorPalette::Rainbow(500u32)
            && r@[14]@[0].pattern_shaders@.len() == 0
            && r@[14]@[0].screen_shaders@.len() == 0 && r@[14]@[0].time_offset == 0,
        // off
        r@[15]@.len() == 1 && spec_solid_layer(r@[15]@[0], 0u16, LedPixel::spec_black()),
{
    let mut r: Scenes = Vec::new();

    // normal glider in three colours
    r.push(single(solid_layer(patterns.glider, 0, 0, 255)));
    r.push(single(solid_layer(patterns.glider, 0, 255, 0)));
    r.push(single(solid_layer(patterns.glider, 255, 0, 0)));

    // breathing glider
    let mut breathing: Vec<FragmentShader> = Vec::new();
    breathing.push(FragmentShader::Breathing(700));
    r.push(single(RenderCommand {
        effect: Pattern::Simple(patterns.glider),
        color: ColorPalette::Solid(LedPixel::rgb(0, 0, 255)),
        pattern_shaders: breathing,
        screen_shaders: Vec::new(),
        time_offset: 0,
    }));

    // flag of three vertical stripes
    let mut flag: Scene = Vec::new();
    flag.push(solid_layer(patterns.vertical_stripe_1, 0, 255, 0));
    flag.push(solid_layer(patterns.vertical_stripe_2, 255, 255, 255));
    flag.push(solid_layer(patterns.vertical_stripe_3, 255, 0, 0));
    r.push(flag);

    // single rainbow glider
    let mut rainbow_one: Vec<FragmentShader> = Vec::new();
    rainbow_one.push(FragmentShader::Rainbow2D(500));
    r.push(single(RenderCommand {
        effect: Pattern::Simple(patterns.glider),
        color: ColorPalette::Solid(LedPixel::rgb(255, 255, 255)),
        pattern_shaders: rainbow_one,
        screen_shaders: Vec::new(),
        time_offset: 0,
    }));

    // full-screen 2D rainbow
    let mut rainbow_all: Vec<FragmentShader> = Vec::new();
    rainbow_all.push(FragmentShader::Rainbow2D(500));
    r.push(single(RenderCommand {
        effect: Pattern::Simple(patterns.all_on),
        color: ColorPalette::Solid(LedPixel::rgb(255, 255, 255)),
        pattern_shaders: Vec::new(),
        screen_shaders: rainbow_all,
        time_offset: 0,
    }));

    // solid colours
    r.push(single(solid_layer(patterns.all_on, 255, 0, 0)));
    r.push(single(solid_layer(patterns.all_on, 0, 255, 0)));
    r.push(single(solid_layer(patterns.all_on, 0, 0, 255)));
    r.push(single(solid_layer(patterns.all_on, 255, 255, 255)));

    // police lights
    let mut police: Vec<LedPixel> = Vec::new();
    police.push(LedPixel::black());
    police.push(LedPixel::rgb(255, 0, 0));
    police.push(LedPixel::black());
    police.push(LedPixel::rgb(255, 0, 0));
    police.push(LedPixel::black());
    police.push(LedPixel::black());
    police.push(LedPixel::black());
    police.push(LedPixel::black());
    police.push(LedPixel::rgb(0, 0, 255));
    police.push(LedPixel::black());
    police.push(LedPixel::rgb(0, 0, 255));
    police.push(LedPixel::black());
    police.push(LedPixel::black());
    police.push(LedPixel::black());
    police.push(LedPixel::black());
    proof {
        assert(police@ =~= spec_police_palette());
    }
    r.push(single(RenderCommand {
        effect: Pattern::Simple(patterns.all_on),
        color: ColorPalette::Custom(police, 15000),
        pattern_shaders: Vec::new(),
        screen_shaders: Vec::new(),
        time_offset: 0,
    }));

    // dice
    r.push(single(RenderCommand {
        effect: Pattern::Animation(crate::effects::duplicate_masks(&patterns.dice), 500),
        color: ColorPalette::Solid(LedPixel::rgb(255, 0, 0)),
        pattern_shaders: Vec::new(),
        screen_shaders: Vec::new(),
        time_offset: 0,
    }));

    // scrolling text
    let mut text: Vec<u8> = Vec::new();
    text.push(69);
    text.push(83);
    text.push(67);
    text.push(32);
    r.push(single(RenderCommand {
        effect: Pattern::Text(text, 2000),
        color: ColorPalette::Rainbow(500),
        pattern_shaders: Vec::new(),
        screen_shaders: Vec::new(),
        time_offset: 0,
    }));

    // alphabet
    r.push(single(RenderCommand {
        effect: Pattern::Animation(crate::effects::duplicate_masks(&patterns.font), 2000),
        color: ColorPalette::Rainbow(500),
        pattern_shaders: Vec::new(),
        screen_shaders: Vec::new(),
        time_offset: 0,
    }));

    // off
    r.push(single(solid_layer(0, 0, 0, 0)));

    proof {
        assert forall|i: int| 0 <= i < 16 implies spec_scene_wf((#[trigger] r@[i])@) by {
            assert(spec_scene_wf(r@[0]@));
            assert(spec_scene_wf(r@[1]@));
            assert(spec_scene_wf(r@[2]@));
            assert(spec_scene_wf(r@[3]@));
            assert(spec_scene_wf(r@[4]@));
            assert(spec_scene_wf(r@[5]@));
            assert(spec_scene_wf(r@[6]@));
            assert(spec_scene_wf(r@[7]@));
            assert(spec_scene_wf(r@[8]@));
            assert(spec_scene_wf(r@[9]@));
            assert(spec_scene_wf(r@[10]@));
            assert(spec_scene_wf(r@[11]@));
            assert(spec_scene_wf(r@[12]@));
            assert(spec_scene_wf(r@[13]@));
            assert(spec_scene_wf(r@[14]@));
            assert(spec_scene_wf(r@[15]@));
        }
    }
    r
}

} // verus!
