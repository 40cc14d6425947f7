//! The orchestration state machine: the task that owns the working mode,
//! the output power, the active scene and the render loop, and dispatches
//! every event arriving on the command bus.

use vstd::prelude::*;

use crate::effects::ColorPalette;
use crate::effects::FragmentShader;
use crate::effects::MAX_TIME_MS;
use crate::effects::Pattern;
use crate::effects::RenderCommand;
use crate::effects::RenderManager;
use crate::effects::spec_render_rel;
use crate::matrix::LedMatrix;
use crate::scenes::Scene;
use crate::scenes::Scenes;
use crate::matrix::RawFramebuffer;
use crate::matrix::spec_get_pixel;
use crate::matrix::spec_set_pixel;
use crate::pixel::LedPixel;
use crate::scenes::Patterns;

verus! {

/// A key the badge can ask the host to press through its keyboard
/// interface.
#[derive(Clone, Copy, PartialEq, Eq, Structural, Debug)]
pub enum HidKey {
    VolumeUp,
    VolumeDown,
    RightArrow,
    LeftArrow,
    UpArrow,
    DownArrow,
    Escape,
    Enter,
    Digit1,
    Digit2,
    Digit3,
    Digit4,
    Digit5,
    Digit6,
    Digit7,
    Digit8,
    Digit9,
    Mute,
}

/// The four brightness tiers, cycled by the brightness events.
#[derive(Clone, Copy, PartialEq, Eq, Structural, Debug)]
pub enum OutputPower {
    High,
    Medium,
    Low,
    NighMode,
}

pub open spec fn spec_power_increase(p: OutputPower) -> OutputPower {
    match p {
        OutputPower::High => OutputPower::NighMode,
        OutputPower::Medium => OutputPower::High,
        OutputPower::Low => OutputPower::Medium,
        OutputPower::NighMode => OutputPower::Low,
    }
}

pub open spec fn spec_power_decrease(p: OutputPower) -> OutputPower {
    match p {
        OutputPower::High => OutputPower::Medium,
        OutputPower::Medium => OutputPower::Low,
        OutputPower::Low => OutputPower::NighMode,
        OutputPower::NighMode => OutputPower::High,
    }
}

/// The brightness-tier multiplier, in thousandths.
pub open spec fn spec_power_gain(p: OutputPower) -> u32 {
    match p {
        OutputPower::High => 1000u32,
        OutputPower::Medium => 700u32,
        OutputPower::Low => 500u32,
        OutputPower::NighMode => 250u32,
    }
}

impl OutputPower {
    pub fn increase(&self) -> (r: Self)
        ensures
            r == spec_power_increase(*self),
    {
        match self {
            OutputPower::High => OutputPower::NighMode,
            OutputPower::Medium => OutputPower::High,
            OutputPower::Low => OutputPower::Medium,
            OutputPower::NighMode => OutputPower::Low,
        }
    }

    pub fn decrease(&self) -> (r: Self)
        ensures
            r == spec_power_decrease(*self),
    {
        match self {
            OutputPower::High => OutputPower::Medium,
            OutputPower::Medium => OutputPower::Low,
            OutputPower::Low => OutputPower::NighMode,
            OutputPower::NighMode => OutputPower::High,
        }
    }

    /// The brightness-tier multiplier in thousandths.
    pub fn gain(&self) -> (g: u32)
        ensures
            g == spec_power_gain(*self),
    {
        match self {
            OutputPower::High => 1000,
            OutputPower::Medium => 700,
            OutputPower::Low => 500,
            OutputPower::NighMode => 250,
        }
    }
}

/// The brightness steps form a cyclic group of order four: four increases
/// (or four decreases) return to the starting tier, and one increase
/// undoes one decrease and the other way round.
pub proof fn lemma_output_power_cycle(p: OutputPower)
    ensures
        spec_power_increase(spec_power_increase(spec_power_increase(spec_power_increase(p)))) == p,
        spec_power_decrease(spec_power_decrease(spec_power_decrease(spec_power_decrease(p)))) == p,
        spec_power_decrease(spec_power_increase(p)) == p,
        spec_power_increase(spec_power_decrease(p)) == p,
{
}

/// What the status LED is asked to blink: a slow double pulse for ordinary
/// communication, a fast four-pulse burst for an error.
#[derive(Clone, Copy, PartialEq, Eq, Structural, Debug)]
pub enum WhiteLedCommand {
    Communication,
    Error,
}

/// What the orchestrator renders: the normal catalog scene, an override
/// layer (until cancelled, or until a deadline), or a raw framebuffer
/// driven from outside.
#[derive(Debug)]
pub enum WorkingMode {
    Normal,
    Special(RenderCommand),
    SpecialTimeout(RenderCommand, u64),
    RawFramebuffer(RawFramebuffer),
}

impl WorkingMode {
    pub open spec fn wf(self) -> bool {
        match self {
            WorkingMode::Normal => true,
            WorkingMode::Special(c) => c.wf(),
            WorkingMode::SpecialTimeout(c, _) => c.wf(),
            WorkingMode::RawFramebuffer(fb) => fb.wf(),
        }
    }

    /// Structural equivalence.
    pub open spec fn spec_eq(self, other: WorkingMode) -> bool {
        match (self, other) {
            (WorkingMode::Normal, WorkingMode::Normal) => true,
            (WorkingMode::Special(a), WorkingMode::Special(b)) => a.spec_eq(b),
            (WorkingMode::SpecialTimeout(a, da), WorkingMode::SpecialTimeout(b, db)) => a.spec_eq(b)
                && da == db,
            (WorkingMode::RawFramebuffer(a), WorkingMode::RawFramebuffer(b)) => a@ == b@,
            _ => false,
        }
    }

    pub fn duplicate(&self) -> (r: Self)
        ensures
            r.spec_eq(*self),
            r.wf() <==> self.wf(),
    {
        match self {
            WorkingMode::Normal => WorkingMode::Normal,
            WorkingMode::Special(c) => WorkingMode::Special(c.duplicate()),
            WorkingMode::SpecialTimeout(c, d) => WorkingMode::SpecialTimeout(c.duplicate(), *d),
            WorkingMode::RawFramebuffer(fb) => WorkingMode::RawFramebuffer(fb.duplicate()),
        }
    }
}

/// Every event that flows on the command bus.
#[derive(Debug)]
pub enum TaskCommand {
    /// Thermal-throttle multiplier in thousandths; 1000 means no throttle.
    ThermalThrottleMultiplier(u32),
    /// A decoded IR command: address, command, repeat flag.
    ReceivedIrNec(u8, u8, bool),
    ShortButtonPress,
    LongButtonPress,
    /// x, y, channel (0 red, 1 green, 2 blue), value.
    MidiSetPixel(u8, u8, u8, u8),
    SetWorkingMode(WorkingMode),
    /// Ask the IR blaster to transmit: address, command, repeat flag.
    SendIrNec(u8, u8, bool),
    IrTxDone,
    NextPattern,
    IncreaseBrightness,
    DecreaseBrightness,
    SetBrightness(OutputPower),
    ResetTime,
    UsbActivity,
    SendHidKeyboard(HidKey),
    Error,
    Nop,
}

impl TaskCommand {
    pub open spec fn wf(self) -> bool {
        match self {
            TaskCommand::SetWorkingMode(m) => m.wf(),
            _ => true,
        }
    }

    /// Structural equivalence.
    pub open spec fn spec_eq(self, other: TaskCommand) -> bool {
        match (self, other) {
            (TaskCommand::SetWorkingMode(a), TaskCommand::SetWorkingMode(b)) => a.spec_eq(b),
            _ => self == other,
        }
    }

    pub fn duplicate(&self) -> (r: Self)
        ensures
            r.spec_eq(*self),
            r.wf() <==> self.wf(),
    {
        match self {
            TaskCommand::ThermalThrottleMultiplier(g) => TaskCommand::ThermalThrottleMultiplier(*g),
            TaskCommand::ReceivedIrNec(a, c, rep) => TaskCommand::ReceivedIrNec(*a, *c, *rep),
            TaskCommand::ShortButtonPress => TaskCommand::ShortButtonPress,
            TaskCommand::LongButtonPress => TaskCommand::LongButtonPress,
            TaskCommand::MidiSetPixel(x, y, ch, v) => TaskCommand::MidiSetPixel(*x, *y, *ch, *v),
            TaskCommand::SetWorkingMode(m) => TaskCommand::SetWorkingMode(m.duplicate()),
            TaskCommand::SendIrNec(a, c, rep) => TaskCommand::SendIrNec(*a, *c, *rep),
            TaskCommand::IrTxDone => TaskCommand::IrTxDone,
            TaskCommand::NextPattern => TaskCommand::NextPattern,
            TaskCommand::IncreaseBrightness => TaskCommand::IncreaseBrightness,
            TaskCommand::DecreaseBrightness => TaskCommand::DecreaseBrightness,
            TaskCommand::SetBrightness(b) => TaskCommand::SetBrightness(*b),
            TaskCommand::ResetTime => TaskCommand::ResetTime,
            TaskCommand::UsbActivity => TaskCommand::UsbActivity,
            TaskCommand::SendHidKeyboard(k) => TaskCommand::SendHidKeyboard(*k),
            TaskCommand::Error => TaskCommand::Error,
            TaskCommand::Nop => TaskCommand::Nop,
        }
    }
}

/// What a decoded IR command asks the orchestrator to do. The fixed lookup
/// table recognises the RGB remote on address 0 and a television remote on
/// address 7; everything else is ignored.
#[derive(Clone, Copy, PartialEq, Eq, Structural, Debug)]
pub enum IrIntent {
    DecreaseBrightness,
    IncreaseBrightness,
    Off,
    ResetTime,
    NextPattern,
    BootAnimation,
    Hid(HidKey),
    Unknown,
}

/// The fixed (address, command) lookup table.
pub open spec fn spec_ir_intent(addr: u8, cmd: u8, repeat: bool) -> IrIntent {
    if repeat {
        IrIntent::Unknown
    } else if addr == 0 {
        if cmd == 70 {
            IrIntent::DecreaseBrightness
        } else if cmd == 69 {
            IrIntent::IncreaseBrightness
        } else if cmd == 71 {
            IrIntent::Off
        } else if cmd == 67 {
            IrIntent::ResetTime
        } else if cmd == 68 {
            IrIntent::NextPattern
        } else if cmd == 66 {
            IrIntent::BootAnimation
        } else {
            IrIntent::Unknown
        }
    } else if addr == 7 {
        if cmd == 7 {
            IrIntent::Hid(HidKey::VolumeUp)
        } else if cmd == 11 {
            IrIntent::Hid(HidKey::VolumeDown)
        } else if cmd == 98 {
            IrIntent::Hid(HidKey::RightArrow)
        } else if cmd == 101 {
            IrIntent::Hid(HidKey::LeftArrow)
        } else if cmd == 96 {
            IrIntent::Hid(HidKey::UpArrow)
        } else if cmd == 97 {
            IrIntent::Hid(HidKey::DownArrow)
        } else if cmd == 102 {
            IrIntent::Hid(HidKey::Escape)
        } else if cmd == 104 {
            IrIntent::Hid(HidKey::Enter)
        } else if cmd == 4 {
            IrIntent::Hid(HidKey::Digit1)
        } else if cmd == 5 {
            IrIntent::Hid(HidKey::Digit2)
        } else if cmd == 6 {
            IrIntent::Hid(HidKey::Digit3)
        } else if cmd == 8 {
            IrIntent::Hid(HidKey::Digit4)
        } else if cmd == 9 {
            IrIntent::Hid(HidKey::Digit5)
        } else if cmd == 10 {
            IrIntent::Hid(HidKey::Digit6)
        } else if cmd == 12 {
            IrIntent::Hid(HidKey::Digit7)
        } else if cmd == 13 {
            IrIntent::Hid(HidKey::Digit8)
        } else if cmd == 14 {
            IrIntent::Hid(HidKey::Digit9)
        } else if cmd == 15 {
            IrIntent::Hid(HidKey::Mute)
        } else {
            IrIntent::Unknown
        }
    } else {
        IrIntent::Unknown
    }
}

/// Look a decoded IR command up in the fixed table.
pub fn ir_intent(addr: u8, cmd: u8, repeat: bool) -> (r: IrIntent)
    ensures
        r == spec_ir_intent(addr, cmd, repeat),
{
    if repeat {
        return IrIntent::Unknown;
    }
    match (addr, cmd) {
        (0, 70) => IrIntent::DecreaseBrightness,
        (0, 69) => IrIntent::IncreaseBrightness,
        (0, 71) => IrIntent::Off,
        (0, 67) => IrIntent::ResetTime,
        (0, 68) => IrIntent::NextPattern,
        (0, 66) => IrIntent::BootAnimation,
        (7, 7) => IrIntent::Hid(HidKey::VolumeUp),
        (7, 11) => IrIntent::Hid(HidKey::VolumeDown),
        (7, 98) => IrIntent::Hid(HidKey::RightArrow),
        (7, 101) => IrIntent::Hid(HidKey::LeftArrow),
        (7, 96) => IrIntent::Hid(HidKey::UpArrow),
        (7, 97) => IrIntent::Hid(HidKey::DownArrow),
        (7, 102) => IrIntent::Hid(HidKey::Escape),
        (7, 104) => IrIntent::Hid(HidKey::Enter),
        (7, 4) => IrIntent::Hid(HidKey::Digit1),
        (7, 5) => IrIntent::Hid(HidKey::Digit2),
        (7, 6) => IrIntent::Hid(HidKey::Digit3),
        (7, 8) => IrIntent::Hid(HidKey::Digit4),
        (7, 9) => IrIntent::Hid(HidKey::Digit5),
        (7, 10) => IrIntent::Hid(HidKey::Digit6),
        (7, 12) => IrIntent::Hid(HidKey::Digit7),
        (7, 13) => IrIntent::Hid(HidKey::Digit8),
        (7, 14) => IrIntent::Hid(HidKey::Digit9),
        (7, 15) => IrIntent::Hid(HidKey::Mute),
        _ => IrIntent::Unknown,
    }
}

} // verus!

verus! {

/// The state the orchestrator task owns.
pub struct Orchestrator {
    pub renderman: RenderManager,
    pub working_mode: WorkingMode,
    pub scene_id: usize,
    pub out_power: OutputPower,
    pub is_transmitting: bool,
    /// Milliseconds subtracted from the absolute clock, for multi-device
    /// visual synchronisation.
    pub time_offset: u64,
    /// The externally accumulated raw framebuffer driven over MIDI.
    pub midi_framebuffer: RawFramebuffer,
    /// The boot sweep layer, also replayed when a peer badge says hello.
    pub boot_animation: RenderCommand,
}

/// The indicator mask for a brightness tier.
pub open spec fn spec_power_mask(p: OutputPower, patterns: Patterns) -> u16 {
    match p {
        OutputPower::High => patterns.power_100,
        OutputPower::Medium => patterns.power_75,
        OutputPower::Low => patterns.power_50,
        OutputPower::NighMode => patterns.power_25,
    }
}

/// The MIDI merge: one channel of one pixel of the externally accumulated
/// framebuffer takes the given value.
pub open spec fn spec_midi_merge(fb: Seq<LedPixel>, x: int, y: int, ch: int, v: u8) -> Seq<LedPixel> {
    let px = spec_get_pixel(fb, x, y);
    let rgb = if ch == 0 {
        LedPixel { r: v, g: px.g, b: px.b, w: 0 }
    } else if ch == 1 {
        LedPixel { r: px.r, g: v, b: px.b, w: 0 }
    } else if ch == 2 {
        LedPixel { r: px.r, g: px.g, b: v, w: 0 }
    } else {
        px
    };
    spec_set_pixel(fb, x, y, rgb)
}

/// The render manager's state is untouched.
pub open spec fn spec_same_render(pre: Orchestrator, post: Orchestrator) -> bool {
    &&& post.renderman.mtrx.corrected_gain == pre.renderman.mtrx.corrected_gain
    &&& post.renderman.mtrx.raw_gain == pre.renderman.mtrx.raw_gain
    &&& post.renderman.mtrx.raw_framebuffer@ == pre.renderman.mtrx.raw_framebuffer@
    &&& post.renderman.mtrx.gamma_corrected_framebuffer@ == pre.renderman.mtrx.gamma_corrected_framebuffer@
    &&& post.renderman.persistent_data.frame_counter == pre.renderman.persistent_data.frame_counter
    &&& post.renderman.persistent_data.lowpass@ == pre.renderman.persistent_data.lowpass@
    &&& post.renderman.font@ == pre.renderman.font@
}

/// The orchestrator's control state is untouched.
pub open spec fn spec_same_control(pre: Orchestrator, post: Orchestrator) -> bool {
    &&& post.working_mode == pre.working_mode
    &&& post.scene_id == pre.scene_id
    &&& post.out_power == pre.out_power
    &&& post.is_transmitting == pre.is_transmitting
    &&& post.time_offset == pre.time_offset
    &&& post.midi_framebuffer@ == pre.midi_framebuffer@
    &&& post.boot_animation == pre.boot_animation
}

/// What the published reaction to a decoded IR command must look like.
pub open spec fn spec_ir_publishes(pre: Orchestrator, addr: u8, cmd: u8, repeat: bool, publishes: Seq<TaskCommand>) -> bool {
    match spec_ir_intent(addr, cmd, repeat) {
        IrIntent::DecreaseBrightness => publishes == seq![TaskCommand::DecreaseBrightness],
        IrIntent::IncreaseBrightness => publishes == seq![TaskCommand::IncreaseBrightness],
        IrIntent::Off => publishes.len() == 0,
        IrIntent::ResetTime => publishes == seq![TaskCommand::ResetTime],
        IrIntent::NextPattern => publishes == seq![TaskCommand::NextPattern],
        IrIntent::BootAnimation => {
            &&& publishes.len() == 2
            &&& publishes[0] == TaskCommand::ResetTime
            &&& publishes[1] is SetWorkingMode
            &&& publishes[1]->SetWorkingMode_0 is SpecialTimeout
            &&& (publishes[1]->SetWorkingMode_0)->SpecialTimeout_0.spec_eq(pre.boot_animation)
            &&& (publishes[1]->SetWorkingMode_0)->SpecialTimeout_1 == 500
        },
        IrIntent::Hid(k) => publishes == seq![TaskCommand::SendHidKeyboard(k)],
        IrIntent::Unknown => publishes.len() == 0,
    }
}

/// The transition table: how one drained bus event changes the
/// orchestrator's state, what it publishes back onto the bus, and what it
/// asks of the status LED. `now` is the absolute clock, `t` the logical
/// render clock (`now` minus the synthetic offset).
pub open spec fn spec_handle(
    pre: Orchestrator,
    msg: TaskCommand,
    now: u64,
    t: int,
    nscenes: int,
    patterns: Patterns,
    post: Orchestrator,
    publishes: Seq<TaskCommand>,
    led: Option<WhiteLedCommand>,
) -> bool {
    match msg {
        TaskCommand::ThermalThrottleMultiplier(g) => {
            &&& spec_same_control(pre, post)
            &&& post.renderman.mtrx.raw_gain == g
            &&& post.renderman.mtrx.corrected_gain == pre.renderman.mtrx.corrected_gain
            &&& post.renderman.mtrx.raw_framebuffer@ == pre.renderman.mtrx.raw_framebuffer@
            &&& post.renderman.mtrx.gamma_corrected_framebuffer@ == pre.renderman.mtrx.gamma_corrected_framebuffer@
            &&& post.renderman.persistent_data.frame_counter == pre.renderman.persistent_data.frame_counter
            &&& post.renderman.persistent_data.lowpass@ == pre.renderman.persistent_data.lowpass@
            &&& post.renderman.font@ == pre.renderman.font@
            &&& publishes.len() == 0
            &&& led is None
        },
        TaskCommand::ReceivedIrNec(addr, cmd, repeat) => {
            if pre.is_transmitting {
                &&& spec_same_control(pre, post)
                &&& spec_same_render(pre, post)
                &&& publishes.len() == 0
                &&& led is None
            } else {
                &&& spec_same_control(pre, post)
                &&& spec_same_render(pre, post)
                &&& spec_ir_publishes(pre, addr, cmd, repeat, publishes)
                &&& led == Some(WhiteLedCommand::Communication)
            }
        },
        TaskCommand::ShortButtonPress => {
            &&& spec_same_control(pre, post)
            &&& spec_same_render(pre, post)
            &&& publishes == seq![TaskCommand::NextPattern]
            &&& led is None
        },
        TaskCommand::LongButtonPress => {
            &&& spec_same_control(pre, post)
            &&& spec_same_render(pre, post)
            &&& publishes == seq![TaskCommand::DecreaseBrightness]
            &&& led is None
        },
        TaskCommand::MidiSetPixel(x, y, ch, v) => {
            &&& spec_same_render(pre, post)
            &&& post.midi_framebuffer@ == spec_midi_merge(pre.midi_framebuffer@, x as int, y as int, ch as int, v)
            &&& post.working_mode is RawFramebuffer
            &&& post.working_mode->RawFramebuffer_0@ == post.midi_framebuffer@
            &&& post.scene_id == pre.scene_id
            &&& post.out_power == pre.out_power
            &&& post.is_transmitting == pre.is_transmitting
            &&& post.time_offset == pre.time_offset
            &&& post.boot_animation == pre.boot_animation
            &&& publishes.len() == 0
            &&& led == Some(WhiteLedCommand::Communication)
        },
        TaskCommand::SetWorkingMode(m) => {
            &&& spec_same_render(pre, post)
            &&& post.working_mode == m
            &&& post.scene_id == pre.scene_id
            &&& post.out_power == pre.out_power
            &&& post.is_transmitting == pre.is_transmitting
            &&& post.time_offset == pre.time_offset
            &&& post.midi_framebuffer@ == pre.midi_framebuffer@
            &&& post.boot_animation == pre.boot_animation
            &&& publishes.len() == 0
            &&& led is None
        },
        TaskCommand::SendIrNec(_, _, _) => {
            &&& spec_same_render(pre, post)
            &&& post.is_transmitting == true
            &&& post.working_mode == pre.working_mode
            &&& post.scene_id == pre.scene_id
            &&& post.out_power == pre.out_power
            &&& post.time_offset == pre.time_offset
            &&& post.midi_framebuffer@ == pre.midi_framebuffer@
            &&& post.boot_animation == pre.boot_animation
            &&& publishes.len() == 0
            &&& led is None
        },
        TaskCommand::IrTxDone => {
            &&& spec_same_render(pre, post)
            &&& post.is_transmitting == false
            &&& post.working_mode == pre.working_mode
            &&& post.scene_id == pre.scene_id
            &&& post.out_power == pre.out_power
            &&& post.time_offset == pre.time_offset
            &&& post.midi_framebuffer@ == pre.midi_framebuffer@
            &&& post.boot_animation == pre.boot_animation
            &&& publishes.len() == 0
            &&& led is None
        },
        TaskCommand::NextPattern => {
            &&& spec_same_render(pre, post)
            &&& (if pre.working_mode is Normal {
                post.working_mode == pre.working_mode && post.scene_id == (pre.scene_id + 1) % nscenes
            } else {
                post.working_mode is Normal && post.scene_id == pre.scene_id
            })
            &&& post.out_power == pre.out_power
            &&& post.is_transmitting == pre.is_transmitting
            &&& post.time_offset == pre.time_offset
            &&& post.midi_framebuffer@ == pre.midi_framebuffer@
            &&& post.boot_animation == pre.boot_animation
            &&& publishes.len() == 0
            &&& led is None
        },
        TaskCommand::IncreaseBrightness | TaskCommand::DecreaseBrightness => {
            let power = if msg is DecreaseBrightness {
                spec_power_decrease(pre.out_power)
            } else {
                spec_power_increase(pre.out_power)
            };
            &&& spec_same_render(pre, post)
            &&& post.out_power == power
            &&& (if pre.working_mode is RawFramebuffer {
                post.working_mode == pre.working_mode
            } else {
                &&& post.working_mode is SpecialTimeout
                &&& crate::scenes::spec_solid_layer(post.working_mode->SpecialTimeout_0,
                        spec_power_mask(power, patterns), LedPixel::spec_rgb(255, 255, 255))
                &&& post.working_mode->SpecialTimeout_1 == t + 1000
            })
            &&& post.scene_id == pre.scene_id
            &&& post.is_transmitting == pre.is_transmitting
            &&& post.time_offset == pre.time_offset
            &&& post.midi_framebuffer@ == pre.midi_framebuffer@
            &&& post.boot_animation == pre.boot_animation
            &&& publishes.len() == 0
            &&& led is None
        },
        TaskCommand::SetBrightness(b) => {
            &&& spec_same_render(pre, post)
            &&& post.out_power == b
            &&& post.working_mode == pre.working_mode
            &&& post.scene_id == pre.scene_id
            &&& post.is_transmitting == pre.is_transmitting
            &&& post.time_offset == pre.time_offset
            &&& post.midi_framebuffer@ == pre.midi_framebuffer@
            &&& post.boot_animation == pre.boot_animation
            &&& publishes.len() == 0
            &&& led is None
        },
        TaskCommand::ResetTime => {
            &&& spec_same_render(pre, post)
            &&& post.time_offset == now
            &&& post.working_mode == pre.working_mode
            &&& post.scene_id == pre.scene_id
            &&& post.out_power == pre.out_power
            &&& post.is_transmitting == pre.is_transmitting
            &&& post.midi_framebuffer@ == pre.midi_framebuffer@
            &&& post.boot_animation == pre.boot_animation
            &&& publishes.len() == 0
            &&& led is None
        },
        TaskCommand::UsbActivity => {
            &&& spec_same_control(pre, post)
            &&& spec_same_render(pre, post)
            &&& publishes.len() == 0
            &&& led == Some(WhiteLedCommand::Communication)
        },
        TaskCommand::Error => {
            &&& spec_same_control(pre, post)
            &&& spec_same_render(pre, post)
            &&& publishes.len() == 0
            &&& led == Some(WhiteLedCommand::Error)
        },
        TaskCommand::SendHidKeyboard(_) | TaskCommand::Nop => {
            &&& spec_same_control(pre, post)
            &&& spec_same_render(pre, post)
            &&& publishes.len() == 0
            &&& led is None
        },
    }
}

impl Orchestrator {
    pub open spec fn wf(self) -> bool {
        &&& self.renderman.wf()
        &&& self.working_mode.wf()
        &&& self.midi_framebuffer.wf()
        &&& self.boot_animation.wf()
        &&& self.time_offset <= MAX_TIME_MS
    }

    /// Dispatch one drained bus event. Returns what must be published back
    /// onto the bus and what the status LED is asked to blink.
    pub fn handle_message(&mut self, msg: TaskCommand, now: u64, t: u64, scene_count: usize, patterns: &Patterns)
        -> (out: (Vec<TaskCommand>, Option<WhiteLedCommand>))
        requires
            old(self).wf(),
            msg.wf(),
            scene_count > 0,
            old(self).scene_id < scene_count,
            t <= MAX_TIME_MS,
            now <= MAX_TIME_MS,
        ensures
            final(self).wf(),
            spec_handle(*old(self), msg, now, t as int, scene_count as int, *patterns,
                *final(self), out.0@, out.1),
            final(self).scene_id < scene_count,
            forall|i: int| 0 <= i < out.0@.len() ==> (#[trigger] out.0@[i]).wf(),
    {
        let mut publishes: Vec<TaskCommand> = Vec::new();
        let mut led: Option<WhiteLedCommand> = None;

        match msg {
            TaskCommand::ThermalThrottleMultiplier(g) => {
                self.renderman.mtrx.set_raw_gain(g);
            },
            TaskCommand::ReceivedIrNec(addr, cmd, repeat) => {
                if !self.is_transmitting {
                    match ir_intent(addr, cmd, repeat) {
                        IrIntent::DecreaseBrightness => {
                            publishes.push(TaskCommand::DecreaseBrightness);
                        },
                        IrIntent::IncreaseBrightness => {
                            publishes.push(TaskCommand::IncreaseBrightness);
                        },
                        IrIntent::Off => {},
                        IrIntent::ResetTime => {
                            publishes.push(TaskCommand::ResetTime);
                        },
                        IrIntent::NextPattern => {
                            publishes.push(TaskCommand::NextPattern);
                        },
                        IrIntent::BootAnimation => {
                            publishes.push(TaskCommand::ResetTime);
                            publishes.push(TaskCommand::SetWorkingMode(WorkingMode::SpecialTimeout(
                                self.boot_animation.duplicate(), 500)));
                        },
                        IrIntent::Hid(k) => {
                            publishes.push(TaskCommand::SendHidKeyboard(k));
                        },
                        IrIntent::Unknown => {},
                    }
                    led = Some(WhiteLedCommand::Communication);
                }
            },
            TaskCommand::ShortButtonPress => {
                publishes.push(TaskCommand::NextPattern);
            },
            TaskCommand::LongButtonPress => {
                publishes.push(TaskCommand::DecreaseBrightness);
            },
            TaskCommand::MidiSetPixel(x, y, ch, v) => {
                let px = self.midi_framebuffer.get_pixel(x as usize, y as usize);
                let rgb = if ch == 0 {
                    LedPixel::rgb(v, px.g, px.b)
                } else if ch == 1 {
                    LedPixel::rgb(px.r, v, px.b)
                } else if ch == 2 {
                    LedPixel::rgb(px.r, px.g, v)
                } else {
                    px
                };
                self.midi_framebuffer.set_pixel(x as usize, y as usize, rgb);
                self.working_mode = WorkingMode::RawFramebuffer(self.midi_framebuffer.duplicate());
                led = Some(WhiteLedCommand::Communication);
            },
            TaskCommand::SetWorkingMode(m) => {
                self.working_mode = m;
            },
            TaskCommand::SendIrNec(_, _, _) => {
                self.is_transmitting = true;
            },
            TaskCommand::IrTxDone => {
                self.is_transmitting = false;
            },
            TaskCommand::NextPattern => {
                if matches!(self.working_mode, WorkingMode::Normal) {
                    self.scene_id = (self.scene_id + 1) % scene_count;
                } else {
                    self.working_mode = WorkingMode::Normal;
                }
            },
            TaskCommand::IncreaseBrightness | TaskCommand::DecreaseBrightness => {
                if matches!(msg, TaskCommand::DecreaseBrightness) {
                    self.out_power = self.out_power.decrease();
                } else {
                    self.out_power = self.out_power.increase();
                }
                let patt = match self.out_power {
                    OutputPower::High => patterns.power_100,
                    OutputPower::Medium => patterns.power_75,
                    OutputPower::Low => patterns.power_50,
                    OutputPower::NighMode => patterns.power_25,
                };
                if !matches!(self.working_mode, WorkingMode::RawFramebuffer(_)) {
                    self.working_mode = WorkingMode::SpecialTimeout(
                        crate::scenes::solid_layer(patt, 255, 255, 255),
                        t + 1000,
                    );
                }
            },
            TaskCommand::SetBrightness(b) => {
                self.out_power = b;
            },
            TaskCommand::ResetTime => {
                self.time_offset = now;
            },
            TaskCommand::UsbActivity => {
                led = Some(WhiteLedCommand::Communication);
            },
            TaskCommand::Error => {
                led = Some(WhiteLedCommand::Error);
            },
            TaskCommand::SendHidKeyboard(_) | TaskCommand::Nop => {},
        }

        (publishes, led)
    }
}

} // verus!

verus! {

/// What one tick hands back to its surroundings: commands to publish on
/// the bus, a status-LED request, and the gamma-corrected frame for the
/// LED driver.
pub struct TickOutput {
    pub publishes: Vec<TaskCommand>,
    pub white_led: Option<WhiteLedCommand>,
    pub frame: Vec<LedPixel>,
}

/// Phase one of a tick: the brightness tier is written to the matrix's
/// pre-gamma gain; nothing else moves.
pub open spec fn spec_with_gain(pre: Orchestrator, post: Orchestrator) -> bool {
    &&& spec_same_control(pre, post)
    &&& post.renderman.mtrx.corrected_gain == spec_power_gain(pre.out_power)
    &&& post.renderman.mtrx.raw_gain == pre.renderman.mtrx.raw_gain
    &&& post.renderman.mtrx.raw_framebuffer@ == pre.renderman.mtrx.raw_framebuffer@
    &&& post.renderman.mtrx.gamma_corrected_framebuffer@ == pre.renderman.mtrx.gamma_corrected_framebuffer@
    &&& post.renderman.persistent_data.frame_counter == pre.renderman.persistent_data.frame_counter
    &&& post.renderman.persistent_data.lowpass@ == pre.renderman.persistent_data.lowpass@
    &&& post.renderman.font@ == pre.renderman.font@
}

/// Phase three of a tick: what the active working mode draws into the raw
/// framebuffer, and the timeout fallback to the normal mode. Rendering an
/// override layer goes through a structurally equal copy of it.
pub open spec fn spec_render_phase(pre: Orchestrator, t: int, scenes: Seq<Scene>, post: Orchestrator) -> bool {
    &&& post.scene_id == pre.scene_id
    &&& post.out_power == pre.out_power
    &&& post.is_transmitting == pre.is_transmitting
    &&& post.time_offset == pre.time_offset
    &&& post.midi_framebuffer@ == pre.midi_framebuffer@
    &&& post.boot_animation == pre.boot_animation
    &&& post.renderman.mtrx.corrected_gain == pre.renderman.mtrx.corrected_gain
    &&& post.renderman.mtrx.raw_gain == pre.renderman.mtrx.raw_gain
    &&& post.renderman.mtrx.gamma_corrected_framebuffer@ == pre.renderman.mtrx.gamma_corrected_framebuffer@
    &&& post.renderman.font@ == pre.renderman.font@
    &&& match pre.working_mode {
        WorkingMode::Normal => {
            &&& post.working_mode is Normal
            &&& spec_render_rel(scenes[pre.scene_id as int]@, 0, scenes[pre.scene_id as int]@.len() as int,
                    t, pre.renderman.font@, pre.renderman.render_state(), post.renderman.render_state())
        },
        WorkingMode::Special(c) => {
            &&& post.working_mode == pre.working_mode
            &&& (exists|c2: RenderCommand| #[trigger] c2.spec_eq(c) && spec_render_rel(seq![c2], 0, 1,
                    t, pre.renderman.font@, pre.renderman.render_state(), post.renderman.render_state()))
        },
        WorkingMode::SpecialTimeout(c, d) => {
            &&& (exists|c2: RenderCommand| #[trigger] c2.spec_eq(c) && spec_render_rel(seq![c2], 0, 1,
                    t, pre.renderman.font@, pre.renderman.render_state(), post.renderman.render_state()))
            &&& (if t > d {
                post.working_mode is Normal
            } else {
                post.working_mode == pre.working_mode
            })
        },
        WorkingMode::RawFramebuffer(fb) => {
            &&& post.working_mode == pre.working_mode
            &&& post.renderman.mtrx.raw_framebuffer@ == fb@
            &&& post.renderman.persistent_data.frame_counter == pre.renderman.persistent_data.frame_counter
            &&& post.renderman.persistent_data.lowpass@ == pre.renderman.persistent_data.lowpass@
        },
    }
}

/// Phase four of a tick: the rendered raw framebuffer goes through gamma
/// and the two gains into the output frame, and is then cleared for the
/// next tick; persistent shader state and the gamma buffer are kept.
pub open spec fn spec_output_phase(pre: Orchestrator, post: Orchestrator, frame: Seq<LedPixel>) -> bool {
    &&& spec_same_control(pre, post)
    &&& frame == LedMatrix::spec_output_frame(pre.renderman.mtrx.raw_framebuffer@,
            pre.renderman.mtrx.corrected_gain, pre.renderman.mtrx.raw_gain)
    &&& post.renderman.mtrx.gamma_corrected_framebuffer@ == frame
    &&& post.renderman.mtrx.raw_framebuffer@ == Seq::new(9, |i: int| LedPixel::spec_black())
    &&& post.renderman.mtrx.corrected_gain == pre.renderman.mtrx.corrected_gain
    &&& post.renderman.mtrx.raw_gain == pre.renderman.mtrx.raw_gain
    &&& post.renderman.persistent_data.frame_counter == pre.renderman.persistent_data.frame_counter
    &&& post.renderman.persistent_data.lowpass@ == pre.renderman.persistent_data.lowpass@
    &&& post.renderman.font@ == pre.renderman.font@
}

/// One whole tick: gain from the brightness tier, at most one drained bus
/// event dispatched per the transition table, the active mode rendered,
/// the output frame derived, the raw framebuffer cleared.
pub open spec fn spec_tick_rel(
    pre: Orchestrator,
    now: u64,
    msg: Option<TaskCommand>,
    scenes: Seq<Scene>,
    patterns: Patterns,
    post: Orchestrator,
    publishes: Seq<TaskCommand>,
    led: Option<WhiteLedCommand>,
    frame: Seq<LedPixel>,
) -> bool {
    let t = now - pre.time_offset;
    exists|s2: Orchestrator, s3: Orchestrator|
        #![trigger spec_render_phase(s2, t, scenes, s3)]
        {
            &&& (exists|s1: Orchestrator|
                {
                    &&& #[trigger] spec_with_gain(pre, s1)
                    &&& match msg {
                        Option::None => {
                            &&& spec_same_control(s1, s2)
                            &&& spec_same_render(s1, s2)
                            &&& publishes.len() == 0
                            &&& led is None
                        },
                        Option::Some(m) => spec_handle(s1, m, now, t, scenes.len() as int, patterns,
                            s2, publishes, led),
                    }
                })
            &&& spec_render_phase(s2, t, scenes, s3)
            &&& spec_output_phase(s3, post, frame)
        }
}

/// Every scene of the catalog is well formed and non-empty.
pub open spec fn spec_scenes_wf(scenes: Seq<Scene>) -> bool {
    &&& scenes.len() > 0
    &&& forall|i: int| 0 <= i < scenes.len() ==> crate::effects::spec_scene_wf((#[trigger] scenes[i])@)
}

fn pixels_from_vec(v: &Vec<LedPixel>) -> (r: Vec<LedPixel>)
    ensures
        r@ == v@,
{
    let mut copy: Vec<LedPixel> = Vec::new();
    let mut i: usize = 0;
    let n = v.len();
    while i < n
        invariant
            i <= n,
            n == v@.len(),
            copy@ == v@.take(i as int),
        decreases n - i,
    {
        copy.push(v[i]);
        proof {
            assert(copy@ =~= v@.take(i + 1));
        }
        i = i + 1;
    }
    proof {
        assert(copy@ =~= v@);
    }
    copy
}

impl Orchestrator {
    /// Start the orchestrator: the boot sweep plays as a timed override for
    /// half a second from `now`, at full brightness, on scene 0.
    pub fn new(patterns: &Patterns, seed: u64, now: u64) -> (r: Self)
        requires
            patterns.wf(),
            now <= MAX_TIME_MS,
        ensures
            r.wf(),
            r.boot_animation.effect is Animation,
            (r.boot_animation.effect)->Animation_0@ == crate::scenes::spec_boot_animation(),
            (r.boot_animation.effect)->Animation_1 == 20000u32,
            r.boot_animation.color == ColorPalette::Rainbow(1000u32),
            r.boot_animation.pattern_shaders@ == seq![FragmentShader::LowPassWithPeak(50u32)],
            r.boot_animation.screen_shaders@.len() == 0,
            r.boot_animation.time_offset == 0,
            r.working_mode is SpecialTimeout,
            (r.working_mode->SpecialTimeout_0).spec_eq(r.boot_animation),
            r.working_mode->SpecialTimeout_1 == now + 500,
            r.scene_id == 0,
            r.out_power == OutputPower::High,
            !r.is_transmitting,
            r.time_offset == 0,
            r.midi_framebuffer@ == Seq::new(9, |i: int| LedPixel::spec_black()),
            r.renderman.font@ == crate::scenes::spec_font(),
            r.renderman.mtrx.corrected_gain == 1000,
            r.renderman.mtrx.raw_gain == 1000,
            r.renderman.mtrx.raw_framebuffer@ == Seq::new(9, |i: int| LedPixel::spec_black()),
            r.renderman.persistent_data.frame_counter == 0,
            r.renderman.persistent_data.lowpass@ == Seq::new(9, |i: int| LedPixel::spec_black()),
    {
        let mut boot_shaders: Vec<FragmentShader> = Vec::new();
        boot_shaders.push(FragmentShader::LowPassWithPeak(50));
        let speed: u32 = (patterns.boot_animation.len() as u32) * 2000;
        let boot_animation = RenderCommand {
            effect: Pattern::Animation(crate::effects::duplicate_masks(&patterns.boot_animation), speed),
            color: ColorPalette::Rainbow(1000),
            pattern_shaders: boot_shaders,
            screen_shaders: Vec::new(),
            time_offset: 0,
        };
        let working_mode = WorkingMode::SpecialTimeout(boot_animation.duplicate(), now + 500);
        let font = crate::effects::duplicate_masks(&patterns.font);
        Orchestrator {
            renderman: RenderManager::new(font, seed),
            working_mode,
            scene_id: 0,
            out_power: OutputPower::High,
            is_transmitting: false,
            time_offset: 0,
            midi_framebuffer: RawFramebuffer::new(),
            boot_animation,
        }
    }

    /// One pass of the render loop at absolute time `now`, dispatching at
    /// most one drained bus event.
    pub fn tick(&mut self, now: u64, msg: Option<TaskCommand>, scenes: &Scenes, patterns: &Patterns)
        -> (out: TickOutput)
        requires
            old(self).wf(),
            spec_scenes_wf(scenes@),
            old(self).scene_id < scenes@.len(),
            old(self).time_offset <= now,
            now <= MAX_TIME_MS,
            msg is Some ==> msg->0.wf(),
        ensures
            final(self).wf(),
            final(self).scene_id < scenes@.len(),
            final(self).time_offset <= now,
            spec_tick_rel(*old(self), now, msg, scenes@, *patterns, *final(self),
                out.publishes@, out.white_led, out.frame@),
            forall|i: int| 0 <= i < out.publishes@.len() ==> (#[trigger] out.publishes@[i]).wf(),
    {
        let t = now - self.time_offset;

        let gain = self.out_power.gain();
        self.renderman.mtrx.set_gain(gain);
        let ghost st1 = *self;

        let mut publishes: Vec<TaskCommand> = Vec::new();
        let mut led: Option<WhiteLedCommand> = None;
        match msg {
            Option::Some(m) => {
                let (p, l) = self.handle_message(m, now, t, scenes.len(), patterns);
                publishes = p;
                led = l;
            },
            Option::None => {},
        }
        let ghost st2 = *self;

        let mut expire = false;
        match &self.working_mode {
            WorkingMode::Normal => {
                let scene = &scenes[self.scene_id];
                self.renderman.render(scene.as_slice(), t);
            },
            WorkingMode::Special(c) => {
                let mut tmp: Vec<RenderCommand> = Vec::new();
                tmp.push(c.duplicate());
                proof {
                    assert(crate::effects::spec_scene_wf(tmp@));
                }
                self.renderman.render(tmp.as_slice(), t);
                proof {
                    assert(tmp@ =~= seq![tmp@[0]]);
                }
            },
            WorkingMode::SpecialTimeout(c, d) => {
                let deadline: u64 = *d;
                let mut tmp: Vec<RenderCommand> = Vec::new();
                tmp.push(c.duplicate());
                proof {
                    assert(crate::effects::spec_scene_wf(tmp@));
                }
                self.renderman.render(tmp.as_slice(), t);
                proof {
                    assert(tmp@ =~= seq![tmp@[0]]);
                }
                if t > deadline {
                    expire = true;
                }
            },
            WorkingMode::RawFramebuffer(fb) => {
                let copy = fb.duplicate();
                self.renderman.mtrx.raw_framebuffer = copy;
            },
        }
        if expire {
            self.working_mode = WorkingMode::Normal;
        }
        let ghost st3 = *self;

        let frame_ref = self.renderman.mtrx.get_gamma_corrected();
        let frame = pixels_from_vec(frame_ref);
        self.renderman.mtrx.clear();

        proof {
            assert(spec_with_gain(*old(self), st1));
            assert(spec_render_phase(st2, t as int, scenes@, st3));
            assert(spec_output_phase(st3, *self, frame@));
        }

        TickOutput { publishes, white_led: led, frame }
    }
}


/// A timed override holds the screen while the render clock has not passed
/// its deadline, and the first tick after that falls back to the normal
/// mode; the override layer itself is what that tick draws either way.
pub proof fn lemma_special_timeout_expiry(pre: Orchestrator, t: int, scenes: Seq<Scene>, post: Orchestrator, c: RenderCommand, d: u64)
    requires
        pre.working_mode == WorkingMode::SpecialTimeout(c, d),
        spec_render_phase(pre, t, scenes, post),
    ensures
        t <= d ==> post.working_mode == pre.working_mode,
        t > d ==> post.working_mode is Normal,
        exists|c2: RenderCommand| #[trigger] c2.spec_eq(c) && spec_render_rel(seq![c2], 0, 1,
            t, pre.renderman.font@, pre.renderman.render_state(), post.renderman.render_state()),
{
}

} // verus!

verus! {

/// The raw-framebuffer mode is sticky: neither brightness event moves the
/// orchestrator out of it, so an externally driven frame cannot be
/// disturbed by the brightness indicator.
pub proof fn lemma_raw_framebuffer_sticky(
    pre: Orchestrator,
    msg: TaskCommand,
    now: u64,
    t: int,
    nscenes: int,
    patterns: Patterns,
    post: Orchestrator,
    publishes: Seq<TaskCommand>,
    led: Option<WhiteLedCommand>,
)
    requires
        pre.working_mode is RawFramebuffer,
        msg is IncreaseBrightness || msg is DecreaseBrightness,
        spec_handle(pre, msg, now, t, nscenes, patterns, post, publishes, led),
    ensures
        post.working_mode == pre.working_mode,
{
}

} // verus!

verus! {

/// The USB HID usage ID a key request carries in its keyboard report.
pub open spec fn spec_hid_usage_code(k: HidKey) -> u8 {
    match k {
        HidKey::VolumeUp => 0x80u8,
        HidKey::VolumeDown => 0x81u8,
        HidKey::RightArrow => 0x4Fu8,
        HidKey::LeftArrow => 0x50u8,
        HidKey::UpArrow => 0x52u8,
        HidKey::DownArrow => 0x51u8,
        HidKey::Escape => 0x29u8,
        HidKey::Enter => 0x28u8,
        HidKey::Digit1 => 0x1Eu8,
        HidKey::Digit2 => 0x1Fu8,
        HidKey::Digit3 => 0x20u8,
        HidKey::Digit4 => 0x21u8,
        HidKey::Digit5 => 0x22u8,
        HidKey::Digit6 => 0x23u8,
        HidKey::Digit7 => 0x24u8,
        HidKey::Digit8 => 0x25u8,
        HidKey::Digit9 => 0x26u8,
        HidKey::Mute => 0x7Fu8,
    }
}

/// The standard keyboard-page usage ID of a key.
pub fn hid_usage_code(k: HidKey) -> (r: u8)
    ensures
        r == spec_hid_usage_code(k),
{
    match k {
        HidKey::VolumeUp => 0x80,
        HidKey::VolumeDown => 0x81,
        HidKey::RightArrow => 0x4F,
        HidKey::LeftArrow => 0x50,
        HidKey::UpArrow => 0x52,
        HidKey::DownArrow => 0x51,
        HidKey::Escape => 0x29,
        HidKey::Enter => 0x28,
        HidKey::Digit1 => 0x1E,
        HidKey::Digit2 => 0x1F,
        HidKey::Digit3 => 0x20,
        HidKey::Digit4 => 0x21,
        HidKey::Digit5 => 0x22,
        HidKey::Digit6 => 0x23,
        HidKey::Digit7 => 0x24,
        HidKey::Digit8 => 0x25,
        HidKey::Digit9 => 0x26,
        HidKey::Mute => 0x7F,
    }
}

/// The two keyboard reports that type one requested key: the key pressed
/// alone, then after the hold time every key released.
pub fn hid_report_plan(k: HidKey) -> (r: (Vec<u8>, Vec<u8>, u64))
    ensures
        r.0@ == seq![spec_hid_usage_code(k), 0u8, 0u8, 0u8, 0u8, 0u8],
        r.1@ == seq![0u8, 0u8, 0u8, 0u8, 0u8, 0u8],
        r.2 == 100,
{
    let mut press: Vec<u8> = Vec::new();
    press.push(hid_usage_code(k));
    press.push(0);
    press.push(0);
    press.push(0);
    press.push(0);
    press.push(0);
    let release: Vec<u8> = vec![0u8; 6];
    proof {
        assert(press@ =~= seq![spec_hid_usage_code(k), 0u8, 0u8, 0u8, 0u8, 0u8]);
        assert(release@ =~= seq![0u8, 0u8, 0u8, 0u8, 0u8, 0u8]);
    }
    (press, release, 100)
}

} // verus!
