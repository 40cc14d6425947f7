//! The host-facing value logic: mapping decoded wire messages to bus
//! commands, the control channel's buffering policy, the MIDI control
//! surface, and small host-side helpers (hex colours, the status-LED
//! pulse plans, the torch startup).

use vstd::prelude::*;

use crate::matrix::RawFramebuffer;
use crate::orchestrator::TaskCommand;
use crate::orchestrator::WhiteLedCommand;
use crate::orchestrator::WorkingMode;
use crate::pixel::LedPixel;
use crate::scenes::Patterns;

verus! {

/// A decoded wire-protocol message from the host.
#[derive(Debug)]
pub enum WireMessage {
    /// Nine RGB pixels, in reading order: index `i` is cell
    /// `(i % 3, i / 3)`.
    SetFrameBuffer(Vec<LedPixel>),
    SetSolidColor(LedPixel),
    /// Address, command, repeat flag for the IR blaster.
    SendNecCommand(u8, u8, bool),
    Null,
}

impl WireMessage {
    pub open spec fn wf(self) -> bool {
        match self {
            WireMessage::SetFrameBuffer(pixels) => pixels@.len() == 9,
            _ => true,
        }
    }
}

/// The framebuffer a SetFrameBuffer message stands for: pixel `i` lands at
/// flat cell `i`, with the white channel cleared.
pub open spec fn spec_wire_framebuffer(pixels: Seq<LedPixel>) -> Seq<LedPixel> {
    Seq::new(9, |i: int| LedPixel { r: pixels[i].r, g: pixels[i].g, b: pixels[i].b, w: 0 })
}

/// What bus command a decoded wire message drives: an external framebuffer
/// becomes a sticky raw-framebuffer mode, a solid colour an untimed
/// override layer, a NEC request an IR-send command, and the empty message
/// nothing.
pub open spec fn spec_wire_command(msg: WireMessage, cmd: TaskCommand) -> bool {
    match msg {
        WireMessage::SetFrameBuffer(pixels) => {
            &&& cmd is SetWorkingMode
            &&& cmd->SetWorkingMode_0 is RawFramebuffer
            &&& (cmd->SetWorkingMode_0)->RawFramebuffer_0@ == spec_wire_framebuffer(pixels@)
        },
        WireMessage::SetSolidColor(c) => {
            &&& cmd is SetWorkingMode
            &&& cmd->SetWorkingMode_0 is Special
            &&& crate::scenes::spec_solid_layer((cmd->SetWorkingMode_0)->Special_0, 0b111111111u16,
                    LedPixel::spec_rgb(c.r, c.g, c.b))
        },
        WireMessage::SendNecCommand(addr, command, repeat) => cmd == TaskCommand::SendIrNec(addr, command, repeat),
        WireMessage::Null => cmd == TaskCommand::Nop,
    }
}

/// Map one decoded wire message to the bus command it drives.
pub fn wire_command(msg: WireMessage) -> (cmd: TaskCommand)
    requires
        msg.wf(),
    ensures
        spec_wire_command(msg, cmd),
        cmd.wf(),
{
    match msg {
        WireMessage::SetFrameBuffer(pixels) => {
            let mut fb = RawFramebuffer::new();
            let mut i: usize = 0;
            while i < 9
                invariant
                    fb.wf(),
                    i <= 9,
                    pixels@.len() == 9,
                    forall|j: int| 0 <= j < i ==> fb.framebuffer@[j]
                        == (LedPixel { r: pixels@[j].r, g: pixels@[j].g, b: pixels@[j].b, w: 0 }),
                decreases 9 - i,
            {
                let x = i % 3;
                let y = i / 3;
                fb.set_pixel(x, y, pixels[i]);
                proof {
                    assert(crate::matrix::cell_index(x as int, y as int) == i);
                }
                i = i + 1;
            }
            proof {
                assert(fb@ =~= spec_wire_framebuffer(pixels@));
            }
            TaskCommand::SetWorkingMode(WorkingMode::RawFramebuffer(fb))
        },
        WireMessage::SetSolidColor(c) => {
            TaskCommand::SetWorkingMode(WorkingMode::Special(crate::scenes::solid_layer(
                0b111111111, c.r, c.g, c.b)))
        },
        WireMessage::SendNecCommand(addr, command, repeat) => TaskCommand::SendIrNec(addr, command, repeat),
        WireMessage::Null => TaskCommand::Nop,
    }
}

/// What one read of the control channel produced once handed to the
/// decoder.
#[derive(Debug)]
pub enum DecodeOutcome {
    /// A whole message: act on it.
    Decoded(WireMessage),
    /// The buffer ends in the middle of a message: keep buffering.
    Incomplete,
    /// Anything else: the buffer is garbage.
    Malformed,
}

/// The control channel's buffering policy: a decoded message clears the
/// buffer and publishes its command plus a USB-activity note; an
/// incomplete message keeps the buffer; a malformed one clears it and
/// raises the error signal. The first component says whether to clear.
pub fn usb_rx_step(outcome: DecodeOutcome) -> (r: (bool, Vec<TaskCommand>))
    requires
        (outcome matches DecodeOutcome::Decoded(m) ==> m.wf()),
    ensures
        (outcome matches DecodeOutcome::Decoded(m) ==> {
            &&& r.0 == true
            &&& r.1@.len() == 2
            &&& spec_wire_command(m, r.1@[0])
            &&& r.1@[1] == TaskCommand::UsbActivity
        }),
        outcome is Incomplete ==> r.0 == false && r.1@.len() == 0,
        outcome is Malformed ==> r.0 == true && r.1@ == seq![TaskCommand::Error],
        forall|i: int| 0 <= i < r.1@.len() ==> (#[trigger] r.1@[i]).wf(),
    {
    match outcome {
        DecodeOutcome::Decoded(m) => {
            let mut publishes: Vec<TaskCommand> = Vec::new();
            publishes.push(wire_command(m));
            publishes.push(TaskCommand::UsbActivity);
            (true, publishes)
        },
        DecodeOutcome::Incomplete => (false, Vec::new()),
        DecodeOutcome::Malformed => {
            let mut publishes: Vec<TaskCommand> = Vec::new();
            publishes.push(TaskCommand::Error);
            (true, publishes)
        },
    }
}

/// Where a MIDI note-on lands on the grid: key `0..27` maps to pixel
/// `key / 3` (x mirrored so that (0, 0) is top-left) and channel
/// `key % 3`; the 7-bit velocity is doubled to an 8-bit value. Keys of 27
/// and above address no pixel and are dropped.
pub open spec fn spec_midi_note_to_pixel(key: u8, velocity: u8) -> Option<(u8, u8, u8, u8)> {
    if key >= 27 {
        None
    } else {
        let pixel = key / 3;
        let x = pixel % 3;
        let y = pixel / 3;
        let channel = key % 3;
        Some(((2 - x) as u8, y as u8, channel as u8, (2 * velocity) as u8))
    }
}

/// Map one MIDI note-on to the pixel-set request it stands for.
pub fn midi_note_to_pixel(key: u8, velocity: u8) -> (r: Option<(u8, u8, u8, u8)>)
    requires
        velocity <= 127,
    ensures
        r == spec_midi_note_to_pixel(key, velocity),
        key >= 27 <==> r is None,
{
    let pixel = key / 3;
    let x = pixel % 3;
    let y = pixel / 3;
    let channel = key % 3;
    if x >= 3 || y >= 3 {
        return None;
    }
    Some((2 - x, y, channel, velocity * 2))
}

/// One MIDI key event from the control surface.
#[derive(Clone, Copy, PartialEq, Eq, Structural, Debug)]
pub struct MidiEvent {
    pub key: u8,
    pub is_pressed: bool,
}

impl MidiEvent {
    pub fn new(key: u8, pressed: bool) -> (e: Self)
        ensures
            e.key == key,
            e.is_pressed == pressed,
    {
        MidiEvent { key, is_pressed: pressed }
    }

    /// True exactly when this event presses the given key.
    pub fn key_pressed(&self, key: u8) -> (r: bool)
        ensures
            r <==> self.key == key && self.is_pressed,
    {
        self.key == key && self.is_pressed
    }

    /// True exactly when this event releases the given key.
    pub fn key_released(&self, key: u8) -> (r: bool)
        ensures
            r <==> self.key == key && !self.is_pressed,
    {
        self.key == key && !self.is_pressed
    }
}

/// The errors of the MIDI colour control.
#[derive(Clone, Copy, PartialEq, Eq, Structural, Debug)]
pub enum MidiError {
    /// A colour channel above the 7-bit MIDI range.
    ColorOutOfRange,
}

/// The three raw note-on messages that set one pixel's colour on the
/// control surface: the red, green and blue keys of pixel (x, y) in turn.
/// Colour values must fit the 7-bit MIDI range.
pub fn led_ctrl_messages(x: u8, y: u8, red: u8, green: u8, blue: u8)
    -> (r: Result<Vec<(u8, u8, u8)>, MidiError>)
    requires
        x < 3,
        y < 3,
    ensures
        (red > 127 || green > 127 || blue > 127) <==> r is Err,
        r is Err ==> r->Err_0 == MidiError::ColorOutOfRange,
        r is Ok ==> r->Ok_0@ == seq![
            (0x90u8, ((y + 3 * x) * 3) as u8, red),
            (0x90u8, ((y + 3 * x) * 3 + 1) as u8, green),
            (0x90u8, ((y + 3 * x) * 3 + 2) as u8, blue),
        ],
{
    if red > 127 || green > 127 || blue > 127 {
        return Err(MidiError::ColorOutOfRange);
    }
    let button = (y + 3 * x) * 3;
    let mut msgs: Vec<(u8, u8, u8)> = Vec::new();
    msgs.push((0x90, button, red));
    msgs.push((0x90, button + 1, green));
    msgs.push((0x90, button + 2, blue));
    proof {
        assert(msgs@ =~= seq![
            (0x90u8, ((y + 3 * x) * 3) as u8, red),
            (0x90u8, ((y + 3 * x) * 3 + 1) as u8, green),
            (0x90u8, ((y + 3 * x) * 3 + 2) as u8, blue),
        ]);
    }
    Ok(msgs)
}

/// The demo sweep for the MIDI control surface: a red/green ramp over the
/// grid, then the centre pixel blue.
pub fn midi_demo() -> (r: Vec<(u8, u8, u8, u8, u8)>)
    ensures
        r@ == seq![
            (0u8, 0u8, 0u8, 0u8, 0u8),
            (0u8, 1u8, 0u8, 42u8, 0u8),
            (0u8, 2u8, 0u8, 84u8, 0u8),
            (1u8, 0u8, 42u8, 0u8, 0u8),
            (1u8, 1u8, 42u8, 42u8, 0u8),
            (1u8, 2u8, 42u8, 84u8, 0u8),
            (2u8, 0u8, 84u8, 0u8, 0u8),
            (2u8, 1u8, 84u8, 42u8, 0u8),
            (2u8, 2u8, 84u8, 84u8, 0u8),
            (1u8, 1u8, 0u8, 0u8, 127u8),
        ],
{
    let mut plan: Vec<(u8, u8, u8, u8, u8)> = Vec::new();
    let mut x: u8 = 0;
    while x < 3
        invariant
            x <= 3,
            plan@.len() == 3 * x,
            forall|i: int| 0 <= i < plan@.len() ==> #[trigger] plan@[i]
                == ((i / 3) as u8, (i % 3) as u8, ((i / 3) * 127 / 3) as u8, ((i % 3) * 127 / 3) as u8, 0u8),
        decreases 3 - x,
    {
        let mut y: u8 = 0;
        while y < 3
            invariant
                x < 3,
                y <= 3,
                plan@.len() == 3 * x + y,
                forall|i: int| 0 <= i < plan@.len() ==> #[trigger] plan@[i]
                    == ((i / 3) as u8, (i % 3) as u8, ((i / 3) * 127 / 3) as u8, ((i % 3) * 127 / 3) as u8, 0u8),
            decreases 3 - y,
        {
            plan.push((x, y, x * 127 / 3, y * 127 / 3, 0));
            proof {
                assert(plan@.len() - 1 == 3 * x + y);
                assert((3 * x + y) / 3 == x as int && (3 * x + y) % 3 == y as int) by (nonlinear_arith)
                    requires
                        x < 3,
                        y < 3,
                ;
            }
            y = y + 1;
        }
        x = x + 1;
    }
    plan.push((1, 1, 0, 0, 127));
    proof {
        assert(plan@ =~= seq![
            (0u8, 0u8, 0u8, 0u8, 0u8),
            (0u8, 1u8, 0u8, 42u8, 0u8),
            (0u8, 2u8, 0u8, 84u8, 0u8),
            (1u8, 0u8, 42u8, 0u8, 0u8),
            (1u8, 1u8, 42u8, 42u8, 0u8),
            (1u8, 2u8, 42u8, 84u8, 0u8),
            (2u8, 0u8, 84u8, 0u8, 0u8),
            (2u8, 1u8, 84u8, 42u8, 0u8),
            (2u8, 2u8, 84u8, 84u8, 0u8),
            (1u8, 1u8, 0u8, 0u8, 127u8),
        ]);
    }
    plan
}

/// The value of one ASCII hex digit, if it is one.
pub open spec fn spec_hex_digit(b: u8) -> Option<u8> {
    if 48 <= b <= 57 {
        Some((b - 48) as u8)
    } else if 97 <= b <= 102 {
        Some((b - 87) as u8)
    } else if 65 <= b <= 70 {
        Some((b - 55) as u8)
    } else {
        None
    }
}

fn hex_digit(b: u8) -> (r: Option<u8>)
    ensures
        r == spec_hex_digit(b),
{
    if 48 <= b && b <= 57 {
        Some(b - 48)
    } else if 97 <= b && b <= 102 {
        Some(b - 87)
    } else if 65 <= b && b <= 70 {
        Some(b - 55)
    } else {
        None
    }
}

/// A css-style hex colour: an optional leading `#`, then exactly six hex
/// digits, two per channel.
pub open spec fn spec_hex_color(s: Seq<u8>) -> Option<LedPixel> {
    let t = if s.len() > 0 && s[0] == 35 {
        s.skip(1)
    } else {
        s
    };
    if t.len() != 6 {
        None
    } else if spec_hex_digit(t[0]) is None || spec_hex_digit(t[1]) is None
        || spec_hex_digit(t[2]) is None || spec_hex_digit(t[3]) is None
        || spec_hex_digit(t[4]) is None || spec_hex_digit(t[5]) is None {
        None
    } else {
        Some(LedPixel {
            r: (spec_hex_digit(t[0])->0 * 16 + spec_hex_digit(t[1])->0) as u8,
            g: (spec_hex_digit(t[2])->0 * 16 + spec_hex_digit(t[3])->0) as u8,
            b: (spec_hex_digit(t[4])->0 * 16 + spec_hex_digit(t[5])->0) as u8,
            w: 0,
        })
    }
}

/// Parse a css-style hex colour.
pub fn hex_color_to_rgb(s: &[u8]) -> (r: Option<LedPixel>)
    ensures
        r == spec_hex_color(s@),
{
    let start: usize = if s.len() > 0 && s[0] == 35 {
        1
    } else {
        0
    };
    proof {
        if s@.len() > 0 && s@[0] == 35 {
            assert(s@.skip(1).len() == s@.len() - 1);
        }
    }
    if s.len() - start != 6 {
        return None;
    }
    let d0 = hex_digit(s[start]);
    let d1 = hex_digit(s[start + 1]);
    let d2 = hex_digit(s[start + 2]);
    let d3 = hex_digit(s[start + 3]);
    let d4 = hex_digit(s[start + 4]);
    let d5 = hex_digit(s[start + 5]);
    proof {
        let t = if s@.len() > 0 && s@[0] == 35 { s@.skip(1) } else { s@ };
        assert(forall|k: int| 0 <= k < 6 ==> t[k] == s@[k + start]);
    }
    match (d0, d1, d2, d3, d4, d5) {
        (Some(a), Some(b), Some(c), Some(d), Some(e), Some(f)) => {
            Some(LedPixel { r: a * 16 + b, g: c * 16 + d, b: e * 16 + f, w: 0 })
        },
        _ => None,
    }
}

/// The status LED's pulse plan: each entry is a level and how long to hold
/// it, in milliseconds. Communication blinks one slow pulse; an error
/// blinks four fast ones.
pub fn white_led_plan(cmd: WhiteLedCommand) -> (r: Vec<(bool, u64)>)
    ensures
        cmd is Communication ==> r@ == seq![(true, 200u64), (false, 200u64)],
        cmd is Error ==> r@ == seq![
            (true, 50u64), (false, 50u64),
            (true, 50u64), (false, 50u64),
            (true, 50u64), (false, 50u64),
            (true, 50u64), (false, 50u64),
        ],
{
    let mut plan: Vec<(bool, u64)> = Vec::new();
    match cmd {
        WhiteLedCommand::Communication => {
            plan.push((true, 200));
            plan.push((false, 200));
            proof {
                assert(plan@ =~= seq![(true, 200u64), (false, 200u64)]);
            }
        },
        WhiteLedCommand::Error => {
            let mut i: usize = 0;
            while i < 4
                invariant
                    i <= 4,
                    plan@.len() == 2 * i,
                    forall|j: int| 0 <= j < plan@.len() ==> #[trigger] plan@[j]
                        == (if j % 2 == 0 { (true, 50u64) } else { (false, 50u64) }),
                decreases 4 - i,
            {
                plan.push((true, 50));
                plan.push((false, 50));
                i = i + 1;
            }
            proof {
                assert(plan@ =~= seq![
                    (true, 50u64), (false, 50u64),
                    (true, 50u64), (false, 50u64),
                    (true, 50u64), (false, 50u64),
                    (true, 50u64), (false, 50u64),
                ]);
            }
        },
    }
    plan
}

/// Starting with the button already held turns the badge into a torch:
/// full-screen solid white as an untimed override, at full brightness.
pub fn torch_commands(patterns: &Patterns) -> (r: Vec<TaskCommand>)
    requires
        patterns.wf(),
    ensures
        r@.len() == 2,
        r@[0] is SetWorkingMode,
        r@[0]->SetWorkingMode_0 is Special,
        crate::scenes::spec_solid_layer((r@[0]->SetWorkingMode_0)->Special_0, 0b111111111u16,
            LedPixel::spec_rgb(255, 255, 255)),
        r@[1] == TaskCommand::SetBrightness(crate::orchestrator::OutputPower::High),
        forall|i: int| 0 <= i < r@.len() ==> (#[trigger] r@[i]).wf(),
{
    let mut cmds: Vec<TaskCommand> = Vec::new();
    cmds.push(TaskCommand::SetWorkingMode(WorkingMode::Special(
        crate::scenes::solid_layer(patterns.all_on, 255, 255, 255))));
    cmds.push(TaskCommand::SetBrightness(crate::orchestrator::OutputPower::High));
    cmds
}

} // verus!
