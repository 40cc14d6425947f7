use minibadge::irtx::{ir_done_commands, ir_step_action, IrBlaster, IrStatus, IrTxAction};
use minibadge::orchestrator::{
    hid_report_plan, hid_usage_code, HidKey, TaskCommand, WhiteLedCommand, WorkingMode,
};
use minibadge::pixel::LedPixel;
use minibadge::scenes::patterns;
use minibadge::wire::{
    hex_color_to_rgb, led_ctrl_messages, midi_demo, midi_note_to_pixel, torch_commands,
    usb_rx_step, white_led_plan, wire_command, DecodeOutcome, MidiError, MidiEvent, WireMessage,
};

#[test]
fn wire_framebuffer_becomes_a_sticky_raw_mode() {
    let mut pixels = Vec::new();
    for i in 0..9u8 {
        pixels.push(LedPixel::rgb(i, 2 * i, 3 * i));
    }
    let cmd = wire_command(WireMessage::SetFrameBuffer(pixels));
    match cmd {
        TaskCommand::SetWorkingMode(WorkingMode::RawFramebuffer(fb)) => {
            // pixel i lands at cell (i % 3, i / 3)
            assert_eq!(fb.get_pixel(1, 0), LedPixel::rgb(1, 2, 3));
            assert_eq!(fb.get_pixel(2, 2), LedPixel::rgb(8, 16, 24));
        },
        _ => panic!("expected a raw-framebuffer mode"),
    }
}

#[test]
fn wire_solid_color_becomes_an_untimed_override() {
    let cmd = wire_command(WireMessage::SetSolidColor(LedPixel::rgb(7, 8, 9)));
    match cmd {
        TaskCommand::SetWorkingMode(WorkingMode::Special(layer)) => {
            assert!(matches!(layer.effect, minibadge::effects::Pattern::Simple(0b111111111)));
            match layer.color {
                minibadge::effects::ColorPalette::Solid(c) => assert_eq!(c, LedPixel::rgb(7, 8, 9)),
                _ => panic!("expected a solid colour"),
            }
        },
        _ => panic!("expected an override mode"),
    }
}

#[test]
fn wire_nec_request_and_null() {
    assert!(matches!(
        wire_command(WireMessage::SendNecCommand(1, 2, true)),
        TaskCommand::SendIrNec(1, 2, true)
    ));
    assert!(matches!(wire_command(WireMessage::Null), TaskCommand::Nop));
}

#[test]
fn usb_buffering_policy() {
    // a whole message clears the buffer and publishes it plus activity
    let (clear, cmds) = usb_rx_step(DecodeOutcome::Decoded(WireMessage::Null));
    assert!(clear);
    assert_eq!(cmds.len(), 2);
    assert!(matches!(cmds[0], TaskCommand::Nop));
    assert!(matches!(cmds[1], TaskCommand::UsbActivity));
    // an incomplete message keeps buffering
    let (clear2, cmds2) = usb_rx_step(DecodeOutcome::Incomplete);
    assert!(!clear2);
    assert!(cmds2.is_empty());
    // garbage clears the buffer and raises the error signal
    let (clear3, cmds3) = usb_rx_step(DecodeOutcome::Malformed);
    assert!(clear3);
    assert_eq!(cmds3.len(), 1);
    assert!(matches!(cmds3[0], TaskCommand::Error));
}

#[test]
fn midi_notes_map_to_mirrored_pixels() {
    // key 0: pixel 0, red channel, x mirrored to the right column
    assert_eq!(midi_note_to_pixel(0, 64), Some((2, 0, 0, 128)));
    // key 4: pixel 1, green channel
    assert_eq!(midi_note_to_pixel(4, 127), Some((1, 0, 1, 254)));
    // key 26: the last cell's blue channel
    assert_eq!(midi_note_to_pixel(26, 1), Some((0, 2, 2, 2)));
    // keys past the grid are dropped
    assert_eq!(midi_note_to_pixel(27, 1), None);
    assert_eq!(midi_note_to_pixel(127, 1), None);
}

#[test]
fn midi_event_queries() {
    let e = MidiEvent::new(9, true);
    assert!(e.key_pressed(9));
    assert!(!e.key_released(9));
    assert!(!e.key_pressed(8));
    let r = MidiEvent::new(9, false);
    assert!(r.key_released(9));
    assert!(!r.key_pressed(9));
}

#[test]
fn led_ctrl_messages_spell_out_three_notes() {
    let msgs = led_ctrl_messages(1, 2, 10, 20, 30).unwrap();
    // button (y + 3x) * 3 = 15
    assert_eq!(msgs, vec![(0x90, 15, 10), (0x90, 16, 20), (0x90, 17, 30)]);
    assert_eq!(led_ctrl_messages(0, 0, 128, 0, 0), Err(MidiError::ColorOutOfRange));
}

#[test]
fn midi_demo_sweep() {
    let plan = midi_demo();
    assert_eq!(plan.len(), 10);
    assert_eq!(plan[0], (0, 0, 0, 0, 0));
    assert_eq!(plan[5], (1, 2, 42, 84, 0));
    assert_eq!(plan[9], (1, 1, 0, 0, 127));
}

#[test]
fn hex_colors_parse_with_or_without_the_hash() {
    assert_eq!(hex_color_to_rgb(b"#ff8000"), Some(LedPixel::rgb(255, 128, 0)));
    assert_eq!(hex_color_to_rgb(b"00Ff00"), Some(LedPixel::rgb(0, 255, 0)));
    assert_eq!(hex_color_to_rgb(b"#ff80"), None);
    assert_eq!(hex_color_to_rgb(b"zzzzzz"), None);
    assert_eq!(hex_color_to_rgb(b""), None);
}

#[test]
fn status_led_plans() {
    let comm = white_led_plan(WhiteLedCommand::Communication);
    assert_eq!(comm, vec![(true, 200), (false, 200)]);
    let err = white_led_plan(WhiteLedCommand::Error);
    assert_eq!(err.len(), 8);
    assert!(err.iter().enumerate().all(|(i, e)| *e == (i % 2 == 0, 50)));
}

#[test]
fn torch_startup_turns_everything_on() {
    let p = patterns();
    let cmds = torch_commands(&p);
    assert_eq!(cmds.len(), 2);
    assert!(matches!(
        &cmds[0],
        TaskCommand::SetWorkingMode(WorkingMode::Special(_))
    ));
    assert!(matches!(
        cmds[1],
        TaskCommand::SetBrightness(minibadge::orchestrator::OutputPower::High)
    ));
}

#[test]
fn ir_step_actions_follow_the_status() {
    assert_eq!(ir_step_action(IrStatus::Transmit(true)), IrTxAction::SetCarrier(true));
    assert_eq!(ir_step_action(IrStatus::Transmit(false)), IrTxAction::SetCarrier(false));
    assert_eq!(ir_step_action(IrStatus::Idle), IrTxAction::Stop { error: false });
    assert_eq!(ir_step_action(IrStatus::Error), IrTxAction::Stop { error: true });
}

#[test]
fn ir_done_reports() {
    let ok = ir_done_commands(false);
    assert_eq!(ok.len(), 1);
    assert!(matches!(ok[0], TaskCommand::IrTxDone));
    let bad = ir_done_commands(true);
    assert_eq!(bad.len(), 2);
    assert!(matches!(bad[0], TaskCommand::Error));
    assert!(matches!(bad[1], TaskCommand::IrTxDone));
}

#[test]
fn ir_blaster_transmits_a_whole_nec_frame() {
    let mut b = IrBlaster::new();
    b.start(0, 66, false);
    let mut edges = 0u32;
    let mut steps = 0u32;
    loop {
        match b.step() {
            IrTxAction::SetCarrier(_) => {
                edges += 1;
            },
            IrTxAction::Stop { error } => {
                assert!(!error);
                break;
            },
        }
        steps += 1;
        assert!(steps < 10_000_000, "transmission never ended");
    }
    // an NEC frame drives tens of carrier edges through the pulse train
    assert!(edges >= 60, "only {} edges", edges);
}

#[test]
fn hid_reports_press_then_release() {
    assert_eq!(hid_usage_code(HidKey::VolumeUp), 0x80);
    assert_eq!(hid_usage_code(HidKey::Enter), 0x28);
    assert_eq!(hid_usage_code(HidKey::Digit9), 0x26);
    let (press, release, hold) = hid_report_plan(HidKey::Escape);
    assert_eq!(press, vec![0x29, 0, 0, 0, 0, 0]);
    assert_eq!(release, vec![0, 0, 0, 0, 0, 0]);
    assert_eq!(hold, 100);
}
