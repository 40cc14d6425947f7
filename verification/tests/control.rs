use minibadge::inputs::{temp_millicelsius, thermal_event, thermal_multiplier, ButtonMachine};
use minibadge::orchestrator::{
    Orchestrator, OutputPower, TaskCommand, WhiteLedCommand, WorkingMode,
};
use minibadge::pixel::LedPixel;
use minibadge::scenes::{patterns, scenes, Patterns, Scenes};

fn setup() -> (Patterns, Scenes, Orchestrator) {
    let p = patterns();
    let s = scenes(&p);
    let o = Orchestrator::new(&p, 69420, 0);
    (p, s, o)
}

#[test]
fn power_cycles_with_period_four() {
    for p in [OutputPower::High, OutputPower::Medium, OutputPower::Low, OutputPower::NighMode] {
        assert_eq!(p.increase().increase().increase().increase(), p);
        assert_eq!(p.decrease().decrease().decrease().decrease(), p);
        assert_eq!(p.increase().decrease(), p);
        assert_eq!(p.decrease().increase(), p);
    }
    assert_eq!(OutputPower::High.decrease(), OutputPower::Medium);
    assert_eq!(OutputPower::High.increase(), OutputPower::NighMode);
}

#[test]
fn power_gains_match_the_tiers() {
    assert_eq!(OutputPower::High.gain(), 1000);
    assert_eq!(OutputPower::Medium.gain(), 700);
    assert_eq!(OutputPower::Low.gain(), 500);
    assert_eq!(OutputPower::NighMode.gain(), 250);
}

#[test]
fn button_held_forty_ms_is_bounce() {
    let mut b = ButtonMachine::new();
    assert!(b.step(0, true).is_none());
    assert!(b.step(40, false).is_none());
}

#[test]
fn button_held_half_second_is_one_short_press() {
    let mut b = ButtonMachine::new();
    assert!(b.step(0, true).is_none());
    assert!(b.step(200, true).is_none());
    let e = b.step(500, false);
    assert!(matches!(e, Some(TaskCommand::ShortButtonPress)));
    // and nothing more afterwards
    assert!(b.step(600, false).is_none());
}

#[test]
fn button_held_long_fires_once_at_the_threshold() {
    let mut b = ButtonMachine::new();
    assert!(b.step(0, true).is_none());
    assert!(b.step(999, true).is_none());
    let e = b.step(1000, true);
    assert!(matches!(e, Some(TaskCommand::LongButtonPress)));
    // still held: no repeat
    assert!(b.step(1400, true).is_none());
    // and the release after a long press emits nothing
    assert!(b.step(1500, false).is_none());
}

#[test]
fn thermal_multiplier_matches_the_curve() {
    // at or below 50 C no event is published; the last multiplier stays
    assert!(thermal_multiplier(40_000).is_none());
    assert!(thermal_multiplier(50_000).is_none());
    // just above the threshold the curve is clamped to full drive
    assert_eq!(thermal_multiplier(54_000), Some(1000));
    assert_eq!(thermal_multiplier(55_000), Some(1000));
    // 60 C: exactly half
    assert_eq!(thermal_multiplier(60_000), Some(500));
    // 65 C and beyond: the 0.1 floor, never negative
    assert_eq!(thermal_multiplier(65_000), Some(100));
    assert_eq!(thermal_multiplier(70_000), Some(100));
}

#[test]
fn temperature_conversion_spot_value() {
    // a zero reading sits far below zero degrees
    assert_eq!(temp_millicelsius(0), 27_000 + 706_000_000 / 1721);
    // a room-temperature reading publishes no throttle event
    let t = temp_millicelsius(876);
    assert!(t < 50_000);
    assert!(thermal_event(876).is_none());
}

#[test]
fn boot_override_expires_into_normal_mode() {
    let (p, s, mut o) = setup();
    assert!(matches!(o.working_mode, WorkingMode::SpecialTimeout(_, 500)));
    // before the deadline the override stays
    o.tick(100, None, &s, &p);
    assert!(matches!(o.working_mode, WorkingMode::SpecialTimeout(_, _)));
    // past the deadline the tick falls back to normal
    o.tick(600, None, &s, &p);
    assert!(matches!(o.working_mode, WorkingMode::Normal));
    // and the next tick renders the selected normal scene: the blue glider
    let out = o.tick(700, None, &s, &p);
    // glider 0b010001111: bit 2 is cell (0, 0), flat index 0; bit 4,
    // cell (1, 1), flat 4, is unlit
    assert_eq!(out.frame[0], LedPixel::rgb(0, 0, 255));
    assert_eq!(out.frame[4], LedPixel::black());
}

#[test]
fn next_pattern_steps_scenes_and_cancels_overrides() {
    let (p, s, mut o) = setup();
    o.tick(600, None, &s, &p);
    assert!(matches!(o.working_mode, WorkingMode::Normal));
    assert_eq!(o.scene_id, 0);
    o.tick(700, Some(TaskCommand::NextPattern), &s, &p);
    assert_eq!(o.scene_id, 1);
    // an override is cancelled instead of stepping the scene
    o.tick(800, Some(TaskCommand::SetBrightness(OutputPower::High)), &s, &p);
    o.tick(900, Some(TaskCommand::IncreaseBrightness), &s, &p);
    assert!(matches!(o.working_mode, WorkingMode::SpecialTimeout(_, _)));
    o.tick(1000, Some(TaskCommand::NextPattern), &s, &p);
    assert!(matches!(o.working_mode, WorkingMode::Normal));
    assert_eq!(o.scene_id, 1);
}

#[test]
fn scene_index_wraps_around_the_catalog() {
    let (p, s, mut o) = setup();
    o.tick(600, None, &s, &p);
    for _ in 0..16 {
        o.tick(700, Some(TaskCommand::NextPattern), &s, &p);
    }
    assert_eq!(o.scene_id, 0);
}

#[test]
fn brightness_event_shows_the_power_indicator() {
    let (p, s, mut o) = setup();
    o.tick(600, None, &s, &p);
    o.tick(700, Some(TaskCommand::DecreaseBrightness), &s, &p);
    assert!(matches!(o.out_power, OutputPower::Medium));
    match &o.working_mode {
        WorkingMode::SpecialTimeout(c, d) => {
            assert!(matches!(c.effect, minibadge::effects::Pattern::Simple(m) if m == p.power_75));
            assert_eq!(*d, 700 + 1000);
        },
        _ => panic!("expected the power indicator override"),
    }
}

#[test]
fn thermal_event_sets_the_raw_gain() {
    let (p, s, mut o) = setup();
    o.tick(600, None, &s, &p);
    let out = o.tick(700, Some(TaskCommand::ThermalThrottleMultiplier(500)), &s, &p);
    assert_eq!(o.renderman.mtrx.raw_gain, 500);
    // the blue glider's lit cell is throttled to half after gamma
    assert_eq!(out.frame[0], LedPixel::rgb(0, 0, 127));
}

#[test]
fn ir_commands_map_through_the_fixed_table() {
    let (p, s, mut o) = setup();
    let out = o.tick(600, Some(TaskCommand::ReceivedIrNec(0, 68, false)), &s, &p);
    assert_eq!(out.publishes.len(), 1);
    assert!(matches!(out.publishes[0], TaskCommand::NextPattern));
    assert!(matches!(out.white_led, Some(WhiteLedCommand::Communication)));

    let out2 = o.tick(700, Some(TaskCommand::ReceivedIrNec(0, 70, false)), &s, &p);
    assert!(matches!(out2.publishes[0], TaskCommand::DecreaseBrightness));

    // a television remote key becomes a keyboard request
    let out3 = o.tick(800, Some(TaskCommand::ReceivedIrNec(7, 7, false)), &s, &p);
    assert!(matches!(
        out3.publishes[0],
        TaskCommand::SendHidKeyboard(minibadge::orchestrator::HidKey::VolumeUp)
    ));

    // an unknown code publishes nothing but still blinks the LED
    let out4 = o.tick(900, Some(TaskCommand::ReceivedIrNec(3, 3, false)), &s, &p);
    assert!(out4.publishes.is_empty());
    assert!(matches!(out4.white_led, Some(WhiteLedCommand::Communication)));
}

#[test]
fn peer_hello_replays_the_boot_animation() {
    let (p, s, mut o) = setup();
    let out = o.tick(600, Some(TaskCommand::ReceivedIrNec(0, 66, false)), &s, &p);
    assert_eq!(out.publishes.len(), 2);
    assert!(matches!(out.publishes[0], TaskCommand::ResetTime));
    assert!(matches!(
        &out.publishes[1],
        TaskCommand::SetWorkingMode(WorkingMode::SpecialTimeout(_, 500))
    ));
}

#[test]
fn ir_input_is_ignored_while_transmitting() {
    let (p, s, mut o) = setup();
    o.tick(600, Some(TaskCommand::SendIrNec(0, 66, false)), &s, &p);
    assert!(o.is_transmitting);
    let out = o.tick(700, Some(TaskCommand::ReceivedIrNec(0, 68, false)), &s, &p);
    assert!(out.publishes.is_empty());
    assert!(out.white_led.is_none());
    // completion re-arms reception
    o.tick(800, Some(TaskCommand::IrTxDone), &s, &p);
    assert!(!o.is_transmitting);
    let out2 = o.tick(900, Some(TaskCommand::ReceivedIrNec(0, 68, false)), &s, &p);
    assert_eq!(out2.publishes.len(), 1);
}

#[test]
fn midi_pixels_accumulate_and_stick() {
    let (p, s, mut o) = setup();
    let out = o.tick(600, Some(TaskCommand::MidiSetPixel(1, 1, 0, 200)), &s, &p);
    assert!(matches!(o.working_mode, WorkingMode::RawFramebuffer(_)));
    assert!(matches!(out.white_led, Some(WhiteLedCommand::Communication)));
    assert_eq!(o.midi_framebuffer.get_pixel(1, 1), LedPixel::rgb(200, 0, 0));
    // a second channel of the same pixel merges
    o.tick(700, Some(TaskCommand::MidiSetPixel(1, 1, 2, 40)), &s, &p);
    assert_eq!(o.midi_framebuffer.get_pixel(1, 1), LedPixel::rgb(200, 0, 40));
    // brightness events do not disturb the external framebuffer mode
    o.tick(800, Some(TaskCommand::IncreaseBrightness), &s, &p);
    assert!(matches!(o.working_mode, WorkingMode::RawFramebuffer(_)));
}

#[test]
fn reset_time_moves_the_clock_origin() {
    let (p, s, mut o) = setup();
    o.tick(1000, Some(TaskCommand::ResetTime), &s, &p);
    assert_eq!(o.time_offset, 1000);
}

#[test]
fn button_presses_drive_pattern_and_brightness() {
    let (p, s, mut o) = setup();
    let out = o.tick(600, Some(TaskCommand::ShortButtonPress), &s, &p);
    assert!(matches!(out.publishes[0], TaskCommand::NextPattern));
    let out2 = o.tick(700, Some(TaskCommand::LongButtonPress), &s, &p);
    assert!(matches!(out2.publishes[0], TaskCommand::DecreaseBrightness));
}

#[test]
fn usb_activity_and_errors_reach_the_status_led() {
    let (p, s, mut o) = setup();
    let out = o.tick(600, Some(TaskCommand::UsbActivity), &s, &p);
    assert!(matches!(out.white_led, Some(WhiteLedCommand::Communication)));
    let out2 = o.tick(700, Some(TaskCommand::Error), &s, &p);
    assert!(matches!(out2.white_led, Some(WhiteLedCommand::Error)));
}
