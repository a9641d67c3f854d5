//! Actuation tests: the overwrite mailbox, the runner behaviors and their
//! dirty flags, the rendered frames, and the scheduler's decisions.
use rswave_core::color::Rgb;
use rswave_core::controller::{LedController, MemoryController, SingleZoneController};
use rswave_core::mailbox::{ControlMessage, Mailbox};
use rswave_core::runners::{
    distant_hue, novelty_exceeds, EpilepsyRunner, NoopRunner, RunnerEnum, SimpleBeatRunner,
    StandbyRunner, WhiteRunner, FULL_BRIGHTNESS_MILLI, INTENSE_BRIGHTNESS_FLOOR_MILLI,
};
use rswave_core::scheduler::{sleep_duration_ms, RunnerHost};
use rswave_core::{LedMode, LedStripType};

fn circular_distance(a: u8, b: u8) -> u32 {
    let d = (a as i32 - b as i32).unsigned_abs();
    d.min(256 - d)
}

#[test]
fn mailbox_latest_wins() {
    let mut mailbox = Mailbox::new();
    mailbox.update(ControlMessage::Standby);
    mailbox.update(ControlMessage::Analysis { novelty: (0.5f64).to_bits(), is_beat: true });
    assert_eq!(
        mailbox.take_latest(),
        ControlMessage::Analysis { novelty: (0.5f64).to_bits(), is_beat: true }
    );
    assert_eq!(mailbox.take_latest(), ControlMessage::Noop);
}

#[test]
fn fresh_mailbox_is_empty() {
    let mut mailbox = Mailbox::new();
    assert_eq!(mailbox.take_latest(), ControlMessage::Noop);
}

#[test]
fn noop_runner_is_never_dirty_and_never_draws() {
    let mut host = RunnerHost::new(1000, false);
    let mut controller = MemoryController::new(8);
    for _ in 0..5 {
        let outcome = host.tick(ControlMessage::Noop, 50, &mut controller);
        assert!(!outcome.exit);
        assert!(!outcome.drew);
        assert_eq!(outcome.hardware, Ok(()));
    }
    // The dirty flag was false every tick, so the hardware saw no
    // transaction at all.
    assert_eq!(controller.commits_so_far(), 0);
}

#[test]
fn standby_runner_is_always_dirty() {
    let mut runner = RunnerEnum::StandbyRunner(StandbyRunner::new(1000, false));
    for _ in 0..5 {
        assert!(runner.run_once(50));
    }
}

#[test]
fn standby_hue_rotation_exact() {
    // 1.0 cycles/second at 100 ms per tick advances the hue by
    // 100 * 1000 * 255 / 1_000_000 = 25 points.
    let mut runner = RunnerEnum::StandbyRunner(StandbyRunner::new(1000, false));
    runner.run_once(100);
    match runner {
        RunnerEnum::StandbyRunner(s) => assert_eq!(s.hue, 25),
        _ => unreachable!(),
    }
    // A huge tick saturates at one full wheel step.
    let mut runner = RunnerEnum::StandbyRunner(StandbyRunner::new(1000, false));
    runner.run_once(1_000_000);
    match runner {
        RunnerEnum::StandbyRunner(s) => assert_eq!(s.hue, 255),
        _ => unreachable!(),
    }
}

#[test]
fn white_runner_beat_and_decay() {
    let mut runner = RunnerEnum::WhiteRunner(WhiteRunner::new());
    runner.beat();
    match runner {
        RunnerEnum::WhiteRunner(w) => assert_eq!(w.value_milli, FULL_BRIGHTNESS_MILLI),
        _ => unreachable!(),
    }
    // 100 ms at 500 milli-units/ms takes 50_000 off.
    assert!(runner.run_once(100));
    match runner {
        RunnerEnum::WhiteRunner(w) => assert_eq!(w.value_milli, 205_000),
        _ => unreachable!(),
    }
    // Decay floors at zero.
    assert!(runner.run_once(1_000_000));
    match runner {
        RunnerEnum::WhiteRunner(w) => assert_eq!(w.value_milli, 0),
        _ => unreachable!(),
    }
}

#[test]
fn simple_beat_runner_dirty_flag() {
    let mut runner = RunnerEnum::SimpleBeatRunner(SimpleBeatRunner::new());
    // Dirty once after creation, then idle until the next beat.
    assert!(runner.run_once(50));
    assert!(!runner.run_once(50));
    runner.beat();
    assert!(runner.run_once(50));
    assert!(!runner.run_once(50));
}

#[test]
fn simple_beat_hue_jumps_far() {
    let mut runner = RunnerEnum::SimpleBeatRunner(SimpleBeatRunner::new());
    for _ in 0..64 {
        let before = match runner {
            RunnerEnum::SimpleBeatRunner(b) => b.hue,
            _ => unreachable!(),
        };
        runner.beat();
        let after = match runner {
            RunnerEnum::SimpleBeatRunner(b) => b.hue,
            _ => unreachable!(),
        };
        assert!(circular_distance(after, before) >= 51);
    }
}

#[test]
fn distant_hue_respects_minimum_distance() {
    for cur in [0u8, 10, 127, 200, 255] {
        for roll in 0..=255u8 {
            let fresh = distant_hue(cur, 51, roll);
            assert!(circular_distance(fresh, cur) >= 51);
            let fresh = distant_hue(cur, 25, roll);
            assert!(circular_distance(fresh, cur) >= 25);
        }
    }
}

#[test]
fn novelty_threshold_on_bit_patterns() {
    assert!(novelty_exceeds((0.4f64).to_bits()));
    assert!(novelty_exceeds((100.0f64).to_bits()));
    assert!(!novelty_exceeds((0.3f64).to_bits()));
    assert!(!novelty_exceeds((0.2f64).to_bits()));
    assert!(!novelty_exceeds((0.0f64).to_bits()));
    // Negative samples never exceed the threshold.
    assert!(!novelty_exceeds((-1.0f64).to_bits()));
}

#[test]
fn intense_runner_brightness_cycle() {
    let mut runner = RunnerEnum::EpilepsyRunner(EpilepsyRunner::new());
    // 100 ms of decay at 382.5 milli-units/ms.
    assert!(runner.run_once(100));
    match runner {
        RunnerEnum::EpilepsyRunner(e) => assert_eq!(e.brightness_milli, 255_000 - 38_250),
        _ => unreachable!(),
    }
    // Decay floors at the configured minimum.
    assert!(runner.run_once(1_000_000));
    match runner {
        RunnerEnum::EpilepsyRunner(e) => {
            assert_eq!(e.brightness_milli, INTENSE_BRIGHTNESS_FLOOR_MILLI)
        }
        _ => unreachable!(),
    }
    // A beat snaps brightness back to maximum.
    runner.beat();
    match runner {
        RunnerEnum::EpilepsyRunner(e) => assert_eq!(e.brightness_milli, FULL_BRIGHTNESS_MILLI),
        _ => unreachable!(),
    }
}

#[test]
fn intense_runner_novelty_rerandomizes_hue() {
    let mut runner = RunnerEnum::EpilepsyRunner(EpilepsyRunner::new());
    let before = match runner {
        RunnerEnum::EpilepsyRunner(e) => e.hue,
        _ => unreachable!(),
    };
    // Below the threshold: nothing moves.
    runner.novelty((0.2f64).to_bits());
    match runner {
        RunnerEnum::EpilepsyRunner(e) => assert_eq!(e.hue, before),
        _ => unreachable!(),
    }
    // Above it: the hue jumps at least the minimum distance.
    runner.novelty((0.9f64).to_bits());
    match runner {
        RunnerEnum::EpilepsyRunner(e) => {
            assert!(circular_distance(e.hue, before) >= 25);
            assert_eq!(e.brightness_milli, FULL_BRIGHTNESS_MILLI);
        }
        _ => unreachable!(),
    }
}

/// Expected colors of cichlid's rainbow conversion at full saturation and
/// value, for the hues the sweep tests land on.
fn rainbow_at(hue: u8) -> Rgb {
    match hue {
        0 => Rgb { r: 255, g: 0, b: 0 },
        42 => Rgb { r: 171, g: 111, b: 0 },
        63 => Rgb { r: 171, g: 168, b: 0 },
        127 => Rgb { r: 0, g: 172, b: 83 },
        191 => Rgb { r: 83, g: 0, b: 172 },
        _ => panic!("no recorded expectation for hue {}", hue),
    }
}

#[test]
fn standby_display_sweeps_the_strip() {
    let runner = RunnerEnum::StandbyRunner(StandbyRunner::new(1000, false));
    let mut controller = MemoryController::new(4);
    assert_eq!(runner.display(&mut controller), Ok(()));
    assert_eq!(controller.commits_so_far(), 1);
    // Pixel i carries hue (i * 255) / 4 of the wheel.
    for (i, hue) in [(0usize, 0u8), (1, 63), (2, 127), (3, 191)] {
        assert_eq!(controller.color_at(i), rainbow_at(hue));
    }
}

#[test]
fn standby_display_reversed() {
    let runner = RunnerEnum::StandbyRunner(StandbyRunner {
        hue: 0,
        speed_milli: 1000,
        reverse: true,
    });
    let mut controller = MemoryController::new(4);
    assert_eq!(runner.display(&mut controller), Ok(()));
    for (i, hue) in [(0usize, 191u8), (1, 127), (2, 63), (3, 0)] {
        assert_eq!(controller.color_at(i), rainbow_at(hue));
    }
}

#[test]
fn standby_display_on_single_fixture() {
    let runner = RunnerEnum::StandbyRunner(StandbyRunner {
        hue: 42,
        speed_milli: 1000,
        reverse: false,
    });
    let mut controller = SingleZoneController::new();
    assert_eq!(runner.display(&mut controller), Ok(()));
    assert_eq!(controller.current_color(), rainbow_at(42));
    assert_eq!(controller.commits_so_far(), 1);
}

#[test]
fn beat_display_stages_solid_rainbow_color() {
    let runner = RunnerEnum::SimpleBeatRunner(SimpleBeatRunner { hue: 0, need_update: true });
    let mut controller = MemoryController::new(3);
    assert_eq!(runner.display(&mut controller), Ok(()));
    for i in 0..3 {
        assert_eq!(controller.color_at(i), rainbow_at(0));
    }
}

#[test]
fn white_display_stages_grey() {
    let runner = RunnerEnum::WhiteRunner(WhiteRunner { value_milli: 205_000 });
    let mut controller = MemoryController::new(3);
    assert_eq!(runner.display(&mut controller), Ok(()));
    for i in 0..3 {
        assert_eq!(controller.color_at(i), Rgb { r: 205, g: 205, b: 205 });
    }
}

#[test]
fn intense_display_uses_spectrum() {
    let runner = RunnerEnum::EpilepsyRunner(EpilepsyRunner {
        hue: 100,
        brightness_milli: 180_000,
    });
    let mut controller = MemoryController::new(2);
    assert_eq!(runner.display(&mut controller), Ok(()));
    // cichlid's spectrum conversion of hue 100 at brightness 180.
    for i in 0..2 {
        assert_eq!(controller.color_at(i), Rgb { r: 75, g: 0, b: 56 });
    }
}

#[test]
fn scheduler_replaces_runner_on_control_messages() {
    let mut host = RunnerHost::new(2000, true);
    assert!(matches!(host.runner, RunnerEnum::NoopRunner(NoopRunner)));

    let mut controller = MemoryController::new(2);
    let outcome = host.tick(ControlMessage::Standby, 0, &mut controller);
    assert!(!outcome.exit);
    assert!(outcome.drew);
    match host.runner {
        RunnerEnum::StandbyRunner(s) => {
            assert_eq!(s.speed_milli, 2000);
            assert!(s.reverse);
        }
        _ => panic!("standby message must install the standby runner"),
    }

    let outcome = host.tick(ControlMessage::RandomRunner, 0, &mut controller);
    assert!(outcome.drew);
    assert!(matches!(host.runner, RunnerEnum::EpilepsyRunner(_)));
}

#[test]
fn scheduler_delivers_analysis_into_current_runner() {
    let mut host = RunnerHost::new(1000, false);
    let mut controller = MemoryController::new(2);
    host.tick(ControlMessage::RandomRunner, 0, &mut controller);
    // Let some brightness decay, then a beat snaps it back.
    host.tick(ControlMessage::Noop, 100, &mut controller);
    let outcome = host.tick(
        ControlMessage::Analysis { novelty: (0.1f64).to_bits(), is_beat: true },
        0,
        &mut controller,
    );
    assert!(outcome.drew);
    match host.runner {
        RunnerEnum::EpilepsyRunner(e) => assert_eq!(e.brightness_milli, FULL_BRIGHTNESS_MILLI),
        _ => panic!("analysis must not replace the runner"),
    }
}

#[test]
fn scheduler_exit_message_ends_the_loop() {
    let mut host = RunnerHost::new(1000, false);
    let mut controller = MemoryController::new(2);
    let outcome = host.tick(ControlMessage::Exit, 50, &mut controller);
    assert!(outcome.exit);
    // The runner was left alone: still the no-op runner, nothing drawn.
    assert!(!outcome.drew);
    assert_eq!(controller.commits_so_far(), 0);
}

#[test]
fn sleep_clamp_never_goes_negative() {
    assert_eq!(sleep_duration_ms(50, 10), 40);
    assert_eq!(sleep_duration_ms(50, 50), 0);
    assert_eq!(sleep_duration_ms(50, 60), 0);
    assert_eq!(sleep_duration_ms(0, 0), 0);
    assert_eq!(sleep_duration_ms(u64::MAX, 1), u64::MAX - 1);
}

#[test]
fn controller_reset_blanks_the_strip() {
    let mut controller = MemoryController::new(3);
    controller.set_all(Rgb { r: 9, g: 9, b: 9 });
    assert_eq!(controller.reset(), Ok(()));
    for i in 0..3 {
        assert_eq!(controller.color_at(i), Rgb { r: 0, g: 0, b: 0 });
    }
    assert!(MemoryController::is_addressable_individually());
    assert!(!SingleZoneController::is_addressable_individually());
    assert_eq!(controller.led_amount(), 3);
}

#[test]
fn legacy_mode_tags() {
    assert_eq!(LedMode::from_int(1), Some(LedMode::OnlyColor));
    assert_eq!(LedMode::from_int(2), Some(LedMode::OnlyIntensity));
    assert_eq!(LedMode::from_int(3), Some(LedMode::ColorAndIntensity));
    assert_eq!(LedMode::from_int(0), None);
    assert_eq!(LedMode::from_int(4), None);
    assert_eq!(LedMode::OnlyColor.int_value(), 1);
    assert_eq!(LedMode::OnlyIntensity.int_value(), 2);
    assert_eq!(LedMode::ColorAndIntensity.int_value(), 3);
}

#[test]
fn strip_type_parsing() {
    assert_eq!(LedStripType::parse("ws2811"), Some(LedStripType::Ws2811));
    assert_eq!(LedStripType::parse("WS2811"), Some(LedStripType::Ws2811));
    assert_eq!(LedStripType::parse("ws2812"), None);
    assert_eq!(LedStripType::parse(""), None);
    assert_eq!(LedStripType::parse("ws28111"), None);
}
