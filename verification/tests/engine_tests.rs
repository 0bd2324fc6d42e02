use dotstar::color::Color;
use dotstar::engine::Engine;
use dotstar::patterns::DotStar_Pulse;
use dotstar::{NUM_MODES, NUM_PX};

#[test]
fn mode_advances_once_per_rising_edge() {
    // Mode 1 at start; readings [n, p, p, n, p] give modes [1, 2, 2, 2, 3].
    let mut engine = Engine::new(false);
    assert_eq!(engine.mode(), 1);
    let readings = [false, true, true, false, true];
    let expected_modes = [1, 2, 2, 2, 3];
    let mut last_frame = Vec::new();
    for (reading, expected) in readings.iter().zip(expected_modes.iter()) {
        last_frame = engine.tick(*reading);
        assert_eq!(engine.mode(), *expected);
    }
    // Mode 3 is the pulse; every generator advanced on every tick, so
    // the frame equals a pulse run for the same number of ticks.
    let mut pulse = DotStar_Pulse::new(Color::new(50, 0, 50));
    let mut pulse_frame = Vec::new();
    for _ in 0..readings.len() {
        pulse_frame = pulse.next().unwrap();
    }
    assert_eq!(last_frame, pulse_frame);
}

#[test]
fn mode_wraps_to_zero() {
    let mut engine = Engine::new(false);
    // Five rising edges from mode 1 wrap through 5 to 0.
    for expected in [2, 3, 4, 5, 0, 1] {
        engine.tick(true);
        assert_eq!(engine.mode(), expected);
        engine.tick(false);
        assert_eq!(engine.mode(), expected);
    }
}

#[test]
fn sustained_press_advances_only_once() {
    let mut engine = Engine::new(false);
    for _ in 0..50 {
        engine.tick(true);
        assert_eq!(engine.mode(), 2);
    }
    // A falling edge changes nothing either.
    engine.tick(false);
    assert_eq!(engine.mode(), 2);
}

#[test]
fn initial_pressed_reading_is_no_edge() {
    // The reading taken before the loop counts as the previous level,
    // so a button already held at start does not advance the mode.
    let mut engine = Engine::new(true);
    engine.tick(true);
    assert_eq!(engine.mode(), 1);
    engine.tick(false);
    engine.tick(true);
    assert_eq!(engine.mode(), 2);
}

#[test]
fn frames_follow_the_selected_mode() {
    let mut engine = Engine::new(false);
    // Mode 1: static white.
    let frame = engine.tick(false);
    assert_eq!(frame.len(), NUM_PX);
    assert!(frame.iter().all(|px| *px == Color::new(255, 255, 255)));
    // Mode 2: static red.
    let frame = engine.tick(true);
    assert!(frame.iter().all(|px| *px == Color::new(255, 0, 0)));
    engine.tick(false);
    // Mode 3: the pulse, uniform with green 0 and blue = red + 10.
    let frame = engine.tick(true);
    assert!(frame.iter().all(|px| *px == frame[0]));
    assert_eq!(frame[0].g, 0);
    assert_eq!(frame[0].b, frame[0].r + 10);
    engine.tick(false);
    // Mode 4: the wheel, uniform and dimmed.
    let frame = engine.tick(true);
    assert!(frame.iter().all(|px| *px == frame[0]));
    engine.tick(false);
    // Mode 5: the beacon, one blue pixel.
    let frame = engine.tick(true);
    let lit: Vec<usize> = frame
        .iter()
        .enumerate()
        .filter(|(_, px)| **px != Color::black())
        .map(|(i, _)| i)
        .collect();
    assert_eq!(lit.len(), 1);
    assert_eq!(frame[lit[0]], Color::new(0, 0, 255));
    engine.tick(false);
    // Mode 0: off, all black.
    let frame = engine.tick(true);
    assert!(frame.iter().all(|px| *px == Color::black()));
}

#[test]
fn every_frame_has_strip_length() {
    let mut engine = Engine::new(false);
    for t in 0..(NUM_MODES as u32 * 40) {
        let pressed = t % 3 == 1;
        let frame = engine.tick(pressed);
        assert_eq!(frame.len(), NUM_PX);
    }
}
