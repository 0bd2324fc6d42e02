use dotstar::color::Color;
use dotstar::patterns::{DotStar_Beacon, DotStar_Pulse, DotStar_Static, DotStar_Wheel};
use dotstar::wheel::wheel;
use dotstar::NUM_PX;

#[test]
fn static_buffer_is_uniform_and_fixed() {
    let white = DotStar_Static::new(Color::new(255, 255, 255));
    let list = white.to_list();
    assert_eq!(list.len(), NUM_PX);
    for px in &list {
        assert_eq!(*px, Color::new(255, 255, 255));
    }
    // A second read gives the same buffer: the static pattern never moves.
    assert_eq!(white.to_list(), list);
}

#[test]
fn pulse_counter_ascends_then_descends_then_turns() {
    let mut pulse = DotStar_Pulse::new(Color::new(50, 0, 50));
    // The counter is observable as the red channel of every pixel.
    for t in 1..=200u32 {
        let buf = pulse.next().unwrap();
        assert_eq!(buf[0].r as u32, t, "ascent at tick {}", t);
    }
    // Having reached 200, it must come all the way down to 10...
    for t in 201..=390u32 {
        let buf = pulse.next().unwrap();
        assert_eq!(buf[0].r as u32, 400 - t, "descent at tick {}", t);
    }
    // ...before ascending again.
    let buf = pulse.next().unwrap();
    assert_eq!(buf[0].r, 11);
}

#[test]
fn pulse_counter_stays_in_bounds() {
    let mut pulse = DotStar_Pulse::new(Color::new(50, 0, 50));
    for _ in 0..1000 {
        let buf = pulse.next().unwrap();
        let counter = buf[0].r;
        assert!(counter <= 200);
    }
}

#[test]
fn pulse_buffer_is_uniform_magenta_shape() {
    let mut pulse = DotStar_Pulse::new(Color::new(50, 0, 50));
    for _ in 0..25 {
        let buf = pulse.next().unwrap();
        assert_eq!(buf.len(), NUM_PX);
        let first = buf[0];
        for px in &buf {
            assert_eq!(*px, first);
        }
        assert_eq!(first.g, 0);
        assert_eq!(first.b, first.r + 10);
    }
}

#[test]
fn pulse_clear_and_set_fill_the_strip() {
    let mut pulse = DotStar_Pulse::new(Color::new(50, 0, 50));
    pulse.set(Color::new(1, 2, 3));
    for px in &pulse.to_list() {
        assert_eq!(*px, Color::new(1, 2, 3));
    }
    pulse.clear();
    for px in &pulse.to_list() {
        assert_eq!(*px, Color::black());
    }
}

#[test]
fn wheel_pattern_buffer_is_uniform_dimmed_wheel_color() {
    let mut gen = DotStar_Wheel::new();
    for t in 1..=300u32 {
        let buf = gen.next().unwrap();
        assert_eq!(buf.len(), NUM_PX);
        let expected = wheel((t % 256) as u8).div(10);
        for px in &buf {
            assert_eq!(*px, expected, "tick {}", t);
        }
    }
}

#[test]
fn wheel_pattern_at_tick_85() {
    // After exactly 85 ticks the position is 85; the inverted value 170
    // falls in the red/green sector at its base, so the dimmed color is
    // (0, 255, 0) / 10 = (0, 25, 0).
    let mut gen = DotStar_Wheel::new();
    let mut last = Vec::new();
    for _ in 0..85 {
        last = gen.next().unwrap();
    }
    assert_eq!(wheel(85), Color::new(0, 255, 0));
    for px in &last {
        assert_eq!(*px, Color::new(0, 25, 0));
    }
}

fn lit_indices(buf: &[Color]) -> Vec<usize> {
    buf.iter()
        .enumerate()
        .filter(|(_, px)| **px != Color::black())
        .map(|(i, _)| i)
        .collect()
}

#[test]
fn beacon_has_exactly_one_lit_pixel() {
    let blue = Color::new(0, 0, 255);
    let mut beacon = DotStar_Beacon::new(blue);
    for _ in 0..100 {
        let buf = beacon.next().unwrap();
        assert_eq!(buf.len(), NUM_PX);
        let lit = lit_indices(&buf);
        assert_eq!(lit.len(), 1);
        assert_eq!(buf[lit[0]], blue);
    }
}

#[test]
fn beacon_visits_every_index_before_repeating() {
    let mut beacon = DotStar_Beacon::new(Color::new(0, 0, 255));
    let mut seen = vec![false; NUM_PX];
    let mut order = Vec::new();
    for _ in 0..NUM_PX {
        let buf = beacon.next().unwrap();
        let lit = lit_indices(&buf)[0];
        assert!(!seen[lit], "index {} repeated early", lit);
        seen[lit] = true;
        order.push(lit);
    }
    assert!(seen.iter().all(|s| *s));
    // The walk starts one past the initial index 1 and wraps at the end.
    assert_eq!(order[0], 2);
    assert_eq!(order[NUM_PX - 3], NUM_PX - 1);
    assert_eq!(order[NUM_PX - 2], 0);
    assert_eq!(order[NUM_PX - 1], 1);
}
