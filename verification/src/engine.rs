//! The mode controller and the per-tick render step: poll the button,
//! advance the mode on a rising edge, advance every generator, and
//! select the active pixel buffer.

use crate::color::Color;
use crate::patterns::{
    beacon_next_pos, beacon_view_wf, pulse_color, pulse_next_counter, pulse_next_descending,
    pulse_view_wf, static_view_wf, wheel_next_pos, wheel_strip_color, wheel_view_wf, BeaconView,
    DotStar_Beacon, DotStar_Pulse, DotStar_Static, DotStar_Wheel, PulseView, StaticView, WheelView,
};
use crate::{NUM_MODES, NUM_PX};
use vstd::prelude::*;

verus! {

/// The mode after one button reading: advance once (wrapping from the
/// last mode to 0) exactly when the button reads pressed now and read
/// not-pressed on the previous tick; otherwise stay.
pub open spec fn mode_next(mode: u8, last: bool, pressed: bool) -> u8
    recommends
        mode < NUM_MODES,
{
    if pressed && !last {
        if mode == (NUM_MODES - 1) as u8 {
            0
        } else {
            (mode + 1) as u8
        }
    } else {
        mode
    }
}

/// The (mode, last reading) pair after feeding a whole sequence of
/// button readings through the mode controller, oldest reading first.
pub open spec fn mode_run(mode: u8, last: bool, readings: Seq<bool>) -> (u8, bool)
    decreases readings.len(),
{
    if readings.len() == 0 {
        (mode, last)
    } else {
        let prev = mode_run(mode, last, readings.drop_last());
        (mode_next(prev.0, prev.1, readings.last()), readings.last())
    }
}

/// How many rising edges a sequence of readings contains, given the
/// level observed just before it: positions that read pressed while
/// the reading before them read not-pressed.
pub open spec fn rising_edges(last: bool, readings: Seq<bool>) -> nat
    decreases readings.len(),
{
    if readings.len() == 0 {
        0
    } else {
        let before = if readings.len() == 1 {
            last
        } else {
            readings[readings.len() - 2]
        };
        rising_edges(last, readings.drop_last()) + (if readings.last() && !before {
            1nat
        } else {
            0nat
        })
    }
}

/// The mode advances exactly once per rising edge — never on a
/// sustained press or a falling edge — and wraps from NUM_MODES - 1
/// to 0: after any sequence of readings the mode is the start mode
/// plus the number of rising edges, modulo NUM_MODES.
pub proof fn lemma_mode_counts_rising_edges(mode: u8, last: bool, readings: Seq<bool>)
    requires
        mode < NUM_MODES,
    ensures
        mode_run(mode, last, readings).0 == ((mode + rising_edges(last, readings)) % (
        NUM_MODES as int)) as u8,
        mode_run(mode, last, readings).1 == (if readings.len() == 0 {
            last
        } else {
            readings.last()
        }),
    decreases readings.len(),
{
    if readings.len() > 0 {
        lemma_mode_counts_rising_edges(mode, last, readings.drop_last());
        let prev = mode_run(mode, last, readings.drop_last());
        let edges_before = rising_edges(last, readings.drop_last());
        vstd::arithmetic::div_mod::lemma_add_mod_noop(mode + edges_before, 1, NUM_MODES as int);
        vstd::arithmetic::div_mod::lemma_mod_bound(
            mode + edges_before,
            NUM_MODES as int,
        );
    }
}

/// Abstract state of the whole engine.
pub ghost struct EngineView {
    pub mode: u8,
    pub last_button: bool,
    pub static_black: StaticView,
    pub static_white: StaticView,
    pub static_red: StaticView,
    pub pulse: PulseView,
    pub wheel: WheelView,
    pub beacon: BeaconView,
}

/// The buffer the engine shows in a given state: chosen by the mode
/// ordinal, with an all-black frame as a defensive fallback for any
/// unmapped ordinal.
pub open spec fn frame_of(v: EngineView) -> Seq<Color> {
    if v.mode == 0 {
        v.static_black.strip
    } else if v.mode == 1 {
        v.static_white.strip
    } else if v.mode == 2 {
        v.static_red.strip
    } else if v.mode == 3 {
        v.pulse.strip
    } else if v.mode == 4 {
        v.wheel.strip
    } else if v.mode == 5 {
        v.beacon.strip
    } else {
        Seq::new(NUM_PX as nat, |i: int| Color::black_spec())
    }
}

/// All loop-local state of the render loop: the mode, the previous
/// button reading, and one generator per mode.
pub struct Engine {
    mode: u8,
    last_button: bool,
    static_black: DotStar_Static,
    static_white: DotStar_Static,
    static_red: DotStar_Static,
    pulse: DotStar_Pulse,
    wheel: DotStar_Wheel,
    beacon: DotStar_Beacon,
}

impl View for Engine {
    type V = EngineView;

    closed spec fn view(&self) -> EngineView {
        EngineView {
            mode: self.mode,
            last_button: self.last_button,
            static_black: self.static_black@,
            static_white: self.static_white@,
            static_red: self.static_red@,
            pulse: self.pulse@,
            wheel: self.wheel@,
            beacon: self.beacon@,
        }
    }
}

impl Engine {
    /// The mode ordinal is in range and every generator is well formed.
    pub open spec fn wf(&self) -> bool {
        &&& self@.mode < NUM_MODES
        &&& static_view_wf(self@.static_black)
        &&& static_view_wf(self@.static_white)
        &&& static_view_wf(self@.static_red)
        &&& pulse_view_wf(self@.pulse)
        &&& wheel_view_wf(self@.wheel)
        &&& beacon_view_wf(self@.beacon)
    }

    /// Build the engine as the render loop starts: mode 1 (static
    /// white), the given first button reading as the previous one, and
    /// all six generators in their initial states.
    pub fn new(initial_button: bool) -> (e: Engine)
        ensures
            e.wf(),
            e@.mode == 1,
            e@.last_button == initial_button,
            e@.static_black.color == Color::black_spec(),
            e@.static_white.color == (Color { r: 255, g: 255, b: 255 }),
            e@.static_red.color == (Color { r: 255, g: 0, b: 0 }),
            e@.pulse.color == (Color { r: 50, g: 0, b: 50 }),
            e@.pulse.counter == 0,
            e@.pulse.descending == false,
            e@.wheel.wheel_pos == 0,
            e@.beacon.color == (Color { r: 0, g: 0, b: 255 }),
            e@.beacon.px_pos == 1,
    {
        Engine {
            mode: 1,
            last_button: initial_button,
            static_black: DotStar_Static::new(Color::new(0, 0, 0)),
            static_white: DotStar_Static::new(Color::new(255, 255, 255)),
            static_red: DotStar_Static::new(Color::new(255, 0, 0)),
            pulse: DotStar_Pulse::new(Color::new(50, 0, 50)),
            wheel: DotStar_Wheel::new(),
            beacon: DotStar_Beacon::new(Color::new(0, 0, 255)),
        }
    }

    /// The current mode ordinal.
    pub fn mode(&self) -> (m: u8)
        ensures
            m == self@.mode,
    {
        self.mode
    }

    /// The buffer the engine currently shows, chosen by the mode.
    pub fn current_frame(&self) -> (frame: Vec<Color>)
        ensures
            frame@ == frame_of(self@),
    {
        match self.mode {
            0 => self.static_black.to_list(),
            1 => self.static_white.to_list(),
            2 => self.static_red.to_list(),
            3 => self.pulse.to_list(),
            4 => self.wheel.to_list(),
            5 => self.beacon.to_list(),
            _ => {
                let mut frame: Vec<Color> = Vec::new();
                let mut i: usize = 0;
                while i < NUM_PX
                    invariant
                        i <= NUM_PX,
                        frame@.len() == i,
                        forall|j: int| 0 <= j < i ==> frame@[j] == Color::black_spec(),
                    decreases NUM_PX - i,
                {
                    frame.push(Color::black());
                    i = i + 1;
                }
                proof {
                    assert(frame@ =~= Seq::new(NUM_PX as nat, |i: int| Color::black_spec()));
                }
                frame
            },
        }
    }

    /// One tick of the render loop: update the mode from the button
    /// reading (rising-edge detection), remember the reading, advance
    /// every generator unconditionally, and return the buffer of the
    /// newly selected mode.
    pub fn tick(&mut self, pressed: bool) -> (frame: Vec<Color>)
        requires
            old(self).wf(),
        ensures
            final(self).wf(),
            final(self)@.mode == mode_next(old(self)@.mode, old(self)@.last_button, pressed),
            final(self)@.last_button == pressed,
            final(self)@.static_black == old(self)@.static_black,
            final(self)@.static_white == old(self)@.static_white,
            final(self)@.static_red == old(self)@.static_red,
            final(self)@.pulse.color == old(self)@.pulse.color,
            final(self)@.pulse.descending == pulse_next_descending(
                old(self)@.pulse.counter,
                old(self)@.pulse.descending,
            ),
            final(self)@.pulse.counter == pulse_next_counter(
                old(self)@.pulse.counter,
                old(self)@.pulse.descending,
            ),
            final(self)@.pulse.strip.len() == old(self)@.pulse.strip.len(),
            forall|i: int|
                0 <= i < final(self)@.pulse.strip.len() ==> final(self)@.pulse.strip[i]
                    == pulse_color(final(self)@.pulse.counter),
            final(self)@.wheel.wheel_pos == wheel_next_pos(
                old(self)@.wheel.wheel_pos,
                old(self)@.wheel.delta,
            ),
            final(self)@.wheel.strip.len() == old(self)@.wheel.strip.len(),
            forall|i: int|
                0 <= i < final(self)@.wheel.strip.len() ==> final(self)@.wheel.strip[i]
                    == wheel_strip_color(final(self)@.wheel.wheel_pos, final(self)@.wheel.divisor),
            final(self)@.beacon.color == old(self)@.beacon.color,
            final(self)@.beacon.px_pos == beacon_next_pos(
                old(self)@.beacon.px_pos,
                old(self)@.beacon.delta,
            ),
            final(self)@.beacon.strip.len() == old(self)@.beacon.strip.len(),
            forall|i: int|
                0 <= i < final(self)@.beacon.strip.len() ==> final(self)@.beacon.strip[i] == (if i
                    == final(self)@.beacon.px_pos as int {
                    final(self)@.beacon.color
                } else {
                    Color::black_spec()
                }),
            frame@ == frame_of(final(self)@),
    {
        // Button logic: advance the mode only on a rising edge.
        if pressed && !self.last_button {
            if self.mode == NUM_MODES - 1 {
                self.mode = 0;
            } else {
                self.mode = self.mode + 1;
            }
        }
        self.last_button = pressed;

        // Keep every pattern warm, selected or not.
        let _ = self.pulse.next();
        let _ = self.wheel.next();
        let _ = self.beacon.next();

        self.current_frame()
    }
}

} // verus!
