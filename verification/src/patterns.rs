//! The four animation generators. Each owns a pixel buffer of length
//! [`NUM_PX`] and, except for the static one, advances its own state by
//! one step per tick and refills the buffer.

use crate::color::Color;
use crate::wheel::{wheel, wheel_spec};
use crate::NUM_PX;
use vstd::prelude::*;

verus! {

/// Abstract state of the pulse generator.
pub ghost struct PulseView {
    pub strip: Seq<Color>,
    pub color: Color,
    pub counter: u8,
    pub descending: bool,
}

/// A breathing pulse: the counter oscillates between 10 and 200 and the
/// whole strip shows `Color(counter, 0, counter + 10)`.
#[allow(non_camel_case_types)]
pub struct DotStar_Pulse {
    strip: Vec<Color>,
    color: Color,
    px_counter: u8,
    descending: bool,
}

/// The direction flag after one pulse step: forced ascending at or
/// below 10, forced descending at or above 200, unchanged in between.
pub open spec fn pulse_next_descending(counter: u8, descending: bool) -> bool {
    if counter <= 10 {
        false
    } else if counter >= 200 {
        true
    } else {
        descending
    }
}

/// The counter after one pulse step: one down when descending, one up
/// otherwise.
pub open spec fn pulse_next_counter(counter: u8, descending: bool) -> u8 {
    if pulse_next_descending(counter, descending) {
        (counter - 1) as u8
    } else {
        (counter + 1) as u8
    }
}

/// The uniform color the pulse shows at a given counter value.
pub open spec fn pulse_color(counter: u8) -> Color {
    Color { r: counter, g: 0, b: ((counter + 10) % 256) as u8 }
}

/// Reachable pulse states: at most 200 while ascending, within
/// [10, 199] while descending.
pub open spec fn pulse_counter_wf(counter: u8, descending: bool) -> bool {
    if descending {
        10 <= counter <= 199
    } else {
        counter <= 200
    }
}

impl View for DotStar_Pulse {
    type V = PulseView;

    closed spec fn view(&self) -> PulseView {
        PulseView {
            strip: self.strip@,
            color: self.color,
            counter: self.px_counter,
            descending: self.descending,
        }
    }
}

/// Well-formed pulse state: one color per LED in the buffer, counter
/// inside the oscillation band.
pub open spec fn pulse_view_wf(v: PulseView) -> bool {
    &&& v.strip.len() == NUM_PX
    &&& pulse_counter_wf(v.counter, v.descending)
}

impl DotStar_Pulse {
    /// A generator's buffer always holds one color per LED, and its
    /// counter never left the oscillation band.
    pub open spec fn wf(&self) -> bool {
        pulse_view_wf(self@)
    }

    /// Start at counter 0, ascending, with a black buffer.
    pub fn new(color: Color) -> (p: DotStar_Pulse)
        ensures
            p.wf(),
            p@.counter == 0,
            p@.descending == false,
            p@.color == color,
            forall|i: int| 0 <= i < NUM_PX ==> p@.strip[i] == Color::black_spec(),
    {
        let mut strip: Vec<Color> = Vec::new();
        let mut i: usize = 0;
        while i < NUM_PX
            invariant
                i <= NUM_PX,
                strip@.len() == i,
                forall|j: int| 0 <= j < i ==> strip@[j] == Color::black_spec(),
            decreases NUM_PX - i,
        {
            strip.push(Color::black());
            i = i + 1;
        }
        DotStar_Pulse { strip, color, px_counter: 0, descending: false }
    }

    /// Set every pixel to black, keeping the buffer length.
    pub fn clear(&mut self)
        ensures
            final(self)@.strip.len() == old(self)@.strip.len(),
            forall|i: int|
                0 <= i < final(self)@.strip.len() ==> final(self)@.strip[i]
                    == Color::black_spec(),
            final(self)@.color == old(self)@.color,
            final(self)@.counter == old(self)@.counter,
            final(self)@.descending == old(self)@.descending,
    {
        self.set(Color::black());
    }

    /// Set every pixel to `color`, keeping the buffer length.
    pub fn set(&mut self, color: Color)
        ensures
            final(self)@.strip.len() == old(self)@.strip.len(),
            forall|i: int| 0 <= i < final(self)@.strip.len() ==> final(self)@.strip[i] == color,
            final(self)@.color == old(self)@.color,
            final(self)@.counter == old(self)@.counter,
            final(self)@.descending == old(self)@.descending,
    {
        let n = self.strip.len();
        let mut i: usize = 0;
        while i < n
            invariant
                i <= n,
                n == self.strip@.len(),
                forall|j: int| 0 <= j < i ==> self.strip@[j] == color,
                self.color == old(self).color,
                self.px_counter == old(self).px_counter,
                self.descending == old(self).descending,
            decreases n - i,
        {
            self.strip.set(i, color);
            i = i + 1;
        }
    }

    /// The current buffer, one color per LED.
    pub fn to_list(&self) -> (l: Vec<Color>)
        ensures
            l@ == self@.strip,
    {
        self.strip.clone()
    }

    /// Advance one tick: adjust the direction flag, move the counter one
    /// step, and repaint the whole strip in the pulse color of the new
    /// counter. Returns the new buffer.
    pub fn next(&mut self) -> (l: Option<Vec<Color>>)
        requires
            old(self).wf(),
        ensures
            final(self).wf(),
            final(self)@.descending == pulse_next_descending(
                old(self)@.counter,
                old(self)@.descending,
            ),
            final(self)@.counter == pulse_next_counter(old(self)@.counter, old(self)@.descending),
            final(self)@.color == old(self)@.color,
            final(self)@.strip.len() == old(self)@.strip.len(),
            forall|i: int|
                0 <= i < final(self)@.strip.len() ==> final(self)@.strip[i] == pulse_color(
                    final(self)@.counter,
                ),
            l matches Some(v) && v@ == final(self)@.strip,
    {
        if self.px_counter <= 10 {
            self.descending = false;
        } else if self.px_counter >= 200 {
            self.descending = true;
        }
        if self.descending {
            self.px_counter = self.px_counter - 1;
        } else {
            self.px_counter = self.px_counter + 1;
        }
        let c = Color::new(self.px_counter, 0, self.px_counter + 10);
        self.set(c);
        Some(self.to_list())
    }
}

/// The pulse (counter, direction) pair after `k` ticks.
pub open spec fn pulse_iter(counter: u8, descending: bool, k: nat) -> (u8, bool)
    decreases k,
{
    if k == 0 {
        (counter, descending)
    } else {
        let prev = pulse_iter(counter, descending, (k - 1) as nat);
        (pulse_next_counter(prev.0, prev.1), pulse_next_descending(prev.0, prev.1))
    }
}

/// After any number of ticks from a well-formed state, the pulse
/// counter is still inside its oscillation band, and in particular
/// within [0, 255].
pub proof fn lemma_pulse_counter_bounded(counter: u8, descending: bool, k: nat)
    requires
        pulse_counter_wf(counter, descending),
    ensures
        pulse_counter_wf(pulse_iter(counter, descending, k).0, pulse_iter(counter, descending, k).1),
        0 <= pulse_iter(counter, descending, k).0 <= 255,
    decreases k,
{
    if k > 0 {
        lemma_pulse_counter_bounded(counter, descending, (k - 1) as nat);
    }
}

/// Once the counter reaches 200 the pulse descends: for the next 190
/// ticks the direction flag stays set and the counter falls one step
/// per tick, reaching 10 before any ascent.
pub proof fn lemma_pulse_descends_from_top(k: nat)
    requires
        1 <= k <= 190,
    ensures
        pulse_iter(200, false, k) == (((200 - k) as u8, true)),
    decreases k,
{
    if k == 1 {
        assert(pulse_iter(200, false, 0) == ((200u8, false)));
        assert(pulse_next_descending(200, false));
    } else {
        lemma_pulse_descends_from_top((k - 1) as nat);
    }
}

/// Only after descending all the way to 10 does the pulse ascend
/// again: the tick after the descent ends moves the counter up to 11
/// with the direction flag cleared.
pub proof fn lemma_pulse_turns_at_bottom()
    ensures
        pulse_iter(200, false, 190) == ((10u8, true)),
        pulse_iter(200, false, 191) == ((11u8, false)),
{
    lemma_pulse_descends_from_top(190);
}

/// Abstract state of a static generator.
pub ghost struct StaticView {
    pub strip: Seq<Color>,
    pub color: Color,
}

/// A fixed color on every pixel, never changing after construction.
#[allow(non_camel_case_types)]
pub struct DotStar_Static {
    strip: Vec<Color>,
    color: Color,
}

impl View for DotStar_Static {
    type V = StaticView;

    closed spec fn view(&self) -> StaticView {
        StaticView { strip: self.strip@, color: self.color }
    }
}

/// Well-formed static state: one color per LED, each one the
/// configured color.
pub open spec fn static_view_wf(v: StaticView) -> bool {
    &&& v.strip.len() == NUM_PX
    &&& forall|i: int| 0 <= i < NUM_PX ==> v.strip[i] == v.color
}

impl DotStar_Static {
    /// The buffer holds one color per LED, each one the configured color.
    pub open spec fn wf(&self) -> bool {
        static_view_wf(self@)
    }

    /// Fill the whole strip with `color`, once and for all.
    pub fn new(color: Color) -> (s: DotStar_Static)
        ensures
            s.wf(),
            s@.color == color,
    {
        let mut strip: Vec<Color> = Vec::new();
        let mut i: usize = 0;
        while i < NUM_PX
            invariant
                i <= NUM_PX,
                strip@.len() == i,
                forall|j: int| 0 <= j < i ==> strip@[j] == color,
            decreases NUM_PX - i,
        {
            strip.push(color);
            i = i + 1;
        }
        DotStar_Static { strip, color }
    }

    /// The current buffer, one color per LED.
    pub fn to_list(&self) -> (l: Vec<Color>)
        ensures
            l@ == self@.strip,
    {
        self.strip.clone()
    }
}

/// Abstract state of the wheel generator.
pub ghost struct WheelView {
    pub strip: Seq<Color>,
    pub wheel_pos: u8,
    pub delta: u8,
    pub divisor: u8,
}

/// A synchronized color cycle: one position byte walks around the color
/// wheel and the whole strip shows that color, dimmed by a fixed
/// divisor.
#[allow(non_camel_case_types)]
pub struct DotStar_Wheel {
    strip: Vec<Color>,
    wheel_pos: u8,
    delta: u8,
    divisor: u8,
}

/// The wheel position after one step: advance by `delta`, wrapping
/// modulo 256.
pub open spec fn wheel_next_pos(pos: u8, delta: u8) -> u8 {
    ((pos + delta) % 256) as u8
}

/// The uniform color the wheel pattern shows at a given position:
/// the color wheel's value with every channel divided by `divisor`.
pub open spec fn wheel_strip_color(pos: u8, divisor: u8) -> Color
    recommends
        divisor > 0,
{
    wheel_spec(pos as int).div_spec(divisor)
}

impl View for DotStar_Wheel {
    type V = WheelView;

    closed spec fn view(&self) -> WheelView {
        WheelView {
            strip: self.strip@,
            wheel_pos: self.wheel_pos,
            delta: self.delta,
            divisor: self.divisor,
        }
    }
}

/// Well-formed wheel state: one color per LED in the buffer; step and
/// divisor are the fixed values set at construction.
pub open spec fn wheel_view_wf(v: WheelView) -> bool {
    &&& v.strip.len() == NUM_PX
    &&& v.delta == 1
    &&& v.divisor == 10
}

impl DotStar_Wheel {
    /// The buffer holds one color per LED; step and divisor are the
    /// fixed values set at construction.
    pub open spec fn wf(&self) -> bool {
        wheel_view_wf(self@)
    }

    /// Start at position 0 with step 1, divisor 10 and a black buffer.
    pub fn new() -> (w: DotStar_Wheel)
        ensures
            w.wf(),
            w@.wheel_pos == 0,
            forall|i: int| 0 <= i < NUM_PX ==> w@.strip[i] == Color::black_spec(),
    {
        let mut strip: Vec<Color> = Vec::new();
        let mut i: usize = 0;
        while i < NUM_PX
            invariant
                i <= NUM_PX,
                strip@.len() == i,
                forall|j: int| 0 <= j < i ==> strip@[j] == Color::black_spec(),
            decreases NUM_PX - i,
        {
            strip.push(Color::black());
            i = i + 1;
        }
        DotStar_Wheel { strip, wheel_pos: 0, delta: 1, divisor: 10 }
    }

    /// Set every pixel to `color`, keeping the buffer length.
    pub fn set(&mut self, color: Color)
        ensures
            final(self)@.strip.len() == old(self)@.strip.len(),
            forall|i: int| 0 <= i < final(self)@.strip.len() ==> final(self)@.strip[i] == color,
            final(self)@.wheel_pos == old(self)@.wheel_pos,
            final(self)@.delta == old(self)@.delta,
            final(self)@.divisor == old(self)@.divisor,
    {
        let n = self.strip.len();
        let mut i: usize = 0;
        while i < n
            invariant
                i <= n,
                n == self.strip@.len(),
                forall|j: int| 0 <= j < i ==> self.strip@[j] == color,
                self.wheel_pos == old(self).wheel_pos,
                self.delta == old(self).delta,
                self.divisor == old(self).divisor,
            decreases n - i,
        {
            self.strip.set(i, color);
            i = i + 1;
        }
    }

    /// The current buffer, one color per LED.
    pub fn to_list(&self) -> (l: Vec<Color>)
        ensures
            l@ == self@.strip,
    {
        self.strip.clone()
    }

    /// Advance one tick: step the position (wrapping) and repaint the
    /// whole strip in the dimmed wheel color of the new position.
    /// Returns the new buffer.
    pub fn next(&mut self) -> (l: Option<Vec<Color>>)
        requires
            old(self).wf(),
        ensures
            final(self).wf(),
            final(self)@.wheel_pos == wheel_next_pos(old(self)@.wheel_pos, old(self)@.delta),
            final(self)@.strip.len() == old(self)@.strip.len(),
            forall|i: int|
                0 <= i < final(self)@.strip.len() ==> final(self)@.strip[i] == wheel_strip_color(
                    final(self)@.wheel_pos,
                    final(self)@.divisor,
                ),
            l matches Some(v) && v@ == final(self)@.strip,
    {
        self.wheel_pos = self.wheel_pos.wrapping_add(self.delta);
        let c = wheel(self.wheel_pos).div(self.divisor);
        self.set(c);
        Some(self.to_list())
    }
}

/// The wheel position after `k` ticks with step 1.
pub open spec fn wheel_pos_iter(pos: u8, k: nat) -> u8
    decreases k,
{
    if k == 0 {
        pos
    } else {
        wheel_next_pos(wheel_pos_iter(pos, (k - 1) as nat), 1)
    }
}

/// With step 1 the wheel position after `k` ticks is the start plus
/// `k`, modulo 256; starting from 0 it is exactly `k % 256`.
pub proof fn lemma_wheel_position_after(pos: u8, k: nat)
    ensures
        wheel_pos_iter(pos, k) == ((pos + k) % 256) as u8,
    decreases k,
{
    if k > 0 {
        lemma_wheel_position_after(pos, (k - 1) as nat);
        vstd::arithmetic::div_mod::lemma_add_mod_noop(pos + (k - 1), 1, 256);
    }
}

/// Abstract state of the beacon generator.
pub ghost struct BeaconView {
    pub strip: Seq<Color>,
    pub color: Color,
    pub px_pos: u8,
    pub delta: u8,
}

/// A single point of light marching down the strip and wrapping: one
/// pixel shows the beacon color, every other pixel is black.
#[allow(non_camel_case_types)]
pub struct DotStar_Beacon {
    strip: Vec<Color>,
    color: Color,
    px_pos: u8,
    delta: u8,
}

/// The lit index after one step: back to 0 from the last pixel,
/// otherwise forward by `delta`.
pub open spec fn beacon_next_pos(pos: u8, delta: u8) -> u8
    recommends
        pos < NUM_PX,
        pos + delta < 256,
{
    if pos == (NUM_PX - 1) as u8 {
        0
    } else {
        (pos + delta) as u8
    }
}

/// The beacon's lit index after `k` ticks with step 1.
pub open spec fn beacon_pos_iter(pos: u8, k: nat) -> u8
    decreases k,
{
    if k == 0 {
        pos
    } else {
        beacon_next_pos(beacon_pos_iter(pos, (k - 1) as nat), 1)
    }
}

/// The lit index follows a pure cycle: after `k` ticks it is the start
/// plus `k`, modulo the pixel count, so it repeats only after passing
/// every index once.
pub proof fn lemma_beacon_cycles(pos: u8, k: nat)
    requires
        pos < NUM_PX,
    ensures
        beacon_pos_iter(pos, k) == ((pos + k) % (NUM_PX as int)) as u8,
    decreases k,
{
    if k > 0 {
        lemma_beacon_cycles(pos, (k - 1) as nat);
        vstd::arithmetic::div_mod::lemma_add_mod_noop(pos + (k - 1), 1, NUM_PX as int);
    }
}

/// A buffer produced by a beacon tick has exactly one non-black pixel,
/// at the lit index, whenever the beacon color is not black.
pub proof fn lemma_beacon_single_lit(strip: Seq<Color>, pos: u8, color: Color)
    requires
        color != Color::black_spec(),
        pos < strip.len(),
        forall|i: int|
            0 <= i < strip.len() ==> strip[i] == (if i == pos as int {
                color
            } else {
                Color::black_spec()
            }),
    ensures
        forall|i: int|
            0 <= i < strip.len() ==> ((strip[i] != Color::black_spec()) <==> i == pos as int),
{
}

/// The beacon visits every index: whatever the current lit index,
/// each position of the strip is lit within the next NUM_PX ticks.
pub proof fn lemma_beacon_visits_every_index(pos: u8, target: u8)
    requires
        pos < NUM_PX,
        target < NUM_PX,
    ensures
        exists|k: nat| k < NUM_PX && beacon_pos_iter(pos, k) == target,
{
    let k = ((target - pos + NUM_PX) % (NUM_PX as int)) as nat;
    lemma_beacon_cycles(pos, k);
    assert(k < NUM_PX && beacon_pos_iter(pos, k) == target);
}

impl View for DotStar_Beacon {
    type V = BeaconView;

    closed spec fn view(&self) -> BeaconView {
        BeaconView {
            strip: self.strip@,
            color: self.color,
            px_pos: self.px_pos,
            delta: self.delta,
        }
    }
}

/// Well-formed beacon state: one color per LED in the buffer, the lit
/// index on the strip, and the step fixed at construction.
pub open spec fn beacon_view_wf(v: BeaconView) -> bool {
    &&& v.strip.len() == NUM_PX
    &&& v.px_pos < NUM_PX
    &&& v.delta == 1
}

impl DotStar_Beacon {
    /// The buffer holds one color per LED, the lit index stays on the
    /// strip, and the step is the fixed value set at construction.
    pub open spec fn wf(&self) -> bool {
        beacon_view_wf(self@)
    }

    /// Start with the light at index 1, step 1, and the whole strip
    /// filled with the beacon color.
    pub fn new(color: Color) -> (b: DotStar_Beacon)
        ensures
            b.wf(),
            b@.color == color,
            b@.px_pos == 1,
            forall|i: int| 0 <= i < NUM_PX ==> b@.strip[i] == color,
    {
        let mut strip: Vec<Color> = Vec::new();
        let mut i: usize = 0;
        while i < NUM_PX
            invariant
                i <= NUM_PX,
                strip@.len() == i,
                forall|j: int| 0 <= j < i ==> strip@[j] == color,
            decreases NUM_PX - i,
        {
            strip.push(color);
            i = i + 1;
        }
        DotStar_Beacon { strip, color, px_pos: 1, delta: 1 }
    }

    /// The current buffer, one color per LED.
    pub fn to_list(&self) -> (l: Vec<Color>)
        ensures
            l@ == self@.strip,
    {
        self.strip.clone()
    }

    /// Advance one tick: move the lit index (wrapping at the end of the
    /// strip), then rebuild the buffer with the beacon color at the lit
    /// index and black everywhere else. Returns the new buffer.
    pub fn next(&mut self) -> (l: Option<Vec<Color>>)
        requires
            old(self).wf(),
        ensures
            final(self).wf(),
            final(self)@.px_pos == beacon_next_pos(old(self)@.px_pos, old(self)@.delta),
            final(self)@.color == old(self)@.color,
            final(self)@.strip.len() == old(self)@.strip.len(),
            forall|i: int|
                0 <= i < final(self)@.strip.len() ==> final(self)@.strip[i] == (if i
                    == final(self)@.px_pos as int {
                    final(self)@.color
                } else {
                    Color::black_spec()
                }),
            l matches Some(v) && v@ == final(self)@.strip,
    {
        if self.px_pos == (NUM_PX - 1) as u8 {
            self.px_pos = 0;
        } else {
            self.px_pos = self.px_pos + self.delta;
        }

        let n = self.strip.len();
        let mut i: usize = 0;
        while i < n
            invariant
                i <= n,
                n == self.strip@.len(),
                self.px_pos == beacon_next_pos(old(self)@.px_pos, old(self)@.delta),
                self.px_pos < NUM_PX as u8,
                forall|j: int|
                    0 <= j < i ==> self.strip@[j] == (if j == self.px_pos as int {
                        self.color
                    } else {
                        Color::black_spec()
                    }),
                self.color == old(self).color,
                self.delta == old(self).delta,
            decreases n - i,
        {
            if i == self.px_pos as usize {
                self.strip.set(i, self.color);
            } else {
                self.strip.set(i, Color::black());
            }
            i = i + 1;
        }
        Some(self.to_list())
    }
}

} // verus!
