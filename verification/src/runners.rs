//! Animation state machine: a closed set of tick-driven visual behaviors
//! reacting to beat/novelty events.
//!
//! All continuous state is integer fixed point. Brightness-like quantities
//! are kept in thousandths of one 0..=255 channel unit ("milli-units"), and
//! time arrives as the milliseconds elapsed since the previous tick, so
//! every transition is exact arithmetic:
//!
//! - `NoopRunner` never asks for a redraw and never draws.
//! - `StandbyRunner` rotates a hue continuously at a configured speed
//!   (thousandths of a full hue cycle per second), optionally reversed;
//!   every tick needs a redraw.
//! - `WhiteRunner` (a debugging aid) snaps to full white on a beat and
//!   decays continuously.
//! - `SimpleBeatRunner` jumps to a new hue on each beat and is idle
//!   otherwise.
//! - `EpilepsyRunner` (the intense, novelty/beat hybrid) decays its
//!   brightness continuously, snaps to maximum on a beat, and re-randomizes
//!   its hue when the novelty sample exceeds a threshold.
//!
//! Hue is a circular quantity: the guaranteed minimum distance of a freshly
//! rolled hue from the previous one is measured around the wheel, the
//! shorter way. (The linear alternative under-serves hues near the wrap
//! boundary; the circular reading is implemented and tested explicitly.)
use crate::color::{hsv_to_rgb_rainbow, hsv_to_rgb_spectrum, rainbow_rgb_of, spec_rgb_of,
    spectrum_rgb_of, Rgb};
use crate::controller::{HardwareError, LedController};
use vstd::prelude::*;

verus! {

/// Full channel brightness, in milli-units.
pub const FULL_BRIGHTNESS_MILLI: u32 = 255_000;

/// Minimum circular hue distance of a beat-triggered hue jump.
pub const BEAT_HUE_MIN_DISTANCE: u8 = 51;

/// Minimum circular hue distance of a novelty-triggered hue jump.
pub const NOVELTY_HUE_MIN_DISTANCE: u8 = 25;

/// Bit pattern of the binary64 novelty threshold (0.3). For non-negative
/// binary64 values, numeric order coincides with unsigned order of the bit
/// patterns, so comparing patterns against this constant is the exact
/// "novelty exceeds 0.3" test; patterns with the sign bit set never exceed.
pub const NOVELTY_THRESHOLD_BITS: u64 = 0x3FD3333333333333;

/// White runner decay: milli-units lost per millisecond.
pub const WHITE_GRAVITY_MILLI_PER_MS: u64 = 500;

/// Intense runner brightness floor, in milli-units.
pub const INTENSE_BRIGHTNESS_FLOOR_MILLI: u32 = 20_000;

/// Whether a novelty sample (a binary64 bit pattern) exceeds the threshold.
pub open spec fn spec_novelty_exceeds(bits: u64) -> bool {
    bits >> 63 == 0 && bits > NOVELTY_THRESHOLD_BITS
}

pub fn novelty_exceeds(bits: u64) -> (r: bool)
    ensures
        r == spec_novelty_exceeds(bits),
{
    bits >> 63 == 0 && bits > NOVELTY_THRESHOLD_BITS
}

/// Distance between two hues around the wheel, the shorter way.
pub open spec fn spec_circular_hue_distance(a: u8, b: u8) -> int {
    let d = if a >= b {
        a - b
    } else {
        b - a
    };
    if d <= 256 - d {
        d
    } else {
        256 - d
    }
}

/// The hue a roll of `roll` lands on: an offset of at least `min_dist` and
/// at most `256 - min_dist` around the wheel from `cur`.
pub open spec fn spec_distant_hue(cur: u8, min_dist: u8, roll: u8) -> u8 {
    (((cur as int) + (min_dist as int) + (roll as int) % (257 - 2 * (min_dist as int))) % 256) as u8
}

/// Map a uniform roll to a hue at least `min_dist` away from `cur` around
/// the wheel.
pub fn distant_hue(cur: u8, min_dist: u8, roll: u8) -> (h: u8)
    requires
        0 < min_dist <= 100,
    ensures
        h == spec_distant_hue(cur, min_dist, roll),
        spec_circular_hue_distance(h, cur) >= min_dist,
{
    let span: u16 = 257 - 2 * (min_dist as u16);
    let offset: u16 = (min_dist as u16) + ((roll as u16) % span);
    let h: u8 = (((cur as u16) + offset) % 256) as u8;
    proof {
        lemma_distant_hue_far(cur, min_dist, roll);
    }
    h
}

// ---------------------------------------------------------------------------
// The runners
// ---------------------------------------------------------------------------

/// Does nothing: never dirty, never draws.
#[derive(Copy, Clone, Debug, PartialEq, Eq, Structural)]
pub struct NoopRunner;

/// Continuous hue rotation while no remote is connected.
#[derive(Copy, Clone, Debug, PartialEq, Eq, Structural)]
pub struct StandbyRunner {
    pub hue: u8,
    /// Thousandths of a full hue cycle per second.
    pub speed_milli: u32,
    pub reverse: bool,
}

/// Full-white flash on each beat, decaying continuously.
#[derive(Copy, Clone, Debug, PartialEq, Eq, Structural)]
pub struct WhiteRunner {
    /// Current grey level in milli-units, at most `FULL_BRIGHTNESS_MILLI`.
    pub value_milli: u32,
}

/// Hue jump on each beat, idle in between.
#[derive(Copy, Clone, Debug, PartialEq, Eq, Structural)]
pub struct SimpleBeatRunner {
    pub hue: u8,
    /// Dirty flag: a redraw is owed.
    pub need_update: bool,
}

/// The intense novelty/beat hybrid: continuous brightness decay, snap to
/// maximum on a beat, hue re-randomization above the novelty threshold.
#[derive(Copy, Clone, Debug, PartialEq, Eq, Structural)]
pub struct EpilepsyRunner {
    pub hue: u8,
    /// Current brightness in milli-units, at most `FULL_BRIGHTNESS_MILLI`.
    pub brightness_milli: u32,
}

impl StandbyRunner {
    pub fn new(speed_milli: u32, reverse: bool) -> (r: StandbyRunner)
        ensures
            r == (StandbyRunner { hue: 0, speed_milli, reverse }),
    {
        StandbyRunner { hue: 0, speed_milli, reverse }
    }
}

impl WhiteRunner {
    pub fn new() -> (r: WhiteRunner)
        ensures
            r == (WhiteRunner { value_milli: 0 }),
    {
        WhiteRunner { value_milli: 0 }
    }
}

impl SimpleBeatRunner {
    pub fn new() -> (r: SimpleBeatRunner)
        ensures
            r == (SimpleBeatRunner { hue: 0, need_update: true }),
    {
        SimpleBeatRunner { hue: 0, need_update: true }
    }
}

impl EpilepsyRunner {
    pub fn new() -> (r: EpilepsyRunner)
        ensures
            r == (EpilepsyRunner { hue: 0, brightness_milli: FULL_BRIGHTNESS_MILLI }),
    {
        EpilepsyRunner { hue: 0, brightness_milli: FULL_BRIGHTNESS_MILLI }
    }
}

// ---------------------------------------------------------------------------
// Tick semantics, as spec functions
// ---------------------------------------------------------------------------

/// Hue shift of one standby tick: time times speed, scaled to the hue
/// wheel, saturated at a full turn.
pub open spec fn spec_standby_shift(speed_milli: u32, delta_ms: u64) -> int {
    let raw = ((delta_ms as int) * (speed_milli as int) * 255) / 1_000_000;
    if raw > 255 {
        255
    } else {
        raw
    }
}

pub open spec fn spec_standby_advance(s: StandbyRunner, delta_ms: u64) -> StandbyRunner {
    StandbyRunner {
        hue: (((s.hue as int) + spec_standby_shift(s.speed_milli, delta_ms)) % 256) as u8,
        speed_milli: s.speed_milli,
        reverse: s.reverse,
    }
}

/// One white tick: the grey level falls by the gravity rate, floored at
/// zero.
pub open spec fn spec_white_advance(w: WhiteRunner, delta_ms: u64) -> WhiteRunner {
    let dec = (WHITE_GRAVITY_MILLI_PER_MS as int) * (delta_ms as int);
    WhiteRunner {
        value_milli: if dec >= w.value_milli {
            0
        } else {
            (w.value_milli - dec) as u32
        },
    }
}

/// Brightness lost by the intense runner over `delta_ms` (382.5 milli-units
/// per millisecond, truncated).
pub open spec fn spec_intense_decay(delta_ms: u64) -> int {
    ((delta_ms as int) * 765) / 2
}

/// One intense tick: brightness falls by the decay, floored at the
/// configured minimum.
pub open spec fn spec_intense_advance(e: EpilepsyRunner, delta_ms: u64) -> EpilepsyRunner {
    let dec = spec_intense_decay(delta_ms);
    EpilepsyRunner {
        hue: e.hue,
        brightness_milli: if e.brightness_milli - dec <= INTENSE_BRIGHTNESS_FLOOR_MILLI {
            INTENSE_BRIGHTNESS_FLOOR_MILLI
        } else {
            (e.brightness_milli - dec) as u32
        },
    }
}

/// The polymorphic runner: a closed set of variants behind one operation
/// set.
#[derive(Copy, Clone, Debug, PartialEq, Eq, Structural)]
pub enum RunnerEnum {
    NoopRunner(NoopRunner),
    StandbyRunner(StandbyRunner),
    WhiteRunner(WhiteRunner),
    SimpleBeatRunner(SimpleBeatRunner),
    EpilepsyRunner(EpilepsyRunner),
}

/// Continuous state stays within channel range.
impl RunnerEnum {
    pub open spec fn wf(self) -> bool {
        match self {
            RunnerEnum::WhiteRunner(w) => w.value_milli <= FULL_BRIGHTNESS_MILLI,
            RunnerEnum::EpilepsyRunner(e) => e.brightness_milli <= FULL_BRIGHTNESS_MILLI,
            _ => true,
        }
    }
}

/// How a beat transforms a runner: the variant never changes; `White` and
/// the intense runner snap to full brightness, the beat runner jumps to a
/// hue at least `BEAT_HUE_MIN_DISTANCE` away and becomes dirty, the rest
/// ignore the beat.
pub open spec fn spec_beat_rel(a: RunnerEnum, b: RunnerEnum) -> bool {
    match (a, b) {
        (RunnerEnum::WhiteRunner(x), RunnerEnum::WhiteRunner(y)) => y.value_milli
            == FULL_BRIGHTNESS_MILLI,
        (RunnerEnum::SimpleBeatRunner(x), RunnerEnum::SimpleBeatRunner(y)) => {
            &&& spec_circular_hue_distance(y.hue, x.hue) >= BEAT_HUE_MIN_DISTANCE
            &&& y.need_update
        },
        (RunnerEnum::EpilepsyRunner(x), RunnerEnum::EpilepsyRunner(y)) => y.hue == x.hue
            && y.brightness_milli == FULL_BRIGHTNESS_MILLI,
        _ => b == a,
    }
}

/// How a novelty sample transforms a runner: only the intense runner
/// reacts, and only above the threshold — its hue jumps at least
/// `NOVELTY_HUE_MIN_DISTANCE` away, brightness untouched.
pub open spec fn spec_novelty_rel(a: RunnerEnum, b: RunnerEnum, bits: u64) -> bool {
    match (a, b) {
        (RunnerEnum::EpilepsyRunner(x), RunnerEnum::EpilepsyRunner(y)) => if spec_novelty_exceeds(
            bits,
        ) {
            &&& y.brightness_milli == x.brightness_milli
            &&& spec_circular_hue_distance(y.hue, x.hue) >= NOVELTY_HUE_MIN_DISTANCE
        } else {
            b == a
        },
        _ => b == a,
    }
}

/// One tick's state advance and dirty flag, per variant: `Noop` is never
/// dirty; `Standby`, `White` and the intense runner animate continuously
/// and are always dirty; the beat runner is dirty exactly when a beat has
/// not been drawn yet.
pub open spec fn spec_run_once(r: RunnerEnum, delta_ms: u64) -> (RunnerEnum, bool) {
    match r {
        RunnerEnum::NoopRunner(x) => (r, false),
        RunnerEnum::StandbyRunner(s) => (
            RunnerEnum::StandbyRunner(spec_standby_advance(s, delta_ms)),
            true,
        ),
        RunnerEnum::WhiteRunner(w) => (RunnerEnum::WhiteRunner(spec_white_advance(w, delta_ms)), true),
        RunnerEnum::SimpleBeatRunner(b) => (
            RunnerEnum::SimpleBeatRunner(SimpleBeatRunner { hue: b.hue, need_update: false }),
            b.need_update,
        ),
        RunnerEnum::EpilepsyRunner(e) => (
            RunnerEnum::EpilepsyRunner(spec_intense_advance(e, delta_ms)),
            true,
        ),
    }
}

/// Hue of pixel `i` of an `n`-pixel rainbow sweep starting at `start`: the
/// wheel is spread once across the strip.
pub open spec fn spec_sweep_hue(start: u8, n: nat, i: int) -> u8
    recommends
        n > 0,
{
    (((start as int) + (i * 255) / (n as int)) % 256) as u8
}

pub open spec fn spec_solid_frame(c: Rgb, n: nat) -> Seq<Rgb> {
    Seq::new(n, |i: int| c)
}

/// The frame a standby redraw stages on an individually addressable strip.
pub open spec fn spec_standby_frame(hue: u8, reverse: bool, n: nat) -> Seq<Rgb> {
    Seq::new(
        n,
        |i: int|
            spec_rgb_of(
                rainbow_rgb_of(
                    spec_sweep_hue(
                        hue,
                        n,
                        if reverse {
                            n - 1 - i
                        } else {
                            i
                        },
                    ),
                    255,
                    255,
                ),
            ),
    )
}

/// The grey level a white redraw stages.
pub open spec fn spec_white_grey(w: WhiteRunner) -> u8 {
    (w.value_milli / 1000) as u8
}

/// The brightness channel an intense redraw stages.
pub open spec fn spec_intense_value(e: EpilepsyRunner) -> u8 {
    (e.brightness_milli / 1000) as u8
}

/// The frame a redraw of each runner stages on a controller of `n` LEDs
/// whose previous frame was `prev`.
pub open spec fn spec_displayed_frame<C: LedController>(
    r: RunnerEnum,
    prev: Seq<Rgb>,
    n: nat,
) -> Seq<Rgb> {
    match r {
        RunnerEnum::NoopRunner(_) => prev,
        RunnerEnum::StandbyRunner(s) => if C::spec_addressable() {
            spec_standby_frame(s.hue, s.reverse, n)
        } else {
            spec_solid_frame(spec_rgb_of(rainbow_rgb_of(s.hue, 255, 255)), n)
        },
        RunnerEnum::WhiteRunner(w) => spec_solid_frame(
            Rgb { r: spec_white_grey(w), g: spec_white_grey(w), b: spec_white_grey(w) },
            n,
        ),
        RunnerEnum::SimpleBeatRunner(b) => spec_solid_frame(
            spec_rgb_of(rainbow_rgb_of(b.hue, 255, 255)),
            n,
        ),
        RunnerEnum::EpilepsyRunner(e) => spec_solid_frame(
            spec_rgb_of(spectrum_rgb_of(e.hue, 255, spec_intense_value(e))),
            n,
        ),
    }
}

impl RunnerEnum {
    /// A beat event, delivered to the current runner.
    pub fn beat(&mut self)
        requires
            old(self).wf(),
        ensures
            spec_beat_rel(*old(self), *final(self)),
            final(self).wf(),
    {
        match *self {
            RunnerEnum::WhiteRunner(_) => {
                *self = RunnerEnum::WhiteRunner(WhiteRunner { value_milli: FULL_BRIGHTNESS_MILLI });
            }
            RunnerEnum::SimpleBeatRunner(b) => {
                let roll: u8 = rand::random();
                *self = RunnerEnum::SimpleBeatRunner(
                    SimpleBeatRunner {
                        hue: distant_hue(b.hue, BEAT_HUE_MIN_DISTANCE, roll),
                        need_update: true,
                    },
                );
            }
            RunnerEnum::EpilepsyRunner(e) => {
                *self = RunnerEnum::EpilepsyRunner(
                    EpilepsyRunner { hue: e.hue, brightness_milli: FULL_BRIGHTNESS_MILLI },
                );
            }
            _ => {}
        }
    }

    /// A novelty sample (a binary64 bit pattern), delivered to the current
    /// runner.
    pub fn novelty(&mut self, novelty_bits: u64)
        requires
            old(self).wf(),
        ensures
            spec_novelty_rel(*old(self), *final(self), novelty_bits),
            final(self).wf(),
    {
        match *self {
            RunnerEnum::EpilepsyRunner(e) => {
                if novelty_exceeds(novelty_bits) {
                    let roll: u8 = rand::random();
                    *self = RunnerEnum::EpilepsyRunner(
                        EpilepsyRunner {
                            hue: distant_hue(e.hue, NOVELTY_HUE_MIN_DISTANCE, roll),
                            brightness_milli: e.brightness_milli,
                        },
                    );
                }
            }
            _ => {}
        }
    }

    /// Advance one tick of `delta_ms` milliseconds; the result says whether
    /// a redraw is required.
    pub fn run_once(&mut self, delta_ms: u64) -> (redraw: bool)
        requires
            old(self).wf(),
        ensures
            *final(self) == spec_run_once(*old(self), delta_ms).0,
            redraw == spec_run_once(*old(self), delta_ms).1,
            final(self).wf(),
    {
        match *self {
            RunnerEnum::NoopRunner(_) => false,
            RunnerEnum::StandbyRunner(s) => {
                proof {
                    assert((delta_ms as int) * (s.speed_milli as int) <= 0x1_0000_0000_0000_0000
                        * 0x1_0000_0000) by (nonlinear_arith)
                        requires
                            delta_ms <= 0xFFFF_FFFF_FFFF_FFFFu64,
                            s.speed_milli <= 0xFFFF_FFFFu32,
                    ;
                }
                let raw: u128 = (delta_ms as u128) * (s.speed_milli as u128) * 255 / 1_000_000;
                let shift: u16 = if raw > 255 {
                    255
                } else {
                    raw as u16
                };
                let hue: u8 = (((s.hue as u16) + shift) % 256) as u8;
                *self = RunnerEnum::StandbyRunner(
                    StandbyRunner { hue, speed_milli: s.speed_milli, reverse: s.reverse },
                );
                true
            }
            RunnerEnum::WhiteRunner(w) => {
                let dec: u128 = (delta_ms as u128) * 500;
                let value_milli: u32 = if dec >= (w.value_milli as u128) {
                    0
                } else {
                    w.value_milli - (dec as u32)
                };
                *self = RunnerEnum::WhiteRunner(WhiteRunner { value_milli });
                true
            }
            RunnerEnum::SimpleBeatRunner(b) => {
                *self = RunnerEnum::SimpleBeatRunner(
                    SimpleBeatRunner { hue: b.hue, need_update: false },
                );
                b.need_update
            }
            RunnerEnum::EpilepsyRunner(e) => {
                let dec: u128 = (delta_ms as u128) * 765 / 2;
                let brightness_milli: u32 = if dec >= (e.brightness_milli as u128) || (e.brightness_milli
                    - (dec as u32)) <= INTENSE_BRIGHTNESS_FLOOR_MILLI {
                    INTENSE_BRIGHTNESS_FLOOR_MILLI
                } else {
                    e.brightness_milli - (dec as u32)
                };
                *self = RunnerEnum::EpilepsyRunner(EpilepsyRunner { hue: e.hue, brightness_milli });
                true
            }
        }
    }

    /// Stage this runner's frame on the controller and commit it. `Noop`
    /// touches nothing and reports success.
    pub fn display<C: LedController>(&self, controller: &mut C) -> (r: Result<(), HardwareError>)
        requires
            self.wf(),
        ensures
            final(controller).led_count() == old(controller).led_count(),
            final(controller).frame() == spec_displayed_frame::<C>(
                *self,
                old(controller).frame(),
                old(controller).led_count(),
            ),
            self is NoopRunner ==> r == Ok::<(), HardwareError>(()),
    {
        match *self {
            RunnerEnum::NoopRunner(_) => Ok(()),
            RunnerEnum::StandbyRunner(s) => {
                if C::is_addressable_individually() {
                    let n = controller.led_amount();
                    let mut pixels: Vec<Rgb> = Vec::with_capacity(n);
                    let mut i: usize = 0;
                    while i < n
                        invariant
                            i <= n,
                            pixels@.len() == i,
                            forall|j: int|
                                0 <= j < i ==> pixels@[j] == spec_standby_frame(
                                    s.hue,
                                    s.reverse,
                                    n as nat,
                                )[j],
                        decreases n - i,
                    {
                        let idx: usize = if s.reverse {
                            n - 1 - i
                        } else {
                            i
                        };
                        let scaled: u128 = (idx as u128) * 255 / (n as u128);
                        let hue: u8 = (((s.hue as u128) + scaled) % 256) as u8;
                        assert(hue == spec_sweep_hue(s.hue, n as nat, idx as int));
                        let c = hsv_to_rgb_rainbow(hue, 255, 255);
                        pixels.push(c);
                        i = i + 1;
                    }
                    proof {
                        assert(pixels@.subrange(0, n as int) =~= spec_standby_frame(
                            s.hue,
                            s.reverse,
                            n as nat,
                        ));
                    }
                    controller.set_all_individual(pixels.as_slice());
                    controller.commit()
                } else {
                    controller.set_all(hsv_to_rgb_rainbow(s.hue, 255, 255));
                    controller.commit()
                }
            }
            RunnerEnum::WhiteRunner(w) => {
                let grey: u8 = (w.value_milli / 1000) as u8;
                controller.set_all(Rgb { r: grey, g: grey, b: grey });
                controller.commit()
            }
            RunnerEnum::SimpleBeatRunner(b) => {
                controller.set_all(hsv_to_rgb_rainbow(b.hue, 255, 255));
                controller.commit()
            }
            RunnerEnum::EpilepsyRunner(e) => {
                let value: u8 = (e.brightness_milli / 1000) as u8;
                controller.set_all(hsv_to_rgb_spectrum(e.hue, 255, value));
                controller.commit()
            }
        }
    }
}

/// The guarantee behind every hue jump: whatever the roll, the fresh hue is
/// at least `min_dist` away from the current one around the wheel.
pub proof fn lemma_distant_hue_far(cur: u8, min_dist: u8, roll: u8)
    requires
        0 < min_dist <= 100,
    ensures
        spec_circular_hue_distance(spec_distant_hue(cur, min_dist, roll), cur) >= min_dist,
{
}

/// Dirty-flag law: the no-op runner never asks for a redraw; the standby
/// runner, continuously animated, always does. (The scheduler's tick
/// contract adds the other half: when the flag is false, the controller's
/// frame is untouched and no commit happens.)
pub proof fn lemma_dirty_flags(r: RunnerEnum, delta_ms: u64)
    ensures
        r is NoopRunner ==> !spec_run_once(r, delta_ms).1,
        r is StandbyRunner ==> spec_run_once(r, delta_ms).1,
{
}

} // verus!
