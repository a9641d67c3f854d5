//! Capability interface to the actuator hardware, plus two in-memory
//! reference backends.
//!
//! The core only consumes this interface: a render target stages a frame of
//! colors (`set_all`, `set_all_individual`, `set_individual`) and flushes it
//! to hardware with `commit`, which may fail. The model is the staged frame
//! and the LED count; concrete hardware backends live outside the library
//! and are trusted to meet these contracts.
use crate::color::Rgb;
use vstd::prelude::*;

verus! {

/// A commit could not flush the frame to the hardware; policy is to stop
/// the actuation loop rather than keep driving hardware in an unknown
/// state.
#[derive(Copy, Clone, Debug, PartialEq, Eq, Structural)]
pub enum HardwareError {
    CommitFailed,
}

/// Abstract render target.
pub trait LedController: Sized {
    /// Whether this target can be driven pixel by pixel (a static property
    /// of the backend).
    spec fn spec_addressable() -> bool;

    /// Number of LEDs; fixed for the life of the target.
    spec fn led_count(&self) -> nat;

    /// The staged frame, one color per LED.
    spec fn frame(&self) -> Seq<Rgb>;

    fn is_addressable_individually() -> (r: bool)
        ensures
            r == Self::spec_addressable(),
    ;

    fn led_amount(&self) -> (r: usize)
        ensures
            r == self.led_count(),
    ;

    /// Stage the same color on every LED.
    fn set_all(&mut self, color: Rgb)
        ensures
            final(self).led_count() == old(self).led_count(),
            final(self).frame() == Seq::new(old(self).led_count(), |i: int| color),
    ;

    /// Stage one color per LED; `colors` must cover the whole strip.
    fn set_all_individual(&mut self, colors: &[Rgb])
        requires
            colors@.len() >= old(self).led_count(),
        ensures
            final(self).led_count() == old(self).led_count(),
            final(self).frame() == colors@.subrange(0, old(self).led_count() as int),
    ;

    /// Stage one LED's color.
    fn set_individual(&mut self, i: usize, color: Rgb)
        requires
            i < old(self).led_count(),
            old(self).frame().len() == old(self).led_count(),
        ensures
            final(self).led_count() == old(self).led_count(),
            final(self).frame() == old(self).frame().update(i as int, color),
    ;

    /// Flush the staged frame to the hardware; may block until the
    /// transmission window completes, and may fail.
    fn commit(&mut self) -> (r: Result<(), HardwareError>)
        ensures
            final(self).led_count() == old(self).led_count(),
            final(self).frame() == old(self).frame(),
    ;

    /// Blank the whole strip and commit.
    fn reset(&mut self) -> (r: Result<(), HardwareError>)
        ensures
            final(self).led_count() == old(self).led_count(),
            final(self).frame() == Seq::new(
                old(self).led_count(),
                |i: int| Rgb { r: 0, g: 0, b: 0 },
            ),
    ;
}

/// Individually addressable in-memory backend: the reference target for
/// tests and for a console renderer. Counts commits so callers can observe
/// that redraws are skipped when nothing changed.
pub struct MemoryController {
    leds: Vec<Rgb>,
    commits: u64,
}

impl MemoryController {
    /// A strip of `n` LEDs, all off.
    pub fn new(n: usize) -> (c: MemoryController)
        ensures
            c.led_count() == n,
            c.frame() == Seq::new(n as nat, |i: int| Rgb { r: 0, g: 0, b: 0 }),
            c.commit_count() == 0,
    {
        let mut leds: Vec<Rgb> = Vec::new();
        let mut k: usize = 0;
        while k < n
            invariant
                k <= n,
                leds@.len() == k,
                forall|j: int| 0 <= j < k ==> leds@[j] == (Rgb { r: 0, g: 0, b: 0 }),
            decreases n - k,
        {
            leds.push(Rgb { r: 0, g: 0, b: 0 });
            k = k + 1;
        }
        let c = MemoryController { leds, commits: 0 };
        proof {
            assert(c.frame() =~= Seq::new(n as nat, |i: int| Rgb { r: 0, g: 0, b: 0 }));
        }
        c
    }

    /// How many times the frame was flushed.
    pub closed spec fn commit_count(&self) -> u64 {
        self.commits
    }

    pub fn commits_so_far(&self) -> (r: u64)
        ensures
            r == self.commit_count(),
    {
        self.commits
    }

    /// The staged color of one LED.
    pub fn color_at(&self, i: usize) -> (c: Rgb)
        requires
            i < self.led_count(),
        ensures
            c == self.frame()[i as int],
    {
        self.leds[i]
    }
}

impl LedController for MemoryController {
    open spec fn spec_addressable() -> bool {
        true
    }

    closed spec fn led_count(&self) -> nat {
        self.leds@.len()
    }

    closed spec fn frame(&self) -> Seq<Rgb> {
        self.leds@
    }

    fn is_addressable_individually() -> (r: bool) {
        true
    }

    fn led_amount(&self) -> (r: usize) {
        self.leds.len()
    }

    fn set_all(&mut self, color: Rgb) {
        let n = self.leds.len();
        let mut k: usize = 0;
        while k < n
            invariant
                k <= n,
                self.leds@.len() == n,
                self.commits == old(self).commits,
                forall|j: int| 0 <= j < k ==> self.leds@[j] == color,
                forall|j: int| k <= j < n ==> self.leds@[j] == old(self).leds@[j],
            decreases n - k,
        {
            self.leds.set(k, color);
            k = k + 1;
        }
        proof {
            assert(self.frame() =~= Seq::new(old(self).led_count(), |i: int| color));
        }
    }

    fn set_all_individual(&mut self, colors: &[Rgb]) {
        let n = self.leds.len();
        let mut k: usize = 0;
        while k < n
            invariant
                k <= n,
                n == old(self).leds@.len(),
                colors@.len() >= n,
                self.leds@.len() == n,
                self.commits == old(self).commits,
                forall|j: int| 0 <= j < k ==> self.leds@[j] == colors@[j],
                forall|j: int| k <= j < n ==> self.leds@[j] == old(self).leds@[j],
            decreases n - k,
        {
            let c = colors[k];
            self.leds.set(k, c);
            k = k + 1;
        }
        proof {
            assert(self.frame() =~= colors@.subrange(0, old(self).led_count() as int));
        }
    }

    fn set_individual(&mut self, i: usize, color: Rgb) {
        self.leds.set(i, color);
    }

    fn commit(&mut self) -> (r: Result<(), HardwareError>) {
        // The in-memory strip always accepts the frame.
        self.commits = self.commits.wrapping_add(1);
        Ok(())
    }

    fn reset(&mut self) -> (r: Result<(), HardwareError>) {
        self.set_all(Rgb { r: 0, g: 0, b: 0 });
        self.commit()
    }
}

/// Non-addressable in-memory backend: a single RGB fixture, as a
/// three-channel analog output presents itself.
pub struct SingleZoneController {
    color: Rgb,
    commits: u64,
}

impl SingleZoneController {
    pub fn new() -> (c: SingleZoneController)
        ensures
            c.led_count() == 1,
            c.frame() == Seq::new(1nat, |i: int| Rgb { r: 0, g: 0, b: 0 }),
            c.commit_count() == 0,
    {
        let c = SingleZoneController { color: Rgb { r: 0, g: 0, b: 0 }, commits: 0 };
        proof {
            assert(c.frame() =~= Seq::new(1nat, |i: int| Rgb { r: 0, g: 0, b: 0 }));
        }
        c
    }

    pub closed spec fn commit_count(&self) -> u64 {
        self.commits
    }

    pub fn commits_so_far(&self) -> (r: u64)
        ensures
            r == self.commit_count(),
    {
        self.commits
    }

    /// The staged fixture color.
    pub fn current_color(&self) -> (c: Rgb)
        ensures
            c == self.frame()[0],
    {
        self.color
    }
}

impl LedController for SingleZoneController {
    open spec fn spec_addressable() -> bool {
        false
    }

    closed spec fn led_count(&self) -> nat {
        1
    }

    closed spec fn frame(&self) -> Seq<Rgb> {
        seq![self.color]
    }

    fn is_addressable_individually() -> (r: bool) {
        false
    }

    fn led_amount(&self) -> (r: usize) {
        1
    }

    fn set_all(&mut self, color: Rgb) {
        self.color = color;
        proof {
            assert(self.frame() =~= Seq::new(1nat, |i: int| color));
        }
    }

    fn set_all_individual(&mut self, colors: &[Rgb]) {
        let c = colors[0];
        self.color = c;
        proof {
            assert(self.frame() =~= colors@.subrange(0, 1));
        }
    }

    fn set_individual(&mut self, i: usize, color: Rgb) {
        self.color = color;
        proof {
            assert(self.frame() =~= old(self).frame().update(i as int, color));
        }
    }

    fn commit(&mut self) -> (r: Result<(), HardwareError>) {
        self.commits = self.commits.wrapping_add(1);
        Ok(())
    }

    fn reset(&mut self) -> (r: Result<(), HardwareError>) {
        self.color = Rgb { r: 0, g: 0, b: 0 };
        self.commits = self.commits.wrapping_add(1);
        proof {
            assert(self.frame() =~= Seq::new(1nat, |i: int| Rgb { r: 0, g: 0, b: 0 }));
        }
        Ok(())
    }
}

} // verus!
