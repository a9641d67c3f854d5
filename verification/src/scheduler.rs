//! Actuation scheduler: the decisions of the fixed-period render loop.
//!
//! The loop itself (thread, clock, sleep) belongs to the caller; each tick
//! it hands the mailbox value and the elapsed milliseconds to `tick`, which
//! performs everything else: the control message is translated into a
//! runner transition (`Standby`/`RandomRunner` replace the runner outright,
//! `Analysis` is delivered into the current runner, `Exit` ends the loop,
//! `Noop` changes nothing), the runner advances one tick, and only when it
//! reports itself dirty is its frame staged and committed — a clean runner
//! causes no hardware transaction at all.
//!
//! The end-of-tick sleep is `max(0, period - elapsed)`: clamped, so a tick
//! whose work exceeded the period never asks for a negative sleep.
use crate::controller::{HardwareError, LedController};
use crate::mailbox::ControlMessage;
use crate::runners::{
    spec_beat_rel, spec_displayed_frame, spec_novelty_rel, spec_run_once, EpilepsyRunner,
    RunnerEnum, StandbyRunner,
};
use vstd::prelude::*;

verus! {

/// Configuration and current runner of the actuation context.
pub struct RunnerHost {
    pub runner: RunnerEnum,
    /// Standby rotation speed, thousandths of a hue cycle per second.
    pub standby_speed_milli: u32,
    pub standby_reverse: bool,
}

/// What one tick decided.
pub struct TickOutcome {
    /// The loop must end after this tick (an `Exit` message arrived).
    pub exit: bool,
    /// The runner reported itself dirty and its frame was committed.
    pub drew: bool,
    /// Result of the hardware commit; `Ok` when no redraw was needed.
    pub hardware: Result<(), HardwareError>,
}

/// How a control message transforms the runner: `Standby` and
/// `RandomRunner` replace it outright, `Analysis` delivers beat and novelty
/// into the current runner without replacing it, `Noop` and `Exit` leave it
/// alone.
pub open spec fn spec_control_rel(
    msg: ControlMessage,
    speed_milli: u32,
    reverse: bool,
    a: RunnerEnum,
    b: RunnerEnum,
) -> bool {
    match msg {
        ControlMessage::Standby => b == RunnerEnum::StandbyRunner(
            StandbyRunner { hue: 0, speed_milli, reverse },
        ),
        ControlMessage::RandomRunner => b == RunnerEnum::EpilepsyRunner(
            EpilepsyRunner {
                hue: 0,
                brightness_milli: crate::runners::FULL_BRIGHTNESS_MILLI,
            },
        ),
        ControlMessage::Analysis { novelty, is_beat } => exists|mid: RunnerEnum|
            {
                &&& if is_beat {
                    spec_beat_rel(a, mid)
                } else {
                    mid == a
                }
                &&& spec_novelty_rel(mid, b, novelty)
            },
        ControlMessage::Noop => b == a,
        ControlMessage::Exit => b == a,
    }
}

impl RunnerHost {
    pub open spec fn wf(self) -> bool {
        self.runner.wf()
    }

    /// A fresh actuation context runs the no-op runner.
    pub fn new(standby_speed_milli: u32, standby_reverse: bool) -> (r: RunnerHost)
        ensures
            r.runner == RunnerEnum::NoopRunner(crate::runners::NoopRunner),
            r.standby_speed_milli == standby_speed_milli,
            r.standby_reverse == standby_reverse,
            r.wf(),
    {
        RunnerHost {
            runner: RunnerEnum::NoopRunner(crate::runners::NoopRunner),
            standby_speed_milli,
            standby_reverse,
        }
    }

    /// Translate one mailbox value into a runner transition; the result
    /// says whether the loop must end.
    pub fn apply_message(&mut self, msg: ControlMessage) -> (exit: bool)
        requires
            old(self).wf(),
        ensures
            final(self).standby_speed_milli == old(self).standby_speed_milli,
            final(self).standby_reverse == old(self).standby_reverse,
            spec_control_rel(
                msg,
                old(self).standby_speed_milli,
                old(self).standby_reverse,
                old(self).runner,
                final(self).runner,
            ),
            exit == (msg is Exit),
            final(self).wf(),
    {
        match msg {
            ControlMessage::Standby => {
                self.runner = RunnerEnum::StandbyRunner(
                    StandbyRunner {
                        hue: 0,
                        speed_milli: self.standby_speed_milli,
                        reverse: self.standby_reverse,
                    },
                );
                false
            }
            ControlMessage::RandomRunner => {
                self.runner = RunnerEnum::EpilepsyRunner(EpilepsyRunner::new());
                false
            }
            ControlMessage::Analysis { novelty, is_beat } => {
                if is_beat {
                    self.runner.beat();
                }
                let ghost mid = self.runner;
                self.runner.novelty(novelty);
                proof {
                    assert(spec_control_rel(
                        msg,
                        old(self).standby_speed_milli,
                        old(self).standby_reverse,
                        old(self).runner,
                        self.runner,
                    )) by {
                        assert(if is_beat {
                            spec_beat_rel(old(self).runner, mid)
                        } else {
                            mid == old(self).runner
                        });
                        assert(spec_novelty_rel(mid, self.runner, novelty));
                    }
                }
                false
            }
            ControlMessage::Noop => false,
            ControlMessage::Exit => true,
        }
    }

    /// One full scheduler tick: drain one mailbox value, advance the
    /// runner by `delta_ms`, and redraw only if the runner is dirty.
    pub fn tick<C: LedController>(
        &mut self,
        msg: ControlMessage,
        delta_ms: u64,
        controller: &mut C,
    ) -> (outcome: TickOutcome)
        requires
            old(self).wf(),
        ensures
            final(self).wf(),
            final(self).standby_speed_milli == old(self).standby_speed_milli,
            final(self).standby_reverse == old(self).standby_reverse,
            outcome.exit == (msg is Exit),
            // The runner transition: message applied, then one tick advanced.
            exists|mid: RunnerEnum|
                {
                    &&& spec_control_rel(
                        msg,
                        old(self).standby_speed_milli,
                        old(self).standby_reverse,
                        old(self).runner,
                        mid,
                    )
                    &&& *final(self) == (RunnerHost {
                        runner: spec_run_once(mid, delta_ms).0,
                        standby_speed_milli: old(self).standby_speed_milli,
                        standby_reverse: old(self).standby_reverse,
                    })
                    &&& outcome.drew == spec_run_once(mid, delta_ms).1
                },
            final(controller).led_count() == old(controller).led_count(),
            // A clean runner causes no hardware transaction: the frame is
            // exactly what the dirty flag dictates.
            outcome.drew ==> final(controller).frame() == spec_displayed_frame::<C>(
                final(self).runner,
                old(controller).frame(),
                old(controller).led_count(),
            ),
            !outcome.drew ==> final(controller).frame() == old(controller).frame() && outcome.hardware
                == Ok::<(), HardwareError>(()),
    {
        let exit = self.apply_message(msg);
        let ghost mid = self.runner;
        let drew = self.runner.run_once(delta_ms);
        if drew {
            let hardware = self.runner.display(controller);
            TickOutcome { exit, drew, hardware }
        } else {
            TickOutcome { exit, drew, hardware: Ok(()) }
        }
    }
}

/// Clamped end-of-tick sleep: the time left of the period, or zero once
/// the tick's work has already exceeded it.
pub open spec fn spec_sleep_duration(period_ms: u64, elapsed_ms: u64) -> u64 {
    if elapsed_ms >= period_ms {
        0u64
    } else {
        (period_ms - elapsed_ms) as u64
    }
}

/// Clamped end-of-tick sleep: the time left of the period, and never a
/// negative duration, even when the tick's work exceeded the period.
pub fn sleep_duration_ms(period_ms: u64, elapsed_ms: u64) -> (r: u64)
    ensures
        r == spec_sleep_duration(period_ms, elapsed_ms),
        r <= period_ms,
        elapsed_ms + r >= period_ms,
{
    if elapsed_ms >= period_ms {
        0
    } else {
        period_ms - elapsed_ms
    }
}

/// Timing law: while the work fits the period, work plus sleep is exactly
/// one period, so N such ticks take exactly N periods of wall time; and
/// the sleep is never negative, whatever the tick cost.
pub proof fn lemma_tick_keeps_period(period_ms: u64, elapsed_ms: u64)
    ensures
        elapsed_ms <= period_ms ==> elapsed_ms + spec_sleep_duration(period_ms, elapsed_ms)
            == period_ms,
        spec_sleep_duration(period_ms, elapsed_ms) >= 0,
{
}

} // verus!
