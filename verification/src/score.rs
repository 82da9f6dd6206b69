use vstd::prelude::*;
use crate::clock::{Stopwatch, NANOS_PER_SECOND};

verus! {

/// The run's record: kills, rooms cleared, survival time, and whether the
/// current room is a parkour room (where clearing it makes no sound).
#[derive(Clone, Copy, Debug, PartialEq, Eq, Structural)]
pub struct ScoreResource {
    pub enemy_score: u8,
    pub boss_score: u8,
    pub map_index: u8,
    pub time_min: u8,
    pub time_sec: u8,
    pub timer: Stopwatch,
    pub controller_mode: bool,
}

/// Seconds in a minute of the survival clock.
pub const SECONDS_PER_MINUTE: u8 = 60;

impl ScoreResource {
    /// A fresh record: everything at zero.
    pub fn init() -> (s: ScoreResource)
        ensures
            s.enemy_score == 0,
            s.boss_score == 0,
            s.map_index == 0,
            s.time_min == 0,
            s.time_sec == 0,
            s.timer.elapsed_ns == 0,
            !s.controller_mode,
    {
        ScoreResource {
            enemy_score: 0,
            boss_score: 0,
            map_index: 0,
            time_min: 0,
            time_sec: 0,
            timer: Stopwatch::new(),
            controller_mode: false,
        }
    }

    /// Whether a clock tick of `delta_ns` completes a second.
    pub open spec fn second_passes(self, delta_ns: u64) -> bool {
        self.timer.ticked(delta_ns).elapsed_ns >= NANOS_PER_SECOND
    }

    /// The survival time as a number of seconds.
    pub open spec fn seconds(self) -> int {
        self.time_min * 60 + self.time_sec
    }

    /// The clock after one tick: when a full second has gone by, the seconds
    /// advance, rolling over into minutes at 60, and the second timer
    /// restarts.
    pub open spec fn after_tick(self, delta_ns: u64) -> ScoreResource {
        if self.second_passes(delta_ns) {
            if self.time_sec + 1 >= 60 {
                ScoreResource {
                    time_min: (self.time_min + 1) as u8,
                    time_sec: 0,
                    timer: Stopwatch { elapsed_ns: 0 },
                    ..self
                }
            } else {
                ScoreResource { time_sec: (self.time_sec + 1) as u8, timer: Stopwatch { elapsed_ns: 0 }, ..self }
            }
        } else {
            ScoreResource { timer: self.timer.ticked(delta_ns), ..self }
        }
    }

    /// Whether the tick would count past what a byte holds.
    pub open spec fn tick_overflows(self, delta_ns: u64) -> bool {
        self.second_passes(delta_ns) && (self.time_sec == 255 || (self.time_sec + 1 >= 60 && self.time_min == 255))
    }

    /// Advances the survival clock by one frame of `delta_ns` nanoseconds.
    pub fn handle_timer(&mut self, delta_ns: u64)
        requires
            !old(self).tick_overflows(delta_ns),
        ensures
            *final(self) == old(self).after_tick(delta_ns),
    {
        self.timer.tick(delta_ns);
        if self.timer.elapsed() >= NANOS_PER_SECOND {
            self.time_sec = self.time_sec + 1;
            self.timer.reset();
            if self.time_sec >= SECONDS_PER_MINUTE {
                self.time_min = self.time_min + 1;
                self.time_sec = 0;
            }
        }
    }

    /// Counts the robots and bosses destroyed this frame.
    pub fn handle_score(&mut self, enemies: u8, bosses: u8)
        requires
            old(self).enemy_score + enemies <= 255,
            old(self).boss_score + bosses <= 255,
        ensures
            final(self).enemy_score == old(self).enemy_score + enemies,
            final(self).boss_score == old(self).boss_score + bosses,
            *final(self) == (ScoreResource {
                enemy_score: final(self).enemy_score,
                boss_score: final(self).boss_score,
                ..*old(self)
            }),
    {
        self.enemy_score = self.enemy_score + enemies;
        self.boss_score = self.boss_score + bosses;
    }

    /// Counts one more room cleared.
    pub fn room_cleared(&mut self)
        requires
            old(self).map_index < 255,
        ensures
            *final(self) == (ScoreResource { map_index: (old(self).map_index + 1) as u8, ..*old(self) }),
    {
        self.map_index = self.map_index + 1;
    }
}

/// A clock that shows fewer than 60 seconds keeps doing so after a tick
/// (one that does not count past a byte); when a second goes by, the total survival time grows by
/// exactly one second, and otherwise it stays.
pub proof fn lemma_clock_counts_seconds(s: ScoreResource, delta_ns: u64)
    requires
        s.time_sec < 60,
        !s.tick_overflows(delta_ns),
    ensures
        s.after_tick(delta_ns).time_sec < 60,
        s.second_passes(delta_ns) ==> s.after_tick(delta_ns).seconds() == s.seconds() + 1,
        !s.second_passes(delta_ns) ==> s.after_tick(delta_ns).seconds() == s.seconds(),
        s.after_tick(delta_ns).enemy_score == s.enemy_score,
        s.after_tick(delta_ns).boss_score == s.boss_score,
        s.after_tick(delta_ns).map_index == s.map_index,
{
}

/// The survival clock counts whole seconds and minutes: once the second
/// timer, ticked by this frame, shows a full second, the seconds go up by
/// one, a 60th second turns into one more minute with the seconds back at
/// 0, and the second timer restarts; before that only the timer runs. The
/// rest of the record never changes.
pub proof fn lemma_clock_minutes(s: ScoreResource, delta_ns: u64)
    requires
        s.time_sec < 60,
        !s.tick_overflows(delta_ns),
    ensures
        ({
            let n = s.after_tick(delta_ns);
            let full = s.timer.elapsed_ns + delta_ns >= 1_000_000_000;
            &&& full && s.time_sec < 59 ==> n.time_sec == s.time_sec + 1 && n.time_min == s.time_min
            &&& full && s.time_sec == 59 ==> n.time_sec == 0 && n.time_min == s.time_min + 1
            &&& full ==> n.timer.elapsed_ns == 0
            &&& !full ==> n.time_sec == s.time_sec && n.time_min == s.time_min
                && n.timer.elapsed_ns == s.timer.elapsed_ns + delta_ns
            &&& n.enemy_score == s.enemy_score && n.boss_score == s.boss_score && n.map_index == s.map_index
                && n.controller_mode == s.controller_mode
        }),
{
}

} // verus!
