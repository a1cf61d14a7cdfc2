//! The playback state machine as mathematics: a timeline as a value, and each
//! operation as a function from the timeline before to the timeline after.
use vstd::prelude::*;
use crate::animation::easing::Bezier;
use crate::animation::frame::{FrameView, Style, Transition};
use crate::animation::frame::{spec_intermediate, spec_last, spec_restore};
use crate::animation::search::keyframe_at;
use crate::math::fraction::Ratio;

verus! {

/// Playback directions.
pub const NORMAL: u8 = 0;
pub const REVERSE: u8 = 1;
pub const ALTERNATE: u8 = 2;
pub const ALTERNATE_REVERSE: u8 = 3;

/// Fill modes.
pub const NONE: u8 = 0;
pub const FORWARDS: u8 = 1;
pub const BACKWARDS: u8 = 2;
pub const BOTH: u8 = 3;

/// Play states.
pub const IDLE: u8 = 0;
pub const RUNNING: u8 = 1;
pub const PAUSED: u8 = 2;
pub const FINISH: u8 = 3;

/// Events of one tick, as bits of the mask that settling a tick reports.
pub const EVENT_FRAME: u8 = 1;
pub const EVENT_BEGIN: u8 = 2;
pub const EVENT_END: u8 = 4;
pub const EVENT_FINISH: u8 = 8;

/// The playback rate is counted in thousandths: this is normal speed.
pub const RATE_UNIT: u64 = 1000;

/// Whether iteration `count` of a timeline with the given direction runs
/// backwards: always for a reversed timeline, on odd iterations for an
/// alternating one, on even iterations for one that alternates in reverse.
pub open spec fn reversed_on(direction: u8, count: int) -> bool {
    if direction == ALTERNATE {
        count % 2 != 0
    } else if direction == ALTERNATE_REVERSE {
        count % 2 == 0
    } else {
        direction == REVERSE
    }
}

/// A timeline as a value: its keyframes, its configuration and its cursor.
pub struct AnimationView {
    pub frames: Seq<FrameView>,
    pub frames_r: Seq<FrameView>,
    pub direction: u8,
    pub duration: int,
    pub fps: int,
    pub delay: int,
    pub end_delay: int,
    pub fill: u8,
    pub playback_rate: int,
    pub iterations: int,
    pub area_start: int,
    pub area_duration: int,
    pub easing: u8,
    pub bezier: Bezier,
    pub current_time: int,
    pub carry: int,
    pub play_count: int,
    pub play_state: u8,
    pub first_play: bool,
    pub is_reverse: bool,
    pub in_fps: bool,
    pub fps_time: int,
    pub is_delay: bool,
    pub is_end_delay: bool,
    pub begin: bool,
    pub end: bool,
    pub finished: bool,
    pub index: Option<int>,
    pub percent: Ratio,
    pub transition: Seq<Transition>,
    pub origin: Seq<Style>,
}

impl AnimationView {
    /// The length of one iteration: the duration, or the active region where
    /// one is set and shorter.
    pub open spec fn active_duration(self) -> int {
        if self.area_duration > 0 && self.area_duration < self.duration {
            self.area_duration
        } else {
            self.duration
        }
    }

    /// The rate that time is scaled by, in thousandths. A rate of zero counts
    /// as normal speed.
    pub open spec fn effective_rate(self) -> int {
        if self.playback_rate == 0 {
            RATE_UNIT as int
        } else {
            self.playback_rate
        }
    }

    /// Whether ticks are held back to a frame rate. The first tick after a
    /// start never is, and rates of 60 and 120 count as uncapped.
    pub open spec fn capped(self) -> bool {
        !self.first_play && self.fps > 0 && self.fps != 60 && self.fps != 120
    }

    /// How much time passes before the first iteration starts. It is negative
    /// where the active region starts later than the delay ends.
    pub open spec fn lead(self) -> int {
        self.delay - self.area_start
    }

    /// Ticks that `diff` ticks of host time advance the clock by, and the
    /// thousandths of a tick carried over.
    pub open spec fn scaled(self, diff: int) -> int {
        diff * self.effective_rate() + self.carry
    }

    /// The iteration that a position falls in: the whole iterations that fit
    /// before it, but never past the last configured one.
    pub open spec fn iteration_at(self, pos: int) -> int {
        let whole = pos / self.active_duration();
        if self.iterations > 0 && whole > self.iterations - 1 {
            self.iterations - 1
        } else {
            whole
        }
    }

    /// The keyframes of the current direction.
    pub open spec fn current_frames(self) -> Seq<FrameView> {
        if self.is_reverse {
            self.frames_r
        } else {
            self.frames
        }
    }

    /// Whether the current iteration is the last configured one. An endless
    /// timeline has none.
    pub open spec fn last_count(self) -> bool {
        self.iterations > 0 && self.play_count >= self.iterations - 1
    }

    /// The keyframe that position `pos` of an iteration of length `dur` falls
    /// on. With two keyframes it is the first until the iteration is over.
    pub open spec fn index_at(self, dur: int, pos: int) -> int {
        let frames = self.current_frames();
        if frames.len() == 2 {
            if pos < dur {
                0
            } else {
                1
            }
        } else {
            keyframe_at(frames, pos)
        }
    }

    /// Whether position `pos` is on the terminal frame: the last keyframe of
    /// the last iteration.
    pub open spec fn terminal_at(self, dur: int, pos: int) -> bool {
        self.last_count() && self.index_at(dur, pos) == self.current_frames().len() - 1
    }

    /// Progress at position `pos` within the interval that starts at keyframe
    /// `idx`, before easing. With two keyframes it is the position over the
    /// duration. Otherwise it is the time since the keyframe over the time
    /// to the next one, and zero where there is no next keyframe or the
    /// position lies before the keyframe.
    pub open spec fn percent_at(self, idx: int, pos: int) -> Ratio {
        let frames = self.current_frames();
        if frames.len() == 2 {
            Ratio { num: pos, den: self.duration }
        } else if idx + 1 < frames.len() && frames[idx].time <= pos {
            Ratio { num: pos - frames[idx].time, den: frames[idx + 1].time - frames[idx].time }
        } else {
            Ratio { num: 0, den: 1 }
        }
    }

    /// Whether the cursor would move by going to keyframe `idx` at progress
    /// `pct`.
    pub open spec fn moves_to(self, idx: int, pct: Ratio) -> bool {
        self.index != Some(idx) || !pct.same_value(self.percent)
    }

    /// The timeline with nothing pending.
    pub open spec fn dropped(self) -> AnimationView {
        AnimationView { transition: Seq::empty(), ..self }
    }

    /// The timeline after it has been found on the terminal frame, keyframe
    /// `idx`, while it fills forwards. It is in the end delay. If it was not
    /// before, the end is marked and the values of the keyframe are pending;
    /// else nothing is. It is finished if it was, or if the end delay is
    /// `over`.
    pub open spec fn held(self, idx: int, over: bool) -> AnimationView {
        AnimationView {
            is_end_delay: true,
            end: self.end || !self.is_end_delay,
            finished: self.finished || over,
            transition: if self.is_end_delay {
                Seq::empty()
            } else {
                spec_last(self.current_frames()[idx].list)
            },
            ..self
        }
    }

    /// The timeline after it has been found on the terminal frame while it
    /// does not fill forwards: ended and finished, the recorded values
    /// pending.
    pub open spec fn restored(self) -> AnimationView {
        AnimationView {
            end: true,
            finished: true,
            transition: spec_restore(self.origin),
            ..self
        }
    }

    /// The timeline after its cursor has gone to keyframe `idx` at progress
    /// `pct`: the moving properties of the keyframe are pending if the cursor
    /// moved, and nothing is if it stayed.
    pub open spec fn interpolated(self, idx: int, pct: Ratio) -> AnimationView {
        AnimationView {
            index: Some(idx),
            percent: pct,
            transition: if self.moves_to(idx, pct) {
                spec_intermediate(self.current_frames()[idx].list)
            } else {
                Seq::empty()
            },
            ..self
        }
    }

    /// The timeline after resolving position `pos` of an iteration of length
    /// `dur`.
    ///
    /// Pending updates are replaced. Without keyframes nothing else happens.
    /// On the terminal frame a timeline that fills forwards holds the last
    /// keyframe, and is finished when the position has passed the end delay
    /// too; any other timeline puts back the recorded values. Anywhere else
    /// the cursor goes to the keyframe and progress of the position.
    #[verifier::opaque]
    pub open spec fn resolve(self, dur: int, pos: int) -> AnimationView {
        let idx = self.index_at(dur, pos);
        if self.current_frames().len() == 0 {
            self.dropped()
        } else if self.terminal_at(dur, pos) {
            if self.fill == FORWARDS || self.fill == BOTH {
                self.held(idx, pos >= dur + self.end_delay)
            } else {
                self.restored()
            }
        } else {
            self.interpolated(idx, self.percent_at(idx, pos))
        }
    }

    /// The timeline at the start of iteration `count`, if that is later than
    /// the iteration it is in: the iteration begins and the direction is
    /// chosen anew.
    pub open spec fn enter(self, count: int) -> AnimationView {
        if self.play_count < count {
            AnimationView {
                begin: true,
                play_count: count,
                is_reverse: reversed_on(self.direction, count),
                ..self
            }
        } else {
            self
        }
    }

    /// The timeline after the clock has been moved on by `diff` ticks of host
    /// time, nothing else done yet: pending updates are dropped.
    pub open spec fn clocked(self, diff: int) -> AnimationView {
        AnimationView {
            current_time: self.current_time + self.scaled(diff) / (RATE_UNIT as int),
            carry: self.scaled(diff) % (RATE_UNIT as int),
            transition: Seq::empty(),
            ..self
        }
    }

    /// Whether a tick of `diff` ticks of host time is skipped for the frame
    /// rate: the time gathered since the last tick that was let through is
    /// still less than one frame.
    pub open spec fn skips(self, diff: int) -> bool {
        self.capped() && (self.fps_time + self.scaled(diff) / (RATE_UNIT as int)) * self.fps
            < crate::TICKS_PER_SECOND
    }

    /// The timeline once its clock stands at `current_time` and the tick is let
    /// through: the position is looked up and resolved.
    ///
    /// During the delay nothing is resolved, and the start of the first
    /// iteration is announced for later. After it the position within the
    /// animation decides the iteration, and the position within the iteration
    /// is resolved.
    #[verifier::opaque]
    pub open spec fn located(self) -> AnimationView {
        if self.current_time < self.lead() {
            AnimationView { begin: false, is_delay: true, ..self }
        } else {
            let pos = self.current_time - self.lead();
            let dur = self.active_duration();
            let count = self.iteration_at(pos);
            let started = AnimationView {
                is_delay: false,
                begin: self.begin || self.is_delay,
                ..self
            };
            started.enter(count).resolve(dur, pos - dur * count)
        }
    }

    /// The timeline after a tick of `diff` ticks of host time.
    ///
    /// A timeline that is not running stays as it is. Otherwise the clock
    /// moves on by the scaled time. A tick held back by the frame rate only
    /// gathers its time; any other looks up the position and resolves it.
    pub open spec fn advance(self, diff: int) -> AnimationView {
        if self.play_state != RUNNING {
            self
        } else if self.skips(diff) {
            AnimationView {
                fps_time: self.fps_time + self.scaled(diff) / (RATE_UNIT as int),
                in_fps: true,
                ..self.clocked(diff)
            }
        } else {
            (AnimationView { fps_time: 0, first_play: false, ..self.clocked(diff) }).located()
        }
    }

    /// The timeline after seeking to `v` ticks of elapsed time, with
    /// iterations of length `dur`: paused, its clock at `v`, and its cursor
    /// where that much time puts it.
    pub open spec fn seek(self, v: int, dur: int) -> AnimationView {
        let set = AnimationView {
            play_state: PAUSED,
            current_time: v,
            carry: 0,
            transition: Seq::empty(),
            ..self
        };
        if v < self.lead() {
            AnimationView { begin: false, is_delay: true, ..set }
        } else {
            let pos = v - self.lead();
            let whole = pos / dur;
            let count = if self.iterations > 0 && whole > self.iterations - 1 {
                self.iterations - 1
            } else {
                whole
            };
            (AnimationView {
                is_delay: false,
                play_count: count,
                is_reverse: reversed_on(self.direction, count),
                ..set
            }).resolve(dur, pos - dur * count)
        }
    }

    /// The events that settling the last tick reports: nothing for a tick
    /// that the frame rate held back, else a frame, and with it the begin of
    /// an iteration, the end, and the finish, where each is due.
    pub open spec fn events(self) -> int {
        if self.in_fps {
            0
        } else {
            EVENT_FRAME + (if self.begin {
                EVENT_BEGIN as int
            } else {
                0
            }) + (if self.end {
                EVENT_END as int
            } else {
                0
            }) + (if self.finished {
                EVENT_FINISH as int
            } else {
                0
            })
        }
    }

    /// The timeline after the last tick has been settled: what it reported is
    /// forgotten, so that every event is reported once. A finished timeline
    /// also forgets that it was in a delay or an end delay, and stops.
    pub open spec fn settle(self) -> AnimationView {
        if self.in_fps {
            AnimationView { in_fps: false, ..self }
        } else if self.finished {
            AnimationView {
                begin: false,
                end: false,
                is_delay: false,
                is_end_delay: false,
                finished: false,
                play_state: FINISH,
                ..self
            }
        } else {
            AnimationView { begin: false, end: false, ..self }
        }
    }

    /// The timeline after a start: running, its cursor at time zero of the
    /// first iteration and on no keyframe, nothing pending.
    pub open spec fn restart(self) -> AnimationView {
        AnimationView {
            current_time: 0,
            carry: 0,
            play_count: 0,
            play_state: RUNNING,
            first_play: true,
            is_reverse: reversed_on(self.direction, 0),
            in_fps: false,
            fps_time: 0,
            is_delay: false,
            is_end_delay: false,
            begin: true,
            end: false,
            finished: false,
            index: None,
            percent: Ratio { num: 0, den: 1 },
            transition: Seq::empty(),
            ..self
        }
    }
}

} // verus!
