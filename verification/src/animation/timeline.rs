//! The timeline that runs: keyframes for both directions, the playback
//! configuration, and the cursor that every tick moves.
use vstd::prelude::*;
use vstd::arithmetic::div_mod::lemma_fundamental_div_mod;
use vstd::arithmetic::mul::{lemma_mul_inequality, lemma_mul_is_commutative};
use crate::animation::easing::{Bezier, BezierEnum, EASE_CUSTOM};
use crate::animation::easing::{eased, lemma_presets_valid, select, spec_eased, spec_select, Eased};
use crate::animation::frame::{Frame, FrameItem, Style, Transition};
use crate::animation::frame::{ascending, curves_valid, views, FrameView};
use crate::animation::frame::{cal_intermediate_style, cal_last_style, cal_origin_style};
use crate::animation::model::AnimationView;
use crate::animation::model::{ALTERNATE, ALTERNATE_REVERSE, REVERSE};
use crate::animation::model::{BOTH, FORWARDS};
use crate::animation::model::{FINISH, IDLE, PAUSED, RUNNING};
use crate::animation::model::{EVENT_BEGIN, EVENT_END, EVENT_FINISH, EVENT_FRAME, RATE_UNIT};
use crate::animation::model::reversed_on;
use crate::animation::search::binary_search;
use crate::math::fraction::{Fraction, Ratio};
use crate::TICKS_PER_SECOND;

verus! {

/// A keyframe timeline.
///
/// Times are ticks. The playback rate is in thousandths, and what scaling
/// leaves over of a tick is carried to the next tick, so that no time is lost
/// to rounding.
pub struct Animation {
    /// The keyframes for playing forwards.
    pub frames: Vec<Frame>,
    /// The keyframes for playing backwards: a list of its own, whose deltas
    /// lead from each keyframe to the next one in that direction.
    pub frames_r: Vec<Frame>,
    pub direction: u8,
    /// The length of the animation. It may not be zero when the timeline runs.
    pub duration: u64,
    /// The frame rate that ticks are held back to, if any.
    pub fps: usize,
    pub delay: u64,
    pub end_delay: u64,
    pub fill: u8,
    /// In thousandths. Zero stands for normal speed.
    pub playback_rate: u64,
    /// Zero stands for an endless timeline.
    pub iterations: u64,
    /// Where in the animation the active region starts.
    pub area_start: u64,
    /// The length of the active region. Zero stands for the whole duration.
    pub area_duration: u64,
    /// The easing of keyframes that name none.
    pub easing: u8,
    /// The curve of the timeline where its easing is custom.
    pub bezier: Bezier,
    /// The elapsed time, scaled by the playback rate.
    pub current_time: u64,
    /// The thousandths of a tick that scaling has left over so far.
    pub carry: u64,
    /// The iteration that the cursor is in.
    pub play_count: u64,
    pub play_state: u8,
    /// No tick has been let through since the start.
    pub first_play: bool,
    /// The current iteration runs backwards.
    pub is_reverse: bool,
    /// The last tick was held back for the frame rate.
    pub in_fps: bool,
    /// The time gathered since the last tick that was let through.
    pub fps_time: u64,
    /// The last tick found the clock in the delay.
    pub is_delay: bool,
    /// The terminal frame has been reached, and its values emitted.
    pub is_end_delay: bool,
    /// An iteration has begun and has not been reported yet.
    pub begin: bool,
    /// The end has been reached and has not been reported yet.
    pub end: bool,
    /// The timeline is over and has not been reported so yet.
    pub finished: bool,
    /// The keyframe that the cursor stands on, once it stands on one.
    pub index: Option<usize>,
    /// The progress from that keyframe to the next, before easing.
    pub percent: Fraction,
    /// The updates that the last tick left pending.
    pub transition: Vec<Transition>,
    /// The values that the animated properties had before.
    pub origin: Vec<Style>,
}

impl View for Animation {
    type V = AnimationView;

    open spec fn view(&self) -> AnimationView {
        AnimationView {
            frames: views(self.frames@),
            frames_r: views(self.frames_r@),
            direction: self.direction,
            duration: self.duration as int,
            fps: self.fps as int,
            delay: self.delay as int,
            end_delay: self.end_delay as int,
            fill: self.fill,
            playback_rate: self.playback_rate as int,
            iterations: self.iterations as int,
            area_start: self.area_start as int,
            area_duration: self.area_duration as int,
            easing: self.easing,
            bezier: self.bezier,
            current_time: self.current_time as int,
            carry: self.carry as int,
            play_count: self.play_count as int,
            play_state: self.play_state,
            first_play: self.first_play,
            is_reverse: self.is_reverse,
            in_fps: self.in_fps,
            fps_time: self.fps_time as int,
            is_delay: self.is_delay,
            is_end_delay: self.is_end_delay,
            begin: self.begin,
            end: self.end,
            finished: self.finished,
            index: match self.index {
                Some(i) => Some(i as int),
                None => None,
            },
            percent: self.percent@,
            transition: self.transition@,
            origin: self.origin@,
        }
    }
}

impl Animation {
    /// The keyframes of both directions stand in ascending order of time, and
    /// every curve, the timeline's own and each keyframe's, is a function of
    /// time.
    pub open spec fn wf(&self) -> bool {
        &&& ascending(views(self.frames@))
        &&& ascending(views(self.frames_r@))
        &&& curves_valid(views(self.frames@))
        &&& curves_valid(views(self.frames_r@))
        &&& self.bezier.valid()
    }

    /// Whether a keyframe at `time` can be appended to the keyframes of the
    /// given direction without breaking their order.
    pub open spec fn spec_accepts(&self, is_reverse: bool, time: u64) -> bool {
        let frames = if is_reverse {
            views(self.frames_r@)
        } else {
            views(self.frames@)
        };
        frames.len() > 0 ==> frames.last().time <= time
    }

    /// The clock can take a tick of `diff` ticks of host time: the elapsed
    /// time, and the position it stands for, still fit the clock.
    pub open spec fn spec_can_advance(&self, diff: u64) -> bool {
        self@.clocked(diff as int).current_time + (if self.area_start > self.delay {
            self.area_start - self.delay
        } else {
            0
        }) <= u64::MAX
    }

    /// The clock can be set to `v`: the position it stands for fits.
    pub open spec fn spec_can_seek(&self, v: u64) -> bool {
        v + (if self.area_start > self.delay {
            self.area_start - self.delay
        } else {
            0
        }) <= u64::MAX
    }

    /// A timeline with the given configuration, idle, without keyframes.
    pub fn new(
        direction: u8,
        duration: u64,
        fps: usize,
        delay: u64,
        end_delay: u64,
        fill: u8,
        playback_rate: u64,
        iterations: u64,
        area_start: u64,
        area_duration: u64,
        easing: u8,
    ) -> (ani: Animation)
        ensures
            ani.wf(),
            ani@ == (AnimationView {
                frames: Seq::empty(),
                frames_r: Seq::empty(),
                direction,
                duration: duration as int,
                fps: fps as int,
                delay: delay as int,
                end_delay: end_delay as int,
                fill,
                playback_rate: playback_rate as int,
                iterations: iterations as int,
                area_start: area_start as int,
                area_duration: area_duration as int,
                easing,
                bezier: BezierEnum::Linear.spec_control_points(),
                current_time: 0,
                carry: 0,
                play_count: 0,
                play_state: IDLE,
                first_play: true,
                is_reverse: reversed_on(direction, 0),
                in_fps: false,
                fps_time: 0,
                is_delay: false,
                is_end_delay: false,
                begin: true,
                end: false,
                finished: false,
                index: None,
                percent: Ratio { num: 0, den: 1 },
                transition: Seq::empty(),
                origin: Seq::empty(),
            }),
    {
        let ani = Animation {
            frames: Vec::new(),
            frames_r: Vec::new(),
            direction,
            duration,
            fps,
            delay,
            end_delay,
            fill,
            playback_rate,
            iterations,
            area_start,
            area_duration,
            easing,
            bezier: BezierEnum::Linear.control_points(),
            current_time: 0,
            carry: 0,
            play_count: 0,
            play_state: IDLE,
            first_play: true,
            is_reverse: direction == REVERSE || direction == ALTERNATE_REVERSE,
            in_fps: false,
            fps_time: 0,
            is_delay: false,
            is_end_delay: false,
            begin: true,
            end: false,
            finished: false,
            index: None,
            percent: Fraction::zero(),
            transition: Vec::new(),
            origin: Vec::new(),
        };
        proof {
            lemma_presets_valid(BezierEnum::Linear);
        }
        assert(ani@.frames =~= Seq::empty());
        assert(ani@.frames_r =~= Seq::empty());
        ani
    }

    /// Gives the timeline a curve of its own, which keyframes without an
    /// easing of theirs take over.
    pub fn set_bezier(&mut self, c1: u64, c2: u64, c3: u64, c4: u64)
        requires
            (Bezier { x1: c1, y1: c2, x2: c3, y2: c4 }).valid(),
        ensures
            final(self)@ == (AnimationView {
                bezier: Bezier { x1: c1, y1: c2, x2: c3, y2: c4 },
                easing: EASE_CUSTOM,
                ..old(self)@
            }),
            old(self).wf() ==> final(self).wf(),
    {
        self.bezier = Bezier::new(c1, c2, c3, c4);
        self.easing = EASE_CUSTOM;
    }

    /// Tells whether a keyframe at `time` may be appended to the keyframes of
    /// the given direction: it may not lie before the last one.
    pub fn accepts(&self, is_reverse: bool, time: u64) -> (b: bool)
        ensures
            b == self.spec_accepts(is_reverse, time),
    {
        let frames = if is_reverse {
            &self.frames_r
        } else {
            &self.frames
        };
        let n: usize = frames.len();
        if n == 0 {
            true
        } else {
            assert(views(frames@).last() == frames@[n - 1]@);
            frames[n - 1].time <= time
        }
    }

    /// Appends a keyframe at `time` to the keyframes of one direction. Its
    /// curve is the one its easing code names, made of the given control
    /// points where that is a custom curve, and the timeline's where the code
    /// names none.
    pub fn add_frame(
        &mut self,
        is_reverse: bool,
        time: u64,
        easing: u8,
        x1: u64,
        y1: u64,
        x2: u64,
        y2: u64,
    )
        requires
            old(self).wf(),
            old(self).spec_accepts(is_reverse, time),
            easing == EASE_CUSTOM ==> (Bezier { x1, y1, x2, y2 }).valid(),
        ensures
            final(self).wf(),
            final(self)@ == (if is_reverse {
                AnimationView {
                    frames_r: old(self)@.frames_r.push(
                        spec_new_frame(time, easing, x1, y1, x2, y2, old(self)@),
                    ),
                    ..old(self)@
                }
            } else {
                AnimationView {
                    frames: old(self)@.frames.push(
                        spec_new_frame(time, easing, x1, y1, x2, y2, old(self)@),
                    ),
                    ..old(self)@
                }
            }),
    {
        let bezier = select(easing, Bezier::new(x1, y1, x2, y2), self.easing, self.bezier);
        proof {
            lemma_presets_valid_or_custom(bezier);
        }
        let frame = Frame::new(time, easing, bezier);
        let ghost added = frame@;
        if is_reverse {
            self.frames_r.push(frame);
            assert(views(self.frames_r@) =~= views(old(self).frames_r@).push(added));
        } else {
            self.frames.push(frame);
            assert(views(self.frames@) =~= views(old(self).frames@).push(added));
        }
    }

    /// Adds an animated property to the keyframe appended last to the
    /// keyframes of one direction.
    pub fn add_item(&mut self, is_reverse: bool, k: usize, v: u64, u: usize, d: u64)
        requires
            is_reverse ==> old(self)@.frames_r.len() > 0,
            !is_reverse ==> old(self)@.frames.len() > 0,
        ensures
            old(self).wf() ==> final(self).wf(),
            final(self)@ == (if is_reverse {
                AnimationView {
                    frames_r: spec_with_item(old(self)@.frames_r, FrameItem { k, v, u, d }),
                    ..old(self)@
                }
            } else {
                AnimationView {
                    frames: spec_with_item(old(self)@.frames, FrameItem { k, v, u, d }),
                    ..old(self)@
                }
            }),
    {
        if is_reverse {
            let n: usize = self.frames_r.len();
            self.frames_r[n - 1].list.push(FrameItem::new(k, v, u, d));
            assert(views(self.frames_r@) =~= spec_with_item(
                views(old(self).frames_r@),
                FrameItem { k, v, u, d },
            ));
        } else {
            let n: usize = self.frames.len();
            self.frames[n - 1].list.push(FrameItem::new(k, v, u, d));
            assert(views(self.frames@) =~= spec_with_item(
                views(old(self).frames@),
                FrameItem { k, v, u, d },
            ));
        }
    }

    /// Starts the timeline, from time zero.
    pub fn play(&mut self)
        ensures
            final(self)@ == old(self)@.restart(),
            old(self).wf() ==> final(self).wf(),
    {
        self.current_time = 0;
        self.carry = 0;
        self.play_count = 0;
        self.play_state = RUNNING;
        self.first_play = true;
        self.in_fps = false;
        self.fps_time = 0;
        self.begin = true;
        self.end = false;
        self.finished = false;
        self.is_delay = false;
        self.is_end_delay = false;
        self.index = None;
        self.percent = Fraction::zero();
        self.transition.clear();
        self.init_current_frames(0);
    }

    /// Stops the clock of a running timeline. The cursor stays where it is.
    pub fn pause(&mut self)
        ensures
            final(self)@ == (AnimationView {
                play_state: if old(self).play_state == RUNNING {
                    PAUSED
                } else {
                    old(self).play_state
                },
                ..old(self)@
            }),
            old(self).wf() ==> final(self).wf(),
    {
        if self.play_state == RUNNING {
            self.play_state = PAUSED;
        }
    }

    /// Lets the clock of a paused timeline run again.
    pub fn resume(&mut self)
        ensures
            final(self)@ == (AnimationView {
                play_state: if old(self).play_state == PAUSED {
                    RUNNING
                } else {
                    old(self).play_state
                },
                ..old(self)@
            }),
            old(self).wf() ==> final(self).wf(),
    {
        if self.play_state == PAUSED {
            self.play_state = RUNNING;
        }
    }

    /// Chooses the direction of iteration `play_count`.
    pub fn init_current_frames(&mut self, play_count: u64)
        ensures
            final(self)@ == (AnimationView {
                is_reverse: reversed_on(old(self).direction, play_count as int),
                ..old(self)@
            }),
            old(self).wf() ==> final(self).wf(),
    {
        if self.direction == ALTERNATE || self.direction == ALTERNATE_REVERSE {
            let is_even = play_count % 2 == 0;
            if self.direction == ALTERNATE {
                self.is_reverse = !is_even;
            } else {
                self.is_reverse = is_even;
            }
        } else {
            self.is_reverse = self.direction == REVERSE;
        }
    }

    /// The keyframes of the current direction.
    pub fn current_frames(&self) -> (frames: &Vec<Frame>)
        ensures
            views(frames@) == self@.current_frames(),
            frames@ == (if self.is_reverse {
                self.frames_r@
            } else {
                self.frames@
            }),
    {
        if self.is_reverse {
            &self.frames_r
        } else {
            &self.frames
        }
    }

    /// Finds the keyframe that position `pos` of an iteration of length `dur`
    /// falls on.
    fn locate(&self, dur: u64, pos: u64) -> (index: usize)
        requires
            self.wf(),
            self@.current_frames().len() > 0,
        ensures
            index == self@.index_at(dur as int, pos as int),
            index < self@.current_frames().len(),
    {
        let frames = self.current_frames();
        let length: usize = frames.len();
        if length == 2 {
            if pos < dur {
                0
            } else {
                1
            }
        } else {
            binary_search(0, length - 1, pos, frames)
        }
    }

    /// Progress at position `pos` within the interval that starts at keyframe
    /// `index`.
    fn progress(&self, index: usize, pos: u64) -> (percent: Fraction)
        requires
            self.wf(),
            index < self@.current_frames().len(),
        ensures
            percent@ == self@.percent_at(index as int, pos as int),
    {
        let frames = self.current_frames();
        let length: usize = frames.len();
        assert(views(frames@)[index as int] == frames@[index as int]@);
        if length == 2 {
            Fraction { num: pos, den: self.duration }
        } else if index + 1 < length && frames[index].time <= pos {
            assert(views(frames@)[index + 1] == frames@[index + 1]@);
            Fraction { num: pos - frames[index].time, den: frames[index + 1].time - frames[index].time }
        } else {
            Fraction::zero()
        }
    }

    /// Whether going to keyframe `index` at progress `percent` moves the cursor.
    fn moves_to(&self, index: usize, percent: &Fraction) -> (moves: bool)
        ensures
            moves == self@.moves_to(index as int, percent@),
    {
        match self.index {
            Some(i) => i != index || !percent.equals(&self.percent),
            None => true,
        }
    }

    /// Emits the values of keyframe `index` on the terminal frame of a
    /// timeline that fills forwards, on first entry, and finishes the timeline
    /// if the end delay is `over`.
    fn hold(&mut self, index: usize, over: bool)
        requires
            index < old(self)@.current_frames().len(),
        ensures
            final(self).wf() == old(self).wf(),
            final(self)@ == old(self)@.held(index as int, over),
    {
        let ts = if !self.is_end_delay {
            let frames = self.current_frames();
            assert(views(frames@)[index as int] == frames@[index as int]@);
            cal_last_style(&frames[index])
        } else {
            Vec::new()
        };
        self.transition = ts;
        if !self.is_end_delay {
            self.is_end_delay = true;
            self.end = true;
        }
        if over {
            self.finished = true;
        }
    }

    /// Emits the recorded values and finishes the timeline.
    fn restore(&mut self)
        ensures
            final(self).wf() == old(self).wf(),
            final(self)@ == old(self)@.restored(),
    {
        self.end = true;
        self.finished = true;
        self.transition = cal_origin_style(&self.origin);
    }

    /// Moves the cursor to keyframe `index` at progress `percent`, and emits
    /// the moving properties of the keyframe if that moved it.
    fn interpolate(&mut self, index: usize, percent: Fraction)
        requires
            index < old(self)@.current_frames().len(),
        ensures
            final(self).wf() == old(self).wf(),
            final(self)@ == old(self)@.interpolated(index as int, percent@),
    {
        let ts = if self.moves_to(index, &percent) {
            let frames = self.current_frames();
            assert(views(frames@)[index as int] == frames@[index as int]@);
            cal_intermediate_style(&frames[index])
        } else {
            Vec::new()
        };
        self.transition = ts;
        self.index = Some(index);
        self.percent = percent;
    }

    /// Drops the pending updates.
    fn drop_pending(&mut self)
        ensures
            final(self).wf() == old(self).wf(),
            final(self)@ == old(self)@.dropped(),
    {
        self.transition.clear();
    }

    /// Resolves position `current_time` of an iteration of length `dur`:
    /// finds the keyframe and the progress, replaces the pending updates, and
    /// tells whether there are any.
    pub fn cal_current(&mut self, dur: u64, current_time: u64) -> (changed: bool)
        requires
            old(self).wf(),
            old(self).duration > 0,
        ensures
            final(self).wf(),
            final(self)@ == old(self)@.resolve(dur as int, current_time as int),
            changed == (final(self)@.transition.len() > 0),
    {
        proof {
            reveal(AnimationView::resolve);
        }
        let length: usize = self.current_frames().len();
        if length == 0 {
            self.drop_pending();
            return false;
        }
        let is_last_count = self.iterations > 0 && self.play_count >= self.iterations - 1;
        let index: usize = self.locate(dur, current_time);
        if is_last_count && index == length - 1 {
            if self.fill == FORWARDS || self.fill == BOTH {
                self.hold(index, current_time as u128 >= dur as u128 + self.end_delay as u128);
            } else {
                self.restore();
            }
        } else {
            let percent = self.progress(index, current_time);
            self.interpolate(index, percent);
        }
        self.transition.len() > 0
    }

    /// Tells whether the clock can take a tick of `diff` ticks of host time.
    pub fn can_advance(&self, diff: u64) -> (b: bool)
        ensures
            b == self.spec_can_advance(diff),
    {
        let rate: u64 = if self.playback_rate == 0 {
            RATE_UNIT
        } else {
            self.playback_rate
        };
        let scaled: u128 = scale(diff, rate, self.carry);
        let step: u128 = scaled / (RATE_UNIT as u128);
        let shift: u64 = if self.area_start > self.delay {
            self.area_start - self.delay
        } else {
            0
        };
        step <= u64::MAX as u128 && self.current_time as u128 + step + shift as u128 <= u64::MAX as u128
    }

    /// Moves the clock on by `diff` ticks of host time, drops the pending
    /// updates, and returns the ticks that the clock moved by.
    fn clock(&mut self, diff: u64) -> (step: u64)
        requires
            old(self).spec_can_advance(diff),
        ensures
            final(self).wf() == old(self).wf(),
            final(self)@ == old(self)@.clocked(diff as int),
            step == old(self)@.scaled(diff as int) / (RATE_UNIT as int),
    {
        let rate: u64 = if self.playback_rate == 0 {
            RATE_UNIT
        } else {
            self.playback_rate
        };
        let scaled: u128 = scale(diff, rate, self.carry);
        let step: u64 = (scaled / (RATE_UNIT as u128)) as u64;
        self.current_time = self.current_time + step;
        self.carry = (scaled % (RATE_UNIT as u128)) as u64;
        self.transition.clear();
        step
    }

    /// Whether a tick that moved the clock by `step` is held back for the
    /// frame rate.
    fn held_back(&self, step: u64) -> (skip: bool)
        ensures
            skip == (self@.capped() && (self.fps_time + step) * self.fps < TICKS_PER_SECOND),
            skip ==> self.fps_time + step < TICKS_PER_SECOND,
    {
        if !self.first_play && self.fps > 0 && self.fps != 60 && self.fps != 120 {
            let gathered: u128 = self.fps_time as u128 + step as u128;
            let fps: u128 = self.fps as u128;
            assert(gathered * fps >= gathered) by (nonlinear_arith)
                requires
                    fps >= 1,
                    gathered >= 0,
            ;
            if gathered < TICKS_PER_SECOND as u128 {
                assert(gathered * fps <= 1_000_000 * 0xFFFF_FFFF_FFFF_FFFF) by (nonlinear_arith)
                    requires
                        gathered <= 1_000_000,
                        0 <= fps <= 0xFFFF_FFFF_FFFF_FFFF,
                ;
                gathered * fps < TICKS_PER_SECOND as u128
            } else {
                false
            }
        } else {
            false
        }
    }

    /// Marks a tick as held back, and adds `step` to the time gathered.
    fn gather(&mut self, step: u64)
        requires
            old(self).fps_time + step <= u64::MAX,
        ensures
            final(self).wf() == old(self).wf(),
            final(self)@ == (AnimationView {
                fps_time: old(self).fps_time + step,
                in_fps: true,
                ..old(self)@
            }),
    {
        self.fps_time = self.fps_time + step;
        self.in_fps = true;
    }

    /// Marks a tick as let through: the time gathered starts anew.
    fn let_through(&mut self)
        ensures
            final(self).wf() == old(self).wf(),
            final(self)@ == (AnimationView { fps_time: 0, first_play: false, ..old(self)@ }),
    {
        self.fps_time = 0;
        self.first_play = false;
    }

    /// The position within the animation that the clock stands for, unless it
    /// is still in the delay.
    fn position(&self) -> (position: Option<u64>)
        requires
            self.spec_can_seek(self.current_time),
        ensures
            position is None <==> self@.current_time < self@.lead(),
            position matches Some(p) ==> p == self@.current_time - self@.lead(),
    {
        if self.delay > self.area_start {
            let lead: u64 = self.delay - self.area_start;
            if self.current_time < lead {
                None
            } else {
                Some(self.current_time - lead)
            }
        } else {
            Some(self.current_time + (self.area_start - self.delay))
        }
    }

    /// Notes that the clock is in the delay.
    fn wait(&mut self)
        ensures
            final(self).wf() == old(self).wf(),
            final(self)@ == (AnimationView { begin: false, is_delay: true, ..old(self)@ }),
    {
        self.begin = false;
        self.is_delay = true;
    }

    /// Notes that the clock is past the delay, and enters iteration
    /// `play_count` if that is later than the current one.
    fn enter(&mut self, play_count: u64)
        ensures
            final(self).wf() == old(self).wf(),
            final(self)@ == (AnimationView {
                is_delay: false,
                begin: old(self).begin || old(self).is_delay,
                ..old(self)@
            }).enter(play_count as int),
    {
        if self.is_delay {
            self.is_delay = false;
            self.begin = true;
        }
        if self.play_count < play_count {
            self.begin = true;
            self.play_count = play_count;
            self.init_current_frames(play_count);
        }
    }

    /// The length of one iteration.
    pub fn active_duration(&self) -> (dur: u64)
        ensures
            dur == self@.active_duration(),
    {
        if self.area_duration > 0 && self.area_duration < self.duration {
            self.area_duration
        } else {
            self.duration
        }
    }

    /// Looks up where the clock stands and resolves that position.
    fn locate_clock(&mut self) -> (changed: bool)
        requires
            old(self).wf(),
            old(self).duration > 0,
            old(self).spec_can_seek(old(self).current_time),
        ensures
            final(self).wf(),
            final(self)@ == old(self)@.located(),
            changed == (final(self)@.transition.len() > 0),
    {
        proof {
            reveal(AnimationView::located);
        }
        match self.position() {
            None => {
                self.wait();
                self.transition.len() > 0
            },
            Some(position) => {
                let dur: u64 = self.active_duration();
                let play_count: u64 = clamp_iteration(position / dur, self.iterations);
                proof {
                    lemma_iteration_fits(position as int, dur as int, play_count as int);
                }
                self.enter(play_count);
                self.cal_current(dur, position - dur * play_count)
            },
        }
    }

    /// Advances the timeline by `diff` ticks of host time and tells whether
    /// updates are pending.
    pub fn before(&mut self, diff: u64) -> (changed: bool)
        requires
            old(self).wf(),
            old(self).duration > 0,
            old(self).play_state == RUNNING ==> old(self).spec_can_advance(diff),
        ensures
            final(self).wf(),
            final(self)@ == old(self)@.advance(diff as int),
            changed == (old(self).play_state == RUNNING && final(self)@.transition.len() > 0),
    {
        if self.play_state != RUNNING {
            return false;
        }
        let step: u64 = self.clock(diff);
        if self.held_back(step) {
            self.gather(step);
            return false;
        }
        self.let_through();
        self.locate_clock()
    }

    /// Settles the last tick, once its updates have been consumed, and
    /// reports its events: a mask of the event bits.
    pub fn after(&mut self) -> (events: u8)
        ensures
            final(self)@ == old(self)@.settle(),
            events == old(self)@.events(),
            old(self).wf() ==> final(self).wf(),
    {
        if self.in_fps {
            self.in_fps = false;
            return 0;
        }
        let mut n: u8 = EVENT_FRAME;
        if self.begin {
            self.begin = false;
            n += EVENT_BEGIN;
        }
        if self.end {
            self.end = false;
            n += EVENT_END;
        }
        if self.finished {
            self.is_delay = false;
            self.is_end_delay = false;
            self.finished = false;
            self.play_state = FINISH;
            n += EVENT_FINISH;
        }
        n
    }

    /// Tells whether the clock can be set to `v`.
    pub fn can_seek(&self, v: u64) -> (b: bool)
        ensures
            b == self.spec_can_seek(v),
    {
        let shift: u64 = if self.area_start > self.delay {
            self.area_start - self.delay
        } else {
            0
        };
        v as u128 + shift as u128 <= u64::MAX as u128
    }

    /// Pauses the timeline at `v` ticks of elapsed time, with iterations of
    /// length `dur`, puts the cursor where that much time puts it, and tells
    /// whether updates are pending.
    pub fn goto_stop(&mut self, v: u64, dur: u64) -> (changed: bool)
        requires
            old(self).wf(),
            old(self).duration > 0,
            dur > 0,
            old(self).spec_can_seek(v),
        ensures
            final(self).wf(),
            final(self)@ == old(self)@.seek(v as int, dur as int),
            changed == (final(self)@.transition.len() > 0),
    {
        self.play_state = PAUSED;
        self.current_time = v;
        self.carry = 0;
        self.transition.clear();
        match self.position() {
            None => {
                self.wait();
                false
            },
            Some(position) => {
                let play_count: u64 = clamp_iteration(position / dur, self.iterations);
                proof {
                    lemma_iteration_fits(position as int, dur as int, play_count as int);
                }
                self.is_delay = false;
                self.play_count = play_count;
                self.init_current_frames(play_count);
                self.cal_current(dur, position - dur * play_count)
            },
        }
    }

    /// How the eased progress at the cursor is had: by the curve of the
    /// keyframe that the cursor stands on.
    pub fn eased(&self) -> (e: Eased)
        ensures
            e == (match self@.index {
                Some(i) if i < self@.current_frames().len() => spec_eased(
                    self@.current_frames()[i].bezier,
                    self@.percent,
                ),
                _ => Eased::Same,
            }),
    {
        let frames = self.current_frames();
        match self.index {
            Some(i) => {
                if i < frames.len() {
                    assert(views(frames@)[i as int] == frames@[i as int]@);
                    eased(&frames[i].bezier, &self.percent)
                } else {
                    Eased::Same
                }
            },
            None => Eased::Same,
        }
    }

    /// The updates that the last tick left pending.
    pub fn get_transition(&self) -> (ts: &Vec<Transition>)
        ensures
            ts@ == self@.transition,
    {
        &self.transition
    }

    /// Drops the keyframes of both directions and the pending updates.
    pub fn clear(&mut self)
        ensures
            final(self)@ == (AnimationView {
                frames: Seq::empty(),
                frames_r: Seq::empty(),
                transition: Seq::empty(),
                ..old(self)@
            }),
            old(self).bezier.valid() ==> final(self).wf(),
    {
        self.frames.clear();
        self.frames_r.clear();
        self.transition.clear();
        assert(views(self.frames@) =~= Seq::empty());
        assert(views(self.frames_r@) =~= Seq::empty());
    }

    /// Records the value that a property had before the timeline touched it.
    pub fn add_origin(&mut self, k: usize, v: u64, u: usize)
        ensures
            old(self).wf() ==> final(self).wf(),
            final(self)@ == (AnimationView {
                origin: old(self)@.origin.push(Style { k, v, u }),
                ..old(self)@
            }),
    {
        self.origin.push(Style::new(k, v, u));
    }
}

/// Host time `diff` scaled by `rate` thousandths, with the thousandths carried
/// over from the tick before: the result is in thousandths of a tick.
fn scale(diff: u64, rate: u64, carry: u64) -> (scaled: u128)
    ensures
        scaled == diff * rate + carry,
{
    let a: u128 = diff as u128;
    let b: u128 = rate as u128;
    assert(a * b <= 0xFFFF_FFFF_FFFF_FFFF * 0xFFFF_FFFF_FFFF_FFFF) by (nonlinear_arith)
        requires
            a <= 0xFFFF_FFFF_FFFF_FFFF,
            b <= 0xFFFF_FFFF_FFFF_FFFF,
    ;
    a * b + carry as u128
}

/// The iteration that `whole` whole iterations lead into, of `iterations`
/// configured ones: it is never past the last one. Zero iterations stand for
/// an endless timeline.
fn clamp_iteration(whole: u64, iterations: u64) -> (count: u64)
    ensures
        count == (if iterations > 0 && whole > iterations - 1 {
            iterations - 1
        } else {
            whole as int
        }),
{
    if iterations > 0 && whole > iterations - 1 {
        iterations - 1
    } else {
        whole
    }
}

/// Iterations that are not more than fit before a position end before it.
proof fn lemma_iteration_fits(position: int, dur: int, count: int)
    requires
        0 <= position,
        0 < dur,
        0 <= count <= position / dur,
    ensures
        0 <= dur * count <= position,
{
    lemma_fundamental_div_mod(position, dur);
    lemma_mul_inequality(count, position / dur, dur);
    lemma_mul_is_commutative(dur, count);
    lemma_mul_is_commutative(dur, position / dur);
    assert(0 <= dur * count) by (nonlinear_arith)
        requires
            0 <= count,
            0 < dur,
    ;
}

/// The keyframe that `add_frame` appends to a timeline.
pub open spec fn spec_new_frame(
    time: u64,
    easing: u8,
    x1: u64,
    y1: u64,
    x2: u64,
    y2: u64,
    to: AnimationView,
) -> FrameView {
    FrameView {
        list: Seq::empty(),
        time: time as int,
        easing,
        bezier: spec_select(easing, Bezier { x1, y1, x2, y2 }, to.easing, to.bezier),
    }
}

/// The keyframes after an animated property has been added to the last one.
pub open spec fn spec_with_item(frames: Seq<FrameView>, item: FrameItem) -> Seq<FrameView> {
    frames.update(
        frames.len() - 1,
        FrameView { list: frames.last().list.push(item), ..frames.last() },
    )
}

/// A curve that is a preset, or a valid custom curve, is valid.
proof fn lemma_presets_valid_or_custom(e: BezierEnum)
    requires
        e matches BezierEnum::Custom(b) ==> b.valid(),
    ensures
        e.spec_control_points().valid(),
{
    if !(e is Custom) {
        lemma_presets_valid(e);
    }
}

} // verus!
