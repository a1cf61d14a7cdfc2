//! What holds of every timeline, whatever its keyframes and configuration.
use vstd::prelude::*;
use vstd::arithmetic::div_mod::{lemma_div_is_ordered, lemma_fundamental_div_mod};
use vstd::arithmetic::div_mod::{lemma_div_multiples_vanish, lemma_mod_multiples_basic};
use vstd::arithmetic::div_mod::{lemma_hoist_over_denominator, lemma_mod_multiples_vanish};
use vstd::arithmetic::mul::{lemma_mul_is_commutative, lemma_mul_is_distributive_add_other_way};
use crate::animation::frame::{spec_intermediate, spec_last, spec_restore, FrameView, Transition};
use crate::animation::model::{reversed_on, AnimationView, PAUSED, RATE_UNIT, RUNNING};
use crate::animation::model::{BOTH, FORWARDS};
use crate::animation::search::{keyframe_at, lemma_keyframe_at};

verus! {

impl AnimationView {
    /// The value is one that a running timeline can have: no count or time is
    /// negative, and the duration is not zero.
    pub open spec fn inhabited(self) -> bool {
        &&& self.duration > 0
        &&& self.fps >= 0
        &&& self.delay >= 0
        &&& self.end_delay >= 0
        &&& self.playback_rate >= 0
        &&& self.iterations >= 0
        &&& self.area_start >= 0
        &&& self.area_duration >= 0
        &&& self.current_time >= 0
        &&& 0 <= self.carry
        &&& self.play_count >= 0
        &&& self.fps_time >= 0
    }

    /// No frame rate is set that ticks would be held back to.
    pub open spec fn uncapped(self) -> bool {
        self.fps == 0 || self.fps == 60 || self.fps == 120
    }

    /// Whether the clock stands in the delay.
    pub open spec fn delayed(self) -> bool {
        self.current_time < self.lead()
    }

    /// The position within its iteration that the clock stands for, once it is
    /// past the delay.
    pub open spec fn local_position(self) -> int {
        let pos = self.current_time - self.lead();
        pos - self.active_duration() * self.iteration_at(pos)
    }

    /// Whether the timeline stands on the terminal frame, once it is past the
    /// delay.
    pub open spec fn terminal(self) -> bool {
        self.terminal_at(self.active_duration(), self.local_position())
    }
}

/// The clock does not care in how many ticks time comes: two ticks move it to
/// where one tick of their sum does, down to the thousandths carried.
pub proof fn lemma_clock_splits(m: AnimationView, a: int, b: int)
    ensures
        m.clocked(a).clocked(b).current_time == m.clocked(a + b).current_time,
        m.clocked(a).clocked(b).carry == m.clocked(a + b).carry,
{
    let unit = RATE_UNIT as int;
    let rate = m.effective_rate();
    let first = m.scaled(a);
    let second = m.clocked(a).scaled(b);
    let whole = m.scaled(a + b);
    assert(m.clocked(a).effective_rate() == rate);
    lemma_fundamental_div_mod(first, unit);
    lemma_mul_is_distributive_add_other_way(rate, a, b);
    assert(whole == unit * (first / unit) + second);
    lemma_mod_multiples_vanish(first / unit, second, unit);
    lemma_hoist_over_denominator(second, first / unit, unit as nat);
    lemma_mul_is_commutative(first / unit, unit);
}

/// Two timelines have the same keyframes, recorded values and configuration,
/// and are in the same play state.
pub open spec fn same_setup(x: AnimationView, y: AnimationView) -> bool {
    &&& x.frames == y.frames
    &&& x.frames_r == y.frames_r
    &&& x.origin == y.origin
    &&& x.direction == y.direction
    &&& x.duration == y.duration
    &&& x.fps == y.fps
    &&& x.delay == y.delay
    &&& x.end_delay == y.end_delay
    &&& x.fill == y.fill
    &&& x.playback_rate == y.playback_rate
    &&& x.iterations == y.iterations
    &&& x.area_start == y.area_start
    &&& x.area_duration == y.area_duration
    &&& x.easing == y.easing
    &&& x.bezier == y.bezier
    &&& x.play_state == y.play_state
}

/// Two timelines with the same setup whose clocks show the same time.
pub open spec fn same_time(x: AnimationView, y: AnimationView) -> bool {
    &&& same_setup(x, y)
    &&& x.current_time == y.current_time
    &&& x.carry == y.carry
}

/// Two timelines at the same time that are in the same iteration and run in
/// the same direction.
pub open spec fn same_place(x: AnimationView, y: AnimationView) -> bool {
    &&& same_time(x, y)
    &&& x.play_count == y.play_count
    &&& x.is_reverse == y.is_reverse
}

/// Two lists of updates are the same, unless one of them is empty.
pub open spec fn same_or_none(x: Seq<Transition>, y: Seq<Transition>) -> bool {
    x == y || x.len() == 0 || y.len() == 0
}

/// Two timelines have come to the same result by resolving a position that is
/// or is not on the terminal frame.
///
/// Between keyframes they are on the same keyframe at the same progress, and
/// if both have updates pending, they are the same updates. On the terminal
/// frame, without a forward fill, both have the recorded values pending and
/// are ended and finished; with one, both are in the end delay, and both are
/// finished or neither is.
pub open spec fn resolved_alike(x: AnimationView, y: AnimationView, terminal: bool) -> bool {
    if !terminal {
        &&& x.index == y.index
        &&& x.percent == y.percent
        &&& same_or_none(x.transition, y.transition)
    } else if y.fill == FORWARDS || y.fill == BOTH {
        &&& x.is_end_delay && y.is_end_delay
        &&& x.finished == y.finished
    } else {
        &&& x.transition == y.transition
        &&& x.finished && y.finished
        &&& x.end && y.end
    }
}

/// The timeline as a tick that is let through finds it: the clock moved on,
/// the time gathered for the frame rate dropped.
pub open spec fn let_through(m: AnimationView, diff: int) -> AnimationView {
    AnimationView { fps_time: 0, first_play: false, ..m.clocked(diff) }
}

/// The timeline as it enters the iteration of its position, once past the
/// delay.
#[verifier::opaque]
pub open spec fn entered(m: AnimationView) -> AnimationView {
    (AnimationView { is_delay: false, begin: m.begin || m.is_delay, ..m }).enter(
        m.iteration_at(m.current_time - m.lead()),
    )
}

/// Resolving a position changes neither setup nor time nor place.
proof fn lemma_resolve_keeps_place(x: AnimationView, dur: int, pos: int)
    ensures
        same_place(x.resolve(dur, pos), x),
        x.inhabited() ==> x.resolve(dur, pos).inhabited(),
        x.resolve(dur, pos).is_delay == x.is_delay,
        x.finished ==> x.resolve(dur, pos).finished,
{
    reveal(AnimationView::resolve);
}

/// Entering the iteration of the position changes neither setup nor time. It
/// leads into that iteration if the timeline was in an earlier one, and gives
/// it the direction of that iteration then.
proof fn lemma_entered(m: AnimationView)
    ensures
        ({
            let count = m.iteration_at(m.current_time - m.lead());
            &&& same_time(entered(m), m)
            &&& entered(m).finished == m.finished
            &&& entered(m).play_count == (if m.play_count < count {
                count
            } else {
                m.play_count
            })
            &&& entered(m).is_reverse == (if m.play_count < count {
                reversed_on(m.direction, count)
            } else {
                m.is_reverse
            })
            &&& m.inhabited() && !m.delayed() ==> entered(m).inhabited()
        }),
{
    reveal(entered);
    if m.inhabited() && !m.delayed() {
        lemma_div_is_ordered(0, m.current_time - m.lead(), m.active_duration());
    }
}

/// Looking up the clock changes neither setup nor time, never goes back an
/// iteration, and never takes back that the timeline is finished.
proof fn lemma_located(m: AnimationView)
    ensures
        same_time(m.located(), m),
        m.inhabited() ==> m.located().inhabited(),
        m.located().is_delay == m.delayed(),
        m.delayed() ==> same_place(m.located(), m),
        !m.delayed() ==> m.located() == entered(m).resolve(m.active_duration(), m.local_position()),
        !m.delayed() ==> same_place(m.located(), entered(m)),
        m.finished ==> m.located().finished,
        m.delayed() ==> m.located().finished == m.finished,
{
    reveal(AnimationView::located);
    reveal(entered);
    lemma_entered(m);
    if !m.delayed() {
        lemma_resolve_keeps_place(entered(m), m.active_duration(), m.local_position());
    }
}

/// Two timelines at the same place resolve a position alike, provided the
/// first is finished if the second is, and where they fill forwards and only
/// the first is finished, the position is past the end delay.
proof fn lemma_resolve_alike(x: AnimationView, y: AnimationView, dur: int, pos: int)
    requires
        same_place(x, y),
        y.finished ==> x.finished,
        x.finished && !y.finished && (y.fill == FORWARDS || y.fill == BOTH) ==> pos >= dur
            + y.end_delay,
    ensures
        x.terminal_at(dur, pos) == y.terminal_at(dur, pos),
        y.current_frames().len() > 0 ==> resolved_alike(
            x.resolve(dur, pos),
            y.resolve(dur, pos),
            y.terminal_at(dur, pos),
        ),
{
    reveal(AnimationView::resolve);
}

/// A timeline is newly finished by resolving a position only on the terminal
/// frame, and if it fills forwards, only past the end delay.
proof fn lemma_newly_finished(x: AnimationView, dur: int, pos: int)
    requires
        x.resolve(dur, pos).finished,
        !x.finished,
    ensures
        x.terminal_at(dur, pos),
        x.fill == FORWARDS || x.fill == BOTH ==> pos >= dur + x.end_delay,
{
    reveal(AnimationView::resolve);
}

/// The position within the last iteration is past the end delay exactly when
/// the position within the animation is past all iterations and the end
/// delay. Within no other iteration is it ever that far.
proof fn lemma_past_the_end(m: AnimationView)
    requires
        m.inhabited(),
        !m.delayed(),
    ensures
        ({
            let pos = m.current_time - m.lead();
            let dur = m.active_duration();
            let past = m.local_position() >= dur + m.end_delay;
            &&& m.iterations > 0 ==> (past <==> pos >= dur * m.iterations + m.end_delay)
            &&& m.iterations == 0 ==> !past
        }),
{
    let pos = m.current_time - m.lead();
    let dur = m.active_duration();
    let n = m.iterations;
    let whole = pos / dur;
    lemma_fundamental_div_mod(pos, dur);
    if n > 0 && whole > n - 1 {
        assert(dur * (n - 1) + dur == dur * n) by (nonlinear_arith);
    } else {
        assert(m.local_position() == pos % dur);
        if n > 0 {
            assert(dur * (whole + 1) <= dur * n) by (nonlinear_arith)
                requires
                    whole + 1 <= n,
                    0 < dur,
            ;
            assert(dur * (whole + 1) == dur * whole + dur) by (nonlinear_arith);
        }
    }
}

/// A tick changes neither keyframes nor recorded values nor configuration nor
/// play state.
pub proof fn lemma_advance_keeps_setup(m: AnimationView, diff: int)
    ensures
        same_setup(m.advance(diff), m),
{
    lemma_located(let_through(m, diff));
}

/// A tick of a running timeline without a frame-rate cap is let through.
proof fn lemma_advance_uncapped(m: AnimationView, diff: int)
    requires
        m.play_state == RUNNING,
        m.uncapped(),
    ensures
        m.advance(diff) == let_through(m, diff).located(),
{
    assert(!m.skips(diff));
}

/// Letting a tick through changes neither setup nor place; it moves the clock
/// as `clocked` says, and not backwards.
proof fn lemma_let_through(m: AnimationView, diff: int)
    requires
        m.inhabited(),
        0 <= diff,
    ensures
        same_setup(let_through(m, diff), m),
        let_through(m, diff).inhabited(),
        let_through(m, diff).play_count == m.play_count,
        let_through(m, diff).is_reverse == m.is_reverse,
        let_through(m, diff).finished == m.finished,
        let_through(m, diff).current_time == m.clocked(diff).current_time,
        let_through(m, diff).carry == m.clocked(diff).carry,
        m.current_time <= let_through(m, diff).current_time,
{
    let unit = RATE_UNIT as int;
    assert(0 <= m.scaled(diff)) by (nonlinear_arith)
        requires
            m.scaled(diff) == diff * m.effective_rate() + m.carry,
            0 <= diff,
            0 <= m.effective_rate(),
            0 <= m.carry,
    ;
    lemma_div_is_ordered(0, m.scaled(diff), unit);
    lemma_fundamental_div_mod(m.scaled(diff), unit);
}

/// The clock of a timeline depends on nothing but its time and rate.
proof fn lemma_clocked_alike(x: AnimationView, y: AnimationView, diff: int)
    requires
        x.current_time == y.current_time,
        x.carry == y.carry,
        x.playback_rate == y.playback_rate,
    ensures
        x.clocked(diff).current_time == y.clocked(diff).current_time,
        x.clocked(diff).carry == y.clocked(diff).carry,
{
}

/// The iteration of a later time is not an earlier one.
proof fn lemma_iteration_is_ordered(early: AnimationView, late: AnimationView)
    requires
        same_setup(early, late),
        late.inhabited(),
        early.lead() <= early.current_time <= late.current_time,
    ensures
        early.iteration_at(early.current_time - early.lead()) <= late.iteration_at(
            late.current_time - late.lead(),
        ),
{
    lemma_div_is_ordered(
        early.current_time - early.lead(),
        late.current_time - late.lead(),
        late.active_duration(),
    );
}

/// Two timelines at the same time enter the same place, where the first has
/// been left in the place that an earlier look at the clock entered, and the
/// second in the place that that look started from.
proof fn lemma_entered_twice(first: AnimationView, second: AnimationView, whole: AnimationView)
    requires
        whole.inhabited(),
        same_setup(first, whole),
        first.play_count == whole.play_count,
        first.is_reverse == whole.is_reverse,
        first.current_time <= whole.current_time,
        same_time(second, whole),
        !whole.delayed(),
        first.delayed() ==> second.play_count == first.play_count && second.is_reverse
            == first.is_reverse,
        !first.delayed() ==> second.play_count == entered(first).play_count && second.is_reverse
            == entered(first).is_reverse,
    ensures
        same_place(entered(second), entered(whole)),
{
    lemma_entered(first);
    lemma_entered(second);
    lemma_entered(whole);
    if !first.delayed() {
        lemma_iteration_is_ordered(first, whole);
    }
}

/// Where two timelines end up that were let through at the same time, the
/// first after an earlier look at the clock, the second at once.
proof fn lemma_located_twice(first: AnimationView, second: AnimationView, whole: AnimationView)
    requires
        whole.inhabited(),
        same_setup(first, whole),
        first.play_count == whole.play_count,
        first.is_reverse == whole.is_reverse,
        first.finished == whole.finished,
        first.current_time <= whole.current_time,
        same_time(second, whole),
        first.inhabited(),
        0 <= first.current_time,
        second.play_count == first.located().play_count,
        second.is_reverse == first.located().is_reverse,
        second.finished == first.located().finished,
    ensures
        same_place(second.located(), whole.located()),
        second.located().is_delay == whole.located().is_delay,
        whole.located().delayed() == whole.delayed(),
        !whole.delayed() && whole.located().current_frames().len() > 0 ==> resolved_alike(
            second.located(),
            whole.located(),
            whole.located().terminal(),
        ),
{
    lemma_located(first);
    lemma_located(second);
    lemma_located(whole);
    if !whole.delayed() {
        let dur = whole.active_duration();
        let pos = whole.local_position();
        lemma_entered_twice(first, second, whole);
        lemma_entered(second);
        lemma_entered(whole);
        if second.finished && !whole.finished && (whole.fill == FORWARDS || whole.fill == BOTH) {
            // The earlier look at the clock has finished the timeline: it was
            // past the end then, and is so all the more now.
            lemma_entered(first);
            lemma_newly_finished(entered(first), first.active_duration(), first.local_position());
            lemma_past_the_end(first);
            lemma_past_the_end(whole);
        }
        lemma_resolve_alike(entered(second), entered(whole), dur, pos);
        lemma_terminal_is_kept(entered(whole), dur, pos);
    }
}

/// Resolving a position does not change whether it is on the terminal
/// frame, nor the keyframes of the current direction.
proof fn lemma_terminal_is_kept(x: AnimationView, dur: int, pos: int)
    ensures
        x.resolve(dur, pos).terminal_at(dur, pos) == x.terminal_at(dur, pos),
        x.resolve(dur, pos).current_frames() == x.current_frames(),
{
    reveal(AnimationView::resolve);
}

/// Advancing in two ticks leaves the timeline where one tick of their sum
/// leaves it.
///
/// For a running timeline without a frame-rate cap, the clock, the iteration,
/// the direction and the delay mark are the same either way. Past the delay,
/// what the two ways resolve is alike: between keyframes the keyframe and the
/// progress, and with them every value that is resolved from them; on the
/// terminal frame the recorded values, or the end delay.
pub proof fn lemma_advance_splits(m: AnimationView, a: int, b: int)
    requires
        m.inhabited(),
        m.play_state == RUNNING,
        m.uncapped(),
        0 <= a,
        0 <= b,
    ensures
        ({
            let two = m.advance(a).advance(b);
            let one = m.advance(a + b);
            &&& same_place(two, one)
            &&& two.is_delay == one.is_delay
            &&& !one.delayed() && one.current_frames().len() > 0 ==> resolved_alike(
                two,
                one,
                one.terminal(),
            )
        }),
{
    let first = let_through(m, a);
    let mid = first.located();
    let second = let_through(mid, b);
    let whole = let_through(m, a + b);
    lemma_advance_uncapped(m, a);
    lemma_advance_uncapped(m, a + b);
    lemma_let_through(m, a);
    lemma_let_through(m, a + b);
    lemma_located(first);
    lemma_advance_uncapped(mid, b);
    lemma_let_through(mid, b);
    lemma_clock_splits(m, a, b);
    lemma_clocked_alike(mid, m.clocked(a), b);
    lemma_located_twice(first, second, whole);
}

/// One tick of any length takes a timeline that has just been started into
/// the iteration of its position, however many iterations that skips, and
/// gives it the direction of that iteration.
pub proof fn lemma_tick_enters_iteration(m: AnimationView, diff: int)
    requires
        m.inhabited(),
        m.uncapped(),
        0 <= diff,
    ensures
        ({
            let started = m.restart();
            let after = started.advance(diff);
            &&& after.current_time == started.scaled(diff) / (RATE_UNIT as int)
            &&& !after.delayed() ==> {
                &&& after.play_count == m.iteration_at(after.current_time - m.lead())
                &&& after.is_reverse == reversed_on(m.direction, after.play_count)
                &&& m.iterations > 0 ==> after.play_count <= m.iterations - 1
            }
            &&& after.delayed() ==> after.play_count == 0 && after.is_delay
        }),
{
    let started = m.restart();
    lemma_advance_uncapped(started, diff);
    lemma_let_through(started, diff);
    let through = let_through(started, diff);
    lemma_located(through);
    lemma_entered(through);
    if !through.delayed() {
        let pos = through.current_time - through.lead();
        lemma_div_is_ordered(0, pos, through.active_duration());
    }
}

/// On the terminal frame a timeline that does not fill forwards puts back
/// the recorded values, not the values of the last keyframe, and is ended and
/// finished at once.
pub proof fn lemma_terminal_restores(m: AnimationView, dur: int, pos: int)
    requires
        m.current_frames().len() > 0,
        m.terminal_at(dur, pos),
        m.fill != FORWARDS,
        m.fill != BOTH,
    ensures
        m.resolve(dur, pos).transition == spec_restore(m.origin),
        m.resolve(dur, pos).end,
        m.resolve(dur, pos).finished,
{
    reveal(AnimationView::resolve);
}

/// On the terminal frame a timeline that fills forwards emits the values of
/// the last keyframe when it comes there, and nothing when it is there
/// again; and it is not finished before the position has passed the end
/// delay, unless it was finished already.
pub proof fn lemma_terminal_holds_once(m: AnimationView, dur: int, pos: int)
    requires
        m.current_frames().len() > 0,
        m.terminal_at(dur, pos),
        m.fill == FORWARDS || m.fill == BOTH,
    ensures
        ({
            let first = m.resolve(dur, pos);
            &&& first.is_end_delay
            &&& !m.is_end_delay ==> first.end && first.transition == spec_last(
                m.current_frames().last().list,
            )
            &&& m.is_end_delay ==> first.transition.len() == 0 && first.end == m.end
            &&& first.finished == (m.finished || pos >= dur + m.end_delay)
            &&& first.terminal_at(dur, pos) && first.resolve(dur, pos).transition.len() == 0
        }),
{
    reveal(AnimationView::resolve);
}

/// Between keyframes the updates are those of the moving properties of the
/// keyframe that the position falls on, if the cursor moves, and none if it
/// stays: a position that is resolved twice emits nothing the second time.
pub proof fn lemma_interval_emits_on_change(m: AnimationView, dur: int, pos: int)
    requires
        m.current_frames().len() > 0,
        !m.terminal_at(dur, pos),
    ensures
        ({
            let idx = m.index_at(dur, pos);
            let first = m.resolve(dur, pos);
            &&& first.index == Some(idx)
            &&& first.percent == m.percent_at(idx, pos)
            &&& first.transition == (if m.moves_to(idx, first.percent) {
                spec_intermediate(m.current_frames()[idx].list)
            } else {
                Seq::empty()
            })
            &&& first.resolve(dur, pos).transition.len() == 0
        }),
{
    reveal(AnimationView::resolve);
    let idx = m.index_at(dur, pos);
    let first = m.resolve(dur, pos);
    assert(first.index_at(dur, pos) == idx);
    assert(!first.terminal_at(dur, pos));
    assert(first.percent_at(idx, pos) == first.percent);
    assert(first.percent.same_value(first.percent));
}

/// Seeking to a time puts the cursor where one tick of that time puts a
/// timeline that has just been started, at normal speed and without a
/// frame-rate cap: the same clock, iteration, direction, keyframe and
/// progress. Only the play state differs, and a seek stays paused.
pub proof fn lemma_seek_is_tick_from_start(m: AnimationView, v: int)
    requires
        m.inhabited(),
        m.uncapped(),
        m.effective_rate() == RATE_UNIT,
        0 <= v,
    ensures
        ({
            let sought = m.restart().seek(v, m.active_duration());
            let ticked = m.restart().advance(v);
            &&& sought.current_time == ticked.current_time
            &&& sought.carry == ticked.carry
            &&& sought.play_count == ticked.play_count
            &&& sought.is_reverse == ticked.is_reverse
            &&& sought.is_delay == ticked.is_delay
            &&& sought.index == ticked.index
            &&& sought.percent == ticked.percent
            &&& sought.transition == ticked.transition
            &&& sought.finished == ticked.finished
            &&& sought.play_state == PAUSED
        }),
{
    let started = m.restart();
    lemma_advance_uncapped(started, v);
    lemma_let_through(started, v);
    let through = let_through(started, v);
    assert(through.current_time == v && through.carry == 0) by {
        let unit = RATE_UNIT as int;
        assert(started.scaled(v) == v * unit);
        lemma_fundamental_div_mod(v * unit, unit);
        lemma_div_multiples_vanish(v, unit);
        lemma_mod_multiples_basic(v, unit);
    }
    reveal(AnimationView::located);
    if !through.delayed() {
        let dur = m.active_duration();
        let pos = v - m.lead();
        lemma_div_is_ordered(0, pos, dur);
        let count = started.iteration_at(pos);
        let by_tick = (AnimationView {
            is_delay: false,
            begin: through.begin || through.is_delay,
            ..through
        }).enter(count);
        let by_seek = AnimationView {
            is_delay: false,
            play_count: count,
            is_reverse: reversed_on(m.direction, count),
            play_state: PAUSED,
            current_time: v,
            carry: 0,
            transition: Seq::empty(),
            ..started
        };
        assert(started.seek(v, dur) == by_seek.resolve(dur, pos - dur * count));
        assert(started.advance(v) == by_tick.resolve(dur, pos - dur * count));
        lemma_resolve_from_start(by_seek, by_tick, dur, pos - dur * count);
    }
}

/// Two timelines on no keyframe yet, at the same place but for their play
/// state and their marks, resolve a position to the same cursor and updates.
proof fn lemma_resolve_from_start(x: AnimationView, y: AnimationView, dur: int, pos: int)
    requires
        x.frames == y.frames,
        x.frames_r == y.frames_r,
        x.origin == y.origin,
        x.is_reverse == y.is_reverse,
        x.play_count == y.play_count,
        x.iterations == y.iterations,
        x.duration == y.duration,
        x.end_delay == y.end_delay,
        x.fill == y.fill,
        x.index == y.index,
        x.percent == y.percent,
        x.is_end_delay == y.is_end_delay,
        x.finished == y.finished,
        x.is_delay == y.is_delay,
        x.current_time == y.current_time,
        x.carry == y.carry,
    ensures
        x.resolve(dur, pos).index == y.resolve(dur, pos).index,
        x.resolve(dur, pos).percent == y.resolve(dur, pos).percent,
        x.resolve(dur, pos).transition == y.resolve(dur, pos).transition,
        x.resolve(dur, pos).finished == y.resolve(dur, pos).finished,
        x.resolve(dur, pos).is_delay == y.resolve(dur, pos).is_delay,
        x.resolve(dur, pos).play_count == y.resolve(dur, pos).play_count,
        x.resolve(dur, pos).is_reverse == y.resolve(dur, pos).is_reverse,
        x.resolve(dur, pos).current_time == y.resolve(dur, pos).current_time,
        x.resolve(dur, pos).carry == y.resolve(dur, pos).carry,
        x.resolve(dur, pos).play_state == x.play_state,
{
    reveal(AnimationView::resolve);
}

/// Halfway through the duration, a timeline of two keyframes is at one half.
pub proof fn lemma_two_keyframes_halfway(m: AnimationView, dur: int, pos: int)
    requires
        m.current_frames().len() == 2,
        m.duration > 0,
        2 * pos == m.duration,
    ensures
        m.percent_at(m.index_at(dur, pos), pos).is_half(),
        !m.terminal_at(dur, pos) ==> m.resolve(dur, pos).percent.is_half(),
{
    reveal(AnimationView::resolve);
}

/// A position that is exactly the time of a keyframe falls on that keyframe,
/// or on a later one with the same time: never on the one before.
pub proof fn lemma_tie_goes_to_the_later(frames: Seq<FrameView>, i: int)
    requires
        0 <= i < frames.len(),
    ensures
        i <= keyframe_at(frames, frames[i].time) < frames.len(),
        frames[keyframe_at(frames, frames[i].time)].time <= frames[i].time,
{
    lemma_keyframe_at(frames, frames[i].time);
}

} // verus!
