use anim_core::animation::easing::{Eased, EASE_CUSTOM, EASE_IN, LINEAR};
use anim_core::animation::frame::Transition;
use anim_core::animation::model::{ALTERNATE, ALTERNATE_REVERSE, NORMAL, REVERSE};
use anim_core::animation::model::{BOTH, FORWARDS, NONE};
use anim_core::animation::model::{EVENT_BEGIN, EVENT_END, EVENT_FINISH, EVENT_FRAME};
use anim_core::animation::model::{FINISH, IDLE, PAUSED, RUNNING};
use anim_core::animation::{Animation, BezierEnum};
use anim_core::math::fraction::Fraction;
use anim_core::style::key::{OPACITY, TRANSLATE_X, TRANSLATE_Y};
use anim_core::style::unit::{NUMBER, PX};

fn bits(x: f64) -> u64 {
    x.to_bits()
}

fn plain(direction: u8, duration: u64, fill: u8, iterations: u64) -> Animation {
    Animation::new(direction, duration, 0, 0, 0, fill, 1000, iterations, 0, 0, LINEAR)
}

/// Two keyframes in each direction that move opacity between one and zero.
fn fade(ani: &mut Animation, duration: u64) {
    ani.add_frame(false, 0, 0, 0, 0, 0, 0);
    ani.add_item(false, OPACITY, bits(1.0), NUMBER, bits(-1.0));
    ani.add_frame(false, duration, 0, 0, 0, 0, 0);
    ani.add_item(false, OPACITY, bits(0.0), NUMBER, bits(0.0));
    ani.add_frame(true, 0, 0, 0, 0, 0, 0);
    ani.add_item(true, OPACITY, bits(0.0), NUMBER, bits(1.0));
    ani.add_frame(true, duration, 0, 0, 0, 0, 0);
    ani.add_item(true, OPACITY, bits(1.0), NUMBER, bits(0.0));
    ani.add_origin(OPACITY, bits(1.0), NUMBER);
}

#[test]
fn new_timeline_is_idle_and_empty() {
    let ani = Animation::new(ALTERNATE_REVERSE, 1000, 30, 10, 20, BOTH, 500, 3, 1, 2, EASE_IN);
    assert_eq!(ani.play_state, IDLE);
    assert_eq!(ani.direction, ALTERNATE_REVERSE);
    assert_eq!(ani.duration, 1000);
    assert_eq!(ani.fps, 30);
    assert_eq!(ani.delay, 10);
    assert_eq!(ani.end_delay, 20);
    assert_eq!(ani.fill, BOTH);
    assert_eq!(ani.playback_rate, 500);
    assert_eq!(ani.iterations, 3);
    assert_eq!(ani.area_start, 1);
    assert_eq!(ani.area_duration, 2);
    assert_eq!(ani.easing, EASE_IN);
    assert!(ani.is_reverse);
    assert!(ani.first_play);
    assert!(ani.begin);
    assert_eq!(ani.index, None);
    assert_eq!(ani.current_time, 0);
    assert!(ani.frames.is_empty() && ani.frames_r.is_empty());
    assert!(ani.get_transition().is_empty());
    assert!(!Animation::new(ALTERNATE, 1, 0, 0, 0, NONE, 0, 0, 0, 0, 0).is_reverse);
    assert!(Animation::new(REVERSE, 1, 0, 0, 0, NONE, 0, 0, 0, 0, 0).is_reverse);
}

#[test]
fn two_keyframes_halfway_is_one_half() {
    for duration in [2u64, 1000, 123_456] {
        let mut ani = plain(NORMAL, duration, FORWARDS, 1);
        fade(&mut ani, duration);
        ani.play();
        assert!(ani.before(duration / 2));
        assert_eq!(ani.index, Some(0));
        assert_eq!(ani.percent, Fraction { num: duration / 2, den: duration });
        assert_eq!(2 * ani.percent.num, ani.percent.den);
        assert!(ani.percent.equals(&Fraction { num: 1, den: 2 }));
    }
}

#[test]
fn position_on_a_keyframe_resolves_to_it() {
    let mut ani = plain(NORMAL, 1000, FORWARDS, 1);
    ani.add_frame(false, 0, 0, 0, 0, 0, 0);
    ani.add_item(false, TRANSLATE_X, bits(0.0), PX, bits(10.0));
    ani.add_frame(false, 500, 0, 0, 0, 0, 0);
    ani.add_item(false, TRANSLATE_X, bits(10.0), PX, bits(30.0));
    ani.add_frame(false, 1000, 0, 0, 0, 0, 0);
    ani.add_item(false, TRANSLATE_X, bits(40.0), PX, bits(0.0));
    ani.play();
    assert!(ani.before(500));
    assert_eq!(ani.index, Some(1));
    assert_eq!(ani.percent, Fraction { num: 0, den: 500 });
    assert_eq!(
        ani.get_transition(),
        &vec![Transition { k: TRANSLATE_X, v: bits(10.0), u: PX, d: bits(30.0) }]
    );
}

#[test]
fn progress_between_keyframes_is_time_since_over_time_between() {
    let mut ani = plain(NORMAL, 1000, FORWARDS, 1);
    ani.add_frame(false, 0, 0, 0, 0, 0, 0);
    ani.add_item(false, TRANSLATE_X, bits(0.0), PX, bits(10.0));
    ani.add_frame(false, 400, 0, 0, 0, 0, 0);
    ani.add_item(false, TRANSLATE_X, bits(10.0), PX, bits(30.0));
    ani.add_frame(false, 1000, 0, 0, 0, 0, 0);
    ani.add_item(false, TRANSLATE_X, bits(40.0), PX, bits(0.0));
    ani.play();
    assert!(ani.before(700));
    assert_eq!(ani.index, Some(1));
    assert_eq!(ani.percent, Fraction { num: 300, den: 600 });
    assert!(ani.percent.equals(&Fraction { num: 1, den: 2 }));
    assert!(ani.before(100));
    assert_eq!(ani.index, Some(1));
    assert_eq!(ani.percent, Fraction { num: 400, den: 600 });
}

#[test]
fn two_advances_resolve_like_one() {
    let build = || {
        let mut ani = plain(ALTERNATE, 1000, FORWARDS, 4);
        fade(&mut ani, 1000);
        ani.play();
        ani
    };
    for (a, b) in [(300u64, 450u64), (0, 750), (750, 0), (1200, 900), (10, 2890), (999, 1)] {
        let mut two = build();
        two.before(a);
        two.after();
        let changed = two.before(b);
        let mut one = build();
        one.before(a + b);
        assert_eq!(two.current_time, one.current_time);
        assert_eq!(two.play_count, one.play_count);
        assert_eq!(two.is_reverse, one.is_reverse);
        assert_eq!(two.index, one.index);
        assert_eq!(two.percent, one.percent);
        if changed {
            assert_eq!(two.get_transition(), one.get_transition());
        }
    }
}

#[test]
fn scaled_time_is_not_lost_between_ticks() {
    let mut two = Animation::new(NORMAL, 1000, 0, 0, 0, FORWARDS, 1500, 1, 0, 0, LINEAR);
    fade(&mut two, 1000);
    two.play();
    two.before(1);
    assert_eq!((two.current_time, two.carry), (1, 500));
    two.before(1);
    assert_eq!((two.current_time, two.carry), (3, 0));
    let mut one = Animation::new(NORMAL, 1000, 0, 0, 0, FORWARDS, 1500, 1, 0, 0, LINEAR);
    fade(&mut one, 1000);
    one.play();
    one.before(2);
    assert_eq!((one.current_time, one.carry), (3, 0));
    assert_eq!(one.percent, two.percent);
}

#[test]
fn a_rate_of_zero_is_normal_speed() {
    let mut ani = Animation::new(NORMAL, 1000, 0, 0, 0, FORWARDS, 0, 1, 0, 0, LINEAR);
    fade(&mut ani, 1000);
    ani.play();
    assert!(ani.before(250));
    assert_eq!(ani.current_time, 250);
    assert_eq!(ani.percent, Fraction { num: 250, den: 1000 });
    let mut half = Animation::new(NORMAL, 1000, 0, 0, 0, FORWARDS, 500, 1, 0, 0, LINEAR);
    fade(&mut half, 1000);
    half.play();
    assert!(half.before(250));
    assert_eq!(half.current_time, 125);
}

#[test]
fn a_long_tick_skips_iterations() {
    let mut ani = plain(ALTERNATE, 1000, FORWARDS, 4);
    fade(&mut ani, 1000);
    ani.play();
    assert!(ani.before(3500));
    assert_eq!(ani.play_count, 3);
    assert!(ani.is_reverse);
    assert_eq!(ani.index, Some(0));
    assert_eq!(ani.percent, Fraction { num: 500, den: 1000 });
    assert!(ani.begin);
    assert!(!ani.finished);
    assert_eq!(
        ani.get_transition(),
        &vec![Transition { k: OPACITY, v: bits(0.0), u: NUMBER, d: bits(1.0) }]
    );
}

#[test]
fn alternating_directions_flip_on_the_right_iterations() {
    let mut ani = plain(ALTERNATE, 1000, FORWARDS, 0);
    for (count, reverse) in [(0u64, false), (1, true), (2, false), (7, true)] {
        ani.init_current_frames(count);
        assert_eq!(ani.is_reverse, reverse);
    }
    ani.direction = ALTERNATE_REVERSE;
    for (count, reverse) in [(0u64, true), (1, false), (2, true), (7, false)] {
        ani.init_current_frames(count);
        assert_eq!(ani.is_reverse, reverse);
    }
    ani.direction = REVERSE;
    ani.init_current_frames(4);
    assert!(ani.is_reverse);
    ani.direction = NORMAL;
    ani.init_current_frames(5);
    assert!(!ani.is_reverse);
}

#[test]
fn an_endless_timeline_keeps_iterating() {
    let mut ani = plain(NORMAL, 1000, NONE, 0);
    fade(&mut ani, 1000);
    ani.play();
    assert!(ani.before(1_000_000_250));
    assert_eq!(ani.play_count, 1_000_000);
    assert_eq!(ani.percent, Fraction { num: 250, den: 1000 });
    assert!(!ani.finished);
}

#[test]
fn without_fill_the_recorded_values_come_back() {
    let mut ani = plain(NORMAL, 1000, NONE, 1);
    fade(&mut ani, 1000);
    ani.play();
    assert!(ani.before(600));
    assert_eq!(
        ani.get_transition(),
        &vec![Transition { k: OPACITY, v: bits(1.0), u: NUMBER, d: bits(-1.0) }]
    );
    ani.after();
    assert!(ani.before(400));
    let pending = ani.get_transition();
    assert_eq!(pending.len(), 1);
    assert_eq!(pending[0].k, OPACITY);
    assert_eq!(f64::from_bits(pending[0].v), 1.0);
    assert_eq!(pending[0].d, 0);
    assert!(ani.end);
    assert!(ani.finished);
    assert_eq!(ani.after(), EVENT_FRAME + EVENT_END + EVENT_FINISH);
    assert_eq!(ani.play_state, FINISH);
}

#[test]
fn filling_backwards_restores_like_no_fill() {
    let mut ani = plain(NORMAL, 1000, anim_core::animation::model::BACKWARDS, 1);
    fade(&mut ani, 1000);
    ani.play();
    assert!(ani.before(1000));
    assert_eq!(
        ani.get_transition(),
        &vec![Transition { k: OPACITY, v: bits(1.0), u: NUMBER, d: 0 }]
    );
    assert!(ani.finished);
}

#[test]
fn filling_forwards_holds_through_the_end_delay() {
    let mut ani = Animation::new(NORMAL, 1000, 0, 0, 200, FORWARDS, 1000, 1, 0, 0, LINEAR);
    fade(&mut ani, 1000);
    ani.play();
    assert!(ani.before(1000));
    assert_eq!(
        ani.get_transition(),
        &vec![Transition { k: OPACITY, v: bits(0.0), u: NUMBER, d: 0 }]
    );
    assert!(ani.is_end_delay);
    assert!(ani.end);
    assert!(!ani.finished);
    assert_eq!(ani.after(), EVENT_FRAME + EVENT_BEGIN + EVENT_END);
    assert_eq!(ani.play_state, RUNNING);
    assert!(!ani.before(100));
    assert!(ani.get_transition().is_empty());
    assert!(!ani.end);
    assert!(!ani.finished);
    assert_eq!(ani.after(), EVENT_FRAME);
    assert!(!ani.before(99));
    assert!(!ani.finished);
    assert_eq!(ani.after(), EVENT_FRAME);
    assert!(!ani.before(1));
    assert_eq!(ani.current_time, 1200);
    assert!(ani.finished);
    assert!(ani.get_transition().is_empty());
    assert_eq!(ani.after(), EVENT_FRAME + EVENT_FINISH);
    assert_eq!(ani.play_state, FINISH);
    assert!(!ani.is_end_delay);
}

#[test]
fn a_jump_past_the_end_delay_holds_and_finishes_at_once() {
    let mut ani = Animation::new(NORMAL, 1000, 0, 0, 200, BOTH, 1000, 2, 0, 0, LINEAR);
    fade(&mut ani, 1000);
    ani.play();
    assert!(ani.before(5000));
    assert_eq!(ani.play_count, 1);
    assert!(ani.finished && ani.end && ani.is_end_delay);
    assert_eq!(ani.get_transition().len(), 1);
    assert_eq!(ani.after(), EVENT_FRAME + EVENT_BEGIN + EVENT_END + EVENT_FINISH);
}

#[test]
fn nothing_is_resolved_during_the_delay() {
    let mut ani = Animation::new(NORMAL, 1000, 0, 300, 0, FORWARDS, 1000, 1, 0, 0, LINEAR);
    fade(&mut ani, 1000);
    ani.play();
    assert!(!ani.before(299));
    assert!(ani.is_delay);
    assert!(!ani.begin);
    assert_eq!(ani.index, None);
    assert_eq!(ani.after(), EVENT_FRAME);
    assert!(ani.before(1));
    assert!(!ani.is_delay);
    assert!(ani.begin);
    assert_eq!(ani.index, Some(0));
    assert_eq!(ani.percent, Fraction { num: 0, den: 1000 });
    assert_eq!(ani.after(), EVENT_FRAME + EVENT_BEGIN);
    assert!(ani.before(500));
    assert_eq!(ani.percent, Fraction { num: 500, den: 1000 });
}

#[test]
fn the_active_region_shifts_and_shortens_an_iteration() {
    let mut ani = Animation::new(NORMAL, 1000, 0, 100, 0, FORWARDS, 1000, 3, 400, 600, LINEAR);
    fade(&mut ani, 1000);
    assert_eq!(ani.active_duration(), 600);
    ani.play();
    assert!(ani.before(0));
    assert_eq!(ani.play_count, 0);
    assert_eq!(ani.percent, Fraction { num: 300, den: 1000 });
    assert!(ani.before(400));
    assert_eq!(ani.play_count, 1);
    assert_eq!(ani.percent, Fraction { num: 100, den: 1000 });
    ani.area_duration = 5000;
    assert_eq!(ani.active_duration(), 1000);
    ani.area_duration = 0;
    assert_eq!(ani.active_duration(), 1000);
}

#[test]
fn a_frame_rate_cap_holds_ticks_back() {
    let mut ani = Animation::new(NORMAL, 10_000_000, 10, 0, 0, FORWARDS, 1000, 1, 0, 0, LINEAR);
    fade(&mut ani, 10_000_000);
    ani.play();
    assert!(ani.before(16_000));
    assert!(!ani.first_play);
    assert_eq!(ani.percent.num, 16_000);
    assert_eq!(ani.after(), EVENT_FRAME + EVENT_BEGIN);
    assert!(!ani.before(60_000));
    assert!(ani.in_fps);
    assert_eq!(ani.fps_time, 60_000);
    assert_eq!(ani.current_time, 76_000);
    assert_eq!(ani.percent.num, 16_000);
    assert_eq!(ani.after(), 0);
    assert!(!ani.in_fps);
    assert!(!ani.before(39_999));
    assert_eq!(ani.fps_time, 99_999);
    assert_eq!(ani.after(), 0);
    assert!(ani.before(1));
    assert_eq!(ani.fps_time, 0);
    assert_eq!(ani.percent.num, 116_000);
    assert_eq!(ani.after(), EVENT_FRAME);
}

#[test]
fn rates_of_sixty_and_above_standard_are_uncapped() {
    for fps in [0usize, 60, 120] {
        let mut ani = Animation::new(NORMAL, 1_000_000, fps, 0, 0, FORWARDS, 1000, 1, 0, 0, LINEAR);
        fade(&mut ani, 1_000_000);
        ani.play();
        assert!(ani.before(1));
        assert!(ani.before(1));
        assert!(!ani.in_fps);
        assert_eq!(ani.percent.num, 2);
    }
}

#[test]
fn the_same_position_emits_nothing_new() {
    let mut ani = plain(NORMAL, 1000, FORWARDS, 1);
    fade(&mut ani, 1000);
    ani.play();
    assert!(ani.before(500));
    assert!(!ani.before(0));
    assert!(ani.get_transition().is_empty());
    assert_eq!(ani.index, Some(0));
    assert!(ani.before(1));
}

#[test]
fn a_timeline_without_keyframes_changes_nothing() {
    let mut ani = plain(NORMAL, 1000, NONE, 1);
    ani.add_origin(OPACITY, bits(1.0), NUMBER);
    ani.play();
    assert!(!ani.before(500));
    assert!(!ani.before(5000));
    assert_eq!(ani.index, None);
    assert!(!ani.finished);
    assert!(ani.get_transition().is_empty());
}

#[test]
fn a_single_keyframe_is_the_terminal_frame_of_the_last_iteration() {
    let mut ani = plain(NORMAL, 1000, FORWARDS, 2);
    ani.add_frame(false, 0, 0, 0, 0, 0, 0);
    ani.add_item(false, TRANSLATE_Y, bits(7.0), PX, bits(0.0));
    ani.play();
    assert!(!ani.before(10));
    assert_eq!(ani.index, Some(0));
    assert_eq!(ani.percent, Fraction { num: 0, den: 1 });
    assert!(ani.before(1000));
    assert_eq!(
        ani.get_transition(),
        &vec![Transition { k: TRANSLATE_Y, v: bits(7.0), u: PX, d: 0 }]
    );
    assert_eq!(ani.play_count, 1);
    assert!(!ani.finished);
    assert!(!ani.before(990));
    assert!(ani.finished);
}

#[test]
fn only_a_running_timeline_advances() {
    let mut ani = plain(NORMAL, 1000, FORWARDS, 1);
    fade(&mut ani, 1000);
    assert!(!ani.before(100));
    assert_eq!(ani.current_time, 0);
    ani.play();
    assert!(ani.before(100));
    ani.pause();
    assert_eq!(ani.play_state, PAUSED);
    assert!(!ani.before(100));
    assert_eq!(ani.current_time, 100);
    assert_eq!(ani.percent, Fraction { num: 100, den: 1000 });
    ani.resume();
    assert_eq!(ani.play_state, RUNNING);
    assert!(ani.before(100));
    assert_eq!(ani.current_time, 200);
    assert!(ani.before(800));
    ani.after();
    assert_eq!(ani.play_state, FINISH);
    assert!(!ani.before(100));
    assert_eq!(ani.current_time, 1000);
    ani.pause();
    assert_eq!(ani.play_state, FINISH);
    ani.resume();
    assert_eq!(ani.play_state, FINISH);
}

#[test]
fn play_starts_over() {
    let mut ani = plain(ALTERNATE, 1000, NONE, 2);
    fade(&mut ani, 1000);
    ani.play();
    assert!(ani.before(2000));
    assert!(ani.finished && ani.is_reverse);
    ani.after();
    assert_eq!(ani.play_state, FINISH);
    ani.play();
    assert_eq!(ani.play_state, RUNNING);
    assert_eq!(ani.current_time, 0);
    assert_eq!(ani.play_count, 0);
    assert!(!ani.is_reverse);
    assert!(ani.begin && ani.first_play);
    assert!(!ani.finished && !ani.end);
    assert_eq!(ani.index, None);
    assert!(ani.get_transition().is_empty());
    assert!(ani.before(250));
    assert_eq!(ani.percent, Fraction { num: 250, den: 1000 });
    assert_eq!(
        ani.get_transition(),
        &vec![Transition { k: OPACITY, v: bits(1.0), u: NUMBER, d: bits(-1.0) }]
    );
}

#[test]
fn seeking_pauses_at_the_position() {
    let mut ani = Animation::new(ALTERNATE, 1000, 0, 100, 0, FORWARDS, 1000, 4, 0, 0, LINEAR);
    fade(&mut ani, 1000);
    ani.play();
    assert!(ani.goto_stop(1350, 1000));
    assert_eq!(ani.play_state, PAUSED);
    assert_eq!(ani.current_time, 1350);
    assert_eq!(ani.play_count, 1);
    assert!(ani.is_reverse);
    assert_eq!(ani.percent, Fraction { num: 250, den: 1000 });
    assert!(ani.goto_stop(600, 1000));
    assert_eq!(ani.play_count, 0);
    assert!(!ani.is_reverse);
    assert_eq!(ani.percent, Fraction { num: 500, den: 1000 });
    assert!(!ani.goto_stop(50, 1000));
    assert!(ani.is_delay);
    assert!(ani.can_seek(u64::MAX));
    ani.area_start = 101;
    assert!(!ani.can_seek(u64::MAX));
    assert!(ani.can_seek(u64::MAX - 1));
}

#[test]
fn the_clock_refuses_what_does_not_fit() {
    let mut ani = plain(NORMAL, 1000, FORWARDS, 1);
    ani.play();
    assert!(ani.can_advance(u64::MAX));
    ani.current_time = 1;
    assert!(!ani.can_advance(u64::MAX));
    assert!(ani.can_advance(u64::MAX - 1));
    ani.playback_rate = 2000;
    assert!(!ani.can_advance(u64::MAX / 2 + 1));
    assert!(ani.can_advance(u64::MAX / 2));
    ani.playback_rate = u64::MAX;
    assert!(!ani.can_advance(u64::MAX));
    ani.playback_rate = 1000;
    ani.current_time = 0;
    ani.area_start = 5;
    assert!(!ani.can_advance(u64::MAX - 4));
    assert!(ani.can_advance(u64::MAX - 5));
}

#[test]
fn settling_reports_every_event_once() {
    let mut ani = plain(NORMAL, 1000, NONE, 2);
    fade(&mut ani, 1000);
    ani.play();
    assert!(ani.before(10));
    assert_eq!(ani.after(), EVENT_FRAME + EVENT_BEGIN);
    assert!(ani.before(10));
    assert_eq!(ani.after(), EVENT_FRAME);
    assert!(!ani.before(1000));
    assert_eq!(ani.play_count, 1);
    assert_eq!(ani.percent, Fraction { num: 20, den: 1000 });
    assert_eq!(ani.after(), EVENT_FRAME + EVENT_BEGIN);
    assert!(ani.before(1));
    assert_eq!(ani.after(), EVENT_FRAME);
}

#[test]
fn keyframes_take_the_curve_their_code_names() {
    let half = bits(0.5);
    let mut ani = Animation::new(NORMAL, 1000, 0, 0, 0, NONE, 1000, 1, 0, 0, EASE_IN);
    ani.add_frame(false, 0, 0, 0, 0, 0, 0);
    ani.add_frame(false, 1, LINEAR, 0, 0, 0, 0);
    ani.add_frame(false, 2, EASE_CUSTOM, half, 1, half, 2);
    ani.set_bezier(0, 3, half, 4);
    assert_eq!(ani.easing, EASE_CUSTOM);
    ani.add_frame(false, 3, 0, 0, 0, 0, 0);
    ani.add_frame(false, 4, 200, 0, 0, 0, 0);
    ani.easing = 77;
    ani.add_frame(true, 9, 0, half, half, half, half);
    let curves: Vec<BezierEnum> = ani.frames.iter().map(|f| f.bezier).collect();
    let custom = anim_core::animation::easing::bezier(half, 1, half, 2);
    let inherited = anim_core::animation::Bezier::new(0, 3, half, 4);
    assert_eq!(
        curves,
        vec![
            BezierEnum::EaseIn,
            BezierEnum::Linear,
            BezierEnum::Custom(custom),
            BezierEnum::Custom(inherited),
            BezierEnum::Custom(inherited),
        ]
    );
    assert_eq!(ani.frames[2].easing, EASE_CUSTOM);
    assert_eq!(ani.frames[2].time, 2);
    assert_eq!(ani.frames_r.len(), 1);
    assert_eq!(ani.frames_r[0].bezier, BezierEnum::Linear);
}

#[test]
fn keyframes_are_accepted_in_ascending_order_only() {
    let mut ani = plain(NORMAL, 1000, NONE, 1);
    assert!(ani.accepts(false, 0));
    ani.add_frame(false, 10, 0, 0, 0, 0, 0);
    assert!(ani.accepts(false, 10));
    assert!(ani.accepts(false, 11));
    assert!(!ani.accepts(false, 9));
    assert!(ani.accepts(true, 0));
}

#[test]
fn the_cursor_knows_its_curve() {
    let mut ani = Animation::new(NORMAL, 1000, 0, 0, 0, FORWARDS, 1000, 1, 0, 0, EASE_IN);
    assert_eq!(ani.eased(), Eased::Same);
    fade(&mut ani, 1000);
    ani.play();
    assert!(ani.before(0));
    assert_eq!(ani.eased(), Eased::Same);
    assert!(ani.before(500));
    assert_eq!(ani.eased(), Eased::Through(BezierEnum::EaseIn.control_points()));
    let mut line = plain(NORMAL, 1000, FORWARDS, 1);
    fade(&mut line, 1000);
    line.play();
    assert!(line.before(500));
    assert_eq!(line.eased(), Eased::Same);
}

#[test]
fn clearing_drops_keyframes_and_pending_updates() {
    let mut ani = plain(NORMAL, 1000, FORWARDS, 1);
    fade(&mut ani, 1000);
    ani.play();
    assert!(ani.before(500));
    ani.clear();
    assert!(ani.frames.is_empty() && ani.frames_r.is_empty());
    assert!(ani.get_transition().is_empty());
    assert_eq!(ani.origin.len(), 1);
    assert!(!ani.before(100));
}

#[test]
fn seeking_lands_where_one_tick_from_the_start_lands() {
    let build = |fill: u8| {
        let mut ani = Animation::new(ALTERNATE_REVERSE, 1000, 0, 150, 100, fill, 1000, 3, 50, 800, LINEAR);
        fade(&mut ani, 1000);
        ani.add_frame(false, 1000, 0, 0, 0, 0, 0);
        ani.add_frame(true, 1000, 0, 0, 0, 0, 0);
        ani.play();
        ani
    };
    for fill in [NONE, FORWARDS] {
        for v in [0u64, 99, 100, 101, 500, 899, 900, 901, 1700, 2499, 2500, 2599, 2600, 9000] {
            let mut sought = build(fill);
            let mut ticked = build(fill);
            let dur = sought.active_duration();
            assert_eq!(sought.goto_stop(v, dur), ticked.before(v));
            assert_eq!(sought.play_state, PAUSED);
            assert_eq!(sought.current_time, ticked.current_time);
            assert_eq!(sought.play_count, ticked.play_count);
            assert_eq!(sought.is_reverse, ticked.is_reverse);
            assert_eq!(sought.is_delay, ticked.is_delay);
            assert_eq!(sought.index, ticked.index);
            assert_eq!(sought.percent, ticked.percent);
            assert_eq!(sought.finished, ticked.finished);
            assert_eq!(sought.get_transition(), ticked.get_transition());
        }
    }
}

#[test]
fn a_tick_of_any_length_enters_the_iteration_of_its_position() {
    for (diff, count, reverse) in [(0u64, 0u64, false), (999, 0, false), (1000, 1, true), (2500, 2, false), (7999, 7, true), (8000, 7, true), (1 << 40, 7, true)] {
        let mut ani = plain(ALTERNATE, 1000, FORWARDS, 8);
        fade(&mut ani, 1000);
        ani.play();
        ani.before(diff);
        assert_eq!(ani.play_count, count);
        assert_eq!(ani.is_reverse, reverse);
    }
}

#[test]
fn two_advances_finish_like_one() {
    for fill in [NONE, FORWARDS, BOTH] {
        let build = || {
            let mut ani = Animation::new(ALTERNATE, 1000, 0, 100, 250, fill, 1000, 3, 0, 0, LINEAR);
            fade(&mut ani, 1000);
            ani.play();
            ani
        };
        for (a, b) in [(2900u64, 200u64), (3100, 100), (3100, 249), (3100, 250), (3349, 1), (3350, 0), (3400, 100), (50, 9000)] {
            let mut two = build();
            two.before(a);
            two.before(b);
            let mut one = build();
            one.before(a + b);
            assert_eq!(two.current_time, one.current_time);
            assert_eq!(two.play_count, one.play_count);
            assert_eq!(two.is_reverse, one.is_reverse);
            assert_eq!(two.finished, one.finished, "{fill} {a} {b}");
            assert_eq!(two.is_end_delay, one.is_end_delay);
            if fill == NONE {
                assert_eq!(two.get_transition(), one.get_transition());
            }
        }
    }
}
