//! Finding the keyframe that a position falls on.
use vstd::prelude::*;
use crate::animation::frame::{Frame, FrameView, ascending, views};

verus! {

/// The keyframe at a position: the last one whose time is not after it. Where
/// several keyframes share that time it is the last of them, and before the
/// first keyframe it is the first.
pub open spec fn keyframe_at(frames: Seq<FrameView>, time: int) -> int
    decreases frames.len(),
{
    if frames.len() <= 1 {
        0
    } else if frames.last().time <= time {
        frames.len() - 1
    } else {
        keyframe_at(frames.drop_last(), time)
    }
}

/// `r` is the last index from `i` to `j` whose keyframe is not after `time`,
/// or `i` where there is none.
pub open spec fn is_keyframe_at(frames: Seq<FrameView>, i: int, j: int, time: int, r: int) -> bool {
    &&& i <= r <= j
    &&& r == i || frames[r].time <= time
    &&& forall|k: int| r < k <= j ==> frames[k].time > time
}

/// What `keyframe_at` is, said without recursion.
pub proof fn lemma_keyframe_at(frames: Seq<FrameView>, time: int)
    requires
        frames.len() > 0,
    ensures
        is_keyframe_at(frames, 0, frames.len() - 1, time, keyframe_at(frames, time)),
    decreases frames.len(),
{
    if frames.len() > 1 && frames.last().time > time {
        let init = frames.drop_last();
        lemma_keyframe_at(init, time);
        let r = keyframe_at(init, time);
        assert forall|k: int| r < k <= frames.len() - 1 implies frames[k].time > time by {
            if k < init.len() {
                assert(init[k] == frames[k]);
            }
        }
        assert(init[r] == frames[r]);
    }
}

/// At most one index is the keyframe at a position.
pub proof fn lemma_keyframe_at_unique(frames: Seq<FrameView>, i: int, j: int, time: int, r: int, s: int)
    requires
        is_keyframe_at(frames, i, j, time, r),
        is_keyframe_at(frames, i, j, time, s),
    ensures
        r == s,
{
}

/// Searches the keyframes from `i` to `j` for the one that `time` falls on: the
/// last whose time is not after `time`. A position that is exactly the time of
/// a keyframe falls on that keyframe, not on the one before it. Where no
/// keyframe of the range is early enough the answer is `i`.
pub fn binary_search(i: usize, j: usize, time: u64, frames: &Vec<Frame>) -> (r: usize)
    requires
        i <= j < frames.len(),
        ascending(views(frames@)),
    ensures
        is_keyframe_at(views(frames@), i as int, j as int, time as int, r as int),
        i == 0 && j == frames.len() - 1 ==> r == keyframe_at(views(frames@), time as int),
{
    let mut lo: usize = i;
    let mut hi: usize = j;
    while lo < hi
        invariant
            i <= lo <= hi <= j < frames.len(),
            ascending(views(frames@)),
            lo == i || views(frames@)[lo as int].time <= time,
            forall|k: int| hi < k <= j ==> (#[trigger] views(frames@)[k]).time > time,
        decreases hi - lo,
    {
        let middle: usize = lo + (hi - lo + 1) / 2;
        if frames[middle].time <= time {
            assert(views(frames@)[middle as int].time == frames@[middle as int].time);
            lo = middle;
        } else {
            assert(views(frames@)[middle as int].time == frames@[middle as int].time);
            assert forall|k: int| middle - 1 < k <= j implies (#[trigger] views(frames@)[k]).time
                > time by {
                assert(views(frames@)[middle as int].time <= views(frames@)[k].time);
            }
            hi = middle - 1;
        }
    }
    proof {
        if i == 0 && j == frames.len() - 1 {
            let v = views(frames@);
            lemma_keyframe_at(v, time as int);
            lemma_keyframe_at_unique(v, 0, j as int, time as int, lo as int, keyframe_at(v, time as int));
        }
    }
    lo
}

} // verus!
