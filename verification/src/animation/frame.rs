//! Keyframes and the property records that go in and out of a timeline.
use vstd::prelude::*;
use crate::animation::easing::BezierEnum;
use crate::math::scalar;

verus! {

/// One animated property of a keyframe: its key, its value at the keyframe,
/// the unit of that value, and what has to be added to reach the value at the
/// next keyframe. Both scalars are binary64 patterns.
#[derive(Clone, Copy, Debug, PartialEq, Eq, Structural)]
pub struct FrameItem {
    pub k: usize,
    pub v: u64,
    pub u: usize,
    pub d: u64,
}

impl FrameItem {
    pub fn new(k: usize, v: u64, u: usize, d: u64) -> (item: FrameItem)
        ensures
            item == (FrameItem { k, v, u, d }),
    {
        FrameItem { k, v, u, d }
    }
}

/// The value a property had before the timeline touched it.
#[derive(Clone, Copy, Debug, PartialEq, Eq, Structural)]
pub struct Style {
    pub k: usize,
    pub v: u64,
    pub u: usize,
}

impl Style {
    pub fn new(k: usize, v: u64, u: usize) -> (style: Style)
        ensures
            style == (Style { k, v, u }),
    {
        Style { k, v, u }
    }
}

/// One pending update: property `k` is to become `v + d * p` in unit `u`,
/// where `p` is the timeline's eased progress. With a zero `d` that is `v`
/// itself, whatever the progress.
#[derive(Clone, Copy, Debug, PartialEq, Eq, Structural)]
pub struct Transition {
    pub k: usize,
    pub v: u64,
    pub u: usize,
    pub d: u64,
}

/// A keyframe: a position in time, the curve towards the next keyframe, and
/// the properties it animates.
pub struct Frame {
    pub list: Vec<FrameItem>,
    pub time: u64,
    pub easing: u8,
    pub bezier: BezierEnum,
}

/// A keyframe as a value.
pub struct FrameView {
    pub list: Seq<FrameItem>,
    pub time: int,
    pub easing: u8,
    pub bezier: BezierEnum,
}

impl View for Frame {
    type V = FrameView;

    open spec fn view(&self) -> FrameView {
        FrameView {
            list: self.list@,
            time: self.time as int,
            easing: self.easing,
            bezier: self.bezier,
        }
    }
}

impl Frame {
    /// A keyframe at `time` that animates nothing yet.
    pub fn new(time: u64, easing: u8, bezier: BezierEnum) -> (frame: Frame)
        ensures
            frame@ == (FrameView { list: Seq::empty(), time: time as int, easing, bezier }),
    {
        Frame { list: Vec::new(), time, easing, bezier }
    }
}

/// The keyframes of a list, as values.
pub open spec fn views(frames: Seq<Frame>) -> Seq<FrameView> {
    Seq::new(frames.len(), |i: int| frames[i]@)
}

/// Keyframes stand in ascending order of time; equal times are allowed.
pub open spec fn ascending(frames: Seq<FrameView>) -> bool {
    forall|i: int, j: int| 0 <= i <= j < frames.len() ==> frames[i].time <= frames[j].time
}

/// Every keyframe's curve is a function of time.
pub open spec fn curves_valid(frames: Seq<FrameView>) -> bool {
    forall|i: int| 0 <= i < frames.len() ==> (#[trigger] frames[i]).bezier.spec_control_points().valid()
}

/// The updates of a keyframe interval: one for each property that moves
/// between this keyframe and the next, in the keyframe's order.
pub open spec fn spec_intermediate(list: Seq<FrameItem>) -> Seq<Transition>
    decreases list.len(),
{
    if list.len() == 0 {
        Seq::empty()
    } else {
        let rest = spec_intermediate(list.drop_last());
        let item = list.last();
        if scalar::spec_is_zero(item.d) {
            rest
        } else {
            rest.push(Transition { k: item.k, v: item.v, u: item.u, d: item.d })
        }
    }
}

/// The updates that put every property of a keyframe to its value there.
pub open spec fn spec_last(list: Seq<FrameItem>) -> Seq<Transition> {
    Seq::new(
        list.len(),
        |i: int| Transition { k: list[i].k, v: list[i].v, u: list[i].u, d: scalar::ZERO },
    )
}

/// The updates that put every recorded property back to its recorded value.
pub open spec fn spec_restore(origin: Seq<Style>) -> Seq<Transition> {
    Seq::new(
        origin.len(),
        |i: int| Transition { k: origin[i].k, v: origin[i].v, u: origin[i].u, d: scalar::ZERO },
    )
}

/// Lists the updates of the interval that starts at a keyframe: its moving
/// properties, each with its start value and its delta.
pub fn cal_intermediate_style(current_frame: &Frame) -> (ts: Vec<Transition>)
    ensures
        ts@ == spec_intermediate(current_frame@.list),
{
    let mut ts: Vec<Transition> = Vec::new();
    let n: usize = current_frame.list.len();
    let mut i: usize = 0;
    while i < n
        invariant
            i <= n,
            n == current_frame.list@.len(),
            ts@ == spec_intermediate(current_frame.list@.take(i as int)),
        decreases n - i,
    {
        let item = &current_frame.list[i];
        proof {
            let next = current_frame.list@.take(i + 1);
            assert(next.drop_last() =~= current_frame.list@.take(i as int));
            assert(next.last() == *item);
        }
        if !scalar::is_zero(item.d) {
            ts.push(Transition { k: item.k, v: item.v, u: item.u, d: item.d });
        }
        i += 1;
    }
    assert(current_frame.list@.take(n as int) =~= current_frame.list@);
    ts
}

/// Lists the updates that hold a keyframe: every property at its value there.
pub fn cal_last_style(current_frame: &Frame) -> (ts: Vec<Transition>)
    ensures
        ts@ == spec_last(current_frame@.list),
{
    let mut ts: Vec<Transition> = Vec::new();
    let n: usize = current_frame.list.len();
    let mut i: usize = 0;
    while i < n
        invariant
            i <= n,
            n == current_frame.list@.len(),
            ts@.len() == i,
            forall|j: int| 0 <= j < i ==> ts@[j] == spec_last(current_frame.list@)[j],
        decreases n - i,
    {
        let item = &current_frame.list[i];
        ts.push(Transition { k: item.k, v: item.v, u: item.u, d: scalar::ZERO });
        i += 1;
    }
    assert(ts@ =~= spec_last(current_frame.list@));
    ts
}

/// Lists the updates that restore the recorded values.
pub fn cal_origin_style(origin: &Vec<Style>) -> (ts: Vec<Transition>)
    ensures
        ts@ == spec_restore(origin@),
{
    let mut ts: Vec<Transition> = Vec::new();
    let n: usize = origin.len();
    let mut i: usize = 0;
    while i < n
        invariant
            i <= n,
            n == origin@.len(),
            ts@.len() == i,
            forall|j: int| 0 <= j < i ==> ts@[j] == spec_restore(origin@)[j],
        decreases n - i,
    {
        let item = &origin[i];
        ts.push(Transition { k: item.k, v: item.v, u: item.u, d: scalar::ZERO });
        i += 1;
    }
    assert(ts@ =~= spec_restore(origin@));
    ts
}

} // verus!
