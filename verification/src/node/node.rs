//! A node of the scene: its place in the tree, the changes it has gathered,
//! and the timelines that animate it.
use vstd::prelude::*;
use crate::animation::frame::Transition;
use crate::animation::laws::lemma_advance_keeps_setup;
use crate::animation::model::{AnimationView, RUNNING};
use crate::animation::timeline::Animation;
use crate::refresh::level;

verus! {

/// The level that a list of updates raises: the bits of all its properties.
pub open spec fn spec_level_of(ts: Seq<Transition>) -> usize
    decreases ts.len(),
{
    if ts.len() == 0 {
        level::NONE
    } else {
        spec_level_of(ts.drop_last()) | level::spec_level_of_key(ts.last().k)
    }
}

/// Gathers the level that a list of updates raises.
pub fn level_of(ts: &Vec<Transition>) -> (lv: usize)
    ensures
        lv == spec_level_of(ts@),
{
    let mut lv: usize = level::NONE;
    let n: usize = ts.len();
    let mut i: usize = 0;
    while i < n
        invariant
            i <= n,
            n == ts@.len(),
            lv == spec_level_of(ts@.take(i as int)),
        decreases n - i,
    {
        proof {
            let next = ts@.take(i + 1);
            assert(next.drop_last() =~= ts@.take(i as int));
            assert(next.last() == ts@[i as int]);
        }
        lv = lv | level::level_of_key(ts[i].k);
        i += 1;
    }
    assert(ts@.take(n as int) =~= ts@);
    lv
}

/// A node as a value.
pub struct NodeView {
    pub is_text: bool,
    pub lv: int,
    pub refresh_level: usize,
    pub animations: Seq<AnimationView>,
}

/// The timelines of a node, as values.
pub open spec fn animation_views(animations: Seq<Animation>) -> Seq<AnimationView> {
    Seq::new(animations.len(), |i: int| animations[i]@)
}

/// The level that a tick of `diff` raises on a node with the given timelines:
/// the bits of every update that a running timeline emits.
pub open spec fn spec_tick_level(animations: Seq<AnimationView>, diff: int) -> usize
    decreases animations.len(),
{
    if animations.len() == 0 {
        level::NONE
    } else {
        let rest = spec_tick_level(animations.drop_last(), diff);
        let ani = animations.last();
        if ani.play_state == RUNNING {
            rest | spec_level_of(ani.advance(diff).transition)
        } else {
            rest
        }
    }
}

/// The number of running timelines that emit updates on a tick of `diff`.
pub open spec fn spec_tick_count(animations: Seq<AnimationView>, diff: int) -> int
    decreases animations.len(),
{
    if animations.len() == 0 {
        0
    } else {
        let rest = spec_tick_count(animations.drop_last(), diff);
        let ani = animations.last();
        if ani.play_state == RUNNING && ani.advance(diff).transition.len() > 0 {
            rest + 1
        } else {
            rest
        }
    }
}

/// The number of running timelines.
pub open spec fn spec_running(animations: Seq<AnimationView>) -> int
    decreases animations.len(),
{
    if animations.len() == 0 {
        0
    } else {
        spec_running(animations.drop_last()) + (if animations.last().play_state == RUNNING {
            1int
        } else {
            0int
        })
    }
}

/// The events that settling reports: those of every running timeline, in
/// order.
pub open spec fn spec_events(animations: Seq<AnimationView>) -> Seq<u8>
    decreases animations.len(),
{
    if animations.len() == 0 {
        Seq::empty()
    } else {
        let rest = spec_events(animations.drop_last());
        let ani = animations.last();
        if ani.play_state == RUNNING {
            rest.push(ani.events() as u8)
        } else {
            rest
        }
    }
}

impl NodeView {
    /// The node after a tick of `diff`: every timeline has advanced, and the
    /// level is what this tick raised.
    pub open spec fn tick(self, diff: int) -> NodeView {
        NodeView {
            refresh_level: spec_tick_level(self.animations, diff),
            animations: Seq::new(
                self.animations.len(),
                |i: int| self.animations[i].advance(diff),
            ),
            ..self
        }
    }

    /// The node after its last tick has been settled: every running timeline
    /// is settled.
    pub open spec fn settle(self) -> NodeView {
        NodeView {
            animations: Seq::new(
                self.animations.len(),
                |i: int|
                    if self.animations[i].play_state == RUNNING {
                        self.animations[i].settle()
                    } else {
                        self.animations[i]
                    },
            ),
            ..self
        }
    }
}

/// A node of the scene.
pub struct Node {
    /// Text takes matrix and opacity from its parent.
    pub is_text: bool,
    /// Depth in the tree: zero for the root.
    pub lv: usize,
    /// The changes gathered since the node was last consumed.
    pub refresh_level: usize,
    pub animations: Vec<Animation>,
}

impl View for Node {
    type V = NodeView;

    open spec fn view(&self) -> NodeView {
        NodeView {
            is_text: self.is_text,
            lv: self.lv as int,
            refresh_level: self.refresh_level,
            animations: animation_views(self.animations@),
        }
    }
}

impl Node {
    /// Every timeline is well formed and has a duration.
    pub open spec fn wf(&self) -> bool {
        forall|i: int|
            0 <= i < self.animations.len() ==> (#[trigger] self.animations[i]).wf()
                && self.animations[i].duration > 0
    }

    /// Every running timeline can take a tick of `diff`.
    pub open spec fn spec_can_advance(&self, diff: u64) -> bool {
        forall|i: int|
            0 <= i < self.animations.len() && (#[trigger] self.animations[i]).play_state == RUNNING
                ==> self.animations[i].spec_can_advance(diff)
    }

    /// A node at depth zero, unchanged, without timelines.
    pub fn new(is_text: bool) -> (node: Node)
        ensures
            node.wf(),
            node@ == (NodeView {
                is_text,
                lv: 0,
                refresh_level: level::NONE,
                animations: Seq::empty(),
            }),
    {
        let node = Node { is_text, lv: 0, refresh_level: level::NONE, animations: Vec::new() };
        assert(node@.animations =~= Seq::empty());
        node
    }

    /// Attaches a timeline.
    pub fn add_ani(&mut self, animation: Animation)
        ensures
            final(self)@ == (NodeView {
                animations: old(self)@.animations.push(animation@),
                ..old(self)@
            }),
            old(self).wf() && animation.wf() && animation.duration > 0 ==> final(self).wf(),
    {
        self.animations.push(animation);
        assert(self@.animations =~= old(self)@.animations.push(animation@));
    }

    /// Detaches the timeline at position `i`, if there is one.
    pub fn remove_ani(&mut self, i: usize)
        ensures
            final(self)@ == (NodeView {
                animations: if i < old(self).animations.len() {
                    old(self)@.animations.remove(i as int)
                } else {
                    old(self)@.animations
                },
                ..old(self)@
            }),
            old(self).wf() ==> final(self).wf(),
    {
        if i < self.animations.len() {
            let _ = self.animations.remove(i);
            assert(self@.animations =~= old(self)@.animations.remove(i as int));
        }
    }

    /// Detaches every timeline.
    pub fn clear(&mut self)
        ensures
            final(self)@ == (NodeView { animations: Seq::empty(), ..old(self)@ }),
            final(self).wf(),
    {
        self.animations.clear();
        assert(self@.animations =~= Seq::empty());
    }

    /// The changes gathered since the node was last consumed.
    pub fn get_rl(&self) -> (rl: usize)
        ensures
            rl == self.refresh_level,
    {
        self.refresh_level
    }

    /// Tells whether every running timeline can take a tick of `diff`.
    pub fn can_advance(&self, diff: u64) -> (b: bool)
        ensures
            b == self.spec_can_advance(diff),
    {
        let n: usize = self.animations.len();
        let mut i: usize = 0;
        while i < n
            invariant
                i <= n,
                n == self.animations.len(),
                forall|j: int|
                    0 <= j < i && (#[trigger] self.animations[j]).play_state == RUNNING
                        ==> self.animations[j].spec_can_advance(diff),
            decreases n - i,
        {
            if self.animations[i].play_state == RUNNING && !self.animations[i].can_advance(diff) {
                return false;
            }
            i += 1;
        }
        true
    }

    /// Advances every running timeline by `diff` ticks of host time. The
    /// level starts anew and gathers the bits of every update that is now
    /// pending; the result is the number of timelines with pending updates.
    pub fn before(&mut self, diff: u64) -> (res: usize)
        requires
            old(self).wf(),
            old(self).spec_can_advance(diff),
        ensures
            final(self).wf(),
            final(self)@ == old(self)@.tick(diff as int),
            res == spec_tick_count(old(self)@.animations, diff as int),
    {
        let n: usize = self.animations.len();
        let mut res: usize = 0;
        let mut i: usize = 0;
        self.refresh_level = level::NONE;
        let ghost before = self@.animations;
        assert(before.take(0) =~= Seq::empty());
        while i < n
            invariant
                i <= n,
                n == self.animations.len(),
                n == before.len(),
                before == old(self)@.animations,
                self.is_text == old(self).is_text,
                self.lv == old(self).lv,
                res <= i,
                res == spec_tick_count(before.take(i as int), diff as int),
                self.refresh_level == spec_tick_level(before.take(i as int), diff as int),
                forall|j: int| 0 <= j < i ==> (#[trigger] self.animations[j])@ == before[j].advance(diff as int),
                forall|j: int| i <= j < n ==> (#[trigger] self.animations[j])@ == before[j],
                forall|j: int|
                    0 <= j < n ==> (#[trigger] self.animations[j]).wf() && self.animations[j].duration > 0,
                forall|j: int|
                    i <= j < n && (#[trigger] self.animations[j]).play_state == RUNNING
                        ==> self.animations[j].spec_can_advance(diff),
            decreases n - i,
        {
            proof {
                let next = before.take(i + 1);
                assert(next.drop_last() =~= before.take(i as int));
                assert(next.last() == before[i as int]);
            }
            let ghost prev = self.animations@;
            let running = self.animations[i].play_state == RUNNING;
            let changed = self.animations[i].before(diff);
            proof {
                lemma_advance_keeps_setup(before[i as int], diff as int);
            }
            assert(forall|j: int| 0 <= j < n && j != i ==> self.animations@[j] == prev[j]);
            if changed {
                res += 1;
            }
            if running {
                let lv = level_of(&self.animations[i].transition);
                self.refresh_level = self.refresh_level | lv;
            }
            i += 1;
        }
        assert(before.take(n as int) =~= before);
        assert(self@.animations =~= old(self)@.tick(diff as int).animations);
        res
    }

    /// Settles the last tick of every running timeline, appends what each
    /// reports to `events`, and returns their number.
    pub fn after(&mut self, events: &mut Vec<u8>) -> (res: usize)
        ensures
            final(self)@ == old(self)@.settle(),
            final(events)@ == old(events)@ + spec_events(old(self)@.animations),
            res == spec_running(old(self)@.animations),
            old(self).wf() ==> final(self).wf(),
    {
        let n: usize = self.animations.len();
        let mut res: usize = 0;
        let mut i: usize = 0;
        let ghost before = self@.animations;
        assert(before.take(0) =~= Seq::empty());
        while i < n
            invariant
                i <= n,
                n == self.animations.len(),
                n == before.len(),
                before == old(self)@.animations,
                self.is_text == old(self).is_text,
                self.lv == old(self).lv,
                self.refresh_level == old(self).refresh_level,
                res <= i,
                res == spec_running(before.take(i as int)),
                events@ == old(events)@ + spec_events(before.take(i as int)),
                forall|j: int|
                    0 <= j < i ==> (#[trigger] self.animations[j])@ == (if before[j].play_state
                        == RUNNING {
                        before[j].settle()
                    } else {
                        before[j]
                    }),
                forall|j: int| i <= j < n ==> (#[trigger] self.animations[j])@ == before[j],
                old(self).wf() ==> self.wf(),
            decreases n - i,
        {
            proof {
                let next = before.take(i + 1);
                assert(next.drop_last() =~= before.take(i as int));
                assert(next.last() == before[i as int]);
            }
            let ghost prev = self.animations@;
            if self.animations[i].play_state == RUNNING {
                let reported = self.animations[i].after();
                assert(forall|j: int| 0 <= j < n && j != i ==> self.animations@[j] == prev[j]);
                events.push(reported);
                res += 1;
            }
            i += 1;
        }
        assert(before.take(n as int) =~= before);
        assert(self@.animations =~= old(self)@.settle().animations);
        res
    }

    /// Adds the level that the pending updates of timeline `i` raise to the
    /// level of the node, and returns it.
    pub fn cal_trans(&mut self, i: usize) -> (lv: usize)
        requires
            i < old(self).animations.len(),
        ensures
            lv == spec_level_of(old(self)@.animations[i as int].transition),
            final(self)@ == (NodeView {
                refresh_level: old(self).refresh_level | lv,
                ..old(self)@
            }),
            old(self).wf() ==> final(self).wf(),
    {
        let lv = level_of(&self.animations[i].transition);
        self.refresh_level = self.refresh_level | lv;
        lv
    }
}

} // verus!
