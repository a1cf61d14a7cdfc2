//! The scene as a flattened tree: the nodes in pre-order, each with its depth.
//! No node holds a link to its parent: the depths alone say who it is.
use vstd::prelude::*;
use crate::node::node::{Node, NodeView};
use crate::node::node::spec_tick_count;

verus! {

/// Output modes.
pub const CANVAS: u8 = 0;
pub const WEBGL: u8 = 2;

/// The nodes of a sequence, as values.
pub open spec fn node_views(nodes: Seq<Node>) -> Seq<NodeView> {
    Seq::new(nodes.len(), |i: int| nodes[i]@)
}

/// A sequence of nodes is the pre-order of one tree when it starts at depth
/// zero and every later node lies at least at depth one and at most one level
/// below the node before it.
pub open spec fn preorder(nodes: Seq<NodeView>) -> bool {
    nodes.len() > 0 ==> {
        &&& nodes[0].lv == 0
        &&& forall|i: int| 1 <= i < nodes.len() ==> 1 <= (#[trigger] nodes[i]).lv <= nodes[i - 1].lv + 1
    }
}

/// `p` is the parent of node `i`: the nearest node before it whose depth is
/// exactly one less.
pub open spec fn is_parent(nodes: Seq<NodeView>, i: int, p: int) -> bool {
    &&& 0 <= p < i
    &&& nodes[p].lv + 1 == nodes[i].lv
    &&& forall|k: int| p < k < i ==> (#[trigger] nodes[k]).lv + 1 != nodes[i].lv
}

/// Node `a` is the ancestor of node `i` at depth `l`: the last node up to `i`
/// at that depth, with nothing as shallow after it.
pub open spec fn is_ancestor(nodes: Seq<NodeView>, i: int, l: int, a: int) -> bool {
    &&& 0 <= a <= i
    &&& nodes[a].lv == l
    &&& forall|k: int| a < k <= i ==> (#[trigger] nodes[k]).lv > l
}

/// `stack` holds the ancestors of node `i`, from depth zero down to the depth
/// just above the node's own.
pub open spec fn ancestors(nodes: Seq<NodeView>, i: int, stack: Seq<usize>) -> bool {
    &&& stack.len() == nodes[i].lv
    &&& forall|l: int| 0 <= l < stack.len() ==> is_ancestor(nodes, i, l, #[trigger] stack[l] as int)
}

/// A node one level below the node before it has that node as its parent,
/// and that node's ancestors above it.
proof fn lemma_descend(nodes: Seq<NodeView>, i: int, stack: Seq<usize>)
    requires
        1 <= i < nodes.len(),
        i - 1 <= usize::MAX,
        ancestors(nodes, i - 1, stack),
        nodes[i].lv == nodes[i - 1].lv + 1,
    ensures
        ancestors(nodes, i, stack.push((i - 1) as usize)),
{
    let grown = stack.push((i - 1) as usize);
    assert forall|l: int| 0 <= l < grown.len() implies is_ancestor(
        nodes,
        i,
        l,
        #[trigger] grown[l] as int,
    ) by {
        if l < stack.len() {
            assert(is_ancestor(nodes, i - 1, l, stack[l] as int));
            assert(grown[l] == stack[l]);
        }
    }
}

/// A node that is not below the node before it shares that node's ancestors
/// down to the depth just above its own.
proof fn lemma_ascend(nodes: Seq<NodeView>, i: int, stack: Seq<usize>)
    requires
        1 <= i < nodes.len(),
        ancestors(nodes, i - 1, stack),
        0 <= nodes[i].lv <= nodes[i - 1].lv,
    ensures
        ancestors(nodes, i, stack.take(nodes[i].lv)),
{
    let cut = stack.take(nodes[i].lv);
    assert forall|l: int| 0 <= l < cut.len() implies is_ancestor(
        nodes,
        i,
        l,
        #[trigger] cut[l] as int,
    ) by {
        assert(is_ancestor(nodes, i - 1, l, stack[l] as int));
        assert(cut[l] == stack[l]);
    }
}

/// The deepest ancestor of a node is its parent.
proof fn lemma_parent_is_deepest(nodes: Seq<NodeView>, i: int, stack: Seq<usize>)
    requires
        1 <= i < nodes.len(),
        ancestors(nodes, i, stack),
        nodes[i].lv >= 1,
    ensures
        is_parent(nodes, i, stack.last() as int),
{
    let l = stack.len() - 1;
    assert(is_ancestor(nodes, i, l, stack[l] as int));
}

/// Walking back from node `i` over nodes that are not shallower than it, the
/// first shallower node met is its parent.
proof fn lemma_parent_from(nodes: Seq<NodeView>, i: int, j: int) -> (p: int)
    requires
        preorder(nodes),
        1 <= i < nodes.len(),
        0 <= j < i,
        forall|k: int| j < k < i ==> (#[trigger] nodes[k]).lv >= nodes[i].lv,
    ensures
        is_parent(nodes, i, p),
    decreases j,
{
    if nodes[j].lv < nodes[i].lv {
        assert(nodes[j + 1].lv <= nodes[j].lv + 1);
        j
    } else {
        assert(nodes[i].lv >= 1);
        lemma_parent_from(nodes, i, j - 1)
    }
}

/// In the pre-order of a tree every node but the first has a parent, and
/// only one: the depths alone say who it is.
pub proof fn lemma_every_node_has_one_parent(nodes: Seq<NodeView>, i: int)
    requires
        preorder(nodes),
        1 <= i < nodes.len(),
    ensures
        exists|p: int| is_parent(nodes, i, p),
        forall|p: int, q: int| is_parent(nodes, i, p) && is_parent(nodes, i, q) ==> p == q,
{
    let p = lemma_parent_from(nodes, i, i - 1);
    assert forall|p: int, q: int| is_parent(nodes, i, p) && is_parent(nodes, i, q) implies p
        == q by {
        if p < q {
            assert(nodes[q].lv + 1 != nodes[i].lv);
        } else if q < p {
            assert(nodes[p].lv + 1 != nodes[i].lv);
        }
    }
}

/// The level that node `i` reports, its parent being `p`: its own, but for
/// text below the root, which reports its parent's.
pub open spec fn spec_reported(nodes: Seq<NodeView>, i: int, p: int) -> usize {
    if i != 0 && nodes[i].is_text {
        nodes[p].refresh_level
    } else {
        nodes[i].refresh_level
    }
}

/// Where the world matrix and opacity of a node come from.
#[derive(Clone, Copy, Debug, PartialEq, Eq, Structural)]
pub enum Source {
    /// From the node alone: it is the root.
    Own,
    /// From the parent alone, whose index this is: the node is text.
    Inherited(usize),
    /// From the parent, whose index this is, composed with the node.
    Composed(usize),
}

/// The source of node `i`, its parent being `p`.
pub open spec fn spec_source(nodes: Seq<NodeView>, i: int, p: usize) -> Source {
    if i == 0 {
        Source::Own
    } else if nodes[i].is_text {
        Source::Inherited(p)
    } else {
        Source::Composed(p)
    }
}

/// The number of nodes that report pending updates after a tick of `diff`:
/// those with a timeline that does.
pub open spec fn spec_frame_count(nodes: Seq<NodeView>, diff: int) -> int
    decreases nodes.len(),
{
    if nodes.len() == 0 {
        0
    } else {
        spec_frame_count(nodes.drop_last(), diff) + (if spec_tick_count(
            nodes.last().animations,
            diff,
        ) > 0 {
            1int
        } else {
            0int
        })
    }
}

/// The scene as a value.
pub struct RootView {
    pub mode: u8,
    pub nodes: Seq<NodeView>,
    pub rl: Seq<usize>,
    pub parent: Seq<usize>,
}

/// The flattened scene, with what the last refresh derived from it: the level
/// that every node reports, and the index of every node's parent.
pub struct Root {
    pub mode: u8,
    pub nodes: Vec<Node>,
    pub rl: Vec<usize>,
    pub parent: Vec<usize>,
}

impl View for Root {
    type V = RootView;

    open spec fn view(&self) -> RootView {
        RootView {
            mode: self.mode,
            nodes: node_views(self.nodes@),
            rl: self.rl@,
            parent: self.parent@,
        }
    }
}

impl RootView {
    /// The scene after a tick of `diff`: every node has ticked.
    pub open spec fn tick(self, diff: int) -> RootView {
        RootView {
            nodes: Seq::new(self.nodes.len(), |i: int| self.nodes[i].tick(diff)),
            ..self
        }
    }

    /// What a refresh derives is right: for every node the level it reports,
    /// and for every node but the first its parent. The first node, the root,
    /// stands as its own.
    pub open spec fn refreshed(self) -> bool {
        &&& self.rl.len() == self.nodes.len()
        &&& self.parent.len() == self.nodes.len()
        &&& self.nodes.len() > 0 ==> self.parent[0] == 0
        &&& forall|i: int| 1 <= i < self.nodes.len() ==> is_parent(self.nodes, i, #[trigger] self.parent[i] as int)
        &&& forall|i: int|
            0 <= i < self.nodes.len() ==> #[trigger] self.rl[i] == spec_reported(
                self.nodes,
                i,
                self.parent[i] as int,
            )
    }
}

impl Root {
    /// Every node is well formed.
    pub open spec fn wf(&self) -> bool {
        forall|i: int| 0 <= i < self.nodes.len() ==> (#[trigger] self.nodes[i]).wf()
    }

    /// Every node can take a tick of `diff`.
    pub open spec fn spec_can_advance(&self, diff: u64) -> bool {
        forall|i: int| 0 <= i < self.nodes.len() ==> (#[trigger] self.nodes[i]).spec_can_advance(diff)
    }

    /// An empty scene.
    pub fn new() -> (root: Root)
        ensures
            root.wf(),
            root@ == (RootView {
                mode: CANVAS,
                nodes: Seq::empty(),
                rl: Seq::empty(),
                parent: Seq::empty(),
            }),
    {
        let root = Root { mode: CANVAS, nodes: Vec::new(), rl: Vec::new(), parent: Vec::new() };
        assert(root@.nodes =~= Seq::empty());
        root
    }

    /// Appends a node.
    pub fn add_node(&mut self, node: Node)
        ensures
            final(self)@ == (RootView { nodes: old(self)@.nodes.push(node@), ..old(self)@ }),
            old(self).wf() && node.wf() ==> final(self).wf(),
    {
        self.nodes.push(node);
        assert(self@.nodes =~= old(self)@.nodes.push(node@));
    }

    /// Takes out the node at position `i`.
    pub fn remove_node(&mut self, i: usize)
        requires
            i < old(self).nodes.len(),
        ensures
            final(self)@ == (RootView { nodes: old(self)@.nodes.remove(i as int), ..old(self)@ }),
            old(self).wf() ==> final(self).wf(),
    {
        let _ = self.nodes.remove(i);
        assert(self@.nodes =~= old(self)@.nodes.remove(i as int));
    }

    /// Puts `node` in the place of the node at position `i`.
    pub fn set_node(&mut self, i: usize, node: Node)
        requires
            i < old(self).nodes.len(),
        ensures
            final(self)@ == (RootView {
                nodes: old(self)@.nodes.update(i as int, node@),
                ..old(self)@
            }),
            old(self).wf() && node.wf() ==> final(self).wf(),
    {
        self.nodes[i] = node;
        assert(self@.nodes =~= old(self)@.nodes.update(i as int, node@));
    }

    /// Puts `node` before the node at position `i`, or at the end.
    pub fn insert_node(&mut self, i: usize, node: Node)
        requires
            i <= old(self).nodes.len(),
        ensures
            final(self)@ == (RootView {
                nodes: old(self)@.nodes.insert(i as int, node@),
                ..old(self)@
            }),
            old(self).wf() && node.wf() ==> final(self).wf(),
    {
        self.nodes.insert(i, node);
        assert(self@.nodes =~= old(self)@.nodes.insert(i as int, node@));
    }

    /// Empties the scene, and what was derived from it.
    pub fn clear(&mut self)
        ensures
            final(self)@ == (RootView {
                nodes: Seq::empty(),
                rl: Seq::empty(),
                parent: Seq::empty(),
                ..old(self)@
            }),
            final(self).wf(),
    {
        self.nodes.clear();
        self.rl.clear();
        self.parent.clear();
        assert(self@.nodes =~= Seq::empty());
    }

    /// The number of nodes.
    pub fn size(&self) -> (n: usize)
        ensures
            n == self@.nodes.len(),
    {
        self.nodes.len()
    }

    /// The level that every node reported at the last refresh.
    pub fn rl(&self) -> (rl: &Vec<usize>)
        ensures
            rl@ == self@.rl,
    {
        &self.rl
    }

    /// Tells whether the nodes are the pre-order of one tree.
    pub fn is_preorder(&self) -> (b: bool)
        ensures
            b == preorder(self@.nodes),
    {
        let n: usize = self.nodes.len();
        if n == 0 {
            return true;
        }
        assert(self@.nodes[0] == self.nodes@[0]@);
        if self.nodes[0].lv != 0 {
            return false;
        }
        let mut i: usize = 1;
        while i < n
            invariant
                1 <= i <= n,
                n == self.nodes.len(),
                self@.nodes[0].lv == 0,
                forall|j: int| 1 <= j < i ==> 1 <= (#[trigger] self@.nodes[j]).lv <= self@.nodes[j - 1].lv + 1,
            decreases n - i,
        {
            let lv: usize = self.nodes[i].lv;
            let last_lv: usize = self.nodes[i - 1].lv;
            assert(self@.nodes[i as int] == self.nodes@[i as int]@);
            assert(self@.nodes[i - 1] == self.nodes@[i - 1]@);
            if lv < 1 || lv - 1 > last_lv {
                return false;
            }
            i += 1;
        }
        true
    }

    /// Tells whether every node can take a tick of `diff`.
    pub fn can_advance(&self, diff: u64) -> (b: bool)
        ensures
            b == self.spec_can_advance(diff),
    {
        let n: usize = self.nodes.len();
        let mut i: usize = 0;
        while i < n
            invariant
                i <= n,
                n == self.nodes.len(),
                forall|j: int| 0 <= j < i ==> (#[trigger] self.nodes[j]).spec_can_advance(diff),
            decreases n - i,
        {
            if !self.nodes[i].can_advance(diff) {
                return false;
            }
            i += 1;
        }
        true
    }

    /// Advances every timeline of every node by `diff` ticks of host time,
    /// and returns the number of nodes that report pending updates.
    pub fn on_frame(&mut self, diff: u64) -> (res: usize)
        requires
            old(self).wf(),
            old(self).spec_can_advance(diff),
        ensures
            final(self).wf(),
            final(self)@ == old(self)@.tick(diff as int),
            res == spec_frame_count(old(self)@.nodes, diff as int),
    {
        let n: usize = self.nodes.len();
        let mut res: usize = 0;
        let mut i: usize = 0;
        let ghost before = self@.nodes;
        assert(before.take(0) =~= Seq::empty());
        while i < n
            invariant
                i <= n,
                n == self.nodes.len(),
                n == before.len(),
                before == old(self)@.nodes,
                self.mode == old(self).mode,
                self.rl == old(self).rl,
                self.parent == old(self).parent,
                res <= i,
                res == spec_frame_count(before.take(i as int), diff as int),
                forall|j: int| 0 <= j < i ==> (#[trigger] self.nodes[j])@ == before[j].tick(diff as int),
                forall|j: int| i <= j < n ==> (#[trigger] self.nodes[j])@ == before[j],
                forall|j: int| 0 <= j < n ==> (#[trigger] self.nodes[j]).wf(),
                forall|j: int| i <= j < n ==> (#[trigger] self.nodes[j]).spec_can_advance(diff),
            decreases n - i,
        {
            proof {
                let next = before.take(i + 1);
                assert(next.drop_last() =~= before.take(i as int));
                assert(next.last() == before[i as int]);
            }
            let ghost prev = self.nodes@;
            let count = self.nodes[i].before(diff);
            assert(forall|j: int| 0 <= j < n && j != i ==> self.nodes@[j] == prev[j]);
            if count > 0 {
                res += 1;
            }
            i += 1;
        }
        assert(before.take(n as int) =~= before);
        assert(self@.nodes =~= old(self)@.tick(diff as int).nodes);
        res
    }

    /// Derives, from the depths alone, the parent of every node, and with it
    /// the level that every node reports. Returns the number of nodes.
    pub fn refresh(&mut self) -> (n: usize)
        requires
            preorder(old(self)@.nodes),
        ensures
            final(self)@.mode == old(self)@.mode,
            final(self)@.nodes == old(self)@.nodes,
            final(self).nodes == old(self).nodes,
            final(self)@.refreshed(),
            n == old(self)@.nodes.len(),
    {
        let n: usize = self.nodes.len();
        self.rl.clear();
        self.parent.clear();
        let mut p_list: Vec<usize> = Vec::new();
        let mut last_lv: usize = 0;
        let mut parent: usize = 0;
        let mut count: usize = 0;
        let ghost nodes = self@.nodes;
        while count < n
            invariant
                count <= n,
                n == self.nodes.len(),
                n == nodes.len(),
                self.nodes == old(self).nodes,
                self.mode == old(self).mode,
                nodes == self@.nodes,
                preorder(nodes),
                self.rl@.len() == count,
                self.parent@.len() == count,
                count > 0 ==> self.parent@[0] == 0,
                count > 0 ==> last_lv == nodes[count - 1].lv,
                count > 0 ==> ancestors(nodes, count - 1, p_list@),
                count == 0 ==> p_list@.len() == 0 && last_lv == 0,
                count > 0 && last_lv > 0 ==> parent == p_list@.last(),
                last_lv == 0 ==> parent == 0,
                forall|i: int| 1 <= i < count ==> is_parent(nodes, i, #[trigger] self.parent@[i] as int),
                forall|i: int|
                    0 <= i < count ==> #[trigger] self.rl@[i] == spec_reported(
                        nodes,
                        i,
                        self.parent@[i] as int,
                    ),
            decreases n - count,
        {
            let lv: usize = self.nodes[count].lv;
            assert(nodes[count as int] == self.nodes@[count as int]@);
            let ghost stack = p_list@;
            if count == 0 {
            } else if lv > last_lv {
                parent = count - 1;
                p_list.push(parent);
                proof {
                    lemma_descend(nodes, count as int, stack);
                }
            } else if lv < last_lv {
                p_list.truncate(lv);
                parent = p_list[lv - 1];
                proof {
                    lemma_ascend(nodes, count as int, stack);
                }
            } else {
                proof {
                    lemma_ascend(nodes, count as int, stack);
                    assert(stack.take(lv as int) =~= stack);
                }
            }
            proof {
                if count > 0 {
                    lemma_parent_is_deepest(nodes, count as int, p_list@);
                }
            }
            last_lv = lv;
            let reported: usize = if count != 0 && self.nodes[count].is_text {
                assert(nodes[parent as int] == self.nodes@[parent as int]@);
                self.nodes[parent].refresh_level
            } else {
                self.nodes[count].refresh_level
            };
            self.rl.push(reported);
            self.parent.push(parent);
            count += 1;
        }
        n
    }

    /// Where the world matrix and opacity of node `i` come from, by the last
    /// refresh.
    pub fn source(&self, i: usize) -> (source: Source)
        requires
            i < self.nodes.len(),
            self.parent.len() == self.nodes.len(),
        ensures
            source == spec_source(self@.nodes, i as int, self@.parent[i as int]),
    {
        assert(self@.nodes[i as int] == self.nodes@[i as int]@);
        if i == 0 {
            Source::Own
        } else if self.nodes[i].is_text {
            Source::Inherited(self.parent[i])
        } else {
            Source::Composed(self.parent[i])
        }
    }
}

} // verus!
