//! The spatial tree: clip nodes, scroll nodes, reference frames and sticky
//! frames, keyed by scoped identifiers. The flattening engine creates nodes
//! during traversal; the frame driver drains and re-applies scroll offsets
//! across rebuilds and forwards scroll events here.

use vstd::prelude::*;
use crate::api::{
    ClipId, PipelineId, ScrollClamping, ScrollEventPhase, ScrollLocation, ScrollSensitivity,
    StickyFrameInfo, Transform,
};
use crate::clip::ClipRegion;
use crate::geom::{Rect, Size, Vector, sat64, sat_sub};

verus! {

/// The scroll state of one scroll node.
#[derive(Clone, Copy, PartialEq, Eq, Structural, Debug)]
pub struct ScrollingState {
    pub offset: Vector,
    pub bouncing_back: bool,
}

/// What a reference-frame node carries: the composition
/// `translate(origin) * transform * perspective`, kept structurally.
#[derive(Clone, Copy, PartialEq, Eq, Structural, Debug)]
pub struct ReferenceFrameInfo {
    pub origin: Vector,
    pub transform: Transform,
    pub perspective: Transform,
    pub frame_rect: Rect,
    pub is_iframe: bool,
}

/// What a scroll-frame node carries.
#[derive(Clone, Copy, PartialEq, Eq, Structural, Debug)]
pub struct ScrollFrameInfo {
    pub frame_rect: Rect,
    pub content_size: Size,
    pub scroll_sensitivity: ScrollSensitivity,
    pub state: ScrollingState,
}

/// What a sticky-frame registration carries.
#[derive(Clone, Copy, PartialEq, Eq, Structural, Debug)]
pub struct StickyFrameNodeInfo {
    pub frame_rect: Rect,
    pub sticky_frame_info: StickyFrameInfo,
}

#[derive(Clone, Debug)]
pub enum NodeType {
    ReferenceFrame(ReferenceFrameInfo),
    Clip(ClipRegion),
    ScrollFrame(ScrollFrameInfo),
    StickyFrame(StickyFrameNodeInfo),
}

/// One node of the spatial tree.
#[derive(Clone, Debug)]
pub struct ClipScrollNode {
    pub id: ClipId,
    pub parent: Option<ClipId>,
    pub pipeline_id: PipelineId,
    pub node_type: NodeType,
}

impl ClipScrollNode {
    pub open spec fn is_scroll_frame(self) -> bool {
        self.node_type is ScrollFrame
    }

    pub open spec fn scroll_info(self) -> ScrollFrameInfo {
        self.node_type->ScrollFrame_0
    }
}

/// The scroll state of one node, as reported to and restored by the driver.
#[derive(Clone, Copy, PartialEq, Eq, Structural, Debug)]
pub struct ScrollLayerState {
    pub id: ClipId,
    pub scroll_offset: Vector,
}

/// Scroll offsets captured from a drained tree, to be re-applied to the
/// nodes that still exist after the rebuild.
pub struct ScrollStates {
    pub entries: Vec<(ClipId, ScrollingState)>,
}

/// The state recorded for `id`, if any (later entries shadow earlier ones).
pub open spec fn seq_state_get(s: Seq<(ClipId, ScrollingState)>, id: ClipId) -> Option<
    ScrollingState,
>
    decreases s.len(),
{
    if s.len() == 0 {
        None
    } else if s.last().0 == id {
        Some(s.last().1)
    } else {
        seq_state_get(s.drop_last(), id)
    }
}

impl ScrollStates {
    pub open spec fn spec_get(self, id: ClipId) -> Option<ScrollingState> {
        seq_state_get(self.entries@, id)
    }

    pub fn get(&self, id: ClipId) -> (r: Option<ScrollingState>)
        ensures
            r == self.spec_get(id),
    {
        proof {
            assert(self.entries@.subrange(0, self.entries@.len() as int) =~= self.entries@);
        }
        lookup_state_prefix(&self.entries, self.entries.len(), id)
    }
}

/// The last state recorded for `id` among the first `n` entries.
fn lookup_state_prefix(v: &Vec<(ClipId, ScrollingState)>, n: usize, id: ClipId) -> (r: Option<
    ScrollingState,
>)
    requires
        n <= v@.len(),
    ensures
        r == seq_state_get(v@.subrange(0, n as int), id),
    decreases n,
{
    if n == 0 {
        None
    } else {
        proof {
            assert(v@.subrange(0, n as int).drop_last() =~= v@.subrange(0, n - 1));
            assert(v@.subrange(0, n as int).last() == v@[n - 1]);
        }
        if v[n - 1].0 == id {
            Some(v[n - 1].1)
        } else {
            lookup_state_prefix(v, n - 1, id)
        }
    }
}

/// The index of the node with identifier `id` (later nodes shadow earlier
/// ones; in a well-formed tree identifiers are unique).
pub open spec fn seq_node_index(s: Seq<ClipScrollNode>, id: ClipId) -> Option<int>
    decreases s.len(),
{
    if s.len() == 0 {
        None
    } else if s.last().id == id {
        Some(s.len() - 1)
    } else {
        seq_node_index(s.drop_last(), id)
    }
}

/// Whether `p` is one of the pipelines whose transient state is to be
/// discarded.
pub open spec fn spec_discarded(discard: Seq<PipelineId>, p: PipelineId) -> bool {
    exists|k: int| 0 <= k < discard.len() && discard[k] == p
}

/// The scroll state drain() hands back for `id`: the state of the scroll
/// node so named, unless its pipeline's state is being discarded.
pub open spec fn spec_scroll_state_of(
    nodes: Seq<ClipScrollNode>,
    discard: Seq<PipelineId>,
    id: ClipId,
) -> Option<ScrollingState>
    decreases nodes.len(),
{
    if nodes.len() == 0 {
        None
    } else {
        let n = nodes.last();
        if n.id == id && n.is_scroll_frame() && !spec_discarded(discard, n.pipeline_id) {
            Some(n.scroll_info().state)
        } else {
            spec_scroll_state_of(nodes.drop_last(), discard, id)
        }
    }
}

/// A node with its captured scroll state re-applied: scroll nodes named in
/// `states` take the captured state; every other node is unchanged.
pub open spec fn spec_apply_state(node: ClipScrollNode, states: ScrollStates) -> ClipScrollNode {
    if node.is_scroll_frame() && states.spec_get(node.id).is_some() {
        ClipScrollNode {
            node_type: NodeType::ScrollFrame(
                ScrollFrameInfo {
                    state: states.spec_get(node.id).unwrap(),
                    ..node.scroll_info()
                },
            ),
            ..node
        }
    } else {
        node
    }
}

/// The ids of the scroll nodes currently bouncing back, in node order.
pub open spec fn spec_bouncing_ids(nodes: Seq<ClipScrollNode>) -> Seq<ClipId>
    decreases nodes.len(),
{
    if nodes.len() == 0 {
        Seq::empty()
    } else {
        let rest = spec_bouncing_ids(nodes.drop_last());
        let n = nodes.last();
        if n.is_scroll_frame() && n.scroll_info().state.bouncing_back {
            rest.push(n.id)
        } else {
            rest
        }
    }
}

/// The id and offset of every scroll node, in node order.
pub open spec fn spec_scroll_node_states(nodes: Seq<ClipScrollNode>) -> Seq<ScrollLayerState>
    decreases nodes.len(),
{
    if nodes.len() == 0 {
        Seq::empty()
    } else {
        let rest = spec_scroll_node_states(nodes.drop_last());
        let n = nodes.last();
        if n.is_scroll_frame() {
            rest.push(ScrollLayerState { id: n.id, scroll_offset: n.scroll_info().state.offset })
        } else {
            rest
        }
    }
}

/// A scroll target clamped to the scrollable range of a node: no further
/// right/down than the origin, no further left/up than content size minus
/// frame size.
pub open spec fn spec_clamp_offset(target: Vector, frame_rect: Rect, content_size: Size) -> Vector {
    let scrollable_w = if sat64(content_size.w - frame_rect.size.w) > 0 {
        sat64(content_size.w - frame_rect.size.w)
    } else {
        0
    };
    let scrollable_h = if sat64(content_size.h - frame_rect.size.h) > 0 {
        sat64(content_size.h - frame_rect.size.h)
    } else {
        0
    };
    Vector {
        x: clamp64(target.x as int, -scrollable_w, 0) as i64,
        y: clamp64(target.y as int, -scrollable_h, 0) as i64,
    }
}

pub open spec fn clamp64(v: int, lo: int, hi: int) -> int {
    if v < lo {
        lo
    } else if v > hi {
        hi
    } else {
        v
    }
}

/// The offset a programmatic scroll leaves on a node.
pub open spec fn spec_scroll_node_target(
    origin: Vector,
    clamp: ScrollClamping,
    info: ScrollFrameInfo,
) -> Vector {
    let target = Vector { x: sat64(0 - origin.x) as i64, y: sat64(0 - origin.y) as i64 };
    match clamp {
        ScrollClamping::NoClamping => target,
        ScrollClamping::ToContentBounds => spec_clamp_offset(
            target,
            info.frame_rect,
            info.content_size,
        ),
    }
}

/// The scroll state a node is left in by one scroll event. Nodes that only
/// scripts may move ignore the event. A mid-gesture move is elastic (the
/// offset may leave the scrollable range); the gesture's end clamps it back
/// and marks the node as bouncing when it was out of range. Jumps to the
/// start or end of the content are always in range.
pub open spec fn spec_scroll_event_state(
    info: ScrollFrameInfo,
    location: ScrollLocation,
    phase: ScrollEventPhase,
) -> ScrollingState {
    if info.scroll_sensitivity != ScrollSensitivity::ScriptAndInputEvents {
        info.state
    } else {
        match location {
            ScrollLocation::Delta(d) => {
                let target = info.state.offset.spec_add(d);
                let clamped = spec_clamp_offset(target, info.frame_rect, info.content_size);
                match phase {
                    ScrollEventPhase::Move => ScrollingState {
                        offset: target,
                        bouncing_back: info.state.bouncing_back,
                    },
                    _ => ScrollingState { offset: clamped, bouncing_back: clamped != target },
                }
            },
            ScrollLocation::Start => ScrollingState {
                offset: Vector { x: info.state.offset.x, y: 0i64 },
                bouncing_back: false,
            },
            ScrollLocation::End => {
                let bottom = spec_clamp_offset(
                    Vector { x: info.state.offset.x, y: i64::MIN },
                    info.frame_rect,
                    info.content_size,
                );
                ScrollingState {
                    offset: Vector { x: info.state.offset.x, y: bottom.y },
                    bouncing_back: false,
                }
            },
        }
    }
}

/// Clamp a scroll offset into a node's scrollable range.
fn clamp_offset(target: Vector, frame_rect: Rect, content_size: Size) -> (r: Vector)
    ensures
        r == spec_clamp_offset(target, frame_rect, content_size),
{
    let scrollable_w = sat_sub(content_size.w, frame_rect.size.w);
    let scrollable_w = if scrollable_w > 0 {
        scrollable_w
    } else {
        0
    };
    let scrollable_h = sat_sub(content_size.h, frame_rect.size.h);
    let scrollable_h = if scrollable_h > 0 {
        scrollable_h
    } else {
        0
    };
    let x = if target.x < -scrollable_w {
        -scrollable_w
    } else if target.x > 0 {
        0
    } else {
        target.x
    };
    let y = if target.y < -scrollable_h {
        -scrollable_h
    } else if target.y > 0 {
        0
    } else {
        target.y
    };
    Vector { x, y }
}

/// The scroll state a node is left in by one scroll event (executable
/// counterpart of `spec_scroll_event_state`).
fn scroll_event_state(
    info: ScrollFrameInfo,
    location: ScrollLocation,
    phase: ScrollEventPhase,
) -> (state: ScrollingState)
    ensures
        state == spec_scroll_event_state(info, location, phase),
{
    match info.scroll_sensitivity {
        ScrollSensitivity::ScriptAndInputEvents => {
            match location {
                ScrollLocation::Delta(d) => {
                    let target = info.state.offset.add(d);
                    match phase {
                        ScrollEventPhase::Move => ScrollingState {
                            offset: target,
                            bouncing_back: info.state.bouncing_back,
                        },
                        _ => {
                            let clamped = clamp_offset(
                                target,
                                info.frame_rect,
                                info.content_size,
                            );
                            ScrollingState { offset: clamped, bouncing_back: clamped != target }
                        },
                    }
                },
                ScrollLocation::Start => ScrollingState {
                    offset: Vector { x: info.state.offset.x, y: 0 },
                    bouncing_back: false,
                },
                ScrollLocation::End => {
                    let bottom = clamp_offset(
                        Vector { x: info.state.offset.x, y: i64::MIN },
                        info.frame_rect,
                        info.content_size,
                    );
                    ScrollingState {
                        offset: Vector { x: info.state.offset.x, y: bottom.y },
                        bouncing_back: false,
                    }
                },
            }
        },
        ScrollSensitivity::Script => info.state,
    }
}

/// A node after one animation tick: a bouncing node lands clamped in range
/// with its flag cleared; everything else is unchanged.
pub open spec fn spec_tick_node(node: ClipScrollNode) -> ClipScrollNode {
    if node.is_scroll_frame() && node.scroll_info().state.bouncing_back {
        let info = node.scroll_info();
        ClipScrollNode {
            node_type: NodeType::ScrollFrame(
                ScrollFrameInfo {
                    state: ScrollingState {
                        offset: spec_clamp_offset(
                            info.state.offset,
                            info.frame_rect,
                            info.content_size,
                        ),
                        bouncing_back: false,
                    },
                    ..info
                },
            ),
            ..node
        }
    } else {
        node
    }
}

/// The index of the first scroll node at or after position `i`.
pub open spec fn spec_first_scroll_index(nodes: Seq<ClipScrollNode>, i: int) -> Option<int>
    decreases nodes.len() - i,
{
    if i < 0 || i >= nodes.len() {
        None
    } else if nodes[i].is_scroll_frame() {
        Some(i)
    } else {
        spec_first_scroll_index(nodes, i + 1)
    }
}

pub proof fn lemma_spec_first_scroll_index_in_range(nodes: Seq<ClipScrollNode>, i: int)
    ensures
        match spec_first_scroll_index(nodes, i) {
            Some(k) => i <= k < nodes.len() && nodes[k].is_scroll_frame(),
            None => true,
        },
    decreases nodes.len() - i,
{
    if 0 <= i < nodes.len() && !nodes[i].is_scroll_frame() {
        lemma_spec_first_scroll_index_in_range(nodes, i + 1);
    }
}

/// Find the first scroll node at or after position `i`.
fn first_scroll_index_from(v: &Vec<ClipScrollNode>, i: usize) -> (r: Option<usize>)
    ensures
        match r {
            Some(k) => spec_first_scroll_index(v@, i as int) == Some(k as int),
            None => spec_first_scroll_index(v@, i as int).is_none(),
        },
    decreases v@.len() - i,
{
    proof {
        lemma_spec_first_scroll_index_in_range(v@, i as int);
    }
    if i >= v.len() {
        None
    } else {
        match &v[i].node_type {
            NodeType::ScrollFrame(_) => Some(i),
            _ => first_scroll_index_from(v, i + 1),
        }
    }
}

/// Re-applying captured states does not move nodes: the node named by an
/// identifier sits at the same index before and after.
pub proof fn lemma_apply_states_preserves_index(
    pre: Seq<ClipScrollNode>,
    post: Seq<ClipScrollNode>,
    states: ScrollStates,
    id: ClipId,
)
    requires
        post.len() == pre.len(),
        forall|k: int| 0 <= k < pre.len() ==> #[trigger] post[k] == spec_apply_state(pre[k], states),
    ensures
        seq_node_index(post, id) == seq_node_index(pre, id),
    decreases pre.len(),
{
    if pre.len() > 0 {
        assert(post.last() == spec_apply_state(pre.last(), states));
        assert(post.last().id == pre.last().id);
        if pre.last().id != id {
            assert(forall|k: int|
                0 <= k < pre.drop_last().len() ==> #[trigger] post.drop_last()[k]
                    == spec_apply_state(pre.drop_last()[k], states));
            lemma_apply_states_preserves_index(pre.drop_last(), post.drop_last(), states, id);
        }
    }
}

/// A found node index lies in range and names a node with that id.
pub proof fn lemma_seq_node_index_in_range(s: Seq<ClipScrollNode>, id: ClipId)
    ensures
        match seq_node_index(s, id) {
            Some(k) => 0 <= k < s.len() && s[k].id == id,
            None => forall|k: int| 0 <= k < s.len() ==> s[k].id != id,
        },
    decreases s.len(),
{
    if s.len() == 0 {
    } else if s.last().id == id {
        assert(s[s.len() - 1] == s.last());
    } else {
        lemma_seq_node_index_in_range(s.drop_last(), id);
        match seq_node_index(s.drop_last(), id) {
            Some(k) => {
                assert(s.drop_last()[k] == s[k]);
            },
            None => {
                assert forall|k: int| 0 <= k < s.len() implies s[k].id != id by {
                    if k < s.len() - 1 {
                        assert(s.drop_last()[k] == s[k]);
                    } else {
                        assert(s[k] == s.last());
                    }
                }
            },
        }
    }
}

/// The index of the node named `id` among the first `n` nodes.
fn find_node_index(v: &Vec<ClipScrollNode>, n: usize, id: ClipId) -> (r: Option<usize>)
    requires
        n <= v@.len(),
    ensures
        match r {
            Some(k) => seq_node_index(v@.subrange(0, n as int), id) == Some(k as int),
            None => seq_node_index(v@.subrange(0, n as int), id).is_none(),
        },
    decreases n,
{
    if n == 0 {
        None
    } else {
        proof {
            assert(v@.subrange(0, n as int).drop_last() =~= v@.subrange(0, n - 1));
            assert(v@.subrange(0, n as int).last() == v@[n - 1]);
        }
        if v[n - 1].id == id {
            Some(n - 1)
        } else {
            find_node_index(v, n - 1, id)
        }
    }
}

/// The spatial tree.
pub struct ClipScrollTree {
    pub nodes: Vec<ClipScrollNode>,
    pub next_dynamic_index: u64,
    pub pipelines_to_discard: Vec<PipelineId>,
    pub pan: Vector,
}

impl ClipScrollTree {
    pub open spec fn spec_node_index(self, id: ClipId) -> Option<int> {
        seq_node_index(self.nodes@, id)
    }

    pub open spec fn has_node(self, id: ClipId) -> bool {
        self.spec_node_index(id).is_some()
    }

    /// The node named `id`; meaningful only when `has_node(id)`.
    pub open spec fn spec_node(self, id: ClipId) -> ClipScrollNode {
        self.nodes@[self.spec_node_index(id).unwrap()]
    }

    pub open spec fn has_scroll_node(self, id: ClipId) -> bool {
        self.has_node(id) && self.spec_node(id).is_scroll_frame()
    }

    /// The current scroll offset of scroll node `id`.
    pub open spec fn spec_scroll_offset(self, id: ClipId) -> Vector {
        self.spec_node(id).scroll_info().state.offset
    }

    pub fn new() -> (tree: ClipScrollTree)
        ensures
            tree.nodes@.len() == 0,
            tree.next_dynamic_index == 0,
            tree.pipelines_to_discard@.len() == 0,
            tree.pan == (Vector { x: 0i64, y: 0i64 }),
    {
        ClipScrollTree {
            nodes: Vec::new(),
            next_dynamic_index: 0,
            pipelines_to_discard: Vec::new(),
            pan: Vector { x: 0, y: 0 },
        }
    }

    /// A fresh identifier no display item can name, scoped to `pipeline_id`.
    /// The counter saturates at the top of its range rather than wrap.
    pub fn generate_new_clip_id(&mut self, pipeline_id: PipelineId) -> (id: ClipId)
        ensures
            id == ClipId::DynamicallyAddedNode(old(self).next_dynamic_index, pipeline_id),
            final(self).next_dynamic_index as int == if old(self).next_dynamic_index
                == u64::MAX {
                u64::MAX as int
            } else {
                old(self).next_dynamic_index + 1
            },
            final(self).nodes == old(self).nodes,
            final(self).pipelines_to_discard == old(self).pipelines_to_discard,
            final(self).pan == old(self).pan,
    {
        let index = self.next_dynamic_index;
        if self.next_dynamic_index < u64::MAX {
            self.next_dynamic_index = self.next_dynamic_index + 1;
        }
        ClipId::DynamicallyAddedNode(index, pipeline_id)
    }

    /// Create a clip node.
    pub fn add_clip_node(
        &mut self,
        id: ClipId,
        parent_id: ClipId,
        pipeline_id: PipelineId,
        clip_region: ClipRegion,
    )
        ensures
            final(self).nodes@ == old(self).nodes@.push(
                ClipScrollNode {
                    id,
                    parent: Some(parent_id),
                    pipeline_id,
                    node_type: NodeType::Clip(clip_region),
                },
            ),
            final(self).next_dynamic_index == old(self).next_dynamic_index,
            final(self).pipelines_to_discard == old(self).pipelines_to_discard,
            final(self).pan == old(self).pan,
    {
        self.nodes.push(
            ClipScrollNode {
                id,
                parent: Some(parent_id),
                pipeline_id,
                node_type: NodeType::Clip(clip_region),
            },
        );
    }

    /// Create a scroll-frame node with a zero initial offset.
    pub fn add_scroll_frame(
        &mut self,
        id: ClipId,
        parent_id: ClipId,
        pipeline_id: PipelineId,
        frame_rect: Rect,
        content_size: Size,
        scroll_sensitivity: ScrollSensitivity,
    )
        ensures
            final(self).nodes@ == old(self).nodes@.push(
                ClipScrollNode {
                    id,
                    parent: Some(parent_id),
                    pipeline_id,
                    node_type: NodeType::ScrollFrame(
                        ScrollFrameInfo {
                            frame_rect,
                            content_size,
                            scroll_sensitivity,
                            state: ScrollingState {
                                offset: Vector { x: 0i64, y: 0i64 },
                                bouncing_back: false,
                            },
                        },
                    ),
                },
            ),
            final(self).next_dynamic_index == old(self).next_dynamic_index,
            final(self).pipelines_to_discard == old(self).pipelines_to_discard,
            final(self).pan == old(self).pan,
    {
        self.nodes.push(
            ClipScrollNode {
                id,
                parent: Some(parent_id),
                pipeline_id,
                node_type: NodeType::ScrollFrame(
                    ScrollFrameInfo {
                        frame_rect,
                        content_size,
                        scroll_sensitivity,
                        state: ScrollingState {
                            offset: Vector { x: 0, y: 0 },
                            bouncing_back: false,
                        },
                    },
                ),
            },
        );
    }

    /// Create a reference-frame node under a fresh identifier and return it.
    pub fn add_reference_frame(
        &mut self,
        parent_id: Option<ClipId>,
        pipeline_id: PipelineId,
        info: ReferenceFrameInfo,
    ) -> (id: ClipId)
        ensures
            id == ClipId::DynamicallyAddedNode(old(self).next_dynamic_index, pipeline_id),
            final(self).nodes@ == old(self).nodes@.push(
                ClipScrollNode {
                    id,
                    parent: parent_id,
                    pipeline_id,
                    node_type: NodeType::ReferenceFrame(info),
                },
            ),
            final(self).pipelines_to_discard == old(self).pipelines_to_discard,
            final(self).pan == old(self).pan,
    {
        let id = self.generate_new_clip_id(pipeline_id);
        self.nodes.push(
            ClipScrollNode { id, parent: parent_id, pipeline_id, node_type: NodeType::ReferenceFrame(info) },
        );
        id
    }

    /// Register a sticky frame's anchoring metadata against its parent.
    pub fn add_sticky_frame(
        &mut self,
        id: ClipId,
        parent_id: ClipId,
        frame_rect: Rect,
        sticky_frame_info: StickyFrameInfo,
    )
        ensures
            final(self).nodes@ == old(self).nodes@.push(
                ClipScrollNode {
                    id,
                    parent: Some(parent_id),
                    pipeline_id: id.spec_pipeline_id(),
                    node_type: NodeType::StickyFrame(
                        StickyFrameNodeInfo { frame_rect, sticky_frame_info },
                    ),
                },
            ),
            final(self).next_dynamic_index == old(self).next_dynamic_index,
            final(self).pipelines_to_discard == old(self).pipelines_to_discard,
            final(self).pan == old(self).pan,
    {
        let pipeline_id = id.pipeline_id();
        self.nodes.push(
            ClipScrollNode {
                id,
                parent: Some(parent_id),
                pipeline_id,
                node_type: NodeType::StickyFrame(
                    StickyFrameNodeInfo { frame_rect, sticky_frame_info },
                ),
            },
        );
    }

    /// Capture every live scroll node's state (skipping discarded
    /// pipelines), then empty the tree for the coming rebuild.
    pub fn drain(&mut self) -> (states: ScrollStates)
        ensures
            forall|id: ClipId| #[trigger]
                states.spec_get(id) == spec_scroll_state_of(
                    old(self).nodes@,
                    old(self).pipelines_to_discard@,
                    id,
                ),
            final(self).nodes@.len() == 0,
            final(self).pipelines_to_discard@.len() == 0,
            final(self).next_dynamic_index == old(self).next_dynamic_index,
            final(self).pan == old(self).pan,
    {
        let mut entries: Vec<(ClipId, ScrollingState)> = Vec::new();
        let n = self.nodes.len();
        let mut i: usize = 0;
        proof {
            assert(self.nodes@.subrange(0, 0) =~= Seq::<ClipScrollNode>::empty());
        }
        while i < n
            invariant
                i <= n,
                n == self.nodes@.len(),
                forall|id: ClipId| #[trigger]
                    seq_state_get(entries@, id) == spec_scroll_state_of(
                        self.nodes@.subrange(0, i as int),
                        self.pipelines_to_discard@,
                        id,
                    ),
            decreases n - i,
        {
            let keep: bool = match &self.nodes[i].node_type {
                NodeType::ScrollFrame(_) => !self.is_discarded(self.nodes[i].pipeline_id),
                _ => false,
            };
            let ghost prev = entries@;
            if keep {
                let state = match &self.nodes[i].node_type {
                    NodeType::ScrollFrame(info) => info.state,
                    _ => ScrollingState { offset: Vector { x: 0, y: 0 }, bouncing_back: false },
                };
                entries.push((self.nodes[i].id, state));
            }
            i += 1;
            proof {
                assert(self.nodes@.subrange(0, i as int).drop_last() =~= self.nodes@.subrange(
                    0,
                    i - 1,
                ));
                assert(self.nodes@.subrange(0, i as int).last() == self.nodes@[i - 1]);
                if keep {
                    assert(entries@.drop_last() =~= prev);
                }
                assert forall|id: ClipId| #[trigger] seq_state_get(entries@, id)
                    == spec_scroll_state_of(
                    self.nodes@.subrange(0, i as int),
                    self.pipelines_to_discard@,
                    id,
                ) by {
                    let node = self.nodes@[i - 1];
                    if keep {
                        assert(seq_state_get(prev, id) == spec_scroll_state_of(
                            self.nodes@.subrange(0, i - 1),
                            self.pipelines_to_discard@,
                            id,
                        ));
                        if id == node.id {
                            assert(seq_state_get(entries@, id) == Some(entries@.last().1));
                        }
                    } else {
                        assert(seq_state_get(prev, id) == spec_scroll_state_of(
                            self.nodes@.subrange(0, i - 1),
                            self.pipelines_to_discard@,
                            id,
                        ));
                    }
                }
            }
        }
        proof {
            assert(self.nodes@.subrange(0, self.nodes@.len() as int) =~= self.nodes@);
        }
        self.nodes.clear();
        self.pipelines_to_discard.clear();
        ScrollStates { entries }
    }

    /// Whether `p`'s transient state is marked to be dropped.
    fn is_discarded(&self, p: PipelineId) -> (b: bool)
        ensures
            b == spec_discarded(self.pipelines_to_discard@, p),
    {
        let mut i: usize = 0;
        let n = self.pipelines_to_discard.len();
        while i < n
            invariant
                i <= n,
                n == self.pipelines_to_discard@.len(),
                forall|k: int| 0 <= k < i ==> self.pipelines_to_discard@[k] != p,
            decreases n - i,
        {
            if self.pipelines_to_discard[i] == p {
                return true;
            }
            i += 1;
        }
        false
    }

    /// Set the scroll origin of one node. The stored offset is the negated
    /// origin, clamped to the scrollable range unless clamping is off; a
    /// programmatic scroll also lands in range, so it stops any bounce-back.
    /// Returns whether the node actually changed position.
    pub fn scroll_node(&mut self, origin: Vector, id: ClipId, clamp: ScrollClamping) -> (moved:
        bool)
        ensures
            !old(self).has_scroll_node(id) ==> (!moved && *final(self) == *old(self)),
            old(self).has_scroll_node(id) ==> {
                let k = old(self).spec_node_index(id).unwrap();
                let info = old(self).nodes@[k].scroll_info();
                let new_offset = spec_scroll_node_target(origin, clamp, info);
                &&& moved == (new_offset != info.state.offset)
                &&& final(self).nodes@ == old(self).nodes@.update(
                    k,
                    ClipScrollNode {
                        node_type: NodeType::ScrollFrame(
                            ScrollFrameInfo {
                                state: ScrollingState { offset: new_offset, bouncing_back: false },
                                ..info
                            },
                        ),
                        ..old(self).nodes@[k]
                    },
                )
                &&& final(self).next_dynamic_index == old(self).next_dynamic_index
                &&& final(self).pipelines_to_discard == old(self).pipelines_to_discard
                &&& final(self).pan == old(self).pan
            },
    {
        proof {
            assert(self.nodes@.subrange(0, self.nodes@.len() as int) =~= self.nodes@);
            lemma_seq_node_index_in_range(self.nodes@, id);
        }
        let found = find_node_index(&self.nodes, self.nodes.len(), id);
        match found {
            None => false,
            Some(k) => {
                let info: Option<ScrollFrameInfo> = match &self.nodes[k].node_type {
                    NodeType::ScrollFrame(info) => Some(*info),
                    _ => None,
                };
                match info {
                    None => false,
                    Some(info) => {
                        let target = Vector { x: sat_sub(0, origin.x), y: sat_sub(0, origin.y) };
                        let new_offset = match clamp {
                            ScrollClamping::NoClamping => target,
                            ScrollClamping::ToContentBounds => clamp_offset(
                                target,
                                info.frame_rect,
                                info.content_size,
                            ),
                        };
                        let moved = new_offset != info.state.offset;
                        let node_id = self.nodes[k].id;
                        let parent = self.nodes[k].parent;
                        let pipeline_id = self.nodes[k].pipeline_id;
                        self.nodes[k] = ClipScrollNode {
                            id: node_id,
                            parent,
                            pipeline_id,
                            node_type: NodeType::ScrollFrame(
                                ScrollFrameInfo {
                                    state: ScrollingState {
                                        offset: new_offset,
                                        bouncing_back: false,
                                    },
                                    ..info
                                },
                            ),
                        };
                        moved
                    },
                }
            },
        }
    }

    /// Apply one scroll event to the topmost scroll node (the first scroll
    /// node registered, the root viewport's). Only nodes sensitive to input
    /// events react. A mid-gesture move may leave the offset past the
    /// content bounds; the gesture's end clamps it back and, if it was out
    /// of bounds, marks the node as bouncing back. Returns whether any node
    /// changed state.
    pub fn scroll(
        &mut self,
        scroll_location: ScrollLocation,
        phase: ScrollEventPhase,
    ) -> (moved: bool)
        ensures
            spec_first_scroll_index(old(self).nodes@, 0).is_none() ==> (!moved && *final(self)
                == *old(self)),
            spec_first_scroll_index(old(self).nodes@, 0).is_some() ==> {
                let k = spec_first_scroll_index(old(self).nodes@, 0).unwrap();
                let info = old(self).nodes@[k].scroll_info();
                let new_state = spec_scroll_event_state(info, scroll_location, phase);
                &&& moved == (new_state != info.state)
                &&& final(self).nodes@ == old(self).nodes@.update(
                    k,
                    ClipScrollNode {
                        node_type: NodeType::ScrollFrame(ScrollFrameInfo { state: new_state, ..info }),
                        ..old(self).nodes@[k]
                    },
                )
                &&& final(self).next_dynamic_index == old(self).next_dynamic_index
                &&& final(self).pipelines_to_discard == old(self).pipelines_to_discard
                &&& final(self).pan == old(self).pan
            },
    {
        proof {
            lemma_spec_first_scroll_index_in_range(self.nodes@, 0);
        }
        let found = first_scroll_index_from(&self.nodes, 0);
        match found {
            None => false,
            Some(k) => {
                let info: ScrollFrameInfo = match &self.nodes[k].node_type {
                    NodeType::ScrollFrame(info) => *info,
                    _ => ScrollFrameInfo {
                        frame_rect: Rect::zero(),
                        content_size: Size { w: 0, h: 0 },
                        scroll_sensitivity: ScrollSensitivity::Script,
                        state: ScrollingState {
                            offset: Vector { x: 0, y: 0 },
                            bouncing_back: false,
                        },
                    },
                };
                let new_state = scroll_event_state(info, scroll_location, phase);
                let moved = new_state != info.state;
                let node_id = self.nodes[k].id;
                let parent = self.nodes[k].parent;
                let pipeline_id = self.nodes[k].pipeline_id;
                self.nodes[k] = ClipScrollNode {
                    id: node_id,
                    parent,
                    pipeline_id,
                    node_type: NodeType::ScrollFrame(ScrollFrameInfo { state: new_state, ..info }),
                };
                moved
            },
        }
    }

    /// Finish every bounce-back animation: each bouncing node's offset is
    /// clamped back into the scrollable range and its flag cleared.
    pub fn tick_scrolling_bounce_animations(&mut self)
        ensures
            final(self).nodes@.len() == old(self).nodes@.len(),
            forall|k: int|
                0 <= k < old(self).nodes@.len() ==> #[trigger] final(self).nodes@[k]
                    == spec_tick_node(old(self).nodes@[k]),
            final(self).next_dynamic_index == old(self).next_dynamic_index,
            final(self).pipelines_to_discard == old(self).pipelines_to_discard,
            final(self).pan == old(self).pan,
    {
        let n = self.nodes.len();
        let mut i: usize = 0;
        while i < n
            invariant
                i <= n,
                n == self.nodes@.len(),
                self.nodes@.len() == old(self).nodes@.len(),
                forall|k: int| i <= k < n ==> #[trigger] self.nodes@[k] == old(self).nodes@[k],
                forall|k: int|
                    0 <= k < i ==> #[trigger] self.nodes@[k] == spec_tick_node(
                        old(self).nodes@[k],
                    ),
                self.next_dynamic_index == old(self).next_dynamic_index,
                self.pipelines_to_discard == old(self).pipelines_to_discard,
                self.pan == old(self).pan,
            decreases n - i,
        {
            let info: Option<ScrollFrameInfo> = match &self.nodes[i].node_type {
                NodeType::ScrollFrame(info) => Some(*info),
                _ => None,
            };
            match info {
                Some(info) => {
                    if info.state.bouncing_back {
                        let node_id = self.nodes[i].id;
                        let parent = self.nodes[i].parent;
                        let pipeline_id = self.nodes[i].pipeline_id;
                        let clamped = clamp_offset(
                            info.state.offset,
                            info.frame_rect,
                            info.content_size,
                        );
                        self.nodes[i] = ClipScrollNode {
                            id: node_id,
                            parent,
                            pipeline_id,
                            node_type: NodeType::ScrollFrame(
                                ScrollFrameInfo {
                                    state: ScrollingState {
                                        offset: clamped,
                                        bouncing_back: false,
                                    },
                                    ..info
                                },
                            ),
                        };
                    }
                },
                None => {},
            }
            i += 1;
        }
    }

    /// The ids of the scroll nodes currently in a bounce-back state.
    pub fn collect_nodes_bouncing_back(&self) -> (ids: Vec<ClipId>)
        ensures
            ids@ == spec_bouncing_ids(self.nodes@),
    {
        let mut ids: Vec<ClipId> = Vec::new();
        let n = self.nodes.len();
        let mut i: usize = 0;
        proof {
            assert(self.nodes@.subrange(0, 0) =~= Seq::<ClipScrollNode>::empty());
        }
        while i < n
            invariant
                i <= n,
                n == self.nodes@.len(),
                ids@ == spec_bouncing_ids(self.nodes@.subrange(0, i as int)),
            decreases n - i,
        {
            match &self.nodes[i].node_type {
                NodeType::ScrollFrame(info) => {
                    if info.state.bouncing_back {
                        ids.push(self.nodes[i].id);
                    }
                },
                _ => {},
            }
            i += 1;
            proof {
                assert(self.nodes@.subrange(0, i as int).drop_last() =~= self.nodes@.subrange(
                    0,
                    i - 1,
                ));
                assert(self.nodes@.subrange(0, i as int).last() == self.nodes@[i - 1]);
            }
        }
        proof {
            assert(self.nodes@.subrange(0, n as int) =~= self.nodes@);
        }
        ids
    }

    /// The id and current offset of every scroll node.
    pub fn get_scroll_node_state(&self) -> (states: Vec<ScrollLayerState>)
        ensures
            states@ == spec_scroll_node_states(self.nodes@),
    {
        let mut states: Vec<ScrollLayerState> = Vec::new();
        let n = self.nodes.len();
        let mut i: usize = 0;
        proof {
            assert(self.nodes@.subrange(0, 0) =~= Seq::<ClipScrollNode>::empty());
        }
        while i < n
            invariant
                i <= n,
                n == self.nodes@.len(),
                states@ == spec_scroll_node_states(self.nodes@.subrange(0, i as int)),
            decreases n - i,
        {
            match &self.nodes[i].node_type {
                NodeType::ScrollFrame(info) => {
                    let state = ScrollLayerState {
                        id: self.nodes[i].id,
                        scroll_offset: info.state.offset,
                    };
                    states.push(state);
                },
                _ => {},
            }
            i += 1;
            proof {
                assert(self.nodes@.subrange(0, i as int).drop_last() =~= self.nodes@.subrange(
                    0,
                    i - 1,
                ));
                assert(self.nodes@.subrange(0, i as int).last() == self.nodes@[i - 1]);
            }
        }
        proof {
            assert(self.nodes@.subrange(0, n as int) =~= self.nodes@);
        }
        states
    }

    /// The first scroll node registered: the root viewport's scroll node.
    pub fn topmost_scrolling_node_id(&self) -> (id: Option<ClipId>)
        ensures
            id == match spec_first_scroll_index(self.nodes@, 0) {
                Some(k) => Some(self.nodes@[k].id),
                None => None::<ClipId>,
            },
    {
        proof {
            lemma_spec_first_scroll_index_in_range(self.nodes@, 0);
        }
        match first_scroll_index_from(&self.nodes, 0) {
            Some(k) => Some(self.nodes[k].id),
            None => None,
        }
    }

    /// Drop pipeline `p`'s transient scroll state at the next drain.
    pub fn discard_frame_state_for_pipeline(&mut self, pipeline_id: PipelineId)
        ensures
            final(self).pipelines_to_discard@ == old(self).pipelines_to_discard@.push(pipeline_id),
            final(self).nodes == old(self).nodes,
            final(self).next_dynamic_index == old(self).next_dynamic_index,
            final(self).pan == old(self).pan,
    {
        self.pipelines_to_discard.push(pipeline_id);
    }

    /// Record the global pan applied to every node's transform. Propagating
    /// it into per-node world transforms is the tree's rendering-side job.
    pub fn update_all_node_transforms(&mut self, pan: Vector)
        ensures
            final(self).pan == pan,
            final(self).nodes == old(self).nodes,
            final(self).next_dynamic_index == old(self).next_dynamic_index,
            final(self).pipelines_to_discard == old(self).pipelines_to_discard,
    {
        self.pan = pan;
    }

    /// Re-apply captured scroll offsets to the scroll nodes that still exist
    /// by id after the rebuild.
    pub fn finalize_and_apply_pending_scroll_offsets(&mut self, old_states: ScrollStates)
        ensures
            final(self).nodes@.len() == old(self).nodes@.len(),
            forall|k: int|
                0 <= k < old(self).nodes@.len() ==> #[trigger] final(self).nodes@[k]
                    == spec_apply_state(old(self).nodes@[k], old_states),
            final(self).next_dynamic_index == old(self).next_dynamic_index,
            final(self).pipelines_to_discard == old(self).pipelines_to_discard,
            final(self).pan == old(self).pan,
    {
        let n = self.nodes.len();
        let mut i: usize = 0;
        while i < n
            invariant
                i <= n,
                n == self.nodes@.len(),
                self.nodes@.len() == old(self).nodes@.len(),
                forall|k: int|
                    i <= k < n ==> #[trigger] self.nodes@[k] == old(self).nodes@[k],
                forall|k: int|
                    0 <= k < i ==> #[trigger] self.nodes@[k] == spec_apply_state(
                        old(self).nodes@[k],
                        old_states,
                    ),
                self.next_dynamic_index == old(self).next_dynamic_index,
                self.pipelines_to_discard == old(self).pipelines_to_discard,
                self.pan == old(self).pan,
            decreases n - i,
        {
            let scroll_info: Option<ScrollFrameInfo> = match &self.nodes[i].node_type {
                NodeType::ScrollFrame(info) => Some(*info),
                _ => None,
            };
            match scroll_info {
                Some(info) => {
                    match old_states.get(self.nodes[i].id) {
                        Some(state) => {
                            let id = self.nodes[i].id;
                            let parent = self.nodes[i].parent;
                            let pipeline_id = self.nodes[i].pipeline_id;
                            self.nodes[i] = ClipScrollNode {
                                id,
                                parent,
                                pipeline_id,
                                node_type: NodeType::ScrollFrame(
                                    ScrollFrameInfo { state, ..info },
                                ),
                            };
                        },
                        None => {},
                    }
                },
                None => {},
            }
            i += 1;
        }
    }
}

} // verus!
