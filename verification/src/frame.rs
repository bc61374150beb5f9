//! The frame driver and the flattening engine: per-build lifecycle (reset,
//! create, build), the recursive display-list traversal, and the
//! opaque-rectangle clip-splitting optimization.

use vstd::prelude::*;
use crate::api::{
    ClipAndScrollInfo, ClipId, Color, ImageDisplayItem, ItemRange, LocalClip, PipelineId,
    ScrollClamping, ScrollEventPhase, ScrollLocation, ScrollPolicy, ScrollSensitivity,
    SpecificDisplayItem, StackingContext, TileOffset, Transform, TransformStyle,
};
use crate::api::{rounded_contains, spec_inner_rect, radii_bounded, local_clip_contains, ComplexClipRegion, DisplayItem};
use crate::builder::{
    CompositeOps, FrameBuilder, FrameBuilderConfig, HitTestItem, Primitive, PrimitiveDetail,
    PrimitiveFlags, PrimitiveInfo, RendererFrame, same_but_prims, spec_hits_from,
};
use crate::clip::ClipRegion;
use crate::decompose::{TilePrim, spec_decompose_image, decompose_image};
use crate::geom::{
    Rect, Size, Vector, in_pieces, rect_bounded, rect_contains, spec_translate, subtract_rect,
};
use crate::resource::{ResourceCache, TiledImageMap};
use crate::scene::{
    DisplayList, PipelineEpochMap, Scene, filter_ops_for_compositing,
    item_ranges_valid,
};
use crate::spatial::{
    ClipScrollNode, ClipScrollTree, NodeType, ReferenceFrameInfo, ScrollLayerState, ScrollStates,
    ScrollingState, spec_apply_state, spec_bouncing_ids, spec_scroll_node_states,
    spec_scroll_state_of, seq_node_index,
};

verus! {

/// Counts completed build cycles: advanced by exactly one at each `reset`,
/// it disambiguates spatial-tree generations.
#[derive(Clone, Copy, PartialEq, PartialOrd, Eq, Ord, Structural, Debug)]
pub struct FrameId(pub u32);

/// The deepest chain of embedded pipelines one build will enter; an iframe
/// nested deeper is skipped like a missing pipeline. (The traversal must
/// terminate even on a cyclic pipeline graph, so a bound is needed; this
/// implementation documents this one.)
pub const MAX_NESTING_DEPTH: u32 = 64;

/// The color of the synthetic scrollbar rectangle, when scrollbars are
/// enabled: a translucent gray.
fn default_scrollbar_color() -> (c: Color)
    ensures
        c == (Color { r: 77u8, g: 77u8, b: 77u8, a: 153u8 }),
{
    Color { r: 77, g: 77, b: 77, a: 153 }
}

/// The fixed-position coordinate-space replacement in effect: if the top of
/// the replacement stack names `id`, its substitute; otherwise `id` itself.
/// Only the top entry is ever consulted; pushes and pops are strictly scoped
/// to the stacking context or reference frame that made them, which is what
/// makes the one-entry lookup correct under nesting.
pub open spec fn spec_apply_replacement(replacements: Seq<(ClipId, ClipId)>, id: ClipId) -> ClipId {
    if replacements.len() > 0 && replacements.last().0 == id {
        replacements.last().1
    } else {
        id
    }
}

/// Transient per-build traversal state threaded through the recursive
/// flattening calls: the snapshot of image-tiling metadata and the LIFO
/// stack of fixed-position coordinate-space replacements.
pub struct FlattenContext {
    pub tiled_image_map: TiledImageMap,
    pub replacements: Vec<(ClipId, ClipId)>,
}

impl FlattenContext {
    pub fn new(resource_cache: &ResourceCache) -> (context: FlattenContext)
        ensures
            context.tiled_image_map.entries@ == resource_cache.tiled_images@,
            resource_cache.wf() ==> context.tiled_image_map.wf(),
            context.replacements@.len() == 0,
    {
        FlattenContext {
            tiled_image_map: resource_cache.get_tiled_image_map(),
            replacements: Vec::new(),
        }
    }

    /// Resolve a scroll node id against the replacement stack: fixed-position
    /// content is repositioned onto the nearest enclosing reference frame.
    pub fn apply_scroll_frame_id_replacement(&self, id: ClipId) -> (r: ClipId)
        ensures
            r == spec_apply_replacement(self.replacements@, id),
    {
        if self.replacements.len() > 0 {
            let top = self.replacements[self.replacements.len() - 1];
            if top.0 == id {
                top.1
            } else {
                id
            }
        } else {
            id
        }
    }

    /// Materialize a range of complex clip shapes from the owning pipeline's
    /// display list. An empty range is answered without any lookup; for a
    /// non-empty range the pipeline record must exist — its absence is an
    /// internal-consistency violation, not recoverable user input, so it is
    /// excluded by precondition rather than handled.
    pub fn get_complex_clips(
        &self,
        scene: &Scene,
        pipeline_id: PipelineId,
        complex_clips: ItemRange,
    ) -> (clips: Vec<ComplexClipRegion>)
        requires
            complex_clips.length > 0 ==> scene.has_pipeline(pipeline_id) && complex_clips.valid_for(
                scene.spec_pipeline(pipeline_id).display_list.complex_clips@.len(),
            ),
        ensures
            clips@ == spec_complex_clips(*scene, pipeline_id, complex_clips),
    {
        if complex_clips.is_empty() {
            let empty: Vec<ComplexClipRegion> = Vec::new();
            proof {
                assert(empty@ =~= spec_complex_clips(*scene, pipeline_id, complex_clips));
            }
            return empty;
        }
        match scene.get_pipeline(pipeline_id) {
            Some(pipeline) => pipeline.display_list.get_complex_clips(complex_clips),
            None => {
                proof {
                    assert(false);
                }
                Vec::new()
            },
        }
    }
}

/// What `get_complex_clips` returns: nothing for an empty range, else the
/// named slice of the pipeline's complex-clip array.
pub open spec fn spec_complex_clips(
    scene: Scene,
    pipeline_id: PipelineId,
    complex_clips: ItemRange,
) -> Seq<ComplexClipRegion> {
    if complex_clips.length == 0 {
        Seq::empty()
    } else {
        scene.spec_pipeline(pipeline_id).display_list.complex_clips@.subrange(
            complex_clips.start as int,
            complex_clips.start + complex_clips.length,
        )
    }
}

/// The offset children of a stacking context are flattened with: entering a
/// reference frame resets the accumulated reference-frame-relative offset to
/// zero (children are expressed in the new local space); otherwise the
/// context's local origin is accumulated.
pub fn stacking_context_child_offset(
    offset: Vector,
    bounds_origin: Vector,
    establishes_reference_frame: bool,
) -> (child: Vector)
    ensures
        establishes_reference_frame ==> child == (Vector { x: 0i64, y: 0i64 }),
        !establishes_reference_frame ==> child == offset.spec_add(bounds_origin),
{
    if establishes_reference_frame {
        Vector::zero()
    } else {
        offset.add(bounds_origin)
    }
}

/// Whether the opaque-rectangle clip-splitting optimization applies: the
/// fill is fully opaque, the local clip is a rounded region with a non-empty
/// inner rectangle, and the geometry is within the bounds under which the
/// rectangle subtraction is exact.
pub open spec fn spec_split_applies(info: PrimitiveInfo, color: Color) -> bool {
    &&& color.a == 255
    &&& info.local_clip is RoundedRect
    &&& rect_bounded(info.local_clip->RoundedRect_1.rect)
    &&& radii_bounded(info.local_clip->RoundedRect_1.radii)
    &&& rect_bounded(info.rect)
    &&& spec_inner_rect(info.local_clip->RoundedRect_1).is_some()
}

/// The rectangles of the primitives of `s`.
pub open spec fn prim_rects(s: Seq<Primitive>) -> Seq<Rect> {
    s.map_values(|p: Primitive| p.info.rect)
}

/// Try to render a solid rectangle clipped by a single rounded region as one
/// unmasked primitive for the region's inner rectangle plus masked
/// primitives for the remainder of the rectangle, so the inner area needs no
/// mask sampling. Returns whether the optimization applied; the caller falls
/// back to a single masked primitive otherwise. The optimization applies
/// exactly when the fill is opaque, the clip is a rounded region with an
/// inner rectangle, and the geometry lies within `COORD_LIMIT` — the bound
/// under which the rectangle subtraction is exact; outside it the always
/// correct masked fallback is used.
pub fn try_to_add_rectangle_splitting_on_clip(
    builder: &mut FrameBuilder,
    info: &PrimitiveInfo,
    color: &Color,
    clip_and_scroll: &ClipAndScrollInfo,
) -> (applied: bool)
    ensures
        applied == spec_split_applies(*info, *color),
        !applied ==> *final(builder) == *old(builder),
        applied ==> {
            let region = info.local_clip->RoundedRect_1;
            let inner = spec_inner_rect(region).unwrap();
            let n = old(builder).prims@.len() as int;
            &&& same_but_prims(*old(builder), *final(builder))
            &&& final(builder).prims@.len() > n
            &&& final(builder).prims@.subrange(0, n) == old(builder).prims@
            &&& final(builder).prims@[n] == (Primitive {
                clip_and_scroll: *clip_and_scroll,
                info: PrimitiveInfo {
                    rect: inner,
                    local_clip: LocalClip::Rect(info.local_clip.spec_clip_rect()),
                    is_backface_visible: info.is_backface_visible,
                    tag: None::<crate::api::ItemTag>,
                },
                detail: PrimitiveDetail::Rectangle { color: *color, flags: PrimitiveFlags::Normal },
            })
            &&& forall|k: int|
                n + 1 <= k < final(builder).prims@.len() ==> #[trigger] final(builder).prims@[k]
                    == (Primitive {
                    clip_and_scroll: *clip_and_scroll,
                    info: PrimitiveInfo { rect: final(builder).prims@[k].info.rect, ..*info },
                    detail: PrimitiveDetail::Rectangle {
                        color: *color,
                        flags: PrimitiveFlags::Normal,
                    },
                })
            &&& final(builder).prims@ == old(builder).prims@.push(
                Primitive {
                    clip_and_scroll: *clip_and_scroll,
                    info: PrimitiveInfo {
                        rect: inner,
                        local_clip: LocalClip::Rect(info.local_clip.spec_clip_rect()),
                        is_backface_visible: info.is_backface_visible,
                        tag: None::<crate::api::ItemTag>,
                    },
                    detail: PrimitiveDetail::Rectangle {
                        color: *color,
                        flags: PrimitiveFlags::Normal,
                    },
                },
            ) + crate::geom::spec_subtract_rect(info.rect, inner).map_values(
                (|r: Rect| Primitive {
                    clip_and_scroll: *clip_and_scroll,
                    info: PrimitiveInfo { rect: r, ..*info },
                    detail: PrimitiveDetail::Rectangle {
                        color: *color,
                        flags: PrimitiveFlags::Normal,
                    },
                }),
            )
            &&& forall|x: int, y: int|
                #[trigger] in_pieces(
                    prim_rects(final(builder).prims@.subrange(n + 1, final(builder).prims@.len() as int)),
                    x,
                    y,
                ) <==> (rect_contains(info.rect, x, y) && !rect_contains(inner, x, y))
        },
{
    // Splitting a non-opaque rectangle would only hurt batching.
    if !color.is_opaque() {
        return false;
    }
    let region = match &info.local_clip {
        LocalClip::Rect(_) => {
            return false;
        },
        LocalClip::RoundedRect(_, region) => *region,
    };
    if !region.rect.is_bounded() || !region.radii.is_bounded() || !info.rect.is_bounded() {
        return false;
    }
    let inner_unclipped_rect = match region.get_inner_rect_full() {
        Some(rect) => rect,
        None => {
            return false;
        },
    };

    let clipped_rects = subtract_rect(&info.rect, &inner_unclipped_rect);

    // The inner rectangle is untouched by the rounding, so it needs only the
    // plain rectangle bound, not the rounded mask.
    let prim_info = PrimitiveInfo {
        rect: inner_unclipped_rect,
        local_clip: LocalClip::Rect(info.local_clip.clip_rect()),
        is_backface_visible: info.is_backface_visible,
        tag: None,
    };
    builder.add_solid_rectangle(*clip_and_scroll, &prim_info, color, PrimitiveFlags::Normal);

    let ghost base = builder.prims@;
    let mut i: usize = 0;
    let n_pieces = clipped_rects.len();
    while i < n_pieces
        invariant
            i <= n_pieces,
            n_pieces == clipped_rects@.len(),
            builder.prims@.len() == base.len() + i,
            builder.prims@.subrange(0, base.len() as int) == base,
            forall|k: int|
                base.len() <= k < builder.prims@.len() ==> #[trigger] builder.prims@[k]
                    == (Primitive {
                    clip_and_scroll: *clip_and_scroll,
                    info: PrimitiveInfo { rect: clipped_rects@[k - base.len()], ..*info },
                    detail: PrimitiveDetail::Rectangle {
                        color: *color,
                        flags: PrimitiveFlags::Normal,
                    },
                }),
            same_but_prims(*old(builder), *builder),
        decreases n_pieces - i,
    {
        let piece_info = PrimitiveInfo {
            rect: clipped_rects[i],
            local_clip: info.local_clip,
            is_backface_visible: info.is_backface_visible,
            tag: info.tag,
        };
        builder.add_solid_rectangle(*clip_and_scroll, &piece_info, color, PrimitiveFlags::Normal);
        i += 1;
        proof {
            assert(builder.prims@.subrange(0, base.len() as int) =~= base);
        }
    }
    proof {
        let n = old(builder).prims@.len() as int;
        assert(base.len() == n + 1);
        assert(builder.prims@[n] == base[n]);
        assert(base[n] == (Primitive {
            clip_and_scroll: *clip_and_scroll,
            info: prim_info,
            detail: PrimitiveDetail::Rectangle { color: *color, flags: PrimitiveFlags::Normal },
        }));
        let tail = builder.prims@.subrange(
            old(builder).prims@.len() as int + 1,
            builder.prims@.len() as int,
        );
        assert(prim_rects(tail) =~= clipped_rects@);
        assert(builder.prims@.subrange(0, old(builder).prims@.len() as int) =~= old(
            builder,
        ).prims@);
        assert forall|x: int, y: int| #[trigger] in_pieces(prim_rects(tail), x, y)
            <==> (rect_contains(info.rect, x, y) && !rect_contains(inner_unclipped_rect, x, y)) by {
            assert(in_pieces(prim_rects(tail), x, y) == in_pieces(clipped_rects@, x, y));
        }
        assert(builder.prims@ =~= old(builder).prims@.push(
            Primitive {
                clip_and_scroll: *clip_and_scroll,
                info: prim_info,
                detail: PrimitiveDetail::Rectangle { color: *color, flags: PrimitiveFlags::Normal },
            },
        ) + clipped_rects@.map_values(
            (|r: Rect| Primitive {
                clip_and_scroll: *clip_and_scroll,
                info: PrimitiveInfo { rect: r, ..*info },
                detail: PrimitiveDetail::Rectangle { color: *color, flags: PrimitiveFlags::Normal },
            }),
        ));
    }
    true
}

/// Rectangle split equivalence: for an opaque rectangle clipped by a rounded
/// region whose inner rectangle lies inside the rectangle, the points
/// covered by the split rendering — the inner rectangle under the plain
/// clip-rectangle bound, plus the subtracted pieces still under the rounded
/// mask — are exactly the points the single masked rectangle covers.
pub proof fn lemma_rectangle_split_equivalence(
    outer: Rect,
    clip_rect: Rect,
    region: ComplexClipRegion,
    inner: Rect,
    pieces: Seq<Rect>,
    x: int,
    y: int,
)
    requires
        spec_inner_rect(region) == Some(inner),
        radii_bounded(region.radii),
        rect_bounded(region.rect),
        spec_rect_subset(region.rect, clip_rect),
        spec_rect_subset(inner, outer),
        forall|px: int, py: int|
            #[trigger] in_pieces(pieces, px, py) <==> (rect_contains(outer, px, py)
                && !rect_contains(inner, px, py)),
    ensures
        ((rect_contains(inner, x, y) && rect_contains(clip_rect, x, y)) || (in_pieces(pieces, x, y)
            && local_clip_contains(LocalClip::RoundedRect(clip_rect, region), x, y))) <==> (
        rect_contains(outer, x, y) && local_clip_contains(
            LocalClip::RoundedRect(clip_rect, region),
            x,
            y,
        )),
{
    lemma_inner_rect_in_rounded_region(region, inner, x, y);
}

/// Every point of a rounded region's inner rectangle is inside the rounded
/// region: the inner rectangle is inset past every corner box.
proof fn lemma_inner_rect_in_rounded_region(region: ComplexClipRegion, inner: Rect, x: int, y: int)
    requires
        spec_inner_rect(region) == Some(inner),
        radii_bounded(region.radii),
        rect_bounded(region.rect),
    ensures
        rect_contains(inner, x, y) ==> rounded_contains(region, x, y),
{
}

/// One point is in `a` only if it is in `b`.
pub open spec fn spec_rect_subset(a: Rect, b: Rect) -> bool {
    forall|x: int, y: int| rect_contains(a, x, y) ==> #[trigger] rect_contains(b, x, y)
}

/// `b` extends `a`: the old elements keep their places.
pub open spec fn seq_extends<T>(a: Seq<T>, b: Seq<T>) -> bool {
    a.len() <= b.len() && forall|k: int| 0 <= k < a.len() ==> a[k] == #[trigger] b[k]
}

/// During a traversal the spatial tree only grows.
pub open spec fn tree_extended(a: ClipScrollTree, b: ClipScrollTree) -> bool {
    &&& seq_extends(a.nodes@, b.nodes@)
    &&& b.pipelines_to_discard@ == a.pipelines_to_discard@
    &&& b.pan == a.pan
}

/// During a traversal recorded epochs are never changed or dropped.
pub open spec fn epochs_extended(a: PipelineEpochMap, b: PipelineEpochMap) -> bool {
    forall|id: PipelineId|
        a.spec_get(id).is_some() ==> #[trigger] b.spec_get(id) == a.spec_get(id)
}

/// What any traversal step leaves intact in the builder: configuration and
/// window state, the primitive stream as a prefix (emission order is
/// load-bearing and nothing is ever reordered or removed), and balanced
/// stacking-context and reference-frame stacks.
pub open spec fn builder_traversal_ok(a: FrameBuilder, b: FrameBuilder) -> bool {
    &&& b.config == a.config
    &&& b.window_size == a.window_size
    &&& b.inner_rect == a.inner_rect
    &&& b.device_pixel_ratio == a.device_pixel_ratio
    &&& b.background_color == a.background_color
    &&& seq_extends(a.prims@, b.prims@)
    &&& b.sc_stack@.len() == a.sc_stack@.len()
    &&& b.reference_frame_stack@ == a.reference_frame_stack@
}

/// Every epoch the map records is the scene's epoch for that pipeline.
pub open spec fn epochs_consistent(m: PipelineEpochMap, scene: Scene) -> bool {
    forall|id: PipelineId|
        (#[trigger] m.spec_get(id)).is_some() ==> scene.has_pipeline(id) && m.spec_get(id)
            == Some(scene.spec_pipeline(id).epoch)
}

/// Every clip, scroll-frame and sticky-frame item of `list` in positions
/// `[start, end)` has a node under its identifier in `tree`.
pub open spec fn item_nodes_present(list: DisplayList, start: int, end: int, tree: ClipScrollTree) -> bool {
    forall|j: int|
        start <= j < end && j < list.items@.len() ==> match (#[trigger] list.items@[j]).item {
            SpecificDisplayItem::Clip(info) => tree.has_node(info.id),
            SpecificDisplayItem::ScrollFrame(info) => tree.has_node(info.id),
            SpecificDisplayItem::StickyFrame(info) => tree.has_node(info.id),
            _ => true,
        }
}

/// A node keeps existing when the tree grows.
pub proof fn lemma_has_node_extends(a: Seq<ClipScrollNode>, b: Seq<ClipScrollNode>, id: ClipId)
    requires
        seq_extends(a, b),
        seq_node_index(a, id).is_some(),
    ensures
        seq_node_index(b, id).is_some(),
{
    crate::spatial::lemma_seq_node_index_in_range(a, id);
    let k = seq_node_index(a, id).unwrap();
    assert(b[k] == a[k]);
    if seq_node_index(b, id).is_none() {
        crate::spatial::lemma_seq_node_index_in_range(b, id);
        assert(b[k].id != id);
    }
}

/// No primitive appended by a step carries the synthetic scrollbar flag;
/// only the root traversal adds one, and only when scrollbars are enabled.
pub open spec fn no_scrollbar_prims_added(a: FrameBuilder, b: FrameBuilder) -> bool {
    forall|k: int|
        a.prims@.len() <= k < b.prims@.len() ==> !((#[trigger] b.prims@[k]).detail matches
            PrimitiveDetail::Rectangle { flags: PrimitiveFlags::Scrollbar(..), .. })
}

/// What any traversal step leaves intact in the frame driver.
pub open spec fn frame_traversal_ok(a: Frame, b: Frame) -> bool {
    &&& tree_extended(a.clip_scroll_tree, b.clip_scroll_tree)
    &&& epochs_extended(a.pipeline_epoch_map, b.pipeline_epoch_map)
    &&& b.id == a.id
    &&& b.frame_builder_config == a.frame_builder_config
    &&& (b.frame_builder is None <==> a.frame_builder is None)
}

/// What any traversal step leaves intact in the context: the replacement
/// stack is restored exactly (pushes and pops are strictly scoped) and the
/// tiling snapshot is read-only.
pub open spec fn context_preserved(a: FlattenContext, b: FlattenContext) -> bool {
    &&& b.replacements@ == a.replacements@
    &&& b.tiled_image_map.entries@ == a.tiled_image_map.entries@
}

/// `list` is pipeline `pipeline_id`'s display list in a well-formed scene.
pub open spec fn list_of_pipeline(scene: Scene, pipeline_id: PipelineId, list: DisplayList) -> bool {
    &&& scene.wf()
    &&& scene.has_pipeline(pipeline_id)
    &&& scene.spec_pipeline(pipeline_id).display_list == list
}

/// A stacking context establishes a reference frame exactly when it carries
/// a transform or a perspective.
pub open spec fn spec_establishes_reference_frame(sc: StackingContext) -> bool {
    sc.transform.is_some() || sc.perspective.is_some()
}

/// The geometry every item is flattened with: its rectangle translated by
/// the accumulated reference-frame-relative offset, plus its local clip,
/// backface flag and tag.
pub open spec fn spec_prim_info_for(item: DisplayItem, offset: Vector) -> PrimitiveInfo {
    PrimitiveInfo {
        rect: spec_translate(item.rect, offset),
        local_clip: item.local_clip,
        is_backface_visible: item.is_backface_visible,
        tag: item.tag,
    }
}

/// The image primitive emitted for one tile of a decomposed image.
pub open spec fn spec_tile_image_prim(
    cs: ClipAndScrollInfo,
    base_info: PrimitiveInfo,
    image: ImageDisplayItem,
    t: TilePrim,
) -> Primitive {
    Primitive {
        clip_and_scroll: cs,
        info: PrimitiveInfo { rect: t.rect, ..base_info },
        detail: PrimitiveDetail::Image {
            stretch_size: t.stretched_size,
            tile_spacing: image.tile_spacing,
            image_key: image.image_key,
            image_rendering: image.image_rendering,
            tile_offset: Some(t.tile_offset),
        },
    }
}

/// The clip region a clip or scroll-frame item registers: the item's clip
/// rectangle bound, its complex shapes, and its mask, all positioned by the
/// accumulated offset.
pub open spec fn spec_clip_region_matches(
    region: ClipRegion,
    clip_rect: Rect,
    complex: Seq<ComplexClipRegion>,
    image_mask: Option<crate::api::ImageMask>,
    offset: Vector,
) -> bool {
    &&& region.origin == clip_rect.origin.spec_add(offset)
    &&& region.main == spec_translate(clip_rect, offset)
    &&& region.complex_clips@ == complex
    &&& region.image_mask == image_mask
}

/// The driver of one document's builds: it owns the spatial tree and the
/// epoch map across builds, and one frame builder between `create` and
/// `build`.
pub struct Frame {
    pub clip_scroll_tree: ClipScrollTree,
    pub pipeline_epoch_map: PipelineEpochMap,
    pub id: FrameId,
    pub frame_builder_config: FrameBuilderConfig,
    pub frame_builder: Option<FrameBuilder>,
}

impl Frame {
    pub fn new(config: FrameBuilderConfig) -> (frame: Frame)
        ensures
            frame.clip_scroll_tree.nodes@.len() == 0,
            frame.clip_scroll_tree.pipelines_to_discard@.len() == 0,
            frame.pipeline_epoch_map.entries@.len() == 0,
            frame.id == FrameId(0u32),
            frame.frame_builder_config == config,
            frame.frame_builder is None,
    {
        Frame {
            pipeline_epoch_map: PipelineEpochMap::new(),
            clip_scroll_tree: ClipScrollTree::new(),
            id: FrameId(0),
            frame_builder: None,
            frame_builder_config: config,
        }
    }

    /// Start a new build cycle: the frame counter advances by exactly one,
    /// the epoch map empties, and the spatial tree is drained, handing back
    /// every live scroll node's state for later re-application.
    pub fn reset(&mut self) -> (states: ScrollStates)
        requires
            old(self).id.0 < u32::MAX,
        ensures
            final(self).id.0 == old(self).id.0 + 1,
            final(self).pipeline_epoch_map.entries@.len() == 0,
            forall|id: ClipId| #[trigger]
                states.spec_get(id) == spec_scroll_state_of(
                    old(self).clip_scroll_tree.nodes@,
                    old(self).clip_scroll_tree.pipelines_to_discard@,
                    id,
                ),
            final(self).clip_scroll_tree.nodes@.len() == 0,
            final(self).clip_scroll_tree.pipelines_to_discard@.len() == 0,
            final(self).clip_scroll_tree.next_dynamic_index == old(
                self,
            ).clip_scroll_tree.next_dynamic_index,
            final(self).clip_scroll_tree.pan == old(self).clip_scroll_tree.pan,
            final(self).frame_builder_config == old(self).frame_builder_config,
            final(self).frame_builder == old(self).frame_builder,
    {
        self.pipeline_epoch_map.clear();
        self.id = FrameId(self.id.0 + 1);
        self.clip_scroll_tree.drain()
    }

    /// The id and current offset of every scroll node.
    pub fn get_scroll_node_state(&self) -> (states: Vec<ScrollLayerState>)
        ensures
            states@ == spec_scroll_node_states(self.clip_scroll_tree.nodes@),
    {
        self.clip_scroll_tree.get_scroll_node_state()
    }

    /// Set one node's scroll origin; returns whether it actually moved.
    pub fn scroll_node(&mut self, origin: Vector, id: ClipId, clamp: ScrollClamping) -> (moved:
        bool)
        ensures
            !old(self).clip_scroll_tree.has_scroll_node(id) ==> (!moved && *final(self) == *old(
                self,
            )),
            old(self).clip_scroll_tree.has_scroll_node(id) ==> {
                let k = old(self).clip_scroll_tree.spec_node_index(id).unwrap();
                let info = old(self).clip_scroll_tree.nodes@[k].scroll_info();
                let new_offset = crate::spatial::spec_scroll_node_target(origin, clamp, info);
                &&& moved == (new_offset != info.state.offset)
                &&& final(self).clip_scroll_tree.has_scroll_node(id)
                &&& final(self).clip_scroll_tree.spec_scroll_offset(id) == new_offset
                &&& final(self).pipeline_epoch_map == old(self).pipeline_epoch_map
                &&& final(self).id == old(self).id
                &&& final(self).frame_builder_config == old(self).frame_builder_config
                &&& final(self).frame_builder == old(self).frame_builder
            },
    {
        proof {
            crate::spatial::lemma_seq_node_index_in_range(self.clip_scroll_tree.nodes@, id);
        }
        let moved = self.clip_scroll_tree.scroll_node(origin, id, clamp);
        proof {
            if old(self).clip_scroll_tree.has_scroll_node(id) {
                let k = old(self).clip_scroll_tree.spec_node_index(id).unwrap();
                lemma_node_index_after_update(
                    old(self).clip_scroll_tree.nodes@,
                    self.clip_scroll_tree.nodes@,
                    k,
                    id,
                );
            }
        }
        moved
    }

    /// Apply one scroll event to the topmost scroll node; returns whether
    /// any node changed state. The cursor names the point the gesture is
    /// under; picking the scroll node under it is the spatial tree's
    /// transform-side job, so this model always takes the topmost node and
    /// the cursor does not influence the result.
    pub fn scroll(
        &mut self,
        scroll_location: ScrollLocation,
        cursor: Vector,
        phase: ScrollEventPhase,
    ) -> (moved: bool)
        ensures
            final(self).pipeline_epoch_map == old(self).pipeline_epoch_map,
            final(self).id == old(self).id,
            final(self).frame_builder_config == old(self).frame_builder_config,
            final(self).frame_builder == old(self).frame_builder,
            crate::spatial::spec_first_scroll_index(old(self).clip_scroll_tree.nodes@, 0).is_none()
                ==> (!moved && *final(self) == *old(self)),
            crate::spatial::spec_first_scroll_index(
                old(self).clip_scroll_tree.nodes@,
                0,
            ).is_some() ==> {
                let k = crate::spatial::spec_first_scroll_index(
                    old(self).clip_scroll_tree.nodes@,
                    0,
                ).unwrap();
                let info = old(self).clip_scroll_tree.nodes@[k].scroll_info();
                let new_state = crate::spatial::spec_scroll_event_state(
                    info,
                    scroll_location,
                    phase,
                );
                &&& moved == (new_state != info.state)
                &&& final(self).clip_scroll_tree.nodes@ == old(
                    self,
                ).clip_scroll_tree.nodes@.update(
                    k,
                    ClipScrollNode {
                        node_type: NodeType::ScrollFrame(
                            crate::spatial::ScrollFrameInfo { state: new_state, ..info },
                        ),
                        ..old(self).clip_scroll_tree.nodes@[k]
                    },
                )
                &&& final(self).clip_scroll_tree.next_dynamic_index == old(
                    self,
                ).clip_scroll_tree.next_dynamic_index
                &&& final(self).clip_scroll_tree.pipelines_to_discard == old(
                    self,
                ).clip_scroll_tree.pipelines_to_discard
                &&& final(self).clip_scroll_tree.pan == old(self).clip_scroll_tree.pan
            },
    {
        proof {
            crate::spatial::lemma_spec_first_scroll_index_in_range(
                self.clip_scroll_tree.nodes@,
                0,
            );
        }
        self.clip_scroll_tree.scroll(scroll_location, phase)
    }

    /// The tagged primitives of the built frame containing the point,
    /// front-most first — all of them, or only the front-most one when the
    /// flags do not ask for all; nothing before the first `create`.
    pub fn hit_test(
        &mut self,
        pipeline_id: Option<PipelineId>,
        point: Vector,
        flags: crate::api::HitTestFlags,
    ) -> (hits: Vec<HitTestItem>)
        ensures
            *final(self) == *old(self),
            match old(self).frame_builder {
                Some(builder) => {
                    let all = spec_hits_from(
                        builder.prims@,
                        pipeline_id,
                        point.x as int,
                        point.y as int,
                        0,
                    );
                    &&& flags.find_all ==> hits@ == all
                    &&& !flags.find_all ==> hits@ == if all.len() == 0 {
                        Seq::<HitTestItem>::empty()
                    } else {
                        seq![all[0]]
                    }
                },
                None => hits@.len() == 0,
            },
    {
        match &self.frame_builder {
            Some(builder) => builder.hit_test(&self.clip_scroll_tree, pipeline_id, point, flags),
            None => Vec::new(),
        }
    }

    /// Finish every bounce-back animation.
    pub fn tick_scrolling_bounce_animations(&mut self)
        ensures
            final(self).clip_scroll_tree.nodes@.len() == old(self).clip_scroll_tree.nodes@.len(),
            forall|k: int|
                0 <= k < old(self).clip_scroll_tree.nodes@.len()
                    ==> #[trigger] final(self).clip_scroll_tree.nodes@[k]
                    == crate::spatial::spec_tick_node(old(self).clip_scroll_tree.nodes@[k]),
            final(self).pipeline_epoch_map == old(self).pipeline_epoch_map,
            final(self).id == old(self).id,
            final(self).frame_builder_config == old(self).frame_builder_config,
            final(self).frame_builder == old(self).frame_builder,
    {
        self.clip_scroll_tree.tick_scrolling_bounce_animations();
    }

    /// Build the primitive stream and spatial tree for one scene. A scene
    /// with no root pipeline, or whose root pipeline record is missing, is a
    /// benign no-op. Otherwise the frame counter advances by one, the root
    /// pipeline's epoch is recorded, the builder is constructed with the
    /// root's background (a fully transparent color counts as none), the
    /// root viewport is registered, the whole display list is flattened, and
    /// the scroll offsets captured from the previous tree are re-applied to
    /// the nodes that still exist, so user scrolling survives a rebuild.
    pub fn create(
        &mut self,
        scene: &Scene,
        resource_cache: &ResourceCache,
        window_size: Size,
        inner_rect: Rect,
        device_pixel_ratio: u32,
    )
        requires
            old(self).id.0 < u32::MAX,
            scene.wf(),
            resource_cache.wf(),
        ensures
            (match scene.root_pipeline_id {
                Some(root) => scene.has_pipeline(root),
                None => false,
            }) == false ==> *final(self) == *old(self),
            (match scene.root_pipeline_id {
                Some(root) => scene.has_pipeline(root),
                None => false,
            }) ==> {
                let root = scene.root_pipeline_id.unwrap();
                &&& final(self).id.0 == old(self).id.0 + 1
                &&& final(self).frame_builder_config == old(self).frame_builder_config
                &&& final(self).pipeline_epoch_map.spec_get(root) == Some(
                    scene.spec_pipeline(root).epoch,
                )
                &&& epochs_consistent(final(self).pipeline_epoch_map, *scene)
                &&& (match final(self).frame_builder {
                    Some(b) => {
                        &&& b.config == old(self).frame_builder_config
                        &&& b.window_size == window_size
                        &&& b.inner_rect == inner_rect
                        &&& b.device_pixel_ratio == device_pixel_ratio
                        &&& b.background_color == (match scene.spec_pipeline(
                            root,
                        ).background_color {
                            Some(c) => if c.a > 0 {
                                Some(c)
                            } else {
                                None::<Color>
                            },
                            None => None::<Color>,
                        })
                        &&& (!old(self).frame_builder_config.enable_scrollbars
                            ==> (forall|k: int|
                            0 <= k < b.prims@.len() ==> !((#[trigger] b.prims@[k]).detail matches
                                PrimitiveDetail::Rectangle {
                                flags: PrimitiveFlags::Scrollbar(..),
                                ..
                            })))
                        &&& old(self).frame_builder_config.enable_scrollbars ==> {
                            let bar = Rect {
                                origin: Vector { x: 0i64, y: 0i64 },
                                size: Size { w: 10i64, h: 70i64 },
                            };
                            &&& b.prims@.len() > 0
                            &&& b.prims@.last() == (Primitive {
                                clip_and_scroll: ClipAndScrollInfo {
                                    scroll_node_id: ClipId::Clip(0u64, root),
                                    clip_node_id: None::<ClipId>,
                                },
                                info: PrimitiveInfo {
                                    rect: bar,
                                    local_clip: LocalClip::Rect(bar),
                                    is_backface_visible: true,
                                    tag: None::<crate::api::ItemTag>,
                                },
                                detail: PrimitiveDetail::Rectangle {
                                    color: Color { r: 77u8, g: 77u8, b: 77u8, a: 153u8 },
                                    flags: PrimitiveFlags::Scrollbar(
                                        ClipId::Clip(0u64, root),
                                        4i64,
                                    ),
                                },
                            })
                        }
                    },
                    None => false,
                })
                &&& final(self).clip_scroll_tree.nodes@.len() >= 2
                &&& final(self).clip_scroll_tree.nodes@[0] == (ClipScrollNode {
                    id: ClipId::DynamicallyAddedNode(
                        old(self).clip_scroll_tree.next_dynamic_index,
                        root,
                    ),
                    parent: None::<ClipId>,
                    pipeline_id: root,
                    node_type: NodeType::ReferenceFrame(
                        ReferenceFrameInfo {
                            origin: Vector { x: 0i64, y: 0i64 },
                            transform: Transform { token: 0u64 },
                            perspective: Transform { token: 0u64 },
                            frame_rect: Rect {
                                origin: Vector { x: 0i64, y: 0i64 },
                                size: scene.spec_pipeline(root).viewport_size,
                            },
                            is_iframe: false,
                        },
                    ),
                })
                &&& {
                    let viewport = final(self).clip_scroll_tree.nodes@[1];
                    &&& viewport.id == ClipId::Clip(0u64, root)
                    &&& viewport.parent == Some(final(self).clip_scroll_tree.nodes@[0].id)
                    &&& viewport.pipeline_id == root
                    &&& viewport.node_type is ScrollFrame
                    &&& viewport.scroll_info().frame_rect == (Rect {
                        origin: Vector { x: 0i64, y: 0i64 },
                        size: scene.spec_pipeline(root).viewport_size,
                    })
                    &&& viewport.scroll_info().content_size == scene.spec_pipeline(
                        root,
                    ).content_size
                    &&& viewport.scroll_info().scroll_sensitivity
                        == ScrollSensitivity::ScriptAndInputEvents
                }
                &&& ((forall|j: int|
                    0 <= j < scene.spec_pipeline(root).display_list.items@.len() ==> !((
                    #[trigger] scene.spec_pipeline(root).display_list.items@[j]).item
                        is PopStackingContext)) ==> item_nodes_present(
                    scene.spec_pipeline(root).display_list,
                    0,
                    scene.spec_pipeline(root).display_list.items@.len() as int,
                    final(self).clip_scroll_tree,
                ))
                &&& (exists|e: int|
                    #![trigger item_nodes_present(scene.spec_pipeline(root).display_list, 0, e, final(self).clip_scroll_tree)]
                    {
                        &&& 0 <= e <= scene.spec_pipeline(root).display_list.items@.len()
                        &&& (e == scene.spec_pipeline(root).display_list.items@.len() || (0 < e
                            && scene.spec_pipeline(root).display_list.items@[e - 1].item
                            is PopStackingContext))
                        &&& item_nodes_present(
                            scene.spec_pipeline(root).display_list,
                            0,
                            e,
                            final(self).clip_scroll_tree,
                        )
                    })
                &&& forall|id: ClipId|
                    {
                        let prior = spec_scroll_state_of(
                            old(self).clip_scroll_tree.nodes@,
                            old(self).clip_scroll_tree.pipelines_to_discard@,
                            id,
                        );
                        (#[trigger] final(self).clip_scroll_tree.has_scroll_node(id)
                            && prior.is_some())
                            ==> final(self).clip_scroll_tree.spec_scroll_offset(id)
                            == prior.unwrap().offset
                    }
            },
    {
        let root_pipeline_id = match scene.root_pipeline_id {
            Some(root_pipeline_id) => root_pipeline_id,
            None => {
                return ;
            },
        };
        let root_pipeline = match scene.get_pipeline(root_pipeline_id) {
            Some(root_pipeline) => root_pipeline,
            None => {
                return ;
            },
        };
        // A window with a degenerate dimension still produces a (degenerate)
        // frame; the driver does not abort the build on it.

        let old_scrolling_states = self.reset();

        self.pipeline_epoch_map.insert(root_pipeline_id, root_pipeline.epoch);

        let background_color = match root_pipeline.background_color {
            Some(color) => if color.a > 0 {
                Some(color)
            } else {
                None
            },
            None => None,
        };

        let previous_builder = self.frame_builder.take();
        let mut frame_builder = FrameBuilder::new(
            previous_builder,
            window_size,
            background_color,
            self.frame_builder_config,
        );

        let mut context = FlattenContext::new(resource_cache);

        frame_builder.push_root(
            root_pipeline_id,
            &root_pipeline.viewport_size,
            &root_pipeline.content_size,
            &mut self.clip_scroll_tree,
        );
        frame_builder.setup_viewport_offset(
            window_size,
            inner_rect,
            device_pixel_ratio,
            &mut self.clip_scroll_tree,
        );
        let ghost after_root = self.clip_scroll_tree.nodes@;

        self.flatten_root(
            &root_pipeline.display_list,
            root_pipeline_id,
            scene,
            resource_cache,
            &mut context,
            &mut frame_builder,
            &root_pipeline.content_size,
            MAX_NESTING_DEPTH,
        );
        proof {
            assert(self.clip_scroll_tree.nodes@[0] == after_root[0]);
            assert(self.clip_scroll_tree.nodes@[1] == after_root[1]);
            assert(!self.clip_scroll_tree.nodes@[0].is_scroll_frame());
            assert(self.clip_scroll_tree.nodes@[1].is_scroll_frame());
            assert(crate::spatial::spec_first_scroll_index(self.clip_scroll_tree.nodes@, 1)
                == Some(1int));
            assert(crate::spatial::spec_first_scroll_index(self.clip_scroll_tree.nodes@, 0)
                == Some(1int));
        }

        self.frame_builder = Some(frame_builder);
        let ghost pre_finalize = self.clip_scroll_tree.nodes@;
        let ghost root_list = scene.spec_pipeline(root_pipeline_id).display_list;
        let ghost consumed: int = choose|e: int|
            #![trigger item_nodes_present(root_list, 0, e, self.clip_scroll_tree)]
            {
                &&& 0 <= e <= root_list.items@.len()
                &&& (e == root_list.items@.len() || (0 < e && root_list.items@[e - 1].item
                    is PopStackingContext))
                &&& item_nodes_present(root_list, 0, e, self.clip_scroll_tree)
            };
        self.clip_scroll_tree.finalize_and_apply_pending_scroll_offsets(old_scrolling_states);
        proof {
            assert forall|j: int|
                0 <= j < consumed && j < root_list.items@.len() implies match (
            #[trigger] root_list.items@[j]).item {
                SpecificDisplayItem::Clip(info) => self.clip_scroll_tree.has_node(info.id),
                SpecificDisplayItem::ScrollFrame(info) => self.clip_scroll_tree.has_node(info.id),
                SpecificDisplayItem::StickyFrame(info) => self.clip_scroll_tree.has_node(info.id),
                _ => true,
            } by {
                match root_list.items@[j].item {
                    SpecificDisplayItem::Clip(info) => {
                        crate::spatial::lemma_apply_states_preserves_index(
                            pre_finalize,
                            self.clip_scroll_tree.nodes@,
                            old_scrolling_states,
                            info.id,
                        );
                    },
                    SpecificDisplayItem::ScrollFrame(info) => {
                        crate::spatial::lemma_apply_states_preserves_index(
                            pre_finalize,
                            self.clip_scroll_tree.nodes@,
                            old_scrolling_states,
                            info.id,
                        );
                    },
                    SpecificDisplayItem::StickyFrame(info) => {
                        crate::spatial::lemma_apply_states_preserves_index(
                            pre_finalize,
                            self.clip_scroll_tree.nodes@,
                            old_scrolling_states,
                            info.id,
                        );
                    },
                    _ => {},
                }
            }
            assert(item_nodes_present(root_list, 0, consumed, self.clip_scroll_tree));
            if forall|j: int|
                0 <= j < root_list.items@.len() ==> !((#[trigger] root_list.items@[j]).item
                    is PopStackingContext) {
                assert forall|j: int|
                    0 <= j < root_list.items@.len() implies match (
                #[trigger] root_list.items@[j]).item {
                    SpecificDisplayItem::Clip(info) => self.clip_scroll_tree.has_node(info.id),
                    SpecificDisplayItem::ScrollFrame(info) => self.clip_scroll_tree.has_node(
                        info.id,
                    ),
                    SpecificDisplayItem::StickyFrame(info) => self.clip_scroll_tree.has_node(
                        info.id,
                    ),
                    _ => true,
                } by {
                    match root_list.items@[j].item {
                        SpecificDisplayItem::Clip(info) => {
                            crate::spatial::lemma_apply_states_preserves_index(
                                pre_finalize,
                                self.clip_scroll_tree.nodes@,
                                old_scrolling_states,
                                info.id,
                            );
                        },
                        SpecificDisplayItem::ScrollFrame(info) => {
                            crate::spatial::lemma_apply_states_preserves_index(
                                pre_finalize,
                                self.clip_scroll_tree.nodes@,
                                old_scrolling_states,
                                info.id,
                            );
                        },
                        SpecificDisplayItem::StickyFrame(info) => {
                            crate::spatial::lemma_apply_states_preserves_index(
                                pre_finalize,
                                self.clip_scroll_tree.nodes@,
                                old_scrolling_states,
                                info.id,
                            );
                        },
                        _ => {},
                    }
                }
            }
            assert(self.clip_scroll_tree.nodes@[0] == spec_apply_state(
                pre_finalize[0],
                old_scrolling_states,
            ));
            assert(self.clip_scroll_tree.nodes@[1] == spec_apply_state(
                pre_finalize[1],
                old_scrolling_states,
            ));
        }
        proof {
            assert forall|id: ClipId|
                {
                    let prior = spec_scroll_state_of(
                        old(self).clip_scroll_tree.nodes@,
                        old(self).clip_scroll_tree.pipelines_to_discard@,
                        id,
                    );
                    (#[trigger] self.clip_scroll_tree.has_scroll_node(id) && prior.is_some())
                        ==> self.clip_scroll_tree.spec_scroll_offset(id) == prior.unwrap().offset
                } by {
                let prior = spec_scroll_state_of(
                    old(self).clip_scroll_tree.nodes@,
                    old(self).clip_scroll_tree.pipelines_to_discard@,
                    id,
                );
                if self.clip_scroll_tree.has_scroll_node(id) && prior.is_some() {
                    crate::spatial::lemma_apply_states_preserves_index(
                        pre_finalize,
                        self.clip_scroll_tree.nodes@,
                        old_scrolling_states,
                        id,
                    );
                    crate::spatial::lemma_seq_node_index_in_range(
                        self.clip_scroll_tree.nodes@,
                        id,
                    );
                    let k = self.clip_scroll_tree.spec_node_index(id).unwrap();
                    assert(self.clip_scroll_tree.nodes@[k] == spec_apply_state(
                        pre_finalize[k],
                        old_scrolling_states,
                    ));
                }
            }
        }
    }

    /// Create one clip node, parented at the ambient scroll/clip node.
    fn flatten_clip(
        &mut self,
        pipeline_id: PipelineId,
        parent_id: &ClipId,
        new_clip_id: &ClipId,
        clip_region: ClipRegion,
        builder: &mut FrameBuilder,
    )
        ensures
            final(self).clip_scroll_tree.nodes@ == old(self).clip_scroll_tree.nodes@.push(
                ClipScrollNode {
                    id: *new_clip_id,
                    parent: Some(*parent_id),
                    pipeline_id,
                    node_type: NodeType::Clip(clip_region),
                },
            ),
            final(self).clip_scroll_tree.next_dynamic_index == old(
                self,
            ).clip_scroll_tree.next_dynamic_index,
            final(self).clip_scroll_tree.pipelines_to_discard == old(
                self,
            ).clip_scroll_tree.pipelines_to_discard,
            final(self).clip_scroll_tree.pan == old(self).clip_scroll_tree.pan,
            final(self).pipeline_epoch_map == old(self).pipeline_epoch_map,
            final(self).id == old(self).id,
            final(self).frame_builder_config == old(self).frame_builder_config,
            final(self).frame_builder == old(self).frame_builder,
            *final(builder) == *old(builder),
    {
        builder.add_clip_node(
            *new_clip_id,
            *parent_id,
            pipeline_id,
            clip_region,
            &mut self.clip_scroll_tree,
        );
    }

    /// Create one scroll frame: first an anonymous clip node at the ambient
    /// parent (so the visible region is clipped independently of the scroll
    /// offset), then the scroll node as its child, scrollable over the
    /// content extent.
    fn flatten_scroll_frame(
        &mut self,
        pipeline_id: PipelineId,
        parent_id: &ClipId,
        new_scroll_frame_id: &ClipId,
        frame_rect: &Rect,
        content_rect: &Rect,
        clip_region: ClipRegion,
        scroll_sensitivity: ScrollSensitivity,
        builder: &mut FrameBuilder,
    )
        ensures
            final(self).clip_scroll_tree.nodes@ == old(self).clip_scroll_tree.nodes@.push(
                ClipScrollNode {
                    id: ClipId::DynamicallyAddedNode(
                        old(self).clip_scroll_tree.next_dynamic_index,
                        pipeline_id,
                    ),
                    parent: Some(*parent_id),
                    pipeline_id,
                    node_type: NodeType::Clip(clip_region),
                },
            ).push(
                ClipScrollNode {
                    id: *new_scroll_frame_id,
                    parent: Some(
                        ClipId::DynamicallyAddedNode(
                            old(self).clip_scroll_tree.next_dynamic_index,
                            pipeline_id,
                        ),
                    ),
                    pipeline_id,
                    node_type: NodeType::ScrollFrame(
                        crate::spatial::ScrollFrameInfo {
                            frame_rect: *frame_rect,
                            content_size: content_rect.size,
                            scroll_sensitivity,
                            state: ScrollingState {
                                offset: Vector { x: 0i64, y: 0i64 },
                                bouncing_back: false,
                            },
                        },
                    ),
                },
            ),
            final(self).clip_scroll_tree.pipelines_to_discard == old(
                self,
            ).clip_scroll_tree.pipelines_to_discard,
            final(self).clip_scroll_tree.pan == old(self).clip_scroll_tree.pan,
            final(self).pipeline_epoch_map == old(self).pipeline_epoch_map,
            final(self).id == old(self).id,
            final(self).frame_builder_config == old(self).frame_builder_config,
            final(self).frame_builder == old(self).frame_builder,
            *final(builder) == *old(builder),
    {
        let clip_id = self.clip_scroll_tree.generate_new_clip_id(pipeline_id);
        builder.add_clip_node(
            clip_id,
            *parent_id,
            pipeline_id,
            clip_region,
            &mut self.clip_scroll_tree,
        );
        builder.add_scroll_frame(
            *new_scroll_frame_id,
            clip_id,
            pipeline_id,
            frame_rect,
            &content_rect.size,
            scroll_sensitivity,
            &mut self.clip_scroll_tree,
        );
    }

    /// Flatten one stacking context: resolve its composite operations,
    /// remap fixed-position descendants, establish a reference frame when it
    /// carries a transform or perspective (resetting the accumulated offset
    /// to zero) or accumulate its origin otherwise, recurse into its items,
    /// and unwind in exact reverse order. A statically empty subtree is
    /// skipped without any effect.
    fn flatten_stacking_context(
        &mut self,
        list: &DisplayList,
        pos: usize,
        pipeline_id: PipelineId,
        scene: &Scene,
        resource_cache: &ResourceCache,
        context: &mut FlattenContext,
        builder: &mut FrameBuilder,
        context_scroll_node_id: ClipId,
        reference_frame_relative_offset: Vector,
        bounds: &Rect,
        stacking_context: &StackingContext,
        is_backface_visible: bool,
        fuel: u32,
    ) -> (end: usize)
        requires
            list_of_pipeline(*scene, pipeline_id, *list),
            pos <= list.items@.len(),
            stacking_context.filters.valid_for(list.filters@.len()),
            old(context).tiled_image_map.wf(),
            old(builder).reference_frame_stack@.len() > 0,
            epochs_consistent(old(self).pipeline_epoch_map, *scene),
        ensures
            pos <= end <= list.items@.len(),
            end == list.items@.len() || (pos < end && list.items@[end - 1].item
                is PopStackingContext),
            frame_traversal_ok(*old(self), *final(self)),
            builder_traversal_ok(*old(builder), *final(builder)),
            context_preserved(*old(context), *final(context)),
            epochs_consistent(final(self).pipeline_epoch_map, *scene),
            (pos < list.items@.len() && list.items@[pos as int].item is PopStackingContext) ==> (
            end == pos + 1 && *final(self) == *old(self) && *final(builder) == *old(builder)
                && *final(context) == *old(context)),
            item_nodes_present(*list, pos as int, end as int, final(self).clip_scroll_tree),
            !old(self).frame_builder_config.enable_scrollbars ==> no_scrollbar_prims_added(
                *old(builder),
                *final(builder),
            ),
            (spec_establishes_reference_frame(*stacking_context) && !(pos < list.items@.len()
                && list.items@[pos as int].item is PopStackingContext)) ==> {
                let n = old(self).clip_scroll_tree.nodes@.len() as int;
                let node = final(self).clip_scroll_tree.nodes@[n];
                &&& final(self).clip_scroll_tree.nodes@.len() > n
                &&& node.node_type is ReferenceFrame
                &&& node.node_type->ReferenceFrame_0.origin
                    == reference_frame_relative_offset.spec_add(bounds.origin)
                &&& node.node_type->ReferenceFrame_0.frame_rect == (Rect {
                    origin: Vector { x: 0i64, y: 0i64 },
                    size: bounds.size,
                })
                &&& node.node_type->ReferenceFrame_0.transform
                    == crate::scene::spec_resolve_transform(
                    scene.properties,
                    stacking_context.transform,
                )
                &&& node.node_type->ReferenceFrame_0.perspective == (match stacking_context
                    .perspective {
                    Some(p) => p,
                    None => Transform { token: 0u64 },
                })
                &&& !node.node_type->ReferenceFrame_0.is_iframe
                &&& node.parent == Some(
                    spec_apply_replacement(
                        if stacking_context.scroll_policy is Fixed {
                            old(context).replacements@.push(
                                (
                                    context_scroll_node_id,
                                    old(builder).reference_frame_stack@.last(),
                                ),
                            )
                        } else {
                            old(context).replacements@
                        },
                        context_scroll_node_id,
                    ),
                )
            },
        decreases fuel, list.items@.len() - pos, 1nat,
    {
        // A statically empty stacking context produces nothing; skip it.
        if pos < list.items.len() {
            let next = &list.items[pos];
            match next.item {
                SpecificDisplayItem::PopStackingContext => {
                    return pos + 1;
                },
                _ => {},
            }
        }

        let filters = filter_ops_for_compositing(list, stacking_context.filters, &scene.properties);
        let mix_blend_mode = stacking_context.mix_blend_mode_for_compositing();
        let composition_operations = CompositeOps::new(filters, mix_blend_mode);

        let is_fixed = match stacking_context.scroll_policy {
            ScrollPolicy::Fixed => true,
            ScrollPolicy::Scrollable => false,
        };
        if is_fixed {
            // Fixed-position descendants resolve to the current reference
            // frame instead of their nominal ancestor scroll node.
            let current = builder.current_reference_frame_id();
            context.replacements.push((context_scroll_node_id, current));
        }

        // A transform or perspective establishes a new reference frame, so
        // fixed-position descendants are positioned relative to it.
        let is_reference_frame = stacking_context.transform.is_some()
            || stacking_context.perspective.is_some();
        if is_reference_frame {
            let transform = match &stacking_context.transform {
                Some(binding) => scene.properties.resolve_layout_transform(Some(binding)),
                None => scene.properties.resolve_layout_transform(None),
            };
            let perspective = match stacking_context.perspective {
                Some(perspective) => perspective,
                None => Transform::identity(),
            };
            let origin = reference_frame_relative_offset.add(bounds.origin);
            let reference_frame_bounds = Rect::new(Vector::zero(), bounds.size);
            let clip_id = context.apply_scroll_frame_id_replacement(context_scroll_node_id);
            let new_id = builder.push_reference_frame(
                Some(clip_id),
                pipeline_id,
                ReferenceFrameInfo {
                    origin,
                    transform,
                    perspective,
                    frame_rect: reference_frame_bounds,
                    is_iframe: false,
                },
                &mut self.clip_scroll_tree,
            );
            context.replacements.push((context_scroll_node_id, new_id));
        }
        let child_offset = stacking_context_child_offset(
            reference_frame_relative_offset,
            bounds.origin,
            is_reference_frame,
        );

        builder.push_stacking_context(
            &child_offset,
            pipeline_id,
            composition_operations,
            stacking_context.transform_style,
            is_backface_visible,
            false,
        );

        let end = self.flatten_items(
            list,
            pos,
            pipeline_id,
            scene,
            resource_cache,
            context,
            builder,
            child_offset,
            fuel,
        );

        if is_fixed {
            context.replacements.pop();
        }
        if is_reference_frame {
            context.replacements.pop();
            builder.pop_reference_frame();
        }
        builder.pop_stacking_context();
        proof {
            assert(context.replacements@ =~= old(context).replacements@);
            assert(builder.reference_frame_stack@ =~= old(builder).reference_frame_stack@);
        }
        end
    }

    /// Flatten an iframe: skip it silently when the child pipeline record is
    /// missing (or the nesting bound is reached in the caller); otherwise
    /// clip it at the parent, record the child's epoch, wrap the child in a
    /// translation-only reference frame, register the child's well-known
    /// root scroll node, and recurse into the child's display list with a
    /// fresh zero offset.
    fn flatten_iframe(
        &mut self,
        pipeline_id: PipelineId,
        parent_id: ClipId,
        bounds: &Rect,
        local_clip: &LocalClip,
        scene: &Scene,
        resource_cache: &ResourceCache,
        context: &mut FlattenContext,
        builder: &mut FrameBuilder,
        reference_frame_relative_offset: Vector,
        fuel: u32,
    )
        requires
            scene.wf(),
            fuel >= 1,
            old(context).tiled_image_map.wf(),
            old(builder).reference_frame_stack@.len() > 0,
            epochs_consistent(old(self).pipeline_epoch_map, *scene),
        ensures
            frame_traversal_ok(*old(self), *final(self)),
            builder_traversal_ok(*old(builder), *final(builder)),
            context_preserved(*old(context), *final(context)),
            epochs_consistent(final(self).pipeline_epoch_map, *scene),
            !old(self).frame_builder_config.enable_scrollbars ==> no_scrollbar_prims_added(
                *old(builder),
                *final(builder),
            ),
            scene.has_pipeline(pipeline_id) ==> final(self).pipeline_epoch_map.spec_get(
                pipeline_id,
            ) == Some(scene.spec_pipeline(pipeline_id).epoch),
            !scene.has_pipeline(pipeline_id) ==> *final(self) == *old(self) && *final(builder)
                == *old(builder) && *final(context) == *old(context),
            (scene.has_pipeline(pipeline_id) && scene.root_pipeline_id != Some(pipeline_id)
                && scene.spec_pipeline(pipeline_id).background_color is Some) ==> {
                let n = old(builder).prims@.len() as int;
                let bounds = Rect {
                    origin: Vector { x: 0i64, y: 0i64 },
                    size: scene.spec_pipeline(pipeline_id).content_size,
                };
                &&& final(builder).prims@.len() > n
                &&& final(builder).prims@[n] == (Primitive {
                    clip_and_scroll: ClipAndScrollInfo {
                        scroll_node_id: ClipId::Clip(0u64, pipeline_id),
                        clip_node_id: None::<ClipId>,
                    },
                    info: PrimitiveInfo {
                        rect: bounds,
                        local_clip: LocalClip::Rect(bounds),
                        is_backface_visible: true,
                        tag: None::<crate::api::ItemTag>,
                    },
                    detail: PrimitiveDetail::Rectangle {
                        color: scene.spec_pipeline(pipeline_id).background_color.unwrap(),
                        flags: PrimitiveFlags::Normal,
                    },
                })
            },
            scene.has_pipeline(pipeline_id) ==> {
                let n = old(self).clip_scroll_tree.nodes@.len() as int;
                let nodes = final(self).clip_scroll_tree.nodes@;
                &&& nodes.len() >= n + 3
                &&& nodes[n].node_type is Clip
                &&& nodes[n].parent == Some(parent_id)
                &&& nodes[n + 1].node_type is ReferenceFrame
                &&& nodes[n + 1].node_type->ReferenceFrame_0.is_iframe
                &&& nodes[n + 1].node_type->ReferenceFrame_0.origin
                    == reference_frame_relative_offset.spec_add(bounds.origin)
                &&& nodes[n + 1].parent == Some(nodes[n].id)
                &&& nodes[n + 2] == (ClipScrollNode {
                    id: ClipId::Clip(0u64, pipeline_id),
                    parent: Some(nodes[n + 1].id),
                    pipeline_id,
                    node_type: NodeType::ScrollFrame(
                        crate::spatial::ScrollFrameInfo {
                            frame_rect: Rect {
                                origin: Vector { x: 0i64, y: 0i64 },
                                size: bounds.size,
                            },
                            content_size: scene.spec_pipeline(pipeline_id).content_size,
                            scroll_sensitivity: ScrollSensitivity::ScriptAndInputEvents,
                            state: ScrollingState {
                                offset: Vector { x: 0i64, y: 0i64 },
                                bouncing_back: false,
                            },
                        },
                    ),
                })
            },
        decreases fuel, 0nat, 0nat,
    {
        let pipeline = match scene.get_pipeline(pipeline_id) {
            Some(pipeline) => pipeline,
            None => {
                return ;
            },
        };

        let mut clip_region = ClipRegion::create_for_clip_node_with_local_clip(local_clip);
        clip_region.translate(reference_frame_relative_offset);
        let parent_pipeline_id = parent_id.pipeline_id();
        let clip_id = self.clip_scroll_tree.generate_new_clip_id(parent_pipeline_id);
        builder.add_clip_node(
            clip_id,
            parent_id,
            parent_pipeline_id,
            clip_region,
            &mut self.clip_scroll_tree,
        );

        self.pipeline_epoch_map.insert(pipeline_id, pipeline.epoch);

        let iframe_rect = Rect::new(Vector::zero(), bounds.size);
        let origin = reference_frame_relative_offset.add(bounds.origin);
        let iframe_reference_frame_id = builder.push_reference_frame(
            Some(clip_id),
            pipeline_id,
            ReferenceFrameInfo {
                origin,
                transform: Transform::identity(),
                perspective: Transform::identity(),
                frame_rect: iframe_rect,
                is_iframe: true,
            },
            &mut self.clip_scroll_tree,
        );

        builder.add_scroll_frame(
            ClipId::root_scroll_node(pipeline_id),
            iframe_reference_frame_id,
            pipeline_id,
            &iframe_rect,
            &pipeline.content_size,
            ScrollSensitivity::ScriptAndInputEvents,
            &mut self.clip_scroll_tree,
        );

        self.flatten_root(
            &pipeline.display_list,
            pipeline_id,
            scene,
            resource_cache,
            context,
            builder,
            &pipeline.content_size,
            fuel - 1,
        );

        builder.pop_reference_frame();
        proof {
            assert(builder.reference_frame_stack@ =~= old(builder).reference_frame_stack@);
        }
    }

    /// Flatten one pipeline's root item list: open the pipeline's root
    /// stacking context, paint a non-root pipeline's background, flatten the
    /// items, add the synthetic scrollbar when enabled, and close the root
    /// stacking context.
    fn flatten_root(
        &mut self,
        list: &DisplayList,
        pipeline_id: PipelineId,
        scene: &Scene,
        resource_cache: &ResourceCache,
        context: &mut FlattenContext,
        builder: &mut FrameBuilder,
        content_size: &Size,
        fuel: u32,
    )
        requires
            list_of_pipeline(*scene, pipeline_id, *list),
            old(context).tiled_image_map.wf(),
            old(builder).reference_frame_stack@.len() > 0,
            epochs_consistent(old(self).pipeline_epoch_map, *scene),
        ensures
            frame_traversal_ok(*old(self), *final(self)),
            builder_traversal_ok(*old(builder), *final(builder)),
            context_preserved(*old(context), *final(context)),
            epochs_consistent(final(self).pipeline_epoch_map, *scene),
            !old(self).frame_builder_config.enable_scrollbars ==> no_scrollbar_prims_added(
                *old(builder),
                *final(builder),
            ),
            (scene.root_pipeline_id != Some(pipeline_id)
                && scene.spec_pipeline(pipeline_id).background_color is Some) ==> {
                let n = old(builder).prims@.len() as int;
                let bounds = Rect {
                    origin: Vector { x: 0i64, y: 0i64 },
                    size: *content_size,
                };
                &&& final(builder).prims@.len() > n
                &&& final(builder).prims@[n] == (Primitive {
                    clip_and_scroll: ClipAndScrollInfo {
                        scroll_node_id: ClipId::Clip(0u64, pipeline_id),
                        clip_node_id: None::<ClipId>,
                    },
                    info: PrimitiveInfo {
                        rect: bounds,
                        local_clip: LocalClip::Rect(bounds),
                        is_backface_visible: true,
                        tag: None::<crate::api::ItemTag>,
                    },
                    detail: PrimitiveDetail::Rectangle {
                        color: scene.spec_pipeline(pipeline_id).background_color.unwrap(),
                        flags: PrimitiveFlags::Normal,
                    },
                })
            },
            (forall|j: int|
                0 <= j < list.items@.len() ==> !((#[trigger] list.items@[j]).item
                    is PopStackingContext)) ==> item_nodes_present(
                *list,
                0,
                list.items@.len() as int,
                final(self).clip_scroll_tree,
            ),
            exists|e: int|
                #![trigger item_nodes_present(*list, 0, e, final(self).clip_scroll_tree)]
                {
                    &&& 0 <= e <= list.items@.len()
                    &&& (e == list.items@.len() || (0 < e && list.items@[e - 1].item
                        is PopStackingContext))
                    &&& item_nodes_present(*list, 0, e, final(self).clip_scroll_tree)
                },
            list.items@.len() == 0 ==> final(builder).prims@ == old(builder).prims@ + (
            if scene.root_pipeline_id != Some(pipeline_id) && scene.spec_pipeline(
                pipeline_id,
            ).background_color is Some {
                seq![
                    Primitive {
                        clip_and_scroll: ClipAndScrollInfo {
                            scroll_node_id: ClipId::Clip(0u64, pipeline_id),
                            clip_node_id: None::<ClipId>,
                        },
                        info: PrimitiveInfo {
                            rect: Rect {
                                origin: Vector { x: 0i64, y: 0i64 },
                                size: *content_size,
                            },
                            local_clip: LocalClip::Rect(
                                Rect { origin: Vector { x: 0i64, y: 0i64 }, size: *content_size },
                            ),
                            is_backface_visible: true,
                            tag: None::<crate::api::ItemTag>,
                        },
                        detail: PrimitiveDetail::Rectangle {
                            color: scene.spec_pipeline(pipeline_id).background_color.unwrap(),
                            flags: PrimitiveFlags::Normal,
                        },
                    },
                ]
            } else {
                Seq::<Primitive>::empty()
            }) + (
            if old(self).frame_builder_config.enable_scrollbars && crate::spatial::spec_first_scroll_index(
                old(self).clip_scroll_tree.nodes@,
                0,
            ).is_some() {
                seq![
                    Primitive {
                        clip_and_scroll: ClipAndScrollInfo {
                            scroll_node_id: ClipId::Clip(0u64, pipeline_id),
                            clip_node_id: None::<ClipId>,
                        },
                        info: PrimitiveInfo {
                            rect: Rect {
                                origin: Vector { x: 0i64, y: 0i64 },
                                size: Size { w: 10i64, h: 70i64 },
                            },
                            local_clip: LocalClip::Rect(
                                Rect {
                                    origin: Vector { x: 0i64, y: 0i64 },
                                    size: Size { w: 10i64, h: 70i64 },
                                },
                            ),
                            is_backface_visible: true,
                            tag: None::<crate::api::ItemTag>,
                        },
                        detail: PrimitiveDetail::Rectangle {
                            color: Color { r: 77u8, g: 77u8, b: 77u8, a: 153u8 },
                            flags: PrimitiveFlags::Scrollbar(
                                old(self).clip_scroll_tree.nodes@[crate::spatial::spec_first_scroll_index(
                                    old(self).clip_scroll_tree.nodes@,
                                    0,
                                ).unwrap()].id,
                                4i64,
                            ),
                        },
                    },
                ]
            } else {
                Seq::<Primitive>::empty()
            }),
            old(self).frame_builder_config.enable_scrollbars ==> (match
                crate::spatial::spec_first_scroll_index(final(self).clip_scroll_tree.nodes@, 0) {
                Some(k) => {
                    let bar = Rect {
                        origin: Vector { x: 0i64, y: 0i64 },
                        size: Size { w: 10i64, h: 70i64 },
                    };
                    &&& final(builder).prims@.len() > 0
                    &&& final(builder).prims@.last() == (Primitive {
                        clip_and_scroll: ClipAndScrollInfo {
                            scroll_node_id: ClipId::Clip(0u64, pipeline_id),
                            clip_node_id: None::<ClipId>,
                        },
                        info: PrimitiveInfo {
                            rect: bar,
                            local_clip: LocalClip::Rect(bar),
                            is_backface_visible: true,
                            tag: None::<crate::api::ItemTag>,
                        },
                        detail: PrimitiveDetail::Rectangle {
                            color: Color { r: 77u8, g: 77u8, b: 77u8, a: 153u8 },
                            flags: PrimitiveFlags::Scrollbar(
                                final(self).clip_scroll_tree.nodes@[k].id,
                                4i64,
                            ),
                        },
                    })
                },
                None => true,
            }),
        decreases fuel, list.items@.len(), 1nat,
    {
        builder.push_stacking_context(
            &Vector::zero(),
            pipeline_id,
            CompositeOps::empty(),
            TransformStyle::Flat,
            true,
            true,
        );
        // Let the first top-level stacking context of the display list be
        // treated as the root stacking context.
        builder.notify_waiting_for_root_stacking_context();

        // The root pipeline's background is the framebuffer clear; only an
        // embedded pipeline paints its background as a rectangle.
        let clip_id = ClipId::root_scroll_node(pipeline_id);
        let is_root_pipeline = match scene.root_pipeline_id {
            Some(root) => root == pipeline_id,
            None => false,
        };
        if !is_root_pipeline {
            match scene.get_pipeline(pipeline_id) {
                Some(pipeline) => {
                    match pipeline.background_color {
                        Some(bg_color) => {
                            let root_bounds = Rect::new(Vector::zero(), *content_size);
                            let info = PrimitiveInfo::new(root_bounds);
                            builder.add_solid_rectangle(
                                ClipAndScrollInfo::simple(clip_id),
                                &info,
                                &bg_color,
                                PrimitiveFlags::Normal,
                            );
                        },
                        None => {},
                    }
                },
                None => {},
            }
        }

        let end = self.flatten_items(
            list,
            0,
            pipeline_id,
            scene,
            resource_cache,
            context,
            builder,
            Vector::zero(),
            fuel,
        );
        proof {
            if forall|j: int|
                0 <= j < list.items@.len() ==> !((#[trigger] list.items@[j]).item
                    is PopStackingContext) {
                if end as int != list.items@.len() {
                    assert(!((list.items@[end - 1]).item is PopStackingContext));
                }
                assert(end as int == list.items@.len());
            }
        }

        if self.frame_builder_config.enable_scrollbars {
            match self.clip_scroll_tree.topmost_scrolling_node_id() {
                Some(topmost_id) => {
                    let scrollbar_rect = Rect::new(Vector::zero(), Size::new(10, 70));
                    let info = PrimitiveInfo::new(scrollbar_rect);
                    let color = default_scrollbar_color();
                    builder.add_solid_rectangle(
                        ClipAndScrollInfo::simple(clip_id),
                        &info,
                        &color,
                        PrimitiveFlags::Scrollbar(topmost_id, 4),
                    );
                },
                None => {},
            }
        }

        builder.pop_stacking_context();
    }

    /// Flatten items from `start` until the list ends or the enclosing
    /// stacking context is popped; returns the position after the last item
    /// consumed.
    fn flatten_items(
        &mut self,
        list: &DisplayList,
        start: usize,
        pipeline_id: PipelineId,
        scene: &Scene,
        resource_cache: &ResourceCache,
        context: &mut FlattenContext,
        builder: &mut FrameBuilder,
        reference_frame_relative_offset: Vector,
        fuel: u32,
    ) -> (end: usize)
        requires
            list_of_pipeline(*scene, pipeline_id, *list),
            start <= list.items@.len(),
            old(context).tiled_image_map.wf(),
            old(builder).reference_frame_stack@.len() > 0,
            epochs_consistent(old(self).pipeline_epoch_map, *scene),
        ensures
            start <= end <= list.items@.len(),
            end == list.items@.len() || (start < end && list.items@[end - 1].item
                is PopStackingContext),
            frame_traversal_ok(*old(self), *final(self)),
            builder_traversal_ok(*old(builder), *final(builder)),
            context_preserved(*old(context), *final(context)),
            epochs_consistent(final(self).pipeline_epoch_map, *scene),
            item_nodes_present(*list, start as int, end as int, final(self).clip_scroll_tree),
            !old(self).frame_builder_config.enable_scrollbars ==> no_scrollbar_prims_added(
                *old(builder),
                *final(builder),
            ),
            start == list.items@.len() ==> (end == start && *final(self) == *old(self)
                && *final(builder) == *old(builder) && *final(context) == *old(context)),
        decreases fuel, list.items@.len() - start, 0nat,
    {
        let n = list.items.len();
        let mut idx: usize = start;
        while idx < n
            invariant
                start <= idx <= n,
                n == list.items@.len(),
                list_of_pipeline(*scene, pipeline_id, *list),
                old(context).tiled_image_map.wf(),
                old(builder).reference_frame_stack@.len() > 0,
                frame_traversal_ok(*old(self), *self),
                builder_traversal_ok(*old(builder), *builder),
                context_preserved(*old(context), *context),
                epochs_consistent(self.pipeline_epoch_map, *scene),
                item_nodes_present(*list, start as int, idx as int, self.clip_scroll_tree),
                !old(self).frame_builder_config.enable_scrollbars ==> no_scrollbar_prims_added(
                    *old(builder),
                    *builder,
                ),
                start == n ==> (*self == *old(self) && *builder == *old(builder) && *context
                    == *old(context)),
            decreases n - idx,
        {
            let item = &list.items[idx];
            idx += 1;
            match item.item {
                SpecificDisplayItem::PopStackingContext => {
                    return idx;
                },
                _ => {},
            }
            proof {
                crate::scene::lemma_scene_pipeline_wf(*scene, pipeline_id);
                assert(item_ranges_valid(
                    *item,
                    scene.spec_pipeline(pipeline_id).display_list,
                ));
            }
            let ghost pre_nodes = self.clip_scroll_tree.nodes@;
            let ghost pre_prims = builder.prims@;
            let sub_end = self.flatten_item(
                item,
                list,
                idx,
                pipeline_id,
                scene,
                resource_cache,
                context,
                builder,
                reference_frame_relative_offset,
                fuel,
            );
            proof {
                if !old(self).frame_builder_config.enable_scrollbars {
                    assert forall|k: int|
                        old(builder).prims@.len() <= k < builder.prims@.len() implies !((
                    #[trigger] builder.prims@[k]).detail matches PrimitiveDetail::Rectangle {
                        flags: PrimitiveFlags::Scrollbar(..),
                        ..
                    }) by {
                        if k < pre_prims.len() {
                            assert(builder.prims@[k] == pre_prims[k]);
                        }
                    }
                }
                assert forall|j: int|
                    start <= j < idx && j < list.items@.len() implies match (
                #[trigger] list.items@[j]).item {
                    SpecificDisplayItem::Clip(info) => self.clip_scroll_tree.has_node(info.id),
                    SpecificDisplayItem::ScrollFrame(info) => self.clip_scroll_tree.has_node(
                        info.id,
                    ),
                    SpecificDisplayItem::StickyFrame(info) => self.clip_scroll_tree.has_node(
                        info.id,
                    ),
                    _ => true,
                } by {
                    if j < idx - 1 {
                        match list.items@[j].item {
                            SpecificDisplayItem::Clip(info) => {
                                lemma_has_node_extends(
                                    pre_nodes,
                                    self.clip_scroll_tree.nodes@,
                                    info.id,
                                );
                            },
                            SpecificDisplayItem::ScrollFrame(info) => {
                                lemma_has_node_extends(
                                    pre_nodes,
                                    self.clip_scroll_tree.nodes@,
                                    info.id,
                                );
                            },
                            SpecificDisplayItem::StickyFrame(info) => {
                                lemma_has_node_extends(
                                    pre_nodes,
                                    self.clip_scroll_tree.nodes@,
                                    info.id,
                                );
                            },
                            _ => {},
                        }
                    }
                }
            }
            match sub_end {
                Some(sub_end) => {
                    idx = sub_end;
                },
                None => {},
            }
        }
        idx
    }

    /// Dispatch one display item: emit a primitive with resolved
    /// clip/scroll association and translated geometry, recurse into a
    /// nested traversal (stacking context, iframe), or register a spatial
    /// node (clip, scroll frame, sticky frame). Returns the position after
    /// the subtree for a stacking context, `None` otherwise.
    fn flatten_item(
        &mut self,
        item: &DisplayItem,
        list: &DisplayList,
        pos: usize,
        pipeline_id: PipelineId,
        scene: &Scene,
        resource_cache: &ResourceCache,
        context: &mut FlattenContext,
        builder: &mut FrameBuilder,
        reference_frame_relative_offset: Vector,
        fuel: u32,
    ) -> (sub_end: Option<usize>)
        requires
            !(item.item is PopStackingContext),
            list_of_pipeline(*scene, pipeline_id, *list),
            item_ranges_valid(*item, scene.spec_pipeline(pipeline_id).display_list),
            pos <= list.items@.len(),
            old(context).tiled_image_map.wf(),
            old(builder).reference_frame_stack@.len() > 0,
            epochs_consistent(old(self).pipeline_epoch_map, *scene),
        ensures
            frame_traversal_ok(*old(self), *final(self)),
            builder_traversal_ok(*old(builder), *final(builder)),
            context_preserved(*old(context), *final(context)),
            epochs_consistent(final(self).pipeline_epoch_map, *scene),
            !old(self).frame_builder_config.enable_scrollbars ==> no_scrollbar_prims_added(
                *old(builder),
                *final(builder),
            ),
            match item.item {
                SpecificDisplayItem::PushStackingContext(_) => sub_end matches Some(end) && pos
                    <= end <= list.items@.len(),
                _ => sub_end is None,
            },
            ({
                let cs = ClipAndScrollInfo {
                    scroll_node_id: spec_apply_replacement(
                        old(context).replacements@,
                        item.clip_and_scroll.scroll_node_id,
                    ),
                    clip_node_id: item.clip_and_scroll.clip_node_id,
                };
                let prim_info = spec_prim_info_for(*item, reference_frame_relative_offset);
                match item.item {
                    SpecificDisplayItem::SetGradientStops => *final(builder) == *old(builder)
                        && *final(self) == *old(self),
                    SpecificDisplayItem::PushShadow(shadow) => *final(self) == *old(self)
                        && final(builder).shadow_stack@ == old(builder).shadow_stack@.push(
                        crate::builder::ShadowRecord {
                            shadow,
                            clip_and_scroll: cs,
                            info: PrimitiveInfo {
                                rect: Rect {
                                    origin: Vector { x: 0i64, y: 0i64 },
                                    size: Size { w: 0i64, h: 0i64 },
                                },
                                ..prim_info
                            },
                        },
                    ),
                    SpecificDisplayItem::PopAllShadows => *final(self) == *old(self) && final(builder).shadow_stack@.len() == 0,
                    SpecificDisplayItem::Line(info) => *final(self) == *old(self) && final(builder).prims@ == old(builder).prims@.push(
                        Primitive {
                            clip_and_scroll: cs,
                            info: PrimitiveInfo {
                                rect: Rect {
                                    origin: Vector { x: 0i64, y: 0i64 },
                                    size: Size { w: 0i64, h: 0i64 },
                                },
                                ..prim_info
                            },
                            detail: PrimitiveDetail::Line {
                                baseline: info.baseline,
                                start: info.start,
                                end: info.end,
                                orientation: info.orientation,
                                width: info.width,
                                color: info.color,
                                style: info.style,
                            },
                        },
                    ),
                    SpecificDisplayItem::Rectangle(info) => *final(self) == *old(self) && (
                    !spec_split_applies(prim_info, info.color) ==> final(builder).prims@ == old(
                        builder,
                    ).prims@.push(
                        Primitive {
                            clip_and_scroll: cs,
                            info: prim_info,
                            detail: PrimitiveDetail::Rectangle {
                                color: info.color,
                                flags: PrimitiveFlags::Normal,
                            },
                        },
                    )) && (spec_split_applies(prim_info, info.color) ==> {
                        let region = item.local_clip->RoundedRect_1;
                        let inner = spec_inner_rect(region).unwrap();
                        final(builder).prims@ == old(builder).prims@.push(
                            Primitive {
                                clip_and_scroll: cs,
                                info: PrimitiveInfo {
                                    rect: inner,
                                    local_clip: LocalClip::Rect(item.local_clip.spec_clip_rect()),
                                    is_backface_visible: item.is_backface_visible,
                                    tag: None::<crate::api::ItemTag>,
                                },
                                detail: PrimitiveDetail::Rectangle {
                                    color: info.color,
                                    flags: PrimitiveFlags::Normal,
                                },
                            },
                        ) + crate::geom::spec_subtract_rect(prim_info.rect, inner).map_values(
                            (|r: Rect| Primitive {
                                clip_and_scroll: cs,
                                info: PrimitiveInfo { rect: r, ..prim_info },
                                detail: PrimitiveDetail::Rectangle {
                                    color: info.color,
                                    flags: PrimitiveFlags::Normal,
                                },
                            }),
                        )
                    }),
                    SpecificDisplayItem::Image(info) => *final(self) == *old(self) && (match old(
                        context,
                    ).tiled_image_map.spec_get(info.image_key) {
                        Some(tiling) => final(builder).prims@ == old(builder).prims@
                            + spec_decompose_image(
                            prim_info.rect,
                            info.stretch_size,
                            info.tile_spacing,
                            tiling,
                        ).map_values(|t: TilePrim| spec_tile_image_prim(cs, prim_info, info, t)),
                        None => final(builder).prims@ == old(builder).prims@.push(
                            Primitive {
                                clip_and_scroll: cs,
                                info: prim_info,
                                detail: PrimitiveDetail::Image {
                                    stretch_size: info.stretch_size,
                                    tile_spacing: info.tile_spacing,
                                    image_key: info.image_key,
                                    image_rendering: info.image_rendering,
                                    tile_offset: None::<TileOffset>,
                                },
                            },
                        ),
                    }),
                    SpecificDisplayItem::YuvImage(info) => *final(self) == *old(self) && final(builder).prims@ == old(builder).prims@.push(
                        Primitive {
                            clip_and_scroll: cs,
                            info: prim_info,
                            detail: PrimitiveDetail::YuvImage {
                                yuv_data: info.yuv_data,
                                color_space: info.color_space,
                                image_rendering: info.image_rendering,
                            },
                        },
                    ),
                    SpecificDisplayItem::Text(info) => *final(self) == *old(self) && (
                    if resource_cache.spec_has_font(info.font_key) {
                        final(builder).prims@ == old(builder).prims@.push(
                            Primitive {
                                clip_and_scroll: cs,
                                info: prim_info,
                                detail: PrimitiveDetail::Text {
                                    font_key: info.font_key,
                                    run_offset: reference_frame_relative_offset,
                                    color: info.color,
                                    glyphs: info.glyphs,
                                    glyph_count: info.glyphs.length,
                                    glyph_options: info.glyph_options,
                                },
                            },
                        )
                    } else {
                        // An unknown font instance drops the text item.
                        *final(builder) == *old(builder)
                    }),
                    SpecificDisplayItem::Gradient(info) => *final(self) == *old(self) && final(builder).prims@ == old(builder).prims@.push(
                        Primitive {
                            clip_and_scroll: cs,
                            info: prim_info,
                            detail: PrimitiveDetail::Gradient {
                                start_point: info.gradient.start_point,
                                end_point: info.gradient.end_point,
                                stops: info.stops,
                                extend_mode: info.gradient.extend_mode,
                                tile_size: info.tile_size,
                                tile_spacing: info.tile_spacing,
                            },
                        },
                    ),
                    SpecificDisplayItem::RadialGradient(info) => *final(self) == *old(self)
                        && final(builder).prims@ == old(builder).prims@.push(
                        Primitive {
                            clip_and_scroll: cs,
                            info: prim_info,
                            detail: PrimitiveDetail::RadialGradient {
                                start_center: info.gradient.start_center,
                                start_radius: info.gradient.start_radius,
                                end_center: info.gradient.end_center,
                                end_radius: info.gradient.end_radius,
                                ratio_xy: info.gradient.ratio_xy,
                                stops: info.stops,
                                extend_mode: info.gradient.extend_mode,
                                tile_size: info.tile_size,
                                tile_spacing: info.tile_spacing,
                            },
                        },
                    ),
                    SpecificDisplayItem::BoxShadow(info) => *final(self) == *old(self) && final(builder).prims@ == old(builder).prims@.push(
                        Primitive {
                            clip_and_scroll: cs,
                            info: PrimitiveInfo {
                                rect: spec_translate(
                                    info.box_bounds,
                                    reference_frame_relative_offset,
                                ),
                                ..prim_info
                            },
                            detail: PrimitiveDetail::BoxShadow {
                                offset: info.offset,
                                color: info.color,
                                blur_radius: info.blur_radius,
                                spread_radius: info.spread_radius,
                                border_radius: info.border_radius,
                                clip_mode: info.clip_mode,
                            },
                        },
                    ),
                    SpecificDisplayItem::Border(info) => *final(self) == *old(self) && final(builder).prims@ == old(builder).prims@.push(
                        Primitive {
                            clip_and_scroll: cs,
                            info: prim_info,
                            detail: PrimitiveDetail::Border {
                                widths: info.widths,
                                gradient_stops: info.gradient_stops,
                            },
                        },
                    ),
                    SpecificDisplayItem::Clip(info) => *final(builder) == *old(builder)
                        && final(self).clip_scroll_tree.has_node(info.id)
                        && final(self).clip_scroll_tree.nodes@.len() == old(
                        self,
                    ).clip_scroll_tree.nodes@.len() + 1 && {
                        let node = final(self).clip_scroll_tree.nodes@.last();
                        &&& node.id == info.id
                        &&& node.parent == Some(cs.scroll_node_id)
                        &&& node.pipeline_id == pipeline_id
                        &&& node.node_type is Clip
                        &&& spec_clip_region_matches(
                            node.node_type->Clip_0,
                            item.local_clip.spec_clip_rect(),
                            spec_complex_clips(*scene, pipeline_id, info.complex_clips),
                            info.image_mask,
                            reference_frame_relative_offset,
                        )
                    },
                    SpecificDisplayItem::ScrollFrame(info) => *final(builder) == *old(builder)
                        && final(self).clip_scroll_tree.has_node(info.id)
                        && final(self).clip_scroll_tree.nodes@.len() == old(
                        self,
                    ).clip_scroll_tree.nodes@.len() + 2 && {
                        let clip_node = final(self).clip_scroll_tree.nodes@[final(self).clip_scroll_tree.nodes@.len() - 2];
                        let scroll_node = final(self).clip_scroll_tree.nodes@.last();
                        let anon_id = ClipId::DynamicallyAddedNode(
                            old(self).clip_scroll_tree.next_dynamic_index,
                            pipeline_id,
                        );
                        &&& clip_node.id == anon_id
                        &&& clip_node.parent == Some(cs.scroll_node_id)
                        &&& clip_node.pipeline_id == pipeline_id
                        &&& clip_node.node_type is Clip
                        &&& spec_clip_region_matches(
                            clip_node.node_type->Clip_0,
                            item.local_clip.spec_clip_rect(),
                            spec_complex_clips(*scene, pipeline_id, info.complex_clips),
                            info.image_mask,
                            reference_frame_relative_offset,
                        )
                        &&& scroll_node == (ClipScrollNode {
                            id: info.id,
                            parent: Some(anon_id),
                            pipeline_id,
                            node_type: NodeType::ScrollFrame(
                                crate::spatial::ScrollFrameInfo {
                                    frame_rect: spec_translate(
                                        item.local_clip.spec_clip_rect(),
                                        reference_frame_relative_offset,
                                    ),
                                    content_size: item.rect.size,
                                    scroll_sensitivity: info.scroll_sensitivity,
                                    state: ScrollingState {
                                        offset: Vector { x: 0i64, y: 0i64 },
                                        bouncing_back: false,
                                    },
                                },
                            ),
                        })
                    },
                    SpecificDisplayItem::StickyFrame(info) => *final(builder) == *old(builder)
                        && final(self).clip_scroll_tree.has_node(info.id)
                        && final(self).clip_scroll_tree.nodes@ == old(
                        self,
                    ).clip_scroll_tree.nodes@.push(
                        ClipScrollNode {
                            id: info.id,
                            parent: Some(cs.scroll_node_id),
                            pipeline_id: info.id.spec_pipeline_id(),
                            node_type: NodeType::StickyFrame(
                                crate::spatial::StickyFrameNodeInfo {
                                    frame_rect: spec_translate(
                                        item.rect,
                                        reference_frame_relative_offset,
                                    ),
                                    sticky_frame_info: info.sticky_frame_info,
                                },
                            ),
                        },
                    ),
                    SpecificDisplayItem::Iframe(info) => (fuel > 0 && scene.has_pipeline(
                        info.pipeline_id,
                    )) ==> {
                        let n = old(self).clip_scroll_tree.nodes@.len() as int;
                        let nodes = final(self).clip_scroll_tree.nodes@;
                        &&& final(self).pipeline_epoch_map.spec_get(info.pipeline_id) == Some(
                            scene.spec_pipeline(info.pipeline_id).epoch,
                        )
                        &&& nodes.len() >= n + 3
                        &&& nodes[n].node_type is Clip
                        &&& nodes[n].parent == Some(cs.scroll_node_id)
                        &&& nodes[n + 1].node_type is ReferenceFrame
                        &&& nodes[n + 1].node_type->ReferenceFrame_0.is_iframe
                        &&& nodes[n + 1].node_type->ReferenceFrame_0.origin
                            == reference_frame_relative_offset.spec_add(item.rect.origin)
                    },
                    SpecificDisplayItem::PushStackingContext(info) => (sub_end matches Some(end)
                        ==> item_nodes_present(
                        *list,
                        pos as int,
                        end as int,
                        final(self).clip_scroll_tree,
                    )) && ((
                    spec_establishes_reference_frame(info.stacking_context) && !(pos
                        < list.items@.len() && list.items@[pos as int].item
                        is PopStackingContext)) ==> {
                        let n = old(self).clip_scroll_tree.nodes@.len() as int;
                        let node = final(self).clip_scroll_tree.nodes@[n];
                        &&& final(self).clip_scroll_tree.nodes@.len() > n
                        &&& node.node_type is ReferenceFrame
                        &&& node.node_type->ReferenceFrame_0.origin
                            == reference_frame_relative_offset.spec_add(item.rect.origin)
                        &&& node.parent == Some(
                            spec_apply_replacement(
                                if info.stacking_context.scroll_policy is Fixed {
                                    old(context).replacements@.push(
                                        (
                                            item.clip_and_scroll.scroll_node_id,
                                            old(builder).reference_frame_stack@.last(),
                                        ),
                                    )
                                } else {
                                    old(context).replacements@
                                },
                                item.clip_and_scroll.scroll_node_id,
                            ),
                        )
                    }),
                    SpecificDisplayItem::PopStackingContext => true,
                }
            }),
        decreases fuel, list.items@.len() - pos, 2nat,
    {
        let unreplaced_scroll_id = item.clip_and_scroll.scroll_node_id;
        let clip_and_scroll = ClipAndScrollInfo {
            scroll_node_id: context.apply_scroll_frame_id_replacement(unreplaced_scroll_id),
            clip_node_id: item.clip_and_scroll.clip_node_id,
        };
        let prim_info = PrimitiveInfo {
            rect: item.rect.translate(reference_frame_relative_offset),
            local_clip: item.local_clip,
            is_backface_visible: item.is_backface_visible,
            tag: item.tag,
        };
        match item.item {
            SpecificDisplayItem::Image(info) => {
                match context.tiled_image_map.get(info.image_key) {
                    Some(tiling) => {
                        // The image resource is tiled: one primitive per tile.
                        proof {
                            crate::resource::lemma_tiling_get_wf(
                                context.tiled_image_map,
                                info.image_key,
                            );
                        }
                        let tiles = decompose_image(prim_info.rect, &info, tiling);
                        let ghost base = builder.prims@;
                        let n_tiles = tiles.len();
                        let mut k: usize = 0;
                        proof {
                            assert(base + tiles@.subrange(0, 0).map_values(
                                |t: TilePrim| spec_tile_image_prim(
                                    clip_and_scroll,
                                    prim_info,
                                    info,
                                    t,
                                ),
                            ) =~= base);
                        }
                        while k < n_tiles
                            invariant
                                k <= n_tiles,
                                n_tiles == tiles@.len(),
                                builder.prims@ == base + tiles@.subrange(0, k as int).map_values(
                                    |t: TilePrim| spec_tile_image_prim(
                                        clip_and_scroll,
                                        prim_info,
                                        info,
                                        t,
                                    ),
                                ),
                                same_but_prims(*old(builder), *builder),
                                base == old(builder).prims@,
                            decreases n_tiles - k,
                        {
                            let tile = tiles[k];
                            let tile_info = PrimitiveInfo {
                                rect: tile.rect,
                                local_clip: prim_info.local_clip,
                                is_backface_visible: prim_info.is_backface_visible,
                                tag: prim_info.tag,
                            };
                            builder.add_image(
                                clip_and_scroll,
                                &tile_info,
                                &tile.stretched_size,
                                &info.tile_spacing,
                                info.image_key,
                                info.image_rendering,
                                Some(tile.tile_offset),
                            );
                            k += 1;
                            proof {
                                let fc = |t: TilePrim| spec_tile_image_prim(
                                    clip_and_scroll,
                                    prim_info,
                                    info,
                                    t,
                                );
                                assert(tiles@.subrange(0, k as int).map_values(fc) =~= tiles@
                                    .subrange(0, k - 1).map_values(fc).push(fc(tiles@[k - 1])));
                                assert(builder.prims@ =~= base + tiles@.subrange(
                                    0,
                                    k as int,
                                ).map_values(fc));
                            }
                        }
                        proof {
                            assert(tiles@.subrange(0, n_tiles as int) =~= tiles@);
                        }
                    },
                    None => {
                        builder.add_image(
                            clip_and_scroll,
                            &prim_info,
                            &info.stretch_size,
                            &info.tile_spacing,
                            info.image_key,
                            info.image_rendering,
                            None,
                        );
                    },
                }
            },
            SpecificDisplayItem::YuvImage(info) => {
                builder.add_yuv_image(
                    clip_and_scroll,
                    &prim_info,
                    info.yuv_data,
                    info.color_space,
                    info.image_rendering,
                );
            },
            SpecificDisplayItem::Text(text_info) => {
                match resource_cache.get_font_instance(text_info.font_key) {
                    Some(instance) => {
                        builder.add_text(
                            clip_and_scroll,
                            reference_frame_relative_offset,
                            &prim_info,
                            instance.font_key,
                            &text_info.color,
                            text_info.glyphs,
                            text_info.glyphs.length,
                            text_info.glyph_options,
                        );
                    },
                    None => {
                        // Unknown font instance key: the text item is dropped
                        // and traversal continues.
                    },
                }
            },
            SpecificDisplayItem::Rectangle(info) => {
                if !try_to_add_rectangle_splitting_on_clip(
                    builder,
                    &prim_info,
                    &info.color,
                    &clip_and_scroll,
                ) {
                    builder.add_solid_rectangle(
                        clip_and_scroll,
                        &prim_info,
                        &info.color,
                        PrimitiveFlags::Normal,
                    );
                }
            },
            SpecificDisplayItem::Line(info) => {
                // A line's effective bounds are defined downstream; its
                // rectangle is intentionally zeroed here.
                let line_info = PrimitiveInfo {
                    rect: Rect::zero(),
                    local_clip: item.local_clip,
                    is_backface_visible: prim_info.is_backface_visible,
                    tag: prim_info.tag,
                };
                builder.add_line(
                    clip_and_scroll,
                    &line_info,
                    info.baseline,
                    info.start,
                    info.end,
                    info.orientation,
                    info.width,
                    &info.color,
                    info.style,
                );
            },
            SpecificDisplayItem::Gradient(info) => {
                builder.add_gradient(
                    clip_and_scroll,
                    &prim_info,
                    info.gradient.start_point,
                    info.gradient.end_point,
                    info.stops,
                    info.gradient.extend_mode,
                    info.tile_size,
                    info.tile_spacing,
                );
            },
            SpecificDisplayItem::RadialGradient(info) => {
                builder.add_radial_gradient(
                    clip_and_scroll,
                    &prim_info,
                    info.gradient.start_center,
                    info.gradient.start_radius,
                    info.gradient.end_center,
                    info.gradient.end_radius,
                    info.gradient.ratio_xy,
                    info.stops,
                    info.gradient.extend_mode,
                    info.tile_size,
                    info.tile_spacing,
                );
            },
            SpecificDisplayItem::BoxShadow(box_shadow_info) => {
                let bounds = box_shadow_info.box_bounds.translate(
                    reference_frame_relative_offset,
                );
                let shadow_prim_info = PrimitiveInfo {
                    rect: bounds,
                    local_clip: prim_info.local_clip,
                    is_backface_visible: prim_info.is_backface_visible,
                    tag: prim_info.tag,
                };
                builder.add_box_shadow(
                    clip_and_scroll,
                    &shadow_prim_info,
                    &box_shadow_info.offset,
                    &box_shadow_info.color,
                    box_shadow_info.blur_radius,
                    box_shadow_info.spread_radius,
                    box_shadow_info.border_radius,
                    box_shadow_info.clip_mode,
                );
            },
            SpecificDisplayItem::Border(info) => {
                builder.add_border(clip_and_scroll, &prim_info, &info, info.gradient_stops);
            },
            SpecificDisplayItem::PushStackingContext(info) => {
                let end = self.flatten_stacking_context(
                    list,
                    pos,
                    pipeline_id,
                    scene,
                    resource_cache,
                    context,
                    builder,
                    unreplaced_scroll_id,
                    reference_frame_relative_offset,
                    &item.rect,
                    &info.stacking_context,
                    prim_info.is_backface_visible,
                    fuel,
                );
                return Some(end);
            },
            SpecificDisplayItem::Iframe(info) => {
                if fuel > 0 {
                    self.flatten_iframe(
                        info.pipeline_id,
                        clip_and_scroll.scroll_node_id,
                        &item.rect,
                        &item.local_clip,
                        scene,
                        resource_cache,
                        context,
                        builder,
                        reference_frame_relative_offset,
                        fuel,
                    );
                }
            },
            SpecificDisplayItem::Clip(info) => {
                let complex_clips = context.get_complex_clips(
                    scene,
                    pipeline_id,
                    info.complex_clips,
                );
                let mut clip_region = ClipRegion::create_for_clip_node(
                    item.local_clip.clip_rect(),
                    complex_clips,
                    info.image_mask,
                );
                clip_region.translate(reference_frame_relative_offset);
                self.flatten_clip(
                    pipeline_id,
                    &clip_and_scroll.scroll_node_id,
                    &info.id,
                    clip_region,
                    builder,
                );
            },
            SpecificDisplayItem::ScrollFrame(info) => {
                let complex_clips = context.get_complex_clips(
                    scene,
                    pipeline_id,
                    info.complex_clips,
                );
                let mut clip_region = ClipRegion::create_for_clip_node(
                    item.local_clip.clip_rect(),
                    complex_clips,
                    info.image_mask,
                );
                clip_region.translate(reference_frame_relative_offset);
                // The clip rectangle doubles as the scroll frame's rectangle;
                // the item's rectangle is the scrollable content extent.
                let frame_rect = item.local_clip.clip_rect().translate(
                    reference_frame_relative_offset,
                );
                let content_rect = item.rect.translate(reference_frame_relative_offset);
                self.flatten_scroll_frame(
                    pipeline_id,
                    &clip_and_scroll.scroll_node_id,
                    &info.id,
                    &frame_rect,
                    &content_rect,
                    clip_region,
                    info.scroll_sensitivity,
                    builder,
                );
            },
            SpecificDisplayItem::StickyFrame(info) => {
                let frame_rect = item.rect.translate(reference_frame_relative_offset);
                self.clip_scroll_tree.add_sticky_frame(
                    info.id,
                    clip_and_scroll.scroll_node_id,
                    frame_rect,
                    info.sticky_frame_info,
                );
            },
            // A marker for the display-list parser; nothing to do.
            SpecificDisplayItem::SetGradientStops => {},
            SpecificDisplayItem::PopStackingContext => {
                // Excluded by precondition: the caller consumes it.
                proof {
                    assert(false);
                }
            },
            SpecificDisplayItem::PushShadow(shadow) => {
                let shadow_prim_info = PrimitiveInfo {
                    rect: Rect::zero(),
                    local_clip: prim_info.local_clip,
                    is_backface_visible: prim_info.is_backface_visible,
                    tag: prim_info.tag,
                };
                builder.push_shadow(shadow, clip_and_scroll, &shadow_prim_info);
            },
            SpecificDisplayItem::PopAllShadows => {
                builder.pop_all_shadows();
            },
        }
        None
    }

    /// Apply a global pan to the spatial tree, then materialize the output
    /// record: the epoch of every reached pipeline, the scroll nodes still
    /// bouncing back, and the built frame if a build has happened.
    pub fn build(&mut self, pan: Vector, device_pixel_ratio: u32) -> (frame: RendererFrame)
        ensures
            final(self).clip_scroll_tree.pan == pan,
            final(self).clip_scroll_tree.nodes == old(self).clip_scroll_tree.nodes,
            final(self).pipeline_epoch_map == old(self).pipeline_epoch_map,
            final(self).id == old(self).id,
            final(self).frame_builder == old(self).frame_builder,
            frame.pipeline_epoch_map.entries@ == old(self).pipeline_epoch_map.entries@,
            frame.nodes_bouncing_back@ == spec_bouncing_ids(old(self).clip_scroll_tree.nodes@),
            match old(self).frame_builder {
                Some(builder) => frame.frame matches Some(built) && built.prims@ == builder.prims@
                    && built.window_size == builder.window_size && built.background_color
                    == builder.background_color && built.device_pixel_ratio
                    == device_pixel_ratio,
                None => frame.frame is None,
            },
    {
        self.clip_scroll_tree.update_all_node_transforms(pan);
        self.build_frame(device_pixel_ratio)
    }

    /// Materialize the output record from the current builder and tree
    /// state.
    fn build_frame(&mut self, device_pixel_ratio: u32) -> (frame: RendererFrame)
        ensures
            *final(self) == *old(self),
            frame.pipeline_epoch_map.entries@ == old(self).pipeline_epoch_map.entries@,
            frame.nodes_bouncing_back@ == spec_bouncing_ids(old(self).clip_scroll_tree.nodes@),
            match old(self).frame_builder {
                Some(builder) => frame.frame matches Some(built) && built.prims@ == builder.prims@
                    && built.window_size == builder.window_size && built.background_color
                    == builder.background_color && built.device_pixel_ratio
                    == device_pixel_ratio,
                None => frame.frame is None,
            },
    {
        let built = match &mut self.frame_builder {
            Some(builder) => Some(builder.build(device_pixel_ratio)),
            None => None,
        };
        let nodes_bouncing_back = self.clip_scroll_tree.collect_nodes_bouncing_back();
        RendererFrame::new(self.pipeline_epoch_map.snapshot(), nodes_bouncing_back, built)
    }

    /// Drop a pipeline's transient scroll state at the next rebuild.
    pub fn discard_frame_state_for_pipeline(&mut self, pipeline_id: PipelineId)
        ensures
            final(self).clip_scroll_tree.pipelines_to_discard@ == old(
                self,
            ).clip_scroll_tree.pipelines_to_discard@.push(pipeline_id),
            final(self).clip_scroll_tree.nodes == old(self).clip_scroll_tree.nodes,
            final(self).pipeline_epoch_map == old(self).pipeline_epoch_map,
            final(self).id == old(self).id,
            final(self).frame_builder_config == old(self).frame_builder_config,
            final(self).frame_builder == old(self).frame_builder,
    {
        self.clip_scroll_tree.discard_frame_state_for_pipeline(pipeline_id);
    }
}

/// Replacing the node at its own index leaves every lookup of that id at
/// that index.
proof fn lemma_node_index_after_update(
    pre: Seq<ClipScrollNode>,
    post: Seq<ClipScrollNode>,
    k: int,
    id: ClipId,
)
    requires
        0 <= k < pre.len(),
        pre[k].id == id,
        seq_node_index(pre, id) == Some(k),
        post == pre.update(k, post[k]),
        post[k].id == id,
    ensures
        seq_node_index(post, id) == Some(k),
    decreases pre.len(),
{
    if pre.len() > 0 {
        if k == pre.len() - 1 {
            assert(post.last() == post[k]);
        } else {
            assert(post.last() == pre.last());
            assert(post.drop_last() =~= pre.drop_last().update(k, post[k]));
            assert(seq_node_index(pre.drop_last(), id) == Some(k)) by {
                assert(pre.drop_last()[k] == pre[k]);
            }
            lemma_node_index_after_update(pre.drop_last(), post.drop_last(), k, id);
        }
    }
}

} // verus!
