//! The frame builder: the ordered primitive stream the flattening engine
//! emits into, the stacking-context and reference-frame stacks it maintains
//! while recursing, and the final step that turns the accumulated state into
//! a renderable frame record.

use vstd::prelude::*;
use crate::api::{
    BorderDisplayItem, BoxShadowClipMode, ClipAndScrollInfo, ClipId, Color, ExtendMode,
    FontInstanceKey, HitTestFlags, ImageKey, ImageRendering, ItemRange, ItemTag,
    LineOrientation, LineStyle, LocalClip, MixBlendMode, PipelineId, ResolvedFilterOp,
    ScrollSensitivity, Shadow, SideOffsets, TileOffset, Transform, TransformStyle,
    YuvColorSpace,
};
use crate::clip::ClipRegion;
use crate::geom::{Rect, Size, Vector, rect_contains};
use crate::scene::PipelineEpochMap;
use crate::spatial::{ClipScrollTree, ReferenceFrameInfo};

verus! {

/// Static configuration of the builder.
#[derive(Clone, Copy, PartialEq, Eq, Structural, Debug)]
pub struct FrameBuilderConfig {
    pub enable_scrollbars: bool,
}

/// The geometry attached to every primitive: local rectangle, local clip,
/// backface visibility and optional hit-test tag.
#[derive(Clone, Copy, PartialEq, Eq, Structural, Debug)]
pub struct PrimitiveInfo {
    pub rect: Rect,
    pub local_clip: LocalClip,
    pub is_backface_visible: bool,
    pub tag: Option<ItemTag>,
}

impl PrimitiveInfo {
    pub fn new(rect: Rect) -> (info: PrimitiveInfo)
        ensures
            info == (PrimitiveInfo {
                rect,
                local_clip: LocalClip::Rect(rect),
                is_backface_visible: true,
                tag: None::<ItemTag>,
            }),
    {
        PrimitiveInfo { rect, local_clip: LocalClip::Rect(rect), is_backface_visible: true, tag: None }
    }
}

/// Extra behaviour attached to a solid rectangle.
#[derive(Clone, Copy, PartialEq, Eq, Structural, Debug)]
pub enum PrimitiveFlags {
    Normal,
    Scrollbar(ClipId, i64),
}

/// The variant payload of one emitted primitive.
#[derive(Clone, Copy, PartialEq, Eq, Structural, Debug)]
pub enum PrimitiveDetail {
    Rectangle { color: Color, flags: PrimitiveFlags },
    Line {
        baseline: i64,
        start: i64,
        end: i64,
        orientation: LineOrientation,
        width: i64,
        color: Color,
        style: LineStyle,
    },
    Image {
        stretch_size: Size,
        tile_spacing: Size,
        image_key: ImageKey,
        image_rendering: ImageRendering,
        tile_offset: Option<TileOffset>,
    },
    YuvImage { yuv_data: ImageKey, color_space: YuvColorSpace, image_rendering: ImageRendering },
    Text {
        font_key: FontInstanceKey,
        run_offset: Vector,
        color: Color,
        glyphs: ItemRange,
        glyph_count: usize,
        glyph_options: Option<u32>,
    },
    Gradient {
        start_point: Vector,
        end_point: Vector,
        stops: ItemRange,
        extend_mode: ExtendMode,
        tile_size: Size,
        tile_spacing: Size,
    },
    RadialGradient {
        start_center: Vector,
        start_radius: i64,
        end_center: Vector,
        end_radius: i64,
        ratio_xy: u32,
        stops: ItemRange,
        extend_mode: ExtendMode,
        tile_size: Size,
        tile_spacing: Size,
    },
    BoxShadow {
        offset: Vector,
        color: Color,
        blur_radius: i64,
        spread_radius: i64,
        border_radius: i64,
        clip_mode: BoxShadowClipMode,
    },
    Border { widths: SideOffsets, gradient_stops: ItemRange },
}

/// One entry of the emitted primitive stream.
#[derive(Clone, Copy, PartialEq, Eq, Structural, Debug)]
pub struct Primitive {
    pub clip_and_scroll: ClipAndScrollInfo,
    pub info: PrimitiveInfo,
    pub detail: PrimitiveDetail,
}

/// The composite operations of one stacking context: resolved, non-trivial
/// filters plus an optional blend mode.
pub struct CompositeOps {
    pub filters: Vec<ResolvedFilterOp>,
    pub mix_blend_mode: Option<MixBlendMode>,
}

impl CompositeOps {
    pub fn new(filters: Vec<ResolvedFilterOp>, mix_blend_mode: Option<MixBlendMode>) -> (ops:
        CompositeOps)
        ensures
            ops.filters == filters,
            ops.mix_blend_mode == mix_blend_mode,
    {
        CompositeOps { filters, mix_blend_mode }
    }

    /// No filters and no blending: the root's composite operations.
    pub fn empty() -> (ops: CompositeOps)
        ensures
            ops.filters@.len() == 0,
            ops.mix_blend_mode is None,
    {
        CompositeOps { filters: Vec::new(), mix_blend_mode: None }
    }
}

/// One open stacking context on the builder's stack.
pub struct StackingContextRecord {
    pub reference_frame_offset: Vector,
    pub pipeline_id: PipelineId,
    pub composite_ops: CompositeOps,
    pub transform_style: TransformStyle,
    pub is_backface_visible: bool,
    pub is_pipeline_root: bool,
}

/// One shadow currently in effect.
pub struct ShadowRecord {
    pub shadow: Shadow,
    pub clip_and_scroll: ClipAndScrollInfo,
    pub info: PrimitiveInfo,
}

/// One hit-test result entry.
#[derive(Clone, Copy, PartialEq, Eq, Structural, Debug)]
pub struct HitTestItem {
    pub pipeline: PipelineId,
    pub tag: ItemTag,
}

/// The renderable output of one build: the primitive stream with the window
/// state it was built for.
pub struct BuiltFrame {
    pub window_size: Size,
    pub background_color: Option<Color>,
    pub device_pixel_ratio: u32,
    pub prims: Vec<Primitive>,
}

/// What one build hands back to the renderer: the epoch of every reached
/// pipeline, the scroll nodes still bouncing back, and the built frame, if
/// a builder existed.
pub struct RendererFrame {
    pub pipeline_epoch_map: PipelineEpochMap,
    pub nodes_bouncing_back: Vec<ClipId>,
    pub frame: Option<BuiltFrame>,
}

impl RendererFrame {
    pub fn new(
        pipeline_epoch_map: PipelineEpochMap,
        nodes_bouncing_back: Vec<ClipId>,
        frame: Option<BuiltFrame>,
    ) -> (r: RendererFrame)
        ensures
            r.pipeline_epoch_map == pipeline_epoch_map,
            r.nodes_bouncing_back == nodes_bouncing_back,
            r.frame == frame,
    {
        RendererFrame { pipeline_epoch_map, nodes_bouncing_back, frame }
    }
}

/// Whether a primitive is hit at (x, y) for an optional pipeline filter:
/// it must carry a tag, contain the point, and belong to the pipeline.
pub open spec fn prim_hit(prim: Primitive, pipeline_id: Option<PipelineId>, x: int, y: int) -> bool {
    &&& prim.info.tag.is_some()
    &&& rect_contains(prim.info.rect, x, y)
    &&& match pipeline_id {
        Some(p) => prim.clip_and_scroll.scroll_node_id.spec_pipeline_id() == p,
        None => true,
    }
}

/// The hits among primitives with index at least `i`, front-most (latest
/// emitted) first.
pub open spec fn spec_hits_from(
    prims: Seq<Primitive>,
    pipeline_id: Option<PipelineId>,
    x: int,
    y: int,
    i: int,
) -> Seq<HitTestItem>
    decreases prims.len() - i,
{
    if i < 0 || i >= prims.len() {
        Seq::empty()
    } else {
        let rest = spec_hits_from(prims, pipeline_id, x, y, i + 1);
        if prim_hit(prims[i], pipeline_id, x, y) {
            rest.push(
                HitTestItem {
                    pipeline: prims[i].clip_and_scroll.scroll_node_id.spec_pipeline_id(),
                    tag: prims[i].info.tag.unwrap(),
                },
            )
        } else {
            rest
        }
    }
}

/// The frame builder.
pub struct FrameBuilder {
    pub config: FrameBuilderConfig,
    pub window_size: Size,
    pub inner_rect: Rect,
    pub device_pixel_ratio: u32,
    pub background_color: Option<Color>,
    pub prims: Vec<Primitive>,
    pub sc_stack: Vec<StackingContextRecord>,
    pub reference_frame_stack: Vec<ClipId>,
    pub shadow_stack: Vec<ShadowRecord>,
    pub waiting_for_root_stacking_context: bool,
}

/// Everything of the builder but the primitive stream is unchanged.
pub open spec fn same_but_prims(a: FrameBuilder, b: FrameBuilder) -> bool {
    b == (FrameBuilder { prims: b.prims, ..a })
}

impl FrameBuilder {
    /// A fresh builder for one build. The previous build's builder may be
    /// handed in so its allocations could be recycled; that has no
    /// observable effect on the result.
    pub fn new(
        previous: Option<FrameBuilder>,
        window_size: Size,
        background_color: Option<Color>,
        config: FrameBuilderConfig,
    ) -> (b: FrameBuilder)
        ensures
            b.config == config,
            b.window_size == window_size,
            b.inner_rect == (Rect {
                origin: Vector { x: 0i64, y: 0i64 },
                size: Size { w: 0i64, h: 0i64 },
            }),
            b.device_pixel_ratio == 1000u32,
            b.background_color == background_color,
            b.prims@.len() == 0,
            b.sc_stack@.len() == 0,
            b.reference_frame_stack@.len() == 0,
            b.shadow_stack@.len() == 0,
            !b.waiting_for_root_stacking_context,
    {
        FrameBuilder {
            config,
            window_size,
            inner_rect: Rect::zero(),
            device_pixel_ratio: 1000,
            background_color,
            prims: Vec::new(),
            sc_stack: Vec::new(),
            reference_frame_stack: Vec::new(),
            shadow_stack: Vec::new(),
            waiting_for_root_stacking_context: false,
        }
    }

    /// Register the root pipeline's viewport: a root reference frame and the
    /// pipeline's well-known root scroll node go into the tree, sized by the
    /// viewport and the scrollable content.
    pub fn push_root(
        &mut self,
        pipeline_id: PipelineId,
        viewport_size: &Size,
        content_size: &Size,
        clip_scroll_tree: &mut ClipScrollTree,
    )
        ensures
            final(clip_scroll_tree).nodes@ == old(clip_scroll_tree).nodes@.push(
                crate::spatial::ClipScrollNode {
                    id: ClipId::DynamicallyAddedNode(
                        old(clip_scroll_tree).next_dynamic_index,
                        pipeline_id,
                    ),
                    parent: None::<ClipId>,
                    pipeline_id,
                    node_type: crate::spatial::NodeType::ReferenceFrame(
                        ReferenceFrameInfo {
                            origin: Vector { x: 0i64, y: 0i64 },
                            transform: Transform { token: 0u64 },
                            perspective: Transform { token: 0u64 },
                            frame_rect: Rect {
                                origin: Vector { x: 0i64, y: 0i64 },
                                size: *viewport_size,
                            },
                            is_iframe: false,
                        },
                    ),
                },
            ).push(
                crate::spatial::ClipScrollNode {
                    id: ClipId::Clip(0u64, pipeline_id),
                    parent: Some(
                        ClipId::DynamicallyAddedNode(
                            old(clip_scroll_tree).next_dynamic_index,
                            pipeline_id,
                        ),
                    ),
                    pipeline_id,
                    node_type: crate::spatial::NodeType::ScrollFrame(
                        crate::spatial::ScrollFrameInfo {
                            frame_rect: Rect {
                                origin: Vector { x: 0i64, y: 0i64 },
                                size: *viewport_size,
                            },
                            content_size: *content_size,
                            scroll_sensitivity: ScrollSensitivity::ScriptAndInputEvents,
                            state: crate::spatial::ScrollingState {
                                offset: Vector { x: 0i64, y: 0i64 },
                                bouncing_back: false,
                            },
                        },
                    ),
                },
            ),
            final(clip_scroll_tree).has_scroll_node(ClipId::Clip(0u64, pipeline_id)),
            final(clip_scroll_tree).spec_scroll_offset(ClipId::Clip(0u64, pipeline_id)) == (Vector {
                x: 0i64,
                y: 0i64,
            }),
            final(self).reference_frame_stack@ == old(self).reference_frame_stack@.push(
                ClipId::DynamicallyAddedNode(
                    old(clip_scroll_tree).next_dynamic_index,
                    pipeline_id,
                ),
            ),
            same_but_reference_frames(*old(self), *final(self)),
            final(clip_scroll_tree).pipelines_to_discard == old(
                clip_scroll_tree,
            ).pipelines_to_discard,
            final(clip_scroll_tree).pan == old(clip_scroll_tree).pan,
    {
        let viewport_rect = Rect::new(Vector::zero(), *viewport_size);
        let info = ReferenceFrameInfo {
            origin: Vector::zero(),
            transform: Transform::identity(),
            perspective: Transform::identity(),
            frame_rect: viewport_rect,
            is_iframe: false,
        };
        let root_id = clip_scroll_tree.add_reference_frame(None, pipeline_id, info);
        self.reference_frame_stack.push(root_id);
        clip_scroll_tree.add_scroll_frame(
            ClipId::root_scroll_node(pipeline_id),
            root_id,
            pipeline_id,
            viewport_rect,
            *content_size,
            ScrollSensitivity::ScriptAndInputEvents,
        );
        proof {
            let nodes = clip_scroll_tree.nodes@;
            assert(nodes.last() == nodes[nodes.len() - 1]);
        }
    }

    /// Record the window-relative placement of the document viewport and
    /// the device pixel ratio (in thousandths) the frame is built for.
    pub fn setup_viewport_offset(
        &mut self,
        window_size: Size,
        inner_rect: Rect,
        device_pixel_ratio: u32,
        clip_scroll_tree: &mut ClipScrollTree,
    )
        ensures
            final(self).inner_rect == inner_rect,
            final(self).device_pixel_ratio == device_pixel_ratio,
            *final(self) == (FrameBuilder { inner_rect, device_pixel_ratio, ..*old(self) }),
            *final(clip_scroll_tree) == *old(clip_scroll_tree),
    {
        self.inner_rect = inner_rect;
        self.device_pixel_ratio = device_pixel_ratio;
    }

    /// The reference frame enclosing the items currently being flattened.
    pub fn current_reference_frame_id(&self) -> (id: ClipId)
        requires
            self.reference_frame_stack@.len() > 0,
        ensures
            id == self.reference_frame_stack@.last(),
    {
        self.reference_frame_stack[self.reference_frame_stack.len() - 1]
    }

    /// Create a reference-frame node and make it current.
    pub fn push_reference_frame(
        &mut self,
        parent_id: Option<ClipId>,
        pipeline_id: PipelineId,
        info: ReferenceFrameInfo,
        clip_scroll_tree: &mut ClipScrollTree,
    ) -> (id: ClipId)
        ensures
            id == ClipId::DynamicallyAddedNode(old(clip_scroll_tree).next_dynamic_index, pipeline_id),
            final(clip_scroll_tree).nodes@ == old(clip_scroll_tree).nodes@.push(
                crate::spatial::ClipScrollNode {
                    id,
                    parent: parent_id,
                    pipeline_id,
                    node_type: crate::spatial::NodeType::ReferenceFrame(info),
                },
            ),
            final(clip_scroll_tree).pipelines_to_discard == old(
                clip_scroll_tree,
            ).pipelines_to_discard,
            final(clip_scroll_tree).pan == old(clip_scroll_tree).pan,
            final(self).reference_frame_stack@ == old(self).reference_frame_stack@.push(id),
            same_but_reference_frames(*old(self), *final(self)),
    {
        let id = clip_scroll_tree.add_reference_frame(parent_id, pipeline_id, info);
        self.reference_frame_stack.push(id);
        id
    }

    /// Leave the current reference frame.
    pub fn pop_reference_frame(&mut self)
        requires
            old(self).reference_frame_stack@.len() > 0,
        ensures
            final(self).reference_frame_stack@ == old(self).reference_frame_stack@.drop_last(),
            same_but_reference_frames(*old(self), *final(self)),
    {
        self.reference_frame_stack.pop();
    }

    /// Open a stacking context.
    pub fn push_stacking_context(
        &mut self,
        reference_frame_offset: &Vector,
        pipeline_id: PipelineId,
        composite_ops: CompositeOps,
        transform_style: TransformStyle,
        is_backface_visible: bool,
        is_pipeline_root: bool,
    )
        ensures
            final(self).sc_stack@ == old(self).sc_stack@.push(
                StackingContextRecord {
                    reference_frame_offset: *reference_frame_offset,
                    pipeline_id,
                    composite_ops,
                    transform_style,
                    is_backface_visible,
                    is_pipeline_root,
                },
            ),
            !final(self).waiting_for_root_stacking_context,
            same_but_stacking_contexts(*old(self), *final(self)),
    {
        self.sc_stack.push(
            StackingContextRecord {
                reference_frame_offset: *reference_frame_offset,
                pipeline_id,
                composite_ops,
                transform_style,
                is_backface_visible,
                is_pipeline_root,
            },
        );
        self.waiting_for_root_stacking_context = false;
    }

    /// Close the current stacking context.
    pub fn pop_stacking_context(&mut self)
        requires
            old(self).sc_stack@.len() > 0,
        ensures
            final(self).sc_stack@.len() == old(self).sc_stack@.len() - 1,
            final(self).waiting_for_root_stacking_context == old(
                self,
            ).waiting_for_root_stacking_context,
            same_but_stacking_contexts(*old(self), *final(self)),
    {
        self.sc_stack.pop();
    }

    /// Announce that the next stacking context pushed is the document root's.
    pub fn notify_waiting_for_root_stacking_context(&mut self)
        ensures
            final(self).waiting_for_root_stacking_context,
            same_but_stacking_contexts(*old(self), *final(self)),
            final(self).sc_stack == old(self).sc_stack,
    {
        self.waiting_for_root_stacking_context = true;
    }

    /// Create a clip node in the spatial tree.
    pub fn add_clip_node(
        &mut self,
        id: ClipId,
        parent_id: ClipId,
        pipeline_id: PipelineId,
        clip_region: ClipRegion,
        clip_scroll_tree: &mut ClipScrollTree,
    )
        ensures
            *final(self) == *old(self),
            final(clip_scroll_tree).nodes@ == old(clip_scroll_tree).nodes@.push(
                crate::spatial::ClipScrollNode {
                    id,
                    parent: Some(parent_id),
                    pipeline_id,
                    node_type: crate::spatial::NodeType::Clip(clip_region),
                },
            ),
            final(clip_scroll_tree).next_dynamic_index == old(clip_scroll_tree).next_dynamic_index,
            final(clip_scroll_tree).pipelines_to_discard == old(
                clip_scroll_tree,
            ).pipelines_to_discard,
            final(clip_scroll_tree).pan == old(clip_scroll_tree).pan,
    {
        clip_scroll_tree.add_clip_node(id, parent_id, pipeline_id, clip_region);
    }

    /// Create a scroll-frame node in the spatial tree.
    pub fn add_scroll_frame(
        &mut self,
        id: ClipId,
        parent_id: ClipId,
        pipeline_id: PipelineId,
        frame_rect: &Rect,
        content_size: &Size,
        scroll_sensitivity: ScrollSensitivity,
        clip_scroll_tree: &mut ClipScrollTree,
    )
        ensures
            *final(self) == *old(self),
            final(clip_scroll_tree).nodes@ == old(clip_scroll_tree).nodes@.push(
                crate::spatial::ClipScrollNode {
                    id,
                    parent: Some(parent_id),
                    pipeline_id,
                    node_type: crate::spatial::NodeType::ScrollFrame(
                        crate::spatial::ScrollFrameInfo {
                            frame_rect: *frame_rect,
                            content_size: *content_size,
                            scroll_sensitivity,
                            state: crate::spatial::ScrollingState {
                                offset: Vector { x: 0i64, y: 0i64 },
                                bouncing_back: false,
                            },
                        },
                    ),
                },
            ),
            final(clip_scroll_tree).next_dynamic_index == old(clip_scroll_tree).next_dynamic_index,
            final(clip_scroll_tree).pipelines_to_discard == old(
                clip_scroll_tree,
            ).pipelines_to_discard,
            final(clip_scroll_tree).pan == old(clip_scroll_tree).pan,
    {
        clip_scroll_tree.add_scroll_frame(
            id,
            parent_id,
            pipeline_id,
            *frame_rect,
            *content_size,
            scroll_sensitivity,
        );
    }

    /// Emit a solid rectangle.
    pub fn add_solid_rectangle(
        &mut self,
        clip_and_scroll: ClipAndScrollInfo,
        info: &PrimitiveInfo,
        color: &Color,
        flags: PrimitiveFlags,
    )
        ensures
            final(self).prims@ == old(self).prims@.push(
                Primitive {
                    clip_and_scroll,
                    info: *info,
                    detail: PrimitiveDetail::Rectangle { color: *color, flags },
                },
            ),
            same_but_prims(*old(self), *final(self)),
    {
        self.prims.push(
            Primitive {
                clip_and_scroll,
                info: *info,
                detail: PrimitiveDetail::Rectangle { color: *color, flags },
            },
        );
    }

    /// Emit a line.
    pub fn add_line(
        &mut self,
        clip_and_scroll: ClipAndScrollInfo,
        info: &PrimitiveInfo,
        baseline: i64,
        start: i64,
        end: i64,
        orientation: LineOrientation,
        width: i64,
        color: &Color,
        style: LineStyle,
    )
        ensures
            final(self).prims@ == old(self).prims@.push(
                Primitive {
                    clip_and_scroll,
                    info: *info,
                    detail: PrimitiveDetail::Line {
                        baseline,
                        start,
                        end,
                        orientation,
                        width,
                        color: *color,
                        style,
                    },
                },
            ),
            same_but_prims(*old(self), *final(self)),
    {
        self.prims.push(
            Primitive {
                clip_and_scroll,
                info: *info,
                detail: PrimitiveDetail::Line {
                    baseline,
                    start,
                    end,
                    orientation,
                    width,
                    color: *color,
                    style,
                },
            },
        );
    }

    /// Emit an image.
    pub fn add_image(
        &mut self,
        clip_and_scroll: ClipAndScrollInfo,
        info: &PrimitiveInfo,
        stretch_size: &Size,
        tile_spacing: &Size,
        image_key: ImageKey,
        image_rendering: ImageRendering,
        tile_offset: Option<TileOffset>,
    )
        ensures
            final(self).prims@ == old(self).prims@.push(
                Primitive {
                    clip_and_scroll,
                    info: *info,
                    detail: PrimitiveDetail::Image {
                        stretch_size: *stretch_size,
                        tile_spacing: *tile_spacing,
                        image_key,
                        image_rendering,
                        tile_offset,
                    },
                },
            ),
            same_but_prims(*old(self), *final(self)),
    {
        self.prims.push(
            Primitive {
                clip_and_scroll,
                info: *info,
                detail: PrimitiveDetail::Image {
                    stretch_size: *stretch_size,
                    tile_spacing: *tile_spacing,
                    image_key,
                    image_rendering,
                    tile_offset,
                },
            },
        );
    }

    /// Emit a YUV image.
    pub fn add_yuv_image(
        &mut self,
        clip_and_scroll: ClipAndScrollInfo,
        info: &PrimitiveInfo,
        yuv_data: ImageKey,
        color_space: YuvColorSpace,
        image_rendering: ImageRendering,
    )
        ensures
            final(self).prims@ == old(self).prims@.push(
                Primitive {
                    clip_and_scroll,
                    info: *info,
                    detail: PrimitiveDetail::YuvImage { yuv_data, color_space, image_rendering },
                },
            ),
            same_but_prims(*old(self), *final(self)),
    {
        self.prims.push(
            Primitive {
                clip_and_scroll,
                info: *info,
                detail: PrimitiveDetail::YuvImage { yuv_data, color_space, image_rendering },
            },
        );
    }

    /// Emit a text run.
    pub fn add_text(
        &mut self,
        clip_and_scroll: ClipAndScrollInfo,
        run_offset: Vector,
        info: &PrimitiveInfo,
        font_key: FontInstanceKey,
        color: &Color,
        glyphs: ItemRange,
        glyph_count: usize,
        glyph_options: Option<u32>,
    )
        ensures
            final(self).prims@ == old(self).prims@.push(
                Primitive {
                    clip_and_scroll,
                    info: *info,
                    detail: PrimitiveDetail::Text {
                        font_key,
                        run_offset,
                        color: *color,
                        glyphs,
                        glyph_count,
                        glyph_options,
                    },
                },
            ),
            same_but_prims(*old(self), *final(self)),
    {
        self.prims.push(
            Primitive {
                clip_and_scroll,
                info: *info,
                detail: PrimitiveDetail::Text {
                    font_key,
                    run_offset,
                    color: *color,
                    glyphs,
                    glyph_count,
                    glyph_options,
                },
            },
        );
    }

    /// Emit a linear gradient.
    pub fn add_gradient(
        &mut self,
        clip_and_scroll: ClipAndScrollInfo,
        info: &PrimitiveInfo,
        start_point: Vector,
        end_point: Vector,
        stops: ItemRange,
        extend_mode: ExtendMode,
        tile_size: Size,
        tile_spacing: Size,
    )
        ensures
            final(self).prims@ == old(self).prims@.push(
                Primitive {
                    clip_and_scroll,
                    info: *info,
                    detail: PrimitiveDetail::Gradient {
                        start_point,
                        end_point,
                        stops,
                        extend_mode,
                        tile_size,
                        tile_spacing,
                    },
                },
            ),
            same_but_prims(*old(self), *final(self)),
    {
        self.prims.push(
            Primitive {
                clip_and_scroll,
                info: *info,
                detail: PrimitiveDetail::Gradient {
                    start_point,
                    end_point,
                    stops,
                    extend_mode,
                    tile_size,
                    tile_spacing,
                },
            },
        );
    }

    /// Emit a radial gradient.
    pub fn add_radial_gradient(
        &mut self,
        clip_and_scroll: ClipAndScrollInfo,
        info: &PrimitiveInfo,
        start_center: Vector,
        start_radius: i64,
        end_center: Vector,
        end_radius: i64,
        ratio_xy: u32,
        stops: ItemRange,
        extend_mode: ExtendMode,
        tile_size: Size,
        tile_spacing: Size,
    )
        ensures
            final(self).prims@ == old(self).prims@.push(
                Primitive {
                    clip_and_scroll,
                    info: *info,
                    detail: PrimitiveDetail::RadialGradient {
                        start_center,
                        start_radius,
                        end_center,
                        end_radius,
                        ratio_xy,
                        stops,
                        extend_mode,
                        tile_size,
                        tile_spacing,
                    },
                },
            ),
            same_but_prims(*old(self), *final(self)),
    {
        self.prims.push(
            Primitive {
                clip_and_scroll,
                info: *info,
                detail: PrimitiveDetail::RadialGradient {
                    start_center,
                    start_radius,
                    end_center,
                    end_radius,
                    ratio_xy,
                    stops,
                    extend_mode,
                    tile_size,
                    tile_spacing,
                },
            },
        );
    }

    /// Emit a box shadow.
    pub fn add_box_shadow(
        &mut self,
        clip_and_scroll: ClipAndScrollInfo,
        info: &PrimitiveInfo,
        offset: &Vector,
        color: &Color,
        blur_radius: i64,
        spread_radius: i64,
        border_radius: i64,
        clip_mode: BoxShadowClipMode,
    )
        ensures
            final(self).prims@ == old(self).prims@.push(
                Primitive {
                    clip_and_scroll,
                    info: *info,
                    detail: PrimitiveDetail::BoxShadow {
                        offset: *offset,
                        color: *color,
                        blur_radius,
                        spread_radius,
                        border_radius,
                        clip_mode,
                    },
                },
            ),
            same_but_prims(*old(self), *final(self)),
    {
        self.prims.push(
            Primitive {
                clip_and_scroll,
                info: *info,
                detail: PrimitiveDetail::BoxShadow {
                    offset: *offset,
                    color: *color,
                    blur_radius,
                    spread_radius,
                    border_radius,
                    clip_mode,
                },
            },
        );
    }

    /// Emit a border.
    pub fn add_border(
        &mut self,
        clip_and_scroll: ClipAndScrollInfo,
        info: &PrimitiveInfo,
        border_item: &BorderDisplayItem,
        gradient_stops: ItemRange,
    )
        ensures
            final(self).prims@ == old(self).prims@.push(
                Primitive {
                    clip_and_scroll,
                    info: *info,
                    detail: PrimitiveDetail::Border {
                        widths: border_item.widths,
                        gradient_stops,
                    },
                },
            ),
            same_but_prims(*old(self), *final(self)),
    {
        self.prims.push(
            Primitive {
                clip_and_scroll,
                info: *info,
                detail: PrimitiveDetail::Border { widths: border_item.widths, gradient_stops },
            },
        );
    }

    /// Open a shadow: it applies to items emitted until all shadows are
    /// popped.
    pub fn push_shadow(
        &mut self,
        shadow: Shadow,
        clip_and_scroll: ClipAndScrollInfo,
        info: &PrimitiveInfo,
    )
        ensures
            final(self).shadow_stack@ == old(self).shadow_stack@.push(
                ShadowRecord { shadow, clip_and_scroll, info: *info },
            ),
            same_but_shadows(*old(self), *final(self)),
    {
        self.shadow_stack.push(ShadowRecord { shadow, clip_and_scroll, info: *info });
    }

    /// Close every open shadow.
    pub fn pop_all_shadows(&mut self)
        ensures
            final(self).shadow_stack@.len() == 0,
            same_but_shadows(*old(self), *final(self)),
    {
        self.shadow_stack.clear();
    }

    /// Every tagged primitive of the given pipeline (or of any pipeline)
    /// containing the point, front-most first — or only the front-most such
    /// primitive when the flags do not ask for all of them.
    pub fn hit_test(
        &self,
        clip_scroll_tree: &ClipScrollTree,
        pipeline_id: Option<PipelineId>,
        point: Vector,
        flags: HitTestFlags,
    ) -> (hits: Vec<HitTestItem>)
        ensures
            flags.find_all ==> hits@ == spec_hits_from(
                self.prims@,
                pipeline_id,
                point.x as int,
                point.y as int,
                0,
            ),
            !flags.find_all ==> hits@ == ({
                let all = spec_hits_from(
                    self.prims@,
                    pipeline_id,
                    point.x as int,
                    point.y as int,
                    0,
                );
                if all.len() == 0 {
                    Seq::<HitTestItem>::empty()
                } else {
                    seq![all[0]]
                }
            }),
    {
        let mut hits: Vec<HitTestItem> = Vec::new();
        let mut i: usize = self.prims.len();
        while i > 0
            invariant
                i <= self.prims@.len(),
                hits@ == spec_hits_from(
                    self.prims@,
                    pipeline_id,
                    point.x as int,
                    point.y as int,
                    i as int,
                ),
                !flags.find_all ==> hits@.len() == 0,
            decreases i,
        {
            i -= 1;
            let prim = &self.prims[i];
            let hit = match prim.info.tag {
                Some(_) => {
                    let in_rect = prim.info.rect.contains_point(point.x, point.y);
                    let in_pipeline = match pipeline_id {
                        Some(p) => prim.clip_and_scroll.scroll_node_id.pipeline_id() == p,
                        None => true,
                    };
                    in_rect && in_pipeline
                },
                None => false,
            };
            if hit {
                let tag = match prim.info.tag {
                    Some(tag) => tag,
                    None => ItemTag { key: 0, kind: 0 },
                };
                hits.push(
                    HitTestItem {
                        pipeline: prim.clip_and_scroll.scroll_node_id.pipeline_id(),
                        tag,
                    },
                );
                if !flags.find_all {
                    proof {
                        lemma_hits_prefix(
                            self.prims@,
                            pipeline_id,
                            point.x as int,
                            point.y as int,
                            0,
                            i as int,
                        );
                    }
                    return hits;
                }
            }
        }
        hits
    }

    /// Materialize the renderable frame from the accumulated primitive
    /// stream, for the given device pixel ratio (in thousandths).
    pub fn build(&mut self, device_pixel_ratio: u32) -> (frame: BuiltFrame)
        ensures
            frame.window_size == old(self).window_size,
            frame.background_color == old(self).background_color,
            frame.device_pixel_ratio == device_pixel_ratio,
            frame.prims@ == old(self).prims@,
            *final(self) == *old(self),
    {
        let mut prims: Vec<Primitive> = Vec::new();
        let n = self.prims.len();
        let mut i: usize = 0;
        while i < n
            invariant
                i <= n,
                n == self.prims@.len(),
                prims@ == self.prims@.subrange(0, i as int),
            decreases n - i,
        {
            prims.push(self.prims[i]);
            i += 1;
            proof {
                assert(prims@ =~= self.prims@.subrange(0, i as int));
            }
        }
        proof {
            assert(self.prims@.subrange(0, n as int) =~= self.prims@);
        }
        BuiltFrame {
            window_size: self.window_size,
            background_color: self.background_color,
            device_pixel_ratio,
            prims,
        }
    }
}

/// Lower starting positions only extend the hit list at its back: the hits
/// from position `i` on are a prefix of the hits from position `j <= i` on.
proof fn lemma_hits_prefix(
    prims: Seq<Primitive>,
    pipeline_id: Option<PipelineId>,
    x: int,
    y: int,
    j: int,
    i: int,
)
    requires
        0 <= j <= i,
    ensures
        spec_hits_from(prims, pipeline_id, x, y, i).len() <= spec_hits_from(
            prims,
            pipeline_id,
            x,
            y,
            j,
        ).len(),
        forall|k: int|
            0 <= k < spec_hits_from(prims, pipeline_id, x, y, i).len() ==> #[trigger] spec_hits_from(
                prims,
                pipeline_id,
                x,
                y,
                j,
            )[k] == spec_hits_from(prims, pipeline_id, x, y, i)[k],
    decreases i - j,
{
    if j < i {
        lemma_hits_prefix(prims, pipeline_id, x, y, j + 1, i);
    }
}

/// Everything of the builder but the reference-frame stack is unchanged.
pub open spec fn same_but_reference_frames(a: FrameBuilder, b: FrameBuilder) -> bool {
    b == (FrameBuilder { reference_frame_stack: b.reference_frame_stack, ..a })
}

/// Everything of the builder but the stacking-context stack and the
/// root-waiting flag is unchanged.
pub open spec fn same_but_stacking_contexts(a: FrameBuilder, b: FrameBuilder) -> bool {
    b == (FrameBuilder {
        sc_stack: b.sc_stack,
        waiting_for_root_stacking_context: b.waiting_for_root_stacking_context,
        ..a
    })
}

/// Everything of the builder but the shadow stack is unchanged.
pub open spec fn same_but_shadows(a: FrameBuilder, b: FrameBuilder) -> bool {
    b == (FrameBuilder { shadow_stack: b.shadow_stack, ..a })
}

} // verus!
