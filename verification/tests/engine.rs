use scene_flatten::api::{
    ClipAndScrollInfo, ClipId, Color, DisplayItem, Epoch, FilterOp, HitTestFlags, ItemRange,
    ItemTag,
    LineDisplayItem, LineOrientation, LineStyle, Shadow,
    LocalClip, OpacityBinding, PipelineId, PushStackingContextDisplayItem,
    RectangleDisplayItem, ResolvedFilterOp, ScrollClamping, ScrollEventPhase,
    ScrollFrameDisplayItem, ScrollLocation, ScrollPolicy, ScrollSensitivity,
    SpecificDisplayItem, StackingContext, IframeDisplayItem, MixBlendMode, TextDisplayItem,
    FontInstanceKey, Transform, TransformBinding, TransformStyle, BorderRadius,
    ComplexClipRegion,
};
use scene_flatten::api::{ClipDisplayItem, SideOffsets, StickyFrameDisplayItem, StickyFrameInfo};
use scene_flatten::builder::{FrameBuilder, FrameBuilderConfig, Primitive, PrimitiveDetail, PrimitiveFlags};
use scene_flatten::spatial::NodeType;
use scene_flatten::frame::{
    Frame, stacking_context_child_offset, try_to_add_rectangle_splitting_on_clip,
};
use scene_flatten::builder::PrimitiveInfo;
use scene_flatten::geom::{Rect, Size, Vector};
use scene_flatten::resource::ResourceCache;
use scene_flatten::scene::{
    DisplayList, Scene, ScenePipeline, SceneProperties, filter_ops_for_compositing,
};

fn rect(x: i64, y: i64, w: i64, h: i64) -> Rect {
    Rect { origin: Vector { x, y }, size: Size { w, h } }
}

fn pid(id: u32) -> PipelineId {
    PipelineId { namespace: 1, id }
}

fn empty_list() -> DisplayList {
    DisplayList {
        items: Vec::new(),
        complex_clips: Vec::new(),
        filters: Vec::new(),
        glyphs: Vec::new(),
        gradient_stops: Vec::new(),
    }
}

fn item(spec: SpecificDisplayItem, r: Rect, scroll: ClipId) -> DisplayItem {
    DisplayItem {
        item: spec,
        rect: r,
        local_clip: LocalClip::Rect(rect(-10000, -10000, 20000, 20000)),
        is_backface_visible: true,
        tag: None,
        clip_and_scroll: ClipAndScrollInfo::simple(scroll),
    }
}

fn plain_stacking_context() -> StackingContext {
    StackingContext {
        scroll_policy: ScrollPolicy::Scrollable,
        transform: None,
        transform_style: TransformStyle::Flat,
        perspective: None,
        mix_blend_mode: MixBlendMode::Normal,
        filters: ItemRange { start: 0, length: 0 },
    }
}

fn push_sc(sc: StackingContext, r: Rect, scroll: ClipId) -> DisplayItem {
    item(
        SpecificDisplayItem::PushStackingContext(PushStackingContextDisplayItem {
            stacking_context: sc,
        }),
        r,
        scroll,
    )
}

fn pop_sc(scroll: ClipId) -> DisplayItem {
    item(SpecificDisplayItem::PopStackingContext, rect(0, 0, 0, 0), scroll)
}

fn red_rect(r: Rect, scroll: ClipId) -> DisplayItem {
    item(
        SpecificDisplayItem::Rectangle(RectangleDisplayItem {
            color: Color { r: 255, g: 0, b: 0, a: 100 },
        }),
        r,
        scroll,
    )
}

fn pipeline(id: PipelineId, epoch: u32, items: Vec<DisplayItem>) -> ScenePipeline {
    ScenePipeline {
        pipeline_id: id,
        epoch: Epoch(epoch),
        viewport_size: Size { w: 200, h: 200 },
        content_size: Size { w: 1000, h: 1000 },
        background_color: None,
        display_list: DisplayList { items, ..empty_list() },
    }
}

fn scene(root: PipelineId, pipelines: Vec<ScenePipeline>) -> Scene {
    Scene {
        root_pipeline_id: Some(root),
        pipelines,
        properties: SceneProperties { transforms: Vec::new(), opacities: Vec::new() },
    }
}

fn resources() -> ResourceCache {
    ResourceCache { fonts: Vec::new(), tiled_images: Vec::new() }
}

fn config() -> FrameBuilderConfig {
    FrameBuilderConfig { enable_scrollbars: false }
}

fn create(frame: &mut Frame, sc: &Scene) {
    frame.create(sc, &resources(), Size { w: 200, h: 200 }, rect(0, 0, 200, 200), 1000);
}

fn prims_of(frame: &Frame) -> Vec<Primitive> {
    frame.frame_builder.as_ref().unwrap().prims.clone()
}

#[test]
fn frame_id_advances_by_exactly_one_per_reset() {
    let mut frame = Frame::new(config());
    assert_eq!(frame.id.0, 0);
    frame.reset();
    assert_eq!(frame.id.0, 1);
    frame.reset();
    assert_eq!(frame.id.0, 2);
    let p = pid(1);
    let sc = scene(p, vec![pipeline(p, 1, Vec::new())]);
    create(&mut frame, &sc);
    assert_eq!(frame.id.0, 3);
    create(&mut frame, &sc);
    assert_eq!(frame.id.0, 4);
}

#[test]
fn create_without_a_root_pipeline_is_a_benign_no_op() {
    let mut frame = Frame::new(config());
    let sc = Scene {
        root_pipeline_id: None,
        pipelines: Vec::new(),
        properties: SceneProperties { transforms: Vec::new(), opacities: Vec::new() },
    };
    create(&mut frame, &sc);
    assert_eq!(frame.id.0, 0);
    assert!(frame.frame_builder.is_none());

    // A named root whose record is missing is skipped the same way.
    let sc2 = scene(pid(1), Vec::new());
    create(&mut frame, &sc2);
    assert_eq!(frame.id.0, 0);
    assert!(frame.frame_builder.is_none());
}

#[test]
fn fixed_position_content_resolves_to_the_transformed_ancestor() {
    // A fixed-position element inside a transformed ancestor resolves to
    // that ancestor's reference frame; the same element at top level keeps
    // its nominal ambient scroll node.
    let p = pid(1);
    let root_scroll = ClipId::Clip(0, p);
    let transformed = StackingContext {
        transform: Some(TransformBinding::Value(Transform { token: 7 })),
        ..plain_stacking_context()
    };
    let fixed = StackingContext { scroll_policy: ScrollPolicy::Fixed, ..plain_stacking_context() };
    let items = vec![
        push_sc(transformed, rect(10, 20, 100, 100), root_scroll),
        push_sc(fixed, rect(0, 0, 50, 50), root_scroll),
        red_rect(rect(1, 2, 3, 4), root_scroll),
        pop_sc(root_scroll),
        pop_sc(root_scroll),
        red_rect(rect(7, 8, 3, 4), root_scroll),
    ];
    let sc = scene(p, vec![pipeline(p, 1, items)]);
    let mut frame = Frame::new(config());
    create(&mut frame, &sc);
    let prims = prims_of(&frame);
    assert_eq!(prims.len(), 2);
    // push_root created the root reference frame (index 0); the transformed
    // stacking context's reference frame got index 1.
    assert_eq!(prims[0].clip_and_scroll.scroll_node_id, ClipId::DynamicallyAddedNode(1, p));
    assert_eq!(prims[1].clip_and_scroll.scroll_node_id, root_scroll);
}

#[test]
fn reference_frame_resets_the_accumulated_offset() {
    // Inside a transformed stacking context the accumulated offset is zero;
    // without a transform the context's origin is accumulated.
    let p = pid(1);
    let root_scroll = ClipId::Clip(0, p);
    let transformed = StackingContext {
        transform: Some(TransformBinding::Value(Transform { token: 7 })),
        ..plain_stacking_context()
    };
    let items = vec![
        push_sc(transformed, rect(10, 20, 100, 100), root_scroll),
        red_rect(rect(1, 2, 3, 4), root_scroll),
        pop_sc(root_scroll),
        push_sc(plain_stacking_context(), rect(10, 20, 100, 100), root_scroll),
        red_rect(rect(1, 2, 3, 4), root_scroll),
        pop_sc(root_scroll),
    ];
    let sc = scene(p, vec![pipeline(p, 1, items)]);
    let mut frame = Frame::new(config());
    create(&mut frame, &sc);
    let prims = prims_of(&frame);
    assert_eq!(prims.len(), 2);
    assert_eq!(prims[0].info.rect, rect(1, 2, 3, 4));
    assert_eq!(prims[1].info.rect, rect(11, 22, 3, 4));

    let offset = Vector { x: 100, y: 200 };
    let origin = Vector { x: 10, y: 20 };
    assert_eq!(stacking_context_child_offset(offset, origin, true), Vector { x: 0, y: 0 });
    assert_eq!(stacking_context_child_offset(offset, origin, false), Vector { x: 110, y: 220 });
}

#[test]
fn opaque_rounded_rectangle_splits_into_inner_and_edges() {
    let mut builder = FrameBuilder::new(None, Size { w: 100, h: 100 }, None, config());
    let radii = Size { w: 10, h: 10 };
    let region = ComplexClipRegion {
        rect: rect(0, 0, 100, 100),
        radii: BorderRadius {
            top_left: radii,
            top_right: radii,
            bottom_left: radii,
            bottom_right: radii,
        },
    };
    let info = PrimitiveInfo {
        rect: rect(0, 0, 100, 100),
        local_clip: LocalClip::RoundedRect(rect(0, 0, 100, 100), region),
        is_backface_visible: true,
        tag: None,
    };
    let opaque = Color { r: 0, g: 0, b: 255, a: 255 };
    let cs = ClipAndScrollInfo::simple(ClipId::Clip(0, pid(1)));
    assert!(try_to_add_rectangle_splitting_on_clip(&mut builder, &info, &opaque, &cs));
    assert_eq!(builder.prims.len(), 5);
    // The inner rectangle is unmasked: it carries only the clip rectangle.
    assert_eq!(builder.prims[0].info.rect, rect(10, 10, 80, 80));
    assert!(matches!(builder.prims[0].info.local_clip, LocalClip::Rect(_)));
    // The edge pieces keep the rounded mask and tile the remainder exactly.
    let mut area: i64 = 0;
    for prim in builder.prims.iter().skip(1) {
        assert!(matches!(prim.info.local_clip, LocalClip::RoundedRect(_, _)));
        area += prim.info.rect.size.w * prim.info.rect.size.h;
    }
    assert_eq!(area, 100 * 100 - 80 * 80);

    // A translucent fill is not split.
    let translucent = Color { r: 0, g: 0, b: 255, a: 254 };
    let before = builder.prims.len();
    assert!(!try_to_add_rectangle_splitting_on_clip(&mut builder, &info, &translucent, &cs));
    assert_eq!(builder.prims.len(), before);
}

fn scroll_frame_scene(p: PipelineId) -> Scene {
    let root_scroll = ClipId::Clip(0, p);
    let mut sf = item(
        SpecificDisplayItem::ScrollFrame(ScrollFrameDisplayItem {
            id: ClipId::Clip(5, p),
            scroll_sensitivity: ScrollSensitivity::ScriptAndInputEvents,
            complex_clips: ItemRange { start: 0, length: 0 },
            image_mask: None,
        }),
        rect(0, 0, 1000, 1000),
        root_scroll,
    );
    sf.local_clip = LocalClip::Rect(rect(0, 0, 200, 200));
    scene(p, vec![pipeline(p, 1, vec![sf])])
}

#[test]
fn scroll_offsets_survive_a_rebuild() {
    let p = pid(1);
    let sc = scroll_frame_scene(p);
    let mut frame = Frame::new(config());
    create(&mut frame, &sc);

    let moved = frame.scroll_node(
        Vector { x: 50, y: 60 },
        ClipId::Clip(5, p),
        ScrollClamping::ToContentBounds,
    );
    assert!(moved);

    // Rebuild with an unchanged node id set: the offset must be reproduced.
    create(&mut frame, &sc);
    let states = frame.get_scroll_node_state();
    let state = states.iter().find(|s| s.id == ClipId::Clip(5, p)).unwrap();
    assert_eq!(state.scroll_offset, Vector { x: -50, y: -60 });
}

#[test]
fn scroll_node_clamps_to_the_content_bounds() {
    let p = pid(1);
    let sc = scroll_frame_scene(p);
    let mut frame = Frame::new(config());
    create(&mut frame, &sc);
    frame.scroll_node(
        Vector { x: 5000, y: -5 },
        ClipId::Clip(5, p),
        ScrollClamping::ToContentBounds,
    );
    let states = frame.get_scroll_node_state();
    let state = states.iter().find(|s| s.id == ClipId::Clip(5, p)).unwrap();
    assert_eq!(state.scroll_offset, Vector { x: -800, y: 0 });

    frame.scroll_node(Vector { x: 5000, y: -5 }, ClipId::Clip(5, p), ScrollClamping::NoClamping);
    let states = frame.get_scroll_node_state();
    let state = states.iter().find(|s| s.id == ClipId::Clip(5, p)).unwrap();
    assert_eq!(state.scroll_offset, Vector { x: -5000, y: 5 });
}

#[test]
fn overscroll_bounces_back_after_the_gesture_ends() {
    let p = pid(1);
    let sc = scroll_frame_scene(p);
    let mut frame = Frame::new(config());
    create(&mut frame, &sc);

    // Mid-gesture moves are elastic; the topmost (root viewport) node takes
    // the event.
    assert!(frame.scroll(
        ScrollLocation::Delta(Vector { x: -900, y: 0 }),
        Vector { x: 100, y: 100 },
        ScrollEventPhase::Move,
    ));
    assert!(frame.scroll(
        ScrollLocation::Delta(Vector { x: 0, y: 0 }),
        Vector { x: 100, y: 100 },
        ScrollEventPhase::End,
    ));

    let out = frame.build(Vector { x: 0, y: 0 }, 1000);
    assert_eq!(out.nodes_bouncing_back, vec![ClipId::Clip(0, p)]);

    frame.tick_scrolling_bounce_animations();
    let out = frame.build(Vector { x: 0, y: 0 }, 1000);
    assert!(out.nodes_bouncing_back.is_empty());
    let states = frame.get_scroll_node_state();
    let state = states.iter().find(|s| s.id == ClipId::Clip(0, p)).unwrap();
    assert_eq!(state.scroll_offset, Vector { x: -800, y: 0 });
}

#[test]
fn iframes_record_the_child_pipeline_epoch() {
    let p1 = pid(1);
    let p2 = pid(2);
    let p3 = pid(3);
    let root_scroll = ClipId::Clip(0, p1);
    let items = vec![
        item(
            SpecificDisplayItem::Iframe(IframeDisplayItem { pipeline_id: p2 }),
            rect(5, 5, 50, 50),
            root_scroll,
        ),
        // An iframe whose pipeline record is missing is skipped silently.
        item(
            SpecificDisplayItem::Iframe(IframeDisplayItem { pipeline_id: p3 }),
            rect(60, 5, 50, 50),
            root_scroll,
        ),
    ];
    let mut child = pipeline(p2, 9, vec![red_rect(rect(0, 0, 10, 10), ClipId::Clip(0, p2))]);
    child.background_color = Some(Color { r: 1, g: 2, b: 3, a: 255 });
    let sc = scene(p1, vec![pipeline(p1, 3, items), child]);
    let mut frame = Frame::new(config());
    create(&mut frame, &sc);

    assert_eq!(frame.pipeline_epoch_map.get(p1), Some(Epoch(3)));
    assert_eq!(frame.pipeline_epoch_map.get(p2), Some(Epoch(9)));
    assert_eq!(frame.pipeline_epoch_map.get(p3), None);

    // The embedded pipeline paints its background; the root does not.
    let prims = prims_of(&frame);
    assert_eq!(prims.len(), 2);
    assert!(matches!(
        prims[0].detail,
        PrimitiveDetail::Rectangle { color: Color { r: 1, g: 2, b: 3, a: 255 }, .. }
    ));
    // The output record carries the same epochs.
    let out = frame.build(Vector { x: 0, y: 0 }, 1000);
    assert_eq!(out.pipeline_epoch_map.get(p2), Some(Epoch(9)));
    assert!(out.frame.is_some());
}

#[test]
fn text_with_an_unknown_font_instance_is_dropped() {
    let p = pid(1);
    let root_scroll = ClipId::Clip(0, p);
    let text = |key: u64| {
        item(
            SpecificDisplayItem::Text(TextDisplayItem {
                font_key: FontInstanceKey(key),
                color: Color { r: 0, g: 0, b: 0, a: 255 },
                glyphs: ItemRange { start: 0, length: 0 },
                glyph_options: None,
            }),
            rect(0, 0, 10, 10),
            root_scroll,
        )
    };
    let sc = scene(p, vec![pipeline(p, 1, vec![text(7), text(8)])]);
    let mut frame = Frame::new(config());
    let mut resources = resources();
    resources.fonts.push(FontInstanceKey(8));
    frame.create(&sc, &resources, Size { w: 200, h: 200 }, rect(0, 0, 200, 200), 1000);
    let prims = prims_of(&frame);
    assert_eq!(prims.len(), 1);
    assert!(matches!(
        prims[0].detail,
        PrimitiveDetail::Text { font_key: FontInstanceKey(8), .. }
    ));
}

#[test]
fn hit_test_returns_tagged_primitives_under_the_point() {
    let p = pid(1);
    let root_scroll = ClipId::Clip(0, p);
    let all = HitTestFlags { find_all: true };
    let mut frame = Frame::new(config());
    assert!(frame.hit_test(None, Vector { x: 5, y: 5 }, all).is_empty());

    let mut tagged = red_rect(rect(0, 0, 10, 10), root_scroll);
    tagged.tag = Some(ItemTag { key: 42, kind: 7 });
    let sc = scene(p, vec![pipeline(p, 1, vec![tagged])]);
    create(&mut frame, &sc);

    let hits = frame.hit_test(None, Vector { x: 5, y: 5 }, all);
    assert_eq!(hits.len(), 1);
    assert_eq!(hits[0].tag, ItemTag { key: 42, kind: 7 });
    assert_eq!(hits[0].pipeline, p);
    assert!(frame.hit_test(None, Vector { x: 50, y: 50 }, all).is_empty());
    assert!(frame.hit_test(Some(pid(9)), Vector { x: 5, y: 5 }, all).is_empty());
}

#[test]
fn hit_test_without_find_all_returns_only_the_front_most_hit() {
    let p = pid(1);
    let root_scroll = ClipId::Clip(0, p);
    let mut back = red_rect(rect(0, 0, 10, 10), root_scroll);
    back.tag = Some(ItemTag { key: 1, kind: 0 });
    let mut front = red_rect(rect(0, 0, 10, 10), root_scroll);
    front.tag = Some(ItemTag { key: 2, kind: 0 });
    let sc = scene(p, vec![pipeline(p, 1, vec![back, front])]);
    let mut frame = Frame::new(config());
    create(&mut frame, &sc);

    let all = frame.hit_test(None, Vector { x: 5, y: 5 }, HitTestFlags { find_all: true });
    assert_eq!(all.len(), 2);
    assert_eq!(all[0].tag, ItemTag { key: 2, kind: 0 });
    assert_eq!(all[1].tag, ItemTag { key: 1, kind: 0 });

    let first = frame.hit_test(None, Vector { x: 5, y: 5 }, HitTestFlags { find_all: false });
    assert_eq!(first.len(), 1);
    assert_eq!(first[0].tag, ItemTag { key: 2, kind: 0 });
}

#[test]
fn noop_opacity_filters_are_dropped_when_compositing() {
    let list = DisplayList {
        filters: vec![
            FilterOp::Opacity(OpacityBinding::Value(1000)),
            FilterOp::Grayscale(500),
            FilterOp::Opacity(OpacityBinding::Binding(3)),
            FilterOp::Opacity(OpacityBinding::Value(900)),
        ],
        ..empty_list()
    };
    let properties = SceneProperties { transforms: Vec::new(), opacities: vec![(3, 1000)] };
    let ops = filter_ops_for_compositing(&list, ItemRange { start: 0, length: 4 }, &properties);
    assert_eq!(ops, vec![ResolvedFilterOp::Grayscale(500), ResolvedFilterOp::Opacity(900)]);
}

#[test]
fn enabled_scrollbars_add_a_scrollbar_primitive() {
    let p = pid(1);
    let sc = scene(p, vec![pipeline(p, 1, Vec::new())]);
    let mut frame = Frame::new(FrameBuilderConfig { enable_scrollbars: true });
    create(&mut frame, &sc);
    let prims = prims_of(&frame);
    assert_eq!(prims.len(), 1);
    assert!(matches!(
        prims[0].detail,
        PrimitiveDetail::Rectangle { flags: PrimitiveFlags::Scrollbar(_, 4), .. }
    ));
}

#[test]
fn create_builds_for_the_window_and_background_it_was_given() {
    let p = pid(1);
    let mut with_bg = pipeline(p, 1, Vec::new());
    with_bg.background_color = Some(Color { r: 9, g: 9, b: 9, a: 200 });
    let sc = scene(p, vec![with_bg]);
    let mut frame = Frame::new(config());
    frame.create(&sc, &resources(), Size { w: 640, h: 480 }, rect(2, 3, 636, 474), 1500);
    let b = frame.frame_builder.as_ref().unwrap();
    assert_eq!(b.window_size, Size { w: 640, h: 480 });
    assert_eq!(b.inner_rect, rect(2, 3, 636, 474));
    assert_eq!(b.device_pixel_ratio, 1500);
    assert_eq!(b.background_color, Some(Color { r: 9, g: 9, b: 9, a: 200 }));

    // A fully transparent background counts as no background.
    let mut clear_bg = pipeline(p, 1, Vec::new());
    clear_bg.background_color = Some(Color { r: 9, g: 9, b: 9, a: 0 });
    let sc = scene(p, vec![clear_bg]);
    create(&mut frame, &sc);
    assert_eq!(frame.frame_builder.as_ref().unwrap().background_color, None);

    // The rebuilt tree starts with the root reference frame and the root
    // scroll node sized by the viewport and content.
    let nodes = &frame.clip_scroll_tree.nodes;
    assert!(nodes.len() >= 2);
    assert_eq!(nodes[1].id, ClipId::Clip(0, p));
}

#[test]
fn empty_stacking_contexts_are_skipped_without_effect() {
    let p = pid(1);
    let root_scroll = ClipId::Clip(0, p);
    let items = vec![
        push_sc(plain_stacking_context(), rect(10, 20, 100, 100), root_scroll),
        pop_sc(root_scroll),
        red_rect(rect(1, 2, 3, 4), root_scroll),
    ];
    let sc = scene(p, vec![pipeline(p, 1, items)]);
    let mut frame = Frame::new(config());
    create(&mut frame, &sc);
    let prims = prims_of(&frame);
    assert_eq!(prims.len(), 1);
    assert_eq!(prims[0].info.rect, rect(1, 2, 3, 4));
}

#[test]
fn line_items_are_emitted_with_a_zeroed_rectangle() {
    let p = pid(1);
    let root_scroll = ClipId::Clip(0, p);
    let line = item(
        SpecificDisplayItem::Line(LineDisplayItem {
            baseline: 12,
            start: 0,
            end: 80,
            orientation: LineOrientation::Horizontal,
            width: 2,
            color: Color { r: 0, g: 0, b: 0, a: 255 },
            style: LineStyle::Solid,
        }),
        rect(5, 5, 80, 10),
        root_scroll,
    );
    let sc = scene(p, vec![pipeline(p, 1, vec![line])]);
    let mut frame = Frame::new(config());
    create(&mut frame, &sc);
    let prims = prims_of(&frame);
    assert_eq!(prims.len(), 1);
    assert_eq!(prims[0].info.rect, rect(0, 0, 0, 0));
    assert!(matches!(prims[0].detail, PrimitiveDetail::Line { baseline: 12, .. }));
}

#[test]
fn shadows_are_stacked_and_popped_together() {
    let p = pid(1);
    let root_scroll = ClipId::Clip(0, p);
    let shadow = |dx: i64| {
        item(
            SpecificDisplayItem::PushShadow(Shadow {
                offset: Vector { x: dx, y: 0 },
                color: Color { r: 0, g: 0, b: 0, a: 128 },
                blur_radius: 3,
            }),
            rect(0, 0, 0, 0),
            root_scroll,
        )
    };
    let items = vec![
        shadow(1),
        shadow(2),
        item(SpecificDisplayItem::PopAllShadows, rect(0, 0, 0, 0), root_scroll),
    ];
    let sc = scene(p, vec![pipeline(p, 1, items)]);
    let mut frame = Frame::new(config());
    create(&mut frame, &sc);
    assert!(frame.frame_builder.as_ref().unwrap().shadow_stack.is_empty());
    assert!(prims_of(&frame).is_empty());
}

#[test]
fn clip_and_sticky_items_register_their_nodes() {
    let p = pid(1);
    let root_scroll = ClipId::Clip(0, p);
    let clip_item = item(
        SpecificDisplayItem::Clip(ClipDisplayItem {
            id: ClipId::Clip(7, p),
            complex_clips: ItemRange { start: 0, length: 0 },
            image_mask: None,
        }),
        rect(0, 0, 50, 50),
        root_scroll,
    );
    let sticky_item = item(
        SpecificDisplayItem::StickyFrame(StickyFrameDisplayItem {
            id: ClipId::Clip(8, p),
            sticky_frame_info: StickyFrameInfo {
                margins: SideOffsets { top: 1, right: 2, bottom: 3, left: 4 },
            },
        }),
        rect(5, 6, 50, 50),
        root_scroll,
    );
    let sc = scene(p, vec![pipeline(p, 1, vec![clip_item, sticky_item])]);
    let mut frame = Frame::new(config());
    create(&mut frame, &sc);

    let clip_node = frame.clip_scroll_tree.nodes.iter().find(|n| n.id == ClipId::Clip(7, p));
    assert!(matches!(clip_node.unwrap().node_type, NodeType::Clip(_)));
    assert_eq!(clip_node.unwrap().parent, Some(root_scroll));
    let sticky_node = frame.clip_scroll_tree.nodes.iter().find(|n| n.id == ClipId::Clip(8, p));
    match &sticky_node.unwrap().node_type {
        NodeType::StickyFrame(info) => {
            assert_eq!(info.frame_rect, rect(5, 6, 50, 50));
            assert_eq!(info.sticky_frame_info.margins.left, 4);
        },
        _ => panic!(),
    }
}

#[test]
fn discarded_pipelines_lose_their_scroll_state_across_rebuilds() {
    let p = pid(1);
    let sc = scroll_frame_scene(p);
    let mut frame = Frame::new(config());
    create(&mut frame, &sc);
    frame.scroll_node(
        Vector { x: 50, y: 60 },
        ClipId::Clip(5, p),
        ScrollClamping::ToContentBounds,
    );
    frame.discard_frame_state_for_pipeline(p);
    create(&mut frame, &sc);
    let states = frame.get_scroll_node_state();
    let state = states.iter().find(|s| s.id == ClipId::Clip(5, p)).unwrap();
    assert_eq!(state.scroll_offset, Vector { x: 0, y: 0 });
}
