//! The declarative input vocabulary: pipeline and node identifiers, colors,
//! clip shapes, and the display items a client's display list is made of.

use vstd::prelude::*;
use crate::geom::{Rect, Size, Vector, rect_contains};

verus! {

/// Identifies one embeddable document. A pipeline tree is formed by iframe
/// display items referencing a child pipeline.
#[derive(Clone, Copy, PartialEq, Eq, Structural, Debug)]
pub struct PipelineId {
    pub namespace: u32,
    pub id: u32,
}

/// A pipeline's content version; bumped by the client on every new display
/// list for that pipeline.
#[derive(Clone, Copy, PartialEq, Eq, Structural, Debug)]
pub struct Epoch(pub u32);

/// Identifies a clip node or a scroll node, scoped to a pipeline. Client
/// display items carry `Clip` identifiers; nodes the engine itself creates
/// get `DynamicallyAddedNode` identifiers, so the two can never collide.
#[derive(Clone, Copy, PartialEq, Eq, Structural, Debug)]
pub enum ClipId {
    Clip(u64, PipelineId),
    DynamicallyAddedNode(u64, PipelineId),
}

impl ClipId {
    /// The well-known root scroll node of a pipeline.
    pub fn root_scroll_node(pipeline_id: PipelineId) -> (id: ClipId)
        ensures
            id == ClipId::Clip(0u64, pipeline_id),
    {
        ClipId::Clip(0, pipeline_id)
    }

    pub open spec fn spec_pipeline_id(self) -> PipelineId {
        match self {
            ClipId::Clip(_, p) => p,
            ClipId::DynamicallyAddedNode(_, p) => p,
        }
    }

    pub fn pipeline_id(&self) -> (p: PipelineId)
        ensures
            p == self.spec_pipeline_id(),
    {
        match *self {
            ClipId::Clip(_, p) => p,
            ClipId::DynamicallyAddedNode(_, p) => p,
        }
    }
}

/// The pair attached to every emitted primitive: which node clips it and
/// which node scrolls/positions it.
#[derive(Clone, Copy, PartialEq, Eq, Structural, Debug)]
pub struct ClipAndScrollInfo {
    pub scroll_node_id: ClipId,
    pub clip_node_id: Option<ClipId>,
}

impl ClipAndScrollInfo {
    /// Both roles filled by the same node.
    pub fn simple(id: ClipId) -> (info: ClipAndScrollInfo)
        ensures
            info == (ClipAndScrollInfo { scroll_node_id: id, clip_node_id: None }),
    {
        ClipAndScrollInfo { scroll_node_id: id, clip_node_id: None }
    }
}

/// An RGBA color with 8-bit channels. Alpha 255 is fully opaque; alpha 0 is
/// fully transparent.
#[derive(Clone, Copy, PartialEq, Eq, Structural, Debug)]
pub struct Color {
    pub r: u8,
    pub g: u8,
    pub b: u8,
    pub a: u8,
}

impl Color {
    pub open spec fn spec_is_opaque(self) -> bool {
        self.a == 255
    }

    pub fn is_opaque(&self) -> (b: bool)
        ensures
            b == self.spec_is_opaque(),
    {
        self.a == 255
    }
}

/// Corner radii of a rounded rectangle, one extent per corner.
#[derive(Clone, Copy, PartialEq, Eq, Structural, Debug)]
pub struct BorderRadius {
    pub top_left: Size,
    pub top_right: Size,
    pub bottom_left: Size,
    pub bottom_right: Size,
}

/// A rounded-rectangle clip shape.
#[derive(Clone, Copy, PartialEq, Eq, Structural, Debug)]
pub struct ComplexClipRegion {
    pub rect: Rect,
    pub radii: BorderRadius,
}

/// Whether (x, y) lies in the region covered by a rounded rectangle. A point
/// inside one of the four corner boxes must additionally lie inside that
/// corner's quarter ellipse.
pub open spec fn rounded_contains(region: ComplexClipRegion, x: int, y: int) -> bool {
    let r = region.rect;
    let x1 = r.origin.x + r.size.w;
    let y1 = r.origin.y + r.size.h;
    &&& rect_contains(r, x, y)
    &&& ((x < r.origin.x + region.radii.top_left.w && y < r.origin.y + region.radii.top_left.h)
        ==> in_corner_curve(
        r.origin.x + region.radii.top_left.w,
        r.origin.y + region.radii.top_left.h,
        region.radii.top_left,
        x,
        y,
    ))
    &&& ((x >= x1 - region.radii.top_right.w && y < r.origin.y + region.radii.top_right.h)
        ==> in_corner_curve(
        x1 - region.radii.top_right.w,
        r.origin.y + region.radii.top_right.h,
        region.radii.top_right,
        x,
        y,
    ))
    &&& ((x < r.origin.x + region.radii.bottom_left.w && y >= y1 - region.radii.bottom_left.h)
        ==> in_corner_curve(
        r.origin.x + region.radii.bottom_left.w,
        y1 - region.radii.bottom_left.h,
        region.radii.bottom_left,
        x,
        y,
    ))
    &&& ((x >= x1 - region.radii.bottom_right.w && y >= y1 - region.radii.bottom_right.h)
        ==> in_corner_curve(
        x1 - region.radii.bottom_right.w,
        y1 - region.radii.bottom_right.h,
        region.radii.bottom_right,
        x,
        y,
    ))
}

/// Whether (x, y) lies inside the ellipse with center (cx, cy) and radii
/// `radius`, i.e. inside the curved part of a corner.
pub open spec fn in_corner_curve(cx: int, cy: int, radius: Size, x: int, y: int) -> bool {
    (x - cx) * (x - cx) * radius.h * radius.h + (y - cy) * (y - cy) * radius.w * radius.w
        <= radius.w * radius.w * radius.h * radius.h
}

/// The largest axis-aligned rectangle inside `region` untouched by any
/// rounded corner: the region's rectangle inset on each side by the largest
/// corner extent on that side (`None` when the insets leave nothing).
pub open spec fn spec_inner_rect(region: ComplexClipRegion) -> Option<Rect> {
    let left = max64(region.radii.top_left.w, region.radii.bottom_left.w);
    let top = max64(region.radii.top_left.h, region.radii.top_right.h);
    let right = max64(region.radii.top_right.w, region.radii.bottom_right.w);
    let bottom = max64(region.radii.bottom_left.h, region.radii.bottom_right.h);
    let w = region.rect.size.w - left - right;
    let h = region.rect.size.h - top - bottom;
    if w > 0 && h > 0 {
        Some(
            Rect {
                origin: Vector {
                    x: (region.rect.origin.x + left) as i64,
                    y: (region.rect.origin.y + top) as i64,
                },
                size: Size { w: w as i64, h: h as i64 },
            },
        )
    } else {
        None
    }
}

pub open spec fn max64(a: i64, b: i64) -> int {
    if a >= b {
        a as int
    } else {
        b as int
    }
}

impl ComplexClipRegion {
    pub fn get_inner_rect_full(&self) -> (r: Option<Rect>)
        requires
            crate::geom::rect_bounded(self.rect),
            radii_bounded(self.radii),
        ensures
            r == spec_inner_rect(*self),
    {
        let left = if self.radii.top_left.w >= self.radii.bottom_left.w {
            self.radii.top_left.w
        } else {
            self.radii.bottom_left.w
        };
        let top = if self.radii.top_left.h >= self.radii.top_right.h {
            self.radii.top_left.h
        } else {
            self.radii.top_right.h
        };
        let right = if self.radii.top_right.w >= self.radii.bottom_right.w {
            self.radii.top_right.w
        } else {
            self.radii.bottom_right.w
        };
        let bottom = if self.radii.bottom_left.h >= self.radii.bottom_right.h {
            self.radii.bottom_left.h
        } else {
            self.radii.bottom_right.h
        };
        let w = self.rect.size.w - left - right;
        let h = self.rect.size.h - top - bottom;
        if w > 0 && h > 0 {
            Some(
                Rect {
                    origin: Vector { x: self.rect.origin.x + left, y: self.rect.origin.y + top },
                    size: Size { w, h },
                },
            )
        } else {
            None
        }
    }
}

impl BorderRadius {
    /// Whether all radii are non-negative and within `COORD_LIMIT`.
    pub fn is_bounded(&self) -> (b: bool)
        ensures
            b == radii_bounded(*self),
    {
        0 <= self.top_left.w && self.top_left.w <= crate::geom::COORD_LIMIT && 0
            <= self.top_left.h && self.top_left.h <= crate::geom::COORD_LIMIT && 0
            <= self.top_right.w && self.top_right.w <= crate::geom::COORD_LIMIT && 0
            <= self.top_right.h && self.top_right.h <= crate::geom::COORD_LIMIT && 0
            <= self.bottom_left.w && self.bottom_left.w <= crate::geom::COORD_LIMIT && 0
            <= self.bottom_left.h && self.bottom_left.h <= crate::geom::COORD_LIMIT && 0
            <= self.bottom_right.w && self.bottom_right.w <= crate::geom::COORD_LIMIT && 0
            <= self.bottom_right.h && self.bottom_right.h <= crate::geom::COORD_LIMIT
    }
}

/// Corner radii small enough that inset arithmetic cannot overflow.
pub open spec fn radii_bounded(radii: BorderRadius) -> bool {
    &&& 0 <= radii.top_left.w <= crate::geom::COORD_LIMIT
    &&& 0 <= radii.top_left.h <= crate::geom::COORD_LIMIT
    &&& 0 <= radii.top_right.w <= crate::geom::COORD_LIMIT
    &&& 0 <= radii.top_right.h <= crate::geom::COORD_LIMIT
    &&& 0 <= radii.bottom_left.w <= crate::geom::COORD_LIMIT
    &&& 0 <= radii.bottom_left.h <= crate::geom::COORD_LIMIT
    &&& 0 <= radii.bottom_right.w <= crate::geom::COORD_LIMIT
    &&& 0 <= radii.bottom_right.h <= crate::geom::COORD_LIMIT
}

/// The clip carried by a display item itself: a plain rectangle bound, or a
/// rectangle bound with a rounded-rectangle mask.
#[derive(Clone, Copy, PartialEq, Eq, Structural, Debug)]
pub enum LocalClip {
    Rect(Rect),
    RoundedRect(Rect, ComplexClipRegion),
}

impl LocalClip {
    pub open spec fn spec_clip_rect(self) -> Rect {
        match self {
            LocalClip::Rect(r) => r,
            LocalClip::RoundedRect(r, _) => r,
        }
    }

    pub fn clip_rect(&self) -> (r: Rect)
        ensures
            r == self.spec_clip_rect(),
    {
        match *self {
            LocalClip::Rect(r) => r,
            LocalClip::RoundedRect(r, _) => r,
        }
    }
}

/// The points a local clip lets through.
pub open spec fn local_clip_contains(clip: LocalClip, x: int, y: int) -> bool {
    match clip {
        LocalClip::Rect(r) => rect_contains(r, x, y),
        LocalClip::RoundedRect(r, region) => rect_contains(r, x, y) && rounded_contains(
            region,
            x,
            y,
        ),
    }
}

/// A range into one of a display list's auxiliary arrays (complex clips,
/// filters, glyphs, gradient stops).
#[derive(Clone, Copy, PartialEq, Eq, Structural, Debug)]
pub struct ItemRange {
    pub start: usize,
    pub length: usize,
}

impl ItemRange {
    pub fn empty() -> (r: ItemRange)
        ensures
            r == (ItemRange { start: 0usize, length: 0usize }),
    {
        ItemRange { start: 0, length: 0 }
    }

    pub fn is_empty(&self) -> (b: bool)
        ensures
            b == (self.length == 0),
    {
        self.length == 0
    }

    /// Whether the range fits inside an auxiliary array of length `len`.
    pub open spec fn valid_for(self, len: nat) -> bool {
        self.start + self.length <= len
    }
}

/// An opaque 3D transform matrix value. The engine never inspects a matrix;
/// it only threads matrices into the spatial tree, so a matrix is carried as
/// an opaque token. Token 0 is the identity matrix.
#[derive(Clone, Copy, PartialEq, Eq, Structural, Debug)]
pub struct Transform {
    pub token: u64,
}

impl Transform {
    pub fn identity() -> (t: Transform)
        ensures
            t == (Transform { token: 0u64 }),
    {
        Transform { token: 0 }
    }
}

/// A transform given either directly or as a key into the scene's animated
/// property bindings.
#[derive(Clone, Copy, PartialEq, Eq, Structural, Debug)]
pub enum TransformBinding {
    Value(Transform),
    Binding(u64),
}

/// An opacity (in units of 1/1000) given either directly or as a key into
/// the scene's animated property bindings.
#[derive(Clone, Copy, PartialEq, Eq, Structural, Debug)]
pub enum OpacityBinding {
    Value(u32),
    Binding(u64),
}

/// A composite filter attached to a stacking context. Amounts are in units
/// of 1/1000.
#[derive(Clone, Copy, PartialEq, Eq, Structural, Debug)]
pub enum FilterOp {
    Blur(i64),
    Brightness(u32),
    Contrast(u32),
    Grayscale(u32),
    HueRotate(i64),
    Invert(u32),
    Opacity(OpacityBinding),
    Saturate(u32),
    Sepia(u32),
}

/// A filter with every property binding resolved.
#[derive(Clone, Copy, PartialEq, Eq, Structural, Debug)]
pub enum ResolvedFilterOp {
    Blur(i64),
    Brightness(u32),
    Contrast(u32),
    Grayscale(u32),
    HueRotate(i64),
    Invert(u32),
    Opacity(u32),
    Saturate(u32),
    Sepia(u32),
}

impl ResolvedFilterOp {
    /// A filter that changes nothing (full opacity).
    pub open spec fn spec_is_noop(self) -> bool {
        self == ResolvedFilterOp::Opacity(1000u32)
    }

    pub fn is_noop(&self) -> (b: bool)
        ensures
            b == self.spec_is_noop(),
    {
        match *self {
            ResolvedFilterOp::Opacity(amount) => amount == 1000,
            _ => false,
        }
    }
}

#[derive(Clone, Copy, PartialEq, Eq, Structural, Debug)]
pub enum MixBlendMode {
    Normal,
    Multiply,
    Screen,
    Overlay,
    Difference,
}

#[derive(Clone, Copy, PartialEq, Eq, Structural, Debug)]
pub enum TransformStyle {
    Flat,
    Preserve3D,
}

/// Normal content scrolls with its ancestors; fixed content is pinned to the
/// nearest enclosing reference frame.
#[derive(Clone, Copy, PartialEq, Eq, Structural, Debug)]
pub enum ScrollPolicy {
    Scrollable,
    Fixed,
}

/// What may move a scroll frame.
#[derive(Clone, Copy, PartialEq, Eq, Structural, Debug)]
pub enum ScrollSensitivity {
    ScriptAndInputEvents,
    Script,
}

/// How a programmatic scroll treats the content bounds.
#[derive(Clone, Copy, PartialEq, Eq, Structural, Debug)]
pub enum ScrollClamping {
    ToContentBounds,
    NoClamping,
}

/// Where one scroll event asks to go: by a delta, or to the start or end of
/// the content.
#[derive(Clone, Copy, PartialEq, Eq, Structural, Debug)]
pub enum ScrollLocation {
    Delta(Vector),
    Start,
    End,
}

/// Which part of a scroll gesture an event is.
#[derive(Clone, Copy, PartialEq, Eq, Structural, Debug)]
pub enum ScrollEventPhase {
    Start,
    Move,
    End,
}

/// The grouping construct controlling composition and coordinate
/// accumulation for its subtree.
#[derive(Clone, Copy, PartialEq, Eq, Structural, Debug)]
pub struct StackingContext {
    pub scroll_policy: ScrollPolicy,
    pub transform: Option<TransformBinding>,
    pub transform_style: TransformStyle,
    pub perspective: Option<Transform>,
    pub mix_blend_mode: MixBlendMode,
    pub filters: ItemRange,
}

#[derive(Clone, Copy, PartialEq, Eq, Structural, Debug)]
pub struct ImageKey(pub u64);

#[derive(Clone, Copy, PartialEq, Eq, Structural, Debug)]
pub struct FontInstanceKey(pub u64);

#[derive(Clone, Copy, PartialEq, Eq, Structural, Debug)]
pub enum ImageRendering {
    Auto,
    CrispEdges,
    Pixelated,
}

#[derive(Clone, Copy, PartialEq, Eq, Structural, Debug)]
pub enum YuvColorSpace {
    Rec601,
    Rec709,
}

#[derive(Clone, Copy, PartialEq, Eq, Structural, Debug)]
pub enum LineOrientation {
    Vertical,
    Horizontal,
}

#[derive(Clone, Copy, PartialEq, Eq, Structural, Debug)]
pub enum LineStyle {
    Solid,
    Dotted,
    Dashed,
    Wavy,
}

#[derive(Clone, Copy, PartialEq, Eq, Structural, Debug)]
pub enum ExtendMode {
    Clamp,
    Repeat,
}

#[derive(Clone, Copy, PartialEq, Eq, Structural, Debug)]
pub enum BoxShadowClipMode {
    Outset,
    Inset,
}

/// One glyph of a text run, in an auxiliary array.
#[derive(Clone, Copy, PartialEq, Eq, Structural, Debug)]
pub struct GlyphInstance {
    pub index: u32,
    pub point: Vector,
}

/// One color stop of a gradient, in an auxiliary array. The offset is in
/// units of 1/1000 along the gradient line.
#[derive(Clone, Copy, PartialEq, Eq, Structural, Debug)]
pub struct GradientStop {
    pub offset: u32,
    pub color: Color,
}

/// Edge widths, clockwise from the top.
#[derive(Clone, Copy, PartialEq, Eq, Structural, Debug)]
pub struct SideOffsets {
    pub top: i64,
    pub right: i64,
    pub bottom: i64,
    pub left: i64,
}

/// An image-based clip mask.
#[derive(Clone, Copy, PartialEq, Eq, Structural, Debug)]
pub struct ImageMask {
    pub image: ImageKey,
    pub rect: Rect,
    pub repeat: bool,
}

/// Anchor metadata of a sticky frame; resolving the actual sticky offset is
/// the spatial tree's responsibility.
#[derive(Clone, Copy, PartialEq, Eq, Structural, Debug)]
pub struct StickyFrameInfo {
    pub margins: SideOffsets,
}

/// A drop shadow applied to subsequent items until popped.
#[derive(Clone, Copy, PartialEq, Eq, Structural, Debug)]
pub struct Shadow {
    pub offset: Vector,
    pub color: Color,
    pub blur_radius: i64,
}

#[derive(Clone, Copy, PartialEq, Eq, Structural, Debug)]
pub struct ImageDisplayItem {
    pub image_key: ImageKey,
    pub stretch_size: Size,
    pub tile_spacing: Size,
    pub image_rendering: ImageRendering,
}

#[derive(Clone, Copy, PartialEq, Eq, Structural, Debug)]
pub struct YuvImageDisplayItem {
    pub yuv_data: ImageKey,
    pub color_space: YuvColorSpace,
    pub image_rendering: ImageRendering,
}

#[derive(Clone, Copy, PartialEq, Eq, Structural, Debug)]
pub struct TextDisplayItem {
    pub font_key: FontInstanceKey,
    pub color: Color,
    pub glyphs: ItemRange,
    pub glyph_options: Option<u32>,
}

#[derive(Clone, Copy, PartialEq, Eq, Structural, Debug)]
pub struct RectangleDisplayItem {
    pub color: Color,
}

#[derive(Clone, Copy, PartialEq, Eq, Structural, Debug)]
pub struct LineDisplayItem {
    pub baseline: i64,
    pub start: i64,
    pub end: i64,
    pub orientation: LineOrientation,
    pub width: i64,
    pub color: Color,
    pub style: LineStyle,
}

#[derive(Clone, Copy, PartialEq, Eq, Structural, Debug)]
pub struct Gradient {
    pub start_point: Vector,
    pub end_point: Vector,
    pub extend_mode: ExtendMode,
}

#[derive(Clone, Copy, PartialEq, Eq, Structural, Debug)]
pub struct GradientDisplayItem {
    pub gradient: Gradient,
    pub tile_size: Size,
    pub tile_spacing: Size,
    pub stops: ItemRange,
}

#[derive(Clone, Copy, PartialEq, Eq, Structural, Debug)]
pub struct RadialGradient {
    pub start_center: Vector,
    pub start_radius: i64,
    pub end_center: Vector,
    pub end_radius: i64,
    pub ratio_xy: u32,
    pub extend_mode: ExtendMode,
}

#[derive(Clone, Copy, PartialEq, Eq, Structural, Debug)]
pub struct RadialGradientDisplayItem {
    pub gradient: RadialGradient,
    pub tile_size: Size,
    pub tile_spacing: Size,
    pub stops: ItemRange,
}

#[derive(Clone, Copy, PartialEq, Eq, Structural, Debug)]
pub struct BoxShadowDisplayItem {
    pub box_bounds: Rect,
    pub offset: Vector,
    pub color: Color,
    pub blur_radius: i64,
    pub spread_radius: i64,
    pub border_radius: i64,
    pub clip_mode: BoxShadowClipMode,
}

#[derive(Clone, Copy, PartialEq, Eq, Structural, Debug)]
pub struct BorderDisplayItem {
    pub widths: SideOffsets,
    pub gradient_stops: ItemRange,
}

#[derive(Clone, Copy, PartialEq, Eq, Structural, Debug)]
pub struct PushStackingContextDisplayItem {
    pub stacking_context: StackingContext,
}

#[derive(Clone, Copy, PartialEq, Eq, Structural, Debug)]
pub struct IframeDisplayItem {
    pub pipeline_id: PipelineId,
}

#[derive(Clone, Copy, PartialEq, Eq, Structural, Debug)]
pub struct ClipDisplayItem {
    pub id: ClipId,
    pub complex_clips: ItemRange,
    pub image_mask: Option<ImageMask>,
}

#[derive(Clone, Copy, PartialEq, Eq, Structural, Debug)]
pub struct ScrollFrameDisplayItem {
    pub id: ClipId,
    pub scroll_sensitivity: ScrollSensitivity,
    pub complex_clips: ItemRange,
    pub image_mask: Option<ImageMask>,
}

#[derive(Clone, Copy, PartialEq, Eq, Structural, Debug)]
pub struct StickyFrameDisplayItem {
    pub id: ClipId,
    pub sticky_frame_info: StickyFrameInfo,
}

/// The tagged variants a display item can take.
#[derive(Clone, Copy, PartialEq, Eq, Structural, Debug)]
pub enum SpecificDisplayItem {
    Image(ImageDisplayItem),
    YuvImage(YuvImageDisplayItem),
    Text(TextDisplayItem),
    Rectangle(RectangleDisplayItem),
    Line(LineDisplayItem),
    Gradient(GradientDisplayItem),
    RadialGradient(RadialGradientDisplayItem),
    BoxShadow(BoxShadowDisplayItem),
    Border(BorderDisplayItem),
    PushStackingContext(PushStackingContextDisplayItem),
    PopStackingContext,
    Iframe(IframeDisplayItem),
    Clip(ClipDisplayItem),
    ScrollFrame(ScrollFrameDisplayItem),
    StickyFrame(StickyFrameDisplayItem),
    PushShadow(Shadow),
    PopAllShadows,
    SetGradientStops,
}

/// Integer (column, row) of one physical tile of a tiled image.
#[derive(Clone, Copy, PartialEq, Eq, Structural, Debug)]
pub struct TileOffset {
    pub x: u32,
    pub y: u32,
}

impl TileOffset {
    pub fn new(x: u32, y: u32) -> (t: TileOffset)
        ensures
            t == (TileOffset { x, y }),
    {
        TileOffset { x, y }
    }
}

/// How a hit test behaves: find every hit, or only the front-most one.
#[derive(Clone, Copy, PartialEq, Eq, Structural, Debug)]
pub struct HitTestFlags {
    pub find_all: bool,
}

/// A client-chosen tag carried by hit-testable items and returned from hit
/// tests.
#[derive(Clone, Copy, PartialEq, Eq, Structural, Debug)]
pub struct ItemTag {
    pub key: u64,
    pub kind: u16,
}

/// One entry of a display list: the variant payload plus the geometry every
/// item carries.
#[derive(Clone, Copy, PartialEq, Eq, Structural, Debug)]
pub struct DisplayItem {
    pub item: SpecificDisplayItem,
    pub rect: Rect,
    pub local_clip: LocalClip,
    pub is_backface_visible: bool,
    pub tag: Option<ItemTag>,
    pub clip_and_scroll: ClipAndScrollInfo,
}

} // verus!
