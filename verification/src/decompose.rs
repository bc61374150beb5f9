//! Decomposition of repeated and internally tiled images into per-tile
//! primitives.
//!
//! An image item whose resource is split into texture-cache tiles cannot be
//! drawn as one primitive, because the shader cannot sample a sparse tile
//! set. Three stages, each deciding one axis of repetition independently:
//! vertical repetitions become rows, horizontal repetitions become segments
//! of a row, and each segment is cut along the image's physical tile grid.
//! An axis whose image extent fits in one tile is never tile-split; if it
//! still needs repeating to fill the stretched rectangle, that repetition is
//! left to the shader (one primitive with the shader-repeat flag instead of
//! many), which is what keeps long thin repeating images cheap.
//!
//! Degenerate sizes are made harmless rather than rejected: stretch sizes
//! and spacings are read as at least zero, a repetition stride of zero
//! yields no repetitions, and a tile whose rectangle does not meet the item
//! rectangle is dropped.

use vstd::prelude::*;
use crate::api::{ImageDisplayItem, TileOffset};
use crate::geom::{Rect, Size, Vector, clamp_i128, rect_bounded, rect_contains, sat64, sat_add, spec_intersection};
use crate::resource::TilingInfo;

verus! {

/// One tile primitive to be emitted: its clipped rectangle, the stretched
/// extent its tile spans (the difference of consecutive cell boundaries),
/// which physical tile, and whether repetition along each axis is left to
/// the shader.
#[derive(Clone, Copy, PartialEq, Eq, Structural, Debug)]
pub struct TilePrim {
    pub rect: Rect,
    pub stretched_size: Size,
    pub tile_offset: TileOffset,
    pub shader_repeat_x: bool,
    pub shader_repeat_y: bool,
}

/// A size read as at least zero: degenerate negative extents span nothing.
pub open spec fn max0(v: i64) -> int {
    if v > 0 {
        v as int
    } else {
        0
    }
}

/// The number of repetitions needed to cover extent `a` with stride `b`:
/// `ceil(a / b)`, and none when the extent or the stride is degenerate.
pub open spec fn spec_ceil_div(a: int, b: int) -> int {
    if a <= 0 || b <= 0 {
        0
    } else {
        (a - 1) / b + 1
    }
}

/// The layout-space boundary of grid cell `k` along one axis: the image
/// coordinate `min(k * tile_size, image_extent)` mapped into the stretched
/// extent (floored). Boundaries are monotone, start at zero and end exactly
/// at the stretched extent, and each cell spans the difference of
/// consecutive boundaries — so the cells tile the stretched extent with no
/// gaps and no overlaps for every stretch, not only when the divisions are
/// exact.
pub open spec fn spec_axis_edge(image_extent: u32, tile_size: u32, stretch: i64, k: int) -> int {
    if image_extent == 0 {
        0
    } else {
        let c = if k * tile_size < image_extent as int {
            k * tile_size
        } else {
            image_extent as int
        };
        c * max0(stretch) / (image_extent as int)
    }
}

/// Whether the stretched image must repeat to fill the item horizontally.
pub open spec fn spec_needs_repeat_x(item_rect: Rect, stretch_size: Size) -> bool {
    stretch_size.w < item_rect.size.w
}

pub open spec fn spec_needs_repeat_y(item_rect: Rect, stretch_size: Size) -> bool {
    stretch_size.h < item_rect.size.h
}

/// Whether the image is physically split along the horizontal axis.
pub open spec fn spec_tiled_in_x(tiling: TilingInfo) -> bool {
    tiling.image_width > tiling.tile_size
}

pub open spec fn spec_tiled_in_y(tiling: TilingInfo) -> bool {
    tiling.image_height > tiling.tile_size
}

/// Repetition along an axis is left to the shader exactly when the axis
/// needs repeating but is not tile-split.
pub open spec fn spec_shader_repeat_x(item_rect: Rect, stretch_size: Size, tiling: TilingInfo) -> bool {
    spec_needs_repeat_x(item_rect, stretch_size) && !spec_tiled_in_x(tiling)
}

pub open spec fn spec_shader_repeat_y(item_rect: Rect, stretch_size: Size, tiling: TilingInfo) -> bool {
    spec_needs_repeat_y(item_rect, stretch_size) && !spec_tiled_in_y(tiling)
}

/// Full tiles per row (the right-edge leftover tile excluded).
pub open spec fn spec_num_tiles_x(tiling: TilingInfo) -> int {
    tiling.image_width as int / tiling.tile_size as int
}

pub open spec fn spec_num_tiles_y(tiling: TilingInfo) -> int {
    tiling.image_height as int / tiling.tile_size as int
}

/// Width in image pixels of the partial right-edge tile (zero when the
/// image width is a multiple of the tile size).
pub open spec fn spec_leftover_w(tiling: TilingInfo) -> int {
    tiling.image_width as int % tiling.tile_size as int
}

pub open spec fn spec_leftover_h(tiling: TilingInfo) -> int {
    tiling.image_height as int % tiling.tile_size as int
}

/// Columns of the emitted grid: the full tiles plus the right-edge tile if
/// there is a leftover.
pub open spec fn spec_cols(tiling: TilingInfo) -> int {
    spec_num_tiles_x(tiling) + if spec_leftover_w(tiling) != 0 {
        1int
    } else {
        0int
    }
}

pub open spec fn spec_rows(tiling: TilingInfo) -> int {
    spec_num_tiles_y(tiling) + if spec_leftover_h(tiling) != 0 {
        1int
    } else {
        0int
    }
}

/// The primitive for grid cell (tx, ty), or `None` when its rectangle lies
/// outside the item rectangle. A cell spans from its boundary to the next
/// one; a shader-repeated axis spans the item's full extent instead.
pub open spec fn spec_tile_prim_at(
    item_rect: Rect,
    stretch_size: Size,
    tiling: TilingInfo,
    tx: int,
    ty: int,
) -> Option<TilePrim> {
    let srx = spec_shader_repeat_x(item_rect, stretch_size, tiling);
    let sry = spec_shader_repeat_y(item_rect, stretch_size, tiling);
    let x0 = spec_axis_edge(tiling.image_width, tiling.tile_size, stretch_size.w, tx);
    let x1 = spec_axis_edge(tiling.image_width, tiling.tile_size, stretch_size.w, tx + 1);
    let y0 = spec_axis_edge(tiling.image_height, tiling.tile_size, stretch_size.h, ty);
    let y1 = spec_axis_edge(tiling.image_height, tiling.tile_size, stretch_size.h, ty + 1);
    let px = sat64(item_rect.origin.x + x0);
    let py = sat64(item_rect.origin.y + y0);
    let w = if srx {
        item_rect.size.w as int
    } else {
        x1 - x0
    };
    let h = if sry {
        item_rect.size.h as int
    } else {
        y1 - y0
    };
    let candidate = Rect {
        origin: Vector { x: px as i64, y: py as i64 },
        size: Size { w: w as i64, h: h as i64 },
    };
    match spec_intersection(candidate, item_rect) {
        Some(clipped) => Some(
            TilePrim {
                rect: clipped,
                stretched_size: Size { w: (x1 - x0) as i64, h: (y1 - y0) as i64 },
                tile_offset: TileOffset { x: tx as u32, y: ty as u32 },
                shader_repeat_x: srx,
                shader_repeat_y: sry,
            },
        ),
        None => None,
    }
}

/// The cells of row `ty` from column `tx` on, in column order, visible
/// cells only.
pub open spec fn spec_tile_row_from(
    item_rect: Rect,
    stretch_size: Size,
    tiling: TilingInfo,
    ty: int,
    tx: int,
) -> Seq<TilePrim>
    decreases spec_cols(tiling) - tx,
{
    if tx < 0 || tx >= spec_cols(tiling) {
        Seq::empty()
    } else {
        let rest = spec_tile_row_from(item_rect, stretch_size, tiling, ty, tx + 1);
        match spec_tile_prim_at(item_rect, stretch_size, tiling, tx, ty) {
            Some(p) => seq![p] + rest,
            None => rest,
        }
    }
}

/// The grid's rows from `ty` on, in row-major order.
pub open spec fn spec_tile_rows_from(
    item_rect: Rect,
    stretch_size: Size,
    tiling: TilingInfo,
    ty: int,
) -> Seq<TilePrim>
    decreases spec_rows(tiling) - ty,
{
    if ty < 0 || ty >= spec_rows(tiling) {
        Seq::empty()
    } else {
        spec_tile_row_from(item_rect, stretch_size, tiling, ty, 0) + spec_tile_rows_from(
            item_rect,
            stretch_size,
            tiling,
            ty + 1,
        )
    }
}

/// The whole grid decomposition of one (row- and segment-restricted) item
/// rectangle.
pub open spec fn spec_decompose_tiled_image(
    item_rect: Rect,
    stretch_size: Size,
    tiling: TilingInfo,
) -> Seq<TilePrim> {
    spec_tile_rows_from(item_rect, stretch_size, tiling, 0)
}

/// Cut one (possibly row-restricted) rectangle along the image's physical
/// tile grid, emitting one primitive per visible tile in row-major order.
pub fn decompose_tiled_image(
    item_rect: Rect,
    info: &ImageDisplayItem,
    tiling: TilingInfo,
) -> (prims: Vec<TilePrim>)
    requires
        tiling.tile_size >= 1,
    ensures
        prims@ == spec_decompose_tiled_image(item_rect, info.stretch_size, tiling),
{
    let stretch_size = info.stretch_size;
    let num_tiles_x: u32 = tiling.image_width / tiling.tile_size;
    let num_tiles_y: u32 = tiling.image_height / tiling.tile_size;
    let leftover_w: u32 = tiling.image_width % tiling.tile_size;
    let leftover_h: u32 = tiling.image_height % tiling.tile_size;
    let cols: u64 = num_tiles_x as u64 + if leftover_w != 0 {
        1u64
    } else {
        0u64
    };
    let rows: u64 = num_tiles_y as u64 + if leftover_h != 0 {
        1u64
    } else {
        0u64
    };

    let mut prims: Vec<TilePrim> = Vec::new();
    let ghost total = spec_tile_rows_from(item_rect, stretch_size, tiling, 0);
    let mut ty: u64 = 0;
    proof {
        assert(prims@ + spec_tile_rows_from(item_rect, stretch_size, tiling, 0) =~= total);
    }
    while ty < rows
        invariant
            ty <= rows,
            stretch_size == info.stretch_size,
            rows == spec_rows(tiling),
            cols == spec_cols(tiling),
            tiling.tile_size >= 1,
            num_tiles_x == spec_num_tiles_x(tiling),
            num_tiles_y == spec_num_tiles_y(tiling),
            leftover_w == spec_leftover_w(tiling),
            leftover_h == spec_leftover_h(tiling),
            prims@ + spec_tile_rows_from(item_rect, stretch_size, tiling, ty as int) =~= total,
        decreases rows - ty,
    {
        let mut tx: u64 = 0;
        proof {
            assert(spec_tile_rows_from(item_rect, stretch_size, tiling, ty as int)
                == spec_tile_row_from(item_rect, stretch_size, tiling, ty as int, 0)
                + spec_tile_rows_from(item_rect, stretch_size, tiling, ty + 1));
        }
        while tx < cols
            invariant
                tx <= cols,
                ty < rows,
                rows == spec_rows(tiling),
                cols == spec_cols(tiling),
                tiling.tile_size >= 1,
                num_tiles_x == spec_num_tiles_x(tiling),
                num_tiles_y == spec_num_tiles_y(tiling),
                leftover_w == spec_leftover_w(tiling),
                leftover_h == spec_leftover_h(tiling),
                prims@ + spec_tile_row_from(item_rect, stretch_size, tiling, ty as int, tx as int)
                    + spec_tile_rows_from(item_rect, stretch_size, tiling, ty + 1) =~= total,
            decreases cols - tx,
        {
            let tile = make_tile_primitive(item_rect, stretch_size, tiling, tx, ty);
            let ghost before = prims@;
            match tile {
                Some(p) => {
                    prims.push(p);
                },
                None => {},
            }
            proof {
                let row_now = spec_tile_row_from(
                    item_rect,
                    stretch_size,
                    tiling,
                    ty as int,
                    tx as int,
                );
                let row_next = spec_tile_row_from(
                    item_rect,
                    stretch_size,
                    tiling,
                    ty as int,
                    tx + 1,
                );
                let rows_rest = spec_tile_rows_from(item_rect, stretch_size, tiling, ty + 1);
                match spec_tile_prim_at(item_rect, stretch_size, tiling, tx as int, ty as int) {
                    Some(p) => {
                        assert(row_now == seq![p] + row_next);
                        assert(prims@ =~= before.push(p));
                        assert(prims@ + row_next + rows_rest =~= before + row_now + rows_rest);
                    },
                    None => {
                        assert(row_now == row_next);
                    },
                }
            }
            tx += 1;
        }
        proof {
            assert(spec_tile_row_from(item_rect, stretch_size, tiling, ty as int, cols as int)
                == Seq::<TilePrim>::empty());
            assert(prims@ + spec_tile_rows_from(item_rect, stretch_size, tiling, ty + 1)
                =~= total);
        }
        ty += 1;
    }
    proof {
        assert(spec_tile_rows_from(item_rect, stretch_size, tiling, rows as int)
            == Seq::<TilePrim>::empty());
        assert(prims@ =~= total);
    }
    prims
}

/// The distance from one horizontal repetition of the image to the next.
pub open spec fn spec_stride_x(stretch_size: Size, tile_spacing: Size) -> int {
    sat64(max0(stretch_size.w) + max0(tile_spacing.w))
}

pub open spec fn spec_stride_y(stretch_size: Size, tile_spacing: Size) -> int {
    sat64(max0(stretch_size.h) + max0(tile_spacing.h))
}

/// The `i`-th horizontal repetition of the image, clipped to the item
/// rectangle; `None` when nothing of it is visible.
pub open spec fn spec_x_segment(
    item_rect: Rect,
    stretch_size: Size,
    tile_spacing: Size,
    i: int,
) -> Option<Rect> {
    let stride = spec_stride_x(stretch_size, tile_spacing);
    spec_intersection(
        Rect {
            origin: Vector {
                x: sat64(item_rect.origin.x + i * stride) as i64,
                y: item_rect.origin.y,
            },
            size: Size { w: stretch_size.w, h: item_rect.size.h },
        },
        item_rect,
    )
}

/// The `i`-th vertical repetition of the image, clipped to the item
/// rectangle.
pub open spec fn spec_y_row(
    item_rect: Rect,
    stretch_size: Size,
    tile_spacing: Size,
    i: int,
) -> Option<Rect> {
    let stride = spec_stride_y(stretch_size, tile_spacing);
    spec_intersection(
        Rect {
            origin: Vector {
                x: item_rect.origin.x,
                y: sat64(item_rect.origin.y + i * stride) as i64,
            },
            size: Size { w: item_rect.size.w, h: stretch_size.h },
        },
        item_rect,
    )
}

/// The tile primitives of horizontal repetitions `i` and later.
pub open spec fn spec_image_row_prims_from(
    item_rect: Rect,
    stretch_size: Size,
    tile_spacing: Size,
    tiling: TilingInfo,
    i: int,
) -> Seq<TilePrim>
    decreases spec_ceil_div(max0(item_rect.size.w), spec_stride_x(stretch_size, tile_spacing)) - i,
{
    let reps = spec_ceil_div(max0(item_rect.size.w), spec_stride_x(stretch_size, tile_spacing));
    if i < 0 || i >= reps {
        Seq::empty()
    } else {
        let seg = match spec_x_segment(item_rect, stretch_size, tile_spacing, i) {
            Some(r) => spec_decompose_tiled_image(r, stretch_size, tiling),
            None => Seq::empty(),
        };
        seg + spec_image_row_prims_from(item_rect, stretch_size, tile_spacing, tiling, i + 1)
    }
}

/// Stage two: one row of the image, split into horizontal repetitions where
/// the horizontal axis is tiled or spaced, each repetition then grid-cut.
pub open spec fn spec_decompose_image_row(
    item_rect: Rect,
    stretch_size: Size,
    tile_spacing: Size,
    tiling: TilingInfo,
) -> Seq<TilePrim> {
    if !spec_tiled_in_x(tiling) && tile_spacing.w == 0 {
        spec_decompose_tiled_image(item_rect, stretch_size, tiling)
    } else {
        spec_image_row_prims_from(item_rect, stretch_size, tile_spacing, tiling, 0)
    }
}

/// The tile primitives of vertical repetitions `i` and later.
pub open spec fn spec_image_prims_from(
    item_rect: Rect,
    stretch_size: Size,
    tile_spacing: Size,
    tiling: TilingInfo,
    i: int,
) -> Seq<TilePrim>
    decreases spec_ceil_div(max0(item_rect.size.h), spec_stride_y(stretch_size, tile_spacing)) - i,
{
    let reps = spec_ceil_div(max0(item_rect.size.h), spec_stride_y(stretch_size, tile_spacing));
    if i < 0 || i >= reps {
        Seq::empty()
    } else {
        let row = match spec_y_row(item_rect, stretch_size, tile_spacing, i) {
            Some(r) => spec_decompose_image_row(r, stretch_size, tile_spacing, tiling),
            None => Seq::empty(),
        };
        row + spec_image_prims_from(item_rect, stretch_size, tile_spacing, tiling, i + 1)
    }
}

/// Stage one: the whole image item, split into vertical repetitions where
/// the vertical axis is tiled or spaced.
pub open spec fn spec_decompose_image(
    item_rect: Rect,
    stretch_size: Size,
    tile_spacing: Size,
    tiling: TilingInfo,
) -> Seq<TilePrim> {
    if !spec_tiled_in_y(tiling) && tile_spacing.h == 0 {
        spec_decompose_image_row(item_rect, stretch_size, tile_spacing, tiling)
    } else {
        spec_image_prims_from(item_rect, stretch_size, tile_spacing, tiling, 0)
    }
}

/// `ceil(a / b)` for a positive stride, none for a degenerate one.
fn ceil_div(a: i64, b: i64) -> (r: i64)
    ensures
        r as int == spec_ceil_div(a as int, b as int),
{
    if a <= 0 || b <= 0 {
        0
    } else {
        (a - 1) / b + 1
    }
}

/// Decompose a repeated, internally tiled image item into one primitive per
/// visible tile of each visible repetition, in top-to-bottom, left-to-right
/// order.
pub fn decompose_image(
    item_rect: Rect,
    info: &ImageDisplayItem,
    tiling: TilingInfo,
) -> (prims: Vec<TilePrim>)
    requires
        tiling.tile_size >= 1,
    ensures
        prims@ == spec_decompose_image(item_rect, info.stretch_size, info.tile_spacing, tiling),
{
    let no_vertical_tiling = tiling.image_height <= tiling.tile_size;
    let no_vertical_spacing = info.tile_spacing.h == 0;
    if no_vertical_tiling && no_vertical_spacing {
        return decompose_image_row(item_rect, info, tiling);
    }
    let stretch_size = info.stretch_size;
    let tile_spacing = info.tile_spacing;
    let sh: i64 = if stretch_size.h > 0 {
        stretch_size.h
    } else {
        0
    };
    let sph: i64 = if tile_spacing.h > 0 {
        tile_spacing.h
    } else {
        0
    };
    let stride = sat_add(sh, sph);
    let extent: i64 = if item_rect.size.h > 0 {
        item_rect.size.h
    } else {
        0
    };
    let reps = ceil_div(extent, stride);
    let ghost total = spec_image_prims_from(item_rect, stretch_size, tile_spacing, tiling, 0);
    let mut prims: Vec<TilePrim> = Vec::new();
    let mut i: i64 = 0;
    proof {
        assert(prims@ + total =~= total);
    }
    while i < reps
        invariant
            0 <= i <= reps,
            tiling.tile_size >= 1,
            stretch_size == info.stretch_size,
            tile_spacing == info.tile_spacing,
            stride as int == spec_stride_y(stretch_size, tile_spacing),
            reps as int == spec_ceil_div(max0(item_rect.size.h), stride as int),
            prims@ + spec_image_prims_from(item_rect, stretch_size, tile_spacing, tiling, i as int)
                =~= total,
        decreases reps - i,
    {
        proof {
            crate::geom::lemma_mul_bounds(i as int, stride as int, i64::MAX as int, i64::MAX as int);
        }
        let py: i64 = clamp_i128((item_rect.origin.y as i128) + (i as i128) * (stride as i128));
        proof {
            assert(py as int == sat64(item_rect.origin.y + (i as int) * (stride as int)));
        }
        let candidate = Rect {
            origin: Vector { x: item_rect.origin.x, y: py },
            size: Size { w: item_rect.size.w, h: stretch_size.h },
        };
        proof {
            assert(spec_y_row(item_rect, stretch_size, tile_spacing, i as int)
                == spec_intersection(candidate, item_rect));
        }
        let ghost before = prims@;
        match candidate.intersection(&item_rect) {
            Some(row_rect) => {
                let mut row = decompose_image_row(row_rect, info, tiling);
                proof {
                    let row_seq = spec_decompose_image_row(
                        row_rect,
                        stretch_size,
                        tile_spacing,
                        tiling,
                    );
                    assert(row@ == row_seq);
                }
                prims.append(&mut row);
            },
            None => {},
        }
        proof {
            let rest = spec_image_prims_from(item_rect, stretch_size, tile_spacing, tiling, i + 1);
            match spec_y_row(item_rect, stretch_size, tile_spacing, i as int) {
                Some(r) => {
                    assert(prims@ =~= before + spec_decompose_image_row(
                        r,
                        stretch_size,
                        tile_spacing,
                        tiling,
                    ));
                    assert(prims@ + rest =~= total);
                },
                None => {
                    assert(prims@ + rest =~= total);
                },
            }
        }
        i += 1;
    }
    proof {
        assert(spec_image_prims_from(item_rect, stretch_size, tile_spacing, tiling, reps as int)
            == Seq::<TilePrim>::empty());
        assert(prims@ =~= total);
    }
    prims
}

/// Decompose one row: split it into horizontal repetitions where needed,
/// then grid-cut each.
pub fn decompose_image_row(
    item_rect: Rect,
    info: &ImageDisplayItem,
    tiling: TilingInfo,
) -> (prims: Vec<TilePrim>)
    requires
        tiling.tile_size >= 1,
    ensures
        prims@ == spec_decompose_image_row(
            item_rect,
            info.stretch_size,
            info.tile_spacing,
            tiling,
        ),
{
    let no_horizontal_tiling = tiling.image_width <= tiling.tile_size;
    let no_horizontal_spacing = info.tile_spacing.w == 0;
    if no_horizontal_tiling && no_horizontal_spacing {
        return decompose_tiled_image(item_rect, info, tiling);
    }
    let stretch_size = info.stretch_size;
    let tile_spacing = info.tile_spacing;
    let sw: i64 = if stretch_size.w > 0 {
        stretch_size.w
    } else {
        0
    };
    let spw: i64 = if tile_spacing.w > 0 {
        tile_spacing.w
    } else {
        0
    };
    let stride = sat_add(sw, spw);
    let extent: i64 = if item_rect.size.w > 0 {
        item_rect.size.w
    } else {
        0
    };
    let reps = ceil_div(extent, stride);
    let ghost total = spec_image_row_prims_from(item_rect, stretch_size, tile_spacing, tiling, 0);
    let mut prims: Vec<TilePrim> = Vec::new();
    let mut i: i64 = 0;
    proof {
        assert(prims@ + total =~= total);
    }
    while i < reps
        invariant
            0 <= i <= reps,
            tiling.tile_size >= 1,
            stretch_size == info.stretch_size,
            tile_spacing == info.tile_spacing,
            stride as int == spec_stride_x(stretch_size, tile_spacing),
            reps as int == spec_ceil_div(max0(item_rect.size.w), stride as int),
            prims@ + spec_image_row_prims_from(
                item_rect,
                stretch_size,
                tile_spacing,
                tiling,
                i as int,
            ) =~= total,
        decreases reps - i,
    {
        proof {
            crate::geom::lemma_mul_bounds(i as int, stride as int, i64::MAX as int, i64::MAX as int);
        }
        let px: i64 = clamp_i128((item_rect.origin.x as i128) + (i as i128) * (stride as i128));
        proof {
            assert(px as int == sat64(item_rect.origin.x + (i as int) * (stride as int)));
        }
        let candidate = Rect {
            origin: Vector { x: px, y: item_rect.origin.y },
            size: Size { w: stretch_size.w, h: item_rect.size.h },
        };
        proof {
            assert(spec_x_segment(item_rect, stretch_size, tile_spacing, i as int)
                == spec_intersection(candidate, item_rect));
        }
        let ghost before = prims@;
        match candidate.intersection(&item_rect) {
            Some(seg_rect) => {
                proof {
                    assert(spec_x_segment(item_rect, stretch_size, tile_spacing, i as int)
                        == Some(seg_rect));
                }
                let mut seg = decompose_tiled_image(seg_rect, info, tiling);
                proof {
                    assert(seg@ == spec_decompose_tiled_image(seg_rect, stretch_size, tiling));
                }
                prims.append(&mut seg);
                proof {
                    assert(prims@ =~= before + spec_decompose_tiled_image(
                        seg_rect,
                        stretch_size,
                        tiling,
                    ));
                }
            },
            None => {},
        }
        proof {
            let rest = spec_image_row_prims_from(
                item_rect,
                stretch_size,
                tile_spacing,
                tiling,
                i + 1,
            );
            match spec_x_segment(item_rect, stretch_size, tile_spacing, i as int) {
                Some(r) => {
                    assert(prims@ =~= before + spec_decompose_tiled_image(
                        r,
                        stretch_size,
                        tiling,
                    ));
                    assert(prims@ + rest =~= total);
                },
                None => {
                    assert(prims@ + rest =~= total);
                },
            }
        }
        i += 1;
    }
    proof {
        assert(spec_image_row_prims_from(
            item_rect,
            stretch_size,
            tile_spacing,
            tiling,
            reps as int,
        ) == Seq::<TilePrim>::empty());
        assert(prims@ =~= total);
    }
    prims
}

/// An image extent that fits in one tile yields at most one grid column.
proof fn lemma_not_tiled_single_cell(w: int, t: int)
    requires
        t >= 1,
        0 <= w <= t,
    ensures
        w / t + (if w % t != 0 {
            1int
        } else {
            0int
        }) <= 1,
{
    if w == t {
        assert(w / t == 1 && w % t == 0) by (nonlinear_arith)
            requires
                t >= 1 && w == t,
        ;
    } else {
        assert(w / t == 0 && w % t == w) by (nonlinear_arith)
            requires
                t >= 1 && 0 <= w < t,
        ;
    }
}

/// Every cell of one row carries the grid's shader-repeat flags, sits in
/// that row, and, on an axis that is not tile-split, sits in column zero.
proof fn lemma_row_cells_flags(
    item_rect: Rect,
    stretch_size: Size,
    tiling: TilingInfo,
    ty: int,
    tx: int,
)
    requires
        tiling.tile_size >= 1,
        0 <= ty,
    ensures
        forall|k: int|
            0 <= k < spec_tile_row_from(item_rect, stretch_size, tiling, ty, tx).len() ==> {
                let p = #[trigger] spec_tile_row_from(item_rect, stretch_size, tiling, ty, tx)[k];
                &&& p.shader_repeat_x == spec_shader_repeat_x(item_rect, stretch_size, tiling)
                &&& p.shader_repeat_y == spec_shader_repeat_y(item_rect, stretch_size, tiling)
                &&& p.tile_offset.y == ty as u32
                &&& (!spec_tiled_in_x(tiling) ==> p.tile_offset.x == 0)
            },
    decreases spec_cols(tiling) - tx,
{
    if 0 <= tx < spec_cols(tiling) {
        lemma_row_cells_flags(item_rect, stretch_size, tiling, ty, tx + 1);
        if !spec_tiled_in_x(tiling) {
            lemma_not_tiled_single_cell(tiling.image_width as int, tiling.tile_size as int);
        }
        let row = spec_tile_row_from(item_rect, stretch_size, tiling, ty, tx);
        let rest = spec_tile_row_from(item_rect, stretch_size, tiling, ty, tx + 1);
        match spec_tile_prim_at(item_rect, stretch_size, tiling, tx, ty) {
            Some(p) => {
                assert forall|k: int| 0 <= k < row.len() implies {
                    let q = #[trigger] row[k];
                    &&& q.shader_repeat_x == spec_shader_repeat_x(item_rect, stretch_size, tiling)
                    &&& q.shader_repeat_y == spec_shader_repeat_y(item_rect, stretch_size, tiling)
                    &&& q.tile_offset.y == ty as u32
                    &&& (!spec_tiled_in_x(tiling) ==> q.tile_offset.x == 0)
                } by {
                    if k == 0 {
                        assert(row[k] == p);
                    } else {
                        assert(row[k] == rest[k - 1]);
                    }
                }
            },
            None => {
                assert forall|k: int| 0 <= k < row.len() implies {
                    let q = #[trigger] row[k];
                    &&& q.shader_repeat_x == spec_shader_repeat_x(item_rect, stretch_size, tiling)
                    &&& q.shader_repeat_y == spec_shader_repeat_y(item_rect, stretch_size, tiling)
                    &&& q.tile_offset.y == ty as u32
                    &&& (!spec_tiled_in_x(tiling) ==> q.tile_offset.x == 0)
                } by {
                    assert(row[k] == rest[k]);
                }
            },
        }
    }
}

/// Every cell of the grid from row `ty` on carries the grid's shader-repeat
/// flags, and, on an axis that is not tile-split, sits in row or column zero.
proof fn lemma_rows_cells_flags(item_rect: Rect, stretch_size: Size, tiling: TilingInfo, ty: int)
    requires
        tiling.tile_size >= 1,
        0 <= ty,
    ensures
        forall|k: int|
            0 <= k < spec_tile_rows_from(item_rect, stretch_size, tiling, ty).len() ==> {
                let p = #[trigger] spec_tile_rows_from(item_rect, stretch_size, tiling, ty)[k];
                &&& p.shader_repeat_x == spec_shader_repeat_x(item_rect, stretch_size, tiling)
                &&& p.shader_repeat_y == spec_shader_repeat_y(item_rect, stretch_size, tiling)
                &&& (!spec_tiled_in_x(tiling) ==> p.tile_offset.x == 0)
                &&& (!spec_tiled_in_y(tiling) ==> p.tile_offset.y == 0)
            },
    decreases spec_rows(tiling) - ty,
{
    if 0 <= ty < spec_rows(tiling) {
        lemma_row_cells_flags(item_rect, stretch_size, tiling, ty, 0);
        lemma_rows_cells_flags(item_rect, stretch_size, tiling, ty + 1);
        if !spec_tiled_in_y(tiling) {
            lemma_not_tiled_single_cell(tiling.image_height as int, tiling.tile_size as int);
        }
        let whole = spec_tile_rows_from(item_rect, stretch_size, tiling, ty);
        let row = spec_tile_row_from(item_rect, stretch_size, tiling, ty, 0);
        let rest = spec_tile_rows_from(item_rect, stretch_size, tiling, ty + 1);
        assert forall|k: int| 0 <= k < whole.len() implies {
            let p = #[trigger] whole[k];
            &&& p.shader_repeat_x == spec_shader_repeat_x(item_rect, stretch_size, tiling)
            &&& p.shader_repeat_y == spec_shader_repeat_y(item_rect, stretch_size, tiling)
            &&& (!spec_tiled_in_x(tiling) ==> p.tile_offset.x == 0)
            &&& (!spec_tiled_in_y(tiling) ==> p.tile_offset.y == 0)
        } by {
            if k < row.len() {
                assert(whole[k] == row[k]);
            } else {
                assert(whole[k] == rest[k - row.len()]);
            }
        }
    }
}

/// Inputs on which the grid decomposition alone tiles the item rectangle
/// exactly: a real tile size and image, bounded geometry, and no axis that
/// needs more repetitions than one grid expresses — the item extent fits
/// within one stretched copy of the image, or the axis is not tile-split so
/// its repetition is the shader's. (An axis that is both tile-split and
/// repeated is covered by the repetition stages, which run the grid once
/// per copy.)
pub open spec fn grid_covers_applies(item_rect: Rect, stretch_size: Size, tiling: TilingInfo) -> bool {
    &&& tiling.tile_size >= 1
    &&& tiling.image_width >= 1
    &&& tiling.image_height >= 1
    &&& rect_bounded(item_rect)
    &&& 0 <= stretch_size.w <= crate::geom::COORD_LIMIT
    &&& 0 <= stretch_size.h <= crate::geom::COORD_LIMIT
    &&& (item_rect.size.w <= stretch_size.w || !spec_tiled_in_x(tiling))
    &&& (item_rect.size.h <= stretch_size.h || !spec_tiled_in_y(tiling))
}

/// Whether some tile of `tiles` contains the point (x, y).
pub open spec fn tile_covered(tiles: Seq<TilePrim>, x: int, y: int) -> bool {
    exists|k: int| 0 <= k < tiles.len() && rect_contains(#[trigger] tiles[k].rect, x, y)
}

/// Cell boundaries start at zero, are monotone, and never pass the
/// stretched extent.
proof fn lemma_axis_edge_props(image_extent: u32, tile_size: u32, stretch: i64, k1: int, k2: int)
    requires
        image_extent >= 1,
        tile_size >= 1,
        0 <= k1 <= k2,
    ensures
        spec_axis_edge(image_extent, tile_size, stretch, 0) == 0,
        0 <= spec_axis_edge(image_extent, tile_size, stretch, k1),
        spec_axis_edge(image_extent, tile_size, stretch, k1) <= spec_axis_edge(
            image_extent,
            tile_size,
            stretch,
            k2,
        ),
        spec_axis_edge(image_extent, tile_size, stretch, k2) <= max0(stretch),
{
    let w = image_extent as int;
    let t = tile_size as int;
    let st = max0(stretch);
    let c1 = if k1 * t < w {
        k1 * t
    } else {
        w
    };
    let c2 = if k2 * t < w {
        k2 * t
    } else {
        w
    };
    assert(0int * t == 0 && 0 <= k1 * t && k1 * t <= k2 * t) by (nonlinear_arith)
        requires
            t >= 1 && 0 <= k1 <= k2,
    ;
    assert(0 <= c1 <= c2 <= w);
    assert(0int * st == 0 && 0 <= c1 * st && c1 * st <= c2 * st && c2 * st <= w * st)
        by (nonlinear_arith)
        requires
            0 <= c1 <= c2 <= w && st >= 0,
    ;
    vstd::arithmetic::div_mod::lemma_div_is_ordered(0, c1 * st, w);
    vstd::arithmetic::div_mod::lemma_div_is_ordered(c1 * st, c2 * st, w);
    vstd::arithmetic::div_mod::lemma_div_is_ordered(c2 * st, w * st, w);
    vstd::arithmetic::div_mod::lemma_div_multiples_vanish(st, w);
    assert(w * st == st * w) by (nonlinear_arith);
    assert(0int / w == 0) by (nonlinear_arith)
        requires
            w >= 1,
    ;
}

/// Once `k * tile_size` reaches the image extent, the boundary is exactly
/// the stretched extent.
proof fn lemma_axis_edge_last(image_extent: u32, tile_size: u32, stretch: i64, k: int)
    requires
        image_extent >= 1,
        k * tile_size >= image_extent,
    ensures
        spec_axis_edge(image_extent, tile_size, stretch, k) == max0(stretch),
{
    let w = image_extent as int;
    let st = max0(stretch);
    vstd::arithmetic::div_mod::lemma_div_multiples_vanish(st, w);
    assert(w * st == st * w) by (nonlinear_arith);
}

/// Every point below boundary `m` lies between two consecutive boundaries.
proof fn lemma_find_cell(image_extent: u32, tile_size: u32, stretch: i64, m: int, cx: int)
    requires
        image_extent >= 1,
        tile_size >= 1,
        1 <= m,
        0 <= cx < spec_axis_edge(image_extent, tile_size, stretch, m),
    ensures
        exists|k: int|
            #![trigger spec_axis_edge(image_extent, tile_size, stretch, k)]
            0 <= k < m && spec_axis_edge(image_extent, tile_size, stretch, k) <= cx
                < spec_axis_edge(image_extent, tile_size, stretch, k + 1),
    decreases m,
{
    if spec_axis_edge(image_extent, tile_size, stretch, m - 1) <= cx {
        assert(spec_axis_edge(image_extent, tile_size, stretch, m - 1) <= cx < spec_axis_edge(
            image_extent,
            tile_size,
            stretch,
            (m - 1) + 1,
        ));
    } else {
        lemma_axis_edge_props(image_extent, tile_size, stretch, 0, m - 1);
        lemma_find_cell(image_extent, tile_size, stretch, m - 1, cx);
    }
}

/// Every element of one row comes from its own cell, in strictly
/// increasing column order.
proof fn lemma_grid_row_elements(
    item_rect: Rect,
    stretch_size: Size,
    tiling: TilingInfo,
    ty: int,
    tx: int,
)
    requires
        tiling.tile_size >= 1,
        0 <= ty <= u32::MAX,
        0 <= tx,
    ensures
        forall|k: int|
            0 <= k < spec_tile_row_from(item_rect, stretch_size, tiling, ty, tx).len() ==> {
                let p = #[trigger] spec_tile_row_from(item_rect, stretch_size, tiling, ty, tx)[k];
                &&& tx <= p.tile_offset.x < spec_cols(tiling)
                &&& p.tile_offset.y == ty as u32
                &&& Some(p) == spec_tile_prim_at(
                    item_rect,
                    stretch_size,
                    tiling,
                    p.tile_offset.x as int,
                    ty,
                )
            },
        forall|k1: int, k2: int|
            0 <= k1 < k2 < spec_tile_row_from(item_rect, stretch_size, tiling, ty, tx).len()
                ==> #[trigger] spec_tile_row_from(item_rect, stretch_size, tiling, ty, tx)[k1]
                .tile_offset.x < #[trigger] spec_tile_row_from(
                item_rect,
                stretch_size,
                tiling,
                ty,
                tx,
            )[k2].tile_offset.x,
    decreases spec_cols(tiling) - tx,
{
    if 0 <= tx < spec_cols(tiling) {
        assert(spec_num_tiles_x(tiling) <= tiling.image_width) by (nonlinear_arith)
            requires
                tiling.tile_size >= 1 && spec_num_tiles_x(tiling) == tiling.image_width as int
                    / tiling.tile_size as int,
        ;
        assert(0 <= tx <= u32::MAX);
        lemma_grid_row_elements(item_rect, stretch_size, tiling, ty, tx + 1);
        let row = spec_tile_row_from(item_rect, stretch_size, tiling, ty, tx);
        let rest = spec_tile_row_from(item_rect, stretch_size, tiling, ty, tx + 1);
        match spec_tile_prim_at(item_rect, stretch_size, tiling, tx, ty) {
            Some(p) => {
                assert(forall|k: int| 0 <= k < rest.len() ==> row[k + 1] == #[trigger] rest[k]);
                assert(row[0] == p);
            },
            None => {
                assert(forall|k: int| 0 <= k < rest.len() ==> row[k] == #[trigger] rest[k]);
            },
        }
    }
}

/// Every element of the grid from row `ty` on comes from its own cell, in
/// row-major order.
proof fn lemma_grid_elements(item_rect: Rect, stretch_size: Size, tiling: TilingInfo, ty: int)
    requires
        tiling.tile_size >= 1,
        0 <= ty,
    ensures
        forall|k: int|
            0 <= k < spec_tile_rows_from(item_rect, stretch_size, tiling, ty).len() ==> {
                let p = #[trigger] spec_tile_rows_from(item_rect, stretch_size, tiling, ty)[k];
                &&& ty <= p.tile_offset.y < spec_rows(tiling)
                &&& 0 <= p.tile_offset.x < spec_cols(tiling)
                &&& Some(p) == spec_tile_prim_at(
                    item_rect,
                    stretch_size,
                    tiling,
                    p.tile_offset.x as int,
                    p.tile_offset.y as int,
                )
            },
        forall|k1: int, k2: int|
            0 <= k1 < k2 < spec_tile_rows_from(item_rect, stretch_size, tiling, ty).len() ==> {
                let p1 = #[trigger] spec_tile_rows_from(item_rect, stretch_size, tiling, ty)[k1];
                let p2 = #[trigger] spec_tile_rows_from(item_rect, stretch_size, tiling, ty)[k2];
                p1.tile_offset.y < p2.tile_offset.y || (p1.tile_offset.y == p2.tile_offset.y
                    && p1.tile_offset.x < p2.tile_offset.x)
            },
    decreases spec_rows(tiling) - ty,
{
    if 0 <= ty < spec_rows(tiling) {
        assert(spec_num_tiles_y(tiling) <= tiling.image_height) by (nonlinear_arith)
            requires
                tiling.tile_size >= 1 && spec_num_tiles_y(tiling) == tiling.image_height as int
                    / tiling.tile_size as int,
        ;
        assert(0 <= ty <= u32::MAX);
        lemma_grid_row_elements(item_rect, stretch_size, tiling, ty, 0);
        lemma_grid_elements(item_rect, stretch_size, tiling, ty + 1);
        let whole = spec_tile_rows_from(item_rect, stretch_size, tiling, ty);
        let row = spec_tile_row_from(item_rect, stretch_size, tiling, ty, 0);
        let rest = spec_tile_rows_from(item_rect, stretch_size, tiling, ty + 1);
        assert(whole == row + rest);
        assert(forall|k: int| 0 <= k < row.len() ==> whole[k] == #[trigger] row[k]);
        assert(forall|k: int|
            row.len() <= k < whole.len() ==> whole[k] == #[trigger] rest[k - row.len()]);
    }
}

/// A visible cell of one row is listed in that row.
proof fn lemma_grid_row_listed(
    item_rect: Rect,
    stretch_size: Size,
    tiling: TilingInfo,
    ty: int,
    tx0: int,
    tx: int,
)
    requires
        0 <= tx0 <= tx < spec_cols(tiling),
        spec_tile_prim_at(item_rect, stretch_size, tiling, tx, ty).is_some(),
    ensures
        exists|k: int|
            0 <= k < spec_tile_row_from(item_rect, stretch_size, tiling, ty, tx0).len() && (
            #[trigger] spec_tile_row_from(item_rect, stretch_size, tiling, ty, tx0)[k])
                == spec_tile_prim_at(item_rect, stretch_size, tiling, tx, ty).unwrap(),
    decreases tx - tx0,
{
    let row = spec_tile_row_from(item_rect, stretch_size, tiling, ty, tx0);
    let rest = spec_tile_row_from(item_rect, stretch_size, tiling, ty, tx0 + 1);
    if tx0 == tx {
        assert(row[0] == spec_tile_prim_at(item_rect, stretch_size, tiling, tx, ty).unwrap());
    } else {
        lemma_grid_row_listed(item_rect, stretch_size, tiling, ty, tx0 + 1, tx);
        let target = spec_tile_prim_at(item_rect, stretch_size, tiling, tx, ty).unwrap();
        let k = choose|k: int| 0 <= k < rest.len() && (#[trigger] rest[k]) == target;
        match spec_tile_prim_at(item_rect, stretch_size, tiling, tx0, ty) {
            Some(_) => {
                assert(row[k + 1] == target);
            },
            None => {
                assert(row[k] == target);
            },
        }
    }
}

/// A visible cell of the grid is listed in the grid.
proof fn lemma_grid_listed(
    item_rect: Rect,
    stretch_size: Size,
    tiling: TilingInfo,
    ty_from: int,
    tx: int,
    ty: int,
)
    requires
        0 <= ty_from <= ty < spec_rows(tiling),
        0 <= tx < spec_cols(tiling),
        spec_tile_prim_at(item_rect, stretch_size, tiling, tx, ty).is_some(),
    ensures
        exists|k: int|
            0 <= k < spec_tile_rows_from(item_rect, stretch_size, tiling, ty_from).len() && (
            #[trigger] spec_tile_rows_from(item_rect, stretch_size, tiling, ty_from)[k])
                == spec_tile_prim_at(item_rect, stretch_size, tiling, tx, ty).unwrap(),
    decreases ty - ty_from,
{
    let whole = spec_tile_rows_from(item_rect, stretch_size, tiling, ty_from);
    let row = spec_tile_row_from(item_rect, stretch_size, tiling, ty_from, 0);
    let rest = spec_tile_rows_from(item_rect, stretch_size, tiling, ty_from + 1);
    let target = spec_tile_prim_at(item_rect, stretch_size, tiling, tx, ty).unwrap();
    if ty_from == ty {
        lemma_grid_row_listed(item_rect, stretch_size, tiling, ty, 0, tx);
        let k = choose|k: int| 0 <= k < row.len() && (#[trigger] row[k]) == target;
        assert(whole[k] == target);
    } else {
        lemma_grid_listed(item_rect, stretch_size, tiling, ty_from + 1, tx, ty);
        let k = choose|k: int| 0 <= k < rest.len() && (#[trigger] rest[k]) == target;
        assert(whole[row.len() + k] == target);
    }
}

/// Exact tile coverage: on inputs where the grid alone expresses the draw,
/// the grid decomposition's rectangles stay inside the item rectangle,
/// cover every point of it, and never overlap — for every stretch, not only
/// when the tile divisions are exact.
pub proof fn lemma_tile_grid_exact_coverage(item_rect: Rect, stretch_size: Size, tiling: TilingInfo)
    requires
        grid_covers_applies(item_rect, stretch_size, tiling),
    ensures
        forall|k: int, x: int, y: int|
            0 <= k < spec_decompose_tiled_image(item_rect, stretch_size, tiling).len()
                && rect_contains(
                (#[trigger] spec_decompose_tiled_image(item_rect, stretch_size, tiling)[k]).rect,
                x,
                y,
            ) ==> #[trigger] rect_contains(item_rect, x, y),
        forall|x: int, y: int| #[trigger]
            rect_contains(item_rect, x, y) ==> tile_covered(
                spec_decompose_tiled_image(item_rect, stretch_size, tiling),
                x,
                y,
            ),
        forall|k1: int, k2: int, x: int, y: int|
            #![trigger rect_contains(spec_decompose_tiled_image(item_rect, stretch_size, tiling)[k1].rect, x, y), rect_contains(spec_decompose_tiled_image(item_rect, stretch_size, tiling)[k2].rect, x, y)]
            0 <= k1 < spec_decompose_tiled_image(item_rect, stretch_size, tiling).len() && 0 <= k2
                < spec_decompose_tiled_image(item_rect, stretch_size, tiling).len() && k1 != k2
                && rect_contains(
                spec_decompose_tiled_image(item_rect, stretch_size, tiling)[k1].rect,
                x,
                y,
            ) ==> !rect_contains(
                spec_decompose_tiled_image(item_rect, stretch_size, tiling)[k2].rect,
                x,
                y,
            ),
{
    let tiles = spec_decompose_tiled_image(item_rect, stretch_size, tiling);
    let w = tiling.image_width as int;
    let h = tiling.image_height as int;
    let t = tiling.tile_size as int;
    let ntx = spec_num_tiles_x(tiling);
    let nty = spec_num_tiles_y(tiling);
    let lw = spec_leftover_w(tiling);
    let lh = spec_leftover_h(tiling);
    let ox = item_rect.origin.x as int;
    let oy = item_rect.origin.y as int;
    lemma_grid_elements(item_rect, stretch_size, tiling, 0);
    assert(w == ntx * t + lw && 0 <= lw < t && ntx >= 0) by (nonlinear_arith)
        requires
            t >= 1 && w >= 0 && ntx == w / t && lw == w % t,
    ;
    assert(h == nty * t + lh && 0 <= lh < t && nty >= 0) by (nonlinear_arith)
        requires
            t >= 1 && h >= 0 && nty == h / t && lh == h % t,
    ;
    assert(spec_cols(tiling) >= 1 && spec_rows(tiling) >= 1);
    assert(spec_cols(tiling) * t >= w && spec_rows(tiling) * t >= h) by (nonlinear_arith)
        requires
            t >= 1 && 0 <= lw < t && 0 <= lh < t && w == ntx * t + lw && h == nty * t + lh
                && spec_cols(tiling) == ntx + (if lw != 0 {
                1int
            } else {
                0int
            }) && spec_rows(tiling) == nty + (if lh != 0 {
                1int
            } else {
                0int
            }),
    ;
    lemma_axis_edge_last(tiling.image_width, tiling.tile_size, stretch_size.w, spec_cols(tiling));
    lemma_axis_edge_last(tiling.image_height, tiling.tile_size, stretch_size.h, spec_rows(tiling));

    // Containment: each element's rectangle is its cell clipped to the item.
    assert forall|k: int, x: int, y: int|
        0 <= k < tiles.len() && rect_contains((#[trigger] tiles[k]).rect, x, y) implies #[trigger]
    rect_contains(item_rect, x, y) by {
        let p = tiles[k];
        assert(Some(p) == spec_tile_prim_at(
            item_rect,
            stretch_size,
            tiling,
            p.tile_offset.x as int,
            p.tile_offset.y as int,
        ));
    }

    // Coverage: the point's column and row name a visible cell that is
    // listed in the grid.
    assert forall|x: int, y: int| #[trigger] rect_contains(item_rect, x, y) implies tile_covered(
        tiles,
        x,
        y,
    ) by {
        let cx = x - ox;
        let cy = y - oy;
        lemma_axis_edge_props(tiling.image_width, tiling.tile_size, stretch_size.w, 0, 1);
        lemma_axis_edge_props(tiling.image_height, tiling.tile_size, stretch_size.h, 0, 1);
        let tx: int = if spec_tiled_in_x(tiling) {
            lemma_find_cell(
                tiling.image_width,
                tiling.tile_size,
                stretch_size.w,
                spec_cols(tiling),
                cx,
            );
            choose|k: int|
                #![trigger spec_axis_edge(tiling.image_width, tiling.tile_size, stretch_size.w, k)]
                0 <= k < spec_cols(tiling) && spec_axis_edge(
                    tiling.image_width,
                    tiling.tile_size,
                    stretch_size.w,
                    k,
                ) <= cx < spec_axis_edge(
                    tiling.image_width,
                    tiling.tile_size,
                    stretch_size.w,
                    k + 1,
                )
        } else {
            lemma_not_tiled_single_cell(w, t);
            if !spec_shader_repeat_x(item_rect, stretch_size, tiling) {
                lemma_axis_edge_last(tiling.image_width, tiling.tile_size, stretch_size.w, 1);
            }
            0int
        };
        let ty: int = if spec_tiled_in_y(tiling) {
            lemma_find_cell(
                tiling.image_height,
                tiling.tile_size,
                stretch_size.h,
                spec_rows(tiling),
                cy,
            );
            choose|k: int|
                #![trigger spec_axis_edge(tiling.image_height, tiling.tile_size, stretch_size.h, k)]
                0 <= k < spec_rows(tiling) && spec_axis_edge(
                    tiling.image_height,
                    tiling.tile_size,
                    stretch_size.h,
                    k,
                ) <= cy < spec_axis_edge(
                    tiling.image_height,
                    tiling.tile_size,
                    stretch_size.h,
                    k + 1,
                )
        } else {
            lemma_not_tiled_single_cell(h, t);
            if !spec_shader_repeat_y(item_rect, stretch_size, tiling) {
                lemma_axis_edge_last(tiling.image_height, tiling.tile_size, stretch_size.h, 1);
            }
            0int
        };
        lemma_axis_edge_props(tiling.image_width, tiling.tile_size, stretch_size.w, tx, tx + 1);
        lemma_axis_edge_props(tiling.image_height, tiling.tile_size, stretch_size.h, ty, ty + 1);
        assert(spec_tile_prim_at(item_rect, stretch_size, tiling, tx, ty).is_some());
        let p = spec_tile_prim_at(item_rect, stretch_size, tiling, tx, ty).unwrap();
        assert(rect_contains(p.rect, x, y));
        lemma_grid_listed(item_rect, stretch_size, tiling, 0, tx, ty);
        let k = choose|k: int| 0 <= k < tiles.len() && (#[trigger] tiles[k]) == p;
        assert(rect_contains(tiles[k].rect, x, y));
    }

    // No overlap: distinct elements sit in distinct cells, whose candidate
    // ranges are separated by the boundaries.
    assert forall|k1: int, k2: int, x: int, y: int|
        #![trigger rect_contains(tiles[k1].rect, x, y), rect_contains(tiles[k2].rect, x, y)]
        0 <= k1 < tiles.len() && 0 <= k2 < tiles.len() && k1 != k2 && rect_contains(
            tiles[k1].rect,
            x,
            y,
        ) implies !rect_contains(tiles[k2].rect, x, y) by {
        if rect_contains(tiles[k2].rect, x, y) {
            let p1 = tiles[k1];
            let p2 = tiles[k2];
            let a1 = p1.tile_offset.x as int;
            let b1 = p1.tile_offset.y as int;
            let a2 = p2.tile_offset.x as int;
            let b2 = p2.tile_offset.y as int;
            assert(!(a1 == a2 && b1 == b2));
            lemma_axis_edge_props(tiling.image_width, tiling.tile_size, stretch_size.w, 0, a1 + 1);
            lemma_axis_edge_props(tiling.image_width, tiling.tile_size, stretch_size.w, 0, a2 + 1);
            lemma_axis_edge_props(tiling.image_height, tiling.tile_size, stretch_size.h, 0, b1 + 1);
            lemma_axis_edge_props(tiling.image_height, tiling.tile_size, stretch_size.h, 0, b2 + 1);
            if a1 != a2 {
                assert(!spec_shader_repeat_x(item_rect, stretch_size, tiling)) by {
                    if spec_shader_repeat_x(item_rect, stretch_size, tiling) {
                        lemma_not_tiled_single_cell(w, t);
                    }
                }
                if a1 < a2 {
                    lemma_axis_edge_props(
                        tiling.image_width,
                        tiling.tile_size,
                        stretch_size.w,
                        a1 + 1,
                        a2,
                    );
                } else {
                    lemma_axis_edge_props(
                        tiling.image_width,
                        tiling.tile_size,
                        stretch_size.w,
                        a2 + 1,
                        a1,
                    );
                }
            } else {
                assert(!spec_shader_repeat_y(item_rect, stretch_size, tiling)) by {
                    if spec_shader_repeat_y(item_rect, stretch_size, tiling) {
                        lemma_not_tiled_single_cell(h, t);
                    }
                }
                if b1 < b2 {
                    lemma_axis_edge_props(
                        tiling.image_height,
                        tiling.tile_size,
                        stretch_size.h,
                        b1 + 1,
                        b2,
                    );
                } else {
                    lemma_axis_edge_props(
                        tiling.image_height,
                        tiling.tile_size,
                        stretch_size.h,
                        b2 + 1,
                        b1,
                    );
                }
            }
        }
    }
}

/// In an unrepeated draw with no tile spacing (the item fits within one
/// stretched copy of the image), the repetition stages collapse: the public
/// decomposition equals the grid decomposition of the item rectangle.
pub proof fn lemma_unrepeated_draw_is_one_grid(
    item_rect: Rect,
    stretch_size: Size,
    tile_spacing: Size,
    tiling: TilingInfo,
)
    requires
        rect_bounded(item_rect),
        tile_spacing.w == 0,
        tile_spacing.h == 0,
        1 <= item_rect.size.w <= stretch_size.w <= crate::geom::COORD_LIMIT,
        1 <= item_rect.size.h <= stretch_size.h <= crate::geom::COORD_LIMIT,
    ensures
        spec_decompose_image(item_rect, stretch_size, tile_spacing, tiling)
            == spec_decompose_tiled_image(item_rect, stretch_size, tiling),
{
    let grid = spec_decompose_tiled_image(item_rect, stretch_size, tiling);
    let wide = item_rect.size.w as int;
    let tall = item_rect.size.h as int;
    assert((tall - 1) / (stretch_size.h as int) == 0 && (wide - 1) / (stretch_size.w as int) == 0)
        by (nonlinear_arith)
        requires
            1 <= tall <= stretch_size.h && 1 <= wide <= stretch_size.w,
    ;
    if !(!spec_tiled_in_y(tiling) && tile_spacing.h == 0) {
        assert(spec_stride_y(stretch_size, tile_spacing) == stretch_size.h);
        assert(spec_ceil_div(max0(item_rect.size.h), stretch_size.h as int) == 1);
        assert(spec_y_row(item_rect, stretch_size, tile_spacing, 0) == Some(item_rect));
        assert(spec_image_prims_from(item_rect, stretch_size, tile_spacing, tiling, 1)
            == Seq::<TilePrim>::empty());
        assert(spec_image_prims_from(item_rect, stretch_size, tile_spacing, tiling, 0)
            =~= spec_decompose_image_row(item_rect, stretch_size, tile_spacing, tiling));
    }
    if !(!spec_tiled_in_x(tiling) && tile_spacing.w == 0) {
        assert(spec_stride_x(stretch_size, tile_spacing) == stretch_size.w);
        assert(spec_ceil_div(max0(item_rect.size.w), stretch_size.w as int) == 1);
        assert(spec_x_segment(item_rect, stretch_size, tile_spacing, 0) == Some(item_rect));
        assert(spec_image_row_prims_from(item_rect, stretch_size, tile_spacing, tiling, 1)
            == Seq::<TilePrim>::empty());
        assert(spec_image_row_prims_from(item_rect, stretch_size, tile_spacing, tiling, 0)
            =~= grid);
    }
}

/// An intersection's far edges are back in the coordinate range when the
/// right argument's are.
proof fn proof_intersection_ends(a: Rect, b: Rect, c: Rect)
    requires
        b.origin.x + b.size.w >= i64::MIN,
        b.origin.y + b.size.h >= i64::MIN,
        spec_intersection(a, b) == Some(c),
    ensures
        c.origin.x + c.size.w >= i64::MIN,
        c.origin.y + c.size.h >= i64::MIN,
{
    crate::geom::lemma_intersection_in_right(a, b, 0, 0);
}

/// Every primitive of the grid decomposition lies inside the rectangle it
/// was cut from. Unlike exact coverage, this holds for every input: each
/// cell is clipped against the rectangle before it is emitted.
pub proof fn lemma_grid_inside_item(item_rect: Rect, stretch_size: Size, tiling: TilingInfo)
    requires
        tiling.tile_size >= 1,
        item_rect.origin.x + item_rect.size.w >= i64::MIN,
        item_rect.origin.y + item_rect.size.h >= i64::MIN,
    ensures
        forall|k: int, x: int, y: int|
            0 <= k < spec_decompose_tiled_image(item_rect, stretch_size, tiling).len()
                && rect_contains(
                (#[trigger] spec_decompose_tiled_image(item_rect, stretch_size, tiling)[k]).rect,
                x,
                y,
            ) ==> #[trigger] rect_contains(item_rect, x, y),
{
    let tiles = spec_decompose_tiled_image(item_rect, stretch_size, tiling);
    lemma_grid_elements(item_rect, stretch_size, tiling, 0);
    assert forall|k: int, x: int, y: int|
        0 <= k < tiles.len() && rect_contains((#[trigger] tiles[k]).rect, x, y) implies #[trigger]
    rect_contains(item_rect, x, y) by {
        let p = tiles[k];
        assert(Some(p) == spec_tile_prim_at(
            item_rect,
            stretch_size,
            tiling,
            p.tile_offset.x as int,
            p.tile_offset.y as int,
        ));
    }
}

/// Every primitive of one row of repetitions lies inside the row's
/// rectangle.
proof fn lemma_row_prims_inside(
    item_rect: Rect,
    stretch_size: Size,
    tile_spacing: Size,
    tiling: TilingInfo,
    i: int,
)
    requires
        tiling.tile_size >= 1,
        item_rect.origin.x + item_rect.size.w >= i64::MIN,
        item_rect.origin.y + item_rect.size.h >= i64::MIN,
    ensures
        forall|k: int, x: int, y: int|
            0 <= k < spec_image_row_prims_from(item_rect, stretch_size, tile_spacing, tiling, i).len()
                && rect_contains(
                (#[trigger] spec_image_row_prims_from(
                    item_rect,
                    stretch_size,
                    tile_spacing,
                    tiling,
                    i,
                )[k]).rect,
                x,
                y,
            ) ==> #[trigger] rect_contains(item_rect, x, y),
    decreases spec_ceil_div(max0(item_rect.size.w), spec_stride_x(stretch_size, tile_spacing)) - i,
{
    let reps = spec_ceil_div(max0(item_rect.size.w), spec_stride_x(stretch_size, tile_spacing));
    if 0 <= i < reps {
        lemma_row_prims_inside(item_rect, stretch_size, tile_spacing, tiling, i + 1);
        let whole = spec_image_row_prims_from(item_rect, stretch_size, tile_spacing, tiling, i);
        let rest = spec_image_row_prims_from(item_rect, stretch_size, tile_spacing, tiling, i + 1);
        match spec_x_segment(item_rect, stretch_size, tile_spacing, i) {
            Some(seg) => {
                let head = spec_decompose_tiled_image(seg, stretch_size, tiling);
                let stride = spec_stride_x(stretch_size, tile_spacing);
                let cand = Rect {
                    origin: Vector {
                        x: sat64(item_rect.origin.x + i * stride) as i64,
                        y: item_rect.origin.y,
                    },
                    size: Size { w: stretch_size.w, h: item_rect.size.h },
                };
                assert(spec_intersection(cand, item_rect) == Some(seg));
                assert forall|px: int, py: int| rect_contains(seg, px, py) implies rect_contains(
                    item_rect,
                    px,
                    py,
                ) by {
                    crate::geom::lemma_intersection_in_right(cand, item_rect, px, py);
                }
                proof_intersection_ends(cand, item_rect, seg);
                lemma_grid_inside_item(seg, stretch_size, tiling);
                assert(whole == head + rest);
                assert(forall|k: int| 0 <= k < head.len() ==> whole[k] == #[trigger] head[k]);
                assert(forall|k: int|
                    head.len() <= k < whole.len() ==> whole[k] == #[trigger] rest[k - head.len()]);
            },
            None => {
                assert(whole == Seq::<TilePrim>::empty() + rest);
                assert(forall|k: int| 0 <= k < rest.len() ==> whole[k] == #[trigger] rest[k]);
            },
        }
    }
}

/// Every primitive of one row's decomposition lies inside the row's
/// rectangle.
proof fn lemma_decompose_row_inside(
    item_rect: Rect,
    stretch_size: Size,
    tile_spacing: Size,
    tiling: TilingInfo,
)
    requires
        tiling.tile_size >= 1,
        item_rect.origin.x + item_rect.size.w >= i64::MIN,
        item_rect.origin.y + item_rect.size.h >= i64::MIN,
    ensures
        forall|k: int, x: int, y: int|
            0 <= k < spec_decompose_image_row(item_rect, stretch_size, tile_spacing, tiling).len()
                && rect_contains(
                (#[trigger] spec_decompose_image_row(
                    item_rect,
                    stretch_size,
                    tile_spacing,
                    tiling,
                )[k]).rect,
                x,
                y,
            ) ==> #[trigger] rect_contains(item_rect, x, y),
{
    if !spec_tiled_in_x(tiling) && tile_spacing.w == 0 {
        lemma_grid_inside_item(item_rect, stretch_size, tiling);
    } else {
        lemma_row_prims_inside(item_rect, stretch_size, tile_spacing, tiling, 0);
    }
}

/// No emitted primitive extends outside the item rectangle, for every
/// input: rows, segments and cells are all clipped against the rectangle
/// they were cut from.
pub proof fn lemma_decompose_image_inside_item(
    item_rect: Rect,
    stretch_size: Size,
    tile_spacing: Size,
    tiling: TilingInfo,
)
    requires
        tiling.tile_size >= 1,
        item_rect.origin.x + item_rect.size.w >= i64::MIN,
        item_rect.origin.y + item_rect.size.h >= i64::MIN,
    ensures
        forall|k: int, x: int, y: int|
            0 <= k < spec_decompose_image(item_rect, stretch_size, tile_spacing, tiling).len()
                && rect_contains(
                (#[trigger] spec_decompose_image(item_rect, stretch_size, tile_spacing, tiling)[k]).rect,
                x,
                y,
            ) ==> #[trigger] rect_contains(item_rect, x, y),
{
    if !spec_tiled_in_y(tiling) && tile_spacing.h == 0 {
        lemma_decompose_row_inside(item_rect, stretch_size, tile_spacing, tiling);
    } else {
        lemma_image_prims_inside(item_rect, stretch_size, tile_spacing, tiling, 0);
    }
}

/// Every primitive of the vertical repetitions from `i` on lies inside the
/// item rectangle.
proof fn lemma_image_prims_inside(
    item_rect: Rect,
    stretch_size: Size,
    tile_spacing: Size,
    tiling: TilingInfo,
    i: int,
)
    requires
        tiling.tile_size >= 1,
        item_rect.origin.x + item_rect.size.w >= i64::MIN,
        item_rect.origin.y + item_rect.size.h >= i64::MIN,
    ensures
        forall|k: int, x: int, y: int|
            0 <= k < spec_image_prims_from(item_rect, stretch_size, tile_spacing, tiling, i).len()
                && rect_contains(
                (#[trigger] spec_image_prims_from(
                    item_rect,
                    stretch_size,
                    tile_spacing,
                    tiling,
                    i,
                )[k]).rect,
                x,
                y,
            ) ==> #[trigger] rect_contains(item_rect, x, y),
    decreases spec_ceil_div(max0(item_rect.size.h), spec_stride_y(stretch_size, tile_spacing)) - i,
{
    let reps = spec_ceil_div(max0(item_rect.size.h), spec_stride_y(stretch_size, tile_spacing));
    if 0 <= i < reps {
        lemma_image_prims_inside(item_rect, stretch_size, tile_spacing, tiling, i + 1);
        let whole = spec_image_prims_from(item_rect, stretch_size, tile_spacing, tiling, i);
        let rest = spec_image_prims_from(item_rect, stretch_size, tile_spacing, tiling, i + 1);
        match spec_y_row(item_rect, stretch_size, tile_spacing, i) {
            Some(row) => {
                let head = spec_decompose_image_row(row, stretch_size, tile_spacing, tiling);
                let stride = spec_stride_y(stretch_size, tile_spacing);
                let cand = Rect {
                    origin: Vector {
                        x: item_rect.origin.x,
                        y: sat64(item_rect.origin.y + i * stride) as i64,
                    },
                    size: Size { w: item_rect.size.w, h: stretch_size.h },
                };
                assert(spec_intersection(cand, item_rect) == Some(row));
                assert forall|px: int, py: int| rect_contains(row, px, py) implies rect_contains(
                    item_rect,
                    px,
                    py,
                ) by {
                    crate::geom::lemma_intersection_in_right(cand, item_rect, px, py);
                }
                proof_intersection_ends(cand, item_rect, row);
                lemma_decompose_row_inside(row, stretch_size, tile_spacing, tiling);
                assert(whole == head + rest);
                assert(forall|k: int| 0 <= k < head.len() ==> whole[k] == #[trigger] head[k]);
                assert(forall|k: int|
                    head.len() <= k < whole.len() ==> whole[k] == #[trigger] rest[k - head.len()]);
            },
            None => {
                assert(whole == Seq::<TilePrim>::empty() + rest);
                assert(forall|k: int| 0 <= k < rest.len() ==> whole[k] == #[trigger] rest[k]);
            },
        }
    }
}

/// Exact tile coverage at the public entry: an unrepeated, unspaced draw of
/// a tiled image emits primitives that stay inside the item rectangle,
/// cover every point of it, and never overlap.
pub proof fn lemma_decompose_image_exact_coverage(
    item_rect: Rect,
    stretch_size: Size,
    tile_spacing: Size,
    tiling: TilingInfo,
)
    requires
        tiling.tile_size >= 1,
        tiling.image_width >= 1,
        tiling.image_height >= 1,
        rect_bounded(item_rect),
        tile_spacing.w == 0,
        tile_spacing.h == 0,
        1 <= item_rect.size.w <= stretch_size.w <= crate::geom::COORD_LIMIT,
        1 <= item_rect.size.h <= stretch_size.h <= crate::geom::COORD_LIMIT,
    ensures
        forall|k: int, x: int, y: int|
            0 <= k < spec_decompose_image(item_rect, stretch_size, tile_spacing, tiling).len()
                && rect_contains(
                (#[trigger] spec_decompose_image(item_rect, stretch_size, tile_spacing, tiling)[k]).rect,
                x,
                y,
            ) ==> #[trigger] rect_contains(item_rect, x, y),
        forall|x: int, y: int| #[trigger]
            rect_contains(item_rect, x, y) ==> tile_covered(
                spec_decompose_image(item_rect, stretch_size, tile_spacing, tiling),
                x,
                y,
            ),
        forall|k1: int, k2: int, x: int, y: int|
            #![trigger rect_contains(spec_decompose_image(item_rect, stretch_size, tile_spacing, tiling)[k1].rect, x, y), rect_contains(spec_decompose_image(item_rect, stretch_size, tile_spacing, tiling)[k2].rect, x, y)]
            0 <= k1 < spec_decompose_image(item_rect, stretch_size, tile_spacing, tiling).len()
                && 0 <= k2 < spec_decompose_image(
                item_rect,
                stretch_size,
                tile_spacing,
                tiling,
            ).len() && k1 != k2 && rect_contains(
                spec_decompose_image(item_rect, stretch_size, tile_spacing, tiling)[k1].rect,
                x,
                y,
            ) ==> !rect_contains(
                spec_decompose_image(item_rect, stretch_size, tile_spacing, tiling)[k2].rect,
                x,
                y,
            ),
{
    lemma_unrepeated_draw_is_one_grid(item_rect, stretch_size, tile_spacing, tiling);
    lemma_tile_grid_exact_coverage(item_rect, stretch_size, tiling);
}

/// Shader-repeat suppression: in the grid decomposition of one rectangle,
/// every emitted primitive carries the shader-repeat flag for an axis that
/// needs repetition but is not tile-split — and on such an axis the grid is
/// one cell wide, so the repetition is done by the shader rather than by
/// duplicated primitives.
pub proof fn lemma_shader_repeat_suppression(
    item_rect: Rect,
    stretch_size: Size,
    tiling: TilingInfo,
)
    requires
        tiling.tile_size >= 1,
    ensures
        forall|k: int|
            0 <= k < spec_decompose_tiled_image(item_rect, stretch_size, tiling).len() ==> {
                let p = #[trigger] spec_decompose_tiled_image(item_rect, stretch_size, tiling)[k];
                &&& p.shader_repeat_x == spec_shader_repeat_x(item_rect, stretch_size, tiling)
                &&& p.shader_repeat_y == spec_shader_repeat_y(item_rect, stretch_size, tiling)
                &&& (!spec_tiled_in_x(tiling) ==> p.tile_offset.x == 0)
                &&& (!spec_tiled_in_y(tiling) ==> p.tile_offset.y == 0)
            },
{
    lemma_rows_cells_flags(item_rect, stretch_size, tiling, 0);
}

/// The primitive for grid cell (tx, ty), or `None` when it lies outside the
/// item rectangle.
fn make_tile_primitive(
    item_rect: Rect,
    stretch_size: Size,
    tiling: TilingInfo,
    tx: u64,
    ty: u64,
) -> (prim: Option<TilePrim>)
    requires
        tiling.tile_size >= 1,
        tx <= spec_num_tiles_x(tiling),
        ty <= spec_num_tiles_y(tiling),
    ensures
        prim == spec_tile_prim_at(item_rect, stretch_size, tiling, tx as int, ty as int),
{
    let num_tiles_x: u32 = tiling.image_width / tiling.tile_size;
    let num_tiles_y: u32 = tiling.image_height / tiling.tile_size;
    let srx = stretch_size.w < item_rect.size.w && !(tiling.image_width > tiling.tile_size);
    let sry = stretch_size.h < item_rect.size.h && !(tiling.image_height > tiling.tile_size);
    let x0 = axis_edge(tiling.image_width, tiling.tile_size, stretch_size.w, tx);
    let x1 = axis_edge(tiling.image_width, tiling.tile_size, stretch_size.w, tx + 1);
    let y0 = axis_edge(tiling.image_height, tiling.tile_size, stretch_size.h, ty);
    let y1 = axis_edge(tiling.image_height, tiling.tile_size, stretch_size.h, ty + 1);
    let cw: i64 = x1 - x0;
    let ch: i64 = y1 - y0;
    let px: i64 = clamp_i128((item_rect.origin.x as i128) + (x0 as i128));
    let py: i64 = clamp_i128((item_rect.origin.y as i128) + (y0 as i128));
    let w: i64 = if srx {
        item_rect.size.w
    } else {
        cw
    };
    let h: i64 = if sry {
        item_rect.size.h
    } else {
        ch
    };
    let candidate = Rect { origin: Vector { x: px, y: py }, size: Size { w, h } };
    match candidate.intersection(&item_rect) {
        Some(clipped) => Some(
            TilePrim {
                rect: clipped,
                stretched_size: Size { w: cw, h: ch },
                tile_offset: TileOffset { x: tx as u32, y: ty as u32 },
                shader_repeat_x: srx,
                shader_repeat_y: sry,
            },
        ),
        None => None,
    }
}

/// The layout boundary of grid cell `k` along one axis (executable
/// counterpart of `spec_axis_edge`).
fn axis_edge(image_extent: u32, tile_size: u32, stretch: i64, k: u64) -> (e: i64)
    ensures
        e as int == spec_axis_edge(image_extent, tile_size, stretch, k as int),
        0 <= e <= max0(stretch),
{
    if image_extent == 0 {
        return 0;
    }
    let s: i64 = if stretch > 0 {
        stretch
    } else {
        0
    };
    proof {
        crate::geom::lemma_mul_bounds(k as int, tile_size as int, u64::MAX as int, u32::MAX as int);
    }
    let kc: i128 = (k as i128) * (tile_size as i128);
    let c: i128 = if kc < image_extent as i128 {
        kc
    } else {
        image_extent as i128
    };
    proof {
        crate::geom::lemma_mul_bounds(c as int, s as int, u32::MAX as int, i64::MAX as int);
        assert(0 <= (c as int) * (s as int) / (image_extent as int) <= s as int)
            by (nonlinear_arith)
            requires
                0 <= c as int <= image_extent as int && image_extent >= 1 && 0 <= s,
        ;
    }
    ((c * (s as i128)) / (image_extent as i128)) as i64
}

} // verus!
