use scene_flatten::api::{ImageDisplayItem, ImageKey, ImageRendering, TileOffset};
use scene_flatten::decompose::decompose_image;
use scene_flatten::geom::{Rect, Size, Vector};
use scene_flatten::resource::TilingInfo;

fn rect(x: i64, y: i64, w: i64, h: i64) -> Rect {
    Rect { origin: Vector { x, y }, size: Size { w, h } }
}

fn image(stretch_w: i64, stretch_h: i64) -> ImageDisplayItem {
    ImageDisplayItem {
        image_key: ImageKey(1),
        stretch_size: Size { w: stretch_w, h: stretch_h },
        tile_spacing: Size { w: 0, h: 0 },
        image_rendering: ImageRendering::Auto,
    }
}

#[test]
fn tile_coverage_of_a_300_by_140_image_with_tile_size_128() {
    // tiles_x = 2, tiles_y = 1, leftover = (44, 12): two full tiles and a
    // right edge in the first row, two bottom-edge tiles and a corner below.
    let tiling = TilingInfo { image_width: 300, image_height: 140, tile_size: 128 };
    let item_rect = rect(0, 0, 300, 140);
    let prims = decompose_image(item_rect, &image(300, 140), tiling);
    assert_eq!(prims.len(), 6);

    let expected = [
        (rect(0, 0, 128, 128), TileOffset { x: 0, y: 0 }),
        (rect(128, 0, 128, 128), TileOffset { x: 1, y: 0 }),
        (rect(256, 0, 44, 128), TileOffset { x: 2, y: 0 }),
        (rect(0, 128, 128, 12), TileOffset { x: 0, y: 1 }),
        (rect(128, 128, 128, 12), TileOffset { x: 1, y: 1 }),
        (rect(256, 128, 44, 12), TileOffset { x: 2, y: 1 }),
    ];
    for (prim, (r, t)) in prims.iter().zip(expected.iter()) {
        assert_eq!(prim.rect, *r);
        assert_eq!(prim.tile_offset, *t);
        assert!(!prim.shader_repeat_x);
        assert!(!prim.shader_repeat_y);
    }

    // The union of the tile rectangles covers the item rectangle exactly:
    // the areas sum to it and no two tiles overlap.
    let area: i64 = prims.iter().map(|p| p.rect.size.w * p.rect.size.h).sum();
    assert_eq!(area, 300 * 140);
    for i in 0..prims.len() {
        for j in 0..i {
            assert!(prims[i].rect.intersection(&prims[j].rect).is_none());
        }
    }
    for p in prims.iter() {
        assert_eq!(p.rect.intersection(&item_rect), Some(p.rect));
    }
}

#[test]
fn shader_repeat_suppression_for_a_narrow_stretched_image() {
    // The image (20 wide) fits in one tile horizontally but is stretched to
    // 200 and drawn into a 600-wide rectangle: the horizontal repetition is
    // left to the shader, so there is one column of primitives spanning the
    // full width, not duplicated primitives.
    let tiling = TilingInfo { image_width: 20, image_height: 400, tile_size: 128 };
    let item_rect = rect(0, 0, 600, 400);
    let prims = decompose_image(item_rect, &image(200, 400), tiling);
    // Vertically tiled: three full rows of 128 and a 16-pixel bottom edge.
    assert_eq!(prims.len(), 4);
    for (k, prim) in prims.iter().enumerate() {
        assert_eq!(prim.tile_offset.x, 0);
        assert_eq!(prim.tile_offset.y, k as u32);
        assert!(prim.shader_repeat_x);
        assert!(!prim.shader_repeat_y);
        assert_eq!(prim.rect.size.w, 600);
        assert_eq!(prim.stretched_size.w, 200);
    }
    assert_eq!(prims[3].rect, rect(0, 384, 600, 16));
}

#[test]
fn tiles_outside_the_item_rectangle_are_dropped() {
    let tiling = TilingInfo { image_width: 300, image_height: 140, tile_size: 128 };
    let item_rect = rect(0, 0, 100, 50);
    let prims = decompose_image(item_rect, &image(300, 140), tiling);
    assert_eq!(prims.len(), 1);
    assert_eq!(prims[0].rect, rect(0, 0, 100, 50));
    assert_eq!(prims[0].tile_offset, TileOffset { x: 0, y: 0 });
}

#[test]
fn vertical_spacing_splits_repetitions_into_rows() {
    // A 50-pixel-tall image with 10 pixels of vertical spacing repeated down
    // a 100-pixel rectangle makes two rows of tiles, the second clipped.
    let tiling = TilingInfo { image_width: 300, image_height: 50, tile_size: 128 };
    let item_rect = rect(0, 0, 300, 100);
    let mut item = image(300, 50);
    item.tile_spacing = Size { w: 0, h: 10 };
    let prims = decompose_image(item_rect, &item, tiling);
    // Each row: two full tiles and one right-edge tile.
    assert_eq!(prims.len(), 6);
    assert_eq!(prims[0].rect, rect(0, 0, 128, 50));
    assert_eq!(prims[1].rect, rect(128, 0, 128, 50));
    assert_eq!(prims[2].rect, rect(256, 0, 44, 50));
    assert_eq!(prims[3].rect, rect(0, 60, 128, 40));
    assert_eq!(prims[4].rect, rect(128, 60, 128, 40));
    assert_eq!(prims[5].rect, rect(256, 60, 44, 40));
}

#[test]
fn inexact_tile_divisions_still_cover_the_item_exactly() {
    // A 3x3 image with tile size 2 stretched to 5x5: the per-tile share of
    // the stretch (5/3 of a tile) is not a whole number, but the cells are
    // cut at cumulative boundaries (0, 3, 5), so they still tile the
    // rectangle exactly.
    let tiling = TilingInfo { image_width: 3, image_height: 3, tile_size: 2 };
    let item_rect = rect(0, 0, 5, 5);
    let prims = decompose_image(item_rect, &image(5, 5), tiling);
    assert_eq!(prims.len(), 4);
    let expected = [
        (rect(0, 0, 3, 3), TileOffset { x: 0, y: 0 }),
        (rect(3, 0, 2, 3), TileOffset { x: 1, y: 0 }),
        (rect(0, 3, 3, 2), TileOffset { x: 0, y: 1 }),
        (rect(3, 3, 2, 2), TileOffset { x: 1, y: 1 }),
    ];
    for (prim, (r, t)) in prims.iter().zip(expected.iter()) {
        assert_eq!(prim.rect, *r);
        assert_eq!(prim.tile_offset, *t);
    }
    let area: i64 = prims.iter().map(|p| p.rect.size.w * p.rect.size.h).sum();
    assert_eq!(area, 5 * 5);
    for i in 0..prims.len() {
        for j in 0..i {
            assert!(prims[i].rect.intersection(&prims[j].rect).is_none());
        }
        assert_eq!(prims[i].rect.intersection(&item_rect), Some(prims[i].rect));
    }
}

#[test]
fn degenerate_stretch_size_produces_no_primitives() {
    let tiling = TilingInfo { image_width: 300, image_height: 140, tile_size: 128 };
    let item_rect = rect(0, 0, 300, 280);
    let prims = decompose_image(item_rect, &image(300, 0), tiling);
    assert_eq!(prims.len(), 0);
}
