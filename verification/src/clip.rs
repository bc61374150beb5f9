//! The clip shape attached to a clip node: a main rectangle, optional
//! rounded sub-regions, and an optional image mask, with the origin the
//! region is positioned at.

use vstd::prelude::*;
use crate::api::{ComplexClipRegion, ImageMask, LocalClip};
use crate::geom::{Rect, Vector, spec_translate};

verus! {

/// A materialized clip region, ready to become a clip node.
#[derive(Clone, Debug)]
pub struct ClipRegion {
    pub origin: Vector,
    pub main: Rect,
    pub complex_clips: Vec<ComplexClipRegion>,
    pub image_mask: Option<ImageMask>,
}

impl ClipRegion {
    /// A clip node region from an explicit rectangle, rounded sub-regions
    /// and mask.
    pub fn create_for_clip_node(
        rect: Rect,
        complex_clips: Vec<ComplexClipRegion>,
        image_mask: Option<ImageMask>,
    ) -> (region: ClipRegion)
        ensures
            region.origin == rect.origin,
            region.main == rect,
            region.complex_clips == complex_clips,
            region.image_mask == image_mask,
    {
        ClipRegion { origin: rect.origin, main: rect, complex_clips, image_mask }
    }

    /// A clip node region carrying exactly what an item's local clip says:
    /// its rectangle bound, plus the rounded region if there is one.
    pub fn create_for_clip_node_with_local_clip(local_clip: &LocalClip) -> (region: ClipRegion)
        ensures
            region.origin == local_clip.spec_clip_rect().origin,
            region.main == local_clip.spec_clip_rect(),
            region.complex_clips@ == match *local_clip {
                LocalClip::Rect(_) => Seq::<ComplexClipRegion>::empty(),
                LocalClip::RoundedRect(_, r) => seq![r],
            },
            region.image_mask is None,
    {
        let mut complex_clips: Vec<ComplexClipRegion> = Vec::new();
        match local_clip {
            LocalClip::Rect(_) => {},
            LocalClip::RoundedRect(_, region) => {
                complex_clips.push(*region);
                proof {
                    assert(complex_clips@ =~= seq![*region]);
                }
            },
        }
        ClipRegion {
            origin: local_clip.clip_rect().origin,
            main: local_clip.clip_rect(),
            complex_clips,
            image_mask: None,
        }
    }

    /// Move the region by `offset`: both the placement origin and the main
    /// rectangle follow.
    pub fn translate(&mut self, offset: Vector)
        ensures
            final(self).origin == old(self).origin.spec_add(offset),
            final(self).main == spec_translate(old(self).main, offset),
            final(self).complex_clips == old(self).complex_clips,
            final(self).image_mask == old(self).image_mask,
    {
        self.origin = self.origin.add(offset);
        self.main = self.main.translate(offset);
    }
}

} // verus!
