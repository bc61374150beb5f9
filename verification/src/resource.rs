//! The resource cache surface the engine reads: font-instance existence and
//! the per-build snapshot of image-tiling metadata.

use vstd::prelude::*;
use crate::api::{FontInstanceKey, ImageKey};

verus! {

/// How one image resource is tiled in the texture cache: its full size in
/// device pixels and the edge length of one square tile.
#[derive(Clone, Copy, PartialEq, Eq, Structural, Debug)]
pub struct TilingInfo {
    pub image_width: u32,
    pub image_height: u32,
    pub tile_size: u32,
}

/// A resolved font instance. The engine only threads it through to the
/// builder, so it carries just its key.
#[derive(Clone, Copy, PartialEq, Eq, Structural, Debug)]
pub struct FontInstance {
    pub font_key: FontInstanceKey,
}

/// The tiling metadata for `key`, if that image is tiled (later entries
/// shadow earlier ones).
pub open spec fn seq_tiling_get(s: Seq<(ImageKey, TilingInfo)>, key: ImageKey) -> Option<
    TilingInfo,
>
    decreases s.len(),
{
    if s.len() == 0 {
        None
    } else if s.last().0 == key {
        Some(s.last().1)
    } else {
        seq_tiling_get(s.drop_last(), key)
    }
}

/// The snapshot of image-tiling metadata taken once per build.
pub struct TiledImageMap {
    pub entries: Vec<(ImageKey, TilingInfo)>,
}

impl TiledImageMap {
    pub open spec fn spec_get(self, key: ImageKey) -> Option<TilingInfo> {
        seq_tiling_get(self.entries@, key)
    }

    /// Every tile size is at least one pixel, so tile arithmetic never
    /// divides by zero.
    pub open spec fn wf(self) -> bool {
        forall|k: int|
            0 <= k < self.entries@.len() ==> (#[trigger] self.entries@[k]).1.tile_size >= 1
    }

    pub fn get(&self, key: ImageKey) -> (r: Option<TilingInfo>)
        ensures
            r == self.spec_get(key),
    {
        proof {
            assert(self.entries@.subrange(0, self.entries@.len() as int) =~= self.entries@);
        }
        lookup_tiling_prefix(&self.entries, self.entries.len(), key)
    }
}

/// Tiling metadata that respects the map's well-formedness is itself
/// well-formed.
pub proof fn lemma_tiling_get_wf(m: TiledImageMap, key: ImageKey)
    requires
        m.wf(),
        m.spec_get(key).is_some(),
    ensures
        m.spec_get(key).unwrap().tile_size >= 1,
{
    lemma_seq_tiling_get_wf(m.entries@, key);
}

proof fn lemma_seq_tiling_get_wf(s: Seq<(ImageKey, TilingInfo)>, key: ImageKey)
    requires
        forall|k: int| 0 <= k < s.len() ==> (#[trigger] s[k]).1.tile_size >= 1,
        seq_tiling_get(s, key).is_some(),
    ensures
        seq_tiling_get(s, key).unwrap().tile_size >= 1,
    decreases s.len(),
{
    if s.len() > 0 && s.last().0 != key {
        assert(forall|k: int| 0 <= k < s.drop_last().len() ==> (#[trigger] s.drop_last()[k]) == s[k]);
        lemma_seq_tiling_get_wf(s.drop_last(), key);
    }
}

/// The last tiling entry for `key` among the first `n` entries.
fn lookup_tiling_prefix(v: &Vec<(ImageKey, TilingInfo)>, n: usize, key: ImageKey) -> (r: Option<
    TilingInfo,
>)
    requires
        n <= v@.len(),
    ensures
        r == seq_tiling_get(v@.subrange(0, n as int), key),
    decreases n,
{
    if n == 0 {
        None
    } else {
        proof {
            assert(v@.subrange(0, n as int).drop_last() =~= v@.subrange(0, n - 1));
            assert(v@.subrange(0, n as int).last() == v@[n - 1]);
        }
        if v[n - 1].0 == key {
            Some(v[n - 1].1)
        } else {
            lookup_tiling_prefix(v, n - 1, key)
        }
    }
}

/// The read-only resource cache surface used during a build.
pub struct ResourceCache {
    pub fonts: Vec<FontInstanceKey>,
    pub tiled_images: Vec<(ImageKey, TilingInfo)>,
}

impl ResourceCache {
    pub open spec fn spec_has_font(self, key: FontInstanceKey) -> bool {
        exists|k: int| 0 <= k < self.fonts@.len() && self.fonts@[k] == key
    }

    pub open spec fn wf(self) -> bool {
        forall|k: int|
            0 <= k < self.tiled_images@.len() ==> (#[trigger] self.tiled_images@[k]).1.tile_size
                >= 1
    }

    /// The font instance registered under `key`, if any.
    pub fn get_font_instance(&self, key: FontInstanceKey) -> (r: Option<FontInstance>)
        ensures
            r == if self.spec_has_font(key) {
                Some(FontInstance { font_key: key })
            } else {
                None::<FontInstance>
            },
    {
        let n = self.fonts.len();
        let mut i: usize = 0;
        while i < n
            invariant
                i <= n,
                n == self.fonts@.len(),
                forall|k: int| 0 <= k < i ==> self.fonts@[k] != key,
            decreases n - i,
        {
            if self.fonts[i] == key {
                return Some(FontInstance { font_key: key });
            }
            i += 1;
        }
        None
    }

    /// Snapshot the tiling metadata for this build.
    pub fn get_tiled_image_map(&self) -> (m: TiledImageMap)
        ensures
            m.entries@ == self.tiled_images@,
            self.wf() ==> m.wf(),
    {
        let mut entries: Vec<(ImageKey, TilingInfo)> = Vec::new();
        let n = self.tiled_images.len();
        let mut i: usize = 0;
        while i < n
            invariant
                i <= n,
                n == self.tiled_images@.len(),
                entries@ == self.tiled_images@.subrange(0, i as int),
            decreases n - i,
        {
            entries.push(self.tiled_images[i]);
            i += 1;
            proof {
                assert(entries@ =~= self.tiled_images@.subrange(0, i as int));
            }
        }
        proof {
            assert(self.tiled_images@.subrange(0, n as int) =~= self.tiled_images@);
        }
        TiledImageMap { entries }
    }
}

} // verus!
