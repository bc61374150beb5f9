//! The scene: an immutable mapping from pipeline identifier to pipeline
//! record (display list, sizes, background color, epoch), plus the resolver
//! for animated property bindings.

use vstd::prelude::*;
use crate::api::{
    Color, DisplayItem, Epoch, FilterOp, ComplexClipRegion, GlyphInstance, GradientStop,
    ItemRange, MixBlendMode, OpacityBinding, PipelineId, ResolvedFilterOp,
    SpecificDisplayItem, StackingContext, Transform, TransformBinding,
};
use crate::geom::Size;

verus! {

/// One pipeline's display list: the item stream plus the auxiliary arrays
/// that item ranges point into.
pub struct DisplayList {
    pub items: Vec<DisplayItem>,
    pub complex_clips: Vec<ComplexClipRegion>,
    pub filters: Vec<FilterOp>,
    pub glyphs: Vec<GlyphInstance>,
    pub gradient_stops: Vec<GradientStop>,
}

impl DisplayList {
    /// Every range carried by an item fits inside the auxiliary array it
    /// points into.
    pub open spec fn wf(self) -> bool {
        forall|k: int|
            0 <= k < self.items@.len() ==> item_ranges_valid(#[trigger] self.items@[k], self)
    }

    /// Copy one range of complex clip shapes out of the auxiliary array.
    pub fn get_complex_clips(&self, range: ItemRange) -> (clips: Vec<ComplexClipRegion>)
        requires
            range.valid_for(self.complex_clips@.len()),
        ensures
            clips@ == self.complex_clips@.subrange(
                range.start as int,
                range.start + range.length,
            ),
    {
        let mut clips: Vec<ComplexClipRegion> = Vec::new();
        let n = self.complex_clips.len();
        let mut i: usize = 0;
        while i < range.length
            invariant
                i <= range.length,
                range.start + range.length <= n,
                n == self.complex_clips@.len(),
                clips@ == self.complex_clips@.subrange(range.start as int, range.start + i),
            decreases range.length - i,
        {
            clips.push(self.complex_clips[range.start + i]);
            i += 1;
            proof {
                assert(clips@ =~= self.complex_clips@.subrange(
                    range.start as int,
                    range.start + i,
                ));
            }
        }
        clips
    }
}

/// The auxiliary-array ranges of one item, each checked against its array.
pub open spec fn item_ranges_valid(item: DisplayItem, list: DisplayList) -> bool {
    match item.item {
        SpecificDisplayItem::Clip(info) => info.complex_clips.valid_for(
            list.complex_clips@.len(),
        ),
        SpecificDisplayItem::ScrollFrame(info) => info.complex_clips.valid_for(
            list.complex_clips@.len(),
        ),
        SpecificDisplayItem::Text(info) => info.glyphs.valid_for(list.glyphs@.len()),
        SpecificDisplayItem::Gradient(info) => info.stops.valid_for(list.gradient_stops@.len()),
        SpecificDisplayItem::RadialGradient(info) => info.stops.valid_for(
            list.gradient_stops@.len(),
        ),
        SpecificDisplayItem::Border(info) => info.gradient_stops.valid_for(
            list.gradient_stops@.len(),
        ),
        SpecificDisplayItem::PushStackingContext(info) => info.stacking_context.filters.valid_for(
            list.filters@.len(),
        ),
        _ => true,
    }
}

/// One embeddable document: its display list and metadata.
pub struct ScenePipeline {
    pub pipeline_id: PipelineId,
    pub epoch: Epoch,
    pub viewport_size: Size,
    pub content_size: Size,
    pub background_color: Option<Color>,
    pub display_list: DisplayList,
}

/// Resolved values for animated property bindings, keyed by binding key.
pub struct SceneProperties {
    pub transforms: Vec<(u64, Transform)>,
    pub opacities: Vec<(u64, u32)>,
}

/// The last value bound to `key`, if any (later entries shadow earlier ones).
pub open spec fn seq_transform_get(s: Seq<(u64, Transform)>, key: u64) -> Option<Transform>
    decreases s.len(),
{
    if s.len() == 0 {
        None
    } else if s.last().0 == key {
        Some(s.last().1)
    } else {
        seq_transform_get(s.drop_last(), key)
    }
}

pub open spec fn seq_opacity_get(s: Seq<(u64, u32)>, key: u64) -> Option<u32>
    decreases s.len(),
{
    if s.len() == 0 {
        None
    } else if s.last().0 == key {
        Some(s.last().1)
    } else {
        seq_opacity_get(s.drop_last(), key)
    }
}

/// A transform binding resolved against the properties: a direct value is
/// returned as is; a key is looked up, the identity standing in for a key
/// with no bound value; no binding at all means the identity.
pub open spec fn spec_resolve_transform(
    props: SceneProperties,
    binding: Option<TransformBinding>,
) -> Transform {
    match binding {
        None => Transform { token: 0u64 },
        Some(TransformBinding::Value(t)) => t,
        Some(TransformBinding::Binding(key)) => match seq_transform_get(props.transforms@, key) {
            Some(t) => t,
            None => Transform { token: 0u64 },
        },
    }
}

pub open spec fn spec_resolve_opacity(props: SceneProperties, binding: OpacityBinding) -> u32 {
    match binding {
        OpacityBinding::Value(v) => v,
        OpacityBinding::Binding(key) => match seq_opacity_get(props.opacities@, key) {
            Some(v) => v,
            None => 1000u32,
        },
    }
}

impl SceneProperties {
    pub fn resolve_layout_transform(&self, binding: Option<&TransformBinding>) -> (t: Transform)
        ensures
            t == spec_resolve_transform(
                *self,
                match binding {
                    Some(b) => Some(*b),
                    None => None,
                },
            ),
    {
        match binding {
            None => Transform::identity(),
            Some(TransformBinding::Value(t)) => *t,
            Some(TransformBinding::Binding(key)) => {
                proof {
                    assert(self.transforms@.subrange(0, self.transforms@.len() as int) =~= self
                        .transforms@);
                }
                match lookup_transform_prefix(&self.transforms, self.transforms.len(), *key) {
                    Some(t) => t,
                    None => Transform::identity(),
                }
            },
        }
    }

    pub fn resolve_opacity(&self, binding: &OpacityBinding) -> (v: u32)
        ensures
            v == spec_resolve_opacity(*self, *binding),
    {
        match binding {
            OpacityBinding::Value(v) => *v,
            OpacityBinding::Binding(key) => {
                proof {
                    assert(self.opacities@.subrange(0, self.opacities@.len() as int) =~= self
                        .opacities@);
                }
                match lookup_opacity_prefix(&self.opacities, self.opacities.len(), *key) {
                    Some(v) => v,
                    None => 1000,
                }
            },
        }
    }
}

/// The last transform bound to `key` among the first `n` entries.
fn lookup_transform_prefix(v: &Vec<(u64, Transform)>, n: usize, key: u64) -> (r: Option<
    Transform,
>)
    requires
        n <= v@.len(),
    ensures
        r == seq_transform_get(v@.subrange(0, n as int), key),
    decreases n,
{
    if n == 0 {
        None
    } else {
        proof {
            assert(v@.subrange(0, n as int).drop_last() =~= v@.subrange(0, n - 1));
            assert(v@.subrange(0, n as int).last() == v@[n - 1]);
        }
        if v[n - 1].0 == key {
            Some(v[n - 1].1)
        } else {
            lookup_transform_prefix(v, n - 1, key)
        }
    }
}

/// The last opacity bound to `key` among the first `n` entries.
fn lookup_opacity_prefix(v: &Vec<(u64, u32)>, n: usize, key: u64) -> (r: Option<u32>)
    requires
        n <= v@.len(),
    ensures
        r == seq_opacity_get(v@.subrange(0, n as int), key),
    decreases n,
{
    if n == 0 {
        None
    } else {
        proof {
            assert(v@.subrange(0, n as int).drop_last() =~= v@.subrange(0, n - 1));
            assert(v@.subrange(0, n as int).last() == v@[n - 1]);
        }
        if v[n - 1].0 == key {
            Some(v[n - 1].1)
        } else {
            lookup_opacity_prefix(v, n - 1, key)
        }
    }
}

/// The immutable scene a build reads: pipeline records and property values.
pub struct Scene {
    pub root_pipeline_id: Option<PipelineId>,
    pub pipelines: Vec<ScenePipeline>,
    pub properties: SceneProperties,
}

/// The record of pipeline `id`, if any (later records shadow earlier ones,
/// so lookup is deterministic even without a uniqueness assumption).
pub open spec fn seq_pipeline_index(s: Seq<ScenePipeline>, id: PipelineId) -> Option<int>
    decreases s.len(),
{
    if s.len() == 0 {
        None
    } else if s.last().pipeline_id == id {
        Some(s.len() - 1)
    } else {
        seq_pipeline_index(s.drop_last(), id)
    }
}

impl Scene {
    /// Every pipeline's display list has its item ranges in bounds.
    pub open spec fn wf(self) -> bool {
        forall|k: int|
            0 <= k < self.pipelines@.len() ==> (#[trigger] self.pipelines@[k]).display_list.wf()
    }

    pub open spec fn spec_pipeline_index(self, id: PipelineId) -> Option<int> {
        seq_pipeline_index(self.pipelines@, id)
    }

    pub open spec fn has_pipeline(self, id: PipelineId) -> bool {
        self.spec_pipeline_index(id).is_some()
    }

    /// The pipeline record for `id`; meaningful only when `has_pipeline(id)`.
    pub open spec fn spec_pipeline(self, id: PipelineId) -> ScenePipeline {
        self.pipelines@[self.spec_pipeline_index(id).unwrap()]
    }

    pub fn get_pipeline(&self, id: PipelineId) -> (p: Option<&ScenePipeline>)
        ensures
            match p {
                Some(p) => self.has_pipeline(id) && *p == self.spec_pipeline(id),
                None => !self.has_pipeline(id),
            },
    {
        proof {
            assert(self.pipelines@.subrange(0, self.pipelines@.len() as int) =~= self.pipelines@);
            lemma_seq_pipeline_index_in_range(self.pipelines@, id);
        }
        lookup_pipeline_prefix(&self.pipelines, self.pipelines.len(), id)
    }
}

/// The last record for `id` among the first `n` pipelines.
fn lookup_pipeline_prefix(v: &Vec<ScenePipeline>, n: usize, id: PipelineId) -> (r: Option<
    &ScenePipeline,
>)
    requires
        n <= v@.len(),
    ensures
        match r {
            Some(p) => {
                &&& seq_pipeline_index(v@.subrange(0, n as int), id).is_some()
                &&& *p == v@[seq_pipeline_index(v@.subrange(0, n as int), id).unwrap()]
            },
            None => seq_pipeline_index(v@.subrange(0, n as int), id).is_none(),
        },
    decreases n,
{
    if n == 0 {
        None
    } else {
        proof {
            assert(v@.subrange(0, n as int).drop_last() =~= v@.subrange(0, n - 1));
            assert(v@.subrange(0, n as int).last() == v@[n - 1]);
        }
        if v[n - 1].pipeline_id == id {
            Some(&v[n - 1])
        } else {
            lookup_pipeline_prefix(v, n - 1, id)
        }
    }
}

/// In a well-formed scene, a present pipeline's display list is well-formed.
pub proof fn lemma_scene_pipeline_wf(scene: Scene, id: PipelineId)
    requires
        scene.wf(),
        scene.has_pipeline(id),
    ensures
        scene.spec_pipeline(id).display_list.wf(),
{
    lemma_seq_pipeline_index_in_range(scene.pipelines@, id);
}

/// A found pipeline index lies in range and names a record with that id.
pub proof fn lemma_seq_pipeline_index_in_range(s: Seq<ScenePipeline>, id: PipelineId)
    ensures
        match seq_pipeline_index(s, id) {
            Some(k) => 0 <= k < s.len() && s[k].pipeline_id == id,
            None => forall|k: int| 0 <= k < s.len() ==> s[k].pipeline_id != id,
        },
    decreases s.len(),
{
    if s.len() == 0 {
    } else if s.last().pipeline_id == id {
        assert(s[s.len() - 1] == s.last());
    } else {
        lemma_seq_pipeline_index_in_range(s.drop_last(), id);
        match seq_pipeline_index(s.drop_last(), id) {
            Some(k) => {
                assert(s.drop_last()[k] == s[k]);
            },
            None => {
                assert forall|k: int| 0 <= k < s.len() implies s[k].pipeline_id != id by {
                    if k < s.len() - 1 {
                        assert(s.drop_last()[k] == s[k]);
                    } else {
                        assert(s[k] == s.last());
                    }
                }
            },
        }
    }
}

impl StackingContext {
    /// A mix-blend mode other than normal participates in compositing.
    pub fn mix_blend_mode_for_compositing(&self) -> (m: Option<MixBlendMode>)
        ensures
            m == if self.mix_blend_mode == MixBlendMode::Normal {
                None
            } else {
                Some(self.mix_blend_mode)
            },
    {
        match self.mix_blend_mode {
            MixBlendMode::Normal => None,
            m => Some(m),
        }
    }
}

/// One composite filter resolved against the property bindings.
pub open spec fn spec_resolve_filter(props: SceneProperties, op: FilterOp) -> ResolvedFilterOp {
    match op {
        FilterOp::Blur(v) => ResolvedFilterOp::Blur(v),
        FilterOp::Brightness(v) => ResolvedFilterOp::Brightness(v),
        FilterOp::Contrast(v) => ResolvedFilterOp::Contrast(v),
        FilterOp::Grayscale(v) => ResolvedFilterOp::Grayscale(v),
        FilterOp::HueRotate(v) => ResolvedFilterOp::HueRotate(v),
        FilterOp::Invert(v) => ResolvedFilterOp::Invert(v),
        FilterOp::Opacity(binding) => ResolvedFilterOp::Opacity(
            spec_resolve_opacity(props, binding),
        ),
        FilterOp::Saturate(v) => ResolvedFilterOp::Saturate(v),
        FilterOp::Sepia(v) => ResolvedFilterOp::Sepia(v),
    }
}

/// The composite filters of a stacking context, resolved and with no-op
/// filters dropped, in display-list order.
pub open spec fn spec_filters_for_compositing(
    props: SceneProperties,
    filters: Seq<FilterOp>,
) -> Seq<ResolvedFilterOp>
    decreases filters.len(),
{
    if filters.len() == 0 {
        Seq::empty()
    } else {
        let rest = spec_filters_for_compositing(props, filters.drop_last());
        let resolved = spec_resolve_filter(props, filters.last());
        if resolved.spec_is_noop() {
            rest
        } else {
            rest.push(resolved)
        }
    }
}

/// Resolve a stacking context's composite filters against the property
/// bindings, dropping filters that change nothing.
pub fn filter_ops_for_compositing(
    list: &DisplayList,
    range: ItemRange,
    properties: &SceneProperties,
) -> (ops: Vec<ResolvedFilterOp>)
    requires
        range.valid_for(list.filters@.len()),
    ensures
        ops@ == spec_filters_for_compositing(
            *properties,
            list.filters@.subrange(range.start as int, range.start + range.length),
        ),
{
    let mut ops: Vec<ResolvedFilterOp> = Vec::new();
    let n = list.filters.len();
    let mut i: usize = 0;
    while i < range.length
        invariant
            i <= range.length,
            range.start + range.length <= n,
            n == list.filters@.len(),
            ops@ == spec_filters_for_compositing(
                *properties,
                list.filters@.subrange(range.start as int, range.start + i),
            ),
        decreases range.length - i,
    {
        let op = list.filters[range.start + i];
        let resolved = match op {
            FilterOp::Blur(v) => ResolvedFilterOp::Blur(v),
            FilterOp::Brightness(v) => ResolvedFilterOp::Brightness(v),
            FilterOp::Contrast(v) => ResolvedFilterOp::Contrast(v),
            FilterOp::Grayscale(v) => ResolvedFilterOp::Grayscale(v),
            FilterOp::HueRotate(v) => ResolvedFilterOp::HueRotate(v),
            FilterOp::Invert(v) => ResolvedFilterOp::Invert(v),
            FilterOp::Opacity(binding) => ResolvedFilterOp::Opacity(
                properties.resolve_opacity(&binding),
            ),
            FilterOp::Saturate(v) => ResolvedFilterOp::Saturate(v),
            FilterOp::Sepia(v) => ResolvedFilterOp::Sepia(v),
        };
        if !resolved.is_noop() {
            ops.push(resolved);
        }
        i += 1;
        proof {
            assert(list.filters@.subrange(range.start as int, range.start + i).drop_last()
                =~= list.filters@.subrange(range.start as int, range.start + i - 1));
        }
    }
    ops
}

/// The per-build record of which pipelines the traversal reached, with each
/// one's epoch. Insertion is first-writer-wins: within one build every
/// insert for a pipeline carries the same epoch, so this equals replacement.
pub struct PipelineEpochMap {
    pub entries: Vec<(PipelineId, Epoch)>,
}

/// The epoch recorded for `id`, if any (later entries shadow earlier ones).
pub open spec fn seq_epoch_get(s: Seq<(PipelineId, Epoch)>, id: PipelineId) -> Option<Epoch>
    decreases s.len(),
{
    if s.len() == 0 {
        None
    } else if s.last().0 == id {
        Some(s.last().1)
    } else {
        seq_epoch_get(s.drop_last(), id)
    }
}

impl PipelineEpochMap {
    pub open spec fn spec_get(self, id: PipelineId) -> Option<Epoch> {
        seq_epoch_get(self.entries@, id)
    }

    pub open spec fn contains(self, id: PipelineId) -> bool {
        self.spec_get(id).is_some()
    }

    pub fn new() -> (m: PipelineEpochMap)
        ensures
            m.entries@.len() == 0,
    {
        PipelineEpochMap { entries: Vec::new() }
    }

    pub fn clear(&mut self)
        ensures
            final(self).entries@.len() == 0,
    {
        self.entries.clear();
    }

    pub fn get(&self, id: PipelineId) -> (e: Option<Epoch>)
        ensures
            e == self.spec_get(id),
    {
        proof {
            assert(self.entries@.subrange(0, self.entries@.len() as int) =~= self.entries@);
        }
        lookup_epoch_prefix(&self.entries, self.entries.len(), id)
    }

    /// A copy of the map, as handed out with a built frame.
    pub fn snapshot(&self) -> (m: PipelineEpochMap)
        ensures
            m.entries@ == self.entries@,
    {
        let mut entries: Vec<(PipelineId, Epoch)> = Vec::new();
        let n = self.entries.len();
        let mut i: usize = 0;
        while i < n
            invariant
                i <= n,
                n == self.entries@.len(),
                entries@ == self.entries@.subrange(0, i as int),
            decreases n - i,
        {
            entries.push(self.entries[i]);
            i += 1;
            proof {
                assert(entries@ =~= self.entries@.subrange(0, i as int));
            }
        }
        proof {
            assert(self.entries@.subrange(0, n as int) =~= self.entries@);
        }
        PipelineEpochMap { entries }
    }

    /// Record `epoch` for `id` unless the pipeline was already recorded.
    pub fn insert(&mut self, id: PipelineId, epoch: Epoch)
        ensures
            final(self).spec_get(id) == if old(self).contains(id) {
                old(self).spec_get(id)
            } else {
                Some(epoch)
            },
            forall|q: PipelineId|
                q != id ==> #[trigger] final(self).spec_get(q) == old(self).spec_get(q),
            old(self).contains(id) ==> *final(self) == *old(self),
    {
        if self.get(id).is_none() {
            self.entries.push((id, epoch));
            proof {
                assert(self.entries@.drop_last() =~= old(self).entries@);
            }
        }
    }
}


/// The last epoch recorded for `id` among the first `n` entries.
fn lookup_epoch_prefix(v: &Vec<(PipelineId, Epoch)>, n: usize, id: PipelineId) -> (r: Option<
    Epoch,
>)
    requires
        n <= v@.len(),
    ensures
        r == seq_epoch_get(v@.subrange(0, n as int), id),
    decreases n,
{
    if n == 0 {
        None
    } else {
        proof {
            assert(v@.subrange(0, n as int).drop_last() =~= v@.subrange(0, n - 1));
            assert(v@.subrange(0, n as int).last() == v@[n - 1]);
        }
        if v[n - 1].0 == id {
            Some(v[n - 1].1)
        } else {
            lookup_epoch_prefix(v, n - 1, id)
        }
    }
}

} // verus!
