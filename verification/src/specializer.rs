//! The cache of specialised pipelines.

use vstd::prelude::*;
use crate::pipeline::{
    finish_specialize, finish_specialize_spec, specialize_spec, GridShadowPipeline,
    GridShadowPipelineView, PipelineKey, RenderPipelineDescriptor, RenderPipelineDescriptorView,
    SpecializationError, VertexLayout, VertexLayoutView,
};
use crate::unique::{distinct, lemma_index_of_distinct, lemma_push_distinct};

verus! {

/// Handle of a specialised pipeline: its position in the cache that built it.
#[derive(Clone, Copy, Debug, PartialEq, Eq, Hash, Structural)]
pub struct PipelineId(pub usize);

/// Cache of specialised pipelines, one per key.
///
/// A key is specialised once; from then on the cache answers with the handle
/// it gave the first time.  Nothing ever leaves the cache.
pub struct PipelineSpecializer {
    keys: Vec<PipelineKey>,
    pipelines: Vec<RenderPipelineDescriptor>,
}

/// Mathematical value of a [`PipelineSpecializer`]: the keys and the
/// pipelines built for them, by handle.
pub ghost struct PipelineCacheView {
    pub keys: Seq<PipelineKey>,
    pub pipelines: Seq<RenderPipelineDescriptorView>,
}

impl View for PipelineSpecializer {
    type V = PipelineCacheView;

    closed spec fn view(&self) -> PipelineCacheView {
        PipelineCacheView {
            keys: self.keys@,
            pipelines: Seq::new(self.pipelines@.len(), |i: int| self.pipelines@[i]@),
        }
    }
}

impl PipelineCacheView {
    /// Every key has its pipeline and no key is held twice.
    pub open spec fn wf(self) -> bool {
        self.keys.len() == self.pipelines.len() && distinct(self.keys)
    }

    /// The handle that the cache holds for `key`, if any.
    pub open spec fn lookup(self, key: PipelineKey) -> Option<PipelineId> {
        if self.keys.contains(key) {
            Some(PipelineId(self.keys.index_of(key) as usize))
        } else {
            None
        }
    }

    /// The cache with one more pipeline.
    pub open spec fn insert(self, key: PipelineKey, pipeline: RenderPipelineDescriptorView) -> Self {
        PipelineCacheView { keys: self.keys.push(key), pipelines: self.pipelines.push(pipeline) }
    }

    /// What a request for `key` answers: the cached handle if there is one,
    /// else the handle of the pipeline built for it, or the error of building
    /// it or of the material's own specialisation of it.
    pub open spec fn answer(
        self,
        pipeline: GridShadowPipelineView,
        key: PipelineKey,
        layout: VertexLayoutView,
        material: Result<(), u64>,
    ) -> Result<PipelineId, SpecializationError> {
        match self.lookup(key) {
            Some(id) => Ok(id),
            None => match finish_specialize_spec(specialize_spec(pipeline, key, layout), material) {
                Ok(_) => Ok(PipelineId(self.keys.len() as usize)),
                Err(error) => Err(error),
            },
        }
    }

    /// The cache after a request for `key`: grown by the pipeline built for
    /// it, if it was not cached and could be built and the material accepted
    /// it.
    pub open spec fn after(
        self,
        pipeline: GridShadowPipelineView,
        key: PipelineKey,
        layout: VertexLayoutView,
        material: Result<(), u64>,
    ) -> Self {
        match self.lookup(key) {
            Some(_) => self,
            None => match finish_specialize_spec(specialize_spec(pipeline, key, layout), material) {
                Ok(built) => self.insert(key, built),
                Err(_) => self,
            },
        }
    }
}

impl PipelineSpecializer {
    /// Every key has its pipeline and no key is held twice.
    pub open spec fn wf(&self) -> bool {
        self@.wf()
    }

    /// An empty cache.
    pub fn new() -> (cache: Self)
        ensures
            cache.wf(),
            cache@.keys.len() == 0,
            cache@.pipelines.len() == 0,
    {
        PipelineSpecializer { keys: Vec::new(), pipelines: Vec::new() }
    }

    /// Number of pipelines in the cache.
    pub fn len(&self) -> (n: usize)
        ensures
            n == self@.keys.len(),
    {
        self.keys.len()
    }

    /// The pipeline behind a handle.
    pub fn get(&self, id: PipelineId) -> (pipeline: Option<&RenderPipelineDescriptor>)
        requires
            self.wf(),
        ensures
            id.0 >= self@.pipelines.len() ==> pipeline is None,
            id.0 < self@.pipelines.len() ==> pipeline is Some && pipeline->0@
                == self@.pipelines[id.0 as int],
    {
        if id.0 < self.pipelines.len() {
            Some(&self.pipelines[id.0])
        } else {
            None
        }
    }

    /// The key that a pipeline was built for.
    pub fn key(&self, id: PipelineId) -> (key: Option<PipelineKey>)
        ensures
            key == if id.0 < self@.keys.len() {
                Some(self@.keys[id.0 as int])
            } else {
                None
            },
    {
        if id.0 < self.keys.len() {
            Some(self.keys[id.0])
        } else {
            None
        }
    }

    /// Finds the handle cached for `key`.
    pub fn find(&self, key: PipelineKey) -> (found: Option<PipelineId>)
        requires
            self.wf(),
        ensures
            found == self@.lookup(key),
    {
        let mut i: usize = 0;
        while i < self.keys.len()
            invariant
                self.wf(),
                i <= self.keys.len(),
                forall|k: int| 0 <= k < i ==> self@.keys[k] != key,
            decreases self.keys.len() - i,
        {
            if self.keys[i] == key {
                proof {
                    lemma_index_of_distinct(self@.keys, key, i as int);
                }
                return Some(PipelineId(i));
            }
            i += 1;
        }
        None
    }

    /// Answers with the pipeline for `key`, building it from `layout` if the
    /// cache does not hold it.
    ///
    /// A cached key is answered with its handle and nothing is built.  A key
    /// that is not cached is specialised, and `material` tells how the
    /// material's own specialisation of the pipeline went: on success the
    /// pipeline enters the cache under the next handle; on failure, of
    /// building or of the material, the cache stays as it was and the error is
    /// returned unchanged.
    pub fn specialize(
        &mut self,
        pipeline: &GridShadowPipeline,
        key: PipelineKey,
        layout: &VertexLayout,
        material: Result<(), u64>,
    ) -> (answer: Result<PipelineId, SpecializationError>)
        requires
            old(self).wf(),
        ensures
            final(self).wf(),
            answer == old(self)@.answer(pipeline@, key, layout@, material),
            final(self)@ == old(self)@.after(pipeline@, key, layout@, material),
    {
        if let Some(id) = self.find(key) {
            return Ok(id);
        }
        match finish_specialize(pipeline.specialize(key, layout), material) {
            Ok(built) => {
                let id = PipelineId(self.keys.len());
                proof {
                    lemma_push_distinct(self@.keys, key);
                }
                let ghost before = self@;
                self.keys.push(key);
                self.pipelines.push(built);
                assert(self@.pipelines =~= before.pipelines.push(built@));
                Ok(id)
            },
            Err(error) => Err(error),
        }
    }
}

/// A request repeated with the same key and layout, and the same outcome of
/// the material's step, is answered as the first time, and the repetition
/// builds nothing.
pub proof fn lemma_specialize_is_cached(
    cache: PipelineCacheView,
    pipeline: GridShadowPipelineView,
    key: PipelineKey,
    layout: VertexLayoutView,
    material: Result<(), u64>,
)
    requires
        cache.wf(),
    ensures
        cache.after(pipeline, key, layout, material).wf(),
        cache.after(pipeline, key, layout, material).answer(pipeline, key, layout, material)
            == cache.answer(pipeline, key, layout, material),
        cache.after(pipeline, key, layout, material).after(pipeline, key, layout, material)
            == cache.after(pipeline, key, layout, material),
{
    if cache.lookup(key) is None {
        if finish_specialize_spec(specialize_spec(pipeline, key, layout), material) is Ok {
            lemma_push_distinct(cache.keys, key);
        }
    }
}

/// Once a key has its pipeline, every later request for the key is answered
/// with that pipeline, whatever layout and material outcome come with it, and
/// builds nothing.
pub proof fn lemma_cached_key_is_answered(
    cache: PipelineCacheView,
    pipeline: GridShadowPipelineView,
    key: PipelineKey,
    layout: VertexLayoutView,
    material: Result<(), u64>,
)
    requires
        cache.wf(),
        cache.lookup(key) is Some,
    ensures
        cache.answer(pipeline, key, layout, material) == Ok::<PipelineId, SpecializationError>(
            cache.lookup(key)->0,
        ),
        cache.after(pipeline, key, layout, material) == cache,
{
}

/// The cache only grows: a request keeps every pipeline under its handle and
/// every key under the handle it had.
pub proof fn lemma_specialize_grows(
    cache: PipelineCacheView,
    pipeline: GridShadowPipelineView,
    key: PipelineKey,
    layout: VertexLayoutView,
    material: Result<(), u64>,
    other: PipelineKey,
)
    requires
        cache.wf(),
    ensures
        cache.after(pipeline, key, layout, material).wf(),
        cache.keys.is_prefix_of(cache.after(pipeline, key, layout, material).keys),
        cache.pipelines.is_prefix_of(cache.after(pipeline, key, layout, material).pipelines),
        cache.lookup(other) is Some ==> cache.after(pipeline, key, layout, material).lookup(other)
            == cache.lookup(other),
{
    let grown = cache.after(pipeline, key, layout, material);
    if cache.lookup(key) is None && finish_specialize_spec(
        specialize_spec(pipeline, key, layout),
        material,
    ) is Ok {
        lemma_push_distinct(cache.keys, key);
        if cache.lookup(other) is Some {
            let i = cache.keys.index_of(other);
            assert(grown.keys[i] == other);
            lemma_index_of_distinct(grown.keys, other, i);
        }
    }
}

} // verus!
