//! Draw instances: one GPU-ready record for each drawn entity, recomputed from
//! the scene every frame.

use crate::bytes::{is_memory_of, words_as_bytes};
use crate::components::{Entity, Renderable, Transform};
use crate::math::{Color, Mat4, Vec4};
use crate::scene::Scene;
use vstd::prelude::*;

verus! {

/// The number of instance records that the instance buffer holds.
pub const INSTANCE_CAPACITY: usize = 1024;

/// The number of 32-bit words in one instance record.
pub const INSTANCE_WORDS: usize = 20;

/// The number of bytes in one instance record.
pub const INSTANCE_STRIDE: u64 = 80;

/// The shader location of the first column of the model matrix.
pub const MODEL_LOCATION: u32 = 5;

/// Whether a vertex buffer advances once per vertex or once per instance.
#[derive(Clone, Copy, Debug, PartialEq, Eq, Structural)]
pub enum StepMode {
    Vertex,
    Instance,
}

/// How many single-precision numbers a vertex attribute holds.
#[derive(Clone, Copy, Debug, PartialEq, Eq, Structural)]
pub enum AttributeFormat {
    Three,
    Four,
}

/// One attribute of a vertex buffer.
#[derive(Clone, Copy, Debug, PartialEq, Eq, Structural)]
pub struct VertexAttribute {
    pub offset: u64,
    pub shader_location: u32,
    pub format: AttributeFormat,
}

/// How a vertex buffer is read.
#[derive(Debug)]
pub struct VertexBufferLayout {
    pub array_stride: u64,
    pub step_mode: StepMode,
    pub attributes: Vec<VertexAttribute>,
}

/// One draw instance: the model matrix and the colour of one drawn entity.
#[derive(Clone, Copy, Debug, PartialEq, Eq, Structural)]
pub struct InstanceRaw {
    pub model: Mat4,
    pub color: Color,
}

/// The four words of a column.
pub open spec fn column_words(c: Vec4) -> Seq<u32> {
    seq![c.x.bits, c.y.bits, c.z.bits, c.w.bits]
}

/// Attribute `k` of the instance buffer: the matrix columns in order, then the
/// colour, sixteen bytes each, at consecutive shader locations.
pub open spec fn instance_attribute(k: int) -> VertexAttribute {
    VertexAttribute {
        offset: (16 * k) as u64,
        shader_location: (MODEL_LOCATION + k) as u32,
        format: AttributeFormat::Four,
    }
}

impl InstanceRaw {
    /// The record as the GPU reads it: the four columns of the model matrix,
    /// then the colour.
    pub open spec fn words(self) -> Seq<u32> {
        column_words(self.model.x_axis) + column_words(self.model.y_axis) + column_words(
            self.model.z_axis,
        ) + column_words(self.model.w_axis) + seq![
            self.color.r.bits,
            self.color.g.bits,
            self.color.b.bits,
            self.color.a.bits,
        ]
    }

    /// The layout of the instance buffer: one record of eighty bytes for each
    /// instance, read as five attributes of four numbers.
    pub fn desc() -> (layout: VertexBufferLayout)
        ensures
            layout.array_stride == INSTANCE_STRIDE,
            layout.step_mode == StepMode::Instance,
            layout.attributes@ == Seq::new(5, |k: int| instance_attribute(k)),
    {
        let mut attributes: Vec<VertexAttribute> = Vec::new();
        let mut k: u32 = 0;
        while k < 5
            invariant
                k <= 5,
                attributes@ == Seq::new(k as nat, |j: int| instance_attribute(j)),
            decreases 5 - k,
        {
            attributes.push(
                VertexAttribute {
                    offset: 16 * (k as u64),
                    shader_location: MODEL_LOCATION + k,
                    format: AttributeFormat::Four,
                },
            );
            k = k + 1;
        }
        VertexBufferLayout { array_stride: INSTANCE_STRIDE, step_mode: StepMode::Instance, attributes }
    }

    /// Appends the record's words to `out`.
    fn push_words(&self, out: &mut Vec<u32>)
        ensures
            final(out)@ == old(out)@ + self.words(),
    {
        push_column(&self.model.x_axis, out);
        push_column(&self.model.y_axis, out);
        push_column(&self.model.z_axis, out);
        push_column(&self.model.w_axis, out);
        out.push(self.color.r.bits);
        out.push(self.color.g.bits);
        out.push(self.color.b.bits);
        out.push(self.color.a.bits);
    }
}

/// Appends the four words of `c` to `out`.
fn push_column(c: &Vec4, out: &mut Vec<u32>)
    ensures
        final(out)@ == old(out)@ + column_words(*c),
{
    out.push(c.x.bits);
    out.push(c.y.bits);
    out.push(c.z.bits);
    out.push(c.w.bits);
}

/// The words of a batch: the words of each record, in the batch's order.
pub open spec fn batch_words(instances: Seq<InstanceRaw>) -> Seq<u32>
    decreases instances.len(),
{
    if instances.len() == 0 {
        Seq::empty()
    } else {
        batch_words(instances.drop_last()) + instances.last().words()
    }
}

/// A batch of `n` records has `20 * n` words.
pub proof fn lemma_batch_words_len(instances: Seq<InstanceRaw>)
    ensures
        batch_words(instances).len() == INSTANCE_WORDS * instances.len(),
    decreases instances.len(),
{
    if instances.len() > 0 {
        lemma_batch_words_len(instances.drop_last());
    }
}

/// The words of `instances`, record after record.
pub fn instance_words(instances: &Vec<InstanceRaw>) -> (words: Vec<u32>)
    ensures
        words@ == batch_words(instances@),
{
    let mut words: Vec<u32> = Vec::new();
    let mut i: usize = 0;
    while i < instances.len()
        invariant
            i <= instances@.len(),
            words@ == batch_words(instances@.take(i as int)),
        decreases instances@.len() - i,
    {
        instances[i].push_words(&mut words);
        proof {
            let next = instances@.take(i + 1);
            assert(next.drop_last() == instances@.take(i as int));
            assert(next.last() == instances@[i as int]);
        }
        i = i + 1;
    }
    proof {
        assert(instances@.take(instances@.len() as int) == instances@);
    }
    words
}

/// The bytes that the upload step writes into the instance buffer at offset
/// zero: the batch's words as the machine holds them in memory.
pub fn instance_bytes(instances: &Vec<InstanceRaw>) -> (bytes: Vec<u8>)
    ensures
        bytes@.len() == INSTANCE_STRIDE * instances@.len(),
        is_memory_of(bytes@, batch_words(instances@)),
{
    let words = instance_words(instances);
    proof {
        lemma_batch_words_len(instances@);
    }
    words_as_bytes(&words)
}

/// What an entity contributes to a frame: its transform and its renderable,
/// where it holds both.
pub open spec fn draw_source(e: Entity) -> Option<(Transform, Renderable)> {
    if e.is_drawn() {
        Some((e.transform->0, e.renderable->0))
    } else {
        None
    }
}

/// The transform and renderable of every drawn entity, in the entities'
/// order. Its length is the number of entities that hold both components.
pub open spec fn drawn(entities: Seq<Entity>) -> Seq<(Transform, Renderable)> {
    entities.filter_map(|e: Entity| draw_source(e))
}

/// What one frame draws: the drawn entities in their order, up to `capacity`
/// of them. Those beyond the capacity are left out.
pub open spec fn frame_sources(entities: Seq<Entity>, capacity: int) -> Seq<
    (Transform, Renderable),
> {
    if drawn(entities).len() <= capacity {
        drawn(entities)
    } else {
        drawn(entities).take(capacity)
    }
}

/// Whether `instance` is the draw instance of `source`: the colour is the
/// renderable's own, and the model matrix is one that `compose` returns for
/// the transform.
pub open spec fn is_instance_of<F: Fn(Transform) -> Mat4>(
    instance: InstanceRaw,
    source: (Transform, Renderable),
    compose: F,
) -> bool {
    &&& instance.color == source.1.color
    &&& call_ensures(compose, (source.0,), instance.model)
}

/// Whether `instances` is the batch of `sources`: one instance for each
/// source, in the same order.
pub open spec fn is_batch_of<F: Fn(Transform) -> Mat4>(
    instances: Seq<InstanceRaw>,
    sources: Seq<(Transform, Renderable)>,
    compose: F,
) -> bool {
    &&& instances.len() == sources.len()
    &&& forall|k: int|
        0 <= k < sources.len() ==> is_instance_of(#[trigger] instances[k], sources[k], compose)
}

/// Produces the frame's batch of draw instances from `scene`, which it only
/// reads.
///
/// `compose(transform)` is the host's arithmetic: it returns the model matrix
/// `translation * rotation about z * scale` of a transform.
pub fn extract_instances<F: Fn(Transform) -> Mat4>(
    scene: &Scene,
    capacity: usize,
    compose: F,
) -> (instances: Vec<InstanceRaw>)
    requires
        forall|t: Transform| call_requires(compose, (t,)),
    ensures
        is_batch_of(instances@, frame_sources(scene.entities@, capacity as int), compose),
{
    let mut instances: Vec<InstanceRaw> = Vec::new();
    let n = scene.entities.len();
    let mut i: usize = 0;
    while i < n
        invariant
            i <= n,
            n == scene.entities@.len(),
            forall|t: Transform| call_requires(compose, (t,)),
            is_batch_of(
                instances@,
                frame_sources(scene.entities@.take(i as int), capacity as int),
                compose,
            ),
        decreases n - i,
    {
        let entity = scene.entities[i];
        proof {
            let next = scene.entities@.take(i + 1);
            assert(next.drop_last() == scene.entities@.take(i as int));
            assert(next.last() == entity);
        }
        if let (Some(transform), Some(renderable)) = (entity.transform, entity.renderable) {
            if instances.len() < capacity {
                let model = compose(transform);
                instances.push(InstanceRaw { model, color: renderable.color });
            }
        }
        i = i + 1;
    }
    proof {
        assert(scene.entities@.take(n as int) == scene.entities@);
    }
    instances
}

/// The number of entities of `scene` that are drawn. Where it is above the
/// capacity that a frame is extracted with, the frame leaves entities out.
pub fn count_drawn(scene: &Scene) -> (count: usize)
    ensures
        count == drawn(scene.entities@).len(),
{
    let n = scene.entities.len();
    let mut count: usize = 0;
    let mut i: usize = 0;
    while i < n
        invariant
            i <= n,
            n == scene.entities@.len(),
            count <= i,
            count == drawn(scene.entities@.take(i as int)).len(),
        decreases n - i,
    {
        let entity = scene.entities[i];
        proof {
            let next = scene.entities@.take(i + 1);
            assert(next.drop_last() == scene.entities@.take(i as int));
            assert(next.last() == entity);
        }
        if entity.transform.is_some() && entity.renderable.is_some() {
            count = count + 1;
        }
        i = i + 1;
    }
    proof {
        assert(scene.entities@.take(n as int) == scene.entities@);
    }
    count
}

/// While the drawn entities fit the capacity, a frame's batch has exactly one
/// instance for each entity that holds both a transform and a renderable.
pub proof fn lemma_batch_counts_drawn<F: Fn(Transform) -> Mat4>(
    entities: Seq<Entity>,
    capacity: int,
    instances: Seq<InstanceRaw>,
    compose: F,
)
    requires
        is_batch_of(instances, frame_sources(entities, capacity), compose),
        drawn(entities).len() <= capacity,
    ensures
        instances.len() == drawn(entities).len(),
{
}

/// A frame's batch never has more instances than the capacity, nor more than
/// there are entities.
pub proof fn lemma_batch_is_capped<F: Fn(Transform) -> Mat4>(
    entities: Seq<Entity>,
    capacity: int,
    instances: Seq<InstanceRaw>,
    compose: F,
)
    requires
        0 <= capacity,
        is_batch_of(instances, frame_sources(entities, capacity), compose),
    ensures
        instances.len() <= capacity,
        instances.len() <= entities.len(),
{
    lemma_drawn_len(entities);
}

/// There are at most as many drawn entities as entities.
pub proof fn lemma_drawn_len(entities: Seq<Entity>)
    ensures
        drawn(entities).len() <= entities.len(),
    decreases entities.len(),
{
    if entities.len() > 0 {
        lemma_drawn_len(entities.drop_last());
    }
}

/// What is drawn depends on the transforms and renderables alone: two scenes
/// whose entities agree on these two components draw the same, whatever other
/// components their entities hold.
pub proof fn lemma_drawn_reads_two_components(a: Seq<Entity>, b: Seq<Entity>)
    requires
        a.len() == b.len(),
        forall|i: int|
            0 <= i < a.len() ==> a[i].transform == b[i].transform && a[i].renderable
                == b[i].renderable,
    ensures
        drawn(a) == drawn(b),
    decreases a.len(),
{
    if a.len() > 0 {
        lemma_drawn_reads_two_components(a.drop_last(), b.drop_last());
        assert(draw_source(a.last()) == draw_source(b.last()));
    }
}

} // verus!
