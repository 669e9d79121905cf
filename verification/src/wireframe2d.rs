//! Extraction and queuing of 2D meshes that carry the wireframe marker.

use crate::pipeline::{
    with_shader, LayoutSlot, PipelineLabel, PipelineModel, PipelineSketch, ShaderSlot,
};
use bevy::utils::EntityHashMap;
use vstd::prelude::*;

verus! {

/// Marks a 2D mesh that is drawn as a wireframe.
#[derive(Clone, Copy, Debug, Default, PartialEq, Eq)]
pub struct WireframeMesh2d;

/// Adds the rendering of [`WireframeMesh2d`] meshes to an application.
#[derive(Clone, Copy, Debug)]
pub struct WireframeMesh2dPlugin;

/// The bind group that the draw function of wireframe meshes binds the face
/// buffer to.
pub const MESH2D_FACE_GROUP: usize = 2;

/// The pipeline of wireframe meshes. It wraps the pipeline of 2D meshes, whose
/// bind groups are the view and the mesh.
#[derive(Clone, Copy, Debug)]
pub struct WireframeMesh2dPipeline;

/// The pipeline of wireframe meshes over the mesh pipeline `base`: the face
/// buffer's layout follows the inherited layouts, and both stages run the
/// wireframe shader.
pub open spec fn mesh2d_pipeline(base: PipelineModel) -> PipelineModel
    recommends
        base.fragment.is_some(),
{
    PipelineModel {
        label: PipelineLabel::WireframeMesh2d,
        layout: base.layout.push(LayoutSlot::Face),
        vertex: with_shader(base.vertex, ShaderSlot::Wireframe),
        fragment: Some(with_shader(base.fragment.unwrap(), ShaderSlot::Wireframe)),
    }
}

impl WireframeMesh2dPipeline {
    /// Specializes the wrapped pipeline's descriptor for wireframe meshes.
    ///
    /// `base` is what the wrapped pipeline made of the key and the mesh layout:
    /// its error is handed on, its descriptor is extended.
    pub fn specialize<E>(&self, base: Result<PipelineSketch, E>) -> (result: Result<PipelineSketch, E>)
        requires
            base matches Ok(descriptor) ==> descriptor@.fragment.is_some(),
        ensures
            match base {
                Ok(descriptor) => result matches Ok(specialized)
                    && specialized@ == mesh2d_pipeline(descriptor@),
                Err(error) => result matches Err(handed_on) && handed_on == error,
            },
    {
        let descriptor = match base {
            Ok(descriptor) => descriptor,
            Err(error) => {
                return Err(error);
            },
        };
        let mut layout = descriptor.layout;
        layout.push(LayoutSlot::Face);
        let fragment = descriptor.fragment.unwrap();
        Ok(
            PipelineSketch {
                label: PipelineLabel::WireframeMesh2d,
                layout,
                vertex: descriptor.vertex.set_shader(ShaderSlot::Wireframe),
                fragment: Some(fragment.set_shader(ShaderSlot::Wireframe)),
            },
        )
    }
}

/// Over a mesh pipeline with its two bind groups, the draw function of
/// wireframe meshes binds the face buffer where the specialized pipeline
/// expects it: in group [`MESH2D_FACE_GROUP`], after the inherited layouts.
pub proof fn lemma_mesh2d_face_group(base: PipelineModel)
    requires
        base.layout.len() == MESH2D_FACE_GROUP,
    ensures
        mesh2d_pipeline(base).layout.len() == 3,
        mesh2d_pipeline(base).layout[MESH2D_FACE_GROUP as int] == LayoutSlot::Face,
        forall|i: int| 0 <= i < MESH2D_FACE_GROUP ==> mesh2d_pipeline(base).layout[i] == base.layout[i],
{
}

/// Identifies a mesh asset: by its slot in the asset storage, or by a stable
/// 128-bit identifier.
#[derive(Clone, Copy, Debug, PartialEq, Eq, Structural)]
pub enum MeshId {
    Index(u64),
    Uuid(u128),
}

/// What the queue stage reads of one extracted mesh.
#[derive(Clone, Copy, Debug, PartialEq, Eq, Structural)]
pub struct Mesh2dInstance {
    /// The mesh that the entity draws.
    pub mesh: MeshId,
    /// Bit pattern of the z coordinate of the entity's place in the world.
    pub depth: u32,
}

/// The instances of one frame, as a map from entity bits to instance.
pub type InstanceMap = Map<u64, Mesh2dInstance>;

/// The extracted instances, keyed by the bits of their entity.
#[verifier::external_body]
pub struct WireframeMesh2dInstances {
    map: EntityHashMap<u64, Mesh2dInstance>,
}

/// The entries that the table holds.
pub uninterp spec fn instance_map(instances: WireframeMesh2dInstances) -> InstanceMap;

/// `EntityHashMap::default`: a table without entries.
#[verifier::external_body]
fn table_new() -> (instances: WireframeMesh2dInstances)
    ensures
        instance_map(instances) == InstanceMap::empty(),
{
    WireframeMesh2dInstances { map: EntityHashMap::default() }
}

/// `hashbrown::HashMap::is_empty`: whether the table holds no entry.
#[verifier::external_body]
fn table_is_empty(instances: &WireframeMesh2dInstances) -> (empty: bool)
    ensures
        empty <==> instance_map(*instances) == InstanceMap::empty(),
{
    instances.map.is_empty()
}

/// `hashbrown::HashMap::contains_key`: whether the table holds an entry for `entity`.
#[verifier::external_body]
fn table_contains_key(instances: &WireframeMesh2dInstances, entity: u64) -> (found: bool)
    ensures
        found == instance_map(*instances).contains_key(entity),
{
    instances.map.contains_key(&entity)
}

/// `hashbrown::HashMap::get`: the entry of `entity`, if the table holds one.
#[verifier::external_body]
fn table_get(instances: &WireframeMesh2dInstances, entity: u64) -> (found: Option<&Mesh2dInstance>)
    ensures
        found == (if instance_map(*instances).contains_key(entity) {
            Some(&instance_map(*instances)[entity])
        } else {
            None
        }),
{
    instances.map.get(&entity)
}

/// `hashbrown::HashMap::insert`: sets the entry of `entity` and returns the one
/// that it replaces.
#[verifier::external_body]
fn table_insert(instances: &mut WireframeMesh2dInstances, entity: u64, instance: Mesh2dInstance) -> (previous: Option<Mesh2dInstance>)
    ensures
        instance_map(*final(instances)) == instance_map(*old(instances)).insert(entity, instance),
        previous == (if instance_map(*old(instances)).contains_key(entity) {
            Some(instance_map(*old(instances))[entity])
        } else {
            None
        }),
{
    instances.map.insert(entity, instance)
}

impl View for WireframeMesh2dInstances {
    type V = InstanceMap;

    open spec fn view(&self) -> InstanceMap {
        instance_map(*self)
    }
}

/// The table after `instance` was recorded for `entity`: an entity that is
/// known keeps the instance it has.
pub open spec fn recorded(known: InstanceMap, entity: u64, instance: Mesh2dInstance) -> InstanceMap {
    if known.contains_key(entity) {
        known
    } else {
        known.insert(entity, instance)
    }
}

impl WireframeMesh2dInstances {
    /// A table without entries.
    pub fn new() -> (instances: Self)
        ensures
            instances@ == InstanceMap::empty(),
    {
        table_new()
    }

    /// Whether no instance has been extracted.
    pub fn is_empty(&self) -> (empty: bool)
        ensures
            empty <==> self@ == InstanceMap::empty(),
    {
        table_is_empty(self)
    }

    /// Whether an instance is known for `entity`.
    pub fn contains_key(&self, entity: u64) -> (found: bool)
        ensures
            found == self@.contains_key(entity),
    {
        table_contains_key(self, entity)
    }

    /// The instance known for `entity`.
    pub fn get(&self, entity: u64) -> (found: Option<Mesh2dInstance>)
        ensures
            found == (if self@.contains_key(entity) {
                Some(self@[entity])
            } else {
                None
            }),
    {
        match table_get(self, entity) {
            Some(instance) => Some(*instance),
            None => None,
        }
    }

    /// Records `instance` for `entity` unless the entity is known already.
    /// Returns whether the instance was recorded.
    pub fn record(&mut self, entity: u64, instance: Mesh2dInstance) -> (added: bool)
        ensures
            final(self)@ == recorded(old(self)@, entity, instance),
            added == !old(self)@.contains_key(entity),
    {
        if table_contains_key(self, entity) {
            false
        } else {
            let _ = table_insert(self, entity, instance);
            true
        }
    }
}

/// One 2D mesh of the main world, as the extraction query yields it.
#[derive(Clone, Copy, Debug, PartialEq, Eq, Structural)]
pub struct Mesh2dSource {
    /// Bits of the entity.
    pub entity: u64,
    /// Whether any view sees the entity in this frame.
    pub visible: bool,
    /// What to record of the entity.
    pub instance: Mesh2dInstance,
}

/// The table after the extraction of `rows`, taken in order.
pub open spec fn extracted(known: InstanceMap, rows: Seq<Mesh2dSource>) -> InstanceMap
    decreases rows.len(),
{
    if rows.len() == 0 {
        known
    } else {
        let before = extracted(known, rows.drop_last());
        let row = rows.last();
        if row.visible {
            recorded(before, row.entity, row.instance)
        } else {
            before
        }
    }
}

/// The positions in `rows` of the visible meshes, in ascending order.
pub open spec fn visible_rows(rows: Seq<Mesh2dSource>) -> Seq<usize>
    decreases rows.len(),
{
    if rows.len() == 0 {
        Seq::empty()
    } else {
        let before = visible_rows(rows.drop_last());
        if rows.last().visible {
            before.push((rows.len() - 1) as usize)
        } else {
            before
        }
    }
}

/// Extraction never changes an instance that is known: the first instance
/// recorded for an entity stays.
pub proof fn lemma_extracted_keeps_known(known: InstanceMap, rows: Seq<Mesh2dSource>, entity: u64)
    requires
        known.contains_key(entity),
    ensures
        extracted(known, rows).contains_key(entity),
        extracted(known, rows)[entity] == known[entity],
    decreases rows.len(),
{
    if rows.len() > 0 {
        lemma_extracted_keeps_known(known, rows.drop_last(), entity);
    }
}

/// After extraction an entity has an instance exactly if it had one before or
/// one of the rows shows it visible.
pub proof fn lemma_extracted_entities(known: InstanceMap, rows: Seq<Mesh2dSource>, entity: u64)
    ensures
        extracted(known, rows).contains_key(entity) <==> known.contains_key(entity) || exists|i: int|
            0 <= i < rows.len() && rows[i].visible && rows[i].entity == entity,
    decreases rows.len(),
{
    if rows.len() > 0 {
        let front = rows.drop_last();
        lemma_extracted_entities(known, front, entity);
        if exists|i: int| 0 <= i < rows.len() && rows[i].visible && rows[i].entity == entity {
            let i = choose|i: int| 0 <= i < rows.len() && rows[i].visible && rows[i].entity == entity;
            if i < front.len() {
                assert(front[i].visible && front[i].entity == entity);
            }
        }
        if exists|i: int| 0 <= i < front.len() && front[i].visible && front[i].entity == entity {
            let i = choose|i: int| 0 <= i < front.len() && front[i].visible && front[i].entity == entity;
            assert(rows[i].visible && rows[i].entity == entity);
        }
    }
}

/// An entity that was not known gets the instance of the first row that shows
/// it visible.
pub proof fn lemma_extracted_first_wins(known: InstanceMap, rows: Seq<Mesh2dSource>, first: int)
    requires
        0 <= first < rows.len(),
        rows[first].visible,
        !known.contains_key(rows[first].entity),
        forall|i: int| 0 <= i < first && rows[i].visible ==> rows[i].entity != rows[first].entity,
    ensures
        extracted(known, rows).contains_key(rows[first].entity),
        extracted(known, rows)[rows[first].entity] == rows[first].instance,
    decreases rows.len(),
{
    let front = rows.drop_last();
    let entity = rows[first].entity;
    if first == rows.len() - 1 {
        lemma_extracted_entities(known, front, entity);
    } else {
        lemma_extracted_first_wins(known, front, first);
    }
}

/// Every position that extraction returns is that of a visible row, every
/// visible row is returned, and the positions ascend.
pub proof fn lemma_visible_rows(rows: Seq<Mesh2dSource>)
    requires
        rows.len() <= usize::MAX,
    ensures
        forall|k: int| 0 <= k < visible_rows(rows).len() ==> (#[trigger] visible_rows(rows)[k]) < rows.len() && rows[visible_rows(rows)[k] as int].visible,
        forall|i: int| 0 <= i < rows.len() && rows[i].visible ==> visible_rows(rows).contains(i as usize),
        forall|j: int, k: int| 0 <= j < k < visible_rows(rows).len() ==> visible_rows(rows)[j] < visible_rows(rows)[k],
        visible_rows(rows).len() <= rows.len(),
    decreases rows.len(),
{
    if rows.len() > 0 {
        let front = rows.drop_last();
        lemma_visible_rows(front);
        let found = visible_rows(rows);
        assert forall|i: int| 0 <= i < rows.len() && rows[i].visible implies found.contains(i as usize) by {
            if i < front.len() {
                assert(front[i].visible);
                let k = choose|k: int| 0 <= k < visible_rows(front).len() && visible_rows(front)[k] == i as usize;
                assert(found[k] == i as usize);
            } else {
                assert(found[found.len() - 1] == i as usize);
            }
        }
    }
}

/// Extracts the visible meshes of `rows` into the render world.
///
/// Every visible mesh without an instance gets the one of its row; a mesh that
/// has an instance keeps it. Returns the positions of the visible rows: these
/// are the entities that receive the marker and their mesh handle.
pub fn extract_wireframe_mesh2d(
    rows: &Vec<Mesh2dSource>,
    instances: &mut WireframeMesh2dInstances,
) -> (values: Vec<usize>)
    ensures
        values@ == visible_rows(rows@),
        final(instances)@ == extracted(old(instances)@, rows@),
{
    let mut values: Vec<usize> = Vec::new();
    let mut i: usize = 0;
    while i < rows.len()
        invariant
            i <= rows.len(),
            values@ == visible_rows(rows@.take(i as int)),
            instances@ == extracted(old(instances)@, rows@.take(i as int)),
        decreases rows.len() - i,
    {
        let row = rows[i];
        proof {
            assert(rows@.take(i + 1).drop_last() == rows@.take(i as int));
            assert(rows@.take(i + 1).last() == row);
        }
        if row.visible {
            values.push(i);
            let _ = instances.record(row.entity, row.instance);
        }
        i = i + 1;
    }
    proof {
        assert(rows@.take(rows.len() as int) == rows@);
    }
    values
}

/// One draw of the transparent 2D phase.
#[derive(Clone, Copy, Debug, PartialEq, Eq, Structural)]
pub struct QueuedMesh2d {
    /// Bits of the entity to draw.
    pub entity: u64,
    /// The mesh that the entity draws.
    pub mesh: MeshId,
    /// Bit pattern of the depth by which the phase sorts its items.
    pub sort_key: u32,
    /// First instance of the draw.
    pub batch_start: u32,
    /// One past the last instance of the draw.
    pub batch_end: u32,
}

/// The draw of `entity`: sorted by the depth of its instance, and never batched.
pub open spec fn queued_item(entity: u64, instance: Mesh2dInstance) -> QueuedMesh2d {
    QueuedMesh2d {
        entity,
        mesh: instance.mesh,
        sort_key: instance.depth,
        batch_start: 0,
        batch_end: 1,
    }
}

/// The draws of a view that sees `visible`: one for each entity with an
/// instance, in the order of `visible`.
pub open spec fn queued(instances: InstanceMap, visible: Seq<u64>) -> Seq<QueuedMesh2d>
    decreases visible.len(),
{
    if visible.len() == 0 {
        Seq::empty()
    } else {
        let before = queued(instances, visible.drop_last());
        let entity = visible.last();
        if instances.contains_key(entity) {
            before.push(queued_item(entity, instances[entity]))
        } else {
            before
        }
    }
}

/// Nothing is drawn while no instance is known.
pub proof fn lemma_queued_of_empty(visible: Seq<u64>)
    ensures
        queued(InstanceMap::empty(), visible) == Seq::<QueuedMesh2d>::empty(),
    decreases visible.len(),
{
    if visible.len() > 0 {
        lemma_queued_of_empty(visible.drop_last());
    }
}

/// No view gets more draws than it sees entities.
pub proof fn lemma_queued_len(instances: InstanceMap, visible: Seq<u64>)
    ensures
        queued(instances, visible).len() <= visible.len(),
    decreases visible.len(),
{
    if visible.len() > 0 {
        lemma_queued_len(instances, visible.drop_last());
    }
}

/// Every draw of a view is that of an entity which the view sees and which
/// has an instance.
pub proof fn lemma_queued_draws(instances: InstanceMap, visible: Seq<u64>, k: int)
    requires
        0 <= k < queued(instances, visible).len(),
    ensures
        visible.contains(queued(instances, visible)[k].entity),
        instances.contains_key(queued(instances, visible)[k].entity),
        queued(instances, visible)[k] == queued_item(queued(instances, visible)[k].entity, instances[queued(instances, visible)[k].entity]),
    decreases visible.len(),
{
    let front = visible.drop_last();
    if k < queued(instances, front).len() {
        lemma_queued_draws(instances, front, k);
        let at = choose|i: int| 0 <= i < front.len() && front[i] == queued(instances, front)[k].entity;
        assert(visible[at] == queued(instances, front)[k].entity);
    } else {
        assert(visible[visible.len() - 1] == visible.last());
    }
}

/// Every entity that a view sees and that has an instance is drawn.
pub proof fn lemma_queued_covers(instances: InstanceMap, visible: Seq<u64>, i: int)
    requires
        0 <= i < visible.len(),
        instances.contains_key(visible[i]),
    ensures
        queued(instances, visible).contains(queued_item(visible[i], instances[visible[i]])),
    decreases visible.len(),
{
    let front = visible.drop_last();
    let all = queued(instances, visible);
    let item = queued_item(visible[i], instances[visible[i]]);
    if i == visible.len() - 1 {
        assert(all[all.len() - 1] == item);
    } else {
        lemma_queued_covers(instances, front, i);
        let k = choose|k: int| 0 <= k < queued(instances, front).len() && queued(instances, front)[k] == item;
        assert(all[k] == item);
    }
}

/// Queues the wireframe meshes that one view sees.
pub fn queue_wireframe_mesh2d(
    instances: &WireframeMesh2dInstances,
    visible_entities: &Vec<u64>,
) -> (items: Vec<QueuedMesh2d>)
    ensures
        items@ == queued(instances@, visible_entities@),
{
    if instances.is_empty() {
        proof {
            lemma_queued_of_empty(visible_entities@);
        }
        return Vec::new();
    }
    let mut items: Vec<QueuedMesh2d> = Vec::new();
    let mut i: usize = 0;
    while i < visible_entities.len()
        invariant
            i <= visible_entities.len(),
            items@ == queued(instances@, visible_entities@.take(i as int)),
        decreases visible_entities.len() - i,
    {
        let entity: u64 = visible_entities[i];
        proof {
            assert(visible_entities@.take(i + 1).drop_last() == visible_entities@.take(i as int));
            assert(visible_entities@.take(i + 1).last() == entity);
        }
        if let Some(instance) = instances.get(entity) {
            items.push(
                QueuedMesh2d {
                    entity,
                    mesh: instance.mesh,
                    sort_key: instance.depth,
                    batch_start: 0,
                    batch_end: 1,
                },
            );
        }
        i = i + 1;
    }
    proof {
        assert(visible_entities@.take(visible_entities.len() as int) == visible_entities@);
    }
    items
}

/// Render command that binds the face buffer of the drawn entity to bind
/// group `I`.
#[derive(Clone, Copy, Debug)]
pub struct SetFaceBindGroup<const I: usize>;

/// One call that binds a bind group of a render pass.
#[derive(Debug)]
pub struct BindCall {
    /// The bind group to set.
    pub index: usize,
    /// The dynamic offsets to set it with.
    pub dynamic_offsets: Vec<u32>,
}

/// The dynamic offsets of an item: its own offset, if it has one.
pub open spec fn offsets_of(dynamic_offset: Option<u32>) -> Seq<u32> {
    match dynamic_offset {
        Some(offset) => seq![offset],
        None => Seq::empty(),
    }
}

impl<const I: usize> SetFaceBindGroup<I> {
    /// Decides the call that draws an item: `None` where the entity has no face
    /// bind group, which fails the command; else the bind of group `I` with the
    /// item's dynamic offset.
    pub fn render(dynamic_offset: Option<u32>, has_bind_group: bool) -> (call: Option<BindCall>)
        ensures
            call.is_some() == has_bind_group,
            call matches Some(bind) ==> bind.index == I && bind.dynamic_offsets@ == offsets_of(dynamic_offset),
    {
        let mut dynamic_offsets: Vec<u32> = Vec::new();
        if let Some(offset) = dynamic_offset {
            dynamic_offsets.push(offset);
        }
        if !has_bind_group {
            return None;
        }
        Some(BindCall { index: I, dynamic_offsets })
    }
}

} // verus!
