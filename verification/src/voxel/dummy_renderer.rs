//! Which voxel scenes to render anew and which instances to take down.
//!
//! Entities are named by their 64 bits, and scene assets by numbers that the
//! caller gives them.

use vstd::prelude::*;

verus! {

/// An entity that shows a voxel scene.
#[derive(Debug, Clone, Copy, PartialEq, Eq, Structural)]
pub struct SceneHandle {
    pub entity: u64,
    /// The number that stands for the scene asset.
    pub scene: u64,
}

/// Marker for voxel instances
#[derive(Debug, Clone, Copy, PartialEq, Eq, Structural)]
pub struct VoxelInstance {
    /// The entity of the instance itself
    pub entity: u64,
    /// Parent entity with the scene
    pub parent: u64,
}

/// Marker for voxel scene root
#[derive(Debug, Clone, Copy, PartialEq, Eq, Structural)]
pub struct VoxelSceneRoot;

/// Scenes of more voxels than this render slowly.
pub const LARGE_SCENE: usize = 100_000;

/// What a frame of the renderer has to do.
#[derive(Debug)]
pub struct RenderPlan {
    /// The entities whose scenes are to be rendered anew, none twice.
    pub update: Vec<u64>,
    /// The instances to take down, in the order of the instances.
    pub despawn: Vec<u64>,
}

/// Whether the scene of an entity is to be rendered anew: the entity has a
/// new or changed scene, or it shows a scene that was modified.
pub open spec fn is_outdated(
    entity: u64,
    changed: Seq<u64>,
    modified: Seq<u64>,
    all_scenes: Seq<SceneHandle>,
) -> bool {
    changed.contains(entity) || exists|i: int|
        0 <= i < all_scenes.len() && (#[trigger] all_scenes[i]).entity == entity
            && modified.contains(all_scenes[i].scene)
}

/// The instances whose parent is among the given entities, in their order.
pub open spec fn instances_of(instances: Seq<VoxelInstance>, parents: Seq<u64>) -> Seq<u64>
    decreases instances.len(),
{
    if instances.len() == 0 {
        Seq::empty()
    } else {
        let before = instances_of(instances.drop_last(), parents);
        if parents.contains(instances.last().parent) {
            before.push(instances.last().entity)
        } else {
            before
        }
    }
}

/// What a list holds after one more was added is what it held and the one.
proof fn lemma_push_contains(list: Seq<u64>, added: u64, entity: u64)
    ensures
        list.push(added).contains(entity) <==> list.contains(entity) || entity == added,
{
    let longer = list.push(added);
    if list.contains(entity) {
        let at = choose|at: int| 0 <= at < list.len() && list[at] == entity;
        assert(longer[at] == entity);
    }
    if entity == added {
        assert(longer[list.len() as int] == entity);
    }
    if longer.contains(entity) {
        let at = choose|at: int| 0 <= at < longer.len() && longer[at] == entity;
        if at < list.len() {
            assert(list[at] == entity);
        }
    }
}

/// What the first `i + 1` of a list hold is what the first `i` hold and the
/// one at place `i`.
proof fn lemma_take_contains(list: Seq<u64>, i: int, entity: u64)
    requires
        0 <= i < list.len(),
    ensures
        list.take(i + 1).contains(entity) <==> list.take(i).contains(entity) || entity
            == list[i],
{
    assert(list.take(i + 1) =~= list.take(i).push(list[i]));
    lemma_push_contains(list.take(i), list[i], entity);
}

/// An entity is outdated by the first `k + 1` scenes where it is by the
/// first `k`, or where scene `k` is its own and was modified.
proof fn lemma_take_outdated(
    entity: u64,
    changed: Seq<u64>,
    modified: Seq<u64>,
    all_scenes: Seq<SceneHandle>,
    k: int,
)
    requires
        0 <= k < all_scenes.len(),
    ensures
        is_outdated(entity, changed, modified, all_scenes.take(k + 1)) <==> is_outdated(
            entity,
            changed,
            modified,
            all_scenes.take(k),
        ) || (all_scenes[k].entity == entity && modified.contains(all_scenes[k].scene)),
{
    let shorter = all_scenes.take(k);
    let longer = all_scenes.take(k + 1);
    assert(longer[k] == all_scenes[k]);
    if is_outdated(entity, changed, modified, shorter) && !changed.contains(entity) {
        let i = choose|i: int|
            0 <= i < shorter.len() && (#[trigger] shorter[i]).entity == entity && modified.contains(
                shorter[i].scene,
            );
        assert(longer[i] == shorter[i]);
    }
    if is_outdated(entity, changed, modified, longer) && !changed.contains(entity) {
        let i = choose|i: int|
            0 <= i < longer.len() && (#[trigger] longer[i]).entity == entity && modified.contains(
                longer[i].scene,
            );
        if i < k {
            assert(shorter[i] == longer[i]);
        }
    }
}

fn has_entity(list: &Vec<u64>, entity: u64) -> (found: bool)
    ensures
        found == list@.contains(entity),
{
    let mut i: usize = 0;
    while i < list.len()
        invariant
            i <= list@.len(),
            forall|j: int| 0 <= j < i ==> list@[j] != entity,
        decreases list@.len() - i,
    {
        if list[i] == entity {
            return true;
        }
        i += 1;
    }
    false
}

fn has_key(list: &[u64], key: u64) -> (found: bool)
    ensures
        found == list@.contains(key),
{
    let mut i: usize = 0;
    while i < list.len()
        invariant
            i <= list@.len(),
            forall|j: int| 0 <= j < i ==> list@[j] != key,
        decreases list@.len() - i,
    {
        if list[i] == key {
            return true;
        }
        i += 1;
    }
    false
}

/// The instances whose parent is among the given entities.
fn select_instances(instances: &[VoxelInstance], parents: &Vec<u64>) -> (selected: Vec<u64>)
    ensures
        selected@ == instances_of(instances@, parents@),
{
    let mut selected: Vec<u64> = Vec::new();
    let mut i: usize = 0;
    assert(instances@.take(0) =~= Seq::<VoxelInstance>::empty());
    while i < instances.len()
        invariant
            i <= instances@.len(),
            selected@ == instances_of(instances@.take(i as int), parents@),
        decreases instances@.len() - i,
    {
        assert(instances@.take(i as int + 1).drop_last() =~= instances@.take(i as int));
        if has_entity(parents, instances[i].parent) {
            selected.push(instances[i].entity);
        }
        i += 1;
    }
    assert(instances@.take(instances@.len() as int) =~= instances@);
    selected
}

/// Whether a scene of this many voxels calls for a warning.
pub fn is_large_scene(voxel_count: usize) -> (large: bool)
    ensures
        large == (voxel_count > LARGE_SCENE),
{
    voxel_count > LARGE_SCENE
}

/// Plans the rendering of voxel scenes as instanced cubes.
///
/// `changed` are the entities with a new or changed scene, `modified` the
/// scene assets that were modified, `all_scenes` every entity that shows a
/// scene, and `instances` the instances that exist. The scenes to render
/// anew are those of the changed entities and of the entities that show a
/// modified asset. The instances to take down are those of these entities.
/// Without a scene to render anew there is nothing to do.
pub fn render_dummy_voxels(
    changed: &[u64],
    modified: &[u64],
    all_scenes: &[SceneHandle],
    instances: &[VoxelInstance],
) -> (plan: RenderPlan)
    ensures
        plan.update@.no_duplicates(),
        forall|entity: u64|
            plan.update@.contains(entity) <==> is_outdated(
                entity,
                changed@,
                modified@,
                all_scenes@,
            ),
        plan.despawn@ == instances_of(instances@, plan.update@),
{
    let mut update: Vec<u64> = Vec::new();

    // 1. Handle new/changed components
    let mut i: usize = 0;
    while i < changed.len()
        invariant
            i <= changed@.len(),
            update@.no_duplicates(),
            forall|entity: u64|
                update@.contains(entity) <==> changed@.take(i as int).contains(entity),
        decreases changed@.len() - i,
    {
        let ghost before = update@;
        if !has_entity(&update, changed[i]) {
            update.push(changed[i]);
        }
        proof {
            assert forall|entity: u64| update@.contains(entity) <==> changed@.take(
                i as int + 1,
            ).contains(entity) by {
                lemma_take_contains(changed@, i as int, entity);
                lemma_push_contains(before, changed@[i as int], entity);
            }
        }
        i += 1;
    }
    assert(changed@.take(changed@.len() as int) =~= changed@);

    // 2. Handle modified assets
    let mut k: usize = 0;
    while k < all_scenes.len()
        invariant
            k <= all_scenes@.len(),
            update@.no_duplicates(),
            forall|entity: u64|
                update@.contains(entity) <==> is_outdated(
                    entity,
                    changed@,
                    modified@,
                    all_scenes@.take(k as int),
                ),
        decreases all_scenes@.len() - k,
    {
        let ghost before = update@;
        let scene = all_scenes[k];
        let outdated = has_key(modified, scene.scene);
        if outdated && !has_entity(&update, scene.entity) {
            update.push(scene.entity);
        }
        proof {
            assert forall|entity: u64| update@.contains(entity) <==> is_outdated(
                entity,
                changed@,
                modified@,
                all_scenes@.take(k as int + 1),
            ) by {
                lemma_take_outdated(entity, changed@, modified@, all_scenes@, k as int);
                lemma_push_contains(before, scene.entity, entity);
            }
        }
        k += 1;
    }
    assert(all_scenes@.take(all_scenes@.len() as int) =~= all_scenes@);

    // 3. Despawn old instances for updated entities
    let despawn = select_instances(instances, &update);

    RenderPlan { update, despawn }
}

/// Clean up voxel instances when scene is removed
///
/// The instances to take down are those whose parent is among the removed
/// entities, in the order of the instances.
pub fn cleanup_voxel_instances(removed: &Vec<u64>, instances: &[VoxelInstance]) -> (despawn: Vec<
    u64,
>)
    ensures
        despawn@ == instances_of(instances@, removed@),
{
    select_instances(instances, removed)
}

} // verus!
