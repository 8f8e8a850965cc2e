//! The menu root: the one entity that is spawned from a prototype, and the
//! rule that says when it is spawned again.

use bevy::ecs::entity::Entity;
use vstd::prelude::*;

verus! {

/// bevy's `Entity`: the handle of an entity in the world. The library never
/// looks inside one; it only hands on the handle it was given.
#[verifier::external_type_specification]
#[verifier::external_body]
pub struct ExEntity(Entity);

/// The id of the prototype that describes the menu root.
pub const PROTO_ID: &'static str = "MenuRoot";

/// The asset file that holds the prototype of the menu root.
pub const PROTO_PATH: &'static str = "MenuRoot.prototype.ron";

/// Marks the entity at the root of the menu.
#[derive(Debug)]
pub struct MenuRoot;

/// Whether the menu root is in the world.
#[derive(Debug)]
pub struct IsMenuRootSpawned {
    pub value: bool,
}

impl Default for IsMenuRootSpawned {
    /// Nothing is spawned at the start.
    fn default() -> (flag: IsMenuRootSpawned)
        ensures
            flag.value == false,
    {
        IsMenuRootSpawned { value: false }
    }
}

/// A change to a prototype asset, as far as the library reads it: what
/// happened, and the id of the prototype it happened to.
#[derive(Debug, PartialEq, Eq)]
pub enum PrototypeEvent {
    /// The prototype was loaded and registered.
    Created { id: String },
    /// The prototype, or one it depends on, was modified.
    Modified { id: String },
    /// The prototype was unloaded.
    Removed { id: String },
}

impl PrototypeEvent {
    /// True when this event reports that the prototype `id` was modified.
    pub open spec fn spec_is_modified(self, id: Seq<char>) -> bool {
        self matches PrototypeEvent::Modified { id: modified_id } && modified_id@ == id
    }

    /// True when this event reports that the prototype `id` was modified.
    pub fn is_modified(&self, id: &str) -> (hit: bool)
        ensures
            hit == self.spec_is_modified(id@),
    {
        match self {
            PrototypeEvent::Modified { id: modified_id } => {
                let wanted = id.to_owned();
                *modified_id == wanted
            },
            _ => false,
        }
    }
}

/// What the spawner does with a frame.
#[derive(Debug, Clone, Copy, PartialEq, Eq)]
pub enum SpawnStep {
    /// Spawn the menu root from its prototype.
    Respawn,
    /// The menu root is there: read the frame's prototype events and
    /// despawn this entity when its prototype was modified.
    Watch(Entity),
}

/// The step to take when `previous` is the entity spawned last, if any, and
/// `is_spawned` says whether it is still there: spawn when nothing was ever
/// spawned or what was spawned is gone, watch otherwise.
pub open spec fn spawn_step(previous: Option<Entity>, is_spawned: bool) -> SpawnStep {
    match previous {
        Some(root) if is_spawned => SpawnStep::Watch(root),
        _ => SpawnStep::Respawn,
    }
}

/// Decides what the spawner does with this frame.
pub fn spawn(previous: Option<Entity>, is_spawned: &IsMenuRootSpawned) -> (step: SpawnStep)
    ensures
        step == spawn_step(previous, is_spawned.value),
{
    match previous {
        Some(root) if is_spawned.value => SpawnStep::Watch(root),
        _ => SpawnStep::Respawn,
    }
}

/// Records that the engine spawned `root` as the menu root.
pub fn record_spawn(
    root: Entity,
    previous: &mut Option<Entity>,
    is_spawned: &mut IsMenuRootSpawned,
)
    ensures
        *final(previous) == Some(root),
        final(is_spawned).value == true,
{
    *previous = Some(root);
    is_spawned.value = true;
}

/// How often the menu root is to be despawned for `events`: once for each
/// event that reports its prototype as modified.
pub open spec fn despawns_due(events: Seq<PrototypeEvent>) -> nat {
    events.filter(|event: PrototypeEvent| event.spec_is_modified(PROTO_ID@)).len()
}

/// Goes through the prototype events of a frame in which the menu root is
/// watched. Returns how many despawn commands the engine is to be given for
/// the root, and clears `is_spawned` when there is at least one.
pub fn despawn_on_modified(
    events: &[PrototypeEvent],
    is_spawned: &mut IsMenuRootSpawned,
) -> (despawns: usize)
    ensures
        despawns == despawns_due(events@),
        final(is_spawned).value == (old(is_spawned).value && despawns == 0),
{
    let mut despawns: usize = 0;
    let mut seen: usize = 0;
    while seen < events.len()
        invariant
            seen <= events.len(),
            despawns <= seen,
            despawns == despawns_due(events@.take(seen as int)),
        decreases events.len() - seen,
    {
        proof {
            events@.lemma_take_succ_push(seen as int);
            events@.take(seen as int).lemma_filter_len_push(
                |event: PrototypeEvent| event.spec_is_modified(PROTO_ID@),
                events@[seen as int],
            );
        }
        if events[seen].is_modified(PROTO_ID) {
            despawns += 1;
        }
        seen += 1;
    }
    proof {
        events@.lemma_take_len();
    }
    if despawns > 0 {
        is_spawned.value = false;
    }
    despawns
}

} // verus!
