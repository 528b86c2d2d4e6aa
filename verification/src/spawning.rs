//! The spawn-time consumer: for each entity record or grid cell of a
//! loading level, look its key up in the registry and either apply the
//! registered factory or attach the raw fallback component, then attach
//! the fixed spatial and hierarchy components.
//!
//! The spatial components come last, so whatever a factory put there is
//! overwritten by them. No path fails: every record and every cell ends
//! up attached to something.

use vstd::prelude::*;

use crate::assets::{AssetServer, Assets, ColorMaterial, Handle, TextureAtlas, TilesetMap};
use crate::components::{
    Component, Entity, EntityCommands, GlobalTransform, IntGridCell, Transform,
};
use crate::factory::{
    entity_plan_effects, int_cell_plan_components, BuildEffects, EntityFieldStrategy,
    IntCellFieldStrategy, LdtkEntity, LdtkIntCell, PhantomLdtkEntityTrait, PhantomLdtkIntCellTrait,
};
use crate::ldtk::{EntityInstance, GridCoords};
use crate::registry::{LdtkEntityMap, LdtkIntCellMap};

verus! {

/// The fixed spatial and hierarchy components, attached after every
/// factory or fallback path.
pub open spec fn spatial_components(translation: GridCoords, parent: Entity) -> Seq<Component> {
    seq![
        Component::Transform(Transform { translation }),
        Component::GlobalTransform(GlobalTransform { translation }),
        Component::Parent(parent),
    ]
}

/// What dispatching one entity record attaches and what it does to the
/// asset stores: on a registry hit, the registered plan's bundle; on a
/// miss, the raw record as a fallback component; either way the fixed
/// spatial components afterwards.
pub open spec fn entity_spawn_effects(
    registry: Map<Seq<char>, Seq<EntityFieldStrategy>>,
    entity_instance: EntityInstance,
    tilesets: Map<i32, Handle>,
    materials: Seq<ColorMaterial>,
    atlases: Seq<TextureAtlas>,
    parent: Entity,
) -> BuildEffects {
    let base = if registry.contains_key(entity_instance.identifier@) {
        entity_plan_effects(
            registry[entity_instance.identifier@],
            entity_instance,
            tilesets,
            materials,
            atlases,
        )
    } else {
        BuildEffects {
            components: seq![Component::EntityInstance(entity_instance)],
            materials,
            atlases,
        }
    };
    BuildEffects {
        components: base.components + spatial_components(entity_instance.px, parent),
        materials: base.materials,
        atlases: base.atlases,
    }
}

/// What dispatching one grid cell attaches: on a registry hit, the
/// registered plan's bundle; on a miss, the raw cell value as a fallback
/// component; either way the fixed spatial components afterwards.
pub open spec fn int_cell_spawn_components(
    registry: Map<i32, Seq<IntCellFieldStrategy>>,
    int_grid_cell: IntGridCell,
    coords: GridCoords,
    parent: Entity,
) -> Seq<Component> {
    let base = if registry.contains_key(int_grid_cell.value) {
        int_cell_plan_components(registry[int_grid_cell.value], int_grid_cell)
    } else {
        seq![Component::IntGridCell(int_grid_cell)]
    };
    base + spatial_components(coords, parent)
}

/// The registry's view, an absent registry reading as empty.
pub open spec fn entity_registry_of(registry: Option<&LdtkEntityMap>) -> Map<
    Seq<char>,
    Seq<EntityFieldStrategy>,
> {
    match registry {
        Some(m) => m@,
        None => Map::empty(),
    }
}

/// The registry's view, an absent registry reading as empty.
pub open spec fn int_cell_registry_of(registry: Option<&LdtkIntCellMap>) -> Map<
    i32,
    Seq<IntCellFieldStrategy>,
> {
    match registry {
        Some(m) => m@,
        None => Map::empty(),
    }
}

/// Dispatches one entity record: applies the factory registered for its
/// identifier, or attaches the raw record when none is, and attaches the
/// fixed spatial components after either path.
pub fn spawn_entity(
    entity_commands: &mut EntityCommands,
    registry: Option<&LdtkEntityMap>,
    entity_instance: &EntityInstance,
    tileset_map: &TilesetMap,
    asset_server: &AssetServer,
    materials: &mut Assets<ColorMaterial>,
    texture_atlases: &mut Assets<TextureAtlas>,
    parent: Entity,
)
    requires
        match registry {
            Some(m) => m.wf(),
            None => true,
        },
    ensures
        ({
            let effects = entity_spawn_effects(
                entity_registry_of(registry),
                *entity_instance,
                tileset_map@,
                old(materials)@,
                old(texture_atlases)@,
                parent,
            );
            &&& final(entity_commands)@ == old(entity_commands)@ + effects.components
            &&& final(materials)@ == effects.materials
            &&& final(texture_atlases)@ == effects.atlases
        }),
{
    let factory = match registry {
        Some(m) => m.get(&entity_instance.identifier),
        None => None,
    };
    match factory {
        Some(f) => {
            f.evaluate(
                entity_commands,
                entity_instance,
                tileset_map,
                asset_server,
                materials,
                texture_atlases,
            );
        },
        None => {
            entity_commands.insert(Component::EntityInstance(entity_instance.clone()));
        },
    }
    entity_commands.insert(Component::Transform(Transform { translation: entity_instance.px }));
    entity_commands.insert(
        Component::GlobalTransform(GlobalTransform { translation: entity_instance.px }),
    );
    entity_commands.insert(Component::Parent(parent));
    proof {
        let effects = entity_spawn_effects(
            entity_registry_of(registry),
            *entity_instance,
            tileset_map@,
            old(materials)@,
            old(texture_atlases)@,
            parent,
        );
        assert(entity_commands@ =~= old(entity_commands)@ + effects.components);
    }
}

/// Dispatches one grid cell: applies the factory registered for its
/// value, or attaches the raw cell when none is, and attaches the fixed
/// spatial components after either path.
pub fn spawn_int_cell(
    entity_commands: &mut EntityCommands,
    registry: Option<&LdtkIntCellMap>,
    int_grid_cell: IntGridCell,
    coords: GridCoords,
    parent: Entity,
)
    ensures
        final(entity_commands)@ == old(entity_commands)@ + int_cell_spawn_components(
            int_cell_registry_of(registry),
            int_grid_cell,
            coords,
            parent,
        ),
{
    let factory = match registry {
        Some(m) => m.get(int_grid_cell.value),
        None => None,
    };
    match factory {
        Some(f) => {
            f.evaluate(entity_commands, int_grid_cell);
        },
        None => {
            entity_commands.insert(Component::IntGridCell(int_grid_cell));
        },
    }
    entity_commands.insert(Component::Transform(Transform { translation: coords }));
    entity_commands.insert(Component::GlobalTransform(GlobalTransform { translation: coords }));
    entity_commands.insert(Component::Parent(parent));
    proof {
        assert(entity_commands@ =~= old(entity_commands)@ + int_cell_spawn_components(
            int_cell_registry_of(registry),
            int_grid_cell,
            coords,
            parent,
        ));
    }
}

/// Looking up an identifier that was registered for the bundle type `B`
/// yields a factory whose application attaches exactly the components
/// `B`'s own constructor would produce for the same inputs, followed by
/// the fixed spatial components, with the same effect on the asset
/// stores: the erasing wrapper is functionally the typed constructor.
pub proof fn lemma_registered_dispatch_matches_build<B: LdtkEntity>(
    registry: Map<Seq<char>, Seq<EntityFieldStrategy>>,
    entity_instance: EntityInstance,
    tilesets: Map<i32, Handle>,
    materials: Seq<ColorMaterial>,
    atlases: Seq<TextureAtlas>,
    parent: Entity,
)
    requires
        registry.contains_key(entity_instance.identifier@),
        registry[entity_instance.identifier@] == B::entity_plan_spec(),
    ensures
        ({
            let effects = entity_spawn_effects(
                registry,
                entity_instance,
                tilesets,
                materials,
                atlases,
                parent,
            );
            let build = entity_plan_effects(
                B::entity_plan_spec(),
                entity_instance,
                tilesets,
                materials,
                atlases,
            );
            &&& effects.components == build.components + spatial_components(
                entity_instance.px,
                parent,
            )
            &&& effects.materials == build.materials
            &&& effects.atlases == build.atlases
        }),
{
}

/// Dispatching an entity record whose identifier was never registered
/// attaches the raw-record fallback component and the fixed spatial
/// components, and nothing else, and leaves the asset stores unchanged.
pub proof fn lemma_unregistered_dispatch_is_fallback(
    registry: Map<Seq<char>, Seq<EntityFieldStrategy>>,
    entity_instance: EntityInstance,
    tilesets: Map<i32, Handle>,
    materials: Seq<ColorMaterial>,
    atlases: Seq<TextureAtlas>,
    parent: Entity,
)
    requires
        !registry.contains_key(entity_instance.identifier@),
    ensures
        ({
            let effects = entity_spawn_effects(
                registry,
                entity_instance,
                tilesets,
                materials,
                atlases,
                parent,
            );
            &&& effects.components == seq![Component::EntityInstance(entity_instance)]
                + spatial_components(entity_instance.px, parent)
            &&& effects.materials == materials
            &&& effects.atlases == atlases
        }),
{
}

/// Looking up a grid-cell value that was registered for the bundle type
/// `B` yields a factory whose application attaches exactly the components
/// `B`'s own constructor would produce for the same cell, followed by the
/// fixed spatial components.
pub proof fn lemma_registered_int_cell_dispatch_matches_build<B: LdtkIntCell>(
    registry: Map<i32, Seq<IntCellFieldStrategy>>,
    int_grid_cell: IntGridCell,
    coords: GridCoords,
    parent: Entity,
)
    requires
        registry.contains_key(int_grid_cell.value),
        registry[int_grid_cell.value] == B::int_cell_plan_spec(),
    ensures
        int_cell_spawn_components(registry, int_grid_cell, coords, parent)
            == int_cell_plan_components(B::int_cell_plan_spec(), int_grid_cell)
            + spatial_components(coords, parent),
{
}

/// Dispatching a grid cell whose value was never registered attaches the
/// raw cell-value fallback component and the fixed spatial components,
/// and nothing else.
pub proof fn lemma_unregistered_int_cell_is_fallback(
    registry: Map<i32, Seq<IntCellFieldStrategy>>,
    int_grid_cell: IntGridCell,
    coords: GridCoords,
    parent: Entity,
)
    requires
        !registry.contains_key(int_grid_cell.value),
    ensures
        int_cell_spawn_components(registry, int_grid_cell, coords, parent)
            == seq![Component::IntGridCell(int_grid_cell)] + spatial_components(coords, parent),
{
}

} // verus!
