use ldtk_registry::app::{App, RegisterLdtkObjects};
use ldtk_registry::assets::{AssetServer, Assets, ColorMaterial, TextureAtlas, TilesetMap};
use ldtk_registry::components::{
    Bundle, Component, Entity, EntityCommands, GlobalTransform, IntGridCell, MarkerBundle,
    Transform,
};
use ldtk_registry::factory::{LdtkEntity, LdtkIntCell};
use ldtk_registry::ldtk::{EntityInstance, GridCoords};
use ldtk_registry::spawning::{spawn_entity, spawn_int_cell};

#[test]
fn entity_instance_registered_as_its_own_bundle() {
    let app = App::new().register_ldtk_entity::<EntityInstance>("raw");
    let instance = EntityInstance {
        identifier: "raw".to_owned(),
        px: GridCoords { x: 2, y: 3 },
        tile: None,
    };
    let parent = Entity { id: 6 };
    let mut commands = EntityCommands::new();
    let mut materials: Assets<ColorMaterial> = Assets::new();
    let mut atlases: Assets<TextureAtlas> = Assets::new();
    spawn_entity(
        &mut commands,
        app.ldtk_entity_map(),
        &instance,
        &TilesetMap::new(),
        &AssetServer {},
        &mut materials,
        &mut atlases,
        parent,
    );
    assert_eq!(
        commands.components(),
        &vec![
            Component::EntityInstance(instance.clone()),
            Component::Transform(Transform { translation: GridCoords { x: 2, y: 3 } }),
            Component::GlobalTransform(GlobalTransform { translation: GridCoords { x: 2, y: 3 } }),
            Component::Parent(parent),
        ]
    );
}

#[test]
fn int_grid_cell_registered_as_its_own_bundle() {
    let app = App::new().register_ldtk_int_cell::<IntGridCell>(7);
    let parent = Entity { id: 6 };
    let mut commands = EntityCommands::new();
    spawn_int_cell(
        &mut commands,
        app.ldtk_int_cell_map(),
        IntGridCell { value: 7 },
        GridCoords { x: 0, y: 1 },
        parent,
    );
    assert_eq!(
        commands.components(),
        &vec![
            Component::IntGridCell(IntGridCell { value: 7 }),
            Component::Transform(Transform { translation: GridCoords { x: 0, y: 1 } }),
            Component::GlobalTransform(GlobalTransform { translation: GridCoords { x: 0, y: 1 } }),
            Component::Parent(parent),
        ]
    );
}

#[test]
fn int_cell_constructors_are_pure_functions_of_the_cell() {
    let cell = IntGridCell { value: 9 };
    let first = MarkerBundle::<5>::bundle_int_cell(cell);
    let second = MarkerBundle::<5>::bundle_int_cell(cell);
    assert_eq!(first.into_components(), second.into_components());

    let identity = IntGridCell::bundle_int_cell(cell);
    assert_eq!(identity, cell);
    assert_eq!(identity.into_components(), vec![Component::IntGridCell(cell)]);
}

#[test]
fn entity_plan_of_marker_bundle_is_its_marker() {
    let plan = MarkerBundle::<31>::entity_plan();
    let mut commands = EntityCommands::new();
    let mut materials: Assets<ColorMaterial> = Assets::new();
    let mut atlases: Assets<TextureAtlas> = Assets::new();
    let bundle = MarkerBundle::<31>::bundle_entity(
        &EntityInstance {
            identifier: "anything".to_owned(),
            px: GridCoords { x: 0, y: 0 },
            tile: None,
        },
        &TilesetMap::new(),
        &AssetServer {},
        &mut materials,
        &mut atlases,
    );
    commands.insert_bundle(bundle);
    assert_eq!(plan.len(), 1);
    assert_eq!(commands.components(), &vec![Component::Marker(31)]);
}
