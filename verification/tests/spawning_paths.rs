use ldtk_registry::app::{App, RegisterLdtkObjects};
use ldtk_registry::assets::{AssetServer, Assets, ColorMaterial, TextureAtlas, TilesetMap};
use ldtk_registry::components::{
    Component, Entity, EntityCommands, GlobalTransform, IntGridCell, MarkerBundle, Transform,
};
use ldtk_registry::ldtk::{EntityInstance, GridCoords};
use ldtk_registry::spawning::{spawn_entity, spawn_int_cell};

fn record(identifier: &str, x: i32, y: i32) -> EntityInstance {
    EntityInstance {
        identifier: identifier.to_owned(),
        px: GridCoords { x, y },
        tile: None,
    }
}

fn spatial(x: i32, y: i32, parent: Entity) -> Vec<Component> {
    vec![
        Component::Transform(Transform { translation: GridCoords { x, y } }),
        Component::GlobalTransform(GlobalTransform { translation: GridCoords { x, y } }),
        Component::Parent(parent),
    ]
}

#[test]
fn unregistered_entity_gets_raw_record_and_spatial_components_only() {
    let instance = record("unknown_thing", 5, 6);
    let parent = Entity { id: 11 };
    let mut commands = EntityCommands::new();
    let mut materials: Assets<ColorMaterial> = Assets::new();
    let mut atlases: Assets<TextureAtlas> = Assets::new();
    spawn_entity(
        &mut commands,
        None,
        &instance,
        &TilesetMap::new(),
        &AssetServer {},
        &mut materials,
        &mut atlases,
        parent,
    );
    let mut expected = vec![Component::EntityInstance(record("unknown_thing", 5, 6))];
    expected.extend(spatial(5, 6, parent));
    assert_eq!(commands.components(), &expected);
    assert_eq!(materials.len(), 0);
    assert_eq!(atlases.len(), 0);
}

#[test]
fn level_with_registered_and_unknown_entities() {
    let app = App::new().register_ldtk_entity::<MarkerBundle<10>>("crate");
    let registry = app.ldtk_entity_map();
    let parent = Entity { id: 1 };
    let tilesets = TilesetMap::new();
    let asset_server = AssetServer {};
    let mut materials: Assets<ColorMaterial> = Assets::new();
    let mut atlases: Assets<TextureAtlas> = Assets::new();

    let crate_instance = record("crate", 0, 0);
    let mut crate_commands = EntityCommands::new();
    spawn_entity(
        &mut crate_commands,
        registry,
        &crate_instance,
        &tilesets,
        &asset_server,
        &mut materials,
        &mut atlases,
        parent,
    );
    let mut expected = vec![Component::Marker(10)];
    expected.extend(spatial(0, 0, parent));
    assert_eq!(crate_commands.components(), &expected);

    let unknown_instance = record("unknown_thing", 8, 8);
    let mut unknown_commands = EntityCommands::new();
    spawn_entity(
        &mut unknown_commands,
        registry,
        &unknown_instance,
        &tilesets,
        &asset_server,
        &mut materials,
        &mut atlases,
        parent,
    );
    let mut expected = vec![Component::EntityInstance(record("unknown_thing", 8, 8))];
    expected.extend(spatial(8, 8, parent));
    assert_eq!(unknown_commands.components(), &expected);
}

#[test]
fn grid_cells_dispatch_by_value() {
    let app = App::new().register_ldtk_int_cell::<MarkerBundle<20>>(2);
    let registry = app.ldtk_int_cell_map();
    let parent = Entity { id: 3 };

    let values: Vec<i32> = vec![1, 2, 2, 5];
    let mut results: Vec<Vec<Component>> = Vec::new();
    for (i, value) in values.iter().enumerate() {
        let mut commands = EntityCommands::new();
        spawn_int_cell(
            &mut commands,
            registry,
            IntGridCell { value: *value },
            GridCoords { x: i as i32, y: 0 },
            parent,
        );
        results.push(commands.components().clone());
    }

    for (i, value) in values.iter().enumerate() {
        let mut expected = if *value == 2 {
            vec![Component::Marker(20)]
        } else {
            vec![Component::IntGridCell(IntGridCell { value: *value })]
        };
        expected.extend(spatial(i as i32, 0, parent));
        assert_eq!(results[i], expected);
    }
}

#[test]
fn spatial_components_are_attached_after_the_factory_path() {
    let app = App::new().register_ldtk_entity::<MarkerBundle<10>>("crate");
    let registry = app.ldtk_entity_map();
    let parent = Entity { id: 2 };
    let mut commands = EntityCommands::new();
    let mut materials: Assets<ColorMaterial> = Assets::new();
    let mut atlases: Assets<TextureAtlas> = Assets::new();
    spawn_entity(
        &mut commands,
        registry,
        &record("crate", 1, 2),
        &TilesetMap::new(),
        &AssetServer {},
        &mut materials,
        &mut atlases,
        parent,
    );
    let attached = commands.components();
    assert_eq!(attached.len(), 4);
    assert_eq!(attached[0], Component::Marker(10));
    assert_eq!(
        attached[3],
        Component::Parent(parent)
    );
}
