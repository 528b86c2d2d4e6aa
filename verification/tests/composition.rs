use ldtk_registry::app::{App, RegisterLdtkObjects};
use ldtk_registry::assets::{AssetServer, Assets, ColorMaterial, Handle, TextureAtlas, TilesetMap};
use ldtk_registry::components::{
    ComposedBundle, Component, Entity, EntityCommands, GlobalTransform, IntGridCell, MarkerBundle,
    Sprite, SpriteBundle, Transform,
};
use ldtk_registry::ldtk::{EntityInstance, GridCoords, TileInstance};
use ldtk_registry::spawning::{spawn_entity, spawn_int_cell};

#[test]
fn composed_entity_bundle_attaches_both_parts_in_order() {
    let app = App::new()
        .register_ldtk_entity::<ComposedBundle<MarkerBundle<1>, SpriteBundle>>("gem");
    let instance = EntityInstance {
        identifier: "gem".to_owned(),
        px: GridCoords { x: 4, y: 4 },
        tile: Some(TileInstance { tileset_uid: 3, src_x: 0, src_y: 0 }),
    };
    let mut tilesets = TilesetMap::new();
    tilesets.insert(3, Handle { id: 77 });
    let parent = Entity { id: 1 };
    let mut commands = EntityCommands::new();
    let mut materials: Assets<ColorMaterial> = Assets::new();
    let mut atlases: Assets<TextureAtlas> = Assets::new();
    spawn_entity(
        &mut commands,
        app.ldtk_entity_map(),
        &instance,
        &tilesets,
        &AssetServer {},
        &mut materials,
        &mut atlases,
        parent,
    );
    assert_eq!(
        commands.components(),
        &vec![
            Component::Marker(1),
            Component::Sprite(Sprite { material: Some(Handle { id: 0 }) }),
            Component::Transform(Transform { translation: GridCoords { x: 4, y: 4 } }),
            Component::GlobalTransform(GlobalTransform { translation: GridCoords { x: 4, y: 4 } }),
            Component::Parent(parent),
        ]
    );
    assert_eq!(materials.len(), 1);
    assert_eq!(
        materials.get(Handle { id: 0 }),
        Some(&ColorMaterial { texture: Handle { id: 77 } })
    );
}

#[test]
fn composed_int_cell_bundle_attaches_both_parts_in_order() {
    let app = App::new()
        .register_ldtk_int_cell::<ComposedBundle<MarkerBundle<2>, IntGridCell>>(4);
    let parent = Entity { id: 9 };
    let mut commands = EntityCommands::new();
    spawn_int_cell(
        &mut commands,
        app.ldtk_int_cell_map(),
        IntGridCell { value: 4 },
        GridCoords { x: 1, y: 1 },
        parent,
    );
    assert_eq!(
        commands.components(),
        &vec![
            Component::Marker(2),
            Component::IntGridCell(IntGridCell { value: 4 }),
            Component::Transform(Transform { translation: GridCoords { x: 1, y: 1 } }),
            Component::GlobalTransform(GlobalTransform { translation: GridCoords { x: 1, y: 1 } }),
            Component::Parent(parent),
        ]
    );
}
