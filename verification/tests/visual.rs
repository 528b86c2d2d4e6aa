use ldtk_registry::assets::{AssetServer, Assets, ColorMaterial, Handle, TextureAtlas, TilesetMap};
use ldtk_registry::components::{Component, EntityCommands, Sprite, SpriteBundle};
use ldtk_registry::factory::{
    ErasedEntityFactory, LdtkEntity, PhantomLdtkEntity, PhantomLdtkEntityTrait,
};
use ldtk_registry::ldtk::{EntityInstance, GridCoords, TileInstance};

fn record_with_tile(tile: Option<TileInstance>) -> EntityInstance {
    EntityInstance {
        identifier: "decoration".to_owned(),
        px: GridCoords { x: 16, y: 32 },
        tile,
    }
}

#[test]
fn default_visual_without_tile_is_empty_visual() {
    let instance = record_with_tile(None);
    let tilesets = TilesetMap::new();
    let mut materials: Assets<ColorMaterial> = Assets::new();
    let mut atlases: Assets<TextureAtlas> = Assets::new();
    let bundle = SpriteBundle::bundle_entity(
        &instance,
        &tilesets,
        &AssetServer {},
        &mut materials,
        &mut atlases,
    );
    assert_eq!(bundle, SpriteBundle::default());
    assert_eq!(bundle.sprite.material, None);
    assert_eq!(materials.len(), 0);
    assert_eq!(atlases.len(), 0);
}

#[test]
fn default_visual_with_unknown_tileset_is_empty_visual() {
    let instance = record_with_tile(Some(TileInstance { tileset_uid: 5, src_x: 0, src_y: 0 }));
    let tilesets = TilesetMap::new();
    let mut materials: Assets<ColorMaterial> = Assets::new();
    let mut atlases: Assets<TextureAtlas> = Assets::new();
    let bundle = SpriteBundle::bundle_entity(
        &instance,
        &tilesets,
        &AssetServer {},
        &mut materials,
        &mut atlases,
    );
    assert_eq!(bundle, SpriteBundle::default());
    assert_eq!(materials.len(), 0);
}

#[test]
fn default_visual_with_known_tileset_registers_material() {
    let instance = record_with_tile(Some(TileInstance { tileset_uid: 1, src_x: 8, src_y: 8 }));
    let mut tilesets = TilesetMap::new();
    tilesets.insert(1, Handle { id: 42 });
    let mut materials: Assets<ColorMaterial> = Assets::new();
    let mut atlases: Assets<TextureAtlas> = Assets::new();
    let bundle = SpriteBundle::bundle_entity(
        &instance,
        &tilesets,
        &AssetServer {},
        &mut materials,
        &mut atlases,
    );
    let material = bundle.sprite.material.expect("a material was made");
    assert_eq!(materials.len(), 1);
    assert_eq!(
        materials.get(material),
        Some(&ColorMaterial { texture: Handle { id: 42 } })
    );
    assert_eq!(atlases.len(), 0);
}

#[test]
fn typed_and_erased_wrappers_agree_on_visual_bundles() {
    let instance = record_with_tile(Some(TileInstance { tileset_uid: 1, src_x: 0, src_y: 0 }));
    let mut tilesets = TilesetMap::new();
    tilesets.insert(1, Handle { id: 9 });
    let asset_server = AssetServer {};

    let mut typed_commands = EntityCommands::new();
    let mut materials_a: Assets<ColorMaterial> = Assets::new();
    let mut atlases_a: Assets<TextureAtlas> = Assets::new();
    let typed = PhantomLdtkEntity::<SpriteBundle>::new();
    typed.evaluate(
        &mut typed_commands,
        &instance,
        &tilesets,
        &asset_server,
        &mut materials_a,
        &mut atlases_a,
    );

    let mut erased_commands = EntityCommands::new();
    let mut materials_b: Assets<ColorMaterial> = Assets::new();
    let mut atlases_b: Assets<TextureAtlas> = Assets::new();
    let erased = ErasedEntityFactory::of_bundle::<SpriteBundle>();
    erased.evaluate(
        &mut erased_commands,
        &instance,
        &tilesets,
        &asset_server,
        &mut materials_b,
        &mut atlases_b,
    );

    assert_eq!(typed_commands.components(), erased_commands.components());
    assert_eq!(
        typed_commands.components(),
        &vec![Component::Sprite(Sprite { material: Some(Handle { id: 0 }) })]
    );
    assert_eq!(materials_a.len(), 1);
    assert_eq!(materials_b.len(), 1);
    assert_eq!(materials_a.get(Handle { id: 0 }), materials_b.get(Handle { id: 0 }));
}
