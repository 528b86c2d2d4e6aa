//! The registration API: builder-style operations on the host
//! application object that associate level-file entity identifiers and
//! integer grid-cell values with bundle factories, creating each
//! registry on its first registration.

use vstd::prelude::*;

use crate::assets::{AssetServer, Assets, ColorMaterial, Handle, TextureAtlas, TilesetMap};
use crate::components::{
    Bundle, Component, ComposedBundle, IntGridCell, MarkerBundle, Sprite, SpriteBundle,
};
use crate::factory::{
    entity_plan_effects, lemma_entity_plan_concat, lemma_entity_plan_singleton,
    lemma_int_cell_plan_concat, lemma_int_cell_plan_singleton, EntityFieldStrategy,
    ErasedEntityFactory, ErasedIntCellFactory, IntCellFieldStrategy, LdtkEntity, LdtkIntCell,
    PhantomLdtkEntityTrait, PhantomLdtkIntCellTrait,
};
use crate::ldtk::EntityInstance;
use crate::registry::{LdtkEntityMap, LdtkIntCellMap};

verus! {

/// The host application object, owner of the identifier registries for
/// the remainder of its life. Each registry is created on the first
/// registration that concerns it and persists from then on.
pub struct App {
    ldtk_entity_map: Option<LdtkEntityMap>,
    ldtk_int_cell_map: Option<LdtkIntCellMap>,
}

impl App {
    /// The entity registry is unambiguous.
    pub closed spec fn wf(&self) -> bool {
        match self.ldtk_entity_map {
            Some(m) => m.wf(),
            None => true,
        }
    }

    /// What the app associates entity identifiers with: empty until the
    /// first registration creates the registry.
    pub closed spec fn entity_registry(&self) -> Map<Seq<char>, Seq<EntityFieldStrategy>> {
        match self.ldtk_entity_map {
            Some(m) => m@,
            None => Map::empty(),
        }
    }

    /// What the app associates grid-cell values with: empty until the
    /// first registration creates the registry.
    pub closed spec fn int_cell_registry(&self) -> Map<i32, Seq<IntCellFieldStrategy>> {
        match self.ldtk_int_cell_map {
            Some(m) => m@,
            None => Map::empty(),
        }
    }

    /// An app with no registrations: both registries are yet to be
    /// created.
    pub fn new() -> (r: App)
        ensures
            r.wf(),
            r.entity_registry() == Map::<Seq<char>, Seq<EntityFieldStrategy>>::empty(),
            r.int_cell_registry() == Map::<i32, Seq<IntCellFieldStrategy>>::empty(),
    {
        App { ldtk_entity_map: None, ldtk_int_cell_map: None }
    }

    /// The entity registry, once some registration has created it.
    pub fn ldtk_entity_map(&self) -> (r: Option<&LdtkEntityMap>)
        requires
            self.wf(),
        ensures
            match r {
                Some(m) => m.wf() && m@ == self.entity_registry(),
                None => self.entity_registry() == Map::<
                    Seq<char>,
                    Seq<EntityFieldStrategy>,
                >::empty(),
            },
    {
        match &self.ldtk_entity_map {
            Some(m) => Some(m),
            None => None,
        }
    }

    /// The int-cell registry, once some registration has created it.
    pub fn ldtk_int_cell_map(&self) -> (r: Option<&LdtkIntCellMap>)
        ensures
            match r {
                Some(m) => m@ == self.int_cell_registry(),
                None => self.int_cell_registry() == Map::<
                    i32,
                    Seq<IntCellFieldStrategy>,
                >::empty(),
            },
    {
        match &self.ldtk_int_cell_map {
            Some(m) => Some(m),
            None => None,
        }
    }
}

/// The registration surface: associates bundle types with the entity
/// identifiers and grid-cell values they should be spawned for. Both
/// operations return the builder, so registrations chain.
pub trait RegisterLdtkObjects: Sized {
    /// The entity registry is unambiguous.
    spec fn registries_wf(&self) -> bool;

    /// What is registered for entity identifiers.
    spec fn entity_registry(&self) -> Map<Seq<char>, Seq<EntityFieldStrategy>>;

    /// What is registered for grid-cell values.
    spec fn int_cell_registry(&self) -> Map<i32, Seq<IntCellFieldStrategy>>;

    /// Registers the bundle type `B` to be spawned for every entity
    /// record whose identifier is `identifier`, replacing whatever was
    /// registered for that identifier before. Whether `identifier` ever
    /// occurs in a loaded level is not validated.
    fn register_ldtk_entity<B: LdtkEntity>(self, identifier: &str) -> (r: Self)
        requires
            self.registries_wf(),
        ensures
            r.registries_wf(),
            r.entity_registry() == self.entity_registry().insert(
                identifier@,
                B::entity_plan_spec(),
            ),
            r.int_cell_registry() == self.int_cell_registry(),
    ;

    /// Registers the bundle type `B` to be spawned for every grid cell
    /// whose value is `value`, replacing whatever was registered for
    /// that value before.
    fn register_ldtk_int_cell<B: LdtkIntCell>(self, value: i32) -> (r: Self)
        requires
            self.registries_wf(),
        ensures
            r.registries_wf(),
            r.int_cell_registry() == self.int_cell_registry().insert(
                value,
                B::int_cell_plan_spec(),
            ),
            r.entity_registry() == self.entity_registry(),
    ;
}

impl RegisterLdtkObjects for App {
    open spec fn registries_wf(&self) -> bool {
        self.wf()
    }

    open spec fn entity_registry(&self) -> Map<Seq<char>, Seq<EntityFieldStrategy>> {
        App::entity_registry(self)
    }

    open spec fn int_cell_registry(&self) -> Map<i32, Seq<IntCellFieldStrategy>> {
        App::int_cell_registry(self)
    }

    fn register_ldtk_entity<B: LdtkEntity>(self, identifier: &str) -> (r: Self) {
        let factory = ErasedEntityFactory::of_bundle::<B>();
        let App { ldtk_entity_map, ldtk_int_cell_map } = self;
        let mut bundle_map = match ldtk_entity_map {
            Some(entries) => entries,
            None => LdtkEntityMap::new(),
        };
        bundle_map.insert(identifier.to_owned(), factory);
        App { ldtk_entity_map: Some(bundle_map), ldtk_int_cell_map }
    }

    fn register_ldtk_int_cell<B: LdtkIntCell>(self, value: i32) -> (r: Self) {
        let factory = ErasedIntCellFactory::of_bundle::<B>();
        let App { ldtk_entity_map, ldtk_int_cell_map } = self;
        let mut bundle_map = match ldtk_int_cell_map {
            Some(entries) => entries,
            None => LdtkIntCellMap::new(),
        };
        bundle_map.insert(value, factory);
        App { ldtk_entity_map, ldtk_int_cell_map: Some(bundle_map) }
    }
}

impl LdtkEntity for SpriteBundle {
    /// The default visual factory builds one sprite from the record's
    /// editor visual.
    open spec fn entity_plan_spec() -> Seq<EntityFieldStrategy> {
        seq![EntityFieldStrategy::SpriteFromEditorVisual]
    }

    fn entity_plan() -> (r: Vec<EntityFieldStrategy>) {
        let mut r: Vec<EntityFieldStrategy> = Vec::new();
        r.push(EntityFieldStrategy::SpriteFromEditorVisual);
        proof {
            assert(r@ =~= Self::entity_plan_spec());
        }
        r
    }

    /// The default visual factory. When the record has no tile
    /// reference, or the referenced tileset is absent from the tileset
    /// map, it falls back to the default, empty visual rather than
    /// failing; otherwise it registers a material for the tileset's
    /// texture and builds a sprite drawing that material.
    fn bundle_entity(
        entity_instance: &EntityInstance,
        tileset_map: &TilesetMap,
        _asset_server: &AssetServer,
        materials: &mut Assets<ColorMaterial>,
        _texture_atlases: &mut Assets<TextureAtlas>,
    ) -> (r: Self) {
        proof {
            lemma_entity_plan_singleton(
                EntityFieldStrategy::SpriteFromEditorVisual,
                *entity_instance,
                tileset_map@,
                old(materials)@,
                old(_texture_atlases)@,
            );
        }
        let tile = match &entity_instance.tile {
            Some(tile) => tile,
            None => {
                return SpriteBundle::default();
            },
        };
        let tileset = match tileset_map.get(&tile.tileset_uid) {
            Some(tileset) => *tileset,
            None => {
                return SpriteBundle::default();
            },
        };
        let material = materials.add(ColorMaterial::of_texture(tileset));
        SpriteBundle { sprite: Sprite { material: Some(material) } }
    }
}

impl LdtkEntity for EntityInstance {
    /// An entity record can be its own bundle: the registered factory
    /// then attaches the raw record, as the fallback path would.
    open spec fn entity_plan_spec() -> Seq<EntityFieldStrategy> {
        seq![EntityFieldStrategy::FromEntityInstance]
    }

    fn entity_plan() -> (r: Vec<EntityFieldStrategy>) {
        let mut r: Vec<EntityFieldStrategy> = Vec::new();
        r.push(EntityFieldStrategy::FromEntityInstance);
        proof {
            assert(r@ =~= Self::entity_plan_spec());
        }
        r
    }

    fn bundle_entity(
        entity_instance: &EntityInstance,
        tileset_map: &TilesetMap,
        _asset_server: &AssetServer,
        materials: &mut Assets<ColorMaterial>,
        _texture_atlases: &mut Assets<TextureAtlas>,
    ) -> (r: Self) {
        proof {
            lemma_entity_plan_singleton(
                EntityFieldStrategy::FromEntityInstance,
                *entity_instance,
                tileset_map@,
                old(materials)@,
                old(_texture_atlases)@,
            );
        }
        entity_instance.clone()
    }
}

impl LdtkIntCell for IntGridCell {
    /// A grid-cell value can be its own bundle: the registered factory
    /// then attaches the raw cell value, as the fallback path would.
    open spec fn int_cell_plan_spec() -> Seq<IntCellFieldStrategy> {
        seq![IntCellFieldStrategy::FromIntGridCell]
    }

    fn int_cell_plan() -> (r: Vec<IntCellFieldStrategy>) {
        let mut r: Vec<IntCellFieldStrategy> = Vec::new();
        r.push(IntCellFieldStrategy::FromIntGridCell);
        proof {
            assert(r@ =~= Self::int_cell_plan_spec());
        }
        r
    }

    fn bundle_int_cell(int_grid_cell: IntGridCell) -> (r: Self) {
        proof {
            lemma_int_cell_plan_singleton(
                IntCellFieldStrategy::FromIntGridCell,
                int_grid_cell,
            );
        }
        int_grid_cell
    }
}

impl<const TAG: u64> LdtkEntity for MarkerBundle<TAG> {
    /// A marker bundle attaches its marker component, whatever the
    /// record says.
    open spec fn entity_plan_spec() -> Seq<EntityFieldStrategy> {
        seq![EntityFieldStrategy::Marker(TAG)]
    }

    fn entity_plan() -> (r: Vec<EntityFieldStrategy>) {
        let mut r: Vec<EntityFieldStrategy> = Vec::new();
        r.push(EntityFieldStrategy::Marker(TAG));
        proof {
            assert(r@ =~= Self::entity_plan_spec());
        }
        r
    }

    fn bundle_entity(
        entity_instance: &EntityInstance,
        tileset_map: &TilesetMap,
        _asset_server: &AssetServer,
        materials: &mut Assets<ColorMaterial>,
        _texture_atlases: &mut Assets<TextureAtlas>,
    ) -> (r: Self) {
        proof {
            lemma_entity_plan_singleton(
                EntityFieldStrategy::Marker(TAG),
                *entity_instance,
                tileset_map@,
                old(materials)@,
                old(_texture_atlases)@,
            );
        }
        MarkerBundle {}
    }
}

impl<const TAG: u64> LdtkIntCell for MarkerBundle<TAG> {
    /// A marker bundle attaches its marker component, whatever the cell
    /// value is.
    open spec fn int_cell_plan_spec() -> Seq<IntCellFieldStrategy> {
        seq![IntCellFieldStrategy::Marker(TAG)]
    }

    fn int_cell_plan() -> (r: Vec<IntCellFieldStrategy>) {
        let mut r: Vec<IntCellFieldStrategy> = Vec::new();
        r.push(IntCellFieldStrategy::Marker(TAG));
        proof {
            assert(r@ =~= Self::int_cell_plan_spec());
        }
        r
    }

    fn bundle_int_cell(int_grid_cell: IntGridCell) -> (r: Self) {
        proof {
            lemma_int_cell_plan_singleton(IntCellFieldStrategy::Marker(TAG), int_grid_cell);
        }
        MarkerBundle {}
    }
}

impl<A: LdtkEntity, B: LdtkEntity> LdtkEntity for ComposedBundle<A, B> {
    /// A composed bundle is built by `A`'s plan and then `B`'s, `B`'s
    /// construction seeing the asset stores as `A`'s left them.
    open spec fn entity_plan_spec() -> Seq<EntityFieldStrategy> {
        A::entity_plan_spec() + B::entity_plan_spec()
    }

    fn entity_plan() -> (r: Vec<EntityFieldStrategy>) {
        let mut r = A::entity_plan();
        let mut rest = B::entity_plan();
        r.append(&mut rest);
        r
    }

    fn bundle_entity(
        entity_instance: &EntityInstance,
        tileset_map: &TilesetMap,
        asset_server: &AssetServer,
        materials: &mut Assets<ColorMaterial>,
        texture_atlases: &mut Assets<TextureAtlas>,
    ) -> (r: Self) {
        let first = A::bundle_entity(
            entity_instance,
            tileset_map,
            asset_server,
            materials,
            texture_atlases,
        );
        let second = B::bundle_entity(
            entity_instance,
            tileset_map,
            asset_server,
            materials,
            texture_atlases,
        );
        proof {
            lemma_entity_plan_concat(
                A::entity_plan_spec(),
                B::entity_plan_spec(),
                *entity_instance,
                tileset_map@,
                old(materials)@,
                old(texture_atlases)@,
            );
        }
        ComposedBundle { first, second }
    }
}

impl<A: LdtkIntCell, B: LdtkIntCell> LdtkIntCell for ComposedBundle<A, B> {
    /// A composed bundle attaches what `A` attaches and then what `B`
    /// attaches, for the same cell value.
    open spec fn int_cell_plan_spec() -> Seq<IntCellFieldStrategy> {
        A::int_cell_plan_spec() + B::int_cell_plan_spec()
    }

    fn int_cell_plan() -> (r: Vec<IntCellFieldStrategy>) {
        let mut r = A::int_cell_plan();
        let mut rest = B::int_cell_plan();
        r.append(&mut rest);
        r
    }

    fn bundle_int_cell(int_grid_cell: IntGridCell) -> (r: Self) {
        let first = A::bundle_int_cell(int_grid_cell);
        let second = B::bundle_int_cell(int_grid_cell);
        proof {
            lemma_int_cell_plan_concat(
                A::int_cell_plan_spec(),
                B::int_cell_plan_spec(),
                int_grid_cell,
            );
        }
        ComposedBundle { first, second }
    }
}

/// The default visual factory, given an entity record with no tile
/// reference, yields the default, empty visual result and leaves both
/// asset stores untouched: a fallback, not an error.
pub proof fn lemma_default_visual_without_tile(
    entity_instance: EntityInstance,
    tilesets: Map<i32, Handle>,
    materials: Seq<ColorMaterial>,
    atlases: Seq<TextureAtlas>,
)
    requires
        entity_instance.tile is None,
    ensures
        ({
            let effects = entity_plan_effects(
                <SpriteBundle as LdtkEntity>::entity_plan_spec(),
                entity_instance,
                tilesets,
                materials,
                atlases,
            );
            &&& effects.components == seq![Component::Sprite(Sprite { material: None })]
            &&& effects.materials == materials
            &&& effects.atlases == atlases
        }),
{
    lemma_entity_plan_singleton(
        EntityFieldStrategy::SpriteFromEditorVisual,
        entity_instance,
        tilesets,
        materials,
        atlases,
    );
}

/// The default visual factory, given a tile reference whose tileset is
/// absent from the supplied tileset map, yields the default, empty
/// visual result and leaves both asset stores untouched: a fallback,
/// not an error.
pub proof fn lemma_default_visual_unknown_tileset(
    entity_instance: EntityInstance,
    tilesets: Map<i32, Handle>,
    materials: Seq<ColorMaterial>,
    atlases: Seq<TextureAtlas>,
)
    requires
        entity_instance.tile matches Some(tile) && !tilesets.contains_key(tile.tileset_uid),
    ensures
        ({
            let effects = entity_plan_effects(
                <SpriteBundle as LdtkEntity>::entity_plan_spec(),
                entity_instance,
                tilesets,
                materials,
                atlases,
            );
            &&& effects.components == seq![Component::Sprite(Sprite { material: None })]
            &&& effects.materials == materials
            &&& effects.atlases == atlases
        }),
{
    lemma_entity_plan_singleton(
        EntityFieldStrategy::SpriteFromEditorVisual,
        entity_instance,
        tilesets,
        materials,
        atlases,
    );
}

} // verus!
