//! Factory contracts and their type-erased wrappers.
//!
//! A bundle type declares how it is built from level data as a *plan*: a
//! sequence of field-construction strategies drawn from a small closed
//! set. The plan is plain data, so a single registry can hold factories
//! for arbitrarily many concrete bundle types, and the spawn-time
//! consumer only ever calls the non-generic wrapper contract.

use vstd::prelude::*;

use crate::assets::{AssetServer, Assets, ColorMaterial, Handle, TextureAtlas, TilesetMap};
use crate::components::{Bundle, Component, EntityCommands, IntGridCell, Sprite};
use crate::ldtk::EntityInstance;
use core::marker::PhantomData;

verus! {

broadcast use vstd::std_specs::hash::group_hash_axioms;

/// How one component of an entity bundle is built from an entity record.
#[derive(Clone, Copy, Debug, PartialEq, Eq, Structural)]
pub enum EntityFieldStrategy {
    /// Attach a marker component with the given tag.
    Marker(u64),
    /// Attach the raw entity record itself as a component.
    FromEntityInstance,
    /// Build a sprite from the record's editor visual: resolve its tile
    /// reference through the tileset map and register a material for the
    /// tileset's texture. When the record has no tile reference, or the
    /// referenced tileset is absent from the map, fall back to the
    /// default, empty visual instead of failing.
    SpriteFromEditorVisual,
}

/// How one component of an int-cell bundle is built from a grid-cell value.
#[derive(Clone, Copy, Debug, PartialEq, Eq, Structural)]
pub enum IntCellFieldStrategy {
    /// Attach a marker component with the given tag.
    Marker(u64),
    /// Attach the raw grid-cell value itself as a component.
    FromIntGridCell,
}

/// What applying a plan to one entity record produces: the components of
/// the bundle, and the asset stores as they stand afterwards.
pub struct BuildEffects {
    pub components: Seq<Component>,
    pub materials: Seq<ColorMaterial>,
    pub atlases: Seq<TextureAtlas>,
}

/// The effect of a single entity field strategy.
pub open spec fn entity_strategy_effects(
    strategy: EntityFieldStrategy,
    entity_instance: EntityInstance,
    tilesets: Map<i32, Handle>,
    materials: Seq<ColorMaterial>,
    atlases: Seq<TextureAtlas>,
) -> BuildEffects {
    match strategy {
        EntityFieldStrategy::Marker(tag) => BuildEffects {
            components: seq![Component::Marker(tag)],
            materials,
            atlases,
        },
        EntityFieldStrategy::FromEntityInstance => BuildEffects {
            components: seq![Component::EntityInstance(entity_instance)],
            materials,
            atlases,
        },
        EntityFieldStrategy::SpriteFromEditorVisual => match entity_instance.tile {
            Some(tile) => {
                if tilesets.contains_key(tile.tileset_uid) {
                    BuildEffects {
                        components: seq![
                            Component::Sprite(
                                Sprite { material: Some(Handle { id: materials.len() as u64 }) },
                            ),
                        ],
                        materials: materials.push(
                            ColorMaterial { texture: tilesets[tile.tileset_uid] },
                        ),
                        atlases,
                    }
                } else {
                    BuildEffects {
                        components: seq![Component::Sprite(Sprite { material: None })],
                        materials,
                        atlases,
                    }
                }
            },
            None => BuildEffects {
                components: seq![Component::Sprite(Sprite { material: None })],
                materials,
                atlases,
            },
        },
    }
}

/// The effect of an entity plan: each strategy applied in order, every
/// strategy seeing the asset stores as the previous one left them.
pub open spec fn entity_plan_effects(
    plan: Seq<EntityFieldStrategy>,
    entity_instance: EntityInstance,
    tilesets: Map<i32, Handle>,
    materials: Seq<ColorMaterial>,
    atlases: Seq<TextureAtlas>,
) -> BuildEffects
    decreases plan.len(),
{
    if plan.len() == 0 {
        BuildEffects { components: Seq::empty(), materials, atlases }
    } else {
        let head = entity_strategy_effects(plan[0], entity_instance, tilesets, materials, atlases);
        let rest = entity_plan_effects(
            plan.drop_first(),
            entity_instance,
            tilesets,
            head.materials,
            head.atlases,
        );
        BuildEffects {
            components: head.components + rest.components,
            materials: rest.materials,
            atlases: rest.atlases,
        }
    }
}

/// The components a single int-cell field strategy attaches.
pub open spec fn int_cell_strategy_components(
    strategy: IntCellFieldStrategy,
    int_grid_cell: IntGridCell,
) -> Seq<Component> {
    match strategy {
        IntCellFieldStrategy::Marker(tag) => seq![Component::Marker(tag)],
        IntCellFieldStrategy::FromIntGridCell => seq![Component::IntGridCell(int_grid_cell)],
    }
}

/// The components an int-cell plan attaches: a pure, total function of
/// the grid-cell value alone.
pub open spec fn int_cell_plan_components(
    plan: Seq<IntCellFieldStrategy>,
    int_grid_cell: IntGridCell,
) -> Seq<Component>
    decreases plan.len(),
{
    if plan.len() == 0 {
        Seq::empty()
    } else {
        int_cell_strategy_components(plan[0], int_grid_cell) + int_cell_plan_components(
            plan.drop_first(),
            int_grid_cell,
        )
    }
}

/// The effect of a one-strategy plan is the effect of its strategy.
pub proof fn lemma_entity_plan_singleton(
    strategy: EntityFieldStrategy,
    entity_instance: EntityInstance,
    tilesets: Map<i32, Handle>,
    materials: Seq<ColorMaterial>,
    atlases: Seq<TextureAtlas>,
)
    ensures
        ({
            let effects = entity_plan_effects(
                seq![strategy],
                entity_instance,
                tilesets,
                materials,
                atlases,
            );
            let head = entity_strategy_effects(
                strategy,
                entity_instance,
                tilesets,
                materials,
                atlases,
            );
            &&& effects.components == head.components
            &&& effects.materials == head.materials
            &&& effects.atlases == head.atlases
        }),
{
    let plan = seq![strategy];
    let head = entity_strategy_effects(strategy, entity_instance, tilesets, materials, atlases);
    assert(plan.drop_first() =~= Seq::<EntityFieldStrategy>::empty());
    assert(entity_plan_effects(
        plan.drop_first(),
        entity_instance,
        tilesets,
        head.materials,
        head.atlases,
    ).components =~= Seq::<Component>::empty());
    assert(head.components + Seq::<Component>::empty() =~= head.components);
}

/// The components of a one-strategy plan are those of its strategy.
pub proof fn lemma_int_cell_plan_singleton(strategy: IntCellFieldStrategy, int_grid_cell: IntGridCell)
    ensures
        int_cell_plan_components(seq![strategy], int_grid_cell) == int_cell_strategy_components(
            strategy,
            int_grid_cell,
        ),
{
    let plan = seq![strategy];
    assert(plan.drop_first() =~= Seq::<IntCellFieldStrategy>::empty());
    assert(int_cell_plan_components(plan.drop_first(), int_grid_cell)
        =~= Seq::<Component>::empty());
    assert(int_cell_strategy_components(strategy, int_grid_cell) + Seq::<Component>::empty()
        =~= int_cell_strategy_components(strategy, int_grid_cell));
}

/// The effect of a concatenated plan decomposes: the first plan runs on
/// the given stores, the second on the stores as the first left them,
/// and the components are those of the first followed by those of the
/// second.
pub proof fn lemma_entity_plan_concat(
    first_plan: Seq<EntityFieldStrategy>,
    second_plan: Seq<EntityFieldStrategy>,
    entity_instance: EntityInstance,
    tilesets: Map<i32, Handle>,
    materials: Seq<ColorMaterial>,
    atlases: Seq<TextureAtlas>,
)
    ensures
        ({
            let first = entity_plan_effects(first_plan, entity_instance, tilesets, materials, atlases);
            let second = entity_plan_effects(
                second_plan,
                entity_instance,
                tilesets,
                first.materials,
                first.atlases,
            );
            let whole = entity_plan_effects(
                first_plan + second_plan,
                entity_instance,
                tilesets,
                materials,
                atlases,
            );
            &&& whole.components == first.components + second.components
            &&& whole.materials == second.materials
            &&& whole.atlases == second.atlases
        }),
    decreases first_plan.len(),
{
    let first = entity_plan_effects(first_plan, entity_instance, tilesets, materials, atlases);
    let second = entity_plan_effects(
        second_plan,
        entity_instance,
        tilesets,
        first.materials,
        first.atlases,
    );
    if first_plan.len() == 0 {
        assert(first_plan + second_plan =~= second_plan);
        assert(Seq::<Component>::empty() + second.components =~= second.components);
    } else {
        let head = entity_strategy_effects(
            first_plan[0],
            entity_instance,
            tilesets,
            materials,
            atlases,
        );
        assert((first_plan + second_plan)[0] == first_plan[0]);
        assert((first_plan + second_plan).drop_first() =~= first_plan.drop_first() + second_plan);
        lemma_entity_plan_concat(
            first_plan.drop_first(),
            second_plan,
            entity_instance,
            tilesets,
            head.materials,
            head.atlases,
        );
        let rest = entity_plan_effects(
            first_plan.drop_first(),
            entity_instance,
            tilesets,
            head.materials,
            head.atlases,
        );
        assert(head.components + (rest.components + second.components) =~= (head.components
            + rest.components) + second.components);
    }
}

/// The components of a concatenated plan are the components of its parts,
/// in order.
pub proof fn lemma_int_cell_plan_concat(
    first_plan: Seq<IntCellFieldStrategy>,
    second_plan: Seq<IntCellFieldStrategy>,
    int_grid_cell: IntGridCell,
)
    ensures
        int_cell_plan_components(first_plan + second_plan, int_grid_cell)
            == int_cell_plan_components(first_plan, int_grid_cell) + int_cell_plan_components(
            second_plan,
            int_grid_cell,
        ),
    decreases first_plan.len(),
{
    let second = int_cell_plan_components(second_plan, int_grid_cell);
    if first_plan.len() == 0 {
        assert(first_plan + second_plan =~= second_plan);
        assert(Seq::<Component>::empty() + second =~= second);
    } else {
        let head = int_cell_strategy_components(first_plan[0], int_grid_cell);
        assert((first_plan + second_plan)[0] == first_plan[0]);
        assert((first_plan + second_plan).drop_first() =~= first_plan.drop_first() + second_plan);
        lemma_int_cell_plan_concat(first_plan.drop_first(), second_plan, int_grid_cell);
        let rest = int_cell_plan_components(first_plan.drop_first(), int_grid_cell);
        assert(head + (rest + second) =~= (head + rest) + second);
    }
}

/// A constructor for a bundle spawned from an entity record of a level
/// file. The bundle's construction is declared as a plan, and the
/// constructor is bound to produce exactly what its plan describes, so
/// that looking a factory up by identifier and applying it behaves as the
/// typed constructor would.
pub trait LdtkEntity: Bundle {
    /// The plan this bundle is built by.
    spec fn entity_plan_spec() -> Seq<EntityFieldStrategy>;

    /// The plan this bundle is built by, for registration.
    fn entity_plan() -> (r: Vec<EntityFieldStrategy>)
        ensures
            r@ == Self::entity_plan_spec(),
    ;

    /// Builds one bundle from an entity record and the supplied asset
    /// services. Pure construction: nothing is attached to any entity,
    /// and no effect is permitted beyond what the plan states of the
    /// asset stores.
    fn bundle_entity(
        entity_instance: &EntityInstance,
        tileset_map: &TilesetMap,
        asset_server: &AssetServer,
        materials: &mut Assets<ColorMaterial>,
        texture_atlases: &mut Assets<TextureAtlas>,
    ) -> (r: Self)
        ensures
            ({
                let effects = entity_plan_effects(
                    Self::entity_plan_spec(),
                    *entity_instance,
                    tileset_map@,
                    old(materials)@,
                    old(texture_atlases)@,
                );
                &&& r.components() == effects.components
                &&& final(materials)@ == effects.materials
                &&& final(texture_atlases)@ == effects.atlases
            }),
    ;
}

/// A constructor for a bundle spawned for one integer grid-cell value: a
/// pure, total function of the grid-cell value alone, bound to produce
/// exactly what its plan describes.
pub trait LdtkIntCell: Bundle {
    /// The plan this bundle is built by.
    spec fn int_cell_plan_spec() -> Seq<IntCellFieldStrategy>;

    /// The plan this bundle is built by, for registration.
    fn int_cell_plan() -> (r: Vec<IntCellFieldStrategy>)
        ensures
            r@ == Self::int_cell_plan_spec(),
    ;

    /// Builds one bundle from a grid-cell value.
    fn bundle_int_cell(int_grid_cell: IntGridCell) -> (r: Self)
        ensures
            r.components() == int_cell_plan_components(
                Self::int_cell_plan_spec(),
                int_grid_cell,
            ),
    ;
}

/// The uniform, non-generic calling convention of entity factories: apply
/// the factory to a record and attach what it builds through the sink.
pub trait PhantomLdtkEntityTrait {
    /// The plan this factory applies.
    spec fn plan(&self) -> Seq<EntityFieldStrategy>;

    /// Builds the factory's bundle from the record and attaches its
    /// components to the target entity, in order.
    fn evaluate(
        &self,
        entity_commands: &mut EntityCommands,
        entity_instance: &EntityInstance,
        tileset_map: &TilesetMap,
        asset_server: &AssetServer,
        materials: &mut Assets<ColorMaterial>,
        texture_atlases: &mut Assets<TextureAtlas>,
    )
        ensures
            ({
                let effects = entity_plan_effects(
                    self.plan(),
                    *entity_instance,
                    tileset_map@,
                    old(materials)@,
                    old(texture_atlases)@,
                );
                &&& final(entity_commands)@ == old(entity_commands)@ + effects.components
                &&& final(materials)@ == effects.materials
                &&& final(texture_atlases)@ == effects.atlases
            }),
    ;
}

/// The uniform, non-generic calling convention of int-cell factories.
pub trait PhantomLdtkIntCellTrait {
    /// The plan this factory applies.
    spec fn plan(&self) -> Seq<IntCellFieldStrategy>;

    /// Builds the factory's bundle from the grid-cell value and attaches
    /// its components to the target entity, in order.
    fn evaluate(&self, entity_commands: &mut EntityCommands, int_grid_cell: IntGridCell)
        ensures
            final(entity_commands)@ == old(entity_commands)@ + int_cell_plan_components(
                self.plan(),
                int_grid_cell,
            ),
    ;
}

/// The zero-size adapter that erases a concrete entity-bundle type: it
/// carries the bundle type only at the type level and exposes its
/// constructor behind [`PhantomLdtkEntityTrait`].
pub struct PhantomLdtkEntity<B: LdtkEntity> {
    ldtk_entity: PhantomData<B>,
}

impl<B: LdtkEntity> PhantomLdtkEntity<B> {
    pub fn new() -> (r: Self) {
        PhantomLdtkEntity { ldtk_entity: PhantomData }
    }
}

impl<B: LdtkEntity> PhantomLdtkEntityTrait for PhantomLdtkEntity<B> {
    open spec fn plan(&self) -> Seq<EntityFieldStrategy> {
        B::entity_plan_spec()
    }

    fn evaluate(
        &self,
        entity_commands: &mut EntityCommands,
        entity_instance: &EntityInstance,
        tileset_map: &TilesetMap,
        asset_server: &AssetServer,
        materials: &mut Assets<ColorMaterial>,
        texture_atlases: &mut Assets<TextureAtlas>,
    ) {
        entity_commands.insert_bundle(
            B::bundle_entity(entity_instance, tileset_map, asset_server, materials, texture_atlases),
        );
    }
}

/// The zero-size adapter that erases a concrete int-cell-bundle type.
pub struct PhantomLdtkIntCell<B: LdtkIntCell> {
    ldtk_int_cell: PhantomData<B>,
}

impl<B: LdtkIntCell> PhantomLdtkIntCell<B> {
    pub fn new() -> (r: Self) {
        PhantomLdtkIntCell { ldtk_int_cell: PhantomData }
    }
}

impl<B: LdtkIntCell> PhantomLdtkIntCellTrait for PhantomLdtkIntCell<B> {
    open spec fn plan(&self) -> Seq<IntCellFieldStrategy> {
        B::int_cell_plan_spec()
    }

    fn evaluate(&self, entity_commands: &mut EntityCommands, int_grid_cell: IntGridCell) {
        entity_commands.insert_bundle(B::bundle_int_cell(int_grid_cell));
    }
}

/// An entity factory reduced to its plan: the form the registries
/// store, interchangeable with the typed adapter it was made from.
pub struct ErasedEntityFactory {
    plan: Vec<EntityFieldStrategy>,
}

impl ErasedEntityFactory {
    /// The erased form of the factory for bundle type `B`.
    pub fn of_bundle<B: LdtkEntity>() -> (r: Self)
        ensures
            r.plan() == B::entity_plan_spec(),
    {
        ErasedEntityFactory { plan: B::entity_plan() }
    }
}

impl PhantomLdtkEntityTrait for ErasedEntityFactory {
    closed spec fn plan(&self) -> Seq<EntityFieldStrategy> {
        self.plan@
    }

    fn evaluate(
        &self,
        entity_commands: &mut EntityCommands,
        entity_instance: &EntityInstance,
        tileset_map: &TilesetMap,
        asset_server: &AssetServer,
        materials: &mut Assets<ColorMaterial>,
        texture_atlases: &mut Assets<TextureAtlas>,
    ) {
        apply_entity_plan(
            &self.plan,
            0,
            entity_commands,
            entity_instance,
            tileset_map,
            asset_server,
            materials,
            texture_atlases,
        );
        proof {
            assert(self.plan@.skip(0) =~= self.plan@);
        }
    }
}

/// An int-cell factory reduced to its plan.
pub struct ErasedIntCellFactory {
    plan: Vec<IntCellFieldStrategy>,
}

impl ErasedIntCellFactory {
    /// The erased form of the factory for bundle type `B`.
    pub fn of_bundle<B: LdtkIntCell>() -> (r: Self)
        ensures
            r.plan() == B::int_cell_plan_spec(),
    {
        ErasedIntCellFactory { plan: B::int_cell_plan() }
    }
}

impl PhantomLdtkIntCellTrait for ErasedIntCellFactory {
    closed spec fn plan(&self) -> Seq<IntCellFieldStrategy> {
        self.plan@
    }

    fn evaluate(&self, entity_commands: &mut EntityCommands, int_grid_cell: IntGridCell) {
        apply_int_cell_plan(&self.plan, 0, entity_commands, int_grid_cell);
        proof {
            assert(self.plan@.skip(0) =~= self.plan@);
        }
    }
}

/// Applies the strategies of `plan` from position `from` on, in order.
fn apply_entity_plan(
    plan: &Vec<EntityFieldStrategy>,
    from: usize,
    entity_commands: &mut EntityCommands,
    entity_instance: &EntityInstance,
    tileset_map: &TilesetMap,
    asset_server: &AssetServer,
    materials: &mut Assets<ColorMaterial>,
    texture_atlases: &mut Assets<TextureAtlas>,
)
    requires
        from <= plan@.len(),
    ensures
        ({
            let effects = entity_plan_effects(
                plan@.skip(from as int),
                *entity_instance,
                tileset_map@,
                old(materials)@,
                old(texture_atlases)@,
            );
            &&& final(entity_commands)@ == old(entity_commands)@ + effects.components
            &&& final(materials)@ == effects.materials
            &&& final(texture_atlases)@ == effects.atlases
        }),
    decreases plan@.len() - from,
{
    if from == plan.len() {
        proof {
            assert(plan@.skip(from as int) =~= Seq::<EntityFieldStrategy>::empty());
            assert(old(entity_commands)@ + Seq::<Component>::empty() =~= old(entity_commands)@);
        }
        return;
    }
    let ghost suffix = plan@.skip(from as int);
    let ghost head = entity_strategy_effects(
        suffix[0],
        *entity_instance,
        tileset_map@,
        old(materials)@,
        old(texture_atlases)@,
    );
    match plan[from] {
        EntityFieldStrategy::Marker(tag) => {
            entity_commands.insert(Component::Marker(tag));
        },
        EntityFieldStrategy::FromEntityInstance => {
            entity_commands.insert(Component::EntityInstance(entity_instance.clone()));
        },
        EntityFieldStrategy::SpriteFromEditorVisual => {
            match &entity_instance.tile {
                None => {
                    entity_commands.insert(Component::Sprite(Sprite { material: None }));
                },
                Some(tile) => {
                    match tileset_map.get(&tile.tileset_uid) {
                        None => {
                            entity_commands.insert(Component::Sprite(Sprite { material: None }));
                        },
                        Some(texture) => {
                            let material = materials.add(ColorMaterial::of_texture(*texture));
                            entity_commands.insert(
                                Component::Sprite(Sprite { material: Some(material) }),
                            );
                        },
                    }
                },
            }
        },
    }
    proof {
        assert(old(entity_commands)@ + head.components =~= entity_commands@);
        assert(suffix.drop_first() =~= plan@.skip(from as int + 1));
    }
    let ghost mid_commands = entity_commands@;
    let ghost mid_materials = materials@;
    let ghost mid_atlases = texture_atlases@;
    apply_entity_plan(
        plan,
        from + 1,
        entity_commands,
        entity_instance,
        tileset_map,
        asset_server,
        materials,
        texture_atlases,
    );
    proof {
        let rest = entity_plan_effects(
            plan@.skip(from as int + 1),
            *entity_instance,
            tileset_map@,
            mid_materials,
            mid_atlases,
        );
        assert(entity_commands@ =~= old(entity_commands)@ + (head.components + rest.components));
    }
}

/// Applies the strategies of `plan` from position `from` on, in order.
fn apply_int_cell_plan(
    plan: &Vec<IntCellFieldStrategy>,
    from: usize,
    entity_commands: &mut EntityCommands,
    int_grid_cell: IntGridCell,
)
    requires
        from <= plan@.len(),
    ensures
        final(entity_commands)@ == old(entity_commands)@ + int_cell_plan_components(
            plan@.skip(from as int),
            int_grid_cell,
        ),
    decreases plan@.len() - from,
{
    if from == plan.len() {
        proof {
            assert(plan@.skip(from as int) =~= Seq::<IntCellFieldStrategy>::empty());
            assert(old(entity_commands)@ + Seq::<Component>::empty() =~= old(entity_commands)@);
        }
        return;
    }
    let ghost suffix = plan@.skip(from as int);
    match plan[from] {
        IntCellFieldStrategy::Marker(tag) => {
            entity_commands.insert(Component::Marker(tag));
        },
        IntCellFieldStrategy::FromIntGridCell => {
            entity_commands.insert(Component::IntGridCell(int_grid_cell));
        },
    }
    proof {
        assert(old(entity_commands)@ + int_cell_strategy_components(suffix[0], int_grid_cell)
            =~= entity_commands@);
        assert(suffix.drop_first() =~= plan@.skip(from as int + 1));
    }
    let ghost mid_commands = entity_commands@;
    apply_int_cell_plan(plan, from + 1, entity_commands, int_grid_cell);
    proof {
        let rest = int_cell_plan_components(plan@.skip(from as int + 1), int_grid_cell);
        assert(entity_commands@ =~= old(entity_commands)@ + (int_cell_strategy_components(
            suffix[0],
            int_grid_cell,
        ) + rest));
    }
}

} // verus!
