//! The component model seen by the registration core: the closed set of
//! components the core itself attaches, the capability that turns a
//! concrete bundle into components, and the entity sink that records what
//! was attached to one target entity.

use vstd::prelude::*;

use crate::assets::Handle;
use crate::ldtk::{EntityInstance, GridCoords};

verus! {

/// A handle to one entity of the host's entity model.
#[derive(Clone, Copy, Debug, PartialEq, Eq, Structural)]
pub struct Entity {
    pub id: u64,
}

/// The raw fallback component for one cell of an integer grid layer:
/// the integer tag the external parser read for that cell.
#[derive(Clone, Copy, Debug, PartialEq, Eq, Structural)]
pub struct IntGridCell {
    pub value: i32,
}

/// The spatial placement of an entity, attached (or overwritten) by the
/// spawn-time consumer after every factory or fallback path.
#[derive(Clone, Copy, Debug, PartialEq, Eq, Structural)]
pub struct Transform {
    pub translation: GridCoords,
}

/// The propagated, world-space counterpart of [`Transform`].
#[derive(Clone, Copy, Debug, PartialEq, Eq, Structural)]
pub struct GlobalTransform {
    pub translation: GridCoords,
}

/// A drawable sprite. `material` is `None` for the default, empty visual
/// that fallback construction yields.
#[derive(Clone, Copy, Debug, PartialEq, Eq, Structural)]
pub struct Sprite {
    pub material: Option<Handle>,
}

/// One component as recorded by the entity sink.
#[derive(Clone, Debug, PartialEq)]
pub enum Component {
    /// The raw fallback for an entity record no factory matched.
    EntityInstance(EntityInstance),
    /// The raw fallback for an unmatched integer grid-cell value.
    IntGridCell(IntGridCell),
    /// A drawable sprite produced by visual construction.
    Sprite(Sprite),
    /// Spatial placement, attached after every spawn path.
    Transform(Transform),
    /// Propagated spatial placement, attached after every spawn path.
    GlobalTransform(GlobalTransform),
    /// The hierarchy parent, attached after every spawn path.
    Parent(Entity),
    /// A marker component identified by a numeric tag, for host components
    /// whose content plays no role in spawning.
    Marker(u64),
}

/// The capability of being attached to an entity as a set of components.
pub trait Bundle: Sized {
    /// The components this bundle consists of.
    spec fn components(&self) -> Seq<Component>;

    /// Turns the bundle into its components, in attachment order.
    fn into_components(self) -> (r: Vec<Component>)
        ensures
            r@ == self.components(),
    ;
}

/// The component set of the default visual factory: a single sprite,
/// drawable when a material could be made from the record's tileset.
#[derive(Clone, Copy, Debug, PartialEq, Eq, Structural)]
pub struct SpriteBundle {
    pub sprite: Sprite,
}

impl Default for SpriteBundle {
    /// The default, empty visual: a sprite with no material.
    fn default() -> (r: SpriteBundle)
        ensures
            r == (SpriteBundle { sprite: Sprite { material: None } }),
    {
        SpriteBundle { sprite: Sprite { material: None } }
    }
}

impl Bundle for SpriteBundle {
    open spec fn components(&self) -> Seq<Component> {
        seq![Component::Sprite(self.sprite)]
    }

    fn into_components(self) -> (r: Vec<Component>) {
        let mut r: Vec<Component> = Vec::new();
        r.push(Component::Sprite(self.sprite));
        r
    }
}

impl Bundle for EntityInstance {
    open spec fn components(&self) -> Seq<Component> {
        seq![Component::EntityInstance(*self)]
    }

    fn into_components(self) -> (r: Vec<Component>) {
        let mut r: Vec<Component> = Vec::new();
        r.push(Component::EntityInstance(self));
        r
    }
}

impl Bundle for IntGridCell {
    open spec fn components(&self) -> Seq<Component> {
        seq![Component::IntGridCell(*self)]
    }

    fn into_components(self) -> (r: Vec<Component>) {
        let mut r: Vec<Component> = Vec::new();
        r.push(Component::IntGridCell(self));
        r
    }
}

/// A bundle of a single marker component with the tag `TAG`: the
/// simplest registrable bundle, for host components whose content plays
/// no role in spawning.
pub struct MarkerBundle<const TAG: u64> {}

impl<const TAG: u64> Bundle for MarkerBundle<TAG> {
    open spec fn components(&self) -> Seq<Component> {
        seq![Component::Marker(TAG)]
    }

    fn into_components(self) -> (r: Vec<Component>) {
        let mut r: Vec<Component> = Vec::new();
        r.push(Component::Marker(TAG));
        r
    }
}

/// Two bundles composed into one: the components of `first` followed by
/// the components of `second`. Nesting composed bundles builds component
/// sets of any width.
pub struct ComposedBundle<A, B> {
    pub first: A,
    pub second: B,
}

impl<A: Bundle, B: Bundle> Bundle for ComposedBundle<A, B> {
    open spec fn components(&self) -> Seq<Component> {
        self.first.components() + self.second.components()
    }

    fn into_components(self) -> (r: Vec<Component>) {
        let mut r = self.first.into_components();
        let mut rest = self.second.into_components();
        r.append(&mut rest);
        r
    }
}

/// The sink through which component sets reach one target entity. It
/// records every attachment in order; what was attached later overwrites
/// what an earlier set put there, so the fixed spatial components the
/// spawn-time consumer appends last always win.
pub struct EntityCommands {
    attached: Vec<Component>,
}

impl View for EntityCommands {
    type V = Seq<Component>;

    closed spec fn view(&self) -> Seq<Component> {
        self.attached@
    }
}

impl EntityCommands {
    /// A sink for a freshly spawned entity with nothing attached.
    pub fn new() -> (r: EntityCommands)
        ensures
            r@ == Seq::<Component>::empty(),
    {
        EntityCommands { attached: Vec::new() }
    }

    /// Attaches every component of `bundle`, in the bundle's order.
    pub fn insert_bundle<B: Bundle>(&mut self, bundle: B)
        ensures
            final(self)@ == old(self)@ + bundle.components(),
    {
        let mut components = bundle.into_components();
        self.attached.append(&mut components);
    }

    /// Attaches a single component.
    pub fn insert(&mut self, component: Component)
        ensures
            final(self)@ == old(self)@.push(component),
    {
        self.attached.push(component);
    }

    /// The components attached so far, in attachment order.
    pub fn components(&self) -> (r: &Vec<Component>)
        ensures
            r@ == self@,
    {
        &self.attached
    }
}

} // verus!
