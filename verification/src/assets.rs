//! Models of the asset services that factories receive during bundle
//! construction: handles, material and atlas stores, and the per-load
//! tileset lookup.

use vstd::prelude::*;

verus! {

/// An identifier for an asset held by one of the stores.
///
/// A handle is plain data: it names an asset but carries none of its
/// contents. Handles returned by [`Assets::add`] index the owning store.
#[derive(Clone, Copy, Debug, PartialEq, Eq, Structural)]
pub struct Handle {
    pub id: u64,
}

/// A material built from a texture handle, as produced when a tileset
/// texture is turned into a drawable material.
#[derive(Clone, Copy, Debug, PartialEq, Eq, Structural)]
pub struct ColorMaterial {
    pub texture: Handle,
}

impl ColorMaterial {
    /// The material that draws the given texture.
    pub fn of_texture(texture: Handle) -> (r: ColorMaterial)
        ensures
            r == (ColorMaterial { texture }),
    {
        ColorMaterial { texture }
    }
}

/// A texture atlas sliced out of a single texture.
#[derive(Clone, Copy, Debug, PartialEq, Eq, Structural)]
pub struct TextureAtlas {
    pub texture: Handle,
}

/// A store of assets of one kind, owned by the host application and handed
/// to factories mutably for the duration of a single construction call.
///
/// Adding an asset appends it and returns a fresh handle whose `id` is the
/// position of the asset in the store.
pub struct Assets<T> {
    items: Vec<T>,
}

impl<T> View for Assets<T> {
    type V = Seq<T>;

    closed spec fn view(&self) -> Seq<T> {
        self.items@
    }
}

impl<T> Assets<T> {
    /// Creates an empty store.
    pub fn new() -> (r: Assets<T>)
        ensures
            r@ == Seq::<T>::empty(),
    {
        Assets { items: Vec::new() }
    }

    /// Adds an asset to the store and returns a fresh handle for it.
    pub fn add(&mut self, item: T) -> (h: Handle)
        ensures
            final(self)@ == old(self)@.push(item),
            h.id == old(self)@.len(),
    {
        let h = Handle { id: self.items.len() as u64 };
        self.items.push(item);
        h
    }

    /// The number of assets held.
    pub fn len(&self) -> (n: usize)
        ensures
            n == self@.len(),
    {
        self.items.len()
    }

    /// The asset a handle refers to, if the handle indexes this store.
    pub fn get(&self, h: Handle) -> (r: Option<&T>)
        ensures
            match r {
                Some(item) => h.id < self@.len() && *item == self@[h.id as int],
                None => self@.len() <= h.id,
            },
    {
        if h.id < self.items.len() as u64 {
            Some(&self.items[h.id as usize])
        } else {
            None
        }
    }
}

/// The asset server handed through to factories. Construction from level
/// data never reads it directly; it is part of the uniform calling
/// convention so custom factories can resolve assets of their own.
pub struct AssetServer {}

/// The per-load lookup from a tileset identifier to the handle of its
/// texture. Read-only from the registry core's perspective.
pub type TilesetMap = std::collections::HashMap<i32, Handle>;

} // verus!
