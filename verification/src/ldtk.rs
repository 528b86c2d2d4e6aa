//! The slice of the level-file data model that the registration core
//! consumes: entity records as the external parser hands them over, and
//! the coordinate pairs they carry.

use vstd::prelude::*;

verus! {

/// A pair of integer coordinates, used both for pixel positions of entity
/// records and for cell positions in integer grid layers.
#[derive(Clone, Copy, Debug, PartialEq, Eq, Structural)]
pub struct GridCoords {
    pub x: i32,
    pub y: i32,
}

/// The optional tile reference of an entity record: the tileset it draws
/// from and the pixel position of its tile inside that tileset's texture.
#[derive(Clone, Copy, Debug, PartialEq, Eq, Structural)]
pub struct TileInstance {
    pub tileset_uid: i32,
    pub src_x: i32,
    pub src_y: i32,
}

/// One placeable object from a level file, as produced by the external
/// parser: an identifier, a pixel position, and an optional tile
/// reference. Immutable once constructed.
#[derive(Debug, PartialEq)]
pub struct EntityInstance {
    pub identifier: String,
    pub px: GridCoords,
    pub tile: Option<TileInstance>,
}

impl Clone for EntityInstance {
    fn clone(&self) -> (r: Self)
        ensures
            r == *self,
    {
        EntityInstance { identifier: self.identifier.clone(), px: self.px, tile: self.tile }
    }
}

} // verus!
