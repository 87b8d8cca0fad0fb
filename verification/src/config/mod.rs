//! From the definitions a game is written in to the world the engine
//! plays: characters, maps and the cross references between them.

use vstd::prelude::*;

pub mod assemble;
pub mod characters;
pub mod game;
pub mod integrity;
pub mod maps;
pub mod objects;
pub mod yaml;

verus! {

/// Why a set of definitions does not make a world.
#[derive(Clone, Copy, Debug, PartialEq, Eq, Structural)]
pub enum ConfigError {
    /// An inventory with a negative width or height, or one too large to
    /// address.
    InventorySize,
    /// An attack modifier that gives no sign.
    EmptyModifier,
    /// A map with a negative width or height, or one too large to address.
    MapSize,
    /// A character or object placed outside its map.
    PositionOutsideMap,
    /// No map has the id of the starting map.
    UnknownStartingMap,
    /// A character, or an answer of a dialog, names a dialog that does not
    /// exist.
    UnknownDialog,
    /// A door without exactly one other side on another map.
    UnpairedDoor,
    /// A definition file without a document in it.
    NoDocument,
    /// A node that should be a mapping and is not.
    NotAMapping,
    /// A node that should be a list and is not.
    NotAList,
    /// A key of a mapping that is not a text.
    KeyNotText,
    /// A value that should be a text and is not.
    NotText,
    /// A value that should be `true` or `false` and is neither.
    NotABoolean,
    /// A value that should be a whole number and is not.
    NotAnInteger,
    /// An icon without a character.
    EmptyIcon,
}

} // verus!
