//! The colliders of the level's tiles, chosen by the name the level editor
//! gives the entity.

use vstd::prelude::*;

verus! {

/// Edge length of a small tile, in pixels.
pub const SMALL_TILE_SIZE: u32 = 16;

/// Edge length of a large tile, in pixels.
pub const LARGE_TILE_SIZE: u32 = 64;

/// The collider a level entity gets.
#[derive(Clone, Copy, Debug, PartialEq, Eq, Structural)]
pub enum TileCollider {
    /// A fixed square of small-tile size: ground, level borders, text zones.
    Small,
    /// A fixed square of large-tile size: doors and boxes.
    Large,
    /// The engine's default collider, for any other entity.
    Default,
}

impl TileCollider {
    /// The collider of the entity called `identifier`.
    pub open spec fn of(identifier: Seq<char>) -> TileCollider {
        if identifier == "Ground"@ || identifier == "LevelBorder"@ || identifier == "ZoneText"@ {
            TileCollider::Small
        } else if identifier == "Door"@ || identifier == "Box"@ {
            TileCollider::Large
        } else {
            TileCollider::Default
        }
    }

    /// Half the edge length of the square, which is what the physics engine
    /// asks for; `None` for the default collider.
    pub open spec fn half_extent(self) -> Option<u32> {
        match self {
            TileCollider::Small => Some((SMALL_TILE_SIZE / 2) as u32),
            TileCollider::Large => Some((LARGE_TILE_SIZE / 2) as u32),
            TileCollider::Default => None,
        }
    }

    /// Whether the body is fixed in place, which the squares are.
    pub open spec fn is_fixed(self) -> bool {
        !(self is Default)
    }

    /// Half the edge length of the square; `None` for the default collider.
    pub fn get_half_extent(&self) -> (half: Option<u32>)
        ensures
            half == self.half_extent(),
    {
        match self {
            TileCollider::Small => Some(SMALL_TILE_SIZE / 2),
            TileCollider::Large => Some(LARGE_TILE_SIZE / 2),
            TileCollider::Default => None,
        }
    }

    /// Whether the body is fixed in place.
    pub fn fixed(&self) -> (fixed: bool)
        ensures
            fixed == self.is_fixed(),
    {
        match self {
            TileCollider::Default => false,
            _ => true,
        }
    }
}

fn same_text(left: &str, right: &str) -> (same: bool)
    ensures
        same == (left@ == right@),
{
    left.to_owned() == right.to_owned()
}

/// Chooses the collider of a level entity by its name.
pub fn tile_collider(identifier: &str) -> (collider: TileCollider)
    ensures
        collider == TileCollider::of(identifier@),
{
    if same_text(identifier, "Ground") || same_text(identifier, "LevelBorder") || same_text(
        identifier,
        "ZoneText",
    ) {
        TileCollider::Small
    } else if same_text(identifier, "Door") || same_text(identifier, "Box") {
        TileCollider::Large
    } else {
        TileCollider::Default
    }
}

} // verus!
