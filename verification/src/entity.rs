//! The things that stand on the map: monsters, items and the player.

use vstd::prelude::*;
use crate::grid::{Color, Point};

verus! {

/// Glyph of a goblin.
pub const GOBLIN: char = 'g';

/// Glyph of an item left on the floor.
pub const ITEM: char = '%';

/// Glyph of the player.
pub const PLAYER: char = '@';

/// Something with a position and hit points. The player is an entity like
/// any other; the game remembers which one by its index.
#[derive(Clone, Copy, Debug, PartialEq, Eq, Structural)]
pub struct Entity {
    pub pos: Point,
    pub glyph: char,
    pub color: Color,
    pub hp: i32,
    pub max_hp: i32,
}

/// A goblin with one hit point, standing on the given cell.
pub open spec fn goblin_at(x: i32, y: i32) -> Entity {
    Entity { pos: Point { x, y }, glyph: GOBLIN, color: Color::Red, hp: 1, max_hp: 1 }
}

/// An item without hit points, lying on the given cell.
pub open spec fn item_at(x: i32, y: i32) -> Entity {
    Entity { pos: Point { x, y }, glyph: ITEM, color: Color::Purple, hp: 0, max_hp: 0 }
}

/// The inhabitants every dungeon starts with, in drawing order: two goblins
/// on the same cell, a third goblin, and two items.
pub open spec fn initial_entities() -> Seq<Entity> {
    seq![goblin_at(9, 6), goblin_at(9, 6), goblin_at(2, 4), item_at(7, 5), item_at(4, 8)]
}

/// The player as the game starts: on cell `(5, 3)`, with three of five hit
/// points.
pub open spec fn initial_player() -> Entity {
    Entity { pos: Point { x: 5, y: 3 }, glyph: PLAYER, color: Color::Blue, hp: 3, max_hp: 5 }
}

/// Populates the dungeon: always the same five entities in the same order.
pub fn generate_entities() -> (entities: Vec<Entity>)
    ensures
        entities@ == initial_entities(),
{
    let entities = vec![
        Entity { pos: Point { x: 9, y: 6 }, glyph: GOBLIN, color: Color::Red, hp: 1, max_hp: 1 },
        Entity { pos: Point { x: 9, y: 6 }, glyph: GOBLIN, color: Color::Red, hp: 1, max_hp: 1 },
        Entity { pos: Point { x: 2, y: 4 }, glyph: GOBLIN, color: Color::Red, hp: 1, max_hp: 1 },
        Entity { pos: Point { x: 7, y: 5 }, glyph: ITEM, color: Color::Purple, hp: 0, max_hp: 0 },
        Entity { pos: Point { x: 4, y: 8 }, glyph: ITEM, color: Color::Purple, hp: 0, max_hp: 0 },
    ];
    assert(entities@ =~= initial_entities());
    entities
}

} // verus!
