//! Ore deposits: how raw iron and coal amounts become tile contents.
use vstd::prelude::*;

verus! {

/// The ore left on one tile.
#[derive(Clone, Copy, Debug, PartialEq, Eq, Structural)]
pub struct Cell {
    pub iron_ore: u32,
    pub coal_ore: u32,
}

/// The deposit a tile starts with, given the raw iron and coal amounts
/// there: the larger coal amount wins, else iron if any, else nothing.
pub open spec fn deposit(iron: u32, coal: u32) -> Cell {
    if iron < coal {
        Cell { iron_ore: 0, coal_ore: coal }
    } else if 0 < iron {
        Cell { iron_ore: iron, coal_ore: 0 }
    } else {
        Cell { iron_ore: 0, coal_ore: 0 }
    }
}

/// A tile holds at most one kind of ore.
pub open spec fn single_ore(c: Cell) -> bool {
    (c.iron_ore > 0 ==> c.coal_ore == 0) && (c.coal_ore > 0 ==> c.iron_ore == 0)
}

/// The deposit of one tile.
pub fn generate_cell(iron: u32, coal: u32) -> (r: Cell)
    ensures
        r == deposit(iron, coal),
        single_ore(r),
{
    if iron < coal {
        Cell { iron_ore: 0, coal_ore: coal }
    } else if 0 < iron {
        Cell { iron_ore: iron, coal_ore: 0 }
    } else {
        Cell { iron_ore: 0, coal_ore: 0 }
    }
}

/// The board from the raw iron and coal fields, tile by tile.
pub fn generate_board(iron_field: &Vec<u32>, coal_field: &Vec<u32>) -> (r: Vec<Cell>)
    requires
        iron_field@.len() == coal_field@.len(),
    ensures
        r@.len() == iron_field@.len(),
        forall|i: int| 0 <= i < r@.len() ==> #[trigger] r@[i] == deposit(iron_field@[i], coal_field@[i]),
        forall|i: int| 0 <= i < r@.len() ==> single_ore(#[trigger] r@[i]),
{
    let mut board: Vec<Cell> = Vec::new();
    let mut i: usize = 0;
    while i < iron_field.len()
        invariant
            iron_field@.len() == coal_field@.len(),
            i <= iron_field@.len(),
            board@.len() == i,
            forall|k: int| 0 <= k < i ==> #[trigger] board@[k] == deposit(iron_field@[k], coal_field@[k]),
            forall|k: int| 0 <= k < i ==> single_ore(#[trigger] board@[k]),
        decreases iron_field@.len() - i,
    {
        board.push(generate_cell(iron_field[i], coal_field[i]));
        i += 1;
    }
    board
}

} // verus!
