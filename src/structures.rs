//! Items, the three structure variants and how each answers an item on its tile.
use vstd::prelude::*;
use crate::geometry::{center_pixel, tile_center, Position, Rotation, TILE_SIZE};

verus! {

/// Number of placeable structure kinds (and of tools).
pub const NUM_TOOLS: usize = 3;

/// The kind of ore an item carries.
#[derive(Clone, Copy, Debug, PartialEq, Eq, Structural)]
pub enum ItemType {
    IronOre,
    CoalOre,
}

/// An ore item lying on the board, tracked in pixel units.
#[derive(Clone, Copy, Debug, PartialEq, Eq, Structural)]
pub struct DropItem {
    pub id: u32,
    pub type_: ItemType,
    pub x: i32,
    pub y: i32,
}

impl DropItem {
    /// The item at the centre of tile `(c, r)`, taking the next serial number.
    pub fn new(serial_no: &mut u32, type_: ItemType, c: i32, r: i32) -> (ret: DropItem)
        requires
            *old(serial_no) < u32::MAX,
            i32::MIN <= tile_center(c as int) <= i32::MAX,
            i32::MIN <= tile_center(r as int) <= i32::MAX,
        ensures
            ret == (DropItem {
                id: *old(serial_no),
                type_,
                x: tile_center(c as int) as i32,
                y: tile_center(r as int) as i32,
            }),
            *final(serial_no) == *old(serial_no) + 1,
    {
        let ret = DropItem { id: *serial_no, type_, x: center_pixel(c), y: center_pixel(r) };
        *serial_no += 1;
        ret
    }
}

/// Tunable rates of the simulation. Energy is counted in whole units.
#[derive(Clone, Copy, Debug, PartialEq, Eq, Structural)]
pub struct Config {
    /// Ticks an inserter rests after a transfer.
    pub inserter_recharge: u64,
    /// Ticks a mine needs per item at full power.
    pub recipe_time: u64,
    /// Energy a mine spends per tick at full power.
    pub power_cost: u64,
    /// Energy a new mine starts with.
    pub mine_power: u64,
    /// Energy one coal item gives an empty mine.
    pub fuel_power: u64,
}

impl Config {
    pub open spec fn wf(self) -> bool {
        0 < self.power_cost && self.recipe_time * self.power_cost <= u64::MAX
    }

    pub open spec fn spec_standard() -> Config {
        Config { inserter_recharge: 20, recipe_time: 80, power_cost: 1, mine_power: 200, fuel_power: 1000 }
    }

    /// The standard rates: an inserter rests 20 ticks, a mine takes 80 ticks
    /// per item at one unit per tick, starts with 200 units and refuels to 1000.
    pub fn standard() -> (r: Config)
        ensures
            r == Config::spec_standard(),
            r.wf(),
    {
        Config { inserter_recharge: 20, recipe_time: 80, power_cost: 1, mine_power: 200, fuel_power: 1000 }
    }
}

/// What a mine extracts and at which rate.
#[derive(Clone, Copy, Debug, PartialEq, Eq, Structural)]
pub struct Recipe {
    pub item_type: ItemType,
    pub power_cost: u64,
    pub recipe_time: u64,
}

impl Recipe {
    pub open spec fn wf(self) -> bool {
        0 < self.power_cost && self.work() <= u64::MAX
    }

    /// Work of one item, in energy units.
    pub open spec fn work(self) -> int {
        self.recipe_time * self.power_cost
    }
}

/// A conveyor belt: moves every item on it one tile per tick.
#[derive(Clone, Copy, Debug)]
pub struct TransportBelt {
    pub position: Position,
    pub rotation: Rotation,
}

impl TransportBelt {
    pub fn new(x: i32, y: i32, rotation: Rotation) -> (r: TransportBelt)
        ensures
            r == (TransportBelt { position: Position { x, y }, rotation }),
    {
        TransportBelt { position: Position { x, y }, rotation }
    }
}

/// An inserter: takes an item from the tile behind it to the tile ahead.
#[derive(Clone, Copy, Debug)]
pub struct Inserter {
    pub position: Position,
    pub rotation: Rotation,
    /// Ticks left before the next transfer may start.
    pub cooldown: u64,
}

impl Inserter {
    pub fn new(x: i32, y: i32, rotation: Rotation) -> (r: Inserter)
        ensures
            r == (Inserter { position: Position { x, y }, rotation, cooldown: 0 }),
    {
        Inserter { position: Position { x, y }, rotation, cooldown: 0 }
    }
}

/// A mine: extracts the ore under it and puts it on the tile ahead.
#[derive(Clone, Copy, Debug)]
pub struct OreMine {
    pub position: Position,
    pub rotation: Rotation,
    /// Work left on the current item, in energy units: a tick at full power
    /// does `power_cost` of it.
    pub cooldown: u64,
    pub power: u64,
    pub max_power: u64,
    /// Chosen the first tick that ore is seen under the mine.
    pub recipe: Option<Recipe>,
}

impl OreMine {
    pub fn new(x: i32, y: i32, rotation: Rotation, power: u64) -> (r: OreMine)
        ensures
            r == (OreMine {
                position: Position { x, y },
                rotation,
                cooldown: 0,
                power,
                max_power: power,
                recipe: None,
            }),
    {
        OreMine { position: Position { x, y }, rotation, cooldown: 0, power, max_power: power, recipe: None }
    }
}

/// What a structure does with an item on its tile.
#[derive(Clone, Copy, Debug, PartialEq, Eq, Structural)]
pub enum ItemResponse {
    /// Move the item to this pixel position.
    Move(i32, i32),
    /// The structure took the item in.
    Consume,
}

/// A placed structure.
#[derive(Clone, Copy, Debug)]
pub enum Structure {
    TransportBelt(TransportBelt),
    Inserter(Inserter),
    OreMine(OreMine),
}

/// The structure that tool `tool_index` builds at `p`: a belt, an inserter,
/// and a mine for any other index.
pub open spec fn built_structure(tool_index: usize, p: Position, rotation: Rotation, cfg: Config) -> Structure {
    if tool_index == 0 {
        Structure::TransportBelt(TransportBelt { position: p, rotation })
    } else if tool_index == 1 {
        Structure::Inserter(Inserter { position: p, rotation, cooldown: 0 })
    } else {
        Structure::OreMine(OreMine {
            position: p,
            rotation,
            cooldown: 0,
            power: cfg.mine_power,
            max_power: cfg.mine_power,
            recipe: None,
        })
    }
}

/// Builds the structure of tool `tool_index` at `p`.
pub fn new_structure(tool_index: usize, p: Position, rotation: Rotation, cfg: &Config) -> (r: Structure)
    ensures
        r == built_structure(tool_index, p, rotation, *cfg),
{
    if tool_index == 0 {
        Structure::TransportBelt(TransportBelt::new(p.x, p.y, rotation))
    } else if tool_index == 1 {
        Structure::Inserter(Inserter::new(p.x, p.y, rotation))
    } else {
        Structure::OreMine(OreMine::new(p.x, p.y, rotation, cfg.mine_power))
    }
}

impl Structure {
    pub open spec fn spec_position(self) -> Position {
        match self {
            Structure::TransportBelt(s) => s.position,
            Structure::Inserter(s) => s.position,
            Structure::OreMine(s) => s.position,
        }
    }

    pub open spec fn spec_rotation(self) -> Rotation {
        match self {
            Structure::TransportBelt(s) => s.rotation,
            Structure::Inserter(s) => s.rotation,
            Structure::OreMine(s) => s.rotation,
        }
    }

    /// Index of this kind in the tool list and in the inventory.
    pub open spec fn spec_kind(self) -> int {
        match self {
            Structure::TransportBelt(_) => 0,
            Structure::Inserter(_) => 1,
            Structure::OreMine(_) => 2,
        }
    }

    pub open spec fn spec_movable(self) -> bool {
        self is TransportBelt
    }

    pub open spec fn wf(self) -> bool {
        match self {
            Structure::OreMine(m) => match m.recipe {
                Some(r) => r.wf(),
                None => true,
            },
            _ => true,
        }
    }

    /// The same structure facing `r`.
    pub open spec fn with_rotation(self, r: Rotation) -> Structure {
        match self {
            Structure::TransportBelt(s) => Structure::TransportBelt(TransportBelt { rotation: r, ..s }),
            Structure::Inserter(s) => Structure::Inserter(Inserter { rotation: r, ..s }),
            Structure::OreMine(s) => Structure::OreMine(OreMine { rotation: r, ..s }),
        }
    }

    /// A belt moves the item one tile in its direction; an empty mine burns a
    /// coal item and refuels; anything else leaves the item alone.
    pub open spec fn spec_item_response(self, item: DropItem, cfg: Config) -> (Structure, Result<ItemResponse, ()>) {
        match self {
            Structure::TransportBelt(b) => (
                self,
                Ok(ItemResponse::Move(
                    (item.x + TILE_SIZE * b.rotation.spec_delta().0) as i32,
                    (item.y + TILE_SIZE * b.rotation.spec_delta().1) as i32,
                )),
            ),
            Structure::Inserter(_) => (self, Err(())),
            Structure::OreMine(m) => if item.type_ == ItemType::CoalOre && m.power == 0 {
                (
                    Structure::OreMine(OreMine { power: cfg.fuel_power, max_power: cfg.fuel_power, ..m }),
                    Ok(ItemResponse::Consume),
                )
            } else {
                (self, Err(()))
            },
        }
    }

    /// Stable name of the kind, shared with the inventory.
    pub fn name(&self) -> (r: &'static str)
        ensures
            r@ == tool_name(self.spec_kind()),
    {
        match self {
            Structure::TransportBelt(_) => "TransportBelt",
            Structure::Inserter(_) => "Inserter",
            Structure::OreMine(_) => "OreMine",
        }
    }

    /// Index of this kind in the tool list and in the inventory.
    pub fn kind(&self) -> (r: usize)
        ensures
            r == self.spec_kind(),
            r < NUM_TOOLS,
    {
        match self {
            Structure::TransportBelt(_) => 0,
            Structure::Inserter(_) => 1,
            Structure::OreMine(_) => 2,
        }
    }

    pub fn position(&self) -> (r: Position)
        ensures
            r == self.spec_position(),
    {
        match self {
            Structure::TransportBelt(s) => s.position,
            Structure::Inserter(s) => s.position,
            Structure::OreMine(s) => s.position,
        }
    }

    pub fn rotation(&self) -> (r: Rotation)
        ensures
            r == self.spec_rotation(),
    {
        match self {
            Structure::TransportBelt(s) => s.rotation,
            Structure::Inserter(s) => s.rotation,
            Structure::OreMine(s) => s.rotation,
        }
    }

    /// Whether new items may be put on this structure's tile.
    pub fn movable(&self) -> (r: bool)
        ensures
            r == self.spec_movable(),
    {
        match self {
            Structure::TransportBelt(_) => true,
            _ => false,
        }
    }

    /// Turns the structure a quarter turn. Every kind here can turn.
    pub fn rotate(&mut self) -> (r: Result<(), ()>)
        ensures
            r is Ok,
            *final(self) == old(self).with_rotation(old(self).spec_rotation().spec_next()),
    {
        match self {
            Structure::TransportBelt(s) => s.rotation.next(),
            Structure::Inserter(s) => s.rotation.next(),
            Structure::OreMine(s) => s.rotation.next(),
        }
        Ok(())
    }

    /// Faces the structure in `rotation`. Every kind here can turn.
    pub fn set_rotation(&mut self, rotation: &Rotation) -> (r: Result<(), ()>)
        ensures
            r is Ok,
            *final(self) == old(self).with_rotation(*rotation),
    {
        match self {
            Structure::TransportBelt(s) => s.rotation = *rotation,
            Structure::Inserter(s) => s.rotation = *rotation,
            Structure::OreMine(s) => s.rotation = *rotation,
        }
        Ok(())
    }

    /// The structure's answer to `item` lying on its tile.
    pub fn item_response(&mut self, item: &DropItem, cfg: &Config) -> (r: Result<ItemResponse, ()>)
        requires
            i32::MIN + TILE_SIZE <= item.x <= i32::MAX - TILE_SIZE,
            i32::MIN + TILE_SIZE <= item.y <= i32::MAX - TILE_SIZE,
        ensures
            (*final(self), r) == old(self).spec_item_response(*item, *cfg),
    {
        match self {
            Structure::TransportBelt(b) => {
                let d = b.rotation.delta();
                Ok(ItemResponse::Move(item.x + TILE_SIZE * d.0, item.y + TILE_SIZE * d.1))
            },
            Structure::Inserter(_) => Err(()),
            Structure::OreMine(m) => {
                if item.type_ == ItemType::CoalOre && m.power == 0 {
                    m.max_power = cfg.fuel_power;
                    m.power = cfg.fuel_power;
                    Ok(ItemResponse::Consume)
                } else {
                    Err(())
                }
            },
        }
    }
}

/// Name of tool (and structure kind) `k`.
pub open spec fn tool_name(k: int) -> Seq<char> {
    if k == 0 {
        "TransportBelt"@
    } else if k == 1 {
        "Inserter"@
    } else {
        "OreMine"@
    }
}

} // verus!
