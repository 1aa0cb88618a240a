//! The world: tile grid, structures, items and inventory, with the commands
//! that change them between ticks.
use vstd::prelude::*;
use crate::geometry::{
    center_pixel, pixel_tile, tile_center, tile_of_pixel, Position, Rotation, MAX_SIDE, OBJ_SIZE, TILE_SIZE,
};
use crate::lookup::{first_match, lemma_first_match, lemma_first_match_at, lemma_first_match_none};
use crate::structures::{
    built_structure, new_structure, Config, DropItem, ItemType, OreMine, Structure, TransportBelt,
    NUM_TOOLS, tool_name,
};
use crate::terrain::{deposit, generate_board, single_ore, Cell};

verus! {

/// Bound on pixel coordinates of items: one tile past the largest grid, as
/// far as a belt may carry an item.
pub const PIXEL_LIMIT: i32 = 1073741856;

/// Why an item could not be put on the board.
#[derive(Clone, Copy, Debug, PartialEq, Eq, Structural)]
pub enum NewObjectErr {
    /// The tile holds a structure that takes no items.
    BlockedByStructure,
    /// Another item is too close.
    BlockedByItem,
    /// The tile is outside the grid.
    OutOfMap,
    /// Every item id has been handed out.
    IdsExhausted,
}

/// Why a rotation command failed.
#[derive(Clone, Copy, Debug, PartialEq, Eq, Structural)]
pub enum RotateErr {
    /// No tool is selected and no structure is under the cursor.
    NotFound,
    /// The structure under the cursor cannot turn.
    NotSupported,
}

/// What lies on one tile.
#[derive(Clone, Copy, Debug)]
pub enum TileInfo {
    /// A structure, with the ore of its tile.
    Structure(Structure, Cell),
    /// No structure; the ore of the tile.
    Empty(Cell),
}

/// A placeable tool: the structure it builds and its picture.
#[derive(Clone, Copy, Debug)]
pub struct ToolDef {
    pub item_name: &'static str,
    pub image: &'static str,
}

/// Whether an item at `it` is closer than an item's width to pixel `(x, y)`.
pub open spec fn near(it: DropItem, x: int, y: int) -> bool {
    -OBJ_SIZE < x - it.x < OBJ_SIZE && -OBJ_SIZE < y - it.y < OBJ_SIZE
}

/// Whether pixel `(x, y)` collides with an item of `items` whose id is not `ignore`.
pub open spec fn hits(items: Seq<DropItem>, x: int, y: int, ignore: Option<u32>) -> bool {
    exists|i: int| 0 <= i < items.len() && ignore != Some(items[i].id) && #[trigger] near(items[i], x, y)
}

/// No two items of `items` collide.
pub open spec fn items_separated(items: Seq<DropItem>) -> bool {
    forall|i: int, j: int|
        0 <= i < items.len() && 0 <= j < items.len() && i != j ==> !near(#[trigger] items[i], #[trigger] items[j].x as int, items[j].y as int)
}

pub open spec fn in_band(p: i32) -> bool {
    -TILE_SIZE < p < PIXEL_LIMIT
}

pub open spec fn at_position(p: Position) -> spec_fn(Structure) -> bool {
    |s: Structure| s.spec_position() == p
}

pub open spec fn on_tile(p: Position) -> spec_fn(DropItem) -> bool {
    |it: DropItem| pixel_tile(it.x as int) == p.x && pixel_tile(it.y as int) == p.y
}

pub open spec fn has_id(id: u32) -> spec_fn(DropItem) -> bool {
    |it: DropItem| it.id == id
}

/// The abstract state of a world.
pub struct WorldView {
    pub delta_time: u64,
    pub sim_time: u64,
    pub width: u32,
    pub height: u32,
    pub board: Seq<Cell>,
    pub structures: Seq<Structure>,
    pub items: Seq<DropItem>,
    pub serial_no: u32,
    pub selected_tool: Option<usize>,
    pub tool_rotation: Rotation,
    pub inventory: Seq<usize>,
    pub cursor: Option<Position>,
    pub config: Config,
}

impl WorldView {
    pub open spec fn in_grid(self, p: Position) -> bool {
        0 <= p.x < self.width && 0 <= p.y < self.height
    }

    pub open spec fn tile_index(self, p: Position) -> int {
        p.x + p.y * self.width
    }

    pub open spec fn tile(self, p: Position) -> Option<Cell> {
        if self.in_grid(p) {
            Some(self.board[self.tile_index(p)])
        } else {
            None
        }
    }

    /// Index of the structure on tile `p`.
    pub open spec fn structure_at(self, p: Position) -> Option<int> {
        first_match(self.structures, at_position(p))
    }

    /// Index of the first item on tile `p`.
    pub open spec fn item_at(self, p: Position) -> Option<int> {
        first_match(self.items, on_tile(p))
    }

    /// Index of the item with id `id`.
    pub open spec fn item_index(self, id: u32) -> Option<int> {
        first_match(self.items, has_id(id))
    }

    pub open spec fn inventory_total(self) -> int {
        self.inventory[0] + self.inventory[1] + self.inventory[2]
    }

    pub open spec fn structures_ok(self) -> bool {
        &&& forall|i: int| 0 <= i < self.structures.len() ==> self.in_grid(#[trigger] self.structures[i].spec_position())
        &&& forall|i: int| 0 <= i < self.structures.len() ==> (#[trigger] self.structures[i]).wf()
        &&& forall|i: int, j: int|
            0 <= i < self.structures.len() && 0 <= j < self.structures.len() && i != j
                ==> #[trigger] self.structures[i].spec_position() != #[trigger] self.structures[j].spec_position()
    }

    pub open spec fn items_ok(self) -> bool {
        &&& forall|i: int| 0 <= i < self.items.len() ==> in_band(#[trigger] self.items[i].x) && in_band(self.items[i].y)
        &&& forall|i: int| 0 <= i < self.items.len() ==> #[trigger] self.items[i].id < self.serial_no
        &&& forall|i: int, j: int|
            0 <= i < self.items.len() && 0 <= j < self.items.len() && i != j ==> #[trigger] self.items[i].id != #[trigger] self.items[j].id
        &&& items_separated(self.items)
    }

    /// The world's invariant.
    pub open spec fn wf(self) -> bool {
        &&& self.config.wf()
        &&& self.width <= MAX_SIDE
        &&& self.height <= MAX_SIDE
        &&& self.board.len() == self.width * self.height
        &&& self.inventory.len() == NUM_TOOLS
        &&& self.inventory_total() + self.structures.len() <= usize::MAX
        &&& self.structures_ok()
        &&& self.items_ok()
    }

    pub open spec fn with_items(self, items: Seq<DropItem>) -> WorldView {
        WorldView { items, ..self }
    }

    pub open spec fn with_structures(self, structures: Seq<Structure>) -> WorldView {
        WorldView { structures, ..self }
    }

    /// The world without the item of id `id`, if there is one.
    pub open spec fn spec_remove_item(self, id: u32) -> WorldView {
        match self.item_index(id) {
            Some(i) => self.with_items(self.items.remove(i)),
            None => self,
        }
    }

    /// Putting a new item at the centre of tile `(c, r)`. A refused item
    /// leaves the world as it was; an accepted one takes the next id.
    pub open spec fn spec_new_object(self, c: i32, r: i32, t: ItemType) -> (WorldView, Result<(), NewObjectErr>) {
        let p = Position { x: c, y: r };
        if self.serial_no == u32::MAX {
            (self, Err(NewObjectErr::IdsExhausted))
        } else {
            let w = WorldView { serial_no: (self.serial_no + 1) as u32, ..self };
            if !self.in_grid(p) {
                (self, Err(NewObjectErr::OutOfMap))
            } else if self.blocked_by_structure(p) {
                (self, Err(NewObjectErr::BlockedByStructure))
            } else if hits(self.items, tile_center(c as int), tile_center(r as int), None) {
                (self, Err(NewObjectErr::BlockedByItem))
            } else {
                (
                    w.with_items(
                        self.items.push(
                            DropItem {
                                id: self.serial_no,
                                type_: t,
                                x: tile_center(c as int) as i32,
                                y: tile_center(r as int) as i32,
                            },
                        ),
                    ),
                    Ok(()),
                )
            }
        }
    }

    pub open spec fn blocked_by_structure(self, p: Position) -> bool {
        match self.structure_at(p) {
            Some(i) => !self.structures[i].spec_movable(),
            None => false,
        }
    }

    /// Taking up the structure on `p` back into the inventory.
    pub open spec fn spec_harvest(self, p: Position) -> (WorldView, bool) {
        match self.structure_at(p) {
            Some(i) => {
                let k = self.structures[i].spec_kind();
                (
                    WorldView {
                        inventory: self.inventory.update(k, (self.inventory[k] + 1) as usize),
                        structures: self.structures.remove(i),
                        ..self
                    },
                    true,
                )
            },
            None => (self, false),
        }
    }

    /// Building with tool `tool` on `p`: needs one in the inventory and a tile
    /// in the grid; whatever stood there goes back to the inventory first.
    pub open spec fn spec_place(self, tool: usize, p: Position) -> (WorldView, bool) {
        if tool >= NUM_TOOLS || !self.in_grid(p) || self.inventory[tool as int] < 1 {
            (self, false)
        } else {
            let w = self.spec_harvest(p).0;
            (
                WorldView {
                    structures: w.structures.push(built_structure(tool, p, self.tool_rotation, self.config)),
                    inventory: w.inventory.update(tool as int, (w.inventory[tool as int] - 1) as usize),
                    ..w
                },
                true,
            )
        }
    }

    /// The rotation command: turns the pending tool if one is selected, else
    /// the structure under the cursor.
    pub open spec fn spec_rotate(self) -> (WorldView, Result<bool, RotateErr>) {
        if self.selected_tool is Some {
            (WorldView { tool_rotation: self.tool_rotation.spec_next(), ..self }, Ok(true))
        } else {
            match self.cursor {
                Some(c) => match self.structure_at(c) {
                    Some(i) => (self.spec_rotate_at(c), Ok(false)),
                    None => (self, Err(RotateErr::NotFound)),
                },
                None => (self, Err(RotateErr::NotFound)),
            }
        }
    }

    /// The world with the structure on `p`, if any, turned a quarter turn.
    pub open spec fn spec_rotate_at(self, p: Position) -> WorldView {
        match self.structure_at(p) {
            Some(i) => {
                let s = self.structures[i];
                self.with_structures(self.structures.update(i, s.with_rotation(s.spec_rotation().spec_next())))
            },
            None => self,
        }
    }

    /// Selecting tool `tool` again deselects it; a negative index deselects.
    pub open spec fn spec_select_tool(self, tool: i32) -> Option<usize> {
        if 0 <= tool && !(self.selected_tool == Some(tool as usize)) {
            Some(tool as usize)
        } else {
            None
        }
    }
}

/// Side of the standard world, in tiles.
pub const WORLD_SIDE: u32 = 64;

/// The structures a standard world starts with: three belts carrying left
/// along row 6 and a mine facing up below the last of them.
pub open spec fn starter_structures(mine_power: u64) -> Seq<Structure> {
    seq![
        Structure::TransportBelt(TransportBelt { position: Position { x: 10, y: 6 }, rotation: Rotation::Left }),
        Structure::TransportBelt(TransportBelt { position: Position { x: 11, y: 6 }, rotation: Rotation::Left }),
        Structure::TransportBelt(TransportBelt { position: Position { x: 12, y: 6 }, rotation: Rotation::Left }),
        Structure::OreMine(OreMine {
            position: Position { x: 12, y: 7 },
            rotation: Rotation::Top,
            cooldown: 0,
            power: mine_power,
            max_power: mine_power,
            recipe: None,
        }),
    ]
}

/// Picture of tool `k`.
pub open spec fn tool_image(k: int) -> Seq<char> {
    if k == 0 {
        "img/transport.png"@
    } else if k == 1 {
        "img/inserter-base.png"@
    } else {
        "img/mine.png"@
    }
}

/// The standard inventory: ten belts, five inserters, five mines.
pub open spec fn starting_inventory() -> Seq<usize> {
    seq![10usize, 5usize, 5usize]
}

/// The simulation state: a grid of ore tiles, the structures on it, the
/// items moving between them, and the player's inventory and tool.
pub struct FactorishState {
    pub(crate) delta_time: u64,
    pub(crate) sim_time: u64,
    pub(crate) width: u32,
    pub(crate) height: u32,
    pub(crate) board: Vec<Cell>,
    pub(crate) structures: Vec<Structure>,
    pub(crate) drop_items: Vec<DropItem>,
    pub(crate) serial_no: u32,
    pub(crate) selected_tool: Option<usize>,
    pub(crate) tool_rotation: Rotation,
    pub(crate) inventory: Vec<usize>,
    pub(crate) cursor: Option<Position>,
    pub(crate) config: Config,
}

impl View for FactorishState {
    type V = WorldView;

    open(crate) spec fn view(&self) -> WorldView {
        WorldView {
            delta_time: self.delta_time,
            sim_time: self.sim_time,
            width: self.width,
            height: self.height,
            board: self.board@,
            structures: self.structures@,
            items: self.drop_items@,
            serial_no: self.serial_no,
            selected_tool: self.selected_tool,
            tool_rotation: self.tool_rotation,
            inventory: self.inventory@,
            cursor: self.cursor,
            config: self.config,
        }
    }
}

proof fn lemma_tile_index(w: WorldView, p: Position)
    requires
        w.in_grid(p),
        w.board.len() == w.width * w.height,
    ensures
        0 <= w.tile_index(p) < w.board.len(),
        0 <= p.y * w.width <= w.tile_index(p),
{
    let x = p.x as int;
    let y = p.y as int;
    let wd = w.width as int;
    let h = w.height as int;
    assert(0 <= y * wd && 0 <= x + y * wd < wd * h) by (nonlinear_arith)
        requires
            0 <= x < wd,
            0 <= y < h,
    ;
}

impl FactorishState {
    /// A world of `width` by `height` tiles with the given ore, no structures
    /// or items, and the standard inventory.
    pub fn with_board(width: u32, height: u32, board: Vec<Cell>, config: Config) -> (r: FactorishState)
        requires
            width <= MAX_SIDE,
            height <= MAX_SIDE,
            board@.len() == width * height,
            config.wf(),
        ensures
            r.wf(),
            r@ == (WorldView {
                delta_time: 0,
                sim_time: 0,
                width,
                height,
                board: board@,
                structures: Seq::empty(),
                items: Seq::empty(),
                serial_no: 0,
                selected_tool: None,
                tool_rotation: Rotation::Left,
                inventory: starting_inventory(),
                cursor: None,
                config,
            }),
    {
        let inventory: Vec<usize> = vec![10, 5, 5];
        assert(inventory@ == starting_inventory());
        FactorishState {
            delta_time: 0,
            sim_time: 0,
            width,
            height,
            board,
            structures: Vec::new(),
            drop_items: Vec::new(),
            serial_no: 0,
            selected_tool: None,
            tool_rotation: Rotation::Left,
            inventory,
            cursor: None,
            config,
        }
    }

    /// The standard world: 64 by 64 tiles whose deposits come from the raw
    /// iron and coal fields (row by row), the starter structures, the
    /// standard inventory and rates.
    pub fn new(iron_field: &Vec<u32>, coal_field: &Vec<u32>) -> (r: FactorishState)
        requires
            iron_field@.len() == WORLD_SIDE * WORLD_SIDE,
            coal_field@.len() == WORLD_SIDE * WORLD_SIDE,
        ensures
            r.wf(),
            r@.width == WORLD_SIDE,
            r@.height == WORLD_SIDE,
            r@.board.len() == iron_field@.len(),
            forall|i: int| 0 <= i < r@.board.len() ==> #[trigger] r@.board[i] == deposit(iron_field@[i], coal_field@[i]),
            forall|i: int| 0 <= i < r@.board.len() ==> single_ore(#[trigger] r@.board[i]),
            r@.structures == starter_structures(r@.config.mine_power),
            r@.items.len() == 0,
            r@.serial_no == 0,
            r@.inventory == starting_inventory(),
            r@.selected_tool is None,
            r@.cursor is None,
            r@.tool_rotation == Rotation::Left,
            r@.config == Config::spec_standard(),
            r@.sim_time == 0,
    {
        let board = generate_board(iron_field, coal_field);
        let config = Config::standard();
        let mut state = FactorishState::with_board(WORLD_SIDE, WORLD_SIDE, board, config);
        let structures: Vec<Structure> = vec![
            Structure::TransportBelt(TransportBelt::new(10, 6, Rotation::Left)),
            Structure::TransportBelt(TransportBelt::new(11, 6, Rotation::Left)),
            Structure::TransportBelt(TransportBelt::new(12, 6, Rotation::Left)),
            Structure::OreMine(OreMine::new(12, 7, Rotation::Top, config.mine_power)),
        ];
        assert(structures@ == starter_structures(config.mine_power));
        state.structures = structures;
        state
    }

    pub open spec fn wf(&self) -> bool {
        self@.wf()
    }

    fn board_index(&self, tile: Position) -> (r: usize)
        requires
            self.wf(),
            self@.in_grid(tile),
        ensures
            r == self@.tile_index(tile),
            r < self@.board.len(),
    {
        proof {
            lemma_tile_index(self@, tile);
            assert(self.board@.len() == self.board.len());
        }
        tile.x as usize + tile.y as usize * self.width as usize
    }

    /// The ore on tile `tile`, if it is in the grid.
    pub fn tile_at(&self, tile: Position) -> (r: Option<Cell>)
        requires
            self.wf(),
        ensures
            r == self@.tile(tile),
    {
        if 0 <= tile.x && tile.x < self.width as i32 && 0 <= tile.y && tile.y < self.height as i32 {
            Some(self.board[self.board_index(tile)])
        } else {
            None
        }
    }

    /// Replaces the ore on tile `tile`; false, and nothing changed, outside the grid.
    pub fn set_tile_at(&mut self, tile: Position, cell: Cell) -> (r: bool)
        requires
            old(self).wf(),
        ensures
            final(self).wf(),
            r == old(self)@.in_grid(tile),
            final(self)@ == (if r {
                WorldView { board: old(self)@.board.update(old(self)@.tile_index(tile), cell), ..old(self)@ }
            } else {
                old(self)@
            }),
    {
        if 0 <= tile.x && tile.x < self.width as i32 && 0 <= tile.y && tile.y < self.height as i32 {
            let idx = self.board_index(tile);
            self.board.set(idx, cell);
            true
        } else {
            false
        }
    }

    /// Index of the structure on tile `tile`.
    pub fn find_structure_tile_idx(&self, tile: Position) -> (r: Option<usize>)
        ensures
            r matches Some(i) ==> self@.structure_at(tile) == Some(i as int),
            r is None ==> self@.structure_at(tile) is None,
            r matches Some(i) ==> i < self@.structures.len(),
    {
        let mut i: usize = 0;
        while i < self.structures.len()
            invariant
                i <= self.structures@.len(),
                forall|j: int| 0 <= j < i ==> !at_position(tile)(#[trigger] self.structures@[j]),
            decreases self.structures@.len() - i,
        {
            if self.structures[i].position() == tile {
                proof {
                    lemma_first_match_at(self.structures@, at_position(tile), i as int);
                }
                return Some(i);
            }
            i += 1;
        }
        proof {
            lemma_first_match_none(self.structures@, at_position(tile));
        }
        None
    }

    /// The structure on tile `tile`.
    pub fn find_structure_tile(&self, tile: Position) -> (r: Option<Structure>)
        ensures
            r == (match self@.structure_at(tile) {
                Some(i) => Some(self@.structures[i]),
                None => None,
            }),
    {
        match self.find_structure_tile_idx(tile) {
            Some(i) => Some(self.structures[i]),
            None => None,
        }
    }

    /// The first item on tile `pos`.
    pub fn find_item(&self, pos: Position) -> (r: Option<DropItem>)
        ensures
            r == (match self@.item_at(pos) {
                Some(i) => Some(self@.items[i]),
                None => None,
            }),
    {
        let mut i: usize = 0;
        while i < self.drop_items.len()
            invariant
                i <= self.drop_items@.len(),
                forall|j: int| 0 <= j < i ==> !on_tile(pos)(#[trigger] self.drop_items@[j]),
            decreases self.drop_items@.len() - i,
        {
            let item = self.drop_items[i];
            if tile_of_pixel(item.x) == pos.x && tile_of_pixel(item.y) == pos.y {
                proof {
                    lemma_first_match_at(self.drop_items@, on_tile(pos), i as int);
                }
                return Some(item);
            }
            i += 1;
        }
        proof {
            lemma_first_match_none(self.drop_items@, on_tile(pos));
        }
        None
    }

    /// Takes the item with id `id` off the board.
    pub fn remove_item(&mut self, id: u32) -> (r: Option<DropItem>)
        requires
            old(self).wf(),
        ensures
            final(self).wf(),
            final(self)@ == old(self)@.spec_remove_item(id),
            r == (match old(self)@.item_index(id) {
                Some(i) => Some(old(self)@.items[i]),
                None => None,
            }),
    {
        let mut i: usize = 0;
        while i < self.drop_items.len()
            invariant
                self.wf(),
                self@ == old(self)@,
                i <= self.drop_items@.len(),
                forall|j: int| 0 <= j < i ==> !has_id(id)(#[trigger] self.drop_items@[j]),
            decreases self.drop_items@.len() - i,
        {
            if self.drop_items[i].id == id {
                proof {
                    lemma_first_match_at(self.drop_items@, has_id(id), i as int);
                    lemma_remove_item_wf(self@, i as int);
                }
                let item = self.drop_items.remove(i);
                return Some(item);
            }
            i += 1;
        }
        proof {
            lemma_first_match_none(self.drop_items@, has_id(id));
        }
        None
    }

    /// Whether an item placed at pixel `(x, y)` would collide with an item
    /// other than the one with id `ignore`.
    pub fn hit_check(&self, x: i32, y: i32, ignore: Option<u32>) -> (r: bool)
        ensures
            r == hits(self@.items, x as int, y as int, ignore),
    {
        let mut i: usize = 0;
        while i < self.drop_items.len()
            invariant
                i <= self.drop_items@.len(),
                forall|j: int|
                    0 <= j < i ==> !(ignore != Some(self.drop_items@[j].id) && #[trigger] near(
                        self.drop_items@[j],
                        x as int,
                        y as int,
                    )),
            decreases self.drop_items@.len() - i,
        {
            let item = self.drop_items[i];
            let skip = match ignore {
                Some(ignore_id) => ignore_id == item.id,
                None => false,
            };
            if !skip {
                let dx: i64 = x as i64 - item.x as i64;
                let dy: i64 = y as i64 - item.y as i64;
                if -(OBJ_SIZE as i64) < dx && dx < OBJ_SIZE as i64 && -(OBJ_SIZE as i64) < dy && dy < OBJ_SIZE as i64 {
                    assert(near(self.drop_items@[i as int], x as int, y as int));
                    return true;
                }
            }
            i += 1;
        }
        false
    }

    /// Puts a new item at the centre of tile `(c, r)`.
    pub fn new_object(&mut self, c: i32, r: i32, type_: ItemType) -> (res: Result<(), NewObjectErr>)
        requires
            old(self).wf(),
        ensures
            final(self).wf(),
            (final(self)@, res) == old(self)@.spec_new_object(c, r, type_),
            items_separated(final(self)@.items),
    {
        if self.serial_no == u32::MAX {
            return Err(NewObjectErr::IdsExhausted);
        }
        if !(0 <= c && c < self.width as i32 && 0 <= r && r < self.height as i32) {
            return Err(NewObjectErr::OutOfMap);
        }
        let p = Position { x: c, y: r };
        match self.find_structure_tile(p) {
            Some(s) => {
                if !s.movable() {
                    return Err(NewObjectErr::BlockedByStructure);
                }
            },
            None => {},
        }
        let x = center_pixel(c);
        let y = center_pixel(r);
        if self.hit_check(x, y, None) {
            return Err(NewObjectErr::BlockedByItem);
        }
        let id = self.serial_no;
        self.serial_no = self.serial_no + 1;
        let item = DropItem { id, type_, x, y };
        proof {
            lemma_push_item_wf(self@, item);
        }
        self.drop_items.push(item);
        Ok(())
    }

    /// Takes the structure on `position` back into the inventory.
    pub fn harvest(&mut self, position: &Position) -> (r: bool)
        requires
            old(self).wf(),
        ensures
            final(self).wf(),
            (final(self)@, r) == old(self)@.spec_harvest(*position),
            final(self)@.structure_at(*position) is None,
    {
        proof {
            lemma_harvest(self@, *position);
        }
        match self.find_structure_tile_idx(*position) {
            Some(index) => {
                let k = self.structures[index].kind();
                let count = self.inventory[k];
                self.inventory.set(k, count + 1);
                self.structures.remove(index);
                true
            },
            None => false,
        }
    }

    /// Builds with tool `tool_index` on `cursor`, if one is held and the tile
    /// is in the grid; whatever stood there goes back to the inventory first.
    pub fn place(&mut self, tool_index: usize, cursor: Position) -> (r: bool)
        requires
            old(self).wf(),
        ensures
            final(self).wf(),
            (final(self)@, r) == old(self)@.spec_place(tool_index, cursor),
    {
        if tool_index >= NUM_TOOLS {
            return false;
        }
        if !(0 <= cursor.x && cursor.x < self.width as i32 && 0 <= cursor.y && cursor.y < self.height as i32) {
            return false;
        }
        if self.inventory[tool_index] < 1 {
            return false;
        }
        self.harvest(&cursor);
        let ghost w1 = self@;
        let s = new_structure(tool_index, cursor, self.tool_rotation, &self.config);
        self.structures.push(s);
        let count = self.inventory[tool_index];
        self.inventory.set(tool_index, count - 1);
        proof {
            lemma_place_wf(w1, s, cursor, tool_index as int);
        }
        true
    }

    /// A click on tile `cursor`: the main button builds with the selected
    /// tool, any other button harvests.
    pub fn mouse_down(&mut self, cursor: Position, button: i32)
        requires
            old(self).wf(),
        ensures
            final(self).wf(),
            final(self)@ == (if button == 0 {
                match old(self)@.selected_tool {
                    Some(t) => old(self)@.spec_place(t, cursor).0,
                    None => old(self)@,
                }
            } else {
                old(self)@.spec_harvest(cursor).0
            }),
    {
        if button == 0 {
            match self.selected_tool {
                Some(t) => {
                    self.place(t, cursor);
                },
                None => {},
            }
        } else {
            self.harvest(&cursor);
        }
    }

    /// The cursor moved to tile `cursor`.
    pub fn mouse_move(&mut self, cursor: Position)
        ensures
            final(self)@ == (WorldView { cursor: Some(cursor), ..old(self)@ }),
    {
        self.cursor = Some(cursor);
    }

    /// The cursor left the board.
    pub fn mouse_leave(&mut self)
        ensures
            final(self)@ == (WorldView { cursor: None, ..old(self)@ }),
    {
        self.cursor = None;
    }

    /// Turns the structure on `cursor` a quarter turn and returns its new
    /// direction.
    pub fn rotate_structure_at(&mut self, cursor: Position) -> (r: Result<Rotation, RotateErr>)
        requires
            old(self).wf(),
        ensures
            final(self).wf(),
            final(self)@ == old(self)@.spec_rotate_at(cursor),
            r == (match old(self)@.structure_at(cursor) {
                Some(i) => Ok(old(self)@.structures[i].spec_rotation().spec_next()),
                None => Err(RotateErr::NotFound),
            }),
    {
        match self.find_structure_tile_idx(cursor) {
            Some(idx) => {
                let mut s = self.structures[idx];
                match s.rotate() {
                    Ok(()) => {
                        proof {
                            lemma_update_structure_wf(self@, idx as int, s);
                        }
                        self.structures.set(idx, s);
                        Ok(s.rotation())
                    },
                    Err(()) => Err(RotateErr::NotSupported),
                }
            },
            None => Err(RotateErr::NotFound),
        }
    }

    /// Turns the pending tool if one is selected (`Ok(true)`), else the
    /// structure under the cursor (`Ok(false)`).
    pub fn rotate(&mut self) -> (r: Result<bool, RotateErr>)
        requires
            old(self).wf(),
        ensures
            final(self).wf(),
            (final(self)@, r) == old(self)@.spec_rotate(),
    {
        if self.selected_tool.is_some() {
            self.tool_rotation.next();
            return Ok(true);
        }
        match self.cursor {
            Some(cursor) => match self.rotate_structure_at(cursor) {
                Ok(_) => Ok(false),
                Err(e) => Err(e),
            },
            None => Err(RotateErr::NotFound),
        }
    }

    /// A key press: `R` (code 82) rotates; other keys do nothing.
    pub fn on_key_down(&mut self, key_code: i32) -> (r: Result<bool, RotateErr>)
        requires
            old(self).wf(),
        ensures
            final(self).wf(),
            key_code == 82 ==> (final(self)@, r) == old(self)@.spec_rotate(),
            key_code != 82 ==> final(self)@ == old(self)@ && r == Ok::<bool, RotateErr>(false),
    {
        if key_code == 82 {
            self.rotate()
        } else {
            Ok(false)
        }
    }

    /// Selects tool `tool`; selecting the selected tool again, or a negative
    /// index, deselects. Returns whether a tool is now selected.
    pub fn select_tool(&mut self, tool: i32) -> (r: bool)
        requires
            old(self).wf(),
        ensures
            final(self).wf(),
            final(self)@ == (WorldView { selected_tool: old(self)@.spec_select_tool(tool), ..old(self)@ }),
            r == old(self)@.spec_select_tool(tool) is Some,
    {
        let reselected = match self.selected_tool {
            Some(t) => 0 <= tool && t == tool as usize,
            None => false,
        };
        self.selected_tool = if 0 <= tool && !reselected {
            Some(tool as usize)
        } else {
            None
        };
        self.selected_tool.is_some()
    }

    /// Turns the pending tool and returns its new quarter-turn index.
    pub fn rotate_tool(&mut self) -> (r: i32)
        requires
            old(self).wf(),
        ensures
            final(self).wf(),
            final(self)@ == (WorldView { tool_rotation: old(self)@.tool_rotation.spec_next(), ..old(self)@ }),
            r == old(self)@.tool_rotation.spec_next().spec_angle_4(),
    {
        self.tool_rotation.next();
        self.tool_rotation.angle_4()
    }

    /// What lies on tile `tile`: a structure and the ore under it, or the
    /// ore alone; nothing outside the grid.
    pub fn describe(&self, tile: Position) -> (r: Option<TileInfo>)
        requires
            self.wf(),
        ensures
            r matches Some(TileInfo::Structure(s, c)) ==> self@.structure_at(tile) matches Some(i) && s == self@.structures[i] && Some(c) == self@.tile(tile),
            r matches Some(TileInfo::Empty(c)) ==> self@.structure_at(tile) is None && Some(c) == self@.tile(tile),
            r is None <==> !self@.in_grid(tile),
    {
        match self.tile_at(tile) {
            Some(cell) => match self.find_structure_tile(tile) {
                Some(s) => Some(TileInfo::Structure(s, cell)),
                None => Some(TileInfo::Empty(cell)),
            },
            None => None,
        }
    }

    /// The selected tool and how many of it the inventory holds.
    pub fn selected_tool(&self) -> (r: Option<(usize, usize)>)
        requires
            self.wf(),
        ensures
            r == (match self@.selected_tool {
                Some(t) => Some((t, if t < NUM_TOOLS { self@.inventory[t as int] } else { 0 })),
                None => None,
            }),
    {
        match self.selected_tool {
            Some(t) => Some((t, if t < NUM_TOOLS { self.inventory[t] } else { 0 })),
            None => None,
        }
    }

    /// How many of each tool the inventory holds, in tool order.
    pub fn tool_inventory(&self) -> (r: Vec<usize>)
        ensures
            r@ == self@.inventory,
    {
        let mut r: Vec<usize> = Vec::new();
        let mut i: usize = 0;
        while i < self.inventory.len()
            invariant
                i <= self.inventory@.len(),
                r@ == self.inventory@.subrange(0, i as int),
            decreases self.inventory@.len() - i,
        {
            r.push(self.inventory[i]);
            i += 1;
        }
        assert(self.inventory@.subrange(0, self.inventory@.len() as int) == self.inventory@);
        r
    }

    /// Each tool's name with the count the inventory holds, in tool order.
    pub fn inventory_counts(&self) -> (r: Vec<(&'static str, usize)>)
        requires
            self.wf(),
        ensures
            r@.len() == NUM_TOOLS,
            forall|k: int| 0 <= k < NUM_TOOLS ==> (#[trigger] r@[k]).0@ == tool_name(k) && r@[k].1 == self@.inventory[k],
    {
        vec![
            ("TransportBelt", self.inventory[0]),
            ("Inserter", self.inventory[1]),
            ("OreMine", self.inventory[2]),
        ]
    }

    /// The tools, in order: what each builds and its picture.
    pub fn tool_defs(&self) -> (r: Vec<ToolDef>)
        ensures
            r@.len() == NUM_TOOLS,
            forall|k: int| 0 <= k < NUM_TOOLS ==> (#[trigger] r@[k]).item_name@ == tool_name(k),
            forall|k: int| 0 <= k < NUM_TOOLS ==> (#[trigger] r@[k]).image@ == tool_image(k),
    {
        vec![
            ToolDef { item_name: "TransportBelt", image: "img/transport.png" },
            ToolDef { item_name: "Inserter", image: "img/inserter-base.png" },
            ToolDef { item_name: "OreMine", image: "img/mine.png" },
        ]
    }

    pub fn width(&self) -> (r: u32)
        ensures
            r == self@.width,
    {
        self.width
    }

    pub fn height(&self) -> (r: u32)
        ensures
            r == self@.height,
    {
        self.height
    }

    pub fn sim_time(&self) -> (r: u64)
        ensures
            r == self@.sim_time,
    {
        self.sim_time
    }

    pub fn delta_time(&self) -> (r: u64)
        ensures
            r == self@.delta_time,
    {
        self.delta_time
    }

    /// The id the next item will get.
    pub fn serial_no(&self) -> (r: u32)
        ensures
            r == self@.serial_no,
    {
        self.serial_no
    }

    /// The direction the next structure will face.
    pub fn tool_rotation(&self) -> (r: Rotation)
        ensures
            r == self@.tool_rotation,
    {
        self.tool_rotation
    }

    pub fn cursor(&self) -> (r: Option<Position>)
        ensures
            r == self@.cursor,
    {
        self.cursor
    }

    pub fn config(&self) -> (r: Config)
        ensures
            r == self@.config,
    {
        self.config
    }

    pub fn structure_count(&self) -> (r: usize)
        ensures
            r == self@.structures.len(),
    {
        self.structures.len()
    }

    /// Structure `i`, in order of placement.
    pub fn structure(&self, i: usize) -> (r: Structure)
        requires
            i < self@.structures.len(),
        ensures
            r == self@.structures[i as int],
    {
        self.structures[i]
    }

    pub fn item_count(&self) -> (r: usize)
        ensures
            r == self@.items.len(),
    {
        self.drop_items.len()
    }

    /// Item `i`, in order of creation.
    pub fn item(&self, i: usize) -> (r: DropItem)
        requires
            i < self@.items.len(),
        ensures
            r == self@.items[i as int],
    {
        self.drop_items[i]
    }

    /// How many of tool `k` the inventory holds.
    pub fn inventory_count(&self, k: usize) -> (r: usize)
        requires
            self.wf(),
            k < NUM_TOOLS,
        ensures
            r == self@.inventory[k as int],
    {
        self.inventory[k]
    }
}

/// Looking up and harvesting the structure on `p`.
proof fn lemma_harvest(w: WorldView, p: Position)
    requires
        w.wf(),
    ensures
        w.spec_harvest(p).0.wf(),
        w.spec_harvest(p).0.structure_at(p) is None,
        w.structure_at(p) matches Some(i) ==> 0 <= i < w.structures.len(),
{
    lemma_first_match(w.structures, at_position(p));
    match w.structure_at(p) {
        Some(i) => {
            let s = w.structures.remove(i);
            let k = w.structures[i].spec_kind();
            assert forall|a: int| 0 <= a < s.len() implies #[trigger] s[a] == w.structures[if a < i { a } else { a + 1 }] by {}
            assert forall|a: int, b: int| 0 <= a < s.len() && 0 <= b < s.len() && a != b
                implies #[trigger] s[a].spec_position() != #[trigger] s[b].spec_position() by {
                let a1 = if a < i { a } else { a + 1 };
                let b1 = if b < i { b } else { b + 1 };
                assert(w.structures[a1].spec_position() != w.structures[b1].spec_position());
            }
            assert forall|j: int| 0 <= j < s.len() implies !at_position(p)(#[trigger] s[j]) by {
                let j1 = if j < i { j } else { j + 1 };
                assert(w.structures[j1].spec_position() != w.structures[i].spec_position());
            }
            lemma_first_match_none(s, at_position(p));
            let v = w.spec_harvest(p).0;
            assert(v.inventory_total() == w.inventory_total() + 1);
        },
        None => {},
    }
}

/// Adding structure `s` on the free tile `p` while giving up one of tool `k`.
proof fn lemma_place_wf(w: WorldView, s: Structure, p: Position, k: int)
    requires
        w.wf(),
        w.structure_at(p) is None,
        w.in_grid(p),
        s.spec_position() == p,
        s.wf(),
        0 <= k < NUM_TOOLS,
        w.inventory[k] >= 1,
    ensures
        (WorldView {
            structures: w.structures.push(s),
            inventory: w.inventory.update(k, (w.inventory[k] - 1) as usize),
            ..w
        }).wf(),
{
    lemma_first_match(w.structures, at_position(p));
    let v = WorldView {
        structures: w.structures.push(s),
        inventory: w.inventory.update(k, (w.inventory[k] - 1) as usize),
        ..w
    };
    let n = w.structures.len() as int;
    assert forall|a: int, b: int| 0 <= a < v.structures.len() && 0 <= b < v.structures.len() && a != b
        implies #[trigger] v.structures[a].spec_position() != #[trigger] v.structures[b].spec_position() by {
        if a < n && b < n {
            assert(w.structures[a].spec_position() != w.structures[b].spec_position());
        } else if a < n {
            assert(!at_position(p)(w.structures[a]));
        } else if b < n {
            assert(!at_position(p)(w.structures[b]));
        }
    }
    assert(v.inventory_total() == w.inventory_total() - 1);
}

/// Replacing structure `i` by one on the same tile keeps the invariant.
pub(crate) proof fn lemma_update_structure_wf(w: WorldView, i: int, s: Structure)
    requires
        w.wf(),
        0 <= i < w.structures.len(),
        s.spec_position() == w.structures[i].spec_position(),
        s.wf(),
    ensures
        w.with_structures(w.structures.update(i, s)).wf(),
{
    let v = w.with_structures(w.structures.update(i, s));
    assert forall|a: int, b: int| 0 <= a < v.structures.len() && 0 <= b < v.structures.len() && a != b
        implies #[trigger] v.structures[a].spec_position() != #[trigger] v.structures[b].spec_position() by {
        assert(w.structures[a].spec_position() != w.structures[b].spec_position());
    }
}

/// Removing an item keeps the invariant.
proof fn lemma_remove_item_wf(w: WorldView, i: int)
    requires
        w.wf(),
        0 <= i < w.items.len(),
    ensures
        w.with_items(w.items.remove(i)).wf(),
{
    let s = w.items.remove(i);
    assert forall|a: int| 0 <= a < s.len() implies #[trigger] s[a] == w.items[if a < i { a } else { a + 1 }] by {}
    assert forall|a: int, b: int| 0 <= a < s.len() && 0 <= b < s.len() && a != b implies #[trigger] s[a].id != #[trigger] s[b].id by {
        let a1 = if a < i { a } else { a + 1 };
        let b1 = if b < i { b } else { b + 1 };
        assert(w.items[a1].id != w.items[b1].id);
    }
    assert forall|a: int, b: int| 0 <= a < s.len() && 0 <= b < s.len() && a != b implies !near(#[trigger] s[a], #[trigger] s[b].x as int, s[b].y as int) by {
        let a1 = if a < i { a } else { a + 1 };
        let b1 = if b < i { b } else { b + 1 };
        assert(!near(w.items[a1], w.items[b1].x as int, w.items[b1].y as int));
    }
}

/// Adding a fresh, non-colliding, in-grid item keeps the invariant.
proof fn lemma_push_item_wf(w: WorldView, item: DropItem)
    requires
        w.wf(),
        item.id < w.serial_no,
        forall|j: int| 0 <= j < w.items.len() ==> #[trigger] w.items[j].id < item.id,
        !hits(w.items, item.x as int, item.y as int, None),
        in_band(item.x),
        in_band(item.y),
    ensures
        w.with_items(w.items.push(item)).wf(),
{
    let s = w.items.push(item);
    let n = w.items.len() as int;
    assert forall|a: int| 0 <= a < n implies !near(#[trigger] w.items[a], item.x as int, item.y as int) by {
        if near(w.items[a], item.x as int, item.y as int) {
            assert(hits(w.items, item.x as int, item.y as int, None));
        }
    }
    assert forall|a: int, b: int| 0 <= a < s.len() && 0 <= b < s.len() && a != b implies !near(#[trigger] s[a], #[trigger] s[b].x as int, s[b].y as int) by {
        if a < n && b < n {
            assert(!near(w.items[a], w.items[b].x as int, w.items[b].y as int));
        } else if a < n {
            assert(!near(w.items[a], item.x as int, item.y as int));
        } else if b < n {
            assert(!near(w.items[b], item.x as int, item.y as int));
        }
    }
    assert forall|a: int, b: int| 0 <= a < s.len() && 0 <= b < s.len() && a != b implies #[trigger] s[a].id != #[trigger] s[b].id by {
        if a < n && b < n {
            assert(w.items[a].id != w.items[b].id);
        }
    }
}

} // verus!
