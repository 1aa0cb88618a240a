//! One tick of the simulation: every structure acts, then every item on a
//! structure is answered, then consumed items leave the board.
use vstd::prelude::*;
use crate::geometry::{pixel_tile, tile_center, tile_of_pixel, Position, TILE_SIZE};
use crate::lookup::lemma_first_match;
use crate::structures::{DropItem, Inserter, ItemResponse, ItemType, OreMine, Recipe, Structure};
use crate::terrain::Cell;
use crate::world::{at_position, hits, in_band, items_separated, near, FactorishState, WorldView, lemma_update_structure_wf};

verus! {

/// Ore of kind `t` on `c`.
pub open spec fn ore_of(c: Cell, t: ItemType) -> u32 {
    match t {
        ItemType::IronOre => c.iron_ore,
        ItemType::CoalOre => c.coal_ore,
    }
}

/// `c` with one unit of ore `t` taken out.
pub open spec fn extracted(c: Cell, t: ItemType) -> Cell {
    match t {
        ItemType::IronOre => Cell { iron_ore: (c.iron_ore - 1) as u32, ..c },
        ItemType::CoalOre => Cell { coal_ore: (c.coal_ore - 1) as u32, ..c },
    }
}

pub open spec fn min_u64(a: u64, b: u64) -> u64 {
    if a < b {
        a
    } else {
        b
    }
}

impl WorldView {
    /// Offering an item of kind `t` to the structure `si` on tile `p`, as an
    /// inserter does when it cannot drop the item there. Uses up an id.
    pub open spec fn spec_offer(self, si: int, t: ItemType, p: Position) -> (WorldView, bool) {
        if self.serial_no == u32::MAX {
            (self, false)
        } else {
            let probe = DropItem {
                id: self.serial_no,
                type_: t,
                x: tile_center(p.x as int) as i32,
                y: tile_center(p.y as int) as i32,
            };
            let (s, resp) = self.structures[si].spec_item_response(probe, self.config);
            (
                WorldView {
                    serial_no: (self.serial_no + 1) as u32,
                    structures: self.structures.update(si, s),
                    ..self
                },
                resp is Ok,
            )
        }
    }
}

impl Inserter {
    /// An inserter's attempt to move the first item on the tile behind it to
    /// the tile ahead: dropped there if the tile takes it, else handed to the
    /// structure there. On success the item leaves its tile.
    pub open spec fn spec_transfer(self, w: WorldView) -> (WorldView, bool) {
        let input = self.position.offset(self.rotation.spec_delta_inv());
        let output = self.position.offset(self.rotation.spec_delta());
        match w.item_at(input) {
            None => (w, false),
            Some(k) => {
                let item = w.items[k];
                let (w1, res) = w.spec_new_object(output.x, output.y, item.type_);
                if res is Ok {
                    (w1.spec_remove_item(item.id), true)
                } else {
                    match w1.structure_at(output) {
                        None => (w1, false),
                        Some(si) => {
                            let (w2, taken) = w1.spec_offer(si, item.type_, output);
                            if taken {
                                (w2.spec_remove_item(item.id), true)
                            } else {
                                (w2, false)
                            }
                        },
                    }
                }
            },
        }
    }

    /// One tick of an inserter: at cooldown 1 or less it attempts a transfer
    /// and, if one was made, rests for the recharge time; otherwise the
    /// cooldown counts down by one and nothing else happens.
    pub open spec fn spec_frame(self, w: WorldView) -> (Inserter, WorldView) {
        if self.cooldown > 1 {
            (Inserter { cooldown: (self.cooldown - 1) as u64, ..self }, w)
        } else {
            let (v, moved) = self.spec_transfer(w);
            (Inserter { cooldown: if moved { w.config.inserter_recharge } else { 0 }, ..self }, v)
        }
    }

    pub fn frame_proc(&mut self, state: &mut FactorishState)
        requires
            old(state).wf(),
            old(state)@.in_grid(old(self).position),
        ensures
            final(state).wf(),
            (*final(self), final(state)@) == old(self).spec_frame(old(state)@),
            keeps_structures(old(state)@, final(state)@),
    {
        if self.cooldown <= 1 {
            self.cooldown = 0;
            let input = self.position.add(self.rotation.delta_inv());
            let output = self.position.add(self.rotation.delta());
            match state.find_item(input) {
                Some(item) => {
                    let moved = match state.new_object(output.x, output.y, item.type_) {
                        Ok(()) => true,
                        Err(_) => match state.find_structure_tile_idx(output) {
                            Some(si) => state.offer(si, item.type_, output),
                            None => false,
                        },
                    };
                    if moved {
                        state.remove_item(item.id);
                        self.cooldown = state.config.inserter_recharge;
                    }
                },
                None => {},
            }
        } else {
            self.cooldown = self.cooldown - 1;
        }
    }
}

/// `v` has the structures of `w`, on the same tiles.
pub open spec fn keeps_structures(w: WorldView, v: WorldView) -> bool {
    &&& v.structures.len() == w.structures.len()
    &&& forall|j: int|
        0 <= j < w.structures.len() ==> (#[trigger] v.structures[j]).spec_position() == w.structures[j].spec_position()
}

impl FactorishState {
    /// Offers an item of kind `t` to structure `si` standing on `p`.
    fn offer(&mut self, si: usize, t: ItemType, p: Position) -> (r: bool)
        requires
            old(self).wf(),
            old(self)@.structure_at(p) == Some(si as int),
        ensures
            final(self).wf(),
            (final(self)@, r) == old(self)@.spec_offer(si as int, t, p),
            keeps_structures(old(self)@, final(self)@),
    {
        proof {
            lemma_first_match(self@.structures, at_position(p));
        }
        if self.serial_no == u32::MAX {
            return false;
        }
        let probe = DropItem::new(&mut self.serial_no, t, p.x, p.y);
        let mut s = self.structures[si];
        let resp = s.item_response(&probe, &self.config);
        proof {
            lemma_update_structure_wf(self@, si as int, s);
        }
        self.structures.set(si, s);
        resp.is_ok()
    }
}

impl OreMine {
    /// The recipe a mine picks over `tile`: iron if there is any, else coal if
    /// there is any, else none yet. A chosen recipe stays.
    pub open spec fn spec_with_recipe(self, tile: Cell, w: WorldView) -> OreMine {
        if self.recipe is None {
            if 0 < tile.iron_ore {
                OreMine {
                    recipe: Some(
                        Recipe {
                            item_type: ItemType::IronOre,
                            power_cost: w.config.power_cost,
                            recipe_time: w.config.recipe_time,
                        },
                    ),
                    ..self
                }
            } else if 0 < tile.coal_ore {
                OreMine {
                    recipe: Some(
                        Recipe {
                            item_type: ItemType::CoalOre,
                            power_cost: w.config.power_cost,
                            recipe_time: w.config.recipe_time,
                        },
                    ),
                    ..self
                }
            } else {
                self
            }
        } else {
            self
        }
    }

    /// One tick of a mine. With a recipe, the progress of this tick is the
    /// energy it can spend, at most the recipe's cost. When the work left is
    /// below that, the item is done: if ore is left under the mine and an
    /// item can be put on the tile ahead, it is, one ore leaves the tile, and
    /// the next item's work begins; else the mine waits with no work left.
    /// Otherwise the progress is taken from both the work left and the energy.
    pub open spec fn spec_frame(self, w: WorldView) -> (OreMine, WorldView) {
        match w.tile(self.position) {
            None => (self, w),
            Some(tile) => {
                let m = self.spec_with_recipe(tile, w);
                match m.recipe {
                    None => (m, w),
                    Some(recipe) => {
                        let progress = min_u64(m.power, recipe.power_cost);
                        if m.cooldown < progress {
                            let waiting = OreMine { cooldown: 0, ..m };
                            let output = self.position.offset(self.rotation.spec_delta());
                            if ore_of(tile, recipe.item_type) == 0 {
                                (waiting, w)
                            } else {
                                let (w1, res) = w.spec_new_object(output.x, output.y, recipe.item_type);
                                if res is Ok {
                                    (
                                        OreMine { cooldown: recipe.work() as u64, ..m },
                                        WorldView {
                                            board: w1.board.update(
                                                w.tile_index(self.position),
                                                extracted(tile, recipe.item_type),
                                            ),
                                            ..w1
                                        },
                                    )
                                } else {
                                    (waiting, w1)
                                }
                            }
                        } else {
                            (
                                OreMine {
                                    cooldown: (m.cooldown - progress) as u64,
                                    power: (m.power - progress) as u64,
                                    ..m
                                },
                                w,
                            )
                        }
                    },
                }
            },
        }
    }

    pub fn frame_proc(&mut self, state: &mut FactorishState)
        requires
            old(state).wf(),
            old(state)@.in_grid(old(self).position),
            Structure::OreMine(*old(self)).wf(),
        ensures
            final(state).wf(),
            Structure::OreMine(*final(self)).wf(),
            (*final(self), final(state)@) == old(self).spec_frame(old(state)@),
            keeps_structures(old(state)@, final(state)@),
    {
        let otile = state.tile_at(self.position);
        let tile = match otile {
            Some(tile) => tile,
            None => {
                return;
            },
        };
        if self.recipe.is_none() {
            if 0 < tile.iron_ore {
                self.recipe = Some(
                    Recipe {
                        item_type: ItemType::IronOre,
                        power_cost: state.config.power_cost,
                        recipe_time: state.config.recipe_time,
                    },
                );
            } else if 0 < tile.coal_ore {
                self.recipe = Some(
                    Recipe {
                        item_type: ItemType::CoalOre,
                        power_cost: state.config.power_cost,
                        recipe_time: state.config.recipe_time,
                    },
                );
            }
        }
        let recipe = match self.recipe {
            Some(recipe) => recipe,
            None => {
                return;
            },
        };
        let progress = if self.power < recipe.power_cost {
            self.power
        } else {
            recipe.power_cost
        };
        if self.cooldown < progress {
            self.cooldown = 0;
            let left = match recipe.item_type {
                ItemType::IronOre => tile.iron_ore,
                ItemType::CoalOre => tile.coal_ore,
            };
            if 0 < left {
                let output = self.position.add(self.rotation.delta());
                match state.new_object(output.x, output.y, recipe.item_type) {
                    Ok(()) => {
                        self.cooldown = recipe.recipe_time * recipe.power_cost;
                        let rest = match recipe.item_type {
                            ItemType::IronOre => Cell { iron_ore: tile.iron_ore - 1, ..tile },
                            ItemType::CoalOre => Cell { coal_ore: tile.coal_ore - 1, ..tile },
                        };
                        state.set_tile_at(self.position, rest);
                    },
                    Err(_) => {},
                }
            }
        } else {
            self.cooldown = self.cooldown - progress;
            self.power = self.power - progress;
        }
    }
}

impl Structure {
    /// One tick of a structure; a belt does nothing on its own.
    pub open spec fn spec_frame(self, w: WorldView) -> (Structure, WorldView) {
        match self {
            Structure::TransportBelt(_) => (self, w),
            Structure::Inserter(s) => {
                let (s2, w2) = s.spec_frame(w);
                (Structure::Inserter(s2), w2)
            },
            Structure::OreMine(s) => {
                let (s2, w2) = s.spec_frame(w);
                (Structure::OreMine(s2), w2)
            },
        }
    }

    /// Advances this structure by one tick against the rest of the world.
    pub fn frame_proc(&mut self, state: &mut FactorishState)
        requires
            old(state).wf(),
            old(state)@.in_grid(old(self).spec_position()),
            old(self).wf(),
        ensures
            final(state).wf(),
            final(self).wf(),
            final(self).spec_position() == old(self).spec_position(),
            (*final(self), final(state)@) == old(self).spec_frame(old(state)@),
            keeps_structures(old(state)@, final(state)@),
    {
        match self {
            Structure::TransportBelt(_) => {},
            Structure::Inserter(s) => s.frame_proc(state),
            Structure::OreMine(s) => s.frame_proc(state),
        }
    }
}

/// The world after structure `i` has acted; the structure is put back in its place.
pub open spec fn structure_step(w: WorldView, i: int) -> WorldView {
    if 0 <= i < w.structures.len() {
        let (s, v) = w.structures[i].spec_frame(w);
        v.with_structures(v.structures.update(i, s))
    } else {
        w
    }
}

/// The world after structures `0 .. k` have acted, in order.
pub open spec fn structures_upto(w: WorldView, k: nat) -> WorldView
    decreases k,
{
    if k == 0 {
        w
    } else {
        structure_step(structures_upto(w, (k - 1) as nat), k - 1)
    }
}

/// Whether pixel `(x, y)` lies strictly inside the grid.
pub open spec fn inside_pixels(w: WorldView, x: i32, y: i32) -> bool {
    0 < x < w.width * TILE_SIZE && 0 < y < w.height * TILE_SIZE
}

/// Item `i` meets the structure on its tile, if it is inside the grid: a
/// move is made unless the new place collides with another item; a consumed
/// item's id is noted in `removed`.
pub open spec fn item_step(w: WorldView, removed: Seq<u32>, i: int) -> (WorldView, Seq<u32>) {
    if !(0 <= i < w.items.len()) {
        (w, removed)
    } else {
        let it = w.items[i];
        if !inside_pixels(w, it.x, it.y) {
            (w, removed)
        } else {
            match w.structure_at(Position { x: pixel_tile(it.x as int) as i32, y: pixel_tile(it.y as int) as i32 }) {
                None => (w, removed),
                Some(si) => {
                    let (s, resp) = w.structures[si].spec_item_response(it, w.config);
                    let v = w.with_structures(w.structures.update(si, s));
                    match resp {
                        Ok(ItemResponse::Move(mx, my)) => if hits(v.items, mx as int, my as int, Some(it.id)) {
                            (v, removed)
                        } else {
                            (v.with_items(v.items.update(i, DropItem { x: mx, y: my, ..it })), removed)
                        },
                        Ok(ItemResponse::Consume) => (v, removed.push(it.id)),
                        Err(_) => (v, removed),
                    }
                },
            }
        }
    }
}

/// The world and the consumed ids after items `0 .. k` have been answered.
pub open spec fn items_upto(w: WorldView, k: nat) -> (WorldView, Seq<u32>)
    decreases k,
{
    if k == 0 {
        (w, Seq::empty())
    } else {
        let (v, removed) = items_upto(w, (k - 1) as nat);
        item_step(v, removed, k - 1)
    }
}

/// The world with the items of `ids` removed, in order.
pub open spec fn remove_all(w: WorldView, ids: Seq<u32>) -> WorldView
    decreases ids.len(),
{
    if ids.len() == 0 {
        w
    } else {
        remove_all(w, ids.drop_last()).spec_remove_item(ids.last())
    }
}

pub open spec fn saturating_add(a: u64, b: u64) -> u64 {
    if a + b <= u64::MAX {
        (a + b) as u64
    } else {
        u64::MAX
    }
}

/// One tick of `delta_time`: the clock advances, every structure acts in
/// order, then every item present after that is answered by the structure
/// on its tile, then the consumed items are removed.
pub open spec fn spec_tick(w: WorldView, delta_time: u64) -> WorldView {
    let w0 = WorldView { delta_time, sim_time: saturating_add(w.sim_time, delta_time), ..w };
    let w1 = structures_upto(w0, w0.structures.len() as nat);
    let (w2, removed) = items_upto(w1, w1.items.len() as nat);
    remove_all(w2, removed)
}

/// A move to a free place keeps the invariant.
proof fn lemma_move_item_wf(w: WorldView, i: int, mx: i32, my: i32)
    requires
        w.wf(),
        0 <= i < w.items.len(),
        !hits(w.items, mx as int, my as int, Some(w.items[i].id)),
        in_band(mx),
        in_band(my),
    ensures
        w.with_items(w.items.update(i, DropItem { x: mx, y: my, ..w.items[i] })).wf(),
{
    let it = DropItem { x: mx, y: my, ..w.items[i] };
    let s = w.items.update(i, it);
    assert forall|j: int| 0 <= j < w.items.len() && j != i implies !near(#[trigger] w.items[j], mx as int, my as int) by {
        assert(w.items[j].id != w.items[i].id);
        if near(w.items[j], mx as int, my as int) {
            assert(hits(w.items, mx as int, my as int, Some(w.items[i].id)));
        }
    }
    assert forall|a: int, b: int| 0 <= a < s.len() && 0 <= b < s.len() && a != b implies !near(#[trigger] s[a], #[trigger] s[b].x as int, s[b].y as int) by {
        if a != i && b != i {
            assert(!near(w.items[a], w.items[b].x as int, w.items[b].y as int));
        } else if a != i {
            assert(!near(w.items[a], mx as int, my as int));
        } else {
            assert(!near(w.items[b], mx as int, my as int));
        }
    }
    assert forall|a: int, b: int| 0 <= a < s.len() && 0 <= b < s.len() && a != b implies #[trigger] s[a].id != #[trigger] s[b].id by {
        assert(w.items[a].id != w.items[b].id);
    }
}

impl FactorishState {
    /// Lets every structure act, in order. Each one is taken out of the
    /// collection while it acts, so that it may change the rest of the world,
    /// and put back in its place afterwards.
    fn structure_pass(&mut self)
        requires
            old(self).wf(),
        ensures
            final(self).wf(),
            final(self)@ == structures_upto(old(self)@, old(self)@.structures.len() as nat),
    {
        let ghost w0 = self@;
        let n = self.structures.len();
        let mut i: usize = 0;
        while i < n
            invariant
                self.wf(),
                0 <= i <= n,
                n == w0.structures.len(),
                self@.structures.len() == n,
                self@ == structures_upto(w0, i as nat),
            decreases n - i,
        {
            let mut s = self.structures[i];
            s.frame_proc(self);
            proof {
                lemma_update_structure_wf(self@, i as int, s);
            }
            self.structures.set(i, s);
            i += 1;
        }
    }

    /// Answers every item inside the grid with the structure on its tile, and
    /// returns the ids of the items consumed.
    fn item_pass(&mut self) -> (removed: Vec<u32>)
        requires
            old(self).wf(),
        ensures
            final(self).wf(),
            (final(self)@, removed@) == items_upto(old(self)@, old(self)@.items.len() as nat),
    {
        let ghost w0 = self@;
        let n = self.drop_items.len();
        let mut to_remove: Vec<u32> = Vec::new();
        let mut i: usize = 0;
        while i < n
            invariant
                self.wf(),
                0 <= i <= n,
                n == w0.items.len(),
                self@.items.len() == n,
                (self@, to_remove@) == items_upto(w0, i as nat),
            decreases n - i,
        {
            let item = self.drop_items[i];
            if 0 < item.x && item.x < self.width as i32 * TILE_SIZE && 0 < item.y && item.y < self.height as i32 * TILE_SIZE {
                let tile = Position { x: tile_of_pixel(item.x), y: tile_of_pixel(item.y) };
                match self.find_structure_tile_idx(tile) {
                    Some(si) => {
                        let mut s = self.structures[si];
                        let resp = s.item_response(&item, &self.config);
                        proof {
                            lemma_update_structure_wf(self@, si as int, s);
                        }
                        self.structures.set(si, s);
                        match resp {
                            Ok(ItemResponse::Move(mx, my)) => {
                                if !self.hit_check(mx, my, Some(item.id)) {
                                    proof {
                                        lemma_move_item_wf(self@, i as int, mx, my);
                                    }
                                    self.drop_items.set(i, DropItem { x: mx, y: my, ..item });
                                }
                            },
                            Ok(ItemResponse::Consume) => {
                                to_remove.push(item.id);
                            },
                            Err(()) => {},
                        }
                    },
                    None => {},
                }
            }
            i += 1;
        }
        to_remove
    }

    /// Advances the simulation by one tick of `delta_time`, in whole time
    /// units of the caller's choosing; the clock saturates at its maximum.
    pub fn simulate(&mut self, delta_time: u64)
        requires
            old(self).wf(),
        ensures
            final(self).wf(),
            final(self)@ == spec_tick(old(self)@, delta_time),
            items_separated(final(self)@.items),
    {
        self.delta_time = delta_time;
        self.sim_time = if self.sim_time <= u64::MAX - delta_time {
            self.sim_time + delta_time
        } else {
            u64::MAX
        };
        self.structure_pass();
        let to_remove = self.item_pass();
        let ghost w2 = self@;
        let mut j: usize = 0;
        while j < to_remove.len()
            invariant
                self.wf(),
                0 <= j <= to_remove@.len(),
                self@ == remove_all(w2, to_remove@.subrange(0, j as int)),
            decreases to_remove@.len() - j,
        {
            let id = to_remove[j];
            self.remove_item(id);
            assert(to_remove@.subrange(0, j + 1).drop_last() == to_remove@.subrange(0, j as int));
            j += 1;
        }
        assert(to_remove@.subrange(0, to_remove@.len() as int) == to_remove@);
    }
}

} // verus!
