//! Properties of the simulation that span several steps or commands.
use vstd::prelude::*;
use crate::geometry::{pixel_tile, tile_center, Position, TILE_SIZE};
use crate::lookup::{first_match, lemma_first_match, lemma_first_match_at};
use crate::simulation::{extracted, inside_pixels, item_step, ore_of};
use crate::structures::{built_structure, DropItem, Inserter, ItemResponse, ItemType, OreMine, Structure};
use crate::world::{at_position, has_id, hits, WorldView};

verus! {

/// The inserter after one tick in each world of `ws`, in order.
pub open spec fn inserter_after(ins: Inserter, ws: Seq<WorldView>) -> Inserter
    decreases ws.len(),
{
    if ws.len() == 0 {
        ins
    } else {
        inserter_after(ins, ws.drop_last()).spec_frame(ws.last()).0
    }
}

proof fn lemma_inserter_countdown(ins: Inserter, ws: Seq<WorldView>)
    requires
        ws.len() < ins.cooldown,
    ensures
        inserter_after(ins, ws) == (Inserter { cooldown: (ins.cooldown - ws.len()) as u64, ..ins }),
    decreases ws.len(),
{
    if ws.len() > 0 {
        lemma_inserter_countdown(ins, ws.drop_last());
    }
}

/// An inserter at cooldown `c` makes no transfer in its next `c - 1` ticks,
/// whatever the worlds it meets (items may keep arriving behind it): each of
/// those ticks leaves its world as it was and counts the cooldown down by one.
pub proof fn lemma_inserter_rests(ins: Inserter, ws: Seq<WorldView>)
    requires
        ws.len() < ins.cooldown,
    ensures
        inserter_after(ins, ws).cooldown == ins.cooldown - ws.len(),
        forall|i: int| 0 <= i < ws.len() ==> (#[trigger] inserter_after(ins, ws.take(i))).spec_frame(ws[i]).1 == ws[i],
{
    lemma_inserter_countdown(ins, ws);
    assert forall|i: int| 0 <= i < ws.len() implies (#[trigger] inserter_after(ins, ws.take(i))).spec_frame(ws[i]).1 == ws[i] by {
        lemma_inserter_countdown(ins, ws.take(i));
    }
}

/// An inserter ready to act ends its tick at exactly the recharge time when
/// it made a transfer, and at 0 when it did not.
pub proof fn lemma_transfer_sets_recharge(ins: Inserter, w: WorldView)
    requires
        ins.cooldown <= 1,
    ensures
        ins.spec_frame(w).0.cooldown == (if ins.spec_transfer(w).1 {
            w.config.inserter_recharge
        } else {
            0
        }),
        ins.spec_frame(w).1 == ins.spec_transfer(w).0,
{
}

/// A mine's tick takes at most one unit of ore from its own tile, only of a
/// kind that is there, and leaves every other tile alone.
pub proof fn lemma_mine_takes_at_most_one(m: OreMine, w: WorldView)
    requires
        w.wf(),
        w.in_grid(m.position),
    ensures
        ({
            let v = m.spec_frame(w).1;
            let t = w.board[w.tile_index(m.position)];
            let t2 = v.board[w.tile_index(m.position)];
            &&& v.board.len() == w.board.len()
            &&& forall|j: int| 0 <= j < w.board.len() && j != w.tile_index(m.position) ==> v.board[j] == w.board[j]
            &&& (t2 == t || exists|ty: ItemType| ore_of(t, ty) > 0 && t2 == extracted(t, ty))
        }),
{
    let x = m.position.x as int;
    let y = m.position.y as int;
    let wd = w.width as int;
    let h = w.height as int;
    assert(0 <= x + y * wd < wd * h) by (nonlinear_arith)
        requires
            0 <= x < wd,
            0 <= y < h,
    ;
}

/// Placing a structure on a free tile and harvesting it right away gives
/// back the inventory and the structures as they were.
pub proof fn lemma_place_then_harvest(w: WorldView, tool: usize, p: Position)
    requires
        w.wf(),
        w.structure_at(p) is None,
    ensures
        ({
            let w2 = w.spec_place(tool, p).0.spec_harvest(p).0;
            &&& w2.inventory == w.inventory
            &&& w2.structures == w.structures
            &&& w2.structure_at(p) is None
        }),
{
    let (w1, placed) = w.spec_place(tool, p);
    if placed {
        let b = built_structure(tool, p, w.tool_rotation, w.config);
        let n = w.structures.len() as int;
        assert(w1.structures == w.structures.push(b));
        lemma_first_match(w.structures, at_position(p));
        assert forall|j: int| 0 <= j < n implies !at_position(p)(#[trigger] w1.structures[j]) by {
            assert(w1.structures[j] == w.structures[j]);
        }
        lemma_first_match_at(w1.structures, at_position(p), n);
        assert(b.spec_kind() == tool);
        let w2 = w1.spec_harvest(p).0;
        assert(w2.structures =~= w.structures);
        assert(w2.inventory =~= w.inventory);
    }
}

/// An item inside the grid on a belt moves one whole tile in the belt's
/// direction in its step, unless an item already lies too close to the new
/// place, in which case it stays where it was.
pub proof fn lemma_belt_carries(w: WorldView, removed: Seq<u32>, i: int)
    requires
        w.wf(),
        0 <= i < w.items.len(),
        inside_pixels(w, w.items[i].x, w.items[i].y),
        w.structure_at(Position { x: pixel_tile(w.items[i].x as int) as i32, y: pixel_tile(w.items[i].y as int) as i32 }) matches Some(si)
            && w.structures[si] is TransportBelt,
    ensures
        ({
            let it = w.items[i];
            let d = w.structures[w.structure_at(Position { x: pixel_tile(it.x as int) as i32, y: pixel_tile(it.y as int) as i32 }).unwrap()].spec_rotation().spec_delta();
            let x = it.x + TILE_SIZE * d.0;
            let y = it.y + TILE_SIZE * d.1;
            let v = item_step(w, removed, i).0;
            &&& item_step(w, removed, i).1 == removed
            &&& v.items.len() == w.items.len()
            &&& v.items[i] == (if hits(w.items, x, y, Some(it.id)) { it } else { DropItem { x: x as i32, y: y as i32, ..it } })
        }),
{
}

/// The item a structure drops on tile `p`, with the next id.
pub open spec fn dropped_item(w: WorldView, p: Position, t: ItemType) -> DropItem {
    DropItem { id: w.serial_no, type_: t, x: tile_center(p.x as int) as i32, y: tile_center(p.y as int) as i32 }
}

/// Whether a new item may be dropped on tile `p`: ids are left, the tile is
/// in the grid, takes items, and no item lies too close to its centre.
pub open spec fn can_drop(w: WorldView, p: Position) -> bool {
    &&& w.serial_no < u32::MAX
    &&& w.in_grid(p)
    &&& !w.blocked_by_structure(p)
    &&& !hits(w.items, tile_center(p.x as int), tile_center(p.y as int), None)
}

/// A ready inserter with an item behind it and room ahead moves that item:
/// the item leaves the tile behind, one new item of its kind appears ahead,
/// nothing else changes, and the inserter rests for the recharge time.
pub proof fn lemma_inserter_transfer(ins: Inserter, w: WorldView)
    requires
        w.wf(),
        ins.cooldown <= 1,
        w.item_at(ins.position.offset(ins.rotation.spec_delta_inv())) is Some,
        can_drop(w, ins.position.offset(ins.rotation.spec_delta())),
    ensures
        ({
            let k = w.item_at(ins.position.offset(ins.rotation.spec_delta_inv())).unwrap();
            let output = ins.position.offset(ins.rotation.spec_delta());
            let (ins2, v) = ins.spec_frame(w);
            &&& ins2 == (Inserter { cooldown: w.config.inserter_recharge, ..ins })
            &&& v == (WorldView {
                serial_no: (w.serial_no + 1) as u32,
                items: w.items.remove(k).push(dropped_item(w, output, w.items[k].type_)),
                ..w
            })
        }),
{
    let input = ins.position.offset(ins.rotation.spec_delta_inv());
    let output = ins.position.offset(ins.rotation.spec_delta());
    lemma_first_match(w.items, crate::world::on_tile(input));
    let k = w.item_at(input).unwrap();
    let item = w.items[k];
    let s = w.items.push(dropped_item(w, output, item.type_));
    assert forall|j: int| 0 <= j < k implies !has_id(item.id)(#[trigger] s[j]) by {
        assert(w.items[j].id != w.items[k].id);
    }
    lemma_first_match_at(s, has_id(item.id), k);
    assert(s.remove(k) =~= w.items.remove(k).push(dropped_item(w, output, item.type_)));
}

/// A mine that finishes its work with ore of its recipe's kind under it and
/// room ahead puts one item of that kind ahead, takes exactly one ore from
/// its tile, starts the next item's work, and keeps its energy.
pub proof fn lemma_mine_extracts(m: OreMine, w: WorldView)
    requires
        w.wf(),
        w.in_grid(m.position),
        Structure::OreMine(m).wf(),
        ({
            let t = w.board[w.tile_index(m.position)];
            let mm = m.spec_with_recipe(t, w);
            &&& mm.recipe is Some
            &&& mm.cooldown < crate::simulation::min_u64(mm.power, mm.recipe.unwrap().power_cost)
            &&& ore_of(t, mm.recipe.unwrap().item_type) > 0
        }),
        can_drop(w, m.position.offset(m.rotation.spec_delta())),
    ensures
        ({
            let t = w.board[w.tile_index(m.position)];
            let recipe = m.spec_with_recipe(t, w).recipe.unwrap();
            let output = m.position.offset(m.rotation.spec_delta());
            let (m2, v) = m.spec_frame(w);
            &&& m2.cooldown == recipe.work()
            &&& m2.power == m.power
            &&& m2.recipe == Some(recipe)
            &&& v == (WorldView {
                serial_no: (w.serial_no + 1) as u32,
                items: w.items.push(dropped_item(w, output, recipe.item_type)),
                board: w.board.update(w.tile_index(m.position), extracted(t, recipe.item_type)),
                ..w
            })
        }),
{
    let x = m.position.x as int;
    let y = m.position.y as int;
    let wd = w.width as int;
    let h = w.height as int;
    assert(0 <= x + y * wd < wd * h) by (nonlinear_arith)
        requires
            0 <= x < wd,
            0 <= y < h,
    ;
    let t = w.board[w.tile_index(m.position)];
    assert(w.tile(m.position) == Some(t));
    let recipe = m.spec_with_recipe(t, w).recipe.unwrap();
    assert(recipe.wf());
    let output = m.position.offset(m.rotation.spec_delta());
    assert(w.spec_new_object(output.x, output.y, recipe.item_type).1 is Ok);
}

/// When the structure under an item answers with a move, the item takes the
/// new place only if no other item lies too close to it; otherwise it stays
/// exactly where it was, still on the board.
pub proof fn lemma_colliding_move_dropped(w: WorldView, removed: Seq<u32>, i: int, mx: i32, my: i32)
    requires
        0 <= i < w.items.len(),
        inside_pixels(w, w.items[i].x, w.items[i].y),
        w.structure_at(Position { x: pixel_tile(w.items[i].x as int) as i32, y: pixel_tile(w.items[i].y as int) as i32 }) matches Some(si)
            && w.structures[si].spec_item_response(w.items[i], w.config).1 == Ok::<ItemResponse, ()>(ItemResponse::Move(mx, my)),
    ensures
        ({
            let v = item_step(w, removed, i).0;
            &&& item_step(w, removed, i).1 == removed
            &&& v.items.len() == w.items.len()
            &&& hits(w.items, mx as int, my as int, Some(w.items[i].id)) ==> v.items[i] == w.items[i]
            &&& !hits(w.items, mx as int, my as int, Some(w.items[i].id)) ==> v.items[i] == (DropItem { x: mx, y: my, ..w.items[i] })
            &&& forall|j: int| 0 <= j < w.items.len() && j != i ==> v.items[j] == w.items[j]
        }),
{
}

} // verus!
