use factorish::geometry::{Position, Rotation};
use factorish::structures::{Config, DropItem, ItemType, Structure};
use factorish::terrain::Cell;
use factorish::world::{FactorishState, NewObjectErr, RotateErr, TileInfo};

fn empty_world(side: u32) -> FactorishState {
    let board = vec![Cell { iron_ore: 0, coal_ore: 0 }; (side * side) as usize];
    FactorishState::with_board(side, side, board, Config::standard())
}

fn pos(x: i32, y: i32) -> Position {
    Position { x, y }
}

#[test]
fn standard_world_layout() {
    let iron: Vec<u32> = (0..4096).map(|i| if i % 3 == 0 { 40 } else { 0 }).collect();
    let coal: Vec<u32> = (0..4096).map(|i| if i % 2 == 0 { 20 } else { 0 }).collect();
    let state = FactorishState::new(&iron, &coal);
    assert_eq!(state.width(), 64);
    assert_eq!(state.height(), 64);
    assert_eq!(state.structure_count(), 4);
    assert_eq!(state.structure(0).name(), "TransportBelt");
    assert_eq!(state.structure(3).name(), "OreMine");
    assert_eq!(state.structure(3).position(), pos(12, 7));
    assert_eq!(state.structure(3).rotation(), Rotation::Top);
    assert_eq!(state.tool_inventory(), vec![10, 5, 5]);
    assert_eq!(state.item_count(), 0);
    assert_eq!(state.tile_at(pos(0, 0)), Some(Cell { iron_ore: 40, coal_ore: 0 }));
    assert_eq!(state.tile_at(pos(2, 0)), Some(Cell { iron_ore: 0, coal_ore: 20 }));
    assert_eq!(state.tile_at(pos(1, 0)), Some(Cell { iron_ore: 0, coal_ore: 0 }));
    assert_eq!(state.tile_at(pos(64, 0)), None);
    assert_eq!(state.tile_at(pos(-1, 3)), None);
}

#[test]
fn new_object_places_item_at_tile_centre() {
    let mut state = empty_world(8);
    assert_eq!(state.new_object(2, 3, ItemType::IronOre), Ok(()));
    assert_eq!(state.item_count(), 1);
    assert_eq!(state.item(0), DropItem { id: 0, type_: ItemType::IronOre, x: 80, y: 112 });
    assert_eq!(state.serial_no(), 1);
}

#[test]
fn new_object_errors() {
    let mut state = empty_world(8);
    assert_eq!(state.new_object(8, 0, ItemType::IronOre), Err(NewObjectErr::OutOfMap));
    assert_eq!(state.new_object(-1, 0, ItemType::IronOre), Err(NewObjectErr::OutOfMap));
    assert_eq!(state.new_object(1, 1, ItemType::CoalOre), Ok(()));
    assert_eq!(state.new_object(1, 1, ItemType::CoalOre), Err(NewObjectErr::BlockedByItem));
    assert!(state.place(1, pos(4, 4)));
    assert_eq!(state.new_object(4, 4, ItemType::CoalOre), Err(NewObjectErr::BlockedByStructure));
    assert!(state.place(0, pos(5, 5)));
    assert_eq!(state.new_object(5, 5, ItemType::CoalOre), Ok(()));
    assert_eq!(state.item_count(), 2);
    // refused attempts leave the id counter alone
    assert_eq!(state.serial_no(), 2);
    assert_eq!(state.item(1).id, 1);
}

#[test]
fn hit_check_distance() {
    let mut state = empty_world(8);
    state.new_object(1, 1, ItemType::IronOre).unwrap();
    assert!(state.hit_check(48, 48, None));
    assert!(state.hit_check(55, 41, None));
    assert!(!state.hit_check(56, 48, None));
    assert!(!state.hit_check(48, 40, None));
    assert!(!state.hit_check(48, 48, Some(0)));
    assert!(state.hit_check(48, 48, Some(7)));
}

#[test]
fn remove_item_by_id() {
    let mut state = empty_world(8);
    state.new_object(1, 1, ItemType::IronOre).unwrap();
    state.new_object(3, 1, ItemType::CoalOre).unwrap();
    let gone = state.remove_item(0).unwrap();
    assert_eq!(gone.type_, ItemType::IronOre);
    assert_eq!(state.item_count(), 1);
    assert_eq!(state.item(0).id, 1);
    assert!(state.remove_item(0).is_none());
}

#[test]
fn find_item_and_structure() {
    let mut state = empty_world(8);
    state.new_object(2, 2, ItemType::IronOre).unwrap();
    assert_eq!(state.find_item(pos(2, 2)).map(|i| i.id), Some(0));
    assert!(state.find_item(pos(2, 3)).is_none());
    assert!(state.place(0, pos(6, 1)));
    assert_eq!(state.find_structure_tile_idx(pos(6, 1)), Some(0));
    assert_eq!(state.find_structure_tile_idx(pos(1, 6)), None);
    assert!(state.find_structure_tile(pos(6, 1)).unwrap().movable());
}

#[test]
fn place_uses_inventory() {
    let mut state = empty_world(8);
    assert!(state.place(1, pos(3, 3)));
    assert_eq!(state.tool_inventory(), vec![10, 4, 5]);
    assert_eq!(state.structure(0).name(), "Inserter");
    assert_eq!(state.structure(0).rotation(), Rotation::Left);
}

#[test]
fn place_fails_without_stock() {
    let mut state = empty_world(8);
    for i in 0..5 {
        assert!(state.place(2, pos(i, 0)));
    }
    assert_eq!(state.inventory_count(2), 0);
    assert!(!state.place(2, pos(0, 1)));
    assert_eq!(state.structure_count(), 5);
}

#[test]
fn place_fails_off_grid_or_bad_tool() {
    let mut state = empty_world(8);
    assert!(!state.place(0, pos(8, 0)));
    assert!(!state.place(0, pos(0, -1)));
    assert!(!state.place(3, pos(0, 0)));
    assert_eq!(state.structure_count(), 0);
    assert_eq!(state.tool_inventory(), vec![10, 5, 5]);
}

#[test]
fn place_replaces_existing_structure() {
    let mut state = empty_world(8);
    assert!(state.place(0, pos(2, 2)));
    assert!(state.place(2, pos(2, 2)));
    assert_eq!(state.structure_count(), 1);
    assert_eq!(state.structure(0).name(), "OreMine");
    assert_eq!(state.tool_inventory(), vec![10, 5, 4]);
}

#[test]
fn harvest_returns_structure_to_inventory() {
    let mut state = empty_world(8);
    assert!(!state.harvest(&pos(1, 1)));
    assert!(state.place(0, pos(1, 1)));
    assert!(state.harvest(&pos(1, 1)));
    assert_eq!(state.structure_count(), 0);
    assert_eq!(state.tool_inventory(), vec![10, 5, 5]);
}

#[test]
fn place_then_harvest_round_trip() {
    let mut state = empty_world(8);
    for tool in 0..3usize {
        let before = state.tool_inventory();
        assert!(state.place(tool, pos(4, 2)));
        assert!(state.harvest(&pos(4, 2)));
        assert_eq!(state.tool_inventory(), before);
        assert!(state.find_structure_tile(pos(4, 2)).is_none());
    }
}

#[test]
fn mouse_down_builds_or_harvests() {
    let mut state = empty_world(8);
    state.mouse_down(pos(1, 1), 0);
    assert_eq!(state.structure_count(), 0);
    assert!(state.select_tool(0));
    state.mouse_down(pos(1, 1), 0);
    assert_eq!(state.structure_count(), 1);
    state.mouse_down(pos(1, 1), 2);
    assert_eq!(state.structure_count(), 0);
    assert_eq!(state.inventory_count(0), 10);
}

#[test]
fn select_tool_toggles() {
    let mut state = empty_world(8);
    assert!(state.select_tool(1));
    assert_eq!(state.selected_tool(), Some((1, 5)));
    assert!(!state.select_tool(1));
    assert_eq!(state.selected_tool(), None);
    assert!(!state.select_tool(-1));
    assert!(state.select_tool(7));
    assert_eq!(state.selected_tool(), Some((7, 0)));
}

#[test]
fn rotate_tool_turns_pending_rotation() {
    let mut state = empty_world(8);
    assert_eq!(state.rotate_tool(), 3);
    assert_eq!(state.tool_rotation(), Rotation::Top);
    assert_eq!(state.rotate_tool(), 0);
    assert_eq!(state.tool_rotation(), Rotation::Right);
}

#[test]
fn rotate_command() {
    let mut state = empty_world(8);
    assert_eq!(state.rotate(), Err(RotateErr::NotFound));
    assert!(state.place(0, pos(2, 2)));
    state.mouse_move(pos(2, 2));
    assert_eq!(state.cursor(), Some(pos(2, 2)));
    assert_eq!(state.rotate(), Ok(false));
    assert_eq!(state.structure(0).rotation(), Rotation::Top);
    state.mouse_move(pos(3, 2));
    assert_eq!(state.rotate(), Err(RotateErr::NotFound));
    state.mouse_leave();
    assert_eq!(state.cursor(), None);
    state.select_tool(0);
    assert_eq!(state.rotate(), Ok(true));
    assert_eq!(state.tool_rotation(), Rotation::Top);
}

#[test]
fn key_r_rotates() {
    let mut state = empty_world(8);
    state.select_tool(0);
    assert_eq!(state.on_key_down(65), Ok(false));
    assert_eq!(state.tool_rotation(), Rotation::Left);
    assert_eq!(state.on_key_down(82), Ok(true));
    assert_eq!(state.tool_rotation(), Rotation::Top);
}

#[test]
fn describe_tiles() {
    let mut board = vec![Cell { iron_ore: 0, coal_ore: 0 }; 64];
    board[9] = Cell { iron_ore: 12, coal_ore: 0 };
    let mut state = FactorishState::with_board(8, 8, board, Config::standard());
    match state.describe(pos(1, 1)) {
        Some(TileInfo::Empty(c)) => assert_eq!(c.iron_ore, 12),
        _ => panic!("expected an empty tile"),
    }
    assert!(state.place(2, pos(1, 1)));
    match state.describe(pos(1, 1)) {
        Some(TileInfo::Structure(s, c)) => {
            assert_eq!(s.name(), "OreMine");
            assert_eq!(c.iron_ore, 12);
        }
        _ => panic!("expected a structure"),
    }
    assert!(state.describe(pos(8, 1)).is_none());
}

#[test]
fn set_tile_bounds() {
    let mut state = empty_world(4);
    assert!(state.set_tile_at(pos(3, 3), Cell { iron_ore: 2, coal_ore: 0 }));
    assert_eq!(state.tile_at(pos(3, 3)), Some(Cell { iron_ore: 2, coal_ore: 0 }));
    assert!(!state.set_tile_at(pos(4, 3), Cell { iron_ore: 2, coal_ore: 0 }));
}

#[test]
fn tool_definitions() {
    let state = empty_world(4);
    let defs = state.tool_defs();
    assert_eq!(defs.len(), 3);
    assert_eq!(defs[0].item_name, "TransportBelt");
    assert_eq!(defs[1].image, "img/inserter-base.png");
    assert_eq!(defs[2].item_name, "OreMine");
}

#[test]
fn structure_kinds_and_moves() {
    let belt = Structure::TransportBelt(factorish::structures::TransportBelt::new(1, 1, Rotation::Bottom));
    assert_eq!(belt.kind(), 0);
    assert!(belt.movable());
    let mut s = belt;
    let item = DropItem { id: 0, type_: ItemType::IronOre, x: 48, y: 48 };
    assert_eq!(s.item_response(&item, &Config::standard()), Ok(factorish::structures::ItemResponse::Move(48, 80)));
    assert_eq!(s.set_rotation(&Rotation::Right), Ok(()));
    assert_eq!(s.item_response(&item, &Config::standard()), Ok(factorish::structures::ItemResponse::Move(80, 48)));
    let mut ins = Structure::Inserter(factorish::structures::Inserter::new(1, 1, Rotation::Left));
    assert!(!ins.movable());
    assert_eq!(ins.item_response(&item, &Config::standard()), Err(()));
    assert_eq!(ins.rotate(), Ok(()));
    assert_eq!(ins.rotation(), Rotation::Top);
}

#[test]
fn empty_mine_burns_coal_only() {
    let mut mine = Structure::OreMine(factorish::structures::OreMine::new(1, 1, Rotation::Left, 0));
    let iron = DropItem { id: 0, type_: ItemType::IronOre, x: 48, y: 48 };
    let coal = DropItem { id: 1, type_: ItemType::CoalOre, x: 48, y: 48 };
    let cfg = Config::standard();
    assert_eq!(mine.item_response(&iron, &cfg), Err(()));
    assert_eq!(mine.item_response(&coal, &cfg), Ok(factorish::structures::ItemResponse::Consume));
    match mine {
        Structure::OreMine(m) => {
            assert_eq!(m.power, 1000);
            assert_eq!(m.max_power, 1000);
        }
        _ => panic!("expected a mine"),
    }
    // a mine with energy left takes no fuel
    assert_eq!(mine.item_response(&coal, &cfg), Err(()));
}

#[test]
fn drop_item_takes_serial() {
    let mut serial = 41u32;
    let item = DropItem::new(&mut serial, ItemType::CoalOre, 2, 0);
    assert_eq!(item, DropItem { id: 41, type_: ItemType::CoalOre, x: 80, y: 16 });
    assert_eq!(serial, 42);
}

#[test]
fn rotate_structure_at_cursor_tile() {
    let mut state = empty_world(8);
    assert_eq!(state.rotate_structure_at(pos(1, 1)), Err(RotateErr::NotFound));
    assert!(state.place(2, pos(1, 1)));
    assert_eq!(state.rotate_structure_at(pos(1, 1)), Ok(Rotation::Top));
    assert_eq!(state.rotate_structure_at(pos(1, 1)), Ok(Rotation::Right));
    assert_eq!(state.structure(0).rotation(), Rotation::Right);
}

#[test]
fn inventory_counts_by_name() {
    let mut state = empty_world(8);
    assert!(state.place(0, pos(1, 1)));
    assert_eq!(
        state.inventory_counts(),
        vec![("TransportBelt", 9), ("Inserter", 5), ("OreMine", 5)]
    );
}
