use factorish::geometry::Position;
use factorish::structures::{Config, ItemType, Structure};
use factorish::terrain::Cell;
use factorish::world::FactorishState;

fn pos(x: i32, y: i32) -> Position {
    Position { x, y }
}

fn world_with(side: u32, ore: &[(i32, i32, Cell)], config: Config) -> FactorishState {
    let mut board = vec![Cell { iron_ore: 0, coal_ore: 0 }; (side * side) as usize];
    for &(x, y, c) in ore {
        board[(x + y * side as i32) as usize] = c;
    }
    FactorishState::with_board(side, side, board, config)
}

fn face_right(state: &mut FactorishState) {
    state.rotate_tool();
    state.rotate_tool();
}

fn inserter_cooldown(state: &FactorishState, i: usize) -> u64 {
    match state.structure(i) {
        Structure::Inserter(s) => s.cooldown,
        _ => panic!("expected an inserter"),
    }
}

#[test]
fn belt_moves_item_one_tile_per_tick() {
    let mut state = world_with(16, &[], Config::standard());
    assert!(state.place(0, pos(5, 5)));
    state.new_object(5, 5, ItemType::IronOre).unwrap();
    assert_eq!((state.item(0).x, state.item(0).y), (176, 176));
    state.simulate(1);
    assert_eq!((state.item(0).x, state.item(0).y), (144, 176));
    // no belt under it now: it stays
    state.simulate(1);
    assert_eq!((state.item(0).x, state.item(0).y), (144, 176));
}

#[test]
fn belt_move_blocked_by_item() {
    let mut state = world_with(16, &[], Config::standard());
    assert!(state.place(0, pos(5, 5)));
    state.new_object(5, 5, ItemType::IronOre).unwrap();
    state.new_object(4, 5, ItemType::CoalOre).unwrap();
    state.simulate(1);
    assert_eq!((state.item(0).x, state.item(0).y), (176, 176));
    assert_eq!((state.item(1).x, state.item(1).y), (144, 176));
}

#[test]
fn items_past_the_edge_freeze() {
    let mut state = world_with(4, &[], Config::standard());
    assert!(state.place(0, pos(0, 1)));
    state.new_object(0, 1, ItemType::IronOre).unwrap();
    state.simulate(1);
    assert_eq!(state.item(0).x, -16);
    state.simulate(1);
    assert_eq!(state.item(0).x, -16);
    assert_eq!(state.item_count(), 1);
}

#[test]
fn simulate_advances_clock() {
    let mut state = world_with(4, &[], Config::standard());
    state.simulate(16);
    state.simulate(17);
    assert_eq!(state.delta_time(), 17);
    assert_eq!(state.sim_time(), 33);
}

#[test]
fn inserter_transfers_then_rests() {
    let mut state = world_with(16, &[], Config::standard());
    face_right(&mut state);
    assert!(state.place(1, pos(5, 5)));
    assert_eq!(inserter_cooldown(&state, 0), 0);
    state.new_object(4, 5, ItemType::IronOre).unwrap();
    state.simulate(1);
    assert_eq!(inserter_cooldown(&state, 0), 20);
    assert_eq!(state.item_count(), 1);
    let moved = state.item(0);
    assert_eq!((moved.x, moved.y), (208, 176));
    state.remove_item(moved.id).unwrap();
    // keep an item waiting behind the inserter
    state.new_object(4, 5, ItemType::IronOre).unwrap();
    let waiting = state.item(0).id;
    for tick in 0..19u64 {
        state.simulate(1);
        assert_eq!(state.item_count(), 1);
        assert_eq!(state.item(0).id, waiting);
        assert_eq!(inserter_cooldown(&state, 0), 19 - tick);
    }
    state.simulate(1);
    assert_eq!(state.item_count(), 1);
    assert_ne!(state.item(0).id, waiting);
    assert_eq!((state.item(0).x, state.item(0).y), (208, 176));
    assert_eq!(inserter_cooldown(&state, 0), 20);
}

#[test]
fn inserter_without_input_stays_ready() {
    let mut state = world_with(8, &[], Config::standard());
    assert!(state.place(1, pos(3, 3)));
    state.simulate(1);
    assert_eq!(inserter_cooldown(&state, 0), 0);
}

#[test]
fn inserter_feeds_coal_to_empty_mine() {
    let config = Config { mine_power: 0, ..Config::standard() };
    let mut state = world_with(8, &[], config);
    face_right(&mut state);
    assert!(state.place(1, pos(3, 3)));
    assert!(state.place(2, pos(4, 3)));
    state.new_object(2, 3, ItemType::CoalOre).unwrap();
    state.simulate(1);
    assert_eq!(state.item_count(), 0);
    assert_eq!(inserter_cooldown(&state, 0), 20);
    match state.structure(1) {
        Structure::OreMine(m) => {
            assert_eq!(m.power, 1000);
            assert_eq!(m.max_power, 1000);
        }
        _ => panic!("expected a mine"),
    }
}

#[test]
fn inserter_cannot_feed_iron_to_mine() {
    let config = Config { mine_power: 0, ..Config::standard() };
    let mut state = world_with(8, &[], config);
    face_right(&mut state);
    assert!(state.place(1, pos(3, 3)));
    assert!(state.place(2, pos(4, 3)));
    state.new_object(2, 3, ItemType::IronOre).unwrap();
    state.simulate(1);
    assert_eq!(state.item_count(), 1);
    assert_eq!(inserter_cooldown(&state, 0), 0);
}

#[test]
fn belt_delivers_coal_into_empty_mine() {
    let config = Config { mine_power: 0, ..Config::standard() };
    let mut state = world_with(8, &[], config);
    face_right(&mut state);
    assert!(state.place(0, pos(3, 3)));
    assert!(state.place(2, pos(4, 3)));
    state.new_object(3, 3, ItemType::CoalOre).unwrap();
    state.simulate(1);
    assert_eq!(state.item_count(), 1);
    assert_eq!(state.item(0).x, 144);
    state.simulate(1);
    assert_eq!(state.item_count(), 0);
    match state.structure(1) {
        Structure::OreMine(m) => assert_eq!(m.power, 1000),
        _ => panic!("expected a mine"),
    }
}

#[test]
fn mine_depletes_tile_one_ore_per_recipe() {
    let config = Config { mine_power: 100000, ..Config::standard() };
    let mut state = world_with(32, &[(5, 5, Cell { iron_ore: 5, coal_ore: 0 })], config);
    face_right(&mut state);
    assert!(state.place(2, pos(5, 5)));
    for x in 6..16 {
        state.place(0, pos(x, 5));
    }
    // the first item comes at once, then one every 81 ticks
    state.simulate(1);
    assert_eq!(state.tile_at(pos(5, 5)).unwrap().iron_ore, 4);
    for expected in [3u32, 2, 1, 0] {
        for _ in 0..80 {
            state.simulate(1);
        }
        assert_eq!(state.tile_at(pos(5, 5)).unwrap().iron_ore, expected + 1);
        state.simulate(1);
        assert_eq!(state.tile_at(pos(5, 5)).unwrap().iron_ore, expected);
    }
    for _ in 0..300 {
        state.simulate(1);
    }
    assert_eq!(state.tile_at(pos(5, 5)).unwrap().iron_ore, 0);
    assert_eq!(state.item_count(), 5);
    for i in 0..5 {
        assert_eq!(state.item(i).type_, ItemType::IronOre);
    }
}

#[test]
fn mine_picks_coal_when_no_iron() {
    let mut state = world_with(8, &[(2, 2, Cell { iron_ore: 0, coal_ore: 3 })], Config::standard());
    face_right(&mut state);
    assert!(state.place(2, pos(2, 2)));
    state.simulate(1);
    assert_eq!(state.tile_at(pos(2, 2)).unwrap().coal_ore, 2);
    assert_eq!(state.item(0).type_, ItemType::CoalOre);
    assert_eq!((state.item(0).x, state.item(0).y), (112, 80));
}

#[test]
fn mine_blocked_output_keeps_ore() {
    let mut state = world_with(8, &[(2, 2, Cell { iron_ore: 3, coal_ore: 0 })], Config::standard());
    face_right(&mut state);
    state.new_object(3, 2, ItemType::CoalOre).unwrap();
    assert!(state.place(2, pos(2, 2)));
    for _ in 0..5 {
        state.simulate(1);
    }
    assert_eq!(state.tile_at(pos(2, 2)).unwrap().iron_ore, 3);
    assert_eq!(state.item_count(), 1);
}

#[test]
fn mine_on_empty_tile_idles() {
    let mut state = world_with(8, &[], Config::standard());
    assert!(state.place(2, pos(2, 2)));
    for _ in 0..3 {
        state.simulate(1);
    }
    assert_eq!(state.item_count(), 0);
    match state.structure(0) {
        Structure::OreMine(m) => {
            assert!(m.recipe.is_none());
            assert_eq!(m.power, 200);
        }
        _ => panic!("expected a mine"),
    }
}

#[test]
fn mine_runs_out_of_energy() {
    let config = Config { mine_power: 3, ..Config::standard() };
    let mut state = world_with(8, &[(2, 2, Cell { iron_ore: 9, coal_ore: 0 })], config);
    assert!(state.place(2, pos(2, 2)));
    for _ in 0..10 {
        state.simulate(1);
    }
    match state.structure(0) {
        Structure::OreMine(m) => {
            assert_eq!(m.power, 0);
            assert_eq!(m.cooldown, 77);
        }
        _ => panic!("expected a mine"),
    }
    assert_eq!(state.tile_at(pos(2, 2)).unwrap().iron_ore, 8);
}

#[test]
fn partial_power_gives_partial_progress() {
    let config = Config { power_cost: 3, mine_power: 4, recipe_time: 2, ..Config::standard() };
    let mut state = world_with(8, &[(2, 2, Cell { iron_ore: 9, coal_ore: 0 })], config);
    assert!(state.place(2, pos(2, 2)));
    state.simulate(1);
    // first item at once; the next needs 2 ticks of 3 units
    match state.structure(0) {
        Structure::OreMine(m) => assert_eq!((m.cooldown, m.power), (6, 4)),
        _ => panic!("expected a mine"),
    }
    state.simulate(1);
    match state.structure(0) {
        Structure::OreMine(m) => assert_eq!((m.cooldown, m.power), (3, 1)),
        _ => panic!("expected a mine"),
    }
    state.simulate(1);
    match state.structure(0) {
        Structure::OreMine(m) => assert_eq!((m.cooldown, m.power), (2, 0)),
        _ => panic!("expected a mine"),
    }
}

#[test]
fn items_never_overlap_after_ticks() {
    let mut state = world_with(16, &[], Config::standard());
    for x in 2..8 {
        assert!(state.place(0, pos(x, 3)));
    }
    for x in 2..8 {
        state.new_object(x, 3, ItemType::IronOre).unwrap();
    }
    for _ in 0..10 {
        state.simulate(1);
        let n = state.item_count();
        for a in 0..n {
            for b in 0..n {
                if a != b {
                    let (p, q) = (state.item(a), state.item(b));
                    assert!((p.x - q.x).abs() >= 8 || (p.y - q.y).abs() >= 8);
                }
            }
        }
    }
}
