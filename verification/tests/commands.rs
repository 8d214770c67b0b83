use royale_engine::geom::Position;
use royale_engine::text::i32_string;
use royale_engine::world::{
    ConstructionSite, GameState, Owner, Site, StructureType, Unit, UnitType,
};

fn site(site_id: i32, x: i32, y: i32) -> Site {
    Site {
        site_id,
        position: Position { x, y },
        radius: 30,
    }
}

fn overlay(site_id: i32, structure_type: StructureType, owner: Owner, param_2: i32) -> ConstructionSite {
    ConstructionSite {
        site_id,
        structure_type,
        owner,
        ignore_1: -1,
        ignore_2: -1,
        param_1: 0,
        param_2,
    }
}

fn queen_at(x: i32, y: i32) -> Unit {
    Unit {
        position: Position { x, y },
        owner: Owner::Allied,
        unit_type: UnitType::Queen,
        health: 100,
    }
}

fn state(
    sites: Vec<Site>,
    construction_sites: Vec<ConstructionSite>,
    units: Vec<Unit>,
    target: Option<i32>,
) -> GameState {
    GameState {
        num_sites: sites.len() as i32,
        gold: 0,
        touched_site: -1,
        sites,
        construction_sites,
        num_units: units.len() as i32,
        units,
        target,
    }
}

#[test]
fn train_with_no_barracks_is_bare_train() {
    let s = state(
        vec![site(1, 10, 10)],
        vec![overlay(1, StructureType::NoStructure, Owner::Unclaimed, 0)],
        vec![queen_at(50, 50)],
        None,
    );
    assert_eq!(s.choose_what_to_train(), "TRAIN");
}

#[test]
fn train_lists_owned_barracks_in_order() {
    let s = state(
        vec![site(3, 10, 10), site(5, 20, 20), site(7, 30, 30)],
        vec![
            overlay(3, StructureType::Barrack, Owner::Allied, 0),
            overlay(5, StructureType::Barrack, Owner::Opponent, 0),
            overlay(7, StructureType::Barrack, Owner::Allied, 1),
        ],
        vec![queen_at(50, 50)],
        None,
    );
    assert_eq!(s.choose_what_to_train(), "TRAIN 3 7");
}

#[test]
fn build_archer_barracks_while_none_owned() {
    let mut s = state(
        vec![site(12, 55, 55)],
        vec![overlay(12, StructureType::NoStructure, Owner::Unclaimed, 0)],
        vec![queen_at(50, 50)],
        None,
    );
    assert_eq!(s.choose_what_to_build(), "BUILD 12 BARRACKS-ARCHER");
    assert_eq!(s.target, Some(12));
}

#[test]
fn build_archer_barracks_even_with_towers_and_knights() {
    let mut s = state(
        vec![site(1, 10, 10), site(2, 20, 20), site(9, 60, 45)],
        vec![
            overlay(1, StructureType::Barrack, Owner::Allied, 0),
            overlay(2, StructureType::Tower, Owner::Allied, 0),
            overlay(9, StructureType::NoStructure, Owner::Unclaimed, 0),
        ],
        vec![queen_at(50, 50)],
        None,
    );
    assert_eq!(s.choose_what_to_build(), "BUILD 9 BARRACKS-ARCHER");
}

#[test]
fn build_knight_barracks_after_first_archer() {
    let mut s = state(
        vec![site(4, 40, 40), site(9, 60, 45)],
        vec![
            overlay(4, StructureType::Barrack, Owner::Allied, 1),
            overlay(9, StructureType::NoStructure, Owner::Unclaimed, 0),
        ],
        vec![queen_at(50, 50)],
        None,
    );
    assert_eq!(s.choose_what_to_build(), "BUILD 9 BARRACKS-KNIGHT");
}

#[test]
fn build_tower_when_barracks_of_both_kinds_but_no_tower() {
    let mut s = state(
        vec![site(4, 40, 40), site(5, 45, 45), site(9, 60, 45)],
        vec![
            overlay(4, StructureType::Barrack, Owner::Allied, 1),
            overlay(5, StructureType::Barrack, Owner::Allied, 0),
            overlay(9, StructureType::NoStructure, Owner::Unclaimed, 0),
        ],
        vec![queen_at(50, 50)],
        None,
    );
    assert_eq!(s.choose_what_to_build(), "BUILD 9 TOWER");
}

#[test]
fn build_tower_on_balanced_barracks_at_the_cap() {
    let mut s = state(
        vec![
            site(1, 10, 10),
            site(2, 20, 20),
            site(3, 30, 30),
            site(4, 40, 40),
            site(5, 45, 45),
            site(9, 60, 45),
        ],
        vec![
            overlay(1, StructureType::Barrack, Owner::Allied, 1),
            overlay(2, StructureType::Barrack, Owner::Allied, 1),
            overlay(3, StructureType::Barrack, Owner::Allied, 0),
            overlay(4, StructureType::Barrack, Owner::Allied, 0),
            overlay(5, StructureType::Tower, Owner::Allied, 0),
            overlay(9, StructureType::NoStructure, Owner::Unclaimed, 0),
        ],
        vec![queen_at(50, 50)],
        None,
    );
    assert_eq!(s.choose_what_to_build(), "BUILD 9 TOWER");
}

#[test]
fn build_tower_on_balanced_barracks_under_the_cap() {
    let mut s = state(
        vec![site(4, 40, 40), site(5, 45, 45), site(6, 48, 48), site(9, 60, 45)],
        vec![
            overlay(4, StructureType::Barrack, Owner::Allied, 1),
            overlay(5, StructureType::Barrack, Owner::Allied, 0),
            overlay(6, StructureType::Tower, Owner::Allied, 0),
            overlay(9, StructureType::NoStructure, Owner::Unclaimed, 0),
        ],
        vec![queen_at(50, 50)],
        None,
    );
    assert_eq!(s.choose_what_to_build(), "BUILD 9 TOWER");
}

#[test]
fn target_update_is_idempotent_while_target_qualifies() {
    let mut s = state(
        vec![site(2, 900, 900), site(6, 55, 55)],
        vec![
            overlay(2, StructureType::NoStructure, Owner::Unclaimed, 0),
            overlay(6, StructureType::NoStructure, Owner::Unclaimed, 0),
        ],
        vec![queen_at(50, 50)],
        Some(2),
    );
    let first = s.update_target();
    assert_eq!(first, 2);
    let second = s.update_target();
    assert_eq!(second, first);
    assert_eq!(s.target, Some(2));
}

#[test]
fn stale_target_is_recomputed_to_nearest_site() {
    let mut s = state(
        vec![site(2, 900, 900), site(6, 55, 55)],
        vec![
            overlay(2, StructureType::NoStructure, Owner::Unclaimed, 0),
            overlay(6, StructureType::NoStructure, Owner::Unclaimed, 0),
        ],
        vec![queen_at(50, 50)],
        Some(4),
    );
    let picked = s.update_target();
    assert_eq!(picked, 6);
    let again = s.update_target();
    assert_eq!(again, 6);
}

#[test]
fn no_unclaimed_site_falls_back_to_zero() {
    let mut s = state(
        vec![site(2, 900, 900)],
        vec![overlay(2, StructureType::Tower, Owner::Opponent, 0)],
        vec![queen_at(50, 50)],
        None,
    );
    assert_eq!(s.update_target(), 0);
}

#[test]
fn unclaimed_site_with_structure_is_no_candidate() {
    // a row whose owner is Unclaimed but which carries a structure is
    // not construction-free, so it cannot become the target
    let mut s = state(
        vec![site(2, 55, 55)],
        vec![overlay(2, StructureType::Tower, Owner::Unclaimed, 0)],
        vec![queen_at(50, 50)],
        None,
    );
    assert!(s.get_sites_id_without_construction().is_empty());
    assert_eq!(s.update_target(), 0);
}

#[test]
fn wire_codes_decode_and_reject() {
    assert_eq!(Owner::from_code(-1), Some(Owner::Unclaimed));
    assert_eq!(Owner::from_code(0), Some(Owner::Allied));
    assert_eq!(Owner::from_code(1), Some(Owner::Opponent));
    assert_eq!(Owner::from_code(2), None);
    assert_eq!(StructureType::from_code(-1), Some(StructureType::NoStructure));
    assert_eq!(StructureType::from_code(1), Some(StructureType::Tower));
    assert_eq!(StructureType::from_code(2), Some(StructureType::Barrack));
    assert_eq!(StructureType::from_code(0), None);
    assert_eq!(UnitType::from_code(-1), Some(UnitType::Queen));
    assert_eq!(UnitType::from_code(0), Some(UnitType::Knight));
    assert_eq!(UnitType::from_code(1), Some(UnitType::Bowman));
    assert_eq!(UnitType::from_code(2), Some(UnitType::Giant));
    assert_eq!(UnitType::from_code(3), None);
}

#[test]
fn decimal_rendering_of_ids() {
    assert_eq!(i32_string(0), "0");
    assert_eq!(i32_string(7), "7");
    assert_eq!(i32_string(42), "42");
    assert_eq!(i32_string(-42), "-42");
    assert_eq!(i32_string(2147483647), "2147483647");
    assert_eq!(i32_string(-2147483648), "-2147483648");
}
