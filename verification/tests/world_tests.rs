use witcher_game::world::{rand_simple, TileType, WorldMap};

#[test]
fn map_layout() {
    let w = WorldMap::new();
    assert_eq!((w.width, w.height), (60, 40));
    assert_eq!(w.tiles.len(), 40);
    assert!(w.tiles.iter().all(|r| r.len() == 60));
    let cases = [
        (22, 18, TileType::Bridge),
        (23, 19, TileType::Bridge),
        (22, 5, TileType::Water),
        (23, 39, TileType::Water),
        (8, 9, TileType::Door),
        (3, 3, TileType::Wall),
        (5, 5, TileType::Building),
        (8, 12, TileType::Road),
        (33, 28, TileType::Door),
        (28, 30, TileType::Mountain),
        (30, 30, TileType::Cave),
        (50, 26, TileType::Door),
        (45, 27, TileType::Wall),
        (50, 30, TileType::Building),
        (30, 0, TileType::Road),
        (0, 18, TileType::Road),
        (0, 0, TileType::Grass),
        (35, 1, TileType::Forest),
        (36, 1, TileType::Grass),
        (2, 24, TileType::Swamp),
        (8, 28, TileType::Water),
        (60, 0, TileType::Wall),
        (0, 40, TileType::Wall),
    ];
    for (x, y, t) in cases.iter() {
        assert_eq!(w.get_tile(*x, *y), *t, "({}, {})", x, y);
    }
}

#[test]
fn scatter() {
    assert_eq!(rand_simple(35, 1), 6);
    assert_eq!(rand_simple(8, 28), 0);
    assert_eq!(rand_simple(0, 0), 0);
}

#[test]
fn walking() {
    let w = WorldMap::new();
    assert!(w.is_walkable(25, 18));
    assert!(!w.is_walkable(22, 5));
    assert!(w.is_walkable(-1, 18));
    assert!(!w.is_walkable(60, 0));
    assert!(!w.is_walkable(0, 40));
    assert!(TileType::Door.is_walkable());
    assert!(!TileType::Mountain.is_walkable());
}

#[test]
fn people_monsters_and_loot() {
    let mut w = WorldMap::new();
    assert_eq!(w.npcs.len(), 5);
    assert_eq!(w.monsters.len(), 13);
    assert_eq!(w.loot.len(), 12);
    assert_eq!(w.npcs[3].dialogue_id, "vesimir");
    assert!(w.npcs[2].quest_giver && w.npcs[2].merchant);
    assert_eq!(w.monsters[12].name, "Leszy");
    assert_eq!(w.monsters[12].level, 6);
    assert_eq!(w.find_monster_at(38, 10, 2), Some(0));
    assert_eq!(w.find_monster_at(39, 11, 2), Some(0));
    assert_eq!(w.find_monster_at(40, 10, 2), None);
    w.monsters[0].alive = false;
    assert_eq!(w.find_monster_at(38, 10, 2), None);
    assert_eq!(w.find_npc_at(6, 5, 2), Some(0));
    assert_eq!(w.find_npc_at(6, 7, 2), Some(2));
    assert_eq!(w.find_loot_at(36, 4, 1), Some(0));
    w.loot[0].collected = true;
    assert_eq!(w.find_loot_at(36, 4, 1), None);
}

#[test]
fn location_names() {
    let w = WorldMap::new();
    assert_eq!(w.location_name(5, 5), "Wioska Rumia");
    assert_eq!(w.location_name(13, 9), "Wioska Rumia");
    assert_eq!(w.location_name(40, 5), "Mroczny Las");
    assert_eq!(w.location_name(10, 30), "Bagno");
    assert_eq!(w.location_name(30, 30), "Jaskinia");
    assert_eq!(w.location_name(50, 30), "Zamek");
    assert_eq!(w.location_name(25, 18), "Dzicz");
    assert_eq!(w.location_name(-5, 5), "Dzicz");
}
