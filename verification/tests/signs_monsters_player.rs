use witcher_game::inventory::Item;
use witcher_game::monsters::{Monster, MonsterType};
use witcher_game::player::{Direction, Player};
use witcher_game::signs::{Sign, SignType};

#[test]
fn all_signs_in_order_with_costs() {
    let signs = Sign::all_signs();
    assert_eq!(signs.len(), 5);
    let expected = [
        (SignType::Aard, "Aard", 15, 20),
        (SignType::Igni, "Igni", 20, 35),
        (SignType::Quen, "Quen", 25, 40),
        (SignType::Yrden, "Yrden", 15, 15),
        (SignType::Axii, "Axii", 20, 10),
    ];
    for (s, (t, n, c, p)) in signs.iter().zip(expected.iter()) {
        assert_eq!(s.sign_type, *t);
        assert_eq!(s.name, *n);
        assert_eq!(s.stamina_cost, *c);
        assert_eq!(s.base_power, *p);
        assert_eq!(s.level, 1);
        assert_eq!(s.effective_power(), *p);
    }
    assert_eq!(signs[0].description, "Telekinetyczny podmuch odrzucający wrogów");
}

#[test]
fn effective_power_grows_five_per_level() {
    let mut s = Sign::all_signs().remove(1);
    s.level = 3;
    assert_eq!(s.effective_power(), 45);
    s.level = 0;
    assert_eq!(s.effective_power(), 30);
}

#[test]
fn sign_labels() {
    assert_eq!(SignType::Aard.label(), "Aard");
    assert_eq!(SignType::Axii.label(), "Axii");
    assert_eq!(SignType::Yrden.label(), "Yrden");
}

#[test]
fn item_descriptions_use_decimal_numbers() {
    assert_eq!(Item::steel_sword("Miecz", -5, 0).description, "Stalowy miecz - -5 pkt ataku");
    assert_eq!(Item::silver_sword("S", 120, 0).description, "Srebrny miecz - 120 pkt ataku na potwory");
    assert_eq!(Item::armor("Z", 0, 1).description, "Zbroja - 0 pkt obrony");
    assert_eq!(Item::oil("O", 15, 25).description, "Olej na broń - +15 do ataku");
    assert_eq!(Item::bomb("B", 2147483647, 0).description, "Bomba - 2147483647 pkt obrażeń obszarowych");
    assert_eq!(Item::potion("P", -2147483648, 7, 0).description, "Eliksir - przywraca -2147483648 zdrowia, 7 wytrzymałości");
    assert_eq!(Item::ingredient("Rdest", 5).description, "Składnik alchemiczny");
    let q = Item::quest_item("Klucz", "Stary klucz");
    assert_eq!(q.description, "Stary klucz");
    assert_eq!(q.value, 0);
    assert_eq!(q.to_string(), "Klucz");
}

#[test]
fn monster_kinds() {
    assert!(MonsterType::Bandyta.is_human());
    assert!(MonsterType::Dezercja.is_human());
    assert!(!MonsterType::Ghul.is_human());
    assert_eq!(MonsterType::Gryf.display_char(), 'Y');
    assert_eq!(MonsterType::Dezercja.display_char(), 'd');
}

#[test]
fn ghul_stats_and_damage() {
    let mut g = Monster::ghul(38, 10, 1);
    assert_eq!(g.name, "Ghul");
    assert_eq!((g.max_health, g.health, g.attack, g.defense), (75, 75, 15, 5));
    assert_eq!((g.experience_reward, g.gold_reward), (35, 8));
    assert_eq!(g.weakness_sign, SignType::Igni);
    assert_eq!(g.weakness_oil, "Olej na nieumarłych");
    assert_eq!((g.x, g.y), (38, 10));
    assert!(g.alive && g.is_alive());
    // a third of 5 is 1
    assert_eq!(g.take_damage(10), 9);
    assert_eq!(g.health, 66);
    // at least one point
    assert_eq!(g.take_damage(0), 1);
    assert_eq!(g.take_damage(-50), 1);
    assert_eq!(g.health, 64);
    assert_eq!(g.take_damage(1000), 999);
    assert_eq!(g.health, 0);
    assert!(!g.alive);
    assert!(!g.is_alive());
}

#[test]
fn negative_defense_third_rounds_toward_zero() {
    let mut m = Monster::bandyta(0, 0, -10);
    assert_eq!(m.defense, -5);
    // -5 / 3 == -1 in Rust, so 10 - (-1) = 11
    assert_eq!(m.take_damage(10), 11);
}

#[test]
fn monster_attack_power() {
    let mut w = Monster::wilkolak(33, 31, 4);
    assert_eq!(w.attack, 45);
    assert_eq!(w.attack_power(), 45);
    w.slowed = true;
    assert_eq!(w.attack_power(), 27);
    w.attack = 7;
    assert_eq!(w.attack_power(), 4);
    w.attack = -7;
    assert_eq!(w.attack_power(), -4);
    w.stunned_turns = 1;
    assert_eq!(w.attack_power(), 0);
}

#[test]
fn every_monster_constructor() {
    let ms = [
        (Monster::utopiec(0, 0, 2), "Utopiec", 100, 20, 8, 50, 14),
        (Monster::gryf(0, 0, 3), "Gryf", 180, 34, 16, 105, 40),
        (Monster::endriaga(0, 0, 2), "Endriaga", 110, 26, 12, 55, 16),
        (Monster::kikimora(0, 0, 2), "Kikimora", 126, 28, 14, 64, 20),
        (Monster::bazyliszek(0, 0, 5), "Bazyliszek", 350, 60, 30, 225, 100),
        (Monster::leszen(0, 0, 6), "Leszy", 460, 58, 36, 300, 120),
        (Monster::bandyta(0, 0, 1), "Bandyta", 60, 12, 6, 20, 20),
    ];
    for (m, n, h, a, d, e, g) in ms.iter() {
        assert_eq!(m.name, *n);
        assert_eq!((m.max_health, m.attack, m.defense, m.experience_reward, m.gold_reward), (*h, *a, *d, *e, *g));
        assert_eq!(m.stunned_turns, 0);
        assert!(!m.slowed);
    }
    assert_eq!(Monster::bandyta(0, 0, 1).weakness_oil, "");
}

#[test]
fn new_player() {
    let p = Player::new();
    assert_eq!(p.name, "Gerard z Rumii");
    assert_eq!(p.school, "Szkoła Dzika");
    assert_eq!((p.level, p.experience, p.exp_to_next_level), (1, 0, 100));
    assert_eq!((p.max_health, p.health, p.max_stamina, p.stamina), (150, 150, 100, 100));
    assert_eq!((p.strength, p.dexterity, p.intelligence), (12, 10, 8));
    assert_eq!((p.x, p.y), (25, 18));
    assert_eq!(p.direction, Direction::Down);
    assert_eq!(p.signs.len(), 5);
    assert_eq!(p.inventory.items.len(), 6);
    assert!(p.is_alive());
}

#[test]
fn player_attack_and_defense() {
    let p = Player::new();
    assert_eq!(p.attack_power(false), 24 + 10 + 15);
    assert_eq!(p.attack_power(true), 24 + 10 + 20);
    assert_eq!(p.defense_power(), 10 + 6 + 12);
}

#[test]
fn player_damage_and_quen() {
    let mut p = Player::new();
    // defense 28 -> half is 14
    assert_eq!(p.take_damage(30), 16);
    assert_eq!(p.health, 134);
    assert_eq!(p.take_damage(5), 1);
    assert_eq!(p.health, 133);
    let cast = p.use_sign(2).map(|s| s.sign_type);
    assert_eq!(cast, Some(SignType::Quen));
    assert_eq!(p.stamina, 75);
    assert_eq!(p.quen_shield, 40);
    assert_eq!(p.take_damage(44), 0);
    assert_eq!(p.quen_shield, 10);
    assert_eq!(p.health, 133);
    assert_eq!(p.take_damage(34), 10);
    assert_eq!(p.quen_shield, 0);
    assert_eq!(p.health, 123);
    assert_eq!(p.take_damage(1000), 986);
    assert_eq!(p.health, 0);
    assert!(!p.is_alive());
}

#[test]
fn signs_cost_stamina() {
    let mut p = Player::new();
    p.stamina = 14;
    assert!(p.use_sign(0).is_none());
    assert_eq!(p.stamina, 14);
    assert!(p.use_sign(7).is_none());
    p.stamina = 15;
    assert_eq!(p.use_sign(3).map(|s| s.name.clone()), Some("Yrden".to_string()));
    assert_eq!(p.stamina, 0);
    assert!(p.yrden_active);
}

#[test]
fn experience_and_level_up() {
    let mut p = Player::new();
    assert!(!p.gain_experience(99));
    assert_eq!(p.level, 1);
    assert!(p.gain_experience(251));
    assert_eq!(p.level, 2);
    // only one level at a time: 350 - 100 = 250 left
    assert_eq!(p.experience, 250);
    assert_eq!(p.exp_to_next_level, 200);
    assert_eq!((p.max_health, p.health), (170, 170));
    assert_eq!((p.max_stamina, p.stamina), (110, 110));
    assert_eq!((p.strength, p.dexterity, p.intelligence), (14, 11, 9));
}

#[test]
fn healing_rest_and_regeneration() {
    let mut p = Player::new();
    p.health = 10;
    p.heal(30);
    assert_eq!(p.health, 40);
    p.heal(500);
    assert_eq!(p.health, 150);
    p.stamina = 99;
    p.regenerate_tick();
    assert_eq!(p.stamina, 100);
    p.regenerate_tick();
    assert_eq!(p.stamina, 100);
    p.restore_stamina(-30);
    assert_eq!(p.stamina, 70);
    p.quen_shield = 5;
    p.yrden_active = true;
    p.health = 1;
    p.rest();
    assert_eq!((p.health, p.stamina, p.quen_shield, p.yrden_active), (150, 100, 0, false));
}
