use witcher_game::combat::{Combat, CombatAction, CombatLog, CombatState};
use witcher_game::monsters::Monster;
use witcher_game::player::Player;

fn last(c: &Combat) -> String {
    c.log.messages.last().unwrap().clone()
}

#[test]
fn new_combat() {
    let c = Combat::new();
    assert_eq!(c.state, CombatState::PlayerTurn);
    assert_eq!(c.turn, 1);
    assert_eq!(c.log.messages, vec!["=== WALKA ROZPOCZĘTA ===".to_string()]);
    assert!(!c.player_dodging && !c.player_parrying);
}

#[test]
fn log_last_messages() {
    let mut log = CombatLog::new();
    assert!(log.last_messages(3).is_empty());
    log.add("a".to_string());
    log.add("b".to_string());
    log.add("c".to_string());
    let l: Vec<String> = log.last_messages(2).into_iter().cloned().collect();
    assert_eq!(l, vec!["b".to_string(), "c".to_string()]);
    assert_eq!(log.last_messages(10).len(), 3);
    assert_eq!(log.last_messages(0).len(), 0);
}

#[test]
fn sword_fight_to_victory() {
    let mut c = Combat::new();
    let mut p = Player::new();
    let mut g = Monster::ghul(38, 10, 1);
    c.execute_player_action(CombatAction::AttackSteel, &mut p, &mut g);
    assert_eq!(g.health, 27);
    assert_eq!(last(&c), "Gerard atakuje Ghul stalowym mieczem! 48 obrażeń.");
    assert_eq!(c.state, CombatState::EnemyTurn);
    c.execute_enemy_turn(&mut p, &mut g);
    assert_eq!(last(&c), "Ghul atakuje Gerarda! 1 obrażeń.");
    assert_eq!(p.health, 149);
    assert_eq!(c.state, CombatState::PlayerTurn);
    assert_eq!(c.turn, 2);
    c.execute_player_action(CombatAction::AttackSilver, &mut p, &mut g);
    assert_eq!(g.health, 0);
    assert!(!g.alive);
    assert_eq!(c.state, CombatState::Victory);
    let n = c.log.messages.len();
    assert_eq!(c.log.messages[n - 2], "Gerard atakuje Ghul srebrnym mieczem! 63 obrażeń.");
    assert_eq!(c.log.messages[n - 1], "=== Ghul POKONANY! ===");
}

#[test]
fn steel_is_better_against_people() {
    let mut c = Combat::new();
    let mut p = Player::new();
    let mut b = Monster::bandyta(25, 18, 1);
    // 49 + 5 against a person, defense 6 takes 2
    c.execute_player_action(CombatAction::AttackSteel, &mut p, &mut b);
    assert_eq!(b.health, 8);
    assert_eq!(c.state, CombatState::EnemyTurn);
}

#[test]
fn igni_against_its_weakness() {
    let mut c = Combat::new();
    let mut p = Player::new();
    let mut g = Monster::ghul(0, 0, 1);
    c.execute_player_action(CombatAction::UseSign(1), &mut p, &mut g);
    assert_eq!(p.stamina, 80);
    assert_eq!(g.health, 24);
    assert_eq!(last(&c), "Gerard używa Igni! Strumień ognia zadaje 51 obrażeń! SŁABOŚĆ!");
}

#[test]
fn aard_stuns_and_the_stunned_foe_loses_its_turn() {
    let mut c = Combat::new();
    let mut p = Player::new();
    let mut g = Monster::gryf(50, 3, 3);
    c.execute_player_action(CombatAction::UseSign(0), &mut p, &mut g);
    assert_eq!(g.health, 155);
    assert_eq!(g.stunned_turns, 2);
    assert_eq!(last(&c), "Gerard używa Aard! 25 obrażeń, wróg oszołomiony! SŁABOŚĆ!");
    let health = p.health;
    c.execute_enemy_turn(&mut p, &mut g);
    assert_eq!(last(&c), "Gryf jest oszołomiony i traci turę!");
    assert_eq!(p.health, health);
    assert_eq!(p.stamina, 86);
    assert_eq!(g.stunned_turns, 1);
    assert_eq!(c.turn, 2);
    assert_eq!(c.state, CombatState::PlayerTurn);
}

#[test]
fn axii_yrden_quen_messages() {
    let mut p = Player::new();
    let mut b = Monster::bandyta(0, 0, 1);
    let mut c = Combat::new();
    c.execute_player_action(CombatAction::UseSign(4), &mut p, &mut b);
    assert_eq!(b.stunned_turns, 3);
    assert_eq!(last(&c), "Gerard używa Axii! Wróg oszołomiony na 3 tury! SŁABOŚĆ!");

    let mut g = Monster::ghul(0, 0, 1);
    let mut c = Combat::new();
    c.execute_player_action(CombatAction::UseSign(3), &mut p, &mut g);
    assert!(g.slowed);
    assert_eq!(g.health, 69);
    assert_eq!(last(&c), "Gerard używa Yrden! Magiczny krąg spowalnia wroga. 6 obr.");
    c.execute_enemy_turn(&mut p, &mut g);
    assert_eq!(last(&c), "Ghul atakuje Gerarda! 1 obrażeń.");
    assert!(!g.slowed);

    let mut c = Combat::new();
    c.execute_player_action(CombatAction::UseSign(2), &mut p, &mut g);
    assert_eq!(last(&c), "Gerard używa Quen! Tarcza ochronna (40 pkt).");
    assert_eq!(p.quen_shield, 40);
}

#[test]
fn sign_without_stamina_keeps_the_turn() {
    let mut c = Combat::new();
    let mut p = Player::new();
    let mut g = Monster::ghul(0, 0, 1);
    p.stamina = 10;
    c.player_dodging = true;
    c.execute_player_action(CombatAction::UseSign(0), &mut p, &mut g);
    assert_eq!(last(&c), "Za mało wytrzymałości na znak!");
    assert_eq!(c.state, CombatState::PlayerTurn);
    assert!(!c.player_dodging);
    assert_eq!(g.health, 75);
    assert_eq!(p.stamina, 10);
}

#[test]
fn potions_and_bombs_in_a_fight() {
    let mut c = Combat::new();
    let mut p = Player::new();
    let mut g = Monster::ghul(0, 0, 1);
    p.health = 90;
    c.execute_player_action(CombatAction::UsePotion(3), &mut p, &mut g);
    assert_eq!(p.health, 140);
    assert_eq!(p.inventory.items[3].quantity, 1);
    assert_eq!(last(&c), "Gerard pije Jaskółka! +50 zdrowia, +0 wytrzymałości.");
    assert_eq!(c.state, CombatState::EnemyTurn);
    let n = c.log.messages.len();
    c.execute_player_action(CombatAction::UsePotion(0), &mut p, &mut g);
    assert_eq!(c.log.messages.len(), n);
    assert_eq!(c.state, CombatState::EnemyTurn);
    c.execute_player_action(CombatAction::UseBomb(5), &mut p, &mut g);
    assert_eq!(g.health, 46);
    assert_eq!(g.stunned_turns, 1);
    assert_eq!(p.inventory.items[5].quantity, 1);
    assert_eq!(last(&c), "Gerard rzuca Samum! 29 obrażeń, wróg oszołomiony!");
}

#[test]
fn dodge_and_parry() {
    let mut c = Combat::new();
    let mut p = Player::new();
    let mut g = Monster::ghul(0, 0, 1);
    c.execute_player_action(CombatAction::Dodge, &mut p, &mut g);
    assert!(c.player_dodging);
    assert_eq!(last(&c), "Gerard przygotowuje się do uniku.");
    c.execute_enemy_turn(&mut p, &mut g);
    assert_eq!(last(&c), "Gerard unika ataku Ghul!");
    assert_eq!(p.health, 150);
    assert_eq!(c.turn, 2);
    c.execute_player_action(CombatAction::Dodge, &mut p, &mut g);
    c.execute_enemy_turn(&mut p, &mut g);
    assert_eq!(last(&c), "Ghul trafia mimo uniku! 1 obrażeń (częściowe).");
    assert_eq!(p.health, 149);
    c.execute_player_action(CombatAction::Parry, &mut p, &mut g);
    assert!(c.player_parrying && !c.player_dodging);
    assert_eq!(last(&c), "Gerard przygotowuje się do parowania.");
    c.execute_enemy_turn(&mut p, &mut g);
    assert_eq!(last(&c), "Gerard paruje atak Ghul! Tylko 1 obrażeń.");
}

#[test]
fn defeat() {
    let mut c = Combat::new();
    let mut p = Player::new();
    let mut b = Monster::bazyliszek(34, 33, 5);
    p.health = 1;
    c.state = CombatState::EnemyTurn;
    c.execute_enemy_turn(&mut p, &mut b);
    assert_eq!(p.health, 0);
    assert_eq!(c.state, CombatState::Defeat);
    assert_eq!(c.turn, 1);
    let n = c.log.messages.len();
    assert_eq!(c.log.messages[n - 2], "Bazyliszek atakuje Gerarda! 46 obrażeń.");
    assert_eq!(c.log.messages[n - 1], "=== GERARD POLEGŁ! ===");
}
