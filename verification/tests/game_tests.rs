use witcher_game::combat::{Combat, CombatState};
use witcher_game::game_state::{held_step, GameScreen, GameState, Key};
use witcher_game::player::Direction;
use witcher_game::quests::QuestStatus;

fn last(g: &GameState) -> &str {
    g.messages.last().unwrap().as_str()
}

#[test]
fn new_game_at_the_menu() {
    let g = GameState::new();
    assert_eq!(g.screen, GameScreen::MainMenu);
    assert!(!g.started);
    assert!(g.combat.is_none() && g.dialogue.is_none());
    assert_eq!(g.messages.len(), 3);
    assert_eq!(g.messages[0], "Witaj w świecie Wiedźmina!");
}

#[test]
fn menu_keys() {
    let mut g = GameState::new();
    assert!(!g.key_down_event(Key::W));
    assert_eq!(g.screen, GameScreen::MainMenu);
    assert!(!g.key_down_event(Key::Return));
    assert_eq!(g.screen, GameScreen::Exploration);
    assert!(g.started);
    let mut m = GameState::new();
    assert!(m.key_down_event(Key::Escape));
    assert!(g.key_down_event(Key::Escape));
}

#[test]
fn the_first_step_meets_the_bandit() {
    let mut g = GameState::new();
    g.key_down_event(Key::Return);
    g.try_move(1, 0);
    assert_eq!((g.player.x, g.player.y), (26, 18));
    assert_eq!(g.player.direction, Direction::Right);
    assert_eq!(g.screen, GameScreen::Combat(10));
    assert_eq!(last(&g), "Spotkanie z: Bandyta!");
    assert_eq!(g.combat.as_ref().unwrap().state, CombatState::PlayerTurn);
}

#[test]
fn walls_and_water_stop_the_player() {
    let mut g = GameState::new();
    g.player.x = 21;
    g.player.y = 5;
    g.try_move(1, 0);
    assert_eq!((g.player.x, g.player.y), (21, 5));
    assert_eq!(g.player.direction, Direction::Right);
    g.try_move(0, -1);
    assert_eq!((g.player.x, g.player.y), (21, 4));
    assert_eq!(g.player.direction, Direction::Up);
    assert_eq!(g.screen, GameScreen::MainMenu);
}

#[test]
fn picking_up_loot() {
    let mut g = GameState::new();
    g.player.x = 35;
    g.player.y = 4;
    g.try_move(1, 0);
    assert!(g.world.loot[0].collected);
    assert_eq!(last(&g), "Znaleziono: Jaskier!");
    let it = g.player.inventory.items.last().unwrap();
    assert_eq!(it.name, "Jaskier");
    assert_eq!(it.value, 5);
    g.player.x = 39;
    g.player.y = 7;
    g.try_move(1, 0);
    assert_eq!(g.player.inventory.items.len(), 7);
    assert_eq!(g.player.inventory.items[6].quantity, 2);
}

#[test]
fn interacting() {
    let mut g = GameState::new();
    g.screen = GameScreen::Exploration;
    g.key_down_event(Key::E);
    assert_eq!(last(&g), "Atakujesz: Bandyta!");
    assert_eq!(g.screen, GameScreen::Combat(10));
    let mut h = GameState::new();
    h.screen = GameScreen::Exploration;
    h.player.x = 0;
    h.player.y = 0;
    h.key_down_event(Key::E);
    assert_eq!(last(&h), "Nie ma tu nic do interakcji.");
    assert_eq!(h.screen, GameScreen::Exploration);
}

#[test]
fn talking_to_the_village_head_starts_the_main_quest() {
    let mut g = GameState::new();
    g.screen = GameScreen::Exploration;
    g.player.x = 6;
    g.player.y = 6;
    g.player.direction = Direction::Up;
    g.key_down_event(Key::E);
    assert_eq!(g.screen, GameScreen::Dialogue);
    assert_eq!(last(&g), "Rozmowa z: Sołtys Bogdan");
    assert_eq!(g.dialogue.as_ref().unwrap().current_node.as_deref(), Some("start"));
    g.key_down_event(Key::Key2);
    assert_eq!(last(&g), "Nowy quest przyjęty!");
    assert_eq!(g.quest_log.quests[0].status, QuestStatus::Active);
    assert_eq!(g.dialogue.as_ref().unwrap().current_node.as_deref(), Some("school"));
    g.key_down_event(Key::Key1);
    assert!(g.dialogue.is_none());
    assert_eq!(g.screen, GameScreen::Exploration);
    // talking to the village head was the first step
    assert_eq!(g.quest_log.quests[0].current_step, 1);
    assert_eq!(g.messages.len(), 5);
}

#[test]
fn finishing_a_quest_pays_its_reward() {
    let mut g = GameState::new();
    g.screen = GameScreen::Exploration;
    g.player.x = 6;
    g.player.y = 6;
    g.player.direction = Direction::Up;
    g.quest_log.quests[3].status = QuestStatus::Completed;
    g.key_down_event(Key::E);
    g.key_down_event(Key::Key3);
    assert_eq!(g.screen, GameScreen::Exploration);
    assert_eq!(g.player.level, 2);
    assert_eq!(g.player.experience, 200);
    assert_eq!(g.player.inventory.gold, 300);
    assert_eq!(g.quest_log.quests[3].experience_reward, 0);
    let n = g.messages.len();
    assert_eq!(g.messages[n - 2], "Quest ukończony! +300 EXP, +200 złota");
    assert_eq!(g.messages[n - 1], "Awans na poziom 2!");
    // paid only once
    g.key_down_event(Key::E);
    g.key_down_event(Key::Key3);
    assert_eq!(g.player.inventory.gold, 300);
}

#[test]
fn dialogue_gifts_and_axii() {
    let mut g = GameState::new();
    g.screen = GameScreen::Exploration;
    g.player.x = 6;
    g.player.y = 9;
    g.player.direction = Direction::Up;
    g.key_down_event(Key::E);
    assert_eq!(last(&g), "Rozmowa z: Zielarka Bożena");
    g.key_down_event(Key::Key3);
    assert_eq!(last(&g), "Axii zadziałało!");
    assert_eq!(g.player.stamina, 80);
    g.key_down_event(Key::Key1);
    assert_eq!(last(&g), "Otrzymano: Kot!");
    let kot = g.player.inventory.items.last().unwrap();
    assert_eq!(kot.name, "Kot");
    assert_eq!(kot.health_restore, 20);
    assert_eq!(g.screen, GameScreen::Exploration);
    g.key_down_event(Key::E);
    g.key_down_event(Key::Escape);
    assert!(g.dialogue.is_none());
    assert_eq!(g.screen, GameScreen::Exploration);
}

#[test]
fn exploration_keys() {
    let mut g = GameState::new();
    g.screen = GameScreen::Exploration;
    g.key_down_event(Key::Key3);
    assert_eq!(g.player.active_sign, 2);
    assert_eq!(last(&g), "Aktywny znak: Quen");
    g.player.health = 3;
    g.key_down_event(Key::R);
    assert_eq!(g.player.health, 150);
    assert_eq!(last(&g), "Gerard odpoczywa... Zdrowie i wytrzymałość przywrócone.");
    g.key_down_event(Key::J);
    assert_eq!(g.screen, GameScreen::QuestLog);
    g.key_down_event(Key::J);
    assert_eq!(g.screen, GameScreen::Exploration);
    g.key_down_event(Key::I);
    assert_eq!(g.screen, GameScreen::Inventory);
    assert_eq!(g.inventory_selected, 0);
}

#[test]
fn inventory_screen() {
    let mut g = GameState::new();
    g.screen = GameScreen::Inventory;
    g.key_down_event(Key::Up);
    assert_eq!(g.inventory_selected, 0);
    g.key_down_event(Key::Down);
    assert_eq!(g.inventory_selected, 1);
    g.inventory_selected = 5;
    g.key_down_event(Key::Down);
    assert_eq!(g.inventory_selected, 5);
    g.inventory_selected = 0;
    g.key_down_event(Key::Return);
    assert_eq!(last(&g), "Założono: Stalowy miecz szkoły Dzika");
    g.inventory_selected = 3;
    g.player.health = 20;
    g.key_down_event(Key::Return);
    assert_eq!(last(&g), "Użyto: Jaskółka");
    assert_eq!(g.player.health, 70);
    assert_eq!(g.player.inventory.items[3].quantity, 1);
    g.key_down_event(Key::Return);
    assert_eq!(g.player.inventory.items.len(), 5);
    assert_eq!(g.inventory_selected, 3);
    g.inventory_selected = 4;
    g.key_down_event(Key::Return);
    assert_eq!(last(&g), "Nie można użyć: Samum");
    g.inventory_selected = 3;
    g.key_down_event(Key::Return);
    g.key_down_event(Key::Return);
    assert_eq!(g.player.inventory.items.len(), 4);
    g.key_down_event(Key::Escape);
    assert_eq!(g.screen, GameScreen::Exploration);
}

#[test]
fn potion_at_the_end_moves_the_selection_back() {
    let mut g = GameState::new();
    g.screen = GameScreen::Inventory;
    g.player.inventory.remove_item(5);
    g.player.inventory.remove_item(5);
    g.inventory_selected = 4;
    g.key_down_event(Key::Return);
    assert_eq!(g.player.inventory.items.len(), 4);
    assert_eq!(g.inventory_selected, 3);
}

#[test]
fn a_fight_through_the_keys() {
    let mut g = GameState::new();
    g.screen = GameScreen::Combat(0);
    g.combat = Some(Combat::new());
    g.key_down_event(Key::Key2);
    assert_eq!(g.player.active_sign, 1);
    g.key_down_event(Key::Q);
    assert_eq!(g.world.monsters[0].health, 27);
    assert_eq!(g.combat.as_ref().unwrap().state, CombatState::PlayerTurn);
    assert_eq!(g.combat.as_ref().unwrap().turn, 2);
    assert_eq!(g.player.health, 149);
    g.key_down_event(Key::E);
    assert_eq!(g.combat.as_ref().unwrap().state, CombatState::Victory);
    assert_eq!(g.player.stamina, 80);
    g.key_down_event(Key::Q);
    assert_eq!(g.combat.as_ref().unwrap().state, CombatState::Victory);
    g.key_down_event(Key::Return);
    assert!(g.combat.is_none());
    assert_eq!(g.screen, GameScreen::Exploration);
    assert_eq!(g.player.experience, 35);
    assert_eq!(g.player.inventory.gold, 108);
    assert_eq!(g.player.kills, 1);
    assert_eq!(last(&g), "Ghul pokonany! +35 EXP, +8 złota");
}

#[test]
fn potion_and_bomb_keys() {
    let mut g = GameState::new();
    g.screen = GameScreen::Combat(1);
    g.combat = Some(Combat::new());
    g.player.health = 50;
    g.key_down_event(Key::D);
    assert!(g.player.health >= 99);
    g.key_down_event(Key::F);
    // the bomb stuns, so the foe loses the turn that follows at once
    assert_eq!(g.world.monsters[1].stunned_turns, 0);
    assert_eq!(g.world.monsters[1].health, 46);
    assert_eq!(g.combat.as_ref().unwrap().log.messages.last().unwrap(), "Ghul jest oszołomiony i traci turę!");
    assert_eq!(g.player.inventory.items[5].quantity, 1);
}

#[test]
fn defeat_wakes_the_player_at_the_start() {
    let mut g = GameState::new();
    g.screen = GameScreen::Combat(9);
    let mut c = Combat::new();
    c.state = CombatState::Defeat;
    g.combat = Some(c);
    g.player.health = 0;
    g.player.x = 34;
    g.player.y = 32;
    g.key_down_event(Key::Q);
    assert_eq!(g.player.health, 0);
    g.key_down_event(Key::Return);
    assert_eq!((g.player.x, g.player.y), (25, 18));
    assert_eq!(g.player.health, 150);
    assert_eq!(g.screen, GameScreen::Exploration);
    assert_eq!(last(&g), "Gerard odzyskuje przytomność...");
}

#[test]
fn the_message_log_keeps_fifty() {
    let mut g = GameState::new();
    for i in 0..60 {
        g.add_message(format!("m{}", i));
    }
    assert_eq!(g.messages.len(), 50);
    assert_eq!(g.messages[0], "m10");
    assert_eq!(g.messages[49], "m59");
}

#[test]
fn game_over_starts_again() {
    let mut g = GameState::new();
    g.screen = GameScreen::GameOver;
    g.player.kills = 7;
    g.key_down_event(Key::Q);
    assert_eq!(g.screen, GameScreen::GameOver);
    g.key_down_event(Key::Return);
    assert_eq!(g.screen, GameScreen::Exploration);
    assert!(g.started);
    assert_eq!(g.player.kills, 0);
}

#[test]
fn a_new_game_is_within_limits() {
    let mut g = GameState::new();
    assert!(g.within_limits());
    g.key_down_event(Key::Return);
    assert!(g.within_limits());
}

#[test]
fn numbers_past_the_limit_are_refused() {
    let mut g = GameState::new();
    g.player.inventory.gold = 100001;
    assert!(!g.within_limits());
    g.player.inventory.gold = -100000;
    assert!(g.within_limits());
    g.player.level = -1;
    assert!(!g.within_limits());
    let mut g = GameState::new();
    g.world.monsters[3].attack = 200000;
    assert!(!g.within_limits());
    let mut g = GameState::new();
    g.world.tiles[5].pop();
    assert!(!g.within_limits());
    let mut g = GameState::new();
    g.screen = GameScreen::Combat(13);
    assert!(!g.within_limits());
    g.screen = GameScreen::Combat(12);
    assert!(g.within_limits());
    let mut g = GameState::new();
    g.quest_log.quests[0].experience_reward = -5;
    assert!(!g.within_limits());
    let mut g = GameState::new();
    g.player.inventory.items[0].quantity = 100001;
    assert!(!g.within_limits());
    let mut g = GameState::new();
    g.player.inventory.equipped_armor = Some(0);
    assert!(!g.within_limits());
}

#[test]
fn held_keys_pick_one_step() {
    assert_eq!(held_step(true, true, true, true), Some((0, -1)));
    assert_eq!(held_step(false, true, true, false), Some((0, 1)));
    assert_eq!(held_step(false, false, true, true), Some((-1, 0)));
    assert_eq!(held_step(false, false, false, true), Some((1, 0)));
    assert_eq!(held_step(false, false, false, false), None);
}

#[test]
fn slots_follow_their_entries_when_a_potion_is_drunk() {
    let mut g = GameState::new();
    g.screen = GameScreen::Inventory;
    // drink the two swallows at 3; then the armor at 2 is still worn
    g.inventory_selected = 3;
    g.key_down_event(Key::Return);
    g.key_down_event(Key::Return);
    assert_eq!(g.player.inventory.items.len(), 5);
    assert_eq!(g.player.inventory.equipped_armor, Some(2));
    // an oil after the potion: drinking the potion moves the oil's slot down with it
    g.player.inventory.add_item(witcher_game::inventory::Item::oil("Olej na nieumarłych", 8, 40));
    g.inventory_selected = 5;
    g.key_down_event(Key::Return);
    assert_eq!(g.player.inventory.active_oil, Some(5));
    g.inventory_selected = 3;
    g.key_down_event(Key::Return);
    assert_eq!(g.player.inventory.items.len(), 5);
    let oil = g.player.inventory.active_oil.unwrap();
    assert_eq!(oil, 4);
    assert_eq!(g.player.inventory.items[oil].name, "Olej na nieumarłych");
    assert_eq!(g.player.inventory.equipped_armor, Some(2));
}

#[test]
fn the_fight_screen_always_names_a_running_fight() {
    let mut g = GameState::new();
    g.key_down_event(Key::Return);
    g.try_move(1, 0);
    match g.screen {
        GameScreen::Combat(mi) => {
            assert!(g.combat.is_some());
            assert!(mi < g.world.monsters.len());
            assert_eq!(g.world.monsters[mi].name, "Bandyta");
        },
        _ => panic!("the step should start a fight"),
    }
    for key in [Key::Q, Key::Q, Key::Q, Key::Q, Key::Q, Key::Q, Key::Return] {
        g.key_down_event(key);
        if let GameScreen::Combat(mi) = g.screen {
            assert!(g.combat.is_some());
            assert!(mi < g.world.monsters.len());
        }
    }
    assert_eq!(g.screen, GameScreen::Exploration);
    assert!(g.combat.is_none());
}

#[test]
fn a_failed_axii_keeps_the_conversation_where_it_was() {
    let mut g = GameState::new();
    g.player.stamina = 10;
    let mut d = witcher_game::dialogue::get_dialogue("zielarka");
    d.start();
    g.dialogue = Some(d);
    g.screen = GameScreen::Dialogue;
    g.handle_dialogue_choice(2);
    assert_eq!(g.player.stamina, 10);
    assert_eq!(last(&g), "Za mało wytrzymałości na Axii!");
    assert_eq!(g.dialogue.as_ref().unwrap().current_node.as_deref(), Some("start"));
    assert_eq!(g.screen, GameScreen::Dialogue);
    // with enough stamina the same answer works and leads on
    g.player.stamina = 25;
    g.handle_dialogue_choice(2);
    assert_eq!(g.player.stamina, 5);
    assert_eq!(g.dialogue.as_ref().unwrap().current_node.as_deref(), Some("axii_success"));
}

#[test]
fn deciding_whether_keys_and_steps_can_be_handled() {
    let mut g = GameState::new();
    g.key_down_event(Key::Return);
    assert!(g.can_step(1, 0));
    assert!(g.key_can_be_handled(Key::E));
    g.player.x = i32::MAX;
    assert!(!g.can_step(1, 0));
    assert!(g.can_step(-1, 0));
    g.player.direction = Direction::Right;
    assert!(!g.key_can_be_handled(Key::E));
    assert!(g.key_can_be_handled(Key::R));
    let mut g = GameState::new();
    g.screen = GameScreen::Inventory;
    g.inventory_selected = 3;
    g.player.health = i32::MAX - 10;
    assert!(!g.key_can_be_handled(Key::Return));
    assert!(g.key_can_be_handled(Key::Down));
    g.player.health = 100;
    assert!(g.key_can_be_handled(Key::Return));
    assert!(g.player.attack_fits(false) && g.player.attack_fits(true) && g.player.defense_fits());
    assert_eq!(g.player.attack_power(false), 49);
    g.player.strength = i32::MAX / 2;
    assert!(!g.player.attack_fits(false));
    assert!(g.player.defense_fits());
}
