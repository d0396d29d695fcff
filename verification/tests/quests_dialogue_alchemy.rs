use witcher_game::alchemy::{check_can_craft, AlchemyRecipe};
use witcher_game::dialogue::{get_dialogue, DialogueAction};
use witcher_game::inventory::ItemType;
use witcher_game::quests::{QuestLog, QuestObjective, QuestStatus};

#[test]
fn new_quest_log() {
    let log = QuestLog::new();
    let ids: Vec<&str> = log.quests.iter().map(|q| q.id.as_str()).collect();
    assert_eq!(ids, vec!["main_school", "contract_drowners", "contract_endriaga", "contract_basilisk", "contract_leshen"]);
    assert!(log.quests.iter().all(|q| q.status == QuestStatus::NotStarted && q.current_step == 0));
    assert_eq!(log.quests[0].steps.len(), 5);
    assert!(log.quests[0].is_main_quest);
    assert_eq!(log.quests[4].experience_reward, 400);
    assert_eq!(log.quests[4].gold_reward, 250);
    assert_eq!(log.active_quest_index, None);
    assert!(log.active_quests().is_empty());
    assert!(log.completed_quests().is_empty());
}

#[test]
fn drowner_contract_from_start_to_end() {
    let mut log = QuestLog::new();
    log.start_quest("contract_drowners");
    assert_eq!(log.quests[1].status, QuestStatus::Active);
    assert_eq!(log.active_quest_index, Some(1));
    log.start_quest("main_school");
    assert_eq!(log.quests[0].status, QuestStatus::Active);
    assert_eq!(log.active_quest_index, Some(1));
    log.check_talk_objective("soltys");
    assert_eq!(log.quests[0].current_step, 1);
    assert_eq!(log.quests[1].current_step, 1);
    log.check_kill_objective("Ghul");
    assert_eq!(log.quests[0].current_step, 2);
    assert_eq!(log.quests[1].current_step, 1);
    log.check_kill_objective("Utopiec");
    assert_eq!(log.quests[1].current_step, 2);
    log.check_talk_objective("soltys");
    assert_eq!(log.quests[1].status, QuestStatus::Completed);
    assert!(log.quests[1].steps.iter().all(|s| s.completed));
    let done: Vec<&str> = log.completed_quests().iter().map(|q| q.id.as_str()).collect();
    assert_eq!(done, vec!["contract_drowners"]);
    let active: Vec<&str> = log.active_quests().iter().map(|q| q.id.as_str()).collect();
    assert_eq!(active, vec!["main_school"]);
    match &log.quests[0].current_objective().unwrap().objective {
        QuestObjective::TalkToNpc(n) => assert_eq!(n, "elf"),
        _ => panic!("the main quest should wait for the elf"),
    }
    assert!(log.quests[1].current_objective().is_none());
    assert!(!log.quests[1].advance_step());
}

#[test]
fn a_completed_quest_stays_completed() {
    let mut log = QuestLog::new();
    log.start_quest("contract_drowners");
    log.check_talk_objective("soltys");
    log.check_kill_objective("Utopiec");
    log.check_talk_objective("soltys");
    assert_eq!(log.quests[1].status, QuestStatus::Completed);
    let step = log.quests[1].current_step;
    log.check_kill_objective("Utopiec");
    log.check_talk_objective("soltys");
    assert_eq!(log.quests[1].status, QuestStatus::Completed);
    assert_eq!(log.quests[1].current_step, step);
    assert_eq!(log.quests[1].experience_reward, 150);
}

#[test]
fn objectives_of_quests_not_started_are_ignored() {
    let mut log = QuestLog::new();
    log.check_talk_objective("soltys");
    assert!(log.quests.iter().all(|q| q.current_step == 0));
    log.start_quest("no_such_quest");
    assert_eq!(log.active_quest_index, None);
}

#[test]
fn advancing_the_last_step_completes() {
    let mut log = QuestLog::new();
    let q = &mut log.quests[3];
    q.status = QuestStatus::Active;
    assert!(q.advance_step());
    assert_eq!(q.status, QuestStatus::Completed);
    assert_eq!(q.current_step, 1);
}

#[test]
fn soltys_conversation() {
    let mut d = get_dialogue("soltys");
    assert_eq!(d.nodes.len(), 4);
    assert!(d.get_current_node().is_none());
    assert!(d.select_choice(0).is_none());
    d.start();
    assert_eq!(d.current_node.as_deref(), Some("start"));
    assert_eq!(d.get_current_node().unwrap().speaker, "Sołtys Bogdan");
    assert!(d.select_choice(5).is_none());
    assert_eq!(d.current_node.as_deref(), Some("start"));
    match d.select_choice(1) {
        Some(DialogueAction::StartQuest(id)) => assert_eq!(id, "main_school"),
        _ => panic!("the second answer starts the main quest"),
    }
    assert_eq!(d.current_node.as_deref(), Some("school"));
    assert!(matches!(d.select_choice(0), Some(DialogueAction::EndDialogue)));
    assert_eq!(d.current_node, None);
}

#[test]
fn other_conversations() {
    let mut h = get_dialogue("handlarz");
    h.start();
    assert!(matches!(h.select_choice(0), Some(DialogueAction::Trade)));
    let mut v = get_dialogue("vesimir");
    v.start();
    v.select_choice(0);
    assert!(matches!(v.select_choice(0), Some(DialogueAction::GiveExp(500))));
    let mut z = get_dialogue("zielarka");
    z.start();
    match z.select_choice(2) {
        Some(DialogueAction::Axii(n)) => assert_eq!(n, "axii_success"),
        _ => panic!("the third answer is Axii"),
    }
    match z.select_choice(0) {
        Some(DialogueAction::GiveItem(n)) => assert_eq!(n, "Kot"),
        _ => panic!("the charmed herbalist gives the Cat potion"),
    }
    let s = get_dialogue("kto?");
    assert_eq!(s.nodes.len(), 1);
    assert_eq!(s.nodes[0].speaker, "Nieznajomy");
    assert_eq!(s.nodes[0].text, "Nie mam nic do powiedzenia.");
}

#[test]
fn every_answer_leads_to_an_existing_node() {
    for npc in ["soltys", "handlarz", "zielarka", "vesimir", "elf", "x"] {
        let d = get_dialogue(npc);
        for n in &d.nodes {
            for c in &n.choices {
                if let Some(next) = &c.next_node {
                    assert!(d.nodes.iter().any(|m| &m.id == next), "{} -> {}", npc, next);
                }
            }
        }
    }
}

#[test]
fn recipes() {
    let r = AlchemyRecipe::all_recipes();
    assert_eq!(r.len(), 9);
    assert_eq!(r[0].name, "Jaskółka");
    assert_eq!(r[0].ingredients, vec![("Jaskier".to_string(), 2), ("Berberysy".to_string(), 1)]);
    assert_eq!(r[0].result.item_type, ItemType::Potion);
    assert_eq!(r[0].result.health_restore, 50);
    assert_eq!(r[3].result.name, "Eliksir Petriego");
    assert_eq!(r[4].result.item_type, ItemType::Oil);
    assert_eq!(r[8].name, "Księżycowy Pył");
    assert_eq!(r[8].result.attack_bonus, 25);
}

#[test]
fn crafting_needs_every_ingredient() {
    let r = &AlchemyRecipe::all_recipes()[0];
    let have = vec![("Jaskier".to_string(), 1), ("Berberysy".to_string(), 1), ("Jaskier".to_string(), 1)];
    assert!(check_can_craft(r, &have));
    let short = vec![("Jaskier".to_string(), 1), ("Berberysy".to_string(), 5)];
    assert!(!check_can_craft(r, &short));
    assert!(!check_can_craft(r, &[]));
    let mut more = have.clone();
    more.push(("Rdest".to_string(), 3));
    assert!(check_can_craft(r, &more));
}
