use witcher_game::alchemy::AlchemyRecipe;
use witcher_game::dialogue::{get_dialogue, DialogueAction};
use witcher_game::inventory::ItemType;
use witcher_game::quests::{QuestLog, QuestObjective};
use witcher_game::world::WorldMap;

const NPC_IDS: [&str; 5] = ["soltys", "handlarz", "zielarka", "vesimir", "elf"];

#[test]
fn every_answer_fits_the_game() {
    let log = QuestLog::new();
    for id in NPC_IDS.iter().chain(["nobody"].iter()) {
        let d = get_dialogue(id);
        for node in &d.nodes {
            for c in &node.choices {
                match &c.action {
                    DialogueAction::StartQuest(q) => assert!(log.quests.iter().any(|x| &x.id == q)),
                    DialogueAction::Axii(t) => assert_eq!(c.next_node.as_ref(), Some(t)),
                    DialogueAction::GiveItem(s) => assert!(s == "Jaskółka" || s == "Kot"),
                    DialogueAction::EndDialogue | DialogueAction::Trade => assert!(c.next_node.is_none()),
                    _ => {},
                }
            }
        }
    }
}

#[test]
fn every_objective_names_a_monster_or_an_npc() {
    let log = QuestLog::new();
    let w = WorldMap::new();
    for q in &log.quests {
        for s in &q.steps {
            match &s.objective {
                QuestObjective::KillMonster(n) => assert!(w.monsters.iter().any(|m| &m.name == n)),
                QuestObjective::TalkToNpc(id) => assert!(w.npcs.iter().any(|p| &p.dialogue_id == id)),
                _ => {},
            }
        }
    }
}

#[test]
fn a_new_world_is_ready() {
    let w = WorldMap::new();
    let ids: Vec<&str> = w.npcs.iter().map(|n| n.dialogue_id.as_str()).collect();
    assert_eq!(ids, NPC_IDS.to_vec());
    for n in &w.npcs {
        assert_eq!(get_dialogue(&n.dialogue_id).nodes[0].speaker, n.name);
    }
    assert!(w.monsters.iter().all(|m| m.alive && m.health == m.max_health && m.stunned_turns == 0 && !m.slowed));
    assert!(w.loot.iter().all(|l| !l.collected));
}

#[test]
fn every_recipe_fits_the_game() {
    let w = WorldMap::new();
    let rs = AlchemyRecipe::all_recipes();
    for r in &rs {
        assert_eq!(r.ingredients.len(), 2);
        assert_ne!(r.ingredients[0].0, r.ingredients[1].0);
        for (name, q) in &r.ingredients {
            assert!(*q >= 1);
            assert!(w.loot.iter().any(|l| &l.item_name == name));
        }
        assert_eq!(r.result.quantity, 1);
        assert!(matches!(r.result.item_type, ItemType::Potion | ItemType::Oil | ItemType::Bomb));
    }
    for i in 0..rs.len() {
        for j in i + 1..rs.len() {
            assert_ne!(rs[i].name, rs[j].name);
        }
    }
}
