use vstd::prelude::*;
use crate::inventory::ItemType;
use crate::quests::{QuestLog, ObjectiveView, is_new_quest_log, is_initial_quest};
use crate::dialogue::{Dialogue, ChoiceView, ActionView, is_dialogue_for};
use crate::world::{WorldMap, is_new_world};
use crate::alchemy::{AlchemyRecipe, is_known_recipe};

verus! {

/// An answer fits the game: a quest it starts exists in `log`, an Axii answer leads to the
/// node that Axii names, a gift is one of the two potions, and trading or taking leave ends
/// the conversation.
pub open spec fn answer_fits(c: ChoiceView, log: QuestLog) -> bool {
    &&& (c.action matches ActionView::StartQuest(q) ==> exists|k: int|
        0 <= k < log.quests@.len() && (#[trigger] log.quests@[k]).id@ == q)
    &&& (c.action matches ActionView::Axii(t) ==> c.next_node == Some(t))
    &&& (c.action matches ActionView::GiveItem(s) ==> s == "Jaskółka"@ || s == "Kot"@)
    &&& (c.action is EndDialogue || c.action is Trade ==> c.next_node is None)
}

/// Every answer of every conversation fits the game's quests and items.
pub proof fn answers_fit_the_game(d: Dialogue, npc_id: Seq<char>, log: QuestLog)
    requires
        is_dialogue_for(d, npc_id),
        is_new_quest_log(log),
    ensures
        forall|n: int, c: int|
            0 <= n < d.nodes@.len() && 0 <= c < d.nodes@[n].choices@.len() ==> answer_fits(
                (#[trigger] d.nodes@[n].choices@[c])@,
                log,
            ),
{
    assert(is_initial_quest(log.quests@[0], 0));
    assert(is_initial_quest(log.quests@[1], 1));
    assert(is_initial_quest(log.quests@[2], 2));
    assert(is_initial_quest(log.quests@[3], 3));
    assert(is_initial_quest(log.quests@[4], 4));
}

/// Every step of the game's quests can be met: a kill names one of the world's monsters and
/// a talk names one of its NPCs' conversations.
pub proof fn objectives_can_be_met(log: QuestLog, w: WorldMap)
    requires
        is_new_quest_log(log),
        is_new_world(w),
    ensures
        forall|i: int, s: int|
            0 <= i < log.quests@.len() && 0 <= s < log.quests@[i].steps@.len() ==> {
                let o = (#[trigger] log.quests@[i].steps@[s]).objective@;
                &&& (o matches ObjectiveView::KillMonster(n) ==> exists|m: int|
                    0 <= m < w.monsters@.len() && (#[trigger] w.monsters@[m]).name@ == n)
                &&& (o matches ObjectiveView::TalkToNpc(id) ==> exists|k: int|
                    0 <= k < w.npcs@.len() && (#[trigger] w.npcs@[k]).dialogue_id@ == id)
            },
{
    assert forall|i: int, s: int|
        0 <= i < log.quests@.len() && 0 <= s < log.quests@[i].steps@.len() implies {
            let o = (#[trigger] log.quests@[i].steps@[s]).objective@;
            &&& (o matches ObjectiveView::KillMonster(n) ==> exists|m: int|
                0 <= m < w.monsters@.len() && (#[trigger] w.monsters@[m]).name@ == n)
            &&& (o matches ObjectiveView::TalkToNpc(id) ==> exists|k: int|
                0 <= k < w.npcs@.len() && (#[trigger] w.npcs@[k]).dialogue_id@ == id)
        } by {
        assert(is_initial_quest(log.quests@[i], i));
        let ms = w.monsters@;
        assert(ms[0].name@ == "Ghul"@);
        assert(ms[2].name@ == "Utopiec"@);
        assert(ms[5].name@ == "Endriaga"@);
        assert(ms[8].name@ == "Wilkołak"@);
        assert(ms[9].name@ == "Bazyliszek"@);
        assert(ms[12].name@ == "Leszy"@);
        let ns = w.npcs@;
        assert(ns[0].dialogue_id@ == "soltys"@);
        assert(ns[2].dialogue_id@ == "zielarka"@);
        assert(ns[3].dialogue_id@ == "vesimir"@);
        assert(ns[4].dialogue_id@ == "elf"@);
    }
}

/// A new world: its NPCs carry the five known conversations, each opened by that NPC;
/// every monster is alive, unhurt and not stunned; no loot has been collected.
pub proof fn new_world_is_ready(w: WorldMap)
    requires
        is_new_world(w),
    ensures
        w.npcs@.map_values(|n: crate::world::Npc| n.dialogue_id@) == seq![
            "soltys"@,
            "handlarz"@,
            "zielarka"@,
            "vesimir"@,
            "elf"@,
        ],
        forall|k: int, d: Dialogue|
            0 <= k < w.npcs@.len() && #[trigger] is_dialogue_for(d, w.npcs@[k].dialogue_id@) ==> d.nodes@.len() > 0
                && d.nodes@[0].speaker@ == w.npcs@[k].name@,
        forall|m: int|
            0 <= m < w.monsters@.len() ==> {
                let x = #[trigger] w.monsters@[m];
                x.alive && x.health == x.max_health && x.stunned_turns == 0 && !x.slowed
            },
        forall|l: int| 0 <= l < w.loot@.len() ==> !(#[trigger] w.loot@[l]).collected,
{
    reveal_strlit("soltys");
    reveal_strlit("handlarz");
    reveal_strlit("zielarka");
    reveal_strlit("vesimir");
    reveal_strlit("elf");
    assert(w.npcs@.map_values(|n: crate::world::Npc| n.dialogue_id@) =~= seq![
        "soltys"@,
        "handlarz"@,
        "zielarka"@,
        "vesimir"@,
        "elf"@,
    ]);
    assert forall|m: int| 0 <= m < w.monsters@.len() implies {
        let x = #[trigger] w.monsters@[m];
        x.alive && x.health == x.max_health && x.stunned_turns == 0 && !x.slowed
    } by {
        assert(0 <= m < 13);
    }
    assert forall|l: int| 0 <= l < w.loot@.len() implies !(#[trigger] w.loot@[l]).collected by {
        assert(0 <= l < 12);
    }
    assert forall|k: int, d: Dialogue|
        0 <= k < w.npcs@.len() && #[trigger] is_dialogue_for(d, w.npcs@[k].dialogue_id@) implies d.nodes@.len() > 0
            && d.nodes@[0].speaker@ == w.npcs@[k].name@ by {
        assert(0 <= k < 5);
        let id = w.npcs@[k].dialogue_id@;
        assert("soltys"@[0] == 's' && "handlarz"@[0] == 'h' && "zielarka"@[0] == 'z' && "vesimir"@[0] == 'v'
            && "elf"@[0] == 'e');
        if k == 1 {
            assert(id[0] == 'h');
        } else if k == 2 {
            assert(id[0] == 'z');
        } else if k == 3 {
            assert(id[0] == 'v');
        } else if k == 4 {
            assert(id[0] == 'e');
        }
    }
}

/// A recipe fits the game: two different ingredients, each needed at least once and each
/// lying somewhere on the map of `w`, and one potion, oil or bomb as the result.
pub open spec fn recipe_fits(r: AlchemyRecipe, w: WorldMap) -> bool {
    &&& r.ingredients@.len() == 2
    &&& r.ingredients@[0].0@ != r.ingredients@[1].0@
    &&& forall|j: int| 0 <= j < 2 ==> {
        &&& (#[trigger] r.ingredients@[j]).1 >= 1
        &&& exists|l: int| 0 <= l < w.loot@.len() && (#[trigger] w.loot@[l]).item_name@ == r.ingredients@[j].0@
    }
    &&& r.result.quantity == 1
    &&& r.result.item_type == ItemType::Potion || r.result.item_type == ItemType::Oil
        || r.result.item_type == ItemType::Bomb
}

/// Every recipe fits the game, and no two recipes share a name.
pub proof fn recipes_fit_the_game(rs: Seq<AlchemyRecipe>, w: WorldMap)
    requires
        rs.len() == 9,
        forall|i: int| 0 <= i < 9 ==> is_known_recipe(#[trigger] rs[i], i),
        is_new_world(w),
    ensures
        forall|i: int| 0 <= i < rs.len() ==> recipe_fits(#[trigger] rs[i], w),
        forall|i: int, j: int| 0 <= i < j < rs.len() ==> (#[trigger] rs[i]).name@ != (#[trigger] rs[j]).name@,
{
    reveal_strlit("Jaskier");
    reveal_strlit("Berberysy");
    reveal_strlit("Piołun ziołowy");
    reveal_strlit("Trujący bluszcz");
    reveal_strlit("Oczy endriagi");
    reveal_strlit("Rdest");
    reveal_strlit("Tłuszcz niedźwiedzi");
    reveal_strlit("Saletra");
    reveal_strlit("Jaskółka");
    reveal_strlit("Piołun");
    reveal_strlit("Kot");
    reveal_strlit("Petri");
    reveal_strlit("Olej na nieumarłych");
    reveal_strlit("Olej na bestie");
    reveal_strlit("Olej na insektoidy");
    reveal_strlit("Samum");
    reveal_strlit("Księżycowy Pył");
    let ls = w.loot@;
    assert(ls[0].item_name@ == "Jaskier"@);
    assert(ls[2].item_name@ == "Berberysy"@);
    assert(ls[3].item_name@ == "Rdest"@);
    assert(ls[4].item_name@ == "Piołun ziołowy"@);
    assert(ls[6].item_name@ == "Trujący bluszcz"@);
    assert(ls[7].item_name@ == "Saletra"@);
    assert(ls[9].item_name@ == "Tłuszcz niedźwiedzi"@);
    assert(ls[10].item_name@ == "Oczy endriagi"@);
    assert forall|i: int| 0 <= i < rs.len() implies recipe_fits(#[trigger] rs[i], w) by {
        let r = rs[i];
        assert(is_known_recipe(r, i));
        assert(r.result@.quantity == r.result.quantity);
        assert(r.result@.item_type == r.result.item_type);
        assert(r.ingredients@[0].0@.len() != r.ingredients@[1].0@.len());
        assert forall|j: int| 0 <= j < 2 implies {
            &&& (#[trigger] r.ingredients@[j]).1 >= 1
            &&& exists|l: int| 0 <= l < w.loot@.len() && (#[trigger] w.loot@[l]).item_name@ == r.ingredients@[j].0@
        } by {
            assert(is_known_recipe(r, i));
        }
    }
    assert forall|i: int, j: int| 0 <= i < j < rs.len() implies (#[trigger] rs[i]).name@ != (#[trigger] rs[j]).name@ by {
        assert(is_known_recipe(rs[i], i));
        assert(is_known_recipe(rs[j], j));
        assert(rs[i].name@.len() != rs[j].name@.len() || rs[i].name@[0] != rs[j].name@[0]);
    }
}

} // verus!
