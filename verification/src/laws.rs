use vstd::prelude::*;
use crate::numbers::{max_int, min_int, fits_i32, trunc_div};
use crate::inventory::{
    Inventory, Item, ItemType, after_removal, after_add, shifted_slot, first_named, is_stackable, lemma_first_named,
    ingredient_view, equipped, add_ok,
};
use crate::signs::SignType;
use crate::monsters::{Monster, MonsterType, monster_hit, spec_monster_attack};
use crate::player::{
    Player, spec_attack, after_experience, gain_experience_ok, took_damage, damage_taken, blow_after_defense, healed, refreshed, rested, leveled_up, regenerated,
};
use crate::combat::{
    Combat, CombatAction, CombatState, player_action_ok, player_action_result, enemy_turn_result, action_completes, monster_alive,
    hit_monster,
};
use crate::quests::{Quest, QuestLog, QuestStatus, ObjectiveView, advanced, start_result, started, checked_result, step_matches};
use crate::dialogue::{Dialogue, DialogueNode, DialogueAction, is_dialogue_for, opt_text, chosen_action};
use crate::alchemy::{AlchemyRecipe, can_craft, total_named};
use crate::game_state::{
    GameState, GameScreen, Key, logged, logged_all, texts, moved, walkable_at, rewarded, rewards, pays, unpaid,
    key_result, combat_key_result, sign_key, combat_action_for, with_fight, dialogue_choice_result, action_effect,
    talk_checked, action_messages, gift_view, answer_key, step_of, answered, rewards_ok, dialogue_choice_ok,
};
use crate::world::{TileType, first_loot, first_npc, lemma_first_monster};

verus! {

/// After an entry leaves the inventory, every slot that still names an entry names the
/// same item as before, and a slot is emptied only when its own entry left.
pub proof fn removal_keeps_equipment(old: Inventory, new: Inventory, index: int, slot: Option<usize>)
    requires
        0 <= index < old.items@.len(),
        old.items@[index].quantity <= 1,
        after_removal(old, new, index),
        slot matches Some(i) ==> i < old.items@.len(),
    ensures
        shifted_slot(slot, index as usize) matches Some(j) ==> (slot matches Some(i) && new.items@[j as int] == old.items@[i as int]),
        shifted_slot(slot, index as usize) is None ==> (slot matches Some(i) ==> i == index),
{
    assert(old.items@.len() == old.items.len());
    assert(new.items@ == old.items@.remove(index));
    if let Some(i) = slot {
        if (i as int) < index {
            assert(new.items@[i as int] == old.items@[i as int]);
        } else if (i as int) > index {
            assert(new.items@[i - 1] == old.items@[i as int]);
        }
    }
}

/// Removing the entry that was just appended gives the item back and the inventory as it was.
pub proof fn add_then_remove_last(old: Inventory, mid: Inventory, new: Inventory, item: Item)
    requires
        !is_stackable(item.item_type) || first_named(old.items@, item.name@, 0) >= old.items@.len(),
        item.quantity <= 1,
        after_add(old, mid, item),
        after_removal(mid, new, old.items@.len() as int),
        old.wf(),
    ensures
        new.items@ == old.items@,
        new.equipped_steel_sword == old.equipped_steel_sword,
        new.equipped_silver_sword == old.equipped_silver_sword,
        new.equipped_armor == old.equipped_armor,
        new.active_oil == old.active_oil,
        new.gold == old.gold,
{
    assert(old.items@.len() == old.items.len());
    assert(mid.items@ == old.items@.push(item));
    assert(mid.items@.remove(old.items@.len() as int) =~= old.items@);
    assert((old.items@.len() as int) as usize == old.items.len());
}

/// A blow always does at least one point of damage to a monster.
pub proof fn monster_hit_at_least_one(damage: int, defense: int)
    ensures
        monster_hit(damage, defense) >= 1,
{
}

/// A blow never heals a monster, never takes it below 0, and a monster at 0 is dead.
pub proof fn monster_blow_bounds(m: Monster, damage: int)
    requires
        m.health >= 0,
    ensures
        0 <= hit_monster(m, damage).health <= m.health,
        hit_monster(m, damage).health < m.health || m.health == 0,
        hit_monster(m, damage).health == 0 ==> !hit_monster(m, damage).alive,
{
}

/// A blow never heals the player, never takes them below 0, and never strengthens the
/// Quen shield; what it takes off health is exactly what got through.
pub proof fn player_blow_bounds(p: Player, damage: int)
    requires
        p.health >= 0,
        p.quen_shield >= 0,
    ensures
        0 <= took_damage(p, damage).health <= p.health,
        0 <= took_damage(p, damage).quen_shield <= p.quen_shield,
        damage_taken(p, damage) >= 0,
        took_damage(p, damage).health == max_int(p.health - damage_taken(p, damage), 0),
{
}

/// The player's move ends in victory exactly when the foe is no longer alive, and the
/// foe's turn follows otherwise (a sign the player cannot pay for changes neither).
pub proof fn player_move_outcome(c0: Combat, c1: Combat, a: CombatAction, p0: Player, p1: Player, m0: Monster, m1: Monster)
    requires
        player_action_result(c0, c1, a, p0, p1, m0, m1),
    ensures
        action_completes(a, p0) ==> (c1.state == CombatState::Victory <==> !monster_alive(m1)),
        action_completes(a, p0) ==> (c1.state == CombatState::EnemyTurn <==> monster_alive(m1)),
        !action_completes(a, p0) ==> c1.state == c0.state && p1 == p0 && m1 == m0,
        c1.turn == c0.turn,
{
}

/// The foe's turn ends in defeat exactly when the player has no health left; otherwise
/// the player moves next and the turn counter goes up by one.
pub proof fn enemy_turn_outcome(c0: Combat, c1: Combat, p0: Player, p1: Player, m0: Monster, m1: Monster)
    requires
        enemy_turn_result(c0, c1, p0, p1, m0, m1),
        p0.health > 0,
    ensures
        c1.state == CombatState::Defeat <==> p1.health <= 0,
        c1.state == CombatState::PlayerTurn <==> p1.health > 0,
        c1.state == CombatState::PlayerTurn ==> c1.turn == c0.turn + 1,
{
}

/// A stunned foe does no harm: the player's health and shield stay, and one stun turn is used up.
pub proof fn stunned_foe_is_harmless(c0: Combat, c1: Combat, p0: Player, p1: Player, m0: Monster, m1: Monster)
    requires
        enemy_turn_result(c0, c1, p0, p1, m0, m1),
        m0.stunned_turns > 0,
    ensures
        p1.health == p0.health,
        p1.quen_shield == p0.quen_shield,
        m1.stunned_turns == m0.stunned_turns - 1,
        m1.health == m0.health,
{
}

/// A fight's log only grows: both moves keep every earlier message in place.
pub proof fn combat_log_grows(c0: Combat, c1: Combat, c2: Combat, a: CombatAction, p0: Player, p1: Player, p2: Player,
    m0: Monster, m1: Monster, m2: Monster)
    requires
        player_action_result(c0, c1, a, p0, p1, m0, m1),
        enemy_turn_result(c1, c2, p1, p2, m1, m2),
    ensures
        c0.log@.len() <= c1.log@.len(),
        c2.log@.len() > c1.log@.len(),
        c2.log@.subrange(0, c0.log@.len() as int) == c0.log@,
{
    let l0 = c0.log@;
    assert(c1.log@.subrange(0, l0.len() as int) =~= l0);
    assert(c2.log@.subrange(0, c1.log@.len() as int) =~= c1.log@);
    assert(c2.log@.subrange(0, l0.len() as int) =~= l0);
}

/// Advancing a quest moves it one step on, keeps every finished step finished, and
/// completes the quest exactly when its last step is done.
pub proof fn quest_progress_is_monotone(q0: Quest, q1: Quest)
    requires
        advanced(q0, q1),
        q0.current_step < q0.steps@.len(),
        forall|k: int| 0 <= k < q0.current_step ==> (#[trigger] q0.steps@[k]).completed,
    ensures
        q1.current_step == q0.current_step + 1,
        forall|k: int| 0 <= k < q1.current_step ==> (#[trigger] q1.steps@[k]).completed,
        q1.steps@.len() == q0.steps@.len(),
        q1.current_step == q1.steps@.len() ==> q1.status == QuestStatus::Completed,
        q1.current_step < q1.steps@.len() ==> q1.status == q0.status,
{
    assert(q0.steps@.len() == q0.steps.len());
    assert forall|k: int| 0 <= k < q1.current_step implies (#[trigger] q1.steps@[k]).completed by {
        if k < q0.current_step {
            assert(q1.steps@[k] == q0.steps@[k]);
        }
    }
}

/// Starting a quest a second time changes nothing.
pub proof fn start_quest_is_idempotent(l0: QuestLog, l1: QuestLog, l2: QuestLog, id: Seq<char>)
    requires
        start_result(l0, l1, id),
        start_result(l1, l2, id),
    ensures
        l2.quests@ == l1.quests@,
        l2.active_quest_index == l1.active_quest_index,
{
    assert forall|i: int| 0 <= i < l1.quests@.len() implies !crate::quests::starts(l1.quests@, i, id) by {
        assert(started(l0.quests@[i], l1.quests@[i], id));
    }
    assert forall|i: int| 0 <= i < l1.quests@.len() implies l2.quests@[i] == l1.quests@[i] by {
        assert(started(l0.quests@[i], l1.quests@[i], id));
        assert(started(l1.quests@[i], l2.quests@[i], id));
        assert(!crate::quests::starts(l1.quests@, i, id));
    }
    assert(l2.quests@ =~= l1.quests@);
}

/// Whether every answer of the conversation that leads on leads to one of its nodes.
pub open spec fn dialogue_closed(d: Dialogue) -> bool {
    forall|n: int, c: int|
        0 <= n < d.nodes@.len() && 0 <= c < d.nodes@[n].choices@.len()
            && (#[trigger] d.nodes@[n].choices@[c]).next_node is Some ==> exists|m: int|
            0 <= m < d.nodes@.len() && (#[trigger] d.nodes@[m]).id@ == opt_text(d.nodes@[n].choices@[c].next_node)->0
}

/// No conversation of the game leads to a node it does not have.
pub proof fn dialogues_are_closed(d: Dialogue, npc_id: Seq<char>)
    requires
        is_dialogue_for(d, npc_id),
    ensures
        dialogue_closed(d),
{
    reveal_strlit("soltys");
    reveal_strlit("handlarz");
    reveal_strlit("zielarka");
    reveal_strlit("vesimir");
    reveal_strlit("elf");
    assert forall|n: int, c: int|
        0 <= n < d.nodes@.len() && 0 <= c < d.nodes@[n].choices@.len()
            && (#[trigger] d.nodes@[n].choices@[c]).next_node is Some implies exists|m: int|
            0 <= m < d.nodes@.len() && (#[trigger] d.nodes@[m]).id@ == opt_text(d.nodes@[n].choices@[c].next_node)->0 by {
        let t = opt_text(d.nodes@[n].choices@[c].next_node)->0;
        assert(d.nodes@[n].choices@[c]@.next_node == Some(t));
        if d.nodes@.len() > 0 && d.nodes@[0].id@ == t {
        } else if d.nodes@.len() > 1 && d.nodes@[1].id@ == t {
        } else if d.nodes@.len() > 2 && d.nodes@[2].id@ == t {
        } else if d.nodes@.len() > 3 && d.nodes@[3].id@ == t {
        } else {
            assert(false);
        }
    }
}

/// Total quantity named `name` in `a + b` is the sum of the totals.
pub proof fn total_of_concat(a: Seq<(String, i32)>, b: Seq<(String, i32)>, name: Seq<char>, n: int)
    requires
        0 <= n <= b.len(),
    ensures
        total_named(a + b, name, a.len() + n) == total_named(a, name, a.len() as int) + total_named(b, name, n),
    decreases n,
{
    if n == 0 {
        lemma_total_prefix(a + b, a, name, a.len() as int);
    } else {
        total_of_concat(a, b, name, n - 1);
        assert((a + b)[a.len() + n - 1] == b[n - 1]);
    }
}

proof fn lemma_total_prefix(ab: Seq<(String, i32)>, a: Seq<(String, i32)>, name: Seq<char>, n: int)
    requires
        0 <= n <= a.len(),
        a.len() <= ab.len(),
        forall|i: int| 0 <= i < a.len() ==> ab[i] == a[i],
    ensures
        total_named(ab, name, n) == total_named(a, name, n),
    decreases n,
{
    if n > 0 {
        lemma_total_prefix(ab, a, name, n - 1);
    }
}

proof fn lemma_total_nonneg(b: Seq<(String, i32)>, name: Seq<char>, n: int)
    requires
        0 <= n <= b.len(),
        forall|i: int| 0 <= i < b.len() ==> (#[trigger] b[i]).1 >= 0,
    ensures
        total_named(b, name, n) >= 0,
    decreases n,
{
    if n > 0 {
        lemma_total_nonneg(b, name, n - 1);
    }
}

/// Having more of the ingredients never makes a recipe uncraftable.
pub proof fn crafting_is_monotone(r: AlchemyRecipe, have: Seq<(String, i32)>, more: Seq<(String, i32)>)
    requires
        can_craft(r, have),
        forall|i: int| 0 <= i < more.len() ==> (#[trigger] more[i]).1 >= 0,
    ensures
        can_craft(r, have + more),
{
    assert forall|j: int| 0 <= j < r.ingredients@.len() implies total_named(have + more, (#[trigger] r.ingredients@[j]).0@,
        (have + more).len() as int) >= r.ingredients@[j].1 by {
        let name = r.ingredients@[j].0@;
        total_of_concat(have, more, name, more.len() as int);
        lemma_total_nonneg(more, name, more.len() as int);
    }
}

/// Health and stamina never rise above their maximum: healing, a potion's stamina, a rest,
/// a blow, a level-up and a point of stamina regained all keep `0 <= health <= max_health`
/// and `stamina <= max_stamina`.
pub proof fn vitals_stay_below_maximum(p: Player, amount: int, damage: int)
    requires
        0 <= p.health <= p.max_health,
        p.stamina <= p.max_stamina,
        p.quen_shield >= 0,
        amount >= 0,
        fits_i32(p.health + amount),
        fits_i32(p.stamina + amount),
        fits_i32(p.max_health + 20),
        fits_i32(p.max_stamina + 10),
    ensures
        0 <= healed(p, amount).health <= healed(p, amount).max_health,
        refreshed(p, amount).stamina <= refreshed(p, amount).max_stamina,
        rested(p).health == rested(p).max_health && rested(p).stamina == rested(p).max_stamina,
        0 <= took_damage(p, damage).health <= took_damage(p, damage).max_health,
        leveled_up(p).health == leveled_up(p).max_health && leveled_up(p).stamina == leveled_up(p).max_stamina,
        regenerated(p).stamina <= regenerated(p).max_stamina,
{
}

/// Checking a kill or a talk against the quests never undoes progress: no quest's step goes
/// back, and a completed quest stays completed.
pub proof fn quest_checks_never_undo_progress(l0: QuestLog, l1: QuestLog, name: Seq<char>, talk: bool, i: int)
    requires
        checked_result(l0, l1, name, talk),
        0 <= i < l0.quests@.len(),
    ensures
        l1.quests@[i].current_step >= l0.quests@[i].current_step,
        l0.quests@[i].status == QuestStatus::Completed ==> l1.quests@[i].status == QuestStatus::Completed,
        l1.quests@[i].experience_reward == l0.quests@[i].experience_reward,
        l1.quests@[i].gold_reward == l0.quests@[i].gold_reward,
{
    let q0 = l0.quests@[i];
    if step_matches(q0, name, talk) {
        assert(q0.steps@.len() == q0.steps.len());
        assert(advanced(q0, l1.quests@[i]));
    } else {
        assert(l1.quests@[i] == q0);
    }
}

/// A quest's reward is paid once: after the rewards are collected, collecting again pays
/// nothing and writes no message.
pub proof fn rewards_are_paid_once(g0: GameState, g1: GameState, g2: GameState)
    requires
        rewarded(g0, g1),
        rewarded(g1, g2),
    ensures
        g2.player == g1.player,
        g2.quest_log.quests@ == g1.quest_log.quests@,
        rewards(g1.quest_log.quests@, g1.player, g1.quest_log.quests@.len() as int).1.len() == 0,
{
    let qs = g1.quest_log.quests@;
    let n = qs.len() as int;
    assert forall|k: int| 0 <= k < n implies !pays(#[trigger] qs[k]) && unpaid(qs[k]) == qs[k] by {
        assert(qs[k] == unpaid(g0.quest_log.quests@[k]));
    }
    lemma_nothing_to_pay(qs, g1.player, n);
    assert(g2.quest_log.quests@ =~= qs);
}

proof fn lemma_nothing_to_pay(qs: Seq<Quest>, p: Player, n: int)
    requires
        0 <= n <= qs.len(),
        forall|k: int| 0 <= k < qs.len() ==> !pays(#[trigger] qs[k]),
    ensures
        rewards(qs, p, n).0 == p,
        rewards(qs, p, n).1.len() == 0,
    decreases n,
{
    if n > 0 {
        lemma_nothing_to_pay(qs, p, n - 1);
        assert(!pays(qs[n - 1]));
    }
}

/// Taking an entry out keeps every equipment slot naming an entry of its own kind.
pub proof fn removal_keeps_slots_proper(old: Inventory, new: Inventory, index: int)
    requires
        old.wf(),
        after_removal(old, new, index),
    ensures
        new.wf(),
{
    if 0 <= index < old.items@.len() && old.items@[index].quantity <= 1 {
        removal_keeps_equipment(old, new, index, old.equipped_steel_sword);
        removal_keeps_equipment(old, new, index, old.equipped_silver_sword);
        removal_keeps_equipment(old, new, index, old.equipped_armor);
        removal_keeps_equipment(old, new, index, old.active_oil);
    }
}

/// Adding an item keeps every equipment slot naming an entry of its own kind.
proof fn lemma_add_keeps_slots(old: Inventory, new: Inventory, item: Item)
    requires
        old.wf(),
        after_add(old, new, item),
    ensures
        new.wf(),
{
    lemma_first_named(old.items@, item.name@, 0);
    assert forall|i: int| 0 <= i < old.items@.len() implies (#[trigger] new.items@[i]).item_type == old.items@[i].item_type by {}
    if let Some(i) = old.equipped_steel_sword {
        assert(new.items@[i as int].item_type == old.items@[i as int].item_type);
    }
    if let Some(i) = old.equipped_silver_sword {
        assert(new.items@[i as int].item_type == old.items@[i as int].item_type);
    }
    if let Some(i) = old.equipped_armor {
        assert(new.items@[i as int].item_type == old.items@[i as int].item_type);
    }
    if let Some(i) = old.active_oil {
        assert(new.items@[i as int].item_type == old.items@[i as int].item_type);
    }
}

/// Paying rewards changes the player's gold and numbers, never the inventory's entries or slots.
proof fn lemma_rewards_keep_items(qs: Seq<Quest>, p: Player, n: int)
    requires
        0 <= n <= qs.len(),
    ensures
        rewards(qs, p, n).0.inventory == (Inventory { gold: rewards(qs, p, n).0.inventory.gold, ..p.inventory }),
    decreases n,
{
    if n > 0 {
        lemma_rewards_keep_items(qs, p, n - 1);
    }
}

/// A fighting key keeps the equipment slots proper.
proof fn lemma_combat_keeps_slots(g0: GameState, g1: GameState, key: Key)
    requires
        combat_key_result(g0, g1, key),
        g0.player.inventory.wf(),
    ensures
        g1.player.inventory.wf(),
{
    if let (GameScreen::Combat(mi), Some(c)) = (g0.screen, g0.combat) {
        let p = g0.player;
        let m = g0.world.monsters@[mi as int];
        if c.state == CombatState::PlayerTurn && sign_key(key) is None {
            if let Some(a) = combat_action_for(key, p) {
                let (c1, p1, m1) = choose|c1: Combat, p1: Player, m1: Monster| {
                    &&& #[trigger] player_action_result(c, c1, a, p, p1, m, m1)
                    &&& if c1.state == CombatState::EnemyTurn {
                        exists|c2: Combat, p2: Player, m2: Monster| #[trigger] enemy_turn_result(c1, c2, p1, p2, m1, m2)
                            && with_fight(g0, g1, mi as int, c2, p2, m2)
                    } else {
                        with_fight(g0, g1, mi as int, c1, p1, m1)
                    }
                };
                match a {
                    CombatAction::UsePotion(i) => {
                        if (i as int) < p.inventory.items@.len() && p.inventory.items@[i as int].item_type == ItemType::Potion {
                            removal_keeps_slots_proper(p.inventory, p1.inventory, i as int);
                        }
                    },
                    CombatAction::UseBomb(i) => {
                        if (i as int) < p.inventory.items@.len() && p.inventory.items@[i as int].item_type == ItemType::Bomb {
                            removal_keeps_slots_proper(p.inventory, p1.inventory, i as int);
                        }
                    },
                    _ => {},
                }
                if c1.state == CombatState::EnemyTurn {
                    let (c2, p2, m2) = choose|c2: Combat, p2: Player, m2: Monster| #[trigger] enemy_turn_result(c1, c2, p1, p2, m1, m2)
                        && with_fight(g0, g1, mi as int, c2, p2, m2);
                    assert(p2.inventory == p1.inventory);
                }
            }
        }
    }
}

/// An answer in a conversation keeps the equipment slots proper.
proof fn lemma_answer_keeps_slots(g0: GameState, g1: GameState, idx: int)
    requires
        dialogue_choice_result(g0, g1, idx),
        g0.player.inventory.wf(),
    ensures
        g1.player.inventory.wf(),
{
    if let Some(d0) = g0.dialogue {
        let g = GameState { dialogue: None, ..g0 };
        let a = chosen_action(d0, idx);
        if answered(d0, idx, g0.player).current_node is None {
            let (ga, gt) = choose|ga: GameState, gt: GameState| {
                &&& #[trigger] action_effect(g, ga, a)
                &&& #[trigger] talk_checked(ga, gt)
                &&& rewarded(gt, GameState { messages: gt.messages, screen: gt.screen, ..g1 })
                &&& g1.dialogue is None
                &&& g1.screen == GameScreen::Exploration
                &&& texts(g1.messages@) == logged_all(texts(g0.messages@), action_messages(g0.player, a) + rewards(
                    gt.quest_log.quests@, gt.player, gt.quest_log.quests@.len() as int).1)
            };
            lemma_effect_keeps_slots(g, ga, a);
            lemma_rewards_keep_items(gt.quest_log.quests@, gt.player, gt.quest_log.quests@.len() as int);
        } else {
            let ga = choose|ga: GameState| {
                &&& #[trigger] action_effect(g, ga, a)
                &&& g1 == (GameState { dialogue: Some(answered(d0, idx, g0.player)), messages: g1.messages, ..ga })
                &&& texts(g1.messages@) == logged_all(texts(g0.messages@), action_messages(g0.player, a))
            };
            lemma_effect_keeps_slots(g, ga, a);
        }
    }
}

proof fn lemma_effect_keeps_slots(g: GameState, ga: GameState, a: Option<DialogueAction>)
    requires
        action_effect(g, ga, a),
        g.player.inventory.wf(),
    ensures
        ga.player.inventory.wf(),
{
    if let Some(DialogueAction::GiveItem(n)) = a {
        let item = choose|item: Item| item@ == gift_view(n@) && #[trigger] after_add(g.player.inventory, ga.player.inventory, item);
        lemma_add_keeps_slots(g.player.inventory, ga.player.inventory, item);
    }
}

/// Every key keeps the equipment slots proper: each slot stays empty or names an inventory
/// entry of its own kind.
pub proof fn keys_keep_slots_proper(g0: GameState, g1: GameState, key: Key, quit: bool)
    requires
        key_result(g0, g1, key, quit),
        g0.player.inventory.wf(),
    ensures
        g1.player.inventory.wf(),
{
    match g0.screen {
        GameScreen::Combat(_) => lemma_combat_keeps_slots(g0, g1, key),
        GameScreen::Dialogue => {
            if let Some(i) = answer_key(key) {
                lemma_answer_keeps_slots(g0, g1, i as int);
            }
        },
        GameScreen::Inventory => {
            let idx = g0.inventory_selected as int;
            if key == Key::Return && idx < g0.player.inventory.items@.len()
                && g0.player.inventory.items@[idx].item_type == ItemType::Potion {
                removal_keeps_slots_proper(g0.player.inventory, g1.player.inventory, idx);
            }
        },
        _ => {},
    }
}

/// Every step keeps the equipment slots proper.
pub proof fn steps_keep_slots_proper(g0: GameState, g1: GameState, dx: int, dy: int)
    requires
        moved(g0, g1, dx, dy),
        g0.player.inventory.wf(),
    ensures
        g1.player.inventory.wf(),
{
    if walkable_at(g0.world, g0.player.x + dx, g0.player.y + dy) {
        if let Some(l) = first_loot(g0.world.loot@, g0.player.x + dx, g0.player.y + dy, 1, 0) {
            let item = choose|item: Item| item@ == ingredient_view(g0.world.loot@[l].item_name@, 5)
                && #[trigger] after_add(g0.player.inventory, g1.player.inventory, item);
            lemma_add_keeps_slots(g0.player.inventory, g1.player.inventory, item);
        }
    }
}

/// The fight screen always shows a fight with one of the world's monsters.
pub open spec fn fight_shown_properly(g: GameState) -> bool {
    g.screen matches GameScreen::Combat(mi) ==> g.combat is Some && mi < g.world.monsters@.len()
}

/// Every key keeps the fight screen naming an existing monster in a running fight.
pub proof fn keys_keep_fight_shown_properly(g0: GameState, g1: GameState, key: Key, quit: bool)
    requires
        key_result(g0, g1, key, quit),
        fight_shown_properly(g0),
    ensures
        fight_shown_properly(g1),
{
    let (dx, dy) = step_of(g0.player.direction);
    lemma_first_monster(g0.world.monsters@, g0.player.x + dx, g0.player.y + dy, 2, 0);
    if let GameScreen::Combat(mi) = g0.screen {
        if let Some(c) = g0.combat {
            let p = g0.player;
            let m = g0.world.monsters@[mi as int];
            if c.state == CombatState::PlayerTurn && sign_key(key) is None {
                if let Some(a) = combat_action_for(key, p) {
                    let (c1, p1, m1) = choose|c1: Combat, p1: Player, m1: Monster| {
                        &&& #[trigger] player_action_result(c, c1, a, p, p1, m, m1)
                        &&& if c1.state == CombatState::EnemyTurn {
                            exists|c2: Combat, p2: Player, m2: Monster| #[trigger] enemy_turn_result(c1, c2, p1, p2, m1, m2)
                                && with_fight(g0, g1, mi as int, c2, p2, m2)
                        } else {
                            with_fight(g0, g1, mi as int, c1, p1, m1)
                        }
                    };
                    if c1.state == CombatState::EnemyTurn {
                        let (c2, p2, m2) = choose|c2: Combat, p2: Player, m2: Monster| #[trigger] enemy_turn_result(c1, c2, p1, p2, m1, m2)
                            && with_fight(g0, g1, mi as int, c2, p2, m2);
                    }
                }
            }
        }
    }
    if g0.screen == GameScreen::Dialogue {
        if let (Some(i), Some(d0)) = (answer_key(key), g0.dialogue) {
            let g = GameState { dialogue: None, ..g0 };
            let a = chosen_action(d0, i as int);
            if answered(d0, i as int, g0.player).current_node is Some {
                let ga = choose|ga: GameState| {
                    &&& #[trigger] action_effect(g, ga, a)
                    &&& g1 == (GameState { dialogue: Some(answered(d0, i as int, g0.player)), messages: g1.messages, ..ga })
                    &&& texts(g1.messages@) == logged_all(texts(g0.messages@), action_messages(g0.player, a))
                };
                assert(ga.screen == g.screen);
            }
        }
    }
}

/// Every step keeps the fight screen naming an existing monster in a running fight.
pub proof fn steps_keep_fight_shown_properly(g0: GameState, g1: GameState, dx: int, dy: int)
    requires
        moved(g0, g1, dx, dy),
        fight_shown_properly(g0),
    ensures
        fight_shown_properly(g1),
{
    lemma_first_monster(g0.world.monsters@, g0.player.x + dx, g0.player.y + dy, 2, 0);
}

/// Gold the quests among the first `n` still owe: the gold reward of each that pays.
pub open spec fn owed_gold(qs: Seq<Quest>, n: int) -> int
    decreases n,
{
    if n <= 0 {
        0
    } else {
        owed_gold(qs, n - 1) + if pays(qs[n - 1]) { qs[n - 1].gold_reward as int } else { 0 }
    }
}

/// Gold the end of a conversation pays for quests: the gold reward in `qs0` of each quest
/// among the first `n` that `qs1` shows completed and that had experience to give in `qs0`.
pub open spec fn quest_gold(qs0: Seq<Quest>, qs1: Seq<Quest>, n: int) -> int
    decreases n,
{
    if n <= 0 {
        0
    } else {
        quest_gold(qs0, qs1, n - 1) + if qs1[n - 1].status == QuestStatus::Completed
            && qs0[n - 1].experience_reward > 0 {
            qs0[n - 1].gold_reward as int
        } else {
            0
        }
    }
}

/// Gold an answer's action gives.
pub open spec fn gift_gold(a: Option<DialogueAction>) -> int {
    match a {
        Some(DialogueAction::GiveGold(x)) => x as int,
        _ => 0,
    }
}

proof fn lemma_rewards_gold(qs: Seq<Quest>, p: Player, n: int)
    requires
        0 <= n <= qs.len(),
        rewards_ok(qs, p, n),
    ensures
        rewards(qs, p, n).0.inventory.gold == p.inventory.gold + owed_gold(qs, n),
    decreases n,
{
    if n > 0 {
        lemma_rewards_gold(qs, p, n - 1);
    }
}

proof fn lemma_same_owed(qs0: Seq<Quest>, qt: Seq<Quest>, q1: Seq<Quest>, n: int)
    requires
        0 <= n <= qs0.len(),
        qt.len() == qs0.len(),
        q1.len() == qs0.len(),
        forall|k: int| 0 <= k < qs0.len() ==> (#[trigger] qt[k]).experience_reward == qs0[k].experience_reward
            && qt[k].gold_reward == qs0[k].gold_reward && q1[k].status == qt[k].status,
    ensures
        owed_gold(qt, n) == quest_gold(qs0, q1, n),
    decreases n,
{
    if n > 0 {
        lemma_same_owed(qs0, qt, q1, n - 1);
        assert(qt[n - 1].experience_reward == qs0[n - 1].experience_reward);
    }
}

/// An answer's action changes no quest's rewards.
proof fn lemma_action_keeps_rewards(g: GameState, ga: GameState, a: Option<DialogueAction>, k: int)
    requires
        action_effect(g, ga, a),
        0 <= k < g.quest_log.quests@.len(),
    ensures
        ga.quest_log.quests@.len() == g.quest_log.quests@.len(),
        ga.quest_log.quests@[k].experience_reward == g.quest_log.quests@[k].experience_reward,
        ga.quest_log.quests@[k].gold_reward == g.quest_log.quests@[k].gold_reward,
{
    if let Some(DialogueAction::StartQuest(id)) = a {
        assert(started(g.quest_log.quests@[k], ga.quest_log.quests@[k], id@));
    }
}

/// Ending a conversation pays each completed quest once: afterwards no completed quest has a
/// reward left, and the gold grows by exactly the gold of the answer's action plus the gold
/// rewards of the quests that were paid.
pub proof fn ending_a_conversation_pays_quests_once(g0: GameState, g1: GameState, idx: int)
    requires
        dialogue_choice_ok(g0, idx),
        dialogue_choice_result(g0, g1, idx),
        g0.dialogue is Some,
        answered(g0.dialogue->0, idx, g0.player).current_node is None,
        forall|k: int| 0 <= k < g0.quest_log.quests@.len() ==> {
            let q = #[trigger] g0.quest_log.quests@[k];
            q.experience_reward >= 0 && (q.experience_reward == 0 ==> q.gold_reward == 0)
        },
    ensures
        g1.dialogue is None,
        g1.screen == GameScreen::Exploration,
        g1.quest_log.quests@.len() == g0.quest_log.quests@.len(),
        forall|k: int| 0 <= k < g1.quest_log.quests@.len() && (#[trigger] g1.quest_log.quests@[k]).status
            == QuestStatus::Completed ==> g1.quest_log.quests@[k].experience_reward == 0
            && g1.quest_log.quests@[k].gold_reward == 0,
        g1.player.inventory.gold == g0.player.inventory.gold + gift_gold(chosen_action(g0.dialogue->0, idx))
            + quest_gold(g0.quest_log.quests@, g1.quest_log.quests@, g0.quest_log.quests@.len() as int),
{
    let d0 = g0.dialogue->0;
    let g = GameState { dialogue: None, ..g0 };
    let a = chosen_action(d0, idx);
    let (ga, gt) = choose|ga: GameState, gt: GameState| {
        &&& #[trigger] action_effect(g, ga, a)
        &&& #[trigger] talk_checked(ga, gt)
        &&& rewarded(gt, GameState { messages: gt.messages, screen: gt.screen, ..g1 })
        &&& g1.dialogue is None
        &&& g1.screen == GameScreen::Exploration
        &&& texts(g1.messages@) == logged_all(texts(g0.messages@), action_messages(g0.player, a) + rewards(
            gt.quest_log.quests@, gt.player, gt.quest_log.quests@.len() as int).1)
    };
    let qs0 = g0.quest_log.quests@;
    let qt = gt.quest_log.quests@;
    let q1 = g1.quest_log.quests@;
    let n = qs0.len() as int;
    assert(ga.player.inventory.gold == g0.player.inventory.gold + gift_gold(a));
    assert(gt.player == ga.player);
    assert forall|k: int| 0 <= k < qs0.len() implies (#[trigger] qt[k]).experience_reward == qs0[k].experience_reward
        && qt[k].gold_reward == qs0[k].gold_reward && q1[k].status == qt[k].status by {
        lemma_action_keeps_rewards(g, ga, a, k);
        let qa = ga.quest_log.quests@[k];
        match first_npc(ga.world.npcs@, ga.player.x as int, ga.player.y as int, 3, 0) {
            Some(j) => {
                if step_matches(qa, ga.world.npcs@[j].dialogue_id@, true) {
                    assert(advanced(qa, qt[k]));
                } else {
                    assert(qt[k] == qa);
                }
            },
            None => {},
        }
        assert(q1[k] == unpaid(qt[k]));
    }
    lemma_rewards_gold(qt, gt.player, n);
    lemma_same_owed(qs0, qt, q1, n);
    assert forall|k: int| 0 <= k < q1.len() && (#[trigger] q1[k]).status == QuestStatus::Completed implies q1[k].experience_reward
        == 0 && q1[k].gold_reward == 0 by {
        assert(q1[k] == unpaid(qt[k]));
        assert(qt[k].experience_reward == qs0[k].experience_reward);
    }
}

/// Swords and foes: silver gives +10 against monsters and nothing against people (bandits
/// and deserters); steel gives +5 against people and nothing against monsters. The foe loses
/// what the blow does, less a third of its defense, at least 1, and never goes below 0.
pub proof fn silver_for_monsters_steel_for_people(
    c0: Combat,
    c1: Combat,
    silver: bool,
    p0: Player,
    p1: Player,
    m0: Monster,
    m1: Monster,
)
    requires
        player_action_result(
            c0,
            c1,
            if silver { CombatAction::AttackSilver } else { CombatAction::AttackSteel },
            p0,
            p1,
            m0,
            m1,
        ),
    ensures
        ({
            let person = m0.monster_type == MonsterType::Bandyta || m0.monster_type == MonsterType::Dezercja;
            let blow = if silver && !person {
                spec_attack(p0, true) + 10
            } else if !silver && person {
                spec_attack(p0, false) + 5
            } else {
                spec_attack(p0, silver)
            };
            &&& m1.health == max_int(m0.health - max_int(blow - trunc_div(m0.defense as int, 3), 1), 0)
            &&& m1.attack == m0.attack && m1.defense == m0.defense
            &&& p1 == p0
        }),
{
}

/// The foe's blow: an unguarded player takes the foe's full attack, a parrying one a third
/// of it (rounded toward zero), and a dodging one either nothing or half of it; a stunned
/// foe does not hit at all.
pub proof fn guard_shapes_the_foes_blow(c0: Combat, c1: Combat, p0: Player, p1: Player, m0: Monster, m1: Monster)
    requires
        enemy_turn_result(c0, c1, p0, p1, m0, m1),
    ensures
        m0.stunned_turns > 0 ==> p1.health == p0.health,
        m0.stunned_turns <= 0 && !c0.player_dodging && c0.player_parrying ==> p1.health == took_damage(
            p0,
            trunc_div(spec_monster_attack(m0), 3),
        ).health,
        m0.stunned_turns <= 0 && !c0.player_dodging && !c0.player_parrying ==> p1.health == took_damage(
            p0,
            spec_monster_attack(m0),
        ).health,
        m0.stunned_turns <= 0 && c0.player_dodging ==> p1.health == p0.health || p1.health == took_damage(
            p0,
            trunc_div(spec_monster_attack(m0), 2),
        ).health,
{
}

proof fn lemma_entry_counts(have: Seq<(String, i32)>, name: Seq<char>, n: int, k: int)
    requires
        0 <= k < n <= have.len(),
        have[k].0@ == name,
        forall|i: int| 0 <= i < have.len() ==> (#[trigger] have[i]).1 >= 0,
    ensures
        total_named(have, name, n) >= have[k].1,
    decreases n,
{
    if k < n - 1 {
        lemma_entry_counts(have, name, n - 1, k);
    } else {
        lemma_total_nonneg_prefix(have, name, n - 1);
    }
}

proof fn lemma_total_nonneg_prefix(have: Seq<(String, i32)>, name: Seq<char>, n: int)
    requires
        0 <= n <= have.len(),
        forall|i: int| 0 <= i < have.len() ==> (#[trigger] have[i]).1 >= 0,
    ensures
        total_named(have, name, n) >= 0,
    decreases n,
{
    if n > 0 {
        lemma_total_nonneg_prefix(have, name, n - 1);
    }
}

proof fn lemma_total_absent(have: Seq<(String, i32)>, name: Seq<char>, n: int)
    requires
        0 <= n <= have.len(),
        forall|i: int| 0 <= i < have.len() ==> (#[trigger] have[i]).0@ != name,
    ensures
        total_named(have, name, n) == 0,
    decreases n,
{
    if n > 0 {
        lemma_total_absent(have, name, n - 1);
    }
}

/// How much of an ingredient is on hand is the sum of the quantities of the entries that
/// carry its name: a single entry `(name, q)` counts `q`, an absent name counts nothing, and
/// with no negative quantities every entry counts in full. So a recipe can be brewed when
/// each ingredient it needs has an entry holding at least as much, and cannot be brewed when
/// an ingredient it needs is missing altogether.
pub proof fn ingredients_count_by_quantity(r: AlchemyRecipe, have: Seq<(String, i32)>, name: Seq<char>, q: i32)
    ensures
        forall|s: String| s@ == name ==> #[trigger] total_named(seq![(s, q)], name, 1) == q,
        (forall|i: int| 0 <= i < have.len() ==> (#[trigger] have[i]).1 >= 0) && (forall|j: int|
            0 <= j < r.ingredients@.len() ==> exists|k: int|
                0 <= k < have.len() && have[k].0@ == (#[trigger] r.ingredients@[j]).0@ && have[k].1
                    >= r.ingredients@[j].1) ==> can_craft(r, have),
        (exists|j: int|
            0 <= j < r.ingredients@.len() && (#[trigger] r.ingredients@[j]).1 > 0 && forall|k: int|
                0 <= k < have.len() ==> (#[trigger] have[k]).0@ != r.ingredients@[j].0@) ==> !can_craft(r, have),
{
    assert forall|s: String| s@ == name implies #[trigger] total_named(seq![(s, q)], name, 1) == q by {
        assert(seq![(s, q)][0] == (s, q));
        assert(total_named(seq![(s, q)], name, 0) == 0);
    }
    if (forall|i: int| 0 <= i < have.len() ==> (#[trigger] have[i]).1 >= 0) && (forall|j: int|
        0 <= j < r.ingredients@.len() ==> exists|k: int|
            0 <= k < have.len() && have[k].0@ == (#[trigger] r.ingredients@[j]).0@ && have[k].1 >= r.ingredients@[j].1) {
        assert forall|j: int| 0 <= j < r.ingredients@.len() implies total_named(have, (#[trigger] r.ingredients@[j]).0@,
            have.len() as int) >= r.ingredients@[j].1 by {
            let k = choose|k: int| 0 <= k < have.len() && have[k].0@ == r.ingredients@[j].0@ && have[k].1 >= r.ingredients@[j].1;
            lemma_entry_counts(have, r.ingredients@[j].0@, have.len() as int, k);
        }
    }
    if exists|j: int|
        0 <= j < r.ingredients@.len() && (#[trigger] r.ingredients@[j]).1 > 0 && forall|k: int|
            0 <= k < have.len() ==> (#[trigger] have[k]).0@ != r.ingredients@[j].0@ {
        let j = choose|j: int|
            0 <= j < r.ingredients@.len() && (#[trigger] r.ingredients@[j]).1 > 0 && forall|k: int|
                0 <= k < have.len() ==> (#[trigger] have[k]).0@ != r.ingredients@[j].0@;
        lemma_total_absent(have, r.ingredients@[j].0@, have.len() as int);
    }
}

/// Starting a quest touches only quests not yet started: a quest that is active, completed
/// or failed keeps its status (and everything else) whatever id is started, and a
/// not-yet-started quest becomes active exactly when it carries that id.
pub proof fn only_unstarted_quests_start(l0: QuestLog, l1: QuestLog, id: Seq<char>, i: int)
    requires
        start_result(l0, l1, id),
        0 <= i < l0.quests@.len(),
    ensures
        l0.quests@[i].status != QuestStatus::NotStarted ==> l1.quests@[i] == l0.quests@[i],
        l0.quests@[i].status == QuestStatus::NotStarted ==> (l1.quests@[i].status == QuestStatus::Active
            <==> l0.quests@[i].id@ == id),
        l0.quests@[i].status == QuestStatus::NotStarted && l0.quests@[i].id@ != id ==> l1.quests@[i]
            == l0.quests@[i],
        l0.active_quest_index is Some ==> l1.active_quest_index == l0.active_quest_index,
{
    assert(started(l0.quests@[i], l1.quests@[i], id));
}

/// Water, walls and mountains block the way: a step toward such a cell of the map leaves
/// the player where they stood (only turned), while a step onto any other cell of the map
/// moves them there.
pub proof fn water_walls_and_mountains_block(g0: GameState, g1: GameState, dx: int, dy: int)
    requires
        moved(g0, g1, dx, dy),
        g0.world.wf(),
        0 <= g0.player.x + dx < g0.world.width,
        0 <= g0.player.y + dy < g0.world.height,
        fits_i32(g0.player.x + dx),
        fits_i32(g0.player.y + dy),
    ensures
        ({
            let t = g0.world.tiles@[g0.player.y + dy]@[g0.player.x + dx];
            &&& (t == TileType::Water || t == TileType::Wall || t == TileType::Mountain) ==> g1.player.x
                == g0.player.x && g1.player.y == g0.player.y && g1.world == g0.world
            &&& !(t == TileType::Water || t == TileType::Wall || t == TileType::Mountain) ==> g1.player.x
                == g0.player.x + dx && g1.player.y == g0.player.y + dy
        }),
{
}

/// What a blow of `d` leaves of the foe's health: the blow less a third of its defense
/// (rounded toward zero), at least 1, and never below 0.
pub open spec fn foe_health_after(m: Monster, d: int) -> int {
    max_int(m.health - max_int(d - trunc_div(m.defense as int, 3), 1), 0)
}

/// The signs in a fight, when the player can pay for them. A sign costs its stamina; its
/// power is its base power plus 5 for each level above the first, and against the foe's
/// weakness half the power more. Aard and Igni strike with that; Aard also stuns for one turn
/// (two against the weakness). Yrden strikes with half the power (plus the weakness bonus)
/// and slows the foe. Axii does no harm but stuns for two turns (three against the weakness).
/// Quen does nothing to the foe and raises a shield as strong as the power.
pub proof fn signs_in_a_fight(c0: Combat, c1: Combat, i: usize, p0: Player, p1: Player, m0: Monster, m1: Monster)
    requires
        player_action_ok(CombatAction::UseSign(i), p0, m0),
        player_action_result(c0, c1, CombatAction::UseSign(i), p0, p1, m0, m1),
        i < p0.signs@.len(),
        p0.stamina >= p0.signs@[i as int].stamina_cost,
    ensures
        ({
            let s = p0.signs@[i as int];
            let power = s.base_power + (s.level - 1) * 5;
            let weak = s.sign_type == m0.weakness_sign;
            let bonus = if weak { trunc_div(power, 2) } else { 0 };
            &&& p1.stamina == p0.stamina - s.stamina_cost
            &&& p1.health == p0.health
            &&& s.sign_type == SignType::Aard ==> m1.health == foe_health_after(m0, power + bonus)
                && m1.stunned_turns == m0.stunned_turns + if weak { 2int } else { 1int }
            &&& s.sign_type == SignType::Igni ==> m1.health == foe_health_after(m0, power + bonus)
                && m1.stunned_turns == m0.stunned_turns
            &&& s.sign_type == SignType::Yrden ==> m1.health == foe_health_after(m0, trunc_div(power, 2) + bonus)
                && m1.slowed && p1.yrden_active
            &&& s.sign_type == SignType::Axii ==> m1.health == m0.health
                && m1.stunned_turns == m0.stunned_turns + if weak { 3int } else { 2int }
            &&& s.sign_type == SignType::Quen ==> m1 == m0 && p1.quen_shield == power
            &&& s.sign_type != SignType::Quen ==> p1.quen_shield == p0.quen_shield
        }),
{
}

/// Potions and bombs in a fight. A potion adds its health and stamina up to the maxima; a
/// bomb strikes the foe with its power and stuns it for one more turn. Either way the entry
/// loses one unit (or leaves when it held one).
pub proof fn potions_and_bombs_in_a_fight(c0: Combat, c1: Combat, a: CombatAction, i: usize, p0: Player, p1: Player, m0: Monster, m1: Monster)
    requires
        player_action_ok(a, p0, m0),
        player_action_result(c0, c1, a, p0, p1, m0, m1),
    ensures
        a == CombatAction::UsePotion(i) && i < p0.inventory.items@.len()
            && p0.inventory.items@[i as int].item_type == ItemType::Potion ==> {
            let it = p0.inventory.items@[i as int];
            &&& p1.health == min_int(p0.health + it.health_restore, p0.max_health as int)
            &&& p1.stamina == min_int(p0.stamina + it.stamina_restore, p0.max_stamina as int)
            &&& m1 == m0
            &&& (it.quantity > 1 ==> p1.inventory.items@.len() == p0.inventory.items@.len()
                && p1.inventory.items@[i as int].quantity == it.quantity - 1)
            &&& (it.quantity <= 1 ==> p1.inventory.items@.len() == p0.inventory.items@.len() - 1)
        },
        a == CombatAction::UseBomb(i) && i < p0.inventory.items@.len()
            && p0.inventory.items@[i as int].item_type == ItemType::Bomb ==> {
            let it = p0.inventory.items@[i as int];
            &&& m1.health == foe_health_after(m0, it.attack_bonus as int)
            &&& m1.stunned_turns == m0.stunned_turns + 1
            &&& p1.health == p0.health
            &&& (it.quantity > 1 ==> p1.inventory.items@.len() == p0.inventory.items@.len()
                && p1.inventory.items@[i as int].quantity == it.quantity - 1)
            &&& (it.quantity <= 1 ==> p1.inventory.items@.len() == p0.inventory.items@.len() - 1)
        },
{
    assert(p0.inventory.items@.len() == p0.inventory.items.len());
}

/// Experience and levels: gained experience adds up; reaching the threshold levels the
/// player up once, carrying the surplus over. A new level brings +20 maximum health and
/// +10 maximum stamina (both refilled), +2 strength, +1 dexterity and intelligence, and a
/// threshold of 100 + 50 per level.
pub proof fn experience_and_levels(p: Player, x: int)
    requires
        gain_experience_ok(p, x),
    ensures
        p.experience + x < p.exp_to_next_level ==> after_experience(p, x) == (Player {
            experience: (p.experience + x) as i32,
            ..p
        }),
        p.experience + x >= p.exp_to_next_level ==> {
            let q = after_experience(p, x);
            &&& q.level == (p.level + 1) as i32
            &&& q.experience == (p.experience + x - p.exp_to_next_level) as i32
            &&& q.exp_to_next_level == (100 + 50 * (p.level + 1)) as i32
            &&& q.max_health == (p.max_health + 20) as i32 && q.health == q.max_health
            &&& q.max_stamina == (p.max_stamina + 10) as i32 && q.stamina == q.max_stamina
            &&& q.strength == (p.strength + 2) as i32
            &&& q.dexterity == (p.dexterity + 1) as i32
            &&& q.intelligence == (p.intelligence + 1) as i32
            &&& q.inventory == p.inventory && q.x == p.x && q.y == p.y
        },
{
}

/// A blow of `d` against the player: the defense is the dexterity, half the strength and
/// the worn armor's bonus; the blow loses half the defense but does at least 1. A Quen shield
/// takes the blow first: one at least as strong keeps all health and weakens by the blow;
/// a weaker one breaks and the rest of the blow gets through. Health never drops below 0.
pub proof fn blows_against_the_player(p: Player, d: int)
    requires
        p.quen_shield >= 0,
    ensures
        ({
            let armor = match p.inventory.equipped_armor {
                Some(i) => p.inventory.items@[i as int].defense_bonus as int,
                None => 0,
            };
            let defense = p.dexterity + trunc_div(p.strength as int, 2) + armor;
            let blow = max_int(d - trunc_div(defense, 2), 1);
            let q = took_damage(p, d);
            &&& p.quen_shield >= blow ==> q.health == p.health && q.quen_shield == p.quen_shield - blow
            &&& p.quen_shield < blow ==> q.health == max_int(p.health - (blow - p.quen_shield), 0)
                && q.quen_shield == 0
            &&& q == (Player { health: q.health, quen_shield: q.quen_shield, ..p })
        }),
{
}

/// Adding to the inventory: ingredients, potions and bombs join the first entry of the same
/// name (its quantity grows by the item's); any other item, or one whose name is new, is
/// appended as a new entry.
pub proof fn what_stacks_and_what_does_not(old: Inventory, new: Inventory, item: Item)
    requires
        add_ok(old, item),
        after_add(old, new, item),
    ensures
        ({
            let stacks = item.item_type == ItemType::AlchemyIngredient || item.item_type == ItemType::Potion
                || item.item_type == ItemType::Bomb;
            let named = exists|j: int| 0 <= j < old.items@.len() && (#[trigger] old.items@[j]).name@ == item.name@;
            &&& (stacks && named) ==> new.items@.len() == old.items@.len() && exists|j: int|
                0 <= j < old.items@.len() && (#[trigger] old.items@[j]).name@ == item.name@
                    && new.items@[j].quantity == old.items@[j].quantity + item.quantity
                    && forall|k: int| 0 <= k < j ==> (#[trigger] old.items@[k]).name@ != item.name@
            &&& !(stacks && named) ==> new.items@ == old.items@.push(item)
            &&& new.gold == old.gold
        }),
{
    lemma_first_named(old.items@, item.name@, 0);
    let j = first_named(old.items@, item.name@, 0);
    if j < old.items@.len() {
        assert(old.items@[j].name@ == item.name@);
    }
}

/// Winning a fight pays: Return after a victory adds the foe's gold and experience, counts
/// one more kill and goes back to the map.
pub proof fn victory_pays(g0: GameState, g1: GameState, key: Key, mi: usize)
    requires
        combat_key_result(g0, g1, key),
        g0.screen == GameScreen::Combat(mi),
        g0.combat matches Some(c) && c.state == CombatState::Victory,
        key == Key::Return,
    ensures
        ({
            let m = g0.world.monsters@[mi as int];
            &&& g1.player.inventory.gold == (g0.player.inventory.gold + m.gold_reward) as i32
            &&& g1.player.kills == (g0.player.kills + 1) as i32
            &&& g1.player.level == after_experience(g0.player, m.experience_reward as int).level
            &&& g1.player.experience == after_experience(g0.player, m.experience_reward as int).experience
            &&& g1.combat is None
            &&& g1.screen == GameScreen::Exploration
        }),
{
}

/// Checking a kill (or, with `talk`, a conversation) against the quests advances exactly the
/// active quests whose current step asks to kill that monster (talk to that NPC); every
/// other quest stays as it was.
pub proof fn kills_and_talks_advance_matching_quests(l0: QuestLog, l1: QuestLog, name: Seq<char>, talk: bool, i: int)
    requires
        checked_result(l0, l1, name, talk),
        0 <= i < l0.quests@.len(),
    ensures
        ({
            let q = l0.quests@[i];
            let asks = q.status == QuestStatus::Active && q.current_step < q.steps@.len() && if talk {
                q.steps@[q.current_step as int].objective@ == ObjectiveView::TalkToNpc(name)
            } else {
                q.steps@[q.current_step as int].objective@ == ObjectiveView::KillMonster(name)
            };
            &&& asks ==> l1.quests@[i].current_step == q.current_step + 1
                && l1.quests@[i].steps@[q.current_step as int].completed
                && (l1.quests@[i].status == QuestStatus::Completed <==> q.current_step + 1 == q.steps@.len())
            &&& !asks ==> l1.quests@[i] == q
        }),
{
    let q = l0.quests@[i];
    assert(q.steps@.len() == q.steps.len());
    if step_matches(q, name, talk) {
        assert(advanced(q, l1.quests@[i]));
    } else {
        assert(l1.quests@[i] == q);
    }
}

/// Equipping an entry puts it in the slot of its own kind (steel sword, silver sword,
/// armor or oil) and leaves every other slot; an entry of another kind, or an index past
/// the list, changes nothing.
pub proof fn equipping_fills_the_slot_of_its_kind(old: Inventory, new: Inventory, index: int)
    requires
        equipped(old, new, index),
    ensures
        ({
            let t = if 0 <= index < old.items@.len() { Some(old.items@[index].item_type) } else { None };
            &&& new.items@ == old.items@ && new.gold == old.gold
            &&& new.equipped_steel_sword == if t == Some(ItemType::SteelSword) { Some(index as usize) } else { old.equipped_steel_sword }
            &&& new.equipped_silver_sword == if t == Some(ItemType::SilverSword) { Some(index as usize) } else { old.equipped_silver_sword }
            &&& new.equipped_armor == if t == Some(ItemType::Armor) { Some(index as usize) } else { old.equipped_armor }
            &&& new.active_oil == if t == Some(ItemType::Oil) { Some(index as usize) } else { old.active_oil }
        }),
{
}

/// How the player recovers: healing and a potion's stamina add their amount up to the
/// maximum, a rest refills health and stamina and ends the Quen shield and the Yrden circle,
/// and each survived turn of the foe gives back one point of stamina (up to the maximum).
pub proof fn recovery_amounts(p: Player, amount: int, c0: Combat, c1: Combat, p1: Player, m0: Monster, m1: Monster)
    requires
        fits_i32(p.health + amount),
        fits_i32(p.stamina + amount),
        fits_i32(p.stamina + 1),
    ensures
        healed(p, amount).health == if p.health + amount <= p.max_health { p.health + amount } else { p.max_health as int },
        healed(p, amount) == (Player { health: healed(p, amount).health, ..p }),
        refreshed(p, amount).stamina == if p.stamina + amount <= p.max_stamina { p.stamina + amount } else { p.max_stamina as int },
        refreshed(p, amount) == (Player { stamina: refreshed(p, amount).stamina, ..p }),
        regenerated(p).stamina == if p.stamina + 1 <= p.max_stamina { p.stamina + 1 } else { p.max_stamina as int },
        rested(p) == (Player { health: p.max_health, stamina: p.max_stamina, quen_shield: 0, yrden_active: false, ..p }),
        enemy_turn_result(c0, c1, p, p1, m0, m1) && m0.stunned_turns > 0 ==> p1.stamina == regenerated(p).stamina
            && p1.health == p.health,
{
}

/// The message log never grows past 50 entries.
pub proof fn message_log_is_bounded(log: Seq<Seq<char>>, m: Seq<char>)
    requires
        log.len() <= 50,
    ensures
        logged(log, m).len() <= 50,
        logged(log, m).last() == m,
{
}

/// A step only ever lands the player on a cell that can be walked on.
pub proof fn steps_land_on_walkable_cells(g0: GameState, g1: GameState, dx: int, dy: int)
    requires
        moved(g0, g1, dx, dy),
        fits_i32(g0.player.x + dx),
        fits_i32(g0.player.y + dy),
        g1.player.x != g0.player.x || g1.player.y != g0.player.y,
    ensures
        walkable_at(g0.world, g1.player.x as int, g1.player.y as int),
        g1.world.tiles == g0.world.tiles,
{
}

} // verus!
