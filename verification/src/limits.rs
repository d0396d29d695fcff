use vstd::prelude::*;
use crate::inventory::{Item, Inventory, ItemType, slot_ok, first_named, lemma_first_named, after_removal};
use crate::signs::Sign;
use crate::player::{Player, Direction, after_experience, gain_experience_ok, attack_ok, defense_ok};
use crate::numbers::fits_i32;
use crate::monsters::Monster;
use crate::combat::{Combat, CombatAction, CombatState, player_action_ok, player_action_result, enemy_turn_ok};
use crate::laws::removal_keeps_slots_proper;
use crate::quests::{Quest, started, advanced, step_matches, is_initial_quest};
use crate::dialogue::{Dialogue, DialogueAction, chosen_action, current_index, lemma_node_index};
use crate::world::{WorldMap, first_npc, first_loot};
use crate::game_state::{
    GameState, GameScreen, is_new_game, rewards, rewards_ok, pays, one_more_fits, action_effect, talk_checked, gift_view,
    dialogue_choice_ok, Key, combat_key_ok, sign_key, combat_action_for, key_ok, answer_key, move_ok,
};

verus! {

/// The size that the game's numbers keep to in ordinary play.
pub const LIMIT: i32 = 100000;

/// The most quests a quest log may hold for `within_limits`.
pub const MAX_QUESTS: usize = 64;

/// `v` lies in `[-b, b]`.
pub open spec fn within(v: int, b: int) -> bool {
    -b <= v <= b
}

pub open spec fn item_within(it: Item, b: int) -> bool {
    &&& within(it.attack_bonus as int, b)
    &&& within(it.defense_bonus as int, b)
    &&& within(it.health_restore as int, b)
    &&& within(it.stamina_restore as int, b)
    &&& within(it.quantity as int, b)
}

/// The slots name entries of their kind, the gold and every entry's numbers lie in `[-b, b]`.
pub open spec fn inventory_within(inv: Inventory, b: int) -> bool {
    &&& inv.wf()
    &&& within(inv.gold as int, b)
    &&& forall|i: int| 0 <= i < inv.items@.len() ==> item_within(#[trigger] inv.items@[i], b)
}

pub open spec fn sign_within(s: Sign, b: int) -> bool {
    &&& within(s.stamina_cost as int, b)
    &&& within(s.base_power as int, b)
    &&& within(s.level as int, b)
}

/// The numbers that experience and rewards change: level and experience in `[0, b]`,
/// the next threshold in `[0, 100 b]`, the others in `[-b, b]`.
pub open spec fn stats_within(p: Player, b: int) -> bool {
    &&& 0 <= p.level <= b
    &&& 0 <= p.experience <= b
    &&& 0 <= p.exp_to_next_level <= 100 * b
    &&& within(p.max_health as int, b)
    &&& within(p.health as int, b)
    &&& within(p.max_stamina as int, b)
    &&& within(p.stamina as int, b)
    &&& within(p.strength as int, b)
    &&& within(p.dexterity as int, b)
    &&& within(p.intelligence as int, b)
    &&& within(p.inventory.gold as int, b)
    &&& within(p.kills as int, b)
}

pub open spec fn player_within(p: Player, b: int) -> bool {
    &&& stats_within(p, b)
    &&& within(p.x as int, b)
    &&& within(p.y as int, b)
    &&& within(p.quen_shield as int, b)
    &&& forall|i: int| 0 <= i < p.signs@.len() ==> sign_within(#[trigger] p.signs@[i], b)
    &&& inventory_within(p.inventory, b)
}

pub open spec fn monster_within(m: Monster, b: int) -> bool {
    &&& within(m.health as int, b)
    &&& within(m.attack as int, b)
    &&& within(m.defense as int, b)
    &&& within(m.stunned_turns as int, b)
    &&& 0 <= m.experience_reward <= b
    &&& within(m.gold_reward as int, b)
}

pub open spec fn quest_within(q: Quest, b: int) -> bool {
    &&& 0 <= q.experience_reward <= b
    &&& within(q.gold_reward as int, b)
}

pub open spec fn action_within(a: DialogueAction, b: int) -> bool {
    match a {
        DialogueAction::GiveGold(x) => within(x as int, b),
        DialogueAction::GiveExp(x) => 0 <= x <= b,
        _ => true,
    }
}

pub open spec fn dialogue_within(d: Dialogue, b: int) -> bool {
    forall|n: int, c: int|
        0 <= n < d.nodes@.len() && 0 <= c < d.nodes@[n].choices@.len() ==> action_within(
            #[trigger] d.nodes@[n].choices@[c].action,
            b,
        )
}

/// Every number of the game lies within `LIMIT` (levels, experience and rewards are not
/// negative), the map is a proper grid, the quest log holds at most `MAX_QUESTS` quests,
/// and a fight names an existing monster.
pub open spec fn game_within(g: GameState) -> bool {
    let b = LIMIT as int;
    &&& player_within(g.player, b)
    &&& g.world.wf()
    &&& forall|i: int| 0 <= i < g.world.monsters@.len() ==> monster_within(#[trigger] g.world.monsters@[i], b)
    &&& g.quest_log.quests@.len() <= MAX_QUESTS
    &&& forall|i: int| 0 <= i < g.quest_log.quests@.len() ==> quest_within(#[trigger] g.quest_log.quests@[i], b)
    &&& (g.combat matches Some(c) ==> within(c.turn as int, b))
    &&& (g.screen matches GameScreen::Combat(mi) ==> mi < g.world.monsters@.len())
    &&& (g.dialogue matches Some(d) ==> dialogue_within(d, b))
    &&& g.inventory_selected <= b
}

/// Gaining up to `LIMIT` experience from modest numbers stays in `i32` and keeps the
/// numbers within `b + LIMIT + 20`.
proof fn lemma_experience(p: Player, x: int, b: int)
    requires
        stats_within(p, b),
        3 <= b <= 10_000_000,
        0 <= x <= LIMIT,
    ensures
        gain_experience_ok(p, x),
        stats_within(after_experience(p, x), b + LIMIT + 20),
{
}

/// Paying the rewards of up to `MAX_QUESTS` modest quests stays in `i32`.
proof fn lemma_rewards(qs: Seq<Quest>, p: Player, n: int, b: int)
    requires
        stats_within(p, b),
        3 <= b <= 1_000_000,
        0 <= n <= qs.len(),
        n <= MAX_QUESTS,
        forall|i: int| 0 <= i < qs.len() ==> quest_within(#[trigger] qs[i], LIMIT as int),
    ensures
        rewards_ok(qs, p, n),
        stats_within(rewards(qs, p, n).0, b + n * (LIMIT + 20)),
    decreases n,
{
    if n > 0 {
        lemma_rewards(qs, p, n - 1, b);
        let p1 = rewards(qs, p, n - 1).0;
        let q = qs[n - 1];
        assert(quest_within(q, LIMIT as int));
        if pays(q) {
            lemma_experience(p1, q.experience_reward as int, b + (n - 1) * (LIMIT + 20));
        }
    }
}

/// One more unit of any entry fits when the quantities are modest.
proof fn lemma_one_more(inv: Inventory, name: Seq<char>, b: int)
    requires
        inventory_within(inv, b),
        b <= 1_000_000_000,
    ensures
        one_more_fits(inv, name),
{
    lemma_first_named(inv.items@, name, 0);
    let j = first_named(inv.items@, name, 0);
    if j < inv.items@.len() {
        assert(item_within(inv.items@[j], b));
    }
}

/// Two quest lists of one length whose quests carry the same rewards.
spec fn same_rewards(qs0: Seq<Quest>, qs1: Seq<Quest>) -> bool {
    &&& qs1.len() == qs0.len()
    &&& forall|i: int| 0 <= i < qs0.len() ==> (#[trigger] qs1[i]).experience_reward == qs0[i].experience_reward
        && qs1[i].gold_reward == qs0[i].gold_reward
}

/// An answer's action keeps the numbers that rewards change within `3 LIMIT` and the
/// quests' rewards as they were.
proof fn lemma_action_bounds(g: GameState, ga: GameState, a: Option<DialogueAction>)
    requires
        player_within(g.player, LIMIT as int),
        a matches Some(x) ==> action_within(x, LIMIT as int),
        action_effect(g, ga, a),
    ensures
        stats_within(ga.player, 3 * LIMIT),
        same_rewards(g.quest_log.quests@, ga.quest_log.quests@),
{
    match a {
        None => {},
        Some(x) => match x {
            DialogueAction::StartQuest(id) => {
                assert forall|i: int| 0 <= i < g.quest_log.quests@.len() implies (
                #[trigger] ga.quest_log.quests@[i]).experience_reward == g.quest_log.quests@[i].experience_reward
                    && ga.quest_log.quests@[i].gold_reward == g.quest_log.quests@[i].gold_reward by {
                    assert(started(g.quest_log.quests@[i], ga.quest_log.quests@[i], id@));
                }
            },
            DialogueAction::GiveExp(n) => {
                lemma_experience(g.player, n as int, LIMIT as int);
            },
            _ => {},
        },
    }
}

/// Checking a conversation against the quests changes neither the player nor the rewards.
proof fn lemma_talk_bounds(ga: GameState, gt: GameState)
    requires
        talk_checked(ga, gt),
    ensures
        gt.player == ga.player,
        same_rewards(ga.quest_log.quests@, gt.quest_log.quests@),
{
    match first_npc(ga.world.npcs@, ga.player.x as int, ga.player.y as int, 3, 0) {
        Some(n) => {
            let name = ga.world.npcs@[n].dialogue_id@;
            assert forall|i: int| 0 <= i < ga.quest_log.quests@.len() implies (
            #[trigger] gt.quest_log.quests@[i]).experience_reward == ga.quest_log.quests@[i].experience_reward
                && gt.quest_log.quests@[i].gold_reward == ga.quest_log.quests@[i].gold_reward by {
                let q0 = ga.quest_log.quests@[i];
                if step_matches(q0, name, true) {
                    assert(advanced(q0, gt.quest_log.quests@[i]));
                } else {
                    assert(gt.quest_log.quests@[i] == q0);
                }
            }
        },
        None => {},
    }
}

/// Any answer in a modest game can be handled.
proof fn lemma_dialogue(g0: GameState, idx: int)
    requires
        game_within(g0),
    ensures
        dialogue_choice_ok(g0, idx),
{
    if let Some(d0) = g0.dialogue {
        let g = GameState { dialogue: None, ..g0 };
        let a = chosen_action(d0, idx);
        if let Some(ci) = current_index(d0) {
            lemma_node_index(d0.nodes@, d0.current_node.unwrap()@, 0);
            if 0 <= idx < d0.nodes@[ci].choices@.len() {
                assert(action_within(d0.nodes@[ci].choices@[idx].action, LIMIT as int));
            }
        }
        match a {
            Some(DialogueAction::GiveItem(n)) => lemma_one_more(g.player.inventory, gift_view(n@).name, LIMIT as int),
            Some(DialogueAction::GiveExp(x)) => lemma_experience(g.player, x as int, LIMIT as int),
            _ => {},
        }
        assert forall|ga: GameState, gt: GameState|
            #![trigger action_effect(g, ga, a), talk_checked(ga, gt)]
            action_effect(g, ga, a) && talk_checked(ga, gt) implies rewards_ok(
                gt.quest_log.quests@, gt.player, gt.quest_log.quests@.len() as int) by {
            lemma_action_bounds(g, ga, a);
            lemma_talk_bounds(ga, gt);
            let qs = gt.quest_log.quests@;
            assert forall|i: int| 0 <= i < qs.len() implies quest_within(#[trigger] qs[i], LIMIT as int) by {
                assert(quest_within(g.quest_log.quests@[i], LIMIT as int));
                assert(ga.quest_log.quests@[i].experience_reward == g.quest_log.quests@[i].experience_reward);
            }
            lemma_rewards(qs, gt.player, qs.len() as int, 3 * LIMIT);
        }
    }
}

/// The numbers a fight reads and changes on the player's side.
spec fn fight_within(p: Player, b: int) -> bool {
    &&& stats_within(p, b)
    &&& within(p.quen_shield as int, b)
    &&& inventory_within(p.inventory, b)
}

/// Taking an entry out keeps the slots proper and the numbers modest.
proof fn lemma_removal(old: Inventory, new: Inventory, index: int, b: int)
    requires
        inventory_within(old, b),
        after_removal(old, new, index),
    ensures
        inventory_within(new, b + 1),
{
    removal_keeps_slots_proper(old, new, index);
    if 0 <= index < old.items@.len() {
        if old.items@[index].quantity > 1 {
            assert forall|i: int| 0 <= i < new.items@.len() implies item_within(#[trigger] new.items@[i], b + 1) by {
                assert(item_within(old.items@[i], b));
            }
        } else {
            assert forall|i: int| 0 <= i < new.items@.len() implies item_within(#[trigger] new.items@[i], b + 1) by {
                if i < index {
                    assert(item_within(old.items@[i], b));
                } else {
                    assert(item_within(old.items@[i + 1], b));
                }
            }
        }
    } else {
        assert forall|i: int| 0 <= i < new.items@.len() implies item_within(#[trigger] new.items@[i], b + 1) by {
            assert(item_within(old.items@[i], b));
        }
    }
}

/// The player's move in a fight between modest sides stays in `i32`.
proof fn lemma_player_action(a: CombatAction, p: Player, m: Monster, b: int)
    requires
        player_within(p, b),
        monster_within(m, b),
        5 <= b <= 1_000_000,
    ensures
        player_action_ok(a, p, m),
{
    let inv = p.inventory;
    if let Some(i) = inv.equipped_steel_sword {
        assert(item_within(inv.items@[i as int], b));
    }
    if let Some(i) = inv.equipped_silver_sword {
        assert(item_within(inv.items@[i as int], b));
    }
    if let Some(i) = inv.active_oil {
        assert(item_within(inv.items@[i as int], b));
    }
    match a {
        CombatAction::UseSign(i) => {
            if (i as int) < p.signs@.len() {
                assert(sign_within(p.signs@[i as int], b));
            }
        },
        CombatAction::UsePotion(i) => {
            if (i as int) < inv.items@.len() {
                assert(item_within(inv.items@[i as int], b));
            }
        },
        CombatAction::UseBomb(i) => {
            if (i as int) < inv.items@.len() {
                assert(item_within(inv.items@[i as int], b));
            }
        },
        _ => {},
    }
}

/// After the player's move both sides stay modest and the turn is kept.
proof fn lemma_after_action(c: Combat, c1: Combat, a: CombatAction, p: Player, p1: Player, m: Monster, m1: Monster, b: int)
    requires
        player_within(p, b),
        monster_within(m, b),
        5 <= b <= 1_000_000,
        player_action_result(c, c1, a, p, p1, m, m1),
    ensures
        fight_within(p1, 8 * b),
        monster_within(m1, 8 * b),
        c1.turn == c.turn,
{
    lemma_player_action(a, p, m, b);
    match a {
        CombatAction::UseSign(i) => {
            if (i as int) < p.signs@.len() {
                assert(sign_within(p.signs@[i as int], b));
            }
        },
        CombatAction::UsePotion(i) => {
            if (i as int) < p.inventory.items@.len() && p.inventory.items@[i as int].item_type == ItemType::Potion {
                assert(item_within(p.inventory.items@[i as int], b));
                lemma_removal(p.inventory, p1.inventory, i as int, b);
            }
        },
        CombatAction::UseBomb(i) => {
            if (i as int) < p.inventory.items@.len() && p.inventory.items@[i as int].item_type == ItemType::Bomb {
                assert(item_within(p.inventory.items@[i as int], b));
                lemma_removal(p.inventory, p1.inventory, i as int, b);
            }
        },
        _ => {},
    }
    assert forall|k: int| 0 <= k < p1.inventory.items@.len() implies item_within(#[trigger] p1.inventory.items@[k], 8 * b) by {
        assert(item_within(p1.inventory.items@[k], b + 1));
    }
}

/// The foe's turn between modest sides stays in `i32`.
proof fn lemma_enemy_turn(c: Combat, p: Player, m: Monster, b: int)
    requires
        fight_within(p, b),
        monster_within(m, b),
        within(c.turn as int, b),
        5 <= b <= 10_000_000,
    ensures
        enemy_turn_ok(c, p, m),
{
    if let Some(i) = p.inventory.equipped_armor {
        assert(item_within(p.inventory.items@[i as int], b));
    }
}

/// Any key in a fight of a modest game can be handled.
proof fn lemma_combat(g0: GameState, key: Key)
    requires
        game_within(g0),
    ensures
        combat_key_ok(g0, key),
{
    if let (GameScreen::Combat(mi), Some(c)) = (g0.screen, g0.combat) {
        let p = g0.player;
        let m = g0.world.monsters@[mi as int];
        let b = LIMIT as int;
        assert(monster_within(m, b));
        if c.state == CombatState::PlayerTurn && sign_key(key) is None {
            if let Some(a) = combat_action_for(key, p) {
                lemma_player_action(a, p, m, b);
                assert forall|c1: Combat, p1: Player, m1: Monster|
                    #[trigger] player_action_result(c, c1, a, p, p1, m, m1) && c1.state == CombatState::EnemyTurn
                        implies enemy_turn_ok(c1, p1, m1) by {
                    lemma_after_action(c, c1, a, p, p1, m, m1, b);
                    lemma_enemy_turn(c1, p1, m1, 8 * b);
                }
            }
        }
        if c.state == CombatState::Victory {
            lemma_experience(p, m.experience_reward as int, b);
        }
    }
}

/// A new game keeps within the limits.
pub proof fn new_game_is_within_limits(g: GameState)
    requires
        is_new_game(g),
    ensures
        game_within(g),
{
    let p = g.player;
    let b = LIMIT as int;
    assert forall|i: int| 0 <= i < p.signs@.len() implies sign_within(#[trigger] p.signs@[i], b) by {
        assert(0 <= i < 5);
    }
    let items = p.inventory.items@;
    assert forall|i: int| 0 <= i < items.len() implies item_within(#[trigger] items[i], b) by {
        assert(items[i]@.quantity == items[i].quantity);
    }
    let ms = g.world.monsters@;
    assert forall|i: int| 0 <= i < ms.len() implies monster_within(#[trigger] ms[i], b) by {
        assert(0 <= i < 13);
    }
    let qs = g.quest_log.quests@;
    assert forall|i: int| 0 <= i < qs.len() implies quest_within(#[trigger] qs[i], b) by {
        assert(is_initial_quest(qs[i], i));
    }
}

/// A player whose numbers stay within the limits has an attack with either sword and a
/// defense that can be computed (`attack_power`, `defense_power`).
pub proof fn modest_player_has_attack_and_defense(p: Player)
    requires
        player_within(p, LIMIT as int),
    ensures
        attack_ok(p, false),
        attack_ok(p, true),
        defense_ok(p),
{
    let inv = p.inventory;
    if let Some(i) = inv.equipped_steel_sword {
        assert(item_within(inv.items@[i as int], LIMIT as int));
    }
    if let Some(i) = inv.equipped_silver_sword {
        assert(item_within(inv.items@[i as int], LIMIT as int));
    }
    if let Some(i) = inv.active_oil {
        assert(item_within(inv.items@[i as int], LIMIT as int));
    }
    if let Some(i) = inv.equipped_armor {
        assert(item_within(inv.items@[i as int], LIMIT as int));
    }
}

/// On a game whose numbers stay within the limits (`game_within`), every key can be
/// handled: `key_down_event` can be called with any key.
pub proof fn modest_game_handles_every_key(g: GameState, key: Key)
    requires
        game_within(g),
    ensures
        key_ok(g, key),
{
    match g.screen {
        GameScreen::Combat(_) => lemma_combat(g, key),
        GameScreen::Dialogue => {
            if let Some(i) = answer_key(key) {
                lemma_dialogue(g, i as int);
            }
        },
        GameScreen::Inventory => {
            let inv = g.player.inventory;
            if g.inventory_selected < inv.items@.len() {
                assert(item_within(inv.items@[g.inventory_selected as int], LIMIT as int));
            }
        },
        _ => {},
    }
}

/// On a game whose numbers stay within the limits, a step of at most one cell along each
/// axis can be tried: `try_move` can be called with it.
pub proof fn modest_game_can_step(g: GameState, dx: int, dy: int)
    requires
        game_within(g),
        -1 <= dx <= 1,
        -1 <= dy <= 1,
    ensures
        move_ok(g, dx, dy),
{
    if let Some(l) = first_loot(g.world.loot@, g.player.x + dx, g.player.y + dy, 1, 0) {
        lemma_one_more(g.player.inventory, g.world.loot@[l].item_name@, LIMIT as int);
    }
}

fn small(v: i32) -> (r: bool)
    ensures
        r == within(v as int, LIMIT as int),
{
    -LIMIT <= v && v <= LIMIT
}

fn item_small(it: &Item) -> (r: bool)
    ensures
        r == item_within(*it, LIMIT as int),
{
    small(it.attack_bonus) && small(it.defense_bonus) && small(it.health_restore) && small(it.stamina_restore)
        && small(it.quantity)
}

fn slot_fits(items: &Vec<Item>, slot: Option<usize>, kind: ItemType) -> (r: bool)
    ensures
        r == slot_ok(items@, slot, kind),
{
    match slot {
        Some(i) => i < items.len() && items[i].item_type == kind,
        None => true,
    }
}

fn inventory_small(inv: &Inventory) -> (r: bool)
    ensures
        r == inventory_within(*inv, LIMIT as int),
{
    let slots = slot_fits(&inv.items, inv.equipped_steel_sword, ItemType::SteelSword) && slot_fits(
        &inv.items,
        inv.equipped_silver_sword,
        ItemType::SilverSword,
    ) && slot_fits(&inv.items, inv.equipped_armor, ItemType::Armor) && slot_fits(
        &inv.items,
        inv.active_oil,
        ItemType::Oil,
    );
    if !slots || !small(inv.gold) {
        return false;
    }
    let mut i: usize = 0;
    while i < inv.items.len()
        invariant
            i <= inv.items@.len(),
            forall|k: int| 0 <= k < i ==> item_within(#[trigger] inv.items@[k], LIMIT as int),
        decreases inv.items@.len() - i,
    {
        if !item_small(&inv.items[i]) {
            return false;
        }
        i = i + 1;
    }
    true
}

fn sign_small(s: &Sign) -> (r: bool)
    ensures
        r == sign_within(*s, LIMIT as int),
{
    small(s.stamina_cost) && small(s.base_power) && small(s.level)
}

fn player_small(p: &Player) -> (r: bool)
    ensures
        r == player_within(*p, LIMIT as int),
{
    let stats = 0 <= p.level && p.level <= LIMIT && 0 <= p.experience && p.experience <= LIMIT
        && 0 <= p.exp_to_next_level && p.exp_to_next_level <= 100 * LIMIT && small(p.max_health) && small(
        p.health,
    ) && small(p.max_stamina) && small(p.stamina) && small(p.strength) && small(p.dexterity) && small(
        p.intelligence,
    ) && small(p.inventory.gold) && small(p.kills);
    if !stats || !small(p.x) || !small(p.y) || !small(p.quen_shield) {
        return false;
    }
    let mut i: usize = 0;
    while i < p.signs.len()
        invariant
            i <= p.signs@.len(),
            forall|k: int| 0 <= k < i ==> sign_within(#[trigger] p.signs@[k], LIMIT as int),
        decreases p.signs@.len() - i,
    {
        if !sign_small(&p.signs[i]) {
            return false;
        }
        i = i + 1;
    }
    inventory_small(&p.inventory)
}

fn monster_small(m: &Monster) -> (r: bool)
    ensures
        r == monster_within(*m, LIMIT as int),
{
    small(m.health) && small(m.attack) && small(m.defense) && small(m.stunned_turns) && 0 <= m.experience_reward
        && m.experience_reward <= LIMIT && small(m.gold_reward)
}

fn dialogue_small(d: &Dialogue) -> (r: bool)
    ensures
        r == dialogue_within(*d, LIMIT as int),
{
    let mut n: usize = 0;
    while n < d.nodes.len()
        invariant
            n <= d.nodes@.len(),
            forall|k: int, c: int|
                0 <= k < n && 0 <= c < d.nodes@[k].choices@.len() ==> action_within(
                    #[trigger] d.nodes@[k].choices@[c].action,
                    LIMIT as int,
                ),
        decreases d.nodes@.len() - n,
    {
        let mut c: usize = 0;
        while c < d.nodes[n].choices.len()
            invariant
                n < d.nodes@.len(),
                c <= d.nodes@[n as int].choices@.len(),
                forall|j: int| 0 <= j < c ==> action_within(#[trigger] d.nodes@[n as int].choices@[j].action, LIMIT as int),
            decreases d.nodes@[n as int].choices@.len() - c,
        {
            let ok = match &d.nodes[n].choices[c].action {
                DialogueAction::GiveGold(x) => small(*x),
                DialogueAction::GiveExp(x) => 0 <= *x && *x <= LIMIT,
                _ => true,
            };
            if !ok {
                return false;
            }
            c = c + 1;
        }
        n = n + 1;
    }
    true
}

fn world_is_grid(w: &WorldMap) -> (r: bool)
    ensures
        r == w.wf(),
{
    if w.tiles.len() != w.height {
        return false;
    }
    let mut y: usize = 0;
    while y < w.tiles.len()
        invariant
            y <= w.tiles@.len(),
            w.tiles@.len() == w.height,
            forall|k: int| 0 <= k < y ==> (#[trigger] w.tiles@[k])@.len() == w.width,
        decreases w.tiles@.len() - y,
    {
        if w.tiles[y].len() != w.width {
            return false;
        }
        y = y + 1;
    }
    true
}

fn fits(v: i64) -> (r: bool)
    ensures
        r == fits_i32(v as int),
{
    -2147483648i64 <= v && v <= 2147483647i64
}

/// Whether one more unit of the first entry named `name` keeps its quantity in `i32`.
fn one_more_fits_exec(inv: &Inventory, name: &String) -> (r: bool)
    ensures
        r == one_more_fits(*inv, name@),
{
    proof {
        lemma_first_named(inv.items@, name@, 0);
    }
    let mut j: usize = 0;
    while j < inv.items.len()
        invariant
            j <= inv.items@.len(),
            forall|k: int| 0 <= k < j ==> (#[trigger] inv.items@[k]).name@ != name@,
        decreases inv.items@.len() - j,
    {
        if inv.items[j].name == *name {
            proof {
                lemma_first_named(inv.items@, name@, 0);
                assert(first_named(inv.items@, name@, 0) == j as int);
            }
            return fits(inv.items[j].quantity as i64 + 1);
        }
        j = j + 1;
    }
    proof {
        lemma_first_named(inv.items@, name@, 0);
    }
    true
}

impl Player {
    /// Whether `attack_power(use_silver)` can be computed (exactly `attack_ok`).
    pub fn attack_fits(&self, use_silver: bool) -> (ok: bool)
        ensures
            ok == attack_ok(*self, use_silver),
    {
        let inv = &self.inventory;
        let slot = if use_silver { inv.equipped_silver_sword } else { inv.equipped_steel_sword };
        let sword: i64 = match slot {
            Some(i) => {
                if i >= inv.items.len() {
                    return false;
                }
                inv.items[i].attack_bonus as i64
            },
            None => 0,
        };
        let oil: i64 = match inv.active_oil {
            Some(i) => {
                if i >= inv.items.len() {
                    return false;
                }
                inv.items[i].attack_bonus as i64
            },
            None => 0,
        };
        let base = self.strength as i64 * 2;
        fits(sword + oil) && fits(base) && fits(base + self.dexterity as i64) && fits(
            base + self.dexterity as i64 + sword + oil,
        )
    }

    /// Whether `defense_power()` can be computed (exactly `defense_ok`).
    pub fn defense_fits(&self) -> (ok: bool)
        ensures
            ok == defense_ok(*self),
    {
        let inv = &self.inventory;
        let armor: i64 = match inv.equipped_armor {
            Some(i) => {
                if i >= inv.items.len() {
                    return false;
                }
                inv.items[i].defense_bonus as i64
            },
            None => 0,
        };
        let base = self.dexterity as i64 + self.strength as i64 / 2;
        fits(base) && fits(base + armor)
    }
}

impl GameState {
    /// Whether a step by (dx, dy) can be tried (exactly `move_ok`): the map is a proper grid,
    /// the new position fits in `i32`, and loot picked up there can join the inventory.
    pub fn can_step(&self, dx: i32, dy: i32) -> (ok: bool)
        ensures
            ok == move_ok(*self, dx as int, dy as int),
    {
        let nx = self.player.x as i64 + dx as i64;
        let ny = self.player.y as i64 + dy as i64;
        if !world_is_grid(&self.world) || !fits(nx) || !fits(ny) {
            return false;
        }
        match self.world.find_loot_at(nx as i32, ny as i32, 1) {
            Some(l) => one_more_fits_exec(&self.player.inventory, &self.world.loot[l].item_name),
            None => true,
        }
    }

    /// Whether `key` can be handled (`key_ok`). On every screen but a fight and a conversation
    /// this decides `key_ok` exactly; in a fight or a conversation it asks `within_limits`,
    /// which suffices for every key there.
    pub fn key_can_be_handled(&self, key: Key) -> (ok: bool)
        ensures
            ok ==> key_ok(*self, key),
            !(self.screen is Combat) && !(self.screen is Dialogue) ==> ok == key_ok(*self, key),
            game_within(*self) ==> ok,
    {
        match self.screen {
            GameScreen::Exploration => {
                if key != Key::E {
                    return true;
                }
                let (dx, dy): (i64, i64) = match self.player.direction {
                    Direction::Up => (0, -1),
                    Direction::Down => (0, 1),
                    Direction::Left => (-1, 0),
                    Direction::Right => (1, 0),
                };
                fits(self.player.x as i64 + dx) && fits(self.player.y as i64 + dy)
            },
            GameScreen::Inventory => {
                let idx = self.inventory_selected;
                let items = &self.player.inventory.items;
                if key == Key::Down {
                    idx < usize::MAX
                } else if key == Key::Return && idx < items.len() && items[idx].item_type == ItemType::Potion {
                    fits(self.player.health as i64 + items[idx].health_restore as i64) && fits(
                        self.player.stamina as i64 + items[idx].stamina_restore as i64,
                    )
                } else {
                    true
                }
            },
            GameScreen::Combat(_) | GameScreen::Dialogue => {
                let ok = self.within_limits();
                proof {
                    if ok {
                        modest_game_handles_every_key(*self, key);
                    }
                }
                ok
            },
            _ => true,
        }
    }

    /// Whether every number of the game stays within the limits (see `game_within`); on such
    /// a state every key and every step can be handled (see `modest_game_handles_every_key`).
    pub fn within_limits(&self) -> (ok: bool)
        ensures
            ok == game_within(*self),
    {
        if !player_small(&self.player) || !world_is_grid(&self.world) {
            return false;
        }
        let mut i: usize = 0;
        while i < self.world.monsters.len()
            invariant
                i <= self.world.monsters@.len(),
                forall|k: int| 0 <= k < i ==> monster_within(#[trigger] self.world.monsters@[k], LIMIT as int),
            decreases self.world.monsters@.len() - i,
        {
            if !monster_small(&self.world.monsters[i]) {
                return false;
            }
            i = i + 1;
        }
        if self.quest_log.quests.len() > MAX_QUESTS {
            return false;
        }
        let mut q: usize = 0;
        while q < self.quest_log.quests.len()
            invariant
                q <= self.quest_log.quests@.len(),
                forall|k: int| 0 <= k < q ==> quest_within(#[trigger] self.quest_log.quests@[k], LIMIT as int),
            decreases self.quest_log.quests@.len() - q,
        {
            let qu = &self.quest_log.quests[q];
            if !(0 <= qu.experience_reward && qu.experience_reward <= LIMIT && small(qu.gold_reward)) {
                return false;
            }
            q = q + 1;
        }
        let fight_ok = match &self.combat {
            Some(c) => small(c.turn),
            None => true,
        };
        let screen_ok = match self.screen {
            GameScreen::Combat(mi) => mi < self.world.monsters.len(),
            _ => true,
        };
        let talk_ok = match &self.dialogue {
            Some(d) => dialogue_small(d),
            None => true,
        };
        fight_ok && screen_ok && talk_ok && self.inventory_selected <= 100000usize
    }
}

} // verus!
