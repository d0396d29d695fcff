use vstd::prelude::*;
use vstd::string::*;
use crate::numbers::fits_i32;
use crate::text::{concat3, decimal, with_number, with_two_numbers, same_text, append_number};
use crate::inventory::{
    Inventory, Item, ItemView, ingredient_view, potion_view, quest_item_view, after_add, add_ok, first_named,
    equipped, after_removal,
};
use crate::player::{Player, Direction, is_new_player, after_experience, gain_experience_ok, rested};
use crate::world::{WorldMap, Loot, is_new_world, first_monster, first_npc, first_loot, cell, tile_walkable};
use crate::combat::{
    Combat, CombatAction, CombatState, msg_start, player_action_ok, player_action_result, enemy_turn_ok,
    enemy_turn_result,
};
use crate::inventory::ItemType;
use crate::monsters::Monster;
use crate::quests::{Quest, QuestLog, QuestStatus, is_new_quest_log, start_result, checked_result};
use crate::dialogue::{
    Dialogue, DialogueAction, get_dialogue, is_dialogue_for, next_dialogue, chosen_action,
};

verus! {

/// Which screen the game shows; a fight names the foe's position among the world's monsters.
#[derive(Debug, Clone, Copy, PartialEq, Eq, Structural)]
pub enum GameScreen {
    Exploration,
    Combat(usize),
    Dialogue,
    Inventory,
    QuestLog,
    GameOver,
    MainMenu,
}

/// The keys the game reacts to.
#[derive(Debug, Clone, Copy, PartialEq, Eq, Structural)]
pub enum Key {
    Return,
    Escape,
    Up,
    Down,
    Left,
    Right,
    A,
    D,
    E,
    F,
    I,
    J,
    Q,
    R,
    S,
    W,
    Key1,
    Key2,
    Key3,
    Key4,
    Key5,
    Other,
}

/// Everything the game decides on: the player, the world, the open screen and its state,
/// the quests and the message log.
#[derive(Debug)]
pub struct GameState {
    pub player: Player,
    pub world: WorldMap,
    pub screen: GameScreen,
    pub combat: Option<Combat>,
    pub quest_log: QuestLog,
    pub dialogue: Option<Dialogue>,
    pub messages: Vec<String>,
    pub inventory_selected: usize,
    pub started: bool,
}

/// The texts of a list of strings.
pub open spec fn texts(v: Seq<String>) -> Seq<Seq<char>> {
    v.map_values(|s: String| s@)
}

/// The message log after `m` is added: at most 50 messages are kept, the oldest goes first.
pub open spec fn logged(log: Seq<Seq<char>>, m: Seq<char>) -> Seq<Seq<char>> {
    let l = log.push(m);
    if l.len() > 50 { l.subrange(1, l.len() as int) } else { l }
}

/// The log after each of `ms` is added in turn.
pub open spec fn logged_all(log: Seq<Seq<char>>, ms: Seq<Seq<char>>) -> Seq<Seq<char>>
    decreases ms.len(),
{
    if ms.len() == 0 {
        log
    } else {
        logged(logged_all(log, ms.drop_last()), ms.last())
    }
}

/// A fight as it begins.
pub open spec fn is_fresh_combat(c: Combat) -> bool {
    &&& c.state == CombatState::PlayerTurn
    &&& c.turn == 1
    &&& c.log@ == seq![msg_start()]
    &&& !c.player_dodging
    &&& !c.player_parrying
}

/// The messages of a new game.
pub open spec fn welcome() -> Seq<Seq<char>> {
    seq![
        "Witaj w świecie Wiedźmina!"@,
        "Jesteś Gerard z Rumii ze Szkoły Dzika."@,
        "WASD - ruch, E - interakcja, I - ekwipunek, J - questy"@,
    ]
}

/// A new game at the main menu (see `GameState::new`).
pub open spec fn is_new_game(g: GameState) -> bool {
    &&& is_new_player(g.player)
    &&& is_new_world(g.world)
    &&& g.screen == GameScreen::MainMenu
    &&& g.combat is None
    &&& is_new_quest_log(g.quest_log)
    &&& g.dialogue is None
    &&& texts(g.messages@) == welcome()
    &&& g.inventory_selected == 0
    &&& !g.started
}

/// The way the player faces after trying to step by (dx, dy): the last nonzero axis wins,
/// vertical over horizontal.
pub open spec fn facing(dx: int, dy: int, d: Direction) -> Direction {
    if dy > 0 {
        Direction::Down
    } else if dy < 0 {
        Direction::Up
    } else if dx > 0 {
        Direction::Right
    } else if dx < 0 {
        Direction::Left
    } else {
        d
    }
}

/// Whether the map lets the player stand at (x, y).
pub open spec fn walkable_at(w: WorldMap, x: int, y: int) -> bool {
    cell(x) < w.width && cell(y) < w.height && tile_walkable(w.tiles@[cell(y)]@[cell(x)])
}

/// `g1` is `g0` after trying to step by (dx, dy): the player turns; where the map allows
/// it they step, meet the first living monster within one cell (a fight begins) and pick
/// up uncollected loot on that very cell (an ingredient worth 5 joins the inventory).
pub open spec fn moved(g0: GameState, g1: GameState, dx: int, dy: int) -> bool {
    let nx = g0.player.x + dx;
    let ny = g0.player.y + dy;
    let dir = facing(dx, dy, g0.player.direction);
    if !walkable_at(g0.world, nx, ny) {
        g1 == (GameState { player: Player { direction: dir, ..g0.player }, ..g0 })
    } else {
        let mi = first_monster(g0.world.monsters@, nx, ny, 2, 0);
        let li = first_loot(g0.world.loot@, nx, ny, 1, 0);
        let log0 = texts(g0.messages@);
        let log1 = match mi {
            Some(m) => logged(log0, "Spotkanie z: "@ + g0.world.monsters@[m].name@ + "!"@),
            None => log0,
        };
        let log2 = match li {
            Some(l) => logged(log1, "Znaleziono: "@ + g0.world.loot@[l].name@ + "!"@),
            None => log1,
        };
        &&& g1.player == (Player { x: nx as i32, y: ny as i32, direction: dir, inventory: g1.player.inventory, ..g0.player })
        &&& match li {
            Some(l) => {
                &&& exists|item: Item| item@ == ingredient_view(g0.world.loot@[l].item_name@, 5)
                    && #[trigger] after_add(g0.player.inventory, g1.player.inventory, item)
                &&& g1.world == (WorldMap { loot: g1.world.loot, ..g0.world })
                &&& g1.world.loot@ == g0.world.loot@.update(l, Loot { collected: true, ..g0.world.loot@[l] })
            },
            None => g1.player.inventory == g0.player.inventory && g1.world == g0.world,
        }
        &&& match mi {
            Some(m) => {
                &&& g1.combat matches Some(c) && is_fresh_combat(c)
                &&& g1.screen == GameScreen::Combat(m as usize)
            },
            None => g1.combat == g0.combat && g1.screen == g0.screen,
        }
        &&& texts(g1.messages@) == log2
        &&& g1.quest_log == g0.quest_log
        &&& g1.dialogue == g0.dialogue
        &&& g1.inventory_selected == g0.inventory_selected
        &&& g1.started == g0.started
    }
}

/// One more unit of a stackable item named `name` keeps its entry's quantity in `i32`.
pub open spec fn one_more_fits(inv: Inventory, name: Seq<char>) -> bool {
    let j = first_named(inv.items@, name, 0);
    j < inv.items@.len() ==> fits_i32(inv.items@[j].quantity + 1)
}

/// The ingredient picked up at loot `l` of `g` can join the inventory.
pub open spec fn move_ok(g: GameState, dx: int, dy: int) -> bool {
    let nx = g.player.x + dx;
    let ny = g.player.y + dy;
    &&& g.world.wf()
    &&& fits_i32(nx)
    &&& fits_i32(ny)
    &&& first_loot(g.world.loot@, nx, ny, 1, 0) matches Some(l) ==> one_more_fits(
        g.player.inventory,
        g.world.loot@[l].item_name@,
    )
}

/// The step in the direction faced.
pub open spec fn step_of(d: Direction) -> (int, int) {
    match d {
        Direction::Up => (0, -1),
        Direction::Down => (0, 1),
        Direction::Left => (-1, 0),
        Direction::Right => (1, 0),
    }
}

/// The NPC `interact` talks to: the first within one cell of the faced cell, else the
/// first within one cell of the player.
pub open spec fn npc_to_talk(g: GameState) -> Option<int> {
    let (dx, dy) = step_of(g.player.direction);
    match first_npc(g.world.npcs@, g.player.x + dx, g.player.y + dy, 2, 0) {
        Some(n) => Some(n),
        None => first_npc(g.world.npcs@, g.player.x as int, g.player.y as int, 2, 0),
    }
}

/// `d` is the conversation of `npc_id`, begun at its first node.
pub open spec fn is_begun_dialogue(d: Dialogue, npc_id: Seq<char>) -> bool {
    &&& is_dialogue_for(Dialogue { current_node: None, ..d }, npc_id)
    &&& d.nodes@.len() > 0
    &&& d.current_node == Some(d.nodes@[0].id)
}

/// `g1` is `g0` after the player interacts: a conversation with a nearby NPC begins, or
/// else a fight with a living monster within one cell of the faced cell, or else only
/// a message says there is nothing there.
pub open spec fn interacted(g0: GameState, g1: GameState) -> bool {
    let (dx, dy) = step_of(g0.player.direction);
    let log0 = texts(g0.messages@);
    match npc_to_talk(g0) {
        Some(n) => {
            &&& texts(g1.messages@) == logged(log0, "Rozmowa z: "@ + g0.world.npcs@[n].name@)
            &&& g1.dialogue matches Some(d) && is_begun_dialogue(d, g0.world.npcs@[n].dialogue_id@)
            &&& g1 == (GameState { messages: g1.messages, dialogue: g1.dialogue, screen: GameScreen::Dialogue, ..g0 })
        },
        None => match first_monster(g0.world.monsters@, g0.player.x + dx, g0.player.y + dy, 2, 0) {
            Some(m) => {
                &&& texts(g1.messages@) == logged(log0, "Atakujesz: "@ + g0.world.monsters@[m].name@ + "!"@)
                &&& g1.combat matches Some(c) && is_fresh_combat(c)
                &&& g1 == (GameState { messages: g1.messages, combat: g1.combat, screen: GameScreen::Combat(m as usize), ..g0 })
            },
            None => {
                &&& texts(g1.messages@) == logged(log0, "Nie ma tu nic do interakcji."@)
                &&& g1 == (GameState { messages: g1.messages, ..g0 })
            },
        },
    }
}

pub open spec fn interact_ok(g: GameState) -> bool {
    let (dx, dy) = step_of(g.player.direction);
    fits_i32(g.player.x + dx) && fits_i32(g.player.y + dy)
}


/// What the answer's `GiveItem(name)` gives: the two known potions, or else a quest item.
pub open spec fn gift_view(name: Seq<char>) -> ItemView {
    if name == "Jaskółka"@ {
        potion_view("Jaskółka"@, 50, 0, 30)
    } else if name == "Kot"@ {
        potion_view("Kot"@, 20, 20, 35)
    } else {
        quest_item_view(name, "Przedmiot z questu"@)
    }
}

pub open spec fn msg_level(level: int) -> Seq<char> {
    "Awans na poziom "@ + decimal(level) + "!"@
}

/// The messages an answer's action writes.
pub open spec fn action_messages(p: Player, a: Option<DialogueAction>) -> Seq<Seq<char>> {
    match a {
        None => Seq::empty(),
        Some(a) => match a {
            DialogueAction::StartQuest(_) => seq!["Nowy quest przyjęty!"@],
            DialogueAction::GiveItem(n) => seq!["Otrzymano: "@ + n@ + "!"@],
            DialogueAction::GiveGold(x) => seq!["Otrzymano: "@ + decimal(x as int) + " złota!"@],
            DialogueAction::GiveExp(x) => {
                let base = seq!["Otrzymano: "@ + decimal(x as int) + " doświadczenia!"@];
                if p.experience + x >= p.exp_to_next_level { base.push(msg_level(p.level + 1)) } else { base }
            },
            DialogueAction::Heal => seq!["Pełne leczenie!"@],
            DialogueAction::Trade => seq!["Handel zakończony."@],
            DialogueAction::Axii(_) => if p.stamina >= 20 {
                seq!["Axii zadziałało!"@]
            } else {
                seq!["Za mało wytrzymałości na Axii!"@]
            },
            _ => Seq::empty(),
        },
    }
}

/// `g1` is `g0` after an answer's action: a quest starts, an item or gold or experience
/// is given, the player is healed, or Axii costs 20 stamina when there is enough.
pub open spec fn action_effect(g0: GameState, g1: GameState, a: Option<DialogueAction>) -> bool {
    match a {
        None => g1 == g0,
        Some(a) => match a {
            DialogueAction::StartQuest(id) => start_result(g0.quest_log, g1.quest_log, id@)
                && g1 == (GameState { quest_log: g1.quest_log, ..g0 }),
            DialogueAction::GiveItem(n) => {
                &&& exists|item: Item| item@ == gift_view(n@) && #[trigger] after_add(g0.player.inventory, g1.player.inventory, item)
                &&& g1 == (GameState { player: Player { inventory: g1.player.inventory, ..g0.player }, ..g0 })
            },
            DialogueAction::GiveGold(x) => g1 == (GameState {
                player: Player {
                    inventory: Inventory { gold: (g0.player.inventory.gold + x) as i32, ..g0.player.inventory },
                    ..g0.player
                },
                ..g0
            }),
            DialogueAction::GiveExp(x) => g1 == (GameState { player: after_experience(g0.player, x as int), ..g0 }),
            DialogueAction::Heal => g1 == (GameState { player: rested(g0.player), ..g0 }),
            DialogueAction::Axii(_) => if g0.player.stamina >= 20 {
                g1 == (GameState { player: Player { stamina: (g0.player.stamina - 20) as i32, ..g0.player }, ..g0 })
            } else {
                g1 == g0
            },
            _ => g1 == g0,
        },
    }
}

/// The action's arithmetic stays in `i32`.
pub open spec fn action_ok(g: GameState, a: Option<DialogueAction>) -> bool {
    match a {
        Some(DialogueAction::GiveItem(n)) => one_more_fits(g.player.inventory, gift_view(n@).name),
        Some(DialogueAction::GiveGold(x)) => fits_i32(g.player.inventory.gold + x),
        Some(DialogueAction::GiveExp(x)) => gain_experience_ok(g.player, x as int),
        _ => true,
    }
}

/// `g1` is `g0` after the end of a conversation was checked against the quests: the
/// NPC within two cells, if any, counts as talked to.
pub open spec fn talk_checked(g0: GameState, g1: GameState) -> bool {
    match first_npc(g0.world.npcs@, g0.player.x as int, g0.player.y as int, 3, 0) {
        Some(n) => checked_result(g0.quest_log, g1.quest_log, g0.world.npcs@[n].dialogue_id@, true)
            && g1 == (GameState { quest_log: g1.quest_log, ..g0 }),
        None => g1 == g0,
    }
}

/// A completed quest whose reward is still unpaid.
pub open spec fn pays(q: Quest) -> bool {
    q.status == QuestStatus::Completed && q.experience_reward > 0
}

/// The player after being paid a quest's reward.
pub open spec fn paid(p: Player, q: Quest) -> Player {
    let p2 = after_experience(p, q.experience_reward as int);
    Player { inventory: Inventory { gold: (p2.inventory.gold + q.gold_reward) as i32, ..p2.inventory }, ..p2 }
}

pub open spec fn reward_messages(p: Player, q: Quest) -> Seq<Seq<char>> {
    let m = seq![
        "Quest ukończony! +"@ + decimal(q.experience_reward as int) + " EXP, +"@ + decimal(q.gold_reward as int) + " złota"@,
    ];
    if p.experience + q.experience_reward >= p.exp_to_next_level { m.push(msg_level(p.level + 1)) } else { m }
}

/// The player, and the messages written, after the rewards of the first `n` quests are paid.
pub open spec fn rewards(qs: Seq<Quest>, p: Player, n: int) -> (Player, Seq<Seq<char>>)
    decreases n,
{
    if n <= 0 {
        (p, Seq::empty())
    } else {
        let (p1, m1) = rewards(qs, p, n - 1);
        if pays(qs[n - 1]) {
            (paid(p1, qs[n - 1]), m1 + reward_messages(p1, qs[n - 1]))
        } else {
            (p1, m1)
        }
    }
}

/// Paying the rewards of the first `n` quests stays in `i32`.
pub open spec fn rewards_ok(qs: Seq<Quest>, p: Player, n: int) -> bool
    decreases n,
{
    if n <= 0 {
        true
    } else {
        &&& rewards_ok(qs, p, n - 1)
        &&& pays(qs[n - 1]) ==> {
            let p1 = rewards(qs, p, n - 1).0;
            &&& gain_experience_ok(p1, qs[n - 1].experience_reward as int)
            &&& fits_i32(after_experience(p1, qs[n - 1].experience_reward as int).inventory.gold + qs[n - 1].gold_reward)
        }
    }
}

/// A quest once its reward is paid.
pub open spec fn unpaid(q: Quest) -> Quest {
    if pays(q) { Quest { experience_reward: 0, gold_reward: 0, ..q } } else { q }
}

/// `g1` is `g0` after the rewards of completed quests are paid.
pub open spec fn rewarded(g0: GameState, g1: GameState) -> bool {
    let qs = g0.quest_log.quests@;
    &&& g1.quest_log.quests@ == qs.map_values(|q: Quest| unpaid(q))
    &&& g1 == (GameState {
        player: rewards(qs, g0.player, qs.len() as int).0,
        quest_log: QuestLog { quests: g1.quest_log.quests, ..g0.quest_log },
        ..g0
    })
}

/// The conversation after answer `idx` given by player `p`: the answer's next node, except
/// that an Axii answer leads on only when Axii succeeds (at least 20 stamina); when it
/// fails the conversation stays where it was.
pub open spec fn answered(d0: Dialogue, idx: int, p: Player) -> Dialogue {
    if chosen_action(d0, idx) matches Some(DialogueAction::Axii(_)) && p.stamina < 20 {
        d0
    } else {
        next_dialogue(d0, idx)
    }
}

/// `g1` is `g0` after answer `idx` in the open conversation (nothing happens without
/// one): the action takes effect and the conversation moves on (see `answered`); if it ends, the nearby NPC counts as
/// talked to, completed quests pay out, and the map is shown again; the messages of all
/// this are logged in order.
pub open spec fn dialogue_choice_result(g0: GameState, g1: GameState, idx: int) -> bool {
    match g0.dialogue {
        None => g1 == g0,
        Some(d0) => {
            let g = GameState { dialogue: None, ..g0 };
            let a = chosen_action(d0, idx);
            let d1 = answered(d0, idx, g0.player);
            let log0 = texts(g0.messages@);
            if d1.current_node is None {
                exists|ga: GameState, gt: GameState| {
                    &&& #[trigger] action_effect(g, ga, a)
                    &&& #[trigger] talk_checked(ga, gt)
                    &&& rewarded(gt, GameState { messages: gt.messages, screen: gt.screen, ..g1 })
                    &&& g1.dialogue is None
                    &&& g1.screen == GameScreen::Exploration
                    &&& texts(g1.messages@) == logged_all(log0, action_messages(g0.player, a) + rewards(
                        gt.quest_log.quests@, gt.player, gt.quest_log.quests@.len() as int).1)
                }
            } else {
                exists|ga: GameState| {
                    &&& #[trigger] action_effect(g, ga, a)
                    &&& g1 == (GameState { dialogue: Some(d1), messages: g1.messages, ..ga })
                    &&& texts(g1.messages@) == logged_all(log0, action_messages(g0.player, a))
                }
            }
        },
    }
}

/// Answer `idx` can be handled without leaving `i32`.
pub open spec fn dialogue_choice_ok(g0: GameState, idx: int) -> bool {
    match g0.dialogue {
        None => true,
        Some(d0) => {
            let g = GameState { dialogue: None, ..g0 };
            let a = chosen_action(d0, idx);
            &&& action_ok(g, a)
            &&& answered(d0, idx, g0.player).current_node is None ==> forall|ga: GameState, gt: GameState|
                #![trigger action_effect(g, ga, a), talk_checked(ga, gt)]
                action_effect(g, ga, a) && talk_checked(ga, gt) ==> rewards_ok(
                    gt.quest_log.quests@, gt.player, gt.quest_log.quests@.len() as int)
        },
    }
}


/// Position of the first inventory entry of kind `t` at or after `from`.
pub open spec fn first_of_type(items: Seq<Item>, t: ItemType, from: int) -> Option<int>
    decreases items.len() - from,
{
    if from < 0 || from >= items.len() {
        None
    } else if items[from].item_type == t {
        Some(from)
    } else {
        first_of_type(items, t, from + 1)
    }
}

/// The sign a number key selects.
pub open spec fn sign_key(key: Key) -> Option<usize> {
    match key {
        Key::Key1 => Some(0usize),
        Key::Key2 => Some(1usize),
        Key::Key3 => Some(2usize),
        Key::Key4 => Some(3usize),
        Key::Key5 => Some(4usize),
        _ => None,
    }
}

/// The fighting move a key makes on the player's turn: Q steel, W silver, E the active
/// sign, A dodge, S parry, D the first potion, F the first bomb.
pub open spec fn combat_action_for(key: Key, p: Player) -> Option<CombatAction> {
    match key {
        Key::Q => Some(CombatAction::AttackSteel),
        Key::W => Some(CombatAction::AttackSilver),
        Key::E => Some(CombatAction::UseSign(p.active_sign)),
        Key::A => Some(CombatAction::Dodge),
        Key::S => Some(CombatAction::Parry),
        Key::D => match first_of_type(p.inventory.items@, ItemType::Potion, 0) {
            Some(i) => Some(CombatAction::UsePotion(i as usize)),
            None => None,
        },
        Key::F => match first_of_type(p.inventory.items@, ItemType::Bomb, 0) {
            Some(i) => Some(CombatAction::UseBomb(i as usize)),
            None => None,
        },
        _ => None,
    }
}

/// `g1` is `g0` with the fight, the player and monster `mi` replaced.
pub open spec fn with_fight(g0: GameState, g1: GameState, mi: int, c: Combat, p: Player, m: Monster) -> bool {
    &&& g1.world.monsters@ == g0.world.monsters@.update(mi, m)
    &&& g1 == (GameState {
        combat: Some(c),
        player: p,
        world: WorldMap { monsters: g1.world.monsters, ..g0.world },
        ..g0
    })
}

pub open spec fn msg_beaten(name: Seq<char>, exp: int, gold: int) -> Seq<char> {
    name + " pokonany! +"@ + decimal(exp) + " EXP, +"@ + decimal(gold) + " złota"@
}

/// The player after the beaten monster's reward: its experience and gold, one kill more.
pub open spec fn after_victory(p: Player, m: Monster) -> Player {
    let p2 = after_experience(p, m.experience_reward as int);
    Player {
        kills: (p2.kills + 1) as i32,
        inventory: Inventory { gold: (p2.inventory.gold + m.gold_reward) as i32, ..p2.inventory },
        ..p2
    }
}

/// `g1` is `g0` after a key during a fight with monster `mi`: on the player's turn a
/// number key picks the active sign and a fighting key makes the move, after which the
/// foe takes its turn if the fight goes on; after a victory Return pays the reward,
/// counts the kill for the quests and leaves the fight; after a defeat Return wakes the
/// player, rested, at the start; nothing else happens.
pub open spec fn combat_key_result(g0: GameState, g1: GameState, key: Key) -> bool {
    match (g0.screen, g0.combat) {
        (GameScreen::Combat(mi), Some(c)) => {
            let p = g0.player;
            let m = g0.world.monsters@[mi as int];
            let log0 = texts(g0.messages@);
            match c.state {
                CombatState::PlayerTurn => match sign_key(key) {
                    Some(n) => g1 == (GameState { player: Player { active_sign: n, ..p }, ..g0 }),
                    None => match combat_action_for(key, p) {
                        None => g1 == g0,
                        Some(a) => exists|c1: Combat, p1: Player, m1: Monster| {
                            &&& #[trigger] player_action_result(c, c1, a, p, p1, m, m1)
                            &&& if c1.state == CombatState::EnemyTurn {
                                exists|c2: Combat, p2: Player, m2: Monster| #[trigger] enemy_turn_result(c1, c2, p1, p2, m1, m2)
                                    && with_fight(g0, g1, mi as int, c2, p2, m2)
                            } else {
                                with_fight(g0, g1, mi as int, c1, p1, m1)
                            }
                        },
                    },
                },
                CombatState::Victory => if key == Key::Return {
                    let log1 = logged(log0, msg_beaten(m.name@, m.experience_reward as int, m.gold_reward as int));
                    let log2 = if p.experience + m.experience_reward >= p.exp_to_next_level {
                        logged(log1, msg_level(p.level + 1))
                    } else {
                        log1
                    };
                    &&& checked_result(g0.quest_log, g1.quest_log, m.name@, false)
                    &&& texts(g1.messages@) == log2
                    &&& g1 == (GameState {
                        player: after_victory(p, m),
                        quest_log: g1.quest_log,
                        messages: g1.messages,
                        combat: None,
                        screen: GameScreen::Exploration,
                        ..g0
                    })
                } else {
                    g1 == g0
                },
                CombatState::Defeat => if key == Key::Return {
                    &&& texts(g1.messages@) == logged(log0, "Gerard odzyskuje przytomność..."@)
                    &&& g1 == (GameState {
                        player: Player { x: 25, y: 18, ..rested(p) },
                        messages: g1.messages,
                        combat: None,
                        screen: GameScreen::Exploration,
                        ..g0
                    })
                } else {
                    g1 == g0
                },
                CombatState::EnemyTurn => g1 == g0,
            }
        },
        _ => g1 == g0,
    }
}

/// A key during a fight can be handled without leaving `i32` and names an existing monster.
pub open spec fn combat_key_ok(g0: GameState, key: Key) -> bool {
    match (g0.screen, g0.combat) {
        (GameScreen::Combat(mi), Some(c)) => {
            let p = g0.player;
            let m = g0.world.monsters@[mi as int];
            &&& mi < g0.world.monsters@.len()
            &&& match c.state {
                CombatState::PlayerTurn => sign_key(key) is None ==> match combat_action_for(key, p) {
                    None => true,
                    Some(a) => {
                        &&& player_action_ok(a, p, m)
                        &&& forall|c1: Combat, p1: Player, m1: Monster|
                            #[trigger] player_action_result(c, c1, a, p, p1, m, m1) && c1.state == CombatState::EnemyTurn
                                ==> enemy_turn_ok(c1, p1, m1)
                    },
                },
                CombatState::Victory => key == Key::Return ==> {
                    &&& gain_experience_ok(p, m.experience_reward as int)
                    &&& fits_i32(after_experience(p, m.experience_reward as int).inventory.gold + m.gold_reward)
                    &&& fits_i32(p.kills + 1)
                },
                _ => true,
            }
        },
        _ => true,
    }
}


/// The message for selecting a sign with a number key.
pub open spec fn sign_selected_message(n: usize) -> Seq<char> {
    if n == 0 {
        "Aktywny znak: Aard"@
    } else if n == 1 {
        "Aktywny znak: Igni"@
    } else if n == 2 {
        "Aktywny znak: Quen"@
    } else if n == 3 {
        "Aktywny znak: Yrden"@
    } else {
        "Aktywny znak: Axii"@
    }
}

/// The answer a number key picks in a conversation.
pub open spec fn answer_key(key: Key) -> Option<usize> {
    match key {
        Key::Key1 => Some(0usize),
        Key::Key2 => Some(1usize),
        Key::Key3 => Some(2usize),
        Key::Key4 => Some(3usize),
        _ => None,
    }
}

/// `g1` is `g0` after Return on the inventory screen: the selected entry is put on
/// (swords, armor, oil) or drunk (potions; the selection steps back when it falls off
/// the list); anything else only gets a message.
pub open spec fn inventory_used(g0: GameState, g1: GameState) -> bool {
    let idx = g0.inventory_selected as int;
    let inv = g0.player.inventory;
    let log0 = texts(g0.messages@);
    if idx < inv.items@.len() {
        let it = inv.items@[idx];
        let t = it.item_type;
        if t == ItemType::SteelSword || t == ItemType::SilverSword || t == ItemType::Armor || t == ItemType::Oil {
            &&& equipped(inv, g1.player.inventory, idx)
            &&& texts(g1.messages@) == logged(log0, "Założono: "@ + it.name@)
            &&& g1 == (GameState {
                player: Player { inventory: g1.player.inventory, ..g0.player },
                messages: g1.messages,
                ..g0
            })
        } else if t == ItemType::Potion {
            let h = g0.player.health + it.health_restore;
            let st = g0.player.stamina + it.stamina_restore;
            &&& after_removal(inv, g1.player.inventory, idx)
            &&& texts(g1.messages@) == logged(log0, "Użyto: "@ + it.name@)
            &&& g1 == (GameState {
                player: Player {
                    health: if h <= g0.player.max_health { h as i32 } else { g0.player.max_health },
                    stamina: if st <= g0.player.max_stamina { st as i32 } else { g0.player.max_stamina },
                    inventory: g1.player.inventory,
                    ..g0.player
                },
                messages: g1.messages,
                inventory_selected: if idx >= g1.player.inventory.items@.len() && idx > 0 {
                    (idx - 1) as usize
                } else {
                    idx as usize
                },
                ..g0
            })
        } else {
            &&& texts(g1.messages@) == logged(log0, "Nie można użyć: "@ + it.name@)
            &&& g1 == (GameState { messages: g1.messages, ..g0 })
        }
    } else {
        g1 == g0
    }
}

/// `g1` is `g0` after `key` is pressed; the result says whether the game asks to quit.
pub open spec fn key_result(g0: GameState, g1: GameState, key: Key, quit: bool) -> bool {
    let log0 = texts(g0.messages@);
    match g0.screen {
        GameScreen::MainMenu => {
            &&& quit == (key == Key::Escape)
            &&& if key == Key::Return {
                g1 == (GameState { screen: GameScreen::Exploration, started: true, ..g0 })
            } else {
                g1 == g0
            }
        },
        GameScreen::Exploration => {
            &&& quit == (key == Key::Escape)
            &&& match key {
                Key::E => interacted(g0, g1),
                Key::I => g1 == (GameState { inventory_selected: 0, screen: GameScreen::Inventory, ..g0 }),
                Key::J => g1 == (GameState { screen: GameScreen::QuestLog, ..g0 }),
                Key::R => {
                    &&& texts(g1.messages@) == logged(log0, "Gerard odpoczywa... Zdrowie i wytrzymałość przywrócone."@)
                    &&& g1 == (GameState { player: rested(g0.player), messages: g1.messages, ..g0 })
                },
                _ => match sign_key(key) {
                    Some(n) => {
                        &&& texts(g1.messages@) == logged(log0, sign_selected_message(n))
                        &&& g1 == (GameState { player: Player { active_sign: n, ..g0.player }, messages: g1.messages, ..g0 })
                    },
                    None => g1 == g0,
                },
            }
        },
        GameScreen::Combat(_) => !quit && combat_key_result(g0, g1, key),
        GameScreen::Dialogue => {
            &&& !quit
            &&& match answer_key(key) {
                Some(i) => dialogue_choice_result(g0, g1, i as int),
                None => if key == Key::Escape {
                    g1 == (GameState { dialogue: None, screen: GameScreen::Exploration, ..g0 })
                } else {
                    g1 == g0
                },
            }
        },
        GameScreen::Inventory => {
            &&& !quit
            &&& match key {
                Key::Up => g1 == (GameState {
                    inventory_selected: if g0.inventory_selected > 0 { (g0.inventory_selected - 1) as usize } else { 0 },
                    ..g0
                }),
                Key::Down => g1 == (GameState {
                    inventory_selected: if g0.inventory_selected + 1 < g0.player.inventory.items@.len() {
                        (g0.inventory_selected + 1) as usize
                    } else {
                        g0.inventory_selected
                    },
                    ..g0
                }),
                Key::Return => inventory_used(g0, g1),
                Key::Escape | Key::I => g1 == (GameState { screen: GameScreen::Exploration, ..g0 }),
                _ => g1 == g0,
            }
        },
        GameScreen::QuestLog => {
            &&& !quit
            &&& if key == Key::Escape || key == Key::J {
                g1 == (GameState { screen: GameScreen::Exploration, ..g0 })
            } else {
                g1 == g0
            }
        },
        GameScreen::GameOver => {
            &&& !quit
            &&& if key == Key::Return {
                is_new_game(GameState { screen: GameScreen::MainMenu, started: false, ..g1 })
                    && g1.screen == GameScreen::Exploration && g1.started
            } else {
                g1 == g0
            }
        },
    }
}

/// The key can be handled without leaving the numbers' ranges.
pub open spec fn key_ok(g0: GameState, key: Key) -> bool {
    match g0.screen {
        GameScreen::Exploration => key == Key::E ==> interact_ok(g0),
        GameScreen::Combat(_) => combat_key_ok(g0, key),
        GameScreen::Dialogue => answer_key(key) matches Some(i) ==> dialogue_choice_ok(g0, i as int),
        GameScreen::Inventory => {
            &&& key == Key::Down ==> g0.inventory_selected + 1 <= usize::MAX
            &&& key == Key::Return && g0.inventory_selected < g0.player.inventory.items@.len()
                && g0.player.inventory.items@[g0.inventory_selected as int].item_type == ItemType::Potion ==> {
                let it = g0.player.inventory.items@[g0.inventory_selected as int];
                fits_i32(g0.player.health + it.health_restore) && fits_i32(g0.player.stamina + it.stamina_restore)
            }
        },
        _ => true,
    }
}

/// The step that the held movement keys ask for, checked in the order up, down, left, right.
pub fn held_step(up: bool, down: bool, left: bool, right: bool) -> (r: Option<(i32, i32)>)
    ensures
        r == (if up {
            Some((0i32, -1i32))
        } else if down {
            Some((0i32, 1i32))
        } else if left {
            Some((-1i32, 0i32))
        } else if right {
            Some((1i32, 0i32))
        } else {
            None
        }),
{
    if up {
        Some((0, -1))
    } else if down {
        Some((0, 1))
    } else if left {
        Some((-1, 0))
    } else if right {
        Some((1, 0))
    } else {
        None
    }
}

proof fn lemma_rewards_ok_prefix(qs: Seq<Quest>, p: Player, n: int, m: int)
    requires
        rewards_ok(qs, p, n),
        m <= n,
    ensures
        rewards_ok(qs, p, m),
    decreases n,
{
    if m < n && n > 0 {
        lemma_rewards_ok_prefix(qs, p, n - 1, m);
    }
}

impl GameState {
    /// A new game at the main menu, with the three welcome messages.
    pub fn new() -> (g: GameState)
        ensures
            is_new_game(g),
    {
        let mut messages: Vec<String> = Vec::new();
        messages.push(String::from_str("Witaj w świecie Wiedźmina!"));
        messages.push(String::from_str("Jesteś Gerard z Rumii ze Szkoły Dzika."));
        messages.push(String::from_str("WASD - ruch, E - interakcja, I - ekwipunek, J - questy"));
        let g = GameState {
            player: Player::new(),
            world: WorldMap::new(),
            screen: GameScreen::MainMenu,
            combat: None,
            quest_log: QuestLog::new(),
            dialogue: None,
            messages,
            inventory_selected: 0,
            started: false,
        };
        assert(texts(g.messages@) =~= welcome());
        g
    }

    /// Adds a message; the log keeps the last 50.
    pub fn add_message(&mut self, msg: String)
        ensures
            *final(self) == (GameState { messages: final(self).messages, ..*old(self) }),
            texts(final(self).messages@) == logged(texts(old(self).messages@), msg@),
    {
        let ghost m = msg@;
        self.messages.push(msg);
        if self.messages.len() > 50 {
            self.messages.remove(0);
        }
        assert(texts(self.messages@) =~= logged(texts(old(self).messages@), m));
    }

    /// Tries to step by (dx, dy) (see `moved`).
    pub fn try_move(&mut self, dx: i32, dy: i32)
        requires
            move_ok(*old(self), dx as int, dy as int),
        ensures
            moved(*old(self), *final(self), dx as int, dy as int),
    {
        let new_x = self.player.x + dx;
        let new_y = self.player.y + dy;
        if dx < 0 {
            self.player.direction = Direction::Left;
        }
        if dx > 0 {
            self.player.direction = Direction::Right;
        }
        if dy < 0 {
            self.player.direction = Direction::Up;
        }
        if dy > 0 {
            self.player.direction = Direction::Down;
        }
        if !self.world.is_walkable(new_x, new_y) {
            return;
        }
        self.player.x = new_x;
        self.player.y = new_y;
        let ghost g1 = *self;
        if let Some(mi) = self.world.find_monster_at(new_x, new_y, 2) {
            let msg = concat3("Spotkanie z: ", self.world.monsters[mi].name.as_str(), "!");
            self.add_message(msg);
            self.combat = Some(Combat::new());
            self.screen = GameScreen::Combat(mi);
        }
        let ghost g2 = *self;
        if let Some(li) = self.world.find_loot_at(new_x, new_y, 1) {
            let lname = concat3("Znaleziono: ", self.world.loot[li].name.as_str(), "!");
            self.world.loot[li].collected = true;
            let item = Item::ingredient(self.world.loot[li].item_name.as_str(), 5);
            assert(add_ok(self.player.inventory, item));
            self.player.inventory.add_item(item);
            self.add_message(lname);
        }
    }

    fn apply_dialogue_action(&mut self, action: DialogueAction, pending: &mut Vec<String>)
        requires
            action_ok(*old(self), Some(action)),
        ensures
            action_effect(*old(self), *final(self), Some(action)),
            texts(final(pending)@) == texts(old(pending)@) + action_messages(old(self).player, Some(action)),
    {
        let ghost p0 = old(pending)@;
        match action {
            DialogueAction::StartQuest(quest_id) => {
                self.quest_log.start_quest(quest_id.as_str());
                pending.push(String::from_str("Nowy quest przyjęty!"));
            },
            DialogueAction::GiveItem(item_name) => {
                proof {
                    reveal_strlit("Jaskółka");
                    reveal_strlit("Kot");
                }
                let item = if same_text(item_name.as_str(), "Jaskółka") {
                    Item::potion("Jaskółka", 50, 0, 30)
                } else if same_text(item_name.as_str(), "Kot") {
                    Item::potion("Kot", 20, 20, 35)
                } else {
                    Item::quest_item(item_name.as_str(), "Przedmiot z questu")
                };
                assert(add_ok(self.player.inventory, item));
                self.player.inventory.add_item(item);
                pending.push(concat3("Otrzymano: ", item_name.as_str(), "!"));
            },
            DialogueAction::GiveGold(amount) => {
                self.player.inventory.gold = self.player.inventory.gold + amount;
                pending.push(with_number("Otrzymano: ", amount as i64, " złota!"));
            },
            DialogueAction::GiveExp(amount) => {
                let leveled = self.player.gain_experience(amount);
                pending.push(with_number("Otrzymano: ", amount as i64, " doświadczenia!"));
                if leveled {
                    pending.push(with_number("Awans na poziom ", self.player.level as i64, "!"));
                }
            },
            DialogueAction::Heal => {
                self.player.rest();
                pending.push(String::from_str("Pełne leczenie!"));
            },
            DialogueAction::Trade => {
                pending.push(String::from_str("Handel zakończony."));
            },
            DialogueAction::Axii(_) => {
                if self.player.stamina >= 20 {
                    self.player.stamina = self.player.stamina - 20;
                    pending.push(String::from_str("Axii zadziałało!"));
                } else {
                    pending.push(String::from_str("Za mało wytrzymałości na Axii!"));
                }
            },
            DialogueAction::EndDialogue => {},
            DialogueAction::NoAction => {},
        }
        assert(texts(pending@) =~= texts(p0) + action_messages(old(self).player, Some(action)));
    }

    fn collect_rewards(&mut self, pending: &mut Vec<String>)
        requires
            rewards_ok(old(self).quest_log.quests@, old(self).player, old(self).quest_log.quests@.len() as int),
        ensures
            rewarded(*old(self), *final(self)),
            texts(final(pending)@) == texts(old(pending)@) + rewards(
                old(self).quest_log.quests@, old(self).player, old(self).quest_log.quests@.len() as int).1,
    {
        let ghost qs = self.quest_log.quests@;
        let ghost p0 = self.player;
        let ghost pend0 = pending@;
        let mut i: usize = 0;
        while i < self.quest_log.quests.len()
            invariant
                i <= qs.len(),
                self.quest_log.quests@.len() == qs.len(),
                rewards_ok(qs, p0, qs.len() as int),
                forall|k: int| 0 <= k < i ==> #[trigger] self.quest_log.quests@[k] == unpaid(qs[k]),
                forall|k: int| i <= k < qs.len() ==> #[trigger] self.quest_log.quests@[k] == qs[k],
                self.player == rewards(qs, p0, i as int).0,
                texts(pending@) == texts(pend0) + rewards(qs, p0, i as int).1,
                *self == (GameState {
                    player: self.player,
                    quest_log: QuestLog { quests: self.quest_log.quests, ..old(self).quest_log },
                    ..*old(self)
                }),
            decreases qs.len() - i,
        {
            proof {
                lemma_rewards_ok_prefix(qs, p0, qs.len() as int, i as int + 1);
            }
            let ghost p1 = self.player;
            let ghost before = pending@;
            if self.quest_log.quests[i].status == QuestStatus::Completed && self.quest_log.quests[i].experience_reward > 0 {
                let exp = self.quest_log.quests[i].experience_reward;
                let gold = self.quest_log.quests[i].gold_reward;
                self.quest_log.quests[i].experience_reward = 0;
                self.quest_log.quests[i].gold_reward = 0;
                let leveled = self.player.gain_experience(exp);
                self.player.inventory.gold = self.player.inventory.gold + gold;
                pending.push(with_two_numbers("Quest ukończony! +", exp as i64, " EXP, +", gold as i64, " złota"));
                if leveled {
                    pending.push(with_number("Awans na poziom ", self.player.level as i64, "!"));
                }
                assert(texts(pending@) =~= texts(before) + reward_messages(p1, qs[i as int]));
            }
            i = i + 1;
            assert(texts(pending@) =~= texts(pend0) + rewards(qs, p0, i as int).1);
        }
        assert(self.quest_log.quests@ =~= qs.map_values(|q: Quest| unpaid(q)));
    }

    fn flush_messages(&mut self, pending: Vec<String>)
        ensures
            *final(self) == (GameState { messages: final(self).messages, ..*old(self) }),
            texts(final(self).messages@) == logged_all(texts(old(self).messages@), texts(pending@)),
    {
        let mut i: usize = 0;
        while i < pending.len()
            invariant
                i <= pending@.len(),
                *self == (GameState { messages: self.messages, ..*old(self) }),
                texts(self.messages@) == logged_all(texts(old(self).messages@), texts(pending@).take(i as int)),
            decreases pending.len() - i,
        {
            let m = pending[i].clone();
            self.add_message(m);
            assert(texts(pending@).take(i as int + 1).drop_last() =~= texts(pending@).take(i as int));
            i = i + 1;
        }
        assert(texts(pending@).take(pending@.len() as int) =~= texts(pending@));
    }

    /// Handles answer `choice_idx` in the open conversation (see `dialogue_choice_result`).
    pub fn handle_dialogue_choice(&mut self, choice_idx: usize)
        requires
            dialogue_choice_ok(*old(self), choice_idx as int),
        ensures
            dialogue_choice_result(*old(self), *final(self), choice_idx as int),
    {
        let mut dlg = match self.dialogue.take() {
            Some(d) => d,
            None => return,
        };
        let ghost d0 = dlg;
        let ghost g = *self;
        assert(g == (GameState { dialogue: None, ..*old(self) }));
        let mut pending: Vec<String> = Vec::new();
        let before = match &dlg.current_node {
            Some(id) => Some(id.clone()),
            None => None,
        };
        let act = dlg.select_choice(choice_idx);
        let axii_failed = match &act {
            Some(DialogueAction::Axii(_)) => self.player.stamina < 20,
            _ => false,
        };
        if axii_failed {
            dlg.current_node = before;
        }
        assert(dlg == answered(d0, choice_idx as int, old(self).player));
        match act {
            Some(action) => self.apply_dialogue_action(action, &mut pending),
            None => {
                assert(texts(pending@) =~= action_messages(g.player, act));
            },
        }
        let ghost ga = *self;
        assert(texts(pending@) =~= action_messages(old(self).player, chosen_action(d0, choice_idx as int)));
        if dlg.current_node.is_none() {
            let px = self.player.x;
            let py = self.player.y;
            if let Some(ni) = self.world.find_npc_at(px, py, 3) {
                let npc_id = self.world.npcs[ni].dialogue_id.clone();
                self.quest_log.check_talk_objective(npc_id.as_str());
            }
            let ghost gt = *self;
            assert(action_effect(g, ga, chosen_action(d0, choice_idx as int)) && talk_checked(ga, gt));
            self.collect_rewards(&mut pending);
            self.dialogue = None;
            self.screen = GameScreen::Exploration;
            assert(texts(pending@) =~= action_messages(old(self).player, chosen_action(d0, choice_idx as int)) + rewards(
                gt.quest_log.quests@, gt.player, gt.quest_log.quests@.len() as int).1);
            self.flush_messages(pending);
            assert(rewarded(gt, GameState { messages: gt.messages, screen: gt.screen, ..*self }));
            assert(action_effect(g, ga, chosen_action(d0, choice_idx as int)) && talk_checked(ga, gt));
        } else {
            self.dialogue = Some(dlg);
            self.flush_messages(pending);
            assert(action_effect(g, ga, chosen_action(d0, choice_idx as int)));
        }
    }

    fn first_item_of(&self, t: ItemType) -> (r: Option<usize>)
        ensures
            r is Some == first_of_type(self.player.inventory.items@, t, 0) is Some,
            r matches Some(i) ==> first_of_type(self.player.inventory.items@, t, 0) == Some(i as int),
    {
        let mut i: usize = 0;
        while i < self.player.inventory.items.len()
            invariant
                i <= self.player.inventory.items@.len(),
                first_of_type(self.player.inventory.items@, t, 0) == first_of_type(self.player.inventory.items@, t, i as int),
            decreases self.player.inventory.items.len() - i,
        {
            if self.player.inventory.items[i].item_type == t {
                return Some(i);
            }
            i = i + 1;
        }
        None
    }

    /// Handles a key during a fight (see `combat_key_result`).
    pub fn handle_combat_key(&mut self, key: Key)
        requires
            combat_key_ok(*old(self), key),
        ensures
            combat_key_result(*old(self), *final(self), key),
    {
        let mi = match self.screen {
            GameScreen::Combat(mi) => mi,
            _ => return,
        };
        if self.combat.is_none() {
            return;
        }
        let state = match &self.combat {
            Some(c) => c.state,
            None => return,
        };
        match state {
            CombatState::PlayerTurn => {
                let action = match key {
                    Key::Q => Some(CombatAction::AttackSteel),
                    Key::W => Some(CombatAction::AttackSilver),
                    Key::E => Some(CombatAction::UseSign(self.player.active_sign)),
                    Key::A => Some(CombatAction::Dodge),
                    Key::S => Some(CombatAction::Parry),
                    Key::D => match self.first_item_of(ItemType::Potion) {
                        Some(i) => Some(CombatAction::UsePotion(i)),
                        None => None,
                    },
                    Key::F => match self.first_item_of(ItemType::Bomb) {
                        Some(i) => Some(CombatAction::UseBomb(i)),
                        None => None,
                    },
                    Key::Key1 => {
                        self.player.active_sign = 0;
                        None
                    },
                    Key::Key2 => {
                        self.player.active_sign = 1;
                        None
                    },
                    Key::Key3 => {
                        self.player.active_sign = 2;
                        None
                    },
                    Key::Key4 => {
                        self.player.active_sign = 3;
                        None
                    },
                    Key::Key5 => {
                        self.player.active_sign = 4;
                        None
                    },
                    _ => None,
                };
                if let Some(act) = action {
                    let mut combat = self.combat.take().unwrap();
                    let ghost c0 = combat;
                    let ghost p0 = self.player;
                    let ghost m0 = self.world.monsters@[mi as int];
                    combat.execute_player_action(act, &mut self.player, &mut self.world.monsters[mi]);
                    let ghost c1 = combat;
                    let ghost p1 = self.player;
                    let ghost m1 = self.world.monsters@[mi as int];
                    assert(player_action_result(c0, c1, act, p0, p1, m0, m1));
                    if combat.state == CombatState::EnemyTurn {
                        combat.execute_enemy_turn(&mut self.player, &mut self.world.monsters[mi]);
                        assert(enemy_turn_result(c1, combat, p1, self.player, m1, self.world.monsters@[mi as int]));
                    }
                    self.combat = Some(combat);
                    assert(self.world.monsters@ =~= old(self).world.monsters@.update(mi as int, self.world.monsters@[mi as int]));
                }
            },
            CombatState::Victory => {
                if key == Key::Return {
                    let exp = self.world.monsters[mi].experience_reward;
                    let gold = self.world.monsters[mi].gold_reward;
                    let name = self.world.monsters[mi].name.clone();
                    let leveled = self.player.gain_experience(exp);
                    self.player.inventory.gold = self.player.inventory.gold + gold;
                    self.player.kills = self.player.kills + 1;
                    let mut msg = String::from_str(name.as_str());
                    msg.append(" pokonany! +");
                    append_number(&mut msg, exp as i64);
                    msg.append(" EXP, +");
                    append_number(&mut msg, gold as i64);
                    msg.append(" złota");
                    self.add_message(msg);
                    if leveled {
                        let lmsg = with_number("Awans na poziom ", self.player.level as i64, "!");
                        self.add_message(lmsg);
                    }
                    self.quest_log.check_kill_objective(name.as_str());
                    self.combat = None;
                    self.screen = GameScreen::Exploration;
                }
            },
            CombatState::Defeat => {
                if key == Key::Return {
                    self.player.rest();
                    self.player.x = 25;
                    self.player.y = 18;
                    self.add_message(String::from_str("Gerard odzyskuje przytomność..."));
                    self.combat = None;
                    self.screen = GameScreen::Exploration;
                }
            },
            CombatState::EnemyTurn => {},
        }
    }

    fn use_selected_item(&mut self)
        requires
            key_ok(*old(self), Key::Return),
            old(self).screen == GameScreen::Inventory,
        ensures
            inventory_used(*old(self), *final(self)),
    {
        let idx = self.inventory_selected;
        if idx < self.player.inventory.items.len() {
            let itype = self.player.inventory.items[idx].item_type;
            let iname = self.player.inventory.items[idx].name.clone();
            match itype {
                ItemType::SteelSword | ItemType::SilverSword | ItemType::Armor | ItemType::Oil => {
                    self.player.inventory.equip_item(idx);
                    let mut msg = String::from_str("Założono: ");
                    msg.append(iname.as_str());
                    self.add_message(msg);
                },
                ItemType::Potion => {
                    let health = self.player.inventory.items[idx].health_restore;
                    let stamina = self.player.inventory.items[idx].stamina_restore;
                    self.player.heal(health);
                    self.player.restore_stamina(stamina);
                    let mut msg = String::from_str("Użyto: ");
                    msg.append(iname.as_str());
                    self.add_message(msg);
                    self.player.inventory.remove_item(idx);
                    if self.inventory_selected >= self.player.inventory.items.len() && self.inventory_selected > 0 {
                        self.inventory_selected = self.inventory_selected - 1;
                    }
                },
                _ => {
                    let mut msg = String::from_str("Nie można użyć: ");
                    msg.append(iname.as_str());
                    self.add_message(msg);
                },
            }
        }
    }

    /// Reacts to a key on the current screen (see `key_result`); true when the player asks to quit.
    pub fn key_down_event(&mut self, key: Key) -> (quit: bool)
        requires
            key_ok(*old(self), key),
        ensures
            key_result(*old(self), *final(self), key, quit),
    {
        match self.screen {
            GameScreen::MainMenu => {
                if key == Key::Return {
                    self.screen = GameScreen::Exploration;
                    self.started = true;
                }
                key == Key::Escape
            },
            GameScreen::Exploration => {
                match key {
                    Key::E => self.interact(),
                    Key::I => {
                        self.inventory_selected = 0;
                        self.screen = GameScreen::Inventory;
                    },
                    Key::J => {
                        self.screen = GameScreen::QuestLog;
                    },
                    Key::R => {
                        self.player.rest();
                        self.add_message(String::from_str("Gerard odpoczywa... Zdrowie i wytrzymałość przywrócone."));
                    },
                    Key::Key1 => {
                        self.player.active_sign = 0;
                        self.add_message(String::from_str("Aktywny znak: Aard"));
                    },
                    Key::Key2 => {
                        self.player.active_sign = 1;
                        self.add_message(String::from_str("Aktywny znak: Igni"));
                    },
                    Key::Key3 => {
                        self.player.active_sign = 2;
                        self.add_message(String::from_str("Aktywny znak: Quen"));
                    },
                    Key::Key4 => {
                        self.player.active_sign = 3;
                        self.add_message(String::from_str("Aktywny znak: Yrden"));
                    },
                    Key::Key5 => {
                        self.player.active_sign = 4;
                        self.add_message(String::from_str("Aktywny znak: Axii"));
                    },
                    _ => {},
                }
                key == Key::Escape
            },
            GameScreen::Combat(_) => {
                self.handle_combat_key(key);
                false
            },
            GameScreen::Dialogue => {
                match key {
                    Key::Key1 => self.handle_dialogue_choice(0),
                    Key::Key2 => self.handle_dialogue_choice(1),
                    Key::Key3 => self.handle_dialogue_choice(2),
                    Key::Key4 => self.handle_dialogue_choice(3),
                    Key::Escape => {
                        self.dialogue = None;
                        self.screen = GameScreen::Exploration;
                    },
                    _ => {},
                }
                false
            },
            GameScreen::Inventory => {
                match key {
                    Key::Up => {
                        if self.inventory_selected > 0 {
                            self.inventory_selected = self.inventory_selected - 1;
                        }
                    },
                    Key::Down => {
                        if self.inventory_selected + 1 < self.player.inventory.items.len() {
                            self.inventory_selected = self.inventory_selected + 1;
                        }
                    },
                    Key::Return => self.use_selected_item(),
                    Key::Escape | Key::I => {
                        self.screen = GameScreen::Exploration;
                    },
                    _ => {},
                }
                false
            },
            GameScreen::QuestLog => {
                if key == Key::Escape || key == Key::J {
                    self.screen = GameScreen::Exploration;
                }
                false
            },
            GameScreen::GameOver => {
                if key == Key::Return {
                    *self = GameState::new();
                    self.screen = GameScreen::Exploration;
                    self.started = true;
                }
                false
            },
        }
    }

    /// Talks to a nearby NPC or attacks the faced monster (see `interacted`).
    pub fn interact(&mut self)
        requires
            interact_ok(*old(self)),
        ensures
            interacted(*old(self), *final(self)),
    {
        let px = self.player.x;
        let py = self.player.y;
        let (dx, dy): (i32, i32) = match self.player.direction {
            Direction::Up => (0, -1),
            Direction::Down => (0, 1),
            Direction::Left => (-1, 0),
            Direction::Right => (1, 0),
        };
        let tx = px + dx;
        let ty = py + dy;
        let ni = match self.world.find_npc_at(tx, ty, 2) {
            Some(n) => Some(n),
            None => self.world.find_npc_at(px, py, 2),
        };
        if let Some(ni) = ni {
            let mut msg = String::from_str("Rozmowa z: ");
            msg.append(self.world.npcs[ni].name.as_str());
            let mut dlg = get_dialogue(self.world.npcs[ni].dialogue_id.as_str());
            dlg.start();
            self.add_message(msg);
            self.dialogue = Some(dlg);
            self.screen = GameScreen::Dialogue;
            return;
        }
        if let Some(mi) = self.world.find_monster_at(tx, ty, 2) {
            let msg = concat3("Atakujesz: ", self.world.monsters[mi].name.as_str(), "!");
            self.add_message(msg);
            self.combat = Some(Combat::new());
            self.screen = GameScreen::Combat(mi);
            return;
        }
        self.add_message(String::from_str("Nie ma tu nic do interakcji."));
    }
}

} // verus!
