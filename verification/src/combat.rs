use vstd::prelude::*;
use vstd::string::*;
use crate::numbers::{fits_i32, trunc_div, max_int};
use crate::text::{decimal, append_number, concat3};
use crate::signs::{Sign, SignType, spec_effective_power, power_fits};
use crate::inventory::{ItemType, after_removal};
use crate::monsters::{Monster, spec_is_human, monster_hit, spec_monster_attack};
use crate::player::{
    Player, spec_attack, attack_ok, after_sign, can_cast, use_sign_ok, take_damage_ok,
    damage_taken, took_damage, regenerated,
};

verus! {

/// What the player does on their turn.
#[derive(Debug, Clone, Copy, PartialEq, Eq, Structural)]
pub enum CombatAction {
    AttackSteel,
    AttackSilver,
    UseSign(usize),
    UsePotion(usize),
    UseBomb(usize),
    Dodge,
    Parry,
}

/// The running story of a fight.
#[derive(Debug)]
pub struct CombatLog {
    pub messages: Vec<String>,
}

impl View for CombatLog {
    type V = Seq<Seq<char>>;

    open spec fn view(&self) -> Seq<Seq<char>> {
        self.messages@.map_values(|m: String| m@)
    }
}

impl CombatLog {
    /// An empty log.
    pub fn new() -> (l: CombatLog)
        ensures
            l@ == Seq::<Seq<char>>::empty(),
    {
        CombatLog { messages: Vec::new() }
    }

    /// Appends a message.
    pub fn add(&mut self, msg: String)
        ensures
            final(self)@ == old(self)@.push(msg@),
    {
        self.messages.push(msg);
        proof {
            assert(self@ =~= old(self)@.push(msg@));
        }
    }

    /// The last `count` messages (all of them when there are fewer), oldest first.
    pub fn last_messages(&self, count: usize) -> (r: Vec<&String>)
        ensures
            r@.len() == (if self.messages@.len() > count { count as int } else { self.messages@.len() as int }),
            forall|i: int| 0 <= i < r@.len() ==> *r@[i] == self.messages@[self.messages@.len() - r@.len() + i],
    {
        let start = if self.messages.len() > count { self.messages.len() - count } else { 0 };
        let mut r: Vec<&String> = Vec::new();
        let mut i = start;
        while i < self.messages.len()
            invariant
                start <= i <= self.messages.len(),
                start == (if self.messages@.len() > count { self.messages@.len() - count } else { 0 }),
                r@.len() == i - start,
                forall|k: int| 0 <= k < r@.len() ==> *r@[k] == self.messages@[start + k],
            decreases self.messages.len() - i,
        {
            r.push(&self.messages[i]);
            i = i + 1;
        }
        r
    }
}

/// Whose move it is, or how the fight ended.
#[derive(Debug, Clone, Copy, PartialEq, Eq, Structural)]
pub enum CombatState {
    PlayerTurn,
    EnemyTurn,
    Victory,
    Defeat,
}

/// A turn-based fight between Gerard and one foe.
#[derive(Debug)]
pub struct Combat {
    pub state: CombatState,
    pub turn: i32,
    pub log: CombatLog,
    pub player_dodging: bool,
    pub player_parrying: bool,
}

pub open spec fn weakness_tag(weak: bool) -> Seq<char> {
    if weak { " SŁABOŚĆ!"@ } else { ""@ }
}

pub open spec fn msg_steel(name: Seq<char>, dmg: int) -> Seq<char> {
    "Gerard atakuje "@ + name + " stalowym mieczem! "@ + decimal(dmg) + " obrażeń."@
}

pub open spec fn msg_silver(name: Seq<char>, dmg: int) -> Seq<char> {
    "Gerard atakuje "@ + name + " srebrnym mieczem! "@ + decimal(dmg) + " obrażeń."@
}

pub open spec fn msg_aard(sign: Seq<char>, dmg: int, weak: bool) -> Seq<char> {
    "Gerard używa "@ + sign + "! "@ + decimal(dmg) + " obrażeń, wróg oszołomiony!"@ + weakness_tag(weak)
}

pub open spec fn msg_igni(sign: Seq<char>, dmg: int, weak: bool) -> Seq<char> {
    "Gerard używa "@ + sign + "! Strumień ognia zadaje "@ + decimal(dmg) + " obrażeń!"@ + weakness_tag(weak)
}

pub open spec fn msg_quen(sign: Seq<char>, shield: int) -> Seq<char> {
    "Gerard używa "@ + sign + "! Tarcza ochronna ("@ + decimal(shield) + " pkt)."@
}

pub open spec fn msg_yrden(sign: Seq<char>, dmg: int, weak: bool) -> Seq<char> {
    "Gerard używa "@ + sign + "! Magiczny krąg spowalnia wroga. "@ + decimal(dmg) + " obr."@ + weakness_tag(weak)
}

pub open spec fn msg_axii(sign: Seq<char>, turns: int, weak: bool) -> Seq<char> {
    "Gerard używa "@ + sign + "! Wróg oszołomiony na "@ + decimal(turns) + " tury!"@ + weakness_tag(weak)
}

pub open spec fn msg_no_stamina() -> Seq<char> {
    "Za mało wytrzymałości na znak!"@
}

pub open spec fn msg_potion(item: Seq<char>, health: int, stamina: int) -> Seq<char> {
    "Gerard pije "@ + item + "! +"@ + decimal(health) + " zdrowia, +"@ + decimal(stamina) + " wytrzymałości."@
}

pub open spec fn msg_bomb(item: Seq<char>, dmg: int) -> Seq<char> {
    "Gerard rzuca "@ + item + "! "@ + decimal(dmg) + " obrażeń, wróg oszołomiony!"@
}

pub open spec fn msg_dodge() -> Seq<char> {
    "Gerard przygotowuje się do uniku."@
}

pub open spec fn msg_parry() -> Seq<char> {
    "Gerard przygotowuje się do parowania."@
}

pub open spec fn msg_victory(name: Seq<char>) -> Seq<char> {
    "=== "@ + name + " POKONANY! ==="@
}

pub open spec fn msg_stunned(name: Seq<char>) -> Seq<char> {
    name + " jest oszołomiony i traci turę!"@
}

pub open spec fn msg_dodged(name: Seq<char>) -> Seq<char> {
    "Gerard unika ataku "@ + name + "!"@
}

pub open spec fn msg_partial(name: Seq<char>, dmg: int) -> Seq<char> {
    name + " trafia mimo uniku! "@ + decimal(dmg) + " obrażeń (częściowe)."@
}

pub open spec fn msg_parried(name: Seq<char>, dmg: int) -> Seq<char> {
    "Gerard paruje atak "@ + name + "! Tylko "@ + decimal(dmg) + " obrażeń."@
}

pub open spec fn msg_hit(name: Seq<char>, dmg: int) -> Seq<char> {
    name + " atakuje Gerarda! "@ + decimal(dmg) + " obrażeń."@
}

pub open spec fn msg_defeat() -> Seq<char> {
    "=== GERARD POLEGŁ! ==="@
}

pub open spec fn msg_start() -> Seq<char> {
    "=== WALKA ROZPOCZĘTA ==="@
}

/// `m` after a blow of `damage`, as `Monster::take_damage` leaves it.
pub open spec fn hit_monster(m: Monster, damage: int) -> Monster {
    let actual = monster_hit(damage, m.defense as int);
    let h = max_int(m.health - actual, 0);
    Monster { health: h as i32, alive: m.alive && h > 0, ..m }
}

/// A blow of `damage` can land on `m` without leaving `i32`.
pub open spec fn hit_ok(m: Monster, damage: int) -> bool {
    &&& fits_i32(damage - trunc_div(m.defense as int, 3))
    &&& fits_i32(m.health - monster_hit(damage, m.defense as int))
}

/// Extra sign damage against the foe's weakness: half the sign's power.
pub open spec fn sign_bonus(power: int, weak: bool) -> int {
    if weak { trunc_div(power, 2) } else { 0 }
}

/// Bonus of a sword against the foe: steel +5 against people, silver +10 against monsters.
pub open spec fn sword_bonus(use_silver: bool, m: Monster) -> int {
    if use_silver {
        if !spec_is_human(m.monster_type) { 10 } else { 0 }
    } else {
        if spec_is_human(m.monster_type) { 5 } else { 0 }
    }
}

/// The arithmetic of the player's action stays in `i32` (overflow is the only thing refused).
pub open spec fn player_action_ok(a: CombatAction, p: Player, m: Monster) -> bool {
    match a {
        CombatAction::AttackSteel => attack_ok(p, false) && fits_i32(spec_attack(p, false) + sword_bonus(false, m))
            && hit_ok(m, spec_attack(p, false) + sword_bonus(false, m)),
        CombatAction::AttackSilver => attack_ok(p, true) && fits_i32(spec_attack(p, true) + sword_bonus(true, m))
            && hit_ok(m, spec_attack(p, true) + sword_bonus(true, m)),
        CombatAction::UseSign(i) => use_sign_ok(p, i as int) && (can_cast(p, i as int) ==> {
            let s = p.signs@[i as int];
            let power = spec_effective_power(s);
            let bonus = sign_bonus(power, s.sign_type == m.weakness_sign);
            &&& power_fits(s)
            &&& (s.sign_type == SignType::Aard ==> fits_i32(power + bonus) && hit_ok(m, power + bonus) && fits_i32(m.stunned_turns + 2))
            &&& (s.sign_type == SignType::Igni ==> fits_i32(power + bonus) && hit_ok(m, power + bonus))
            &&& (s.sign_type == SignType::Yrden ==> fits_i32(trunc_div(power, 2) + bonus) && hit_ok(m, trunc_div(power, 2) + bonus))
            &&& (s.sign_type == SignType::Axii ==> fits_i32(m.stunned_turns + 3))
        }),
        CombatAction::UsePotion(i) => i < p.inventory.items@.len() && p.inventory.items@[i as int].item_type == ItemType::Potion ==> {
            &&& fits_i32(p.health + p.inventory.items@[i as int].health_restore)
            &&& fits_i32(p.stamina + p.inventory.items@[i as int].stamina_restore)
        },
        CombatAction::UseBomb(i) => i < p.inventory.items@.len() && p.inventory.items@[i as int].item_type == ItemType::Bomb ==> {
            &&& hit_ok(m, p.inventory.items@[i as int].attack_bonus as int)
            &&& fits_i32(m.stunned_turns + 1)
        },
        _ => true,
    }
}

/// The foe after the player's action (before anything else happens).
pub open spec fn action_monster(a: CombatAction, p: Player, m: Monster) -> Monster {
    match a {
        CombatAction::AttackSteel => hit_monster(m, spec_attack(p, false) + sword_bonus(false, m)),
        CombatAction::AttackSilver => hit_monster(m, spec_attack(p, true) + sword_bonus(true, m)),
        CombatAction::UseSign(i) => if can_cast(p, i as int) {
            let s = p.signs@[i as int];
            let power = spec_effective_power(s);
            let weak = s.sign_type == m.weakness_sign;
            let bonus = sign_bonus(power, weak);
            match s.sign_type {
                SignType::Aard => {
                    let h = hit_monster(m, power + bonus);
                    Monster { stunned_turns: (h.stunned_turns + if weak { 2int } else { 1int }) as i32, ..h }
                },
                SignType::Igni => hit_monster(m, power + bonus),
                SignType::Quen => m,
                SignType::Yrden => hit_monster(Monster { slowed: true, ..m }, trunc_div(power, 2) + bonus),
                SignType::Axii => Monster { stunned_turns: (m.stunned_turns + if weak { 3int } else { 2int }) as i32, ..m },
            }
        } else {
            m
        },
        CombatAction::UseBomb(i) => if i < p.inventory.items@.len() && p.inventory.items@[i as int].item_type == ItemType::Bomb {
            let h = hit_monster(m, p.inventory.items@[i as int].attack_bonus as int);
            Monster { stunned_turns: (h.stunned_turns + 1) as i32, ..h }
        } else {
            m
        },
        _ => m,
    }
}

/// The message the player's action writes, if any.
pub open spec fn action_message(a: CombatAction, p: Player, m: Monster) -> Option<Seq<char>> {
    match a {
        CombatAction::AttackSteel => Some(msg_steel(m.name@, monster_hit(spec_attack(p, false) + sword_bonus(false, m), m.defense as int))),
        CombatAction::AttackSilver => Some(msg_silver(m.name@, monster_hit(spec_attack(p, true) + sword_bonus(true, m), m.defense as int))),
        CombatAction::UseSign(i) => if can_cast(p, i as int) {
            let s = p.signs@[i as int];
            let power = spec_effective_power(s);
            let weak = s.sign_type == m.weakness_sign;
            let bonus = sign_bonus(power, weak);
            match s.sign_type {
                SignType::Aard => Some(msg_aard(s.name@, monster_hit(power + bonus, m.defense as int), weak)),
                SignType::Igni => Some(msg_igni(s.name@, monster_hit(power + bonus, m.defense as int), weak)),
                SignType::Quen => Some(msg_quen(s.name@, power)),
                SignType::Yrden => Some(msg_yrden(s.name@, monster_hit(trunc_div(power, 2) + bonus, m.defense as int), weak)),
                SignType::Axii => Some(msg_axii(s.name@, m.stunned_turns + if weak { 3int } else { 2int }, weak)),
            }
        } else {
            Some(msg_no_stamina())
        },
        CombatAction::UsePotion(i) => if i < p.inventory.items@.len() && p.inventory.items@[i as int].item_type == ItemType::Potion {
            let it = p.inventory.items@[i as int];
            Some(msg_potion(it.name@, it.health_restore as int, it.stamina_restore as int))
        } else {
            None
        },
        CombatAction::UseBomb(i) => if i < p.inventory.items@.len() && p.inventory.items@[i as int].item_type == ItemType::Bomb {
            let it = p.inventory.items@[i as int];
            Some(msg_bomb(it.name@, monster_hit(it.attack_bonus as int, m.defense as int)))
        } else {
            None
        },
        CombatAction::Dodge => Some(msg_dodge()),
        CombatAction::Parry => Some(msg_parry()),
    }
}

/// `p1` is the player after the action `a` taken by `p0`.
pub open spec fn action_player(a: CombatAction, p0: Player, p1: Player) -> bool {
    match a {
        CombatAction::UseSign(i) => if can_cast(p0, i as int) { p1 == after_sign(p0, i as int) } else { p1 == p0 },
        CombatAction::UsePotion(i) => if i < p0.inventory.items@.len() && p0.inventory.items@[i as int].item_type == ItemType::Potion {
            let it = p0.inventory.items@[i as int];
            &&& p1 == (Player {
                health: if p0.health + it.health_restore <= p0.max_health { (p0.health + it.health_restore) as i32 } else { p0.max_health },
                stamina: if p0.stamina + it.stamina_restore <= p0.max_stamina { (p0.stamina + it.stamina_restore) as i32 } else { p0.max_stamina },
                inventory: p1.inventory,
                ..p0
            })
            &&& after_removal(p0.inventory, p1.inventory, i as int)
        } else {
            p1 == p0
        },
        CombatAction::UseBomb(i) => if i < p0.inventory.items@.len() && p0.inventory.items@[i as int].item_type == ItemType::Bomb {
            &&& p1 == (Player { inventory: p1.inventory, ..p0 })
            &&& after_removal(p0.inventory, p1.inventory, i as int)
        } else {
            p1 == p0
        },
        _ => p1 == p0,
    }
}

/// The action counts as the player's move: only a sign without the stamina for it does not.
pub open spec fn action_completes(a: CombatAction, p: Player) -> bool {
    match a {
        CombatAction::UseSign(i) => can_cast(p, i as int),
        _ => true,
    }
}

pub open spec fn push_opt(log: Seq<Seq<char>>, m: Option<Seq<char>>) -> Seq<Seq<char>> {
    match m {
        Some(x) => log.push(x),
        None => log,
    }
}

pub open spec fn monster_alive(m: Monster) -> bool {
    m.alive && m.health > 0
}

/// The player's action, then its outcome: the foe is beaten or it is the foe's turn.
pub open spec fn player_action_result(c0: Combat, c1: Combat, a: CombatAction, p0: Player, p1: Player, m0: Monster, m1: Monster) -> bool {
    let logged = push_opt(c0.log@, action_message(a, p0, m0));
    &&& action_player(a, p0, p1)
    &&& m1 == action_monster(a, p0, m0)
    &&& c1.turn == c0.turn
    &&& c1.player_dodging == (a == CombatAction::Dodge)
    &&& c1.player_parrying == (a == CombatAction::Parry)
    &&& if !action_completes(a, p0) {
        c1.state == c0.state && c1.log@ == logged
    } else if monster_alive(m1) {
        c1.state == CombatState::EnemyTurn && c1.log@ == logged
    } else {
        c1.state == CombatState::Victory && c1.log@ == logged.push(msg_victory(m0.name@))
    }
}

/// `a % b` as Rust computes it for a positive divisor (the sign follows `a`).
pub open spec fn trunc_rem(a: int, b: int) -> int {
    a - trunc_div(a, b) * b
}

/// How hard the foe hits this turn, given the player's guard, and whether it hits at all.
pub open spec fn enemy_blow(c: Combat, m: Monster) -> Option<int> {
    let attack = spec_monster_attack(m);
    if c.player_dodging {
        if trunc_rem(c.turn * 7 + attack, 10) < 6 { None } else { Some(trunc_div(attack, 2)) }
    } else if c.player_parrying {
        Some(trunc_div(attack, 3))
    } else {
        Some(attack)
    }
}

/// The message of the foe's attack.
pub open spec fn enemy_message(c: Combat, p: Player, m: Monster) -> Seq<char> {
    match enemy_blow(c, m) {
        None => msg_dodged(m.name@),
        Some(b) => if c.player_dodging {
            msg_partial(m.name@, damage_taken(p, b))
        } else if c.player_parrying {
            msg_parried(m.name@, damage_taken(p, b))
        } else {
            msg_hit(m.name@, damage_taken(p, b))
        },
    }
}

/// The player after the foe's attack (before regaining stamina).
pub open spec fn player_after_blow(c: Combat, p: Player, m: Monster) -> Player {
    match enemy_blow(c, m) {
        None => p,
        Some(b) => took_damage(p, b),
    }
}

/// The arithmetic of the foe's turn stays in `i32`.
pub open spec fn enemy_turn_ok(c: Combat, p: Player, m: Monster) -> bool {
    if m.stunned_turns > 0 {
        fits_i32(p.stamina + 1) && fits_i32(c.turn + 1)
    } else {
        let attack = spec_monster_attack(m);
        &&& (c.player_dodging ==> fits_i32(c.turn * 7) && fits_i32(c.turn * 7 + attack))
        &&& (enemy_blow(c, m) matches Some(b) ==> take_damage_ok(p, b))
        &&& fits_i32(player_after_blow(c, p, m).stamina + 1)
        &&& fits_i32(c.turn + 1)
    }
}

/// The foe's turn: a stunned foe loses it (one stun turn less); otherwise it attacks,
/// the player falls (defeat) or regains a point of stamina, the foe's slow ends, and
/// the next turn begins with the player.
pub open spec fn enemy_turn_result(c0: Combat, c1: Combat, p0: Player, p1: Player, m0: Monster, m1: Monster) -> bool {
    &&& c1.player_dodging == c0.player_dodging
    &&& c1.player_parrying == c0.player_parrying
    &&& if m0.stunned_turns > 0 {
        &&& m1 == (Monster { stunned_turns: (m0.stunned_turns - 1) as i32, ..m0 })
        &&& p1 == regenerated(p0)
        &&& c1.log@ == c0.log@.push(msg_stunned(m0.name@))
        &&& c1.state == CombatState::PlayerTurn
        &&& c1.turn == c0.turn + 1
    } else {
        let hurt = player_after_blow(c0, p0, m0);
        let logged = c0.log@.push(enemy_message(c0, p0, m0));
        if hurt.health <= 0 {
            &&& p1 == hurt
            &&& m1 == m0
            &&& c1.log@ == logged.push(msg_defeat())
            &&& c1.state == CombatState::Defeat
            &&& c1.turn == c0.turn
        } else {
            &&& p1 == regenerated(hurt)
            &&& m1 == (Monster { slowed: false, ..m0 })
            &&& c1.log@ == logged
            &&& c1.state == CombatState::PlayerTurn
            &&& c1.turn == c0.turn + 1
        }
    }
}

impl Combat {
    /// A fight at turn 1, the player to move, the log opened with the fight's heading.
    pub fn new() -> (c: Combat)
        ensures
            c.state == CombatState::PlayerTurn,
            c.turn == 1,
            c.log@ == seq![msg_start()],
            !c.player_dodging,
            !c.player_parrying,
    {
        let mut combat = Combat {
            state: CombatState::PlayerTurn,
            turn: 1,
            log: CombatLog::new(),
            player_dodging: false,
            player_parrying: false,
        };
        combat.log.add(String::from_str("=== WALKA ROZPOCZĘTA ==="));
        proof {
            assert(combat.log@ =~= seq![msg_start()]);
        }
        combat
    }

    fn sword_attack(&mut self, use_silver: bool, player: &Player, monster: &mut Monster)
        requires
            attack_ok(*player, use_silver),
            fits_i32(spec_attack(*player, use_silver) + sword_bonus(use_silver, *old(monster))),
            hit_ok(*old(monster), spec_attack(*player, use_silver) + sword_bonus(use_silver, *old(monster))),
        ensures
            ({
                let total = spec_attack(*player, use_silver) + sword_bonus(use_silver, *old(monster));
                let dmg = monster_hit(total, old(monster).defense as int);
                &&& *final(monster) == hit_monster(*old(monster), total)
                &&& final(self).log@ == old(self).log@.push(
                    if use_silver { msg_silver(old(monster).name@, dmg) } else { msg_steel(old(monster).name@, dmg) })
                &&& final(self).state == old(self).state
                &&& final(self).turn == old(self).turn
                &&& final(self).player_dodging == old(self).player_dodging
                &&& final(self).player_parrying == old(self).player_parrying
            }),
    {
        let damage = player.attack_power(use_silver);
        let human = monster.monster_type.is_human();
        let bonus = if use_silver {
            if !human { 10 } else { 0 }
        } else {
            if human { 5 } else { 0 }
        };
        let total = damage + bonus;
        let actual = monster.take_damage(total);
        let mut s = String::from_str("Gerard atakuje ");
        s.append(monster.name.as_str());
        if use_silver {
            s.append(" srebrnym mieczem! ");
        } else {
            s.append(" stalowym mieczem! ");
        }
        append_number(&mut s, actual as i64);
        s.append(" obrażeń.");
        self.log.add(s);
    }

    /// Casts the sign; false (and the message) when the stamina does not pay for it.
    fn cast_sign(&mut self, idx: usize, player: &mut Player, monster: &mut Monster) -> (cast: bool)
        requires
            player_action_ok(CombatAction::UseSign(idx), *old(player), *old(monster)),
        ensures
            cast == can_cast(*old(player), idx as int),
            action_player(CombatAction::UseSign(idx), *old(player), *final(player)),
            *final(monster) == action_monster(CombatAction::UseSign(idx), *old(player), *old(monster)),
            final(self).log@ == push_opt(old(self).log@, action_message(CombatAction::UseSign(idx), *old(player), *old(monster))),
            final(self).state == old(self).state,
            final(self).turn == old(self).turn,
            final(self).player_dodging == old(self).player_dodging,
            final(self).player_parrying == old(self).player_parrying,
    {
        let ghost p0 = *player;
        let ghost m0 = *monster;
        let (sign_type, power, sign_name) = match player.use_sign(idx) {
            Some(sign) => {
                let t = sign.sign_type;
                let pw = sign.effective_power();
                let n = sign.name.clone();
                (t, pw, n)
            },
            None => {
                self.log.add(String::from_str("Za mało wytrzymałości na znak!"));
                return false;
            },
        };
        let ghost sg = p0.signs@[idx as int];
        assert(sign_type == sg.sign_type && power == spec_effective_power(sg) && sign_name@ == sg.name@);
        let is_weakness = sign_type == monster.weakness_sign;
        let bonus = if is_weakness { power / 2 } else { 0 };
        let tag: &str = if is_weakness { " SŁABOŚĆ!" } else { "" };
        let mut s = String::from_str("Gerard używa ");
        s.append(sign_name.as_str());
        match sign_type {
            SignType::Aard => {
                let dmg = monster.take_damage(power + bonus);
                monster.stunned_turns = monster.stunned_turns + if is_weakness { 2 } else { 1 };
                s.append("! ");
                append_number(&mut s, dmg as i64);
                s.append(" obrażeń, wróg oszołomiony!");
                s.append(tag);
            },
            SignType::Igni => {
                let dmg = monster.take_damage(power + bonus);
                s.append("! Strumień ognia zadaje ");
                append_number(&mut s, dmg as i64);
                s.append(" obrażeń!");
                s.append(tag);
            },
            SignType::Quen => {
                s.append("! Tarcza ochronna (");
                append_number(&mut s, player.quen_shield as i64);
                s.append(" pkt).");
            },
            SignType::Yrden => {
                monster.slowed = true;
                let dmg = monster.take_damage(power / 2 + bonus);
                s.append("! Magiczny krąg spowalnia wroga. ");
                append_number(&mut s, dmg as i64);
                s.append(" obr.");
                s.append(tag);
            },
            SignType::Axii => {
                monster.stunned_turns = monster.stunned_turns + if is_weakness { 3 } else { 2 };
                s.append("! Wróg oszołomiony na ");
                append_number(&mut s, monster.stunned_turns as i64);
                s.append(" tury!");
                s.append(tag);
            },
        }
        self.log.add(s);
        true
    }

    /// Drinks the potion at `idx`, if that entry is a potion.
    fn drink_potion(&mut self, idx: usize, player: &mut Player, monster: &Monster)
        requires
            player_action_ok(CombatAction::UsePotion(idx), *old(player), *monster),
        ensures
            action_player(CombatAction::UsePotion(idx), *old(player), *final(player)),
            final(self).log@ == push_opt(old(self).log@, action_message(CombatAction::UsePotion(idx), *old(player), *monster)),
            final(self).state == old(self).state,
            final(self).turn == old(self).turn,
            final(self).player_dodging == old(self).player_dodging,
            final(self).player_parrying == old(self).player_parrying,
    {
        if idx < player.inventory.items.len() {
            let item = player.inventory.items[idx].clone();
            if item.item_type == ItemType::Potion {
                player.heal(item.health_restore);
                player.restore_stamina(item.stamina_restore);
                let mut s = String::from_str("Gerard pije ");
                s.append(item.name.as_str());
                s.append("! +");
                append_number(&mut s, item.health_restore as i64);
                s.append(" zdrowia, +");
                append_number(&mut s, item.stamina_restore as i64);
                s.append(" wytrzymałości.");
                self.log.add(s);
                player.inventory.remove_item(idx);
            }
        }
    }

    /// Throws the bomb at `idx`, if that entry is a bomb.
    fn throw_bomb(&mut self, idx: usize, player: &mut Player, monster: &mut Monster)
        requires
            player_action_ok(CombatAction::UseBomb(idx), *old(player), *old(monster)),
        ensures
            action_player(CombatAction::UseBomb(idx), *old(player), *final(player)),
            *final(monster) == action_monster(CombatAction::UseBomb(idx), *old(player), *old(monster)),
            final(self).log@ == push_opt(old(self).log@, action_message(CombatAction::UseBomb(idx), *old(player), *old(monster))),
            final(self).state == old(self).state,
            final(self).turn == old(self).turn,
            final(self).player_dodging == old(self).player_dodging,
            final(self).player_parrying == old(self).player_parrying,
    {
        if idx < player.inventory.items.len() {
            let item = player.inventory.items[idx].clone();
            if item.item_type == ItemType::Bomb {
                let dmg = monster.take_damage(item.attack_bonus);
                monster.stunned_turns = monster.stunned_turns + 1;
                let mut s = String::from_str("Gerard rzuca ");
                s.append(item.name.as_str());
                s.append("! ");
                append_number(&mut s, dmg as i64);
                s.append(" obrażeń, wróg oszołomiony!");
                self.log.add(s);
                player.inventory.remove_item(idx);
            }
        }
    }

    /// The player's move (see `player_action_result`): the action's effect and message,
    /// then victory if the foe fell, else the foe's turn. A sign without the stamina for
    /// it only writes a message and leaves the turn with the player.
    pub fn execute_player_action(&mut self, action: CombatAction, player: &mut Player, monster: &mut Monster)
        requires
            player_action_ok(action, *old(player), *old(monster)),
        ensures
            player_action_result(*old(self), *final(self), action, *old(player), *final(player), *old(monster), *final(monster)),
    {
        let ghost name = monster.name@;
        self.player_dodging = false;
        self.player_parrying = false;
        match action {
            CombatAction::AttackSteel => self.sword_attack(false, player, monster),
            CombatAction::AttackSilver => self.sword_attack(true, player, monster),
            CombatAction::UseSign(idx) => {
                if !self.cast_sign(idx, player, monster) {
                    return;
                }
            },
            CombatAction::UsePotion(idx) => self.drink_potion(idx, player, monster),
            CombatAction::UseBomb(idx) => self.throw_bomb(idx, player, monster),
            CombatAction::Dodge => {
                self.player_dodging = true;
                self.log.add(String::from_str("Gerard przygotowuje się do uniku."));
            },
            CombatAction::Parry => {
                self.player_parrying = true;
                self.log.add(String::from_str("Gerard przygotowuje się do parowania."));
            },
        }
        if !monster.is_alive() {
            self.state = CombatState::Victory;
            let msg = concat3("=== ", monster.name.as_str(), " POKONANY! ===");
            self.log.add(msg);
            return;
        }
        self.state = CombatState::EnemyTurn;
    }

    /// The foe's move (see `enemy_turn_result`).
    pub fn execute_enemy_turn(&mut self, player: &mut Player, monster: &mut Monster)
        requires
            enemy_turn_ok(*old(self), *old(player), *old(monster)),
        ensures
            enemy_turn_result(*old(self), *final(self), *old(player), *final(player), *old(monster), *final(monster)),
    {
        if monster.stunned_turns > 0 {
            monster.stunned_turns = monster.stunned_turns - 1;
            let mut s = String::from_str(monster.name.as_str());
            s.append(" jest oszołomiony i traci turę!");
            self.log.add(s);
            player.regenerate_tick();
            self.state = CombatState::PlayerTurn;
            self.turn = self.turn + 1;
            return;
        }
        let attack = monster.attack_power();
        if self.player_dodging {
            let dodge_roll = (self.turn * 7 + attack) % 10;
            if dodge_roll < 6 {
                let msg = concat3("Gerard unika ataku ", monster.name.as_str(), "!");
                self.log.add(msg);
            } else {
                let dmg = player.take_damage(attack / 2);
                let mut s = String::from_str(monster.name.as_str());
                s.append(" trafia mimo uniku! ");
                append_number(&mut s, dmg as i64);
                s.append(" obrażeń (częściowe).");
                self.log.add(s);
            }
        } else if self.player_parrying {
            let dmg = player.take_damage(attack / 3);
            let mut s = String::from_str("Gerard paruje atak ");
            s.append(monster.name.as_str());
            s.append("! Tylko ");
            append_number(&mut s, dmg as i64);
            s.append(" obrażeń.");
            self.log.add(s);
        } else {
            let dmg = player.take_damage(attack);
            let mut s = String::from_str(monster.name.as_str());
            s.append(" atakuje Gerarda! ");
            append_number(&mut s, dmg as i64);
            s.append(" obrażeń.");
            self.log.add(s);
        }
        if !player.is_alive() {
            self.state = CombatState::Defeat;
            self.log.add(String::from_str("=== GERARD POLEGŁ! ==="));
            return;
        }
        player.regenerate_tick();
        if monster.slowed {
            monster.slowed = false;
        }
        self.state = CombatState::PlayerTurn;
        self.turn = self.turn + 1;
    }
}

} // verus!
