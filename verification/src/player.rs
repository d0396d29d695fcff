use vstd::prelude::*;
use vstd::string::*;
use crate::numbers::{fits_i32, trunc_div, max_int, min_int};
use crate::signs::{Sign, SignType, is_starting_signs, power_fits, spec_effective_power};
use crate::inventory::{Inventory, is_starter_inventory};

verus! {

/// Where the player faces.
#[derive(Debug, Clone, Copy, PartialEq, Eq, Structural)]
pub enum Direction {
    Up,
    Down,
    Left,
    Right,
}

/// Gerard of Rumia. The position is a whole map cell.
#[derive(Debug)]
pub struct Player {
    pub name: String,
    pub school: String,
    pub level: i32,
    pub experience: i32,
    pub exp_to_next_level: i32,
    pub max_health: i32,
    pub health: i32,
    pub max_stamina: i32,
    pub stamina: i32,
    pub strength: i32,
    pub dexterity: i32,
    pub intelligence: i32,
    pub x: i32,
    pub y: i32,
    pub direction: Direction,
    pub signs: Vec<Sign>,
    pub active_sign: usize,
    pub inventory: Inventory,
    pub quen_shield: i32,
    pub yrden_active: bool,
    pub kills: i32,
    pub quests_completed: i32,
}

/// Where a new game puts the player.
pub open spec fn start_x() -> i32 {
    25
}

pub open spec fn start_y() -> i32 {
    18
}

/// Defense of the player: dexterity, half the strength, and the armor's bonus.
pub open spec fn spec_defense(p: Player) -> int {
    p.dexterity + trunc_div(p.strength as int, 2) + p.inventory.armor_bonus()
}

/// Attack of the player: twice the strength, the dexterity, and the weapon bonus.
pub open spec fn spec_attack(p: Player, use_silver: bool) -> int {
    p.strength * 2 + p.dexterity + p.inventory.sword_bonus(use_silver) + p.inventory.oil_bonus()
}

/// Damage a blow would do before the Quen shield: the blow less half the defense, at least 1.
pub open spec fn blow_after_defense(p: Player, damage: int) -> int {
    max_int(damage - trunc_div(spec_defense(p), 2), 1)
}

/// Damage that gets past the Quen shield.
pub open spec fn damage_through_shield(shield: int, blow: int) -> int {
    if shield > 0 {
        if shield >= blow { 0 } else { blow - shield }
    } else {
        blow
    }
}

/// Shield left after a blow.
pub open spec fn shield_after(shield: int, blow: int) -> int {
    if shield > 0 {
        if shield >= blow { shield - blow } else { 0 }
    } else {
        shield
    }
}

/// What a blow of `damage` gets through to the player's health.
pub open spec fn damage_taken(p: Player, damage: int) -> int {
    damage_through_shield(p.quen_shield as int, blow_after_defense(p, damage))
}

/// The player after a blow of `damage` (see `Player::take_damage`).
pub open spec fn took_damage(p: Player, damage: int) -> Player {
    let blow = blow_after_defense(p, damage);
    Player {
        quen_shield: shield_after(p.quen_shield as int, blow) as i32,
        health: (if p.quen_shield > 0 && p.quen_shield >= blow {
            p.health as int
        } else {
            max_int(p.health - damage_taken(p, damage), 0)
        }) as i32,
        ..p
    }
}

/// The player after a rest: full health and stamina, no shield, no Yrden circle.
pub open spec fn rested(p: Player) -> Player {
    Player { health: p.max_health, stamina: p.max_stamina, quen_shield: 0, yrden_active: false, ..p }
}

/// The player after `amount` health is added, up to the maximum.
pub open spec fn healed(p: Player, amount: int) -> Player {
    Player { health: min_int(p.health + amount, p.max_health as int) as i32, ..p }
}

/// The player after `amount` stamina is added, up to the maximum.
pub open spec fn refreshed(p: Player, amount: int) -> Player {
    Player { stamina: min_int(p.stamina + amount, p.max_stamina as int) as i32, ..p }
}

/// The player after one point of stamina comes back.
pub open spec fn regenerated(p: Player) -> Player {
    Player { stamina: min_int(p.stamina + 1, p.max_stamina as int) as i32, ..p }
}

/// The defense computation reads an existing armor entry and stays in `i32`.
pub open spec fn defense_ok(p: Player) -> bool {
    &&& (p.inventory.equipped_armor matches Some(i) ==> i < p.inventory.items@.len())
    &&& fits_i32(p.dexterity + trunc_div(p.strength as int, 2))
    &&& fits_i32(spec_defense(p))
}

/// The attack computation reads existing entries and stays in `i32`.
pub open spec fn attack_ok(p: Player, use_silver: bool) -> bool {
    &&& p.inventory.attack_bonus_ok(use_silver)
    &&& fits_i32(p.strength * 2)
    &&& fits_i32(p.strength * 2 + p.dexterity)
    &&& fits_i32(spec_attack(p, use_silver))
}

/// A blow of `damage` can be taken without leaving `i32`.
pub open spec fn take_damage_ok(p: Player, damage: int) -> bool {
    &&& defense_ok(p)
    &&& fits_i32(damage - trunc_div(spec_defense(p), 2))
    &&& fits_i32(p.health - damage_through_shield(p.quen_shield as int, blow_after_defense(p, damage)))
}

/// The numbers a level-up changes stay in `i32`.
pub open spec fn level_up_ok(p: Player) -> bool {
    &&& fits_i32(p.level + 1)
    &&& fits_i32(p.experience - p.exp_to_next_level)
    &&& fits_i32((p.level + 1) * 50)
    &&& fits_i32(100 + (p.level + 1) * 50)
    &&& fits_i32(p.max_health + 20)
    &&& fits_i32(p.max_stamina + 10)
    &&& fits_i32(p.strength + 2)
    &&& fits_i32(p.dexterity + 1)
    &&& fits_i32(p.intelligence + 1)
}

/// The player after one level-up.
pub open spec fn leveled_up(p: Player) -> Player {
    Player {
        level: (p.level + 1) as i32,
        experience: (p.experience - p.exp_to_next_level) as i32,
        exp_to_next_level: (100 + (p.level + 1) * 50) as i32,
        max_health: (p.max_health + 20) as i32,
        health: (p.max_health + 20) as i32,
        max_stamina: (p.max_stamina + 10) as i32,
        stamina: (p.max_stamina + 10) as i32,
        strength: (p.strength + 2) as i32,
        dexterity: (p.dexterity + 1) as i32,
        intelligence: (p.intelligence + 1) as i32,
        ..p
    }
}

/// The player after gaining `amount` experience: at most one level-up, when the
/// experience reaches the threshold.
pub open spec fn after_experience(p: Player, amount: int) -> Player {
    let q = Player { experience: (p.experience + amount) as i32, ..p };
    if q.experience >= q.exp_to_next_level { leveled_up(q) } else { q }
}

pub open spec fn gain_experience_ok(p: Player, amount: int) -> bool {
    &&& fits_i32(p.experience + amount)
    &&& (p.experience + amount >= p.exp_to_next_level ==> level_up_ok(
        Player { experience: (p.experience + amount) as i32, ..p },
    ))
}

/// What `use_sign` does to the player when the sign is cast.
pub open spec fn after_sign(p: Player, i: int) -> Player {
    let s = p.signs@[i];
    Player {
        stamina: (p.stamina - s.stamina_cost) as i32,
        quen_shield: if s.sign_type == SignType::Quen { spec_effective_power(s) as i32 } else { p.quen_shield },
        yrden_active: if s.sign_type == SignType::Yrden { true } else { p.yrden_active },
        ..p
    }
}

/// Whether the player can pay for the sign at `i`.
pub open spec fn can_cast(p: Player, i: int) -> bool {
    0 <= i < p.signs@.len() && p.stamina >= p.signs@[i].stamina_cost
}

pub open spec fn use_sign_ok(p: Player, i: int) -> bool {
    0 <= i < p.signs@.len() ==> {
        &&& fits_i32(p.stamina - p.signs@[i].stamina_cost)
        &&& (p.signs@[i].sign_type == SignType::Quen ==> power_fits(p.signs@[i]))
    }
}

/// Gerard as a new game starts him (see `Player::new`).
pub open spec fn is_new_player(p: Player) -> bool {
    &&& p.name@ == "Gerard z Rumii"@
    &&& p.school@ == "Szkoła Dzika"@
    &&& p.level == 1
    &&& p.experience == 0
    &&& p.exp_to_next_level == 100
    &&& p.max_health == 150
    &&& p.health == 150
    &&& p.max_stamina == 100
    &&& p.stamina == 100
    &&& p.strength == 12
    &&& p.dexterity == 10
    &&& p.intelligence == 8
    &&& p.x == start_x()
    &&& p.y == start_y()
    &&& p.direction == Direction::Down
    &&& is_starting_signs(p.signs@)
    &&& p.active_sign == 0
    &&& is_starter_inventory(p.inventory)
    &&& p.quen_shield == 0
    &&& !p.yrden_active
    &&& p.kills == 0
    &&& p.quests_completed == 0
}

impl Player {
    /// A new game's Gerard: level 1, 150 health, 100 stamina, strength 12, dexterity 10,
    /// intelligence 8, at (25, 18) facing down, the five starting signs and the starting kit.
    pub fn new() -> (p: Player)
        ensures
            is_new_player(p),
    {
        Player {
            name: String::from_str("Gerard z Rumii"),
            school: String::from_str("Szkoła Dzika"),
            level: 1,
            experience: 0,
            exp_to_next_level: 100,
            max_health: 150,
            health: 150,
            max_stamina: 100,
            stamina: 100,
            strength: 12,
            dexterity: 10,
            intelligence: 8,
            x: 25,
            y: 18,
            direction: Direction::Down,
            signs: Sign::all_signs(),
            active_sign: 0,
            inventory: Inventory::starter_equipment(),
            quen_shield: 0,
            yrden_active: false,
            kills: 0,
            quests_completed: 0,
        }
    }

    /// Adds experience; levels up once, and returns true, when it reaches the threshold.
    pub fn gain_experience(&mut self, amount: i32) -> (leveled: bool)
        requires
            gain_experience_ok(*old(self), amount as int),
        ensures
            *final(self) == after_experience(*old(self), amount as int),
            leveled == (old(self).experience + amount >= old(self).exp_to_next_level),
    {
        self.experience = self.experience + amount;
        if self.experience >= self.exp_to_next_level {
            self.level_up();
            return true;
        }
        false
    }

    /// One level up: +20 max health, +10 max stamina, both refilled, +2 strength,
    /// +1 dexterity and intelligence; the threshold becomes 100 + 50 per level.
    pub fn level_up(&mut self)
        requires
            level_up_ok(*old(self)),
        ensures
            *final(self) == leveled_up(*old(self)),
    {
        self.level = self.level + 1;
        self.experience = self.experience - self.exp_to_next_level;
        self.exp_to_next_level = 100 + (self.level * 50);
        self.max_health = self.max_health + 20;
        self.health = self.max_health;
        self.max_stamina = self.max_stamina + 10;
        self.stamina = self.max_stamina;
        self.strength = self.strength + 2;
        self.dexterity = self.dexterity + 1;
        self.intelligence = self.intelligence + 1;
    }

    /// Twice the strength, plus dexterity, plus the weapon bonus.
    pub fn attack_power(&self, use_silver: bool) -> (a: i32)
        requires
            attack_ok(*self, use_silver),
        ensures
            a == spec_attack(*self, use_silver),
    {
        let base = self.strength * 2 + self.dexterity;
        let weapon_bonus = self.inventory.get_attack_bonus(use_silver);
        base + weapon_bonus
    }

    /// Dexterity, plus half the strength, plus the armor bonus.
    pub fn defense_power(&self) -> (d: i32)
        requires
            defense_ok(*self),
        ensures
            d == spec_defense(*self),
    {
        let base = self.dexterity + self.strength / 2;
        let armor_bonus = self.inventory.get_defense_bonus();
        base + armor_bonus
    }

    /// Casts the sign at `sign_index` if the stamina pays for it: Quen sets the shield
    /// to the sign's power, Yrden marks its circle active. Returns the sign cast.
    pub fn use_sign(&mut self, sign_index: usize) -> (r: Option<&Sign>)
        requires
            use_sign_ok(*old(self), sign_index as int),
        ensures
            can_cast(*old(self), sign_index as int) ==> {
                &&& *final(self) == after_sign(*old(self), sign_index as int)
                &&& r == Some(&old(self).signs@[sign_index as int])
            },
            !can_cast(*old(self), sign_index as int) ==> r is None && *final(self) == *old(self),
    {
        if sign_index >= self.signs.len() {
            return None;
        }
        let cost = self.signs[sign_index].stamina_cost;
        if self.stamina >= cost {
            self.stamina = self.stamina - cost;
            if self.signs[sign_index].sign_type == SignType::Quen {
                self.quen_shield = self.signs[sign_index].effective_power();
            }
            if self.signs[sign_index].sign_type == SignType::Yrden {
                self.yrden_active = true;
            }
            Some(&self.signs[sign_index])
        } else {
            None
        }
    }

    /// Takes a blow: half the defense is taken off (at least 1 stays), the Quen shield
    /// soaks what it can, and the rest comes off health (not below 0). Returns what got through.
    pub fn take_damage(&mut self, damage: i32) -> (actual: i32)
        requires
            take_damage_ok(*old(self), damage as int),
        ensures
            actual == damage_taken(*old(self), damage as int),
            *final(self) == took_damage(*old(self), damage as int),
    {
        let defense = self.defense_power();
        let d = damage - defense / 2;
        let mut actual_damage = if d > 1 { d } else { 1 };
        if self.quen_shield > 0 {
            if self.quen_shield >= actual_damage {
                self.quen_shield = self.quen_shield - actual_damage;
                return 0;
            } else {
                actual_damage = actual_damage - self.quen_shield;
                self.quen_shield = 0;
            }
        }
        let h = self.health - actual_damage;
        self.health = if h > 0 { h } else { 0 };
        actual_damage
    }

    /// Adds health up to the maximum.
    pub fn heal(&mut self, amount: i32)
        requires
            fits_i32(old(self).health + amount),
        ensures
            *final(self) == healed(*old(self), amount as int),
    {
        let h = self.health + amount;
        self.health = if h < self.max_health { h } else { self.max_health };
    }

    /// Adds stamina up to the maximum.
    pub fn restore_stamina(&mut self, amount: i32)
        requires
            fits_i32(old(self).stamina + amount),
        ensures
            *final(self) == refreshed(*old(self), amount as int),
    {
        let s = self.stamina + amount;
        self.stamina = if s < self.max_stamina { s } else { self.max_stamina };
    }

    /// Health above zero.
    pub fn is_alive(&self) -> (b: bool)
        ensures
            b == (self.health > 0),
    {
        self.health > 0
    }

    /// Full health and stamina; the shield and the Yrden circle end.
    pub fn rest(&mut self)
        ensures
            *final(self) == rested(*old(self)),
    {
        self.health = self.max_health;
        self.stamina = self.max_stamina;
        self.quen_shield = 0;
        self.yrden_active = false;
    }

    /// One point of stamina back, up to the maximum.
    pub fn regenerate_tick(&mut self)
        requires
            fits_i32(old(self).stamina + 1),
        ensures
            *final(self) == regenerated(*old(self)),
    {
        let s = self.stamina + 1;
        self.stamina = if s < self.max_stamina { s } else { self.max_stamina };
    }
}

} // verus!
