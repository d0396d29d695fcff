use vstd::prelude::*;
use vstd::string::*;
use crate::signs::SignType;
use crate::numbers::{fits_i32, trunc_div};

verus! {

/// Kinds of foes; the last two are people.
#[derive(Debug, Clone, Copy, PartialEq, Eq, Structural)]
pub enum MonsterType {
    Ghul,
    Utopiec,
    Gryf,
    Wilkolak,
    Endriaga,
    Kikimora,
    Bazyliszek,
    Leszen,
    Bandyta,
    Dezercja,
}

pub open spec fn spec_is_human(t: MonsterType) -> bool {
    t == MonsterType::Bandyta || t == MonsterType::Dezercja
}

pub open spec fn spec_display_char(t: MonsterType) -> char {
    match t {
        MonsterType::Ghul => 'G',
        MonsterType::Utopiec => 'U',
        MonsterType::Gryf => 'Y',
        MonsterType::Wilkolak => 'W',
        MonsterType::Endriaga => 'E',
        MonsterType::Kikimora => 'K',
        MonsterType::Bazyliszek => 'B',
        MonsterType::Leszen => 'L',
        MonsterType::Bandyta => 'b',
        MonsterType::Dezercja => 'd',
    }
}

impl MonsterType {
    /// Bandits and deserters are people; the rest are monsters.
    pub fn is_human(&self) -> (b: bool)
        ensures
            b == spec_is_human(*self),
    {
        match self {
            MonsterType::Bandyta | MonsterType::Dezercja => true,
            _ => false,
        }
    }

    /// The letter the kind is drawn with on a text map.
    pub fn display_char(&self) -> (c: char)
        ensures
            c == spec_display_char(*self),
    {
        match self {
            MonsterType::Ghul => 'G',
            MonsterType::Utopiec => 'U',
            MonsterType::Gryf => 'Y',
            MonsterType::Wilkolak => 'W',
            MonsterType::Endriaga => 'E',
            MonsterType::Kikimora => 'K',
            MonsterType::Bazyliszek => 'B',
            MonsterType::Leszen => 'L',
            MonsterType::Bandyta => 'b',
            MonsterType::Dezercja => 'd',
        }
    }
}

/// A foe on the map. Positions are whole map cells.
#[derive(Debug)]
pub struct Monster {
    pub name: String,
    pub monster_type: MonsterType,
    pub level: i32,
    pub max_health: i32,
    pub health: i32,
    pub attack: i32,
    pub defense: i32,
    pub experience_reward: i32,
    pub gold_reward: i32,
    pub weakness_sign: SignType,
    pub weakness_oil: String,
    pub description: String,
    pub x: i32,
    pub y: i32,
    pub alive: bool,
    pub stunned_turns: i32,
    pub slowed: bool,
}

impl Clone for Monster {
    fn clone(&self) -> (r: Monster)
        ensures
            r == *self,
    {
        Monster {
            name: self.name.clone(),
            monster_type: self.monster_type,
            level: self.level,
            max_health: self.max_health,
            health: self.health,
            attack: self.attack,
            defense: self.defense,
            experience_reward: self.experience_reward,
            gold_reward: self.gold_reward,
            weakness_sign: self.weakness_sign,
            weakness_oil: self.weakness_oil.clone(),
            description: self.description.clone(),
            x: self.x,
            y: self.y,
            alive: self.alive,
            stunned_turns: self.stunned_turns,
            slowed: self.slowed,
        }
    }
}

/// Damage a monster takes from a blow: the blow less a third of its defense, at least 1.
pub open spec fn monster_hit(damage: int, defense: int) -> int {
    let d = damage - trunc_div(defense, 3);
    if d > 1 { d } else { 1 }
}

/// Attack of a monster: nothing while stunned, three fifths (rounded toward zero) while slowed.
pub open spec fn spec_monster_attack(m: Monster) -> int {
    if m.stunned_turns > 0 {
        0
    } else if m.slowed {
        trunc_div(m.attack * 3, 5)
    } else {
        m.attack as int
    }
}

/// A monster fresh on the map with the given numbers.
pub open spec fn is_fresh_monster(
    m: Monster,
    name: Seq<char>,
    t: MonsterType,
    level: int,
    health: int,
    attack: int,
    defense: int,
    exp: int,
    gold: int,
    weak: SignType,
    oil: Seq<char>,
    desc: Seq<char>,
    x: i32,
    y: i32,
) -> bool {
    &&& m.name@ == name
    &&& m.monster_type == t
    &&& m.level == level
    &&& m.max_health == health
    &&& m.health == health
    &&& m.attack == attack
    &&& m.defense == defense
    &&& m.experience_reward == exp
    &&& m.gold_reward == gold
    &&& m.weakness_sign == weak
    &&& m.weakness_oil@ == oil
    &&& m.description@ == desc
    &&& m.x == x
    &&& m.y == y
    &&& m.alive
    &&& m.stunned_turns == 0
    &&& !m.slowed
}

/// A level-`level` Ghul fresh at (`x`, `y`).
pub open spec fn is_new_ghul(m: Monster, x: i32, y: i32, level: int) -> bool {
    is_fresh_monster(m, "Ghul"@, MonsterType::Ghul, level, 60 + level * 15, 12 + level * 3, 4 + level,
                25 + level * 10, 5 + level * 3, SignType::Igni, "Olej na nieumarłych"@, "Ohydny nieumarły żywiący się trupami"@, x, y)
}

/// A level-`level` Utopiec fresh at (`x`, `y`).
pub open spec fn is_new_utopiec(m: Monster, x: i32, y: i32, level: int) -> bool {
    is_fresh_monster(m, "Utopiec"@, MonsterType::Utopiec, level, 70 + level * 15, 14 + level * 3, 6 + level,
                30 + level * 10, 8 + level * 3, SignType::Yrden, "Olej na nieumarłych"@, "Wodny potwór czyhający w bagnach"@, x, y)
}

/// A level-`level` Gryf fresh at (`x`, `y`).
pub open spec fn is_new_gryf(m: Monster, x: i32, y: i32, level: int) -> bool {
    is_fresh_monster(m, "Gryf"@, MonsterType::Gryf, level, 120 + level * 20, 22 + level * 4, 10 + level * 2,
                60 + level * 15, 25 + level * 5, SignType::Aard, "Olej na bestie"@, "Potężna latająca bestia z ostrymi szponami"@, x, y)
}

/// A level-`level` Wilkołak fresh at (`x`, `y`).
pub open spec fn is_new_wilkolak(m: Monster, x: i32, y: i32, level: int) -> bool {
    is_fresh_monster(m, "Wilkołak"@, MonsterType::Wilkolak, level, 150 + level * 25, 25 + level * 5, 12 + level * 2,
                80 + level * 20, 30 + level * 5, SignType::Igni, "Olej na bestie"@, "Przeklęty człowiek-wilk o nadludzkiej sile"@, x, y)
}

/// A level-`level` Endriaga fresh at (`x`, `y`).
pub open spec fn is_new_endriaga(m: Monster, x: i32, y: i32, level: int) -> bool {
    is_fresh_monster(m, "Endriaga"@, MonsterType::Endriaga, level, 80 + level * 15, 18 + level * 4, 8 + level * 2,
                35 + level * 10, 10 + level * 3, SignType::Igni, "Olej na insektoidy"@, "Agresywny insektoid z twardym pancerzem"@, x, y)
}

/// A level-`level` Kikimora fresh at (`x`, `y`).
pub open spec fn is_new_kikimora(m: Monster, x: i32, y: i32, level: int) -> bool {
    is_fresh_monster(m, "Kikimora"@, MonsterType::Kikimora, level, 90 + level * 18, 20 + level * 4, 10 + level * 2,
                40 + level * 12, 12 + level * 4, SignType::Yrden, "Olej na insektoidy"@, "Wielki pająkowaty insektoid z bagien"@, x, y)
}

/// A level-`level` Bazyliszek fresh at (`x`, `y`).
pub open spec fn is_new_bazyliszek(m: Monster, x: i32, y: i32, level: int) -> bool {
    is_fresh_monster(m, "Bazyliszek"@, MonsterType::Bazyliszek, level, 200 + level * 30, 30 + level * 6, 15 + level * 3,
                100 + level * 25, 50 + level * 10, SignType::Aard, "Olej na drakonidy"@, "Przerażający gad zdolny zamienić w kamień spojrzeniem"@, x, y)
}

/// A level-`level` Leszy fresh at (`x`, `y`).
pub open spec fn is_new_leszen(m: Monster, x: i32, y: i32, level: int) -> bool {
    is_fresh_monster(m, "Leszy"@, MonsterType::Leszen, level, 250 + level * 35, 28 + level * 5, 18 + level * 3,
                120 + level * 30, 60 + level * 10, SignType::Igni, "Olej na relikty"@, "Starożytny strażnik lasu o potwornej mocy"@, x, y)
}

/// A level-`level` Bandyta fresh at (`x`, `y`).
pub open spec fn is_new_bandyta(m: Monster, x: i32, y: i32, level: int) -> bool {
    is_fresh_monster(m, "Bandyta"@, MonsterType::Bandyta, level, 50 + level * 10, 10 + level * 2, 5 + level,
                15 + level * 5, 15 + level * 5, SignType::Axii, ""@, "Zwykły bandyta grasujący na drogach"@, x, y)
}

impl Monster {
    /// Takes a blow: loses `monster_hit(damage, defense)` health (not below 0), dies at 0,
    /// and returns the damage dealt.
    pub fn take_damage(&mut self, damage: i32) -> (actual: i32)
        requires
            fits_i32(damage - trunc_div(old(self).defense as int, 3)),
            fits_i32(old(self).health - monster_hit(damage as int, old(self).defense as int)),
        ensures
            actual == monster_hit(damage as int, old(self).defense as int),
            final(self).health == (if old(self).health - actual > 0 { old(self).health - actual } else { 0 }),
            final(self).alive == (old(self).alive && final(self).health > 0),
            *final(self) == (Monster { health: final(self).health, alive: final(self).alive, ..*old(self) }),
    {
        let d = damage - self.defense / 3;
        let actual = if d > 1 { d } else { 1 };
        let h = self.health - actual;
        self.health = if h > 0 { h } else { 0 };
        if self.health <= 0 {
            self.alive = false;
        }
        actual
    }

    /// The monster's attack this turn (see `spec_monster_attack`).
    pub fn attack_power(&self) -> (a: i32)
        ensures
            a == spec_monster_attack(*self),
    {
        if self.stunned_turns > 0 {
            return 0;
        }
        if self.slowed {
            let p = self.attack as i64 * 3;
            (p / 5) as i32
        } else {
            self.attack
        }
    }

    /// Alive and with health left.
    pub fn is_alive(&self) -> (b: bool)
        ensures
            b == (self.alive && self.health > 0),
    {
        self.alive && self.health > 0
    }

    fn spawn(name: &str, monster_type: MonsterType, level: i32, health: i32, attack: i32, defense: i32,
        experience_reward: i32, gold_reward: i32, weakness_sign: SignType, weakness_oil: &str,
        description: &str, x: i32, y: i32) -> (m: Monster)
        ensures
            is_fresh_monster(m, name@, monster_type, level as int, health as int, attack as int, defense as int,
                experience_reward as int, gold_reward as int, weakness_sign, weakness_oil@, description@, x, y),
    {
        Monster {
            name: String::from_str(name),
            monster_type,
            level,
            max_health: health,
            health,
            attack,
            defense,
            experience_reward,
            gold_reward,
            weakness_sign,
            weakness_oil: String::from_str(weakness_oil),
            description: String::from_str(description),
            x,
            y,
            alive: true,
            stunned_turns: 0,
            slowed: false,
        }
    }

    /// A level-`level` Ghul standing at (`x`, `y`).
    pub fn ghul(x: i32, y: i32, level: i32) -> (m: Monster)
        requires
            fits_i32(60 + level * 15) && fits_i32(12 + level * 3) && fits_i32(4 + level) && fits_i32(25 + level * 10) && fits_i32(5 + level * 3) && fits_i32(level * 15) && fits_i32(level * 3) && fits_i32(level * 10) && fits_i32(level * 3),
        ensures
            is_new_ghul(m, x, y, level as int),
    {
        Monster::spawn("Ghul", MonsterType::Ghul, level, 60 + level * 15, 12 + level * 3, 4 + level, 25 + level * 10, 5 + level * 3,
            SignType::Igni, "Olej na nieumarłych", "Ohydny nieumarły żywiący się trupami", x, y)
    }

    /// A level-`level` Utopiec standing at (`x`, `y`).
    pub fn utopiec(x: i32, y: i32, level: i32) -> (m: Monster)
        requires
            fits_i32(70 + level * 15) && fits_i32(14 + level * 3) && fits_i32(6 + level) && fits_i32(30 + level * 10) && fits_i32(8 + level * 3) && fits_i32(level * 15) && fits_i32(level * 3) && fits_i32(level * 10) && fits_i32(level * 3),
        ensures
            is_new_utopiec(m, x, y, level as int),
    {
        Monster::spawn("Utopiec", MonsterType::Utopiec, level, 70 + level * 15, 14 + level * 3, 6 + level, 30 + level * 10, 8 + level * 3,
            SignType::Yrden, "Olej na nieumarłych", "Wodny potwór czyhający w bagnach", x, y)
    }

    /// A level-`level` Gryf standing at (`x`, `y`).
    pub fn gryf(x: i32, y: i32, level: i32) -> (m: Monster)
        requires
            fits_i32(120 + level * 20) && fits_i32(22 + level * 4) && fits_i32(10 + level * 2) && fits_i32(60 + level * 15) && fits_i32(25 + level * 5) && fits_i32(level * 20) && fits_i32(level * 4) && fits_i32(level * 2) && fits_i32(level * 15) && fits_i32(level * 5),
        ensures
            is_new_gryf(m, x, y, level as int),
    {
        Monster::spawn("Gryf", MonsterType::Gryf, level, 120 + level * 20, 22 + level * 4, 10 + level * 2, 60 + level * 15, 25 + level * 5,
            SignType::Aard, "Olej na bestie", "Potężna latająca bestia z ostrymi szponami", x, y)
    }

    /// A level-`level` Wilkołak standing at (`x`, `y`).
    pub fn wilkolak(x: i32, y: i32, level: i32) -> (m: Monster)
        requires
            fits_i32(150 + level * 25) && fits_i32(25 + level * 5) && fits_i32(12 + level * 2) && fits_i32(80 + level * 20) && fits_i32(30 + level * 5) && fits_i32(level * 25) && fits_i32(level * 5) && fits_i32(level * 2) && fits_i32(level * 20) && fits_i32(level * 5),
        ensures
            is_new_wilkolak(m, x, y, level as int),
    {
        Monster::spawn("Wilkołak", MonsterType::Wilkolak, level, 150 + level * 25, 25 + level * 5, 12 + level * 2, 80 + level * 20, 30 + level * 5,
            SignType::Igni, "Olej na bestie", "Przeklęty człowiek-wilk o nadludzkiej sile", x, y)
    }

    /// A level-`level` Endriaga standing at (`x`, `y`).
    pub fn endriaga(x: i32, y: i32, level: i32) -> (m: Monster)
        requires
            fits_i32(80 + level * 15) && fits_i32(18 + level * 4) && fits_i32(8 + level * 2) && fits_i32(35 + level * 10) && fits_i32(10 + level * 3) && fits_i32(level * 15) && fits_i32(level * 4) && fits_i32(level * 2) && fits_i32(level * 10) && fits_i32(level * 3),
        ensures
            is_new_endriaga(m, x, y, level as int),
    {
        Monster::spawn("Endriaga", MonsterType::Endriaga, level, 80 + level * 15, 18 + level * 4, 8 + level * 2, 35 + level * 10, 10 + level * 3,
            SignType::Igni, "Olej na insektoidy", "Agresywny insektoid z twardym pancerzem", x, y)
    }

    /// A level-`level` Kikimora standing at (`x`, `y`).
    pub fn kikimora(x: i32, y: i32, level: i32) -> (m: Monster)
        requires
            fits_i32(90 + level * 18) && fits_i32(20 + level * 4) && fits_i32(10 + level * 2) && fits_i32(40 + level * 12) && fits_i32(12 + level * 4) && fits_i32(level * 18) && fits_i32(level * 4) && fits_i32(level * 2) && fits_i32(level * 12) && fits_i32(level * 4),
        ensures
            is_new_kikimora(m, x, y, level as int),
    {
        Monster::spawn("Kikimora", MonsterType::Kikimora, level, 90 + level * 18, 20 + level * 4, 10 + level * 2, 40 + level * 12, 12 + level * 4,
            SignType::Yrden, "Olej na insektoidy", "Wielki pająkowaty insektoid z bagien", x, y)
    }

    /// A level-`level` Bazyliszek standing at (`x`, `y`).
    pub fn bazyliszek(x: i32, y: i32, level: i32) -> (m: Monster)
        requires
            fits_i32(200 + level * 30) && fits_i32(30 + level * 6) && fits_i32(15 + level * 3) && fits_i32(100 + level * 25) && fits_i32(50 + level * 10) && fits_i32(level * 30) && fits_i32(level * 6) && fits_i32(level * 3) && fits_i32(level * 25) && fits_i32(level * 10),
        ensures
            is_new_bazyliszek(m, x, y, level as int),
    {
        Monster::spawn("Bazyliszek", MonsterType::Bazyliszek, level, 200 + level * 30, 30 + level * 6, 15 + level * 3, 100 + level * 25, 50 + level * 10,
            SignType::Aard, "Olej na drakonidy", "Przerażający gad zdolny zamienić w kamień spojrzeniem", x, y)
    }

    /// A level-`level` Leszy standing at (`x`, `y`).
    pub fn leszen(x: i32, y: i32, level: i32) -> (m: Monster)
        requires
            fits_i32(250 + level * 35) && fits_i32(28 + level * 5) && fits_i32(18 + level * 3) && fits_i32(120 + level * 30) && fits_i32(60 + level * 10) && fits_i32(level * 35) && fits_i32(level * 5) && fits_i32(level * 3) && fits_i32(level * 30) && fits_i32(level * 10),
        ensures
            is_new_leszen(m, x, y, level as int),
    {
        Monster::spawn("Leszy", MonsterType::Leszen, level, 250 + level * 35, 28 + level * 5, 18 + level * 3, 120 + level * 30, 60 + level * 10,
            SignType::Igni, "Olej na relikty", "Starożytny strażnik lasu o potwornej mocy", x, y)
    }

    /// A level-`level` Bandyta standing at (`x`, `y`).
    pub fn bandyta(x: i32, y: i32, level: i32) -> (m: Monster)
        requires
            fits_i32(50 + level * 10) && fits_i32(10 + level * 2) && fits_i32(5 + level) && fits_i32(15 + level * 5) && fits_i32(15 + level * 5) && fits_i32(level * 10) && fits_i32(level * 2) && fits_i32(level * 5) && fits_i32(level * 5),
        ensures
            is_new_bandyta(m, x, y, level as int),
    {
        Monster::spawn("Bandyta", MonsterType::Bandyta, level, 50 + level * 10, 10 + level * 2, 5 + level, 15 + level * 5, 15 + level * 5,
            SignType::Axii, "", "Zwykły bandyta grasujący na drogach", x, y)
    }
}

} // verus!
