use vstd::prelude::*;
use vstd::string::*;

verus! {

/// The five witcher signs.
#[derive(Debug, Clone, Copy, PartialEq, Eq, Structural)]
pub enum SignType {
    Aard,
    Igni,
    Quen,
    Yrden,
    Axii,
}

impl SignType {
    /// The sign's printed name.
    pub fn label(&self) -> (s: &'static str)
        ensures
            s@ == sign_label(*self),
    {
        match self {
            SignType::Aard => "Aard",
            SignType::Igni => "Igni",
            SignType::Quen => "Quen",
            SignType::Yrden => "Yrden",
            SignType::Axii => "Axii",
        }
    }
}

pub open spec fn sign_label(t: SignType) -> Seq<char> {
    match t {
        SignType::Aard => "Aard"@,
        SignType::Igni => "Igni"@,
        SignType::Quen => "Quen"@,
        SignType::Yrden => "Yrden"@,
        SignType::Axii => "Axii"@,
    }
}

/// A sign as the player knows it.
#[derive(Debug)]
pub struct Sign {
    pub sign_type: SignType,
    pub name: String,
    pub description: String,
    pub stamina_cost: i32,
    pub base_power: i32,
    pub level: i32,
}

impl Clone for Sign {
    fn clone(&self) -> (r: Sign)
        ensures
            r == *self,
    {
        Sign {
            sign_type: self.sign_type,
            name: self.name.clone(),
            description: self.description.clone(),
            stamina_cost: self.stamina_cost,
            base_power: self.base_power,
            level: self.level,
        }
    }
}

/// Power of a sign: base power plus five per level above the first.
pub open spec fn spec_effective_power(s: Sign) -> int {
    s.base_power + (s.level - 1) * 5
}

/// Whether the sign's power can be computed without leaving `i32`.
pub open spec fn power_fits(s: Sign) -> bool {
    i32::MIN <= (s.level - 1) * 5 <= i32::MAX
    && i32::MIN <= spec_effective_power(s) <= i32::MAX
}

/// The sign `all_signs` puts at position `i`: type, cost, base power.
pub open spec fn starting_sign_stats(i: int) -> (SignType, i32, i32) {
    if i == 0 {
        (SignType::Aard, 15i32, 20i32)
    } else if i == 1 {
        (SignType::Igni, 20i32, 35i32)
    } else if i == 2 {
        (SignType::Quen, 25i32, 40i32)
    } else if i == 3 {
        (SignType::Yrden, 15i32, 15i32)
    } else {
        (SignType::Axii, 20i32, 10i32)
    }
}

pub open spec fn starting_sign_description(i: int) -> Seq<char> {
    if i == 0 {
        "Telekinetyczny podmuch odrzucający wrogów"@
    } else if i == 1 {
        "Strumień płomieni podpalający przeciwników"@
    } else if i == 2 {
        "Ochronna bariera pochłaniająca obrażenia"@
    } else if i == 3 {
        "Magiczny krąg spowalniający wrogów"@
    } else {
        "Kontrola umysłu - oszałamia przeciwnika"@
    }
}

/// The signs a witcher starts with, in the order Aard, Igni, Quen, Yrden, Axii.
pub open spec fn is_starting_signs(signs: Seq<Sign>) -> bool {
    &&& signs.len() == 5
    &&& forall|i: int|
        0 <= i < 5 ==> {
            let s = #[trigger] signs[i];
            &&& s.sign_type == starting_sign_stats(i).0
            &&& s.stamina_cost == starting_sign_stats(i).1
            &&& s.base_power == starting_sign_stats(i).2
            &&& s.level == 1
            &&& s.name@ == sign_label(s.sign_type)
            &&& s.description@ == starting_sign_description(i)
        }
}

impl Sign {
    fn make(sign_type: SignType, name: &str, description: &str, stamina_cost: i32, base_power: i32) -> (s: Sign)
        ensures
            s.sign_type == sign_type,
            s.name@ == name@,
            s.description@ == description@,
            s.stamina_cost == stamina_cost,
            s.base_power == base_power,
            s.level == 1,
    {
        Sign {
            sign_type,
            name: String::from_str(name),
            description: String::from_str(description),
            stamina_cost,
            base_power,
            level: 1,
        }
    }

    /// The five signs of a starting witcher.
    pub fn all_signs() -> (signs: Vec<Sign>)
        ensures
            is_starting_signs(signs@),
    {
        let mut v: Vec<Sign> = Vec::new();
        v.push(Sign::make(SignType::Aard, "Aard", "Telekinetyczny podmuch odrzucający wrogów", 15, 20));
        v.push(Sign::make(SignType::Igni, "Igni", "Strumień płomieni podpalający przeciwników", 20, 35));
        v.push(Sign::make(SignType::Quen, "Quen", "Ochronna bariera pochłaniająca obrażenia", 25, 40));
        v.push(Sign::make(SignType::Yrden, "Yrden", "Magiczny krąg spowalniający wrogów", 15, 15));
        v.push(Sign::make(SignType::Axii, "Axii", "Kontrola umysłu - oszałamia przeciwnika", 20, 10));
        assert(is_starting_signs(v@));
        v
    }

    /// Base power plus five per level above the first.
    pub fn effective_power(&self) -> (p: i32)
        requires
            power_fits(*self),
        ensures
            p == spec_effective_power(*self),
    {
        self.base_power + (self.level - 1) * 5
    }
}

} // verus!
