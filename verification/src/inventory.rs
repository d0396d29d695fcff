use vstd::prelude::*;
use vstd::string::*;
use crate::text::{decimal, with_number, with_two_numbers};

verus! {

/// What kind of thing an item is.
#[derive(Debug, Clone, Copy, PartialEq, Eq, Structural)]
pub enum ItemType {
    SteelSword,
    SilverSword,
    Armor,
    Potion,
    Oil,
    Bomb,
    AlchemyIngredient,
    QuestItem,
    Junk,
}

#[derive(Debug, Clone, Copy, PartialEq, Eq, Structural)]
pub enum WeaponMaterial {
    Steel,
    Silver,
}

#[derive(Debug, Clone, Copy, PartialEq, Eq, Structural)]
pub enum ArmorWeight {
    Light,
    Medium,
    Heavy,
}

/// An item; items of the stackable kinds carry a quantity.
#[derive(Debug)]
pub struct Item {
    pub name: String,
    pub description: String,
    pub item_type: ItemType,
    pub attack_bonus: i32,
    pub defense_bonus: i32,
    pub health_restore: i32,
    pub stamina_restore: i32,
    pub value: i32,
    pub quantity: i32,
}

/// An item with its texts taken as character sequences.
pub struct ItemView {
    pub name: Seq<char>,
    pub description: Seq<char>,
    pub item_type: ItemType,
    pub attack_bonus: i32,
    pub defense_bonus: i32,
    pub health_restore: i32,
    pub stamina_restore: i32,
    pub value: i32,
    pub quantity: i32,
}

impl View for Item {
    type V = ItemView;

    open spec fn view(&self) -> ItemView {
        ItemView {
            name: self.name@,
            description: self.description@,
            item_type: self.item_type,
            attack_bonus: self.attack_bonus,
            defense_bonus: self.defense_bonus,
            health_restore: self.health_restore,
            stamina_restore: self.stamina_restore,
            value: self.value,
            quantity: self.quantity,
        }
    }
}

impl Clone for Item {
    fn clone(&self) -> (r: Item)
        ensures
            r == *self,
    {
        Item {
            name: self.name.clone(),
            description: self.description.clone(),
            item_type: self.item_type,
            attack_bonus: self.attack_bonus,
            defense_bonus: self.defense_bonus,
            health_restore: self.health_restore,
            stamina_restore: self.stamina_restore,
            value: self.value,
            quantity: self.quantity,
        }
    }
}

/// A single item of the given kind and numbers.
pub open spec fn item_view(
    name: Seq<char>,
    description: Seq<char>,
    item_type: ItemType,
    attack_bonus: i32,
    defense_bonus: i32,
    health_restore: i32,
    stamina_restore: i32,
    value: i32,
) -> ItemView {
    ItemView {
        name,
        description,
        item_type,
        attack_bonus,
        defense_bonus,
        health_restore,
        stamina_restore,
        value,
        quantity: 1,
    }
}

pub open spec fn steel_sword_view(name: Seq<char>, attack: i32, value: i32) -> ItemView {
    item_view(name, "Stalowy miecz - "@ + decimal(attack as int) + " pkt ataku"@, ItemType::SteelSword, attack, 0, 0, 0, value)
}

pub open spec fn silver_sword_view(name: Seq<char>, attack: i32, value: i32) -> ItemView {
    item_view(name, "Srebrny miecz - "@ + decimal(attack as int) + " pkt ataku na potwory"@, ItemType::SilverSword, attack, 0, 0, 0, value)
}

pub open spec fn armor_view(name: Seq<char>, defense: i32, value: i32) -> ItemView {
    item_view(name, "Zbroja - "@ + decimal(defense as int) + " pkt obrony"@, ItemType::Armor, 0, defense, 0, 0, value)
}

pub open spec fn potion_view(name: Seq<char>, health: i32, stamina: i32, value: i32) -> ItemView {
    item_view(
        name,
        "Eliksir - przywraca "@ + decimal(health as int) + " zdrowia, "@ + decimal(stamina as int) + " wytrzymałości"@,
        ItemType::Potion, 0, 0, health, stamina, value,
    )
}

pub open spec fn oil_view(name: Seq<char>, attack: i32, value: i32) -> ItemView {
    item_view(name, "Olej na broń - +"@ + decimal(attack as int) + " do ataku"@, ItemType::Oil, attack, 0, 0, 0, value)
}

pub open spec fn bomb_view(name: Seq<char>, power: i32, value: i32) -> ItemView {
    item_view(name, "Bomba - "@ + decimal(power as int) + " pkt obrażeń obszarowych"@, ItemType::Bomb, power, 0, 0, 0, value)
}

pub open spec fn ingredient_view(name: Seq<char>, value: i32) -> ItemView {
    item_view(name, "Składnik alchemiczny"@, ItemType::AlchemyIngredient, 0, 0, 0, 0, value)
}

pub open spec fn quest_item_view(name: Seq<char>, desc: Seq<char>) -> ItemView {
    item_view(name, desc, ItemType::QuestItem, 0, 0, 0, 0, 0)
}

impl Item {
    fn single(name: &str, description: String, item_type: ItemType, attack_bonus: i32, defense_bonus: i32,
        health_restore: i32, stamina_restore: i32, value: i32) -> (r: Item)
        ensures
            r@ == item_view(name@, description@, item_type, attack_bonus, defense_bonus, health_restore, stamina_restore, value),
    {
        Item {
            name: String::from_str(name),
            description,
            item_type,
            attack_bonus,
            defense_bonus,
            health_restore,
            stamina_restore,
            value,
            quantity: 1,
        }
    }

    /// A steel sword.
    pub fn steel_sword(name: &str, attack: i32, value: i32) -> (r: Item)
        ensures
            r@ == steel_sword_view(name@, attack, value),
    {
        let d = with_number("Stalowy miecz - ", attack as i64, " pkt ataku");
        Item::single(name, d, ItemType::SteelSword, attack, 0, 0, 0, value)
    }

    /// A silver sword.
    pub fn silver_sword(name: &str, attack: i32, value: i32) -> (r: Item)
        ensures
            r@ == silver_sword_view(name@, attack, value),
    {
        let d = with_number("Srebrny miecz - ", attack as i64, " pkt ataku na potwory");
        Item::single(name, d, ItemType::SilverSword, attack, 0, 0, 0, value)
    }

    /// A piece of armor.
    pub fn armor(name: &str, defense: i32, value: i32) -> (r: Item)
        ensures
            r@ == armor_view(name@, defense, value),
    {
        let d = with_number("Zbroja - ", defense as i64, " pkt obrony");
        Item::single(name, d, ItemType::Armor, 0, defense, 0, 0, value)
    }

    /// A potion restoring health and stamina.
    pub fn potion(name: &str, health: i32, stamina: i32, value: i32) -> (r: Item)
        ensures
            r@ == potion_view(name@, health, stamina, value),
    {
        let d = with_two_numbers("Eliksir - przywraca ", health as i64, " zdrowia, ", stamina as i64, " wytrzymałości");
        Item::single(name, d, ItemType::Potion, 0, 0, health, stamina, value)
    }

    /// A blade oil.
    pub fn oil(name: &str, attack: i32, value: i32) -> (r: Item)
        ensures
            r@ == oil_view(name@, attack, value),
    {
        let d = with_number("Olej na broń - +", attack as i64, " do ataku");
        Item::single(name, d, ItemType::Oil, attack, 0, 0, 0, value)
    }

    /// A bomb; its power is kept as the attack bonus.
    pub fn bomb(name: &str, power: i32, value: i32) -> (r: Item)
        ensures
            r@ == bomb_view(name@, power, value),
    {
        let d = with_number("Bomba - ", power as i64, " pkt obrażeń obszarowych");
        Item::single(name, d, ItemType::Bomb, power, 0, 0, 0, value)
    }

    /// An alchemy ingredient.
    pub fn ingredient(name: &str, value: i32) -> (r: Item)
        ensures
            r@ == ingredient_view(name@, value),
    {
        Item::single(name, String::from_str("Składnik alchemiczny"), ItemType::AlchemyIngredient, 0, 0, 0, 0, value)
    }

    /// A quest item, worth nothing.
    pub fn quest_item(name: &str, desc: &str) -> (r: Item)
        ensures
            r@ == quest_item_view(name@, desc@),
    {
        Item::single(name, String::from_str(desc), ItemType::QuestItem, 0, 0, 0, 0, 0)
    }

    /// The text an item is shown by: its name.
    pub fn to_string(&self) -> (s: String)
        ensures
            s@ == self.name@,
    {
        self.name.clone()
    }
}

/// Kinds of which equal-named items share one inventory entry.
pub open spec fn is_stackable(t: ItemType) -> bool {
    t == ItemType::AlchemyIngredient || t == ItemType::Potion || t == ItemType::Bomb
}

/// An equipment slot is empty or names an item of its kind.
pub open spec fn slot_ok(items: Seq<Item>, slot: Option<usize>, kind: ItemType) -> bool {
    slot matches Some(i) ==> i < items.len() && items[i as int].item_type == kind
}

/// A slot after the entry at `index` is taken out: cleared if it named that entry,
/// moved down by one if it named a later entry.
pub open spec fn shifted_slot(slot: Option<usize>, index: usize) -> Option<usize> {
    match slot {
        Some(i) => if i == index {
            None
        } else if i > index {
            Some((i - 1) as usize)
        } else {
            Some(i)
        },
        None => None,
    }
}

/// First position holding an item named `name`, at or after `from`; `items.len()` when there is none.
pub open spec fn first_named(items: Seq<Item>, name: Seq<char>, from: int) -> int
    decreases items.len() - from,
{
    if from >= items.len() || from < 0 {
        items.len() as int
    } else if items[from].name@ == name {
        from
    } else {
        first_named(items, name, from + 1)
    }
}

pub proof fn lemma_first_named(items: Seq<Item>, name: Seq<char>, from: int)
    requires
        0 <= from <= items.len(),
    ensures
        from <= first_named(items, name, from) <= items.len(),
        forall|k: int| from <= k < first_named(items, name, from) ==> items[k].name@ != name,
        first_named(items, name, from) < items.len() ==> items[first_named(items, name, from)].name@ == name,
    decreases items.len() - from,
{
    if from < items.len() && items[from].name@ != name {
        lemma_first_named(items, name, from + 1);
    }
}

/// The player's items, gold, and which entries are in use.
#[derive(Debug)]
pub struct Inventory {
    pub items: Vec<Item>,
    pub gold: i32,
    pub equipped_steel_sword: Option<usize>,
    pub equipped_silver_sword: Option<usize>,
    pub equipped_armor: Option<usize>,
    pub active_oil: Option<usize>,
}

impl Clone for Inventory {
    fn clone(&self) -> (r: Inventory)
        ensures
            r.items@ == self.items@,
            r.gold == self.gold,
            r.equipped_steel_sword == self.equipped_steel_sword,
            r.equipped_silver_sword == self.equipped_silver_sword,
            r.equipped_armor == self.equipped_armor,
            r.active_oil == self.active_oil,
    {
        let mut items: Vec<Item> = Vec::new();
        let mut i: usize = 0;
        while i < self.items.len()
            invariant
                i <= self.items.len(),
                items@ == self.items@.subrange(0, i as int),
            decreases self.items.len() - i,
        {
            items.push(self.items[i].clone());
            i = i + 1;
        }
        assert(items@ == self.items@);
        Inventory {
            items,
            gold: self.gold,
            equipped_steel_sword: self.equipped_steel_sword,
            equipped_silver_sword: self.equipped_silver_sword,
            equipped_armor: self.equipped_armor,
            active_oil: self.active_oil,
        }
    }
}

impl Inventory {
    /// Every equipment slot is empty or names an item of its own kind.
    pub open spec fn wf(&self) -> bool {
        &&& slot_ok(self.items@, self.equipped_steel_sword, ItemType::SteelSword)
        &&& slot_ok(self.items@, self.equipped_silver_sword, ItemType::SilverSword)
        &&& slot_ok(self.items@, self.equipped_armor, ItemType::Armor)
        &&& slot_ok(self.items@, self.active_oil, ItemType::Oil)
    }

    /// An empty inventory with 100 gold.
    pub fn new() -> (inv: Inventory)
        ensures
            inv.items@.len() == 0,
            inv.gold == 100,
            inv.equipped_steel_sword is None,
            inv.equipped_silver_sword is None,
            inv.equipped_armor is None,
            inv.active_oil is None,
            inv.wf(),
    {
        Inventory {
            items: Vec::new(),
            gold: 100,
            equipped_steel_sword: None,
            equipped_silver_sword: None,
            equipped_armor: None,
            active_oil: None,
        }
    }

    /// Adds an item. An ingredient, potion or bomb joins the first entry of the same
    /// name, whose quantity grows by the item's quantity; anything else is appended.
    pub fn add_item(&mut self, item: Item)
        requires
            add_ok(*old(self), item),
        ensures
            after_add(*old(self), *final(self), item),
            old(self).wf() ==> final(self).wf(),
    {
        proof {
            lemma_first_named(self.items@, item.name@, 0);
        }
        if item.item_type == ItemType::AlchemyIngredient || item.item_type == ItemType::Potion
            || item.item_type == ItemType::Bomb {
            let mut j: usize = 0;
            while j < self.items.len()
                invariant
                    j <= self.items.len(),
                    self.items@ == old(self).items@,
                    self.gold == old(self).gold,
                    self.equipped_steel_sword == old(self).equipped_steel_sword,
                    self.equipped_silver_sword == old(self).equipped_silver_sword,
                    self.equipped_armor == old(self).equipped_armor,
                    self.active_oil == old(self).active_oil,
                    forall|k: int| 0 <= k < j ==> self.items@[k].name@ != item.name@,
                    is_stackable(item.item_type),
                    add_ok(*old(self), item),
                decreases self.items.len() - j,
            {
                if self.items[j].name == item.name {
                    proof {
                        lemma_first_named(self.items@, item.name@, 0);
                        assert(first_named(self.items@, item.name@, 0) == j as int);
                    }
                    let mut existing = self.items[j].clone();
                    existing.quantity = existing.quantity + item.quantity;
                    self.items.set(j, existing);
                    return;
                }
                j = j + 1;
            }
        }
        self.items.push(item);
    }

    /// Takes one unit of the entry at `index`. An entry with more than one unit stays,
    /// one unit smaller, and the smaller entry is returned; otherwise the entry leaves
    /// the inventory, is returned, and the slots follow it (see `shifted_slot`).
    pub fn remove_item(&mut self, index: usize) -> (r: Option<Item>)
        ensures
            after_removal(*old(self), *final(self), index as int),
            r == removed_value(*old(self), index as int),
            old(self).wf() ==> final(self).wf(),
    {
        if index < self.items.len() {
            if self.items[index].quantity > 1 {
                let mut item = self.items[index].clone();
                item.quantity = item.quantity - 1;
                let copy = item.clone();
                self.items.set(index, item);
                return Some(copy);
            }
            self.equipped_steel_sword = shift_slot(self.equipped_steel_sword, index);
            self.equipped_silver_sword = shift_slot(self.equipped_silver_sword, index);
            self.equipped_armor = shift_slot(self.equipped_armor, index);
            self.active_oil = shift_slot(self.active_oil, index);
            let removed = self.items.remove(index);
            Some(removed)
        } else {
            None
        }
    }

    /// Puts a sword, armor or oil entry in its slot; other entries and bad indices change nothing.
    pub fn equip_item(&mut self, index: usize)
        ensures
            equipped(*old(self), *final(self), index as int),
            old(self).wf() ==> final(self).wf(),
    {
        if index >= self.items.len() {
            return;
        }
        match self.items[index].item_type {
            ItemType::SteelSword => self.equipped_steel_sword = Some(index),
            ItemType::SilverSword => self.equipped_silver_sword = Some(index),
            ItemType::Armor => self.equipped_armor = Some(index),
            ItemType::Oil => self.active_oil = Some(index),
            _ => {},
        }
    }

    /// Attack bonus of the chosen sword's slot (silver or steel).
    pub open spec fn sword_bonus(&self, use_silver: bool) -> int {
        let slot = if use_silver { self.equipped_silver_sword } else { self.equipped_steel_sword };
        match slot {
            Some(i) => self.items@[i as int].attack_bonus as int,
            None => 0,
        }
    }

    /// Attack bonus of the active oil.
    pub open spec fn oil_bonus(&self) -> int {
        match self.active_oil {
            Some(i) => self.items@[i as int].attack_bonus as int,
            None => 0,
        }
    }

    /// Defense bonus of the worn armor.
    pub open spec fn armor_bonus(&self) -> int {
        match self.equipped_armor {
            Some(i) => self.items@[i as int].defense_bonus as int,
            None => 0,
        }
    }

    /// The slots that the attack bonus reads name existing entries, and their sum fits `i32`.
    pub open spec fn attack_bonus_ok(&self, use_silver: bool) -> bool {
        let slot = if use_silver { self.equipped_silver_sword } else { self.equipped_steel_sword };
        &&& (slot matches Some(i) ==> i < self.items@.len())
        &&& (self.active_oil matches Some(i) ==> i < self.items@.len())
        &&& i32::MIN <= self.sword_bonus(use_silver) + self.oil_bonus() <= i32::MAX
    }

    /// Bonus of the chosen sword plus that of the active oil.
    pub fn get_attack_bonus(&self, use_silver: bool) -> (b: i32)
        requires
            self.attack_bonus_ok(use_silver),
        ensures
            b == self.sword_bonus(use_silver) + self.oil_bonus(),
    {
        let sword_idx = if use_silver { self.equipped_silver_sword } else { self.equipped_steel_sword };
        let sword_bonus = match sword_idx {
            Some(i) => self.items[i].attack_bonus,
            None => 0,
        };
        let oil_bonus = match self.active_oil {
            Some(i) => self.items[i].attack_bonus,
            None => 0,
        };
        sword_bonus + oil_bonus
    }

    /// Defense bonus of the worn armor, or 0.
    pub fn get_defense_bonus(&self) -> (b: i32)
        requires
            self.equipped_armor matches Some(i) ==> i < self.items@.len(),
        ensures
            b == self.armor_bonus(),
    {
        match self.equipped_armor {
            Some(i) => self.items[i].defense_bonus,
            None => 0,
        }
    }

    /// The School of the Boar starting kit: steel sword, silver sword and armor (all worn),
    /// two Jaskółka potions in one entry, one Piołun potion, two Samum bombs in one entry.
    pub fn starter_equipment() -> (inv: Inventory)
        ensures
            is_starter_inventory(inv),
    {
        let mut inv = Inventory::new();
        inv.add_item(Item::steel_sword("Stalowy miecz szkoły Dzika", 15, 200));
        inv.add_item(Item::silver_sword("Srebrny miecz szkoły Dzika", 20, 300));
        inv.add_item(Item::armor("Zbroja szkoły Dzika", 12, 250));
        proof {
            reveal_strlit("Stalowy miecz szkoły Dzika");
            reveal_strlit("Srebrny miecz szkoły Dzika");
            reveal_strlit("Zbroja szkoły Dzika");
            reveal_strlit("Jaskółka");
            reveal_strlit("Piołun");
            reveal_strlit("Samum");
        }
        let ghost s0 = inv.items@;
        proof {
            assert(s0.len() == 3);
            assert(s0[1].name@ == "Srebrny miecz szkoły Dzika"@);
            assert(s0[1].name@.len() != "Jaskółka"@.len());
            assert(s0[0].name@ != "Jaskółka"@);
            assert(s0[1].name@ != "Jaskółka"@);
            assert(s0[2].name@ != "Jaskółka"@);
            reveal_with_fuel(first_named, 7);
            lemma_first_named(s0, "Jaskółka"@, 0);
            assert(first_named(s0, "Jaskółka"@, 0) == 3);
        }
        inv.add_item(Item::potion("Jaskółka", 50, 0, 30));
        let ghost s1 = inv.items@;
        proof {
            assert(s1[0].name@.len() != "Jaskółka"@.len());
            assert(s1[1].name@.len() != "Jaskółka"@.len());
            assert(s1[2].name@.len() != "Jaskółka"@.len());
            assert(s1[0].name@ != "Jaskółka"@);
            assert(s1[1].name@ != "Jaskółka"@);
            assert(s1[2].name@ != "Jaskółka"@);
            reveal_with_fuel(first_named, 7);
            lemma_first_named(s1, "Jaskółka"@, 0);
            assert(first_named(s1, "Jaskółka"@, 0) == 3);
        }
        inv.add_item(Item::potion("Jaskółka", 50, 0, 30));
        let ghost s2 = inv.items@;
        proof {
            assert(s2[0].name@.len() != "Piołun"@.len());
            assert(s2[1].name@.len() != "Piołun"@.len());
            assert(s2[2].name@.len() != "Piołun"@.len());
            assert(s2[3].name@.len() != "Piołun"@.len());
            assert(s2[0].name@ != "Piołun"@);
            assert(s2[1].name@ != "Piołun"@);
            assert(s2[2].name@ != "Piołun"@);
            assert(s2[3].name@ != "Piołun"@);
            reveal_with_fuel(first_named, 7);
            lemma_first_named(s2, "Piołun"@, 0);
            assert(first_named(s2, "Piołun"@, 0) == 4);
        }
        inv.add_item(Item::potion("Piołun", 0, 40, 25));
        let ghost s3 = inv.items@;
        proof {
            assert(s3[0].name@.len() != "Samum"@.len());
            assert(s3[1].name@.len() != "Samum"@.len());
            assert(s3[2].name@.len() != "Samum"@.len());
            assert(s3[3].name@.len() != "Samum"@.len());
            assert(s3[4].name@.len() != "Samum"@.len());
            assert(s3[0].name@ != "Samum"@);
            assert(s3[1].name@ != "Samum"@);
            assert(s3[2].name@ != "Samum"@);
            assert(s3[3].name@ != "Samum"@);
            assert(s3[4].name@ != "Samum"@);
            reveal_with_fuel(first_named, 7);
            lemma_first_named(s3, "Samum"@, 0);
            assert(first_named(s3, "Samum"@, 0) == 5);
        }
        inv.add_item(Item::bomb("Samum", 30, 20));
        let ghost s4 = inv.items@;
        proof {
            assert(s4[0].name@.len() != "Samum"@.len());
            assert(s4[1].name@.len() != "Samum"@.len());
            assert(s4[2].name@.len() != "Samum"@.len());
            assert(s4[3].name@.len() != "Samum"@.len());
            assert(s4[4].name@.len() != "Samum"@.len());
            assert(s4[0].name@ != "Samum"@);
            assert(s4[1].name@ != "Samum"@);
            assert(s4[2].name@ != "Samum"@);
            assert(s4[3].name@ != "Samum"@);
            assert(s4[4].name@ != "Samum"@);
            reveal_with_fuel(first_named, 7);
            lemma_first_named(s4, "Samum"@, 0);
            assert(first_named(s4, "Samum"@, 0) == 5);
        }
        inv.add_item(Item::bomb("Samum", 30, 20));
        inv.equipped_steel_sword = Some(0);
        inv.equipped_silver_sword = Some(1);
        inv.equipped_armor = Some(2);
        inv
    }
}

/// The slot after `equip_item(index)`: the entry's own slot names it, if it is of the slot's kind.
pub open spec fn slot_after_equip(inv: Inventory, slot: Option<usize>, kind: ItemType, index: int) -> Option<usize> {
    if 0 <= index < inv.items@.len() && inv.items@[index].item_type == kind { Some(index as usize) } else { slot }
}

/// `new` is `old` after `equip_item(index)`: a sword, armor or oil entry takes its slot;
/// nothing else changes.
pub open spec fn equipped(old: Inventory, new: Inventory, index: int) -> bool {
    &&& new.items@ == old.items@
    &&& new.gold == old.gold
    &&& new.equipped_steel_sword == slot_after_equip(old, old.equipped_steel_sword, ItemType::SteelSword, index)
    &&& new.equipped_silver_sword == slot_after_equip(old, old.equipped_silver_sword, ItemType::SilverSword, index)
    &&& new.equipped_armor == slot_after_equip(old, old.equipped_armor, ItemType::Armor, index)
    &&& new.active_oil == slot_after_equip(old, old.active_oil, ItemType::Oil, index)
}

/// Adding `item` keeps the quantity it joins in `i32`.
pub open spec fn add_ok(inv: Inventory, item: Item) -> bool {
    let j = first_named(inv.items@, item.name@, 0);
    is_stackable(item.item_type) && j < inv.items@.len() ==> i32::MIN <= inv.items@[j].quantity + item.quantity <= i32::MAX
}

/// `new` is `old` after `add_item(item)`: an ingredient, potion or bomb joins the first
/// entry of the same name (its quantity grows by the item's); anything else, or an item
/// whose name is not there yet, is appended. Gold and slots stay.
pub open spec fn after_add(old: Inventory, new: Inventory, item: Item) -> bool {
    let j = first_named(old.items@, item.name@, 0);
    &&& if is_stackable(item.item_type) && j < old.items@.len() {
        new.items@ == old.items@.update(j, Item { quantity: (old.items@[j].quantity + item.quantity) as i32, ..old.items@[j] })
    } else {
        new.items@ == old.items@.push(item)
    }
    &&& new.gold == old.gold
    &&& new.equipped_steel_sword == old.equipped_steel_sword
    &&& new.equipped_silver_sword == old.equipped_silver_sword
    &&& new.equipped_armor == old.equipped_armor
    &&& new.active_oil == old.active_oil
}

/// The entry at `index` with one unit fewer.
pub open spec fn one_fewer(inv: Inventory, index: int) -> Item {
    Item { quantity: (inv.items@[index].quantity - 1) as i32, ..inv.items@[index] }
}

/// What `remove_item(index)` returns.
pub open spec fn removed_value(inv: Inventory, index: int) -> Option<Item> {
    if index < 0 || index >= inv.items@.len() {
        None
    } else if inv.items@[index].quantity > 1 {
        Some(one_fewer(inv, index))
    } else {
        Some(inv.items@[index])
    }
}

/// `new` is `old` after `remove_item(index)`: nothing changes for a bad index; an entry
/// with more than one unit loses one; otherwise the entry leaves and every slot follows
/// (`shifted_slot`). The gold stays.
pub open spec fn after_removal(old: Inventory, new: Inventory, index: int) -> bool {
    &&& new.gold == old.gold
    &&& if index < 0 || index >= old.items@.len() {
        &&& new.items@ == old.items@
        &&& new.equipped_steel_sword == old.equipped_steel_sword
        &&& new.equipped_silver_sword == old.equipped_silver_sword
        &&& new.equipped_armor == old.equipped_armor
        &&& new.active_oil == old.active_oil
    } else if old.items@[index].quantity > 1 {
        &&& new.items@ == old.items@.update(index, one_fewer(old, index))
        &&& new.equipped_steel_sword == old.equipped_steel_sword
        &&& new.equipped_silver_sword == old.equipped_silver_sword
        &&& new.equipped_armor == old.equipped_armor
        &&& new.active_oil == old.active_oil
    } else {
        &&& new.items@ == old.items@.remove(index)
        &&& new.equipped_steel_sword == shifted_slot(old.equipped_steel_sword, index as usize)
        &&& new.equipped_silver_sword == shifted_slot(old.equipped_silver_sword, index as usize)
        &&& new.equipped_armor == shifted_slot(old.equipped_armor, index as usize)
        &&& new.active_oil == shifted_slot(old.active_oil, index as usize)
    }
}

/// The School of the Boar starting kit (see `Inventory::starter_equipment`).
pub open spec fn is_starter_inventory(inv: Inventory) -> bool {
    &&& inv.items@.len() == 6
    &&& inv.items@[0]@ == steel_sword_view("Stalowy miecz szkoły Dzika"@, 15, 200)
    &&& inv.items@[1]@ == silver_sword_view("Srebrny miecz szkoły Dzika"@, 20, 300)
    &&& inv.items@[2]@ == armor_view("Zbroja szkoły Dzika"@, 12, 250)
    &&& inv.items@[3]@ == (ItemView { quantity: 2, ..potion_view("Jaskółka"@, 50, 0, 30) })
    &&& inv.items@[4]@ == potion_view("Piołun"@, 0, 40, 25)
    &&& inv.items@[5]@ == (ItemView { quantity: 2, ..bomb_view("Samum"@, 30, 20) })
    &&& inv.gold == 100
    &&& inv.equipped_steel_sword == Some(0usize)
    &&& inv.equipped_silver_sword == Some(1usize)
    &&& inv.equipped_armor == Some(2usize)
    &&& inv.active_oil is None
    &&& inv.wf()
}

fn shift_slot(slot: Option<usize>, index: usize) -> (r: Option<usize>)
    ensures
        r == shifted_slot(slot, index),
{
    match slot {
        Some(i) => if i == index {
            None
        } else if i > index {
            Some(i - 1)
        } else {
            Some(i)
        },
        None => None,
    }
}

} // verus!
