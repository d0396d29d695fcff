use vstd::prelude::*;
use vstd::string::*;
use crate::inventory::{Item, potion_view, oil_view, bomb_view};
use crate::text::same_text;

verus! {

/// How to brew a potion, oil or bomb.
#[derive(Debug)]
pub struct AlchemyRecipe {
    pub name: String,
    pub description: String,
    pub ingredients: Vec<(String, i32)>,
    pub result: Item,
}

/// The recipe that `all_recipes` puts at position `i` (`0 <= i < 9`).
pub open spec fn is_known_recipe(r: AlchemyRecipe, i: int) -> bool {
    if i == 0 {
        &&& r.name@ == "Jaskółka"@
        &&& r.description@ == "Eliksir regenerujący zdrowie"@
        &&& r.ingredients@.len() == 2
        &&& r.ingredients@[0].0@ == "Jaskier"@
        &&& r.ingredients@[0].1 == 2
        &&& r.ingredients@[1].0@ == "Berberysy"@
        &&& r.ingredients@[1].1 == 1
        &&& r.result@ == potion_view("Jaskółka"@, 50, 0, 30)
    } else if i == 1 {
        &&& r.name@ == "Piołun"@
        &&& r.description@ == "Eliksir przywracający wytrzymałość"@
        &&& r.ingredients@.len() == 2
        &&& r.ingredients@[0].0@ == "Piołun ziołowy"@
        &&& r.ingredients@[0].1 == 2
        &&& r.ingredients@[1].0@ == "Trujący bluszcz"@
        &&& r.ingredients@[1].1 == 1
        &&& r.result@ == potion_view("Piołun"@, 0, 40, 25)
    } else if i == 2 {
        &&& r.name@ == "Kot"@
        &&& r.description@ == "Eliksir poprawiający widzenie w ciemności"@
        &&& r.ingredients@.len() == 2
        &&& r.ingredients@[0].0@ == "Oczy endriagi"@
        &&& r.ingredients@[0].1 == 1
        &&& r.ingredients@[1].0@ == "Berberysy"@
        &&& r.ingredients@[1].1 == 2
        &&& r.result@ == potion_view("Kot"@, 20, 20, 35)
    } else if i == 3 {
        &&& r.name@ == "Petri"@
        &&& r.description@ == "Eliksir wzmacniający intensywność znaków"@
        &&& r.ingredients@.len() == 2
        &&& r.ingredients@[0].0@ == "Rdest"@
        &&& r.ingredients@[0].1 == 2
        &&& r.ingredients@[1].0@ == "Piołun ziołowy"@
        &&& r.ingredients@[1].1 == 1
        &&& r.result@ == potion_view("Eliksir Petriego"@, 0, 30, 40)
    } else if i == 4 {
        &&& r.name@ == "Olej na nieumarłych"@
        &&& r.description@ == "Olej skuteczny przeciw ghulom i utopcom"@
        &&& r.ingredients@.len() == 2
        &&& r.ingredients@[0].0@ == "Trujący bluszcz"@
        &&& r.ingredients@[0].1 == 2
        &&& r.ingredients@[1].0@ == "Tłuszcz niedźwiedzi"@
        &&& r.ingredients@[1].1 == 1
        &&& r.result@ == oil_view("Olej na nieumarłych"@, 15, 25)
    } else if i == 5 {
        &&& r.name@ == "Olej na bestie"@
        &&& r.description@ == "Olej skuteczny przeciw gryfom i wilkołakom"@
        &&& r.ingredients@.len() == 2
        &&& r.ingredients@[0].0@ == "Jaskier"@
        &&& r.ingredients@[0].1 == 1
        &&& r.ingredients@[1].0@ == "Tłuszcz niedźwiedzi"@
        &&& r.ingredients@[1].1 == 2
        &&& r.result@ == oil_view("Olej na bestie"@, 15, 25)
    } else if i == 6 {
        &&& r.name@ == "Olej na insektoidy"@
        &&& r.description@ == "Olej skuteczny przeciw endriagom i kikimorom"@
        &&& r.ingredients@.len() == 2
        &&& r.ingredients@[0].0@ == "Oczy endriagi"@
        &&& r.ingredients@[0].1 == 2
        &&& r.ingredients@[1].0@ == "Rdest"@
        &&& r.ingredients@[1].1 == 1
        &&& r.result@ == oil_view("Olej na insektoidy"@, 15, 25)
    } else if i == 7 {
        &&& r.name@ == "Samum"@
        &&& r.description@ == "Bomba oślepiająca i ogłuszająca"@
        &&& r.ingredients@.len() == 2
        &&& r.ingredients@[0].0@ == "Saletra"@
        &&& r.ingredients@[0].1 == 2
        &&& r.ingredients@[1].0@ == "Rdest"@
        &&& r.ingredients@[1].1 == 1
        &&& r.result@ == bomb_view("Samum"@, 30, 20)
    } else if i == 8 {
        &&& r.name@ == "Księżycowy Pył"@
        &&& r.description@ == "Bomba blokująca zdolności potworów"@
        &&& r.ingredients@.len() == 2
        &&& r.ingredients@[0].0@ == "Saletra"@
        &&& r.ingredients@[0].1 == 1
        &&& r.ingredients@[1].0@ == "Berberysy"@
        &&& r.ingredients@[1].1 == 2
        &&& r.result@ == bomb_view("Księżycowy Pył"@, 25, 25)
    } else {
        false
    }
}

fn recipe(name: &str, description: &str, ingredients: Vec<(String, i32)>, result: Item) -> (r: AlchemyRecipe)
    ensures
        r.name@ == name@,
        r.description@ == description@,
        r.ingredients@ == ingredients@,
        r.result == result,
{
    AlchemyRecipe { name: String::from_str(name), description: String::from_str(description), ingredients, result }
}

impl AlchemyRecipe {
    /// The nine recipes: four potions, three oils, two bombs (see `is_known_recipe`).
    pub fn all_recipes() -> (v: Vec<AlchemyRecipe>)
        ensures
            v@.len() == 9,
            forall|i: int| 0 <= i < 9 ==> is_known_recipe(#[trigger] v@[i], i),
    {
        let mut v: Vec<AlchemyRecipe> = Vec::new();
        let mut ing: Vec<(String, i32)> = Vec::new();
        ing.push((String::from_str("Jaskier"), 2));
        ing.push((String::from_str("Berberysy"), 1));
        let r = recipe("Jaskółka", "Eliksir regenerujący zdrowie", ing, Item::potion("Jaskółka", 50, 0, 30));
        assert(is_known_recipe(r, 0));
        v.push(r);
        let mut ing: Vec<(String, i32)> = Vec::new();
        ing.push((String::from_str("Piołun ziołowy"), 2));
        ing.push((String::from_str("Trujący bluszcz"), 1));
        let r = recipe("Piołun", "Eliksir przywracający wytrzymałość", ing, Item::potion("Piołun", 0, 40, 25));
        assert(is_known_recipe(r, 1));
        v.push(r);
        let mut ing: Vec<(String, i32)> = Vec::new();
        ing.push((String::from_str("Oczy endriagi"), 1));
        ing.push((String::from_str("Berberysy"), 2));
        let r = recipe("Kot", "Eliksir poprawiający widzenie w ciemności", ing, Item::potion("Kot", 20, 20, 35));
        assert(is_known_recipe(r, 2));
        v.push(r);
        let mut ing: Vec<(String, i32)> = Vec::new();
        ing.push((String::from_str("Rdest"), 2));
        ing.push((String::from_str("Piołun ziołowy"), 1));
        let r = recipe("Petri", "Eliksir wzmacniający intensywność znaków", ing, Item::potion("Eliksir Petriego", 0, 30, 40));
        assert(is_known_recipe(r, 3));
        v.push(r);
        let mut ing: Vec<(String, i32)> = Vec::new();
        ing.push((String::from_str("Trujący bluszcz"), 2));
        ing.push((String::from_str("Tłuszcz niedźwiedzi"), 1));
        let r = recipe("Olej na nieumarłych", "Olej skuteczny przeciw ghulom i utopcom", ing, Item::oil("Olej na nieumarłych", 15, 25));
        assert(is_known_recipe(r, 4));
        v.push(r);
        let mut ing: Vec<(String, i32)> = Vec::new();
        ing.push((String::from_str("Jaskier"), 1));
        ing.push((String::from_str("Tłuszcz niedźwiedzi"), 2));
        let r = recipe("Olej na bestie", "Olej skuteczny przeciw gryfom i wilkołakom", ing, Item::oil("Olej na bestie", 15, 25));
        assert(is_known_recipe(r, 5));
        v.push(r);
        let mut ing: Vec<(String, i32)> = Vec::new();
        ing.push((String::from_str("Oczy endriagi"), 2));
        ing.push((String::from_str("Rdest"), 1));
        let r = recipe("Olej na insektoidy", "Olej skuteczny przeciw endriagom i kikimorom", ing, Item::oil("Olej na insektoidy", 15, 25));
        assert(is_known_recipe(r, 6));
        v.push(r);
        let mut ing: Vec<(String, i32)> = Vec::new();
        ing.push((String::from_str("Saletra"), 2));
        ing.push((String::from_str("Rdest"), 1));
        let r = recipe("Samum", "Bomba oślepiająca i ogłuszająca", ing, Item::bomb("Samum", 30, 20));
        assert(is_known_recipe(r, 7));
        v.push(r);
        let mut ing: Vec<(String, i32)> = Vec::new();
        ing.push((String::from_str("Saletra"), 1));
        ing.push((String::from_str("Berberysy"), 2));
        let r = recipe("Księżycowy Pył", "Bomba blokująca zdolności potworów", ing, Item::bomb("Księżycowy Pył", 25, 25));
        assert(is_known_recipe(r, 8));
        v.push(r);
        v
    }
}

/// Total quantity, over the first `n` entries of `have`, of the entries named `name`.
pub open spec fn total_named(have: Seq<(String, i32)>, name: Seq<char>, n: int) -> int
    decreases n,
{
    if n <= 0 {
        0
    } else {
        total_named(have, name, n - 1) + if have[n - 1].0@ == name { have[n - 1].1 as int } else { 0 }
    }
}

/// Every ingredient of the recipe is present in at least the needed quantity (quantities
/// of equal-named entries add up).
pub open spec fn can_craft(recipe: AlchemyRecipe, have: Seq<(String, i32)>) -> bool {
    forall|j: int| 0 <= j < recipe.ingredients@.len() ==>
        total_named(have, (#[trigger] recipe.ingredients@[j]).0@, have.len() as int) >= recipe.ingredients@[j].1
}

proof fn lemma_total_bounds(have: Seq<(String, i32)>, name: Seq<char>, n: int)
    requires
        0 <= n <= have.len(),
    ensures
        n * (i32::MIN as int) <= total_named(have, name, n) <= n * (i32::MAX as int),
    decreases n,
{
    if n > 0 {
        lemma_total_bounds(have, name, n - 1);
    }
}

fn total_of(have: &[(String, i32)], name: &str) -> (t: i128)
    ensures
        t == total_named(have@, name@, have@.len() as int),
{
    let mut t: i128 = 0;
    let mut i: usize = 0;
    while i < have.len()
        invariant
            i <= have@.len(),
            t == total_named(have@, name@, i as int),
        decreases have.len() - i,
    {
        proof {
            lemma_total_bounds(have@, name@, i as int);
            assert(i <= usize::MAX);
            assert((i as int) * (i32::MAX as int) <= (usize::MAX as int) * (i32::MAX as int)) by (nonlinear_arith)
                requires i <= usize::MAX;
            assert((i as int) * (i32::MIN as int) >= (usize::MAX as int) * (i32::MIN as int)) by (nonlinear_arith)
                requires i <= usize::MAX;
        }
        if same_text(have[i].0.as_str(), name) {
            t = t + have[i].1 as i128;
        }
        i = i + 1;
    }
    t
}

/// Whether the ingredients on hand suffice for the recipe (see `can_craft`).
pub fn check_can_craft(recipe: &AlchemyRecipe, ingredients: &[(String, i32)]) -> (ok: bool)
    ensures
        ok == can_craft(*recipe, ingredients@),
{
    let mut j: usize = 0;
    while j < recipe.ingredients.len()
        invariant
            j <= recipe.ingredients@.len(),
            forall|k: int| 0 <= k < j ==>
                total_named(ingredients@, (#[trigger] recipe.ingredients@[k]).0@, ingredients@.len() as int)
                    >= recipe.ingredients@[k].1,
        decreases recipe.ingredients.len() - j,
    {
        let have = total_of(ingredients, recipe.ingredients[j].0.as_str());
        if have < recipe.ingredients[j].1 as i128 {
            return false;
        }
        j = j + 1;
    }
    true
}

} // verus!
