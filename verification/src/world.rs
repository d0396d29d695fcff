use vstd::prelude::*;
use vstd::string::*;
use crate::monsters::{
    Monster, is_new_ghul, is_new_utopiec, is_new_gryf, is_new_wilkolak, is_new_endriaga, is_new_kikimora,
    is_new_bazyliszek, is_new_leszen, is_new_bandyta,
};

verus! {

/// Width of the world map, in cells.
pub const MAP_WIDTH: usize = 60;

/// Height of the world map, in cells.
pub const MAP_HEIGHT: usize = 40;

/// What a map cell is.
#[derive(Debug, Clone, Copy, PartialEq, Eq, Structural)]
pub enum TileType {
    Grass,
    Forest,
    Water,
    Road,
    Building,
    Wall,
    Door,
    Bridge,
    Swamp,
    Mountain,
    Cave,
    Sand,
}

pub open spec fn tile_walkable(t: TileType) -> bool {
    !(t == TileType::Water || t == TileType::Wall || t == TileType::Mountain)
}

impl TileType {
    /// Everything but water, walls and mountains can be walked on.
    pub fn is_walkable(&self) -> (b: bool)
        ensures
            b == tile_walkable(*self),
    {
        match self {
            TileType::Water | TileType::Wall | TileType::Mountain => false,
            _ => true,
        }
    }
}

/// A person on the map. Positions are whole map cells.
#[derive(Debug)]
pub struct Npc {
    pub name: String,
    pub x: i32,
    pub y: i32,
    pub dialogue_id: String,
    pub quest_giver: bool,
    pub merchant: bool,
}

/// An ingredient lying on the map.
#[derive(Debug)]
pub struct Loot {
    pub name: String,
    pub x: i32,
    pub y: i32,
    pub item_name: String,
    pub collected: bool,
}

/// The world: a grid of cells (`tiles[y][x]`) and what stands on it.
#[derive(Debug)]
pub struct WorldMap {
    pub tiles: Vec<Vec<TileType>>,
    pub npcs: Vec<Npc>,
    pub monsters: Vec<Monster>,
    pub loot: Vec<Loot>,
    pub width: usize,
    pub height: usize,
}

/// The scatter used to place trees and swamp water: `(7x + 13y + xy) mod 7`.
pub open spec fn spec_rand_simple(x: int, y: int) -> int {
    (x * 7 + y * 13 + x * y) % 7
}

/// Whether (x, y) lies on the border of the rectangle `[x0, x1) × [y0, y1)`.
pub open spec fn on_border(x: int, y: int, x0: int, x1: int, y0: int, y1: int) -> bool {
    y == y0 || y == y1 - 1 || x == x0 || x == x1 - 1
}

pub open spec fn inside(x: int, y: int, x0: int, x1: int, y0: int, y1: int) -> bool {
    x0 <= x < x1 && y0 <= y < y1
}

/// The cell at (x, y) of a new world. Later features cover earlier ones: grass, the two
/// roads (rows 18–19 and column 30), the walled village of Rumia with its gate (8, 9) and
/// the road down from it, the forest, the swamp, the cave in the mountains with its
/// entrance (33, 28), the castle with its gate (50, 26) and two towers, the river
/// (columns 22–23), and the bridge where the road crosses it.
pub open spec fn initial_tile(x: int, y: int) -> TileType {
    if (x == 22 || x == 23) && (y == 18 || y == 19) {
        TileType::Bridge
    } else if x == 22 || x == 23 {
        TileType::Water
    } else if inside(x, y, 45, 48, 27, 30) || inside(x, y, 54, 57, 27, 30) {
        TileType::Wall
    } else if x == 50 && y == 26 {
        TileType::Door
    } else if inside(x, y, 44, 58, 26, 38) {
        if on_border(x, y, 44, 58, 26, 38) { TileType::Wall } else { TileType::Building }
    } else if x == 33 && y == 28 {
        TileType::Door
    } else if inside(x, y, 28, 38, 28, 36) {
        if on_border(x, y, 28, 38, 28, 36) { TileType::Mountain } else { TileType::Cave }
    } else if inside(x, y, 2, 20, 24, 35) {
        if spec_rand_simple(x, y) > 2 { TileType::Swamp } else { TileType::Water }
    } else if inside(x, y, 35, 55, 1, 16) && spec_rand_simple(x, y) > 3 {
        TileType::Forest
    } else if x == 8 && 10 <= y < 18 {
        TileType::Road
    } else if x == 8 && y == 9 {
        TileType::Door
    } else if inside(x, y, 3, 14, 3, 10) {
        if on_border(x, y, 3, 14, 3, 10) { TileType::Wall } else { TileType::Building }
    } else if y == 18 || y == 19 || x == 30 {
        TileType::Road
    } else {
        TileType::Grass
    }
}

/// The scatter `(7x + 13y + xy) mod 7`.
pub fn rand_simple(x: usize, y: usize) -> (r: usize)
    requires
        x * 7 + y * 13 + x * y <= usize::MAX,
    ensures
        r == spec_rand_simple(x as int, y as int),
{
    proof {
        assert(x * y <= x * 7 + y * 13 + x * y);
        assert(x * 7 <= usize::MAX);
    }
    (x * 7 + y * 13 + x * y) % 7
}

fn tile_at(x: usize, y: usize) -> (t: TileType)
    requires
        x < MAP_WIDTH,
        y < MAP_HEIGHT,
    ensures
        t == initial_tile(x as int, y as int),
{
    proof {
        assert(x * y <= 59 * 39) by (nonlinear_arith)
            requires
                x < 60,
                y < 40,
        ;
    }
    if (x == 22 || x == 23) && (y == 18 || y == 19) {
        TileType::Bridge
    } else if x == 22 || x == 23 {
        TileType::Water
    } else if (45 <= x && x < 48 || 54 <= x && x < 57) && 27 <= y && y < 30 {
        TileType::Wall
    } else if x == 50 && y == 26 {
        TileType::Door
    } else if 44 <= x && x < 58 && 26 <= y && y < 38 {
        if y == 26 || y == 37 || x == 44 || x == 57 { TileType::Wall } else { TileType::Building }
    } else if x == 33 && y == 28 {
        TileType::Door
    } else if 28 <= x && x < 38 && 28 <= y && y < 36 {
        if y == 28 || y == 35 || x == 28 || x == 37 { TileType::Mountain } else { TileType::Cave }
    } else if 2 <= x && x < 20 && 24 <= y && y < 35 {
        if rand_simple(x, y) > 2 { TileType::Swamp } else { TileType::Water }
    } else if 35 <= x && x < 55 && 1 <= y && y < 16 && rand_simple(x, y) > 3 {
        TileType::Forest
    } else if x == 8 && 10 <= y && y < 18 {
        TileType::Road
    } else if x == 8 && y == 9 {
        TileType::Door
    } else if 3 <= x && x < 14 && 3 <= y && y < 10 {
        if y == 3 || y == 9 || x == 3 || x == 13 { TileType::Wall } else { TileType::Building }
    } else if y == 18 || y == 19 || x == 30 {
        TileType::Road
    } else {
        TileType::Grass
    }
}

/// The grid is `height` rows of `width` cells.
pub open spec fn grid_ok(tiles: Seq<Vec<TileType>>, width: int, height: int) -> bool {
    &&& tiles.len() == height
    &&& forall|y: int| 0 <= y < height ==> (#[trigger] tiles[y])@.len() == width
}

/// A cell coordinate from a map position: negative positions count as 0.
pub open spec fn cell(v: int) -> int {
    if v < 0 { 0 } else { v }
}

/// Whether `a` and `b` are closer than `radius` along an axis.
pub open spec fn near(a: int, b: int, radius: int) -> bool {
    -radius < a - b < radius
}

/// Position of the first element at or after `from` meeting the search, or none.
pub open spec fn first_monster(ms: Seq<Monster>, x: int, y: int, r: int, from: int) -> Option<int>
    decreases ms.len() - from,
{
    if from < 0 || from >= ms.len() {
        None
    } else if ms[from].alive && near(ms[from].x as int, x, r) && near(ms[from].y as int, y, r) {
        Some(from)
    } else {
        first_monster(ms, x, y, r, from + 1)
    }
}

pub open spec fn first_npc(ns: Seq<Npc>, x: int, y: int, r: int, from: int) -> Option<int>
    decreases ns.len() - from,
{
    if from < 0 || from >= ns.len() {
        None
    } else if near(ns[from].x as int, x, r) && near(ns[from].y as int, y, r) {
        Some(from)
    } else {
        first_npc(ns, x, y, r, from + 1)
    }
}

pub open spec fn first_loot(ls: Seq<Loot>, x: int, y: int, r: int, from: int) -> Option<int>
    decreases ls.len() - from,
{
    if from < 0 || from >= ls.len() {
        None
    } else if !ls[from].collected && near(ls[from].x as int, x, r) && near(ls[from].y as int, y, r) {
        Some(from)
    } else {
        first_loot(ls, x, y, r, from + 1)
    }
}

/// The name of the region containing the cell (tx, ty).
pub open spec fn location_of(tx: int, ty: int) -> Seq<char> {
    if 3 <= tx <= 13 && 3 <= ty <= 9 {
        "Wioska Rumia"@
    } else if 35 <= tx <= 55 && 1 <= ty <= 16 {
        "Mroczny Las"@
    } else if 2 <= tx <= 20 && 24 <= ty <= 35 {
        "Bagno"@
    } else if 28 <= tx <= 38 && 28 <= ty <= 36 {
        "Jaskinia"@
    } else if 44 <= tx <= 58 && 26 <= ty <= 38 {
        "Zamek"@
    } else {
        "Dzicz"@
    }
}

/// The people of a new world, in order.
pub open spec fn is_initial_npcs(ns: Seq<Npc>) -> bool {
    &&& ns.len() == 5
    &&& ns[0].name@ == "Sołtys Bogdan"@ && ns[0].x == 6 && ns[0].y == 5 && ns[0].dialogue_id@ == "soltys"@
        && ns[0].quest_giver == true && ns[0].merchant == false
    &&& ns[1].name@ == "Handlarz Mirek"@ && ns[1].x == 11 && ns[1].y == 5 && ns[1].dialogue_id@ == "handlarz"@
        && ns[1].quest_giver == false && ns[1].merchant == true
    &&& ns[2].name@ == "Zielarka Bożena"@ && ns[2].x == 6 && ns[2].y == 8 && ns[2].dialogue_id@ == "zielarka"@
        && ns[2].quest_giver == true && ns[2].merchant == true
    &&& ns[3].name@ == "Stary Wiedźmin Vesimir"@ && ns[3].x == 50 && ns[3].y == 30 && ns[3].dialogue_id@ == "vesimir"@
        && ns[3].quest_giver == true && ns[3].merchant == false
    &&& ns[4].name@ == "Tajemniczy Elf"@ && ns[4].x == 45 && ns[4].y == 8 && ns[4].dialogue_id@ == "elf"@
        && ns[4].quest_giver == true && ns[4].merchant == false
}

/// The monsters of a new world, in order.
pub open spec fn is_initial_monsters(ms: Seq<Monster>) -> bool {
    &&& ms.len() == 13
    &&& is_new_ghul(ms[0], 38, 10, 1)
    &&& is_new_ghul(ms[1], 42, 12, 1)
    &&& is_new_utopiec(ms[2], 8, 28, 2)
    &&& is_new_utopiec(ms[3], 12, 30, 1)
    &&& is_new_kikimora(ms[4], 15, 32, 2)
    &&& is_new_endriaga(ms[5], 40, 5, 2)
    &&& is_new_endriaga(ms[6], 48, 14, 3)
    &&& is_new_gryf(ms[7], 50, 3, 3)
    &&& is_new_wilkolak(ms[8], 33, 31, 4)
    &&& is_new_bazyliszek(ms[9], 34, 33, 5)
    &&& is_new_bandyta(ms[10], 25, 18, 1)
    &&& is_new_bandyta(ms[11], 35, 19, 2)
    &&& is_new_leszen(ms[12], 44, 6, 6)
}

/// The loot of a new world, in order; nothing collected.
pub open spec fn is_initial_loot(ls: Seq<Loot>) -> bool {
    &&& ls.len() == 12
    &&& ls[0].name@ == "Jaskier"@ && ls[0].item_name@ == "Jaskier"@ && ls[0].x == 36 && ls[0].y == 4 && !ls[0].collected
    &&& ls[1].name@ == "Jaskier"@ && ls[1].item_name@ == "Jaskier"@ && ls[1].x == 40 && ls[1].y == 7 && !ls[1].collected
    &&& ls[2].name@ == "Berberysy"@ && ls[2].item_name@ == "Berberysy"@ && ls[2].x == 38 && ls[2].y == 9 && !ls[2].collected
    &&& ls[3].name@ == "Rdest"@ && ls[3].item_name@ == "Rdest"@ && ls[3].x == 43 && ls[3].y == 11 && !ls[3].collected
    &&& ls[4].name@ == "Piołun ziołowy"@ && ls[4].item_name@ == "Piołun ziołowy"@ && ls[4].x == 10 && ls[4].y == 26 && !ls[4].collected
    &&& ls[5].name@ == "Piołun ziołowy"@ && ls[5].item_name@ == "Piołun ziołowy"@ && ls[5].x == 14 && ls[5].y == 29 && !ls[5].collected
    &&& ls[6].name@ == "Trujący bluszcz"@ && ls[6].item_name@ == "Trujący bluszcz"@ && ls[6].x == 6 && ls[6].y == 31 && !ls[6].collected
    &&& ls[7].name@ == "Saletra"@ && ls[7].item_name@ == "Saletra"@ && ls[7].x == 32 && ls[7].y == 30 && !ls[7].collected
    &&& ls[8].name@ == "Saletra"@ && ls[8].item_name@ == "Saletra"@ && ls[8].x == 35 && ls[8].y == 32 && !ls[8].collected
    &&& ls[9].name@ == "Tłuszcz niedźwiedzi"@ && ls[9].item_name@ == "Tłuszcz niedźwiedzi"@ && ls[9].x == 47 && ls[9].y == 10 && !ls[9].collected
    &&& ls[10].name@ == "Oczy endriagi"@ && ls[10].item_name@ == "Oczy endriagi"@ && ls[10].x == 52 && ls[10].y == 6 && !ls[10].collected
    &&& ls[11].name@ == "Rdest"@ && ls[11].item_name@ == "Rdest"@ && ls[11].x == 16 && ls[11].y == 27 && !ls[11].collected
}

fn npc(name: &str, x: i32, y: i32, dialogue_id: &str, quest_giver: bool, merchant: bool) -> (n: Npc)
    ensures
        n.name@ == name@,
        n.x == x,
        n.y == y,
        n.dialogue_id@ == dialogue_id@,
        n.quest_giver == quest_giver,
        n.merchant == merchant,
{
    Npc { name: String::from_str(name), x, y, dialogue_id: String::from_str(dialogue_id), quest_giver, merchant }
}

fn loot_at(name: &str, x: i32, y: i32) -> (l: Loot)
    ensures
        l.name@ == name@,
        l.item_name@ == name@,
        l.x == x,
        l.y == y,
        !l.collected,
{
    Loot { name: String::from_str(name), x, y, item_name: String::from_str(name), collected: false }
}

pub proof fn lemma_first_monster(ms: Seq<Monster>, x: int, y: int, r: int, from: int)
    requires
        0 <= from,
    ensures
        first_monster(ms, x, y, r, from) matches Some(i) ==> from <= i < ms.len() && ms[i].alive && near(ms[i].x as int, x, r) && near(ms[i].y as int, y, r)
            && forall|k: int| from <= k < i ==> !(ms[k].alive && near(ms[k].x as int, x, r) && near(ms[k].y as int, y, r)),
        first_monster(ms, x, y, r, from) is None ==> forall|k: int| from <= k < ms.len() ==> !(ms[k].alive && near(ms[k].x as int, x, r) && near(ms[k].y as int, y, r)),
    decreases ms.len() - from,
{
    if from < ms.len() && !(ms[from].alive && near(ms[from].x as int, x, r) && near(ms[from].y as int, y, r)) {
        lemma_first_monster(ms, x, y, r, from + 1);
    }
}

pub proof fn lemma_first_npc(ms: Seq<Npc>, x: int, y: int, r: int, from: int)
    requires
        0 <= from,
    ensures
        first_npc(ms, x, y, r, from) matches Some(i) ==> from <= i < ms.len() && near(ms[i].x as int, x, r) && near(ms[i].y as int, y, r)
            && forall|k: int| from <= k < i ==> !(near(ms[k].x as int, x, r) && near(ms[k].y as int, y, r)),
        first_npc(ms, x, y, r, from) is None ==> forall|k: int| from <= k < ms.len() ==> !(near(ms[k].x as int, x, r) && near(ms[k].y as int, y, r)),
    decreases ms.len() - from,
{
    if from < ms.len() && !(near(ms[from].x as int, x, r) && near(ms[from].y as int, y, r)) {
        lemma_first_npc(ms, x, y, r, from + 1);
    }
}

pub proof fn lemma_first_loot(ms: Seq<Loot>, x: int, y: int, r: int, from: int)
    requires
        0 <= from,
    ensures
        first_loot(ms, x, y, r, from) matches Some(i) ==> from <= i < ms.len() && !ms[i].collected && near(ms[i].x as int, x, r) && near(ms[i].y as int, y, r)
            && forall|k: int| from <= k < i ==> !(!ms[k].collected && near(ms[k].x as int, x, r) && near(ms[k].y as int, y, r)),
        first_loot(ms, x, y, r, from) is None ==> forall|k: int| from <= k < ms.len() ==> !(!ms[k].collected && near(ms[k].x as int, x, r) && near(ms[k].y as int, y, r)),
    decreases ms.len() - from,
{
    if from < ms.len() && !(!ms[from].collected && near(ms[from].x as int, x, r) && near(ms[from].y as int, y, r)) {
        lemma_first_loot(ms, x, y, r, from + 1);
    }
}

fn abs_diff_below(a: i32, b: i32, radius: i32) -> (r: bool)
    ensures
        r == near(a as int, b as int, radius as int),
{
    let d = a as i64 - b as i64;
    -(radius as i64) < d && d < radius as i64
}

/// The world as a new game makes it (see `WorldMap::new`).
pub open spec fn is_new_world(w: WorldMap) -> bool {
    &&& w.width == MAP_WIDTH
    &&& w.height == MAP_HEIGHT
    &&& w.wf()
    &&& forall|x: int, y: int| 0 <= x < MAP_WIDTH && 0 <= y < MAP_HEIGHT ==> #[trigger] w.tiles@[y]@[x] == initial_tile(x, y)
    &&& is_initial_npcs(w.npcs@)
    &&& is_initial_monsters(w.monsters@)
    &&& is_initial_loot(w.loot@)
}

impl WorldMap {
    /// The grid has `height` rows of `width` cells.
    pub open spec fn wf(&self) -> bool {
        grid_ok(self.tiles@, self.width as int, self.height as int)
    }

    /// A new world: the 60 × 40 map of `initial_tile`, five NPCs, thirteen monsters and
    /// twelve ingredients (see `is_initial_npcs`, `is_initial_monsters`, `is_initial_loot`).
    pub fn new() -> (w: WorldMap)
        ensures
            is_new_world(w),
    {
        let mut tiles: Vec<Vec<TileType>> = Vec::new();
        let mut y: usize = 0;
        while y < MAP_HEIGHT
            invariant
                y <= MAP_HEIGHT,
                tiles@.len() == y,
                forall|r: int| 0 <= r < y ==> (#[trigger] tiles@[r])@.len() == MAP_WIDTH,
                forall|c: int, r: int| 0 <= c < MAP_WIDTH && 0 <= r < y ==> #[trigger] tiles@[r]@[c] == initial_tile(c, r),
            decreases MAP_HEIGHT - y,
        {
            let mut row: Vec<TileType> = Vec::new();
            let mut x: usize = 0;
            while x < MAP_WIDTH
                invariant
                    x <= MAP_WIDTH,
                    y < MAP_HEIGHT,
                    row@.len() == x,
                    forall|c: int| 0 <= c < x ==> #[trigger] row@[c] == initial_tile(c, y as int),
                decreases MAP_WIDTH - x,
            {
                row.push(tile_at(x, y));
                x = x + 1;
            }
            tiles.push(row);
            y = y + 1;
        }
        let mut npcs: Vec<Npc> = Vec::new();
        npcs.push(npc("Sołtys Bogdan", 6, 5, "soltys", true, false));
        npcs.push(npc("Handlarz Mirek", 11, 5, "handlarz", false, true));
        npcs.push(npc("Zielarka Bożena", 6, 8, "zielarka", true, true));
        npcs.push(npc("Stary Wiedźmin Vesimir", 50, 30, "vesimir", true, false));
        npcs.push(npc("Tajemniczy Elf", 45, 8, "elf", true, false));
        let mut monsters: Vec<Monster> = Vec::new();
        monsters.push(Monster::ghul(38, 10, 1));
        monsters.push(Monster::ghul(42, 12, 1));
        monsters.push(Monster::utopiec(8, 28, 2));
        monsters.push(Monster::utopiec(12, 30, 1));
        monsters.push(Monster::kikimora(15, 32, 2));
        monsters.push(Monster::endriaga(40, 5, 2));
        monsters.push(Monster::endriaga(48, 14, 3));
        monsters.push(Monster::gryf(50, 3, 3));
        monsters.push(Monster::wilkolak(33, 31, 4));
        monsters.push(Monster::bazyliszek(34, 33, 5));
        monsters.push(Monster::bandyta(25, 18, 1));
        monsters.push(Monster::bandyta(35, 19, 2));
        monsters.push(Monster::leszen(44, 6, 6));
        let mut loot: Vec<Loot> = Vec::new();
        loot.push(loot_at("Jaskier", 36, 4));
        loot.push(loot_at("Jaskier", 40, 7));
        loot.push(loot_at("Berberysy", 38, 9));
        loot.push(loot_at("Rdest", 43, 11));
        loot.push(loot_at("Piołun ziołowy", 10, 26));
        loot.push(loot_at("Piołun ziołowy", 14, 29));
        loot.push(loot_at("Trujący bluszcz", 6, 31));
        loot.push(loot_at("Saletra", 32, 30));
        loot.push(loot_at("Saletra", 35, 32));
        loot.push(loot_at("Tłuszcz niedźwiedzi", 47, 10));
        loot.push(loot_at("Oczy endriagi", 52, 6));
        loot.push(loot_at("Rdest", 16, 27));
        WorldMap { tiles, npcs, monsters, loot, width: MAP_WIDTH, height: MAP_HEIGHT }
    }

    /// The cell at (x, y); a wall outside the map.
    pub fn get_tile(&self, x: usize, y: usize) -> (t: TileType)
        requires
            self.wf(),
        ensures
            t == (if x < self.width && y < self.height { self.tiles@[y as int]@[x as int] } else { TileType::Wall }),
    {
        if x < self.width && y < self.height {
            self.tiles[y][x]
        } else {
            TileType::Wall
        }
    }

    /// Whether the cell under position (x, y) can be walked on; nothing outside the map can.
    /// Negative positions fall on the cell at 0.
    pub fn is_walkable(&self, x: i32, y: i32) -> (b: bool)
        requires
            self.wf(),
        ensures
            b == (cell(x as int) < self.width && cell(y as int) < self.height
                && tile_walkable(self.tiles@[cell(y as int)]@[cell(x as int)])),
    {
        let tx: usize = if x < 0 { 0 } else { x as usize };
        let ty: usize = if y < 0 { 0 } else { y as usize };
        if tx >= self.width || ty >= self.height {
            return false;
        }
        self.tiles[ty][tx].is_walkable()
    }

    /// The first living monster closer than `radius` to (x, y) along both axes.
    pub fn find_monster_at(&self, x: i32, y: i32, radius: i32) -> (r: Option<usize>)
        ensures
            r is Some == first_monster(self.monsters@, x as int, y as int, radius as int, 0) is Some,
            r matches Some(i) ==> first_monster(self.monsters@, x as int, y as int, radius as int, 0) == Some(i as int)
                && i < self.monsters@.len(),
    {
        proof {
            lemma_first_monster(self.monsters@, x as int, y as int, radius as int, 0);
        }
        let mut i: usize = 0;
        while i < self.monsters.len()
            invariant
                i <= self.monsters@.len(),
                first_monster(self.monsters@, x as int, y as int, radius as int, 0)
                    == first_monster(self.monsters@, x as int, y as int, radius as int, i as int),
            decreases self.monsters.len() - i,
        {
            let m = &self.monsters[i];
            if m.alive && abs_diff_below(m.x, x, radius) && abs_diff_below(m.y, y, radius) {
                return Some(i);
            }
            i = i + 1;
        }
        None
    }

    /// The first NPC closer than `radius` to (x, y) along both axes.
    pub fn find_npc_at(&self, x: i32, y: i32, radius: i32) -> (r: Option<usize>)
        ensures
            r is Some == first_npc(self.npcs@, x as int, y as int, radius as int, 0) is Some,
            r matches Some(i) ==> first_npc(self.npcs@, x as int, y as int, radius as int, 0) == Some(i as int)
                && i < self.npcs@.len(),
    {
        proof {
            lemma_first_npc(self.npcs@, x as int, y as int, radius as int, 0);
        }
        let mut i: usize = 0;
        while i < self.npcs.len()
            invariant
                i <= self.npcs@.len(),
                first_npc(self.npcs@, x as int, y as int, radius as int, 0)
                    == first_npc(self.npcs@, x as int, y as int, radius as int, i as int),
            decreases self.npcs.len() - i,
        {
            let n = &self.npcs[i];
            if abs_diff_below(n.x, x, radius) && abs_diff_below(n.y, y, radius) {
                return Some(i);
            }
            i = i + 1;
        }
        None
    }

    /// The first uncollected loot closer than `radius` to (x, y) along both axes.
    pub fn find_loot_at(&self, x: i32, y: i32, radius: i32) -> (r: Option<usize>)
        ensures
            r is Some == first_loot(self.loot@, x as int, y as int, radius as int, 0) is Some,
            r matches Some(i) ==> first_loot(self.loot@, x as int, y as int, radius as int, 0) == Some(i as int)
                && i < self.loot@.len(),
    {
        proof {
            lemma_first_loot(self.loot@, x as int, y as int, radius as int, 0);
        }
        let mut i: usize = 0;
        while i < self.loot.len()
            invariant
                i <= self.loot@.len(),
                first_loot(self.loot@, x as int, y as int, radius as int, 0)
                    == first_loot(self.loot@, x as int, y as int, radius as int, i as int),
            decreases self.loot.len() - i,
        {
            let l = &self.loot[i];
            if !l.collected && abs_diff_below(l.x, x, radius) && abs_diff_below(l.y, y, radius) {
                return Some(i);
            }
            i = i + 1;
        }
        None
    }

    /// The name of the region under position (x, y).
    pub fn location_name(&self, x: i32, y: i32) -> (s: &'static str)
        ensures
            s@ == location_of(cell(x as int), cell(y as int)),
    {
        let tx: i32 = if x < 0 { 0 } else { x };
        let ty: i32 = if y < 0 { 0 } else { y };
        if tx >= 3 && tx <= 13 && ty >= 3 && ty <= 9 {
            return "Wioska Rumia";
        }
        if tx >= 35 && tx <= 55 && ty >= 1 && ty <= 16 {
            return "Mroczny Las";
        }
        if tx >= 2 && tx <= 20 && ty >= 24 && ty <= 35 {
            return "Bagno";
        }
        if tx >= 28 && tx <= 38 && ty >= 28 && ty <= 36 {
            return "Jaskinia";
        }
        if tx >= 44 && tx <= 58 && ty >= 26 && ty <= 38 {
            return "Zamek";
        }
        "Dzicz"
    }
}

} // verus!
