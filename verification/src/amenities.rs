//! Amenities: which amenity an element is drawn as, what a recycling
//! container holds, and the markings of a car park.

use vstd::prelude::*;
use crate::deterministic_rng::{element_rng, roll_ratio, spec_state_seed, xoshiro_ratio, xoshiro_seeded};
use crate::highways::tag_i32_or_zero;
use crate::osm_parser::ProcessedElement;
use crate::tags::Tags;
use crate::text::{parse_i32, str_eq};

verus! {

/// The amenities drawn.
#[derive(Clone, Copy, PartialEq, Eq, Structural, Debug)]
pub enum AmenityKind {
    /// A recycling container (only `recycling_type=container`).
    RecyclingContainer,
    WasteBasket,
    VendingMachine,
    BicycleParking,
    Bench,
    Shelter,
    Parking,
    Fountain,
    Nothing,
}

/// What an amenity is drawn as: nothing on a negative layer or level; else
/// by its `amenity` tag.
pub open spec fn spec_amenity_kind(t: Map<Seq<char>, Seq<char>>) -> AmenityKind {
    if (t.contains_key("layer"@) && tag_i32_or_zero(t, "layer"@) < 0) || (t.contains_key(
        "level"@,
    ) && tag_i32_or_zero(t, "level"@) < 0) || !t.contains_key("amenity"@) {
        AmenityKind::Nothing
    } else {
        let a = t["amenity"@];
        if a == "recycling"@ {
            if t.contains_key("recycling_type"@) && t["recycling_type"@] == "container"@ {
                AmenityKind::RecyclingContainer
            } else {
                AmenityKind::Nothing
            }
        } else if a == "waste_disposal"@ || a == "waste_basket"@ {
            AmenityKind::WasteBasket
        } else if a == "vending_machine"@ || a == "atm"@ {
            AmenityKind::VendingMachine
        } else if a == "bicycle_parking"@ {
            AmenityKind::BicycleParking
        } else if a == "bench"@ {
            AmenityKind::Bench
        } else if a == "shelter"@ {
            AmenityKind::Shelter
        } else if a == "parking"@ {
            AmenityKind::Parking
        } else if a == "fountain"@ {
            AmenityKind::Fountain
        } else {
            AmenityKind::Nothing
        }
    }
}

fn negative_tag(tags: &Tags, key: &str) -> (b: bool)
    ensures
        b == (tags@.contains_key(key@) && tag_i32_or_zero(tags@, key@) < 0),
{
    match tags.get(key) {
        Some(v) => match parse_i32(v.as_str()) {
            Some(n) => n < 0,
            None => false,
        },
        None => false,
    }
}

/// What an amenity element is drawn as.
pub fn generate_amenities(element: &ProcessedElement) -> (k: AmenityKind)
    ensures
        k == spec_amenity_kind(element.spec_tags()),
{
    let t = element.tags();
    if negative_tag(t, "layer") || negative_tag(t, "level") {
        return AmenityKind::Nothing;
    }
    match t.get("amenity") {
        None => AmenityKind::Nothing,
        Some(a) => {
            let a = a.as_str();
            if str_eq(a, "recycling") {
                if t.has_value("recycling_type", "container") {
                    AmenityKind::RecyclingContainer
                } else {
                    AmenityKind::Nothing
                }
            } else if str_eq(a, "waste_disposal") || str_eq(a, "waste_basket") {
                AmenityKind::WasteBasket
            } else if str_eq(a, "vending_machine") || str_eq(a, "atm") {
                AmenityKind::VendingMachine
            } else if str_eq(a, "bicycle_parking") {
                AmenityKind::BicycleParking
            } else if str_eq(a, "bench") {
                AmenityKind::Bench
            } else if str_eq(a, "shelter") {
                AmenityKind::Shelter
            } else if str_eq(a, "parking") {
                AmenityKind::Parking
            } else if str_eq(a, "fountain") {
                AmenityKind::Fountain
            } else {
                AmenityKind::Nothing
            }
        },
    }
}

/// What a recycling container may hold.
#[derive(Clone, Copy, PartialEq, Eq, Structural, Debug)]
pub enum RecyclingLootKind {
    GlassBottle,
    Paper,
    GlassBlock,
    GlassPane,
    LeatherArmor,
    EmptyBucket,
    LeatherBoots,
    ScrapMetal,
    GreenWaste,
}

/// The kinds of loot shown on a container's item frame.
#[derive(Clone, Copy, PartialEq, Eq, Structural, Debug)]
pub enum LootCategory {
    GlassBottle,
    Paper,
    Glass,
    Leather,
    EmptyBucket,
    ScrapMetal,
    GreenWaste,
}

/// Whether a recycling tag is `yes`.
pub open spec fn spec_tag_enabled(t: Map<Seq<char>, Seq<char>>, key: Seq<char>) -> bool {
    t.contains_key(key) && t[key] == "yes"@
}

/// Whether tag `key` is `yes`.
pub fn tag_enabled(tags: &Tags, key: &str) -> (b: bool)
    ensures
        b == spec_tag_enabled(tags@, key@),
{
    tags.has_value(key, "yes")
}

/// `s` with `k` appended where `b` holds.
pub open spec fn add_if(s: Seq<RecyclingLootKind>, b: bool, k: RecyclingLootKind) -> Seq<
    RecyclingLootKind,
> {
    if b {
        s.push(k)
    } else {
        s
    }
}

/// What a container holds, in the order of its tags: glass bottles, paper,
/// glass (blocks and panes), clothes, cans, shoes, scrap metal, green waste.
pub open spec fn spec_loot_pool(t: Map<Seq<char>, Seq<char>>) -> Seq<RecyclingLootKind> {
    let glass = spec_tag_enabled(t, "recycling:glass"@);
    let s0 = add_if(
        Seq::empty(),
        spec_tag_enabled(t, "recycling:glass_bottles"@),
        RecyclingLootKind::GlassBottle,
    );
    let s1 = add_if(s0, spec_tag_enabled(t, "recycling:paper"@), RecyclingLootKind::Paper);
    let s2 = add_if(add_if(s1, glass, RecyclingLootKind::GlassBlock), glass, RecyclingLootKind::GlassPane);
    let s3 = add_if(s2, spec_tag_enabled(t, "recycling:clothes"@), RecyclingLootKind::LeatherArmor);
    let s4 = add_if(s3, spec_tag_enabled(t, "recycling:cans"@), RecyclingLootKind::EmptyBucket);
    let s5 = add_if(s4, spec_tag_enabled(t, "recycling:shoes"@), RecyclingLootKind::LeatherBoots);
    let s6 = add_if(s5, spec_tag_enabled(t, "recycling:scrap_metal"@), RecyclingLootKind::ScrapMetal);
    add_if(s6, spec_tag_enabled(t, "recycling:green_waste"@), RecyclingLootKind::GreenWaste)
}

fn push_if(v: &mut Vec<RecyclingLootKind>, b: bool, k: RecyclingLootKind)
    ensures
        final(v)@ == add_if(old(v)@, b, k),
{
    if b {
        v.push(k);
    }
}

/// What a recycling container holds, from its `recycling:*` tags.
pub fn build_recycling_loot_pool(tags: &Tags) -> (pool: Vec<RecyclingLootKind>)
    ensures
        pool@ == spec_loot_pool(tags@),
{
    let mut pool: Vec<RecyclingLootKind> = Vec::new();
    push_if(&mut pool, tag_enabled(tags, "recycling:glass_bottles"), RecyclingLootKind::GlassBottle);
    push_if(&mut pool, tag_enabled(tags, "recycling:paper"), RecyclingLootKind::Paper);
    let glass = tag_enabled(tags, "recycling:glass");
    push_if(&mut pool, glass, RecyclingLootKind::GlassBlock);
    push_if(&mut pool, glass, RecyclingLootKind::GlassPane);
    push_if(&mut pool, tag_enabled(tags, "recycling:clothes"), RecyclingLootKind::LeatherArmor);
    push_if(&mut pool, tag_enabled(tags, "recycling:cans"), RecyclingLootKind::EmptyBucket);
    push_if(&mut pool, tag_enabled(tags, "recycling:shoes"), RecyclingLootKind::LeatherBoots);
    push_if(&mut pool, tag_enabled(tags, "recycling:scrap_metal"), RecyclingLootKind::ScrapMetal);
    push_if(&mut pool, tag_enabled(tags, "recycling:green_waste"), RecyclingLootKind::GreenWaste);
    pool
}

/// The category a kind of loot is shown as.
pub open spec fn spec_category(kind: RecyclingLootKind) -> LootCategory {
    match kind {
        RecyclingLootKind::GlassBottle => LootCategory::GlassBottle,
        RecyclingLootKind::Paper => LootCategory::Paper,
        RecyclingLootKind::GlassBlock | RecyclingLootKind::GlassPane => LootCategory::Glass,
        RecyclingLootKind::LeatherArmor | RecyclingLootKind::LeatherBoots => LootCategory::Leather,
        RecyclingLootKind::EmptyBucket => LootCategory::EmptyBucket,
        RecyclingLootKind::ScrapMetal => LootCategory::ScrapMetal,
        RecyclingLootKind::GreenWaste => LootCategory::GreenWaste,
    }
}

/// The category a kind of loot is shown as.
pub fn kind_to_category(kind: RecyclingLootKind) -> (c: LootCategory)
    ensures
        c == spec_category(kind),
{
    match kind {
        RecyclingLootKind::GlassBottle => LootCategory::GlassBottle,
        RecyclingLootKind::Paper => LootCategory::Paper,
        RecyclingLootKind::GlassBlock | RecyclingLootKind::GlassPane => LootCategory::Glass,
        RecyclingLootKind::LeatherArmor | RecyclingLootKind::LeatherBoots => LootCategory::Leather,
        RecyclingLootKind::EmptyBucket => LootCategory::EmptyBucket,
        RecyclingLootKind::ScrapMetal => LootCategory::ScrapMetal,
        RecyclingLootKind::GreenWaste => LootCategory::GreenWaste,
    }
}

/// The one category of a pool whose loot all falls in one category; `None`
/// for an empty pool or a mixed one.
pub fn single_loot_category(pool: &[RecyclingLootKind]) -> (c: Option<LootCategory>)
    ensures
        match c {
            Some(cat) => pool@.len() > 0 && forall|i: int|
                0 <= i < pool@.len() ==> spec_category(#[trigger] pool@[i]) == cat,
            None => pool@.len() == 0 || exists|i: int, j: int|
                0 <= i < pool@.len() && 0 <= j < pool@.len() && spec_category(#[trigger] pool@[i])
                    != spec_category(#[trigger] pool@[j]),
        },
{
    if pool.len() == 0 {
        return None;
    }
    let first = kind_to_category(pool[0]);
    let mut i: usize = 1;
    while i < pool.len()
        invariant
            1 <= i <= pool@.len(),
            first == spec_category(pool@[0]),
            forall|k: int| 0 <= k < i ==> spec_category(#[trigger] pool@[k]) == first,
        decreases pool@.len() - i,
    {
        if kind_to_category(pool[i]) != first {
            assert(spec_category(pool@[0]) != spec_category(pool@[i as int]));
            return None;
        }
        i = i + 1;
    }
    Some(first)
}

/// Width of a parking space, in blocks.
pub const PARKING_SPACE_WIDTH: i32 = 4;

/// Length of a parking space, in blocks.
pub const PARKING_SPACE_LENGTH: i32 = 7;

/// Width of the lane between rows of spaces, in blocks.
pub const PARKING_LANE_WIDTH: i32 = 8;

/// The markings of a car park block.
#[derive(Clone, Copy, PartialEq, Eq, Structural, Debug)]
pub enum ParkingMark {
    /// A white line between or across spaces.
    Line,
    /// The driving lane.
    Lane,
    /// Plain surface.
    Plain,
}

/// The marking at `(rx, rz)` blocks from the car park's corner, and whether
/// a lamp post stands there (at the corner of every fourth space of every
/// other row).
pub open spec fn spec_parking_cell(rx: int, rz: int) -> (ParkingMark, bool) {
    let row = PARKING_SPACE_LENGTH + PARKING_LANE_WIDTH;
    let lx = rx % PARKING_SPACE_WIDTH as int;
    let lz = rz % row as int;
    let mark = if lz < PARKING_SPACE_LENGTH {
        if lx == 0 || lz == 0 { ParkingMark::Line } else { ParkingMark::Plain }
    } else if lz == PARKING_SPACE_LENGTH {
        ParkingMark::Line
    } else {
        ParkingMark::Lane
    };
    (mark, lx == 0 && lz == 0 && (rx / PARKING_SPACE_WIDTH as int) % 4 == 0 && (rz / row as int) % 2 == 0)
}

/// The marking of a car park block and whether a lamp post stands there.
pub fn parking_cell(rx: i32, rz: i32) -> (c: (ParkingMark, bool))
    requires
        rx >= 0,
        rz >= 0,
    ensures
        c == spec_parking_cell(rx as int, rz as int),
{
    let row = PARKING_SPACE_LENGTH + PARKING_LANE_WIDTH;
    let lx = rx % PARKING_SPACE_WIDTH;
    let lz = rz % row;
    let mark = if lz < PARKING_SPACE_LENGTH {
        if lx == 0 || lz == 0 {
            ParkingMark::Line
        } else {
            ParkingMark::Plain
        }
    } else if lz == PARKING_SPACE_LENGTH {
        ParkingMark::Line
    } else {
        ParkingMark::Lane
    };
    (mark, lx == 0 && lz == 0 && (rx / PARKING_SPACE_WIDTH) % 4 == 0 && (rz / row) % 2 == 0)
}

// ---------------------------------------------------------------------------
// Loot tables
// ---------------------------------------------------------------------------

/// Pieces of leather armour.
#[derive(Clone, Copy, PartialEq, Eq, Structural, Debug)]
pub enum LeatherPiece {
    Helmet,
    Chestplate,
    Leggings,
    Boots,
}

/// The piece of armour a roll of 0 to 3 gives: helmet, chestplate,
/// leggings, then boots for any higher roll.
pub fn leather_piece(roll: i32) -> (p: LeatherPiece)
    ensures
        p == (if roll == 0 {
            LeatherPiece::Helmet
        } else if roll == 1 {
            LeatherPiece::Chestplate
        } else if roll == 2 {
            LeatherPiece::Leggings
        } else {
            LeatherPiece::Boots
        }),
{
    if roll == 0 {
        LeatherPiece::Helmet
    } else if roll == 1 {
        LeatherPiece::Chestplate
    } else if roll == 2 {
        LeatherPiece::Leggings
    } else {
        LeatherPiece::Boots
    }
}

/// The item id of a piece of leather armour and its durability.
pub open spec fn spec_leather_item(p: LeatherPiece) -> (Seq<char>, i32) {
    match p {
        LeatherPiece::Helmet => ("minecraft:leather_helmet"@, 55i32),
        LeatherPiece::Chestplate => ("minecraft:leather_chestplate"@, 80i32),
        LeatherPiece::Leggings => ("minecraft:leather_leggings"@, 75i32),
        LeatherPiece::Boots => ("minecraft:leather_boots"@, 65i32),
    }
}

/// The item id of a piece of leather armour and its durability.
pub fn leather_item(p: LeatherPiece) -> (r: (&'static str, i32))
    ensures
        (r.0@, r.1) == spec_leather_item(p),
{
    match p {
        LeatherPiece::Helmet => ("minecraft:leather_helmet", 55),
        LeatherPiece::Chestplate => ("minecraft:leather_chestplate", 80),
        LeatherPiece::Leggings => ("minecraft:leather_leggings", 75),
        LeatherPiece::Boots => ("minecraft:leather_boots", 65),
    }
}

/// The range worn armour is damaged in: up to one less than its durability
/// (taken as at least 1), and at least half of it for heavy wear.
pub open spec fn spec_damage_bounds(max_damage: i32) -> (int, int) {
    let safe_max: int = if max_damage < 1 {
        1
    } else {
        max_damage as int
    };
    let upper = safe_max - 1;
    let half = safe_max / 2;
    (if half <= upper {
        half
    } else {
        upper
    }, upper)
}

/// The range heavy wear is drawn from, `(lower, upper)`; other wear is drawn
/// from `0` to `upper`.
pub fn damage_bounds(max_damage: i32) -> (r: (i32, i32))
    ensures
        (r.0 as int, r.1 as int) == spec_damage_bounds(max_damage),
        0 <= r.0 <= r.1,
{
    let safe_max: i32 = if max_damage < 1 {
        1
    } else {
        max_damage
    };
    let upper: i32 = safe_max - 1;
    let half: i32 = safe_max / 2;
    (if half <= upper {
        half
    } else {
        upper
    }, upper)
}

/// The damage of a worn piece: the larger of a heavy-wear draw and another
/// draw, so that most pieces come out well worn.
pub fn biased_damage(max_damage: i32, heavy_wear: i32, random_wear: i32) -> (d: i32)
    requires
        spec_damage_bounds(max_damage).0 <= heavy_wear <= spec_damage_bounds(max_damage).1,
        0 <= random_wear <= spec_damage_bounds(max_damage).1,
    ensures
        d == (if heavy_wear >= random_wear {
            heavy_wear
        } else {
            random_wear
        }),
        spec_damage_bounds(max_damage).0 <= d <= spec_damage_bounds(max_damage).1,
{
    if heavy_wear >= random_wear {
        heavy_wear
    } else {
        random_wear
    }
}

/// The sixteen dye colours of stained glass, in the order they are drawn.
pub open spec fn glass_colors() -> Seq<Seq<char>> {
    seq![
        "white"@,
        "orange"@,
        "magenta"@,
        "light_blue"@,
        "yellow"@,
        "lime"@,
        "pink"@,
        "gray"@,
        "light_gray"@,
        "cyan"@,
        "purple"@,
        "blue"@,
        "brown"@,
        "green"@,
        "red"@,
        "black"@,
    ]
}

/// The colour of stained glass for a draw of 0 to 15.
pub fn glass_color(index: usize) -> (c: &'static str)
    requires
        index < 16,
    ensures
        c@ == glass_colors()[index as int],
{
    let colors: [&'static str; 16] = [
        "white",
        "orange",
        "magenta",
        "light_blue",
        "yellow",
        "lime",
        "pink",
        "gray",
        "light_gray",
        "cyan",
        "purple",
        "blue",
        "brown",
        "green",
        "red",
        "black",
    ];
    assert(colors@.map_values(|s: &'static str| s@) =~= glass_colors());
    let c = colors[index];
    assert(c@ == colors@.map_values(|s: &'static str| s@)[index as int]);
    c
}

/// How many pieces of glass a slot holds: 4 to 16 panes, or 1 to 6 blocks.
pub fn glass_count_range(is_pane: bool) -> (r: (i32, i32))
    ensures
        r == (if is_pane {
            (4i32, 16i32)
        } else {
            (1i32, 6i32)
        }),
{
    if is_pane {
        (4, 16)
    } else {
        (1, 6)
    }
}

/// The garden waste a draw of 0 to 7 gives, with the range of its count:
/// tall grass, sweet berries, then the six saplings.
pub open spec fn spec_green_waste(roll: i32) -> (Seq<char>, (i32, i32)) {
    if roll == 0 {
        ("minecraft:tall_grass"@, (1i32, 4i32))
    } else if roll == 1 {
        ("minecraft:sweet_berries"@, (2i32, 6i32))
    } else if roll == 2 {
        ("minecraft:oak_sapling"@, (1i32, 2i32))
    } else if roll == 3 {
        ("minecraft:birch_sapling"@, (1i32, 2i32))
    } else if roll == 4 {
        ("minecraft:spruce_sapling"@, (1i32, 2i32))
    } else if roll == 5 {
        ("minecraft:jungle_sapling"@, (1i32, 2i32))
    } else if roll == 6 {
        ("minecraft:acacia_sapling"@, (1i32, 2i32))
    } else {
        ("minecraft:dark_oak_sapling"@, (1i32, 2i32))
    }
}

/// The garden waste for a draw, with the range of its count.
pub fn green_waste(roll: i32) -> (r: (&'static str, (i32, i32)))
    ensures
        (r.0@, r.1) == spec_green_waste(roll),
{
    if roll == 0 {
        ("minecraft:tall_grass", (1, 4))
    } else if roll == 1 {
        ("minecraft:sweet_berries", (2, 6))
    } else if roll == 2 {
        ("minecraft:oak_sapling", (1, 2))
    } else if roll == 3 {
        ("minecraft:birch_sapling", (1, 2))
    } else if roll == 4 {
        ("minecraft:spruce_sapling", (1, 2))
    } else if roll == 5 {
        ("minecraft:jungle_sapling", (1, 2))
    } else if roll == 6 {
        ("minecraft:acacia_sapling", (1, 2))
    } else {
        ("minecraft:dark_oak_sapling", (1, 2))
    }
}

/// The seeds that replace garden waste, for a draw of 0 to 3.
pub fn seed_item(roll: i32) -> (id: &'static str)
    ensures
        id@ == (if roll == 0 {
            "minecraft:wheat_seeds"@
        } else if roll == 1 {
            "minecraft:pumpkin_seeds"@
        } else if roll == 2 {
            "minecraft:melon_seeds"@
        } else {
            "minecraft:beetroot_seeds"@
        }),
{
    if roll == 0 {
        "minecraft:wheat_seeds"
    } else if roll == 1 {
        "minecraft:pumpkin_seeds"
    } else if roll == 2 {
        "minecraft:melon_seeds"
    } else {
        "minecraft:beetroot_seeds"
    }
}

/// The range of the count of a kind of loot whose item is fixed: 1 to 4
/// bottles, 1 to 10 sheets of paper, one bucket; `None` for the kinds
/// whose item is drawn first.
pub fn basic_count_range(kind: RecyclingLootKind) -> (r: Option<(i32, i32)>)
    ensures
        r == (match kind {
            RecyclingLootKind::GlassBottle => Some((1i32, 4i32)),
            RecyclingLootKind::Paper => Some((1i32, 10i32)),
            RecyclingLootKind::EmptyBucket => Some((1i32, 1i32)),
            _ => None,
        }),
{
    match kind {
        RecyclingLootKind::GlassBottle => Some((1, 4)),
        RecyclingLootKind::Paper => Some((1, 10)),
        RecyclingLootKind::EmptyBucket => Some((1, 1)),
        _ => None,
    }
}

/// The metal ingots of scrap metal, in the order they are drawn.
pub open spec fn scrap_metals() -> Seq<Seq<char>> {
    seq!["minecraft:copper_ingot"@, "minecraft:iron_ingot"@, "minecraft:gold_ingot"@]
}

/// The views of a list of item ids.
pub open spec fn id_views(v: Seq<&'static str>) -> Seq<Seq<char>> {
    v.map_values(|s: &'static str| s@)
}

/// The ingots scrap metal is drawn from; a container slot holds 1 to 3.
pub fn scrap_metal_ids() -> (v: Vec<&'static str>)
    ensures
        id_views(v@) == scrap_metals(),
{
    let v: Vec<&'static str> = vec!["minecraft:copper_ingot", "minecraft:iron_ingot", "minecraft:gold_ingot"];
    assert(id_views(v@) =~= scrap_metals());
    v
}

/// What the item frame of a container of one category shows: one of these
/// items, with a count in this range.
pub open spec fn spec_display_options(c: LootCategory) -> (Seq<Seq<char>>, (i32, i32)) {
    match c {
        LootCategory::GlassBottle => (seq!["minecraft:glass_bottle"@], (1i32, 1i32)),
        LootCategory::Paper => (seq!["minecraft:paper"@], (1i32, 4i32)),
        LootCategory::Glass => (seq!["minecraft:glass"@], (1i32, 1i32)),
        LootCategory::Leather => (seq!["minecraft:leather_chestplate"@], (1i32, 1i32)),
        LootCategory::EmptyBucket => (seq!["minecraft:bucket"@], (1i32, 1i32)),
        LootCategory::ScrapMetal => (scrap_metals(), (1i32, 2i32)),
        LootCategory::GreenWaste => (
            seq![
                "minecraft:oak_sapling"@,
                "minecraft:birch_sapling"@,
                "minecraft:tall_grass"@,
                "minecraft:sweet_berries"@,
                "minecraft:wheat_seeds"@,
            ],
            (1i32, 3i32),
        ),
    }
}

/// The items an item frame of a category may show, and their count range.
pub fn display_options(c: LootCategory) -> (r: (Vec<&'static str>, (i32, i32)))
    ensures
        (id_views(r.0@), r.1) == spec_display_options(c),
{
    let r: (Vec<&'static str>, (i32, i32)) = match c {
        LootCategory::GlassBottle => (vec!["minecraft:glass_bottle"], (1, 1)),
        LootCategory::Paper => (vec!["minecraft:paper"], (1, 4)),
        LootCategory::Glass => (vec!["minecraft:glass"], (1, 1)),
        LootCategory::Leather => (vec!["minecraft:leather_chestplate"], (1, 1)),
        LootCategory::EmptyBucket => (vec!["minecraft:bucket"], (1, 1)),
        LootCategory::ScrapMetal => (scrap_metal_ids(), (1, 2)),
        LootCategory::GreenWaste => (
            vec![
                "minecraft:oak_sapling",
                "minecraft:birch_sapling",
                "minecraft:tall_grass",
                "minecraft:sweet_berries",
                "minecraft:wheat_seeds",
            ],
            (1, 3),
        ),
    };
    assert(id_views(r.0@) =~= spec_display_options(c).0);
    r
}

/// The number of slots of a recycling container.
pub const RECYCLING_SLOTS: usize = 27;

/// The kinds a recycling container holds, with their slots, from the draws
/// of its slots: `picks[slot]` is `None` where the slot's one-in-five draw
/// left it empty, else the index of the pool's kind drawn for it; nothing
/// at all from an empty pool.
pub open spec fn spec_recycling_slots(pool: Seq<RecyclingLootKind>, picks: Seq<Option<usize>>, n: int) -> Seq<(i8, RecyclingLootKind)>
    decreases n,
{
    if n <= 0 || pool.len() == 0 {
        Seq::empty()
    } else {
        let before = spec_recycling_slots(pool, picks, n - 1);
        match picks[n - 1] {
            Some(i) => before.push(((n - 1) as i8, pool[i as int])),
            None => before,
        }
    }
}

/// The kinds a recycling container holds, slot by slot, from the draws of
/// its 27 slots; each kind is then made into an item of that slot.
pub fn recycling_slots(pool: &[RecyclingLootKind], picks: &[Option<usize>]) -> (v: Vec<(i8, RecyclingLootKind)>)
    requires
        picks@.len() == RECYCLING_SLOTS,
        forall|k: int| 0 <= k < picks@.len() ==> (#[trigger] picks@[k] matches Some(i) ==> i < pool@.len()),
    ensures
        v@ == spec_recycling_slots(pool@, picks@, RECYCLING_SLOTS as int),
{
    let mut v: Vec<(i8, RecyclingLootKind)> = Vec::new();
    if pool.len() == 0 {
        return v;
    }
    let mut slot: usize = 0;
    while slot < RECYCLING_SLOTS
        invariant
            slot <= RECYCLING_SLOTS,
            pool@.len() > 0,
            picks@.len() == RECYCLING_SLOTS,
            forall|k: int| 0 <= k < picks@.len() ==> (#[trigger] picks@[k] matches Some(i) ==> i < pool@.len()),
            v@ == spec_recycling_slots(pool@, picks@, slot as int),
        decreases RECYCLING_SLOTS - slot,
    {
        match picks[slot] {
            Some(i) => {
                v.push((slot as i8, pool[i]));
            },
            None => {},
        }
        slot += 1;
    }
    v
}

/// Whether the bench of element `element_id` runs along x (else along z):
/// a fair coin, the first draw of the element's generator.
pub fn bench_along_x(element_id: u64) -> (b: bool)
    ensures
        b == xoshiro_ratio(xoshiro_seeded(spec_state_seed(element_id)), 1, 2),
{
    let mut rng = element_rng(element_id);
    roll_ratio(&mut rng, 1, 2)
}

/// Whether a bench at ground level leaves a smooth stone slab at offset
/// `(dx, dy, dz)`: three slabs one above the ground, along x or along z.
pub fn bench_slab_at(along_x: bool, dx: i32, dy: i32, dz: i32) -> (b: bool)
    ensures
        b == (dy == 1 && (if along_x {
            dz == 0 && -1 <= dx <= 1
        } else {
            dx == 0 && -1 <= dz <= 1
        })),
{
    dy == 1 && (if along_x {
        dz == 0 && -1 <= dx && dx <= 1
    } else {
        dx == 0 && -1 <= dz && dz <= 1
    })
}

} // verus!
