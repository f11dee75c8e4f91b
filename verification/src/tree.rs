//! Trees: the species a tree is drawn as, chosen from its tags or at random
//! from its position, and the shape of each species.

use vstd::prelude::*;
use crate::deterministic_rng::{
    coord_rng, roll_inclusive, spec_coord_state, spec_state_seed, xoshiro_roll_inclusive,
    xoshiro_seeded,
};
use crate::tags::Tags;
use crate::floodfill_cache::CoordinateBitmap;
use crate::text::{is_substring, spec_to_lowercase, string_contains, to_lowercase};

verus! {

/// Tree species: the three generic ones and those of the Federal District
/// catalogue.
#[derive(Clone, Copy, PartialEq, Eq, Structural, Debug)]
pub enum TreeType {
    Oak,
    DarkOak,
    Acacia,
    IpeAmarelo,
    IpeRoxo,
    IpeBranco,
    Buriti,
    Sucupira,
    Copaiba,
}

/// The blocks trees are made of.
#[derive(Clone, Copy, PartialEq, Eq, Structural, Debug)]
pub enum TreeBlock {
    OakLog,
    OakFence,
    OakLeaves,
    DarkOakLog,
    DarkOakFence,
    DarkOakLeaves,
    AcaciaLog,
    AcaciaFence,
    AcaciaLeaves,
    SpruceLog,
    SpruceFence,
    JungleLog,
    JungleFence,
    JungleLeaves,
    YellowTerracotta,
    PinkTerracotta,
    WhiteTerracotta,
}

/// The shape of a species: trunk and twig blocks, the trunk height before
/// scaling, the leaves, the columns of leaves around the trunk (from, to),
/// and the heights of the three rings of leaves, top down.
pub struct Tree {
    pub log_block: TreeBlock,
    pub twig_block: TreeBlock,
    pub log_height: i32,
    pub leaves_block: TreeBlock,
    pub leaves_fill: Vec<((i32, i32, i32), (i32, i32, i32))>,
    pub round_ranges: Vec<Vec<i32>>,
}

/// The species named by a lowercase `species` value, if it is catalogued.
pub open spec fn spec_species_type(s: Seq<char>) -> Option<TreeType> {
    if is_substring("ipê amarelo"@, s) || is_substring("tabebuia alba"@, s) || is_substring(
        "handroanthus albus"@,
        s,
    ) {
        Some(TreeType::IpeAmarelo)
    } else if is_substring("ipê roxo"@, s) || is_substring("ipê rosa"@, s) || is_substring(
        "handroanthus impetiginosus"@,
        s,
    ) {
        Some(TreeType::IpeRoxo)
    } else if is_substring("ipê branco"@, s) || is_substring("tabebuia roseoalba"@, s) {
        Some(TreeType::IpeBranco)
    } else if is_substring("buriti"@, s) || is_substring("mauritia flexuosa"@, s) {
        Some(TreeType::Buriti)
    } else if is_substring("sucupira"@, s) || is_substring("pterodon"@, s) {
        Some(TreeType::Sucupira)
    } else if is_substring("copaíba"@, s) || is_substring("copaifera"@, s) {
        Some(TreeType::Copaiba)
    } else if is_substring("flamboyant"@, s) {
        Some(TreeType::Acacia)
    } else {
        None
    }
}

/// The species value of a tree: `species`, else `csv:especie`, in lowercase.
pub open spec fn spec_species_name(tags: Map<Seq<char>, Seq<char>>) -> Seq<char> {
    if tags.contains_key("species"@) {
        spec_to_lowercase(tags["species"@])
    } else if tags.contains_key("csv:especie"@) {
        spec_to_lowercase(tags["csv:especie"@])
    } else {
        Seq::empty()
    }
}

/// The catalogued species of a tree, from its tags.
pub fn species_type(tags: &Tags) -> (t: Option<TreeType>)
    ensures
        t == spec_species_type(spec_species_name(tags@)),
{
    let s = match tags.get("species") {
        Some(v) => to_lowercase(v.as_str()),
        None => match tags.get("csv:especie") {
            Some(v) => to_lowercase(v.as_str()),
            None => String::new(),
        },
    };
    if string_contains(&s, "ipê amarelo") || string_contains(&s, "tabebuia alba")
        || string_contains(&s, "handroanthus albus") {
        Some(TreeType::IpeAmarelo)
    } else if string_contains(&s, "ipê roxo") || string_contains(&s, "ipê rosa")
        || string_contains(&s, "handroanthus impetiginosus") {
        Some(TreeType::IpeRoxo)
    } else if string_contains(&s, "ipê branco") || string_contains(&s, "tabebuia roseoalba") {
        Some(TreeType::IpeBranco)
    } else if string_contains(&s, "buriti") || string_contains(&s, "mauritia flexuosa") {
        Some(TreeType::Buriti)
    } else if string_contains(&s, "sucupira") || string_contains(&s, "pterodon") {
        Some(TreeType::Sucupira)
    } else if string_contains(&s, "copaíba") || string_contains(&s, "copaifera") {
        Some(TreeType::Copaiba)
    } else if string_contains(&s, "flamboyant") {
        Some(TreeType::Acacia)
    } else {
        None
    }
}

/// The generic species for a roll of 1 to 10: oak for 1-4, dark oak for 5-7,
/// acacia for 8-10.
pub open spec fn spec_type_for_roll(roll: i32) -> TreeType {
    if roll <= 4 {
        TreeType::Oak
    } else if roll <= 7 {
        TreeType::DarkOak
    } else {
        TreeType::Acacia
    }
}

/// The generic species for a roll of 1 to 10.
pub fn type_for_roll(roll: i32) -> (t: TreeType)
    requires
        1 <= roll <= 10,
    ensures
        t == spec_type_for_roll(roll),
{
    if roll <= 4 {
        TreeType::Oak
    } else if roll <= 7 {
        TreeType::DarkOak
    } else {
        TreeType::Acacia
    }
}

/// The roll that decides the generic species of a tree at `(x, z)`.
pub open spec fn spec_position_roll(x: i32, z: i32) -> i32 {
    xoshiro_roll_inclusive(xoshiro_seeded(spec_state_seed(spec_coord_state(x, 0, z, 0))), 1, 10)
}

impl Tree {
    /// The generic species of a tree at `(x, z)`: a roll of the generator seeded
    /// from that position. The generator is the one of block `(x, 0, z)` with
    /// element id 0; the position's height plays no part in a tree's draws.
    pub fn create(x: i32, z: i32) -> (t: TreeType)
        ensures
            t == spec_type_for_roll(spec_position_roll(x, z)),
            t == TreeType::Oak || t == TreeType::DarkOak || t == TreeType::Acacia,
    {
        let mut rng = coord_rng(x, 0, z, 0);
        let roll = roll_inclusive(&mut rng, 1, 10);
        type_for_roll(roll)
    }
}

impl Tree {
    /// The species of a catalogued tree at `(x, z)`: from its `species` tag
    /// where catalogued, else a generic one rolled from its position.
    pub fn create_from_provider(x: i32, z: i32, tags: &Tags) -> (t: TreeType)
        ensures
            spec_species_type(spec_species_name(tags@)) matches Some(s) ==> t == s,
            spec_species_type(spec_species_name(tags@)) is None ==> t == spec_type_for_roll(
                spec_position_roll(x, z),
            ),
    {
        match species_type(tags) {
            Some(t) => t,
            None => Tree::create(x, z),
        }
    }
}

/// The leaves around the trunk of oaks and of trees shaped like them.
fn oak_fill() -> (v: Vec<((i32, i32, i32), (i32, i32, i32))>)
    ensures
        v@ == oak_fill_spec(),
{
    vec![((-1, 3, 0), (-1, 9, 0)), ((1, 3, 0), (1, 9, 0)), ((0, 3, -1), (0, 9, -1)), ((0, 3, 1), (0, 9, 1)), ((0, 9, 0), (0, 10, 0))]
}

/// `hi, hi - 1, ..., lo`.
pub open spec fn descending(lo: int, hi: int) -> Seq<i32>
    decreases hi - lo + 1,
{
    if hi < lo {
        Seq::empty()
    } else {
        seq![hi as i32] + descending(lo, hi - 1)
    }
}

fn descending_exec(lo: i32, hi: i32) -> (v: Vec<i32>)
    requires
        lo <= hi + 1,
        lo > i32::MIN,
    ensures
        v@ == descending(lo as int, hi as int),
    decreases hi - lo + 1,
{
    if hi < lo {
        Vec::new()
    } else {
        let mut v: Vec<i32> = vec![hi];
        let mut rest = descending_exec(lo, hi - 1);
        v.append(&mut rest);
        v
    }
}

fn rings(a: (i32, i32), b: (i32, i32), c: (i32, i32)) -> (v: Vec<Vec<i32>>)
    requires
        0 <= a.0 <= a.1 + 1,
        0 <= b.0 <= b.1 + 1,
        0 <= c.0 <= c.1 + 1,
    ensures
        v@.len() == 3,
        v@[0]@ == descending(a.0 as int, a.1 as int),
        v@[1]@ == descending(b.0 as int, b.1 as int),
        v@[2]@ == descending(c.0 as int, c.1 as int),
{
    let mut v: Vec<Vec<i32>> = Vec::new();
    v.push(descending_exec(a.0, a.1));
    v.push(descending_exec(b.0, b.1));
    v.push(descending_exec(c.0, c.1));
    v
}

/// The trunk height of a species before scaling.
pub open spec fn spec_log_height(kind: TreeType) -> i32 {
    match kind {
        TreeType::Oak => 8,
        TreeType::DarkOak => 5,
        TreeType::Acacia | TreeType::Sucupira => 6,
        TreeType::Copaiba => 10,
        TreeType::IpeAmarelo | TreeType::IpeRoxo => 9,
        TreeType::IpeBranco => 8,
        TreeType::Buriti => 12,
    }
}

/// The leaves of a species.
pub open spec fn spec_leaves(kind: TreeType) -> TreeBlock {
    match kind {
        TreeType::Oak | TreeType::Copaiba => TreeBlock::OakLeaves,
        TreeType::DarkOak => TreeBlock::DarkOakLeaves,
        TreeType::Acacia | TreeType::Sucupira => TreeBlock::AcaciaLeaves,
        TreeType::IpeAmarelo => TreeBlock::YellowTerracotta,
        TreeType::IpeRoxo => TreeBlock::PinkTerracotta,
        TreeType::IpeBranco => TreeBlock::WhiteTerracotta,
        TreeType::Buriti => TreeBlock::JungleLeaves,
    }
}

/// The trunk block of a species.
pub open spec fn spec_log(kind: TreeType) -> TreeBlock {
    match kind {
        TreeType::Oak => TreeBlock::OakLog,
        TreeType::DarkOak | TreeType::Copaiba => TreeBlock::DarkOakLog,
        TreeType::Acacia | TreeType::Sucupira => TreeBlock::AcaciaLog,
        TreeType::IpeAmarelo | TreeType::IpeRoxo | TreeType::IpeBranco => TreeBlock::SpruceLog,
        TreeType::Buriti => TreeBlock::JungleLog,
    }
}

/// The twig block of a species: the fence of its wood.
pub open spec fn spec_twig(kind: TreeType) -> TreeBlock {
    match kind {
        TreeType::Oak => TreeBlock::OakFence,
        TreeType::DarkOak | TreeType::Copaiba => TreeBlock::DarkOakFence,
        TreeType::Acacia | TreeType::Sucupira => TreeBlock::AcaciaFence,
        TreeType::IpeAmarelo | TreeType::IpeRoxo | TreeType::IpeBranco => TreeBlock::SpruceFence,
        TreeType::Buriti => TreeBlock::JungleFence,
    }
}

/// The ranges of the three rings of leaves of a species, each `(lo, hi)`.
pub open spec fn spec_ring_ranges(kind: TreeType) -> Seq<(int, int)> {
    match kind {
        TreeType::DarkOak => seq![(3, 6), (3, 5), (4, 5)],
        TreeType::Acacia | TreeType::Sucupira => seq![(5, 8), (5, 7), (6, 7)],
        TreeType::Copaiba => seq![(4, 9), (5, 8), (6, 7)],
        TreeType::Buriti => seq![(1, 0), (1, 0), (1, 0)],
        _ => seq![(3, 8), (4, 7), (5, 6)],
    }
}

/// The columns of leaves of oak-shaped crowns (oak, copaíba, ipês).
pub open spec fn oak_fill_spec() -> Seq<((i32, i32, i32), (i32, i32, i32))> {
    seq![((-1i32, 3i32, 0i32), (-1i32, 9i32, 0i32)), ((1i32, 3i32, 0i32), (1i32, 9i32, 0i32)),
        ((0i32, 3i32, -1i32), (0i32, 9i32, -1i32)), ((0i32, 3i32, 1i32), (0i32, 9i32, 1i32)),
        ((0i32, 9i32, 0i32), (0i32, 10i32, 0i32))]
}

/// The columns of leaves around the trunk of a species, each from one
/// offset to another: the dark oak's lower crown, the acacia's higher one
/// (also sucupira's), none for the buriti (its crown is drawn apart), and
/// the oak's for the others.
pub open spec fn spec_leaves_fill(kind: TreeType) -> Seq<((i32, i32, i32), (i32, i32, i32))> {
    match kind {
        TreeType::DarkOak => seq![((-1i32, 3i32, 0i32), (-1i32, 6i32, 0i32)), ((1i32, 3i32, 0i32), (
            1i32,
            6i32,
            0i32,
        )), ((0i32, 3i32, -1i32), (0i32, 6i32, -1i32)), ((0i32, 3i32, 1i32), (0i32, 6i32, 1i32)), ((
            0i32,
            6i32,
            0i32,
        ), (0i32, 7i32, 0i32))],
        TreeType::Acacia | TreeType::Sucupira => seq![((-1i32, 5i32, 0i32), (-1i32, 8i32, 0i32)), ((
            1i32,
            5i32,
            0i32,
        ), (1i32, 8i32, 0i32)), ((0i32, 5i32, -1i32), (0i32, 8i32, -1i32)), ((0i32, 5i32, 1i32), (
            0i32,
            8i32,
            1i32,
        )), ((0i32, 8i32, 0i32), (0i32, 9i32, 0i32))],
        TreeType::Buriti => Seq::empty(),
        _ => oak_fill_spec(),
    }
}

/// The shape of a species.
pub fn get_tree(kind: TreeType) -> (t: Tree)
    ensures
        t.log_block == spec_log(kind),
        t.twig_block == spec_twig(kind),
        t.log_height == spec_log_height(kind),
        t.leaves_block == spec_leaves(kind),
        t.leaves_fill@ == spec_leaves_fill(kind),
        t.round_ranges@.len() == 3,
        forall|i: int|
            0 <= i < 3 ==> (#[trigger] t.round_ranges@[i])@ == descending(
                spec_ring_ranges(kind)[i].0,
                spec_ring_ranges(kind)[i].1,
            ),
{
    match kind {
        TreeType::Oak => Tree {
            log_block: TreeBlock::OakLog,
            twig_block: TreeBlock::OakFence,
            log_height: 8,
            leaves_block: TreeBlock::OakLeaves,
            leaves_fill: oak_fill(),
            round_ranges: rings((3, 8), (4, 7), (5, 6)),
        },
        TreeType::DarkOak => Tree {
            log_block: TreeBlock::DarkOakLog,
            twig_block: TreeBlock::DarkOakFence,
            log_height: 5,
            leaves_block: TreeBlock::DarkOakLeaves,
            leaves_fill: vec![((-1, 3, 0), (-1, 6, 0)), ((1, 3, 0), (1, 6, 0)), ((0, 3, -1), (0, 6, -1)), ((0, 3, 1), (0, 6, 1)), ((0, 6, 0), (0, 7, 0))],
            round_ranges: rings((3, 6), (3, 5), (4, 5)),
        },
        TreeType::Acacia | TreeType::Sucupira => Tree {
            log_block: TreeBlock::AcaciaLog,
            twig_block: TreeBlock::AcaciaFence,
            log_height: 6,
            leaves_block: TreeBlock::AcaciaLeaves,
            leaves_fill: vec![((-1, 5, 0), (-1, 8, 0)), ((1, 5, 0), (1, 8, 0)), ((0, 5, -1), (0, 8, -1)), ((0, 5, 1), (0, 8, 1)), ((0, 8, 0), (0, 9, 0))],
            round_ranges: rings((5, 8), (5, 7), (6, 7)),
        },
        TreeType::Copaiba => Tree {
            log_block: TreeBlock::DarkOakLog,
            twig_block: TreeBlock::DarkOakFence,
            log_height: 10,
            leaves_block: TreeBlock::OakLeaves,
            leaves_fill: oak_fill(),
            round_ranges: rings((4, 9), (5, 8), (6, 7)),
        },
        TreeType::IpeAmarelo => Tree {
            log_block: TreeBlock::SpruceLog,
            twig_block: TreeBlock::SpruceFence,
            log_height: 9,
            leaves_block: TreeBlock::YellowTerracotta,
            leaves_fill: oak_fill(),
            round_ranges: rings((3, 8), (4, 7), (5, 6)),
        },
        TreeType::IpeRoxo => Tree {
            log_block: TreeBlock::SpruceLog,
            twig_block: TreeBlock::SpruceFence,
            log_height: 9,
            leaves_block: TreeBlock::PinkTerracotta,
            leaves_fill: oak_fill(),
            round_ranges: rings((3, 8), (4, 7), (5, 6)),
        },
        TreeType::IpeBranco => Tree {
            log_block: TreeBlock::SpruceLog,
            twig_block: TreeBlock::SpruceFence,
            log_height: 8,
            leaves_block: TreeBlock::WhiteTerracotta,
            leaves_fill: oak_fill(),
            round_ranges: rings((3, 8), (4, 7), (5, 6)),
        },
        TreeType::Buriti => Tree {
            log_block: TreeBlock::JungleLog,
            twig_block: TreeBlock::JungleFence,
            log_height: 12,
            leaves_block: TreeBlock::JungleLeaves,
            leaves_fill: Vec::new(),
            round_ranges: rings((1, 0), (1, 0), (1, 0)),
        },
    }
}

/// The blocks a tree's seed may stand on, as far as planting cares: those
/// that stop a tree, and the common ground blocks that do not.
#[derive(Clone, Copy, PartialEq, Eq, Structural, Debug)]
pub enum SeedBlock {
    // Building walls.
    Blackstone,
    BlackTerracotta,
    Brick,
    BrownConcrete,
    BrownTerracotta,
    DeepslateBricks,
    EndStoneBricks,
    GrayConcrete,
    GrayTerracotta,
    LightBlueTerracotta,
    LightGrayConcrete,
    MudBricks,
    NetherBrick,
    NetheriteBlock,
    PolishedAndesite,
    PolishedBlackstone,
    PolishedBlackstoneBricks,
    PolishedDeepslate,
    PolishedGranite,
    QuartzBlock,
    QuartzBricks,
    Sandstone,
    SmoothSandstone,
    SmoothStone,
    StoneBricks,
    WhiteConcrete,
    WhiteTerracotta,
    OrangeTerracotta,
    BlueTerracotta,
    YellowTerracotta,
    BlackConcrete,
    RedConcrete,
    LimeConcrete,
    CyanConcrete,
    LightBlueConcrete,
    BlueConcrete,
    PurpleConcrete,
    MagentaConcrete,
    RedTerracotta,
    // Structures.
    OakFence,
    CobblestoneWall,
    AndesiteWall,
    StoneBrickWall,
    OakStairs,
    OakSlab,
    StoneBlockSlab,
    StoneBrickSlab,
    Rail,
    RailNorthSouth,
    RailEastWest,
    OakDoor,
    OakTrapdoor,
    Ladder,
    // Functional blocks.
    Chest,
    CraftingTable,
    Furnace,
    Anvil,
    BrewingStand,
    NoteBlock,
    Bookshelf,
    Cauldron,
    Sign,
    Bedrock,
    IronBars,
    IronBlock,
    Scaffolding,
    Glass,
    WhiteStainedGlass,
    GrayStainedGlass,
    LightGrayStainedGlass,
    BrownStainedGlass,
    CyanStainedGlass,
    BlueStainedGlass,
    LightBlueStainedGlass,
    TintedGlass,
    WhiteCarpet,
    RedCarpet,
    // Water and road marks.
    Water,
    YellowConcrete,
    PolishedBasalt,
    // Ground a tree may grow on.
    Air,
    GrassBlock,
    Dirt,
    CoarseDirt,
    Podzol,
    Sand,
    Gravel,
    Stone,
    Mud,
    DirtPath,
    /// Any block not named here.
    Other,
}

/// The blocks of building walls.
pub open spec fn is_building_wall_block(b: SeedBlock) -> bool {
    b == SeedBlock::Blackstone || b == SeedBlock::BlackTerracotta || b == SeedBlock::Brick || b == SeedBlock::BrownConcrete || b
        == SeedBlock::BrownTerracotta || b == SeedBlock::DeepslateBricks || b == SeedBlock::EndStoneBricks || b == SeedBlock::GrayConcrete
        || b == SeedBlock::GrayTerracotta || b == SeedBlock::LightBlueTerracotta || b == SeedBlock::LightGrayConcrete || b
        == SeedBlock::MudBricks || b == SeedBlock::NetherBrick || b == SeedBlock::NetheriteBlock || b == SeedBlock::PolishedAndesite || b
        == SeedBlock::PolishedBlackstone || b == SeedBlock::PolishedBlackstoneBricks || b == SeedBlock::PolishedDeepslate || b
        == SeedBlock::PolishedGranite || b == SeedBlock::QuartzBlock || b == SeedBlock::QuartzBricks || b == SeedBlock::Sandstone || b
        == SeedBlock::SmoothSandstone || b == SeedBlock::SmoothStone || b == SeedBlock::StoneBricks || b == SeedBlock::WhiteConcrete || b
        == SeedBlock::WhiteTerracotta || b == SeedBlock::OrangeTerracotta || b == SeedBlock::BlueTerracotta || b
        == SeedBlock::YellowTerracotta || b == SeedBlock::BlackConcrete || b == SeedBlock::RedConcrete || b == SeedBlock::LimeConcrete || b
        == SeedBlock::CyanConcrete || b == SeedBlock::LightBlueConcrete || b == SeedBlock::BlueConcrete || b == SeedBlock::PurpleConcrete
        || b == SeedBlock::MagentaConcrete || b == SeedBlock::RedTerracotta
}

/// The blocks of building floors.
pub open spec fn is_building_floor_block(b: SeedBlock) -> bool {
    b == SeedBlock::GrayConcrete || b == SeedBlock::LightGrayConcrete || b == SeedBlock::WhiteConcrete || b == SeedBlock::SmoothStone || b
        == SeedBlock::PolishedAndesite || b == SeedBlock::StoneBricks
}

/// Fences, walls, stairs, slabs, rails, doors and ladders.
pub open spec fn is_structural_block(b: SeedBlock) -> bool {
    b == SeedBlock::OakFence || b == SeedBlock::CobblestoneWall || b == SeedBlock::AndesiteWall || b == SeedBlock::StoneBrickWall || b
        == SeedBlock::OakStairs || b == SeedBlock::OakSlab || b == SeedBlock::StoneBlockSlab || b == SeedBlock::StoneBrickSlab || b == SeedBlock::Rail
        || b == SeedBlock::RailNorthSouth || b == SeedBlock::RailEastWest || b == SeedBlock::OakDoor || b == SeedBlock::OakTrapdoor || b
        == SeedBlock::Ladder
}

/// Furniture, workstations, bars, glass and carpets.
pub open spec fn is_functional_block(b: SeedBlock) -> bool {
    b == SeedBlock::Chest || b == SeedBlock::CraftingTable || b == SeedBlock::Furnace || b == SeedBlock::Anvil || b == SeedBlock::BrewingStand || b
        == SeedBlock::NoteBlock || b == SeedBlock::Bookshelf || b == SeedBlock::Cauldron || b == SeedBlock::Sign || b == SeedBlock::Bedrock || b
        == SeedBlock::IronBars || b == SeedBlock::IronBlock || b == SeedBlock::Scaffolding || b == SeedBlock::Glass || b
        == SeedBlock::WhiteStainedGlass || b == SeedBlock::GrayStainedGlass || b == SeedBlock::LightGrayStainedGlass || b
        == SeedBlock::BrownStainedGlass || b == SeedBlock::CyanStainedGlass || b == SeedBlock::BlueStainedGlass || b
        == SeedBlock::LightBlueStainedGlass || b == SeedBlock::TintedGlass || b == SeedBlock::WhiteCarpet || b == SeedBlock::RedCarpet
}

/// Whether a tree's seed block stops it: a wall, floor, structural or
/// functional block, water, the black, yellow, white and red concretes of
/// road marks, or polished basalt.
pub open spec fn spec_blocks_tree(b: SeedBlock) -> bool {
    ||| is_building_wall_block(b)
    ||| is_building_floor_block(b)
    ||| is_structural_block(b)
    ||| is_functional_block(b)
    ||| b == SeedBlock::Water
    ||| b == SeedBlock::BlackConcrete
    ||| b == SeedBlock::YellowConcrete
    ||| b == SeedBlock::WhiteConcrete
    ||| b == SeedBlock::RedConcrete
    ||| b == SeedBlock::PolishedBasalt
}

/// Whether a tree's seed block stops it.
pub fn blocks_tree(b: SeedBlock) -> (r: bool)
    ensures
        r == spec_blocks_tree(b),
{
    match b {
        SeedBlock::Air | SeedBlock::GrassBlock | SeedBlock::Dirt | SeedBlock::CoarseDirt
        | SeedBlock::Podzol | SeedBlock::Sand | SeedBlock::Gravel | SeedBlock::Stone
        | SeedBlock::Mud | SeedBlock::DirtPath | SeedBlock::Other => false,
        _ => true,
    }
}

impl Tree {
    /// Planting a tree of a species at `(x, z)` whose seed (the block at ground
    /// level) is `seed`: nothing where a building's footprint covers the spot
    /// or where the seed block stops a tree, else the species' shape.
    pub fn create_of_type(
        x: i32,
        z: i32,
        kind: TreeType,
        building_footprints: Option<&CoordinateBitmap>,
        seed: SeedBlock,
    ) -> (r: Option<Tree>)
        requires
            building_footprints matches Some(f) ==> f.wf(),
        ensures
            ((building_footprints matches Some(f) && f.spec_contains(x as int, z as int))
                || spec_blocks_tree(seed)) <==> r is None,
            r matches Some(t) ==> t.log_height == spec_log_height(kind) && t.leaves_fill@
                == spec_leaves_fill(kind) && t.log_block == spec_log(kind),
    {
        if let Some(f) = building_footprints {
            if f.contains(x, z) {
                return None;
            }
        }
        if blocks_tree(seed) {
            return None;
        }
        Some(get_tree(kind))
    }
}

/// The jitter of a tree's trunk at `(x, z)` where no height is given: a
/// roll from -2 to 2 of the generator of that position (the one of block
/// `(x, 0, z)` with element id 0, as for the species).
pub open spec fn spec_height_jitter(x: i32, z: i32) -> i32 {
    xoshiro_roll_inclusive(xoshiro_seeded(spec_state_seed(spec_coord_state(x, 0, z, 0))), -2i32, 2i32)
}

/// The jitter of a tree's trunk at `(x, z)`.
pub fn tree_height_jitter(x: i32, z: i32) -> (j: i32)
    ensures
        j == spec_height_jitter(x, z),
        -2 <= j <= 2,
{
    let mut rng = coord_rng(x, 0, z, 0);
    roll_inclusive(&mut rng, -2, 2)
}

/// Whether a tree of the given scaled height counts as old (taller than 10).
pub fn is_old_tree(log_height: i32) -> (b: bool)
    ensures
        b == (log_height > 10),
{
    log_height > 10
}

/// Whether a species grows twisted: sucupira and acacia.
pub fn is_twisted(kind: TreeType) -> (b: bool)
    ensures
        b == (kind == TreeType::Sucupira || kind == TreeType::Acacia),
{
    kind == TreeType::Sucupira || kind == TreeType::Acacia
}

/// Which way a trunk leans, `(dx, dz)`, given walls four blocks to its east
/// (+x), west, south (+z) and north: one block away from a wall, the west
/// and north walls winning when walls stand on both sides.
pub fn wall_drift(wall_east: bool, wall_west: bool, wall_south: bool, wall_north: bool) -> (d: (
    i32,
    i32,
))
    ensures
        d.0 == (if wall_west {
            1i32
        } else if wall_east {
            -1i32
        } else {
            0i32
        }),
        d.1 == (if wall_north {
            1i32
        } else if wall_south {
            -1i32
        } else {
            0i32
        }),
{
    let mut dx: i32 = 0;
    let mut dz: i32 = 0;
    if wall_east {
        dx = -1;
    }
    if wall_west {
        dx = 1;
    }
    if wall_south {
        dz = -1;
    }
    if wall_north {
        dz = 1;
    }
    (dx, dz)
}

/// How far the roots of a tree spread: two blocks for an old tree, else one.
pub fn root_radius(log_height: i32) -> (r: i32)
    ensures
        r == (if log_height > 10 {
            2i32
        } else {
            1i32
        }),
{
    if is_old_tree(log_height) {
        2
    } else {
        1
    }
}

/// Absolute value.
pub open spec fn abs_int(v: int) -> int {
    if v < 0 {
        -v
    } else {
        v
    }
}

/// The cells where a root may grow, at offset `(dx, dy, dz)` from the foot
/// of the trunk: not under the trunk itself, and within `radius` steps
/// (one more below ground level).
pub open spec fn spec_is_root_cell(dx: int, dz: int, dy: int, radius: int) -> bool {
    &&& !(dx == 0 && dz == 0)
    &&& abs_int(dx) + abs_int(dz) <= (if dy < 0 {
        radius + 1
    } else {
        radius
    })
}

/// Whether a root may grow at an offset from the foot of the trunk.
pub fn is_root_cell(dx: i32, dz: i32, dy: i32, radius: i32) -> (b: bool)
    requires
        dx > i32::MIN,
        dz > i32::MIN,
        abs_int(dx as int) + abs_int(dz as int) <= i32::MAX,
        dy < 0 ==> radius < i32::MAX,
    ensures
        b == spec_is_root_cell(dx as int, dz as int, dy as int, radius as int),
{
    if dx == 0 && dz == 0 {
        return false;
    }
    let ax: i32 = if dx < 0 {
        -dx
    } else {
        dx
    };
    let az: i32 = if dz < 0 {
        -dz
    } else {
        dz
    };
    let reach: i32 = if dy < 0 {
        radius + 1
    } else {
        radius
    };
    ax + az <= reach
}

/// The leaves of a buriti's crown, at offset `(dx, dy, dz)` from the top of
/// its trunk (`dy` from -2 to 1, `dx` and `dz` from -2 to 2): a diamond of
/// reach three on the upper three layers and a cross of reach one below.
pub open spec fn spec_is_buriti_leaf(dx: int, dz: int, dy: int) -> bool {
    ||| (abs_int(dx) + abs_int(dz) <= 3 && dy != -2)
    ||| (abs_int(dx) + abs_int(dz) == 1 && dy == -2)
}

/// Whether a buriti has a leaf at an offset from the top of its trunk.
pub fn is_buriti_leaf(dx: i32, dz: i32, dy: i32) -> (b: bool)
    requires
        -2 <= dx <= 2,
        -2 <= dz <= 2,
        -2 <= dy <= 1,
    ensures
        b == spec_is_buriti_leaf(dx as int, dz as int, dy as int),
{
    let ax: i32 = if dx < 0 {
        -dx
    } else {
        dx
    };
    let az: i32 = if dz < 0 {
        -dz
    } else {
        dz
    };
    (ax + az <= 3 && dy != -2) || (ax + az == 1 && dy == -2)
}

} // verus!
