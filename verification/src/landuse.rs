//! Land use: the ground an area is covered with, from its `landuse` (or
//! `leisure`) tag, and the variation drawn block by block.

use vstd::prelude::*;
use crate::highways::tag_or_empty;
use crate::deterministic_rng::{
    element_rng, roll_index, roll_inclusive, roll_ratio, spec_state_seed, xoshiro_index,
    xoshiro_index_state, xoshiro_ratio, xoshiro_roll_inclusive, xoshiro_roll_state, xoshiro_seeded,
    PincelRng,
};
use crate::osm_parser::{ProcessedMemberRole, ProcessedRelation};
use crate::tags::Tags;
use crate::text::str_eq;

verus! {

/// The ground blocks of land-use areas.
#[derive(Clone, Copy, PartialEq, Eq, Structural, Debug)]
pub enum GroundBlock {
    GrassBlock,
    Farmland,
    Podzol,
    CoarseDirt,
    StoneBlockSlab,
    PolishedAndesite,
    SmoothQuartz,
    GrayConcrete,
    Gravel,
    Stone,
    DirtPath,
    StoneBricks,
    Cobblestone,
    LightGrayConcrete,
    WhiteConcrete,
    BlackConcrete,
}

/// The land-use value of an area: `landuse`, else `leisure`, else empty.
pub open spec fn spec_landuse_tag(t: Map<Seq<char>, Seq<char>>) -> Seq<char> {
    if t.contains_key("landuse"@) {
        t["landuse"@]
    } else {
        tag_or_empty(t, "leisure"@)
    }
}

/// The base ground of a land use; landfills with a heap are gravel.
pub open spec fn spec_base_block(l: Seq<char>, t: Map<Seq<char>, Seq<char>>) -> GroundBlock {
    if l == "farmland"@ {
        GroundBlock::Farmland
    } else if l == "cemetery"@ {
        GroundBlock::Podzol
    } else if l == "construction"@ {
        GroundBlock::CoarseDirt
    } else if l == "traffic_island"@ {
        GroundBlock::StoneBlockSlab
    } else if l == "commercial"@ {
        GroundBlock::PolishedAndesite
    } else if l == "education"@ || l == "religious"@ {
        GroundBlock::SmoothQuartz
    } else if l == "industrial"@ || l == "military"@ {
        GroundBlock::GrayConcrete
    } else if l == "railway"@ {
        GroundBlock::Gravel
    } else if l == "landfill"@ {
        let m = tag_or_empty(t, "man_made"@);
        if m == "spoil_heap"@ || m == "heap"@ {
            GroundBlock::Gravel
        } else {
            GroundBlock::CoarseDirt
        }
    } else if l == "quarry"@ {
        GroundBlock::Stone
    } else {
        GroundBlock::GrassBlock
    }
}

fn tag_is(t: &Tags, key: &str, value: &str) -> (b: bool)
    ensures
        b == (tag_or_empty(t@, key@) == value@),
{
    match t.get(key) {
        Some(v) => str_eq(v.as_str(), value),
        None => {
            assert(value@.len() == 0 ==> value@ =~= Seq::<char>::empty());
            value.unicode_len() == 0
        },
    }
}

/// The land-use value of an area.
pub fn landuse_tag(t: &Tags) -> (l: String)
    ensures
        l@ == spec_landuse_tag(t@),
{
    match t.get("landuse") {
        Some(v) => v.clone(),
        None => match t.get("leisure") {
            Some(v) => v.clone(),
            None => String::new(),
        },
    }
}

/// The base ground of an area with land use `l`.
pub fn base_block(l: &str, t: &Tags) -> (b: GroundBlock)
    ensures
        b == spec_base_block(l@, t@),
{
    if str_eq(l, "farmland") {
        GroundBlock::Farmland
    } else if str_eq(l, "cemetery") {
        GroundBlock::Podzol
    } else if str_eq(l, "construction") {
        GroundBlock::CoarseDirt
    } else if str_eq(l, "traffic_island") {
        GroundBlock::StoneBlockSlab
    } else if str_eq(l, "commercial") {
        GroundBlock::PolishedAndesite
    } else if str_eq(l, "education") || str_eq(l, "religious") {
        GroundBlock::SmoothQuartz
    } else if str_eq(l, "industrial") || str_eq(l, "military") {
        GroundBlock::GrayConcrete
    } else if str_eq(l, "railway") {
        GroundBlock::Gravel
    } else if str_eq(l, "landfill") {
        if tag_is(t, "man_made", "spoil_heap") || tag_is(t, "man_made", "heap") {
            GroundBlock::Gravel
        } else {
            GroundBlock::CoarseDirt
        }
    } else if str_eq(l, "quarry") {
        GroundBlock::Stone
    } else {
        GroundBlock::GrassBlock
    }
}

/// The ground of one block of an area with land use `l` and base `base`,
/// given a roll from 0 to 99 and the block's position: yards, pavements,
/// factory yards and institutional floors vary by the roll; one park block in
/// five is a black or white paving stone, chequered by position; one natural
/// block in seven or so is leaf litter.
pub open spec fn spec_block_variant(l: Seq<char>, base: GroundBlock, roll: int, x: int, z: int) -> GroundBlock {
    if l == "residential"@ && base != GroundBlock::GrassBlock {
        if roll < 60 {
            GroundBlock::GrassBlock
        } else if roll < 90 {
            GroundBlock::DirtPath
        } else {
            GroundBlock::CoarseDirt
        }
    } else if l == "commercial"@ {
        if roll < 70 { GroundBlock::PolishedAndesite } else { GroundBlock::StoneBricks }
    } else if l == "industrial"@ {
        if roll < 60 {
            GroundBlock::GrayConcrete
        } else if roll < 90 {
            GroundBlock::Gravel
        } else {
            GroundBlock::Cobblestone
        }
    } else if l == "education"@ || l == "religious"@ {
        if roll < 45 {
            GroundBlock::SmoothQuartz
        } else if roll < 70 {
            GroundBlock::LightGrayConcrete
        } else {
            GroundBlock::WhiteConcrete
        }
    } else if l == "park"@ || l == "common"@ {
        if roll < 20 {
            if (x + z) % 2 == 0 { GroundBlock::BlackConcrete } else { GroundBlock::WhiteConcrete }
        } else {
            base
        }
    } else if l == "forest"@ || l == "grass"@ || l == "meadow"@ || l == "greenfield"@ {
        if roll < 15 { GroundBlock::Podzol } else { base }
    } else {
        base
    }
}

/// The ground of one block of a land-use area.
pub fn block_variant(l: &str, base: GroundBlock, roll: i32, x: i32, z: i32) -> (b: GroundBlock)
    ensures
        b == spec_block_variant(l@, base, roll as int, x as int, z as int),
{
    if str_eq(l, "residential") && base != GroundBlock::GrassBlock {
        if roll < 60 {
            GroundBlock::GrassBlock
        } else if roll < 90 {
            GroundBlock::DirtPath
        } else {
            GroundBlock::CoarseDirt
        }
    } else if str_eq(l, "commercial") {
        if roll < 70 {
            GroundBlock::PolishedAndesite
        } else {
            GroundBlock::StoneBricks
        }
    } else if str_eq(l, "industrial") {
        if roll < 60 {
            GroundBlock::GrayConcrete
        } else if roll < 90 {
            GroundBlock::Gravel
        } else {
            GroundBlock::Cobblestone
        }
    } else if str_eq(l, "education") || str_eq(l, "religious") {
        if roll < 45 {
            GroundBlock::SmoothQuartz
        } else if roll < 70 {
            GroundBlock::LightGrayConcrete
        } else {
            GroundBlock::WhiteConcrete
        }
    } else if str_eq(l, "park") || str_eq(l, "common") {
        if roll < 20 {
            let s: i64 = x as i64 + z as i64;
            if s % 2 == 0 {
                GroundBlock::BlackConcrete
            } else {
                GroundBlock::WhiteConcrete
            }
        } else {
            base
        }
    } else if str_eq(l, "forest") || str_eq(l, "grass") || str_eq(l, "meadow") || str_eq(
        l,
        "greenfield",
    ) {
        if roll < 15 {
            GroundBlock::Podzol
        } else {
            base
        }
    } else {
        base
    }
}

// ---------------------------------------------------------------------------
// Decorations
// ---------------------------------------------------------------------------

/// What is set on a block of a land-use area, one above its ground.
#[derive(Clone, Copy, PartialEq, Eq, Structural, Debug)]
pub enum Decoration {
    Nothing,
    /// A tree (of a species drawn separately).
    Tree,
    /// A grave: a cobblestone headstone under a slab beside a slab, lying
    /// along x or along z.
    Grave { along_x: bool },
    RedFlower,
    OakLeaves,
    Fern,
    LargeFern,
    DeadBush,
    Grass,
}

/// Whether a cemetery block is a plot, where graves and plants may stand:
/// both coordinates multiples of 3.
pub open spec fn spec_cemetery_plot(x: int, z: int) -> bool {
    x % 3 == 0 && z % 3 == 0
}

/// Whether a cemetery block is a plot.
pub fn cemetery_plot(x: i32, z: i32) -> (b: bool)
    ensures
        b == spec_cemetery_plot(x as int, z as int),
{
    let (x, z) = (x as i64, z as i64);
    let rx = if x >= 0 { x % 3 } else { (-x) % 3 };
    let rz = if z >= 0 { z % 3 } else { (-z) % 3 };
    assert((x % 3 == 0) == (rx == 0) && (z % 3 == 0) == (rz == 0)) by (nonlinear_arith)
        requires
            rx as int == (if x >= 0 { x as int % 3 } else { (-(x as int)) % 3 }),
            rz as int == (if z >= 0 { z as int % 3 } else { (-(z as int)) % 3 }),
    ;
    rx == 0 && rz == 0
}

/// What a plot of a cemetery holds, for a roll from 0 to 99: below 15 a
/// grave (on podzol only; `along_x` is the coin that lays it), below 30 a red
/// flower (on podzol only), below 33 a tree, below 35 leaves, below 37 a
/// fern, below 41 a large fern, else nothing.
pub open spec fn spec_cemetery_decoration(roll: int, on_podzol: bool, along_x: bool) -> Decoration {
    if roll < 15 {
        if on_podzol { Decoration::Grave { along_x } } else { Decoration::Nothing }
    } else if roll < 30 {
        if on_podzol { Decoration::RedFlower } else { Decoration::Nothing }
    } else if roll < 33 {
        Decoration::Tree
    } else if roll < 35 {
        Decoration::OakLeaves
    } else if roll < 37 {
        Decoration::Fern
    } else if roll < 41 {
        Decoration::LargeFern
    } else {
        Decoration::Nothing
    }
}

/// What a plot of a cemetery holds.
pub fn cemetery_decoration(roll: i32, on_podzol: bool, along_x: bool) -> (d: Decoration)
    ensures
        d == spec_cemetery_decoration(roll as int, on_podzol, along_x),
{
    if roll < 15 {
        if on_podzol { Decoration::Grave { along_x } } else { Decoration::Nothing }
    } else if roll < 30 {
        if on_podzol { Decoration::RedFlower } else { Decoration::Nothing }
    } else if roll < 33 {
        Decoration::Tree
    } else if roll < 35 {
        Decoration::OakLeaves
    } else if roll < 37 {
        Decoration::Fern
    } else if roll < 41 {
        Decoration::LargeFern
    } else {
        Decoration::Nothing
    }
}

/// The blocks of a grave laid at a plot, as offsets `(dx, dy, dz)` from the
/// plot's ground: the headstone and its slab one block back, the slabs over
/// the plot and one block forward.
#[derive(Clone, Copy, PartialEq, Eq, Structural, Debug)]
pub enum GraveBlock {
    Cobblestone,
    StoneBrickSlab,
}

/// The block a grave lying along x (or z) leaves at offset `(dx, dy, dz)`
/// from its plot's ground.
pub open spec fn spec_grave_block(along_x: bool, dx: int, dy: int, dz: int) -> Option<GraveBlock> {
    let (u, v) = if along_x { (dx, dz) } else { (dz, dx) };
    if v != 0 {
        None
    } else if u == -1 && dy == 1 {
        Some(GraveBlock::Cobblestone)
    } else if u == -1 && dy == 2 {
        Some(GraveBlock::StoneBrickSlab)
    } else if (u == 0 || u == 1) && dy == 1 {
        Some(GraveBlock::StoneBrickSlab)
    } else {
        None
    }
}

/// The block a grave leaves at offset `(dx, dy, dz)` from its plot.
pub fn grave_block_at(along_x: bool, dx: i32, dy: i32, dz: i32) -> (r: Option<GraveBlock>)
    ensures
        r == spec_grave_block(along_x, dx as int, dy as int, dz as int),
{
    let (u, v) = if along_x { (dx, dz) } else { (dz, dx) };
    if v != 0 {
        None
    } else if u == -1 && dy == 1 {
        Some(GraveBlock::Cobblestone)
    } else if u == -1 && dy == 2 {
        Some(GraveBlock::StoneBrickSlab)
    } else if (u == 0 || u == 1) && dy == 1 {
        Some(GraveBlock::StoneBrickSlab)
    } else {
        None
    }
}

/// What a block of a forest holds (on grass or podzol), for a roll from 0
/// to 99: below 6 a tree, below 14 a dead bush, below 70 grass, else
/// nothing.
pub open spec fn spec_forest_decoration(roll: int) -> Decoration {
    if roll < 6 {
        Decoration::Tree
    } else if roll < 14 {
        Decoration::DeadBush
    } else if roll < 70 {
        Decoration::Grass
    } else {
        Decoration::Nothing
    }
}

/// What a block of a forest holds.
pub fn forest_decoration(roll: i32) -> (d: Decoration)
    ensures
        d == spec_forest_decoration(roll as int),
{
    if roll < 6 {
        Decoration::Tree
    } else if roll < 14 {
        Decoration::DeadBush
    } else if roll < 70 {
        Decoration::Grass
    } else {
        Decoration::Nothing
    }
}

/// What a block of grass or greenfield holds (on grass or podzol), for a
/// roll from 0 to 99: below 5 a dead bush, below 70 grass, else nothing.
pub open spec fn spec_grassland_decoration(roll: int) -> Decoration {
    if roll < 5 {
        Decoration::DeadBush
    } else if roll < 70 {
        Decoration::Grass
    } else {
        Decoration::Nothing
    }
}

/// What a block of grass or greenfield holds.
pub fn grassland_decoration(roll: i32) -> (d: Decoration)
    ensures
        d == spec_grassland_decoration(roll as int),
{
    if roll < 5 {
        Decoration::DeadBush
    } else if roll < 70 {
        Decoration::Grass
    } else {
        Decoration::Nothing
    }
}

/// What a block of a meadow holds (on grass or podzol), for a roll from 0
/// to 1000: below 5 a tree, below 6 a red flower, below 9 leaves, below 40
/// a fern, below 65 a large fern, below 825 grass, else nothing.
pub open spec fn spec_meadow_decoration(roll: int) -> Decoration {
    if roll < 5 {
        Decoration::Tree
    } else if roll < 6 {
        Decoration::RedFlower
    } else if roll < 9 {
        Decoration::OakLeaves
    } else if roll < 40 {
        Decoration::Fern
    } else if roll < 65 {
        Decoration::LargeFern
    } else if roll < 825 {
        Decoration::Grass
    } else {
        Decoration::Nothing
    }
}

/// What a block of a meadow holds.
pub fn meadow_decoration(roll: i32) -> (d: Decoration)
    ensures
        d == spec_meadow_decoration(roll as int),
{
    if roll < 5 {
        Decoration::Tree
    } else if roll < 6 {
        Decoration::RedFlower
    } else if roll < 9 {
        Decoration::OakLeaves
    } else if roll < 40 {
        Decoration::Fern
    } else if roll < 65 {
        Decoration::LargeFern
    } else if roll < 825 {
        Decoration::Grass
    } else {
        Decoration::Nothing
    }
}

/// Whether a block of an orchard is a tree's place: x a multiple of 18 and
/// z of 10.
pub open spec fn spec_orchard_tree_place(x: int, z: int) -> bool {
    x % 18 == 0 && z % 10 == 0
}

/// What a block of an orchard holds off the trees' places (on grass or
/// podzol), for a roll from 0 to 99: at 0 leaves, at 1 or 2 a fern, from
/// 3 to 20 grass, else nothing.
pub open spec fn spec_orchard_decoration(roll: int) -> Decoration {
    if roll == 0 {
        Decoration::OakLeaves
    } else if 1 <= roll <= 2 {
        Decoration::Fern
    } else if 3 <= roll <= 20 {
        Decoration::Grass
    } else {
        Decoration::Nothing
    }
}

/// Whether a block of an orchard is a tree's place.
pub fn orchard_tree_place(x: i32, z: i32) -> (b: bool)
    ensures
        b == spec_orchard_tree_place(x as int, z as int),
{
    let (x, z) = (x as i64, z as i64);
    let rx = if x >= 0 { x % 18 } else { (-x) % 18 };
    let rz = if z >= 0 { z % 10 } else { (-z) % 10 };
    assert((x % 18 == 0) == (rx == 0) && (z % 10 == 0) == (rz == 0)) by (nonlinear_arith)
        requires
            rx as int == (if x >= 0 { x as int % 18 } else { (-(x as int)) % 18 }),
            rz as int == (if z >= 0 { z as int % 10 } else { (-(z as int)) % 10 }),
    ;
    rx == 0 && rz == 0
}

/// What a block of an orchard holds off the trees' places.
pub fn orchard_decoration(roll: i32) -> (d: Decoration)
    ensures
        d == spec_orchard_decoration(roll as int),
{
    if roll == 0 {
        Decoration::OakLeaves
    } else if 1 <= roll && roll <= 2 {
        Decoration::Fern
    } else if 3 <= roll && roll <= 20 {
        Decoration::Grass
    } else {
        Decoration::Nothing
    }
}

// ---------------------------------------------------------------------------
// Quarries, places and land-use relations
// ---------------------------------------------------------------------------

/// The ore that may show in a quarry's floor.
#[derive(Clone, Copy, PartialEq, Eq, Structural, Debug)]
pub enum QuarryOre {
    IronOre,
    CoalOre,
    CopperOre,
    GoldOre,
    Clay,
    Stone,
}

/// The ore of a quarry from its `resource` (none where it has none).
pub open spec fn spec_quarry_ore(t: Map<Seq<char>, Seq<char>>) -> Option<QuarryOre> {
    if !t.contains_key("resource"@) {
        None
    } else {
        let r = t["resource"@];
        Some(
            if r == "iron_ore"@ {
                QuarryOre::IronOre
            } else if r == "coal"@ {
                QuarryOre::CoalOre
            } else if r == "copper"@ {
                QuarryOre::CopperOre
            } else if r == "gold"@ {
                QuarryOre::GoldOre
            } else if r == "clay"@ || r == "kaolinite"@ {
                QuarryOre::Clay
            } else {
                QuarryOre::Stone
            },
        )
    }
}

/// The ore of a quarry.
pub fn quarry_ore(t: &Tags) -> (o: Option<QuarryOre>)
    ensures
        o == spec_quarry_ore(t@),
{
    match t.get("resource") {
        None => None,
        Some(r) => {
            let r = r.as_str();
            Some(
                if str_eq(r, "iron_ore") {
                    QuarryOre::IronOre
                } else if str_eq(r, "coal") {
                    QuarryOre::CoalOre
                } else if str_eq(r, "copper") {
                    QuarryOre::CopperOre
                } else if str_eq(r, "gold") {
                    QuarryOre::GoldOre
                } else if str_eq(r, "clay") || str_eq(r, "kaolinite") {
                    QuarryOre::Clay
                } else {
                    QuarryOre::Stone
                },
            )
        },
    }
}

/// The paving of a `place` area: stone bricks for a square, polished
/// andesite for a neighbourhood, city block, quarter or suburb; none for any
/// other place.
pub open spec fn spec_place_block(t: Map<Seq<char>, Seq<char>>) -> Option<GroundBlock> {
    let p = t["place"@];
    if !t.contains_key("place"@) {
        None
    } else if p == "square"@ {
        Some(GroundBlock::StoneBricks)
    } else if p == "neighbourhood"@ || p == "city_block"@ || p == "quarter"@ || p == "suburb"@ {
        Some(GroundBlock::PolishedAndesite)
    } else {
        None
    }
}

/// The paving of a `place` area, if it is paved.
pub fn place_block(t: &Tags) -> (b: Option<GroundBlock>)
    ensures
        b == spec_place_block(t@),
{
    match t.get("place") {
        None => None,
        Some(p) => {
            let p = p.as_str();
            if str_eq(p, "square") {
                Some(GroundBlock::StoneBricks)
            } else if str_eq(p, "neighbourhood") || str_eq(p, "city_block") || str_eq(p, "quarter")
                || str_eq(p, "suburb") {
                Some(GroundBlock::PolishedAndesite)
            } else {
                None
            }
        },
    }
}

/// The members of a relation drawn as land use, in order: where the
/// relation has a `landuse` or `leisure` tag, its outer members (each drawn
/// with the relation's tags); else none.
pub open spec fn spec_landuse_members(rel: &ProcessedRelation, n: int) -> Seq<usize>
    decreases n,
{
    if n <= 0 || !(rel.tags@.contains_key("landuse"@) || rel.tags@.contains_key("leisure"@)) {
        Seq::empty()
    } else if rel.members@[n - 1].role == ProcessedMemberRole::Outer {
        spec_landuse_members(rel, n - 1).push((n - 1) as usize)
    } else {
        spec_landuse_members(rel, n - 1)
    }
}

/// The indices of the members of a relation that are drawn as land use.
pub fn landuse_relation_members(rel: &ProcessedRelation) -> (v: Vec<usize>)
    ensures
        v@ == spec_landuse_members(rel, rel.members@.len() as int),
{
    let mut v: Vec<usize> = Vec::new();
    if !(rel.tags.contains_key("landuse") || rel.tags.contains_key("leisure")) {
        return v;
    }
    let mut i: usize = 0;
    while i < rel.members.len()
        invariant
            i <= rel.members@.len(),
            rel.tags@.contains_key("landuse"@) || rel.tags@.contains_key("leisure"@),
            v@ == spec_landuse_members(rel, i as int),
        decreases rel.members@.len() - i,
    {
        if rel.members[i].role == ProcessedMemberRole::Outer {
            v.push(i);
        }
        i += 1;
    }
    v
}

// ---------------------------------------------------------------------------
// Draws from an area's generator
// ---------------------------------------------------------------------------
//
// An area draws from one generator, seeded from its element id
// (`element_rng`), block after block of its fill. For each block its ground
// is drawn first (`draw_ground`), then, once the ground is laid, its
// decoration; the functions below take from the generator exactly the
// draws the area makes there, so that the same element always gives the
// same blocks.

/// Whether the ground of a block of land use `l` on base `base` takes a
/// roll.
pub open spec fn spec_ground_draws(l: Seq<char>, base: GroundBlock) -> bool {
    ||| l == "residential"@ && base != GroundBlock::GrassBlock
    ||| l == "commercial"@ || l == "industrial"@ || l == "education"@ || l == "religious"@
    ||| l == "park"@ || l == "common"@
    ||| l == "forest"@ || l == "grass"@ || l == "meadow"@ || l == "greenfield"@
}

/// The ground of the block `(x, z)` of an area with land use `l` and base
/// `base`, drawn from the area's generator: where the land use varies its
/// ground, a roll from 0 to 99 decides it.
pub fn draw_ground(rng: &mut PincelRng, l: &str, base: GroundBlock, x: i32, z: i32) -> (b: GroundBlock)
    ensures
        spec_ground_draws(l@, base) ==> b == spec_block_variant(
            l@,
            base,
            xoshiro_roll_inclusive(old(rng).0, 0, 99) as int,
            x as int,
            z as int,
        ) && final(rng).0 == xoshiro_roll_state(old(rng).0, 0, 99),
        !spec_ground_draws(l@, base) ==> b == base && final(rng).0 == old(rng).0,
{
    let draws = (str_eq(l, "residential") && base != GroundBlock::GrassBlock) || str_eq(
        l,
        "commercial",
    ) || str_eq(l, "industrial") || str_eq(l, "education") || str_eq(l, "religious") || str_eq(
        l,
        "park",
    ) || str_eq(l, "common") || str_eq(l, "forest") || str_eq(l, "grass") || str_eq(l, "meadow")
        || str_eq(l, "greenfield");
    if draws {
        let roll = roll_inclusive(rng, 0, 99);
        block_variant(l, base, roll, x, z)
    } else {
        base
    }
}

/// The decoration of a cemetery block, drawn from the area's generator:
/// nothing and no draw off the plots; on a plot a roll from 0 to 99 and,
/// for a grave (a roll below 15 on podzol), a fair coin after it that lays
/// the grave along x.
pub open spec fn spec_cemetery_draw(
    state: rand_xoshiro::Xoshiro256PlusPlus,
    x: int,
    z: int,
    on_podzol: bool,
) -> Decoration {
    let roll = xoshiro_roll_inclusive(state, 0, 99);
    let coin = xoshiro_ratio(xoshiro_roll_state(state, 0, 99), 1, 2);
    if !spec_cemetery_plot(x, z) {
        Decoration::Nothing
    } else {
        spec_cemetery_decoration(roll as int, on_podzol, roll < 15 && on_podzol && coin)
    }
}

/// The decoration of the cemetery block `(x, z)`, whose ground is podzol or
/// not, drawn from the area's generator.
pub fn draw_cemetery(rng: &mut PincelRng, x: i32, z: i32, on_podzol: bool) -> (d: Decoration)
    ensures
        d == spec_cemetery_draw(old(rng).0, x as int, z as int, on_podzol),
        !spec_cemetery_plot(x as int, z as int) ==> final(rng).0 == old(rng).0,
        spec_cemetery_plot(x as int, z as int) && !(d is Grave) ==> final(rng).0
            == xoshiro_roll_state(old(rng).0, 0, 99),
        d is Grave ==> final(rng).0 == crate::deterministic_rng::xoshiro_advanced(
            xoshiro_roll_state(old(rng).0, 0, 99),
        ),
{
    if !cemetery_plot(x, z) {
        return Decoration::Nothing;
    }
    let roll = roll_inclusive(rng, 0, 99);
    if roll < 15 && on_podzol {
        let along_x = roll_ratio(rng, 1, 2);
        cemetery_decoration(roll, on_podzol, along_x)
    } else {
        cemetery_decoration(roll, on_podzol, false)
    }
}

/// The decoration of a forest block whose ground is grass or podzol
/// (`ground_ok`), drawn from the area's generator: a roll from 0 to 99,
/// none where the ground is other. Where it gives a tree, the area draws
/// the tree's species next, then the leaf litter.
pub fn draw_forest(rng: &mut PincelRng, ground_ok: bool) -> (d: Decoration)
    ensures
        ground_ok ==> d == spec_forest_decoration(xoshiro_roll_inclusive(old(rng).0, 0, 99) as int)
            && final(rng).0 == xoshiro_roll_state(old(rng).0, 0, 99),
        !ground_ok ==> d == Decoration::Nothing && final(rng).0 == old(rng).0,
{
    if !ground_ok {
        return Decoration::Nothing;
    }
    let roll = roll_inclusive(rng, 0, 99);
    forest_decoration(roll)
}

/// The decoration of a grass or greenfield block whose ground is grass or
/// podzol, drawn from the area's generator: a roll from 0 to 99, none
/// where the ground is other. The leaf litter is drawn next.
pub fn draw_grassland(rng: &mut PincelRng, ground_ok: bool) -> (d: Decoration)
    ensures
        ground_ok ==> d == spec_grassland_decoration(
            xoshiro_roll_inclusive(old(rng).0, 0, 99) as int,
        ) && final(rng).0 == xoshiro_roll_state(old(rng).0, 0, 99),
        !ground_ok ==> d == Decoration::Nothing && final(rng).0 == old(rng).0,
{
    if !ground_ok {
        return Decoration::Nothing;
    }
    let roll = roll_inclusive(rng, 0, 99);
    grassland_decoration(roll)
}

/// Whether leaf litter (a moss carpet) covers a forest or grassland block
/// whose ground is grass or podzol, drawn from the area's generator: a roll
/// below 15 of 0 to 99, after the block's decoration; no draw where the
/// ground is other.
pub fn draw_litter(rng: &mut PincelRng, ground_ok: bool) -> (b: bool)
    ensures
        ground_ok ==> b == (xoshiro_roll_inclusive(old(rng).0, 0, 99) < 15) && final(rng).0
            == xoshiro_roll_state(old(rng).0, 0, 99),
        !ground_ok ==> !b && final(rng).0 == old(rng).0,
{
    if !ground_ok {
        return false;
    }
    let roll = roll_inclusive(rng, 0, 99);
    roll < 15
}

/// The decoration of a meadow block whose ground is grass or podzol, drawn
/// from the area's generator: a roll from 0 to 1000, none where the ground
/// is other.
pub fn draw_meadow(rng: &mut PincelRng, ground_ok: bool) -> (d: Decoration)
    ensures
        ground_ok ==> d == spec_meadow_decoration(xoshiro_roll_inclusive(old(rng).0, 0, 1000) as int)
            && final(rng).0 == xoshiro_roll_state(old(rng).0, 0, 1000),
        !ground_ok ==> d == Decoration::Nothing && final(rng).0 == old(rng).0,
{
    if !ground_ok {
        return Decoration::Nothing;
    }
    let roll = roll_inclusive(rng, 0, 1000);
    meadow_decoration(roll)
}

/// The decoration of the orchard block `(x, z)`, drawn from the area's
/// generator: a tree at the trees' places (no draw); elsewhere, on grass
/// or podzol, a roll from 0 to 99; else nothing.
pub fn draw_orchard(rng: &mut PincelRng, x: i32, z: i32, ground_ok: bool) -> (d: Decoration)
    ensures
        spec_orchard_tree_place(x as int, z as int) ==> d == Decoration::Tree && final(rng).0
            == old(rng).0,
        !spec_orchard_tree_place(x as int, z as int) && ground_ok ==> d == spec_orchard_decoration(
            xoshiro_roll_inclusive(old(rng).0, 0, 99) as int,
        ) && final(rng).0 == xoshiro_roll_state(old(rng).0, 0, 99),
        !spec_orchard_tree_place(x as int, z as int) && !ground_ok ==> d == Decoration::Nothing
            && final(rng).0 == old(rng).0,
{
    if orchard_tree_place(x, z) {
        return Decoration::Tree;
    }
    if !ground_ok {
        return Decoration::Nothing;
    }
    let roll = roll_inclusive(rng, 0, 99);
    orchard_decoration(roll)
}

/// Whether blocks of land use `l` draw decorations from the area's
/// generator besides their ground.
pub open spec fn spec_decorated(l: Seq<char>) -> bool {
    l == "cemetery"@ || l == "forest"@ || l == "grass"@ || l == "greenfield"@ || l == "meadow"@
        || l == "orchard"@ || l == "farmland"@ || l == "construction"@ || l == "quarry"@
}

/// The grounds of the blocks `cells` of an area, in order, drawn from the
/// generator in `state`, for a land use whose blocks draw only their ground.
pub open spec fn spec_ground_stream(
    state: rand_xoshiro::Xoshiro256PlusPlus,
    l: Seq<char>,
    base: GroundBlock,
    cells: Seq<(i32, i32)>,
) -> Seq<GroundBlock>
    decreases cells.len(),
{
    if cells.len() == 0 {
        Seq::empty()
    } else if spec_ground_draws(l, base) {
        seq![
            spec_block_variant(
                l,
                base,
                xoshiro_roll_inclusive(state, 0, 99) as int,
                cells[0].0 as int,
                cells[0].1 as int,
            ),
        ] + spec_ground_stream(xoshiro_roll_state(state, 0, 99), l, base, cells.drop_first())
    } else {
        seq![base] + spec_ground_stream(state, l, base, cells.drop_first())
    }
}

/// The grounds of the blocks `cells` of the area of element `element_id`
/// with land use `l` and base `base`, in order, drawn from the element's
/// generator; `None` for land uses that draw decorations between the
/// grounds (see `draw_ground` and the `draw_*` functions for those).
pub fn landuse_grounds(element_id: u64, l: &str, base: GroundBlock, cells: &Vec<(i32, i32)>) -> (r: Option<Vec<GroundBlock>>)
    ensures
        spec_decorated(l@) <==> r is None,
        r matches Some(v) ==> v@ == spec_ground_stream(
            xoshiro_seeded(spec_state_seed(element_id)),
            l@,
            base,
            cells@,
        ),
{
    if str_eq(l, "cemetery") || str_eq(l, "forest") || str_eq(l, "grass") || str_eq(
        l,
        "greenfield",
    ) || str_eq(l, "meadow") || str_eq(l, "orchard") || str_eq(l, "farmland") || str_eq(
        l,
        "construction",
    ) || str_eq(l, "quarry") {
        return None;
    }
    let mut rng = element_rng(element_id);
    let ghost init = rng.0;
    let mut out: Vec<GroundBlock> = Vec::new();
    let mut i: usize = 0;
    assert(cells@.subrange(0, cells@.len() as int) =~= cells@);
    assert(out@ + spec_ground_stream(init, l@, base, cells@) =~= spec_ground_stream(init, l@, base, cells@));
    while i < cells.len()
        invariant
            i <= cells@.len(),
            out@ + spec_ground_stream(rng.0, l@, base, cells@.subrange(i as int, cells@.len() as int))
                == spec_ground_stream(init, l@, base, cells@),
        decreases cells@.len() - i,
    {
        let ghost before = rng.0;
        let ghost rest = cells@.subrange(i as int, cells@.len() as int);
        let (x, z) = cells[i];
        let b = draw_ground(&mut rng, l, base, x, z);
        assert(rest.drop_first() =~= cells@.subrange(i + 1, cells@.len() as int));
        assert(rest[0] == (x, z));
        out.push(b);
        proof {
            assert(out@ =~= out@.drop_last().push(b));
            assert(spec_ground_stream(before, l@, base, rest) == seq![b] + spec_ground_stream(
                rng.0,
                l@,
                base,
                rest.drop_first(),
            ));
            assert(out@.drop_last() + (seq![b] + spec_ground_stream(rng.0, l@, base, rest.drop_first()))
                =~= out@ + spec_ground_stream(rng.0, l@, base, rest.drop_first()));
        }
        i += 1;
    }
    assert(cells@.subrange(i as int, cells@.len() as int) =~= Seq::<(i32, i32)>::empty());
    assert(out@ + Seq::<GroundBlock>::empty() =~= out@);
    Some(out)
}

/// What a block of farmland gets.
#[derive(Clone, Copy, PartialEq, Eq, Structural, Debug)]
pub enum FarmDecoration {
    Nothing,
    /// An irrigation pool in place of the ground.
    Water,
    HayBale,
    OakLeaves,
    Wheat,
    Carrots,
    Potatoes,
}

/// Whether a farmland block is an irrigation pool: both coordinates
/// multiples of 9.
pub open spec fn spec_irrigation_place(x: int, z: int) -> bool {
    x % 9 == 0 && z % 9 == 0
}

/// The crop of index 0, 1 or 2.
pub open spec fn spec_crop(i: int) -> FarmDecoration {
    if i == 0 {
        FarmDecoration::Wheat
    } else if i == 1 {
        FarmDecoration::Carrots
    } else {
        FarmDecoration::Potatoes
    }
}

/// What the farmland block `(x, z)` gets, drawn from the area's generator,
/// where its ground is already water (`is_water`) or farmland
/// (`on_farmland`): nothing on water; a pool at the irrigation places (no
/// draw); else one block in 76 a hay bale (4 in 10) or leaves, drawn from a
/// roll from 1 to 10; else on farmland a crop drawn from three.
pub open spec fn spec_farmland_draw(
    state: rand_xoshiro::Xoshiro256PlusPlus,
    x: int,
    z: int,
    is_water: bool,
    on_farmland: bool,
) -> FarmDecoration {
    let special = xoshiro_roll_inclusive(state, 0, 75) == 0;
    let s1 = xoshiro_roll_state(state, 0, 75);
    if is_water {
        FarmDecoration::Nothing
    } else if spec_irrigation_place(x, z) {
        FarmDecoration::Water
    } else if special {
        if xoshiro_roll_inclusive(s1, 1, 10) <= 4 {
            FarmDecoration::HayBale
        } else {
            FarmDecoration::OakLeaves
        }
    } else if on_farmland {
        spec_crop(xoshiro_index(s1, 3) as int)
    } else {
        FarmDecoration::Nothing
    }
}

/// What a farmland block gets, drawn from the area's generator.
pub fn draw_farmland(rng: &mut PincelRng, x: i32, z: i32, is_water: bool, on_farmland: bool) -> (d: FarmDecoration)
    ensures
        d == spec_farmland_draw(old(rng).0, x as int, z as int, is_water, on_farmland),
        is_water || spec_irrigation_place(x as int, z as int) ==> final(rng).0 == old(rng).0,
{
    if is_water {
        return FarmDecoration::Nothing;
    }
    let (xx, zz) = (x as i64, z as i64);
    let rx = if xx >= 0 { xx % 9 } else { (-xx) % 9 };
    let rz = if zz >= 0 { zz % 9 } else { (-zz) % 9 };
    assert((xx % 9 == 0) == (rx == 0) && (zz % 9 == 0) == (rz == 0)) by (nonlinear_arith)
        requires
            rx as int == (if xx >= 0 { xx as int % 9 } else { (-(xx as int)) % 9 }),
            rz as int == (if zz >= 0 { zz as int % 9 } else { (-(zz as int)) % 9 }),
    ;
    if rx == 0 && rz == 0 {
        return FarmDecoration::Water;
    }
    let special = roll_inclusive(rng, 0, 75);
    if special == 0 {
        let choice = roll_inclusive(rng, 1, 10);
        if choice <= 4 {
            FarmDecoration::HayBale
        } else {
            FarmDecoration::OakLeaves
        }
    } else if on_farmland {
        let i = roll_index(rng, 3);
        if i == 0 {
            FarmDecoration::Wheat
        } else if i == 1 {
            FarmDecoration::Carrots
        } else {
            FarmDecoration::Potatoes
        }
    } else {
        FarmDecoration::Nothing
    }
}

/// The blocks of a construction site.
#[derive(Clone, Copy, PartialEq, Eq, Structural, Debug)]
pub enum ConstructionBlock {
    Scaffolding,
    OakLog,
    Cobblestone,
    Gravel,
    Glowstone,
    Stone,
    CobblestoneWall,
    BlackConcrete,
    Sand,
    OakPlanks,
    Dirt,
    Brick,
    CraftingTable,
    Furnace,
    Diorite,
    Granite,
    Andesite,
}

/// The materials that lie about a construction site, by index.
pub open spec fn spec_construction_item(i: int) -> ConstructionBlock {
    if i == 0 {
        ConstructionBlock::OakLog
    } else if i == 1 {
        ConstructionBlock::Cobblestone
    } else if i == 2 {
        ConstructionBlock::Gravel
    } else if i == 3 {
        ConstructionBlock::Glowstone
    } else if i == 4 {
        ConstructionBlock::Stone
    } else if i == 5 {
        ConstructionBlock::CobblestoneWall
    } else if i == 6 {
        ConstructionBlock::BlackConcrete
    } else if i == 7 {
        ConstructionBlock::Sand
    } else if i == 8 {
        ConstructionBlock::OakPlanks
    } else if i == 9 {
        ConstructionBlock::Dirt
    } else if i == 10 {
        ConstructionBlock::Brick
    } else if i == 11 {
        ConstructionBlock::CraftingTable
    } else {
        ConstructionBlock::Furnace
    }
}

/// What stands on a block of a construction site.
#[derive(Clone, Copy, PartialEq, Eq, Structural, Debug)]
pub enum ConstructionFeature {
    Nothing,
    /// A scaffold three, four (with a foot to the south) or five high (with
    /// feet to the west and north-east).
    Scaffold { height: i32 },
    /// A material lying on the ground.
    Material(ConstructionBlock),
    /// A heap of dirt two high, spreading east and south, or west and north.
    DirtHeap { east_south: bool },
    /// The ground itself replaced (unless it is a sponge).
    Ground(ConstructionBlock),
}

/// What a roll from 0 to 1500 puts on a construction block, with `item`
/// the index of the material drawn next where one lies there.
pub open spec fn spec_construction_feature(roll: int, item: int) -> ConstructionFeature {
    if roll < 15 {
        ConstructionFeature::Scaffold {
            height: if roll < 2 {
                3
            } else if roll < 4 {
                4
            } else {
                5
            },
        }
    } else if roll < 55 {
        ConstructionFeature::Material(spec_construction_item(item))
    } else if roll < 65 {
        ConstructionFeature::DirtHeap { east_south: roll < 60 }
    } else if roll < 100 {
        ConstructionFeature::Ground(ConstructionBlock::Gravel)
    } else if roll < 115 {
        ConstructionFeature::Ground(ConstructionBlock::Sand)
    } else if roll < 125 {
        ConstructionFeature::Ground(ConstructionBlock::Diorite)
    } else if roll < 145 {
        ConstructionFeature::Ground(ConstructionBlock::Brick)
    } else if roll < 155 {
        ConstructionFeature::Ground(ConstructionBlock::Granite)
    } else if roll < 180 {
        ConstructionFeature::Ground(ConstructionBlock::Andesite)
    } else if roll < 565 {
        ConstructionFeature::Ground(ConstructionBlock::Cobblestone)
    } else {
        ConstructionFeature::Nothing
    }
}

/// What stands on a block of a construction site, drawn from the area's
/// generator: a roll from 0 to 1500 and, for a material, the index of one
/// of the thirteen materials.
pub fn draw_construction(rng: &mut PincelRng) -> (f: ConstructionFeature)
    ensures
        ({
            let roll = xoshiro_roll_inclusive(old(rng).0, 0, 1500);
            let s1 = xoshiro_roll_state(old(rng).0, 0, 1500);
            &&& f == spec_construction_feature(roll as int, xoshiro_index(s1, 13) as int)
            &&& final(rng).0 == (if 15 <= roll < 55 {
                xoshiro_index_state(s1, 13)
            } else {
                s1
            })
        }),
{
    let roll = roll_inclusive(rng, 0, 1500);
    if roll < 15 {
        ConstructionFeature::Scaffold {
            height: if roll < 2 {
                3
            } else if roll < 4 {
                4
            } else {
                5
            },
        }
    } else if roll < 55 {
        let i = roll_index(rng, 13);
        let items: [ConstructionBlock; 13] = [
            ConstructionBlock::OakLog,
            ConstructionBlock::Cobblestone,
            ConstructionBlock::Gravel,
            ConstructionBlock::Glowstone,
            ConstructionBlock::Stone,
            ConstructionBlock::CobblestoneWall,
            ConstructionBlock::BlackConcrete,
            ConstructionBlock::Sand,
            ConstructionBlock::OakPlanks,
            ConstructionBlock::Dirt,
            ConstructionBlock::Brick,
            ConstructionBlock::CraftingTable,
            ConstructionBlock::Furnace,
        ];
        ConstructionFeature::Material(items[i])
    } else if roll < 65 {
        ConstructionFeature::DirtHeap { east_south: roll < 60 }
    } else if roll < 100 {
        ConstructionFeature::Ground(ConstructionBlock::Gravel)
    } else if roll < 115 {
        ConstructionFeature::Ground(ConstructionBlock::Sand)
    } else if roll < 125 {
        ConstructionFeature::Ground(ConstructionBlock::Diorite)
    } else if roll < 145 {
        ConstructionFeature::Ground(ConstructionBlock::Brick)
    } else if roll < 155 {
        ConstructionFeature::Ground(ConstructionBlock::Granite)
    } else if roll < 180 {
        ConstructionFeature::Ground(ConstructionBlock::Andesite)
    } else if roll < 565 {
        ConstructionFeature::Ground(ConstructionBlock::Cobblestone)
    } else {
        ConstructionFeature::Nothing
    }
}

/// The block a construction feature sets at offset `(dx, dy, dz)` from its
/// block's ground.
pub open spec fn spec_construction_cell(f: ConstructionFeature, dx: int, dy: int, dz: int) -> Option<ConstructionBlock> {
    let centre = dx == 0 && dz == 0;
    match f {
        ConstructionFeature::Nothing => None,
        ConstructionFeature::Scaffold { height } => if (centre && 1 <= dy <= height) || (height
            == 4 && dx == 0 && dz == 1 && dy == 1) || (height == 5 && dy == 1 && ((dx == -1 && dz
            == 0) || (dx == 1 && dz == -1))) {
            Some(ConstructionBlock::Scaffolding)
        } else {
            None
        },
        ConstructionFeature::Material(b) => if centre && dy == 1 {
            Some(b)
        } else {
            None
        },
        ConstructionFeature::DirtHeap { east_south } => {
            let s = if east_south { 1int } else { -1int };
            if (centre && (dy == 1 || dy == 2)) || (dy == 1 && ((dx == s && dz == 0) || (dx == 0
                && dz == s))) {
                Some(ConstructionBlock::Dirt)
            } else {
                None
            }
        },
        ConstructionFeature::Ground(b) => if centre && dy == 0 {
            Some(b)
        } else {
            None
        },
    }
}

/// The block a construction feature sets at offset `(dx, dy, dz)`.
pub fn construction_cell_at(f: ConstructionFeature, dx: i32, dy: i32, dz: i32) -> (r: Option<ConstructionBlock>)
    ensures
        r == spec_construction_cell(f, dx as int, dy as int, dz as int),
{
    let centre = dx == 0 && dz == 0;
    match f {
        ConstructionFeature::Nothing => None,
        ConstructionFeature::Scaffold { height } => if (centre && 1 <= dy && dy <= height) || (
        height == 4 && dx == 0 && dz == 1 && dy == 1) || (height == 5 && dy == 1 && ((dx == -1
            && dz == 0) || (dx == 1 && dz == -1))) {
            Some(ConstructionBlock::Scaffolding)
        } else {
            None
        },
        ConstructionFeature::Material(b) => if centre && dy == 1 {
            Some(b)
        } else {
            None
        },
        ConstructionFeature::DirtHeap { east_south } => {
            let s: i32 = if east_south { 1 } else { -1 };
            if (centre && (dy == 1 || dy == 2)) || (dy == 1 && ((dx == s && dz == 0) || (dx == 0
                && dz == s))) {
                Some(ConstructionBlock::Dirt)
            } else {
                None
            }
        },
        ConstructionFeature::Ground(b) => if centre && dy == 0 {
            Some(b)
        } else {
            None
        },
    }
}

/// Whether ore shows at a quarry block whose ground lies at `abs_y`,
/// drawn from the area's generator: only where the quarry has a
/// `resource`, by a roll below 5 of `0 .. 100 + abs_y`.
pub fn draw_quarry_ore(rng: &mut PincelRng, has_resource: bool, abs_y: i32) -> (b: bool)
    requires
        has_resource ==> -100 < abs_y <= i32::MAX - 100,
    ensures
        has_resource ==> b == (xoshiro_roll_inclusive(old(rng).0, 0, (99 + abs_y) as i32) < 5)
            && final(rng).0 == xoshiro_roll_state(old(rng).0, 0, (99 + abs_y) as i32),
        !has_resource ==> !b && final(rng).0 == old(rng).0,
{
    if !has_resource {
        return false;
    }
    let roll = roll_inclusive(rng, 0, 99 + abs_y);
    roll < 5
}

// ---------------------------------------------------------------------------
// Laws
// ---------------------------------------------------------------------------

/// The ground of industrial and military areas is gray concrete, whatever
/// else the area is tagged with; commercial areas are polished andesite,
/// schools and churches smooth quartz, and none of these is the grass that
/// unlisted land uses get.
pub proof fn lemma_paved_land_uses(l: Seq<char>, t: Map<Seq<char>, Seq<char>>)
    ensures
        (l == "industrial"@ || l == "military"@) ==> spec_base_block(l, t) == GroundBlock::GrayConcrete,
        l == "commercial"@ ==> spec_base_block(l, t) == GroundBlock::PolishedAndesite,
        (l == "education"@ || l == "religious"@) ==> spec_base_block(l, t) == GroundBlock::SmoothQuartz,
        (l == "farmland"@) ==> spec_base_block(l, t) == GroundBlock::Farmland,
        (l == "cemetery"@) ==> spec_base_block(l, t) == GroundBlock::Podzol,
        (l == "quarry"@) ==> spec_base_block(l, t) == GroundBlock::Stone,
{
    reveal_strlit("farmland");
    reveal_strlit("cemetery");
    reveal_strlit("construction");
    reveal_strlit("traffic_island");
    reveal_strlit("commercial");
    reveal_strlit("education");
    reveal_strlit("religious");
    reveal_strlit("industrial");
    reveal_strlit("military");
    reveal_strlit("railway");
    reveal_strlit("landfill");
    reveal_strlit("quarry");
    assert("farmland"@[0] != "cemetery"@[0]);
    assert("farmland"@[0] != "military"@[0]);
    assert("farmland"@[0] != "landfill"@[0]);
    assert("cemetery"@[0] != "farmland"@[0]);
    assert("cemetery"@[0] != "military"@[0]);
    assert("cemetery"@[0] != "landfill"@[0]);
    assert("commercial"@[0] != "industrial"@[0]);
    assert("education"@[0] != "religious"@[0]);
    assert("religious"@[0] != "education"@[0]);
    assert("industrial"@[0] != "commercial"@[0]);
    assert("military"@[0] != "farmland"@[0]);
    assert("military"@[0] != "cemetery"@[0]);
    assert("military"@[0] != "landfill"@[0]);
    assert("landfill"@[0] != "farmland"@[0]);
    assert("landfill"@[0] != "cemetery"@[0]);
    assert("landfill"@[0] != "military"@[0]);
    if l == "commercial"@ {
        assert(l != "farmland"@) by { assert("commercial"@.len() != "farmland"@.len() || "commercial"@ != "farmland"@); }
        assert(l != "cemetery"@) by { assert("commercial"@.len() != "cemetery"@.len() || "commercial"@ != "cemetery"@); }
        assert(l != "construction"@) by { assert("commercial"@.len() != "construction"@.len() || "commercial"@ != "construction"@); }
        assert(l != "traffic_island"@) by { assert("commercial"@.len() != "traffic_island"@.len() || "commercial"@ != "traffic_island"@); }
    }
    if l == "quarry"@ {
        assert(l != "farmland"@) by { assert("quarry"@.len() != "farmland"@.len() || "quarry"@ != "farmland"@); }
        assert(l != "cemetery"@) by { assert("quarry"@.len() != "cemetery"@.len() || "quarry"@ != "cemetery"@); }
        assert(l != "construction"@) by { assert("quarry"@.len() != "construction"@.len() || "quarry"@ != "construction"@); }
        assert(l != "traffic_island"@) by { assert("quarry"@.len() != "traffic_island"@.len() || "quarry"@ != "traffic_island"@); }
        assert(l != "commercial"@) by { assert("quarry"@.len() != "commercial"@.len() || "quarry"@ != "commercial"@); }
        assert(l != "education"@) by { assert("quarry"@.len() != "education"@.len() || "quarry"@ != "education"@); }
        assert(l != "religious"@) by { assert("quarry"@.len() != "religious"@.len() || "quarry"@ != "religious"@); }
        assert(l != "industrial"@) by { assert("quarry"@.len() != "industrial"@.len() || "quarry"@ != "industrial"@); }
        assert(l != "military"@) by { assert("quarry"@.len() != "military"@.len() || "quarry"@ != "military"@); }
        assert(l != "railway"@) by { assert("quarry"@.len() != "railway"@.len() || "quarry"@ != "railway"@); }
        assert(l != "landfill"@) by { assert("quarry"@.len() != "landfill"@.len() || "quarry"@ != "landfill"@); }
    }
    if l == "industrial"@ {
        assert(l != "farmland"@) by { assert("industrial"@.len() != "farmland"@.len() || "industrial"@ != "farmland"@); }
        assert(l != "cemetery"@) by { assert("industrial"@.len() != "cemetery"@.len() || "industrial"@ != "cemetery"@); }
        assert(l != "construction"@) by { assert("industrial"@.len() != "construction"@.len() || "industrial"@ != "construction"@); }
        assert(l != "traffic_island"@) by { assert("industrial"@.len() != "traffic_island"@.len() || "industrial"@ != "traffic_island"@); }
        assert(l != "commercial"@) by { assert("industrial"@.len() != "commercial"@.len() || "industrial"@ != "commercial"@); }
        assert(l != "education"@) by { assert("industrial"@.len() != "education"@.len() || "industrial"@ != "education"@); }
        assert(l != "religious"@) by { assert("industrial"@.len() != "religious"@.len() || "industrial"@ != "religious"@); }
    }
    if l == "military"@ {
        assert(l != "farmland"@) by { assert("military"@.len() != "farmland"@.len() || "military"@ != "farmland"@); }
        assert(l != "cemetery"@) by { assert("military"@.len() != "cemetery"@.len() || "military"@ != "cemetery"@); }
        assert(l != "construction"@) by { assert("military"@.len() != "construction"@.len() || "military"@ != "construction"@); }
        assert(l != "traffic_island"@) by { assert("military"@.len() != "traffic_island"@.len() || "military"@ != "traffic_island"@); }
        assert(l != "commercial"@) by { assert("military"@.len() != "commercial"@.len() || "military"@ != "commercial"@); }
        assert(l != "education"@) by { assert("military"@.len() != "education"@.len() || "military"@ != "education"@); }
        assert(l != "religious"@) by { assert("military"@.len() != "religious"@.len() || "military"@ != "religious"@); }
        assert(l != "industrial"@) by { assert("military"@.len() != "industrial"@.len() || "military"@ != "industrial"@); }
    }
    if l == "education"@ {
        assert(l != "farmland"@) by { assert("education"@.len() != "farmland"@.len() || "education"@ != "farmland"@); }
        assert(l != "cemetery"@) by { assert("education"@.len() != "cemetery"@.len() || "education"@ != "cemetery"@); }
        assert(l != "construction"@) by { assert("education"@.len() != "construction"@.len() || "education"@ != "construction"@); }
        assert(l != "traffic_island"@) by { assert("education"@.len() != "traffic_island"@.len() || "education"@ != "traffic_island"@); }
        assert(l != "commercial"@) by { assert("education"@.len() != "commercial"@.len() || "education"@ != "commercial"@); }
    }
    if l == "religious"@ {
        assert(l != "farmland"@) by { assert("religious"@.len() != "farmland"@.len() || "religious"@ != "farmland"@); }
        assert(l != "cemetery"@) by { assert("religious"@.len() != "cemetery"@.len() || "religious"@ != "cemetery"@); }
        assert(l != "construction"@) by { assert("religious"@.len() != "construction"@.len() || "religious"@ != "construction"@); }
        assert(l != "traffic_island"@) by { assert("religious"@.len() != "traffic_island"@.len() || "religious"@ != "traffic_island"@); }
        assert(l != "commercial"@) by { assert("religious"@.len() != "commercial"@.len() || "religious"@ != "commercial"@); }
        assert(l != "education"@) by { assert("religious"@.len() != "education"@.len() || "religious"@ != "education"@); }
    }
}

} // verus!
