//! Historic elements: memorials of each kind, monuments and wayside crosses.

use vstd::prelude::*;
use crate::deterministic_rng::{
    element_rng, roll_inclusive, roll_ratio, spec_state_seed, xoshiro_ratio, xoshiro_roll_inclusive,
    xoshiro_seeded,
};
use crate::highways::tag_i32_or_zero;
use crate::osm_parser::ProcessedNode;
use crate::tags::Tags;
use crate::text::{is_substring, parse_i32, str_eq, string_contains};

verus! {

/// The kinds of memorials.
#[derive(Clone, Copy, PartialEq, Eq, Structural, Debug)]
pub enum MemorialKind {
    Plaque,
    Statue,
    /// A memorial stone, golden where it is a stolperstein.
    Stone { stolperstein: bool },
    Cross,
    /// An obelisk, or a flagpole where the node says so.
    Obelisk { flagpole: bool },
    Stele,
    Other,
}

/// What a historic node is drawn as.
#[derive(Clone, Copy, PartialEq, Eq, Structural, Debug)]
pub enum HistoricKind {
    Memorial(MemorialKind),
    Monument,
    WaysideCross,
    Nothing,
}

/// The kind of a memorial from its `memorial` tag (`yes` where missing) and,
/// for obelisks, whether it is a flagpole: a `flag:type` tag or a name
/// holding "Bandeira".
pub open spec fn spec_memorial_kind(t: Map<Seq<char>, Seq<char>>) -> MemorialKind {
    let m = if t.contains_key("memorial"@) { t["memorial"@] } else { "yes"@ };
    if m == "plaque"@ {
        MemorialKind::Plaque
    } else if m == "statue"@ || m == "sculpture"@ || m == "bust"@ {
        MemorialKind::Statue
    } else if m == "stone"@ || m == "stolperstein"@ {
        MemorialKind::Stone { stolperstein: m == "stolperstein"@ }
    } else if m == "cross"@ || m == "war_memorial"@ {
        MemorialKind::Cross
    } else if m == "obelisk"@ {
        MemorialKind::Obelisk {
            flagpole: t.contains_key("flag:type"@) || (t.contains_key("name"@) && is_substring(
                "Bandeira"@,
                t["name"@],
            )),
        }
    } else if m == "stele"@ {
        MemorialKind::Stele
    } else {
        MemorialKind::Other
    }
}

/// The kind of a memorial.
pub fn memorial_kind(t: &Tags) -> (k: MemorialKind)
    ensures
        k == spec_memorial_kind(t@),
{
    let m: &str = match t.get("memorial") {
        Some(v) => v.as_str(),
        None => "yes",
    };
    if str_eq(m, "plaque") {
        MemorialKind::Plaque
    } else if str_eq(m, "statue") || str_eq(m, "sculpture") || str_eq(m, "bust") {
        MemorialKind::Statue
    } else if str_eq(m, "stone") || str_eq(m, "stolperstein") {
        MemorialKind::Stone { stolperstein: str_eq(m, "stolperstein") }
    } else if str_eq(m, "cross") || str_eq(m, "war_memorial") {
        MemorialKind::Cross
    } else if str_eq(m, "obelisk") {
        let flagpole = t.contains_key("flag:type") || match t.get("name") {
            Some(n) => string_contains(n, "Bandeira"),
            None => false,
        };
        MemorialKind::Obelisk { flagpole }
    } else if str_eq(m, "stele") {
        MemorialKind::Stele
    } else {
        MemorialKind::Other
    }
}

/// What a historic node is drawn as: nothing on a negative layer or level;
/// else by its `historic` tag.
pub open spec fn spec_historic_kind(t: Map<Seq<char>, Seq<char>>) -> HistoricKind {
    if (t.contains_key("layer"@) && tag_i32_or_zero(t, "layer"@) < 0) || (t.contains_key(
        "level"@,
    ) && tag_i32_or_zero(t, "level"@) < 0) || !t.contains_key("historic"@) {
        HistoricKind::Nothing
    } else if t["historic"@] == "memorial"@ {
        HistoricKind::Memorial(spec_memorial_kind(t))
    } else if t["historic"@] == "monument"@ {
        HistoricKind::Monument
    } else if t["historic"@] == "wayside_cross"@ {
        HistoricKind::WaysideCross
    } else {
        HistoricKind::Nothing
    }
}

fn negative_tag(tags: &Tags, key: &str) -> (b: bool)
    ensures
        b == (tags@.contains_key(key@) && tag_i32_or_zero(tags@, key@) < 0),
{
    match tags.get(key) {
        Some(v) => match parse_i32(v.as_str()) {
            Some(n) => n < 0,
            None => false,
        },
        None => false,
    }
}

/// What a historic node is drawn as.
pub fn generate_historic(node: &ProcessedNode) -> (k: HistoricKind)
    ensures
        k == spec_historic_kind(node.tags@),
{
    let t = &node.tags;
    if negative_tag(t, "layer") || negative_tag(t, "level") {
        return HistoricKind::Nothing;
    }
    match t.get("historic") {
        None => HistoricKind::Nothing,
        Some(h) => {
            let h = h.as_str();
            if str_eq(h, "memorial") {
                HistoricKind::Memorial(memorial_kind(t))
            } else if str_eq(h, "monument") {
                HistoricKind::Monument
            } else if str_eq(h, "wayside_cross") {
                HistoricKind::WaysideCross
            } else {
                HistoricKind::Nothing
            }
        },
    }
}

/// The height of the arm of a cross `height` blocks tall: three quarters up,
/// at least 3.
pub fn cross_arm_offset(height: i32) -> (y: i32)
    requires
        0 <= height <= i32::MAX / 3,
    ensures
        y == (if height * 3 / 4 < 3 { 3 } else { height * 3 / 4 }),
{
    let y = height * 3 / 4;
    if y < 3 {
        3
    } else {
        y
    }
}

/// The height of a monument: its scaled `height` where given, else 25, kept
/// within 15 to 100.
pub fn monument_height(scaled_height: Option<i32>) -> (h: i32)
    ensures
        h == (match scaled_height {
            Some(v) => if v < 15 { 15 } else if v > 100 { 100 } else { v },
            None => 25,
        }),
{
    match scaled_height {
        Some(v) => if v < 15 {
            15
        } else if v > 100 {
            100
        } else {
            v
        },
        None => 25,
    }
}

// ---------------------------------------------------------------------------
// Geometry
// ---------------------------------------------------------------------------
//
// A historic node stands on the column `(x, z)` at ground level `g`; the
// cell functions take the offsets `(dx, dy, dz)` of a cell from `(x, g, z)`
// and give the block the node's writes leave there (`None` where they write
// nothing).

/// The blocks of memorials, monuments and crosses.
#[derive(Clone, Copy, PartialEq, Eq, Structural, Debug)]
pub enum HistoricBlock {
    SmoothQuartz,
    PolishedAndesite,
    PolishedBasalt,
    AndesiteWall,
    GoldBlock,
    WhiteConcrete,
    IronBlock,
    IronBars,
    QuartzSlabTop,
    SmoothStoneSlab,
}

/// A cross `height` tall: a foot of polished andesite, a shaft of white
/// concrete from two up to `height`, and arms two blocks to each side at
/// three quarters of the height (at least three up).
pub open spec fn spec_cross_block(height: int, dx: int, dy: int, dz: int) -> Option<HistoricBlock> {
    let arm_y = if height * 3 / 4 < 3 { 3 } else { height * 3 / 4 };
    if dz == 0 && dy == arm_y && -2 <= dx <= 2 && dx != 0 {
        Some(HistoricBlock::WhiteConcrete)
    } else if dx == 0 && dz == 0 && 2 <= dy <= height {
        Some(HistoricBlock::WhiteConcrete)
    } else if dx == 0 && dz == 0 && dy == 1 {
        Some(HistoricBlock::PolishedAndesite)
    } else {
        None
    }
}

/// The block a cross `height` tall leaves at offset `(dx, dy, dz)`.
pub fn cross_block_at(height: i32, dx: i32, dy: i32, dz: i32) -> (r: Option<HistoricBlock>)
    requires
        0 <= height <= i32::MAX / 3,
    ensures
        r == spec_cross_block(height as int, dx as int, dy as int, dz as int),
{
    let arm_y = cross_arm_offset(height);
    if dz == 0 && dy == arm_y && -2 <= dx && dx <= 2 && dx != 0 {
        Some(HistoricBlock::WhiteConcrete)
    } else if dx == 0 && dz == 0 && 2 <= dy && dy <= height {
        Some(HistoricBlock::WhiteConcrete)
    } else if dx == 0 && dz == 0 && dy == 1 {
        Some(HistoricBlock::PolishedAndesite)
    } else {
        None
    }
}

/// The height of the cross of a cross or war memorial.
pub const MEMORIAL_CROSS_HEIGHT: i32 = 9;

/// The height of a wayside cross.
pub const WAYSIDE_CROSS_HEIGHT: i32 = 6;

/// A memorial of `kind`. `bronze` is the draw that casts a statue in dark
/// bronze (polished basalt) rather than steel (polished andesite);
/// `obelisk_height` is the height of an obelisk or flagpole.
/// - a plaque: quartz under andesite;
/// - a statue: a quartz pedestal three by three with a quartz block on it,
///   the figure four blocks tall above, with arms of andesite wall at its
///   third block;
/// - a stone: one block at ground level, gold for a stolperstein;
/// - a cross: a cross nine tall;
/// - an obelisk: a base of andesite five by five, then a quartz shaft up to
///   `obelisk_height` under a quartz slab; a flagpole: an iron mast up to
///   `obelisk_height`, with iron bars round it at every even height;
/// - a stele: an andesite foot, a wall four tall and a slab;
/// - any other: two quartz blocks under one of andesite.
pub open spec fn spec_memorial_block(kind: MemorialKind, bronze: bool, obelisk_height: int, dx: int, dy: int, dz: int) -> Option<HistoricBlock> {
    let centre = dx == 0 && dz == 0;
    match kind {
        MemorialKind::Plaque => if centre && dy == 1 {
            Some(HistoricBlock::SmoothQuartz)
        } else if centre && dy == 2 {
            Some(HistoricBlock::PolishedAndesite)
        } else {
            None
        },
        MemorialKind::Statue => if centre && 3 <= dy <= 6 {
            if bronze { Some(HistoricBlock::PolishedBasalt) } else { Some(HistoricBlock::PolishedAndesite) }
        } else if (dx == 1 || dx == -1) && dz == 0 && dy == 5 {
            Some(HistoricBlock::AndesiteWall)
        } else if centre && dy == 2 {
            Some(HistoricBlock::SmoothQuartz)
        } else if -1 <= dx <= 1 && -1 <= dz <= 1 && dy == 1 {
            Some(HistoricBlock::SmoothQuartz)
        } else {
            None
        },
        MemorialKind::Stone { stolperstein } => if centre && dy == 0 {
            if stolperstein { Some(HistoricBlock::GoldBlock) } else { Some(HistoricBlock::PolishedAndesite) }
        } else {
            None
        },
        MemorialKind::Cross => spec_cross_block(MEMORIAL_CROSS_HEIGHT as int, dx, dy, dz),
        MemorialKind::Obelisk { flagpole } => {
            let h = obelisk_height;
            if flagpole {
                if centre && 2 <= dy <= h {
                    Some(HistoricBlock::IronBlock)
                } else if 2 <= dy <= h && dy % 2 == 0 && (((dx == 1 || dx == -1) && dz == 0) || (dx
                    == 0 && (dz == 1 || dz == -1))) {
                    Some(HistoricBlock::IronBars)
                } else if -2 <= dx <= 2 && -2 <= dz <= 2 && dy == 1 {
                    Some(HistoricBlock::PolishedAndesite)
                } else {
                    None
                }
            } else {
                if centre && dy == h + 1 {
                    Some(HistoricBlock::QuartzSlabTop)
                } else if centre && 2 <= dy <= h {
                    Some(HistoricBlock::SmoothQuartz)
                } else if -2 <= dx <= 2 && -2 <= dz <= 2 && dy == 1 {
                    Some(HistoricBlock::PolishedAndesite)
                } else {
                    None
                }
            }
        },
        MemorialKind::Stele => if centre && dy == 1 {
            Some(HistoricBlock::PolishedAndesite)
        } else if centre && 2 <= dy <= 5 {
            Some(HistoricBlock::AndesiteWall)
        } else if centre && dy == 6 {
            Some(HistoricBlock::SmoothStoneSlab)
        } else {
            None
        },
        MemorialKind::Other => if centre && (dy == 1 || dy == 2) {
            Some(HistoricBlock::SmoothQuartz)
        } else if centre && dy == 3 {
            Some(HistoricBlock::PolishedAndesite)
        } else {
            None
        },
    }
}

/// The block a memorial of `kind` leaves at offset `(dx, dy, dz)`.
pub fn memorial_block_at(kind: MemorialKind, bronze: bool, obelisk_height: i32, dx: i32, dy: i32, dz: i32) -> (r: Option<HistoricBlock>)
    ensures
        r == spec_memorial_block(kind, bronze, obelisk_height as int, dx as int, dy as int, dz as int),
{
    let centre = dx == 0 && dz == 0;
    let (h, y) = (obelisk_height as i64, dy as i64);
    match kind {
        MemorialKind::Plaque => if centre && dy == 1 {
            Some(HistoricBlock::SmoothQuartz)
        } else if centre && dy == 2 {
            Some(HistoricBlock::PolishedAndesite)
        } else {
            None
        },
        MemorialKind::Statue => if centre && 3 <= dy && dy <= 6 {
            if bronze { Some(HistoricBlock::PolishedBasalt) } else { Some(HistoricBlock::PolishedAndesite) }
        } else if (dx == 1 || dx == -1) && dz == 0 && dy == 5 {
            Some(HistoricBlock::AndesiteWall)
        } else if centre && dy == 2 {
            Some(HistoricBlock::SmoothQuartz)
        } else if -1 <= dx && dx <= 1 && -1 <= dz && dz <= 1 && dy == 1 {
            Some(HistoricBlock::SmoothQuartz)
        } else {
            None
        },
        MemorialKind::Stone { stolperstein } => if centre && dy == 0 {
            if stolperstein { Some(HistoricBlock::GoldBlock) } else { Some(HistoricBlock::PolishedAndesite) }
        } else {
            None
        },
        MemorialKind::Cross => cross_block_at(MEMORIAL_CROSS_HEIGHT, dx, dy, dz),
        MemorialKind::Obelisk { flagpole } => {
            if flagpole {
                if centre && 2 <= y && y <= h {
                    Some(HistoricBlock::IronBlock)
                } else if 2 <= y && y <= h && y % 2 == 0 && (((dx == 1 || dx == -1) && dz == 0) || (
                dx == 0 && (dz == 1 || dz == -1))) {
                    Some(HistoricBlock::IronBars)
                } else if -2 <= dx && dx <= 2 && -2 <= dz && dz <= 2 && dy == 1 {
                    Some(HistoricBlock::PolishedAndesite)
                } else {
                    None
                }
            } else {
                if centre && y == h + 1 {
                    Some(HistoricBlock::QuartzSlabTop)
                } else if centre && 2 <= y && y <= h {
                    Some(HistoricBlock::SmoothQuartz)
                } else if -2 <= dx && dx <= 2 && -2 <= dz && dz <= 2 && dy == 1 {
                    Some(HistoricBlock::PolishedAndesite)
                } else {
                    None
                }
            }
        },
        MemorialKind::Stele => if centre && dy == 1 {
            Some(HistoricBlock::PolishedAndesite)
        } else if centre && 2 <= dy && dy <= 5 {
            Some(HistoricBlock::AndesiteWall)
        } else if centre && dy == 6 {
            Some(HistoricBlock::SmoothStoneSlab)
        } else {
            None
        },
        MemorialKind::Other => if centre && (dy == 1 || dy == 2) {
            Some(HistoricBlock::SmoothQuartz)
        } else if centre && dy == 3 {
            Some(HistoricBlock::PolishedAndesite)
        } else {
            None
        },
    }
}

/// A monument `height` tall: a platform of white concrete nine by nine, a
/// tower two by two of white concrete from two up to `height - 1` with
/// quartz fins on two sides over its top seven blocks, and two quartz caps
/// at `height` on the tower's diagonal.
pub open spec fn spec_monument_block(height: int, dx: int, dy: int, dz: int) -> Option<HistoricBlock> {
    if ((dx == 0 && dz == 0) || (dx == 1 && dz == 1)) && dy == height {
        Some(HistoricBlock::SmoothQuartz)
    } else if 2 <= dy < height && (dx == 0 || dx == 1) && (dz == 0 || dz == 1) {
        Some(HistoricBlock::WhiteConcrete)
    } else if 2 <= dy < height && dy > height - 8 && ((dx == 2 && dz == 0) || (dx == -1 && dz == 1)) {
        Some(HistoricBlock::SmoothQuartz)
    } else if -4 <= dx <= 4 && -4 <= dz <= 4 && dy == 1 {
        Some(HistoricBlock::WhiteConcrete)
    } else {
        None
    }
}

/// The block a monument `height` tall leaves at offset `(dx, dy, dz)`.
pub fn monument_block_at(height: i32, dx: i32, dy: i32, dz: i32) -> (r: Option<HistoricBlock>)
    ensures
        r == spec_monument_block(height as int, dx as int, dy as int, dz as int),
{
    let (h, y) = (height as i64, dy as i64);
    if ((dx == 0 && dz == 0) || (dx == 1 && dz == 1)) && y == h {
        Some(HistoricBlock::SmoothQuartz)
    } else if 2 <= y && y < h && (dx == 0 || dx == 1) && (dz == 0 || dz == 1) {
        Some(HistoricBlock::WhiteConcrete)
    } else if 2 <= y && y < h && y > h - 8 && ((dx == 2 && dz == 0) || (dx == -1 && dz == 1)) {
        Some(HistoricBlock::SmoothQuartz)
    } else if -4 <= dx && dx <= 4 && -4 <= dz && dz <= 4 && dy == 1 {
        Some(HistoricBlock::WhiteConcrete)
    } else {
        None
    }
}

/// Whether the statue of memorial node `node_id` is cast in bronze: a
/// draw with chance 3 in 5 (60%), the first of the node's generator.
pub open spec fn spec_statue_bronze(node_id: u64) -> bool {
    xoshiro_ratio(xoshiro_seeded(spec_state_seed(node_id)), 3, 5)
}

/// Whether the statue of memorial node `node_id` is cast in bronze.
pub fn statue_bronze(node_id: u64) -> (b: bool)
    ensures
        b == spec_statue_bronze(node_id),
{
    let mut rng = element_rng(node_id);
    roll_ratio(&mut rng, 3, 5)
}

/// The height of the obelisk or flagpole of memorial node `node_id`: its
/// scaled `height` where that is a number, else a roll from 20 to 34, the
/// first of the node's generator.
pub open spec fn spec_obelisk_height(node_id: u64, scaled_height: Option<i32>) -> i32 {
    match scaled_height {
        Some(h) => h,
        None => xoshiro_roll_inclusive(xoshiro_seeded(spec_state_seed(node_id)), 20, 34),
    }
}

/// The height of the obelisk or flagpole of a memorial node.
pub fn obelisk_height(node_id: u64, scaled_height: Option<i32>) -> (h: i32)
    ensures
        h == spec_obelisk_height(node_id, scaled_height),
        scaled_height is None ==> 20 <= h <= 34,
{
    match scaled_height {
        Some(h) => h,
        None => {
            let mut rng = element_rng(node_id);
            roll_inclusive(&mut rng, 20, 34)
        },
    }
}

} // verus!
