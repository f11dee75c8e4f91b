//! Advertising street furniture: which structure an `advertising` feature
//! becomes, and the integer layout of billboards and flag masts.

use vstd::prelude::*;
use crate::deterministic_rng::{
    coord_rng, roll_index, roll_ratio, spec_coord_state, spec_state_seed, xoshiro_index,
    xoshiro_ratio, xoshiro_seeded,
};
use crate::coordinate_system::XZPoint;
use crate::data_processing::div_toward_zero;
use crate::highways::{tag_i32_or_zero, tag_i32_or_zero_exec, tag_or_empty};
use crate::tags::Tags;
use crate::text::str_eq;

verus! {

/// The structures drawn for advertising features.
#[derive(Clone, Copy, PartialEq, Eq, Structural, Debug)]
pub enum AdvertisingKind {
    /// Columns and totems on pavements.
    Column,
    /// Flag masts.
    Flag,
    /// Lit glass poster boxes.
    PosterBox,
    /// Boards, billboards, screens and panels on walls.
    Billboard,
}

/// The structure of an advertising feature: none without an `advertising`
/// attribute, below ground (a negative `layer` or `level`; unreadable ones
/// count as 0), or of an unknown type.
pub open spec fn spec_advertising_kind(t: Map<Seq<char>, Seq<char>>) -> Option<AdvertisingKind> {
    if !t.contains_key("advertising"@) {
        None
    } else if tag_i32_or_zero(t, "layer"@) < 0 || tag_i32_or_zero(t, "level"@) < 0 {
        None
    } else {
        let a = t["advertising"@];
        if a == "column"@ || a == "totem"@ {
            Some(AdvertisingKind::Column)
        } else if a == "flag"@ {
            Some(AdvertisingKind::Flag)
        } else if a == "poster_box"@ {
            Some(AdvertisingKind::PosterBox)
        } else if a == "board"@ || a == "billboard"@ || a == "screen"@ || a == "wall_profile"@ {
            Some(AdvertisingKind::Billboard)
        } else {
            None
        }
    }
}

/// The structure an advertising feature with these attributes becomes.
pub fn generate_advertising(attributes: &Tags) -> (k: Option<AdvertisingKind>)
    ensures
        k == spec_advertising_kind(attributes@),
{
    let a = match attributes.get("advertising") {
        Some(a) => a,
        None => return None,
    };
    if tag_i32_or_zero_exec(attributes, "layer") < 0 || tag_i32_or_zero_exec(attributes, "level")
        < 0 {
        return None;
    }
    let a = a.as_str();
    if str_eq(a, "column") || str_eq(a, "totem") {
        Some(AdvertisingKind::Column)
    } else if str_eq(a, "flag") {
        Some(AdvertisingKind::Flag)
    } else if str_eq(a, "poster_box") {
        Some(AdvertisingKind::PosterBox)
    } else if str_eq(a, "board") || str_eq(a, "billboard") || str_eq(a, "screen") || str_eq(
        a,
        "wall_profile",
    ) {
        Some(AdvertisingKind::Billboard)
    } else {
        None
    }
}

/// The face of a billboard.
#[derive(Clone, Copy, PartialEq, Eq, Structural, Debug)]
pub enum BoardBlock {
    SeaLantern,
    OakPlanks,
    LightGrayConcrete,
}

/// Screens glow; other boards are wooden where `material=wood`, else
/// concrete.
pub open spec fn spec_board_block(t: Map<Seq<char>, Seq<char>>) -> BoardBlock {
    if tag_or_empty(t, "advertising"@) == "screen"@ {
        BoardBlock::SeaLantern
    } else if tag_or_empty(t, "material"@) == "wood"@ {
        BoardBlock::OakPlanks
    } else {
        BoardBlock::LightGrayConcrete
    }
}

fn tag_equals(t: &Tags, key: &str, value: &str) -> (b: bool)
    ensures
        b == (tag_or_empty(t@, key@) == value@),
{
    match t.get(key) {
        Some(v) => str_eq(v.as_str(), value),
        None => {
            assert(value@.len() == 0 ==> value@ =~= Seq::<char>::empty());
            value.unicode_len() == 0
        },
    }
}

/// The face of a billboard with these attributes.
pub fn board_block(attributes: &Tags) -> (b: BoardBlock)
    ensures
        b == spec_board_block(attributes@),
{
    if tag_equals(attributes, "advertising", "screen") {
        BoardBlock::SeaLantern
    } else if tag_equals(attributes, "material", "wood") {
        BoardBlock::OakPlanks
    } else {
        BoardBlock::LightGrayConcrete
    }
}

/// The middle of a billboard between its ends, rounded toward zero.
pub open spec fn board_center(p1: XZPoint, p2: XZPoint) -> (int, int) {
    (div_toward_zero(p1.x + p2.x, 2), div_toward_zero(p1.z + p2.z, 2))
}

/// The squared length of a billboard.
pub open spec fn board_length_squared(p1: XZPoint, p2: XZPoint) -> int {
    (p2.x - p1.x) * (p2.x - p1.x) + (p2.z - p1.z) * (p2.z - p1.z)
}

/// The pillars a billboard stands on: one in the middle, and one at each
/// end for boards longer than ten blocks.
pub fn billboard_pillars(p1: XZPoint, p2: XZPoint) -> (v: Vec<XZPoint>)
    requires
        i32::MIN <= p1.x + p2.x <= i32::MAX,
        i32::MIN <= p1.z + p2.z <= i32::MAX,
        i32::MIN <= p2.x - p1.x <= i32::MAX,
        i32::MIN <= p2.z - p1.z <= i32::MAX,
        board_length_squared(p1, p2) <= i32::MAX,
    ensures
        v@.len() == (if board_length_squared(p1, p2) > 100 {
            3int
        } else {
            1int
        }),
        v@[0].x == board_center(p1, p2).0 && v@[0].z == board_center(p1, p2).1,
        board_length_squared(p1, p2) > 100 ==> v@[1] == p1 && v@[2] == p2,
{
    let cx: i32 = (p1.x + p2.x) / 2;
    let cz: i32 = (p1.z + p2.z) / 2;
    let dx: i32 = p2.x - p1.x;
    let dz: i32 = p2.z - p1.z;
    proof {
        assert(dx * dx >= 0 && dz * dz >= 0) by (nonlinear_arith);
    }
    let dist_sq: i32 = dx * dx + dz * dz;
    let mut v: Vec<XZPoint> = vec![XZPoint { x: cx, z: cz }];
    if dist_sq > 100 {
        v.push(p1);
        v.push(p2);
    }
    v
}

/// Whether a flag mast of `height` blocks is braced with bars at level `y`
/// (from 1): masts over 15 blocks are, on their lowest third.
pub fn flag_braced_at(height: i32, y: i32) -> (b: bool)
    ensures
        b == (height > 15 && y < height / 3),
{
    height > 15 && y < height / 3
}

/// The wool of a flag.
#[derive(Clone, Copy, PartialEq, Eq, Structural, Debug)]
pub enum FlagColor {
    Red,
    Yellow,
    Blue,
    Green,
    Orange,
    White,
}

/// The colour of index 0 to 5.
pub open spec fn spec_flag_color_of(i: int) -> FlagColor {
    if i == 0 {
        FlagColor::Red
    } else if i == 1 {
        FlagColor::Yellow
    } else if i == 2 {
        FlagColor::Blue
    } else if i == 3 {
        FlagColor::Green
    } else if i == 4 {
        FlagColor::Orange
    } else {
        FlagColor::White
    }
}

/// The colour of the flag of feature `feature_id` standing at `(x, z)` on
/// ground `ground_y`: one of six drawn from the generator of that block.
pub fn flag_color(x: i32, ground_y: i32, z: i32, feature_id: u64) -> (c: FlagColor)
    ensures
        c == spec_flag_color_of(
            xoshiro_index(xoshiro_seeded(spec_state_seed(spec_coord_state(x, ground_y, z, feature_id))), 6)
                as int,
        ),
{
    let mut rng = coord_rng(x, ground_y, z, feature_id);
    let i = roll_index(&mut rng, 6);
    if i == 0 {
        FlagColor::Red
    } else if i == 1 {
        FlagColor::Yellow
    } else if i == 2 {
        FlagColor::Blue
    } else if i == 3 {
        FlagColor::Green
    } else if i == 4 {
        FlagColor::Orange
    } else {
        FlagColor::White
    }
}

/// The facing, in degrees, of a board of feature `feature_id` at `(x, z)`
/// on ground `ground_y` that gives no direction: 0 or 90 by a fair coin of
/// the generator of that block.
pub fn default_board_angle(x: i32, ground_y: i32, z: i32, feature_id: u64) -> (a: i32)
    ensures
        a == (if xoshiro_ratio(
            xoshiro_seeded(spec_state_seed(spec_coord_state(x, ground_y, z, feature_id))),
            1,
            2,
        ) {
            0i32
        } else {
            90i32
        }),
{
    let mut rng = coord_rng(x, ground_y, z, feature_id);
    if roll_ratio(&mut rng, 1, 2) {
        0
    } else {
        90
    }
}

} // verus!
