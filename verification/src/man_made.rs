//! Man-made structures: which structure an element is drawn as, and which
//! underground ones are kept.

use vstd::prelude::*;
use crate::highways::tag_i32_or_zero;
use crate::osm_parser::{ProcessedElement, ProcessedNode};
use crate::tags::Tags;
use crate::text::{parse_i32, str_eq};

verus! {

/// The structures of the man-made processor.
#[derive(Clone, Copy, PartialEq, Eq, Structural, Debug)]
pub enum ManMadeKind {
    Pier,
    Antenna,
    Tower,
    Chimney,
    WaterWell,
    WaterTower,
    Tank,
    StreetCabinet,
    UtilityPole,
    IndustrialWorks,
    Nothing,
}

/// Whether a man-made element is left out: below ground (negative layer)
/// unless a pipeline or a pipe with a diameter, or on a negative level
/// unless it has a diameter.
pub open spec fn spec_man_made_hidden(t: Map<Seq<char>, Seq<char>>) -> bool {
    let infra = (t.contains_key("man_made"@) && t["man_made"@] == "pipeline"@) || t.contains_key(
        "diameter"@,
    );
    ||| (t.contains_key("layer"@) && tag_i32_or_zero(t, "layer"@) < 0 && !infra)
    ||| (t.contains_key("level"@) && tag_i32_or_zero(t, "level"@) < 0 && !t.contains_key(
        "diameter"@,
    ))
}

/// The structure a `man_made` value names, among those drawn for nodes and
/// ways alike.
pub open spec fn spec_common_kind(v: Seq<char>) -> ManMadeKind {
    if v == "antenna"@ || v == "mast"@ {
        ManMadeKind::Antenna
    } else if v == "tower"@ {
        ManMadeKind::Tower
    } else if v == "chimney"@ {
        ManMadeKind::Chimney
    } else if v == "water_well"@ {
        ManMadeKind::WaterWell
    } else if v == "water_tower"@ {
        ManMadeKind::WaterTower
    } else if v == "street_cabinet"@ {
        ManMadeKind::StreetCabinet
    } else if v == "utility_pole"@ {
        ManMadeKind::UtilityPole
    } else {
        ManMadeKind::Nothing
    }
}

/// The structure a `man_made` value names for an element: the common ones,
/// piers, tanks and industrial works.
pub open spec fn spec_element_kind(v: Seq<char>) -> ManMadeKind {
    if v == "pier"@ {
        ManMadeKind::Pier
    } else if v == "water_tank"@ || v == "storage_tank"@ || v == "reservoir_covered"@ || v
        == "silo"@ {
        ManMadeKind::Tank
    } else if v == "wastewater_plant"@ || v == "works"@ {
        ManMadeKind::IndustrialWorks
    } else {
        spec_common_kind(v)
    }
}

fn common_kind(v: &str) -> (k: ManMadeKind)
    ensures
        k == spec_common_kind(v@),
{
    if str_eq(v, "antenna") || str_eq(v, "mast") {
        ManMadeKind::Antenna
    } else if str_eq(v, "tower") {
        ManMadeKind::Tower
    } else if str_eq(v, "chimney") {
        ManMadeKind::Chimney
    } else if str_eq(v, "water_well") {
        ManMadeKind::WaterWell
    } else if str_eq(v, "water_tower") {
        ManMadeKind::WaterTower
    } else if str_eq(v, "street_cabinet") {
        ManMadeKind::StreetCabinet
    } else if str_eq(v, "utility_pole") {
        ManMadeKind::UtilityPole
    } else {
        ManMadeKind::Nothing
    }
}

fn negative_tag(tags: &Tags, key: &str) -> (b: bool)
    ensures
        b == (tags@.contains_key(key@) && tag_i32_or_zero(tags@, key@) < 0),
{
    match tags.get(key) {
        Some(v) => match parse_i32(v.as_str()) {
            Some(n) => n < 0,
            None => false,
        },
        None => false,
    }
}

/// The structure a man-made element is drawn as.
pub fn generate_man_made(element: &ProcessedElement) -> (k: ManMadeKind)
    ensures
        k == (if spec_man_made_hidden(element.spec_tags()) || !element.spec_tags().contains_key(
            "man_made"@,
        ) {
            ManMadeKind::Nothing
        } else {
            spec_element_kind(element.spec_tags()["man_made"@])
        }),
{
    let t = element.tags();
    let infra = t.has_value("man_made", "pipeline") || t.contains_key("diameter");
    if negative_tag(t, "layer") && !infra {
        return ManMadeKind::Nothing;
    }
    if negative_tag(t, "level") && !t.contains_key("diameter") {
        return ManMadeKind::Nothing;
    }
    match t.get("man_made") {
        None => ManMadeKind::Nothing,
        Some(v) => {
            let v = v.as_str();
            if str_eq(v, "pier") {
                ManMadeKind::Pier
            } else if str_eq(v, "water_tank") || str_eq(v, "storage_tank") || str_eq(
                v,
                "reservoir_covered",
            ) || str_eq(v, "silo") {
                ManMadeKind::Tank
            } else if str_eq(v, "wastewater_plant") || str_eq(v, "works") {
                ManMadeKind::IndustrialWorks
            } else {
                common_kind(v)
            }
        },
    }
}

/// The structure a man-made node is drawn as.
pub fn generate_man_made_nodes(node: &ProcessedNode) -> (k: ManMadeKind)
    ensures
        k == (if node.tags@.contains_key("man_made"@) {
            spec_common_kind(node.tags@["man_made"@])
        } else {
            ManMadeKind::Nothing
        }),
{
    match node.tags.get("man_made") {
        Some(v) => common_kind(v.as_str()),
        None => ManMadeKind::Nothing,
    }
}

/// The half-width of a pier: half its integer `width` (5 where missing or
/// not an integer), rounded toward zero.
pub fn pier_half_width(tags: &Tags) -> (h: i32)
    ensures
        h == (if tags@.contains_key("width"@) {
            match crate::text::spec_parse_i32(tags@["width"@]) {
                Some(w) => crate::data_processing::div_toward_zero(w, 2),
                None => 2,
            }
        } else {
            2
        }),
{
    let w: i32 = match tags.get("width") {
        Some(v) => match parse_i32(v.as_str()) {
            Some(n) => n,
            None => 5,
        },
        None => 5,
    };
    if w >= 0 {
        w / 2
    } else {
        -((-(w as i64)) / 2) as i32
    }
}


// ---------------------------------------------------------------------------
// Geometry of the small structures
// ---------------------------------------------------------------------------
//
// Each structure stands on a column `(x, z)` at ground level `g`; the cell
// functions below take the offsets `(dx, dy, dz)` of a cell from `(x, g, z)`
// and give the block the structure's writes leave there (`None` where it
// writes nothing).

/// The blocks of the small man-made structures.
#[derive(Clone, Copy, PartialEq, Eq, Structural, Debug)]
pub enum StructureBlock {
    Brick,
    StoneBricks,
    Water,
    OakLog,
    OakSlab,
    OakFence,
    IronBlock,
    IronBars,
    LightGrayConcrete,
    WhiteConcrete,
    CyanTerracotta,
    SpruceLog,
    PolishedAndesite,
    Glowstone,
    SmoothStoneSlab,
    StoneBrickSlab,
}

/// The height of a chimney: its scaled `height` where that is a number,
/// else 40.
pub fn chimney_height(scaled_height: Option<i32>) -> (h: i32)
    ensures
        h == (match scaled_height {
            Some(v) => v,
            None => 40,
        }),
{
    match scaled_height {
        Some(v) => v,
        None => 40,
    }
}

/// A chimney: a square shaft of brick five blocks wide around a flue three
/// wide, from the ground up to `height - 1`.
pub open spec fn spec_chimney_block(height: int, dx: int, dy: int, dz: int) -> Option<StructureBlock> {
    if 0 <= dy < height && -2 <= dx <= 2 && -2 <= dz <= 2 && !(-1 <= dx <= 1 && -1 <= dz <= 1) {
        Some(StructureBlock::Brick)
    } else {
        None
    }
}

/// The block a chimney leaves at offset `(dx, dy, dz)`.
pub fn chimney_block_at(height: i32, dx: i32, dy: i32, dz: i32) -> (r: Option<StructureBlock>)
    ensures
        r == spec_chimney_block(height as int, dx as int, dy as int, dz as int),
{
    if 0 <= dy && dy < height && -2 <= dx && dx <= 2 && -2 <= dz && dz <= 2 && !(-1 <= dx && dx
        <= 1 && -1 <= dz && dz <= 1) {
        Some(StructureBlock::Brick)
    } else {
        None
    }
}

/// A water well: water in the shaft at and below ground, a ring of stone
/// bricks two high around it, two oak posts four high two blocks off along
/// x, a roof of slabs on top of them, the winch (an oak fence) under the
/// roof and the bucket (an iron block) below it.
pub open spec fn spec_water_well_block(dx: int, dy: int, dz: int) -> Option<StructureBlock> {
    let centre = dx == 0 && dz == 0;
    if centre && (dy == -1 || dy == 0) {
        Some(StructureBlock::Water)
    } else if -1 <= dx <= 1 && -1 <= dz <= 1 && !centre && (dy == 0 || dy == 1) {
        Some(StructureBlock::StoneBricks)
    } else if (dx == -2 || dx == 2) && dz == 0 && 1 <= dy <= 4 {
        Some(StructureBlock::OakLog)
    } else if -1 <= dx <= 1 && dz == 0 && dy == 5 {
        Some(StructureBlock::OakSlab)
    } else if centre && dy == 4 {
        Some(StructureBlock::OakFence)
    } else if centre && dy == 3 {
        Some(StructureBlock::IronBlock)
    } else {
        None
    }
}

/// The block a water well leaves at offset `(dx, dy, dz)`.
pub fn water_well_block_at(dx: i32, dy: i32, dz: i32) -> (r: Option<StructureBlock>)
    ensures
        r == spec_water_well_block(dx as int, dy as int, dz as int),
{
    let centre = dx == 0 && dz == 0;
    if centre && (dy == -1 || dy == 0) {
        Some(StructureBlock::Water)
    } else if -1 <= dx && dx <= 1 && -1 <= dz && dz <= 1 && !centre && (dy == 0 || dy == 1) {
        Some(StructureBlock::StoneBricks)
    } else if (dx == -2 || dx == 2) && dz == 0 && 1 <= dy && dy <= 4 {
        Some(StructureBlock::OakLog)
    } else if -1 <= dx && dx <= 1 && dz == 0 && dy == 5 {
        Some(StructureBlock::OakSlab)
    } else if centre && dy == 4 {
        Some(StructureBlock::OakFence)
    } else if centre && dy == 3 {
        Some(StructureBlock::IronBlock)
    } else {
        None
    }
}

/// The height of a water tower's legs: 25 m at the vertical scale.
pub const WATER_TOWER_HEIGHT: i32 = 28;

/// The height of a water tower's tank: 8 m at the vertical scale.
pub const WATER_TANK_HEIGHT: i32 = 9;

/// A water tower: four concrete legs at the corners three blocks off the
/// centre, rings of stone bricks between them every seven blocks, a tank of
/// white concrete nine by nine on top of the legs, and a cyan main pipe two
/// blocks wide up the middle.
pub open spec fn spec_water_tower_block(dx: int, dy: int, dz: int) -> Option<StructureBlock> {
    let t = WATER_TOWER_HEIGHT as int;
    let k = WATER_TANK_HEIGHT as int;
    if (dx == 0 || dx == 1) && dz == 0 && 0 <= dy < t {
        Some(StructureBlock::CyanTerracotta)
    } else if -4 <= dx <= 4 && -4 <= dz <= 4 && t <= dy <= t + k {
        Some(StructureBlock::WhiteConcrete)
    } else if (dx == -3 || dx == 3) && (dz == -3 || dz == 3) && 0 <= dy < t {
        Some(StructureBlock::LightGrayConcrete)
    } else if (dy == 7 || dy == 14 || dy == 21) && ((-2 <= dx <= 2 && (dz == -3 || dz == 3)) || ((
    dx == -3 || dx == 3) && -2 <= dz <= 2)) {
        Some(StructureBlock::StoneBricks)
    } else {
        None
    }
}

/// The block a water tower leaves at offset `(dx, dy, dz)`.
pub fn water_tower_block_at(dx: i32, dy: i32, dz: i32) -> (r: Option<StructureBlock>)
    ensures
        r == spec_water_tower_block(dx as int, dy as int, dz as int),
{
    let t = WATER_TOWER_HEIGHT;
    let k = WATER_TANK_HEIGHT;
    if (dx == 0 || dx == 1) && dz == 0 && 0 <= dy && dy < t {
        Some(StructureBlock::CyanTerracotta)
    } else if -4 <= dx && dx <= 4 && -4 <= dz && dz <= 4 && t <= dy && dy <= t + k {
        Some(StructureBlock::WhiteConcrete)
    } else if (dx == -3 || dx == 3) && (dz == -3 || dz == 3) && 0 <= dy && dy < t {
        Some(StructureBlock::LightGrayConcrete)
    } else if (dy == 7 || dy == 14 || dy == 21) && ((-2 <= dx && dx <= 2 && (dz == -3 || dz == 3))
        || ((dx == -3 || dx == 3) && -2 <= dz && dz <= 2)) {
        Some(StructureBlock::StoneBricks)
    } else {
        None
    }
}

/// The height of a utility pole: 8 m at the vertical scale.
pub const UTILITY_POLE_HEIGHT: i32 = 9;

/// What a utility pole is made of: spruce where `material` is wood, iron
/// where it is metal, else reinforced concrete (polished andesite).
pub open spec fn spec_utility_pole_material(tags: Map<Seq<char>, Seq<char>>) -> StructureBlock {
    if tags.contains_key("material"@) && tags["material"@] == "wood"@ {
        StructureBlock::SpruceLog
    } else if tags.contains_key("material"@) && tags["material"@] == "metal"@ {
        StructureBlock::IronBlock
    } else {
        StructureBlock::PolishedAndesite
    }
}

/// The block a utility pole is made of.
pub fn utility_pole_material(tags: &Tags) -> (b: StructureBlock)
    ensures
        b == spec_utility_pole_material(tags@),
{
    match tags.get("material") {
        Some(m) => {
            if str_eq(m.as_str(), "wood") {
                StructureBlock::SpruceLog
            } else if str_eq(m.as_str(), "metal") {
                StructureBlock::IronBlock
            } else {
                StructureBlock::PolishedAndesite
            }
        },
        None => StructureBlock::PolishedAndesite,
    }
}

/// A utility pole of `material`: a column from one above the ground up to
/// its height, an arm of iron bars on both sides one below the top, and a
/// lamp (glowstone) under the arm on the east side.
pub open spec fn spec_utility_pole_block(material: StructureBlock, dx: int, dy: int, dz: int) -> Option<StructureBlock> {
    let p = UTILITY_POLE_HEIGHT as int;
    if dx == 1 && dz == 0 && dy == p - 2 {
        Some(StructureBlock::Glowstone)
    } else if (dx == 1 || dx == -1) && dz == 0 && dy == p - 1 {
        Some(StructureBlock::IronBars)
    } else if dx == 0 && dz == 0 && 1 <= dy <= p {
        Some(material)
    } else {
        None
    }
}

/// The block a utility pole of `material` leaves at offset `(dx, dy, dz)`.
pub fn utility_pole_block_at(material: StructureBlock, dx: i32, dy: i32, dz: i32) -> (r: Option<StructureBlock>)
    ensures
        r == spec_utility_pole_block(material, dx as int, dy as int, dz as int),
{
    let p = UTILITY_POLE_HEIGHT;
    if dx == 1 && dz == 0 && dy == p - 2 {
        Some(StructureBlock::Glowstone)
    } else if (dx == 1 || dx == -1) && dz == 0 && dy == p - 1 {
        Some(StructureBlock::IronBars)
    } else if dx == 0 && dz == 0 && 1 <= dy && dy <= p {
        Some(material)
    } else {
        None
    }
}

/// A street cabinet: an iron block under a smooth stone slab.
pub open spec fn spec_street_cabinet_block(dx: int, dy: int, dz: int) -> Option<StructureBlock> {
    if dx == 0 && dz == 0 && dy == 1 {
        Some(StructureBlock::IronBlock)
    } else if dx == 0 && dz == 0 && dy == 2 {
        Some(StructureBlock::SmoothStoneSlab)
    } else {
        None
    }
}

/// The block a street cabinet leaves at offset `(dx, dy, dz)`.
pub fn street_cabinet_block_at(dx: i32, dy: i32, dz: i32) -> (r: Option<StructureBlock>)
    ensures
        r == spec_street_cabinet_block(dx as int, dy as int, dz as int),
{
    if dx == 0 && dz == 0 && dy == 1 {
        Some(StructureBlock::IronBlock)
    } else if dx == 0 && dz == 0 && dy == 2 {
        Some(StructureBlock::SmoothStoneSlab)
    } else {
        None
    }
}

/// The height of an antenna: where it has a `height`, that height scaled
/// (34, for 30 m, where it is not a number), else 40; at most 80.
pub fn antenna_height(tags: &Tags, scaled_height: Option<i32>) -> (h: i32)
    ensures
        h == (if tags@.contains_key("height"@) {
            match scaled_height {
                Some(v) => if v < 80 { v } else { 80 },
                None => 34,
            }
        } else {
            40
        }),
{
    if tags.contains_key("height") {
        match scaled_height {
            Some(v) => if v < 80 { v } else { 80 },
            None => 34,
        }
    } else {
        40
    }
}

/// An antenna of `height`: an iron foot, a mast of iron bars from two up to
/// `height - 1` with a cross of iron blocks every ten blocks, and a machine
/// house of light gray concrete five by five and three high round its
/// foot. The house is written only where nothing stands, so the foot and
/// the mast inside it remain.
pub open spec fn spec_antenna_block(height: int, dx: int, dy: int, dz: int) -> Option<StructureBlock> {
    let ring = 10 <= dy < height && dy % 10 == 0;
    let centre = dx == 0 && dz == 0;
    let arm = ((dx == 1 || dx == -1) && dz == 0) || (dx == 0 && (dz == 1 || dz == -1));
    if centre && dy == 1 {
        Some(StructureBlock::IronBlock)
    } else if centre && 2 <= dy < height {
        if ring { Some(StructureBlock::IronBlock) } else { Some(StructureBlock::IronBars) }
    } else if ring && arm {
        Some(StructureBlock::IronBlock)
    } else if -2 <= dx <= 2 && 1 <= dy <= 3 && -2 <= dz <= 2 {
        Some(StructureBlock::LightGrayConcrete)
    } else {
        None
    }
}

/// The block an antenna of `height` leaves at offset `(dx, dy, dz)`.
pub fn antenna_block_at(height: i32, dx: i32, dy: i32, dz: i32) -> (r: Option<StructureBlock>)
    ensures
        r == spec_antenna_block(height as int, dx as int, dy as int, dz as int),
{
    let ring = 10 <= dy && dy < height && dy % 10 == 0;
    let centre = dx == 0 && dz == 0;
    let arm = ((dx == 1 || dx == -1) && dz == 0) || (dx == 0 && (dz == 1 || dz == -1));
    if centre && dy == 1 {
        Some(StructureBlock::IronBlock)
    } else if centre && 2 <= dy && dy < height {
        if ring { Some(StructureBlock::IronBlock) } else { Some(StructureBlock::IronBars) }
    } else if ring && arm {
        Some(StructureBlock::IronBlock)
    } else if -2 <= dx && dx <= 2 && 1 <= dy && dy <= 3 && -2 <= dz && dz <= 2 {
        Some(StructureBlock::LightGrayConcrete)
    } else {
        None
    }
}

// ---------------------------------------------------------------------------
// Tanks and reservoirs
// ---------------------------------------------------------------------------

/// The height of a tank: where it has a `height`, that height scaled (13,
/// for 12 m, where it is not a number), else 10.
pub fn tank_height(tags: &Tags, scaled_height: Option<i32>) -> (h: i32)
    ensures
        h == (if tags@.contains_key("height"@) {
            match scaled_height {
                Some(v) => v,
                None => 13,
            }
        } else {
            10
        }),
{
    if tags.contains_key("height") {
        match scaled_height {
            Some(v) => v,
            None => 13,
        }
    } else {
        10
    }
}

/// The wall of a tank: iron where its `material` is metal or steel, else
/// white concrete.
pub open spec fn spec_tank_material(tags: Map<Seq<char>, Seq<char>>) -> StructureBlock {
    if tags.contains_key("material"@) && (tags["material"@] == "metal"@ || tags["material"@]
        == "steel"@) {
        StructureBlock::IronBlock
    } else {
        StructureBlock::WhiteConcrete
    }
}

/// The block a tank's wall is made of.
pub fn tank_material(tags: &Tags) -> (b: StructureBlock)
    ensures
        b == spec_tank_material(tags@),
{
    if tags.has_value("material", "metal") || tags.has_value("material", "steel") {
        StructureBlock::IronBlock
    } else {
        StructureBlock::WhiteConcrete
    }
}

fn area_contains(area: &Vec<(i32, i32)>, x: i64, z: i64) -> (b: bool)
    ensures
        b == (i32::MIN <= x <= i32::MAX && i32::MIN <= z <= i32::MAX && area@.contains(
            (x as i32, z as i32),
        )),
{
    if x < i32::MIN as i64 || x > i32::MAX as i64 || z < i32::MIN as i64 || z > i32::MAX as i64 {
        return false;
    }
    let mut i: usize = 0;
    while i < area.len()
        invariant
            i <= area.len(),
            i32::MIN <= x <= i32::MAX,
            i32::MIN <= z <= i32::MAX,
            forall|j: int| 0 <= j < i ==> area@[j] != (x as i32, z as i32),
        decreases area.len() - i,
    {
        if area[i].0 as i64 == x && area[i].1 as i64 == z {
            assert(area@[i as int] == (x as i32, z as i32));
            return true;
        }
        i += 1;
    }
    false
}

/// Whether a cell of a footprint lies on its edge: one of its four
/// neighbours is outside it.
pub open spec fn on_footprint_edge(area: Seq<(i32, i32)>, x: int, z: int) -> bool {
    let inside = |a: int, b: int|
        i32::MIN <= a <= i32::MAX && i32::MIN <= b <= i32::MAX && area.contains((a as i32, b as i32));
    !inside(x + 1, z) || !inside(x - 1, z) || !inside(x, z + 1) || !inside(x, z - 1)
}

/// A tank over the footprint `area`, `height` tall, walled in `material`,
/// with its base at `g`: at each cell of the footprint, from `g` up to
/// `g + height - 1`, the wall on the footprint's edge and water inside;
/// a flat lid of the wall's block at `g + height`; and a parapet of stone
/// brick slabs over the edge at `g + height + 1`.
pub open spec fn spec_tank_block(area: Seq<(i32, i32)>, height: int, material: StructureBlock, g: int, x: int, y: int, z: int) -> Option<StructureBlock> {
    let edge = on_footprint_edge(area, x, z);
    if !(i32::MIN <= x <= i32::MAX && i32::MIN <= z <= i32::MAX && area.contains((x as i32, z as i32))) {
        None
    } else if g <= y < g + height {
        if edge { Some(material) } else { Some(StructureBlock::Water) }
    } else if y == g + height {
        Some(material)
    } else if y == g + height + 1 && edge {
        Some(StructureBlock::StoneBrickSlab)
    } else {
        None
    }
}

/// The block a tank leaves at `(x, y, z)`.
pub fn tank_block_at(area: &Vec<(i32, i32)>, height: i32, material: StructureBlock, g: i32, x: i32, y: i32, z: i32) -> (r: Option<StructureBlock>)
    ensures
        r == spec_tank_block(area@, height as int, material, g as int, x as int, y as int, z as int),
{
    let (x, z) = (x as i64, z as i64);
    if !area_contains(area, x, z) {
        return None;
    }
    let edge = !area_contains(area, x + 1, z) || !area_contains(area, x - 1, z) || !area_contains(
        area,
        x,
        z + 1,
    ) || !area_contains(area, x, z - 1);
    let (g, h, y) = (g as i64, height as i64, y as i64);
    if g <= y && y < g + h {
        if edge { Some(material) } else { Some(StructureBlock::Water) }
    } else if y == g + h {
        Some(material)
    } else if y == g + h + 1 && edge {
        Some(StructureBlock::StoneBrickSlab)
    } else {
        None
    }
}

} // verus!
