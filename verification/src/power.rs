//! Power infrastructure: which elements are drawn as lines, towers or poles,
//! how tall they are, what poles are made of and how high lines run.

use vstd::prelude::*;
use crate::highways::{tag_i32_or_zero, tag_or_empty};
use crate::osm_parser::{ProcessedElement, ProcessedNode};
use crate::tags::Tags;
use crate::text::{parse_i32, spec_parse_i32, str_eq};

verus! {

/// Whether power infrastructure is not drawn: on a negative layer or level,
/// underground or underwater, or in a tunnel.
pub open spec fn spec_power_hidden(tags: Map<Seq<char>, Seq<char>>) -> bool {
    ||| (tags.contains_key("layer"@) && tag_i32_or_zero(tags, "layer"@) < 0)
    ||| (tags.contains_key("level"@) && tag_i32_or_zero(tags, "level"@) < 0)
    ||| (tags.contains_key("location"@) && (tags["location"@] == "underground"@
        || tags["location"@] == "underwater"@))
    ||| (tags.contains_key("tunnel"@) && tags["tunnel"@] == "yes"@)
}

fn tag_negative(tags: &Tags, key: &str) -> (b: bool)
    ensures
        b == (tags@.contains_key(key@) && tag_i32_or_zero(tags@, key@) < 0),
{
    match tags.get(key) {
        Some(v) => match parse_i32(v.as_str()) {
            Some(n) => n < 0,
            None => false,
        },
        None => false,
    }
}

/// Whether power infrastructure with these tags is left out.
pub fn power_hidden(tags: &Tags) -> (b: bool)
    ensures
        b == spec_power_hidden(tags@),
{
    tag_negative(tags, "layer") || tag_negative(tags, "level") || tags.has_value(
        "location",
        "underground",
    ) || tags.has_value("location", "underwater") || tags.has_value("tunnel", "yes")
}

/// What a power element is drawn as.
#[derive(Clone, Copy, PartialEq, Eq, Structural, Debug)]
pub enum PowerStructure {
    /// A line along a way.
    Line,
    /// A pylon at a position.
    Tower(i32, i32),
    /// A pole at a position.
    Pole(i32, i32),
    Nothing,
}

/// The position of an element: a node's own, or a way's first node.
pub open spec fn spec_first_position(e: ProcessedElement) -> Option<(i32, i32)> {
    match e {
        ProcessedElement::Node(n) => Some((n.x, n.z)),
        ProcessedElement::Way(w) => if w.nodes@.len() > 0 {
            Some((w.nodes@[0].x, w.nodes@[0].z))
        } else {
            None
        },
        ProcessedElement::Relation(_) => None,
    }
}

/// What a power element is drawn as: lines (`line`, `minor_line`) for ways,
/// towers and poles at the element's first node.
pub open spec fn spec_power_structure(e: ProcessedElement) -> PowerStructure {
    let tags = e.spec_tags();
    if spec_power_hidden(tags) || !tags.contains_key("power"@) {
        PowerStructure::Nothing
    } else {
        let p = tags["power"@];
        if p == "line"@ || p == "minor_line"@ {
            if e is Way { PowerStructure::Line } else { PowerStructure::Nothing }
        } else if p == "tower"@ {
            match spec_first_position(e) {
                Some(q) => PowerStructure::Tower(q.0, q.1),
                None => PowerStructure::Nothing,
            }
        } else if p == "pole"@ {
            match spec_first_position(e) {
                Some(q) => PowerStructure::Pole(q.0, q.1),
                None => PowerStructure::Nothing,
            }
        } else {
            PowerStructure::Nothing
        }
    }
}

fn first_position(e: &ProcessedElement) -> (r: Option<(i32, i32)>)
    ensures
        r == spec_first_position(*e),
{
    match e {
        ProcessedElement::Node(n) => Some((n.x, n.z)),
        ProcessedElement::Way(w) => if w.nodes.len() > 0 {
            Some((w.nodes[0].x, w.nodes[0].z))
        } else {
            None
        },
        ProcessedElement::Relation(_) => None,
    }
}

/// What a power element is drawn as.
pub fn generate_power(element: &ProcessedElement) -> (s: PowerStructure)
    ensures
        s == spec_power_structure(*element),
{
    let tags = element.tags();
    if power_hidden(tags) {
        return PowerStructure::Nothing;
    }
    match tags.get("power") {
        None => PowerStructure::Nothing,
        Some(p) => {
            let p = p.as_str();
            if str_eq(p, "line") || str_eq(p, "minor_line") {
                match element {
                    ProcessedElement::Way(_) => PowerStructure::Line,
                    _ => PowerStructure::Nothing,
                }
            } else if str_eq(p, "tower") {
                match first_position(element) {
                    Some(q) => PowerStructure::Tower(q.0, q.1),
                    None => PowerStructure::Nothing,
                }
            } else if str_eq(p, "pole") {
                match first_position(element) {
                    Some(q) => PowerStructure::Pole(q.0, q.1),
                    None => PowerStructure::Nothing,
                }
            } else {
                PowerStructure::Nothing
            }
        },
    }
}

/// What a power node is drawn as: a tower or a pole at its position.
pub fn generate_power_nodes(node: &ProcessedNode) -> (s: PowerStructure)
    ensures
        s == (if spec_power_hidden(node.tags@) || !node.tags@.contains_key("power"@) {
            PowerStructure::Nothing
        } else if node.tags@["power"@] == "tower"@ {
            PowerStructure::Tower(node.x, node.z)
        } else if node.tags@["power"@] == "pole"@ {
            PowerStructure::Pole(node.x, node.z)
        } else {
            PowerStructure::Nothing
        }),
{
    if power_hidden(&node.tags) {
        return PowerStructure::Nothing;
    }
    match node.tags.get("power") {
        None => PowerStructure::Nothing,
        Some(p) => {
            if str_eq(p.as_str(), "tower") {
                PowerStructure::Tower(node.x, node.z)
            } else if str_eq(p.as_str(), "pole") {
                PowerStructure::Pole(node.x, node.z)
            } else {
                PowerStructure::Nothing
            }
        },
    }
}

/// The height of a tower: its scaled `height` where given, else 29, kept
/// within 17 to 46.
pub fn tower_height(scaled_height: Option<i32>) -> (h: i32)
    ensures
        h == (match scaled_height {
            Some(v) => if v < 17 { 17 } else if v > 46 { 46 } else { v },
            None => 29,
        }),
{
    match scaled_height {
        Some(v) => if v < 17 {
            17
        } else if v > 46 {
            46
        } else {
            v
        },
        None => 29,
    }
}

/// The height of a pole: its scaled `height` where given, else 12, kept
/// within 7 to 18.
pub fn pole_height(scaled_height: Option<i32>) -> (h: i32)
    ensures
        h == (match scaled_height {
            Some(v) => if v < 7 { 7 } else if v > 18 { 18 } else { v },
            None => 12,
        }),
{
    match scaled_height {
        Some(v) => if v < 7 {
            7
        } else if v > 18 {
            18
        } else {
            v
        },
        None => 12,
    }
}

/// What a pole is made of.
#[derive(Clone, Copy, PartialEq, Eq, Structural, Debug)]
pub enum PoleBlock {
    GrayConcrete,
    IronBlock,
    OakLog,
}

/// The block of a pole from its `material` (concrete where missing).
pub open spec fn spec_pole_block(tags: Map<Seq<char>, Seq<char>>) -> PoleBlock {
    let m = if tags.contains_key("material"@) { tags["material"@] } else { "concrete"@ };
    if m == "steel"@ || m == "metal"@ {
        PoleBlock::IronBlock
    } else if m == "wood"@ {
        PoleBlock::OakLog
    } else {
        PoleBlock::GrayConcrete
    }
}

/// The block a pole is made of.
pub fn pole_block(tags: &Tags) -> (b: PoleBlock)
    ensures
        b == spec_pole_block(tags@),
{
    match tags.get("material") {
        Some(m) => {
            let m = m.as_str();
            if str_eq(m, "steel") || str_eq(m, "metal") {
                PoleBlock::IronBlock
            } else if str_eq(m, "wood") {
                PoleBlock::OakLog
            } else {
                PoleBlock::GrayConcrete
            }
        },
        None => {
            proof {
                reveal_strlit("concrete");
                reveal_strlit("steel");
                reveal_strlit("metal");
                reveal_strlit("wood");
                assert("concrete"@.len() != "steel"@.len());
                assert("concrete"@.len() != "wood"@.len());
            }
            PoleBlock::GrayConcrete
        },
    }
}

/// The blocks of a power pole.
#[derive(Clone, Copy, PartialEq, Eq, Structural, Debug)]
pub enum PoleCell {
    Pole(PoleBlock),
    LightGrayConcrete,
    EndRod,
}

/// A power pole of `height` and `material`: a column from one above the
/// ground up to `height`, a cross-arm of light gray concrete five wide at
/// the top (over the column's top block), and three insulators (end rods)
/// on the arm's ends and middle.
pub open spec fn spec_power_pole_block(height: int, material: PoleBlock, dx: int, dy: int, dz: int) -> Option<PoleCell> {
    if dz == 0 && dy == height + 1 && (dx == -2 || dx == 0 || dx == 2) {
        Some(PoleCell::EndRod)
    } else if dz == 0 && dy == height && -2 <= dx <= 2 {
        Some(PoleCell::LightGrayConcrete)
    } else if dx == 0 && dz == 0 && 1 <= dy <= height {
        Some(PoleCell::Pole(material))
    } else {
        None
    }
}

/// The block a power pole leaves at offset `(dx, dy, dz)` from its foot.
pub fn power_pole_block_at(height: i32, material: PoleBlock, dx: i32, dy: i32, dz: i32) -> (r: Option<PoleCell>)
    ensures
        r == spec_power_pole_block(height as int, material, dx as int, dy as int, dz as int),
{
    let (h, y) = (height as i64, dy as i64);
    if dz == 0 && y == h + 1 && (dx == -2 || dx == 0 || dx == 2) {
        Some(PoleCell::EndRod)
    } else if dz == 0 && y == h && -2 <= dx && dx <= 2 {
        Some(PoleCell::LightGrayConcrete)
    } else if dx == 0 && dz == 0 && 1 <= y && y <= h {
        Some(PoleCell::Pole(material))
    } else {
        None
    }
}

/// The blocks of a transmission tower.
#[derive(Clone, Copy, PartialEq, Eq, Structural, Debug)]
pub enum TowerCell {
    Andesite,
    IronBars,
    EndRod,
    LightningRod,
    PolishedAndesite,
}

/// The half-width of a tower `height` tall at `y`: five at the foot,
/// narrowing by one for each quarter of the height climbed.
pub open spec fn tower_half_width(height: int, y: int) -> int {
    5 - (4 * y) / height
}

/// A transmission tower `height` tall (17 to 46), at offset `(dx, dy, dz)`
/// from its foot:
/// - a foundation pad of polished andesite nine by nine at the ground;
/// - four andesite legs at the corners of a square of half-width
///   `tower_half_width(height, y)` at each height `y` from 1 to `height`,
///   braced all round every five blocks below `height - 2`;
/// - iron bars up the axis, between the bracings above the first block and
///   below `height - 2`, where the legs step in or two above a bracing;
/// - cross-arms eight long in the four directions at `height - 5`, with
///   insulators (end rods) under their ends;
/// - where `height - 12` is above 5, lower arms six long east and west
///   there, with insulators under their ends;
/// - an andesite cap at `height` and a lightning rod above it.
pub open spec fn spec_power_tower_block(height: int, dx: int, dy: int, dz: int) -> Option<TowerCell> {
    let ah = height - 5;
    let la = height - 12;
    let centre = dx == 0 && dz == 0;
    let w = tower_half_width(height, dy);
    let corner = (dx == w || dx == -w) && (dz == w || dz == -w);
    let bracing = dy % 5 == 0 && dy < height - 2 && (((dz == w || dz == -w) && -w <= dx <= w) || ((
    dx == w || dx == -w) && -w <= dz <= w));
    let bars = centre && 1 <= dy % 5 <= 4 && 1 < dy < height - 2 && (w != tower_half_width(
        height,
        dy - 1,
    ) || dy % 5 == 2);
    if dy == 0 && -4 <= dx <= 4 && -4 <= dz <= 4 {
        Some(TowerCell::PolishedAndesite)
    } else if centre && dy == height + 1 {
        Some(TowerCell::LightningRod)
    } else if centre && dy == height {
        Some(TowerCell::Andesite)
    } else if la > 5 && dz == 0 && (dx == 6 || dx == -6) && dy == la - 1 {
        Some(TowerCell::EndRod)
    } else if la > 5 && dz == 0 && -6 <= dx <= 6 && dy == la {
        Some(TowerCell::Andesite)
    } else if dy == ah - 1 && ((dz == 0 && (dx == 8 || dx == -8)) || (dx == 0 && (dz == 8 || dz
        == -8))) {
        Some(TowerCell::EndRod)
    } else if dy == ah && ((dz == 0 && -8 <= dx <= 8) || (dx == 0 && -8 <= dz <= 8)) {
        Some(TowerCell::Andesite)
    } else if 1 <= dy <= height && (corner || bracing) {
        Some(TowerCell::Andesite)
    } else if 1 <= dy <= height && bars {
        Some(TowerCell::IronBars)
    } else {
        None
    }
}

/// The block a transmission tower leaves at offset `(dx, dy, dz)` from its
/// foot.
pub fn power_tower_block_at(height: i32, dx: i32, dy: i32, dz: i32) -> (r: Option<TowerCell>)
    requires
        17 <= height <= 46,
    ensures
        r == spec_power_tower_block(height as int, dx as int, dy as int, dz as int),
{
    let (h, x, y, z) = (height as i64, dx as i64, dy as i64, dz as i64);
    let ah = h - 5;
    let la = h - 12;
    let centre = x == 0 && z == 0;
    if y == 0 && -4 <= x && x <= 4 && -4 <= z && z <= 4 {
        return Some(TowerCell::PolishedAndesite);
    } else if centre && y == h + 1 {
        return Some(TowerCell::LightningRod);
    } else if centre && y == h {
        return Some(TowerCell::Andesite);
    } else if la > 5 && z == 0 && (x == 6 || x == -6) && y == la - 1 {
        return Some(TowerCell::EndRod);
    } else if la > 5 && z == 0 && -6 <= x && x <= 6 && y == la {
        return Some(TowerCell::Andesite);
    } else if y == ah - 1 && ((z == 0 && (x == 8 || x == -8)) || (x == 0 && (z == 8 || z == -8))) {
        return Some(TowerCell::EndRod);
    } else if y == ah && ((z == 0 && -8 <= x && x <= 8) || (x == 0 && -8 <= z && z <= 8)) {
        return Some(TowerCell::Andesite);
    }
    if y < 1 || y > h {
        return None;
    }
    let w = 5 - (4 * y) / h;
    let prev_w = 5 - (4 * (y - 1)) / h;
    let corner = (x == w || x == -w) && (z == w || z == -w);
    let bracing = y % 5 == 0 && y < h - 2 && (((z == w || z == -w) && -w <= x && x <= w) || ((x
        == w || x == -w) && -w <= z && z <= w));
    let bars = centre && 1 <= y % 5 && y % 5 <= 4 && 1 < y && y < h - 2 && (w != prev_w || y % 5
        == 2);
    if corner || bracing {
        Some(TowerCell::Andesite)
    } else if bars {
        Some(TowerCell::IronBars)
    } else {
        None
    }
}

/// The height a line runs at from its `voltage`: 29 from 220 kV, 24 from
/// 110 kV, 18 from 33 kV, else 14; 18 where the voltage is missing or not
/// an integer.
pub open spec fn spec_line_height(tags: Map<Seq<char>, Seq<char>>) -> i32 {
    if tags.contains_key("voltage"@) {
        match spec_parse_i32(tags["voltage"@]) {
            Some(v) => if v >= 220000 {
                29
            } else if v >= 110000 {
                24
            } else if v >= 33000 {
                18
            } else {
                14
            },
            None => 18,
        }
    } else {
        18
    }
}

/// The height a power line runs at.
pub fn line_base_height(tags: &Tags) -> (h: i32)
    ensures
        h == spec_line_height(tags@),
{
    match tags.get("voltage") {
        Some(v) => match parse_i32(v.as_str()) {
            Some(v) => if v >= 220000 {
                29
            } else if v >= 110000 {
                24
            } else if v >= 33000 {
                18
            } else {
                14
            },
            None => 18,
        },
        None => 18,
    }
}

/// Whether a line segment runs mostly along x (chains laid along x, doubled
/// along z on high-voltage lines).
pub fn runs_along_x(start: (i32, i32), end: (i32, i32)) -> (b: bool)
    ensures
        b == ((if end.0 - start.0 >= 0 { end.0 - start.0 } else { start.0 - end.0 }) >= (if end.1
            - start.1 >= 0 {
            end.1 - start.1
        } else {
            start.1 - end.1
        })),
{
    let dx: i64 = end.0 as i64 - start.0 as i64;
    let dz: i64 = end.1 as i64 - start.1 as i64;
    let adx: i64 = if dx >= 0 { dx } else { -dx };
    let adz: i64 = if dz >= 0 { dz } else { -dz };
    adx >= adz
}

/// The greatest sag of a span of a power line from `start` to `end`: a
/// block for every 15 blocks of its length, from 1 to 6.
pub open spec fn spec_max_sag(start: (i32, i32), end: (i32, i32)) -> int {
    let dx = end.0 - start.0;
    let dz = end.1 - start.1;
    let d2 = dx * dx + dz * dz;
    if d2 >= 225 * 36 {
        6
    } else if d2 >= 225 * 25 {
        5
    } else if d2 >= 225 * 16 {
        4
    } else if d2 >= 225 * 9 {
        3
    } else if d2 >= 225 * 4 {
        2
    } else {
        1
    }
}

/// The greatest sag of a span.
pub fn power_line_max_sag(start: (i32, i32), end: (i32, i32)) -> (s: i32)
    ensures
        s == spec_max_sag(start, end),
{
    let dx: i128 = end.0 as i128 - start.0 as i128;
    let dz: i128 = end.1 as i128 - start.1 as i128;
    assert(0 <= dx * dx <= 0x1_0000_0000_0000_0000 && 0 <= dz * dz <= 0x1_0000_0000_0000_0000)
        by (nonlinear_arith)
        requires
            -0x1_0000_0000 <= dx <= 0x1_0000_0000,
            -0x1_0000_0000 <= dz <= 0x1_0000_0000,
    ;
    let d2: i128 = dx * dx + dz * dz;
    if d2 >= 225 * 36 {
        6
    } else if d2 >= 225 * 25 {
        5
    } else if d2 >= 225 * 16 {
        4
    } else if d2 >= 225 * 9 {
        3
    } else if d2 >= 225 * 4 {
        2
    } else {
        1
    }
}

/// The height of the wire at the `idx`-th of the `len` points of a span
/// whose greatest sag is `max_sag`: the line's height less a parabolic sag,
/// `4 max_sag t (1 - t)` rounded down, where `t` is how far along the span
/// the point lies (`idx / (len - 1)`, over at least 1); never below 3.
pub open spec fn spec_wire_y(base_height: int, max_sag: int, idx: int, len: int) -> int {
    let n = if len - 1 < 1 { 1 } else { len - 1 };
    let sag = (4 * max_sag * idx * (n - idx)) / (n * n);
    if base_height - sag < 3 { 3 } else { base_height - sag }
}

/// The height of the wire at a point of a span.
pub fn power_line_wire_y(base_height: i32, max_sag: i32, idx: usize, len: usize) -> (y: i32)
    requires
        1 <= max_sag <= 6,
        idx < len,
        len <= 0x100_0000_0000,
    ensures
        y == spec_wire_y(base_height as int, max_sag as int, idx as int, len as int),
{
    let n: i128 = if len < 2 { 1 } else { len as i128 - 1 };
    let i: i128 = idx as i128;
    let ms: i128 = max_sag as i128;
    assert(0 <= i <= n && 1 <= n * n <= 0x1_0000_0000_0000_0000_0000 && 0 <= 4 * ms * i <= 24
        * 0x100_0000_0000 && 0 <= (4 * ms * i) * (n - i) <= 24 * 0x1_0000_0000_0000_0000_0000) by (nonlinear_arith)
        requires
            0 <= i <= n,
            1 <= n <= 0x100_0000_0000,
            1 <= ms <= 6,
    ;
    let a: i128 = 4 * ms * i;
    let num: i128 = a * (n - i);
    let sag: i128 = num / (n * n);
    assert(0 <= sag <= num) by (nonlinear_arith)
        requires
            sag == num as int / (n as int * n as int),
            n * n >= 1,
            num >= 0,
    ;
    let y: i128 = base_height as i128 - sag;
    if y < 3 {
        3
    } else {
        y as i32
    }
}

} // verus!
