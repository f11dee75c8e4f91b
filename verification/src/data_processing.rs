//! The decisions of world generation: which generator each element goes to,
//! the spatial index of elements by region, the building outlines left to
//! their relations, underground pipes and cables, and the map preview.

use vstd::prelude::*;
use std::collections::HashSet;
use std::path::PathBuf;
use crate::coord_map::CoordMap;
use crate::coordinate_system::XZBBox;
use crate::floodfill::{way_points_of, way_ring};
use crate::floodfill_cache::{compute_centroid, spec_centroid};
use crate::highways::tag_i32_or_zero;
use crate::master_control::region_index;
use crate::osm_parser::{ProcessedElement, ProcessedMemberRole, ProcessedWay};
use crate::tags::Tags;
use crate::text::{parse_i32, spec_parse_i32, str_eq};

verus! {

#[verifier::external_type_specification]
#[verifier::external_body]
pub struct ExPathBuf(PathBuf);

/// The lowest block height of the world.
pub const MIN_Y: i32 = -64;

/// Largest world area, in blocks, for which a map preview is drawn.
pub const MAX_MAP_PREVIEW_AREA: i64 = 44160000;

/// The format a world is written in.
#[derive(Clone, Copy, PartialEq, Eq, Structural, Debug)]
pub enum WorldFormat {
    JavaAnvil,
    BedrockMcWorld,
}

/// Generation options that can be passed separately from the command line.
pub struct GenerationOptions {
    pub path: PathBuf,
    pub format: WorldFormat,
    pub level_name: Option<String>,
    pub spawn_point: Option<(i32, i32)>,
}

// ---------------------------------------------------------------------------
// Underground pipes and cables.
// ---------------------------------------------------------------------------

/// What an underground conduit is made of.
#[derive(Clone, Copy, PartialEq, Eq, Structural, Debug)]
pub enum ConduitWall {
    /// Sewage pipes: brick, with water along the bottom.
    Brick,
    /// Power cables and lines.
    CopperBlock,
    /// Any other pipeline.
    SmoothStone,
}

/// How an underground pipeline or power cable is laid.
#[derive(Clone, Copy, PartialEq, Eq, Structural, Debug)]
pub struct UndergroundPlan {
    pub radius: i32,
    /// Height of the centre relative to the ground: six blocks a layer.
    pub depth_offset: i64,
    pub wall: ConduitWall,
    pub has_fluid: bool,
}

/// Rust's `/` on integers, rounding toward zero.
pub open spec fn div_toward_zero(a: int, b: int) -> int {
    if a >= 0 {
        a / b
    } else {
        -((-a) / b)
    }
}

/// The conduit laid under a way: for `man_made=pipeline`, `power=cable` or
/// `power=line` only. Its radius is half its `width` (1 where missing or
/// unreadable), at least 1; its depth six blocks a `layer` (layer -1 where
/// missing or unreadable).
pub open spec fn spec_underground_plan(tags: Map<Seq<char>, Seq<char>>) -> Option<UndergroundPlan> {
    let pipeline = tags.contains_key("man_made"@) && tags["man_made"@] == "pipeline"@;
    let cable = tags.contains_key("power"@) && tags["power"@] == "cable"@;
    let line = tags.contains_key("power"@) && tags["power"@] == "line"@;
    if !pipeline && !cable && !line {
        None
    } else {
        let width: int = if tags.contains_key("width"@) {
            match spec_parse_i32(tags["width"@]) {
                Some(w) => w,
                None => 1,
            }
        } else {
            1
        };
        let half = div_toward_zero(width, 2);
        let layer: int = if tags.contains_key("layer"@) {
            match spec_parse_i32(tags["layer"@]) {
                Some(l) => l,
                None => -1,
            }
        } else {
            -1
        };
        let sewage = tags.contains_key("substance"@) && tags["substance"@] == "sewage"@;
        Some(
            UndergroundPlan {
                radius: if half < 1 { 1 } else { half as i32 },
                depth_offset: (layer * 6) as i64,
                wall: if sewage {
                    ConduitWall::Brick
                } else if cable || line {
                    ConduitWall::CopperBlock
                } else {
                    ConduitWall::SmoothStone
                },
                has_fluid: sewage,
            },
        )
    }
}

/// The conduit to lay under a way, if it is a pipeline or a power cable or line.
pub fn generate_underground_infrastructure(element: &ProcessedWay) -> (p: Option<UndergroundPlan>)
    ensures
        p == spec_underground_plan(element.tags@),
{
    let tags = &element.tags;
    let pipeline = tags.has_value("man_made", "pipeline");
    let cable = tags.has_value("power", "cable");
    let line = tags.has_value("power", "line");
    if !pipeline && !cable && !line {
        return None;
    }
    let width: i32 = match tags.get("width") {
        Some(w) => match parse_i32(w.as_str()) {
            Some(v) => v,
            None => 1,
        },
        None => 1,
    };
    let half: i64 = if width >= 0 {
        (width / 2) as i64
    } else {
        -(((-(width as i64)) / 2))
    };
    let radius: i32 = if half < 1 {
        1
    } else {
        half as i32
    };
    let layer: i64 = match tags.get("layer") {
        Some(l) => match parse_i32(l.as_str()) {
            Some(v) => v as i64,
            None => -1,
        },
        None => -1,
    };
    let sewage = tags.has_value("substance", "sewage");
    let wall = if sewage {
        ConduitWall::Brick
    } else if cable || line {
        ConduitWall::CopperBlock
    } else {
        ConduitWall::SmoothStone
    };
    Some(UndergroundPlan { radius, depth_offset: layer * 6, wall, has_fluid: sewage })
}

/// What lies at offset `(wx, wy)` from the axis of a conduit.
#[derive(Clone, Copy, PartialEq, Eq, Structural, Debug)]
pub enum ConduitCell {
    Outside,
    Wall,
    Fluid,
    Air,
}

/// Cells within `radius` of the axis belong to the conduit; those at least
/// `radius - 1` away are its wall; inside, the row just above the bottom
/// holds the fluid of a sewage pipe, the rest is air.
pub open spec fn spec_conduit_cell(radius: int, wx: int, wy: int, has_fluid: bool) -> ConduitCell {
    let d = wx * wx + wy * wy;
    if d > radius * radius {
        ConduitCell::Outside
    } else if d >= (radius - 1) * (radius - 1) {
        ConduitCell::Wall
    } else if has_fluid && wy == -radius + 1 {
        ConduitCell::Fluid
    } else {
        ConduitCell::Air
    }
}

/// The cell at offset `(wx, wy)` of a conduit's cross-section.
pub fn conduit_cell(radius: i32, wx: i32, wy: i32, has_fluid: bool) -> (c: ConduitCell)
    requires
        1 <= radius,
        2 * radius * radius <= i32::MAX,
        -radius <= wx <= radius,
        -radius <= wy <= radius,
    ensures
        c == spec_conduit_cell(radius as int, wx as int, wy as int, has_fluid),
{
    assert(0 <= wx * wx <= radius * radius && 0 <= wy * wy <= radius * radius && 0 <= (radius - 1)
        * (radius - 1) <= radius * radius && 2 * (radius * radius) <= i32::MAX) by (nonlinear_arith)
        requires
            1 <= radius,
            2 * radius * radius <= i32::MAX,
            -radius <= wx <= radius,
            -radius <= wy <= radius,
    ;
    let d: i64 = (wx as i64) * (wx as i64) + (wy as i64) * (wy as i64);
    let r: i64 = radius as i64;
    if d > r * r {
        ConduitCell::Outside
    } else if d >= (r - 1) * (r - 1) {
        ConduitCell::Wall
    } else if has_fluid && wy == -radius + 1 {
        ConduitCell::Fluid
    } else {
        ConduitCell::Air
    }
}

/// Whether a conduit centred at height `center_y` is too deep to lay: within
/// five blocks of the bottom of the world.
pub fn conduit_too_deep(center_y: i64) -> (b: bool)
    ensures
        b == (center_y < MIN_Y + 5),
{
    center_y < (MIN_Y as i64) + 5
}


// ---------------------------------------------------------------------------
// Base terrain of a region.
// ---------------------------------------------------------------------------

/// The blocks of the base terrain.
#[derive(Clone, Copy, PartialEq, Eq, Structural, Debug)]
pub enum TerrainBlock {
    GrassBlock,
    PolishedAndesite,
    CoarseDirt,
    RedTerracotta,
    Stone,
    Bedrock,
}

/// How a block of the base terrain is laid.
#[derive(Clone, Copy, PartialEq, Eq, Structural, Debug)]
pub enum TerrainPlacement {
    /// At one height, where the block there is air.
    IfAbsent(i32),
    /// Over a range of heights, both ends included.
    Column(i32, i32),
    /// At one height, unless the block there is already bedrock.
    UnlessBedrock(i32),
}

/// The base terrain of one block column at ground height `ground_y`, in the
/// order it is laid: where the ground is not already stone, a surface block
/// (paving in urban areas, else grass) over coarse dirt over red terracotta;
/// with `fillground`, stone from just above the bottom up to three blocks
/// below the ground; and bedrock at the bottom of the world.
pub open spec fn spec_ground_column(
    ground_y: int,
    is_urban: bool,
    stone_at_ground: bool,
    fillground: bool,
) -> Seq<(TerrainBlock, TerrainPlacement)> {
    let surface: Seq<(TerrainBlock, TerrainPlacement)> = if stone_at_ground {
        Seq::empty()
    } else {
        seq![
            (if is_urban {
                TerrainBlock::PolishedAndesite
            } else {
                TerrainBlock::GrassBlock
            }, TerrainPlacement::IfAbsent(ground_y as i32)),
            (TerrainBlock::CoarseDirt, TerrainPlacement::IfAbsent((ground_y - 1) as i32)),
            (TerrainBlock::RedTerracotta, TerrainPlacement::IfAbsent((ground_y - 2) as i32)),
        ]
    };
    let fill: Seq<(TerrainBlock, TerrainPlacement)> = if fillground {
        seq![(TerrainBlock::Stone, TerrainPlacement::Column((MIN_Y + 1) as i32, (ground_y - 3) as i32))]
    } else {
        Seq::empty()
    };
    surface + fill + seq![(TerrainBlock::Bedrock, TerrainPlacement::UnlessBedrock(MIN_Y))]
}

/// The base terrain of one block column.
pub fn ground_column(ground_y: i32, is_urban: bool, stone_at_ground: bool, fillground: bool) -> (v:
    Vec<(TerrainBlock, TerrainPlacement)>)
    requires
        ground_y >= i32::MIN + 3,
    ensures
        v@ == spec_ground_column(ground_y as int, is_urban, stone_at_ground, fillground),
{
    let mut v: Vec<(TerrainBlock, TerrainPlacement)> = Vec::new();
    if !stone_at_ground {
        let surface = if is_urban {
            TerrainBlock::PolishedAndesite
        } else {
            TerrainBlock::GrassBlock
        };
        v.push((surface, TerrainPlacement::IfAbsent(ground_y)));
        v.push((TerrainBlock::CoarseDirt, TerrainPlacement::IfAbsent(ground_y - 1)));
        v.push((TerrainBlock::RedTerracotta, TerrainPlacement::IfAbsent(ground_y - 2)));
    }
    if fillground {
        v.push((TerrainBlock::Stone, TerrainPlacement::Column(MIN_Y + 1, ground_y - 3)));
    }
    v.push((TerrainBlock::Bedrock, TerrainPlacement::UnlessBedrock(MIN_Y)));
    proof {
        assert(v@ =~= spec_ground_column(ground_y as int, is_urban, stone_at_ground, fillground));
    }
    v
}

/// The block columns of chunk `(cx, cz)` that lie in the box: the chunk's
/// sixteen by sixteen blocks cut to the box, as `(min_x, max_x, min_z,
/// max_z)` (empty where a minimum exceeds its maximum).
pub open spec fn spec_chunk_block_bounds(cx: int, cz: int, b: XZBBox) -> (int, int, int, int) {
    let x0 = cx * 16;
    let z0 = cz * 16;
    (
        if x0 >= b.spec_min_x() { x0 } else { b.spec_min_x() },
        if x0 + 15 <= b.spec_max_x() { x0 + 15 } else { b.spec_max_x() },
        if z0 >= b.spec_min_z() { z0 } else { b.spec_min_z() },
        if z0 + 15 <= b.spec_max_z() { z0 + 15 } else { b.spec_max_z() },
    )
}

/// The block columns of a chunk that lie in the box.
pub fn chunk_block_bounds(cx: i32, cz: i32, xzbbox: &XZBBox) -> (r: (i32, i32, i32, i32))
    requires
        i32::MIN <= cx * 16,
        cx * 16 + 15 <= i32::MAX,
        i32::MIN <= cz * 16,
        cz * 16 + 15 <= i32::MAX,
    ensures
        (r.0 as int, r.1 as int, r.2 as int, r.3 as int) == spec_chunk_block_bounds(
            cx as int,
            cz as int,
            *xzbbox,
        ),
{
    let x0: i32 = cx * 16;
    let z0: i32 = cz * 16;
    let bx0 = xzbbox.min_x();
    let bx1 = xzbbox.max_x();
    let bz0 = xzbbox.min_z();
    let bz1 = xzbbox.max_z();
    (
        if x0 >= bx0 { x0 } else { bx0 },
        if x0 + 15 <= bx1 { x0 + 15 } else { bx1 },
        if z0 >= bz0 { z0 } else { bz0 },
        if z0 + 15 <= bz1 { z0 + 15 } else { bz1 },
    )
}

// ---------------------------------------------------------------------------
// The region sweep.
// ---------------------------------------------------------------------------

/// The regions (512 by 512 blocks) the box touches, as
/// `(first x, last x, first z, last z)`.
pub open spec fn spec_region_span(b: XZBBox) -> (int, int, int, int) {
    (b.spec_min_x() / 512, b.spec_max_x() / 512, b.spec_min_z() / 512, b.spec_max_z() / 512)
}

/// The `i`-th region of the sweep over the box: rows of constant z from
/// the first to the last, each row from west to east.
pub open spec fn spec_sweep_region(b: XZBBox, i: int) -> (i32, i32) {
    let (x0, x1, z0, z1) = spec_region_span(b);
    let nx = x1 - x0 + 1;
    ((x0 + i % nx) as i32, (z0 + i / nx) as i32)
}

/// The number of regions the box touches.
pub open spec fn spec_region_count(b: XZBBox) -> int {
    let (x0, x1, z0, z1) = spec_region_span(b);
    (x1 - x0 + 1) * (z1 - z0 + 1)
}

/// The regions to generate, in the order the world is swept: every region
/// the box touches, once each, row by row from the north, each row from the
/// west.
pub fn region_sweep(xzbbox: &XZBBox) -> (v: Vec<(i32, i32)>)
    requires
        spec_region_count(*xzbbox) <= usize::MAX,
    ensures
        v@.len() == spec_region_count(*xzbbox),
        forall|i: int| 0 <= i < v@.len() ==> #[trigger] v@[i] == spec_sweep_region(*xzbbox, i),
        forall|rx: int, rz: int|
            spec_region_span(*xzbbox).0 <= rx <= spec_region_span(*xzbbox).1
                && spec_region_span(*xzbbox).2 <= rz <= spec_region_span(*xzbbox).3 ==> #[trigger] v@.contains(
                (rx as i32, rz as i32),
            ),
        forall|i: int, j: int| 0 <= i < j < v@.len() ==> v@[i] != v@[j],
{
    let x0 = region_index(xzbbox.min_x());
    let x1 = region_index(xzbbox.max_x());
    let z0 = region_index(xzbbox.min_z());
    let z1 = region_index(xzbbox.max_z());
    let ghost nx: int = x1 - x0 + 1;
    let ghost nz: int = z1 - z0 + 1;
    proof {
        assert(x0 <= x1 && z0 <= z1) by {
            vstd::arithmetic::div_mod::lemma_div_is_ordered(
                xzbbox.spec_min_x(),
                xzbbox.spec_max_x(),
                512,
            );
            vstd::arithmetic::div_mod::lemma_div_is_ordered(
                xzbbox.spec_min_z(),
                xzbbox.spec_max_z(),
                512,
            );
        }
    }
    let mut v: Vec<(i32, i32)> = Vec::new();
    let mut rz: i32 = z0;
    while rz <= z1
        invariant
            x0 <= x1,
            z0 <= rz <= z1 + 1,
            nx == x1 - x0 + 1,
            nz == z1 - z0 + 1,
            (x0 as int, x1 as int, z0 as int, z1 as int) == spec_region_span(*xzbbox),
            nx * nz <= usize::MAX,
            v@.len() == (rz - z0) * nx,
            forall|i: int| 0 <= i < v@.len() ==> #[trigger] v@[i] == spec_sweep_region(*xzbbox, i),
        decreases z1 + 1 - rz,
    {
        let mut rx: i32 = x0;
        while rx <= x1
            invariant
                x0 <= x1,
                z0 <= rz <= z1,
                x0 <= rx <= x1 + 1,
                nx == x1 - x0 + 1,
                nz == z1 - z0 + 1,
                (x0 as int, x1 as int, z0 as int, z1 as int) == spec_region_span(*xzbbox),
                nx * nz <= usize::MAX,
                v@.len() == (rz - z0) * nx + (rx - x0),
                forall|i: int| 0 <= i < v@.len() ==> #[trigger] v@[i] == spec_sweep_region(*xzbbox, i),
            decreases x1 + 1 - rx,
        {
            proof {
                let k = (rz - z0) * nx + (rx - x0);
                vstd::arithmetic::div_mod::lemma_fundamental_div_mod_converse(k, nx, rz - z0, rx - x0);
                assert(k < nx * nz) by (nonlinear_arith)
                    requires
                        k == (rz - z0) * nx + (rx - x0),
                        0 <= rx - x0 < nx,
                        0 <= rz - z0 < nz,
                ;
            }
            v.push((rx, rz));
            rx = rx + 1;
        }
        assert((rz - z0) * nx + (rx - x0) == (rz + 1 - z0) * nx) by (nonlinear_arith)
            requires
                rx - x0 == nx,
        ;
        rz = rz + 1;
    }
    assert(v@.len() == nz * nx) by (nonlinear_arith)
        requires
            v@.len() == (rz - z0) * nx,
            rz == z1 + 1,
            nz == z1 - z0 + 1,
    ;
    proof {
        assert forall|rx: int, rz: int|
            x0 <= rx <= x1 && z0 <= rz <= z1 implies #[trigger] v@.contains((rx as i32, rz as i32)) by {
            let k = (rz - z0) * nx + (rx - x0);
            vstd::arithmetic::div_mod::lemma_fundamental_div_mod_converse(k, nx, rz - z0, rx - x0);
            assert(0 <= k < v@.len()) by (nonlinear_arith)
                requires
                    k == (rz - z0) * nx + (rx - x0),
                    0 <= rx - x0 < nx,
                    0 <= rz - z0 < nz,
                    v@.len() == nz * nx,
            ;
            assert(v@[k] == (rx as i32, rz as i32));
        }
        assert forall|i: int, j: int| 0 <= i < j < v@.len() implies v@[i] != v@[j] by {
            vstd::arithmetic::div_mod::lemma_fundamental_div_mod(i, nx);
            vstd::arithmetic::div_mod::lemma_fundamental_div_mod(j, nx);
            vstd::arithmetic::div_mod::lemma_mod_bound(i, nx);
            vstd::arithmetic::div_mod::lemma_mod_bound(j, nx);
            let (qi, qj) = (i / nx, j / nx);
            assert(0 <= qi < nz && 0 <= qj < nz) by (nonlinear_arith)
                requires
                    i == nx * qi + i % nx,
                    j == nx * qj + j % nx,
                    0 <= i % nx < nx,
                    0 <= j % nx < nx,
                    0 <= i < nz * nx,
                    0 <= j < nz * nx,
            ;
            assert(v@[i] == spec_sweep_region(*xzbbox, i));
            assert(v@[j] == spec_sweep_region(*xzbbox, j));
            if i % nx == j % nx && i / nx == j / nx {
                assert(i == nx * (i / nx) + i % nx);
                assert(j == nx * (j / nx) + j % nx);
            }
        }
    }
    v
}

/// Whether region `r` is one the box touches.
pub open spec fn in_region_span(b: XZBBox, r: (i32, i32)) -> bool {
    let (x0, x1, z0, z1) = spec_region_span(b);
    x0 <= r.0 <= x1 && z0 <= r.1 <= z1
}

/// The sweep over the box as a sequence of regions.
pub open spec fn spec_sweep(b: XZBBox) -> Seq<(i32, i32)> {
    Seq::new(spec_region_count(b) as nat, |i: int| spec_sweep_region(b, i))
}

/// The sweep over a box holds each region the box touches exactly once,
/// and no other.
pub proof fn lemma_sweep_covers_once(b: XZBBox)
    requires
        b.spec_min_x() <= b.spec_max_x(),
        b.spec_min_z() <= b.spec_max_z(),
    ensures
        forall|i: int| 0 <= i < spec_sweep(b).len() ==> in_region_span(b, #[trigger] spec_sweep(b)[i]),
        forall|i: int, j: int|
            0 <= i < j < spec_sweep(b).len() ==> spec_sweep(b)[i] != spec_sweep(b)[j],
        forall|r: (i32, i32)| in_region_span(b, r) ==> #[trigger] spec_sweep(b).contains(r),
{
    let (x0, x1, z0, z1) = spec_region_span(b);
    vstd::arithmetic::div_mod::lemma_div_is_ordered(b.spec_min_x(), b.spec_max_x(), 512);
    vstd::arithmetic::div_mod::lemma_div_is_ordered(b.spec_min_z(), b.spec_max_z(), 512);
    let nx = x1 - x0 + 1;
    let nz = z1 - z0 + 1;
    let sw = spec_sweep(b);
    assert(0 <= nx * nz) by (nonlinear_arith)
        requires
            nx >= 1,
            nz >= 1,
    ;
    assert(sw.len() == nx * nz);
    assert(i32::MIN / 512 <= x0 && x1 <= i32::MAX / 512 && i32::MIN / 512 <= z0 && z1 <= i32::MAX
        / 512) by {
        vstd::arithmetic::div_mod::lemma_div_is_ordered(i32::MIN as int, b.spec_min_x(), 512);
        vstd::arithmetic::div_mod::lemma_div_is_ordered(b.spec_max_x(), i32::MAX as int, 512);
        vstd::arithmetic::div_mod::lemma_div_is_ordered(i32::MIN as int, b.spec_min_z(), 512);
        vstd::arithmetic::div_mod::lemma_div_is_ordered(b.spec_max_z(), i32::MAX as int, 512);
    }
    assert forall|i: int| 0 <= i < sw.len() implies in_region_span(b, #[trigger] sw[i])
        && sw[i] == ((x0 + i % nx) as i32, (z0 + i / nx) as i32) && 0 <= i % nx < nx && 0 <= i / nx
        < nz by {
        vstd::arithmetic::div_mod::lemma_fundamental_div_mod(i, nx);
        vstd::arithmetic::div_mod::lemma_mod_bound(i, nx);
        let q = i / nx;
        assert(0 <= q < nz) by (nonlinear_arith)
            requires
                i == nx * q + i % nx,
                0 <= i % nx < nx,
                0 <= i < nz * nx,
        ;
    }
    assert forall|i: int, j: int| 0 <= i < j < sw.len() implies sw[i] != sw[j] by {
        assert(in_region_span(b, sw[i]) && in_region_span(b, sw[j]));
        vstd::arithmetic::div_mod::lemma_fundamental_div_mod(i, nx);
        vstd::arithmetic::div_mod::lemma_fundamental_div_mod(j, nx);
        if i % nx == j % nx && i / nx == j / nx {
            assert(i == nx * (i / nx) + i % nx);
            assert(j == nx * (j / nx) + j % nx);
        }
    }
    assert forall|r: (i32, i32)| in_region_span(b, r) implies #[trigger] sw.contains(r) by {
        let k = (r.1 - z0) * nx + (r.0 - x0);
        vstd::arithmetic::div_mod::lemma_fundamental_div_mod_converse(k, nx, r.1 - z0, r.0 - x0);
        assert(0 <= k < sw.len()) by (nonlinear_arith)
            requires
                k == (r.1 - z0) * nx + (r.0 - x0),
                0 <= r.0 - x0 < nx,
                0 <= r.1 - z0 < nz,
                sw.len() == nz * nx,
        ;
        assert(sw[k] == r);
    }
}

/// The chunks of region `r` along one axis: 32 of them, from `32 r`.
pub fn region_chunk_span(r: i32) -> (s: (i32, i32))
    requires
        i32::MIN / 512 <= r <= i32::MAX / 512,
    ensures
        s.0 == 32 * r,
        s.1 == 32 * r + 31,
{
    (r * 32, r * 32 + 31)
}

// ---------------------------------------------------------------------------
// Element routing.
// ---------------------------------------------------------------------------

/// The position an element is indexed by: a node's own position, the average
/// of a way's nodes, or of the nodes of a relation's first member; `(0, 0)`
/// where there is no node. Averages round toward zero.
pub open spec fn spec_element_position(e: ProcessedElement) -> (i32, i32) {
    match e {
        ProcessedElement::Node(n) => (n.x, n.z),
        ProcessedElement::Way(w) => match spec_centroid(way_ring(&*w)) {
            Some(c) => c,
            None => (0, 0),
        },
        ProcessedElement::Relation(r) => if r.members@.len() > 0 {
            match spec_centroid(way_ring(&*r.members@[0].way)) {
                Some(c) => c,
                None => (0, 0),
            }
        } else {
            (0, 0)
        },
    }
}

/// The position an element is indexed by.
pub fn get_element_centroid(element: &ProcessedElement) -> (c: (i32, i32))
    ensures
        c == spec_element_position(*element),
{
    match element {
        ProcessedElement::Node(n) => (n.x, n.z),
        ProcessedElement::Way(w) => {
            let pts = way_points_of(w);
            match compute_centroid(pts.as_slice()) {
                Some(c) => c,
                None => (0, 0),
            }
        },
        ProcessedElement::Relation(r) => {
            if r.members.len() > 0 {
                let pts = way_points_of(&r.members[0].way);
                match compute_centroid(pts.as_slice()) {
                    Some(c) => c,
                    None => (0, 0),
                }
            } else {
                (0, 0)
            }
        },
    }
}

/// The region an element is generated with: the region of its position.
pub open spec fn spec_element_region(e: ProcessedElement) -> (i32, i32) {
    let p = spec_element_position(e);
    ((p.0 / 512) as i32, (p.1 / 512) as i32)
}

/// `m` with `i` appended to the list of `k`.
pub open spec fn push_index(m: Map<(i32, i32), Seq<usize>>, k: (i32, i32), i: usize) -> Map<
    (i32, i32),
    Seq<usize>,
> {
    m.insert(
        k,
        (if m.contains_key(k) {
            m[k]
        } else {
            Seq::empty()
        }).push(i),
    )
}

/// The spatial index of the first `n` elements: each region's list holds,
/// in order, the indices of the elements generated with it.
pub open spec fn spec_spatial_index(elems: Seq<ProcessedElement>, n: int) -> Map<(i32, i32), Seq<usize>>
    decreases n,
{
    if n <= 0 {
        Map::empty()
    } else {
        push_index(spec_spatial_index(elems, n - 1), spec_element_region(elems[n - 1]), (n - 1) as usize)
    }
}

/// The lists of a spatial index, by their contents.
pub open spec fn index_view(m: Map<(i32, i32), Vec<usize>>) -> Map<(i32, i32), Seq<usize>> {
    m.map_values(|v: Vec<usize>| v@)
}

/// The lists of an index over the first `n` elements hold, for each
/// region, exactly the elements of that region, each once and in order.
pub open spec fn index_sound(m: Map<(i32, i32), Seq<usize>>, elems: Seq<ProcessedElement>, n: int) -> bool {
    &&& forall|r: (i32, i32), j: int|
        m.contains_key(r) && 0 <= j < m[r].len() ==> #[trigger] m[r][j] < n
            && spec_element_region(elems[m[r][j] as int]) == r
    &&& forall|r: (i32, i32), j1: int, j2: int|
        m.contains_key(r) && 0 <= j1 < j2 < m[r].len() ==> #[trigger] m[r][j1] < #[trigger] m[r][j2]
    &&& forall|k: int|
        0 <= k < n ==> m.contains_key(#[trigger] spec_element_region(elems[k])) && m[spec_element_region(
            elems[k],
        )].contains(k as usize)
}

proof fn lemma_index_sound(elems: Seq<ProcessedElement>, n: int)
    requires
        0 <= n <= elems.len(),
        elems.len() <= usize::MAX,
    ensures
        index_sound(spec_spatial_index(elems, n), elems, n),
    decreases n,
{
    if n > 0 {
        lemma_index_sound(elems, n - 1);
        let prev = spec_spatial_index(elems, n - 1);
        let r0 = spec_element_region(elems[n - 1]);
        let m = spec_spatial_index(elems, n);
        assert(m == push_index(prev, r0, (n - 1) as usize));
        let old_list = if prev.contains_key(r0) { prev[r0] } else { Seq::<usize>::empty() };
        assert(m[r0] == old_list.push((n - 1) as usize));
        assert forall|k: int| 0 <= k < n implies m.contains_key(
            #[trigger] spec_element_region(elems[k]),
        ) && m[spec_element_region(elems[k])].contains(k as usize) by {
            if k < n - 1 {
                let rk = spec_element_region(elems[k]);
                let w = choose|w: int| 0 <= w < prev[rk].len() && prev[rk][w] == k as usize;
                assert(m[rk][w] == k as usize);
            } else {
                assert(m[r0][old_list.len() as int] == (n - 1) as usize);
            }
        }
    }
}

/// How many times element `k` is generated when the regions `regions` are
/// swept in turn, each generating the elements of its list in `m`.
pub open spec fn times_generated(m: Map<(i32, i32), Seq<usize>>, regions: Seq<(i32, i32)>, k: usize) -> nat
    decreases regions.len(),
{
    if regions.len() == 0 {
        0
    } else {
        times_generated(m, regions.drop_last(), k) + (if m.contains_key(regions.last())
            && m[regions.last()].contains(k) {
            1nat
        } else {
            0nat
        })
    }
}

proof fn lemma_times_generated(
    m: Map<(i32, i32), Seq<usize>>,
    elems: Seq<ProcessedElement>,
    n: int,
    regions: Seq<(i32, i32)>,
    k: int,
)
    requires
        index_sound(m, elems, n),
        0 <= k < n,
        forall|i: int, j: int| 0 <= i < j < regions.len() ==> regions[i] != regions[j],
    ensures
        times_generated(m, regions, k as usize) == (if regions.contains(spec_element_region(elems[k])) {
            1nat
        } else {
            0nat
        }),
    decreases regions.len(),
{
    let rk = spec_element_region(elems[k]);
    assert(m.contains_key(rk) && m[rk].contains(k as usize));
    if regions.len() > 0 {
        let front = regions.drop_last();
        assert forall|i: int, j: int| 0 <= i < j < front.len() implies front[i] != front[j] by {
            assert(front[i] == regions[i] && front[j] == regions[j]);
        }
        lemma_times_generated(m, elems, n, front, k);
        let last = regions.last();
        if m.contains_key(last) && m[last].contains(k as usize) {
            let w = choose|w: int| 0 <= w < m[last].len() && m[last][w] == k as usize;
            assert(spec_element_region(elems[m[last][w] as int]) == last);
            assert(last == rk);
            if front.contains(rk) {
                let i = choose|i: int| 0 <= i < front.len() && front[i] == rk;
                assert(regions[i] == regions[regions.len() - 1]);
            }
            assert(regions.contains(rk)) by {
                assert(regions[regions.len() - 1] == rk);
            }
        } else {
            assert(last != rk);
            if regions.contains(rk) {
                let i = choose|i: int| 0 <= i < regions.len() && regions[i] == rk;
                assert(i != regions.len() - 1);
                assert(front[i] == rk);
            }
            if front.contains(rk) {
                let i = choose|i: int| 0 <= i < front.len() && front[i] == rk;
                assert(regions[i] == rk);
            }
        }
    }
}

/// Generating a world element by element, region by region, generates each
/// element whose region the box touches exactly once, and every other
/// element never: the spatial index lists each element once, under its own
/// region, and the sweep visits each region of the box once.
pub proof fn lemma_each_element_generated_once(elems: Seq<ProcessedElement>, b: XZBBox, k: int)
    requires
        0 <= k < elems.len(),
        elems.len() <= usize::MAX,
        b.spec_min_x() <= b.spec_max_x(),
        b.spec_min_z() <= b.spec_max_z(),
    ensures
        times_generated(spec_spatial_index(elems, elems.len() as int), spec_sweep(b), k as usize) == (
        if in_region_span(b, spec_element_region(elems[k])) {
            1nat
        } else {
            0nat
        }),
{
    let n = elems.len() as int;
    lemma_index_sound(elems, n);
    lemma_sweep_covers_once(b);
    lemma_times_generated(spec_spatial_index(elems, n), elems, n, spec_sweep(b), k);
    let rk = spec_element_region(elems[k]);
    if spec_sweep(b).contains(rk) {
        let i = choose|i: int| 0 <= i < spec_sweep(b).len() && spec_sweep(b)[i] == rk;
        assert(in_region_span(b, spec_sweep(b)[i]));
    }
}

/// Groups the elements by the region they are generated with; each region
/// keeps the indices of its elements in the order they came in.
pub fn build_spatial_index(elements: &[ProcessedElement]) -> (m: CoordMap<Vec<usize>>)
    ensures
        index_view(m@) == spec_spatial_index(elements@, elements@.len() as int),
{
    let mut map: CoordMap<Vec<usize>> = CoordMap::new();
    assert(index_view(map@) =~= spec_spatial_index(elements@, 0));
    let mut i: usize = 0;
    while i < elements.len()
        invariant
            0 <= i <= elements@.len(),
            index_view(map@) == spec_spatial_index(elements@, i as int),
        decreases elements@.len() - i,
    {
        let (cx, cz) = get_element_centroid(&elements[i]);
        let key = (region_index(cx), region_index(cz));
        let ghost before = map@;
        map.push_value(key, i);
        assert(index_view(map@) =~= push_index(index_view(before), key, i));
        i = i + 1;
    }
    map
}

/// `e` is a building relation (`type=building`) with a `part` member, and
/// way `id` is one of its outer members.
pub open spec fn spec_relation_suppresses(e: ProcessedElement, id: u64) -> bool {
    match e {
        ProcessedElement::Relation(r) => {
            &&& r.tags@.contains_key("type"@) && r.tags@["type"@] == "building"@
            &&& exists|k: int|
                0 <= k < r.members@.len() && (#[trigger] r.members@[k]).role
                    == ProcessedMemberRole::Part
            &&& exists|j: int|
                0 <= j < r.members@.len() && (#[trigger] r.members@[j]).role
                    == ProcessedMemberRole::Outer && r.members@[j].way.id == id
        },
        _ => false,
    }
}

/// Whether way `id` is an outline that a building relation among the first
/// `n` elements draws instead.
pub open spec fn spec_outline_suppressed(elems: Seq<ProcessedElement>, n: int, id: u64) -> bool {
    exists|a: int| 0 <= a < n && spec_relation_suppresses(#[trigger] elems[a], id)
}

/// Adds to `ids` the outer ways of `e` if it is a building relation with a part.
fn add_suppressed_outlines(e: &ProcessedElement, ids: &mut HashSet<u64>)
    ensures
        forall|x: u64|
            final(ids)@.contains(x) <==> (old(ids)@.contains(x) || spec_relation_suppresses(*e, x)),
{
    broadcast use vstd::std_specs::hash::group_hash_axioms;

    if let ProcessedElement::Relation(rel) = e {
        if rel.tags.has_value("type", "building") {
            let mut has_part = false;
            let mut k: usize = 0;
            while k < rel.members.len()
                invariant
                    0 <= k <= rel.members@.len(),
                    has_part == exists|q: int|
                        0 <= q < k && (#[trigger] rel.members@[q]).role == ProcessedMemberRole::Part,
                decreases rel.members@.len() - k,
            {
                if rel.members[k].role == ProcessedMemberRole::Part {
                    has_part = true;
                }
                k = k + 1;
            }
            if has_part {
                let mut k: usize = 0;
                while k < rel.members.len()
                    invariant
                        0 <= k <= rel.members@.len(),
                        forall|x: u64|
                            ids@.contains(x) <==> (old(ids)@.contains(x) || exists|q: int|
                                0 <= q < k && (#[trigger] rel.members@[q]).role
                                    == ProcessedMemberRole::Outer && rel.members@[q].way.id == x),
                    decreases rel.members@.len() - k,
                {
                    let ghost start = ids@;
                    if rel.members[k].role == ProcessedMemberRole::Outer {
                        let id = rel.members[k].way.id;
                        ids.insert(id);
                    }
                    proof {
                        assert forall|x: u64| ids@.contains(x) <==> (old(ids)@.contains(x)
                            || exists|q: int|
                            0 <= q < k + 1 && (#[trigger] rel.members@[q]).role
                                == ProcessedMemberRole::Outer && rel.members@[q].way.id == x) by {
                            if exists|q: int|
                                0 <= q < k + 1 && (#[trigger] rel.members@[q]).role
                                    == ProcessedMemberRole::Outer && rel.members@[q].way.id == x {
                                let q = choose|q: int|
                                    0 <= q < k + 1 && (#[trigger] rel.members@[q]).role
                                        == ProcessedMemberRole::Outer && rel.members@[q].way.id
                                        == x;
                                if q < k {
                                    assert(start.contains(x));
                                }
                            }
                            if start.contains(x) && !old(ids)@.contains(x) {
                                let q = choose|q: int|
                                    0 <= q < k && (#[trigger] rel.members@[q]).role
                                        == ProcessedMemberRole::Outer && rel.members@[q].way.id
                                        == x;
                                assert(0 <= q < k + 1);
                            }
                            if ids@.contains(x) && !start.contains(x) {
                                assert(rel.members@[k as int].role == ProcessedMemberRole::Outer
                                    && rel.members@[k as int].way.id == x);
                            }
                        }
                    }
                    k = k + 1;
                }
            }
        }
    }
}

/// The ids of the building outlines that their relations draw instead.
pub fn suppressed_building_outlines(elements: &[ProcessedElement]) -> (ids: HashSet<u64>)
    ensures
        forall|id: u64|
            ids@.contains(id) <==> spec_outline_suppressed(elements@, elements@.len() as int, id),
{
    broadcast use vstd::std_specs::hash::group_hash_axioms;
    let mut ids: HashSet<u64> = HashSet::new();
    let mut i: usize = 0;
    while i < elements.len()
        invariant
            0 <= i <= elements@.len(),
            forall|id: u64| ids@.contains(id) <==> spec_outline_suppressed(elements@, i as int, id),
        decreases elements@.len() - i,
    {
        add_suppressed_outlines(&elements[i], &mut ids);
        proof {
            assert forall|id: u64| ids@.contains(id) <==> spec_outline_suppressed(
                elements@,
                i + 1,
                id,
            ) by {
                if spec_outline_suppressed(elements@, i + 1, id) {
                    let a = choose|a: int|
                        0 <= a < i + 1 && spec_relation_suppresses(#[trigger] elements@[a], id);
                    if a < i {
                        assert(spec_outline_suppressed(elements@, i as int, id));
                    }
                }
                if spec_relation_suppresses(elements@[i as int], id) {
                    assert(spec_outline_suppressed(elements@, i + 1, id));
                }
                if spec_outline_suppressed(elements@, i as int, id) {
                    let a = choose|a: int|
                        0 <= a < i && spec_relation_suppresses(#[trigger] elements@[a], id);
                    assert(spec_outline_suppressed(elements@, i + 1, id));
                }
            }
        }
        i = i + 1;
    }
    ids
}


/// The generator an element is handed to.
#[derive(Clone, Copy, PartialEq, Eq, Structural, Debug)]
pub enum Generator {
    Buildings,
    Highways,
    Landuse,
    Natural,
    Amenities,
    Leisure,
    Barriers,
    WaterAreaFromWay,
    Waterways,
    Railways,
    RollerCoaster,
    Aeroway,
    Siding,
    Pyramid,
    ManMade,
    Place,
    Doors,
    BarrierNodes,
    Tourisms,
    ManMadeNodes,
    PowerNodes,
    Historic,
    Emergency,
    Advertising,
    BuildingFromRelation,
    WaterAreasFromRelation,
    NaturalFromRelation,
    LanduseFromRelation,
    LeisureFromRelation,
    Nothing,
}

pub open spec fn has(tags: Map<Seq<char>, Seq<char>>, k: Seq<char>) -> bool {
    tags.contains_key(k)
}

pub open spec fn has_value(tags: Map<Seq<char>, Seq<char>>, k: Seq<char>, v: Seq<char>) -> bool {
    tags.contains_key(k) && tags[k] == v
}

/// The generator of a way; `suppressed` tells whether its building outline is
/// drawn by a relation. The first key present decides.
pub open spec fn spec_way_generator(t: Map<Seq<char>, Seq<char>>, suppressed: bool) -> Generator {
    if has(t, "building"@) || has(t, "building:part"@) {
        if suppressed { Generator::Nothing } else { Generator::Buildings }
    } else if has(t, "highway"@) {
        Generator::Highways
    } else if has(t, "landuse"@) {
        Generator::Landuse
    } else if has(t, "natural"@) {
        Generator::Natural
    } else if has(t, "amenity"@) {
        Generator::Amenities
    } else if has(t, "leisure"@) {
        Generator::Leisure
    } else if has(t, "barrier"@) {
        Generator::Barriers
    } else if has(t, "waterway"@) {
        if t["waterway"@] == "dock"@ { Generator::WaterAreaFromWay } else { Generator::Waterways }
    } else if has(t, "railway"@) {
        Generator::Railways
    } else if has(t, "roller_coaster"@) {
        Generator::RollerCoaster
    } else if has(t, "aeroway"@) || has(t, "area:aeroway"@) {
        Generator::Aeroway
    } else if has_value(t, "service"@, "siding"@) {
        Generator::Siding
    } else if has_value(t, "tomb"@, "pyramid"@) {
        Generator::Pyramid
    } else if has(t, "man_made"@) && !has_value(t, "man_made"@, "pipeline"@) {
        Generator::ManMade
    } else if has(t, "place"@) {
        Generator::Place
    } else {
        Generator::Nothing
    }
}

/// The generator of a node.
pub open spec fn spec_node_generator(t: Map<Seq<char>, Seq<char>>) -> Generator {
    if has(t, "door"@) || has(t, "entrance"@) {
        Generator::Doors
    } else if has_value(t, "natural"@, "tree"@) {
        Generator::Natural
    } else if has(t, "amenity"@) {
        Generator::Amenities
    } else if has(t, "barrier"@) {
        Generator::BarrierNodes
    } else if has(t, "highway"@) {
        Generator::Highways
    } else if has(t, "tourism"@) {
        Generator::Tourisms
    } else if has(t, "man_made"@) {
        Generator::ManMadeNodes
    } else if has(t, "power"@) {
        Generator::PowerNodes
    } else if has(t, "historic"@) {
        Generator::Historic
    } else if has(t, "emergency"@) {
        Generator::Emergency
    } else if has(t, "advertising"@) {
        Generator::Advertising
    } else {
        Generator::Nothing
    }
}

/// The generator of a relation.
pub open spec fn spec_relation_generator(t: Map<Seq<char>, Seq<char>>) -> Generator {
    if has(t, "building"@) || has(t, "building:part"@) || has_value(t, "type"@, "building"@) {
        Generator::BuildingFromRelation
    } else if has(t, "water"@) || has_value(t, "natural"@, "water"@) || has_value(
        t,
        "natural"@,
        "bay"@,
    ) {
        Generator::WaterAreasFromRelation
    } else if has(t, "natural"@) {
        Generator::NaturalFromRelation
    } else if has(t, "landuse"@) {
        Generator::LanduseFromRelation
    } else if has_value(t, "leisure"@, "park"@) {
        Generator::LeisureFromRelation
    } else {
        Generator::Nothing
    }
}

/// Where an element goes: its generator, and for ways whether an underground
/// conduit is also laid (ways with a `man_made` or `power` tag).
pub open spec fn spec_dispatch(e: ProcessedElement, suppressed: Set<u64>) -> (Generator, bool) {
    match e {
        ProcessedElement::Way(w) => (
            spec_way_generator(w.tags@, suppressed.contains(w.id)),
            has(w.tags@, "man_made"@) || has(w.tags@, "power"@),
        ),
        ProcessedElement::Node(n) => (spec_node_generator(n.tags@), false),
        ProcessedElement::Relation(r) => (spec_relation_generator(r.tags@), false),
    }
}


fn way_generator(t: &Tags, suppressed: bool) -> (g: Generator)
    ensures
        g == spec_way_generator(t@, suppressed),
{
    if t.contains_key("building") || t.contains_key("building:part") {
        if suppressed { Generator::Nothing } else { Generator::Buildings }
    } else if t.contains_key("highway") {
        Generator::Highways
    } else if t.contains_key("landuse") {
        Generator::Landuse
    } else if t.contains_key("natural") {
        Generator::Natural
    } else if t.contains_key("amenity") {
        Generator::Amenities
    } else if t.contains_key("leisure") {
        Generator::Leisure
    } else if t.contains_key("barrier") {
        Generator::Barriers
    } else if t.contains_key("waterway") {
        if t.has_value("waterway", "dock") { Generator::WaterAreaFromWay } else { Generator::Waterways }
    } else if t.contains_key("railway") {
        Generator::Railways
    } else if t.contains_key("roller_coaster") {
        Generator::RollerCoaster
    } else if t.contains_key("aeroway") || t.contains_key("area:aeroway") {
        Generator::Aeroway
    } else if t.has_value("service", "siding") {
        Generator::Siding
    } else if t.has_value("tomb", "pyramid") {
        Generator::Pyramid
    } else if t.contains_key("man_made") && !t.has_value("man_made", "pipeline") {
        Generator::ManMade
    } else if t.contains_key("place") {
        Generator::Place
    } else {
        Generator::Nothing
    }
}

fn node_generator(t: &Tags) -> (g: Generator)
    ensures
        g == spec_node_generator(t@),
{
    if t.contains_key("door") || t.contains_key("entrance") {
        Generator::Doors
    } else if t.has_value("natural", "tree") {
        Generator::Natural
    } else if t.contains_key("amenity") {
        Generator::Amenities
    } else if t.contains_key("barrier") {
        Generator::BarrierNodes
    } else if t.contains_key("highway") {
        Generator::Highways
    } else if t.contains_key("tourism") {
        Generator::Tourisms
    } else if t.contains_key("man_made") {
        Generator::ManMadeNodes
    } else if t.contains_key("power") {
        Generator::PowerNodes
    } else if t.contains_key("historic") {
        Generator::Historic
    } else if t.contains_key("emergency") {
        Generator::Emergency
    } else if t.contains_key("advertising") {
        Generator::Advertising
    } else {
        Generator::Nothing
    }
}

fn relation_generator(t: &Tags) -> (g: Generator)
    ensures
        g == spec_relation_generator(t@),
{
    if t.contains_key("building") || t.contains_key("building:part") || t.has_value(
        "type",
        "building",
    ) {
        Generator::BuildingFromRelation
    } else if t.contains_key("water") || t.has_value("natural", "water") || t.has_value(
        "natural",
        "bay",
    ) {
        Generator::WaterAreasFromRelation
    } else if t.contains_key("natural") {
        Generator::NaturalFromRelation
    } else if t.contains_key("landuse") {
        Generator::LanduseFromRelation
    } else if t.has_value("leisure", "park") {
        Generator::LeisureFromRelation
    } else {
        Generator::Nothing
    }
}

/// Routes an element: the generator it is handed to and, for a way, whether
/// an underground conduit may be laid under it.
pub fn dispatch_element(element: &ProcessedElement, suppressed: &HashSet<u64>) -> (r: (Generator, bool))
    ensures
        r == spec_dispatch(*element, suppressed@),
{
    broadcast use vstd::std_specs::hash::group_hash_axioms;

    match element {
        ProcessedElement::Way(w) => {
            let s = suppressed.contains(&w.id);
            (
                way_generator(&w.tags, s),
                w.tags.contains_key("man_made") || w.tags.contains_key("power"),
            )
        },
        ProcessedElement::Node(n) => (node_generator(&n.tags), false),
        ProcessedElement::Relation(r) => (relation_generator(&r.tags), false),
    }
}

// ---------------------------------------------------------------------------
// Map preview.
// ---------------------------------------------------------------------------

/// Where a generated world lies, for its map preview.
pub struct MapPreviewInfo {
    pub world_path: PathBuf,
    pub min_x: i32,
    pub max_x: i32,
    pub min_z: i32,
    pub max_z: i32,
    pub world_area: i64,
}

impl MapPreviewInfo {
    /// The preview of a world at `world_path` covering `xzbbox`; its area is
    /// the product of the box's extents (each the difference of its bounds).
    pub fn new(world_path: PathBuf, xzbbox: &XZBBox) -> (info: Self)
        requires
            xzbbox.spec_max_x() - xzbbox.spec_min_x() <= i32::MAX,
            xzbbox.spec_max_z() - xzbbox.spec_min_z() <= i32::MAX,
        ensures
            info.world_path == world_path,
            info.min_x == xzbbox.spec_min_x(),
            info.max_x == xzbbox.spec_max_x(),
            info.min_z == xzbbox.spec_min_z(),
            info.max_z == xzbbox.spec_max_z(),
            info.world_area == (xzbbox.spec_max_x() - xzbbox.spec_min_x()) * (xzbbox.spec_max_z()
                - xzbbox.spec_min_z()),
    {
        let width = (xzbbox.max_x() - xzbbox.min_x()) as i64;
        let height = (xzbbox.max_z() - xzbbox.min_z()) as i64;
        assert(0 <= width * height <= 0x7fff_ffff * 0x7fff_ffff) by (nonlinear_arith)
            requires
                0 <= width <= 0x7fff_ffff,
                0 <= height <= 0x7fff_ffff,
        ;
        MapPreviewInfo {
            world_path,
            min_x: xzbbox.min_x(),
            max_x: xzbbox.max_x(),
            min_z: xzbbox.min_z(),
            max_z: xzbbox.max_z(),
            world_area: width * height,
        }
    }

    /// Whether the preview is drawn: worlds larger than
    /// `MAX_MAP_PREVIEW_AREA` get none.
    pub fn preview_allowed(&self) -> (b: bool)
        ensures
            b == (self.world_area <= MAX_MAP_PREVIEW_AREA),
    {
        self.world_area <= MAX_MAP_PREVIEW_AREA
    }
}

/// A way is routed by the first of its tags that a generator claims: a
/// building (or building part) to the buildings (unless its relation draws
/// it), else a highway to the highways, else a land use to the land uses,
/// else a natural feature to the natural generator; and a way may carry a
/// conduit exactly when it is man-made or a power line.
pub proof fn lemma_way_routing(e: ProcessedElement, suppressed: Set<u64>)
    requires
        e is Way,
    ensures
        ({
            let t = e->Way_0.tags@;
            let r = spec_dispatch(e, suppressed);
            &&& (t.contains_key("building"@) || t.contains_key("building:part"@)) ==> r.0 == (if suppressed.contains(e->Way_0.id) {
                Generator::Nothing
            } else {
                Generator::Buildings
            })
            &&& (!t.contains_key("building"@) && !t.contains_key("building:part"@) && t.contains_key("highway"@)) ==> r.0 == Generator::Highways
            &&& (!t.contains_key("building"@) && !t.contains_key("building:part"@) && !t.contains_key("highway"@) && t.contains_key("landuse"@)) ==> r.0 == Generator::Landuse
            &&& (!t.contains_key("building"@) && !t.contains_key("building:part"@) && !t.contains_key("highway"@) && !t.contains_key("landuse"@) && t.contains_key("natural"@)) ==> r.0 == Generator::Natural
            &&& r.1 == (t.contains_key("man_made"@) || t.contains_key("power"@))
        }),
{
}

} // verus!
