//! Rivers, streams and ditches: the channel of each kind of waterway, the
//! width read from the tags, and the zones of a channel's cross-section.

use vstd::prelude::*;
use crate::osm_parser::ProcessedWay;
use crate::text::{parse_i32, spec_parse_i32, str_eq};

verus! {

/// Width and depth of the channel of a kind of waterway.
pub open spec fn spec_waterway_dimensions(kind: Seq<char>) -> (i32, i32) {
    if kind == "river"@ {
        (24, 5)
    } else if kind == "canal"@ {
        (12, 3)
    } else if kind == "stream"@ {
        (7, 2)
    } else if kind == "fairway"@ {
        (20, 5)
    } else if kind == "flowline"@ {
        (3, 1)
    } else if kind == "brook"@ {
        (4, 1)
    } else if kind == "ditch"@ {
        (3, 1)
    } else if kind == "drain"@ {
        (2, 1)
    } else {
        (6, 2)
    }
}

/// Width and depth of the channel of a kind of waterway.
pub fn get_waterway_dimensions(waterway_type: &str) -> (r: (i32, i32))
    ensures
        r == spec_waterway_dimensions(waterway_type@),
{
    if str_eq(waterway_type, "river") {
        (24, 5)
    } else if str_eq(waterway_type, "canal") {
        (12, 3)
    } else if str_eq(waterway_type, "stream") {
        (7, 2)
    } else if str_eq(waterway_type, "fairway") {
        (20, 5)
    } else if str_eq(waterway_type, "flowline") {
        (3, 1)
    } else if str_eq(waterway_type, "brook") {
        (4, 1)
    } else if str_eq(waterway_type, "ditch") {
        (3, 1)
    } else if str_eq(waterway_type, "drain") {
        (2, 1)
    } else {
        (6, 2)
    }
}

/// The channel a waterway is dug with.
#[derive(Clone, Copy, PartialEq, Eq, Structural, Debug)]
pub struct WaterwayChannel {
    pub width: i32,
    pub depth: i32,
    /// The `width` tag is present but no integer: it is read as a decimal,
    /// truncated, with `width` as the fallback.
    pub decimal_width: bool,
}

/// The channel of a waterway of `n` nodes: none without a `waterway` tag,
/// on layer `-1`, `-2` or `-3`, or with fewer than two nodes (no segment to
/// dig along); else the dimensions of its kind, the width replaced by an
/// integer `width` tag.
pub open spec fn spec_waterway_channel(tags: Map<Seq<char>, Seq<char>>, n: int) -> Option<
    WaterwayChannel,
> {
    if !tags.contains_key("waterway"@) {
        None
    } else if n < 2 {
        None
    } else if tags.contains_key("layer"@) && (tags["layer"@] == "-1"@ || tags["layer"@] == "-2"@
        || tags["layer"@] == "-3"@) {
        None
    } else {
        let d = spec_waterway_dimensions(tags["waterway"@]);
        if tags.contains_key("width"@) {
            match spec_parse_i32(tags["width"@]) {
                Some(w) => Some(WaterwayChannel { width: w as i32, depth: d.1, decimal_width: false }),
                None => Some(WaterwayChannel { width: d.0, depth: d.1, decimal_width: true }),
            }
        } else {
            Some(WaterwayChannel { width: d.0, depth: d.1, decimal_width: false })
        }
    }
}

/// The channel a waterway is dug with, if any.
pub fn generate_waterways(element: &ProcessedWay) -> (c: Option<WaterwayChannel>)
    ensures
        c == spec_waterway_channel(element.tags@, element.nodes@.len() as int),
{
    let tags = &element.tags;
    let kind = match tags.get("waterway") {
        Some(k) => k,
        None => return None,
    };
    let (width, depth) = get_waterway_dimensions(kind.as_str());
    let mut channel = WaterwayChannel { width, depth, decimal_width: false };
    match tags.get("width") {
        Some(w) => match parse_i32(w.as_str()) {
            Some(v) => {
                channel.width = v;
            },
            None => {
                channel.decimal_width = true;
            },
        },
        None => {},
    }
    if tags.has_value("layer", "-1") || tags.has_value("layer", "-2") || tags.has_value(
        "layer",
        "-3",
    ) {
        return None;
    }
    if element.nodes.len() < 2 {
        return None;
    }
    Some(channel)
}

/// The zones across a river channel.
#[derive(Clone, Copy, PartialEq, Eq, Structural, Debug)]
pub enum ChannelZone {
    /// The deep central bed.
    Bed,
    /// The sloping bank, half as deep.
    Bank,
    /// The flood plain: damp soil and riparian plants.
    FloodPlain,
    Outside,
}

/// The zone at offset `(dx, dz)` from the axis of a channel of the given
/// width and depth: the bed within half the width, the bank one block
/// further (only for channels deeper than one block), the flood plain up to
/// four blocks beyond the bed.
pub open spec fn spec_channel_zone(dx: int, dz: int, width: int, depth: int) -> ChannelZone {
    let half = width / 2;
    let d = dx * dx + dz * dz;
    if d <= half * half {
        ChannelZone::Bed
    } else if d <= (half + 1) * (half + 1) && depth > 1 {
        ChannelZone::Bank
    } else if d <= (half + 4) * (half + 4) {
        ChannelZone::FloodPlain
    } else {
        ChannelZone::Outside
    }
}

/// The zone of a block of a channel's cross-section, for offsets within the
/// flood plain's square.
pub fn channel_zone(dx: i32, dz: i32, width: i32, depth: i32) -> (z: ChannelZone)
    requires
        2 <= width,
        2 * (width / 2 + 4) * (width / 2 + 4) <= i32::MAX,
        -(width / 2 + 4) <= dx <= width / 2 + 4,
        -(width / 2 + 4) <= dz <= width / 2 + 4,
    ensures
        z == spec_channel_zone(dx as int, dz as int, width as int, depth as int),
{
    let half: i64 = (width / 2) as i64;
    assert(0 <= dx * dx <= (half + 4) * (half + 4) && 0 <= dz * dz <= (half + 4) * (half + 4)
        && half * half <= (half + 1) * (half + 1) <= (half + 4) * (half + 4) && 2 * ((half + 4) * (
    half + 4)) <= i32::MAX) by (nonlinear_arith)
        requires
            1 <= half,
            2 * (half + 4) * (half + 4) <= i32::MAX,
            -(half + 4) <= dx <= half + 4,
            -(half + 4) <= dz <= half + 4,
    ;
    let d: i64 = (dx as i64) * (dx as i64) + (dz as i64) * (dz as i64);
    if d <= half * half {
        ChannelZone::Bed
    } else if d <= (half + 1) * (half + 1) && depth > 1 {
        ChannelZone::Bank
    } else if d <= (half + 4) * (half + 4) {
        ChannelZone::FloodPlain
    } else {
        ChannelZone::Outside
    }
}

/// What a channel leaves in the column of a bed or bank cell.
#[derive(Clone, Copy, PartialEq, Eq, Structural, Debug)]
pub enum ChannelCell {
    Water,
    Air,
    /// The floor under the water: mud, sand or gravel in the bed, sand,
    /// dirt or coarse dirt on the bank, as the sediment there falls.
    Floor,
}

/// The block a channel of `depth` whose water surface is at `surface`
/// leaves at height `y` of a column of `zone` whose ground was at `ground`.
/// The bed is dug `depth` below the surface and the bank half as deep (at
/// least one); from that bottom up to the higher of the ground and the
/// surface the column holds water up to the surface and air above it, on
/// the floor block one below the bottom. The flood plain and the outside
/// are not dug.
pub open spec fn spec_channel_cell(zone: ChannelZone, depth: int, surface: int, ground: int, y: int) -> Option<ChannelCell> {
    let dug = match zone {
        ChannelZone::Bed => Some(depth),
        ChannelZone::Bank => Some(if depth / 2 < 1 { 1 } else { depth / 2 }),
        _ => None,
    };
    match dug {
        None => None,
        Some(d) => {
            let bottom = surface - d;
            let top = if ground > surface { ground } else { surface };
            if bottom <= y <= top {
                if y <= surface { Some(ChannelCell::Water) } else { Some(ChannelCell::Air) }
            } else if y == bottom - 1 {
                Some(ChannelCell::Floor)
            } else {
                None
            }
        },
    }
}

/// The block a channel leaves at height `y` of a column of `zone`.
pub fn channel_cell_at(zone: ChannelZone, depth: i32, surface: i32, ground: i32, y: i32) -> (r: Option<ChannelCell>)
    ensures
        r == spec_channel_cell(zone, depth as int, surface as int, ground as int, y as int),
{
    let (depth, surface, ground, y) = (depth as i64, surface as i64, ground as i64, y as i64);
    let d: i64 = match zone {
        ChannelZone::Bed => depth,
        ChannelZone::Bank => if depth / 2 < 1 {
            1
        } else {
            depth / 2
        },
        _ => {
            return None;
        },
    };
    let bottom = surface - d;
    let top = if ground > surface {
        ground
    } else {
        surface
    };
    if bottom <= y && y <= top {
        if y <= surface {
            Some(ChannelCell::Water)
        } else {
            Some(ChannelCell::Air)
        }
    } else if y == bottom - 1 {
        Some(ChannelCell::Floor)
    } else {
        None
    }
}

} // verus!
