//! Bridges: whether a way is drawn as a bridge or as a landmark, the deck's
//! level, and where its blade pillars stand.

use vstd::prelude::*;
use crate::landmarks::{generate_unique_landmark, spec_is_station, spec_landmark,
    spec_landmark_name, spec_surveyed, Landmark};
use crate::osm_parser::{ProcessedNode, ProcessedWay};

verus! {

/// Height of a bridge deck above its ends, in blocks.
pub const BRIDGE_HEIGHT: i32 = 10;

/// How a way tagged as a bridge is drawn.
#[derive(Clone, Copy, PartialEq, Eq, Structural, Debug)]
pub enum BridgeDecision {
    /// No `bridge` tag.
    NotABridge,
    /// A landmark with a model of its own.
    Landmark(Landmark),
    /// Fewer than two nodes, or all its nodes at one position: a length of
    /// zero, nothing to span.
    TooShort,
    /// A deck between the ends.
    Span,
}

/// Whether all the nodes stand at the position of the first: the way then
/// has length zero.
pub open spec fn spec_all_at_one_position(nodes: Seq<ProcessedNode>) -> bool {
    forall|i: int| 0 <= i < nodes.len() ==> (#[trigger] nodes[i]).x == nodes[0].x && nodes[i].z
        == nodes[0].z
}

fn all_at_one_position(nodes: &Vec<ProcessedNode>) -> (b: bool)
    requires
        nodes@.len() > 0,
    ensures
        b == spec_all_at_one_position(nodes@),
{
    let x = nodes[0].x;
    let z = nodes[0].z;
    let mut i: usize = 1;
    while i < nodes.len()
        invariant
            1 <= i <= nodes@.len(),
            x == nodes@[0].x,
            z == nodes@[0].z,
            forall|k: int| 0 <= k < i ==> (#[trigger] nodes@[k]).x == x && nodes@[k].z == z,
        decreases nodes@.len() - i,
    {
        if nodes[i].x != x || nodes[i].z != z {
            assert(!((nodes@[i as int]).x == x && nodes@[i as int].z == z));
            return false;
        }
        i = i + 1;
    }
    true
}

/// How a way is drawn as a bridge.
pub fn generate_bridges(element: &ProcessedWay) -> (d: BridgeDecision)
    ensures
        d == (if !element.tags@.contains_key("bridge"@) {
            BridgeDecision::NotABridge
        } else if !spec_surveyed(element.tags@) && spec_landmark(
            spec_landmark_name(element.tags@),
            spec_is_station(element.tags@),
        ) is Some {
            BridgeDecision::Landmark(
                spec_landmark(spec_landmark_name(element.tags@), spec_is_station(element.tags@))->0,
            )
        } else if element.nodes@.len() < 2 || spec_all_at_one_position(element.nodes@) {
            BridgeDecision::TooShort
        } else {
            BridgeDecision::Span
        }),
{
    if !element.tags.contains_key("bridge") {
        return BridgeDecision::NotABridge;
    }
    if let Some(l) = generate_unique_landmark(element) {
        return BridgeDecision::Landmark(l);
    }
    if element.nodes.len() < 2 || all_at_one_position(&element.nodes) {
        BridgeDecision::TooShort
    } else {
        BridgeDecision::Span
    }
}

/// The ground level a deck is laid from: the higher of its two ends, so that
/// the deck stays level.
pub fn bridge_deck_ground(start_y: i32, end_y: i32) -> (y: i32)
    ensures
        y == (if start_y >= end_y { start_y } else { end_y }),
{
    if start_y >= end_y {
        start_y
    } else {
        end_y
    }
}

/// Whether a pillar stands at step `idx` along the bridge: every 32 steps,
/// where the deck is at least 7 blocks up its ramp.
pub fn pillar_at(idx: usize, ramp_offset: i32) -> (b: bool)
    ensures
        b == (idx % 32 == 0 && ramp_offset >= 7),
{
    idx % 32 == 0 && ramp_offset >= 7
}

/// Half-thickness of a pillar: 2 where the deck is more than 15 blocks above
/// the lowest ground beneath, else 1.
pub fn pillar_thickness(bridge_y: i32, min_ground: i32) -> (t: i32)
    ensures
        t == (if bridge_y - min_ground > 15 { 2i32 } else { 1i32 }),
{
    if (bridge_y as i64) - (min_ground as i64) > 15 {
        2
    } else {
        1
    }
}

} // verus!
