use pincel::amenities::{recycling_slots, RecyclingLootKind, RECYCLING_SLOTS};
use pincel::highways::{aeroway_paves, generate_aeroway, generate_siding, siding_slab_at};
use pincel::osm_parser::{ProcessedNode, ProcessedWay};
use pincel::tags::Tags;

fn way(pts: &[(i32, i32)]) -> ProcessedWay {
    ProcessedWay {
        id: 1,
        nodes: pts.iter().map(|p| ProcessedNode { id: 0, tags: Tags::new(), x: p.0, z: p.1 }).collect(),
        tags: Tags::new(),
    }
}

#[test]
fn sidings_and_aeroways_follow_consecutive_nodes() {
    let w = way(&[(0, 0), (5, 2), (5, 9), (-3, 9)]);
    let expected = vec![((0, 0), (5, 2)), ((5, 2), (5, 9)), ((5, 9), (-3, 9))];
    assert_eq!(generate_siding(&w), expected);
    assert_eq!(generate_aeroway(&w), expected);
    assert!(generate_siding(&way(&[(1, 1)])).is_empty());
    assert!(generate_aeroway(&way(&[])).is_empty());
    assert!(siding_slab_at(false));
    assert!(!siding_slab_at(true));
    let width = (20.0f64 * 1.0).ceil() as i32;
    for dx in -25..=25 {
        for dz in [-21, -20, 0, 20, 21] {
            assert_eq!(aeroway_paves(100, -50, width, 100 + dx, -50 + dz), dx.abs() <= 20 && dz.abs() <= 20);
        }
    }
}

#[test]
fn recycling_slots_from_draws() {
    let pool = vec![RecyclingLootKind::Paper, RecyclingLootKind::GlassBlock, RecyclingLootKind::ScrapMetal];
    let mut picks: Vec<Option<usize>> = vec![None; RECYCLING_SLOTS];
    picks[0] = Some(2);
    picks[5] = Some(0);
    picks[26] = Some(1);
    assert_eq!(
        recycling_slots(&pool, &picks),
        vec![(0, RecyclingLootKind::ScrapMetal), (5, RecyclingLootKind::Paper), (26, RecyclingLootKind::GlassBlock)]
    );
    assert!(recycling_slots(&[], &vec![None; RECYCLING_SLOTS]).is_empty());
    assert!(recycling_slots(&pool, &vec![None; RECYCLING_SLOTS]).is_empty());
}
