use pincel::coordinate_system::{XZBBox, XZBBoxRect, XZPoint, XZVector};
use pincel::floodfill::{extract_complex_polygon_from_element, flood_fill_area, scanline_fill_complex, ComplexPolygon};
use pincel::floodfill_cache::{CoordinateBitmap, FloodFillCache};
use pincel::ground::{Ground, HeightMap};
use pincel::osm_parser::{ProcessedElement, ProcessedMember, ProcessedMemberRole, ProcessedNode, ProcessedRelation, ProcessedWay};
use pincel::tags::Tags;
use std::sync::Arc;
use std::time::Duration;

fn node(id: u64, x: i32, z: i32) -> ProcessedNode {
    ProcessedNode { id, tags: Tags::new(), x, z }
}

fn way(id: u64, pts: &[(i32, i32)], kv: &[(&str, &str)]) -> ProcessedWay {
    let mut tags = Tags::new();
    for (k, v) in kv {
        tags.insert(k.to_string(), v.to_string());
    }
    ProcessedWay {
        id,
        nodes: pts.iter().enumerate().map(|(i, p)| node(id * 100 + i as u64, p.0, p.1)).collect(),
        tags,
    }
}

#[test]
fn bbox_new_and_bounds() {
    let b = XZBBox::new(-3, 7, 2, 9);
    assert_eq!(b.min_x(), -3);
    assert_eq!(b.max_x(), 7);
    assert_eq!(b.min_z(), 2);
    assert_eq!(b.max_z(), 9);
    assert!(b.contains(&XZPoint::new(-3, 9)));
    assert!(!b.contains(&XZPoint::new(8, 9)));
    let r = b.bounding_rect();
    assert_eq!(r.total_blocks_x(), 11);
    assert_eq!(r.total_blocks_z(), 8);
    assert_eq!(r.total_blocks(), 88);
    let e = XZBBox::explicit(0, 1, 0, 1);
    assert_eq!(e.bounding_rect().total_blocks(), 4);
}

#[test]
fn bbox_rect_rejects_unordered_corners() {
    assert!(XZBBoxRect::new(XZPoint::new(5, 0), XZPoint::new(4, 10)).is_err());
    assert!(XZBBoxRect::new(XZPoint::new(0, 5), XZPoint::new(4, 4)).is_err());
    assert!(XZBBoxRect::new(XZPoint::new(0, 0), XZPoint::new(0, 0)).is_ok());
}

#[test]
fn bbox_move_round_trip() {
    let b = XZBBox::new(0, 10, 0, 20);
    let moved = b.add(XZVector { dx: 5, dz: -3 });
    assert_eq!((moved.min_x(), moved.max_x(), moved.min_z(), moved.max_z()), (5, 15, -3, 17));
    let back = moved.sub(XZVector { dx: 5, dz: -3 });
    assert_eq!((back.min_x(), back.max_x(), back.min_z(), back.max_z()), (0, 10, 0, 20));
    let mut c = XZBBox::new(1, 2, 3, 4);
    c.add_assign(XZVector { dx: 1, dz: 1 });
    assert_eq!((c.min_x(), c.max_z()), (2, 5));
    c.sub_assign(XZVector { dx: 1, dz: 1 });
    assert_eq!((c.min_x(), c.max_z()), (1, 4));
}

#[test]
fn fill_square() {
    let sq = vec![(0, 0), (4, 0), (4, 4), (0, 4)];
    let f = flood_fill_area(&sq, None);
    assert_eq!(f.len(), 20);
    assert_eq!(f[0], (0, 0));
    assert_eq!(f[4], (4, 0));
    assert_eq!(f[19], (4, 3));
    assert!(!f.contains(&(0, 4)));
}

#[test]
fn fill_triangle() {
    let tri = vec![(0, 0), (4, 0), (0, 4)];
    let f = flood_fill_area(&tri, None);
    assert_eq!(f.len(), 14);
    let row1: Vec<_> = f.iter().filter(|p| p.1 == 1).map(|p| p.0).collect();
    assert_eq!(row1, vec![0, 1, 2, 3]);
}

#[test]
fn fill_with_hole() {
    let poly = ComplexPolygon {
        outer: vec![(0, 0), (6, 0), (6, 6), (0, 6)],
        inners: vec![vec![(2, 2), (4, 2), (4, 4), (2, 4)]],
    };
    let f = scanline_fill_complex(&poly, None);
    assert_eq!(f.len(), 40);
    let row2: Vec<_> = f.iter().filter(|p| p.1 == 2).map(|p| p.0).collect();
    assert_eq!(row2, vec![0, 1, 2, 4, 5, 6]);
}

#[test]
fn fill_degenerate_inputs() {
    assert!(flood_fill_area(&vec![(0, 0), (5, 5)], None).is_empty());
    assert!(flood_fill_area(&vec![], None).is_empty());
    let big = vec![(0, 0), (10000, 0), (10000, 10000), (0, 10000)];
    assert!(flood_fill_area(&big, None).is_empty());
}

#[test]
fn fill_with_generous_timeout_is_complete() {
    let sq = vec![(0, 0), (4, 0), (4, 4), (0, 4)];
    let d = Duration::from_secs(60);
    assert_eq!(flood_fill_area(&sq, Some(&d)).len(), 20);
}

#[test]
fn polygon_of_relation_joins_outer_rings() {
    let outer = Arc::new(way(1, &[(0, 0), (4, 0), (4, 4), (0, 4)], &[]));
    let inner = Arc::new(way(2, &[(1, 1), (2, 1), (2, 2)], &[]));
    let rel = ProcessedRelation {
        id: 9,
        tags: Tags::new(),
        members: vec![
            ProcessedMember { role: ProcessedMemberRole::Outer, way: outer },
            ProcessedMember { role: ProcessedMemberRole::Inner, way: inner },
        ],
    };
    let p = extract_complex_polygon_from_element(&ProcessedElement::Relation(Arc::new(rel))).unwrap();
    assert_eq!(p.outer, vec![(0, 0), (4, 0), (4, 4), (0, 4)]);
    assert_eq!(p.inners, vec![vec![(1, 1), (2, 1), (2, 2)]]);
    assert!(extract_complex_polygon_from_element(&ProcessedElement::Node(node(1, 0, 0))).is_none());
}

#[test]
fn bitmap_set_and_count() {
    let mut bm = CoordinateBitmap::new(&XZBBox::new(0, 9, 0, 9));
    assert!(bm.is_empty());
    bm.set(1, 1);
    bm.set(2, 1);
    bm.set(5, 5);
    bm.set(5, 5);
    bm.set(20, 20);
    assert!(!bm.is_empty());
    assert_eq!(bm.count(), 3);
    assert!(bm.contains(2, 1));
    assert!(!bm.contains(3, 1));
    assert!(!bm.contains(20, 20));
    assert_eq!(bm.count_contained(&[(1, 1), (3, 3), (5, 5), (-1, 0)]), 2);
}

#[test]
fn bitmap_count_in_range() {
    let mut bm = CoordinateBitmap::new(&XZBBox::new(0, 9, 0, 9));
    bm.set(1, 1);
    bm.set(2, 1);
    bm.set(5, 5);
    assert_eq!(bm.count_in_range(0, 0, 9, 9), (3, 100));
    assert_eq!(bm.count_in_range(-5, 0, 4, 0), (0, 10));
    assert_eq!(bm.count_in_range(0, 1, 4, 1), (2, 5));
    assert_eq!(bm.count_in_range(0, -2, 9, -1), (0, 20));
    // A range wholly left of the box counts the whole row of the box too.
    assert_eq!(bm.count_in_range(-10, 1, -5, 1), (2, 20));
    assert_eq!(bm.count_in_range(3, 5, 8, 4), (0, 0));
}

#[test]
fn cache_stores_building_fills() {
    let b = way(7, &[(0, 0), (4, 0), (4, 4), (0, 4)], &[("building", "yes")]);
    let road = way(8, &[(0, 0), (2, 0), (2, 2)], &[("highway", "residential")]);
    let elems = vec![ProcessedElement::Way(Arc::new(b)), ProcessedElement::Way(Arc::new(road))];
    let mut cache = FloodFillCache::new();
    let fp = cache.collect_building_footprints(&elems, &XZBBox::new(0, 3, 0, 3));
    assert_eq!(fp.count(), 16);
    assert!(fp.contains(3, 3));
    if let ProcessedElement::Way(w) = &elems[0] {
        assert_eq!(cache.get_or_compute(w, None).len(), 20);
    }
    let centroids = cache.collect_building_centroids(&elems);
    assert_eq!(centroids, vec![(2, 1)]);
    cache.remove_way(7);
    assert!(cache.collect_building_centroids(&elems).is_empty());
}

#[test]
fn cache_remove_relation_ways_and_clear() {
    let b1 = way(1, &[(0, 0), (2, 0), (2, 2), (0, 2)], &[("building", "yes")]);
    let b2 = way(2, &[(5, 5), (7, 5), (7, 7), (5, 7)], &[("building", "yes")]);
    let elems = vec![ProcessedElement::Way(Arc::new(b1)), ProcessedElement::Way(Arc::new(b2))];
    let mut cache = FloodFillCache::new();
    cache.collect_building_footprints(&elems, &XZBBox::new(0, 7, 0, 7));
    assert_eq!(cache.collect_building_centroids(&elems).len(), 2);
    cache.remove_relation_ways(&[1]);
    assert_eq!(cache.collect_building_centroids(&elems), vec![(6, 5)]);
    cache.clear_cache();
    assert!(cache.collect_building_centroids(&elems).is_empty());
}

#[test]
fn ground_levels() {
    let flat = Ground::new_flat(64);
    assert_eq!(flat.level(XZPoint::new(3, 3)), 64);
    assert_eq!(flat.min_level(&[]), Some(64));
    let mut bare: HeightMap = HeightMap::default();
    bare.insert((1, 2), 70);
    bare.insert((2, 2), 60);
    let mut top: HeightMap = HeightMap::default();
    top.insert((1, 2), 90);
    let g = Ground::new_enabled(64, Arc::new(bare), Arc::new(top));
    assert_eq!(g.level(XZPoint::new(1, 2)), 70);
    assert_eq!(g.level(XZPoint::new(9, 9)), 64);
    assert_eq!(g.surface_level(XZPoint::new(1, 2)), 90);
    assert_eq!(g.surface_level(XZPoint::new(2, 2)), 60);
    let pts = [XZPoint::new(1, 2), XZPoint::new(2, 2), XZPoint::new(0, 0)];
    assert_eq!(g.min_level(&pts), Some(60));
    assert_eq!(g.max_level(&pts), Some(70));
    assert_eq!(g.max_level(&[]), None);
}

#[test]
fn bitmap_counts_distinct_points_in_box() {
    let b = XZBBox::new(0, 4, 0, 4);
    let mut bm = CoordinateBitmap::new(&b);
    let points = [(1, 1), (2, 3), (1, 1), (9, 9), (-1, 0), (4, 4), (2, 3)];
    for (x, z) in points {
        bm.set(x, z);
    }
    assert_eq!(bm.count(), 3);
    assert!(bm.contains(1, 1) && bm.contains(2, 3) && bm.contains(4, 4));
    assert!(!bm.contains(9, 9) && !bm.contains(-1, 0) && !bm.contains(0, 0));
    assert!(!bm.is_empty());
}

#[test]
fn cut_fill_is_start_of_full_fill() {
    // A square big enough that the clock is read while it is being filled.
    let square = vec![(0, 0), (300, 0), (300, 300), (0, 300)];
    let full = flood_fill_area(&square, None);
    let cut = flood_fill_area(&square, Some(&Duration::from_secs(0)));
    assert!(cut.len() > 10_000);
    assert!(cut.len() <= full.len());
    assert_eq!(&full[..cut.len()], &cut[..]);
}
