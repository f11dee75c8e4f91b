use std::collections::HashSet;
use pincel::coordinate_system::XZBBox;
use pincel::data_processing::{
    build_spatial_index, conduit_cell, conduit_too_deep, dispatch_element,
    generate_underground_infrastructure, get_element_centroid, suppressed_building_outlines,
    ConduitCell, ConduitWall, Generator, MapPreviewInfo, MIN_Y,
};
use pincel::data_processing::{chunk_block_bounds, ground_column, TerrainBlock, TerrainPlacement};
use pincel::osm_parser::{ProcessedElement, ProcessedMember, ProcessedMemberRole, ProcessedNode, ProcessedRelation, ProcessedWay};
use pincel::tags::Tags;
use std::path::PathBuf;
use std::sync::Arc;

fn tags(kv: &[(&str, &str)]) -> Tags {
    let mut t = Tags::new();
    for (k, v) in kv {
        t.insert(k.to_string(), v.to_string());
    }
    t
}

fn way(id: u64, pts: &[(i32, i32)], kv: &[(&str, &str)]) -> ProcessedWay {
    ProcessedWay {
        id,
        nodes: pts.iter().map(|p| ProcessedNode { id: 0, tags: Tags::new(), x: p.0, z: p.1 }).collect(),
        tags: tags(kv),
    }
}

fn wel(id: u64, pts: &[(i32, i32)], kv: &[(&str, &str)]) -> ProcessedElement {
    ProcessedElement::Way(Arc::new(way(id, pts, kv)))
}

fn nel(kv: &[(&str, &str)]) -> ProcessedElement {
    ProcessedElement::Node(ProcessedNode { id: 1, tags: tags(kv), x: 0, z: 0 })
}

#[test]
fn underground_plans() {
    assert!(generate_underground_infrastructure(&way(1, &[], &[("man_made", "tower")])).is_none());
    let p = generate_underground_infrastructure(&way(1, &[], &[("man_made", "pipeline"), ("substance", "sewage"), ("width", "5")])).unwrap();
    assert_eq!((p.radius, p.depth_offset, p.wall, p.has_fluid), (2, -6, ConduitWall::Brick, true));
    let p = generate_underground_infrastructure(&way(1, &[], &[("power", "cable"), ("layer", "-2")])).unwrap();
    assert_eq!((p.radius, p.depth_offset, p.wall), (1, -12, ConduitWall::CopperBlock));
    let p = generate_underground_infrastructure(&way(1, &[], &[("man_made", "pipeline"), ("width", "-7")])).unwrap();
    assert_eq!((p.radius, p.wall), (1, ConduitWall::SmoothStone));
    let p = generate_underground_infrastructure(&way(1, &[], &[("power", "line"), ("width", "9")])).unwrap();
    assert_eq!(p.radius, 4);
}

#[test]
fn conduit_cross_section() {
    assert_eq!(conduit_cell(2, 0, 0, true), ConduitCell::Air);
    // The row above the bottom always lies in the wall, so no fluid shows.
    assert_eq!(conduit_cell(2, 0, -1, true), ConduitCell::Wall);
    assert_eq!(conduit_cell(3, 0, -2, true), ConduitCell::Wall);
    assert_eq!(conduit_cell(3, 1, 1, true), ConduitCell::Air);
    assert_eq!(conduit_cell(2, 2, 0, true), ConduitCell::Wall);
    assert_eq!(conduit_cell(2, 2, 2, true), ConduitCell::Outside);
    assert_eq!(conduit_cell(1, 0, 0, false), ConduitCell::Wall);
    assert!(conduit_too_deep((MIN_Y + 4) as i64));
    assert!(!conduit_too_deep((MIN_Y + 5) as i64));
}

#[test]
fn centroids_and_spatial_index() {
    let a = wel(1, &[(0, 0), (10, 0), (11, 3)], &[("building", "yes")]);
    let b = nel(&[("amenity", "bench")]);
    let c = wel(3, &[(600, 0), (601, 1)], &[("highway", "primary")]);
    let e = wel(4, &[], &[]);
    assert_eq!(get_element_centroid(&a), (7, 1));
    assert_eq!(get_element_centroid(&e), (0, 0));
    let elems = vec![a, b, c, e];
    let index = build_spatial_index(&elems);
    assert_eq!(index.get_ref((0, 0)), Some(&vec![0, 1, 3]));
    assert_eq!(index.get_ref((1, 0)), Some(&vec![2]));
    assert_eq!(index.len(), 2);
}

#[test]
fn relation_centroid_uses_first_member() {
    let m1 = Arc::new(way(10, &[(-4, -4), (-2, -2)], &[]));
    let m2 = Arc::new(way(11, &[(100, 100)], &[]));
    let rel = ProcessedRelation {
        id: 1,
        tags: Tags::new(),
        members: vec![
            ProcessedMember { role: ProcessedMemberRole::Inner, way: m1 },
            ProcessedMember { role: ProcessedMemberRole::Outer, way: m2 },
        ],
    };
    assert_eq!(get_element_centroid(&ProcessedElement::Relation(Arc::new(rel))), (-3, -3));
}

#[test]
fn outlines_left_to_relations() {
    let outer = Arc::new(way(21, &[], &[("building", "yes")]));
    let part = Arc::new(way(22, &[], &[("building:part", "yes")]));
    let rel = ProcessedRelation {
        id: 2,
        tags: tags(&[("type", "building")]),
        members: vec![
            ProcessedMember { role: ProcessedMemberRole::Outer, way: outer.clone() },
            ProcessedMember { role: ProcessedMemberRole::Part, way: part },
        ],
    };
    let no_part = ProcessedRelation {
        id: 3,
        tags: tags(&[("type", "building")]),
        members: vec![ProcessedMember { role: ProcessedMemberRole::Outer, way: Arc::new(way(31, &[], &[])) }],
    };
    let elems = vec![
        ProcessedElement::Way(outer),
        ProcessedElement::Relation(Arc::new(rel)),
        ProcessedElement::Relation(Arc::new(no_part)),
    ];
    let s = suppressed_building_outlines(&elems);
    assert_eq!(s, HashSet::from([21u64]));
    assert_eq!(dispatch_element(&elems[0], &s), (Generator::Nothing, false));
    assert_eq!(dispatch_element(&elems[1], &s), (Generator::BuildingFromRelation, false));
}

#[test]
fn routing() {
    let none: HashSet<u64> = HashSet::new();
    assert_eq!(dispatch_element(&wel(1, &[], &[("building", "yes")]), &none), (Generator::Buildings, false));
    assert_eq!(dispatch_element(&wel(1, &[], &[("highway", "primary"), ("landuse", "x")]), &none), (Generator::Highways, false));
    assert_eq!(dispatch_element(&wel(1, &[], &[("waterway", "dock")]), &none), (Generator::WaterAreaFromWay, false));
    assert_eq!(dispatch_element(&wel(1, &[], &[("waterway", "river")]), &none), (Generator::Waterways, false));
    assert_eq!(dispatch_element(&wel(1, &[], &[("service", "siding")]), &none), (Generator::Siding, false));
    assert_eq!(dispatch_element(&wel(1, &[], &[("man_made", "pipeline")]), &none), (Generator::Nothing, true));
    assert_eq!(dispatch_element(&wel(1, &[], &[("man_made", "pier")]), &none), (Generator::ManMade, true));
    assert_eq!(dispatch_element(&wel(1, &[], &[("power", "line")]), &none), (Generator::Nothing, true));
    assert_eq!(dispatch_element(&nel(&[("natural", "tree")]), &none), (Generator::Natural, false));
    assert_eq!(dispatch_element(&nel(&[("natural", "rock")]), &none), (Generator::Nothing, false));
    assert_eq!(dispatch_element(&nel(&[("entrance", "main"), ("amenity", "x")]), &none), (Generator::Doors, false));
    assert_eq!(dispatch_element(&nel(&[("advertising", "billboard")]), &none), (Generator::Advertising, false));
    let r = |kv: &[(&str, &str)]| ProcessedElement::Relation(Arc::new(ProcessedRelation { id: 1, tags: tags(kv), members: vec![] }));
    assert_eq!(dispatch_element(&r(&[("natural", "bay")]), &none), (Generator::WaterAreasFromRelation, false));
    assert_eq!(dispatch_element(&r(&[("natural", "wood")]), &none), (Generator::NaturalFromRelation, false));
    assert_eq!(dispatch_element(&r(&[("leisure", "park")]), &none), (Generator::LeisureFromRelation, false));
    assert_eq!(dispatch_element(&r(&[("leisure", "pitch")]), &none), (Generator::Nothing, false));
}

#[test]
fn map_preview() {
    let info = MapPreviewInfo::new(PathBuf::from("/tmp/world"), &XZBBox::new(-10, 90, 0, 50));
    assert_eq!((info.min_x, info.max_x, info.min_z, info.max_z), (-10, 90, 0, 50));
    assert_eq!(info.world_area, 5000);
    assert!(info.preview_allowed());
    let big = MapPreviewInfo::new(PathBuf::from("/tmp/w"), &XZBBox::new(0, 6400, 0, 6901));
    assert!(!big.preview_allowed());
    let edge = MapPreviewInfo::new(PathBuf::from("/tmp/w"), &XZBBox::new(0, 6400, 0, 6900));
    assert!(edge.preview_allowed());
}

#[test]
fn base_terrain_column() {
    assert_eq!(
        ground_column(70, false, false, false),
        vec![
            (TerrainBlock::GrassBlock, TerrainPlacement::IfAbsent(70)),
            (TerrainBlock::CoarseDirt, TerrainPlacement::IfAbsent(69)),
            (TerrainBlock::RedTerracotta, TerrainPlacement::IfAbsent(68)),
            (TerrainBlock::Bedrock, TerrainPlacement::UnlessBedrock(MIN_Y)),
        ]
    );
    assert_eq!(
        ground_column(70, true, true, true),
        vec![
            (TerrainBlock::Stone, TerrainPlacement::Column(MIN_Y + 1, 67)),
            (TerrainBlock::Bedrock, TerrainPlacement::UnlessBedrock(MIN_Y)),
        ]
    );
    assert_eq!(ground_column(5, true, false, false)[0], (TerrainBlock::PolishedAndesite, TerrainPlacement::IfAbsent(5)));
}

#[test]
fn chunk_columns_in_box() {
    let b = XZBBox::new(-5, 20, 3, 40);
    assert_eq!(chunk_block_bounds(0, 0, &b), (0, 15, 3, 15));
    assert_eq!(chunk_block_bounds(-1, 2, &b), (-5, -1, 32, 40));
    assert_eq!(chunk_block_bounds(1, 1, &b), (16, 20, 16, 31));
    // A chunk outside the box gives an empty range.
    let (x0, x1, _, _) = chunk_block_bounds(5, 0, &b);
    assert!(x0 > x1);
}
