use pincel::coordinate_system::XZBBox;
use pincel::osm_parser::{
    node_pass, relation_members, way_nodes, way_pass, OsmMember, ProcessedElement, ProcessedMemberRole,
    ProcessedNode, RawWay, PARSE_MARGIN,
};
use pincel::tags::Tags;

fn node(id: u64, x: i32, z: i32, kv: &[(&str, &str)]) -> ProcessedNode {
    let mut tags = Tags::new();
    for (k, v) in kv {
        tags.insert(k.to_string(), v.to_string());
    }
    ProcessedNode { id, tags, x, z }
}

#[test]
fn node_pass_keeps_nodes_near_the_box() {
    let bbox = XZBBox::new(0, 100, 0, 100);
    let nodes = vec![
        node(1, 50, 50, &[("amenity", "bench")]),
        node(2, 50, 50, &[]),
        node(3, -PARSE_MARGIN, 100 + PARSE_MARGIN, &[("amenity", "bench")]),
        node(4, -PARSE_MARGIN - 1, 50, &[("amenity", "bench")]),
        node(5, 100, 0, &[("natural", "tree")]),
    ];
    let (index, elements) = node_pass(&nodes, &bbox);
    assert_eq!(index.len(), 4);
    assert!(index.get(&4).is_none());
    let far = index.get(&3).unwrap();
    assert_eq!((far.x, far.z), (-PARSE_MARGIN, 100 + PARSE_MARGIN));
    // Only tagged nodes inside the box are drawn on their own.
    let ids: Vec<u64> = elements.iter().map(|e| e.id()).collect();
    assert_eq!(ids, vec![1, 5]);
    match &elements[1] {
        ProcessedElement::Node(n) => {
            assert_eq!((n.x, n.z), (100, 0));
            assert_eq!(n.tags.get("natural").unwrap(), "tree");
        },
        _ => panic!("a node was expected"),
    }
}

#[test]
fn node_pass_later_node_replaces_earlier() {
    let bbox = XZBBox::new(0, 10, 0, 10);
    let nodes = vec![node(7, 1, 1, &[]), node(7, 2, 3, &[])];
    let (index, elements) = node_pass(&nodes, &bbox);
    assert_eq!(index.len(), 1);
    let n = index.get(&7).unwrap();
    assert_eq!((n.x, n.z), (2, 3));
    assert!(elements.is_empty());
}

#[test]
fn way_nodes_skip_unknown_ids() {
    let bbox = XZBBox::new(0, 10, 0, 10);
    let nodes = vec![node(1, 0, 0, &[]), node(2, 5, 5, &[]), node(3, 9, 9, &[])];
    let (index, _) = node_pass(&nodes, &bbox);
    let resolved = way_nodes(&vec![3, 99, 1, 2, 1], &index);
    let ids: Vec<u64> = resolved.iter().map(|n| n.id).collect();
    assert_eq!(ids, vec![3, 1, 2, 1]);
    assert_eq!((resolved[0].x, resolved[0].z), (9, 9));
    assert!(way_nodes(&vec![], &index).is_empty());
}

fn tags(kv: &[(&str, &str)]) -> Tags {
    let mut t = Tags::new();
    for (k, v) in kv {
        t.insert(k.to_string(), v.to_string());
    }
    t
}

fn member(kind: &str, id: u64, role: &str) -> OsmMember {
    OsmMember { member_type: kind.to_string(), member_ref: id, role: role.to_string() }
}

#[test]
fn way_pass_indexes_whole_ways() {
    let bbox = XZBBox::new(0, 10, 0, 10);
    let nodes = vec![node(1, 0, 0, &[]), node(2, 5, 5, &[]), node(3, 9000, 9, &[])];
    let (index, _) = node_pass(&nodes, &bbox);
    let ways = vec![
        RawWay { id: 10, node_ids: vec![1, 2, 3], tags: tags(&[("highway", "residential")]) },
        RawWay { id: 11, node_ids: vec![2], tags: Tags::new() },
    ];
    let m = way_pass(&ways, &index);
    assert_eq!(m.len(), 2);
    let w = m.get(&10).unwrap();
    let ids: Vec<u64> = w.nodes.iter().map(|n| n.id).collect();
    // Node 3 lies beyond the margin and was not kept.
    assert_eq!(ids, vec![1, 2]);
    assert!(w.tags.has_value("highway", "residential"));
}

#[test]
fn relation_members_by_role() {
    let bbox = XZBBox::new(0, 10, 0, 10);
    let (index, _) = node_pass(&vec![node(1, 0, 0, &[])], &bbox);
    let ways = vec![
        RawWay { id: 20, node_ids: vec![1], tags: Tags::new() },
        RawWay { id: 21, node_ids: vec![1], tags: Tags::new() },
        RawWay { id: 22, node_ids: vec![1], tags: Tags::new() },
    ];
    let m = way_pass(&ways, &index);
    let members = vec![
        member("way", 20, " Outer "),
        member("way", 21, "INNER"),
        member("node", 1, "outer"),
        member("way", 99, "outer"),
        member("way", 22, "part"),
        member("way", 22, "label"),
    ];
    let (kind, kept) = relation_members(&tags(&[("type", "multipolygon"), ("natural", "water")]), &members, &m).unwrap();
    assert!(kind.keep_unclipped);
    assert_eq!(kept, vec![(ProcessedMemberRole::Outer, 20), (ProcessedMemberRole::Inner, 21)]);
    let (kind, kept) = relation_members(&tags(&[("type", "building")]), &members, &m).unwrap();
    assert!(kind.building_type && kind.building && !kind.keep_unclipped);
    assert_eq!(
        kept,
        vec![
            (ProcessedMemberRole::Outer, 20),
            (ProcessedMemberRole::Inner, 21),
            (ProcessedMemberRole::Part, 22),
            (ProcessedMemberRole::Outer, 22),
        ]
    );
    assert!(relation_members(&tags(&[("type", "route")]), &members, &m).is_none());
}
