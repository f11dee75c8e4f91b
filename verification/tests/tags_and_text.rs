use pincel::osm_parser::{
    get_priority, is_water_element, member_role, relation_kind, OsmMember,
    ProcessedElement, ProcessedMemberRole, ProcessedNode, ProcessedWay,
};
use pincel::tags::Tags;
use pincel::text::{contains_str, parse_i32, parse_u64, str_eq, string_contains};
use std::sync::Arc;

fn tags(kv: &[(&str, &str)]) -> Tags {
    let mut t = Tags::new();
    for (k, v) in kv {
        t.insert(k.to_string(), v.to_string());
    }
    t
}

#[test]
fn tags_read_after_write() {
    let mut t = Tags::new();
    assert!(t.is_empty());
    t.insert("highway".to_string(), "primary".to_string());
    t.insert("name".to_string(), "W3 Sul".to_string());
    t.insert("highway".to_string(), "secondary".to_string());
    assert_eq!(t.len(), 2);
    assert_eq!(t.get("highway").map(|s| s.as_str()), Some("secondary"));
    assert!(t.contains_key("name"));
    assert!(!t.contains_key("ref"));
    assert!(t.has_value("name", "W3 Sul"));
    assert!(!t.has_value("name", "W3 Norte"));
}

#[test]
fn text_helpers() {
    assert!(str_eq("abc", "abc"));
    assert!(!str_eq("abc", "abd"));
    assert!(contains_str("eixo rodoviário sul", "rodoviário"));
    assert!(contains_str("abc", ""));
    assert!(!contains_str("ab", "abc"));
    assert!(string_contains(&"guará ii".to_string(), "guará"));
}

#[test]
fn integer_parsing() {
    assert_eq!(parse_i32("42"), Some(42));
    assert_eq!(parse_i32("+7"), Some(7));
    assert_eq!(parse_i32("-2147483648"), Some(i32::MIN));
    assert_eq!(parse_i32("2147483648"), None);
    assert_eq!(parse_i32("-"), None);
    assert_eq!(parse_i32(""), None);
    assert_eq!(parse_i32("1.5"), None);
    assert_eq!(parse_i32(" 3"), None);
    assert_eq!(parse_u64("18446744073709551615"), Some(u64::MAX));
    assert_eq!(parse_u64("18446744073709551616"), None);
    assert_eq!(parse_u64("-1"), None);
    assert_eq!(parse_u64("+12"), Some(12));
}

#[test]
fn element_priority() {
    let n = |kv: &[(&str, &str)]| ProcessedElement::Node(ProcessedNode { id: 1, tags: tags(kv), x: 0, z: 0 });
    assert_eq!(get_priority(&n(&[("entrance", "yes"), ("building", "yes")])), 0);
    assert_eq!(get_priority(&n(&[("highway", "primary"), ("barrier", "wall")])), 2);
    assert_eq!(get_priority(&n(&[("barrier", "wall")])), 5);
    assert_eq!(get_priority(&n(&[("amenity", "bench")])), 6);
}

#[test]
fn element_accessors() {
    let w = ProcessedWay { id: 5, nodes: vec![ProcessedNode { id: 1, tags: Tags::new(), x: 3, z: 4 }], tags: tags(&[("a", "b")]) };
    let e = ProcessedElement::Way(Arc::new(w));
    assert_eq!(e.id(), 5);
    assert_eq!(e.kind(), "way");
    assert_eq!(e.nodes().len(), 1);
    assert_eq!(e.nodes()[0].xz().x, 3);
    assert!(e.tags().has_value("a", "b"));
}

#[test]
fn water_elements() {
    assert!(is_water_element(&tags(&[("water", "lake")])));
    assert!(is_water_element(&tags(&[("natural", "bay")])));
    assert!(is_water_element(&tags(&[("waterway", "dock")])));
    assert!(!is_water_element(&tags(&[("waterway", "river")])));
    assert!(!is_water_element(&tags(&[("natural", "wood")])));
}

#[test]
fn member_roles() {
    let m = |t: &str, r: &str| OsmMember { member_type: t.to_string(), member_ref: 1, role: r.to_string() };
    assert_eq!(member_role(&m("way", " Outer "), false, false), Some(ProcessedMemberRole::Outer));
    assert_eq!(member_role(&m("way", "OUTLINE"), false, false), Some(ProcessedMemberRole::Outer));
    // Unicode white space is trimmed as well; inner spaces are kept.
    assert_eq!(member_role(&m("way", "\u{A0}\tInNeR\u{3000}"), false, false), Some(ProcessedMemberRole::Inner));
    assert_eq!(member_role(&m("way", "in ner"), false, false), None);
    assert_eq!(member_role(&m("way", " \n "), false, true), Some(ProcessedMemberRole::Outer));
    assert_eq!(member_role(&m("way", "inner"), false, false), Some(ProcessedMemberRole::Inner));
    assert_eq!(member_role(&m("way", "part"), true, true), Some(ProcessedMemberRole::Part));
    assert_eq!(member_role(&m("way", "part"), false, true), None);
    assert_eq!(member_role(&m("way", ""), false, true), Some(ProcessedMemberRole::Outer));
    assert_eq!(member_role(&m("way", ""), false, false), None);
    assert_eq!(member_role(&m("node", "outer"), false, false), None);
}

#[test]
fn relation_kinds() {
    assert!(relation_kind(&tags(&[("type", "route")])).is_none());
    let k = relation_kind(&tags(&[("type", "multipolygon"), ("building", "yes")])).unwrap();
    assert!(!k.building_type && k.building && k.keep_unclipped);
    let k = relation_kind(&tags(&[("type", "multipolygon"), ("natural", "water")])).unwrap();
    assert!(!k.building && k.keep_unclipped);
    let k = relation_kind(&tags(&[("type", "building")])).unwrap();
    assert!(k.building_type && k.building && !k.keep_unclipped);
    let k = relation_kind(&tags(&[("type", "multipolygon"), ("landuse", "forest")])).unwrap();
    assert!(!k.building && !k.keep_unclipped);
}
