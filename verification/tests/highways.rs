use pincel::highways::{
    area_surface, bridge_sample_indices, build_highway_connectivity_map, cross_section,
    detect_df_road, effective_elevation, highway_placement, layer_base_elevation, road_profile,
    should_add_slope_at_node, stripe_offset, valley_bridge_deck, way_layer, CrossSection,
    DFRoadType, RoadClass, SurfaceBlock,
};
use pincel::osm_parser::{ProcessedElement, ProcessedNode, ProcessedWay};
use pincel::tags::Tags;
use std::sync::Arc;

fn tags(kv: &[(&str, &str)]) -> Tags {
    let mut t = Tags::new();
    for (k, v) in kv {
        t.insert(k.to_string(), v.to_string());
    }
    t
}

fn way(id: u64, pts: &[(i32, i32)], kv: &[(&str, &str)]) -> ProcessedWay {
    ProcessedWay {
        id,
        nodes: pts.iter().map(|p| ProcessedNode { id: 0, tags: Tags::new(), x: p.0, z: p.1 }).collect(),
        tags: tags(kv),
    }
}

fn class(kv: &[(&str, &str)], base: &str) -> RoadClass {
    detect_df_road(&way(1, &[], kv), base).road_class()
}

#[test]
fn road_classes() {
    assert_eq!(class(&[("junction", "roundabout"), ("name", "Eixão")], "primary"), RoadClass::Rotatoria);
    assert_eq!(class(&[], "motorway_link"), RoadClass::Tesourinha);
    assert_eq!(class(&[("ref", "df-002")], "trunk"), RoadClass::Eixao);
    assert_eq!(class(&[("name", "Eixo Rodoviário Sul")], "motorway"), RoadClass::Eixao);
    assert_eq!(class(&[("name", "Eixo Monumental")], "primary"), RoadClass::Monumental);
    assert_eq!(class(&[("name", "W3 Norte")], "secondary"), RoadClass::W3);
    assert_eq!(class(&[("name", "Via L2 Sul")], "secondary"), RoadClass::L2L4);
    assert_eq!(class(&[("name", "EPIA")], "trunk"), RoadClass::ExpressaDF);
    assert_eq!(class(&[], "primary"), RoadClass::Arterial);
    assert_eq!(class(&[], "secondary"), RoadClass::Coletora);
    assert_eq!(class(&[("addr:suburb", "Asa Sul")], "residential"), RoadClass::ViaSuperquadra);
    assert_eq!(
        class(&[("name", "Avenida Comercial"), ("addr:suburb", "Taguatinga")], "tertiary"),
        RoadClass::ViaComercialSatelite
    );
    assert_eq!(class(&[("addr:suburb", "Guara II")], "residential"), RoadClass::ViaGuara);
    assert_eq!(class(&[], "living_street"), RoadClass::ViaLocal);
    match detect_df_road(&way(1, &[], &[]), "footway") {
        DFRoadType::Generic(t) => assert_eq!(t, "footway"),
        _ => panic!("expected a generic road"),
    }
}

#[test]
fn road_profiles() {
    let p = road_profile(&DFRoadType::Eixao, &Tags::new());
    assert_eq!(p.block_type, SurfaceBlock::BlackConcrete);
    assert_eq!((p.block_range, p.grass_buffer, p.physical_median_radius), (18, 8, 6));
    assert!(p.add_stripe && p.is_detached_sidewalk && !p.parking_lane);
    let w3 = road_profile(&DFRoadType::W3, &Tags::new());
    assert_eq!(w3.block_type, SurfaceBlock::PolishedBasalt);
    assert!(w3.parking_lane);
    let steps = road_profile(&DFRoadType::Generic("steps".to_string()), &Tags::new());
    assert_eq!((steps.block_type, steps.block_range), (SurfaceBlock::StoneStairs, 1));
    let two = road_profile(&DFRoadType::Generic("service".to_string()), &tags(&[("lanes", "2")]));
    assert_eq!((two.block_range, two.add_stripe, two.add_outline), (3, true, true));
    let one = road_profile(&DFRoadType::Generic("service".to_string()), &tags(&[("lanes", "1")]));
    assert_eq!((one.block_range, one.add_stripe), (2, false));
    let many = road_profile(&DFRoadType::Generic("service".to_string()), &tags(&[("lanes", "4")]));
    assert_eq!(many.block_range, 4);
    assert_eq!(stripe_offset(&p), 6 + (18 - 6) / 2);
    assert_eq!(stripe_offset(&w3), 0);
}

#[test]
fn area_surfaces() {
    assert_eq!(area_surface(&tags(&[("surface", "sett")])), SurfaceBlock::StoneBricks);
    assert_eq!(area_surface(&tags(&[("surface", "asphalt")])), SurfaceBlock::BlackConcrete);
    assert_eq!(area_surface(&tags(&[("surface", "earth")])), SurfaceBlock::Dirt);
    assert_eq!(area_surface(&tags(&[("surface", "ice")])), SurfaceBlock::GrayConcrete);
    assert_eq!(area_surface(&Tags::new()), SurfaceBlock::GrayConcrete);
}

#[test]
fn layers_and_placement() {
    assert_eq!(way_layer(&tags(&[("layer", "2")])), 2);
    assert_eq!(way_layer(&tags(&[("layer", "-1")])), 0);
    assert_eq!(way_layer(&tags(&[("layer", "x")])), 0);
    let p = highway_placement(&tags(&[("bridge", "yes"), ("layer", "1")]));
    assert!(p.is_bridge && !p.is_indoor && !p.below_ground);
    assert_eq!(p.layer, 1);
    let p = highway_placement(&tags(&[("indoor", "yes"), ("bridge", "yes"), ("layer", "3")]));
    assert!(!p.is_bridge && p.is_indoor);
    assert_eq!(p.layer, 0);
    assert!(!highway_placement(&tags(&[("bridge", "no")])).is_bridge);
    assert!(highway_placement(&tags(&[("level", "-1")])).below_ground);
    assert_eq!(layer_base_elevation(3), 15);
}

#[test]
fn connectivity_and_slopes() {
    let a = way(1, &[(0, 0), (10, 0)], &[("highway", "primary"), ("layer", "1")]);
    let b = way(2, &[(10, 0), (20, 0)], &[("highway", "primary"), ("layer", "1")]);
    let c = way(3, &[(20, 0), (30, 0)], &[("highway", "primary")]);
    let d = way(4, &[(0, 0), (5, 5)], &[("railway", "rail")]);
    let elems = vec![
        ProcessedElement::Way(Arc::new(a)),
        ProcessedElement::Way(Arc::new(b)),
        ProcessedElement::Way(Arc::new(c)),
        ProcessedElement::Way(Arc::new(d)),
    ];
    let map = build_highway_connectivity_map(&elems);
    assert_eq!(map.get_ref((10, 0)), Some(&vec![1, 1]));
    assert_eq!(map.get_ref((20, 0)), Some(&vec![1, 0]));
    assert_eq!(map.get_ref((5, 5)), None);
    let n = |x: i32, z: i32| ProcessedNode { id: 0, tags: Tags::new(), x, z };
    assert!(!should_add_slope_at_node(&n(10, 0), 1, &map));
    assert!(should_add_slope_at_node(&n(20, 0), 1, &map));
    assert!(should_add_slope_at_node(&n(0, 0), 1, &map));
    assert!(!should_add_slope_at_node(&n(0, 0), 0, &map));
    let empty = build_highway_connectivity_map(&[]);
    assert!(should_add_slope_at_node(&n(10, 0), 2, &empty));
}

#[test]
fn bridges_over_valleys() {
    assert_eq!(bridge_sample_indices(0), Vec::<usize>::new());
    assert_eq!(bridge_sample_indices(2), vec![0, 1]);
    assert_eq!(bridge_sample_indices(4), vec![0, 1, 2, 3]);
    assert_eq!(bridge_sample_indices(7), vec![0, 3, 6]);
    assert_eq!(valley_bridge_deck(70, 72, &vec![60, 71]), Some(72));
    assert_eq!(valley_bridge_deck(70, 72, &vec![68]), None);
    assert_eq!(valley_bridge_deck(60, 72, &vec![]), Some(72));
    assert_eq!(effective_elevation(10, true, true, 2, 30), (0, false, false));
    assert_eq!(effective_elevation(10, true, true, 2, 36), (10, true, true));
}

#[test]
fn cross_sections() {
    let p = road_profile(&DFRoadType::ExpressaDF, &Tags::new());
    assert_eq!(cross_section(&p, RoadClass::ExpressaDF, 1, 0, false, 0), CrossSection::Median(SurfaceBlock::PolishedAndesite));
    assert_eq!(cross_section(&p, RoadClass::ExpressaDF, 5, 0, false, 0), CrossSection::Carriageway(SurfaceBlock::BlackConcrete, false));
    assert_eq!(cross_section(&p, RoadClass::ExpressaDF, 14, 0, false, 0), CrossSection::Verge);
    assert_eq!(cross_section(&p, RoadClass::ExpressaDF, 14, 0, true, 0), CrossSection::Nothing);
    let w3 = road_profile(&DFRoadType::W3, &Tags::new());
    assert_eq!(cross_section(&w3, RoadClass::W3, 7, 8, false, 0), CrossSection::Carriageway(SurfaceBlock::PolishedBasalt, true));
    assert_eq!(cross_section(&w3, RoadClass::W3, 7, 9, false, 0), CrossSection::Carriageway(SurfaceBlock::PolishedBasalt, false));
    assert_eq!(cross_section(&w3, RoadClass::W3, 0, 0, false, 0), CrossSection::Median(SurfaceBlock::GrassBlock));
}
