use pincel::floodfill_cache::CoordinateBitmap;
use pincel::coordinate_system::XZBBox;
use pincel::amenities::{
    build_recycling_loot_pool, generate_amenities, kind_to_category, parking_cell,
    single_loot_category, tag_enabled, AmenityKind, LootCategory, ParkingMark, RecyclingLootKind,
};
use pincel::bridges::{bridge_deck_ground, generate_bridges, pillar_at, pillar_thickness, BridgeDecision};
use pincel::buildings_interior::{
    detect_bairro, detect_edificio_especifico, detect_tipologia, generate_building_interior,
    Bairro, EdificioBrasilia, InteriorPlan, RoomLayout, Tipologia,
};
use pincel::doors::{door_style, hinge_side, name_contains_royal, opening_span, ramp_action, DoorBlock, DoorFacing, DoorStyle, RampAction};
use pincel::historic::{cross_arm_offset, generate_historic, monument_height, HistoricKind, MemorialKind};
use pincel::landmarks::{generate_unique_landmark, Landmark};
use pincel::landuse::{base_block, block_variant, landuse_tag, GroundBlock};
use pincel::man_made::{generate_man_made, generate_man_made_nodes, pier_half_width, ManMadeKind};
use pincel::osm_parser::{ProcessedElement, ProcessedNode, ProcessedWay};
use pincel::power::{
    generate_power, generate_power_nodes, line_base_height, pole_block, pole_height, runs_along_x,
    tower_height, PoleBlock, PowerStructure,
};
use pincel::tags::Tags;
use pincel::tree::{
    get_tree, SeedBlock, Tree, is_buriti_leaf, is_old_tree, is_root_cell, is_twisted,
    root_radius, species_type, type_for_roll, wall_drift, TreeBlock, TreeType,
};
use pincel::water_areas::branch_positions;
use pincel::waterways::{channel_zone, generate_waterways, get_waterway_dimensions, ChannelZone};
use std::sync::Arc;

fn tags(kv: &[(&str, &str)]) -> Tags {
    let mut t = Tags::new();
    for (k, v) in kv {
        t.insert(k.to_string(), v.to_string());
    }
    t
}

fn way(pts: &[(i32, i32)], kv: &[(&str, &str)]) -> ProcessedWay {
    ProcessedWay {
        id: 1,
        nodes: pts.iter().map(|p| ProcessedNode { id: 0, tags: Tags::new(), x: p.0, z: p.1 }).collect(),
        tags: tags(kv),
    }
}

fn node(x: i32, z: i32, kv: &[(&str, &str)]) -> ProcessedNode {
    ProcessedNode { id: 3, tags: tags(kv), x, z }
}

#[test]
fn doors() {
    assert_eq!(DoorFacing::North.as_str(), "north");
    assert_eq!(DoorFacing::West.as_str(), "west");
    assert_eq!(DoorFacing::East.width_axis(), (0, 1));
    assert_eq!(DoorFacing::North.outward(), (0, -1));
    assert_eq!(door_style(&tags(&[("barrier", "gate"), ("material", "glass")])), DoorStyle::Gate);
    assert_eq!(door_style(&tags(&[("door", "sliding")])), DoorStyle::GlassPane);
    assert_eq!(door_style(&tags(&[("entrance", "service")])), DoorStyle::Door(DoorBlock::Iron));
    assert_eq!(door_style(&tags(&[("name", "Palácio da Alvorada")])), DoorStyle::Door(DoorBlock::DarkOak));
    assert_eq!(door_style(&Tags::new()), DoorStyle::Door(DoorBlock::Oak));
    assert_eq!(door_style(&tags(&[("material", "stone")])), DoorStyle::Door(DoorBlock::Spruce));
    assert!(name_contains_royal(&tags(&[("name", "TEATRO Nacional")])));
    assert!(!name_contains_royal(&Tags::new()));
    assert_eq!(opening_span(1), (0, 0));
    assert_eq!(opening_span(2), (-1, 0));
    assert_eq!(opening_span(3), (-1, 1));
    // An opening is exactly as wide as asked.
    for width in 1..=9 {
        let (a, b) = opening_span(width);
        assert_eq!(b - a + 1, width);
    }
    assert_eq!(opening_span(0), (0, 0));
    assert_eq!(opening_span(-3), (2, 0));
    assert_eq!(hinge_side(-1), "left");
    assert_eq!(hinge_side(0), "right");
    let main = tags(&[("entrance", "main")]);
    assert_eq!(ramp_action(&main, DoorStyle::GlassPane, 65, 64), RampAction::Slab);
    assert_eq!(ramp_action(&main, DoorStyle::Door(DoorBlock::Iron), 64, 64), RampAction::Paving);
    assert_eq!(ramp_action(&main, DoorStyle::Door(DoorBlock::Oak), 65, 64), RampAction::Nothing);
    assert_eq!(ramp_action(&Tags::new(), DoorStyle::GlassPane, 65, 64), RampAction::Nothing);
}

#[test]
fn building_classification() {
    assert_eq!(detect_bairro(&way(&[], &[("addr:suburb", "SQS 308")])), Bairro::SQS);
    assert_eq!(detect_bairro(&way(&[], &[("addr:suburb", "Guará I")])), Bairro::Guara);
    assert_eq!(detect_bairro(&way(&[], &[])), Bairro::Outro);
    assert_eq!(detect_tipologia(&way(&[], &[("station", "subway")])), Tipologia::MetroElevado);
    assert_eq!(detect_tipologia(&way(&[], &[("railway", "station"), ("layer", "-1")])), Tipologia::MetroSubterraneo);
    assert_eq!(detect_tipologia(&way(&[], &[("amenity", "clinic"), ("building", "school")])), Tipologia::Hospital);
    assert_eq!(detect_tipologia(&way(&[], &[("building", "apartments")])), Tipologia::Residencial);
    assert_eq!(detect_tipologia(&way(&[], &[("building", "yes")])), Tipologia::Generico);
    assert_eq!(detect_edificio_especifico(&way(&[], &[("operator", "Banco do Brasil")])), EdificioBrasilia::SedeBancaria);
    assert_eq!(detect_edificio_especifico(&way(&[], &[("name", "Catedral Metropolitana")])), EdificioBrasilia::CatedralMetropolitana);
    assert_eq!(detect_edificio_especifico(&way(&[], &[("name", "Bloco A")])), EdificioBrasilia::Nenhum);
}

#[test]
fn interior_plans() {
    match generate_building_interior(64, 12, &[64, 67, 70], &way(&[], &[("building", "office")])) {
        InteriorPlan::Storeys(v) => {
            assert_eq!(v.len(), 3);
            assert_eq!((v[0].floor_y, v[0].ceiling, v[0].slab), (64, 67, false));
            assert_eq!((v[2].floor_y, v[2].ceiling, v[2].slab), (70, 76, true));
            assert!(v[0].has_core && v[0].corridor && v[0].elevator);
            assert_eq!(v[1].rooms, RoomLayout::Office);
        }
        _ => panic!("expected storeys"),
    }
    match generate_building_interior(64, 6, &[64, 65], &way(&[], &[("addr:suburb", "SQS 102")])) {
        InteriorPlan::Storeys(v) => {
            assert_eq!(v[0].ceiling, 67);
            assert!(!v[0].corridor && !v[0].elevator && !v[0].has_core);
            assert!(v[1].corridor);
        }
        _ => panic!("expected storeys"),
    }
    match generate_building_interior(10, 20, &[10], &way(&[], &[("building", "cathedral"), ("name", "Catedral Metropolitana")])) {
        InteriorPlan::Church { floor_y, ceiling, cathedral } => assert_eq!((floor_y, ceiling, cathedral), (11, 30, true)),
        _ => panic!("expected a church"),
    }
    assert!(matches!(generate_building_interior(10, 20, &[], &way(&[], &[("amenity", "place_of_worship")])), InteriorPlan::NoInterior));
    assert!(matches!(generate_building_interior(10, 20, &[10], &way(&[], &[("station", "subway")])), InteriorPlan::MetroElevated { platform_y: 18 }));
    assert!(matches!(
        generate_building_interior(64, 20, &[64, 67], &way(&[], &[("station", "subway"), ("location", "underground")])),
        InteriorPlan::MetroUnderground { ground_y: 64, platform_y: 50, mezzanine_y: 57 }
    ));
    match generate_building_interior(0, 9, &[0, 3, 6], &way(&[], &[("addr:suburb", "Guara II"), ("building", "house")])) {
        InteriorPlan::Storeys(v) => assert_eq!(v[1].rooms, RoomLayout::Residential),
        _ => panic!("expected storeys"),
    }
}

#[test]
fn trees() {
    assert_eq!(species_type(&tags(&[("species", "Ipê Amarelo")])), Some(TreeType::IpeAmarelo));
    assert_eq!(species_type(&tags(&[("csv:especie", "Mauritia flexuosa")])), Some(TreeType::Buriti));
    assert_eq!(species_type(&tags(&[("species", "Flamboyant")])), Some(TreeType::Acacia));
    assert_eq!(species_type(&tags(&[("species", "Mangueira")])), None);
    assert_eq!(type_for_roll(4), TreeType::Oak);
    assert_eq!(type_for_roll(5), TreeType::DarkOak);
    assert_eq!(type_for_roll(10), TreeType::Acacia);
    let t = Tree::create(12, -7);
    assert!(t == TreeType::Oak || t == TreeType::DarkOak || t == TreeType::Acacia);
    assert_eq!(Tree::create(12, -7), t);
    assert_eq!(Tree::create_from_provider(12, -7, &tags(&[("species", "copaíba")])), TreeType::Copaiba);
    assert_eq!(Tree::create_from_provider(12, -7, &Tags::new()), t);
    let oak = get_tree(TreeType::Oak);
    assert_eq!((oak.log_block, oak.log_height, oak.leaves_block), (TreeBlock::OakLog, 8, TreeBlock::OakLeaves));
    assert_eq!(oak.round_ranges[0], vec![8, 7, 6, 5, 4, 3]);
    assert_eq!(oak.leaves_fill.len(), 5);
    let buriti = get_tree(TreeType::Buriti);
    assert!(buriti.leaves_fill.is_empty() && buriti.round_ranges[2].is_empty());
    assert_eq!(get_tree(TreeType::IpeRoxo).leaves_block, TreeBlock::PinkTerracotta);
    assert_eq!(get_tree(TreeType::DarkOak).leaves_fill[4], ((0, 6, 0), (0, 7, 0)));
    assert_eq!(get_tree(TreeType::Acacia).leaves_fill[0], ((-1, 5, 0), (-1, 8, 0)));
    // Planting is refused on a building's footprint.
    let mut footprints = CoordinateBitmap::new(&XZBBox::new(0, 10, 0, 10));
    footprints.set(3, 4);
    assert!(Tree::create_of_type(3, 4, TreeType::Oak, Some(&footprints), SeedBlock::GrassBlock).is_none());
    assert_eq!(Tree::create_of_type(5, 4, TreeType::Oak, Some(&footprints), SeedBlock::GrassBlock).unwrap().log_height, 8);
    assert!(Tree::create_of_type(3, 4, TreeType::Oak, None, SeedBlock::GrassBlock).is_some());
    assert!(Tree::create_of_type(5, 4, TreeType::Oak, Some(&footprints), SeedBlock::Water).is_none());
    assert!(Tree::create_of_type(3, 4, TreeType::Oak, None, SeedBlock::StoneBrickSlab).is_none());
    assert!(Tree::create_of_type(3, 4, TreeType::Oak, None, SeedBlock::PolishedBasalt).is_none());
    assert!(Tree::create_of_type(3, 4, TreeType::Oak, None, SeedBlock::Podzol).is_some());
    assert!(is_old_tree(11) && !is_old_tree(10));
    assert!(is_twisted(TreeType::Sucupira) && !is_twisted(TreeType::Oak));
}

#[test]
fn waterways() {
    assert_eq!(get_waterway_dimensions("river"), (24, 5));
    assert_eq!(get_waterway_dimensions("drain"), (2, 1));
    assert_eq!(get_waterway_dimensions("lake"), (6, 2));
    let c = generate_waterways(&way(&[(0, 0), (5, 0)], &[("waterway", "stream"), ("width", "11")])).unwrap();
    assert_eq!((c.width, c.depth, c.decimal_width), (11, 2, false));
    let c = generate_waterways(&way(&[(0, 0), (5, 0)], &[("waterway", "canal"), ("width", "4.5")])).unwrap();
    assert_eq!((c.width, c.depth, c.decimal_width), (12, 3, true));
    assert!(generate_waterways(&way(&[(0, 0), (5, 0)], &[("waterway", "river"), ("layer", "-2")])).is_none());
    assert!(generate_waterways(&way(&[(0, 0), (5, 0)], &[("waterway", "river"), ("layer", "-4")])).is_some());
    assert!(generate_waterways(&way(&[(0, 0), (5, 0)], &[])).is_none());
    // A single node gives no segment to dig along.
    assert!(generate_waterways(&way(&[(0, 0)], &[("waterway", "river")])).is_none());
    assert_eq!(channel_zone(0, 3, 6, 2), ChannelZone::Bed);
    assert_eq!(channel_zone(4, 0, 6, 2), ChannelZone::Bank);
    assert_eq!(channel_zone(4, 0, 6, 1), ChannelZone::FloodPlain);
    assert_eq!(channel_zone(7, 0, 6, 2), ChannelZone::FloodPlain);
    assert_eq!(channel_zone(7, 1, 6, 2), ChannelZone::Outside);
}

#[test]
fn power() {
    let line = ProcessedElement::Way(Arc::new(way(&[(0, 0), (5, 0)], &[("power", "line")])));
    assert_eq!(generate_power(&line), PowerStructure::Line);
    let tower = ProcessedElement::Way(Arc::new(way(&[(3, 4), (5, 0)], &[("power", "tower")])));
    assert_eq!(generate_power(&tower), PowerStructure::Tower(3, 4));
    let buried = ProcessedElement::Way(Arc::new(way(&[(0, 0)], &[("power", "line"), ("location", "underground")])));
    assert_eq!(generate_power(&buried), PowerStructure::Nothing);
    let n = ProcessedElement::Node(node(1, 2, &[("power", "line")]));
    assert_eq!(generate_power(&n), PowerStructure::Nothing);
    assert_eq!(generate_power_nodes(&node(1, 2, &[("power", "pole")])), PowerStructure::Pole(1, 2));
    assert_eq!(generate_power_nodes(&node(1, 2, &[("power", "pole"), ("level", "-1")])), PowerStructure::Nothing);
    assert_eq!(tower_height(None), 29);
    assert_eq!(tower_height(Some(60)), 46);
    assert_eq!(pole_height(Some(3)), 7);
    assert_eq!(pole_block(&tags(&[("material", "steel")])), PoleBlock::IronBlock);
    assert_eq!(pole_block(&Tags::new()), PoleBlock::GrayConcrete);
    assert_eq!(line_base_height(&tags(&[("voltage", "230000")])), 29);
    assert_eq!(line_base_height(&tags(&[("voltage", "13800")])), 14);
    assert_eq!(line_base_height(&tags(&[("voltage", "230kV")])), 18);
    assert!(runs_along_x((0, 0), (-5, 5)));
    assert!(!runs_along_x((0, 0), (4, -5)));
}

#[test]
fn man_made_and_historic() {
    let el = |kv: &[(&str, &str)]| ProcessedElement::Way(Arc::new(way(&[(0, 0)], kv)));
    assert_eq!(generate_man_made(&el(&[("man_made", "silo")])), ManMadeKind::Tank);
    assert_eq!(generate_man_made(&el(&[("man_made", "mast")])), ManMadeKind::Antenna);
    assert_eq!(generate_man_made(&el(&[("man_made", "tower"), ("layer", "-1")])), ManMadeKind::Nothing);
    assert_eq!(generate_man_made(&el(&[("man_made", "pipeline"), ("layer", "-1")])), ManMadeKind::Nothing);
    assert_eq!(generate_man_made(&el(&[("man_made", "tower"), ("layer", "-1"), ("diameter", "2")])), ManMadeKind::Tower);
    assert_eq!(generate_man_made_nodes(&node(0, 0, &[("man_made", "pier")])), ManMadeKind::Nothing);
    assert_eq!(generate_man_made_nodes(&node(0, 0, &[("man_made", "chimney")])), ManMadeKind::Chimney);
    assert_eq!(pier_half_width(&Tags::new()), 2);
    assert_eq!(pier_half_width(&tags(&[("width", "9")])), 4);
    assert_eq!(generate_historic(&node(0, 0, &[("historic", "memorial"), ("memorial", "bust")])), HistoricKind::Memorial(MemorialKind::Statue));
    assert_eq!(
        generate_historic(&node(0, 0, &[("historic", "memorial"), ("memorial", "obelisk"), ("name", "Mastro da Bandeira")])),
        HistoricKind::Memorial(MemorialKind::Obelisk { flagpole: true })
    );
    assert_eq!(generate_historic(&node(0, 0, &[("historic", "memorial")])), HistoricKind::Memorial(MemorialKind::Other));
    assert_eq!(generate_historic(&node(0, 0, &[("historic", "monument"), ("layer", "-1")])), HistoricKind::Nothing);
    assert_eq!(generate_historic(&node(0, 0, &[("historic", "wayside_cross")])), HistoricKind::WaysideCross);
    assert_eq!(cross_arm_offset(6), 4);
    assert_eq!(cross_arm_offset(2), 3);
    assert_eq!(monument_height(None), 25);
    assert_eq!(monument_height(Some(130)), 100);
}

#[test]
fn landmarks_and_bridges() {
    assert_eq!(generate_unique_landmark(&way(&[], &[("name", "Congresso Nacional")])), Some(Landmark::Congresso));
    assert_eq!(generate_unique_landmark(&way(&[], &[("name", "Torre de TV Digital")])), None);
    assert_eq!(generate_unique_landmark(&way(&[], &[("name", "Torre de TV")])), Some(Landmark::TorreTv));
    assert_eq!(generate_unique_landmark(&way(&[], &[("name", "Estação Guará"), ("railway", "station")])), Some(Landmark::EstacaoGuara));
    assert_eq!(generate_unique_landmark(&way(&[], &[("name", "Estação Guará")])), None);
    assert_eq!(generate_unique_landmark(&way(&[], &[("name", "Congresso Nacional"), ("source", "GDF_Mesh_Voxel")])), None);
    assert_eq!(generate_bridges(&way(&[(0, 0), (9, 0)], &[("bridge", "yes")])), BridgeDecision::Span);
    assert_eq!(generate_bridges(&way(&[(0, 0)], &[("bridge", "yes")])), BridgeDecision::TooShort);
    // Nodes all at one place make a bridge of length zero.
    assert_eq!(generate_bridges(&way(&[(4, 4), (4, 4), (4, 4)], &[("bridge", "yes")])), BridgeDecision::TooShort);
    assert_eq!(generate_bridges(&way(&[(0, 0), (9, 0)], &[])), BridgeDecision::NotABridge);
    assert_eq!(generate_bridges(&way(&[(0, 0), (9, 0)], &[("bridge", "yes"), ("name", "Ponte JK - Memorial JK")])), BridgeDecision::Landmark(Landmark::MemorialJk));
    assert_eq!(bridge_deck_ground(3, 9), 9);
    assert!(pillar_at(64, 7) && !pillar_at(65, 10) && !pillar_at(32, 6));
    assert_eq!(pillar_thickness(90, 70), 2);
    assert_eq!(pillar_thickness(80, 70), 1);
}

#[test]
fn amenities() {
    let el = |kv: &[(&str, &str)]| ProcessedElement::Node(node(0, 0, kv));
    assert_eq!(generate_amenities(&el(&[("amenity", "recycling")])), AmenityKind::Nothing);
    assert_eq!(generate_amenities(&el(&[("amenity", "recycling"), ("recycling_type", "container")])), AmenityKind::RecyclingContainer);
    assert_eq!(generate_amenities(&el(&[("amenity", "atm")])), AmenityKind::VendingMachine);
    assert_eq!(generate_amenities(&el(&[("amenity", "bench"), ("level", "-2")])), AmenityKind::Nothing);
    let t = tags(&[("recycling:glass", "yes"), ("recycling:paper", "yes"), ("recycling:cans", "no")]);
    assert!(tag_enabled(&t, "recycling:glass") && !tag_enabled(&t, "recycling:cans"));
    let pool = build_recycling_loot_pool(&t);
    assert_eq!(pool, vec![RecyclingLootKind::Paper, RecyclingLootKind::GlassBlock, RecyclingLootKind::GlassPane]);
    assert_eq!(single_loot_category(&pool), None);
    assert_eq!(single_loot_category(&pool[1..]), Some(LootCategory::Glass));
    assert_eq!(single_loot_category(&[]), None);
    assert_eq!(kind_to_category(RecyclingLootKind::LeatherBoots), LootCategory::Leather);
    assert_eq!(parking_cell(0, 0), (ParkingMark::Line, true));
    assert_eq!(parking_cell(1, 3), (ParkingMark::Plain, false));
    assert_eq!(parking_cell(2, 7), (ParkingMark::Line, false));
    assert_eq!(parking_cell(2, 10), (ParkingMark::Lane, false));
    assert_eq!(parking_cell(16, 30), (ParkingMark::Line, true));
    assert_eq!(parking_cell(4, 0), (ParkingMark::Line, false));
}

#[test]
fn landuse_and_vegetation() {
    let t = tags(&[("leisure", "park")]);
    assert_eq!(landuse_tag(&t), "park");
    assert_eq!(landuse_tag(&Tags::new()), "");
    assert_eq!(base_block("farmland", &Tags::new()), GroundBlock::Farmland);
    assert_eq!(base_block("landfill", &tags(&[("man_made", "heap")])), GroundBlock::Gravel);
    assert_eq!(base_block("landfill", &Tags::new()), GroundBlock::CoarseDirt);
    assert_eq!(base_block("orchard", &Tags::new()), GroundBlock::GrassBlock);
    assert_eq!(block_variant("commercial", GroundBlock::PolishedAndesite, 69, 0, 0), GroundBlock::PolishedAndesite);
    assert_eq!(block_variant("commercial", GroundBlock::PolishedAndesite, 70, 0, 0), GroundBlock::StoneBricks);
    assert_eq!(block_variant("park", GroundBlock::GrassBlock, 5, -1, 0), GroundBlock::WhiteConcrete);
    assert_eq!(block_variant("park", GroundBlock::GrassBlock, 5, -1, 1), GroundBlock::BlackConcrete);
    assert_eq!(block_variant("park", GroundBlock::GrassBlock, 20, 0, 0), GroundBlock::GrassBlock);
    assert_eq!(block_variant("residential", GroundBlock::GrassBlock, 95, 0, 0), GroundBlock::GrassBlock);
    assert_eq!(block_variant("forest", GroundBlock::GrassBlock, 14, 0, 0), GroundBlock::Podzol);
    assert_eq!(branch_positions(10, 64, 20, 2, -2), vec![(10, 65, 20), (11, 66, 19), (12, 67, 18)]);
    assert_eq!(branch_positions(0, 0, 0, -1, 1), vec![(0, 1, 0), (0, 2, 0), (-1, 3, 1)]);
}

#[test]
fn trunk_leans_away_from_walls() {
    assert_eq!(wall_drift(false, false, false, false), (0, 0));
    assert_eq!(wall_drift(true, false, false, false), (-1, 0));
    assert_eq!(wall_drift(false, true, true, false), (1, -1));
    assert_eq!(wall_drift(true, true, true, true), (1, 1));
}

#[test]
fn root_cells() {
    assert_eq!(root_radius(11), 2);
    assert_eq!(root_radius(10), 1);
    assert!(!is_root_cell(0, 0, -1, 1));
    assert!(is_root_cell(1, 0, 0, 1));
    assert!(!is_root_cell(1, 1, 0, 1));
    assert!(is_root_cell(1, 1, -1, 1));
    let mut below = 0;
    let mut above = 0;
    for dx in -1..=1 {
        for dz in -1..=1 {
            if is_root_cell(dx, dz, -1, 1) {
                below += 1;
            }
            if is_root_cell(dx, dz, 0, 1) {
                above += 1;
            }
        }
    }
    assert_eq!((below, above), (8, 4));
}

#[test]
fn buriti_crown() {
    let mut count = 0;
    for dy in -2..=1 {
        for dx in -2..=2 {
            for dz in -2..=2 {
                if is_buriti_leaf(dx, dz, dy) {
                    count += 1;
                }
            }
        }
    }
    // 21 per upper layer (all but the four corners), and a cross of 4 below.
    assert_eq!(count, 3 * 21 + 4);
    assert!(!is_buriti_leaf(2, 2, 0));
    assert!(!is_buriti_leaf(0, 0, -2));
    assert!(is_buriti_leaf(0, 1, -2));
}
