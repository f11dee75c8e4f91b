use pincel::man_made::{
    antenna_block_at, antenna_height, tank_block_at, tank_height, tank_material, chimney_block_at, chimney_height, street_cabinet_block_at,
    utility_pole_block_at, utility_pole_material, water_tower_block_at, water_well_block_at, StructureBlock,
    UTILITY_POLE_HEIGHT, WATER_TANK_HEIGHT, WATER_TOWER_HEIGHT,
};
use pincel::historic::{
    cross_block_at, memorial_block_at, memorial_kind, monument_block_at, monument_height, HistoricBlock, MemorialKind,
    MEMORIAL_CROSS_HEIGHT, WAYSIDE_CROSS_HEIGHT,
};
use pincel::highways::{furniture_block_at, street_furniture, FurnitureBlock, StreetFurniture};
use pincel::osm_parser::{ProcessedElement, ProcessedNode, ProcessedWay};
use std::sync::Arc;
use pincel::waterways::{channel_cell_at, channel_zone, ChannelCell, ChannelZone};
use pincel::power::{power_line_max_sag, power_line_wire_y, power_pole_block_at, power_tower_block_at, tower_height, PoleBlock, PoleCell, TowerCell};
use pincel::tags::Tags;
use std::collections::HashMap;

type Cells<B> = HashMap<(i32, i32, i32), B>;
const V_SCALE: f64 = 1.15;

fn check<B: Copy + PartialEq + std::fmt::Debug>(
    expected: &Cells<B>,
    r: i32,
    lo: i32,
    hi: i32,
    f: impl Fn(i32, i32, i32) -> Option<B>,
) {
    for dx in -r..=r {
        for dz in -r..=r {
            for dy in lo..=hi {
                assert_eq!(f(dx, dy, dz), expected.get(&(dx, dy, dz)).copied(), "cell {:?}", (dx, dy, dz));
            }
        }
    }
}

fn chimney(height: i32) -> Cells<StructureBlock> {
    let mut m = Cells::new();
    for y in 0..height {
        for dx in -2i32..=2 {
            for dz in -2i32..=2 {
                if dx.abs() <= 1 && dz.abs() <= 1 {
                    continue;
                }
                m.insert((dx, y, dz), StructureBlock::Brick);
            }
        }
    }
    m
}

#[test]
fn chimney_is_a_hollow_brick_shaft() {
    for h in [0, 1, 5, 40] {
        let m = chimney(h);
        check(&m, 4, -2, h + 2, |dx, dy, dz| chimney_block_at(h, dx, dy, dz));
    }
    assert_eq!(chimney_height(None), 40);
    assert_eq!(chimney_height(Some((10.0 * V_SCALE) as i32)), 11);
}

#[test]
fn water_well_cells() {
    let mut m = Cells::new();
    for dx in -1i32..=1 {
        for dz in -1i32..=1 {
            if dx == 0 && dz == 0 {
                m.insert((0, -1, 0), StructureBlock::Water);
                m.insert((0, 0, 0), StructureBlock::Water);
            } else {
                m.insert((dx, 0, dz), StructureBlock::StoneBricks);
                m.insert((dx, 1, dz), StructureBlock::StoneBricks);
            }
        }
    }
    for y in 1..=4 {
        m.insert((-2, y, 0), StructureBlock::OakLog);
        m.insert((2, y, 0), StructureBlock::OakLog);
    }
    m.insert((-1, 5, 0), StructureBlock::OakSlab);
    m.insert((0, 4, 0), StructureBlock::OakFence);
    m.insert((0, 5, 0), StructureBlock::OakSlab);
    m.insert((1, 5, 0), StructureBlock::OakSlab);
    m.insert((0, 3, 0), StructureBlock::IronBlock);
    check(&m, 4, -3, 8, water_well_block_at);
}

#[test]
fn water_tower_cells() {
    let tower_height = (25.0 * V_SCALE) as i32;
    let tank_height = (8.0 * V_SCALE) as i32;
    assert_eq!(tower_height, WATER_TOWER_HEIGHT);
    assert_eq!(tank_height, WATER_TANK_HEIGHT);
    let mut m = Cells::new();
    for (dx, dz) in [(-3, -3), (3, -3), (-3, 3), (3, 3)] {
        for y in 0..tower_height {
            m.insert((dx, y, dz), StructureBlock::LightGrayConcrete);
        }
    }
    for y in (7..tower_height).step_by(7) {
        for d in -2i32..=2 {
            m.insert((d, y, -3), StructureBlock::StoneBricks);
            m.insert((d, y, 3), StructureBlock::StoneBricks);
            m.insert((-3, y, d), StructureBlock::StoneBricks);
            m.insert((3, y, d), StructureBlock::StoneBricks);
        }
    }
    for dx in -4..=4 {
        for dz in -4..=4 {
            for y in tower_height..=tower_height + tank_height {
                m.insert((dx, y, dz), StructureBlock::WhiteConcrete);
            }
        }
    }
    for y in 0..tower_height {
        m.insert((0, y, 0), StructureBlock::CyanTerracotta);
        m.insert((1, y, 0), StructureBlock::CyanTerracotta);
    }
    check(&m, 6, -2, tower_height + tank_height + 2, water_tower_block_at);
}

#[test]
fn utility_pole_cells_and_material() {
    let height = (8.0 * V_SCALE).round() as i32;
    assert_eq!(height, UTILITY_POLE_HEIGHT);
    let mut t = Tags::new();
    assert_eq!(utility_pole_material(&t), StructureBlock::PolishedAndesite);
    t.insert("material".to_string(), "wood".to_string());
    assert_eq!(utility_pole_material(&t), StructureBlock::SpruceLog);
    t.insert("material".to_string(), "metal".to_string());
    let mat = utility_pole_material(&t);
    assert_eq!(mat, StructureBlock::IronBlock);
    let mut m = Cells::new();
    for y in 1..=height {
        m.insert((0, y, 0), mat);
    }
    m.insert((1, height - 1, 0), StructureBlock::IronBars);
    m.insert((-1, height - 1, 0), StructureBlock::IronBars);
    m.insert((1, height - 2, 0), StructureBlock::Glowstone);
    check(&m, 3, -1, height + 2, |dx, dy, dz| utility_pole_block_at(mat, dx, dy, dz));
}

#[test]
fn street_cabinet_cells() {
    let mut m = Cells::new();
    m.insert((0, 1, 0), StructureBlock::IronBlock);
    m.insert((0, 2, 0), StructureBlock::SmoothStoneSlab);
    check(&m, 2, -1, 4, street_cabinet_block_at);
}

fn antenna(height: i32) -> Cells<StructureBlock> {
    let mut m = Cells::new();
    m.insert((0, 1, 0), StructureBlock::IronBlock);
    for y in 2..height {
        m.insert((0, y, 0), StructureBlock::IronBars);
    }
    for y in (10..height).step_by(10) {
        m.insert((0, y, 0), StructureBlock::IronBlock);
        for (dx, dz) in [(1, 0), (-1, 0), (0, 1), (0, -1)] {
            m.insert((dx, y, dz), StructureBlock::IronBlock);
        }
    }
    // The machine house replaces nothing but itself.
    for dx in -2..=2 {
        for dz in -2..=2 {
            for y in 1..=3 {
                match m.get(&(dx, y, dz)) {
                    None | Some(StructureBlock::LightGrayConcrete) => {
                        m.insert((dx, y, dz), StructureBlock::LightGrayConcrete);
                    }
                    _ => {}
                }
            }
        }
    }
    m
}

#[test]
fn antenna_cells_and_height() {
    for h in [0, 2, 3, 10, 11, 34, 40, 80] {
        let m = antenna(h);
        check(&m, 4, -1, h + 2, |dx, dy, dz| antenna_block_at(h, dx, dy, dz));
    }
    let mut t = Tags::new();
    assert_eq!(antenna_height(&t, None), 40);
    t.insert("height".to_string(), "tall".to_string());
    assert_eq!(antenna_height(&t, None), (30.0 * V_SCALE) as i32);
    assert_eq!(antenna_height(&t, Some((100.0 * V_SCALE) as i32)), 80);
    assert_eq!(antenna_height(&t, Some((20.0 * V_SCALE) as i32)), 23);
}

#[test]
fn power_pole_cells() {
    for (height, mat) in [(7, PoleBlock::OakLog), (12, PoleBlock::GrayConcrete), (18, PoleBlock::IronBlock)] {
        let mut m: Cells<PoleCell> = Cells::new();
        for y in 1..=height {
            m.insert((0, y, 0), PoleCell::Pole(mat));
        }
        for dx in -2..=2 {
            m.insert((dx, height, 0), PoleCell::LightGrayConcrete);
        }
        m.insert((-2, height + 1, 0), PoleCell::EndRod);
        m.insert((2, height + 1, 0), PoleCell::EndRod);
        m.insert((0, height + 1, 0), PoleCell::EndRod);
        check(&m, 3, -1, height + 3, |dx, dy, dz| power_pole_block_at(height, mat, dx, dy, dz));
    }
}

fn cross(m: &mut Cells<HistoricBlock>, height: i32) {
    m.insert((0, 1, 0), HistoricBlock::PolishedAndesite);
    for y in 2..=height {
        m.insert((0, y, 0), HistoricBlock::WhiteConcrete);
    }
    let arm_y = (height * 3 / 4).max(3);
    for dw in -2i32..=2 {
        if dw != 0 {
            m.insert((dw, arm_y, 0), HistoricBlock::WhiteConcrete);
        }
    }
}

fn memorial(memorial_type: &str, flagpole: bool, bronze: bool, obelisk_height: i32) -> Cells<HistoricBlock> {
    let mut m = Cells::new();
    match memorial_type {
        "plaque" => {
            m.insert((0, 1, 0), HistoricBlock::SmoothQuartz);
            m.insert((0, 2, 0), HistoricBlock::PolishedAndesite);
        }
        "statue" | "sculpture" | "bust" => {
            for dx in -1..=1 {
                for dz in -1..=1 {
                    m.insert((dx, 1, dz), HistoricBlock::SmoothQuartz);
                }
            }
            m.insert((0, 2, 0), HistoricBlock::SmoothQuartz);
            let b = if bronze { HistoricBlock::PolishedBasalt } else { HistoricBlock::PolishedAndesite };
            for y in 3..=6 {
                m.insert((0, y, 0), b);
                if y == 5 {
                    m.insert((1, y, 0), HistoricBlock::AndesiteWall);
                    m.insert((-1, y, 0), HistoricBlock::AndesiteWall);
                }
            }
        }
        "stone" | "stolperstein" => {
            let b = if memorial_type == "stolperstein" { HistoricBlock::GoldBlock } else { HistoricBlock::PolishedAndesite };
            m.insert((0, 0, 0), b);
        }
        "cross" | "war_memorial" => cross(&mut m, 9),
        "obelisk" => {
            for dx in -2..=2 {
                for dz in -2..=2 {
                    m.insert((dx, 1, dz), HistoricBlock::PolishedAndesite);
                }
            }
            if flagpole {
                for y in 2..=obelisk_height {
                    m.insert((0, y, 0), HistoricBlock::IronBlock);
                    if y % 2 == 0 {
                        for (dx, dz) in [(1, 0), (-1, 0), (0, 1), (0, -1)] {
                            m.insert((dx, y, dz), HistoricBlock::IronBars);
                        }
                    }
                }
            } else {
                for y in 2..=obelisk_height {
                    m.insert((0, y, 0), HistoricBlock::SmoothQuartz);
                }
                m.insert((0, obelisk_height + 1, 0), HistoricBlock::QuartzSlabTop);
            }
        }
        "stele" => {
            m.insert((0, 1, 0), HistoricBlock::PolishedAndesite);
            for y in 2..=5 {
                m.insert((0, y, 0), HistoricBlock::AndesiteWall);
            }
            m.insert((0, 6, 0), HistoricBlock::SmoothStoneSlab);
        }
        _ => {
            m.insert((0, 1, 0), HistoricBlock::SmoothQuartz);
            m.insert((0, 2, 0), HistoricBlock::SmoothQuartz);
            m.insert((0, 3, 0), HistoricBlock::PolishedAndesite);
        }
    }
    m
}

#[test]
fn memorial_cells_of_each_kind() {
    let cases: [(&str, bool); 12] = [
        ("plaque", false),
        ("statue", false),
        ("bust", false),
        ("stone", false),
        ("stolperstein", false),
        ("cross", false),
        ("war_memorial", false),
        ("obelisk", false),
        ("obelisk", true),
        ("stele", false),
        ("yes", false),
        ("fountain", false),
    ];
    for (memorial_type, flagpole) in cases {
        let mut t = Tags::new();
        t.insert("memorial".to_string(), memorial_type.to_string());
        if flagpole {
            t.insert("flag:type".to_string(), "national".to_string());
        }
        let kind = memorial_kind(&t);
        for bronze in [false, true] {
            for h in [0, 1, 20, 34] {
                let m = memorial(memorial_type, flagpole, bronze, h);
                check(&m, 4, -2, 40, |dx, dy, dz| memorial_block_at(kind, bronze, h, dx, dy, dz));
            }
        }
    }
    let mut t = Tags::new();
    t.insert("memorial".to_string(), "stolperstein".to_string());
    assert_eq!(memorial_kind(&t), MemorialKind::Stone { stolperstein: true });
}

#[test]
fn crosses_and_monuments() {
    assert_eq!(MEMORIAL_CROSS_HEIGHT, 9);
    for h in [WAYSIDE_CROSS_HEIGHT, MEMORIAL_CROSS_HEIGHT, 0, 3] {
        let mut m = Cells::new();
        cross(&mut m, h);
        check(&m, 3, -1, 12, |dx, dy, dz| cross_block_at(h, dx, dy, dz));
    }
    for h in [monument_height(None), monument_height(Some(3)), monument_height(Some(500)), 1, 8] {
        let mut m = Cells::new();
        for dx in -4..=4 {
            for dz in -4..=4 {
                m.insert((dx, 1, dz), HistoricBlock::WhiteConcrete);
            }
        }
        for y in 2..h {
            for (dx, dz) in [(0, 0), (1, 0), (0, 1), (1, 1)] {
                m.insert((dx, y, dz), HistoricBlock::WhiteConcrete);
            }
            if y > h - 8 {
                m.insert((2, y, 0), HistoricBlock::SmoothQuartz);
                m.insert((-1, y, 1), HistoricBlock::SmoothQuartz);
            }
        }
        m.insert((0, h, 0), HistoricBlock::SmoothQuartz);
        m.insert((1, h, 1), HistoricBlock::SmoothQuartz);
        check(&m, 5, -1, h + 2, |dx, dy, dz| monument_block_at(h, dx, dy, dz));
    }
}

fn tagged(kv: &[(&str, &str)]) -> Tags {
    let mut t = Tags::new();
    for (k, v) in kv {
        t.insert(k.to_string(), v.to_string());
    }
    t
}

fn furniture_node(kv: &[(&str, &str)]) -> ProcessedElement {
    ProcessedElement::Node(ProcessedNode { id: 5, tags: tagged(kv), x: 10, z: -4 })
}

#[test]
fn street_furniture_of_nodes_only() {
    assert_eq!(street_furniture(&furniture_node(&[("highway", "street_lamp")])), Some(StreetFurniture::StreetLamp));
    assert_eq!(
        street_furniture(&furniture_node(&[("highway", "crossing"), ("crossing", "traffic_signals")])),
        Some(StreetFurniture::TrafficSignals)
    );
    assert_eq!(street_furniture(&furniture_node(&[("highway", "crossing"), ("crossing", "zebra")])), None);
    assert_eq!(street_furniture(&furniture_node(&[("highway", "crossing")])), None);
    assert_eq!(street_furniture(&furniture_node(&[("highway", "bus_stop")])), Some(StreetFurniture::BusStop));
    assert_eq!(street_furniture(&furniture_node(&[("highway", "primary")])), None);
    assert_eq!(street_furniture(&furniture_node(&[("amenity", "bench")])), None);
    let w = ProcessedWay { id: 2, nodes: vec![], tags: tagged(&[("highway", "street_lamp")]) };
    assert_eq!(street_furniture(&ProcessedElement::Way(Arc::new(w))), None);
}

#[test]
fn street_furniture_cells() {
    let mut lamp = Cells::new();
    lamp.insert((0, 1, 0), FurnitureBlock::PolishedAndesite);
    for dy in 2..=7 {
        lamp.insert((0, dy, 0), FurnitureBlock::IronBars);
    }
    lamp.insert((0, 8, 0), FurnitureBlock::Glowstone);
    check(&lamp, 3, -1, 10, |dx, dy, dz| furniture_block_at(StreetFurniture::StreetLamp, dx, dy, dz));

    let mut signals = Cells::new();
    for dy in 1..=4 {
        signals.insert((0, dy, 0), FurnitureBlock::AndesiteWall);
    }
    signals.insert((0, 5, 0), FurnitureBlock::GreenWool);
    signals.insert((0, 6, 0), FurnitureBlock::YellowWool);
    signals.insert((0, 7, 0), FurnitureBlock::RedWool);
    check(&signals, 3, -1, 10, |dx, dy, dz| furniture_block_at(StreetFurniture::TrafficSignals, dx, dy, dz));

    let mut stop = Cells::new();
    for dy in 1..=3 {
        stop.insert((0, dy, 0), FurnitureBlock::IronBars);
        stop.insert((2, dy, 0), FurnitureBlock::IronBars);
    }
    for dx in 0..=2 {
        stop.insert((dx, 4, 0), FurnitureBlock::SmoothStoneSlab);
        if dx == 1 {
            stop.insert((dx, 3, 0), FurnitureBlock::GrayStainedGlass);
        }
    }
    check(&stop, 3, -1, 6, |dx, dy, dz| furniture_block_at(StreetFurniture::BusStop, dx, dy, dz));
}

fn tank(area: &[(i32, i32)], height: i32, material: StructureBlock, base_y: i32) -> Cells<StructureBlock> {
    let mut m = Cells::new();
    for &(px, pz) in area {
        let is_edge = !area.contains(&(px + 1, pz))
            || !area.contains(&(px - 1, pz))
            || !area.contains(&(px, pz + 1))
            || !area.contains(&(px, pz - 1));
        for y in 0..height {
            let block = if is_edge { material } else { StructureBlock::Water };
            m.insert((px, base_y + y, pz), block);
        }
        m.insert((px, base_y + height, pz), material);
        if is_edge {
            m.insert((px, base_y + height + 1, pz), StructureBlock::StoneBrickSlab);
        }
    }
    m
}

#[test]
fn tank_cells_height_and_material() {
    let mut area: Vec<(i32, i32)> = Vec::new();
    for x in 0..6 {
        for z in 0..5 {
            area.push((x, z));
        }
    }
    for x in 6..9 {
        for z in 2..5 {
            area.push((x, z));
        }
    }
    let mut t = Tags::new();
    assert_eq!(tank_height(&t, None), 10);
    assert_eq!(tank_material(&t), StructureBlock::WhiteConcrete);
    t.insert("height".to_string(), "?".to_string());
    assert_eq!(tank_height(&t, None), (12.0 * V_SCALE) as i32);
    assert_eq!(tank_height(&t, Some((6.0 * V_SCALE) as i32)), 6);
    t.insert("material".to_string(), "steel".to_string());
    let mat = tank_material(&t);
    assert_eq!(mat, StructureBlock::IronBlock);
    for (h, g) in [(10, 3), (6, -2)] {
        let m = tank(&area, h, mat, g);
        for x in -2..11 {
            for z in -2..7 {
                for y in g - 2..g + h + 3 {
                    assert_eq!(tank_block_at(&area, h, mat, g, x, y, z), m.get(&(x, y, z)).copied(), "cell {:?}", (x, y, z));
                }
            }
        }
    }
}

#[derive(Clone, Copy, PartialEq, Debug)]
enum Dug {
    Water,
    Air,
    Floor,
}

fn dug_column(half_width: i32, final_depth: i32, dx: i32, dz: i32, surface: i32, ground: i32) -> HashMap<i32, Dug> {
    let mut m = HashMap::new();
    let distance_sq = dx * dx + dz * dz;
    let outer_radius_sq = (half_width + 1) * (half_width + 1);
    let mut dig = |bottom_y: i32| {
        let top_y = ground.max(surface);
        for y in bottom_y..=top_y {
            m.insert(y, if y <= surface { Dug::Water } else { Dug::Air });
        }
        m.insert(bottom_y - 1, Dug::Floor);
    };
    if distance_sq <= half_width * half_width {
        dig(surface - final_depth);
    } else if distance_sq <= outer_radius_sq && final_depth > 1 {
        dig(surface - (final_depth / 2).max(1));
    }
    m
}

#[test]
fn channel_columns_of_bed_and_bank() {
    for (width, depth) in [(24, 5), (7, 2), (3, 1), (2, 1), (12, 3)] {
        let half = width / 2;
        for dx in -(half + 4)..=(half + 4) {
            for dz in -(half + 4)..=(half + 4) {
                let zone = channel_zone(dx, dz, width, depth);
                for (surface, ground) in [(60, 64), (60, 58), (-3, -3)] {
                    let m = dug_column(half, depth, dx, dz, surface, ground);
                    for y in surface - depth - 3..=ground.max(surface) + 3 {
                        let got = match channel_cell_at(zone, depth, surface, ground, y) {
                            Some(ChannelCell::Water) => Some(Dug::Water),
                            Some(ChannelCell::Air) => Some(Dug::Air),
                            Some(ChannelCell::Floor) => Some(Dug::Floor),
                            None => None,
                        };
                        assert_eq!(got, m.get(&y).copied(), "{:?}", (width, depth, dx, dz, surface, ground, y));
                    }
                }
            }
        }
    }
    assert_eq!(channel_zone(0, 0, 7, 2), ChannelZone::Bed);
}

fn power_tower(height: i32) -> Cells<TowerCell> {
    let mut m = Cells::new();
    let base_width = 5;
    let top_width = 1;
    let arm_height = height - 5;
    let arm_length = 8;
    for y in 1..=height {
        let progress = y as f32 / height as f32;
        let current_width = base_width - ((base_width - top_width) as f32 * progress) as i32;
        for (cx, cz) in [
            (-current_width, -current_width),
            (current_width, -current_width),
            (-current_width, current_width),
            (current_width, current_width),
        ] {
            m.insert((cx, y, cz), TowerCell::Andesite);
        }
        if y % 5 == 0 && y < height - 2 {
            for dx in -current_width..=current_width {
                m.insert((dx, y, -current_width), TowerCell::Andesite);
                m.insert((dx, y, current_width), TowerCell::Andesite);
            }
            for dz in -current_width..=current_width {
                m.insert((-current_width, y, dz), TowerCell::Andesite);
                m.insert((current_width, y, dz), TowerCell::Andesite);
            }
        }
        if y % 5 >= 1 && y % 5 <= 4 && y > 1 && y < height - 2 {
            let prev_width = base_width - ((base_width - top_width) as f32 * ((y - 1) as f32 / height as f32)) as i32;
            if current_width != prev_width || y % 5 == 2 {
                m.insert((0, y, 0), TowerCell::IronBars);
            }
        }
    }
    for arm_offset in [-arm_length, arm_length] {
        for dx in 0..=arm_length {
            let arm_x = if arm_offset < 0 { -dx } else { dx };
            m.insert((arm_x, arm_height, 0), TowerCell::Andesite);
            m.insert((0, arm_height, if arm_offset < 0 { -dx } else { dx }), TowerCell::Andesite);
        }
        let end_x = if arm_offset < 0 { -arm_length } else { arm_length };
        m.insert((end_x, arm_height - 1, 0), TowerCell::EndRod);
        m.insert((0, arm_height - 1, arm_offset), TowerCell::EndRod);
    }
    let lower_arm_height = arm_height - 7;
    if lower_arm_height > 5 {
        let lower_arm_length = arm_length - 2;
        for arm_offset in [-lower_arm_length, lower_arm_length] {
            for dx in 0..=lower_arm_length {
                let arm_x = if arm_offset < 0 { -dx } else { dx };
                m.insert((arm_x, lower_arm_height, 0), TowerCell::Andesite);
            }
            let end_x = if arm_offset < 0 { -lower_arm_length } else { lower_arm_length };
            m.insert((end_x, lower_arm_height - 1, 0), TowerCell::EndRod);
        }
    }
    m.insert((0, height, 0), TowerCell::Andesite);
    m.insert((0, height + 1, 0), TowerCell::LightningRod);
    for dx in -4..=4 {
        for dz in -4..=4 {
            m.insert((dx, 0, dz), TowerCell::PolishedAndesite);
        }
    }
    m
}

#[test]
fn power_tower_cells_for_every_height() {
    assert_eq!(tower_height(None), 29);
    for h in 17..=46 {
        let m = power_tower(h);
        check(&m, 10, -2, h + 3, |dx, dy, dz| power_tower_block_at(h, dx, dy, dz));
    }
}

#[test]
fn power_line_sag_matches_the_catenary() {
    for dx in -120..=120 {
        for dz in [-95, -30, -7, 0, 1, 15, 44, 90] {
            let (fx, fz) = (dx as f64, dz as f64);
            let distance = (fx * fx + fz * fz).sqrt();
            let expected = (distance / 15.0).clamp(1.0, 6.0) as i32;
            assert_eq!(power_line_max_sag((10, -3), (10 + dx, -3 + dz)), expected, "{:?}", (dx, dz));
        }
    }
    for base_height in [3, 14, 18, 24, 29] {
        for max_sag in 1..=6 {
            for len in 1usize..=80 {
                for idx in 0..len {
                    let denom = (len.saturating_sub(1)).max(1) as f64;
                    let t = idx as f64 / denom;
                    let sag = (4.0 * max_sag as f64 * t * (1.0 - t)) as i32;
                    let expected = (base_height - sag).max(3);
                    assert_eq!(power_line_wire_y(base_height, max_sag, idx, len), expected, "{:?}", (base_height, max_sag, len, idx));
                }
            }
        }
    }
}
