use pincel::landmarks::{box_landmark_block_at, box_landmark_height, memorial_jk_block_at, stadium_block_at, torre_tv_block_at, Landmark, LandmarkBlock};
use std::collections::HashMap;

const V_SCALE: f64 = 1.15;

struct B {
    min_x: i32,
    max_x: i32,
    min_z: i32,
    max_z: i32,
    cx: i32,
    cz: i32,
}

fn replay(l: Landmark, b: &B, g: i32) -> HashMap<(i32, i32, i32), LandmarkBlock> {
    let mut m = HashMap::new();
    let metres = match l {
        Landmark::PalacioPlanalto => 20.0,
        Landmark::Stf => 15.0,
        Landmark::PalacioAlvorada => 12.0,
        Landmark::Itamaraty => 24.0,
        Landmark::PalacioJustica => 22.0,
        Landmark::SedeBb => 80.0,
        Landmark::SedeCef => 75.0,
        Landmark::SedeBc => 65.0,
        Landmark::ConjuntoNacional => 25.0,
        Landmark::Rodoviaria => 15.0,
        _ => 50.0,
    };
    let height = (metres * V_SCALE) as i32;
    assert_eq!(box_landmark_height(l), Some(height));
    for y in g..=(g + height) {
        for x in b.min_x..=b.max_x {
            for z in b.min_z..=b.max_z {
                let is_edge = x == b.min_x || x == b.max_x || z == b.min_z || z == b.max_z;
                let mut set = |blk| {
                    m.insert((x, y, z), blk);
                };
                match l {
                    Landmark::PalacioPlanalto | Landmark::Stf => {
                        let (k, glass, level) = if l == Landmark::Stf { (5, LandmarkBlock::TintedGlass, 5) } else { (6, LandmarkBlock::BlackStainedGlass, 4) };
                        if y == g + 1 || y == g + height {
                            set(LandmarkBlock::SmoothQuartz);
                        } else if is_edge && (x + z) % k == 0 {
                            set(LandmarkBlock::SmoothQuartz);
                        } else if !is_edge && (x > b.min_x + 2 && x < b.max_x - 2 && z > b.min_z + 2 && z < b.max_z - 2) {
                            let inner = x == b.min_x + 3 || x == b.max_x - 3 || z == b.min_z + 3 || z == b.max_z - 3;
                            if inner {
                                set(glass);
                            } else if y % level == 0 {
                                set(LandmarkBlock::PolishedAndesite);
                            }
                        }
                    }
                    Landmark::PalacioAlvorada => {
                        if y == g + height {
                            set(LandmarkBlock::SmoothQuartz);
                        } else if is_edge && (x + z) % 8 == 0 {
                            set(LandmarkBlock::SmoothQuartz);
                        } else if !is_edge && (x > b.min_x + 1 && x < b.max_x - 1 && z > b.min_z + 1 && z < b.max_z - 1) {
                            let is_glass = x == b.min_x + 2 || x == b.max_x - 2 || z == b.min_z + 2 || z == b.max_z - 2;
                            if is_glass {
                                set(LandmarkBlock::Glass);
                            } else if y == g + 1 {
                                set(LandmarkBlock::PolishedDiorite);
                            }
                        }
                    }
                    Landmark::Itamaraty => {
                        if y == g + 1 {
                            set(LandmarkBlock::Water);
                        } else if y == g + height {
                            set(LandmarkBlock::SmoothStone);
                        } else if is_edge && (x + z) % 6 == 0 {
                            set(LandmarkBlock::SmoothStone);
                        } else if !is_edge && (x > b.min_x + 3 && x < b.max_x - 3 && z > b.min_z + 3 && z < b.max_z - 3) {
                            let is_glass = x == b.min_x + 4 || x == b.max_x - 4 || z == b.min_z + 4 || z == b.max_z - 4;
                            if is_glass {
                                set(LandmarkBlock::BlackStainedGlass);
                            }
                        }
                    }
                    Landmark::PalacioJustica => {
                        if y == g || y == g + height {
                            set(LandmarkBlock::WhiteConcrete);
                        } else if is_edge {
                            if (x + z) % 8 == 0 {
                                set(LandmarkBlock::WhiteConcrete);
                            } else if y < g + 10 && z == b.max_z {
                                set(LandmarkBlock::Water);
                            } else {
                                set(LandmarkBlock::TintedGlass);
                            }
                        }
                    }
                    Landmark::SedeBb => {
                        let is_cross = (x - b.cx).abs() < 5 || (z - b.cz).abs() < 5;
                        if is_cross {
                            if is_edge {
                                set(LandmarkBlock::BlackStainedGlass);
                            } else if y % 4 == 0 {
                                set(LandmarkBlock::PolishedAndesite);
                            }
                        }
                    }
                    Landmark::SedeCef => {
                        if is_edge {
                            if (x + z) % 8 < 2 {
                                set(LandmarkBlock::GrayConcrete);
                            } else {
                                set(LandmarkBlock::TintedGlass);
                            }
                        }
                    }
                    Landmark::SedeBc => {
                        if is_edge {
                            if y > g + 10 {
                                set(LandmarkBlock::PolishedDeepslate);
                            } else if (x + z) % 4 == 0 {
                                set(LandmarkBlock::StoneBricks);
                            }
                        }
                    }
                    Landmark::ConjuntoNacional => {
                        if is_edge {
                            if y > g + 5 {
                                set(LandmarkBlock::WhiteConcrete);
                                if y == g + height - 2 && (x % 5 == 0) {
                                    set(LandmarkBlock::RedConcrete);
                                }
                            } else if (x + z) % 6 == 0 {
                                set(LandmarkBlock::PolishedAndesite);
                            }
                        }
                    }
                    Landmark::Rodoviaria => {
                        if y == g + 1 || y == g + height {
                            set(LandmarkBlock::SmoothStone);
                        } else if (x + z) % 15 == 0 {
                            set(LandmarkBlock::PolishedAndesite);
                        } else if y == g + 2 && x % 4 == 0 {
                            set(LandmarkBlock::YellowConcrete);
                        }
                    }
                    _ => {
                        if is_edge {
                            let is_window = (x + z) % 3 != 0 && y % 4 != 0;
                            set(if is_window { LandmarkBlock::GlassPane } else { LandmarkBlock::YellowTerracotta });
                        }
                    }
                }
            }
        }
    }
    m
}

#[test]
fn landmarks_on_their_boxes() {
    let kinds = [
        Landmark::PalacioPlanalto,
        Landmark::Stf,
        Landmark::PalacioAlvorada,
        Landmark::Itamaraty,
        Landmark::PalacioJustica,
        Landmark::SedeBb,
        Landmark::SedeCef,
        Landmark::SedeBc,
        Landmark::ConjuntoNacional,
        Landmark::HotelNacional,
        Landmark::Rodoviaria,
    ];
    let boxes = [
        B { min_x: -13, max_x: 11, min_z: -7, max_z: 9, cx: -1, cz: 1 },
        B { min_x: 100, max_x: 120, min_z: -230, max_z: -211, cx: 110, cz: -221 },
    ];
    for l in kinds {
        for b in &boxes {
            for g in [-2, 64] {
                let m = replay(l, b, g);
                let h = box_landmark_height(l).unwrap();
                for x in b.min_x - 2..=b.max_x + 2 {
                    for z in b.min_z - 2..=b.max_z + 2 {
                        for y in g - 2..=g + h + 2 {
                            assert_eq!(
                                box_landmark_block_at(l, b.min_x, b.max_x, b.min_z, b.max_z, b.cx, b.cz, g, x, y, z),
                                m.get(&(x, y, z)).copied(),
                                "{:?}",
                                (l, x, y, z)
                            );
                        }
                    }
                }
            }
        }
    }
    assert_eq!(box_landmark_height(Landmark::Congresso), None);
    assert_eq!(box_landmark_block_at(Landmark::Catedral, 0, 10, 0, 10, 5, 5, 0, 1, 1, 1), None);
}

#[test]
fn torre_tv_and_memorial_jk() {
    const H_SCALE: f64 = 1.33;
    let (cx, cz, g) = (0, 0, 0);
    let mut m = HashMap::new();
    let max_h = (224.0 * V_SCALE) as i32;
    for y in 0..=max_h {
        let radius = (20.0 * H_SCALE) as i32 - (y / 8);
        if radius < 1 {
            break;
        }
        for x in (cx - radius)..=(cx + radius) {
            for z in (cz - radius)..=(cz + radius) {
                let dx = (x - cx).abs();
                let dz = (z - cz).abs();
                let is_leg = dx + dz == radius || (dx == 0 && dz == radius) || (dz == 0 && dx == radius);
                if is_leg && y % 3 == 0 {
                    m.insert((x, g + y, z), LandmarkBlock::IronBlock);
                } else if is_leg {
                    m.insert((x, g + y, z), LandmarkBlock::IronBars);
                }
            }
        }
        let mirante_y = (75.0 * V_SCALE) as i32;
        if y >= mirante_y && y <= mirante_y + 2 {
            let deck_radius = (15.0 * H_SCALE) as i32;
            for x in (cx - deck_radius)..=(cx + deck_radius) {
                for z in (cz - deck_radius)..=(cz + deck_radius) {
                    if y == mirante_y {
                        m.insert((x, g + y, z), LandmarkBlock::SmoothStone);
                    }
                    let e = x == cx - deck_radius || x == cx + deck_radius || z == cz - deck_radius || z == cz + deck_radius;
                    if e && y > mirante_y {
                        m.insert((x, g + y, z), LandmarkBlock::GlassPane);
                    }
                }
            }
        }
    }
    for x in -30..=30 {
        for z in -30..=30 {
            for y in -2..=220 {
                assert_eq!(torre_tv_block_at(x, y, z), m.get(&(x, y, z)).copied(), "{:?}", (x, y, z));
            }
        }
    }
    let mut m = HashMap::new();
    let base_radius = (40.0 * H_SCALE) as i32;
    let tower_height = (28.0 * V_SCALE) as i32;
    for x in -base_radius..=base_radius {
        for z in -10..=10 {
            m.insert((x, 1, z), LandmarkBlock::WhiteConcrete);
            m.insert((x, 2, z), LandmarkBlock::SmoothQuartz);
        }
    }
    for y in 3..=tower_height {
        for x in -2..=2 {
            for z in -2..=2 {
                m.insert((x, y, z), LandmarkBlock::WhiteConcrete);
            }
        }
    }
    for x in -6..=6 {
        for z in -2..=2 {
            m.insert((x, tower_height + 1, z), LandmarkBlock::SmoothQuartz);
            m.insert((x, tower_height + 2, z), LandmarkBlock::SmoothQuartz);
        }
    }
    for x in -56..=56 {
        for z in -12..=12 {
            for y in -1..=37 {
                assert_eq!(memorial_jk_block_at(x, y, z), m.get(&(x, y, z)).copied(), "{:?}", (x, y, z));
            }
        }
    }
}

#[test]
fn national_stadium() {
    for (cx, cz, radius) in [(0, 0, 30), (-101, 57, 40), (13, -7, 3)] {
        let g = 0;
        let height = (50.0 * V_SCALE) as i32;
        let mut m = HashMap::new();
        for y in g..=(g + height) {
            for x in (cx - radius)..=(cx + radius) {
                for z in (cz - radius)..=(cz + radius) {
                    let dist = ((((x - cx) as i64).pow(2) + ((z - cz) as i64).pow(2)) as f64).sqrt() as i32;
                    if dist == radius && (x + z) % 4 == 0 {
                        m.insert((x - cx, y, z - cz), LandmarkBlock::SmoothQuartz);
                    } else if dist < radius - 5 && dist > radius - 25 {
                        let seat_height = (radius - 5 - dist) / 2;
                        if y == g + seat_height {
                            m.insert((x - cx, y, z - cz), LandmarkBlock::RedConcrete);
                        }
                    } else if dist <= radius - 25 && y == g + 1 {
                        m.insert((x - cx, y, z - cz), LandmarkBlock::GrassBlock);
                    } else if y == g + height && dist <= radius && dist >= radius - 20 {
                        m.insert((x - cx, y, z - cz), LandmarkBlock::WhiteStainedGlass);
                    }
                }
            }
        }
        for dx in -(radius + 2)..=(radius + 2) {
            for dz in -(radius + 2)..=(radius + 2) {
                for dy in -1..=height + 1 {
                    assert_eq!(stadium_block_at(radius, cx, cz, dx, dy, dz), m.get(&(dx, dy, dz)).copied(), "{:?}", (dx, dy, dz));
                }
            }
        }
    }
}
