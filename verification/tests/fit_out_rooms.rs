use pincel::buildings_interior::{
    atrium_block_at, bank_block_at, school_block_at, hospital_base_block_at, shopping_block_at, ward_block_at, FitOutBlock,
};
use std::collections::HashMap;

type Cells = HashMap<(i32, i32, i32), FitOutBlock>;
const H_SCALE: f64 = 1.33;

fn hospital_base(min_x: i32, max_x: i32, min_z: i32, max_z: i32, y: i32, ceiling: i32, has_core: bool) -> Cells {
    let mut m = Cells::new();
    let center_z = (min_z + max_z) / 2;
    let modulo = (6.0 * H_SCALE).round() as i32;
    let cx = (min_x + max_x) / 2;
    let core_x_max = cx + 3;
    m.insert((cx - 4, y, center_z), FitOutBlock::SmoothQuartz);
    m.insert((cx - 4, y, center_z + 1), FitOutBlock::SmoothQuartz);
    m.insert((cx - 4, y, center_z - 1), FitOutBlock::SmoothQuartz);
    for x in (min_x + 1)..(max_x - 1) {
        for z in (center_z - 3)..=(center_z + 3) {
            for h in y..ceiling {
                m.insert((x, h, z), FitOutBlock::Air);
            }
        }
        m.insert((x, y, center_z - 4), FitOutBlock::SmoothQuartz);
        m.insert((x, y, center_z + 4), FitOutBlock::SmoothQuartz);
        if (x - min_x) % modulo == 0 {
            if has_core && x >= cx - 1 && x <= core_x_max {
                continue;
            }
            for z in (min_z + 1)..(center_z - 4) {
                for h in y..ceiling {
                    m.insert((x, h, z), FitOutBlock::WhiteConcrete);
                }
            }
            for z in (center_z + 5)..(max_z - 1) {
                for h in y..ceiling {
                    m.insert((x, h, z), FitOutBlock::WhiteConcrete);
                }
            }
            m.insert((x - 1, y + 1, center_z - 4), FitOutBlock::IronDoor);
            m.insert((x - 2, y + 1, center_z - 4), FitOutBlock::IronDoor);
            m.insert((x - 1, y + 1, center_z + 4), FitOutBlock::IronDoor);
            m.insert((x - 2, y + 1, center_z + 4), FitOutBlock::IronDoor);
        }
    }
    m
}

fn wards(min_x: i32, max_x: i32, min_z: i32, max_z: i32, y: i32, ceiling: i32) -> Cells {
    let mut m = Cells::new();
    let center_z = (min_z + max_z) / 2;
    let modulo = (4.0 * H_SCALE).round() as i32;
    for x in (min_x + 1)..(max_x - 1) {
        if (x - min_x) % modulo == 0 {
            for z in (min_z + 1)..(center_z - 2) {
                for h in y..ceiling {
                    m.insert((x, h, z), FitOutBlock::WhiteConcrete);
                }
            }
            for z in (center_z + 3)..(max_z - 1) {
                for h in y..ceiling {
                    m.insert((x, h, z), FitOutBlock::WhiteConcrete);
                }
            }
            m.insert((x - 1, y + 1, center_z - 3), FitOutBlock::IronDoor);
            m.insert((x - 1, y + 1, center_z + 3), FitOutBlock::IronDoor);
        }
    }
    m
}

fn bank(min_x: i32, max_x: i32, min_z: i32, max_z: i32, y: i32, ceiling: i32) -> Cells {
    let mut m = Cells::new();
    let modulo = (6.0 * H_SCALE).round() as i32;
    for x in (min_x + 1)..(max_x - 1) {
        if (x - min_x) % modulo == 0 {
            for z in (min_z + 1)..(max_z - 1) {
                for h in y..ceiling {
                    let b = if h == y + 2 { FitOutBlock::GlassPane } else { FitOutBlock::LightGrayTerracotta };
                    m.insert((x, h, z), b);
                }
            }
        }
    }
    m
}

fn atrium(m: &mut Cells, min_x: i32, max_x: i32, min_z: i32, max_z: i32, y: i32, ceiling: i32, has_core: bool) {
    let l = max_x - min_x;
    let p = max_z - min_z;
    let cx = (min_x + max_x) / 2;
    let cz = (min_z + max_z) / 2;
    let vx0 = min_x + (l as f64 * 0.32) as i32;
    let vx1 = max_x - (l as f64 * 0.32) as i32;
    let vz0 = min_z + (p as f64 * 0.32) as i32;
    let vz1 = max_z - (p as f64 * 0.32) as i32;
    if vx1 - vx0 < 2 || vz1 - vz0 < 2 {
        return;
    }
    for x in (min_x + 1)..(max_x - 1) {
        for z in (min_z + 1)..(max_z - 1) {
            if has_core && x >= cx - 1 && x <= cx + 2 && z >= cz - 1 && z <= cz + 2 {
                continue;
            }
            if x >= vx0 && x <= vx1 && z >= vz0 && z <= vz1 {
                for h in y..ceiling {
                    m.insert((x, h, z), FitOutBlock::Air);
                }
            } else {
                let edge = (x == vx0 - 1 || x == vx1 + 1) && z >= vz0 - 1 && z <= vz1 + 1
                    || (z == vz0 - 1 || z == vz1 + 1) && x >= vx0 - 1 && x <= vx1 + 1;
                if edge {
                    m.insert((x, y + 1, z), FitOutBlock::GlassPane);
                    if (x + z) % 6 == 0 {
                        for h in y..ceiling {
                            m.insert((x, h, z), FitOutBlock::SmoothQuartz);
                        }
                    }
                }
            }
        }
    }
}

fn shopping(min_x: i32, max_x: i32, min_z: i32, max_z: i32, y: i32, ceiling: i32, has_core: bool, start_y: i32) -> Cells {
    let mut m = Cells::new();
    atrium(&mut m, min_x, max_x, min_z, max_z, y, ceiling, has_core);
    let l = max_x - min_x;
    let p = max_z - min_z;
    let gx0 = min_x + (l as f64 * 0.15) as i32;
    let gx1 = max_x - (l as f64 * 0.15) as i32;
    let gz0 = min_z + (p as f64 * 0.15) as i32;
    let gz1 = max_z - (p as f64 * 0.15) as i32;
    for x in (min_x + 1)..(max_x - 1) {
        for z in (min_z + 1)..(max_z - 1) {
            if y > start_y {
                m.insert((x, y - 1, z), FitOutBlock::PolishedDiorite);
            }
            let edge = (x == gx0 || x == gx1) && z >= gz0 && z <= gz1 || (z == gz0 || z == gz1) && x >= gx0 && x <= gx1;
            if edge {
                for h in y..ceiling {
                    m.insert((x, h, z), if (x + z) % 8 == 0 { FitOutBlock::WhiteConcrete } else { FitOutBlock::Glass });
                }
            }
        }
    }
    m
}

fn boxes() -> Vec<(i32, i32, i32, i32)> {
    let mut v = Vec::new();
    for &(w, d) in &[(2, 9), (3, 3), (7, 7), (8, 12), (9, 9), (12, 8), (16, 25), (20, 20), (31, 14), (50, 37), (100, 60)] {
        for &(ox, oz) in &[(0, 0), (-37, -11), (6, -25)] {
            v.push((ox, ox + w, oz, oz + d));
        }
    }
    v
}

fn compare(m: &Cells, area: (i32, i32, i32, i32), hs: (i32, i32), f: &dyn Fn(i32, i32, i32) -> Option<FitOutBlock>) {
    let (min_x, max_x, min_z, max_z) = area;
    for x in (min_x - 2)..=(max_x + 2) {
        for z in (min_z - 2)..=(max_z + 2) {
            for h in hs.0..=hs.1 {
                assert_eq!(f(x, h, z), m.get(&(x, h, z)).copied(), "at ({x}, {h}, {z}) of {area:?}");
            }
        }
    }
}

#[test]
fn hospital_ground_storeys_match_their_drawing() {
    for has_core in [false, true] {
        for (a, b, c, d) in boxes() {
            let m = hospital_base(a, b, c, d, 64, 68, has_core);
            compare(&m, (a, b, c, d), (62, 70), &|x, h, z| hospital_base_block_at(a, b, c, d, 64, 68, has_core, x, h, z));
        }
    }
}

#[test]
fn hospital_wards_match_their_drawing() {
    for (a, b, c, d) in boxes() {
        let m = wards(a, b, c, d, 64, 68);
        compare(&m, (a, b, c, d), (62, 70), &|x, h, z| ward_block_at(a, b, c, d, 64, 68, x, h, z));
    }
}

#[test]
fn bank_storeys_match_their_drawing() {
    for (a, b, c, d) in boxes() {
        let m = bank(a, b, c, d, 64, 68);
        compare(&m, (a, b, c, d), (62, 70), &|x, h, z| bank_block_at(a, b, c, d, 64, 68, x, h, z));
    }
}

#[test]
fn atria_match_their_drawing() {
    for has_core in [false, true] {
        for (a, b, c, d) in boxes() {
            let mut m = Cells::new();
            atrium(&mut m, a, b, c, d, 64, 68, has_core);
            compare(&m, (a, b, c, d), (62, 70), &|x, h, z| atrium_block_at(a, b, c, d, 64, 68, has_core, x, h, z));
        }
    }
}

#[test]
fn shopping_storeys_match_their_drawing() {
    for has_core in [false, true] {
        for start_y in [60, 64] {
            for (a, b, c, d) in boxes() {
                let m = shopping(a, b, c, d, 64, 68, has_core, start_y);
                compare(&m, (a, b, c, d), (62, 70), &|x, h, z| shopping_block_at(a, b, c, d, 64, 68, has_core, start_y, x, h, z));
            }
        }
    }
}

fn school(min_x: i32, max_x: i32, min_z: i32, max_z: i32, y: i32, ceiling: i32) -> Cells {
    let mut m = Cells::new();
    let largura_interna = max_x - min_x;
    let tamanho_sala = (7.0 * H_SCALE).round() as i32;
    if largura_interna < tamanho_sala * 2 {
        return m;
    }
    let center_z = (min_z + max_z) / 2;
    for x in (min_x + 1)..(max_x - 1) {
        if (x - min_x) % tamanho_sala == 0 {
            for z in (min_z + 1)..(center_z - 2) {
                for h in y..ceiling {
                    m.insert((x, h, z), FitOutBlock::WhiteConcrete);
                }
            }
            for z in (center_z + 3)..(max_z - 1) {
                for h in y..ceiling {
                    m.insert((x, h, z), FitOutBlock::WhiteConcrete);
                }
            }
            m.insert((x - 1, y + 1, center_z - 3), FitOutBlock::IronDoor);
            m.insert((x - 1, y + 1, center_z + 3), FitOutBlock::IronDoor);
        }
    }
    m
}

#[test]
fn school_storeys_match_their_drawing() {
    for (a, b, c, d) in boxes() {
        let m = school(a, b, c, d, 64, 68);
        compare(&m, (a, b, c, d), (62, 70), &|x, h, z| school_block_at(a, b, c, d, 64, 68, x, h, z));
    }
}
