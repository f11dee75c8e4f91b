use pincel::buildings_interior::{
    core_block_at, corridor_block_at, elevated_block_at, office_block_at, slab_block_at, Bairro, FitOutBlock,
    Tipologia,
};
use std::collections::HashMap;

type Cells = HashMap<(i32, i32, i32), FitOutBlock>;
const H_SCALE: f64 = 1.33;

fn elevated(min_x: i32, max_x: i32, min_z: i32, max_z: i32, ground_y: i32) -> Cells {
    let mut m = Cells::new();
    let plat_y = ground_y + 8;
    let is_x_axis = (max_x - min_x) > (max_z - min_z);
    let cx = (min_x + max_x) / 2;
    let cz = (min_z + max_z) / 2;
    for x in min_x..=max_x {
        for z in min_z..=max_z {
            if (x - min_x) % 10 == 0 && (z - min_z) % 10 == 0 {
                for h in ground_y..plat_y {
                    m.insert((x, h, z), FitOutBlock::SmoothStone);
                }
            }
            if x > min_x && x < max_x && z > min_z && z < max_z {
                m.insert((x, plat_y - 1, z), FitOutBlock::PolishedAndesite);
                let pit = if is_x_axis { z >= cz - 3 && z <= cz + 3 } else { x >= cx - 3 && x <= cx + 3 };
                if pit {
                    m.insert((x, plat_y - 1, z), FitOutBlock::Gravel);
                } else {
                    m.insert((x, plat_y, z), FitOutBlock::PolishedDiorite);
                    let t = if is_x_axis { z == cz - 4 || z == cz + 4 } else { x == cx - 4 || x == cx + 4 };
                    if t {
                        m.insert((x, plat_y, z), FitOutBlock::YellowConcrete);
                    }
                }
                let roof = if (x + z) % 2 == 0 { FitOutBlock::IronBlock } else { FitOutBlock::Glass };
                m.insert((x, plat_y + 6, z), roof);
            }
        }
    }
    m
}

fn office(min_x: i32, max_x: i32, min_z: i32, max_z: i32, y: i32, ceiling: i32) -> Cells {
    let mut m = Cells::new();
    let modulo = (4.0 * H_SCALE).round() as i32;
    let center_z = (min_z + max_z) / 2;
    for x in (min_x + 1)..(max_x - 1) {
        if (x - min_x) % modulo == 0 {
            for z in (min_z + 1)..(center_z - 1) {
                for h in y..ceiling {
                    let b = if h == y + 2 { FitOutBlock::GlassPane } else { FitOutBlock::LightGrayTerracotta };
                    m.insert((x, h, z), b);
                }
            }
        }
    }
    m
}

fn elevator_core(min_x: i32, max_x: i32, min_z: i32, max_z: i32, floor_y: i32, ceiling: i32, t: Tipologia) -> Cells {
    let mut m = Cells::new();
    if ((max_x - min_x) as f64 / H_SCALE) < 6.5 || ((max_z - min_z) as f64 / H_SCALE) < 6.5 {
        return m;
    }
    let cx = (min_x + max_x) / 2;
    let cz = (min_z + max_z) / 2;
    let core_x_max = if t == Tipologia::Hospital || t == Tipologia::Corporativo { cx + 3 } else { cx + 2 };
    for x in cx - 1..=core_x_max {
        for z in cz - 1..=cz + 2 {
            for y in floor_y..ceiling {
                let air = ((x == cx || x == cx + 1 || (x == cx + 2 && core_x_max > cx + 2)) && (z == cz || z == cz + 1))
                    || (z == cz + 2 && (x == cx || x == cx + 1));
                m.insert((x, y, z), if air { FitOutBlock::Air } else { FitOutBlock::StoneBricks });
            }
        }
    }
    m.insert((cx, floor_y + 1, cz - 1), FitOutBlock::IronDoor);
    m.insert((cx + 1, floor_y + 1, cz - 1), FitOutBlock::IronDoor);
    if core_x_max > cx + 2 {
        m.insert((cx + 2, floor_y + 1, cz - 1), FitOutBlock::IronDoor);
    }
    for y in floor_y..ceiling {
        m.insert((cx, y, cz + 3), FitOutBlock::StoneBricks);
        m.insert((cx + 1, y, cz + 3), FitOutBlock::StoneBricks);
    }
    m
}

fn corridor(min_x: i32, max_x: i32, min_z: i32, max_z: i32, floor_y: i32, ceiling: i32, b: Bairro, t: Tipologia) -> Cells {
    let mut m = Cells::new();
    let largura = max_x - min_x;
    if max_z - min_z < 5 {
        return m;
    }
    let center = (min_z + max_z) / 2;
    let (s, e) = match t {
        Tipologia::Hospital | Tipologia::Escola => (center - 2, center + 2),
        Tipologia::Corporativo => (center - 1, center + 2),
        _ => match b {
            Bairro::Comercial => (center - 1, center + 1),
            _ => (center, center + 1),
        },
    };
    for x in (min_x + 1)..(max_x - 1) {
        for y in floor_y..ceiling {
            for z in s..=e {
                m.insert((x, y, z), FitOutBlock::Air);
            }
            if (largura as f64 / H_SCALE) >= 6.0 {
                let w = if t == Tipologia::Hospital { FitOutBlock::SmoothQuartz } else { FitOutBlock::WhiteConcrete };
                m.insert((x, y, e + 1), w);
                m.insert((x, y, s - 1), w);
            }
        }
    }
    m
}

fn slab(min_x: i32, max_x: i32, min_z: i32, max_z: i32, y: i32, has_core: bool, is_atrium: bool) -> Cells {
    let mut m = Cells::new();
    if max_x - min_x < 3 || max_z - min_z < 3 {
        return m;
    }
    let grid_span = (5.0 * H_SCALE).round() as i32;
    let cx = (min_x + max_x) / 2;
    let cz = (min_z + max_z) / 2;
    let l = max_x - min_x;
    let p = max_z - min_z;
    let vx0 = min_x + (l as f64 * 0.32) as i32;
    let vx1 = max_x - (l as f64 * 0.32) as i32;
    let vz0 = min_z + (p as f64 * 0.32) as i32;
    let vz1 = max_z - (p as f64 * 0.32) as i32;
    let valid = is_atrium && (vx1 - vx0 > 2) && (vz1 - vz0 > 2);
    for x in (min_x + 1)..(max_x - 1) {
        for z in (min_z + 1)..(max_z - 1) {
            if has_core && x >= cx - 1 && x <= cx + 2 && z >= cz - 1 && z <= cz + 2 {
                continue;
            }
            if valid && x >= vx0 && x <= vx1 && z >= vz0 && z <= vz1 {
                continue;
            }
            let beam = (x - min_x) % grid_span == 0 || (z - min_z) % grid_span == 0;
            m.insert((x, y, z), if beam { FitOutBlock::SmoothStone } else { FitOutBlock::PolishedAndesite });
        }
    }
    m
}

fn boxes() -> Vec<(i32, i32, i32, i32)> {
    let mut v = Vec::new();
    for &(w, d) in &[(2, 9), (3, 3), (7, 7), (8, 12), (9, 9), (12, 8), (16, 25), (31, 14), (60, 60)] {
        for &(ox, oz) in &[(0, 0), (-37, -11), (6, -25)] {
            v.push((ox, ox + w, oz, oz + d));
        }
    }
    v
}

fn compare(m: &Cells, area: (i32, i32, i32, i32), hs: (i32, i32), f: &dyn Fn(i32, i32, i32) -> Option<FitOutBlock>) {
    let (min_x, max_x, min_z, max_z) = area;
    for x in (min_x - 2)..=(max_x + 2) {
        for z in (min_z - 2)..=(max_z + 2) {
            for h in hs.0..=hs.1 {
                assert_eq!(f(x, h, z), m.get(&(x, h, z)).copied(), "at ({x}, {h}, {z}) of {area:?}");
            }
        }
    }
}

#[test]
fn elevated_stations_match_their_drawing() {
    for (a, b, c, d) in boxes() {
        let m = elevated(a, b, c, d, 64);
        compare(&m, (a, b, c, d), (62, 80), &|x, h, z| elevated_block_at(a, b, c, d, 64, x, h, z));
    }
}

#[test]
fn office_partitions_match_their_drawing() {
    for (a, b, c, d) in boxes() {
        let m = office(a, b, c, d, 64, 68);
        compare(&m, (a, b, c, d), (62, 70), &|x, h, z| office_block_at(a, b, c, d, 64, 68, x, h, z));
    }
}

#[test]
fn elevator_cores_match_their_drawing() {
    for t in [Tipologia::Hospital, Tipologia::Corporativo, Tipologia::Residencial] {
        for (a, b, c, d) in boxes() {
            let m = elevator_core(a, b, c, d, 64, 68, t);
            compare(&m, (a, b, c, d), (62, 70), &|x, h, z| core_block_at(a, b, c, d, 64, 68, t, x, h, z));
        }
    }
}

#[test]
fn corridors_match_their_drawing() {
    for t in [Tipologia::Hospital, Tipologia::Escola, Tipologia::Corporativo, Tipologia::Residencial] {
        for bairro in [Bairro::Comercial, Bairro::SQS] {
            for (a, b, c, d) in boxes() {
                let m = corridor(a, b, c, d, 64, 68, bairro, t);
                compare(&m, (a, b, c, d), (62, 70), &|x, h, z| corridor_block_at(a, b, c, d, 64, 68, t, bairro, x, h, z));
            }
        }
    }
}

#[test]
fn floor_slabs_match_their_drawing() {
    for has_core in [false, true] {
        for is_atrium in [false, true] {
            for (a, b, c, d) in boxes() {
                let m = slab(a, b, c, d, 70, has_core, is_atrium);
                compare(&m, (a, b, c, d), (69, 71), &|x, h, z| slab_block_at(a, b, c, d, 70, has_core, is_atrium, x, h, z));
            }
        }
    }
}
