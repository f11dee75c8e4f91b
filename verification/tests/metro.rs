use pincel::buildings_interior::{metro_underground_block_at, MetroBlock};
use std::collections::HashMap;

type Cells = HashMap<(i32, i32, i32), MetroBlock>;

// The station drawn step by step, each write covering earlier ones.
fn drawn(min_x: i32, max_x: i32, min_z: i32, max_z: i32, ground_y: i32) -> Cells {
    let mut m = Cells::new();
    let mut put = |b: MetroBlock, x: i32, h: i32, z: i32| {
        m.insert((x, h, z), b);
    };
    let plat_y = ground_y - 14;
    let mez_y = ground_y - 7;
    let is_x_axis = (max_x - min_x) > (max_z - min_z);
    let cx = (min_x + max_x) / 2;
    let cz = (min_z + max_z) / 2;
    for x in min_x..=max_x {
        for z in min_z..=max_z {
            put(MetroBlock::SmoothStone, x, plat_y - 1, z);
            put(MetroBlock::SmoothStone, x, ground_y, z);
            if x == min_x || x == max_x || z == min_z || z == max_z {
                for h in plat_y..ground_y {
                    put(MetroBlock::SmoothStone, x, h, z);
                }
            }
        }
    }
    for x in (min_x + 1)..(max_x - 1) {
        for z in (min_z + 1)..(max_z - 1) {
            for h in plat_y..ground_y {
                put(MetroBlock::Air, x, h, z);
            }
        }
    }
    for x in (min_x + 1)..(max_x - 1) {
        for z in (min_z + 1)..(max_z - 1) {
            let hole = if is_x_axis {
                z >= cz - 3 && z <= cz + 3 && x >= cx - 8 && x <= cx + 8
            } else {
                x >= cx - 3 && x <= cx + 3 && z >= cz - 8 && z <= cz + 8
            };
            if !hole {
                put(MetroBlock::PolishedAndesite, x, mez_y, z);
            }
            let stair = if is_x_axis {
                (x == cx - 8 || x == cx + 8) && (z == cz - 4 || z == cz + 4)
            } else {
                (z == cz - 8 || z == cz + 8) && (x == cx - 4 || x == cx + 4)
            };
            if stair {
                for step in 0..=(mez_y - plat_y) {
                    let sx = if is_x_axis { if x < cx { x + step } else { x - step } } else { x };
                    let sz = if !is_x_axis { if z < cz { z + step } else { z - step } } else { z };
                    if sx > min_x && sx < max_x && sz > min_z && sz < max_z {
                        put(MetroBlock::StoneStairs, sx, mez_y - step, sz);
                        put(MetroBlock::Air, sx, mez_y - step + 1, sz);
                        put(MetroBlock::Air, sx, mez_y - step + 2, sz);
                    }
                }
            }
            let pit = if is_x_axis { z >= cz - 3 && z <= cz + 3 } else { x >= cx - 3 && x <= cx + 3 };
            if !pit {
                put(MetroBlock::PolishedDiorite, x, plat_y, z);
                let edge = if is_x_axis { z == cz - 4 || z == cz + 4 } else { x == cx - 4 || x == cx + 4 };
                if edge {
                    put(MetroBlock::YellowConcrete, x, plat_y, z);
                }
            } else {
                put(MetroBlock::Gravel, x, plat_y - 1, z);
            }
            let pillar = if is_x_axis {
                (x - min_x) % 8 == 0 && (z == cz - 4 || z == cz + 4)
            } else {
                (z - min_z) % 8 == 0 && (x == cx - 4 || x == cx + 4)
            };
            if pillar {
                for h in plat_y..=ground_y {
                    put(MetroBlock::SmoothStone, x, h, z);
                }
            }
        }
    }
    if is_x_axis {
        for z in (cz - 3)..=(cz + 3) {
            for h in plat_y..=(plat_y + 5) {
                put(MetroBlock::Air, min_x, h, z);
                put(MetroBlock::Air, max_x, h, z);
            }
        }
    } else {
        for x in (cx - 3)..=(cx + 3) {
            for h in plat_y..=(plat_y + 5) {
                put(MetroBlock::Air, x, h, min_z);
                put(MetroBlock::Air, x, h, max_z);
            }
        }
    }
    m
}

fn check(min_x: i32, max_x: i32, min_z: i32, max_z: i32, ground_y: i32) {
    let m = drawn(min_x, max_x, min_z, max_z, ground_y);
    for x in (min_x - 2)..=(max_x + 2) {
        for z in (min_z - 2)..=(max_z + 2) {
            for h in (ground_y - 17)..=(ground_y + 2) {
                assert_eq!(
                    metro_underground_block_at(min_x, max_x, min_z, max_z, ground_y, x, h, z),
                    m.get(&(x, h, z)).copied(),
                    "at ({x}, {h}, {z}) of ({min_x}..{max_x}, {min_z}..{max_z}) under {ground_y}"
                );
            }
        }
    }
}

#[test]
fn metro_stations_match_their_drawing() {
    let sizes = [(40, 14), (14, 40), (20, 20), (24, 9), (9, 24), (5, 5), (30, 18), (17, 33)];
    for &(w, d) in &sizes {
        for &(ox, oz) in &[(0, 0), (-21, -9), (3, -40)] {
            check(ox, ox + w, oz, oz + d, 64);
        }
    }
}

#[test]
fn metro_station_lies_below_its_base() {
    // Every block of the station lies from fifteen blocks below the base up to it.
    for x in -2..=42 {
        for z in -2..=16 {
            for h in 40..=70 {
                if metro_underground_block_at(0, 40, 0, 14, 64, x, h, z).is_some() {
                    assert!((49..=64).contains(&h));
                }
            }
        }
    }
}
