use pincel::buildings_interior::{residential_block_at, Bairro, ResidentialBlock};
use std::collections::HashMap;

type Cells = HashMap<(i32, i32, i32), ResidentialBlock>;

const H_SCALE: f64 = 1.33;

// The storey of a flat drawn step by step, each write covering earlier ones.
fn drawn(
    min_x: i32,
    max_x: i32,
    min_z: i32,
    max_z: i32,
    y: i32,
    ceiling: i32,
    bairro: Bairro,
    total_floors: usize,
) -> Cells {
    let mut m = Cells::new();
    let mut put = |b: ResidentialBlock, x: i32, h: i32, z: i32| {
        m.insert((x, h, z), b);
    };
    let largura_interna = (max_x - min_x) - 2;
    let profundidade = (max_z - min_z) - 2;
    let largura_m = largura_interna as f64 / H_SCALE;
    let prof_m = profundidade as f64 / H_SCALE;
    if largura_m < 4.5 || prof_m < 4.5 {
        return m;
    }
    let meio_z = min_z + (profundidade / 2);
    let meio_x = min_x + (largura_interna / 2);
    let forro_y = ceiling - 2;
    if forro_y > y + 2 {
        for x in (min_x + 1)..(max_x - 1) {
            for z in (min_z + 1)..(max_z - 1) {
                put(ResidentialBlock::SmoothQuartz, x, forro_y, z);
            }
        }
    }
    let mut suite_z_bound = max_z;
    let is_fachada_z = largura_interna < profundidade;
    let varanda_z = if is_fachada_z { min_z } else { max_z - 1 };
    if largura_m < 6.0 {
        for z in (min_z + 1)..(max_z - 1) {
            for h in y..forro_y {
                put(ResidentialBlock::WhiteConcrete, min_x + 3, h, z);
            }
        }
        put(ResidentialBlock::OakDoor, min_x + 4, y + 1, min_z + 3);
        put(ResidentialBlock::OakDoor, min_x + 4, y + 1, max_z - 3);
        for dx in 1i32..=2 {
            for dz in 1i32..=3 {
                for h in y..forro_y {
                    let is_wall = dx == 2 || dz == 3 || dz == 1;
                    let block = if is_wall { ResidentialBlock::WhiteConcrete } else { ResidentialBlock::Air };
                    put(block, min_x + 3 + dx, h, meio_z + dz - 1);
                }
            }
        }
        put(ResidentialBlock::OakDoor, min_x + 5, y + 1, meio_z + 1);
    } else if largura_m <= 9.0 {
        for x in (min_x + 1)..(max_x - 1) {
            for h in y..forro_y {
                put(ResidentialBlock::WhiteConcrete, x, h, meio_z);
            }
        }
        put(ResidentialBlock::Air, meio_x, y + 1, meio_z);
        put(ResidentialBlock::Air, meio_x, y + 2, meio_z);
        put(ResidentialBlock::Air, meio_x - 1, y + 1, meio_z);
        put(ResidentialBlock::Air, meio_x - 1, y + 2, meio_z);
        for dx in 0i32..=2 {
            for dz in 0i32..=3 {
                for h in y..forro_y {
                    if dx == 0 || dx == 2 || dz == 3 {
                        put(ResidentialBlock::WhiteConcrete, min_x + 3 + dx, h, min_z + dz);
                    }
                }
            }
        }
        put(ResidentialBlock::OakDoor, min_x + 5, y + 1, min_z + 2);
        for z in meio_z..(max_z - 1) {
            for h in y..forro_y {
                put(ResidentialBlock::WhiteConcrete, meio_x, h, z);
            }
        }
        put(ResidentialBlock::OakDoor, meio_x + 1, y + 1, meio_z + 2);
    } else {
        let terco = largura_interna / 3;
        for i in 1..3 {
            let divisao = min_x + terco * i;
            for z in meio_z..(max_z - 1) {
                for h in y..forro_y {
                    put(ResidentialBlock::WhiteConcrete, divisao, h, z);
                }
            }
            put(ResidentialBlock::OakDoor, divisao + 1, y + 1, meio_z + 1);
        }
        for x in (min_x + 1)..(max_x - 1) {
            for h in y..forro_y {
                put(ResidentialBlock::WhiteConcrete, x, h, meio_z);
            }
        }
        for dx in -1i32..=1 {
            put(ResidentialBlock::Air, meio_x + dx, y + 1, meio_z);
            put(ResidentialBlock::Air, meio_x + dx, y + 2, meio_z);
        }
        let suite_x = min_x + terco * 2 + 1;
        suite_z_bound = max_z - 4;
        for dx in 0i32..=3 {
            for dz in 0i32..=3 {
                for h in y..forro_y {
                    if dx == 0 || dx == 3 || dz == 0 || dz == 3 {
                        put(ResidentialBlock::WhiteConcrete, suite_x + dx, h, max_z - dz - 1);
                    }
                }
            }
        }
        put(ResidentialBlock::OakDoor, suite_x, y + 1, max_z - 2);
    }
    let kitchen_z = min_z + 1;
    let kitchen_x_start = max_x - 5;
    let guara = bairro == Bairro::Guara || bairro == Bairro::Samambaia;
    if guara {
        if prof_m > 7.0 {
            for dx in 0i32..=4 {
                for dz in 0i32..=4 {
                    if kitchen_z + dz < suite_z_bound {
                        for h in y..forro_y {
                            if dx == 0 || dz == 4 {
                                put(ResidentialBlock::WhiteConcrete, kitchen_x_start + dx, h, kitchen_z + dz);
                            }
                        }
                    }
                }
            }
            put(ResidentialBlock::OakDoor, kitchen_x_start + 1, y + 1, kitchen_z + 2);
            put(ResidentialBlock::PolishedAndesite, max_x - 2, y + 1, kitchen_z + 1);
            put(ResidentialBlock::Furnace, max_x - 2, y + 1, kitchen_z + 2);
        }
    } else {
        for dz in 1i32..=3 {
            put(ResidentialBlock::SmoothQuartz, kitchen_x_start, y + 1, kitchen_z + dz);
        }
        put(ResidentialBlock::Furnace, max_x - 2, y + 1, kitchen_z + 1);
    }
    if guara {
        for x in (min_x + 1)..(max_x - 1) {
            put(ResidentialBlock::GlassPane, x, y, varanda_z);
            put(ResidentialBlock::Air, x, y + 1, varanda_z);
            put(ResidentialBlock::Air, x, y + 2, varanda_z);
        }
    }
    let alt_andar = ceiling - y;
    if total_floors > 1 && alt_andar >= 4 && prof_m > 8.0 {
        let escada_x = min_x + 2;
        let escada_z = min_z + 2;
        let patamar_y = y + (alt_andar / 2);
        if escada_x + 3 < max_x && escada_z + 5 < max_z {
            for dx in 0i32..=2 {
                for dz in 0i32..=5 {
                    for h in forro_y..=(ceiling + 1) {
                        put(ResidentialBlock::Air, escada_x + dx, h, escada_z + dz);
                    }
                }
            }
            let degraus_lance1 = patamar_y - y;
            for i in 0..degraus_lance1 {
                if escada_z + i < max_z {
                    put(ResidentialBlock::StoneStairs, escada_x, y + i, escada_z + i);
                    put(ResidentialBlock::StoneStairs, escada_x + 1, y + i, escada_z + i);
                    put(ResidentialBlock::GlassPane, escada_x + 2, y + i + 1, escada_z + i);
                    for h in y..(y + i) {
                        put(ResidentialBlock::StoneBricks, escada_x, h, escada_z + i);
                        put(ResidentialBlock::StoneBricks, escada_x + 1, h, escada_z + i);
                    }
                }
            }
            if escada_z + degraus_lance1 + 1 < max_z {
                for dx in 0i32..=1 {
                    for dz in 0i32..=1 {
                        put(ResidentialBlock::SmoothStoneSlab, escada_x + dx, patamar_y, escada_z + degraus_lance1 + dz);
                    }
                }
                put(ResidentialBlock::GlassPane, escada_x + 2, patamar_y + 1, escada_z + degraus_lance1);
            }
            let degraus_lance2 = ceiling - patamar_y;
            for i in 0..degraus_lance2 {
                let z_pos = escada_z + degraus_lance1 - 1 - i;
                if z_pos >= min_z {
                    put(ResidentialBlock::StoneStairs, escada_x + 1, patamar_y + i, z_pos);
                    put(ResidentialBlock::GlassPane, escada_x, patamar_y + i + 1, z_pos);
                    for h in y..(patamar_y + i) {
                        put(ResidentialBlock::StoneBricks, escada_x + 1, h, z_pos);
                    }
                }
            }
        }
    }
    m
}

fn check(min_x: i32, max_x: i32, min_z: i32, max_z: i32, y: i32, ceiling: i32, bairro: Bairro, floors: usize) {
    let m = drawn(min_x, max_x, min_z, max_z, y, ceiling, bairro, floors);
    for x in (min_x - 2)..=(max_x + 2) {
        for z in (min_z - 2)..=(max_z + 2) {
            for h in (y - 2)..=(ceiling + 3) {
                assert_eq!(
                    residential_block_at(min_x, max_x, min_z, max_z, y, ceiling, bairro, floors, x, h, z),
                    m.get(&(x, h, z)).copied(),
                    "at ({x}, {h}, {z}) of ({min_x}..{max_x}, {min_z}..{max_z}), y {y}..{ceiling}, {bairro:?}, {floors} floors"
                );
            }
        }
    }
}

#[test]
fn flat_interiors_match_their_drawing() {
    let sizes = [(6, 12), (7, 7), (8, 8), (9, 14), (10, 10), (12, 16), (13, 13), (14, 9), (15, 20), (22, 18), (30, 12)];
    for &(w, d) in &sizes {
        for &(ox, oz) in &[(0, 0), (-17, -23)] {
            for &bairro in &[Bairro::Guara, Bairro::Samambaia, Bairro::SQS] {
                for &(y, ceiling, floors) in &[(64, 67, 1), (64, 68, 3), (64, 72, 2), (-5, 5, 4)] {
                    check(ox, ox + w, oz, oz + d, y, ceiling, bairro, floors);
                }
            }
        }
    }
}

#[test]
fn tiny_flats_are_left_alone() {
    assert_eq!(residential_block_at(0, 7, 0, 20, 64, 68, Bairro::SQS, 2, 3, 65, 5), None);
    assert_eq!(residential_block_at(0, 20, 0, 6, 64, 68, Bairro::Guara, 2, 5, 65, 3), None);
}
