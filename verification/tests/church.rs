use pincel::buildings_interior::{church_block_at, ChurchBlock};
use std::collections::HashMap;

type Cells = HashMap<(i32, i32, i32), ChurchBlock>;

fn put(m: &mut Cells, b: ChurchBlock, x: i32, h: i32, z: i32) {
    m.insert((x, h, z), b);
}

// The church interior drawn step by step, each write covering earlier ones.
fn drawn(min_x: i32, max_x: i32, min_z: i32, max_z: i32, y: i32, ceiling: i32, cat: bool) -> Cells {
    let mut m = Cells::new();
    let largura = max_x - min_x;
    let prof = max_z - min_z;
    if largura < 7 || prof < 7 {
        return m;
    }
    let cx = (min_x + max_x) / 2;
    let cz = (min_z + max_z) / 2;
    for x in (min_x + 1)..(max_x - 1) {
        for z in (min_z + 1)..(max_z - 1) {
            for h in y..ceiling {
                put(&mut m, ChurchBlock::Air, x, h, z);
            }
        }
    }
    if cat {
        for dx in -3i32..=3 {
            for dz in -3i32..=3 {
                let d = dx * dx + dz * dz;
                if d <= 9 {
                    put(&mut m, ChurchBlock::SmoothQuartz, cx + dx, y, cz + dz);
                } else if d <= 16 {
                    put(&mut m, ChurchBlock::SmoothStoneSlab, cx + dx, y, cz + dz);
                }
            }
        }
        put(&mut m, ChurchBlock::QuartzBlock, cx, y + 1, cz);
        put(&mut m, ChurchBlock::QuartzBlock, cx + 1, y + 1, cz);
        put(&mut m, ChurchBlock::QuartzBlock, cx - 1, y + 1, cz);
        return m;
    }
    // Along a (the longer side) and across c; `pos` turns (a, c) into (x, z).
    let z_axis = prof > largura;
    let (min_a, max_a, min_c, max_c, cc) =
        if z_axis { (min_z, max_z, min_x, max_x, cx) } else { (min_x, max_x, min_z, max_z, cz) };
    let pos = |a: i32, c: i32| if z_axis { (c, a) } else { (a, c) };
    let w = |m: &mut Cells, b: ChurchBlock, a: i32, h: i32, c: i32| {
        let (x, z) = pos(a, c);
        put(m, b, x, h, z);
    };
    let narthex = min_a + 4;
    for c in (min_c + 1)..(max_c - 1) {
        for h in y..(ceiling - 2) {
            w(&mut m, ChurchBlock::WhiteConcrete, narthex, h, c);
        }
    }
    w(&mut m, ChurchBlock::Air, narthex, y, cc);
    w(&mut m, ChurchBlock::Air, narthex, y + 1, cc);
    w(&mut m, ChurchBlock::Air, narthex, y, cc - 1);
    w(&mut m, ChurchBlock::Air, narthex, y + 1, cc - 1);
    let altar = max_a - 6;
    for c in (min_c + 1)..(max_c - 1) {
        for h in y..(ceiling - 2) {
            w(&mut m, ChurchBlock::WhiteConcrete, altar + 2, h, c);
        }
    }
    w(&mut m, ChurchBlock::OakDoor, altar + 2, y + 1, min_c + 3);
    for a in (narthex + 1)..altar {
        w(&mut m, ChurchBlock::RedCarpet, a, y, cc);
        w(&mut m, ChurchBlock::RedCarpet, a, y, cc - 1);
        if (a - min_a) % 4 == 0 {
            for h in y..ceiling {
                w(&mut m, ChurchBlock::SmoothQuartz, a, h, min_c + 3);
                w(&mut m, ChurchBlock::SmoothQuartz, a, h, max_c - 3);
            }
        }
        if (a - min_a) % 2 == 0 {
            for c in (min_c + 4)..(cc - 1) {
                w(&mut m, ChurchBlock::OakStairs, a, y, c);
            }
            for c in (cc + 1)..(max_c - 4) {
                w(&mut m, ChurchBlock::OakStairs, a, y, c);
            }
        }
    }
    for c in (min_c + 2)..(max_c - 2) {
        w(&mut m, ChurchBlock::SmoothQuartz, altar, y, c);
    }
    w(&mut m, ChurchBlock::GoldBlock, altar, y + 1, cc);
    m
}

fn check(min_x: i32, max_x: i32, min_z: i32, max_z: i32, cat: bool) {
    let (y, ceiling) = (64, 72);
    let m = drawn(min_x, max_x, min_z, max_z, y, ceiling, cat);
    for x in (min_x - 2)..=(max_x + 2) {
        for z in (min_z - 2)..=(max_z + 2) {
            for h in (y - 2)..=(ceiling + 2) {
                assert_eq!(
                    church_block_at(min_x, max_x, min_z, max_z, y, ceiling, cat, x, h, z),
                    m.get(&(x, h, z)).copied(),
                    "at ({x}, {h}, {z}) of ({min_x}..{max_x}, {min_z}..{max_z}), cathedral {cat}"
                );
            }
        }
    }
}

#[test]
fn church_interiors_match_their_drawing() {
    for &(w, d) in &[(7, 7), (7, 8), (8, 7), (10, 20), (20, 10), (12, 12), (9, 16), (16, 9)] {
        for &(ox, oz) in &[(0, 0), (-13, -31), (5, -4)] {
            check(ox, ox + w, oz, oz + d, false);
            check(ox, ox + w, oz, oz + d, true);
        }
    }
}

#[test]
fn small_buildings_have_no_church_interior() {
    assert_eq!(church_block_at(0, 6, 0, 20, 64, 72, false, 3, 64, 10), None);
    assert_eq!(church_block_at(0, 20, 0, 5, 64, 72, true, 10, 64, 3), None);
}
