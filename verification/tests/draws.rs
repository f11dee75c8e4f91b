use std::collections::HashMap;
use pincel::amenities::{bench_along_x, bench_slab_at};
use pincel::advertising::{default_board_angle, flag_color, FlagColor};
use pincel::deterministic_rng::{coord_rng, element_rng};
use pincel::historic::{obelisk_height, statue_bronze};
use pincel::landuse::{
    cemetery_plot, construction_cell_at, draw_cemetery, draw_construction, draw_farmland, draw_quarry_ore, ConstructionBlock,
    ConstructionFeature, FarmDecoration, draw_forest, draw_ground, draw_grassland, draw_litter, draw_meadow, draw_orchard,
    landuse_grounds, Decoration, GroundBlock,
};
use pincel::master_control::{BesmSignal, MasterControl, SharedDashboardState};
use pincel::tree::{blocks_tree, tree_height_jitter, SeedBlock};
use rand::{Rng, RngCore};

fn variant(l: &str, base: GroundBlock, r: i32, x: i32, z: i32) -> GroundBlock {
    match l {
        "commercial" => if r < 70 { GroundBlock::PolishedAndesite } else { GroundBlock::StoneBricks },
        "industrial" => if r < 60 { GroundBlock::GrayConcrete } else if r < 90 { GroundBlock::Gravel } else { GroundBlock::Cobblestone },
        "education" | "religious" => {
            if r < 45 { GroundBlock::SmoothQuartz } else if r < 70 { GroundBlock::LightGrayConcrete } else { GroundBlock::WhiteConcrete }
        }
        "park" | "common" => {
            if r < 20 {
                if (x + z) % 2 == 0 { GroundBlock::BlackConcrete } else { GroundBlock::WhiteConcrete }
            } else {
                base
            }
        }
        "forest" | "grass" | "meadow" | "greenfield" => if r < 15 { GroundBlock::Podzol } else { base },
        _ => base,
    }
}

#[test]
fn area_grounds_follow_the_element_generator() {
    let cells: Vec<(i32, i32)> = (0..40).map(|i| (i % 7 - 3, i / 7 - 2)).collect();
    for (id, l, base) in [
        (7u64, "commercial", GroundBlock::PolishedAndesite),
        (99, "industrial", GroundBlock::GrayConcrete),
        (12345, "park", GroundBlock::GrassBlock),
        (5, "religious", GroundBlock::SmoothQuartz),
        (6, "residential", GroundBlock::GrassBlock),
        (8, "military", GroundBlock::GrayConcrete),
    ] {
        let mut rng = element_rng(id);
        let draws = !matches!(l, "residential" | "military");
        let expected: Vec<GroundBlock> = cells
            .iter()
            .map(|&(x, z)| {
                if draws {
                    let r: i32 = rng.0.random_range(0..100);
                    variant(l, base, r, x, z)
                } else {
                    base
                }
            })
            .collect();
        assert_eq!(landuse_grounds(id, l, base, &cells), Some(expected));
        let again = landuse_grounds(id, l, base, &cells);
        assert_eq!(landuse_grounds(id, l, base, &cells), again);
    }
    assert_eq!(landuse_grounds(1, "cemetery", GroundBlock::Podzol, &cells), None);
    assert_eq!(landuse_grounds(1, "forest", GroundBlock::GrassBlock, &cells), None);
}

#[test]
fn decorations_draw_in_the_order_of_the_area() {
    // A grass area: ground, decoration, litter for every block on grass.
    let id = 4242u64;
    let mut mine = element_rng(id);
    let mut theirs = element_rng(id);
    for i in 0..60 {
        let (x, z) = (i % 9, i / 9);
        let g = draw_ground(&mut mine, "grass", GroundBlock::GrassBlock, x, z);
        let r: i32 = theirs.0.random_range(0..100);
        assert_eq!(g, if r < 15 { GroundBlock::Podzol } else { GroundBlock::GrassBlock });
        let d = draw_grassland(&mut mine, true);
        let r: i32 = theirs.0.random_range(0..100);
        assert_eq!(d, if r < 5 { Decoration::DeadBush } else if r < 70 { Decoration::Grass } else { Decoration::Nothing });
        let moss = draw_litter(&mut mine, true);
        let r: i32 = theirs.0.random_range(0..100);
        assert_eq!(moss, r < 15);
    }
    assert_eq!(draw_grassland(&mut mine, false), Decoration::Nothing);
    assert!(!draw_litter(&mut mine, false));
    assert_eq!(mine.next_u64(), theirs.0.next_u64());

    // A cemetery: plots roll, graves toss a coin.
    let mut mine = element_rng(77);
    let mut theirs = element_rng(77);
    for x in -6..12 {
        for z in -3..9 {
            let podzol = (x + z) % 2 == 0;
            let d = draw_cemetery(&mut mine, x, z, podzol);
            let expected = if x % 3 == 0 && z % 3 == 0 {
                let r: i32 = theirs.0.random_range(0..100);
                if r < 15 {
                    if podzol { Decoration::Grave { along_x: theirs.0.random_bool(0.5) } } else { Decoration::Nothing }
                } else if r < 30 {
                    if podzol { Decoration::RedFlower } else { Decoration::Nothing }
                } else if r < 33 {
                    Decoration::Tree
                } else if r < 35 {
                    Decoration::OakLeaves
                } else if r < 37 {
                    Decoration::Fern
                } else if r < 41 {
                    Decoration::LargeFern
                } else {
                    Decoration::Nothing
                }
            } else {
                Decoration::Nothing
            };
            assert_eq!(d, expected, "{:?}", (x, z));
            assert_eq!(cemetery_plot(x, z), x % 3 == 0 && z % 3 == 0);
        }
    }
    assert_eq!(mine.next_u64(), theirs.0.next_u64());

    // Forest, meadow and orchard rolls.
    let mut mine = element_rng(3);
    let mut theirs = element_rng(3);
    for i in 0..50 {
        let f = draw_forest(&mut mine, i % 4 != 0);
        if i % 4 != 0 {
            let r: i32 = theirs.0.random_range(0..100);
            assert_eq!(f, if r < 6 { Decoration::Tree } else if r < 14 { Decoration::DeadBush } else if r < 70 { Decoration::Grass } else { Decoration::Nothing });
        } else {
            assert_eq!(f, Decoration::Nothing);
        }
        let m = draw_meadow(&mut mine, true);
        let r: i32 = theirs.0.random_range(0..1001);
        let expected = if r < 5 {
            Decoration::Tree
        } else if r < 6 {
            Decoration::RedFlower
        } else if r < 9 {
            Decoration::OakLeaves
        } else if r < 40 {
            Decoration::Fern
        } else if r < 65 {
            Decoration::LargeFern
        } else if r < 825 {
            Decoration::Grass
        } else {
            Decoration::Nothing
        };
        assert_eq!(m, expected);
        let (x, z) = (i * 9, i * 5);
        let o = draw_orchard(&mut mine, x, z, true);
        if x % 18 == 0 && z % 10 == 0 {
            assert_eq!(o, Decoration::Tree);
        } else {
            let r: i32 = theirs.0.random_range(0..100);
            let expected = match r {
                0 => Decoration::OakLeaves,
                1..=2 => Decoration::Fern,
                3..=20 => Decoration::Grass,
                _ => Decoration::Nothing,
            };
            assert_eq!(o, expected);
        }
    }
}

#[test]
fn memorial_draws_come_from_the_node() {
    for id in [0u64, 1, 17, 123456789, u64::MAX] {
        let mut r = element_rng(id);
        assert_eq!(statue_bronze(id), r.0.random_bool(0.6));
        let mut r = element_rng(id);
        let h: i32 = r.0.random_range(20..35);
        assert_eq!(obelisk_height(id, None), h);
        assert!((20..35).contains(&h));
        assert_eq!(obelisk_height(id, Some(41)), 41);
    }
}

#[test]
fn tree_jitter_comes_from_the_position() {
    for x in -20..20 {
        for z in [-7, 0, 3, 1000] {
            let mut r = coord_rng(x, 0, z, 0);
            let j: i32 = r.0.random_range(-2..=2);
            assert_eq!(tree_height_jitter(x, z), j);
        }
    }
}

#[test]
fn seed_blocks_that_stop_a_tree() {
    let stopping = [
        SeedBlock::Brick,
        SeedBlock::StoneBricks,
        SeedBlock::GrayConcrete,
        SeedBlock::LightGrayConcrete,
        SeedBlock::OakFence,
        SeedBlock::Rail,
        SeedBlock::Ladder,
        SeedBlock::Chest,
        SeedBlock::Glass,
        SeedBlock::RedCarpet,
        SeedBlock::Water,
        SeedBlock::YellowConcrete,
        SeedBlock::PolishedBasalt,
        SeedBlock::WhiteConcrete,
        SeedBlock::BlackConcrete,
    ];
    for b in stopping {
        assert!(blocks_tree(b), "{:?}", b);
    }
    for b in [SeedBlock::Air, SeedBlock::GrassBlock, SeedBlock::Dirt, SeedBlock::Podzol, SeedBlock::Sand, SeedBlock::Other] {
        assert!(!blocks_tree(b), "{:?}", b);
    }
}

#[test]
fn scan_status_line_in_decimal() {
    let mut c = MasterControl::new(SharedDashboardState::new());
    for (x, z) in [(0, 0), (-1, 12), (2147483647, -2147483648), (-305, 9)] {
        c.handle_signal(BesmSignal::RegionProcessing(x, z));
        assert_eq!(c.state().status_msg, format!("VARREDURA: r.{}.{}", x, z));
    }
}

#[test]
fn farmland_draws() {
    let mut mine = element_rng(2024);
    let mut theirs = element_rng(2024);
    for x in -20..20 {
        for z in -4..5 {
            let is_water = (x * 7 + z) % 23 == 0;
            let on_farmland = (x + z) % 5 != 0;
            let d = draw_farmland(&mut mine, x, z, is_water, on_farmland);
            let expected = if is_water {
                FarmDecoration::Nothing
            } else if x % 9 == 0 && z % 9 == 0 {
                FarmDecoration::Water
            } else if theirs.0.random_range(0..76) == 0 {
                let c: i32 = theirs.0.random_range(1..=10);
                if c <= 4 { FarmDecoration::HayBale } else { FarmDecoration::OakLeaves }
            } else if on_farmland {
                [FarmDecoration::Wheat, FarmDecoration::Carrots, FarmDecoration::Potatoes][theirs.0.random_range(0..3)]
            } else {
                FarmDecoration::Nothing
            };
            assert_eq!(d, expected, "{:?}", (x, z));
        }
    }
    assert_eq!(mine.next_u64(), theirs.0.next_u64());
}

#[test]
fn construction_draws_and_cells() {
    let items = [
        ConstructionBlock::OakLog,
        ConstructionBlock::Cobblestone,
        ConstructionBlock::Gravel,
        ConstructionBlock::Glowstone,
        ConstructionBlock::Stone,
        ConstructionBlock::CobblestoneWall,
        ConstructionBlock::BlackConcrete,
        ConstructionBlock::Sand,
        ConstructionBlock::OakPlanks,
        ConstructionBlock::Dirt,
        ConstructionBlock::Brick,
        ConstructionBlock::CraftingTable,
        ConstructionBlock::Furnace,
    ];
    for id in [1u64, 2, 3, 99, 31337] {
        let mut mine = element_rng(id);
        let mut theirs = element_rng(id);
        for _ in 0..400 {
            let f = draw_construction(&mut mine);
            let mut m: HashMap<(i32, i32, i32), ConstructionBlock> = HashMap::new();
            let random_choice: i32 = theirs.0.random_range(0..1501);
            let s = ConstructionBlock::Scaffolding;
            if random_choice < 15 {
                m.insert((0, 1, 0), s);
                if random_choice < 2 {
                    m.insert((0, 2, 0), s);
                    m.insert((0, 3, 0), s);
                } else if random_choice < 4 {
                    m.insert((0, 2, 0), s);
                    m.insert((0, 3, 0), s);
                    m.insert((0, 4, 0), s);
                    m.insert((0, 1, 1), s);
                } else {
                    for y in 2..=5 {
                        m.insert((0, y, 0), s);
                    }
                    m.insert((-1, 1, 0), s);
                    m.insert((1, 1, -1), s);
                }
            } else if random_choice < 55 {
                m.insert((0, 1, 0), items[theirs.0.random_range(0..items.len())]);
            } else if random_choice < 65 {
                m.insert((0, 1, 0), ConstructionBlock::Dirt);
                m.insert((0, 2, 0), ConstructionBlock::Dirt);
                if random_choice < 60 {
                    m.insert((1, 1, 0), ConstructionBlock::Dirt);
                    m.insert((0, 1, 1), ConstructionBlock::Dirt);
                } else {
                    m.insert((-1, 1, 0), ConstructionBlock::Dirt);
                    m.insert((0, 1, -1), ConstructionBlock::Dirt);
                }
            } else {
                let g = if random_choice < 100 {
                    Some(ConstructionBlock::Gravel)
                } else if random_choice < 115 {
                    Some(ConstructionBlock::Sand)
                } else if random_choice < 125 {
                    Some(ConstructionBlock::Diorite)
                } else if random_choice < 145 {
                    Some(ConstructionBlock::Brick)
                } else if random_choice < 155 {
                    Some(ConstructionBlock::Granite)
                } else if random_choice < 180 {
                    Some(ConstructionBlock::Andesite)
                } else if random_choice < 565 {
                    Some(ConstructionBlock::Cobblestone)
                } else {
                    None
                };
                if let Some(b) = g {
                    m.insert((0, 0, 0), b);
                }
            }
            for dx in -2..=2 {
                for dz in -2..=2 {
                    for dy in -1..=6 {
                        assert_eq!(construction_cell_at(f, dx, dy, dz), m.get(&(dx, dy, dz)).copied(), "{:?}", (f, dx, dy, dz));
                    }
                }
            }
        }
        assert_eq!(mine.next_u64(), theirs.0.next_u64());
    }
    assert_eq!(construction_cell_at(ConstructionFeature::Nothing, 0, 1, 0), None);
}

#[test]
fn quarry_ore_draws() {
    let mut mine = element_rng(55);
    let mut theirs = element_rng(55);
    for abs_y in [-99, -50, 0, 12, 64, 300] {
        for _ in 0..20 {
            let b = draw_quarry_ore(&mut mine, true, abs_y);
            let r: i32 = theirs.0.random_range(0..100 + abs_y);
            assert_eq!(b, r < 5);
        }
        assert!(!draw_quarry_ore(&mut mine, false, abs_y));
    }
    assert_eq!(mine.next_u64(), theirs.0.next_u64());
}

#[test]
fn advertising_draws_come_from_the_block() {
    let colors = [FlagColor::Red, FlagColor::Yellow, FlagColor::Blue, FlagColor::Green, FlagColor::Orange, FlagColor::White];
    for (x, y, z, id) in [(0, 64, 0, 1u64), (-17, 70, 33, 99), (1000, -5, -1000, 123456)] {
        let mut r = coord_rng(x, y, z, id);
        assert_eq!(flag_color(x, y, z, id), colors[r.0.random_range(0..colors.len())]);
        let mut r = coord_rng(x, y, z, id);
        let expected = if r.0.random_bool(0.5) { 0 } else { 90 };
        assert_eq!(default_board_angle(x, y, z, id), expected);
    }
}

#[test]
fn benches() {
    for id in [0u64, 5, 77, 1 << 40] {
        let mut r = element_rng(id);
        let along = r.0.random_bool(0.5);
        assert_eq!(bench_along_x(id), along);
        for dx in -2i32..=2 {
            for dz in -2i32..=2 {
                for dy in 0..=2 {
                    let expected = dy == 1 && if along { dz == 0 && dx.abs() <= 1 } else { dx == 0 && dz.abs() <= 1 };
                    assert_eq!(bench_slab_at(along, dx, dy, dz), expected);
                }
            }
        }
    }
}
