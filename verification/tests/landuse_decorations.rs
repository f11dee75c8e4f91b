use pincel::landuse::{
    cemetery_decoration, cemetery_plot, forest_decoration, grassland_decoration, grave_block_at, meadow_decoration,
    orchard_decoration, orchard_tree_place, place_block, quarry_ore, landuse_relation_members, Decoration, GraveBlock,
    GroundBlock, QuarryOre,
};
use pincel::osm_parser::{ProcessedMember, ProcessedMemberRole, ProcessedRelation, ProcessedWay};
use pincel::tags::Tags;
use std::sync::Arc;
use std::collections::HashMap;

#[test]
fn cemetery_plots_and_features() {
    for x in -10..=10 {
        for z in -10..=10 {
            assert_eq!(cemetery_plot(x, z), x % 3 == 0 && z % 3 == 0);
        }
    }
    for roll in 0..100 {
        for podzol in [false, true] {
            for coin in [false, true] {
                let expected = if roll < 15 {
                    if podzol { Decoration::Grave { along_x: coin } } else { Decoration::Nothing }
                } else if roll < 30 {
                    if podzol { Decoration::RedFlower } else { Decoration::Nothing }
                } else if roll < 33 {
                    Decoration::Tree
                } else if roll < 35 {
                    Decoration::OakLeaves
                } else if roll < 37 {
                    Decoration::Fern
                } else if roll < 41 {
                    Decoration::LargeFern
                } else {
                    Decoration::Nothing
                };
                assert_eq!(cemetery_decoration(roll, podzol, coin), expected);
            }
        }
    }
}

#[test]
fn graves_lie_along_either_axis() {
    for along_x in [true, false] {
        let mut m = HashMap::new();
        if along_x {
            m.insert((-1, 1, 0), GraveBlock::Cobblestone);
            m.insert((-1, 2, 0), GraveBlock::StoneBrickSlab);
            m.insert((0, 1, 0), GraveBlock::StoneBrickSlab);
            m.insert((1, 1, 0), GraveBlock::StoneBrickSlab);
        } else {
            m.insert((0, 1, -1), GraveBlock::Cobblestone);
            m.insert((0, 2, -1), GraveBlock::StoneBrickSlab);
            m.insert((0, 1, 0), GraveBlock::StoneBrickSlab);
            m.insert((0, 1, 1), GraveBlock::StoneBrickSlab);
        }
        for dx in -3..=3 {
            for dy in -1..=4 {
                for dz in -3..=3 {
                    assert_eq!(grave_block_at(along_x, dx, dy, dz), m.get(&(dx, dy, dz)).copied());
                }
            }
        }
    }
}

#[test]
fn natural_decorations_by_roll() {
    for roll in 0..100 {
        let forest = if roll < 6 {
            Decoration::Tree
        } else if roll < 14 {
            Decoration::DeadBush
        } else if roll < 70 {
            Decoration::Grass
        } else {
            Decoration::Nothing
        };
        assert_eq!(forest_decoration(roll), forest);
        let grass = if roll < 5 {
            Decoration::DeadBush
        } else if roll < 70 {
            Decoration::Grass
        } else {
            Decoration::Nothing
        };
        assert_eq!(grassland_decoration(roll), grass);
        let orchard = match roll {
            0 => Decoration::OakLeaves,
            1..=2 => Decoration::Fern,
            3..=20 => Decoration::Grass,
            _ => Decoration::Nothing,
        };
        assert_eq!(orchard_decoration(roll), orchard);
    }
    for roll in 0..1001 {
        let meadow = if roll < 5 {
            Decoration::Tree
        } else if roll < 6 {
            Decoration::RedFlower
        } else if roll < 9 {
            Decoration::OakLeaves
        } else if roll < 40 {
            Decoration::Fern
        } else if roll < 65 {
            Decoration::LargeFern
        } else if roll < 825 {
            Decoration::Grass
        } else {
            Decoration::Nothing
        };
        assert_eq!(meadow_decoration(roll), meadow);
    }
    for x in -40..=40 {
        for z in -25..=25 {
            assert_eq!(orchard_tree_place(x, z), x % 18 == 0 && z % 10 == 0);
        }
    }
}

fn tagged(kv: &[(&str, &str)]) -> Tags {
    let mut t = Tags::new();
    for (k, v) in kv {
        t.insert(k.to_string(), v.to_string());
    }
    t
}

#[test]
fn quarry_ores_and_place_paving() {
    assert_eq!(quarry_ore(&tagged(&[("landuse", "quarry")])), None);
    assert_eq!(quarry_ore(&tagged(&[("resource", "iron_ore")])), Some(QuarryOre::IronOre));
    assert_eq!(quarry_ore(&tagged(&[("resource", "coal")])), Some(QuarryOre::CoalOre));
    assert_eq!(quarry_ore(&tagged(&[("resource", "copper")])), Some(QuarryOre::CopperOre));
    assert_eq!(quarry_ore(&tagged(&[("resource", "gold")])), Some(QuarryOre::GoldOre));
    assert_eq!(quarry_ore(&tagged(&[("resource", "kaolinite")])), Some(QuarryOre::Clay));
    assert_eq!(quarry_ore(&tagged(&[("resource", "granite")])), Some(QuarryOre::Stone));
    assert_eq!(place_block(&tagged(&[("place", "square")])), Some(GroundBlock::StoneBricks));
    for p in ["neighbourhood", "city_block", "quarter", "suburb"] {
        assert_eq!(place_block(&tagged(&[("place", p)])), Some(GroundBlock::PolishedAndesite));
    }
    assert_eq!(place_block(&tagged(&[("place", "city")])), None);
    assert_eq!(place_block(&Tags::new()), None);
}

fn member(role: ProcessedMemberRole, id: u64) -> ProcessedMember {
    ProcessedMember { role, way: Arc::new(ProcessedWay { id, nodes: vec![], tags: Tags::new() }) }
}

#[test]
fn landuse_relations_draw_their_outer_members() {
    let members = vec![
        member(ProcessedMemberRole::Outer, 1),
        member(ProcessedMemberRole::Inner, 2),
        member(ProcessedMemberRole::Outer, 3),
        member(ProcessedMemberRole::Part, 4),
    ];
    let rel = ProcessedRelation { id: 9, tags: tagged(&[("leisure", "park")]), members };
    assert_eq!(landuse_relation_members(&rel), vec![0, 2]);
    let rel = ProcessedRelation { id: 9, tags: tagged(&[("type", "multipolygon")]), members: vec![member(ProcessedMemberRole::Outer, 1)] };
    assert_eq!(landuse_relation_members(&rel), Vec::<usize>::new());
}
