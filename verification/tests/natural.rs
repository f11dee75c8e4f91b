use pincel::natural::{
    cerrado_biome, is_decorated, natural_block, natural_relation_plan, natural_tree, tree_candidates,
    tree_or_acacia, water_probes, CerradoBiome, NaturalBlock,
};
use pincel::osm_parser::{ProcessedMember, ProcessedMemberRole, ProcessedRelation, ProcessedWay};
use pincel::tags::Tags;
use pincel::tree::TreeType;
use std::sync::Arc;

fn tags(kv: &[(&str, &str)]) -> Tags {
    let mut t = Tags::new();
    for (k, v) in kv {
        t.insert(k.to_string(), v.to_string());
    }
    t
}

fn member(role: ProcessedMemberRole, id: u64) -> ProcessedMember {
    ProcessedMember { role, way: Arc::new(ProcessedWay { id, nodes: Vec::new(), tags: Tags::new() }) }
}

#[test]
fn natural_ground_blocks() {
    assert_eq!(natural_block("dune"), NaturalBlock::Sand);
    assert_eq!(natural_block("shoal"), NaturalBlock::Sand);
    assert_eq!(natural_block("reef"), NaturalBlock::Water);
    assert_eq!(natural_block("cliff"), NaturalBlock::Stone);
    assert_eq!(natural_block("saddle"), NaturalBlock::Andesite);
    assert_eq!(natural_block("glacier"), NaturalBlock::PackedIce);
    assert_eq!(natural_block("wetland"), NaturalBlock::Mud);
    assert_eq!(natural_block("scrub"), NaturalBlock::GrassBlock);
    assert_eq!(natural_block("volcano"), NaturalBlock::GrassBlock);
}

#[test]
fn water_and_ice_are_left_bare() {
    assert!(!is_decorated(NaturalBlock::Water));
    assert!(!is_decorated(NaturalBlock::PackedIce));
    assert!(is_decorated(NaturalBlock::GrassBlock));
    assert!(is_decorated(NaturalBlock::Sand));
}

#[test]
fn lone_tree_candidates() {
    assert_eq!(tree_candidates(&Tags::new()), vec![TreeType::Sucupira, TreeType::IpeAmarelo]);
    assert_eq!(tree_candidates(&tags(&[("species", "Handroanthus albus")])), vec![TreeType::IpeAmarelo]);
    assert_eq!(
        tree_candidates(&tags(&[("species", "Copaíba ou Ipê")])),
        vec![TreeType::IpeAmarelo, TreeType::Copaiba]
    );
    assert_eq!(tree_candidates(&tags(&[("species", "Caryocar brasiliense")])), vec![TreeType::Acacia]);
    // The match is case-sensitive.
    assert_eq!(tree_candidates(&tags(&[("species", "ipê")])), vec![TreeType::Acacia]);
}

#[test]
fn lone_tree_species() {
    let t = tags(&[("species", "Caryocar brasiliense")]);
    assert_eq!(natural_tree(7, &t), TreeType::Acacia);
    let none = Tags::new();
    let mut seen_sucupira = false;
    let mut seen_ipe = false;
    for id in 0..64u64 {
        let s = natural_tree(id, &none);
        assert_eq!(s, natural_tree(id, &none));
        match s {
            TreeType::Sucupira => seen_sucupira = true,
            TreeType::IpeAmarelo => seen_ipe = true,
            other => panic!("unexpected species {:?}", other),
        }
    }
    assert!(seen_sucupira && seen_ipe);
    assert_eq!(tree_or_acacia(None), TreeType::Acacia);
    assert_eq!(tree_or_acacia(Some(TreeType::Buriti)), TreeType::Buriti);
}

#[test]
fn cerrado_biomes() {
    assert_eq!(cerrado_biome(true, 0, 100, 0, 0), CerradoBiome::MataGaleria);
    assert_eq!(cerrado_biome(false, 70, 64, 64, 64), CerradoBiome::CampoRupestre);
    assert_eq!(cerrado_biome(false, 66, 63, 64, 64), CerradoBiome::CerradoStrictoSensu);
    // 3 and 2: a gradient of length sqrt(13), just above 3.5.
    assert_eq!(cerrado_biome(false, 67, 64, 66, 64), CerradoBiome::CampoRupestre);
    // 2 and 2: sqrt(8), below.
    assert_eq!(cerrado_biome(false, 62, 64, 66, 64), CerradoBiome::CerradoStrictoSensu);
    // Compared with the floating-point gradient the spot is measured by.
    for a in -6i32..=6 {
        for b in -6i32..=6 {
            let g = (((a * a + b * b) as f64).sqrt()) > 3.5;
            let expected = if g { CerradoBiome::CampoRupestre } else { CerradoBiome::CerradoStrictoSensu };
            assert_eq!(cerrado_biome(false, 64 + a, 64, 64 + b, 64), expected);
        }
    }
}

#[test]
fn water_probe_spots() {
    assert_eq!(water_probes(10, -3), vec![(18, -3), (2, -3), (10, 5), (10, -11), (14, 1), (6, -7)]);
}

#[test]
fn natural_relation_members() {
    let rel = ProcessedRelation {
        id: 5,
        tags: tags(&[("natural", "wood"), ("type", "multipolygon")]),
        members: vec![
            member(ProcessedMemberRole::Outer, 1),
            member(ProcessedMemberRole::Inner, 2),
            member(ProcessedMemberRole::Part, 3),
            member(ProcessedMemberRole::Outer, 4),
            member(ProcessedMemberRole::Inner, 5),
        ],
    };
    let plan = natural_relation_plan(&rel).unwrap();
    assert_eq!(plan.holes, vec![1, 4]);
    assert_eq!(plan.areas, vec![0, 3]);
    let other = ProcessedRelation { id: 6, tags: tags(&[("landuse", "forest")]), members: vec![member(ProcessedMemberRole::Outer, 1)] };
    assert!(natural_relation_plan(&other).is_none());
}
