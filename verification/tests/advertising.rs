use pincel::advertising::{
    billboard_pillars, board_block, flag_braced_at, generate_advertising, AdvertisingKind, BoardBlock,
};
use pincel::coordinate_system::XZPoint;
use pincel::tags::Tags;

fn tags(kv: &[(&str, &str)]) -> Tags {
    let mut t = Tags::new();
    for (k, v) in kv {
        t.insert(k.to_string(), v.to_string());
    }
    t
}

#[test]
fn advertising_kinds() {
    assert_eq!(generate_advertising(&tags(&[("advertising", "totem")])), Some(AdvertisingKind::Column));
    assert_eq!(generate_advertising(&tags(&[("advertising", "flag")])), Some(AdvertisingKind::Flag));
    assert_eq!(generate_advertising(&tags(&[("advertising", "poster_box")])), Some(AdvertisingKind::PosterBox));
    assert_eq!(generate_advertising(&tags(&[("advertising", "wall_profile")])), Some(AdvertisingKind::Billboard));
    assert_eq!(generate_advertising(&tags(&[("advertising", "sculpture")])), None);
    assert_eq!(generate_advertising(&tags(&[("amenity", "bench")])), None);
    assert_eq!(generate_advertising(&tags(&[("advertising", "screen"), ("layer", "-1")])), None);
    assert_eq!(generate_advertising(&tags(&[("advertising", "screen"), ("level", "-2")])), None);
    assert_eq!(
        generate_advertising(&tags(&[("advertising", "screen"), ("layer", "deep")])),
        Some(AdvertisingKind::Billboard)
    );
    assert_eq!(
        generate_advertising(&tags(&[("advertising", "board"), ("level", "1")])),
        Some(AdvertisingKind::Billboard)
    );
}

#[test]
fn billboard_faces() {
    assert_eq!(board_block(&tags(&[("advertising", "screen"), ("material", "wood")])), BoardBlock::SeaLantern);
    assert_eq!(board_block(&tags(&[("advertising", "board"), ("material", "wood")])), BoardBlock::OakPlanks);
    assert_eq!(board_block(&tags(&[("advertising", "board")])), BoardBlock::LightGrayConcrete);
}

#[test]
fn billboard_pillar_layout() {
    let short = billboard_pillars(XZPoint { x: 0, z: 0 }, XZPoint { x: 6, z: 8 });
    assert_eq!(short.len(), 1);
    assert_eq!((short[0].x, short[0].z), (3, 4));
    let long = billboard_pillars(XZPoint { x: -9, z: 0 }, XZPoint { x: 2, z: 0 });
    assert_eq!(long.len(), 3);
    // The middle is rounded toward zero: (-9 + 2) / 2 = -3.
    assert_eq!((long[0].x, long[0].z), (-3, 0));
    assert_eq!((long[1].x, long[2].x), (-9, 2));
}

#[test]
fn flag_mast_bracing() {
    assert!(flag_braced_at(18, 5));
    assert!(!flag_braced_at(18, 6));
    assert!(!flag_braced_at(15, 1));
}
