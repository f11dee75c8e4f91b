use pincel::amenities::{
    basic_count_range, biased_damage, damage_bounds, display_options, glass_color, glass_count_range,
    green_waste, leather_item, leather_piece, scrap_metal_ids, seed_item, LeatherPiece, LootCategory,
    RecyclingLootKind,
};

#[test]
fn leather_pieces() {
    assert_eq!(leather_piece(0), LeatherPiece::Helmet);
    assert_eq!(leather_piece(2), LeatherPiece::Leggings);
    assert_eq!(leather_piece(3), LeatherPiece::Boots);
    assert_eq!(leather_item(LeatherPiece::Chestplate), ("minecraft:leather_chestplate", 80));
    assert_eq!(leather_item(LeatherPiece::Boots), ("minecraft:leather_boots", 65));
}

#[test]
fn worn_armour_damage() {
    assert_eq!(damage_bounds(80), (40, 79));
    assert_eq!(damage_bounds(55), (27, 54));
    assert_eq!(damage_bounds(1), (0, 0));
    assert_eq!(damage_bounds(-5), (0, 0));
    assert_eq!(biased_damage(80, 40, 79), 79);
    assert_eq!(biased_damage(80, 50, 3), 50);
}

#[test]
fn glass_and_plants() {
    assert_eq!(glass_color(0), "white");
    assert_eq!(glass_color(3), "light_blue");
    assert_eq!(glass_color(15), "black");
    assert_eq!(glass_count_range(true), (4, 16));
    assert_eq!(glass_count_range(false), (1, 6));
    assert_eq!(green_waste(1), ("minecraft:sweet_berries", (2, 6)));
    assert_eq!(green_waste(7), ("minecraft:dark_oak_sapling", (1, 2)));
    assert_eq!(seed_item(2), "minecraft:melon_seeds");
    assert_eq!(scrap_metal_ids(), vec!["minecraft:copper_ingot", "minecraft:iron_ingot", "minecraft:gold_ingot"]);
}

#[test]
fn fixed_counts_and_displays() {
    assert_eq!(basic_count_range(RecyclingLootKind::Paper), Some((1, 10)));
    assert_eq!(basic_count_range(RecyclingLootKind::EmptyBucket), Some((1, 1)));
    assert_eq!(basic_count_range(RecyclingLootKind::GlassPane), None);
    assert_eq!(display_options(LootCategory::Paper), (vec!["minecraft:paper"], (1, 4)));
    let (ids, counts) = display_options(LootCategory::GreenWaste);
    assert_eq!(ids.len(), 5);
    assert_eq!(ids[4], "minecraft:wheat_seeds");
    assert_eq!(counts, (1, 3));
}
