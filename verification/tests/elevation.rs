use pincel::elevation::{
    clamp_terrain_height, clamp_zoom, is_ground_class, is_stale_tile, retry_delay, tile_range, MAX_Y,
    TERRAIN_HEIGHT_BUFFER,
};

#[test]
fn tiles_between_corners() {
    assert_eq!(tile_range(3, 5, 2, 6), vec![(2, 5), (2, 6), (3, 5), (3, 6)]);
    assert_eq!(tile_range(7, 7, 7, 7), vec![(7, 7)]);
    assert_eq!(tile_range(0, 2, 0, 0), vec![(0, 0), (0, 1), (0, 2)]);
    assert_eq!(tile_range(u32::MAX, 1, u32::MAX - 1, 1), vec![(u32::MAX - 1, 1), (u32::MAX, 1)]);
    assert_eq!(tile_range(10, 20, 14, 23).len(), 5 * 4);
}

#[test]
fn download_retries() {
    assert_eq!(retry_delay(0), Some(0));
    assert_eq!(retry_delay(1), Some(500));
    assert_eq!(retry_delay(2), Some(1000));
    assert_eq!(retry_delay(3), None);
    assert_eq!(retry_delay(40), None);
}

#[test]
fn stale_cached_tiles() {
    let week: u64 = 7 * 24 * 60 * 60;
    assert!(is_stale_tile("z12_x1_y2.png", week + 1, 0));
    assert!(is_stale_tile("z12_x1_y2.png", week, 1));
    assert!(!is_stale_tile("z12_x1_y2.png", week, 0));
    assert!(!is_stale_tile("x12.png", week * 2, 0));
    assert!(!is_stale_tile("z12_x1_y2.jpg", week * 2, 0));
    assert!(!is_stale_tile("png", week * 2, 0));
    assert!(is_stale_tile("z.png", week * 2, 0));
}

#[test]
fn ground_points_and_heights() {
    assert!(is_ground_class(2));
    assert!(is_ground_class(9));
    assert!(!is_ground_class(5));
    assert_eq!(clamp_terrain_height(10, 64), 64);
    assert_eq!(clamp_terrain_height(100, 64), 100);
    assert_eq!(clamp_terrain_height(5000, 64), MAX_Y - TERRAIN_HEIGHT_BUFFER);
    assert_eq!(clamp_zoom(3), 10);
    assert_eq!(clamp_zoom(13), 13);
    assert_eq!(clamp_zoom(200), 15);
}
