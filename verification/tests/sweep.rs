use pincel::coordinate_system::XZBBox;
use pincel::data_processing::{region_chunk_span, region_sweep};

fn row_major_regions(b: &XZBBox) -> Vec<(i32, i32)> {
    let min_rx = b.min_x() >> 9;
    let max_rx = b.max_x() >> 9;
    let min_rz = b.min_z() >> 9;
    let max_rz = b.max_z() >> 9;
    let mut v = Vec::new();
    for rz in min_rz..=max_rz {
        for rx in min_rx..=max_rx {
            v.push((rx, rz));
        }
    }
    v
}

#[test]
fn sweep_visits_regions_row_by_row() {
    for (x0, x1, z0, z1) in [(0, 511, 0, 511), (-600, 1100, -10, 10), (-1, 0, 512, 2000), (5000, 5001, -5000, -4999)] {
        let b = XZBBox::new(x0, x1, z0, z1);
        let v = region_sweep(&b);
        assert_eq!(v, row_major_regions(&b));
        let total = (((x1 >> 9) - (x0 >> 9) + 1) * ((z1 >> 9) - (z0 >> 9) + 1)) as usize;
        assert_eq!(v.len(), total);
    }
    let b = XZBBox::new(-600, 1100, -10, 10);
    assert_eq!(region_sweep(&b), vec![(-2, -1), (-1, -1), (0, -1), (1, -1), (2, -1), (-2, 0), (-1, 0), (0, 0), (1, 0), (2, 0)]);
}

#[test]
fn chunks_of_a_region() {
    assert_eq!(region_chunk_span(0), (0, 31));
    assert_eq!(region_chunk_span(-2), (-64, -33));
    assert_eq!(region_chunk_span(3), (96, 127));
}
