use pincel::deterministic_rng::{coord_rng, element_rng, element_rng_salted};

#[test]
fn test_element_rng_deterministic() {
    let mut rng1 = element_rng(12345);
    let mut rng2 = element_rng(12345);

    for _ in 0..100 {
        assert_eq!(rng1.next_u64(), rng2.next_u64());
    }
}

#[test]
fn test_different_elements_different_values() {
    let mut rng1 = element_rng(12345);
    let mut rng2 = element_rng(12346);

    let v1: u64 = rng1.next_u64();
    let v2: u64 = rng2.next_u64();
    assert_ne!(v1, v2);
}

#[test]
fn test_salted_rng_different_from_base() {
    let mut rng1 = element_rng(12345);
    let mut rng2 = element_rng_salted(12345, 1);

    let v1: u64 = rng1.next_u64();
    let v2: u64 = rng2.next_u64();
    assert_ne!(v1, v2);
}

#[test]
fn test_coord_rng_deterministic() {
    let mut rng1 = coord_rng(100, 64, 200, 12345);
    let mut rng2 = coord_rng(100, 64, 200, 12345);

    assert_eq!(rng1.next_u64(), rng2.next_u64());
}

#[test]
fn test_coord_rng_negative_coordinates() {
    let mut rng1 = coord_rng(-100, 10, -200, 12345);
    let mut rng2 = coord_rng(-100, 10, -200, 12345);

    assert_eq!(rng1.next_u64(), rng2.next_u64());

    let mut rng3 = coord_rng(-100, 10, -200, 12345);
    let mut rng4 = coord_rng(-101, 10, -200, 12345);

    assert_ne!(rng3.next_u64(), rng4.next_u64());
}

#[test]
fn test_coord_rng_zero_collapse_prevention() {
    let mut rng_zero = coord_rng(0, 0, 0, 0);
    let v1: u64 = rng_zero.next_u64();
    let v2: u64 = rng_zero.next_u64();

    assert_ne!(v1, 0);
    assert_ne!(v2, 0);
    assert_ne!(v1, v2);
}

#[test]
fn test_coord_rng_non_commutative() {
    let mut rng1 = coord_rng(10, 0, 20, 999);
    let mut rng2 = coord_rng(20, 0, 10, 999);

    assert_ne!(rng1.next_u64(), rng2.next_u64());
}

#[test]
fn next_u32_is_upper_half_of_next_u64() {
    let mut a = element_rng(7);
    let mut b = element_rng(7);
    let wide = a.next_u64();
    let narrow = b.next_u32();
    assert_eq!(narrow, (wide >> 32) as u32);
    assert_eq!(a.next_u64(), b.next_u64());
}

#[test]
fn salt_zero_keeps_the_base_sequence() {
    let mut base = element_rng(4242);
    let mut salted = element_rng_salted(4242, 0);
    for _ in 0..10 {
        assert_eq!(base.next_u64(), salted.next_u64());
    }
}

#[test]
fn coord_rng_each_axis_matters() {
    let a = coord_rng(1, 2, 3, 4).next_u64();
    assert_ne!(a, coord_rng(1, 2, 4, 4).next_u64());
    assert_ne!(a, coord_rng(1, 3, 3, 4).next_u64());
    assert_ne!(a, coord_rng(2, 2, 3, 4).next_u64());
    assert_ne!(a, coord_rng(1, 2, 3, 5).next_u64());
}
