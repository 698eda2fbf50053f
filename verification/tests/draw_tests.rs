use snake_game::draw::to_u32;

#[test]
fn scaling_is_twenty_five_pixels_per_cell() {
    assert_eq!(to_u32(0), 0);
    assert_eq!(to_u32(1), 25);
    assert_eq!(to_u32(3), 75);
    assert_eq!(to_u32(100), 2500);
}

#[test]
fn scaling_clamps_at_the_edges() {
    assert_eq!(to_u32(-1), 0);
    assert_eq!(to_u32(-4), 0);
    assert_eq!(to_u32(i32::MIN), 0);
    // 171798691 * 25 still fits in u32; one more cell does not.
    assert_eq!(to_u32(171798691), 4294967275);
    assert_eq!(to_u32(171798692), u32::MAX);
    assert_eq!(to_u32(i32::MAX), u32::MAX);
}
