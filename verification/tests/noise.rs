use noob_wave::noise::xorshift32;

#[test]
fn xorshift32_steps_match_the_reference_values() {
    assert_eq!(xorshift32(1), 270369);
    assert_eq!(xorshift32(270369), 67634689);
    assert_eq!(xorshift32(0x1234_5678), 2274908837);
    assert_eq!(xorshift32(0x2545_F491), 3777279546);
    assert_eq!(xorshift32(0), 0);
}

#[test]
fn xorshift32_never_reaches_zero_from_a_seed() {
    let mut x = 0x1234_5678u32;
    for _ in 0..100_000 {
        x = xorshift32(x);
        assert_ne!(x, 0);
    }
}
