use noob_wave::wavetable::{
    clamp_table, frame_base, mip_harmonics, Table, FRAMES, HARMONICS, MIPS, STRIDE, TABLE_COUNT,
};

#[test]
fn frame_base_follows_the_mip_frame_layout() {
    assert_eq!(frame_base(0, 0, FRAMES), 0);
    assert_eq!(frame_base(0, 1, FRAMES), STRIDE);
    assert_eq!(frame_base(1, 0, FRAMES), FRAMES * STRIDE);
    assert_eq!(frame_base(2, 3, FRAMES), (2 * FRAMES + 3) * STRIDE);
    // Out-of-range requests land on the last stored cycle.
    let last = ((MIPS - 1) * FRAMES + FRAMES - 1) * STRIDE;
    assert_eq!(frame_base(100, 100, FRAMES), last);
    assert_eq!(last + STRIDE, MIPS * FRAMES * STRIDE);
}

#[test]
fn table_selection_clamps_and_falls_back() {
    assert_eq!(clamp_table(0), 0);
    assert_eq!(clamp_table(5), 5);
    assert_eq!(clamp_table(9), TABLE_COUNT - 1);
    assert_eq!(Table::from_index(2), Table::Pwm);
    assert_eq!(Table::from_index(5), Table::Bells);
    assert_eq!(Table::from_index(6), Table::Basic);
    assert_eq!(Table::Digital.index(), 4);
}

#[test]
fn mip_levels_halve_the_harmonics() {
    let levels: Vec<usize> = (0..MIPS).map(mip_harmonics).collect();
    assert_eq!(levels, vec![1024, 512, 256, 128, 64, 32, 16, 8, 4]);
    for m in 0..MIPS {
        assert_eq!(mip_harmonics(m), HARMONICS >> m);
    }
}

#[test]
fn unknown_table_indices_build_and_name_basic_shapes() {
    for index in [6usize, 7, 100, usize::MAX] {
        let t = Table::from_index(index);
        assert_eq!(t, Table::Basic);
        // The name index is the built table's, not the clamped selection.
        assert_eq!(t.index(), 0);
    }
    for index in 0..TABLE_COUNT {
        assert_eq!(Table::from_index(index).index(), index);
    }
}
