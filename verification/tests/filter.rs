use noob_wave::filter::{FilterMode, FilterType, FILTER_MODE_COUNT};

#[test]
fn filter_mode_from_index_falls_back_to_lp12() {
    assert_eq!(FilterMode::from_index(0), FilterMode::Lp12);
    assert_eq!(FilterMode::from_index(1), FilterMode::Lp24);
    assert_eq!(FilterMode::from_index(2), FilterMode::Bp);
    assert_eq!(FilterMode::from_index(3), FilterMode::Hp);
    assert_eq!(FilterMode::from_index(4), FilterMode::Lp12);
    assert_eq!(FilterMode::from_index(usize::MAX), FilterMode::Lp12);
    assert_eq!(FilterMode::default(), FilterMode::Lp12);
    assert_eq!(FILTER_MODE_COUNT, 4);
}

#[test]
fn plugin_filter_types_select_the_same_response() {
    assert_eq!(FilterType::Lp12.mode(), FilterMode::Lp12);
    assert_eq!(FilterType::Lp24.mode(), FilterMode::Lp24);
    assert_eq!(FilterType::Bp.mode(), FilterMode::Bp);
    assert_eq!(FilterType::Hp.mode(), FilterMode::Hp);
    assert_eq!(FilterType::Hp.index(), 3);
}
