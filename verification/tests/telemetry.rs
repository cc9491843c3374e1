use noob_wave::telemetry::{Publish, Schedule};

#[test]
fn spectrum_every_second_block_and_preview_once_per_change() {
    let mut s = Schedule::new();
    assert_eq!(s.next_block(0), Publish { spectrum: false, table: true });
    assert_eq!(s.next_block(0), Publish { spectrum: true, table: false });
    assert_eq!(s.next_block(0), Publish { spectrum: false, table: false });
    assert_eq!(s.next_block(3), Publish { spectrum: true, table: true });
    assert_eq!(s.next_block(3), Publish { spectrum: false, table: false });
    assert_eq!(s.next_block(0), Publish { spectrum: true, table: true });
    assert_eq!(s.blocks(), 6);
}
