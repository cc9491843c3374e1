use noob_wave::ring::Ring;

#[test]
fn ring_keeps_the_newest_items_oldest_first() {
    let mut r = Ring::new(4, 0i32);
    assert_eq!(r.capacity(), 4);
    for x in 1..=6 {
        r.push(x);
    }
    let all: Vec<i32> = (0..4).map(|i| r.get(i)).collect();
    assert_eq!(all, vec![3, 4, 5, 6]);
    assert_eq!(r.get(3), 6);
}

#[test]
fn recent_copies_the_newest_and_leaves_the_rest() {
    let mut r = Ring::new(4, 0.0f32);
    for x in [1.0f32, 2.0, 3.0, 4.0, 5.0] {
        r.push(x);
    }
    let mut out = vec![9.0f32; 2];
    r.recent(&mut out);
    assert_eq!(out, vec![4.0, 5.0]);
    let mut long = vec![9.0f32; 6];
    r.recent(&mut long);
    assert_eq!(long, vec![2.0, 3.0, 4.0, 5.0, 9.0, 9.0]);
}

#[test]
fn fresh_ring_holds_the_fill_value() {
    let r = Ring::new(3, 7u8);
    assert_eq!((0..3).map(|i| r.get(i)).collect::<Vec<_>>(), vec![7, 7, 7]);
}
