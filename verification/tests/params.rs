use noob_wave::params::{find_id, param_ids, param_index, stream_ix, PARAM_COUNT};

#[test]
fn declared_ids_resolve_to_their_positions() {
    let ids = param_ids();
    assert_eq!(ids.len(), PARAM_COUNT);
    assert_eq!(ids[0], "wt_table");
    assert_eq!(ids[34], "poly");
    let ix = param_index(&ids).expect("every id is declared");
    assert_eq!(ix.wt_table, 0);
    assert_eq!(ix.filter_key, 16);
    assert_eq!(ix.amp, [17, 18, 19, 20]);
    assert_eq!(ix.filt, [21, 22, 23, 24]);
    assert_eq!(ix.lfo_rate, 25);
    assert_eq!(ix.master, 33);
    assert_eq!(ix.poly, 34);
}

#[test]
fn a_missing_id_is_reported() {
    let mut ids = param_ids();
    ids.retain(|s| s != "glide");
    assert!(param_index(&ids).is_none());
}

#[test]
fn lookup_follows_the_host_order_and_takes_the_first_match() {
    let mut ids = param_ids();
    ids.reverse();
    ids.push("poly".to_string());
    let ix = param_index(&ids).unwrap();
    assert_eq!(ix.poly, 0);
    assert_eq!(ix.wt_table, 34);
    assert_eq!(find_id(&ids, &"poly".to_string()), Some(0));
    assert_eq!(find_id(&ids, &"nope".to_string()), None);
}

#[test]
fn stream_indices_are_fixed() {
    let s = stream_ix();
    assert_eq!(
        [s.scope, s.spectrum, s.meter_out, s.voices, s.modulation, s.wavetable],
        [0, 1, 2, 3, 4, 5]
    );
}
