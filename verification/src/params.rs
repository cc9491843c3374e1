//! The parameter and stream layout shared by every host.
//!
//! Parameters are identified by stable string ids, shared with the web
//! page; the standalone and the plug-in declare the same [`PARAM_COUNT`]
//! ids in the same order ([`param_ids`]). [`param_index`] resolves every
//! id to its position in a host's parameter list once, so the audio thread
//! can read values by index. Streams have fixed indices ([`stream_ix`]).

use vstd::prelude::*;
use vstd::string::*;

verus! {

/// Number of parameters.
pub const PARAM_COUNT: usize = 35;

/// Parameter indices resolved from ids, so the audio thread can read
/// values by index without string lookups. Built by [`param_index`].
#[derive(Clone, Copy, PartialEq, Eq, Debug)]
pub struct ParamIx {
    /// `wt_table`: factory wavetable, index into the table names.
    pub wt_table: usize,
    /// `wt_position`: 0–1 morph position between the table's frames.
    pub wt_position: usize,
    /// `osc_octave`: -3..3 octaves.
    pub osc_octave: usize,
    /// `osc_semi`: -12..12 semitones.
    pub osc_semi: usize,
    /// `osc_fine`: -100..100 cents.
    pub osc_fine: usize,
    /// `unison_voices`: 1..7 oscillators per voice.
    pub unison_voices: usize,
    /// `unison_detune`: cents between the outermost unison oscillators.
    pub unison_detune: usize,
    /// `unison_width`: 0–100 % stereo spread of the unison oscillators.
    pub unison_width: usize,
    /// `osc_level`: 0–100 % oscillator level.
    pub osc_level: usize,
    /// `osc_phase_random`: toggle, random start phases per note.
    pub osc_phase_random: usize,
    /// `sub_level`: 0–100 % sine sub oscillator level.
    pub sub_level: usize,
    /// `sub_octave`: choice, one or two octaves below.
    pub sub_octave: usize,
    /// `filter_mode`: choice, index of a filter response.
    pub filter_mode: usize,
    /// `filter_cutoff`: 20 Hz – 20 kHz, log taper.
    pub filter_cutoff: usize,
    /// `filter_res`: 0–100 % resonance.
    pub filter_res: usize,
    /// `filter_env`: -100..100 % filter envelope amount (±6 octaves).
    pub filter_env: usize,
    /// `filter_key`: 0–100 % keyboard tracking.
    pub filter_key: usize,
    /// `amp_attack`, `amp_decay`, `amp_sustain`, `amp_release`.
    pub amp: [usize; 4],
    /// `filt_attack`, `filt_decay`, `filt_sustain`, `filt_release`.
    pub filt: [usize; 4],
    /// `lfo_rate`: 0.02–20 Hz, log taper.
    pub lfo_rate: usize,
    /// `lfo_shape`: choice, index of an LFO shape.
    pub lfo_shape: usize,
    /// `lfo_pos`: -100..100 % LFO to wavetable position.
    pub lfo_pos: usize,
    /// `lfo_cutoff`: -4..4 octaves LFO to cutoff.
    pub lfo_cutoff: usize,
    /// `lfo_pitch`: -12..12 semitones LFO to pitch.
    pub lfo_pitch: usize,
    /// `lfo_retrig`: toggle, restart the LFO on every note.
    pub lfo_retrig: usize,
    /// `vel_amp`: 0–100 % velocity to level.
    pub vel_amp: usize,
    /// `glide`: 0–2 s portamento.
    pub glide: usize,
    /// `master`: -24..12 dB output gain.
    pub master: usize,
    /// `poly`: 1..16 polyphony.
    pub poly: usize,
}

/// Stream indices, in the order the hosts declare the streams.
#[derive(Clone, Copy, PartialEq, Eq, Debug, Structural)]
pub struct StreamIx {
    /// `scope`: recent output samples.
    pub scope: usize,
    /// `spectrum`: output magnitudes in dBFS.
    pub spectrum: usize,
    /// `meter_out`: per-block peak and RMS, both channels.
    pub meter_out: usize,
    /// `voices`: per-voice level and note.
    pub voices: usize,
    /// `modulation`: live wavetable position and LFO value.
    pub modulation: usize,
    /// `wavetable`: preview of the selected table (sticky).
    pub wavetable: usize,
}

/// Number of telemetry streams.
pub const STREAM_COUNT: usize = 6;

/// The fixed stream indices; the hosts declare the streams in this order.
pub fn stream_ix() -> (s: StreamIx)
    ensures
        s == (StreamIx {
            scope: 0,
            spectrum: 1,
            meter_out: 2,
            voices: 3,
            modulation: 4,
            wavetable: 5,
        }),
{
    StreamIx { scope: 0, spectrum: 1, meter_out: 2, voices: 3, modulation: 4, wavetable: 5 }
}

/// The id of parameter `k`, in declaration order.
pub open spec fn param_id(k: int) -> Seq<char> {
    if k == 0 {
        "wt_table"@
    } else if k == 1 {
        "wt_position"@
    } else if k == 2 {
        "osc_octave"@
    } else if k == 3 {
        "osc_semi"@
    } else if k == 4 {
        "osc_fine"@
    } else if k == 5 {
        "unison_voices"@
    } else if k == 6 {
        "unison_detune"@
    } else if k == 7 {
        "unison_width"@
    } else if k == 8 {
        "osc_level"@
    } else if k == 9 {
        "osc_phase_random"@
    } else if k == 10 {
        "sub_level"@
    } else if k == 11 {
        "sub_octave"@
    } else if k == 12 {
        "filter_mode"@
    } else if k == 13 {
        "filter_cutoff"@
    } else if k == 14 {
        "filter_res"@
    } else if k == 15 {
        "filter_env"@
    } else if k == 16 {
        "filter_key"@
    } else if k == 17 {
        "amp_attack"@
    } else if k == 18 {
        "amp_decay"@
    } else if k == 19 {
        "amp_sustain"@
    } else if k == 20 {
        "amp_release"@
    } else if k == 21 {
        "filt_attack"@
    } else if k == 22 {
        "filt_decay"@
    } else if k == 23 {
        "filt_sustain"@
    } else if k == 24 {
        "filt_release"@
    } else if k == 25 {
        "lfo_rate"@
    } else if k == 26 {
        "lfo_shape"@
    } else if k == 27 {
        "lfo_pos"@
    } else if k == 28 {
        "lfo_cutoff"@
    } else if k == 29 {
        "lfo_pitch"@
    } else if k == 30 {
        "lfo_retrig"@
    } else if k == 31 {
        "vel_amp"@
    } else if k == 32 {
        "glide"@
    } else if k == 33 {
        "master"@
    } else {
        "poly"@
    }
}

/// The field of `ix` that holds parameter `k`.
pub open spec fn ix_field(ix: ParamIx, k: int) -> usize {
    if k == 0 {
        ix.wt_table
    } else if k == 1 {
        ix.wt_position
    } else if k == 2 {
        ix.osc_octave
    } else if k == 3 {
        ix.osc_semi
    } else if k == 4 {
        ix.osc_fine
    } else if k == 5 {
        ix.unison_voices
    } else if k == 6 {
        ix.unison_detune
    } else if k == 7 {
        ix.unison_width
    } else if k == 8 {
        ix.osc_level
    } else if k == 9 {
        ix.osc_phase_random
    } else if k == 10 {
        ix.sub_level
    } else if k == 11 {
        ix.sub_octave
    } else if k == 12 {
        ix.filter_mode
    } else if k == 13 {
        ix.filter_cutoff
    } else if k == 14 {
        ix.filter_res
    } else if k == 15 {
        ix.filter_env
    } else if k == 16 {
        ix.filter_key
    } else if k == 17 {
        ix.amp[0]
    } else if k == 18 {
        ix.amp[1]
    } else if k == 19 {
        ix.amp[2]
    } else if k == 20 {
        ix.amp[3]
    } else if k == 21 {
        ix.filt[0]
    } else if k == 22 {
        ix.filt[1]
    } else if k == 23 {
        ix.filt[2]
    } else if k == 24 {
        ix.filt[3]
    } else if k == 25 {
        ix.lfo_rate
    } else if k == 26 {
        ix.lfo_shape
    } else if k == 27 {
        ix.lfo_pos
    } else if k == 28 {
        ix.lfo_cutoff
    } else if k == 29 {
        ix.lfo_pitch
    } else if k == 30 {
        ix.lfo_retrig
    } else if k == 31 {
        ix.vel_amp
    } else if k == 32 {
        ix.glide
    } else if k == 33 {
        ix.master
    } else {
        ix.poly
    }
}

/// `j` is the first position of `name` in `ids`.
pub open spec fn first_index(ids: Seq<String>, name: Seq<char>, j: int) -> bool {
    &&& 0 <= j < ids.len()
    &&& ids[j]@ == name
    &&& forall|i: int| 0 <= i < j ==> #[trigger] ids[i]@ != name
}

/// `name` occurs in `ids`.
pub open spec fn has_id(ids: Seq<String>, name: Seq<char>) -> bool {
    exists|j: int| 0 <= j < ids.len() && #[trigger] ids[j]@ == name
}

/// The parameter ids in declaration order.
pub fn param_ids() -> (r: Vec<String>)
    ensures
        r@.len() == PARAM_COUNT,
        forall|k: int| 0 <= k < PARAM_COUNT ==> #[trigger] r@[k]@ == param_id(k),
{
    let r = vec![
        String::from_str("wt_table"),
        String::from_str("wt_position"),
        String::from_str("osc_octave"),
        String::from_str("osc_semi"),
        String::from_str("osc_fine"),
        String::from_str("unison_voices"),
        String::from_str("unison_detune"),
        String::from_str("unison_width"),
        String::from_str("osc_level"),
        String::from_str("osc_phase_random"),
        String::from_str("sub_level"),
        String::from_str("sub_octave"),
        String::from_str("filter_mode"),
        String::from_str("filter_cutoff"),
        String::from_str("filter_res"),
        String::from_str("filter_env"),
        String::from_str("filter_key"),
        String::from_str("amp_attack"),
        String::from_str("amp_decay"),
        String::from_str("amp_sustain"),
        String::from_str("amp_release"),
        String::from_str("filt_attack"),
        String::from_str("filt_decay"),
        String::from_str("filt_sustain"),
        String::from_str("filt_release"),
        String::from_str("lfo_rate"),
        String::from_str("lfo_shape"),
        String::from_str("lfo_pos"),
        String::from_str("lfo_cutoff"),
        String::from_str("lfo_pitch"),
        String::from_str("lfo_retrig"),
        String::from_str("vel_amp"),
        String::from_str("glide"),
        String::from_str("master"),
        String::from_str("poly"),
    ];
    r
}

/// Position of the first id in `ids` equal to `name`, if any.
pub fn find_id(ids: &Vec<String>, name: &String) -> (r: Option<usize>)
    ensures
        r matches Some(j) ==> first_index(ids@, name@, j as int),
        r is None ==> !has_id(ids@, name@),
{
    let mut i: usize = 0;
    while i < ids.len()
        invariant
            i <= ids@.len(),
            forall|j: int| 0 <= j < i ==> #[trigger] ids@[j]@ != name@,
        decreases ids@.len() - i,
    {
        if ids[i] == *name {
            return Some(i);
        }
        i = i + 1;
    }
    None
}

/// Resolve every parameter index by id in `ids`, a host's parameter ids in
/// its own order: each field gets the first position of its id. `None`
/// when an id is missing, which would be a mismatch between the hosts'
/// parameter lists.
pub fn param_index(ids: &Vec<String>) -> (r: Option<ParamIx>)
    ensures
        r is Some <==> forall|k: int| 0 <= k < PARAM_COUNT ==> has_id(ids@, #[trigger] param_id(k)),
        r matches Some(ix) ==> forall|k: int|
            0 <= k < PARAM_COUNT ==> first_index(ids@, #[trigger] param_id(k), ix_field(ix, k) as int),
        r matches Some(ix) ==> {
            &&& first_index(ids@, "wt_table"@, ix.wt_table as int)
            &&& first_index(ids@, "wt_position"@, ix.wt_position as int)
            &&& first_index(ids@, "osc_octave"@, ix.osc_octave as int)
            &&& first_index(ids@, "osc_semi"@, ix.osc_semi as int)
            &&& first_index(ids@, "osc_fine"@, ix.osc_fine as int)
            &&& first_index(ids@, "unison_voices"@, ix.unison_voices as int)
            &&& first_index(ids@, "unison_detune"@, ix.unison_detune as int)
            &&& first_index(ids@, "unison_width"@, ix.unison_width as int)
            &&& first_index(ids@, "osc_level"@, ix.osc_level as int)
            &&& first_index(ids@, "osc_phase_random"@, ix.osc_phase_random as int)
            &&& first_index(ids@, "sub_level"@, ix.sub_level as int)
            &&& first_index(ids@, "sub_octave"@, ix.sub_octave as int)
            &&& first_index(ids@, "filter_mode"@, ix.filter_mode as int)
            &&& first_index(ids@, "filter_cutoff"@, ix.filter_cutoff as int)
            &&& first_index(ids@, "filter_res"@, ix.filter_res as int)
            &&& first_index(ids@, "filter_env"@, ix.filter_env as int)
            &&& first_index(ids@, "filter_key"@, ix.filter_key as int)
            &&& first_index(ids@, "amp_attack"@, ix.amp[0] as int)
            &&& first_index(ids@, "amp_decay"@, ix.amp[1] as int)
            &&& first_index(ids@, "amp_sustain"@, ix.amp[2] as int)
            &&& first_index(ids@, "amp_release"@, ix.amp[3] as int)
            &&& first_index(ids@, "filt_attack"@, ix.filt[0] as int)
            &&& first_index(ids@, "filt_decay"@, ix.filt[1] as int)
            &&& first_index(ids@, "filt_sustain"@, ix.filt[2] as int)
            &&& first_index(ids@, "filt_release"@, ix.filt[3] as int)
            &&& first_index(ids@, "lfo_rate"@, ix.lfo_rate as int)
            &&& first_index(ids@, "lfo_shape"@, ix.lfo_shape as int)
            &&& first_index(ids@, "lfo_pos"@, ix.lfo_pos as int)
            &&& first_index(ids@, "lfo_cutoff"@, ix.lfo_cutoff as int)
            &&& first_index(ids@, "lfo_pitch"@, ix.lfo_pitch as int)
            &&& first_index(ids@, "lfo_retrig"@, ix.lfo_retrig as int)
            &&& first_index(ids@, "vel_amp"@, ix.vel_amp as int)
            &&& first_index(ids@, "glide"@, ix.glide as int)
            &&& first_index(ids@, "master"@, ix.master as int)
            &&& first_index(ids@, "poly"@, ix.poly as int)
        },
{
    let names = param_ids();
    let mut found: Vec<usize> = Vec::new();
    let mut k: usize = 0;
    while k < PARAM_COUNT
        invariant
            names@.len() == PARAM_COUNT,
            forall|q: int| 0 <= q < PARAM_COUNT ==> #[trigger] names@[q]@ == param_id(q),
            k <= PARAM_COUNT,
            found@.len() == k,
            forall|q: int| 0 <= q < k ==> first_index(ids@, #[trigger] param_id(q), found@[q] as int),
        decreases PARAM_COUNT - k,
    {
        match find_id(ids, &names[k]) {
            Some(j) => {
                found.push(j);
            },
            None => {
                proof {
                    assert(!has_id(ids@, param_id(k as int)));
                }
                return None;
            },
        }
        k = k + 1;
    }
    let ix = ParamIx {
        wt_table: found[0],
        wt_position: found[1],
        osc_octave: found[2],
        osc_semi: found[3],
        osc_fine: found[4],
        unison_voices: found[5],
        unison_detune: found[6],
        unison_width: found[7],
        osc_level: found[8],
        osc_phase_random: found[9],
        sub_level: found[10],
        sub_octave: found[11],
        filter_mode: found[12],
        filter_cutoff: found[13],
        filter_res: found[14],
        filter_env: found[15],
        filter_key: found[16],
        amp: [found[17], found[18], found[19], found[20]],
        filt: [found[21], found[22], found[23], found[24]],
        lfo_rate: found[25],
        lfo_shape: found[26],
        lfo_pos: found[27],
        lfo_cutoff: found[28],
        lfo_pitch: found[29],
        lfo_retrig: found[30],
        vel_amp: found[31],
        glide: found[32],
        master: found[33],
        poly: found[34],
    };
    proof {
        assert forall|q: int| 0 <= q < PARAM_COUNT implies has_id(ids@, #[trigger] param_id(q)) by {
            assert(first_index(ids@, param_id(q), found@[q] as int));
        }
        assert forall|q: int| 0 <= q < PARAM_COUNT implies first_index(
            ids@,
            #[trigger] param_id(q),
            ix_field(ix, q) as int,
        ) by {
            assert(first_index(ids@, param_id(q), found@[q] as int));
        }
        assert(first_index(ids@, param_id(0), found@[0] as int));
        assert(first_index(ids@, param_id(1), found@[1] as int));
        assert(first_index(ids@, param_id(2), found@[2] as int));
        assert(first_index(ids@, param_id(3), found@[3] as int));
        assert(first_index(ids@, param_id(4), found@[4] as int));
        assert(first_index(ids@, param_id(5), found@[5] as int));
        assert(first_index(ids@, param_id(6), found@[6] as int));
        assert(first_index(ids@, param_id(7), found@[7] as int));
        assert(first_index(ids@, param_id(8), found@[8] as int));
        assert(first_index(ids@, param_id(9), found@[9] as int));
        assert(first_index(ids@, param_id(10), found@[10] as int));
        assert(first_index(ids@, param_id(11), found@[11] as int));
        assert(first_index(ids@, param_id(12), found@[12] as int));
        assert(first_index(ids@, param_id(13), found@[13] as int));
        assert(first_index(ids@, param_id(14), found@[14] as int));
        assert(first_index(ids@, param_id(15), found@[15] as int));
        assert(first_index(ids@, param_id(16), found@[16] as int));
        assert(first_index(ids@, param_id(17), found@[17] as int));
        assert(first_index(ids@, param_id(18), found@[18] as int));
        assert(first_index(ids@, param_id(19), found@[19] as int));
        assert(first_index(ids@, param_id(20), found@[20] as int));
        assert(first_index(ids@, param_id(21), found@[21] as int));
        assert(first_index(ids@, param_id(22), found@[22] as int));
        assert(first_index(ids@, param_id(23), found@[23] as int));
        assert(first_index(ids@, param_id(24), found@[24] as int));
        assert(first_index(ids@, param_id(25), found@[25] as int));
        assert(first_index(ids@, param_id(26), found@[26] as int));
        assert(first_index(ids@, param_id(27), found@[27] as int));
        assert(first_index(ids@, param_id(28), found@[28] as int));
        assert(first_index(ids@, param_id(29), found@[29] as int));
        assert(first_index(ids@, param_id(30), found@[30] as int));
        assert(first_index(ids@, param_id(31), found@[31] as int));
        assert(first_index(ids@, param_id(32), found@[32] as int));
        assert(first_index(ids@, param_id(33), found@[33] as int));
        assert(first_index(ids@, param_id(34), found@[34] as int));
    }
    Some(ix)
}

/// The declared ids are pairwise distinct.
#[verifier::rlimit(100)]
pub proof fn lemma_param_ids_distinct()
    ensures
        forall|j: int, k: int|
            0 <= j < PARAM_COUNT && 0 <= k < PARAM_COUNT && j != k ==> #[trigger] param_id(j)
                != #[trigger] param_id(k),
{
    reveal_strlit("wt_table");
    reveal_strlit("wt_position");
    reveal_strlit("osc_octave");
    reveal_strlit("osc_semi");
    reveal_strlit("osc_fine");
    reveal_strlit("unison_voices");
    reveal_strlit("unison_detune");
    reveal_strlit("unison_width");
    reveal_strlit("osc_level");
    reveal_strlit("osc_phase_random");
    reveal_strlit("sub_level");
    reveal_strlit("sub_octave");
    reveal_strlit("filter_mode");
    reveal_strlit("filter_cutoff");
    reveal_strlit("filter_res");
    reveal_strlit("filter_env");
    reveal_strlit("filter_key");
    reveal_strlit("amp_attack");
    reveal_strlit("amp_decay");
    reveal_strlit("amp_sustain");
    reveal_strlit("amp_release");
    reveal_strlit("filt_attack");
    reveal_strlit("filt_decay");
    reveal_strlit("filt_sustain");
    reveal_strlit("filt_release");
    reveal_strlit("lfo_rate");
    reveal_strlit("lfo_shape");
    reveal_strlit("lfo_pos");
    reveal_strlit("lfo_cutoff");
    reveal_strlit("lfo_pitch");
    reveal_strlit("lfo_retrig");
    reveal_strlit("vel_amp");
    reveal_strlit("glide");
    reveal_strlit("master");
    reveal_strlit("poly");
    assert("wt_table"@.len() == 8);
    assert("wt_position"@.len() == 11);
    assert("osc_octave"@.len() == 10);
    assert("osc_semi"@.len() == 8);
    assert("osc_fine"@.len() == 8);
    assert("unison_voices"@.len() == 13);
    assert("unison_detune"@.len() == 13);
    assert("unison_width"@.len() == 12);
    assert("osc_level"@.len() == 9);
    assert("osc_phase_random"@.len() == 16);
    assert("sub_level"@.len() == 9);
    assert("sub_octave"@.len() == 10);
    assert("filter_mode"@.len() == 11);
    assert("filter_cutoff"@.len() == 13);
    assert("filter_res"@.len() == 10);
    assert("filter_env"@.len() == 10);
    assert("filter_key"@.len() == 10);
    assert("amp_attack"@.len() == 10);
    assert("amp_decay"@.len() == 9);
    assert("amp_sustain"@.len() == 11);
    assert("amp_release"@.len() == 11);
    assert("filt_attack"@.len() == 11);
    assert("filt_decay"@.len() == 10);
    assert("filt_sustain"@.len() == 12);
    assert("filt_release"@.len() == 12);
    assert("lfo_rate"@.len() == 8);
    assert("lfo_shape"@.len() == 9);
    assert("lfo_pos"@.len() == 7);
    assert("lfo_cutoff"@.len() == 10);
    assert("lfo_pitch"@.len() == 9);
    assert("lfo_retrig"@.len() == 10);
    assert("vel_amp"@.len() == 7);
    assert("glide"@.len() == 5);
    assert("master"@.len() == 6);
    assert("poly"@.len() == 4);
    assert("wt_table"@[0] == 'w' && "osc_semi"@[0] == 'o');
    assert("wt_table"@[0] == 'w' && "osc_fine"@[0] == 'o');
    assert("wt_table"@[0] == 'w' && "lfo_rate"@[0] == 'l');
    assert("wt_position"@[0] == 'w' && "filter_mode"@[0] == 'f');
    assert("wt_position"@[0] == 'w' && "amp_sustain"@[0] == 'a');
    assert("wt_position"@[0] == 'w' && "amp_release"@[0] == 'a');
    assert("wt_position"@[0] == 'w' && "filt_attack"@[0] == 'f');
    assert("osc_octave"@[0] == 'o' && "sub_octave"@[0] == 's');
    assert("osc_octave"@[0] == 'o' && "filter_res"@[0] == 'f');
    assert("osc_octave"@[0] == 'o' && "filter_env"@[0] == 'f');
    assert("osc_octave"@[0] == 'o' && "filter_key"@[0] == 'f');
    assert("osc_octave"@[0] == 'o' && "amp_attack"@[0] == 'a');
    assert("osc_octave"@[0] == 'o' && "filt_decay"@[0] == 'f');
    assert("osc_octave"@[0] == 'o' && "lfo_cutoff"@[0] == 'l');
    assert("osc_octave"@[0] == 'o' && "lfo_retrig"@[0] == 'l');
    assert("osc_semi"@[4] == 's' && "osc_fine"@[4] == 'f');
    assert("osc_semi"@[0] == 'o' && "lfo_rate"@[0] == 'l');
    assert("osc_fine"@[0] == 'o' && "lfo_rate"@[0] == 'l');
    assert("unison_voices"@[7] == 'v' && "unison_detune"@[7] == 'd');
    assert("unison_voices"@[0] == 'u' && "filter_cutoff"@[0] == 'f');
    assert("unison_detune"@[0] == 'u' && "filter_cutoff"@[0] == 'f');
    assert("unison_width"@[0] == 'u' && "filt_sustain"@[0] == 'f');
    assert("unison_width"@[0] == 'u' && "filt_release"@[0] == 'f');
    assert("osc_level"@[0] == 'o' && "sub_level"@[0] == 's');
    assert("osc_level"@[0] == 'o' && "amp_decay"@[0] == 'a');
    assert("osc_level"@[0] == 'o' && "lfo_shape"@[0] == 'l');
    assert("osc_level"@[0] == 'o' && "lfo_pitch"@[0] == 'l');
    assert("sub_level"@[0] == 's' && "amp_decay"@[0] == 'a');
    assert("sub_level"@[0] == 's' && "lfo_shape"@[0] == 'l');
    assert("sub_level"@[0] == 's' && "lfo_pitch"@[0] == 'l');
    assert("sub_octave"@[0] == 's' && "filter_res"@[0] == 'f');
    assert("sub_octave"@[0] == 's' && "filter_env"@[0] == 'f');
    assert("sub_octave"@[0] == 's' && "filter_key"@[0] == 'f');
    assert("sub_octave"@[0] == 's' && "amp_attack"@[0] == 'a');
    assert("sub_octave"@[0] == 's' && "filt_decay"@[0] == 'f');
    assert("sub_octave"@[0] == 's' && "lfo_cutoff"@[0] == 'l');
    assert("sub_octave"@[0] == 's' && "lfo_retrig"@[0] == 'l');
    assert("filter_mode"@[0] == 'f' && "amp_sustain"@[0] == 'a');
    assert("filter_mode"@[0] == 'f' && "amp_release"@[0] == 'a');
    assert("filter_mode"@[4] == 'e' && "filt_attack"@[4] == '_');
    assert("filter_res"@[7] == 'r' && "filter_env"@[7] == 'e');
    assert("filter_res"@[7] == 'r' && "filter_key"@[7] == 'k');
    assert("filter_res"@[0] == 'f' && "amp_attack"@[0] == 'a');
    assert("filter_res"@[4] == 'e' && "filt_decay"@[4] == '_');
    assert("filter_res"@[0] == 'f' && "lfo_cutoff"@[0] == 'l');
    assert("filter_res"@[0] == 'f' && "lfo_retrig"@[0] == 'l');
    assert("filter_env"@[7] == 'e' && "filter_key"@[7] == 'k');
    assert("filter_env"@[0] == 'f' && "amp_attack"@[0] == 'a');
    assert("filter_env"@[4] == 'e' && "filt_decay"@[4] == '_');
    assert("filter_env"@[0] == 'f' && "lfo_cutoff"@[0] == 'l');
    assert("filter_env"@[0] == 'f' && "lfo_retrig"@[0] == 'l');
    assert("filter_key"@[0] == 'f' && "amp_attack"@[0] == 'a');
    assert("filter_key"@[4] == 'e' && "filt_decay"@[4] == '_');
    assert("filter_key"@[0] == 'f' && "lfo_cutoff"@[0] == 'l');
    assert("filter_key"@[0] == 'f' && "lfo_retrig"@[0] == 'l');
    assert("amp_attack"@[0] == 'a' && "filt_decay"@[0] == 'f');
    assert("amp_attack"@[0] == 'a' && "lfo_cutoff"@[0] == 'l');
    assert("amp_attack"@[0] == 'a' && "lfo_retrig"@[0] == 'l');
    assert("amp_decay"@[0] == 'a' && "lfo_shape"@[0] == 'l');
    assert("amp_decay"@[0] == 'a' && "lfo_pitch"@[0] == 'l');
    assert("amp_sustain"@[4] == 's' && "amp_release"@[4] == 'r');
    assert("amp_sustain"@[0] == 'a' && "filt_attack"@[0] == 'f');
    assert("amp_release"@[0] == 'a' && "filt_attack"@[0] == 'f');
    assert("filt_decay"@[0] == 'f' && "lfo_cutoff"@[0] == 'l');
    assert("filt_decay"@[0] == 'f' && "lfo_retrig"@[0] == 'l');
    assert("filt_sustain"@[5] == 's' && "filt_release"@[5] == 'r');
    assert("lfo_shape"@[4] == 's' && "lfo_pitch"@[4] == 'p');
    assert("lfo_pos"@[0] == 'l' && "vel_amp"@[0] == 'v');
    assert("lfo_cutoff"@[4] == 'c' && "lfo_retrig"@[4] == 'r');
    assert(forall|j: int, k: int| 0 <= j < k < PARAM_COUNT ==> #[trigger] param_id(j) != #[trigger] param_id(k));
}

/// Resolving the declared id list finds every id, and gives every
/// parameter its own declaration position: a host that declares the ids
/// in this order gets exactly that layout.
pub proof fn lemma_declared_layout(ids: Seq<String>, ix: ParamIx)
    requires
        ids.len() == PARAM_COUNT,
        forall|k: int| 0 <= k < PARAM_COUNT ==> #[trigger] ids[k]@ == param_id(k),
        forall|k: int|
            0 <= k < PARAM_COUNT ==> first_index(ids, #[trigger] param_id(k), ix_field(ix, k) as int),
    ensures
        forall|k: int| 0 <= k < PARAM_COUNT ==> has_id(ids, #[trigger] param_id(k)),
        forall|k: int| 0 <= k < PARAM_COUNT ==> #[trigger] ix_field(ix, k) == k,
        ix.wt_table == 0,
        ix.wt_position == 1,
        ix.osc_octave == 2,
        ix.osc_semi == 3,
        ix.osc_fine == 4,
        ix.unison_voices == 5,
        ix.unison_detune == 6,
        ix.unison_width == 7,
        ix.osc_level == 8,
        ix.osc_phase_random == 9,
        ix.sub_level == 10,
        ix.sub_octave == 11,
        ix.filter_mode == 12,
        ix.filter_cutoff == 13,
        ix.filter_res == 14,
        ix.filter_env == 15,
        ix.filter_key == 16,
        ix.amp[0] == 17,
        ix.amp[1] == 18,
        ix.amp[2] == 19,
        ix.amp[3] == 20,
        ix.filt[0] == 21,
        ix.filt[1] == 22,
        ix.filt[2] == 23,
        ix.filt[3] == 24,
        ix.lfo_rate == 25,
        ix.lfo_shape == 26,
        ix.lfo_pos == 27,
        ix.lfo_cutoff == 28,
        ix.lfo_pitch == 29,
        ix.lfo_retrig == 30,
        ix.vel_amp == 31,
        ix.glide == 32,
        ix.master == 33,
        ix.poly == 34,
{
    lemma_param_ids_distinct();
    assert forall|k: int| 0 <= k < PARAM_COUNT implies has_id(ids, #[trigger] param_id(k)) by {
        assert(ids[k]@ == param_id(k));
    }
    assert forall|k: int| 0 <= k < PARAM_COUNT implies #[trigger] ix_field(ix, k) == k by {
        let j = ix_field(ix, k) as int;
        assert(first_index(ids, param_id(k), j));
        if j < k {
            assert(ids[j]@ == param_id(j));
            assert(param_id(j) != param_id(k));
        } else if j > k {
            assert(ids[k]@ == param_id(k));
        }
    }
    assert(ix_field(ix, 0) == 0);
    assert(ix_field(ix, 1) == 1);
    assert(ix_field(ix, 2) == 2);
    assert(ix_field(ix, 3) == 3);
    assert(ix_field(ix, 4) == 4);
    assert(ix_field(ix, 5) == 5);
    assert(ix_field(ix, 6) == 6);
    assert(ix_field(ix, 7) == 7);
    assert(ix_field(ix, 8) == 8);
    assert(ix_field(ix, 9) == 9);
    assert(ix_field(ix, 10) == 10);
    assert(ix_field(ix, 11) == 11);
    assert(ix_field(ix, 12) == 12);
    assert(ix_field(ix, 13) == 13);
    assert(ix_field(ix, 14) == 14);
    assert(ix_field(ix, 15) == 15);
    assert(ix_field(ix, 16) == 16);
    assert(ix_field(ix, 17) == 17);
    assert(ix_field(ix, 18) == 18);
    assert(ix_field(ix, 19) == 19);
    assert(ix_field(ix, 20) == 20);
    assert(ix_field(ix, 21) == 21);
    assert(ix_field(ix, 22) == 22);
    assert(ix_field(ix, 23) == 23);
    assert(ix_field(ix, 24) == 24);
    assert(ix_field(ix, 25) == 25);
    assert(ix_field(ix, 26) == 26);
    assert(ix_field(ix, 27) == 27);
    assert(ix_field(ix, 28) == 28);
    assert(ix_field(ix, 29) == 29);
    assert(ix_field(ix, 30) == 30);
    assert(ix_field(ix, 31) == 31);
    assert(ix_field(ix, 32) == 32);
    assert(ix_field(ix, 33) == 33);
    assert(ix_field(ix, 34) == 34);
}

/// Each parameter position names its own id and its own field: position
/// `k` holds the `k`-th declared id, and the field for position `k` is the
/// field named after that id.
pub proof fn lemma_field_ids(ix: ParamIx)
    ensures
        param_id(0) == "wt_table"@ && ix_field(ix, 0) == ix.wt_table,
        param_id(1) == "wt_position"@ && ix_field(ix, 1) == ix.wt_position,
        param_id(2) == "osc_octave"@ && ix_field(ix, 2) == ix.osc_octave,
        param_id(3) == "osc_semi"@ && ix_field(ix, 3) == ix.osc_semi,
        param_id(4) == "osc_fine"@ && ix_field(ix, 4) == ix.osc_fine,
        param_id(5) == "unison_voices"@ && ix_field(ix, 5) == ix.unison_voices,
        param_id(6) == "unison_detune"@ && ix_field(ix, 6) == ix.unison_detune,
        param_id(7) == "unison_width"@ && ix_field(ix, 7) == ix.unison_width,
        param_id(8) == "osc_level"@ && ix_field(ix, 8) == ix.osc_level,
        param_id(9) == "osc_phase_random"@ && ix_field(ix, 9) == ix.osc_phase_random,
        param_id(10) == "sub_level"@ && ix_field(ix, 10) == ix.sub_level,
        param_id(11) == "sub_octave"@ && ix_field(ix, 11) == ix.sub_octave,
        param_id(12) == "filter_mode"@ && ix_field(ix, 12) == ix.filter_mode,
        param_id(13) == "filter_cutoff"@ && ix_field(ix, 13) == ix.filter_cutoff,
        param_id(14) == "filter_res"@ && ix_field(ix, 14) == ix.filter_res,
        param_id(15) == "filter_env"@ && ix_field(ix, 15) == ix.filter_env,
        param_id(16) == "filter_key"@ && ix_field(ix, 16) == ix.filter_key,
        param_id(17) == "amp_attack"@ && ix_field(ix, 17) == ix.amp[0],
        param_id(18) == "amp_decay"@ && ix_field(ix, 18) == ix.amp[1],
        param_id(19) == "amp_sustain"@ && ix_field(ix, 19) == ix.amp[2],
        param_id(20) == "amp_release"@ && ix_field(ix, 20) == ix.amp[3],
        param_id(21) == "filt_attack"@ && ix_field(ix, 21) == ix.filt[0],
        param_id(22) == "filt_decay"@ && ix_field(ix, 22) == ix.filt[1],
        param_id(23) == "filt_sustain"@ && ix_field(ix, 23) == ix.filt[2],
        param_id(24) == "filt_release"@ && ix_field(ix, 24) == ix.filt[3],
        param_id(25) == "lfo_rate"@ && ix_field(ix, 25) == ix.lfo_rate,
        param_id(26) == "lfo_shape"@ && ix_field(ix, 26) == ix.lfo_shape,
        param_id(27) == "lfo_pos"@ && ix_field(ix, 27) == ix.lfo_pos,
        param_id(28) == "lfo_cutoff"@ && ix_field(ix, 28) == ix.lfo_cutoff,
        param_id(29) == "lfo_pitch"@ && ix_field(ix, 29) == ix.lfo_pitch,
        param_id(30) == "lfo_retrig"@ && ix_field(ix, 30) == ix.lfo_retrig,
        param_id(31) == "vel_amp"@ && ix_field(ix, 31) == ix.vel_amp,
        param_id(32) == "glide"@ && ix_field(ix, 32) == ix.glide,
        param_id(33) == "master"@ && ix_field(ix, 33) == ix.master,
        param_id(34) == "poly"@ && ix_field(ix, 34) == ix.poly,
{
}

} // verus!
