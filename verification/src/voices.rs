//! Voice allocation: which of the [`MAX_VOICES`] slots a note plays in.
//!
//! A note claims the first free slot while fewer than `poly` voices are
//! sounding; at the polyphony limit it steals the sounding voice that
//! started longest ago (a hard steal: the voice restarts from silence).
//! Every claim stamps the slot with a fresh age from a counter, so the
//! youngest voice always carries the highest age and no two sounding
//! voices share one. A note off releases every sounding voice that plays
//! the note; a voice frees its slot once its amplitude envelope is idle.

use vstd::prelude::*;

verus! {

/// Voice slots (polyphony ceiling; `poly` chooses how many are used).
pub const MAX_VOICES: usize = 16;

/// What the allocator knows of one voice slot.
#[derive(Clone, Copy, PartialEq, Eq, Debug, Structural)]
pub struct VoiceSlot {
    /// Sounding (any amplitude envelope stage but idle).
    pub active: bool,
    /// MIDI note that started the voice; note offs match on it.
    pub note: u8,
    /// Allocation stamp, lower = older; used for stealing.
    pub age: u64,
}

/// The voice slots and the age counter.
pub struct VoicePool {
    /// The slots. Mutations write the whole array back, so the invariant
    /// is checked on a complete state.
    slots: [VoiceSlot; MAX_VOICES],
    /// The age the next claimed voice gets.
    next_age: u64,
}

/// Number of sounding voices in `s`.
pub open spec fn count_active(s: Seq<VoiceSlot>) -> nat
    decreases s.len(),
{
    if s.len() == 0 {
        0
    } else {
        count_active(s.drop_last()) + if s.last().active { 1nat } else { 0nat }
    }
}

/// The polyphony limit actually applied: `poly` clamped to `1..=MAX_VOICES`.
pub open spec fn clamp_poly(poly: usize) -> int {
    if poly < 1 {
        1
    } else if poly > MAX_VOICES {
        MAX_VOICES as int
    } else {
        poly as int
    }
}

/// The count of sounding voices is the number of slots whose voice sounds.
pub proof fn lemma_count_is_sounding_slots(s: Seq<VoiceSlot>)
    ensures
        count_active(s) == s.filter(|v: VoiceSlot| v.active).len(),
    decreases s.len(),
{
    reveal_with_fuel(Seq::filter, 1);
    if s.len() > 0 {
        lemma_count_is_sounding_slots(s.drop_last());
    }
}

/// The polyphony limit is `poly` itself for every `poly` from 1 to 16, 1
/// below that and 16 above: at `poly` sounding voices a note on steals.
pub proof fn lemma_poly_limit_is_poly(poly: usize)
    ensures
        1 <= poly <= 16 ==> clamp_poly(poly) == poly,
        poly == 0 ==> clamp_poly(poly) == 1,
        poly > 16 ==> clamp_poly(poly) == 16,
{
}

/// `i` is the first free slot of `s`.
pub open spec fn is_first_free(s: Seq<VoiceSlot>, i: int) -> bool {
    &&& 0 <= i < s.len()
    &&& !s[i].active
    &&& forall|j: int| 0 <= j < i ==> #[trigger] s[j].active
}

/// `i` is the sounding voice of `s` that started longest ago (the first
/// such slot should two share an age).
pub open spec fn is_oldest(s: Seq<VoiceSlot>, i: int) -> bool {
    &&& 0 <= i < s.len()
    &&& s[i].active
    &&& forall|j: int| 0 <= j < s.len() && #[trigger] s[j].active ==> s[i].age <= s[j].age
    &&& forall|j: int| 0 <= j < i && #[trigger] s[j].active ==> s[i].age < s[j].age
}

/// `s[i]` sounds and plays `note`, so a note off of `note` releases it.
pub open spec fn plays(s: Seq<VoiceSlot>, i: int, note: u8) -> bool {
    s[i].active && s[i].note == note
}

/// The slot `s[i]` after its voice is freed or silenced: not sounding,
/// note and age kept.
pub open spec fn silenced(v: VoiceSlot) -> VoiceSlot {
    VoiceSlot { active: false, note: v.note, age: v.age }
}

/// What the UI shows for a slot: the note of a sounding voice, `-1` for
/// an idle slot.
pub open spec fn shown_note(v: VoiceSlot) -> i16 {
    if v.active {
        v.note as i16
    } else {
        -1i16
    }
}

/// Number of slots of `s` the UI shows with a note.
pub open spec fn count_shown(s: Seq<VoiceSlot>) -> nat
    decreases s.len(),
{
    if s.len() == 0 {
        0
    } else {
        count_shown(s.drop_last()) + if shown_note(s.last()) >= 0 { 1nat } else { 0nat }
    }
}

/// The UI shows a note for exactly the sounding voices: the number of
/// shown notes equals the number of sounding voices.
pub proof fn lemma_shown_notes_are_sounding(s: Seq<VoiceSlot>)
    ensures
        count_shown(s) == count_active(s),
        forall|i: int| 0 <= i < s.len() ==> (shown_note(#[trigger] s[i]) >= 0 <==> s[i].active),
    decreases s.len(),
{
    if s.len() > 0 {
        lemma_shown_notes_are_sounding(s.drop_last());
    }
}

/// Well-formed slots: `MAX_VOICES` of them, every age below the counter,
/// and no two sounding voices with one age.
pub open spec fn slots_wf(s: Seq<VoiceSlot>, next_age: int) -> bool {
    &&& s.len() == MAX_VOICES
    &&& 1 <= next_age
    &&& forall|i: int| 0 <= i < s.len() ==> #[trigger] s[i].age < next_age
    &&& forall|i: int, j: int|
        0 <= i < s.len() && 0 <= j < s.len() && i != j && #[trigger] s[i].active
            && #[trigger] s[j].active ==> s[i].age != s[j].age
}

/// Counting after replacing one slot.
pub proof fn lemma_count_update(s: Seq<VoiceSlot>, i: int, v: VoiceSlot)
    requires
        0 <= i < s.len(),
    ensures
        count_active(s.update(i, v)) == count_active(s) - (if s[i].active { 1int } else { 0int })
            + (if v.active { 1int } else { 0int }),
    decreases s.len(),
{
    let t = s.update(i, v);
    if i == s.len() - 1 {
        assert(t.drop_last() =~= s.drop_last());
    } else {
        lemma_count_update(s.drop_last(), i, v);
        assert(t.drop_last() =~= s.drop_last().update(i, v));
    }
}

/// Counts are bounded by the length; a count below the length leaves a
/// free slot, a positive count a sounding one.
pub proof fn lemma_count_bounds(s: Seq<VoiceSlot>)
    ensures
        count_active(s) <= s.len(),
        count_active(s) < s.len() ==> exists|j: int| 0 <= j < s.len() && !#[trigger] s[j].active,
        count_active(s) > 0 ==> exists|j: int| 0 <= j < s.len() && #[trigger] s[j].active,
        count_active(s) == 0 ==> forall|j: int| 0 <= j < s.len() ==> !#[trigger] s[j].active,
    decreases s.len(),
{
    if s.len() > 0 {
        let d = s.drop_last();
        lemma_count_bounds(d);
        if count_active(s) == 0 {
            assert forall|j: int| 0 <= j < s.len() implies !#[trigger] s[j].active by {
                if j < s.len() - 1 {
                    assert(s[j] == s.drop_last()[j]);
                }
            }
        }
        if count_active(s) < s.len() {
            if s.last().active {
                let j = choose|j: int| 0 <= j < d.len() && !#[trigger] d[j].active;
                assert(!s[j].active);
            } else {
                assert(!s[s.len() - 1].active);
            }
        }
        if count_active(s) > 0 {
            if s.last().active {
                assert(s[s.len() - 1].active);
            } else {
                let j = choose|j: int| 0 <= j < d.len() && #[trigger] d[j].active;
                assert(s[j].active);
            }
        }
    }
}

/// Counting a prefix one slot longer.
proof fn lemma_count_prefix(s: Seq<VoiceSlot>, i: int)
    requires
        0 <= i < s.len(),
    ensures
        count_active(s.subrange(0, i + 1)) == count_active(s.subrange(0, i)) + if s[i].active {
            1nat
        } else {
            0nat
        },
{
    assert(s.subrange(0, i + 1).drop_last() =~= s.subrange(0, i));
}

/// Silencing every slot leaves nothing sounding.
proof fn lemma_count_all_silent(s: Seq<VoiceSlot>)
    requires
        forall|i: int| 0 <= i < s.len() ==> !#[trigger] s[i].active,
    ensures
        count_active(s) == 0,
    decreases s.len(),
{
    if s.len() > 0 {
        lemma_count_all_silent(s.drop_last());
    }
}

/// A voice that a note on has just claimed is released by the note off of
/// the same note, and by no other note off.
pub proof fn lemma_claimed_voice_released_by_its_note(
    s: Seq<VoiceSlot>,
    idx: int,
    note: u8,
    age: u64,
    other: u8,
)
    requires
        0 <= idx < s.len(),
        other != note,
    ensures
        plays(s.update(idx, VoiceSlot { active: true, note, age }), idx, note),
        !plays(s.update(idx, VoiceSlot { active: true, note, age }), idx, other),
{
}

/// In well-formed slots the voice to steal is unique: two slots that are
/// both the oldest sounding voice are the same slot.
pub proof fn lemma_oldest_unique(s: Seq<VoiceSlot>, next_age: int, i: int, j: int)
    requires
        slots_wf(s, next_age),
        is_oldest(s, i),
        is_oldest(s, j),
    ensures
        i == j,
{
    if i != j {
        assert(s[i].age <= s[j].age);
        assert(s[j].age <= s[i].age);
    }
}

impl View for VoicePool {
    type V = Seq<VoiceSlot>;

    closed spec fn view(&self) -> Seq<VoiceSlot> {
        self.slots@
    }
}

impl VoicePool {
    /// The age the next claimed voice gets.
    pub closed spec fn age_counter(&self) -> int {
        self.next_age as int
    }

    /// The pool's invariant: see [`slots_wf`].
    #[verifier::type_invariant]
    spec fn wf(&self) -> bool {
        slots_wf(self.slots@, self.next_age as int)
    }

    /// `MAX_VOICES` free slots; the first claimed voice gets age 1.
    pub fn new() -> (p: VoicePool)
        ensures
            slots_wf(p@, p.age_counter()),
            p@.len() == MAX_VOICES,
            forall|i: int| 0 <= i < MAX_VOICES ==> #[trigger] p@[i] == (VoiceSlot { active: false, note: 0, age: 0 }),
            p.age_counter() == 1,
            count_active(p@) == 0,
    {
        let slots = [VoiceSlot { active: false, note: 0, age: 0 }; MAX_VOICES];
        proof {
            lemma_count_all_silent(slots@);
        }
        VoicePool { slots, next_age: 1 }
    }

    /// The slot `i`.
    pub fn slot(&self, i: usize) -> (v: VoiceSlot)
        requires
            i < self@.len(),
        ensures
            v == self@[i as int],
    {
        self.slots[i]
    }

    /// Number of slots (`MAX_VOICES`).
    pub fn len(&self) -> (n: usize)
        ensures
            n == self@.len(),
            n == MAX_VOICES,
    {
        MAX_VOICES
    }

    /// The age the next claimed voice gets.
    pub fn next_age(&self) -> (a: u64)
        ensures
            a == self.age_counter(),
    {
        self.next_age
    }

    /// Number of sounding voices.
    pub fn active_voices(&self) -> (n: usize)
        ensures
            n == count_active(self@),
    {
        let s = self.slots;
        let mut n: usize = 0;
        let mut i: usize = 0;
        while i < MAX_VOICES
            invariant
                i <= s@.len(),
                n == count_active(s@.subrange(0, i as int)),
                n <= i,
            decreases s@.len() - i,
        {
            proof {
                lemma_count_prefix(s@, i as int);
            }
            if s[i].active {
                n = n + 1;
            }
            i = i + 1;
        }
        assert(s@.subrange(0, s@.len() as int) =~= s@);
        n
    }

    /// The sounding voice that started longest ago (the one to steal).
    /// Only sounding voices count; slot 0 if none is sounding.
    pub fn oldest_voice(&self) -> (r: usize)
        ensures
            r < self@.len(),
            count_active(self@) > 0 ==> is_oldest(self@, r as int),
            count_active(self@) == 0 ==> r == 0,
    {
        proof {
            use_type_invariant(self);
        }
        let s = self.slots;
        let mut best: usize = 0;
        let mut age: u64 = u64::MAX;
        let mut found = false;
        let mut i: usize = 0;
        while i < MAX_VOICES
            invariant
                slots_wf(s@, self.next_age as int),
                i <= s@.len(),
                best < s@.len(),
                found ==> s@[best as int].active && s@[best as int].age == age && best < i,
                !found ==> best == 0 && age == u64::MAX,
                !found ==> forall|j: int| 0 <= j < i ==> !#[trigger] s@[j].active,
                forall|j: int| 0 <= j < i && #[trigger] s@[j].active ==> age <= s@[j].age,
                forall|j: int| 0 <= j < best && #[trigger] s@[j].active ==> age < s@[j].age,
            decreases s@.len() - i,
        {
            if s[i].active && s[i].age < age {
                age = s[i].age;
                best = i;
                found = true;
            }
            i = i + 1;
        }
        proof {
            lemma_count_bounds(s@);
            if count_active(s@) > 0 {
                let j = choose|j: int| 0 <= j < s@.len() && #[trigger] s@[j].active;
                assert(found);
            }
        }
        best
    }

    /// Claim a slot for `note` and return it.
    ///
    /// If fewer than `poly` (clamped to `1..=MAX_VOICES`) voices are
    /// sounding, the first free slot is used; otherwise the oldest sounding
    /// voice is stolen. The slot then sounds `note` with the next age.
    pub fn note_on(&mut self, note: u8, poly: usize) -> (idx: usize)
        requires
            old(self).age_counter() < u64::MAX,
        ensures
            slots_wf(final(self)@, final(self).age_counter()),
            idx < MAX_VOICES,
            count_active(old(self)@) < clamp_poly(poly) ==> is_first_free(old(self)@, idx as int),
            count_active(old(self)@) >= clamp_poly(poly) ==> is_oldest(old(self)@, idx as int),
            final(self)@ == old(self)@.update(
                idx as int,
                VoiceSlot { active: true, note, age: old(self).age_counter() as u64 },
            ),
            final(self).age_counter() == old(self).age_counter() + 1,
            forall|j: int|
                0 <= j < MAX_VOICES && j != idx ==> #[trigger] final(self)@[j].age < final(self)@[idx as int].age,
            count_active(final(self)@) == if count_active(old(self)@) < clamp_poly(poly) {
                count_active(old(self)@) + 1int
            } else {
                count_active(old(self)@) as int
            },
            count_active(old(self)@) <= clamp_poly(poly) ==> count_active(final(self)@) <= clamp_poly(poly),
            1 <= poly <= 16 && count_active(old(self)@) < poly ==> is_first_free(old(self)@, idx as int),
            1 <= poly <= 16 && count_active(old(self)@) >= poly ==> is_oldest(old(self)@, idx as int),
            1 <= poly <= 16 && count_active(old(self)@) <= poly ==> count_active(final(self)@) <= poly,
            poly == 0 && count_active(old(self)@) >= 1 ==> is_oldest(old(self)@, idx as int),
            poly > 16 && count_active(old(self)@) < 16 ==> is_first_free(old(self)@, idx as int),
            1 <= poly <= 16 && count_active(old(self)@) < poly ==> !old(self)@[idx as int].active
                && forall|j: int| 0 <= j < idx ==> #[trigger] old(self)@[j].active,
            1 <= poly <= 16 && count_active(old(self)@) >= poly ==> old(self)@[idx as int].active
                && forall|j: int|
                0 <= j < MAX_VOICES && #[trigger] old(self)@[j].active ==> old(self)@[idx as int].age
                    <= old(self)@[j].age,
            final(self)@[idx as int].active && final(self)@[idx as int].note == note,
            forall|j: int| 0 <= j < MAX_VOICES && j != idx ==> #[trigger] final(self)@[j] == old(self)@[j],
    {
        proof {
            use_type_invariant(&*self);
        }
        let p: usize = if poly < 1 {
            1
        } else if poly > MAX_VOICES {
            MAX_VOICES
        } else {
            poly
        };
        let active = self.active_voices();
        let ghost s0 = self.slots@;
        proof {
            lemma_count_bounds(s0);
        }
        let idx = if active < p {
            let mut i: usize = 0;
            let mut free: Option<usize> = None;
            while i < MAX_VOICES
                invariant
                    self.slots@ == s0,
                    s0.len() == MAX_VOICES,
                    i <= s0.len(),
                    free is None ==> forall|j: int| 0 <= j < i ==> #[trigger] s0[j].active,
                    free matches Some(f) ==> is_first_free(s0, f as int),
                decreases s0.len() - i,
            {
                if free.is_none() && !self.slots[i].active {
                    free = Some(i);
                }
                i = i + 1;
            }
            match free {
                Some(f) => f,
                None => self.oldest_voice(),
            }
        } else {
            self.oldest_voice()
        };
        let ghost a0 = self.next_age;
        let v = VoiceSlot { active: true, note, age: self.next_age };
        let mut slots = self.slots;
        slots[idx] = v;
        self.next_age = self.next_age + 1;
        self.slots = slots;
        proof {
            lemma_count_update(s0, idx as int, v);
            assert forall|j: int| 0 <= j < MAX_VOICES && j != idx implies #[trigger] self.slots@[j].age
                < self.slots@[idx as int].age by {
                assert(s0[j].age < a0);
            }
        }
        idx
    }

    /// Whether a note off of `note` releases slot `i`: the slot is
    /// sounding and plays `note`.
    pub fn releases(&self, i: usize, note: u8) -> (b: bool)
        requires
            i < self@.len(),
        ensures
            b == plays(self@, i as int, note),
            b <==> (self@[i as int].active && self@[i as int].note == note),
    {
        let v = self.slots[i];
        v.active && v.note == note
    }

    /// Free slot `idx`: its amplitude envelope has gone idle.
    pub fn free(&mut self, idx: usize)
        requires
            idx < old(self)@.len(),
        ensures
            slots_wf(final(self)@, final(self).age_counter()),
            final(self)@ == old(self)@.update(idx as int, silenced(old(self)@[idx as int])),
            !final(self)@[idx as int].active,
            final(self)@[idx as int].note == old(self)@[idx as int].note,
            final(self)@[idx as int].age == old(self)@[idx as int].age,
            forall|j: int| 0 <= j < old(self)@.len() && j != idx ==> #[trigger] final(self)@[j] == old(self)@[j],
            final(self).age_counter() == old(self).age_counter(),
            count_active(final(self)@) == count_active(old(self)@) - if old(self)@[idx as int].active {
                1int
            } else {
                0int
            },
    {
        proof {
            use_type_invariant(&*self);
        }
        let v = self.slots[idx];
        let w = VoiceSlot { active: false, note: v.note, age: v.age };
        proof {
            lemma_count_update(self.slots@, idx as int, w);
        }
        let mut slots = self.slots;
        slots[idx] = w;
        self.slots = slots;
    }

    /// Silence every voice immediately, without a release.
    pub fn all_notes_off(&mut self)
        ensures
            slots_wf(final(self)@, final(self).age_counter()),
            final(self)@.len() == old(self)@.len(),
            forall|i: int| 0 <= i < old(self)@.len() ==> #[trigger] final(self)@[i] == silenced(old(self)@[i]),
            forall|i: int|
                0 <= i < old(self)@.len() ==> !(#[trigger] final(self)@[i]).active && final(self)@[i].note
                    == old(self)@[i].note && final(self)@[i].age == old(self)@[i].age,
            final(self).age_counter() == old(self).age_counter(),
            count_active(final(self)@) == 0,
    {
        proof {
            use_type_invariant(&*self);
        }
        let ghost s0 = self.slots@;
        let mut i: usize = 0;
        while i < MAX_VOICES
            invariant
                self.slots@.len() == s0.len(),
                self.next_age == old(self).next_age,
                slots_wf(self.slots@, self.next_age as int),
                s0 == old(self).slots@,
                slots_wf(s0, self.next_age as int),
                i <= s0.len(),
                forall|j: int| 0 <= j < i ==> #[trigger] self.slots@[j] == silenced(s0[j]),
                forall|j: int| i <= j < s0.len() ==> #[trigger] self.slots@[j] == s0[j],
            decreases s0.len() - i,
        {
            let v = self.slots[i];
            let mut slots = self.slots;
            slots[i] = VoiceSlot { active: false, note: v.note, age: v.age };
            self.slots = slots;
            i = i + 1;
        }
        proof {
            lemma_count_all_silent(self.slots@);
        }
    }

    /// Slot `i`'s note for the UI: the MIDI note of a sounding voice,
    /// `-1` for an idle slot.
    pub fn voice_note(&self, i: usize) -> (n: i16)
        requires
            i < self@.len(),
        ensures
            n == shown_note(self@[i as int]),
            self@[i as int].active ==> n == self@[i as int].note as i16,
            !self@[i as int].active ==> n == -1,
    {
        let v = self.slots[i];
        if v.active {
            v.note as i16
        } else {
            -1
        }
    }
}

} // verus!
