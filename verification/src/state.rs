//! The key-state decoder: consumes raw wire bytes, maintains the
//! currently-pressed key set and the active modifier set, and synthesizes
//! USB HID keyboard reports.
//!
//! Each wire byte carries a 7-bit matrix position in its low bits and the
//! direction in its high bit (set = key-up, clear = key-down). The decoder's
//! whole step is the spec function [`decode_step`]; the executable
//! [`State::update_from_kb_input`] is proved to perform exactly that step.

use vstd::prelude::*;

use crate::key_buf::{
    buf_at, buf_contains, buf_len, buf_new, buf_push, buf_remove, buf_retain_ne, buf_truncate,
    key_buf_seq, remove_key,
};
use crate::key_codes::KeyCode;
use crate::matrix::matrix_slot;
use crate::modifiers::{lemma_modifier_flags_disjoint, modifier_flag, Modifiers};
use crate::report::{report_matches, slot_spec, KeyboardReport};

verus! {

/// The mathematical state of the decoder: the pressed keys oldest first, the
/// modifier byte, and the most recently released key, if any.
#[verifier::ext_equal]
pub ghost struct StateView {
    pub pressed: Seq<KeyCode>,
    pub modifiers: u8,
    pub last_key_up: Option<KeyCode>,
}

/// The decoder state at session start: no key pressed, no modifier active,
/// no release recorded.
pub open spec fn initial_view() -> StateView {
    StateView { pressed: Seq::<KeyCode>::empty(), modifiers: 0, last_key_up: None::<KeyCode> }
}

/// The modifier byte owed to a pressed-key sequence: the union of the
/// modifier flags of its elements.
pub open spec fn mods_of_seq(s: Seq<KeyCode>) -> u8
    decreases s.len(),
{
    if s.len() == 0 {
        0
    } else {
        mods_of_seq(s.drop_last()) | modifier_flag(s.last())
    }
}

impl StateView {
    /// Well-formedness of a decoder state: at most six pressed keys, no key
    /// pressed twice, and the modifier byte exactly the union of the pressed
    /// keys' flags.
    pub open spec fn wf(self) -> bool {
        &&& self.pressed.len() <= 6
        &&& self.pressed.no_duplicates()
        &&& self.modifiers == mods_of_seq(self.pressed)
    }
}

/// One key-down event for `key`. A key already held changes nothing. A new
/// key is appended; when six keys are already held the oldest-pressed one is
/// evicted first and its modifier contribution removed. The new key's
/// modifier contribution is added, and the recorded release is cleared.
pub open spec fn key_down_step(v: StateView, key: KeyCode) -> StateView {
    if v.pressed.contains(key) {
        v
    } else {
        let kept = if v.pressed.len() < 6 {
            v.pressed
        } else {
            v.pressed.drop_first()
        };
        let cleared = if v.pressed.len() < 6 {
            v.modifiers
        } else {
            v.modifiers & !modifier_flag(v.pressed[0])
        };
        StateView {
            pressed: kept.push(key),
            modifiers: cleared | modifier_flag(key),
            last_key_up: None::<KeyCode>,
        }
    }
}

/// One key-up event for `key`. The same key released twice in a row with no
/// intervening key-down signals a possible desynchronization, and clears all
/// pressed keys and all modifiers. Otherwise only the matching key is
/// removed, with its modifier contribution. Either way the release is
/// recorded.
pub open spec fn key_up_step(v: StateView, key: KeyCode) -> StateView {
    if v.last_key_up == Some(key) {
        StateView { pressed: Seq::<KeyCode>::empty(), modifiers: 0, last_key_up: Some(key) }
    } else {
        StateView {
            pressed: remove_key(v.pressed, key),
            modifiers: v.modifiers & !modifier_flag(key),
            last_key_up: Some(key),
        }
    }
}

/// The decoder's whole step for one wire byte: the low 7 bits name a matrix
/// position and the high bit the direction. A position with no mapped key
/// code leaves the state unchanged.
pub open spec fn decode_step(v: StateView, input: u8) -> StateView {
    match matrix_slot(input % 128) {
        None => v,
        Some(key) => if input >= 128 {
            key_up_step(v, key)
        } else {
            key_down_step(v, key)
        },
    }
}

/// Bitwise facts over bytes that the modifier proofs below lean on. Each is
/// stated over named bytes so the solver never chases open quantifiers.
proof fn bv_or_zero(a: u8)
    by (bit_vector)
    ensures
        (0u8 | a) == a,
        (a | 0u8) == a,
{
}

proof fn bv_zero_and(a: u8)
    by (bit_vector)
    ensures
        (0u8 & a) == 0,
        (a & !0u8) == a,
{
}

proof fn bv_or_comm(a: u8, b: u8)
    by (bit_vector)
    ensures
        (a | b) == (b | a),
{
}

proof fn bv_or_assoc(a: u8, b: u8, c: u8)
    by (bit_vector)
    ensures
        ((a | b) | c) == (a | (b | c)),
{
}

proof fn bv_and_distrib(a: u8, b: u8, c: u8)
    by (bit_vector)
    ensures
        ((a | b) & c) == ((a & c) | (b & c)),
{
}

proof fn bv_absorb(a: u8, b: u8)
    by (bit_vector)
    ensures
        ((a | b) & b) == b,
{
}

proof fn bv_masked(a: u8, b: u8)
    by (bit_vector)
    requires
        (a & b) == 0,
    ensures
        (a & !b) == a,
{
}

proof fn bv_clear(a: u8, b: u8)
    by (bit_vector)
    ensures
        ((a | b) & !b) == (a & !b),
{
}

/// Appending a key adds exactly its modifier flag to the modifier byte.
proof fn lemma_mods_push(s: Seq<KeyCode>, key: KeyCode)
    ensures
        mods_of_seq(s.push(key)) == (mods_of_seq(s) | modifier_flag(key)),
{
    assert(s.push(key).drop_last() =~= s);
    assert(s.push(key).last() == key);
}

/// Appending a key that is not yet held keeps the sequence duplicate-free.
proof fn lemma_push_no_dup(s: Seq<KeyCode>, key: KeyCode)
    requires
        s.no_duplicates(),
        !s.contains(key),
    ensures
        s.push(key).no_duplicates(),
{
    assert forall|i: int| 0 <= i < s.len() implies s[i] != key by {
        if s[i] == key {
            assert(s.contains(key));
        }
    }
}

/// The last element of a duplicate-free sequence does not occur before it.
proof fn lemma_last_not_in_drop_last(s: Seq<KeyCode>)
    requires
        s.len() > 0,
        s.no_duplicates(),
    ensures
        !s.drop_last().contains(s.last()),
{
    if s.drop_last().contains(s.last()) {
        let i = choose|i: int| 0 <= i < s.drop_last().len() && s.drop_last()[i] == s.last();
        assert(s[i] == s[s.len() - 1]);
    }
}

/// The modifier byte splits off the first pressed key's flag.
proof fn lemma_mods_first(s: Seq<KeyCode>)
    requires
        s.len() > 0,
    ensures
        mods_of_seq(s) == (modifier_flag(s[0]) | mods_of_seq(s.drop_first())),
    decreases s.len(),
{
    if s.len() == 1 {
        assert(s.drop_last() =~= Seq::<KeyCode>::empty());
        assert(s.drop_first() =~= Seq::<KeyCode>::empty());
        assert(s.last() == s[0]);
        bv_or_zero(modifier_flag(s[0]));
    } else {
        lemma_mods_first(s.drop_last());
        assert(s.drop_last()[0] == s[0]);
        assert(s.drop_last().drop_first() =~= s.drop_first().drop_last());
        assert(s.drop_first().last() == s.last());
        assert(mods_of_seq(s) == mods_of_seq(s.drop_last()) | modifier_flag(s.last()));
        assert(mods_of_seq(s.drop_first()) == mods_of_seq(s.drop_first().drop_last()) | modifier_flag(
            s.drop_first().last(),
        ));
        bv_or_assoc(
            modifier_flag(s[0]),
            mods_of_seq(s.drop_first().drop_last()),
            modifier_flag(s.last()),
        );
    }
}

/// The modifier byte has a modifier key's flag set exactly when that key is
/// among the pressed keys.
proof fn lemma_mods_bit(s: Seq<KeyCode>, key: KeyCode)
    requires
        modifier_flag(key) != 0,
    ensures
        (mods_of_seq(s) & modifier_flag(key)) == (if s.contains(key) {
            modifier_flag(key)
        } else {
            0
        }),
    decreases s.len(),
{
    let f = modifier_flag(key);
    if s.len() == 0 {
        assert(!s.contains(key));
        bv_zero_and(f);
    } else {
        lemma_mods_bit(s.drop_last(), key);
        let m1 = mods_of_seq(s.drop_last());
        let fl = modifier_flag(s.last());
        assert(mods_of_seq(s) == m1 | fl);
        if s.last() == key {
            bv_absorb(m1, f);
            assert((m1 | f) & f == f);
            assert(s[s.len() - 1] == key);
            assert(s.contains(key));
        } else {
            lemma_modifier_flags_disjoint(s.last(), key);
            bv_and_distrib(m1, fl, f);
            bv_or_zero(m1 & f);
            assert((m1 | fl) & f == ((m1 & f) | (fl & f)));
            if s.contains(key) {
                let i = choose|i: int| 0 <= i < s.len() && s[i] == key;
                assert(s.drop_last()[i] == key);
                assert(s.drop_last().contains(key));
            } else {
                if s.drop_last().contains(key) {
                    let i = choose|i: int|
                        0 <= i < s.drop_last().len() && s.drop_last()[i] == key;
                    assert(s[i] == key);
                }
            }
        }
    }
}

/// Removing every occurrence of a key removes exactly its modifier flag from
/// the modifier byte.
proof fn lemma_mods_remove_key(s: Seq<KeyCode>, key: KeyCode)
    ensures
        mods_of_seq(remove_key(s, key)) == (mods_of_seq(s) & !modifier_flag(key)),
    decreases s.len(),
{
    let f = modifier_flag(key);
    if s.len() == 0 {
        bv_zero_and(!f);
    } else {
        lemma_mods_remove_key(s.drop_last(), key);
        let m1 = mods_of_seq(s.drop_last());
        let fl = modifier_flag(s.last());
        if s.last() == key {
            bv_clear(m1, f);
            assert((m1 | f) & !f == (m1 & !f));
        } else {
            lemma_modifier_flags_disjoint(s.last(), key);
            lemma_mods_push(remove_key(s.drop_last(), key), s.last());
            assert(fl & f == 0);
            bv_masked(fl, f);
            assert(fl & !f == fl);
            bv_and_distrib(m1, fl, !f);
            assert((m1 | fl) & !f == ((m1 & !f) | (fl & !f)));
        }
    }
}

/// Whatever remove_key keeps was already present.
proof fn lemma_remove_key_contains(s: Seq<KeyCode>, key: KeyCode, x: KeyCode)
    requires
        remove_key(s, key).contains(x),
    ensures
        s.contains(x),
    decreases s.len(),
{
    if s.len() > 0 {
        let rest = remove_key(s.drop_last(), key);
        if s.last() == key {
            lemma_remove_key_contains(s.drop_last(), key, x);
            let i = choose|i: int| 0 <= i < s.drop_last().len() && s.drop_last()[i] == x;
            assert(s[i] == x);
        } else {
            if x == s.last() {
                assert(s[s.len() - 1] == x);
            } else {
                let j = choose|j: int|
                    0 <= j < rest.push(s.last()).len() && rest.push(s.last())[j] == x;
                assert(rest[j] == x);
                lemma_remove_key_contains(s.drop_last(), key, x);
                let i = choose|i: int| 0 <= i < s.drop_last().len() && s.drop_last()[i] == x;
                assert(s[i] == x);
            }
        }
    }
}

/// remove_key keeps a duplicate-free sequence duplicate-free, and keeps it
/// no longer than it was.
proof fn lemma_remove_key_wf(s: Seq<KeyCode>, key: KeyCode)
    requires
        s.no_duplicates(),
    ensures
        remove_key(s, key).no_duplicates(),
        remove_key(s, key).len() <= s.len(),
    decreases s.len(),
{
    if s.len() > 0 {
        assert forall|i: int, j: int|
            0 <= i < s.drop_last().len() && 0 <= j < s.drop_last().len() && i != j implies s
            .drop_last()[i] != s.drop_last()[j] by {
            assert(s[i] == s.drop_last()[i]);
        }
        lemma_remove_key_wf(s.drop_last(), key);
        if s.last() != key {
            lemma_last_not_in_drop_last(s);
            if remove_key(s.drop_last(), key).contains(s.last()) {
                lemma_remove_key_contains(s.drop_last(), key, s.last());
            }
            lemma_push_no_dup(remove_key(s.drop_last(), key), s.last());
        }
    }
}

/// Removing a key that is not held leaves the pressed keys as they were.
proof fn lemma_remove_key_absent(s: Seq<KeyCode>, key: KeyCode)
    requires
        !s.contains(key),
    ensures
        remove_key(s, key) == s,
    decreases s.len(),
{
    if s.len() > 0 {
        if s.drop_last().contains(key) {
            let i = choose|i: int| 0 <= i < s.drop_last().len() && s.drop_last()[i] == key;
            assert(s[i] == key);
        }
        lemma_remove_key_absent(s.drop_last(), key);
        assert(s.last() != key);
        assert(remove_key(s, key) =~= s);
    }
}

/// States decoded one byte at a time, oldest byte first.
pub open spec fn decode_seq(v: StateView, inputs: Seq<u8>) -> StateView
    decreases inputs.len(),
{
    if inputs.len() == 0 {
        v
    } else {
        decode_step(decode_seq(v, inputs.drop_last()), inputs.last())
    }
}

/// Law: a key-down byte for a mapped position followed by the key-up byte of
/// the same position leaves the pressed keys and the active modifiers exactly
/// as they were before both steps. It holds whenever the key was not already
/// held and there was room for it without eviction.
pub proof fn lemma_press_release_round_trip(v: StateView, down: u8, up: u8)
    requires
        v.wf(),
        down < 128,
        up >= 128,
        up % 128 == down,
        matrix_slot(down) is Some,
        !v.pressed.contains(matrix_slot(down).unwrap()),
        v.pressed.len() < 6,
    ensures
        decode_step(decode_step(v, down), up).pressed == v.pressed,
        decode_step(decode_step(v, down), up).modifiers == v.modifiers,
{
    let key = matrix_slot(down).unwrap();
    let f = modifier_flag(key);
    let m = v.modifiers;
    assert(down % 128 == down);
    let v1 = decode_step(v, down);
    assert(v1 == key_down_step(v, key));
    assert(v1.pressed == v.pressed.push(key));
    assert(v1.modifiers == (m | f));
    assert(v1.last_key_up is None);
    let v2 = decode_step(v1, up);
    assert(v2 == key_up_step(v1, key));
    assert(v.pressed.push(key).drop_last() =~= v.pressed);
    assert(v.pressed.push(key).last() == key);
    lemma_remove_key_absent(v.pressed, key);
    assert(v2.pressed == v.pressed);
    bv_clear(m, f);
    if f == 0 {
        bv_or_zero(m);
        bv_zero_and(m);
        assert(v2.modifiers == m);
    } else {
        lemma_mods_bit(v.pressed, key);
        assert((m & f) == 0);
        bv_masked(m, f);
        assert(v2.modifiers == m);
    }
}

/// Law: decoding up to six key-down bytes for distinct mapped key codes,
/// starting from the initial state, leaves exactly those key codes pressed,
/// in press order; the report slots past them stay zero.
pub proof fn lemma_distinct_downs_pressed(inputs: Seq<u8>)
    requires
        inputs.len() <= 6,
        forall|i: int| 0 <= i < inputs.len() ==> inputs[i] < 128,
        forall|i: int| 0 <= i < inputs.len() ==> matrix_slot(#[trigger] inputs[i] % 128) is Some,
        forall|i: int, j: int|
            0 <= i < j < inputs.len() ==> matrix_slot(inputs[i] % 128) != matrix_slot(
                inputs[j] % 128,
            ),
    ensures
        decode_seq(initial_view(), inputs).pressed.len() == inputs.len(),
        forall|i: int|
            0 <= i < inputs.len() ==> Some(
                #[trigger] decode_seq(initial_view(), inputs).pressed[i],
            ) == matrix_slot(inputs[i] % 128),
        forall|i: int|
            inputs.len() <= i < 6 ==> slot_spec(decode_seq(initial_view(), inputs).pressed, i)
                == 0,
        decode_seq(initial_view(), inputs).last_key_up is None,
    decreases inputs.len(),
{
    if inputs.len() == 0 {
    } else {
        let prefix = inputs.drop_last();
        lemma_distinct_downs_pressed(prefix);
        let w = decode_seq(initial_view(), prefix);
        let b = inputs.last();
        assert(b == inputs[inputs.len() - 1]);
        let key = matrix_slot(b % 128).unwrap();
        if w.pressed.contains(key) {
            let i = choose|i: int| 0 <= i < w.pressed.len() && w.pressed[i] == key;
            assert(Some(w.pressed[i]) == matrix_slot(prefix[i] % 128));
            assert(prefix[i] == inputs[i]);
            assert(matrix_slot(inputs[i] % 128) == matrix_slot(inputs[inputs.len() - 1] % 128));
        }
        assert(decode_seq(initial_view(), inputs) == key_down_step(w, key));
        assert(key_down_step(w, key).pressed == w.pressed.push(key));
        assert forall|i: int| 0 <= i < inputs.len() implies Some(
            #[trigger] decode_seq(initial_view(), inputs).pressed[i],
        ) == matrix_slot(inputs[i] % 128) by {
            if i < inputs.len() - 1 {
                assert(w.pressed.push(key)[i] == w.pressed[i]);
                assert(prefix[i] == inputs[i]);
            } else {
                assert(w.pressed.push(key)[i] == key);
            }
        }
    }
}

/// Law: a seventh distinct key pressed while six are held evicts the
/// oldest-pressed key and appends the new one; the evicted key's modifier
/// contribution is removed from the active modifiers and the new key's
/// added, so the evicted modifier's bit is clear afterwards.
pub proof fn lemma_seventh_key_evicts_oldest(v: StateView, key: KeyCode)
    requires
        v.wf(),
        v.pressed.len() == 6,
        !v.pressed.contains(key),
    ensures
        key_down_step(v, key).pressed == v.pressed.drop_first().push(key),
        key_down_step(v, key).modifiers == ((v.modifiers & !modifier_flag(v.pressed[0]))
            | modifier_flag(key)),
        modifier_flag(v.pressed[0]) != 0 ==> (key_down_step(v, key).modifiers & modifier_flag(
            v.pressed[0],
        )) == 0,
{
    let f0 = modifier_flag(v.pressed[0]);
    let f = modifier_flag(key);
    let m = v.modifiers;
    if f0 != 0 {
        assert(v.pressed[0] != key) by {
            assert(v.pressed.contains(v.pressed[0]));
        }
        lemma_modifier_flags_disjoint(key, v.pressed[0]);
        bv_and_distrib(m & !f0, f, f0);
        assert(((m & !f0) & f0) == 0) by (bit_vector);
        bv_or_zero((m & !f0) & f0);
        assert((((m & !f0) | f) & f0) == (((m & !f0) & f0) | (f & f0)));
    }
}

/// Law: the same key-up byte received twice in succession, with no
/// intervening event in between, clears all pressed keys and all modifiers,
/// whatever was held.
pub proof fn lemma_double_key_up_clears(v: StateView, up: u8)
    requires
        up >= 128,
        matrix_slot(up % 128) is Some,
    ensures
        decode_step(decode_step(v, up), up).pressed == Seq::<KeyCode>::empty(),
        decode_step(decode_step(v, up), up).modifiers == 0,
{
}

/// Law: in a well-formed decoder state, a modifier key's bit is set in the
/// modifier byte exactly when that key code is among the pressed keys.
pub proof fn lemma_modifier_bit_iff_pressed(v: StateView, key: KeyCode)
    requires
        v.wf(),
        modifier_flag(key) != 0,
    ensures
        ((v.modifiers & modifier_flag(key)) != 0) == v.pressed.contains(key),
{
    lemma_mods_bit(v.pressed, key);
}

/// Law: a byte naming a matrix position with no mapped key code leaves the
/// decoder state - and with it the derived report - unchanged.
pub proof fn lemma_unmapped_position_no_op(v: StateView, input: u8)
    requires
        matrix_slot(input % 128) is None,
    ensures
        decode_step(v, input) == v,
{
}

/// The mutable, single-owner, per-connection-session record of the decoder:
/// the pressed keys (insertion order = press order), the active modifier
/// bitset, and the most recently released key.
pub struct State {
    last_key_up: Option<KeyCode>,
    keycodes: heapless::Vec<KeyCode, 6>,
    modifiers: Modifiers,
}

impl View for State {
    type V = StateView;

    closed spec fn view(&self) -> StateView {
        StateView {
            pressed: key_buf_seq(self.keycodes),
            modifiers: self.modifiers@,
            last_key_up: self.last_key_up,
        }
    }
}

impl State {
    /// A decoder in its initial, all-released state.
    pub fn new() -> (r: State)
        ensures
            r@ == initial_view(),
            r@.wf(),
    {
        let r = State { last_key_up: None, keycodes: buf_new(), modifiers: Modifiers::empty() };
        proof {
            assert(r@ =~= initial_view());
        }
        r
    }

    /// Discards the session's key state wholesale, back to the initial value.
    pub fn reset(&mut self)
        ensures
            final(self)@ == initial_view(),
            final(self)@.wf(),
    {
        *self = State::new();
    }

    /// Uses a byte received directly from the serial line to update the
    /// state: one decoder step, exactly [`decode_step`].
    pub fn update_from_kb_input(&mut self, input: u8)
        requires
            old(self)@.wf(),
        ensures
            final(self)@ == decode_step(old(self)@, input),
            final(self)@.wf(),
    {
        proof {
            assert((input & 0x80 != 0) == (input >= 128)) by (bit_vector);
        }
        let ghost v0 = self@;
        if let Some(key) = KeyCode::try_from_matrix_key(input) {
            if input & 0x80 != 0 {
                // key-up
                let double = match self.last_key_up {
                    Some(prev) => prev == key,
                    None => false,
                };
                if double {
                    buf_truncate(&mut self.keycodes, 0);
                    self.modifiers = Modifiers::empty();
                    proof {
                        assert(key_buf_seq(self.keycodes) =~= Seq::<KeyCode>::empty());
                    }
                } else {
                    buf_retain_ne(&mut self.keycodes, key);
                    self.modifiers = self.modifiers.difference(Modifiers::from_key(key));
                    proof {
                        lemma_mods_remove_key(v0.pressed, key);
                        lemma_remove_key_wf(v0.pressed, key);
                    }
                }
                self.last_key_up = Some(key);
            } else {
                // key-down
                if !buf_contains(&self.keycodes, key) {
                    if buf_len(&self.keycodes) == 6 {
                        let evicted = buf_remove(&mut self.keycodes, 0);
                        self.modifiers = self.modifiers.difference(Modifiers::from_key(evicted));
                        proof {
                            assert(key_buf_seq(self.keycodes) =~= v0.pressed.drop_first());
                            lemma_mods_first(v0.pressed);
                            let f0 = modifier_flag(v0.pressed[0]);
                            let mrest = mods_of_seq(v0.pressed.drop_first());
                            bv_or_comm(f0, mrest);
                            bv_clear(mrest, f0);
                            assert forall|i: int, j: int|
                                0 <= i < v0.pressed.drop_first().len() && 0 <= j < v0
                                .pressed
                                .drop_first()
                                .len() && i != j implies v0.pressed.drop_first()[i] != v0
                                .pressed
                                .drop_first()[j] by {
                                assert(v0.pressed.drop_first()[i] == v0.pressed[i + 1]);
                                assert(v0.pressed.drop_first()[j] == v0.pressed[j + 1]);
                            }
                            if modifier_flag(v0.pressed[0]) != 0 {
                                lemma_mods_bit(v0.pressed.drop_first(), v0.pressed[0]);
                                if v0.pressed.drop_first().contains(v0.pressed[0]) {
                                    let i = choose|i: int|
                                        0 <= i < v0.pressed.drop_first().len() && v0
                                        .pressed
                                        .drop_first()[i] == v0.pressed[0];
                                    assert(v0.pressed[i + 1] == v0.pressed[0]);
                                }
                                bv_masked(mods_of_seq(v0.pressed.drop_first()), f0);
                            } else {
                                bv_zero_and(mods_of_seq(v0.pressed.drop_first()));
                                assert(mrest & !f0 == mrest) by (bit_vector)
                                    requires
                                        f0 == 0,
                                        mrest & !0u8 == mrest,
                                ;
                            }
                        }
                    }
                    let ghost kept = key_buf_seq(self.keycodes);
                    let pushed = buf_push(&mut self.keycodes, key);
                    self.modifiers = self.modifiers.union(Modifiers::from_key(key));
                    self.last_key_up = None;
                    proof {
                        lemma_mods_push(kept, key);
                        if v0.pressed.len() < 6 {
                            lemma_push_no_dup(v0.pressed, key);
                        } else {
                            if kept.contains(key) {
                                let i = choose|i: int| 0 <= i < kept.len() && kept[i] == key;
                                assert(v0.pressed[i + 1] == key);
                            }
                            lemma_push_no_dup(kept, key);
                        }
                    }
                }
            }
        }
        proof {
            assert(self@ =~= decode_step(v0, input));
        }
    }

    /// The six report key-code slots: the pressed keys' HID usage values in
    /// press order, left-packed, with unused slots zero.
    pub fn raw_keycode_arr(&self) -> (r: [u8; 6])
        requires
            self@.wf(),
        ensures
            forall|i: int| 0 <= i < 6 ==> r[i] == slot_spec(self@.pressed, i),
    {
        [
            self.slot(0),
            self.slot(1),
            self.slot(2),
            self.slot(3),
            self.slot(4),
            self.slot(5),
        ]
    }

    /// The HID usage value reported in one slot.
    fn slot(&self, i: usize) -> (r: u8)
        requires
            i < 6,
            self@.wf(),
        ensures
            r == slot_spec(self@.pressed, i as int),
    {
        if i < buf_len(&self.keycodes) {
            buf_at(&self.keycodes, i).hid_code()
        } else {
            0
        }
    }

    /// Derives the report snapshot for the current state: modifier byte from
    /// the active modifiers, reserved and LED bytes zero, and the pressed
    /// keys left-packed into the six slots.
    pub fn report(&self) -> (r: KeyboardReport)
        requires
            self@.wf(),
        ensures
            report_matches(r, self@.pressed, self@.modifiers),
    {
        KeyboardReport {
            modifier: self.modifiers.bits(),
            reserved: 0,
            leds: 0,
            keycodes: self.raw_keycode_arr(),
        }
    }
}

} // verus!
