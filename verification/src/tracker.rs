//! The held-note tracker: the library's one piece of state.
//!
//! Raw MIDI short messages arrive one at a time from the transport. Only
//! the first three bytes are consulted: status, key and velocity. A
//! Note-On inserts the key into the held set, a Note-Off removes it, and
//! either branch produces a snapshot of the set for delivery to the UI.
//! Anything else, including messages shorter than three bytes, is
//! silently ignored.

use vstd::prelude::*;

verus! {

/// The high nibble of a MIDI status byte: the message kind with the
/// channel nibble masked off.
pub open spec fn status_kind(status: u8) -> u8 {
    status & 0xF0
}

/// A classic Note-On: kind `0x9_` with a nonzero velocity.
pub open spec fn is_note_on(status: u8, velocity: u8) -> bool {
    status_kind(status) == 0x90 && velocity > 0
}

/// A Note-Off: kind `0x8_`, or the running-status convention of a
/// Note-On carrying velocity zero.
pub open spec fn is_note_off(status: u8, velocity: u8) -> bool {
    status_kind(status) == 0x80 || (status_kind(status) == 0x90 && velocity == 0)
}

/// The held set after one raw message: a Note-On inserts its key, a
/// Note-Off removes it, and everything else — including messages shorter
/// than three bytes — leaves the set unchanged.
pub open spec fn next_held(held: Set<u8>, raw: Seq<u8>) -> Set<u8> {
    if raw.len() < 3 {
        held
    } else if is_note_on(raw[0], raw[2]) {
        held.insert(raw[1])
    } else if is_note_off(raw[0], raw[2]) {
        held.remove(raw[1])
    } else {
        held
    }
}

/// Whether one raw message makes the tracker emit a snapshot: exactly
/// the messages whose Note-On or Note-Off branch fires, whether or not
/// the held set actually changes.
pub open spec fn emits_snapshot(raw: Seq<u8>) -> bool {
    raw.len() >= 3 && (is_note_on(raw[0], raw[2]) || is_note_off(raw[0], raw[2]))
}

/// The set of note keys currently sounding on one connection.
pub struct HeldNotes {
    notes: Vec<u8>,
}

impl View for HeldNotes {
    type V = Set<u8>;

    /// The mathematical set of held keys.
    closed spec fn view(&self) -> Set<u8> {
        self.notes@.to_set()
    }
}

/// Pushing an element that a duplicate-free sequence does not contain
/// keeps the sequence duplicate-free.
proof fn lemma_push_keeps_no_duplicates(s: Seq<u8>, a: u8)
    requires
        s.no_duplicates(),
        !s.contains(a),
    ensures
        s.push(a).no_duplicates(),
{
    let p = s.push(a);
    assert forall|i: int, j: int|
        0 <= i < p.len() && 0 <= j < p.len() && i != j implies p[i] != p[j] by {
        let n = s.len() as int;
        if i < n && j < n {
        } else if i == n {
            s.lemma_index_contains(j);
        } else {
            s.lemma_index_contains(i);
        }
    }
}

impl HeldNotes {
    /// The backing vector stores each held key exactly once.
    pub closed spec fn wf(&self) -> bool {
        self.notes@.no_duplicates()
    }

    /// An empty tracker, as created when a connection is established.
    pub fn new() -> (t: HeldNotes)
        ensures
            t.wf(),
            t@ == Set::<u8>::empty(),
    {
        let t = HeldNotes { notes: Vec::new() };
        proof {
            assert(t@ =~= Set::<u8>::empty());
        }
        t
    }

    /// Whether `key` is currently held.
    pub fn contains(&self, key: u8) -> (r: bool)
        ensures
            r == self@.contains(key),
    {
        let mut i: usize = 0;
        while i < self.notes.len()
            invariant
                i <= self.notes@.len(),
                forall|j: int| 0 <= j < i ==> self.notes@[j] != key,
            decreases self.notes@.len() - i,
        {
            if self.notes[i] == key {
                proof {
                    assert(self.notes@[i as int] == key);
                    assert(self.notes@.contains(key));
                }
                return true;
            }
            i += 1;
        }
        proof {
            assert(!self.notes@.contains(key));
        }
        false
    }

    /// Insert `key`; inserting a key already held changes nothing.
    fn insert_key(&mut self, key: u8)
        requires
            old(self).wf(),
        ensures
            final(self).wf(),
            final(self)@ == old(self)@.insert(key),
    {
        let ghost s = self.notes@;
        if !self.contains(key) {
            self.notes.push(key);
            proof {
                assert(!s.contains(key));
                lemma_push_keeps_no_duplicates(s, key);
                s.lemma_push_to_set_commute(key);
            }
        } else {
            proof {
                assert(old(self)@.insert(key) =~= old(self)@);
            }
        }
    }

    /// Remove `key`; removing a key that is not held changes nothing.
    fn remove_key(&mut self, key: u8)
        requires
            old(self).wf(),
        ensures
            final(self).wf(),
            final(self)@ == old(self)@.remove(key),
    {
        let ghost s = self.notes@;
        let mut kept: Vec<u8> = Vec::new();
        let mut i: usize = 0;
        proof {
            assert(kept@.to_set() =~= s.take(0).to_set().remove(key));
        }
        while i < self.notes.len()
            invariant
                self.notes@ == s,
                s.no_duplicates(),
                i <= s.len(),
                kept@.no_duplicates(),
                kept@.to_set() == s.take(i as int).to_set().remove(key),
            decreases s.len() - i,
        {
            let n = self.notes[i];
            proof {
                s.lemma_take_succ_push(i as int);
            }
            if n != key {
                proof {
                    if kept@.contains(n) {
                        assert(kept@.to_set().contains(n));
                        assert(s.take(i as int).to_set().contains(n));
                        assert(s.take(i as int).contains(n));
                        let j = choose|j: int| 0 <= j < i && s.take(i as int)[j] == n;
                        assert(s.take(i as int)[j] == s[j]);
                        assert(s[j] == s[i as int]);
                        assert(false);
                    }
                    lemma_push_keeps_no_duplicates(kept@, n);
                    kept@.lemma_push_to_set_commute(n);
                    assert(kept@.to_set().insert(n) =~= s.take(i as int + 1).to_set().remove(
                        key,
                    )) by {
                        s.take(i as int).lemma_push_to_set_commute(n);
                    }
                }
                kept.push(n);
            } else {
                proof {
                    assert(kept@.to_set() =~= s.take(i as int + 1).to_set().remove(key)) by {
                        s.take(i as int).lemma_push_to_set_commute(n);
                    }
                }
            }
            i += 1;
        }
        proof {
            s.lemma_take_len();
        }
        self.notes = kept;
    }

    /// The current held set as a list of keys, each exactly once, in the
    /// order the keys were first pressed.
    pub fn snapshot(&self) -> (v: Vec<u8>)
        requires
            self.wf(),
        ensures
            v@.to_set() == self@,
            v@.no_duplicates(),
    {
        let mut v: Vec<u8> = Vec::new();
        let mut i: usize = 0;
        proof {
            assert(v@ =~= self.notes@.take(0));
        }
        while i < self.notes.len()
            invariant
                i <= self.notes@.len(),
                v@ == self.notes@.take(i as int),
            decreases self.notes@.len() - i,
        {
            proof {
                self.notes@.lemma_take_succ_push(i as int);
            }
            v.push(self.notes[i]);
            i += 1;
        }
        proof {
            self.notes@.lemma_take_len();
            assert(v@ == self.notes@);
        }
        v
    }

    /// Handle one raw MIDI message: update the held set as `next_held`
    /// says and return a snapshot of it exactly when a Note-On or
    /// Note-Off branch fired. Any byte sequence is accepted; nothing
    /// here can fail.
    pub fn on_message(&mut self, raw: &[u8]) -> (snap: Option<Vec<u8>>)
        requires
            old(self).wf(),
        ensures
            final(self).wf(),
            final(self)@ == next_held(old(self)@, raw@),
            snap is Some <==> emits_snapshot(raw@),
            snap matches Some(s) ==> s@.to_set() == final(self)@ && s@.no_duplicates(),
    {
        if raw.len() < 3 {
            return None;
        }
        let status = raw[0];
        let key = raw[1];
        let velocity = raw[2];
        let kind = status & 0xF0;
        if kind == 0x90 && velocity > 0 {
            self.insert_key(key);
        } else if kind == 0x80 || (kind == 0x90 && velocity == 0) {
            self.remove_key(key);
        } else {
            return None;
        }
        Some(self.snapshot())
    }
}

/// A message shorter than three bytes leaves the held set unchanged and
/// produces no snapshot.
pub proof fn short_message_ignored(held: Set<u8>, raw: Seq<u8>)
    requires
        raw.len() < 3,
    ensures
        next_held(held, raw) == held,
        !emits_snapshot(raw),
{
}

/// A Note-On `[0x90, k, v]` with nonzero velocity for a key not yet held
/// adds that key to the held set, and a snapshot is emitted.
pub proof fn note_on_adds_key(held: Set<u8>, k: u8, v: u8)
    requires
        v > 0,
        !held.contains(k),
    ensures
        next_held(held, seq![0x90u8, k, v]) == held.insert(k),
        next_held(held, seq![0x90u8, k, v]).contains(k),
        emits_snapshot(seq![0x90u8, k, v]),
{
    assert(0x90u8 & 0xF0 == 0x90) by (bit_vector);
}

/// A repeated Note-On for a key already held leaves the held set
/// unchanged — the set still contains that key exactly once — yet a
/// snapshot is still emitted: emission follows the branch firing, not
/// the state actually changing.
pub proof fn repeated_note_on_keeps_set(held: Set<u8>, k: u8, v: u8)
    requires
        v > 0,
        held.contains(k),
    ensures
        next_held(held, seq![0x90u8, k, v]) == held,
        emits_snapshot(seq![0x90u8, k, v]),
{
    assert(0x90u8 & 0xF0 == 0x90) by (bit_vector);
    assert(held.insert(k) =~= held);
}

/// A Note-Off `[0x80, k, v]`, at any velocity, for a held key removes
/// that key, and the emitted snapshot no longer contains it.
pub proof fn note_off_removes_key(held: Set<u8>, k: u8, v: u8)
    requires
        held.contains(k),
    ensures
        next_held(held, seq![0x80u8, k, v]) == held.remove(k),
        !next_held(held, seq![0x80u8, k, v]).contains(k),
        emits_snapshot(seq![0x80u8, k, v]),
{
    assert(0x80u8 & 0xF0 == 0x80) by (bit_vector);
}

/// A Note-On with velocity zero, `[0x90, k, 0x00]`, is treated exactly
/// as a Note-Off: a held key is removed from the set.
pub proof fn note_on_zero_velocity_is_note_off(held: Set<u8>, k: u8)
    requires
        held.contains(k),
    ensures
        next_held(held, seq![0x90u8, k, 0x00u8]) == held.remove(k),
        !next_held(held, seq![0x90u8, k, 0x00u8]).contains(k),
        emits_snapshot(seq![0x90u8, k, 0x00u8]),
{
    assert(0x90u8 & 0xF0 == 0x90) by (bit_vector);
}

/// A Note-Off for a key that is not held is not an error: the held set
/// is unchanged — still without that key — and a snapshot reflecting
/// the unchanged set is still emitted.
pub proof fn note_off_absent_key_keeps_set(held: Set<u8>, k: u8, v: u8)
    requires
        !held.contains(k),
    ensures
        next_held(held, seq![0x80u8, k, v]) == held,
        !next_held(held, seq![0x80u8, k, v]).contains(k),
        emits_snapshot(seq![0x80u8, k, v]),
{
    assert(0x80u8 & 0xF0 == 0x80) by (bit_vector);
    assert(held.remove(k) =~= held);
}

/// A message whose status kind is neither Note-On nor Note-Off — a
/// control change, pitch bend, clock and the like — leaves the held set
/// unchanged and produces no snapshot.
pub proof fn unrelated_status_ignored(held: Set<u8>, raw: Seq<u8>)
    requires
        raw.len() >= 3,
        status_kind(raw[0]) != 0x90,
        status_kind(raw[0]) != 0x80,
    ensures
        next_held(held, raw) == held,
        !emits_snapshot(raw),
{
}

} // verus!
