//! A model of the deferred-dispatch capability: a keyed registry of
//! scheduled entries that guarantees at most one live entry per key,
//! rejecting duplicate keys.
//!
//! Eventual execution of an entry is the host's business; the model records
//! what was accepted and under which key.

use vstd::prelude::*;
use crate::codec::Fingerprint;

verus! {

/// One accepted schedule request.
#[derive(Debug)]
pub struct ScheduledEntry {
    /// The key under which the entry was accepted; unique among live entries.
    pub key: Vec<u8>,
    /// The tick at or after which the entry is to execute.
    pub when: u64,
    /// The execution priority the requester asked for.
    pub priority: u8,
    /// The action to dispatch.
    pub call: Fingerprint,
}

/// Rejection reported by the dispatcher.
#[derive(Clone, Copy, PartialEq, Eq, Structural, Debug)]
pub enum ScheduleError {
    /// The key already names a live entry.
    DuplicateKey,
}

/// The deferred dispatcher's visible state: the accepted entries, in order
/// of acceptance.
pub struct Scheduler {
    entries: Vec<ScheduledEntry>,
}

impl Scheduler {
    /// The accepted entries, oldest first.
    pub closed spec fn entries_seq(self) -> Seq<ScheduledEntry> {
        self.entries@
    }

    /// Whether some live entry is keyed by `key`.
    pub open spec fn has_key(self, key: Seq<u8>) -> bool {
        exists|i: int|
            0 <= i < self.entries_seq().len() && self.entries_seq()[i].key@ == key
    }

    /// The set of keys of the live entries.
    pub open spec fn keys(self) -> Set<Seq<u8>> {
        Set::new(|k: Seq<u8>| self.has_key(k))
    }

    /// An empty dispatcher, with no live entry.
    pub fn new() -> (r: Scheduler)
        ensures
            r.entries_seq() == Seq::<ScheduledEntry>::empty(),
    {
        Scheduler { entries: Vec::new() }
    }

    /// How many entries have been accepted.
    pub fn len(&self) -> (r: usize)
        ensures
            r == self.entries_seq().len(),
    {
        self.entries.len()
    }

    /// Read one accepted entry.
    pub fn entry(&self, i: usize) -> (r: &ScheduledEntry)
        requires
            i < self.entries_seq().len(),
        ensures
            *r == self.entries_seq()[i as int],
    {
        &self.entries[i]
    }

    /// Whether `key` already names a live entry.
    pub fn contains_key(&self, key: &Vec<u8>) -> (r: bool)
        ensures
            r == self.has_key(key@),
    {
        let mut i: usize = 0;
        while i < self.entries.len()
            invariant
                i <= self.entries_seq().len(),
                forall|j: int| 0 <= j < i ==> self.entries_seq()[j].key@ != key@,
            decreases self.entries_seq().len() - i,
        {
            if bytes_eq(&self.entries[i].key, key) {
                return true;
            }
            i = i + 1;
        }
        false
    }

    /// Accepts a schedule request unless its key already names a live
    /// entry; a duplicate key is rejected and leaves the state unchanged.
    pub fn schedule_named(
        &mut self,
        key: Vec<u8>,
        when: u64,
        priority: u8,
        call: Fingerprint,
    ) -> (r: Result<(), ScheduleError>)
        ensures
            old(self).has_key(key@) ==> {
                &&& r == Err::<(), ScheduleError>(ScheduleError::DuplicateKey)
                &&& final(self).entries_seq() == old(self).entries_seq()
            },
            !old(self).has_key(key@) ==> {
                &&& r == Ok::<(), ScheduleError>(())
                &&& final(self).entries_seq().len() == old(self).entries_seq().len() + 1
                &&& final(self).entries_seq().subrange(0, old(self).entries_seq().len() as int)
                    == old(self).entries_seq()
                &&& final(self).entries_seq().last().key@ == key@
                &&& final(self).entries_seq().last().when == when
                &&& final(self).entries_seq().last().priority == priority
                &&& final(self).entries_seq().last().call == call
            },
            forall|k: Seq<u8>|
                final(self).has_key(k) <==> (old(self).has_key(k) || (!old(self).has_key(key@)
                    && k == key@)),
    {
        if self.contains_key(&key) {
            proof {
                assert forall|k: Seq<u8>| self.has_key(k) <==> old(self).has_key(k) by {}
            }
            Err(ScheduleError::DuplicateKey)
        } else {
            let ghost pre = self.entries@;
            self.entries.push(ScheduledEntry { key, when, priority, call });
            proof {
                assert(self.entries@.subrange(0, pre.len() as int) =~= pre);
                assert forall|k: Seq<u8>|
                    self.has_key(k) <==> (old(self).has_key(k) || k == key@) by {
                    if self.has_key(k) {
                        let i = choose|i: int|
                            0 <= i < self.entries@.len() && self.entries@[i].key@ == k;
                        if i < pre.len() {
                            assert(old(self).entries_seq()[i].key@ == k);
                        } else {
                            assert(k == key@);
                        }
                    }
                    if old(self).has_key(k) {
                        let i = choose|i: int| 0 <= i < pre.len() && pre[i].key@ == k;
                        assert(self.entries@[i].key@ == k);
                    }
                    if k == key@ {
                        assert(self.entries@[pre.len() as int].key@ == k);
                    }
                }
            }
            Ok(())
        }
    }
}

/// Byte-for-byte equality of two byte strings.
pub fn bytes_eq(a: &Vec<u8>, b: &Vec<u8>) -> (r: bool)
    ensures
        r == (a@ == b@),
{
    if a.len() != b.len() {
        return false;
    }
    let mut i: usize = 0;
    while i < a.len()
        invariant
            a@.len() == b@.len(),
            i <= a@.len(),
            forall|j: int| 0 <= j < i ==> a@[j] == b@[j],
        decreases a@.len() - i,
    {
        if a[i] != b[i] {
            return false;
        }
        i = i + 1;
    }
    proof {
        assert(a@ =~= b@);
    }
    true
}

} // verus!
