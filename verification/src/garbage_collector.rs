//! The pending-action registry and the periodic driver that re-attempts
//! scheduling of the current fingerprint under the current slot key.

use vstd::prelude::*;
use crate::codec::{
    decode_fingerprint, encode_fingerprint, fingerprint_bytes, lemma_schedule_key_injective,
    schedule_key, schedule_key_bytes, Fingerprint,
};
use crate::dispatch::{ensure_root, DispatchError, Origin};
use crate::scheduler::Scheduler;

verus! {

/// The priority every cleanup schedule request is made with.
pub const CLEANUP_PRIORITY: u8 = 63;

/// Observable outcomes of the registry and the driver.
#[derive(Clone, Copy, PartialEq, Eq, Structural, Debug)]
pub enum Event {
    /// A schedule request for the cleanup action was accepted under the
    /// given slot index.
    CleanupCallScheduled { index: u64, priority: u64 },
}

/// Errors of the registry and the driver.
///
/// `SchedulerError` stands for a dispatcher rejection other than the benign
/// duplicate key; the modelled dispatcher rejects only duplicates, which the
/// driver absorbs, so no call of this crate surfaces it.
#[derive(Clone, Copy, PartialEq, Eq, Structural, Debug)]
pub enum Error {
    SchedulerError,
}

/// The registry's persisted state: the single latest submitted fingerprint
/// and the monotonic slot counter.
pub struct Pallet {
    /// The pending action's fingerprint; the sentinel pair means none.
    pub pallet_call: Fingerprint,
    /// The current slot index; the next free scheduling slot.
    pub garbage_collector_count: u32,
}

/// Initial registry state: an empty registry at slot zero.
pub struct GenesisConfig {}

impl Default for GenesisConfig {
    fn default() -> (r: GenesisConfig) {
        GenesisConfig {}
    }
}

impl GenesisConfig {
    /// Builds the registry's initial state: no pending action, slot zero.
    pub fn build(&self) -> (r: Pallet)
        ensures
            r.pallet_call.is_sentinel(),
            r.garbage_collector_count == 0,
    {
        Pallet { pallet_call: Fingerprint::sentinel(), garbage_collector_count: 0 }
    }
}

/// Whether the next tick will accept a schedule request: an action is
/// pending and its current slot key is still free.
pub open spec fn tick_emits(p: Pallet, keys: Set<Seq<u8>>) -> bool {
    &&& !p.pallet_call.is_sentinel()
    &&& !keys.contains(schedule_key_bytes(p.garbage_collector_count))
}

/// The dispatcher's key set after one tick.
pub open spec fn tick_keys(p: Pallet, keys: Set<Seq<u8>>) -> Set<Seq<u8>> {
    if tick_emits(p, keys) {
        keys.insert(schedule_key_bytes(p.garbage_collector_count))
    } else {
        keys
    }
}

/// How many scheduling events `n` consecutive ticks emit, the registry
/// unchanged throughout.
pub open spec fn events_in_ticks(p: Pallet, keys: Set<Seq<u8>>, n: nat) -> nat
    decreases n,
{
    if n == 0 {
        0
    } else {
        (if tick_emits(p, keys) {
            1 as nat
        } else {
            0 as nat
        }) + events_in_ticks(p, tick_keys(p, keys), (n - 1) as nat)
    }
}

/// Every key the dispatcher holds for this namespace belongs to a slot no
/// later than the current one.
pub open spec fn slot_bounded(p: Pallet, keys: Set<Seq<u8>>) -> bool {
    forall|i: u32| keys.contains(#[trigger] schedule_key_bytes(i)) ==> i <= p.garbage_collector_count
}

impl Pallet {
    /// Read-only view of the pending fingerprint.
    pub fn pallet_call(&self) -> (r: Fingerprint)
        ensures
            r == self.pallet_call,
    {
        self.pallet_call
    }

    /// Read-only view of the slot counter.
    pub fn garbage_collector_count(&self) -> (r: u32)
        ensures
            r == self.garbage_collector_count,
    {
        self.garbage_collector_count
    }

    /// Privileged: overwrites the single stored fingerprint with the
    /// submitted call's, last write wins. The call travels in its wire form
    /// and is read back before it is stored.
    pub fn submit_pallet(&mut self, origin: Origin, call: Fingerprint) -> (r: Result<
        (),
        DispatchError,
    >)
        ensures
            origin == Origin::Root ==> {
                &&& r == Ok::<(), DispatchError>(())
                &&& final(self).pallet_call == call
                &&& final(self).garbage_collector_count == old(self).garbage_collector_count
            },
            origin != Origin::Root ==> {
                &&& r == Err::<(), DispatchError>(DispatchError::BadOrigin)
                &&& *final(self) == *old(self)
            },
    {
        ensure_root(origin)?;

        let bytes = encode_fingerprint(&call);
        let decoded = decode_fingerprint(&bytes);
        let fp = match decoded {
            Some(fp) => fp,
            // Unreachable: a two-byte encoding always reads back.
            None => call,
        };
        proof {
            assert(fingerprint_bytes(fp)[0] == fingerprint_bytes(call)[0]);
            assert(fingerprint_bytes(fp)[1] == fingerprint_bytes(call)[1]);
        }
        self.pallet_call = fp;

        Ok(())
    }

    /// Privileged: advances the slot counter by one, so that the next tick
    /// schedules under a fresh key.
    pub fn increase_index(&mut self, origin: Origin) -> (r: Result<(), DispatchError>)
        requires
            origin == Origin::Root ==> old(self).garbage_collector_count < u32::MAX,
        ensures
            origin == Origin::Root ==> {
                &&& r == Ok::<(), DispatchError>(())
                &&& final(self).garbage_collector_count == old(self).garbage_collector_count + 1
                &&& final(self).pallet_call == old(self).pallet_call
            },
            origin != Origin::Root ==> {
                &&& r == Err::<(), DispatchError>(DispatchError::BadOrigin)
                &&& *final(self) == *old(self)
            },
    {
        ensure_root(origin)?;

        let index = self.garbage_collector_count;
        self.garbage_collector_count = index + 1;

        Ok(())
    }

    /// The per-tick hook: re-attempts scheduling of the pending action.
    pub fn on_initialize(&self, scheduler: &mut Scheduler, now: u64) -> (ev: Option<Event>)
        ensures
            schedule_cleanup_post(*self, *old(scheduler), *final(scheduler), now, ev),
    {
        self.schedule_cleanup(scheduler, now)
    }

    /// Re-attempts to schedule the pending action under the current slot
    /// key, to execute at `when`. A sentinel fingerprint means nothing is
    /// pending; a duplicate-key rejection is the expected steady state and
    /// is absorbed. The event is emitted only when the request was accepted.
    pub fn schedule_cleanup(&self, scheduler: &mut Scheduler, when: u64) -> (ev: Option<Event>)
        ensures
            schedule_cleanup_post(*self, *old(scheduler), *final(scheduler), when, ev),
    {
        let bytes = encode_fingerprint(&self.pallet_call);
        if bytes.len() == 2 && bytes[0] == 0 && bytes[1] == 0 {
            return None;
        }

        let decoded = decode_fingerprint(&bytes);
        let call = match decoded {
            Some(call) => call,
            // Unreachable: a two-byte encoding always reads back.
            None => self.pallet_call,
        };
        proof {
            assert(fingerprint_bytes(call)[0] == fingerprint_bytes(self.pallet_call)[0]);
            assert(fingerprint_bytes(call)[1] == fingerprint_bytes(self.pallet_call)[1]);
        }

        let index = self.garbage_collector_count;
        let key = schedule_key(index);
        let accepted = scheduler.schedule_named(key, when, CLEANUP_PRIORITY, call);
        match accepted {
            Ok(()) => Some(
                Event::CleanupCallScheduled { index: index as u64, priority: CLEANUP_PRIORITY as u64 },
            ),
            Err(_) => None,
        }
    }
}

/// What one driver tick does: nothing on a sentinel fingerprint or an
/// occupied slot key; otherwise it appends exactly one entry, carrying the
/// pending call under the current slot key, and emits the scheduling event.
pub open spec fn schedule_cleanup_post(
    p: Pallet,
    pre: Scheduler,
    post: Scheduler,
    when: u64,
    ev: Option<Event>,
) -> bool {
    &&& (!tick_emits(p, pre.keys()) ==> {
        &&& post.entries_seq() == pre.entries_seq()
        &&& ev is None
    })
    &&& (tick_emits(p, pre.keys()) ==> {
        &&& post.entries_seq().len() == pre.entries_seq().len() + 1
        &&& post.entries_seq().subrange(0, pre.entries_seq().len() as int) == pre.entries_seq()
        &&& post.entries_seq().last().key@ == schedule_key_bytes(p.garbage_collector_count)
        &&& post.entries_seq().last().when == when
        &&& post.entries_seq().last().priority == CLEANUP_PRIORITY
        &&& post.entries_seq().last().call == p.pallet_call
        &&& ev == Some(
            Event::CleanupCallScheduled {
                index: p.garbage_collector_count as u64,
                priority: CLEANUP_PRIORITY as u64,
            },
        )
    })
    &&& post.keys() =~= tick_keys(p, pre.keys())
}

/// Once the current slot key is occupied, ticks with an unchanged registry
/// emit nothing, however many there are.
pub proof fn lemma_occupied_slot_emits_nothing(p: Pallet, keys: Set<Seq<u8>>, n: nat)
    requires
        keys.contains(schedule_key_bytes(p.garbage_collector_count)),
    ensures
        events_in_ticks(p, keys, n) == 0,
    decreases n,
{
    if n > 0 {
        lemma_occupied_slot_emits_nothing(p, tick_keys(p, keys), (n - 1) as nat);
    }
}

/// Idempotent scheduling: over any number of ticks with an unchanged
/// registry, a pending action in a fresh slot is scheduled exactly once.
pub proof fn lemma_idempotent_scheduling(p: Pallet, keys: Set<Seq<u8>>, n: nat)
    requires
        !p.pallet_call.is_sentinel(),
        !keys.contains(schedule_key_bytes(p.garbage_collector_count)),
        n >= 1,
    ensures
        events_in_ticks(p, keys, n) == 1,
{
    assert(tick_emits(p, keys));
    let keys2 = tick_keys(p, keys);
    assert(keys2.contains(schedule_key_bytes(p.garbage_collector_count)));
    lemma_occupied_slot_emits_nothing(p, keys2, (n - 1) as nat);
}

/// Slot advancement unblocks scheduling: with the dispatcher's keys bounded
/// by the current slot, advancing the slot index makes the very next tick
/// schedule again, even with the fingerprint unchanged.
pub proof fn lemma_slot_advance_unblocks(p: Pallet, p2: Pallet, keys: Set<Seq<u8>>)
    requires
        slot_bounded(p, keys),
        !p.pallet_call.is_sentinel(),
        p.garbage_collector_count < u32::MAX,
        p2.garbage_collector_count == p.garbage_collector_count + 1,
        p2.pallet_call == p.pallet_call,
    ensures
        tick_emits(p2, keys),
        events_in_ticks(p2, keys, 1) == 1,
{
    if keys.contains(schedule_key_bytes(p2.garbage_collector_count)) {
        assert(p2.garbage_collector_count <= p.garbage_collector_count);
    }
    lemma_idempotent_scheduling(p2, keys, 1);
}

/// The slot bound holds of a dispatcher that holds no entry yet, whatever
/// the registry's state.
pub proof fn lemma_slot_bounded_genesis(p: Pallet, s: Scheduler)
    requires
        s.entries_seq().len() == 0,
    ensures
        slot_bounded(p, s.keys()),
{
}

/// The slot bound is an invariant of the tick: a tick only ever takes the
/// current slot's key.
pub proof fn lemma_slot_bounded_after_tick(p: Pallet, keys: Set<Seq<u8>>)
    requires
        slot_bounded(p, keys),
    ensures
        slot_bounded(p, tick_keys(p, keys)),
{
    let keys2 = tick_keys(p, keys);
    assert forall|i: u32|
        keys2.contains(#[trigger] schedule_key_bytes(i)) implies i <= p.garbage_collector_count by {
        if !keys.contains(schedule_key_bytes(i)) {
            lemma_schedule_key_injective(i, p.garbage_collector_count);
        }
    }
}

/// The slot bound is an invariant of advancing the slot index.
pub proof fn lemma_slot_bounded_after_advance(p: Pallet, p2: Pallet, keys: Set<Seq<u8>>)
    requires
        slot_bounded(p, keys),
        p2.garbage_collector_count >= p.garbage_collector_count,
    ensures
        slot_bounded(p2, keys),
{
}

} // verus!
