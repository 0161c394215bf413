//! The client handle registry: a single slot that holds at most one shared
//! client handle.
//!
//! The registry is an explicit value that its owner passes to every operation.
//! Mutation takes `&mut self` and reading takes `&self`, so whatever lock the
//! embedding keeps the registry under serialises a replacement against every
//! read: a reader sees the slot as one whole mutation left it. A read hands
//! out a clone of the shared handle, so work that holds one is untouched by a
//! later replacement or teardown.

use std::sync::Arc;
use vstd::prelude::*;

verus! {

/// A mutation of the slot.
pub enum SlotChange<H> {
    /// Put a handle in the slot, orphaning whatever it held.
    Install(Arc<H>),
    /// Empty the slot.
    Clear,
}

/// The slot after one mutation. What the slot held before plays no part.
pub open spec fn slot_after<H>(slot: Option<Arc<H>>, change: SlotChange<H>) -> Option<Arc<H>> {
    match change {
        SlotChange::Install(handle) => Some(handle),
        SlotChange::Clear => None,
    }
}

/// The slot after a history of mutations, applied in order.
pub open spec fn slot_after_all<H>(slot: Option<Arc<H>>, changes: Seq<SlotChange<H>>) -> Option<
    Arc<H>,
>
    decreases changes.len(),
{
    if changes.len() == 0 {
        slot
    } else {
        slot_after(slot_after_all(slot, changes.drop_last()), changes.last())
    }
}

/// `Arc::clone` of std: the clone points to the same allocation, so it denotes
/// the same handle as the one it was cloned from.
#[verifier::external_body]
pub(crate) fn share<H>(handle: &Arc<H>) -> (shared: Arc<H>)
    ensures
        shared == *handle,
{
    Arc::clone(handle)
}

/// The single-slot store of the current client handle.
#[derive(Debug)]
pub struct Registry<H> {
    slot: Option<Arc<H>>,
}

impl<H> Registry<H> {
    /// The handle in the slot, if any.
    pub closed spec fn view(&self) -> Option<Arc<H>> {
        self.slot
    }

    /// An empty registry.
    pub fn new() -> (registry: Self)
        ensures
            registry@ is None,
    {
        Registry { slot: None }
    }

    /// Replaces the slot's contents with `handle`. A handle installed earlier
    /// is orphaned: clones of it stay valid, but no later read reaches it.
    pub fn install(&mut self, handle: Arc<H>)
        ensures
            final(self)@ == slot_after(old(self)@, SlotChange::Install(handle)),
            final(self)@ == Some(handle),
    {
        self.slot = Some(handle);
    }

    /// Empties the slot. Clearing an empty slot is not an error.
    pub fn clear(&mut self)
        ensures
            final(self)@ == slot_after(old(self)@, SlotChange::<H>::Clear),
            final(self)@ is None,
    {
        self.slot = None;
    }

    /// A clone of the installed handle, or `None` when the slot is empty.
    pub fn current(&self) -> (handle: Option<Arc<H>>)
        ensures
            handle == self@,
    {
        match &self.slot {
            Some(installed) => Some(share(installed)),
            None => None,
        }
    }

    /// Whether a handle is installed.
    pub fn is_installed(&self) -> (installed: bool)
        ensures
            installed == (self@ is Some),
    {
        self.slot.is_some()
    }
}

/// After any non-empty history the slot holds exactly what the last mutation
/// put there, whatever it held before: a replacement is a whole-handle swap
/// and at most one handle is installed at a time.
pub proof fn lemma_slot_reflects_last_change<H>(
    before: Option<Arc<H>>,
    other: Option<Arc<H>>,
    changes: Seq<SlotChange<H>>,
)
    requires
        changes.len() > 0,
    ensures
        slot_after_all(before, changes) == slot_after(other, changes.last()),
{
}

/// A read ordered anywhere within a run of clears observes either the handle
/// that was installed before the run or the empty slot, and nothing else.
pub proof fn lemma_read_during_clear_sees_prior_or_empty<H>(
    prior: Option<Arc<H>>,
    clears: Seq<SlotChange<H>>,
    done_before_read: int,
)
    requires
        forall|at: int| 0 <= at < clears.len() ==> clears[at] is Clear,
        0 <= done_before_read <= clears.len(),
    ensures
        done_before_read == 0 ==> slot_after_all(prior, clears.take(done_before_read)) == prior,
        done_before_read > 0 ==> slot_after_all(prior, clears.take(done_before_read)) is None,
{
    let done = clears.take(done_before_read);
    if done_before_read > 0 {
        assert(done.last() == clears[done_before_read - 1]);
    }
}

/// Clearing is idempotent: a second clear changes nothing.
pub proof fn lemma_clear_is_idempotent<H>(slot: Option<Arc<H>>)
    ensures
        slot_after(slot_after(slot, SlotChange::Clear), SlotChange::Clear) == slot_after(
            slot,
            SlotChange::Clear,
        ),
{
}

} // verus!
