//! State shared by the controller's threads: the registry of worker threads
//! and the slot of the injected agent.
//!
//! The controller keeps each of these behind its own lock and never holds
//! two locks at once; the functions here are what happens under the lock.

use vstd::prelude::*;

verus! {

/// The worker threads of the controller, in the order they were spawned.
pub struct ThreadRegistry<H> {
    handles: Vec<H>,
}

impl<H> View for ThreadRegistry<H> {
    type V = Seq<H>;

    closed spec fn view(&self) -> Seq<H> {
        self.handles@
    }
}

impl<H> ThreadRegistry<H> {
    /// A registry with no thread.
    pub fn new() -> (r: ThreadRegistry<H>)
        ensures
            r@ == Seq::<H>::empty(),
    {
        ThreadRegistry { handles: Vec::new() }
    }

    /// The number of registered threads.
    pub fn len(&self) -> (r: usize)
        ensures
            r == self@.len(),
    {
        self.handles.len()
    }
}

/// Registers a thread that was just spawned.
pub fn add_handle<H>(registry: &mut ThreadRegistry<H>, handle: H)
    ensures
        final(registry)@ == old(registry)@.push(handle),
{
    registry.handles.push(handle);
}

/// Removes the thread registered last, when it completes as planned; it is
/// handed back, and nothing changes when no thread is registered.
pub fn pop_handle<H>(registry: &mut ThreadRegistry<H>) -> (r: Option<H>)
    ensures
        old(registry)@.len() > 0 ==> r == Some(old(registry)@.last()) && final(registry)@
            == old(registry)@.drop_last(),
        old(registry)@.len() == 0 ==> r is None && final(registry)@ == old(registry)@,
{
    registry.handles.pop()
}

/// Drains the registry for shutdown: every registered thread is handed back,
/// last registered first, in the order they are to be joined.
pub fn finish_threads<H>(registry: &mut ThreadRegistry<H>) -> (r: Vec<H>)
    ensures
        r@ == old(registry)@.reverse(),
        final(registry)@ == Seq::<H>::empty(),
{
    let ghost orig = registry.handles@;
    let mut out: Vec<H> = Vec::new();
    while registry.handles.len() > 0
        invariant
            out@.len() + registry.handles@.len() == orig.len(),
            registry.handles@ == orig.subrange(0, registry.handles@.len() as int),
            forall|i: int| 0 <= i < out@.len() ==> out@[i] == orig[orig.len() - 1 - i],
        decreases registry.handles@.len(),
    {
        let h = registry.handles.pop();
        match h {
            Some(h) => out.push(h),
            None => {},
        }
    }
    assert(out@ =~= orig.reverse());
    out
}

/// Puts `handle` in the slot of the injected agent and hands back what the
/// slot held, for the caller to unload: an agent is never dropped while its
/// hook stays installed.
pub fn set_dll_handle<H>(slot: &mut Option<H>, handle: Option<H>) -> (previous: Option<H>)
    ensures
        previous == *old(slot),
        *final(slot) == handle,
{
    let previous = slot.take();
    *slot = handle;
    previous
}

} // verus!
