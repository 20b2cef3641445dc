//! Callbacks that run outside the call that triggered them.
//!
//! Emitting a callback does not run it: its key is queued on a
//! [`CallbackExecutor`], and the event loop drains the queue once per
//! iteration, so that no callback runs while a control is being mutated.

use vstd::prelude::*;

verus! {

/// The queue of callbacks waiting to run, oldest first.
pub struct CallbackExecutor {
    queue: Vec<usize>,
}

impl View for CallbackExecutor {
    type V = Seq<usize>;

    closed spec fn view(&self) -> Seq<usize> {
        self.queue@
    }
}

impl CallbackExecutor {
    pub fn new() -> (e: Self)
        ensures
            e@ == Seq::<usize>::empty(),
    {
        CallbackExecutor { queue: Vec::new() }
    }

    /// The number of callbacks waiting.
    pub fn len(&self) -> (n: usize)
        ensures
            n == self@.len(),
    {
        self.queue.len()
    }

    /// Queues the callback `key` behind those already waiting.
    pub fn enqueue(&mut self, key: usize)
        ensures
            final(self)@ == old(self)@.push(key),
    {
        self.queue.push(key);
    }

    /// Empties the queue. Returns the keys of the callbacks to run, in the
    /// order in which they were queued.
    pub fn execute_all_in_queue(&mut self) -> (keys: Vec<usize>)
        ensures
            keys@ == old(self)@,
            final(self)@ == Seq::<usize>::empty(),
    {
        let mut keys: Vec<usize> = Vec::new();
        keys.append(&mut self.queue);
        assert(keys@ =~= old(self)@);
        keys
    }
}

/// A slot for one application callback, such as the `clicked` event of a
/// button. An empty slot ignores `emit`.
#[derive(Clone, Copy, Debug, PartialEq, Eq, Structural)]
pub struct Callback {
    pub key: Option<usize>,
}

impl Callback {
    /// What the queue `queue` holds after this callback was emitted.
    pub open spec fn queued(self, queue: Seq<usize>) -> Seq<usize> {
        match self.key {
            Some(key) => queue.push(key),
            None => queue,
        }
    }

    /// The empty slot.
    pub fn new() -> (c: Self)
        ensures
            c.key == None::<usize>,
    {
        Callback { key: None }
    }

    /// Puts the callback `key` into the slot, in place of any other.
    pub fn set(&mut self, key: usize)
        ensures
            final(self).key == Some(key),
    {
        self.key = Some(key);
    }

    /// Queues the callback on `executor`, if the slot holds one.
    pub fn emit(&self, executor: &mut CallbackExecutor)
        ensures
            final(executor)@ == self.queued(old(executor)@),
    {
        match self.key {
            Some(key) => executor.enqueue(key),
            None => {},
        }
    }
}

} // verus!
