//! Multicast events and observable properties.
//!
//! A subscriber is recorded as a [`Handler`], a plain value that says what is
//! to happen when the event fires. Emitting an event returns the handlers to
//! run, in subscription order; whoever owns the control tree and the callback
//! queue carries them out.

use vstd::prelude::*;

verus! {

/// What a subscription asks for when its event fires.
#[derive(Clone, Copy, Debug, PartialEq, Eq, Structural)]
pub enum Handler {
    /// Mark the control with this id dirty.
    MarkDirty { control: usize },
    /// Run the application callback registered under this key.
    Callback { key: usize },
}

/// The handle of one subscription. Releasing it through `unsubscribe`
/// removes the subscriber at once.
#[derive(Clone, Copy, Debug, PartialEq, Eq, Structural)]
pub struct EventSubscription {
    pub id: u64,
}

/// One entry of an event's subscriber list.
#[derive(Clone, Copy, Debug, PartialEq, Eq, Structural)]
pub struct Subscriber {
    pub id: u64,
    pub handler: Handler,
}

/// The handlers of a subscriber list, in order.
pub open spec fn handlers_of(subscribers: Seq<Subscriber>) -> Seq<Handler> {
    Seq::new(subscribers.len(), |i: int| subscribers[i].handler)
}

/// Whether some subscriber of the list carries `id`.
pub open spec fn has_id(subscribers: Seq<Subscriber>, id: u64) -> bool {
    exists|i: int| 0 <= i < subscribers.len() && subscribers[i].id == id
}

/// The subscriber list with the entry that carries `id` taken out.
pub open spec fn without_id(subscribers: Seq<Subscriber>, id: u64) -> Seq<Subscriber> {
    subscribers.filter(|s: Subscriber| s.id != id)
}

/// The subscriber list after one more subscription: `handler` comes last,
/// under the id `next_id`. Once the ids are used up the list stays as it is.
pub open spec fn with_subscriber(subscribers: Seq<Subscriber>, next_id: u64, handler: Handler) -> Seq<
    Subscriber,
> {
    if next_id < u64::MAX {
        subscribers.push(Subscriber { id: next_id, handler })
    } else {
        subscribers
    }
}

/// The id that follows `next_id`.
pub open spec fn following_id(next_id: u64) -> u64 {
    if next_id < u64::MAX {
        (next_id + 1) as u64
    } else {
        next_id
    }
}

/// A multicast notification channel.
pub struct Event {
    subscribers: Vec<Subscriber>,
    next_id: u64,
}

impl Event {
    /// The subscribers, oldest first.
    pub closed spec fn subscribers(&self) -> Seq<Subscriber> {
        self.subscribers@
    }

    /// The id that the next subscription will get.
    pub closed spec fn next_id(&self) -> u64 {
        self.next_id
    }

    /// The handlers that `emit` returns.
    pub open spec fn handlers(&self) -> Seq<Handler> {
        handlers_of(self.subscribers())
    }

    pub fn new() -> (e: Event)
        ensures
            e.subscribers() == Seq::<Subscriber>::empty(),
            e.next_id() == 0,
    {
        Event { subscribers: Vec::new(), next_id: 0 }
    }

    /// The number of live subscriptions.
    pub fn len(&self) -> (n: usize)
        ensures
            n == self.subscribers().len(),
    {
        self.subscribers.len()
    }

    /// Registers `handler` behind all earlier subscribers and returns the
    /// handle of the subscription.
    pub fn subscribe(&mut self, handler: Handler) -> (sub: EventSubscription)
        ensures
            sub.id == old(self).next_id(),
            final(self).next_id() == following_id(old(self).next_id()),
            final(self).subscribers() == with_subscriber(
                old(self).subscribers(),
                old(self).next_id(),
                handler,
            ),
    {
        let id: u64 = self.next_id;
        if id < u64::MAX {
            self.next_id = id + 1;
            self.subscribers.push(Subscriber { id, handler });
        }
        EventSubscription { id }
    }

    /// Removes the subscriber that `sub` stands for. Returns whether there
    /// was one.
    pub fn unsubscribe(&mut self, sub: EventSubscription) -> (found: bool)
        ensures
            final(self).next_id() == old(self).next_id(),
            found == has_id(old(self).subscribers(), sub.id),
            final(self).subscribers() == without_id(old(self).subscribers(), sub.id),
    {
        let mut kept: Vec<Subscriber> = Vec::new();
        let mut found: bool = false;
        let mut i: usize = 0;
        proof {
            reveal(Seq::filter);
        }
        while i < self.subscribers.len()
            invariant
                i <= self.subscribers@.len(),
                kept@ == without_id(self.subscribers@.take(i as int), sub.id),
                found == has_id(self.subscribers@.take(i as int), sub.id),
            decreases self.subscribers.len() - i,
        {
            let ghost seen = self.subscribers@.take(i as int);
            let ghost next = self.subscribers@.take(i as int + 1);
            let entry = self.subscribers[i];
            proof {
                reveal(Seq::filter);
                assert(next.drop_last() =~= seen);
                assert(next.last() == entry);
                if has_id(seen, sub.id) {
                    let k = choose|k: int| 0 <= k < seen.len() && seen[k].id == sub.id;
                    assert(next[k].id == sub.id);
                }
                if has_id(next, sub.id) && entry.id != sub.id {
                    let k = choose|k: int| 0 <= k < next.len() && next[k].id == sub.id;
                    assert(seen[k].id == sub.id);
                }
            }
            if entry.id == sub.id {
                found = true;
                assert(next[i as int].id == sub.id);
            } else {
                kept.push(entry);
            }
            i += 1;
        }
        assert(self.subscribers@.take(i as int) =~= self.subscribers@);
        self.subscribers = kept;
        found
    }

    /// The handlers to run for one firing of the event, in subscription order.
    pub fn emit(&self) -> (fired: Vec<Handler>)
        ensures
            fired@ == self.handlers(),
    {
        let mut fired: Vec<Handler> = Vec::new();
        let mut i: usize = 0;
        while i < self.subscribers.len()
            invariant
                i <= self.subscribers@.len(),
                fired@ == handlers_of(self.subscribers@.take(i as int)),
            decreases self.subscribers.len() - i,
        {
            fired.push(self.subscribers[i].handler);
            i += 1;
            assert(fired@ =~= handlers_of(self.subscribers@.take(i as int)));
        }
        assert(self.subscribers@.take(i as int) =~= self.subscribers@);
        fired
    }
}

} // verus!
