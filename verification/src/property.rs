//! Observable properties: a value cell that reports each change to its
//! subscribers.

use vstd::prelude::*;
use vstd::laws_eq::obeys_concrete_eq;
use crate::observable::{Event, EventSubscription, Handler, Subscriber};
use crate::style::PropertyDirtyExtension;
use crate::observable::{following_id, has_id, with_subscriber, without_id};

verus! {

/// A reactive value cell. Setting a value that equals the current one is a
/// no-op; any other value replaces it and is reported to every subscriber,
/// in subscription order.
pub struct Property<T> {
    value: T,
    changed: Event,
}

/// The handlers that `set(value)` fires for a property that holds `current`
/// and has the subscribers `handlers`: none if the value stays, else all.
pub open spec fn set_report<T>(current: T, handlers: Seq<Handler>, value: T) -> Seq<Handler> {
    if value == current {
        Seq::empty()
    } else {
        handlers
    }
}

impl<T: Copy + PartialEq> Property<T> {
    /// The current value.
    pub closed spec fn value(&self) -> T {
        self.value
    }

    /// The channel over which changes are reported.
    pub closed spec fn changed(&self) -> Event {
        self.changed
    }

    /// The handlers that a change is reported to, in subscription order.
    pub open spec fn handlers(&self) -> Seq<Handler> {
        self.changed().handlers()
    }

    /// `post` is this property after `set(value)`.
    pub open spec fn set_to(&self, post: &Self, value: T) -> bool {
        &&& post.value() == value
        &&& post.changed() == self.changed()
    }

    /// `post` is this property after `dirty_watching(control)`.
    pub open spec fn watched_by(&self, post: &Self, control: usize) -> bool {
        &&& post.value() == self.value()
        &&& post.changed().next_id() == following_id(self.changed().next_id())
        &&& post.changed().subscribers() == with_subscriber(
            self.changed().subscribers(),
            self.changed().next_id(),
            Handler::MarkDirty { control },
        )
    }

    pub fn new(value: T) -> (p: Self)
        ensures
            p.value() == value,
            p.changed().subscribers() == Seq::<Subscriber>::empty(),
            p.changed().next_id() == 0,
    {
        Property { value, changed: Event::new() }
    }

    pub fn get(&self) -> (v: T)
        ensures
            v == self.value(),
    {
        self.value
    }

    /// Stores `value`. Returns the handlers to run with the new value: none
    /// if the value did not change, else that of each subscriber, in
    /// subscription order.
    pub fn set(&mut self, value: T) -> (fired: Vec<Handler>)
        requires
            obeys_concrete_eq::<T>(),
        ensures
            final(self).value() == value,
            final(self).changed() == old(self).changed(),
            fired@ == set_report(old(self).value(), old(self).handlers(), value),
    {
        proof {
            reveal(obeys_concrete_eq);
        }
        if value == self.value {
            return Vec::new();
        }
        self.value = value;
        self.changed.emit()
    }

    /// Stores what `f` makes of the current value; a shorthand for
    /// `set(f(get()))`.
    pub fn change<F: FnOnce(T) -> T>(&mut self, f: F) -> (fired: Vec<Handler>)
        requires
            obeys_concrete_eq::<T>(),
            call_requires(f, (old(self).value(), )),
        ensures
            call_ensures(f, (old(self).value(), ), final(self).value()),
            final(self).changed() == old(self).changed(),
            fired@ == set_report(old(self).value(), old(self).handlers(), final(self).value()),
    {
        let next = f(self.value);
        self.set(next)
    }

    /// Subscribes `handler` to changes of the value.
    pub fn on_changed(&mut self, handler: Handler) -> (sub: EventSubscription)
        ensures
            final(self).value() == old(self).value(),
            sub.id == old(self).changed().next_id(),
            final(self).changed().next_id() == following_id(old(self).changed().next_id()),
            final(self).changed().subscribers() == with_subscriber(
                old(self).changed().subscribers(),
                old(self).changed().next_id(),
                handler,
            ),
    {
        self.changed.subscribe(handler)
    }

    /// Ends the subscription `sub`. Returns whether it was live.
    pub fn unsubscribe(&mut self, sub: EventSubscription) -> (found: bool)
        ensures
            final(self).value() == old(self).value(),
            final(self).changed().next_id() == old(self).changed().next_id(),
            found == has_id(old(self).changed().subscribers(), sub.id),
            final(self).changed().subscribers() == without_id(
                old(self).changed().subscribers(),
                sub.id,
            ),
    {
        self.changed.unsubscribe(sub)
    }
}

impl<T: Copy + PartialEq> PropertyDirtyExtension for Property<T> {
    open spec fn watchers(&self) -> Seq<Handler> {
        self.handlers()
    }

    open spec fn can_watch(&self) -> bool {
        self.changed().next_id() < u64::MAX
    }

    fn dirty_watching(&mut self, control: usize) -> (sub: EventSubscription)
        ensures
            final(self).value() == old(self).value(),
            sub.id == old(self).changed().next_id(),
            final(self).changed().next_id() == following_id(old(self).changed().next_id()),
            final(self).changed().subscribers() == with_subscriber(
                old(self).changed().subscribers(),
                old(self).changed().next_id(),
                Handler::MarkDirty { control },
            ),
    {
        let sub = self.on_changed(Handler::MarkDirty { control });
        assert(self.handlers() =~= if old(self).can_watch() {
            old(self).handlers().push(Handler::MarkDirty { control })
        } else {
            old(self).handlers()
        });
        sub
    }
}

/// A reactive cell that holds text. It behaves as [`Property`] does;
/// two texts are equal where they hold the same characters.
pub struct TextProperty {
    value: String,
    changed: Event,
}

impl TextProperty {
    /// The current text.
    pub closed spec fn text(&self) -> Seq<char> {
        self.value@
    }

    /// The channel over which changes are reported.
    pub closed spec fn changed(&self) -> Event {
        self.changed
    }

    /// The handlers that a change is reported to, in subscription order.
    pub open spec fn handlers(&self) -> Seq<Handler> {
        self.changed().handlers()
    }

    /// `post` is this property after `set` with the text `value`.
    pub open spec fn set_to(&self, post: &Self, value: Seq<char>) -> bool {
        &&& post.text() == value
        &&& post.changed() == self.changed()
    }

    pub fn new(value: String) -> (p: Self)
        ensures
            p.text() == value@,
            p.changed().subscribers() == Seq::<Subscriber>::empty(),
            p.changed().next_id() == 0,
    {
        TextProperty { value, changed: Event::new() }
    }

    pub fn get(&self) -> (v: String)
        ensures
            v@ == self.text(),
    {
        self.value.clone()
    }

    /// Stores `value`. Returns the handlers to run with the new text: none
    /// if the text did not change, else that of each subscriber, in
    /// subscription order.
    pub fn set(&mut self, value: String) -> (fired: Vec<Handler>)
        ensures
            old(self).set_to(final(self), value@),
            fired@ == set_report(old(self).text(), old(self).handlers(), value@),
    {
        if value == self.value {
            return Vec::new();
        }
        self.value = value;
        self.changed.emit()
    }

    /// Subscribes `handler` to changes of the text.
    pub fn on_changed(&mut self, handler: Handler) -> (sub: EventSubscription)
        ensures
            final(self).text() == old(self).text(),
            sub.id == old(self).changed().next_id(),
            final(self).changed().next_id() == following_id(old(self).changed().next_id()),
            final(self).changed().subscribers() == with_subscriber(
                old(self).changed().subscribers(),
                old(self).changed().next_id(),
                handler,
            ),
    {
        self.changed.subscribe(handler)
    }

    /// Ends the subscription `sub`. Returns whether it was live.
    pub fn unsubscribe(&mut self, sub: EventSubscription) -> (found: bool)
        ensures
            final(self).text() == old(self).text(),
            final(self).changed().next_id() == old(self).changed().next_id(),
            found == has_id(old(self).changed().subscribers(), sub.id),
            final(self).changed().subscribers() == without_id(
                old(self).changed().subscribers(),
                sub.id,
            ),
    {
        self.changed.unsubscribe(sub)
    }
}

impl PropertyDirtyExtension for TextProperty {
    open spec fn watchers(&self) -> Seq<Handler> {
        self.handlers()
    }

    open spec fn can_watch(&self) -> bool {
        self.changed().next_id() < u64::MAX
    }

    fn dirty_watching(&mut self, control: usize) -> (sub: EventSubscription)
        ensures
            final(self).text() == old(self).text(),
            sub.id == old(self).changed().next_id(),
            final(self).changed().next_id() == following_id(old(self).changed().next_id()),
            final(self).changed().subscribers() == with_subscriber(
                old(self).changed().subscribers(),
                old(self).changed().next_id(),
                Handler::MarkDirty { control },
            ),
    {
        let sub = self.on_changed(Handler::MarkDirty { control });
        assert(self.handlers() =~= if old(self).can_watch() {
            old(self).handlers().push(Handler::MarkDirty { control })
        } else {
            old(self).handlers()
        });
        sub
    }
}

} // verus!
