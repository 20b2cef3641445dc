//! Two-way binding between properties.
//!
//! Properties that can be bound to one another live together in a
//! [`PropertyGroup`] and are named by their index in it. A bound pair stays
//! in step: setting either one stores the value in both and reports it to the
//! subscribers of both, and the update never travels on from the partner.

use vstd::prelude::*;
use vstd::laws_eq::obeys_concrete_eq;
use crate::observable::{EventSubscription, Handler, Subscriber};
use crate::observable::{following_id, has_id, with_subscriber, without_id};
use crate::property::{set_report, Property};

verus! {

/// A set of properties of one value type, with the links between them.
pub struct PropertyGroup<T> {
    properties: Vec<Property<T>>,
    partners: Vec<Option<usize>>,
}

impl<T: Copy + PartialEq> PropertyGroup<T> {
    /// The number of properties in the group.
    pub closed spec fn count(&self) -> nat {
        self.properties@.len()
    }

    /// The property with index `id`.
    pub closed spec fn property(&self, id: int) -> Property<T> {
        self.properties@[id]
    }

    /// The binding partner of the property with index `id`, if it has one.
    pub closed spec fn partner(&self, id: int) -> Option<usize> {
        self.partners@[id]
    }

    /// The current value of the property with index `id`.
    pub open spec fn value(&self, id: int) -> T {
        self.property(id).value()
    }

    /// The handlers subscribed to the property with index `id`.
    pub open spec fn handlers(&self, id: int) -> Seq<Handler> {
        self.property(id).handlers()
    }

    /// Whether `id` names a property of the group.
    pub open spec fn contains(&self, id: usize) -> bool {
        id < self.count()
    }

    /// What holds of the property `i` and its partner: the partner is
    /// another property of the group, linked back to `i`, and the two hold
    /// the same value.
    pub open spec fn linked(&self, i: int) -> bool {
        match self.partner(i) {
            Some(j) => {
                &&& j < self.count()
                &&& j != i
                &&& (self.partner(j as int) matches Some(k) && k == i)
                &&& self.value(j as int) == self.value(i)
            },
            None => true,
        }
    }

    /// Links come in pairs, and a bound pair is in step.
    pub closed spec fn wf(&self) -> bool {
        &&& self.partners@.len() == self.properties@.len()
        &&& forall|i: int| 0 <= i < self.count() ==> #[trigger] self.linked(i)
    }

    /// What a well-formed group guarantees of each of its properties.
    pub proof fn lemma_wf(&self, id: int)
        requires
            self.wf(),
            0 <= id < self.count(),
        ensures
            self.linked(id),
    {
    }

    /// The state `post` differs from `pre` in values only.
    pub open spec fn same_shape(pre: &Self, post: &Self) -> bool {
        &&& post.count() == pre.count()
        &&& forall|i: int|
            0 <= i < pre.count() ==> {
                &&& #[trigger] post.partner(i) == pre.partner(i)
                &&& post.property(i).changed() == pre.property(i).changed()
            }
    }

    /// Whether `set(id, value)` stores `value` in the property `i`.
    pub open spec fn set_reaches(&self, id: usize, value: T, i: int) -> bool {
        value != self.value(id as int) && (i == id || (self.partner(id as int) matches Some(j)
            && j == i))
    }

    /// What `set(id, value)` reports: the change of the property itself to
    /// its own subscribers, then the change of its partner to the partner's.
    pub open spec fn set_fires(&self, id: usize, value: T) -> Seq<Handler> {
        if value == self.value(id as int) {
            Seq::empty()
        } else {
            self.handlers(id as int) + match self.partner(id as int) {
                Some(j) => self.handlers(j as int),
                None => Seq::empty(),
            }
        }
    }

    /// How `set(id, value)` takes a group from `pre` to `post`.
    pub open spec fn set_step(pre: &Self, post: &Self, id: usize, value: T) -> bool {
        &&& Self::same_shape(pre, post)
        &&& forall|i: int|
            0 <= i < pre.count() ==> #[trigger] post.value(i) == if pre.set_reaches(id, value, i) {
                value
            } else {
                pre.value(i)
            }
    }

    /// The partner that `bind(id, other)` leaves the property `i` with.
    pub open spec fn bind_partner(&self, id: usize, other: usize, i: int) -> Option<usize> {
        if id == other {
            self.partner(i)
        } else if i == id {
            Some(other)
        } else if i == other {
            Some(id)
        } else if self.partner(i) == Some(id) || self.partner(i) == Some(other) {
            None
        } else {
            self.partner(i)
        }
    }

    /// How `bind(id, other)` takes a group from `pre` to `post`.
    pub open spec fn bind_step(pre: &Self, post: &Self, id: usize, other: usize) -> bool {
        &&& post.count() == pre.count()
        &&& forall|i: int|
            0 <= i < pre.count() ==> {
                &&& #[trigger] post.partner(i) == pre.bind_partner(id, other, i)
                &&& post.property(i).changed() == pre.property(i).changed()
                &&& post.value(i) == if i == id {
                    pre.value(other as int)
                } else {
                    pre.value(i)
                }
            }
    }

    pub fn new() -> (g: Self)
        ensures
            g.wf(),
            g.count() == 0,
    {
        PropertyGroup { properties: Vec::new(), partners: Vec::new() }
    }

    pub fn len(&self) -> (n: usize)
        ensures
            n == self.count(),
    {
        self.properties.len()
    }

    /// Adds an unbound property without subscribers that holds `value`.
    /// Returns its index.
    pub fn add(&mut self, value: T) -> (id: usize)
        requires
            old(self).wf(),
        ensures
            final(self).wf(),
            id == old(self).count(),
            final(self).count() == old(self).count() + 1,
            final(self).value(id as int) == value,
            final(self).partner(id as int) == None::<usize>,
            final(self).property(id as int).changed().subscribers() == Seq::<Subscriber>::empty(),
            final(self).property(id as int).changed().next_id() == 0,
            forall|i: int|
                0 <= i < old(self).count() ==> {
                    &&& #[trigger] final(self).property(i) == old(self).property(i)
                    &&& final(self).partner(i) == old(self).partner(i)
                },
    {
        let id = self.properties.len();
        self.properties.push(Property::new(value));
        self.partners.push(None);
        assert forall|i: int| 0 <= i < self.count() implies #[trigger] self.linked(i) by {
            if i < id {
                assert(old(self).linked(i));
                assert(self.partner(i) == old(self).partner(i));
            }
        }
        id
    }

    pub fn get(&self, id: usize) -> (v: T)
        requires
            self.contains(id),
        ensures
            v == self.value(id as int),
    {
        self.properties[id].get()
    }

    /// The binding partner of the property `id`.
    pub fn get_partner(&self, id: usize) -> (p: Option<usize>)
        requires
            self.wf(),
            self.contains(id),
        ensures
            p == self.partner(id as int),
    {
        self.partners[id]
    }

    /// Stores `value` in the property `id` and, if that changed it, in its
    /// binding partner. Returns the handlers to run.
    pub fn set(&mut self, id: usize, value: T) -> (fired: Vec<Handler>)
        requires
            obeys_concrete_eq::<T>(),
            old(self).wf(),
            old(self).contains(id),
        ensures
            final(self).wf(),
            Self::set_step(old(self), final(self), id, value),
            fired@ == old(self).set_fires(id, value),
    {
        proof {
            reveal(obeys_concrete_eq);
        }
        if value == self.properties[id].get() {
            return Vec::new();
        }
        let mut fired = self.properties[id].set(value);
        assert(self.properties@ =~= old(self).properties@.update(id as int, self.property(id as int)));
        let ghost mid = *self;
        assert(self.partners@ == old(self).partners@);
        match self.partners[id] {
            Some(j) => {
                assert(old(self).partner(id as int) == Some(j));
                proof {
                    old(self).lemma_wf(id as int);
                }
                let mut more = self.properties[j].set(value);
                assert(self.properties@ =~= mid.properties@.update(j as int, self.property(j as int)));
                assert(self.property(j as int).value() == value);
                assert(j != id);
                assert(self.property(id as int) == mid.property(id as int));
                fired.append(&mut more);
            },
            None => {},
        }
        assert(self.count() == old(self).count());
        assert forall|i: int| 0 <= i < old(self).count() implies #[trigger] self.value(i) == if old(
            self,
        ).set_reaches(id, value, i) {
            value
        } else {
            old(self).value(i)
        } by {
            old(self).lemma_wf(id as int);
            if i == id {
                assert(mid.property(i).value() == value);
            } else if old(self).partner(id as int) matches Some(j) && j == i {
            } else {
                assert(mid.property(i) == old(self).property(i));
                assert(self.property(i) == mid.property(i));
            }
        }
        assert forall|i: int| 0 <= i < self.count() implies #[trigger] self.linked(i) by {
            assert(self.partner(i) == old(self).partner(i));
            old(self).lemma_wf(i);
            old(self).lemma_wf(id as int);
            match old(self).partner(i) {
                Some(k) => {
                    old(self).lemma_wf(k as int);
                    assert(self.partner(k as int) == old(self).partner(k as int));
                },
                None => {},
            }
        }
        fired
    }

    /// Stores what `f` makes of the current value of the property `id`; a
    /// shorthand for `set(id, f(get(id)))`.
    pub fn change<F: FnOnce(T) -> T>(&mut self, id: usize, f: F) -> (fired: Vec<Handler>)
        requires
            obeys_concrete_eq::<T>(),
            old(self).wf(),
            old(self).contains(id),
            call_requires(f, (old(self).value(id as int), )),
        ensures
            final(self).wf(),
            exists|value: T|
                {
                    &&& call_ensures(f, (old(self).value(id as int), ), value)
                    &&& Self::set_step(old(self), final(self), id, value)
                    &&& fired@ == old(self).set_fires(id, value)
                },
    {
        let next = f(self.properties[id].get());
        self.set(id, next)
    }

    /// Binds the property `id` to the property `other`, both ways. An
    /// earlier link of either one is dropped. The property `id` takes the
    /// value of `other` at once, and its subscribers are told if that
    /// changed it. Binding a property to itself does nothing.
    pub fn bind(&mut self, id: usize, other: usize) -> (fired: Vec<Handler>)
        requires
            obeys_concrete_eq::<T>(),
            old(self).wf(),
            old(self).contains(id),
            old(self).contains(other),
        ensures
            final(self).wf(),
            Self::bind_step(old(self), final(self), id, other),
            fired@ == if id == other {
                Seq::empty()
            } else {
                set_report(
                    old(self).value(id as int),
                    old(self).handlers(id as int),
                    old(self).value(other as int),
                )
            },
    {
        if id == other {
            return Vec::new();
        }
        proof {
            old(self).lemma_wf(id as int);
            old(self).lemma_wf(other as int);
        }
        match self.partners[id] {
            Some(p) => {
                self.partners[p] = None;
            },
            None => {},
        }
        match self.partners[other] {
            Some(q) => {
                self.partners[q] = None;
            },
            None => {},
        }
        self.partners[id] = Some(other);
        self.partners[other] = Some(id);
        assert(self.properties@ == old(self).properties@);
        assert forall|i: int| 0 <= i < old(self).count() implies #[trigger] self.partner(i) == old(
            self,
        ).bind_partner(id, other, i) by {
            old(self).lemma_wf(i);
        }
        let ghost relinked = *self;
        let value = self.properties[other].get();
        let fired = self.properties[id].set(value);
        assert(self.properties@ =~= old(self).properties@.update(
            id as int,
            self.property(id as int),
        ));
        assert forall|i: int| 0 <= i < self.count() implies #[trigger] self.linked(i) by {
            old(self).lemma_wf(i);
            match old(self).partner(i) {
                Some(k) => {
                    old(self).lemma_wf(k as int);
                },
                None => {},
            }
        }
        assert forall|i: int| 0 <= i < old(self).count() implies {
            &&& #[trigger] self.partner(i) == old(self).bind_partner(id, other, i)
            &&& self.property(i).changed() == old(self).property(i).changed()
            &&& self.value(i) == if i == id {
                old(self).value(other as int)
            } else {
                old(self).value(i)
            }
        } by {
            assert(self.partner(i) == relinked.partner(i));
        }
        fired
    }

    /// Subscribes `handler` to changes of the property `id`.
    pub fn on_changed(&mut self, id: usize, handler: Handler) -> (sub: EventSubscription)
        requires
            old(self).wf(),
            old(self).contains(id),
        ensures
            final(self).wf(),
            Self::subscribers_step(old(self), final(self), id),
            sub.id == old(self).property(id as int).changed().next_id(),
            final(self).property(id as int).changed().next_id() == following_id(sub.id),
            final(self).property(id as int).changed().subscribers() == with_subscriber(
                old(self).property(id as int).changed().subscribers(),
                sub.id,
                handler,
            ),
    {
        proof {
            old(self).lemma_wf(id as int);
        }
        let sub = self.properties[id].on_changed(handler);
        proof {
            self.lemma_subscribers_step(old(self), id);
        }
        sub
    }

    /// Ends the subscription `sub` to the property `id`. Returns whether it
    /// was live.
    pub fn unsubscribe(&mut self, id: usize, sub: EventSubscription) -> (found: bool)
        requires
            old(self).wf(),
            old(self).contains(id),
        ensures
            final(self).wf(),
            Self::subscribers_step(old(self), final(self), id),
            found == has_id(old(self).property(id as int).changed().subscribers(), sub.id),
            final(self).property(id as int).changed().next_id() == old(self).property(
                id as int,
            ).changed().next_id(),
            final(self).property(id as int).changed().subscribers() == without_id(
                old(self).property(id as int).changed().subscribers(),
                sub.id,
            ),
    {
        proof {
            old(self).lemma_wf(id as int);
        }
        let found = self.properties[id].unsubscribe(sub);
        proof {
            self.lemma_subscribers_step(old(self), id);
        }
        found
    }

    /// The state `post` differs from `pre` in the subscribers of the
    /// property `id` only.
    pub open spec fn subscribers_step(pre: &Self, post: &Self, id: usize) -> bool {
        &&& post.count() == pre.count()
        &&& forall|i: int|
            0 <= i < pre.count() ==> {
                &&& #[trigger] post.partner(i) == pre.partner(i)
                &&& post.value(i) == pre.value(i)
                &&& i != id ==> post.property(i) == pre.property(i)
            }
    }

    proof fn lemma_subscribers_step(&self, pre: &Self, id: usize)
        requires
            pre.wf(),
            pre.contains(id),
            self.partners@ == pre.partners@,
            self.properties@ == pre.properties@.update(id as int, self.properties@[id as int]),
            self.properties@.len() == pre.properties@.len(),
            self.value(id as int) == pre.value(id as int),
        ensures
            self.wf(),
            Self::subscribers_step(pre, self, id),
    {
        assert forall|i: int| 0 <= i < self.count() implies #[trigger] self.linked(i) by {
            pre.lemma_wf(i);
        }
    }

    /// Setting one property of a bound pair leaves both holding the new
    /// value, and reports it once to each subscriber of either: first to
    /// those of the property that was set, then to those of its partner.
    /// Setting the value that the pair already holds reports nothing.
    pub proof fn law_bound_pair_in_step(pre: &Self, post: &Self, a: usize, b: usize, value: T)
        requires
            pre.wf(),
            pre.contains(a),
            pre.partner(a as int) == Some(b),
            Self::set_step(pre, post, a, value),
        ensures
            post.value(a as int) == value,
            post.value(b as int) == value,
            pre.set_fires(a, value) == if value == pre.value(a as int) {
                Seq::<Handler>::empty()
            } else {
                pre.handlers(a as int) + pre.handlers(b as int)
            },
    {
        pre.lemma_wf(a as int);
    }

    /// Binding is idempotent: once `a` is bound to `b`, binding `b` to `a`
    /// changes no link and no value and reports nothing.
    pub proof fn law_bind_idempotent(pre: &Self, post: &Self, a: usize, b: usize)
        requires
            pre.wf(),
            pre.contains(a),
            pre.partner(a as int) == Some(b),
            Self::bind_step(pre, post, b, a),
        ensures
            forall|i: int|
                0 <= i < pre.count() ==> {
                    &&& #[trigger] post.partner(i) == pre.partner(i)
                    &&& post.value(i) == pre.value(i)
                },
            set_report(pre.value(b as int), pre.handlers(b as int), pre.value(a as int))
                == Seq::<Handler>::empty(),
    {
        pre.lemma_wf(a as int);
        assert forall|i: int| 0 <= i < pre.count() implies {
            &&& #[trigger] post.partner(i) == pre.partner(i)
            &&& post.value(i) == pre.value(i)
        } by {
            pre.lemma_wf(i);
        }
    }
}

} // verus!
