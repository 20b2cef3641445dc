use fui::binding::PropertyGroup;
use fui::callback::{Callback, CallbackExecutor};
use fui::observable::{Event, EventSubscription, Handler};
use fui::property::Property;
use fui::style::PropertyDirtyExtension;

fn cb(key: usize) -> Handler {
    Handler::Callback { key }
}

#[test]
fn event_emits_in_subscription_order() {
    let mut event = Event::new();
    assert_eq!(event.len(), 0);
    assert_eq!(event.emit(), Vec::<Handler>::new());
    let a = event.subscribe(cb(7));
    let b = event.subscribe(Handler::MarkDirty { control: 3 });
    let c = event.subscribe(cb(1));
    assert_eq!((a.id, b.id, c.id), (0, 1, 2));
    assert_eq!(event.len(), 3);
    assert_eq!(event.emit(), vec![cb(7), Handler::MarkDirty { control: 3 }, cb(1)]);
}

#[test]
fn event_unsubscribe_removes_only_that_subscriber() {
    let mut event = Event::new();
    let _a = event.subscribe(cb(1));
    let b = event.subscribe(cb(2));
    let _c = event.subscribe(cb(3));
    assert!(event.unsubscribe(b));
    assert_eq!(event.emit(), vec![cb(1), cb(3)]);
    assert!(!event.unsubscribe(b));
    assert!(!event.unsubscribe(EventSubscription { id: 99 }));
    assert_eq!(event.emit(), vec![cb(1), cb(3)]);
    let d = event.subscribe(cb(4));
    assert_eq!(d.id, 3);
    assert_eq!(event.emit(), vec![cb(1), cb(3), cb(4)]);
}

#[test]
fn property_set_then_get() {
    let mut p = Property::new(5i32);
    assert_eq!(p.get(), 5);
    let fired = p.set(9);
    assert_eq!(p.get(), 9);
    assert!(fired.is_empty());
}

#[test]
fn property_set_notifies_each_subscriber_once_in_order() {
    let mut p = Property::new(0i32);
    p.on_changed(cb(10));
    p.on_changed(cb(20));
    assert_eq!(p.set(1), vec![cb(10), cb(20)]);
    assert_eq!(p.get(), 1);
}

#[test]
fn property_set_equal_value_fires_nothing() {
    let mut p = Property::new(4i32);
    p.on_changed(cb(1));
    let mut count = 0;
    count += p.set(4).len();
    assert_eq!(count, 0);
    assert_eq!(p.get(), 4);
    count += p.set(5).len();
    assert_eq!(count, 1);
    count += p.set(5).len();
    assert_eq!(count, 1);
}

#[test]
fn property_change_applies_function() {
    let mut p = Property::new(10i32);
    p.on_changed(cb(1));
    assert_eq!(p.change(|c| c + 1), vec![cb(1)]);
    assert_eq!(p.get(), 11);
    assert_eq!(p.change(|c| c), Vec::<Handler>::new());
    assert_eq!(p.get(), 11);
}

#[test]
fn property_unsubscribe_stops_notifications() {
    let mut p = Property::new(false);
    let sub = p.on_changed(cb(1));
    p.on_changed(cb(2));
    assert!(p.unsubscribe(sub));
    assert_eq!(p.set(true), vec![cb(2)]);
    assert!(!p.unsubscribe(sub));
}

#[test]
fn property_dirty_watching_subscribes_mark_dirty() {
    let mut p = Property::new(1i32);
    let sub = p.dirty_watching(6);
    assert_eq!(sub.id, 0);
    assert_eq!(p.set(2), vec![Handler::MarkDirty { control: 6 }]);
}

#[test]
fn group_add_get_set() {
    let mut g: PropertyGroup<i32> = PropertyGroup::new();
    let a = g.add(10);
    let b = g.add(0);
    assert_eq!((a, b), (0, 1));
    assert_eq!(g.len(), 2);
    assert_eq!(g.get(a), 10);
    assert_eq!(g.get(b), 0);
    assert_eq!(g.get_partner(a), None);
    g.on_changed(a, cb(1));
    assert_eq!(g.set(a, 3), vec![cb(1)]);
    assert_eq!(g.get(a), 3);
    assert_eq!(g.get(b), 0);
    assert_eq!(g.set(a, 3), Vec::<Handler>::new());
}

#[test]
fn group_bind_copies_value_and_links_both_ways() {
    let mut g: PropertyGroup<i32> = PropertyGroup::new();
    let counter = g.add(10);
    let counter2 = g.add(0);
    g.on_changed(counter, cb(1));
    g.on_changed(counter2, cb(2));
    let fired = g.bind(counter2, counter);
    assert_eq!(fired, vec![cb(2)]);
    assert_eq!(g.get(counter2), 10);
    assert_eq!(g.get(counter), 10);
    assert_eq!(g.get_partner(counter), Some(counter2));
    assert_eq!(g.get_partner(counter2), Some(counter));
}

#[test]
fn group_binding_is_idempotent() {
    let mut g: PropertyGroup<i32> = PropertyGroup::new();
    let a = g.add(10);
    let b = g.add(0);
    g.on_changed(a, cb(1));
    g.on_changed(b, cb(2));
    g.bind(b, a);
    let fired = g.bind(a, b);
    assert!(fired.is_empty());
    assert_eq!(g.get_partner(a), Some(b));
    assert_eq!(g.get_partner(b), Some(a));
    assert_eq!((g.get(a), g.get(b)), (10, 10));
}

#[test]
fn group_set_on_bound_pair_updates_both_and_notifies_once() {
    let mut g: PropertyGroup<i32> = PropertyGroup::new();
    let a = g.add(10);
    let b = g.add(0);
    g.on_changed(a, cb(1));
    g.on_changed(b, cb(2));
    g.bind(b, a);
    g.bind(a, b);
    assert_eq!(g.set(a, 42), vec![cb(1), cb(2)]);
    assert_eq!((g.get(a), g.get(b)), (42, 42));
    assert_eq!(g.set(b, 7), vec![cb(2), cb(1)]);
    assert_eq!((g.get(a), g.get(b)), (7, 7));
    assert_eq!(g.set(b, 7), Vec::<Handler>::new());
}

#[test]
fn group_change_on_bound_pair() {
    let mut g: PropertyGroup<i32> = PropertyGroup::new();
    let counter = g.add(10);
    let counter2 = g.add(0);
    g.bind(counter2, counter);
    g.bind(counter, counter2);
    g.change(counter, |c| c + 1);
    assert_eq!((g.get(counter), g.get(counter2)), (11, 11));
    g.change(counter, |c| c - 1);
    assert_eq!((g.get(counter), g.get(counter2)), (10, 10));
}

#[test]
fn group_bind_to_itself_does_nothing() {
    let mut g: PropertyGroup<i32> = PropertyGroup::new();
    let a = g.add(1);
    g.on_changed(a, cb(1));
    assert!(g.bind(a, a).is_empty());
    assert_eq!(g.get_partner(a), None);
    assert_eq!(g.get(a), 1);
}

#[test]
fn group_rebinding_drops_the_earlier_link() {
    let mut g: PropertyGroup<i32> = PropertyGroup::new();
    let a = g.add(1);
    let b = g.add(2);
    let c = g.add(3);
    g.bind(a, b);
    assert_eq!((g.get(a), g.get(b), g.get(c)), (2, 2, 3));
    g.bind(a, c);
    assert_eq!(g.get_partner(a), Some(c));
    assert_eq!(g.get_partner(c), Some(a));
    assert_eq!(g.get_partner(b), None);
    assert_eq!((g.get(a), g.get(b), g.get(c)), (3, 2, 3));
    g.set(a, 9);
    assert_eq!((g.get(a), g.get(b), g.get(c)), (9, 2, 9));
}

#[test]
fn group_unsubscribe() {
    let mut g: PropertyGroup<bool> = PropertyGroup::new();
    let a = g.add(false);
    let s1 = g.on_changed(a, cb(1));
    let _s2 = g.on_changed(a, cb(2));
    assert!(g.unsubscribe(a, s1));
    assert!(!g.unsubscribe(a, s1));
    assert_eq!(g.set(a, true), vec![cb(2)]);
}

#[test]
fn callback_executor_is_fifo_and_drains() {
    let mut executor = CallbackExecutor::new();
    assert_eq!(executor.len(), 0);
    executor.enqueue(3);
    executor.enqueue(1);
    executor.enqueue(3);
    assert_eq!(executor.len(), 3);
    assert_eq!(executor.execute_all_in_queue(), vec![3, 1, 3]);
    assert_eq!(executor.len(), 0);
    assert_eq!(executor.execute_all_in_queue(), Vec::<usize>::new());
}

#[test]
fn callback_emit_queues_its_key() {
    let mut executor = CallbackExecutor::new();
    let mut callback = Callback::new();
    callback.emit(&mut executor);
    assert_eq!(executor.len(), 0);
    callback.set(5);
    callback.emit(&mut executor);
    callback.emit(&mut executor);
    assert_eq!(executor.execute_all_in_queue(), vec![5, 5]);
}
