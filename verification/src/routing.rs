//! Event routing: which control a point targets, which controls a gesture
//! goes to, and the delivery of events to controls.

use vstd::prelude::*;
use crate::callback::CallbackExecutor;
use crate::common::{HitTestResult, Point};
use crate::control::{callback_keys, Control, ControlTree};
use crate::events::{ControlEvent, Gesture, GestureDetectorCore, InputEvent};
use crate::observable::Handler;
use crate::style::Style;

verus! {

/// One event on its way to one control.
#[derive(Clone, Copy, Debug, PartialEq, Eq, Structural)]
pub struct Delivery {
    pub control: usize,
    pub event: ControlEvent,
}

/// What one gesture leads to: the events to deliver, in order, and the
/// hovered and the captured control afterwards.
pub struct Route {
    pub deliveries: Seq<Delivery>,
    pub hover: Option<usize>,
    pub captured: Option<usize>,
}

/// The events that tell of the pointer going from over `hover` to over
/// `hit`: the control left hears of it before the control entered, and
/// nothing is sent while the pointer stays over the same control.
pub open spec fn hover_change(hover: Option<usize>, hit: Option<usize>) -> Seq<Delivery> {
    if hover == hit {
        Seq::empty()
    } else {
        (match hover {
            Some(left) => seq![Delivery { control: left, event: ControlEvent::HoverLeave }],
            None => Seq::empty(),
        }) + (match hit {
            Some(entered) => seq![Delivery { control: entered, event: ControlEvent::HoverEnter }],
            None => Seq::empty(),
        })
    }
}

/// Where `gesture` goes, for a pointer over `hit`, with `hover` the control
/// last hovered and `captured` the control that holds the pointer.
///
/// A tap down goes to the control hit, which holds the pointer from then on.
/// A tap up goes to the control that holds the pointer and releases it. A
/// move goes to the control that holds the pointer; while none does, a move
/// updates which control is hovered and then goes to the control hit.
pub open spec fn routed(
    hover: Option<usize>,
    captured: Option<usize>,
    gesture: Gesture,
    hit: Option<usize>,
) -> Route {
    match gesture {
        Gesture::TapDown { position } => match hit {
            Some(target) => Route {
                deliveries: seq![
                    Delivery { control: target, event: ControlEvent::TapDown { position } },
                ],
                hover,
                captured: Some(target),
            },
            None => Route { deliveries: Seq::empty(), hover, captured },
        },
        Gesture::TapUp { position } => Route {
            deliveries: match captured {
                Some(holder) => seq![
                    Delivery { control: holder, event: ControlEvent::TapUp { position } },
                ],
                None => Seq::empty(),
            },
            hover,
            captured: None,
        },
        Gesture::TapMove { position } => match captured {
            Some(holder) => Route {
                deliveries: seq![
                    Delivery { control: holder, event: ControlEvent::TapMove { position } },
                ],
                hover,
                captured,
            },
            None => Route {
                deliveries: hover_change(hover, hit) + match hit {
                    Some(target) => seq![
                        Delivery { control: target, event: ControlEvent::TapMove { position } },
                    ],
                    None => Seq::empty(),
                },
                hover: hit,
                captured,
            },
        },
    }
}

/// The position at which a gesture takes place.
pub open spec fn position_of(gesture: Gesture) -> Point {
    match gesture {
        Gesture::TapDown { position } => position,
        Gesture::TapUp { position } => position,
        Gesture::TapMove { position } => position,
    }
}

/// Routes gestures to controls, remembering which control is hovered and
/// which one holds the pointer.
pub struct EventProcessor {
    pub hover_control: Option<usize>,
    pub captured_control: Option<usize>,
    pub gesture_detector: GestureDetectorCore,
}

impl EventProcessor {
    pub fn new() -> (processor: Self)
        ensures
            processor.hover_control == None::<usize>,
            processor.captured_control == None::<usize>,
            processor.gesture_detector.mouse_pos() == (Point { x: 0, y: 0 }),
    {
        EventProcessor {
            hover_control: None,
            captured_control: None,
            gesture_detector: GestureDetectorCore::new(),
        }
    }

    /// Decides where `gesture` goes, given the control `hit` under the
    /// pointer. Returns the events to deliver, in order.
    pub fn route(&mut self, gesture: Gesture, hit: Option<usize>) -> (deliveries: Vec<Delivery>)
        ensures
            (Route {
                deliveries: deliveries@,
                hover: final(self).hover_control,
                captured: final(self).captured_control,
            }) == routed(old(self).hover_control, old(self).captured_control, gesture, hit),
            final(self).gesture_detector == old(self).gesture_detector,
    {
        let mut deliveries: Vec<Delivery> = Vec::new();
        match gesture {
            Gesture::TapDown { position } => {
                match hit {
                    Some(target) => {
                        self.captured_control = Some(target);
                        deliveries.push(
                            Delivery { control: target, event: ControlEvent::TapDown { position } },
                        );
                    },
                    None => {},
                }
            },
            Gesture::TapUp { position } => {
                match self.captured_control {
                    Some(holder) => {
                        deliveries.push(
                            Delivery { control: holder, event: ControlEvent::TapUp { position } },
                        );
                    },
                    None => {},
                }
                self.captured_control = None;
            },
            Gesture::TapMove { position } => {
                match self.captured_control {
                    Some(holder) => {
                        deliveries.push(
                            Delivery { control: holder, event: ControlEvent::TapMove { position } },
                        );
                    },
                    None => {
                        if self.hover_control != hit {
                            match self.hover_control {
                                Some(left) => {
                                    deliveries.push(
                                        Delivery { control: left, event: ControlEvent::HoverLeave },
                                    );
                                },
                                None => {},
                            }
                            match hit {
                                Some(entered) => {
                                    deliveries.push(
                                        Delivery {
                                            control: entered,
                                            event: ControlEvent::HoverEnter,
                                        },
                                    );
                                },
                                None => {},
                            }
                            self.hover_control = hit;
                        }
                        match hit {
                            Some(target) => {
                                deliveries.push(
                                    Delivery {
                                        control: target,
                                        event: ControlEvent::TapMove { position },
                                    },
                                );
                            },
                            None => {},
                        }
                    },
                }
            },
        }
        assert(deliveries@ =~= routed(
            old(self).hover_control,
            old(self).captured_control,
            gesture,
            hit,
        ).deliveries);
        deliveries
    }

    /// A pointer that comes to lie over a control, stays there and goes
    /// away again sends that control one `HoverEnter`, then no further one
    /// while it moves about over the control, then one `HoverLeave`. Each
    /// move over the control reaches it as a `TapMove`, after the hover
    /// event if there is one.
    pub proof fn law_hover_sequence(control: usize, first: Point, second: Point, third: Point)
        ensures
            ({
                let enter = routed(None, None, Gesture::TapMove { position: first }, Some(control));
                let stay = routed(
                    enter.hover,
                    enter.captured,
                    Gesture::TapMove { position: second },
                    Some(control),
                );
                let leave = routed(
                    stay.hover,
                    stay.captured,
                    Gesture::TapMove { position: third },
                    None,
                );
                &&& enter.deliveries == seq![
                    Delivery { control, event: ControlEvent::HoverEnter },
                    Delivery { control, event: ControlEvent::TapMove { position: first } },
                ]
                &&& stay.deliveries == seq![
                    Delivery { control, event: ControlEvent::TapMove { position: second } },
                ]
                &&& leave.deliveries == seq![Delivery { control, event: ControlEvent::HoverLeave }]
                &&& leave.hover == None::<usize>
            }),
    {
        let enter = routed(None, None, Gesture::TapMove { position: first }, Some(control));
        assert(enter.deliveries =~= seq![
            Delivery { control, event: ControlEvent::HoverEnter },
            Delivery { control, event: ControlEvent::TapMove { position: first } },
        ]);
        let stay = routed(
            enter.hover,
            enter.captured,
            Gesture::TapMove { position: second },
            Some(control),
        );
        assert(stay.deliveries =~= seq![
            Delivery { control, event: ControlEvent::TapMove { position: second } },
        ]);
        let leave = routed(stay.hover, stay.captured, Gesture::TapMove { position: third }, None);
        assert(leave.deliveries =~= seq![Delivery { control, event: ControlEvent::HoverLeave }]);
    }

    /// A control hears `HoverEnter` only when the pointer was not over it
    /// before, and is the hovered control from then on: between two
    /// `HoverEnter` to one control lies a move that took the pointer away.
    pub proof fn law_no_second_enter(
        hover: Option<usize>,
        captured: Option<usize>,
        gesture: Gesture,
        hit: Option<usize>,
        k: int,
    )
        requires
            0 <= k < routed(hover, captured, gesture, hit).deliveries.len(),
            routed(hover, captured, gesture, hit).deliveries[k].event == ControlEvent::HoverEnter,
        ensures
            hover != Some(routed(hover, captured, gesture, hit).deliveries[k].control),
            routed(hover, captured, gesture, hit).hover == Some(
                routed(hover, captured, gesture, hit).deliveries[k].control,
            ),
    {
    }
}

impl<D, S: Style<D>> ControlTree<D, S> {
    /// The control beneath `i` that `point` targets: the topmost child
    /// with a target wins, deepest match first; where no child has one, the
    /// control itself is the target if its style says so.
    pub open spec fn target_of(&self, i: int, point: Point) -> Option<int>
        decreases i, 1int, 0int,
    {
        if 0 <= i < self.count() {
            match self.target_below(i, self.children(i).len() as int, point) {
                Some(target) => Some(target),
                None => if self.controls()[i].style.hit(&self.controls()[i].data, point)
                    == HitTestResult::Current {
                    Some(i)
                } else {
                    None
                },
            }
        } else {
            None
        }
    }

    /// The target among the first `n` children of the control `i`. A later
    /// child lies on top of an earlier one and is asked first.
    pub open spec fn target_below(&self, i: int, n: int, point: Point) -> Option<int>
        decreases i, 0int, n,
    {
        if 0 < n <= self.children(i).len() {
            let child = self.children(i)[n - 1];
            let hit = if child < i {
                self.target_of(child as int, point)
            } else {
                None
            };
            match hit {
                Some(target) => Some(target),
                None => self.target_below(i, n - 1, point),
            }
        } else {
            None
        }
    }

    /// The control beneath `root` that `point` targets, if there is one.
    pub fn hit_test(&self, root: usize, point: Point) -> (target: Option<usize>)
        requires
            self.wf(),
            self.contains(root),
        ensures
            match target {
                Some(t) => self.target_of(root as int, point) == Some(t as int),
                None => self.target_of(root as int, point) == None::<int>,
            },
    {
        let mut targets: Vec<Option<usize>> = Vec::new();
        let mut i: usize = 0;
        while i <= root
            invariant
                i <= root + 1,
                root < self.count(),
                self.wf(),
                targets@.len() == i,
                forall|j: int|
                    0 <= j < i ==> match #[trigger] targets@[j] {
                        Some(t) => self.target_of(j, point) == Some(t as int),
                        None => self.target_of(j, point) == None::<int>,
                    },
            decreases root + 1 - i,
        {
            assert(self.linked(i as int));
            let control = &self.controls[i];
            let mut found: Option<usize> = None;
            let mut k: usize = control.children.len();
            while k > 0 && found.is_none()
                invariant
                    i < self.count(),
                    self.linked(i as int),
                    *control == self.controls()[i as int],
                    k <= self.children(i as int).len(),
                    targets@.len() == i,
                    forall|j: int|
                        0 <= j < i ==> match #[trigger] targets@[j] {
                            Some(t) => self.target_of(j, point) == Some(t as int),
                            None => self.target_of(j, point) == None::<int>,
                        },
                    match found {
                        Some(t) => self.target_below(
                            i as int,
                            self.children(i as int).len() as int,
                            point,
                        ) == Some(t as int),
                        None => self.target_below(
                            i as int,
                            self.children(i as int).len() as int,
                            point,
                        ) == self.target_below(i as int, k as int, point),
                    },
                decreases k,
            {
                k -= 1;
                let child = control.children[k];
                assert(child == self.children(i as int)[k as int]);
                found = targets[child];
            }
            let own = match found {
                Some(t) => Some(t),
                None => match control.style.hit_test(&control.data, point) {
                    HitTestResult::Current => Some(i),
                    HitTestResult::Nothing => None,
                },
            };
            targets.push(own);
            i += 1;
        }
        targets[root]
    }

    /// How the event `event`, delivered to the control `id`, takes tree and
    /// callback queue from `pre`, `queue` to `post`, `queued`: the style of
    /// the control handles the event, the controls named by what it fired
    /// are marked dirty, and the callbacks it fired are queued.
    pub open spec fn delivers(
        pre: &Self,
        post: &Self,
        id: usize,
        event: ControlEvent,
        consumed: bool,
        queue: Seq<usize>,
        queued: Seq<usize>,
    ) -> bool {
        exists|fired: Seq<Handler>|
            {
                &&& #[trigger] pre.controls()[id as int].style.handles(
                    &pre.controls()[id as int].data,
                    event,
                    &post.controls()[id as int].style,
                    &post.controls()[id as int].data,
                    consumed,
                    fired,
                )
                &&& post.count() == pre.count()
                &&& forall|j: int|
                    0 <= j < pre.count() ==> (#[trigger] post.controls()[j]) == (Control {
                        style: if j == id {
                            post.controls()[j].style
                        } else {
                            pre.controls()[j].style
                        },
                        data: if j == id {
                            post.controls()[j].data
                        } else {
                            pre.controls()[j].data
                        },
                        is_dirty: pre.dirty(j) || pre.marks(fired, j),
                        ..pre.controls()[j]
                    })
                &&& queued == queue + callback_keys(fired)
            }
    }

    /// Delivers `event` to the control `id`. Returns whether the control
    /// consumed it. The event goes to that control alone: routing it on is
    /// up to the caller.
    pub fn handle_event(
        &mut self,
        id: usize,
        event: ControlEvent,
        executor: &mut CallbackExecutor,
    ) -> (consumed: bool)
        requires
            old(self).wf(),
            old(self).contains(id),
        ensures
            final(self).wf(),
            Self::delivers(
                old(self),
                final(self),
                id,
                event,
                consumed,
                old(executor)@,
                final(executor)@,
            ),
    {
        let control = &mut self.controls[id];
        let (consumed, fired) = control.style.handle_event(&mut control.data, event);
        let ghost handled = *self;
        proof {
            assert(handled.controls()[id as int] == (Control {
                style: handled.controls()[id as int].style,
                data: handled.controls()[id as int].data,
                ..old(self).controls()[id as int]
            }));
            assert forall|j: int| 0 <= j < handled.count() implies #[trigger] handled.linked(
                j,
            ) by {
                assert(old(self).linked(j));
            }
        }
        self.dispatch(&fired, executor);
        proof {
            assert forall|j: int| 0 <= j < old(self).count() implies handled.marks(fired@, j)
                == old(self).marks(fired@, j) by {
                assert forall|c: int| 0 <= c < old(self).count() implies handled.in_chain(j, c)
                    == old(self).in_chain(j, c) by {
                    Self::lemma_chain_same(old(self), &handled, j, c);
                }
                if handled.marks(fired@, j) {
                    let k = choose|k: int|
                        0 <= k < fired@.len() && match #[trigger] fired@[k] {
                            Handler::MarkDirty { control } => control < handled.count()
                                && handled.in_chain(j, control as int),
                            Handler::Callback { .. } => false,
                        };
                    assert(old(self).marks(fired@, j));
                }
                if old(self).marks(fired@, j) {
                    let k = choose|k: int|
                        0 <= k < fired@.len() && match #[trigger] fired@[k] {
                            Handler::MarkDirty { control } => control < old(self).count() && old(
                                self,
                            ).in_chain(j, control as int),
                            Handler::Callback { .. } => false,
                        };
                    assert(handled.marks(fired@, j));
                }
            }
            assert(self.controls()[id as int].style == handled.controls()[id as int].style);
            assert(self.controls()[id as int].data == handled.controls()[id as int].data);
            assert(old(self).controls()[id as int].style.handles(
                &old(self).controls()[id as int].data,
                event,
                &self.controls()[id as int].style,
                &self.controls()[id as int].data,
                consumed,
                fired@,
            ));
            assert forall|j: int| 0 <= j < old(self).count() implies (#[trigger] self.controls()[j])
                == (Control {
                style: if j == id {
                    self.controls()[j].style
                } else {
                    old(self).controls()[j].style
                },
                data: if j == id {
                    self.controls()[j].data
                } else {
                    old(self).controls()[j].data
                },
                is_dirty: old(self).dirty(j) || old(self).marks(fired@, j),
                ..old(self).controls()[j]
            }) by {
                assert(self.dirty(j) == (handled.dirty(j) || handled.marks(fired@, j)));
                assert(self.controls()[j] == (Control {
                    is_dirty: self.dirty(j),
                    ..handled.controls()[j]
                }));
                if j != id {
                    assert(handled.controls()[j] == old(self).controls()[j]);
                }
            }
        }
        consumed
    }

    /// How one delivery takes tree and callback queue from `pre`, `queue`
    /// to `post`, `queued`. A delivery to a control that the tree does not
    /// hold changes nothing.
    pub open spec fn delivers_one(
        pre: &Self,
        post: &Self,
        delivery: Delivery,
        queue: Seq<usize>,
        queued: Seq<usize>,
    ) -> bool {
        if delivery.control < pre.count() {
            exists|consumed: bool| #[trigger]
                Self::delivers(
                    pre,
                    post,
                    delivery.control,
                    delivery.event,
                    consumed,
                    queue,
                    queued,
                )
        } else {
            post.controls() == pre.controls() && queued == queue
        }
    }

    /// How `deliveries`, made one after the other, take tree and callback
    /// queue from `pre`, `queue` to `post`, `queued`: there is a run of
    /// states that starts at the one and ends at the other, each delivery
    /// leading from one state of the run to the next.
    pub open spec fn delivers_all(
        pre: &Self,
        post: &Self,
        deliveries: Seq<Delivery>,
        queue: Seq<usize>,
        queued: Seq<usize>,
    ) -> bool {
        exists|trees: Seq<Self>, queues: Seq<Seq<usize>>|
            {
                &&& #[trigger] Self::delivery_run(trees, queues, deliveries)
                &&& trees[0] == *pre
                &&& trees.last() == *post
                &&& queues[0] == queue
                &&& queues.last() == queued
            }
    }

    /// Whether each of `deliveries` leads from one state of the run to the
    /// next.
    pub open spec fn delivery_run(
        trees: Seq<Self>,
        queues: Seq<Seq<usize>>,
        deliveries: Seq<Delivery>,
    ) -> bool {
        &&& trees.len() == deliveries.len() + 1
        &&& queues.len() == deliveries.len() + 1
        &&& forall|k: int|
            0 <= k < deliveries.len() ==> #[trigger] Self::delivers_one(
                &trees[k],
                &trees[k + 1],
                deliveries[k],
                queues[k],
                queues[k + 1],
            )
    }

    /// Delivers each of `deliveries` to its control, in order.
    pub fn deliver(&mut self, deliveries: &Vec<Delivery>, executor: &mut CallbackExecutor)
        requires
            old(self).wf(),
        ensures
            final(self).wf(),
            final(self).count() == old(self).count(),
            Self::delivers_all(
                old(self),
                final(self),
                deliveries@,
                old(executor)@,
                final(executor)@,
            ),
    {
        let ghost mut trees: Seq<Self> = seq![*self];
        let ghost mut queues: Seq<Seq<usize>> = seq![executor@];
        let mut i: usize = 0;
        while i < deliveries.len()
            invariant
                i <= deliveries@.len(),
                self.wf(),
                self.count() == old(self).count(),
                Self::delivery_run(trees, queues, deliveries@.take(i as int)),
                trees[0] == *old(self),
                trees.last() == *self,
                queues[0] == old(executor)@,
                queues.last() == executor@,
            decreases deliveries.len() - i,
        {
            let ghost mid = *self;
            let ghost waiting = executor@;
            let delivery = deliveries[i];
            if delivery.control < self.controls.len() {
                let _ = self.handle_event(delivery.control, delivery.event, executor);
            }
            proof {
                let seen = deliveries@.take(i as int);
                let next = deliveries@.take(i as int + 1);
                assert(Self::delivers_one(&mid, self, delivery, waiting, executor@));
                let more_trees = trees.push(*self);
                let more_queues = queues.push(executor@);
                assert forall|k: int| 0 <= k < next.len() implies #[trigger] Self::delivers_one(
                    &more_trees[k],
                    &more_trees[k + 1],
                    next[k],
                    more_queues[k],
                    more_queues[k + 1],
                ) by {
                    if k < i {
                        assert(Self::delivers_one(
                            &trees[k],
                            &trees[k + 1],
                            seen[k],
                            queues[k],
                            queues[k + 1],
                        ));
                    }
                }
                trees = more_trees;
                queues = more_queues;
            }
            i += 1;
        }
        assert(deliveries@.take(i as int) =~= deliveries@);
    }
}

impl EventProcessor {
    /// How the window event `event` takes processor, tree and callback
    /// queue from `pre`, `tree`, `queue` to `post`, `routed_tree`, `queued`:
    /// an event that amounts to a gesture is routed by the control that the
    /// pointer is over, and what the routing says is delivered; any other
    /// event changes nothing.
    pub open spec fn processes<D, S: Style<D>>(
        pre: &Self,
        post: &Self,
        tree: &ControlTree<D, S>,
        routed_tree: &ControlTree<D, S>,
        root: usize,
        event: InputEvent,
        queue: Seq<usize>,
        queued: Seq<usize>,
    ) -> bool {
        &&& post.gesture_detector.mouse_pos() == crate::events::pointer_after(
            pre.gesture_detector.mouse_pos(),
            event,
        )
        &&& match crate::events::gesture_of(pre.gesture_detector.mouse_pos(), event) {
            Some(gesture) => {
                let hit = match tree.target_of(root as int, position_of(gesture)) {
                    Some(target) => Some(target as usize),
                    None => None,
                };
                let route = routed(pre.hover_control, pre.captured_control, gesture, hit);
                &&& post.hover_control == route.hover
                &&& post.captured_control == route.captured
                &&& ControlTree::delivers_all(tree, routed_tree, route.deliveries, queue, queued)
            },
            None => {
                &&& post.hover_control == pre.hover_control
                &&& post.captured_control == pre.captured_control
                &&& routed_tree.controls() == tree.controls()
                &&& queued == queue
            },
        }
    }

    /// Turns the window event into a gesture, finds the control under the
    /// pointer, and delivers the events that the gesture leads to.
    pub fn handle_event<D, S: Style<D>>(
        &mut self,
        tree: &mut ControlTree<D, S>,
        root: usize,
        event: &InputEvent,
        executor: &mut CallbackExecutor,
    )
        requires
            old(tree).wf(),
            old(tree).contains(root),
        ensures
            final(tree).wf(),
            final(tree).count() == old(tree).count(),
            Self::processes(
                old(self),
                final(self),
                old(tree),
                final(tree),
                root,
                *event,
                old(executor)@,
                final(executor)@,
            ),
    {
        match self.gesture_detector.handle_event(event) {
            Some(gesture) => {
                let position = match gesture {
                    Gesture::TapDown { position } => position,
                    Gesture::TapUp { position } => position,
                    Gesture::TapMove { position } => position,
                };
                let hit = tree.hit_test(root, position);
                proof {
                    match tree.target_of(root as int, position) {
                        Some(target) => {
                            assert(hit == Some(target as usize));
                        },
                        None => {},
                    }
                }
                let deliveries = self.route(gesture, hit);
                tree.deliver(&deliveries, executor);
            },
            None => {},
        }
    }
}

} // verus!
