//! The control tree.
//!
//! Controls live in one arena and are named by their index in it. A control
//! is created after its children, so a parent always has a larger index than
//! each of its children: walking up from a control ends at a root after
//! finitely many steps, and no control is its own ancestor.

use vstd::prelude::*;
use crate::attached::AttachedValues;
use crate::callback::CallbackExecutor;
use crate::common::{Rect, Size};
use crate::observable::Handler;

verus! {

/// One node of the tree: the data of a control, its style, and its place in
/// the tree.
pub struct Control<D, S> {
    pub data: D,
    pub style: S,
    pub parent: Option<usize>,
    pub children: Vec<usize>,
    pub is_dirty: bool,
    pub attached_values: AttachedValues,
    /// The size that the last measurement gave.
    pub desired_size: Size,
    /// The rectangle that the last arrangement gave.
    pub rect: Rect,
}

/// The arena of controls.
pub struct ControlTree<D, S> {
    pub controls: Vec<Control<D, S>>,
}

/// Whether no index occurs twice in `ids`.
pub open spec fn distinct(ids: Seq<usize>) -> bool {
    forall|a: int, b: int| 0 <= a < b < ids.len() ==> ids[a] != ids[b]
}

/// Whether the index `j` occurs in `ids`.
pub open spec fn names(ids: Seq<usize>, j: int) -> bool {
    exists|a: int| 0 <= a < ids.len() && #[trigger] ids[a] == j
}

/// The keys of the callbacks among `handlers`, in order.
pub open spec fn callback_keys(handlers: Seq<Handler>) -> Seq<usize>
    decreases handlers.len(),
{
    if handlers.len() == 0 {
        Seq::empty()
    } else {
        match handlers.last() {
            Handler::Callback { key } => callback_keys(handlers.drop_last()).push(key),
            Handler::MarkDirty { .. } => callback_keys(handlers.drop_last()),
        }
    }
}

impl<D, S> ControlTree<D, S> {
    /// The controls, by index.
    pub open spec fn controls(&self) -> Seq<Control<D, S>> {
        self.controls@
    }

    /// The number of controls.
    pub open spec fn count(&self) -> nat {
        self.controls().len()
    }

    /// Whether `id` names a control of the tree.
    pub open spec fn contains(&self, id: usize) -> bool {
        id < self.count()
    }

    /// The parent of the control `i`, if it has one.
    pub open spec fn parent(&self, i: int) -> Option<usize> {
        self.controls()[i].parent
    }

    /// The children of the control `i`, in the order in which they were
    /// given; a later child lies on top of an earlier one.
    pub open spec fn children(&self, i: int) -> Seq<usize> {
        self.controls()[i].children@
    }

    /// Whether the control `i` needs to be rendered again.
    pub open spec fn dirty(&self, i: int) -> bool {
        self.controls()[i].is_dirty
    }

    /// What the children of the control `i` asked for when last measured.
    pub open spec fn desired_sizes(&self, i: int) -> Seq<Size> {
        Seq::new(
            self.children(i).len(),
            |k: int| self.controls()[self.children(i)[k] as int].desired_size,
        )
    }

    /// Where the children of the control `i` were last placed.
    pub open spec fn child_rects(&self, i: int) -> Seq<Rect> {
        Seq::new(self.children(i).len(), |k: int| self.controls()[self.children(i)[k] as int].rect)
    }

    /// The state `post` has the links, flags, data and attached values of
    /// `pre`; styles, sizes and rectangles may differ.
    pub open spec fn same_but_layout(pre: &Self, post: &Self) -> bool {
        &&& post.count() == pre.count()
        &&& forall|i: int|
            0 <= i < pre.count() ==> (#[trigger] post.controls()[i]) == (Control {
                style: post.controls()[i].style,
                desired_size: post.controls()[i].desired_size,
                rect: post.controls()[i].rect,
                ..pre.controls()[i]
            })
    }

    /// What holds of the links of the control `i`: its parent was created
    /// later and lists it as a child; its children were created earlier,
    /// name it as their parent, and none is listed twice.
    pub open spec fn linked(&self, i: int) -> bool {
        &&& match self.parent(i) {
            Some(p) => i < p < self.count() && names(self.children(p as int), i),
            None => true,
        }
        &&& forall|k: int|
            0 <= k < self.children(i).len() ==> {
                &&& (#[trigger] self.children(i)[k]) < i
                &&& (self.parent(self.children(i)[k] as int) matches Some(p) && p == i)
            }
        &&& distinct(self.children(i))
    }

    /// The links of all controls are consistent.
    pub open spec fn wf(&self) -> bool {
        &&& self.count() <= usize::MAX
        &&& forall|i: int| 0 <= i < self.count() ==> #[trigger] self.linked(i)
    }

    /// Whether the control `a` is the control `i` or one of its ancestors.
    pub open spec fn in_chain(&self, a: int, i: int) -> bool
        decreases self.count() - i,
    {
        if a == i {
            true
        } else {
            match self.parent(i) {
                Some(p) => i < p < self.count() && self.in_chain(a, p as int),
                None => false,
            }
        }
    }

    /// Whether `children` can become the children of a new control: each is
    /// a control of the tree without a parent, and none is named twice.
    pub open spec fn can_adopt(&self, children: Seq<usize>) -> bool {
        &&& forall|k: int|
            0 <= k < children.len() ==> {
                &&& (#[trigger] children[k]) < self.count()
                &&& self.parent(children[k] as int) == None::<usize>
            }
        &&& distinct(children)
    }

    /// The state `post` has the links, data and styles of `pre`, and may
    /// differ in the dirty flags only.
    pub open spec fn same_but_dirty(pre: &Self, post: &Self) -> bool {
        &&& post.count() == pre.count()
        &&& forall|i: int|
            0 <= i < pre.count() ==> (#[trigger] post.controls()[i]) == (Control {
                is_dirty: post.dirty(i),
                ..pre.controls()[i]
            })
    }

    /// An ancestor has a larger index than its descendants.
    pub proof fn lemma_chain_upward(&self, a: int, i: int)
        requires
            self.in_chain(a, i),
        ensures
            i <= a,
            a != i ==> a < self.count(),
        decreases self.count() - i,
    {
        if a != i {
            self.lemma_chain_upward(a, self.parent(i)->0 as int);
        }
    }

    /// The parent of a member of the chain above `i` is in that chain too.
    pub proof fn lemma_chain_step(&self, a: int, i: int)
        requires
            self.in_chain(a, i),
            self.parent(a) matches Some(p) && a < p < self.count(),
        ensures
            self.in_chain(self.parent(a)->0 as int, i),
        decreases self.count() - i,
    {
        let p = self.parent(a)->0 as int;
        if a != i {
            self.lemma_chain_step(a, self.parent(i)->0 as int);
        } else {
            assert(self.in_chain(p, p));
        }
    }

    /// Chains depend on the links only.
    pub proof fn lemma_chain_same(pre: &Self, post: &Self, a: int, i: int)
        requires
            post.count() == pre.count(),
            forall|j: int| 0 <= j < pre.count() ==> post.parent(j) == pre.parent(j),
            0 <= i < pre.count(),
        ensures
            post.in_chain(a, i) == pre.in_chain(a, i),
        decreases pre.count() - i,
    {
        if a != i {
            match pre.parent(i) {
                Some(p) => {
                    if i < p < pre.count() {
                        Self::lemma_chain_same(pre, post, a, p as int);
                    }
                },
                None => {},
            }
        }
    }

    pub fn new() -> (tree: Self)
        ensures
            tree.wf(),
            tree.count() == 0,
    {
        ControlTree { controls: Vec::new() }
    }

    pub fn len(&self) -> (n: usize)
        ensures
            n == self.count(),
    {
        self.controls.len()
    }

    /// Whether `children` can become the children of a new control.
    pub fn accepts(&self, children: &Vec<usize>) -> (ok: bool)
        ensures
            ok == self.can_adopt(children@),
    {
        let mut k: usize = 0;
        while k < children.len()
            invariant
                k <= children@.len(),
                self.can_adopt(children@.take(k as int)),
            decreases children.len() - k,
        {
            let child = children[k];
            if child >= self.controls.len() {
                return false;
            }
            if self.controls[child].parent.is_some() {
                return false;
            }
            let mut m: usize = 0;
            while m < k
                invariant
                    m <= k < children@.len(),
                    child == children@[k as int],
                    forall|a: int| 0 <= a < m ==> children@[a] != child,
                decreases k - m,
            {
                if children[m] == child {
                    return false;
                }
                m += 1;
            }
            k += 1;
        }
        assert(children@.take(k as int) =~= children@);
        true
    }

    /// Puts a control with the given children into the arena; the children
    /// must be controls without a parent, each named once. The new control
    /// is a root, and it is dirty, since it was never rendered. Returns its
    /// index, or `None` and leaves the tree as it was where the children
    /// cannot be adopted.
    pub fn insert(
        &mut self,
        data: D,
        style: S,
        attached_values: AttachedValues,
        children: Vec<usize>,
    ) -> (id: Option<usize>)
        requires
            old(self).wf(),
        ensures
            final(self).wf(),
            id is Some <==> old(self).can_adopt(children@),
            id is None ==> final(self).controls() == old(self).controls(),
            id matches Some(i) ==> {
                &&& i == old(self).count()
                &&& final(self).count() == old(self).count() + 1
                &&& final(self).controls()[i as int] == (Control {
                    data,
                    style,
                    parent: None,
                    children,
                    is_dirty: true,
                    attached_values,
                    desired_size: Size { width: 0, height: 0 },
                    rect: Rect::zero(),
                })
                &&& forall|j: int|
                    0 <= j < old(self).count() ==> (#[trigger] final(self).controls()[j])
                        == (Control {
                        parent: if names(children@, j) {
                            Some(i)
                        } else {
                            old(self).parent(j)
                        },
                        ..old(self).controls()[j]
                    })
            },
    {
        if !self.accepts(&children) {
            return None;
        }
        let id = self.controls.len();
        let mut k: usize = 0;
        while k < children.len()
            invariant
                k <= children@.len(),
                id == old(self).count(),
                old(self).wf(),
                old(self).can_adopt(children@),
                self.count() == old(self).count(),
                forall|j: int|
                    0 <= j < old(self).count() ==> (#[trigger] self.controls()[j]) == (Control {
                        parent: if names(children@.take(k as int), j) {
                            Some(id)
                        } else {
                            old(self).parent(j)
                        },
                        ..old(self).controls()[j]
                    }),
            decreases children.len() - k,
        {
            let child = children[k];
            self.controls[child].parent = Some(id);
            assert forall|j: int| 0 <= j < old(self).count() implies #[trigger] names(
                children@.take(k as int + 1),
                j,
            ) == (names(children@.take(k as int), j) || j == child) by {
                let more = children@.take(k as int + 1);
                let fewer = children@.take(k as int);
                if names(fewer, j) {
                    let a = choose|a: int| 0 <= a < fewer.len() && #[trigger] fewer[a] == j;
                    assert(more[a] == j);
                }
                if j == child {
                    assert(more[k as int] == child);
                }
                if names(more, j) {
                    let a = choose|a: int| 0 <= a < more.len() && #[trigger] more[a] == j;
                    if a < k {
                        assert(fewer[a] == j);
                    }
                }
            }
            k += 1;
        }
        assert(children@.take(k as int) =~= children@);
        let ghost kids = children@;
        self.controls.push(
            Control {
                data,
                style,
                parent: None,
                children,
                is_dirty: true,
                attached_values,
                desired_size: Size::new(0, 0),
                rect: Rect::empty(),
            },
        );
        let total = self.controls.len();
        assert(self.children(id as int) == kids);
        assert forall|i: int| 0 <= i < self.count() implies #[trigger] self.linked(i) by {
            if i < id {
                assert(old(self).linked(i));
                assert(self.children(i) == old(self).children(i));
                assert(self.controls()[i] == (Control {
                    parent: if names(kids, i) {
                        Some(id)
                    } else {
                        old(self).parent(i)
                    },
                    ..old(self).controls()[i]
                }));
                if names(kids, i) {
                } else {
                    match old(self).parent(i) {
                        Some(p) => {
                            assert(self.children(p as int) == old(self).children(p as int));
                        },
                        None => {},
                    }
                }
                assert forall|k: int| 0 <= k < self.children(i).len() implies {
                    &&& (#[trigger] self.children(i)[k]) < i
                    &&& (self.parent(self.children(i)[k] as int) matches Some(p) && p == i)
                } by {
                    let c = old(self).children(i)[k];
                    assert(c < i);
                    assert(old(self).parent(c as int) == Some(i as usize));
                    assert(!kids.contains(c)) by {
                        if kids.contains(c) {
                            let a = choose|a: int| 0 <= a < kids.len() && kids[a] == c;
                            assert(old(self).parent(kids[a] as int) == None::<usize>);
                        }
                    }
                    assert(self.controls()[c as int].parent == old(self).parent(c as int));
                }
            } else {
                assert forall|k: int| 0 <= k < self.children(i).len() implies {
                    &&& (#[trigger] self.children(i)[k]) < i
                    &&& (self.parent(self.children(i)[k] as int) matches Some(p) && p == i)
                } by {
                    let c = kids[k];
                    assert(kids.contains(c));
                    assert(self.controls()[c as int].parent == Some(id));
                }
            }
        }
        Some(id)
    }

    pub fn get_parent(&self, id: usize) -> (parent: Option<usize>)
        requires
            self.contains(id),
        ensures
            parent == self.parent(id as int),
    {
        self.controls[id].parent
    }

    pub fn get_children(&self, id: usize) -> (children: &Vec<usize>)
        requires
            self.contains(id),
        ensures
            children@ == self.children(id as int),
    {
        &self.controls[id].children
    }

    pub fn get_data(&self, id: usize) -> (data: &D)
        requires
            self.contains(id),
        ensures
            *data == self.controls()[id as int].data,
    {
        &self.controls[id].data
    }

    pub fn get_style(&self, id: usize) -> (style: &S)
        requires
            self.contains(id),
        ensures
            *style == self.controls()[id as int].style,
    {
        &self.controls[id].style
    }

    pub fn get_attached_values(&self, id: usize) -> (values: &AttachedValues)
        requires
            self.contains(id),
        ensures
            *values == self.controls()[id as int].attached_values,
    {
        &self.controls[id].attached_values
    }

    /// Whether the control `id` is the control `root` or lies beneath it.
    pub fn is_within(&self, root: usize, id: usize) -> (within: bool)
        requires
            self.wf(),
            self.contains(id),
        ensures
            within == self.in_chain(root as int, id as int),
    {
        let mut cur: usize = id;
        while cur < root
            invariant
                self.wf(),
                cur < self.count(),
                self.in_chain(root as int, id as int) == self.in_chain(root as int, cur as int),
            decreases self.count() - cur,
        {
            assert(self.linked(cur as int));
            match self.controls[cur].parent {
                Some(p) => {
                    cur = p;
                },
                None => {
                    return false;
                },
            }
        }
        proof {
            if cur != root && self.in_chain(root as int, cur as int) {
                self.lemma_chain_upward(root as int, cur as int);
            }
        }
        cur == root
    }

    /// A child of a member of the subtree beneath `root` is a member too.
    pub proof fn lemma_child_within(&self, root: int, i: int, k: int)
        requires
            self.wf(),
            0 <= i < self.count(),
            self.in_chain(root, i),
            0 <= k < self.children(i).len(),
        ensures
            self.in_chain(root, self.children(i)[k] as int),
            self.children(i)[k] < i,
    {
        assert(self.linked(i));
    }

    pub fn is_dirty(&self, id: usize) -> (dirty: bool)
        requires
            self.contains(id),
        ensures
            dirty == self.dirty(id as int),
    {
        self.controls[id].is_dirty
    }

    /// Sets the dirty flag of the control `id`. Setting it marks every
    /// ancestor dirty as well, up to the root; clearing it touches no other
    /// control.
    pub fn set_is_dirty(&mut self, id: usize, is_dirty: bool)
        requires
            old(self).wf(),
            old(self).contains(id),
        ensures
            final(self).wf(),
            Self::same_but_dirty(old(self), final(self)),
            forall|j: int|
                0 <= j < old(self).count() ==> #[trigger] final(self).dirty(j) == if is_dirty {
                    old(self).dirty(j) || old(self).in_chain(j, id as int)
                } else {
                    j != id && old(self).dirty(j)
                },
    {
        if !is_dirty {
            self.controls[id].is_dirty = false;
            assert forall|i: int| 0 <= i < self.count() implies #[trigger] self.linked(i) by {
                assert(old(self).linked(i));
            }
            return ;
        }
        let mut cur: usize = id;
        let mut done: bool = false;
        while !done
            invariant
                old(self).wf(),
                cur < old(self).count(),
                Self::same_but_dirty(old(self), self),
                old(self).in_chain(cur as int, id as int),
                forall|j: int|
                    0 <= j < old(self).count() ==> #[trigger] self.dirty(j) == (old(self).dirty(j)
                        || (old(self).in_chain(j, id as int) && (done || !old(self).in_chain(
                        j,
                        cur as int,
                    )))),
            decreases old(self).count() - cur, if done { 0int } else { 1int },
        {
            self.controls[cur].is_dirty = true;
            assert(old(self).linked(cur as int));
            match self.controls[cur].parent {
                Some(p) => {
                    proof {
                        old(self).lemma_chain_step(cur as int, id as int);
                        assert forall|j: int| old(self).in_chain(j, p as int) implies j
                            != cur by {
                            old(self).lemma_chain_upward(j, p as int);
                        }
                    }
                    cur = p;
                },
                None => {
                    done = true;
                },
            }
        }
        assert forall|i: int| 0 <= i < self.count() implies #[trigger] self.linked(i) by {
            assert(old(self).linked(i));
        }
    }

    /// Whether one of `handlers` marks the control `j` dirty: it names a
    /// control of the tree that is `j` or a descendant of `j`. A handler
    /// that names no control of the tree marks nothing.
    pub open spec fn marks(&self, handlers: Seq<Handler>, j: int) -> bool {
        exists|k: int|
            0 <= k < handlers.len() && match #[trigger] handlers[k] {
                Handler::MarkDirty { control } => control < self.count() && self.in_chain(
                    j,
                    control as int,
                ),
                Handler::Callback { .. } => false,
            }
    }

    /// Carries out `handlers` in order: marks the controls dirty that they
    /// name, and queues their callbacks on `executor`.
    pub fn dispatch(&mut self, handlers: &Vec<Handler>, executor: &mut CallbackExecutor)
        requires
            old(self).wf(),
        ensures
            final(self).wf(),
            Self::same_but_dirty(old(self), final(self)),
            forall|j: int|
                0 <= j < old(self).count() ==> #[trigger] final(self).dirty(j) == (old(self).dirty(
                    j,
                ) || old(self).marks(handlers@, j)),
            final(executor)@ == old(executor)@ + callback_keys(handlers@),
    {
        let mut i: usize = 0;
        while i < handlers.len()
            invariant
                i <= handlers@.len(),
                old(self).wf(),
                self.wf(),
                Self::same_but_dirty(old(self), self),
                forall|j: int|
                    0 <= j < old(self).count() ==> #[trigger] self.dirty(j) == (old(self).dirty(j)
                        || old(self).marks(handlers@.take(i as int), j)),
                executor@ == old(executor)@ + callback_keys(handlers@.take(i as int)),
            decreases handlers.len() - i,
        {
            let ghost before = *self;
            let ghost seen = handlers@.take(i as int);
            let ghost next = handlers@.take(i as int + 1);
            assert(next.drop_last() =~= seen);
            assert(next.last() == handlers@[i as int]);
            match handlers[i] {
                Handler::MarkDirty { control } => {
                    if control < self.controls.len() {
                        self.set_is_dirty(control, true);
                    }
                    assert forall|j: int| 0 <= j < old(self).count() implies #[trigger] self.dirty(
                        j,
                    ) == (old(self).dirty(j) || old(self).marks(next, j)) by {
                        if control < before.count() {
                            Self::lemma_chain_same(old(self), &before, j, control as int);
                        }
                        if old(self).marks(seen, j) {
                            let k = choose|k: int|
                                0 <= k < seen.len() && match #[trigger] seen[k] {
                                    Handler::MarkDirty { control } => control < old(self).count()
                                        && old(self).in_chain(j, control as int),
                                    Handler::Callback { .. } => false,
                                };
                            assert(next[k] == seen[k]);
                        }
                        if old(self).marks(next, j) {
                            let k = choose|k: int|
                                0 <= k < next.len() && match #[trigger] next[k] {
                                    Handler::MarkDirty { control } => control < old(self).count()
                                        && old(self).in_chain(j, control as int),
                                    Handler::Callback { .. } => false,
                                };
                            if k < i {
                                assert(seen[k] == next[k]);
                            }
                        }
                        if control < before.count() && old(self).in_chain(j, control as int) {
                            assert(next[i as int] == handlers@[i as int]);
                        }
                    }
                },
                Handler::Callback { key } => {
                    executor.enqueue(key);
                    assert forall|j: int| 0 <= j < old(self).count() implies old(self).marks(
                        next,
                        j,
                    ) == old(self).marks(seen, j) by {
                        if old(self).marks(seen, j) {
                            let k = choose|k: int|
                                0 <= k < seen.len() && match #[trigger] seen[k] {
                                    Handler::MarkDirty { control } => control < old(self).count()
                                        && old(self).in_chain(j, control as int),
                                    Handler::Callback { .. } => false,
                                };
                            assert(next[k] == seen[k]);
                        }
                        if old(self).marks(next, j) {
                            let k = choose|k: int|
                                0 <= k < next.len() && match #[trigger] next[k] {
                                    Handler::MarkDirty { control } => control < old(self).count()
                                        && old(self).in_chain(j, control as int),
                                    Handler::Callback { .. } => false,
                                };
                            assert(seen[k] == next[k]);
                        }
                    }
                    assert(executor@ =~= old(executor)@ + callback_keys(next));
                },
            }
            i += 1;
        }
        assert(handlers@.take(i as int) =~= handlers@);
    }

    /// Setting the dirty flag of a control leaves the control, each of its
    /// ancestors and so the root of its tree dirty.
    pub proof fn law_dirty_reaches_ancestors(pre: &Self, post: &Self, id: usize, ancestor: int)
        requires
            pre.wf(),
            pre.contains(id),
            pre.in_chain(ancestor, id as int),
            forall|j: int|
                0 <= j < pre.count() ==> #[trigger] post.dirty(j) == (pre.dirty(j) || pre.in_chain(
                    j,
                    id as int,
                )),
        ensures
            post.dirty(ancestor),
            post.dirty(id as int),
    {
        pre.lemma_chain_upward(ancestor, id as int);
    }
}

} // verus!
