//! Measurement and arrangement of a subtree.
//!
//! Both passes run over the arena in index order instead of recursing. A
//! child has a smaller index than its parent, so going up the indices
//! measures every child before its parent, and going down places every
//! parent before its children.

use vstd::prelude::*;
use crate::attached::AttachedValues;
use crate::common::{Rect, Size};
use crate::control::{names, Control, ControlTree};
use crate::style::{metrics_of, resolve, Resources, Style};

verus! {

impl<D, S: Style<D>> ControlTree<D, S> {
    /// Adds a control with the given data, style and children, and lets the
    /// style subscribe the new control to the properties that its looks
    /// depend on. The children must be controls without a parent, each
    /// named once; otherwise nothing is added and `None` is returned.
    pub fn add(
        &mut self,
        data: D,
        style: S,
        attached_values: AttachedValues,
        children: Vec<usize>,
    ) -> (id: Option<usize>)
        requires
            old(self).wf(),
        ensures
            final(self).wf(),
            id is Some <==> old(self).can_adopt(children@),
            id is None ==> final(self).controls() == old(self).controls(),
            id matches Some(i) ==> {
                &&& i == old(self).count()
                &&& final(self).count() == old(self).count() + 1
                &&& style.watches(
                    &data,
                    i,
                    &final(self).controls()[i as int].style,
                    &final(self).controls()[i as int].data,
                )
                &&& final(self).controls()[i as int] == (Control {
                    data: final(self).controls()[i as int].data,
                    style: final(self).controls()[i as int].style,
                    parent: None,
                    children,
                    is_dirty: true,
                    attached_values,
                    desired_size: Size { width: 0, height: 0 },
                    rect: Rect::zero(),
                })
                &&& forall|j: int|
                    0 <= j < old(self).count() ==> (#[trigger] final(self).controls()[j])
                        == (Control {
                        parent: if names(children@, j) {
                            Some(i)
                        } else {
                            old(self).parent(j)
                        },
                        ..old(self).controls()[j]
                    })
            },
    {
        if !self.accepts(&children) {
            return None;
        }
        let id = self.controls.len();
        let mut watched = data;
        let mut watching = style;
        watching.setup_dirty_watching(&mut watched, id);
        self.insert(watched, watching, attached_values, children)
    }

    /// What measuring the subtree beneath `root` does to the control `i`:
    /// a control of the subtree is measured by its style, against what its
    /// children asked for; any other control stays as it was.
    pub open spec fn measured_at<R: Resources>(
        pre: &Self,
        post: &Self,
        root: usize,
        resources: &R,
        size: Size,
        i: int,
    ) -> bool {
        if pre.in_chain(root as int, i) {
            &&& pre.controls()[i].style.measures(
                &pre.controls()[i].data,
                post.desired_sizes(i),
                metrics_of(resources, pre.controls()[i].style.query(&pre.controls()[i].data)),
                size,
                &post.controls()[i].style,
                post.controls()[i].desired_size,
            )
            &&& post.controls()[i].rect == pre.controls()[i].rect
        } else {
            post.controls()[i] == pre.controls()[i]
        }
    }

    /// The sizes that the children of the control `id` asked for.
    fn collect_desired_sizes(&self, id: usize) -> (sizes: Vec<Size>)
        requires
            self.wf(),
            self.contains(id),
        ensures
            sizes@ == self.desired_sizes(id as int),
    {
        let mut sizes: Vec<Size> = Vec::new();
        let mut k: usize = 0;
        assert(self.linked(id as int));
        while k < self.controls[id].children.len()
            invariant
                self.linked(id as int),
                id < self.count(),
                k <= self.children(id as int).len(),
                sizes@.len() == k,
                forall|a: int|
                    0 <= a < k ==> sizes@[a] == self.controls()[self.children(
                        id as int,
                    )[a] as int].desired_size,
            decreases self.children(id as int).len() - k,
        {
            let child = self.controls[id].children[k];
            sizes.push(self.controls[child].desired_size);
            k += 1;
        }
        assert(sizes@ =~= self.desired_sizes(id as int));
        sizes
    }

    /// Measures the subtree beneath `root` against the upper bound `size`,
    /// children before parents. Returns what the root asks for.
    pub fn get_preferred_size<R: Resources>(&mut self, root: usize, resources: &R, size: Size) -> (desired:
        Size)
        requires
            old(self).wf(),
            old(self).contains(root),
        ensures
            final(self).wf(),
            Self::same_but_layout(old(self), final(self)),
            forall|i: int|
                0 <= i < old(self).count() ==> #[trigger] Self::measured_at(
                    old(self),
                    final(self),
                    root,
                    resources,
                    size,
                    i,
                ),
            desired == final(self).controls()[root as int].desired_size,
    {
        let mut i: usize = 0;
        while i <= root
            invariant
                i <= root + 1,
                root < old(self).count(),
                old(self).wf(),
                self.wf(),
                Self::same_but_layout(old(self), self),
                forall|j: int|
                    0 <= j < i ==> #[trigger] Self::measured_at(
                        old(self),
                        self,
                        root,
                        resources,
                        size,
                        j,
                    ),
                forall|j: int|
                    i <= j < old(self).count() ==> (#[trigger] self.controls()[j]) == old(
                        self,
                    ).controls()[j],
            decreases root + 1 - i,
        {
            let ghost before = *self;
            if self.is_within(root, i) {
                proof {
                    Self::lemma_chain_same(old(self), &before, root as int, i as int);
                }
                let sizes = self.collect_desired_sizes(i);
                let control = &mut self.controls[i];
                let query = control.style.resource_query(&control.data);
                let metrics = resolve(resources, &query);
                let desired = control.style.measure(&control.data, &sizes, metrics, size);
                control.desired_size = desired;
                proof {
                    assert(self.controls()[i as int] == (Control {
                        style: self.controls()[i as int].style,
                        desired_size: desired,
                        ..before.controls()[i as int]
                    }));
                    assert forall|j: int| 0 <= j < self.count() implies #[trigger] self.linked(
                        j,
                    ) by {
                        assert(before.linked(j));
                    }
                    assert(before.linked(i as int));
                    assert(self.desired_sizes(i as int) =~= before.desired_sizes(i as int));
                    assert forall|j: int| 0 <= j < i implies #[trigger] Self::measured_at(
                        old(self),
                        self,
                        root,
                        resources,
                        size,
                        j,
                    ) by {
                        assert(Self::measured_at(old(self), &before, root, resources, size, j));
                        assert(old(self).linked(j));
                        assert(before.linked(j));
                        assert(self.controls()[j] == before.controls()[j]);
                        assert(self.desired_sizes(j) =~= before.desired_sizes(j));
                    }
                }
            } else {
                proof {
                    Self::lemma_chain_same(old(self), &before, root as int, i as int);
                }
            }
            i += 1;
        }
        assert forall|j: int| 0 <= j < old(self).count() implies #[trigger] Self::measured_at(
            old(self),
            self,
            root,
            resources,
            size,
            j,
        ) by {
            if j > root && old(self).in_chain(root as int, j) {
                old(self).lemma_chain_upward(root as int, j);
            }
        }
        self.controls[root].desired_size
    }

    /// What arranging the subtree beneath `root` does to the control `i`:
    /// a control of the subtree is given its rectangle, and its style says
    /// where its children go; any other control stays as it was.
    pub open spec fn arranged_at(pre: &Self, post: &Self, root: usize, i: int) -> bool {
        if pre.in_chain(root as int, i) {
            &&& pre.controls()[i].style.arranges(
                &pre.controls()[i].data,
                pre.desired_sizes(i),
                post.controls()[i].rect,
                &post.controls()[i].style,
                post.child_rects(i),
            )
            &&& post.controls()[i].style.rect() == post.controls()[i].rect
            &&& post.controls()[i].desired_size == pre.controls()[i].desired_size
        } else {
            post.controls()[i] == pre.controls()[i]
        }
    }

    /// Gives each child of the control `id` its rectangle out of `placed`.
    fn place_children(&mut self, id: usize, placed: &Vec<Rect>)
        requires
            old(self).wf(),
            old(self).contains(id),
            placed@.len() == old(self).children(id as int).len(),
        ensures
            final(self).wf(),
            final(self).count() == old(self).count(),
            final(self).child_rects(id as int) == placed@,
            forall|j: int|
                0 <= j < old(self).count() ==> (#[trigger] final(self).controls()[j]) == (Control {
                    rect: final(self).controls()[j].rect,
                    ..old(self).controls()[j]
                }),
            forall|j: int|
                0 <= j < old(self).count() && !names(old(self).children(id as int), j) ==> (
                #[trigger] final(self).controls()[j]) == old(self).controls()[j],
    {
        let mut k: usize = 0;
        assert(self.linked(id as int));
        while k < placed.len()
            invariant
                old(self).wf(),
                id < old(self).count(),
                self.count() == old(self).count(),
                k <= placed@.len() == old(self).children(id as int).len(),
                forall|j: int|
                    0 <= j < old(self).count() ==> (#[trigger] self.controls()[j]) == (Control {
                        rect: self.controls()[j].rect,
                        ..old(self).controls()[j]
                    }),
                forall|j: int|
                    0 <= j < old(self).count() && !names(
                        old(self).children(id as int).take(k as int),
                        j,
                    ) ==> (#[trigger] self.controls()[j]) == old(self).controls()[j],
                forall|a: int|
                    0 <= a < k ==> self.controls()[old(self).children(id as int)[a] as int].rect
                        == placed@[a],
            decreases placed.len() - k,
        {
            let ghost kids = old(self).children(id as int);
            assert(old(self).linked(id as int));
            assert(self.controls()[id as int].children@ == kids);
            let child = self.controls[id].children[k];
            assert(child == kids[k as int]);
            assert(kids.take(k as int + 1)[k as int] == child);
            self.controls[child].rect = placed[k];
            proof {
                assert forall|j: int|
                    0 <= j < old(self).count() && !names(kids.take(k as int + 1), j) implies (
                #[trigger] self.controls()[j]) == old(self).controls()[j] by {
                    if names(kids.take(k as int), j) {
                        let a = choose|a: int|
                            0 <= a < kids.take(k as int).len() && #[trigger] kids.take(
                                k as int,
                            )[a] == j;
                        assert(kids.take(k as int + 1)[a] == j);
                    }
                }
                assert forall|a: int| 0 <= a < k + 1 implies self.controls()[kids[a] as int].rect
                    == placed@[a] by {
                    if a < k {
                        assert(kids[a] != kids[k as int]);
                    }
                }
            }
            k += 1;
        }
        proof {
            let kids = old(self).children(id as int);
            assert(kids.take(k as int) =~= kids);
            assert(self.children(id as int) == kids);
            assert(self.child_rects(id as int) =~= placed@);
            assert forall|j: int| 0 <= j < self.count() implies #[trigger] self.linked(j) by {
                assert(old(self).linked(j));
            }
        }
    }

    /// Assigns `rect` to the control `root` and arranges the subtree
    /// beneath it, parents before children.
    pub fn set_rect(&mut self, root: usize, rect: Rect)
        requires
            old(self).wf(),
            old(self).contains(root),
        ensures
            final(self).wf(),
            Self::same_but_layout(old(self), final(self)),
            final(self).controls()[root as int].rect == rect,
            forall|i: int|
                0 <= i < old(self).count() ==> #[trigger] Self::arranged_at(
                    old(self),
                    final(self),
                    root,
                    i,
                ),
    {
        self.controls[root].rect = rect;
        proof {
            assert forall|j: int| 0 <= j < self.count() implies #[trigger] self.linked(j) by {
                assert(old(self).linked(j));
            }
        }
        let mut n: usize = root + 1;
        while n > 0
            invariant
                n <= root + 1,
                root < old(self).count(),
                old(self).wf(),
                self.wf(),
                Self::same_but_layout(old(self), self),
                self.controls()[root as int].rect == rect,
                forall|j: int|
                    n <= j <= root ==> #[trigger] Self::arranged_at(old(self), self, root, j),
                forall|j: int|
                    0 <= j < n ==> {
                        &&& (#[trigger] self.controls()[j]).style == old(self).controls()[j].style
                        &&& self.controls()[j].desired_size == old(self).controls()[j].desired_size
                    },
                forall|j: int|
                    0 <= j < old(self).count() && j != root && !old(self).in_chain(root as int, j)
                        ==> (#[trigger] self.controls()[j]) == old(self).controls()[j],
            decreases n,
        {
            n -= 1;
            let i = n;
            let ghost before = *self;
            proof {
                Self::lemma_chain_same(old(self), &before, root as int, i as int);
            }
            if self.is_within(root, i) {
                let sizes = self.collect_desired_sizes(i);
                let control = &mut self.controls[i];
                let placed = control.style.set_rect(&control.data, &sizes, control.rect);
                let ghost styled = *self;
                proof {
                    assert(styled.controls()[i as int] == (Control {
                        style: styled.controls()[i as int].style,
                        ..before.controls()[i as int]
                    }));
                    assert forall|j: int| 0 <= j < styled.count() implies #[trigger] styled.linked(
                        j,
                    ) by {
                        assert(before.linked(j));
                    }
                    assert(before.linked(i as int));
                    assert(old(self).linked(i as int));
                    assert(before.desired_sizes(i as int) =~= old(self).desired_sizes(i as int));
                }
                self.place_children(i, &placed);
                proof {
                    let kids = old(self).children(i as int);
                    assert(styled.children(i as int) == kids);
                    assert(!names(kids, i as int)) by {
                        if names(kids, i as int) {
                            let a = choose|a: int| 0 <= a < kids.len() && #[trigger] kids[a] == i;
                            assert(old(self).children(i as int)[a] < i);
                        }
                    }
                    assert(!names(kids, root as int)) by {
                        if names(kids, root as int) {
                            let a = choose|a: int|
                                0 <= a < kids.len() && #[trigger] kids[a] == root;
                            assert(old(self).children(i as int)[a] < i);
                        }
                    }
                    assert forall|j: int| n < j <= root implies #[trigger] Self::arranged_at(
                        old(self),
                        self,
                        root,
                        j,
                    ) by {
                        assert(Self::arranged_at(old(self), &before, root, j));
                        assert(old(self).linked(j));
                        assert(!names(kids, j)) by {
                            if names(kids, j) {
                                let a = choose|a: int|
                                    0 <= a < kids.len() && #[trigger] kids[a] == j;
                                assert(old(self).children(i as int)[a] < i);
                            }
                        }
                        assert(self.controls()[j] == before.controls()[j]);
                        assert forall|k: int| 0 <= k < old(self).children(j).len() implies !names(
                            kids,
                            #[trigger] old(self).children(j)[k] as int,
                        ) by {
                            let c = old(self).children(j)[k];
                            if names(kids, c as int) {
                                let a = choose|a: int|
                                    0 <= a < kids.len() && #[trigger] kids[a] == c;
                                assert(old(self).parent(kids[a] as int) == Some(i));
                            }
                        }
                        assert(self.child_rects(j) =~= before.child_rects(j));
                    }
                    assert forall|j: int|
                        0 <= j < old(self).count() && j != root && !old(self).in_chain(
                            root as int,
                            j,
                        ) implies (#[trigger] self.controls()[j]) == old(self).controls()[j] by {
                        if names(kids, j) {
                            let a = choose|a: int| 0 <= a < kids.len() && #[trigger] kids[a] == j;
                            old(self).lemma_child_within(root as int, i as int, a);
                        }
                    }
                }
            } else {
                proof {
                    assert(i != root);
                }
            }
        }
        assert forall|j: int| 0 <= j < old(self).count() implies #[trigger] Self::arranged_at(
            old(self),
            self,
            root,
            j,
        ) by {
            if j > root && old(self).in_chain(root as int, j) {
                old(self).lemma_chain_upward(root as int, j);
            }
        }
    }
}

} // verus!
