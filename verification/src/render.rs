//! Drawing a subtree, and the render pass that brings a dirty tree up to
//! date.

use vstd::prelude::*;
use crate::common::{Rect, Size};
use crate::control::{Control, ControlTree};
use crate::drawing::Primitive;
use crate::style::{metrics_of, resolve, Resources, Style};

verus! {

impl<D, S: Style<D>> ControlTree<D, S> {
    /// The primitives of the control `i`: what its style emits around the
    /// primitives of its children.
    pub open spec fn primitives_of<R: Resources>(&self, resources: &R, i: int) -> Seq<Primitive>
        decreases i, 1int, 0int,
    {
        if 0 <= i < self.count() {
            let control = self.controls()[i];
            control.style.primitives(
                &control.data,
                self.primitives_below(resources, i, self.children(i).len() as int),
                metrics_of(resources, control.style.query(&control.data)),
            )
        } else {
            Seq::empty()
        }
    }

    /// The primitives of the first `n` children of the control `i`, one
    /// child after the other.
    pub open spec fn primitives_below<R: Resources>(&self, resources: &R, i: int, n: int) -> Seq<
        Primitive,
    >
        decreases i, 0int, n,
    {
        if 0 < n <= self.children(i).len() {
            let child = self.children(i)[n - 1];
            self.primitives_below(resources, i, n - 1) + if child < i {
                self.primitives_of(resources, child as int)
            } else {
                Seq::empty()
            }
        } else {
            Seq::empty()
        }
    }

    /// The primitives of the subtree beneath `root`, in window coordinates.
    pub fn to_primitives<R: Resources>(&self, root: usize, resources: &R) -> (primitives: Vec<
        Primitive,
    >)
        requires
            self.wf(),
            self.contains(root),
        ensures
            primitives@ == self.primitives_of(resources, root as int),
    {
        let mut lists: Vec<Vec<Primitive>> = Vec::new();
        let mut i: usize = 0;
        while i <= root
            invariant
                i <= root + 1,
                root < self.count(),
                self.wf(),
                lists@.len() == i,
                forall|j: int|
                    0 <= j < i && self.in_chain(root as int, j) && (j == root || (self.parent(
                        j,
                    ) matches Some(p) && p >= i)) ==> (#[trigger] lists@[j])@
                        == self.primitives_of(resources, j),
            decreases root + 1 - i,
        {
            let mut own: Vec<Primitive> = Vec::new();
            if self.is_within(root, i) {
                let mut below: Vec<Primitive> = Vec::new();
                let mut k: usize = 0;
                assert(self.linked(i as int));
                let ghost kids = self.children(i as int);
                while k < self.controls[i].children.len()
                    invariant
                        i <= root < self.count(),
                        self.wf(),
                        self.in_chain(root as int, i as int),
                        kids == self.children(i as int),
                        k <= kids.len(),
                        lists@.len() == i,
                        below@ == self.primitives_below(resources, i as int, k as int),
                        forall|a: int|
                            k <= a < kids.len() ==> (#[trigger] lists@[kids[a] as int])@
                                == self.primitives_of(resources, kids[a] as int),
                        forall|j: int|
                            0 <= j < i && self.in_chain(root as int, j) && (j == root || (
                            self.parent(j) matches Some(p) && p > i)) ==> (#[trigger] lists@[j])@
                                == self.primitives_of(resources, j),
                    decreases kids.len() - k,
                {
                    assert(self.linked(i as int));
                    let child = self.controls[i].children[k];
                    let mut taken: Vec<Primitive> = Vec::new();
                    lists.set_and_swap(child, &mut taken);
                    below.append(&mut taken);
                    proof {
                        assert forall|a: int| k + 1 <= a < kids.len() implies (
                        #[trigger] lists@[kids[a] as int])@ == self.primitives_of(
                            resources,
                            kids[a] as int,
                        ) by {
                            assert(kids[a] != kids[k as int]);
                        }
                    }
                    k += 1;
                }
                let control = &self.controls[i];
                let query = control.style.resource_query(&control.data);
                let metrics = resolve(resources, &query);
                own = control.style.to_primitives(&control.data, below, metrics);
            }
            proof {
                assert(self.linked(i as int));
                assert forall|a: int| 0 <= a < self.children(i as int).len() implies {
                    &&& self.in_chain(root as int, i as int) ==> self.in_chain(
                        root as int,
                        (#[trigger] self.children(i as int)[a]) as int,
                    )
                    &&& self.children(i as int)[a] != root
                } by {
                    if self.in_chain(root as int, i as int) {
                        self.lemma_child_within(root as int, i as int, a);
                    }
                    if self.children(i as int)[a] == root {
                        assert(self.in_chain(i as int, root as int));
                        self.lemma_chain_upward(i as int, root as int);
                    }
                }
            }
            lists.push(own);
            i += 1;
        }
        let mut primitives: Vec<Primitive> = Vec::new();
        lists.set_and_swap(root, &mut primitives);
        primitives
    }

    /// How a render pass at the upper bound `size` takes a tree with a
    /// dirty root from `pre` to `post` and what it emits: the subtree is
    /// measured, then arranged in the rectangle of that size at the origin,
    /// then drawn, and at last the dirty flag of the root is cleared.
    pub open spec fn renders<R: Resources>(
        pre: &Self,
        post: &Self,
        root: usize,
        resources: &R,
        size: Size,
        primitives: Seq<Primitive>,
    ) -> bool {
        exists|measured: Self, arranged: Self|
            {
                &&& Self::same_but_layout(pre, &measured)
                &&& forall|i: int|
                    0 <= i < pre.count() ==> #[trigger] Self::measured_at(
                        pre,
                        &measured,
                        root,
                        resources,
                        size,
                        i,
                    )
                &&& #[trigger] Self::same_but_layout(&measured, &arranged)
                &&& arranged.controls()[root as int].rect == (Rect {
                    x: 0,
                    y: 0,
                    width: size.width,
                    height: size.height,
                })
                &&& forall|i: int|
                    0 <= i < pre.count() ==> #[trigger] Self::arranged_at(
                        &measured,
                        &arranged,
                        root,
                        i,
                    )
                &&& primitives == arranged.primitives_of(resources, root as int)
                &&& Self::same_but_dirty(&arranged, post)
                &&& forall|j: int|
                    0 <= j < pre.count() ==> #[trigger] post.dirty(j) == (j != root
                        && arranged.dirty(j))
            }
    }

    /// One render pass over the tree beneath `root`. A clean root means
    /// that nothing beneath it changed: nothing is measured, arranged or
    /// emitted then. A dirty root has the whole subtree brought up to date
    /// and drawn, and is clean afterwards.
    pub fn render<R: Resources>(&mut self, root: usize, resources: &R, size: Size) -> (primitives:
        Option<Vec<Primitive>>)
        requires
            old(self).wf(),
            old(self).contains(root),
        ensures
            final(self).wf(),
            primitives is Some <==> old(self).dirty(root as int),
            primitives is None ==> final(self).controls() == old(self).controls(),
            primitives matches Some(emitted) ==> Self::renders(
                old(self),
                final(self),
                root,
                resources,
                size,
                emitted@,
            ),
            !final(self).dirty(root as int),
    {
        if !self.is_dirty(root) {
            return None;
        }
        let _ = self.get_preferred_size(root, resources, size);
        let ghost measured = *self;
        self.set_rect(root, Rect::new(0, 0, size.width, size.height));
        let ghost arranged = *self;
        let emitted = self.to_primitives(root, resources);
        self.set_is_dirty(root, false);
        assert(Self::same_but_dirty(&arranged, self));
        assert(Self::renders(old(self), self, root, resources, size, emitted@));
        Some(emitted)
    }

    /// A render pass leaves the root clean, so that a second pass with
    /// nothing changed in between emits nothing.
    pub proof fn law_render_clears_dirty<R: Resources>(
        pre: &Self,
        post: &Self,
        root: usize,
        resources: &R,
        size: Size,
        primitives: Seq<Primitive>,
    )
        requires
            pre.wf(),
            pre.contains(root),
            Self::renders(pre, post, root, resources, size, primitives),
        ensures
            !post.dirty(root as int),
    {
    }
}

} // verus!
