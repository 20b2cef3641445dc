//! The application: one window's tree of controls, and the two entry
//! points that the event loop calls, one per window event and one per
//! frame.
//!
//! The event loop itself lives outside. For each window event it calls
//! `process_event`, runs the callbacks whose keys come back, and then calls
//! `render` and hands the primitives to the renderer.

use vstd::prelude::*;
use crate::callback::CallbackExecutor;
use crate::common::{Rect, Size};
use crate::control::{callback_keys, ControlTree};
use crate::drawing::Primitive;
use crate::events::InputEvent;
use crate::observable::Event;
use crate::routing::EventProcessor;
use crate::style::{Resources, Style};

verus! {

pub struct Application<D, S> {
    pub title: String,
    /// Fires once for every window event, after the event was routed.
    pub events_loop_interation: Event,
    pub event_processor: EventProcessor,
    pub callback_executor: CallbackExecutor,
    pub tree: ControlTree<D, S>,
    /// The control that fills the window.
    pub root_view: Option<usize>,
    /// The size of the client area of the window.
    pub width: u32,
    pub height: u32,
    /// Whether the window is still open.
    pub running: bool,
    /// The number of frames drawn so far.
    pub frame_no: u64,
}

/// A length of the window as a pixel distance.
pub open spec fn window_px(length: u32) -> i32 {
    if length > i32::MAX {
        i32::MAX
    } else {
        length as i32
    }
}

/// The client area of a window as a size.
pub open spec fn client_size(width: u32, height: u32) -> Size {
    Size { width: window_px(width), height: window_px(height) }
}

fn to_px(length: u32) -> (px: i32)
    ensures
        px == window_px(length),
{
    if length > i32::MAX as u32 {
        i32::MAX
    } else {
        length as i32
    }
}

/// The count of frames after one more, which stops at the largest number.
pub open spec fn next_frame(frame_no: u64) -> u64 {
    if frame_no < u64::MAX {
        (frame_no + 1) as u64
    } else {
        frame_no
    }
}

impl<D, S: Style<D>> Application<D, S> {
    /// The tree is well-formed and holds the root.
    pub open spec fn wf(&self) -> bool {
        &&& self.tree.wf()
        &&& match self.root_view {
            Some(root) => self.tree.contains(root),
            None => true,
        }
    }

    /// What the window event itself does to the tree `pre`, before it is
    /// routed: a refresh marks the root dirty; a resize measures and
    /// arranges the tree beneath the root at the new size, dirty or not;
    /// any other event, and any event without a root, leaves the tree as
    /// it is.
    pub open spec fn window_step<R: Resources>(
        pre: &ControlTree<D, S>,
        post: &ControlTree<D, S>,
        root_view: Option<usize>,
        event: InputEvent,
        resources: &R,
    ) -> bool {
        match (root_view, event) {
            (Some(root), InputEvent::Refresh) => {
                &&& ControlTree::same_but_dirty(pre, post)
                &&& forall|j: int|
                    0 <= j < pre.count() ==> #[trigger] post.dirty(j) == (pre.dirty(j)
                        || pre.in_chain(j, root as int))
            },
            (Some(root), InputEvent::Resized { width, height }) => {
                exists|measured: ControlTree<D, S>|
                    {
                        &&& #[trigger] ControlTree::same_but_layout(pre, &measured)
                        &&& forall|i: int|
                            0 <= i < pre.count() ==> #[trigger] ControlTree::measured_at(
                                pre,
                                &measured,
                                root,
                                resources,
                                client_size(width, height),
                                i,
                            )
                        &&& ControlTree::same_but_layout(&measured, post)
                        &&& post.controls()[root as int].rect == (Rect {
                            x: 0,
                            y: 0,
                            width: window_px(width),
                            height: window_px(height),
                        })
                        &&& forall|i: int|
                            0 <= i < pre.count() ==> #[trigger] ControlTree::arranged_at(
                                &measured,
                                post,
                                root,
                                i,
                            )
                    }
            },
            _ => post.controls() == pre.controls(),
        }
    }

    /// How `process_event(event)` takes the application from `pre` to
    /// `post` and which callbacks it hands out: the window event takes
    /// effect, then it is routed into the tree, then the iteration event
    /// fires, and at last the callback queue is emptied. The callbacks of
    /// the subscribers of the iteration event come first, then those that
    /// were waiting in the queue, oldest first.
    pub open spec fn processes<R: Resources>(
        pre: &Self,
        post: &Self,
        event: InputEvent,
        resources: &R,
        keys: Seq<usize>,
    ) -> bool {
        &&& post.title == pre.title
        &&& post.events_loop_interation == pre.events_loop_interation
        &&& post.root_view == pre.root_view
        &&& post.frame_no == pre.frame_no
        &&& post.running == (pre.running && event != InputEvent::CloseRequested)
        &&& (post.width, post.height) == match event {
            InputEvent::Resized { width, height } => (width, height),
            _ => (pre.width, pre.height),
        }
        &&& post.callback_executor@ == Seq::<usize>::empty()
        &&& exists|windowed: ControlTree<D, S>, routed: ControlTree<D, S>, waiting: Seq<usize>|
            {
                &&& #[trigger] Self::routes(pre, post, &windowed, &routed, event, waiting)
                &&& Self::window_step(&pre.tree, &windowed, pre.root_view, event, resources)
                &&& ControlTree::same_but_dirty(&routed, &post.tree)
                &&& forall|j: int|
                    0 <= j < routed.count() ==> #[trigger] post.tree.dirty(j) == (routed.dirty(j)
                        || routed.marks(pre.events_loop_interation.handlers(), j))
                &&& keys == callback_keys(pre.events_loop_interation.handlers()) + waiting
            }
    }

    /// How the event is routed into the tree `windowed`, which gives the
    /// tree `routed` and leaves `waiting` in the callback queue. Without a
    /// root nothing is routed.
    pub open spec fn routes(
        pre: &Self,
        post: &Self,
        windowed: &ControlTree<D, S>,
        routed: &ControlTree<D, S>,
        event: InputEvent,
        waiting: Seq<usize>,
    ) -> bool {
        match pre.root_view {
            Some(root) => EventProcessor::processes(
                &pre.event_processor,
                &post.event_processor,
                windowed,
                routed,
                root,
                event,
                pre.callback_executor@,
                waiting,
            ),
            None => {
                &&& post.event_processor == pre.event_processor
                &&& routed.controls() == windowed.controls()
                &&& waiting == pre.callback_executor@
            },
        }
    }

    /// Whether `render` draws a frame: the window is open and has an
    /// extent, and there is a root that is dirty.
    pub open spec fn draws(&self) -> bool {
        &&& self.running
        &&& self.width > 0
        &&& self.height > 0
        &&& match self.root_view {
            Some(root) => self.tree.dirty(root as int),
            None => false,
        }
    }

    /// How drawing a frame takes the application from `pre` to `post` and
    /// what it emits: the tree beneath the root goes through one render
    /// pass at the size of the window, and the frame is counted.
    pub open spec fn draws_frame<R: Resources>(
        pre: &Self,
        post: &Self,
        resources: &R,
        emitted: Seq<Primitive>,
    ) -> bool {
        &&& *post == (Application {
            tree: post.tree,
            frame_no: next_frame(pre.frame_no),
            ..*pre
        })
        &&& ControlTree::renders(
            &pre.tree,
            &post.tree,
            pre.root_view->0,
            resources,
            client_size(pre.width, pre.height),
            emitted,
        )
    }

    /// Drawing a frame leaves the root clean, so that no second frame is
    /// drawn until something changes. A frame is drawn for a dirty root
    /// while the window is open and has an extent.
    pub proof fn law_frame_clears_dirty<R: Resources>(
        pre: &Self,
        post: &Self,
        resources: &R,
        emitted: Seq<Primitive>,
    )
        requires
            pre.wf(),
            pre.draws(),
            Self::draws_frame(pre, post, resources, emitted),
        ensures
            !post.tree.dirty(pre.root_view->0 as int),
            !post.draws(),
    {
    }

    /// An application without a root and without a window size yet.
    pub fn new(title: String) -> (app: Self)
        ensures
            app.wf(),
            app.title == title,
            app.tree.count() == 0,
            app.root_view == None::<usize>,
            app.width == 0,
            app.height == 0,
            app.running,
            app.frame_no == 0,
            app.callback_executor@ == Seq::<usize>::empty(),
            app.events_loop_interation.handlers() == Seq::<crate::observable::Handler>::empty(),
            app.event_processor.hover_control == None::<usize>,
            app.event_processor.captured_control == None::<usize>,
    {
        let events_loop_interation = Event::new();
        assert(events_loop_interation.handlers() =~= Seq::empty());
        Application {
            title,
            events_loop_interation,
            event_processor: EventProcessor::new(),
            callback_executor: CallbackExecutor::new(),
            tree: ControlTree::new(),
            root_view: None,
            width: 0,
            height: 0,
            running: true,
            frame_no: 0,
        }
    }

    pub fn get_title(&self) -> (title: &String)
        ensures
            *title == self.title,
    {
        &self.title
    }

    /// Makes the control `root` fill the window. Returns `false` and
    /// changes nothing where the tree holds no such control.
    pub fn set_root_view(&mut self, root: usize) -> (set: bool)
        requires
            old(self).wf(),
        ensures
            final(self).wf(),
            set == old(self).tree.contains(root),
            *final(self) == (Application {
                root_view: if set {
                    Some(root)
                } else {
                    old(self).root_view
                },
                ..*old(self)
            }),
    {
        if root < self.tree.len() {
            self.root_view = Some(root);
            true
        } else {
            false
        }
    }

    pub fn clear_root(&mut self)
        requires
            old(self).wf(),
        ensures
            final(self).wf(),
            *final(self) == (Application { root_view: None, ..*old(self) }),
    {
        self.root_view = None;
    }

    pub fn is_running(&self) -> (running: bool)
        ensures
            running == self.running,
    {
        self.running
    }

    /// Takes in one window event. Returns the keys of the callbacks to run
    /// before the next frame, in the order in which they were queued.
    pub fn process_event<R: Resources>(&mut self, event: &InputEvent, resources: &R) -> (keys: Vec<
        usize,
    >)
        requires
            old(self).wf(),
        ensures
            final(self).wf(),
            final(self).tree.count() == old(self).tree.count(),
            Self::processes(old(self), final(self), *event, resources, keys@),
    {
        match event {
            InputEvent::CloseRequested => {
                self.running = false;
            },
            InputEvent::Refresh => {
                match self.root_view {
                    Some(root) => {
                        self.tree.set_is_dirty(root, true);
                    },
                    None => {},
                }
            },
            InputEvent::Resized { width, height } => {
                self.width = *width;
                self.height = *height;
                match self.root_view {
                    Some(root) => {
                        let size = Size::new(to_px(*width), to_px(*height));
                        let _ = self.tree.get_preferred_size(root, resources, size);
                        self.tree.set_rect(root, Rect::new(0, 0, size.width, size.height));
                    },
                    None => {},
                }
            },
            _ => {},
        }
        let ghost windowed = self.tree;
        assert(Self::window_step(&old(self).tree, &windowed, old(self).root_view, *event, resources));
        match self.root_view {
            Some(root) => {
                self.event_processor.handle_event(
                    &mut self.tree,
                    root,
                    event,
                    &mut self.callback_executor,
                );
            },
            None => {},
        }
        let ghost routed = self.tree;
        let ghost waiting = self.callback_executor@;
        let mut queued = self.callback_executor.execute_all_in_queue();
        let fired = self.events_loop_interation.emit();
        self.tree.dispatch(&fired, &mut self.callback_executor);
        let mut keys = self.callback_executor.execute_all_in_queue();
        keys.append(&mut queued);
        assert(Self::routes(old(self), self, &windowed, &routed, *event, waiting));
        keys
    }

    /// Draws a frame if one is due. A frame is due while the window is open
    /// and has an extent and the root is dirty; the tree is then measured
    /// and arranged at the size of the window and drawn, and the root is
    /// clean afterwards. Otherwise nothing changes and nothing is returned.
    pub fn render<R: Resources>(&mut self, resources: &R) -> (primitives: Option<Vec<Primitive>>)
        requires
            old(self).wf(),
        ensures
            final(self).wf(),
            primitives is Some <==> old(self).draws(),
            !final(self).draws(),
            primitives is None ==> *final(self) == *old(self),
            primitives matches Some(emitted) ==> Self::draws_frame(
                old(self),
                final(self),
                resources,
                emitted@,
            ),
            primitives is Some ==> !final(self).tree.dirty(old(self).root_view->0 as int),
    {
        if !self.running || self.width == 0 || self.height == 0 {
            return None;
        }
        match self.root_view {
            Some(root) => {
                if !self.tree.is_dirty(root) {
                    return None;
                }
                if self.frame_no < u64::MAX {
                    self.frame_no = self.frame_no + 1;
                }
                let size = Size::new(to_px(self.width), to_px(self.height));
                self.tree.render(root, resources, size)
            },
            None => None,
        }
    }
}

} // verus!
