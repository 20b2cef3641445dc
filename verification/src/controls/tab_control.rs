//! The tab control: a row of tab buttons, one for each page, of which one
//! is checked, and the page of the checked button on show.

use vstd::prelude::*;
use vstd::string::StringExecFns;
use crate::attached::{attached_title, AttachedValues};
use crate::control::ControlTree;
use crate::observable::{following_id, with_subscriber, Event, EventSubscription, Handler, Subscriber};
use crate::property::{set_report, Property};

verus! {

pub struct TabControl {
    /// The index of the page on show.
    pub selected_index: Property<usize>,
}

/// The state of the button of one tab. The button shows the title that is
/// attached to its page, and follows it when it changes.
pub struct TabButtonViewModel {
    pub is_checked: Property<bool>,
    /// Fires whenever the button becomes checked.
    pub checked: Event,
    /// The control of the page.
    pub content: usize,
}

/// The title of a tab whose page carries the attached values `values`: the
/// text of the attached title, or "Tab" where there is none.
pub open spec fn tab_title(values: AttachedValues) -> Seq<char> {
    match attached_title(values) {
        Some(title) => title.text(),
        None => "Tab"@,
    }
}

impl TabButtonViewModel {
    /// What the button shows, for a page in `tree`.
    pub open spec fn title_in<D, S>(&self, tree: &ControlTree<D, S>) -> Seq<char> {
        tab_title(tree.controls()[self.content as int].attached_values)
    }

    /// The button for the page `content`: unchecked, and with nobody
    /// subscribed to it.
    #[allow(unused_variables)]
    pub fn new<D, S>(tree: &ControlTree<D, S>, content: usize) -> (button: Self)
        requires
            tree.contains(content),
        ensures
            button.content == content,
            button.title_in(tree) == tab_title(tree.controls()[content as int].attached_values),
            !button.is_checked.value(),
            button.is_checked.changed().subscribers() == Seq::<Subscriber>::empty(),
            button.is_checked.changed().next_id() == 0,
            button.checked.subscribers() == Seq::<Subscriber>::empty(),
            button.checked.next_id() == 0,
    {
        TabButtonViewModel { is_checked: Property::new(false), checked: Event::new(), content }
    }

    /// The title of the button: the text of the title that is attached to
    /// its page now, or "Tab" where none is attached.
    pub fn title<D, S>(&self, tree: &ControlTree<D, S>) -> (title: String)
        requires
            tree.contains(self.content),
        ensures
            title@ == self.title_in(tree),
    {
        match tree.get_attached_values(self.content).title() {
            Some(title) => title,
            None => String::from_str("Tab"),
        }
    }

    pub fn is_checked(&self) -> (checked: bool)
        ensures
            checked == self.is_checked.value(),
    {
        self.is_checked.get()
    }

    /// Whether setting the button to `is_checked` makes a checked button
    /// of an unchecked one.
    pub open spec fn becomes_checked(&self, is_checked: bool) -> bool {
        is_checked && !self.is_checked.value()
    }

    /// The page that `selected_tab` holds after this button was set to
    /// `is_checked`: a button that becomes checked selects its page.
    pub open spec fn selects(&self, is_checked: bool, selected: usize) -> usize {
        if self.becomes_checked(is_checked) {
            self.content
        } else {
            selected
        }
    }

    /// Subscribes `handler` to the button becoming checked.
    pub fn on_checked(&mut self, handler: Handler) -> (sub: EventSubscription)
        ensures
            *final(self) == (TabButtonViewModel { checked: final(self).checked, ..*old(self) }),
            sub.id == old(self).checked.next_id(),
            final(self).checked.next_id() == following_id(old(self).checked.next_id()),
            final(self).checked.subscribers() == with_subscriber(
                old(self).checked.subscribers(),
                old(self).checked.next_id(),
                handler,
            ),
    {
        self.checked.subscribe(handler)
    }

    /// Checks or unchecks the button. A button that becomes checked puts
    /// its page into `selected_tab`. Returns the handlers to run: those of
    /// `selected_tab` if the page on show changed, then those of the
    /// button if its state changed, then those subscribed to the button
    /// becoming checked if it did.
    pub fn set_is_checked(&mut self, is_checked: bool, selected_tab: &mut Property<usize>) -> (fired:
        Vec<Handler>)
        ensures
            final(self).content == old(self).content,
            final(self).checked == old(self).checked,
            old(self).is_checked.set_to(&final(self).is_checked, is_checked),
            old(selected_tab).set_to(
                final(selected_tab),
                old(self).selects(is_checked, old(selected_tab).value()),
            ),
            fired@ == set_report(
                old(selected_tab).value(),
                old(selected_tab).handlers(),
                old(self).selects(is_checked, old(selected_tab).value()),
            ) + set_report(
                old(self).is_checked.value(),
                old(self).is_checked.handlers(),
                is_checked,
            ) + if old(self).becomes_checked(is_checked) {
                old(self).checked.handlers()
            } else {
                Seq::<Handler>::empty()
            },
    {
        broadcast use vstd::laws_eq::group_laws_eq;

        let becomes_checked = is_checked && !self.is_checked.get();
        let mut fired: Vec<Handler> = Vec::new();
        if becomes_checked {
            let mut selected = selected_tab.set(self.content);
            fired.append(&mut selected);
        }
        let mut changed = self.is_checked.set(is_checked);
        fired.append(&mut changed);
        if becomes_checked {
            let mut checked = self.checked.emit();
            fired.append(&mut checked);
        }
        assert(fired@ =~= set_report(
            old(selected_tab).value(),
            old(selected_tab).handlers(),
            old(self).selects(is_checked, old(selected_tab).value()),
        ) + set_report(
            old(self).is_checked.value(),
            old(self).is_checked.handlers(),
            is_checked,
        ) + if old(self).becomes_checked(is_checked) {
            old(self).checked.handlers()
        } else {
            Seq::<Handler>::empty()
        });
        fired
    }
}

/// A tab control with its pages: the button of each page, in the order of
/// the pages, and the page on show. Each button shows the title attached
/// to its page.
pub struct TabView {
    pub control: TabControl,
    pub tabs: Vec<TabButtonViewModel>,
    pub selected_tab: Property<usize>,
}

impl TabControl {
    /// A tab control that shows its first page.
    pub fn new() -> (control: Self)
        ensures
            control.selected_index.value() == 0,
            control.selected_index.handlers().len() == 0,
    {
        TabControl { selected_index: Property::new(0) }
    }

    /// Whether each of `pages` is a control of `tree`.
    pub open spec fn holds<D, S>(tree: &ControlTree<D, S>, pages: Seq<usize>) -> bool {
        forall|k: int| 0 <= k < pages.len() ==> tree.contains(#[trigger] pages[k])
    }

    /// Makes the button of each of `pages` and puts the first page on
    /// show. Returns `None` where there is no page or a page is no control
    /// of the tree.
    pub fn to_view<D, S>(self, tree: &ControlTree<D, S>, pages: &Vec<usize>) -> (view: Option<
        TabView,
    >)
        ensures
            view is Some <==> pages@.len() > 0 && Self::holds(tree, pages@),
            view matches Some(v) ==> {
                &&& v.control == self
                &&& v.selected_tab.value() == pages@[0]
                &&& v.selected_tab.handlers().len() == 0
                &&& v.tabs@.len() == pages@.len()
                &&& forall|k: int|
                    0 <= k < pages@.len() ==> {
                        &&& (#[trigger] v.tabs@[k]).content == pages@[k]
                        &&& !v.tabs@[k].is_checked.value()
                        &&& v.tabs@[k].is_checked.handlers().len() == 0
                        &&& v.tabs@[k].checked.handlers().len() == 0
                    }
            },
    {
        if pages.len() == 0 {
            return None;
        }
        let mut tabs: Vec<TabButtonViewModel> = Vec::new();
        let mut k: usize = 0;
        while k < pages.len()
            invariant
                k <= pages@.len(),
                Self::holds(tree, pages@.take(k as int)),
                tabs@.len() == k,
                forall|a: int|
                    0 <= a < k ==> {
                        &&& (#[trigger] tabs@[a]).content == pages@[a]
                        &&& !tabs@[a].is_checked.value()
                        &&& tabs@[a].is_checked.handlers().len() == 0
                        &&& tabs@[a].checked.handlers().len() == 0
                    },
            decreases pages.len() - k,
        {
            let page = pages[k];
            if page >= tree.len() {
                return None;
            }
            tabs.push(TabButtonViewModel::new(tree, page));
            assert forall|a: int| 0 <= a < k + 1 implies tree.contains(
                #[trigger] pages@.take(k as int + 1)[a],
            ) by {
                if a < k {
                    assert(pages@.take(k as int)[a] == pages@[a]);
                }
            }
            k += 1;
        }
        assert(pages@.take(k as int) =~= pages@);
        Some(TabView { control: self, tabs, selected_tab: Property::new(pages[0]) })
    }
}

} // verus!
