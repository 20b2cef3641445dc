//! Values attached to a control from outside, such as the title that a tab
//! control shows for one of its pages.

use vstd::prelude::*;
use crate::observable::{following_id, with_subscriber, EventSubscription, Handler, Subscriber};
use crate::property::{set_report, TextProperty};

verus! {

/// The key under which a control carries the title of its tab.
pub struct Title;

impl typemap::Key for Title {
    type Value = TextProperty;
}

/// The attached values of one control, kept in a `typemap::TypeMap`.
#[verifier::external_body]
pub struct AttachedValues {
    map: typemap::TypeMap,
}

/// The property stored under the key [`Title`], if there is one.
pub uninterp spec fn attached_title(values: AttachedValues) -> Option<TextProperty>;

/// Whether `after` is the attached title that storing `text` leaves behind
/// where `before` was attached: a title holding `text`, with the
/// subscribers of the earlier title, or with none where there was no title.
pub open spec fn retitled(before: Option<TextProperty>, after: Option<TextProperty>, text: Seq<char>) -> bool {
    match after {
        Some(title) => {
            &&& title.text() == text
            &&& match before {
                Some(earlier) => title.changed() == earlier.changed(),
                None => {
                    &&& title.changed().subscribers() == Seq::<Subscriber>::empty()
                    &&& title.changed().next_id() == 0
                },
            }
        },
        None => false,
    }
}

impl AttachedValues {
    /// `TypeMap::new`: a map that holds no value, so none under `Title`.
    #[verifier::external_body]
    pub(crate) fn empty() -> (values: Self)
        ensures
            attached_title(values) == None::<TextProperty>,
    {
        AttachedValues { map: typemap::TypeMap::new() }
    }

    /// `TypeMap::insert` with the key `Title`: afterwards the map holds
    /// `title` under that key, whatever it held there before.
    #[verifier::external_body]
    pub(crate) fn insert_title(&mut self, title: TextProperty)
        ensures
            attached_title(*final(self)) == Some(title),
    {
        self.map.insert::<Title>(title);
    }

    /// `TypeMap::remove` with the key `Title`: hands out the value stored
    /// under that key, if there was one, and leaves none under it.
    #[verifier::external_body]
    pub(crate) fn remove_title(&mut self) -> (title: Option<TextProperty>)
        ensures
            title == attached_title(*old(self)),
            attached_title(*final(self)) == None::<TextProperty>,
    {
        self.map.remove::<Title>()
    }

    /// `TypeMap::get` with the key `Title`: the value stored under that
    /// key, or `None` where the map holds none.
    #[verifier::external_body]
    pub(crate) fn get_title(&self) -> (title: Option<&TextProperty>)
        ensures
            match title {
                Some(found) => attached_title(*self) == Some(*found),
                None => attached_title(*self) == None::<TextProperty>,
            },
    {
        self.map.get::<Title>()
    }

    /// No attached value.
    pub fn new() -> (values: Self)
        ensures
            attached_title(values) == None::<TextProperty>,
    {
        Self::empty()
    }

    /// The values with `title` as the text of the attached title.
    pub fn with_title(self, title: String) -> (values: Self)
        ensures
            retitled(attached_title(self), attached_title(values), title@),
    {
        let mut values = self;
        let _ = values.set_title(title);
        values
    }

    /// The text of the attached title.
    pub fn title(&self) -> (title: Option<String>)
        ensures
            match title {
                Some(text) => attached_title(*self) matches Some(found) && found.text() == text@,
                None => attached_title(*self) == None::<TextProperty>,
            },
    {
        match self.get_title() {
            Some(found) => Some(found.get()),
            None => None,
        }
    }

    /// Makes `title` the text of the attached title, attaching a title
    /// where there was none. Returns the handlers to run: those of the
    /// subscribers of the title, if its text changed.
    pub fn set_title(&mut self, title: String) -> (fired: Vec<Handler>)
        ensures
            retitled(attached_title(*old(self)), attached_title(*final(self)), title@),
            fired@ == match attached_title(*old(self)) {
                Some(earlier) => set_report(earlier.text(), earlier.handlers(), title@),
                None => Seq::<Handler>::empty(),
            },
    {
        match self.remove_title() {
            Some(earlier) => {
                let mut property = earlier;
                let fired = property.set(title);
                self.insert_title(property);
                fired
            },
            None => {
                self.insert_title(TextProperty::new(title));
                Vec::new()
            },
        }
    }

    /// Subscribes `handler` to changes of the attached title. Returns the
    /// handle of the subscription, or `None` where no title is attached.
    pub fn on_title_changed(&mut self, handler: Handler) -> (sub: Option<EventSubscription>)
        ensures
            match attached_title(*old(self)) {
                Some(earlier) => {
                    &&& sub == Some(EventSubscription { id: earlier.changed().next_id() })
                    &&& attached_title(*final(self)) matches Some(title)
                    &&& title.text() == earlier.text()
                    &&& title.changed().next_id() == following_id(earlier.changed().next_id())
                    &&& title.changed().subscribers() == with_subscriber(
                        earlier.changed().subscribers(),
                        earlier.changed().next_id(),
                        handler,
                    )
                },
                None => sub == None::<EventSubscription> && attached_title(*final(self))
                    == None::<TextProperty>,
            },
    {
        match self.remove_title() {
            Some(earlier) => {
                let mut property = earlier;
                let sub = property.on_changed(handler);
                self.insert_title(property);
                Some(sub)
            },
            None => None,
        }
    }
}

} // verus!
