use vstd::prelude::*;

use super::ElmModel;

verus! {

/// The events of the concatenated view.
#[derive(Clone, Debug, PartialEq)]
pub enum Events {
    Foo(String),
    Bar(String),
}

/// The `Debug` rendering of a string: the text quoted, with special characters escaped.
pub uninterp spec fn string_debug(text: Seq<char>) -> Seq<char>;

/// Renders a string with `Debug`.
#[verifier::external_body]
fn debug_string(text: &String) -> (rendered: String)
    ensures
        rendered@ == string_debug(text@),
{
    format!("{:?}", text)
}

/// The `Debug` rendering of an event: its variant name and its rendered text in brackets.
pub open spec fn event_text(event: Events) -> Seq<char> {
    match event {
        Events::Foo(text) => seq!['F', 'o', 'o', '('] + string_debug(text@) + seq![')'],
        Events::Bar(text) => seq!['B', 'a', 'r', '('] + string_debug(text@) + seq![')'],
    }
}

/// A text made by appending, for each event, a dash and the event's rendering.
#[derive(Clone, Debug)]
pub struct Model {
    value: String,
}

impl Model {
    pub closed spec fn text(&self) -> Seq<char> {
        self.value@
    }

    /// The text so far.
    pub fn value(&self) -> (value: String)
        ensures
            value@ == self.text(),
    {
        self.value.clone()
    }
}

impl Default for Model {
    /// An empty text.
    fn default() -> (model: Self)
        ensures
            model.text() == Seq::<char>::empty(),
    {
        Model { value: String::new() }
    }
}

impl ElmModel for Model {
    type TEvents = Events;

    /// The text gains a dash and the rendering of the event.
    open spec fn updates(&self, event: Events, next: Self) -> bool {
        next.text() == self.text() + seq!['-'] + event_text(event)
    }

    fn update(&mut self, event: Events) {
        proof {
            reveal_strlit("-");
            reveal_strlit("Foo(");
            reveal_strlit("Bar(");
            reveal_strlit(")");
        }
        let ghost before = self.value@;
        self.value.append("-");
        match &event {
            Events::Foo(text) => {
                self.value.append("Foo(");
                self.value.append(debug_string(text).as_str());
            },
            Events::Bar(text) => {
                self.value.append("Bar(");
                self.value.append(debug_string(text).as_str());
            },
        }
        self.value.append(")");
        assert(self.value@ =~= before + seq!['-'] + event_text(event));
    }
}

} // verus!
