//! Windows and their titles.

use crate::atom::nul_free;
use crate::session::{known_after, next_step, Event, Query, Session, Step, StepView};
use crate::windows::Windows;
use crate::{NotSupported, Null};
use vstd::prelude::*;

verus! {

/// The number by which the server knows a window. It carries no ownership
/// and means something only to the connection that gave it.
#[derive(Copy, Clone, Debug, PartialEq, Eq, Structural)]
pub struct Window(pub u64);

/// The title of a window: the bytes of its name, none of them zero. The
/// bytes are the title's own, and in no particular encoding.
#[derive(Debug)]
pub struct WindowTitle(Vec<u8>);

impl View for WindowTitle {
    type V = Seq<u8>;

    closed spec fn view(&self) -> Seq<u8> {
        self.0@
    }
}

/// Whether `text` is the C string at the start of `buffer`: the bytes
/// before the first zero byte, or the whole buffer where it has none.
pub open spec fn is_text_of(text: Seq<u8>, buffer: Seq<u8>) -> bool {
    &&& text.len() <= buffer.len()
    &&& text == buffer.take(text.len() as int)
    &&& nul_free(text)
    &&& text.len() < buffer.len() ==> buffer[text.len() as int] == 0
}

/// A step of the query for all windows, as the step of a query for the
/// first of them: requests stay as they are, and the answer is the first
/// window of the list. A query that ends with an empty list, or
/// unsupported, has no answer.
pub open spec fn first_window(step: StepView<Seq<Window>>) -> StepView<Window> {
    match step {
        StepView::DefaultRootWindow => StepView::DefaultRootWindow,
        StepView::InternAtom(name) => StepView::InternAtom(name),
        StepView::GetWindowProperty(request) => StepView::GetWindowProperty(request),
        StepView::Done(Some(windows)) => if windows.len() > 0 {
            StepView::Done(Some(windows[0]))
        } else {
            StepView::Done(None)
        },
        StepView::Done(None) => StepView::Done(None),
    }
}

impl Window {
    /// Takes one step of the query for the window that has the focus, which
    /// reads `_NET_ACTIVE_WINDOW` on the root window and answers with the
    /// first window that the property holds.
    pub fn active_window<D>(session: &mut Session<D>, event: Option<Event>) -> (step: Step<Window>)
        ensures
            final(session).display == old(session).display,
            final(session).known() == known_after(
                old(session).known(),
                Query::ActiveWindow.spec_name(),
                event,
            ),
            step@ == first_window(
                next_step(old(session).known(), Query::ActiveWindow.spec_name(), event),
            ),
    {
        match session.advance(Query::ActiveWindow, event) {
            Step::Perform(action) => Step::Perform(action),
            Step::Done(Ok(windows)) => {
                let list: &Vec<Window> = windows.as_vec();
                if list.len() > 0 {
                    Step::Done(Ok(list[0]))
                } else {
                    Step::Done(Err(NotSupported))
                }
            },
            Step::Done(Err(error)) => Step::Done(Err(error)),
        }
    }

    /// Makes the title of this window out of what the server gave for its
    /// name: `value` is the buffer of the text property, and `None` where
    /// the server gave a null pointer.
    ///
    /// Without a buffer there is no title. With one, the title is the C
    /// string at its start.
    pub fn get_title(&self, value: Option<&[u8]>) -> (result: Result<WindowTitle, Null>)
        ensures
            match result {
                Ok(title) => value matches Some(buffer) && is_text_of(title@, buffer@),
                Err(_) => value is None,
            },
    {
        match value {
            None => Err(Null),
            Some(buffer) => {
                let mut text: Vec<u8> = Vec::new();
                let mut index: usize = 0;
                while index < buffer.len() && buffer[index] != 0
                    invariant
                        index <= buffer@.len(),
                        text@ == buffer@.take(index as int),
                        nul_free(text@),
                    decreases buffer@.len() - index,
                {
                    text.push(buffer[index]);
                    index = index + 1;
                }
                Ok(WindowTitle(text))
            },
        }
    }
}

impl WindowTitle {
    #[verifier::type_invariant]
    spec fn holds_no_nul(self) -> bool {
        nul_free(self.0@)
    }

    /// The bytes of the title. None of them is zero.
    pub fn as_bytes(&self) -> (bytes: &[u8])
        ensures
            bytes@ == self@,
            nul_free(bytes@),
    {
        proof {
            use_type_invariant(self);
        }
        self.0.as_slice()
    }

    /// Gives the title up as its bytes. None of them is zero.
    pub fn into_bytes(self) -> (bytes: Vec<u8>)
        ensures
            bytes@ == self@,
            nul_free(bytes@),
    {
        proof {
            use_type_invariant(&self);
        }
        self.0
    }
}

/// A buffer has one title: two texts that are both the C string at the
/// start of a buffer are the same.
pub proof fn lemma_text_is_unique(first: Seq<u8>, second: Seq<u8>, buffer: Seq<u8>)
    requires
        is_text_of(first, buffer),
        is_text_of(second, buffer),
    ensures
        first == second,
{
    if first.len() < second.len() {
        assert(second[first.len() as int] == buffer[first.len() as int]);
    } else if second.len() < first.len() {
        assert(first[second.len() as int] == buffer[second.len() as int]);
    }
}

/// The title of a buffer without a zero byte is the buffer, byte for byte.
pub proof fn lemma_text_of_nul_free(text: Seq<u8>, buffer: Seq<u8>)
    requires
        nul_free(buffer),
        is_text_of(text, buffer),
    ensures
        text == buffer,
{
}

} // verus!
