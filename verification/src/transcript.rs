//! The listener's side of the stream: the text that the events add up to.

use crate::events::{EventView, TokenEvent};
use vstd::prelude::*;
use vstd::string::StringExecFns;

verus! {

/// The text after one more event: a fragment is appended as it is, and the
/// sentinel ends the line.
pub open spec fn text_after(text: Seq<char>, event: EventView) -> Seq<char> {
    match event {
        EventView::Token(fragment) => text + fragment,
        EventView::End => text.push('\n'),
    }
}

/// The text after a sequence of events, taken in order.
pub open spec fn text_after_all(text: Seq<char>, events: Seq<EventView>) -> Seq<char>
    decreases events.len(),
{
    if events.len() == 0 {
        text
    } else {
        text_after(text_after_all(text, events.drop_last()), events.last())
    }
}

/// The fragments of text joined, in order, with nothing between them.
pub open spec fn joined(fragments: Seq<Seq<char>>) -> Seq<char>
    decreases fragments.len(),
{
    if fragments.len() == 0 {
        Seq::empty()
    } else {
        joined(fragments.drop_last()) + fragments.last()
    }
}

/// The answers received so far, as one text: every fragment in the order of
/// its arrival, and a line break where a run ended.
pub struct Transcript {
    text: String,
}

impl View for Transcript {
    type V = Seq<char>;

    closed spec fn view(&self) -> Seq<char> {
        self.text@
    }
}

impl Transcript {
    /// An empty transcript.
    pub fn new() -> (transcript: Transcript)
        ensures
            transcript@ == Seq::<char>::empty(),
    {
        Transcript { text: String::new() }
    }

    /// A transcript that starts from a text received earlier.
    pub fn from_text(text: String) -> (transcript: Transcript)
        ensures
            transcript@ == text@,
    {
        Transcript { text }
    }

    /// Takes one event in.
    pub fn receive(&mut self, event: &TokenEvent)
        ensures
            final(self)@ == text_after(old(self)@, event@),
    {
        match event {
            TokenEvent::Token(fragment) => {
                self.text.append(fragment.as_str());
            },
            TokenEvent::End => {
                proof {
                    reveal_strlit("\n");
                }
                self.text.append("\n");
                assert(self.text@ =~= old(self).text@.push('\n'));
            },
        }
    }

    /// The text so far.
    pub fn text(&self) -> (text: String)
        ensures
            text@ == self@,
    {
        self.text.clone()
    }
}

/// What a listener reads after a run that completed: the text it had, then
/// the fragments joined in the order of their production, then a line break.
/// After a run that failed it reads the same without the line break.
pub proof fn law_transcript_joins_the_fragments(text: Seq<char>, fragments: Seq<Seq<char>>)
    ensures
        text_after_all(text, crate::events::tokens_as_events(fragments)) == text + joined(
            fragments,
        ),
        text_after_all(
            text,
            crate::events::tokens_as_events(fragments).push(EventView::End),
        ) == (text + joined(fragments)).push('\n'),
    decreases fragments.len(),
{
    let events = crate::events::tokens_as_events(fragments);
    if fragments.len() == 0 {
        assert(text + joined(fragments) =~= text);
    } else {
        law_transcript_joins_the_fragments(text, fragments.drop_last());
        assert(events.drop_last() =~= crate::events::tokens_as_events(fragments.drop_last()));
        assert(text + joined(fragments) =~= (text + joined(fragments.drop_last()))
            + fragments.last());
    }
    assert(events.push(EventView::End).drop_last() =~= events);
}

} // verus!
