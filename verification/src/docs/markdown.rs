//! The events of a Markdown text, as far as a doc comment is read.

use vstd::prelude::*;

verus! {

/// One event of a Markdown text.
#[derive(Debug, Clone, PartialEq, Eq)]
pub enum DocEvent {
    /// A heading starts, of the level from 1 to 6 that is given.
    Heading(u8),
    /// A run of text.
    Text(String),
    /// An inline code span.
    Code(String),
    /// Any other event.
    Other,
}

/// The mathematical value of a [`DocEvent`].
pub enum DocEventView {
    Heading(u8),
    Text(Seq<char>),
    Code(Seq<char>),
    Other,
}

impl DeepView for DocEvent {
    type V = DocEventView;

    open spec fn deep_view(&self) -> DocEventView {
        match self {
            DocEvent::Heading(level) => DocEventView::Heading(*level),
            DocEvent::Text(t) => DocEventView::Text(t@),
            DocEvent::Code(c) => DocEventView::Code(c@),
            DocEvent::Other => DocEventView::Other,
        }
    }
}

/// The events that `pulldown_cmark::Parser::new` yields for a text, in their
/// order.
pub uninterp spec fn markdown_events(s: Seq<char>) -> Seq<DocEventView>;

/// Runs `pulldown_cmark::Parser::new` over `s`, with no extension enabled,
/// and keeps of each event what a doc comment is read by: that it starts a
/// heading and of which level, as the number from 1 to 6 that the
/// `HeadingLevel` stands for, the text of a text node, the text of an
/// inline code span, or that it is something else. The events depend on `s`
/// alone.
#[verifier::external_body]
pub(crate) fn parse_markdown(s: &str) -> (r: Vec<DocEvent>)
    ensures
        r.deep_view() == markdown_events(s@),
{
    let mut events = Vec::new();
    for event in pulldown_cmark::Parser::new(s) {
        events.push(
            match event {
                pulldown_cmark::Event::Start(pulldown_cmark::Tag::Heading(level, _, _)) => {
                    DocEvent::Heading(level as u8)
                },
                pulldown_cmark::Event::Text(t) => DocEvent::Text(t.to_string()),
                pulldown_cmark::Event::Code(c) => DocEvent::Code(c.to_string()),
                _ => DocEvent::Other,
            },
        );
    }
    events
}

} // verus!
