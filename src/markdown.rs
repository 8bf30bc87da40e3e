//! Markdown text to directives, through pulldown-cmark's event parser.
use vstd::prelude::*;
use pulldown_cmark::{Event as CmEvent, Options, Parser, Tag as CmTag};
use crate::events::{MdEvent, TagKind};
use crate::render::{Directive, render_events, render_spec, views};

verus! {

/// The event stream that pulldown-cmark produces for a text, with
/// strikethrough enabled.
pub uninterp spec fn markdown_events(text: Seq<char>) -> Seq<MdEvent>;

/// Relies on `pulldown_cmark::Parser::new_ext` (with `ENABLE_STRIKETHROUGH`),
/// iterated to the end: the events depend on the text alone. Each event is
/// converted variant for variant; those the preview skips become `Other`.
#[verifier::external_body]
fn parse_markdown(text: &str) -> (r: Vec<MdEvent>)
    ensures
        r@ == markdown_events(text@),
{
    let kind = |t: CmTag| match t {
        CmTag::Emphasis => TagKind::Emphasis, CmTag::Strong => TagKind::Strong,
        CmTag::Heading(level, _, _) => TagKind::Heading(level as u8),
        CmTag::CodeBlock(_) => TagKind::CodeBlock, CmTag::Item => TagKind::Item,
        _ => TagKind::Other,
    };
    Parser::new_ext(text, Options::ENABLE_STRIKETHROUGH).map(|e| match e {
        CmEvent::Start(t) => MdEvent::Start(kind(t)),
        CmEvent::End(t) => MdEvent::End(kind(t)),
        CmEvent::Text(s) => MdEvent::Text(s.to_string()),
        CmEvent::SoftBreak => MdEvent::SoftBreak,
        CmEvent::HardBreak => MdEvent::HardBreak,
        CmEvent::Rule => MdEvent::Rule,
        _ => MdEvent::Other,
    }).collect()
}

/// Parses markdown text and renders its event stream into the directives
/// that the preview appends to its surface, in order.
pub fn render_markdown(text: &str) -> (r: Vec<Directive>)
    ensures
        views(r@) == render_spec(markdown_events(text@)),
{
    let events = parse_markdown(text);
    render_events(&events)
}

} // verus!
