//! The markdown event vocabulary that the renderer consumes.
use vstd::prelude::*;

verus! {

/// The structural element that a `Start` or `End` event opens or closes.
#[derive(Clone, Copy, Debug, PartialEq, Eq, Structural)]
pub enum TagKind {
    Emphasis,
    Strong,
    /// A heading, with its level (1 to 6 for headings that the parser produces).
    Heading(u8),
    /// A fenced or an indented code block.
    CodeBlock,
    /// A list item.
    Item,
    /// Any element that the preview does not style (links, images, tables, ...).
    Other,
}

/// One event of a parsed markdown document, in document order.
#[derive(Clone, Debug, PartialEq)]
pub enum MdEvent {
    Start(TagKind),
    End(TagKind),
    Text(String),
    SoftBreak,
    HardBreak,
    Rule,
    /// Any event that the preview skips (inline code, html, footnotes, ...).
    Other,
}

/// True for the elements that open a style scope on the style stack.
pub open spec fn is_styled_tag(t: TagKind) -> bool {
    match t {
        TagKind::Emphasis | TagKind::Strong | TagKind::Heading(_) | TagKind::CodeBlock => true,
        _ => false,
    }
}

/// How an event changes the count of open style scopes.
pub open spec fn depth_delta(e: MdEvent) -> int {
    match e {
        MdEvent::Start(t) => if is_styled_tag(t) { 1 } else { 0 },
        MdEvent::End(t) => if is_styled_tag(t) { -1 } else { 0 },
        _ => 0,
    }
}

/// Number of style-scope `Start` events minus number of style-scope `End` events.
pub open spec fn open_balance(events: Seq<MdEvent>) -> int
    decreases events.len(),
{
    if events.len() == 0 {
        0
    } else {
        open_balance(events.drop_last()) + depth_delta(events.last())
    }
}

/// No prefix of the stream closes more style scopes than it has opened.
pub open spec fn never_overclosed(events: Seq<MdEvent>) -> bool {
    forall|k: int| 0 <= k <= events.len() ==> open_balance(#[trigger] events.take(k)) >= 0
}

/// A well-formed stream: every style scope that is closed was opened before,
/// and every one that is opened is closed again.
pub open spec fn well_formed(events: Seq<MdEvent>) -> bool {
    never_overclosed(events) && open_balance(events) == 0
}

} // verus!
