//! The style stack tracker: the state that start and end events change.
use vstd::prelude::*;
use crate::events::{TagKind, MdEvent};
use crate::style::StyleMarker;

verus! {

/// The marker that a start of this element pushes, if it is a style scope.
pub open spec fn marker_of(t: TagKind) -> Option<StyleMarker> {
    match t {
        TagKind::Emphasis => Some(StyleMarker::Italic),
        TagKind::Strong => Some(StyleMarker::Bold),
        TagKind::Heading(level) => Some(StyleMarker::Heading(level)),
        TagKind::CodeBlock => Some(StyleMarker::CodeBlock),
        _ => None,
    }
}

/// The stack after one event. A style-scope end on an empty stack is ignored.
pub open spec fn next_stack(stack: Seq<StyleMarker>, e: MdEvent) -> Seq<StyleMarker> {
    match e {
        MdEvent::Start(t) => match marker_of(t) {
            Some(m) => stack.push(m),
            None => stack,
        },
        MdEvent::End(t) => if marker_of(t).is_some() && stack.len() > 0 {
            stack.drop_last()
        } else {
            stack
        },
        _ => stack,
    }
}

/// The list-context flag after one event.
pub open spec fn next_in_list(in_list: bool, e: MdEvent) -> bool {
    match e {
        MdEvent::Start(TagKind::Item) => true,
        MdEvent::End(TagKind::Item) => false,
        _ => in_list,
    }
}

/// The state of the tracker: the open style scopes, outermost first, and
/// whether the current position is inside a list item.
pub struct StyleTracker {
    pub stack: Vec<StyleMarker>,
    pub in_list: bool,
}

impl StyleTracker {
    /// The state before the first event: no open scope, outside every list item.
    pub fn new() -> (r: StyleTracker)
        ensures
            r.stack@ == Seq::<StyleMarker>::empty(),
            !r.in_list,
    {
        StyleTracker { stack: Vec::new(), in_list: false }
    }

    /// Follows one start or end event: pushes or pops a style scope, or sets
    /// the list-context flag. Every other event leaves the state unchanged.
    pub fn track(&mut self, e: &MdEvent)
        ensures
            final(self).stack@ == next_stack(old(self).stack@, *e),
            final(self).in_list == next_in_list(old(self).in_list, *e),
    {
        match e {
            MdEvent::Start(t) => match t {
                TagKind::Emphasis => self.stack.push(StyleMarker::Italic),
                TagKind::Strong => self.stack.push(StyleMarker::Bold),
                TagKind::Heading(level) => self.stack.push(StyleMarker::Heading(*level)),
                TagKind::CodeBlock => self.stack.push(StyleMarker::CodeBlock),
                TagKind::Item => self.in_list = true,
                TagKind::Other => {},
            },
            MdEvent::End(t) => match t {
                TagKind::Emphasis | TagKind::Strong | TagKind::Heading(_) | TagKind::CodeBlock => {
                    self.stack.pop();
                },
                TagKind::Item => self.in_list = false,
                TagKind::Other => {},
            },
            _ => {},
        }
    }
}

} // verus!
