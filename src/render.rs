//! The run renderer: turns an event stream into styled runs and layout directives.
use vstd::prelude::*;
use crate::events::MdEvent;
use crate::style::{StyleMarker, TextStyle, style_of, resolve_style};
use crate::tracker::{StyleTracker, next_stack, next_in_list};

verus! {

/// A piece of text with one resolved style.
#[derive(Clone, Debug, PartialEq)]
pub struct StyledRun {
    pub text: String,
    pub style: TextStyle,
}

/// One append operation on the presentation surface.
#[derive(Clone, Debug, PartialEq)]
pub enum Directive {
    /// Append a styled run of text.
    Run(StyledRun),
    /// Append a single space (what soft and hard breaks become).
    Space,
    /// Append a horizontal separator.
    Separator,
}

/// The mathematical value of a directive.
pub enum Emitted {
    Run(Seq<char>, TextStyle),
    Space,
    Separator,
}

impl View for Directive {
    type V = Emitted;

    open spec fn view(&self) -> Emitted {
        match self {
            Directive::Run(run) => Emitted::Run(run.text@, run.style),
            Directive::Space => Emitted::Space,
            Directive::Separator => Emitted::Separator,
        }
    }
}

/// The values of a sequence of directives.
pub open spec fn views(ds: Seq<Directive>) -> Seq<Emitted> {
    ds.map_values(|d: Directive| d@)
}

/// The text of a run: inside a list item it carries a leading bullet and space.
pub open spec fn run_text(text: Seq<char>, in_list: bool) -> Seq<char> {
    if in_list {
        seq!['\u{2022}', ' '] + text
    } else {
        text
    }
}

/// What one event appends to the surface, given the state when it arrives.
pub open spec fn emitted(stack: Seq<StyleMarker>, in_list: bool, e: MdEvent) -> Option<Emitted> {
    match e {
        MdEvent::Text(s) => Some(Emitted::Run(run_text(s@, in_list), style_of(stack))),
        MdEvent::SoftBreak | MdEvent::HardBreak => Some(Emitted::Space),
        MdEvent::Rule => Some(Emitted::Separator),
        _ => None,
    }
}

/// The tracker's stack after a whole stream, starting from the empty stack.
pub open spec fn stack_after(events: Seq<MdEvent>) -> Seq<StyleMarker>
    decreases events.len(),
{
    if events.len() == 0 {
        Seq::empty()
    } else {
        next_stack(stack_after(events.drop_last()), events.last())
    }
}

/// The list-context flag after a whole stream, starting outside every list item.
pub open spec fn in_list_after(events: Seq<MdEvent>) -> bool
    decreases events.len(),
{
    if events.len() == 0 {
        false
    } else {
        next_in_list(in_list_after(events.drop_last()), events.last())
    }
}

/// Everything a stream appends to the surface, in event order.
pub open spec fn render_spec(events: Seq<MdEvent>) -> Seq<Emitted>
    decreases events.len(),
{
    if events.len() == 0 {
        Seq::empty()
    } else {
        let prev = events.drop_last();
        match emitted(stack_after(prev), in_list_after(prev), events.last()) {
            Some(d) => render_spec(prev).push(d),
            None => render_spec(prev),
        }
    }
}

/// The values of an optional directive.
pub open spec fn opt_view(d: Option<Directive>) -> Option<Emitted> {
    match d {
        Some(x) => Some(x@),
        None => None,
    }
}

impl StyleTracker {
    /// What an event appends to the surface in the current state: a run for
    /// text, a space for a break, a separator for a rule, nothing otherwise.
    pub fn emit(&self, e: &MdEvent) -> (r: Option<Directive>)
        ensures
            opt_view(r) == emitted(self.stack@, self.in_list, *e),
    {
        match e {
            MdEvent::Text(s) => {
                let style = resolve_style(&self.stack);
                let text = if self.in_list {
                    proof {
                        reveal_strlit("\u{2022} ");
                    }
                    let mut t = String::from_str("\u{2022} ");
                    assert(t@ =~= seq!['\u{2022}', ' ']);
                    t.append(s.as_str());
                    assert(t@ =~= run_text(s@, true));
                    t
                } else {
                    s.clone()
                };
                Some(Directive::Run(StyledRun { text, style }))
            },
            MdEvent::SoftBreak | MdEvent::HardBreak => Some(Directive::Space),
            MdEvent::Rule => Some(Directive::Separator),
            _ => None,
        }
    }

    /// Consumes one event: returns what it appends to the surface, and
    /// updates the style stack and the list-context flag.
    pub fn process(&mut self, e: &MdEvent) -> (r: Option<Directive>)
        ensures
            opt_view(r) == emitted(old(self).stack@, old(self).in_list, *e),
            final(self).stack@ == next_stack(old(self).stack@, *e),
            final(self).in_list == next_in_list(old(self).in_list, *e),
    {
        let r = self.emit(e);
        self.track(e);
        r
    }
}

/// Renders a whole event stream, from a fresh tracker, into the directives
/// it appends to the surface, in event order.
pub fn render_events(events: &Vec<MdEvent>) -> (r: Vec<Directive>)
    ensures
        views(r@) == render_spec(events@),
{
    let mut tracker = StyleTracker::new();
    let mut out: Vec<Directive> = Vec::new();
    let mut i: usize = 0;
    while i < events.len()
        invariant
            i <= events@.len(),
            tracker.stack@ == stack_after(events@.take(i as int)),
            tracker.in_list == in_list_after(events@.take(i as int)),
            views(out@) == render_spec(events@.take(i as int)),
        decreases events@.len() - i,
    {
        let ghost prefix = events@.take(i + 1);
        assert(prefix.drop_last() =~= events@.take(i as int));
        assert(prefix.last() == events@[i as int]);
        let d = tracker.process(&events[i]);
        match d {
            Some(x) => {
                out.push(x);
            },
            None => {},
        }
        assert(views(out@) =~= render_spec(prefix));
        i = i + 1;
    }
    assert(events@.take(i as int) =~= events@);
    out
}

} // verus!
