//! Properties of the tracker and the renderer over whole event streams.
use vstd::prelude::*;
use crate::events::{MdEvent, open_balance, never_overclosed, well_formed, is_styled_tag};
use crate::style::style_of;
use crate::tracker::marker_of;
use crate::render::{Emitted, render_spec, run_text, stack_after, in_list_after};

verus! {

proof fn lemma_depth_is_balance(events: Seq<MdEvent>)
    requires
        never_overclosed(events),
    ensures
        stack_after(events).len() == open_balance(events),
        open_balance(events) >= 0,
    decreases events.len(),
{
    assert(events.take(events.len() as int) =~= events);
    if events.len() > 0 {
        let prev = events.drop_last();
        assert forall|k: int| 0 <= k <= prev.len() implies open_balance(#[trigger] prev.take(k)) >= 0 by {
            assert(prev.take(k) =~= events.take(k));
        }
        lemma_depth_is_balance(prev);
        let e = events.last();
        match e {
            MdEvent::Start(t) => {
                assert(marker_of(t).is_some() == is_styled_tag(t));
            },
            MdEvent::End(t) => {
                assert(marker_of(t).is_some() == is_styled_tag(t));
            },
            _ => {},
        }
    }
}

/// The depth of the style stack after any prefix of a stream equals the number
/// of style-scope starts minus the number of style-scope ends in that prefix,
/// and is never negative, provided no prefix closes more than it opened.
pub proof fn lemma_prefix_depth(events: Seq<MdEvent>, k: int)
    requires
        never_overclosed(events),
        0 <= k <= events.len(),
    ensures
        stack_after(events.take(k)).len() == open_balance(events.take(k)),
        open_balance(events.take(k)) >= 0,
{
    let p = events.take(k);
    assert forall|j: int| 0 <= j <= p.len() implies open_balance(#[trigger] p.take(j)) >= 0 by {
        assert(p.take(j) =~= events.take(j));
    }
    lemma_depth_is_balance(p);
}

/// For a well-formed stream the style stack is empty before the first event
/// and after the last one.
pub proof fn lemma_well_formed_ends_empty(events: Seq<MdEvent>)
    requires
        well_formed(events),
    ensures
        stack_after(events.take(0)).len() == 0,
        stack_after(events).len() == 0,
{
    assert(events.take(0) =~= Seq::<MdEvent>::empty());
    lemma_depth_is_balance(events);
}

/// A soft or hard break appends exactly one space and nothing else.
pub proof fn lemma_break_emits_one_space(events: Seq<MdEvent>, e: MdEvent)
    requires
        e == MdEvent::SoftBreak || e == MdEvent::HardBreak,
    ensures
        render_spec(events.push(e)) == render_spec(events).push(Emitted::Space),
{
    assert(events.push(e).drop_last() =~= events);
}

/// A rule appends exactly one separator and no styled text.
pub proof fn lemma_rule_emits_one_separator(events: Seq<MdEvent>)
    ensures
        render_spec(events.push(MdEvent::Rule)) == render_spec(events).push(Emitted::Separator),
{
    assert(events.push(MdEvent::Rule).drop_last() =~= events);
}

/// A text event appends exactly one run, in the style of the open scopes; its
/// text carries one leading bullet and space when the stream so far has left
/// the list-context flag set, and none otherwise.
pub proof fn lemma_text_emits_one_run(events: Seq<MdEvent>, text: String)
    ensures
        render_spec(events.push(MdEvent::Text(text))) == render_spec(events).push(
            Emitted::Run(
                run_text(text@, in_list_after(events)),
                style_of(stack_after(events)),
            ),
        ),
        in_list_after(events) ==> run_text(text@, in_list_after(events)) == seq!['\u{2022}', ' '] + text@,
        !in_list_after(events) ==> run_text(text@, in_list_after(events)) == text@,
{
    assert(events.push(MdEvent::Text(text)).drop_last() =~= events);
}

} // verus!
