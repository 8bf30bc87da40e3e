use eraser::events::{MdEvent, TagKind};
use eraser::markdown::render_markdown;
use eraser::render::{render_events, Directive, StyledRun};
use eraser::style::{heading_format, resolve_style, StyleMarker, TextStyle};
use eraser::tracker::StyleTracker;

fn plain() -> TextStyle {
    TextStyle { italic: false, bold: false, font_size: None, monospace: false }
}

fn run(text: &str, style: TextStyle) -> Directive {
    Directive::Run(StyledRun { text: text.to_string(), style })
}

fn text(s: &str) -> MdEvent {
    MdEvent::Text(s.to_string())
}

#[test]
fn heading_hello_is_one_large_bold_run() {
    let out = render_markdown("# Hello");
    let style = TextStyle { italic: false, bold: true, font_size: Some(24), monospace: false };
    assert_eq!(out, vec![run("Hello", style)]);
}

#[test]
fn emphasis_and_strong_from_markdown() {
    let out = render_markdown("*a* **b**");
    let italic = TextStyle { italic: true, ..plain() };
    let bold = TextStyle { bold: true, ..plain() };
    assert_eq!(out, vec![run("a", italic), run(" ", plain()), run("b", bold)]);
}

#[test]
fn emphasis_break_strong_from_events() {
    let events = vec![
        MdEvent::Start(TagKind::Emphasis),
        text("a"),
        MdEvent::End(TagKind::Emphasis),
        MdEvent::SoftBreak,
        MdEvent::Start(TagKind::Strong),
        text("b"),
        MdEvent::End(TagKind::Strong),
    ];
    let italic = TextStyle { italic: true, ..plain() };
    let bold = TextStyle { bold: true, ..plain() };
    assert_eq!(render_events(&events), vec![run("a", italic), Directive::Space, run("b", bold)]);
}

#[test]
fn list_item_gets_bullet() {
    let out = render_markdown("- item");
    assert_eq!(out, vec![run("\u{2022} item", plain())]);
}

#[test]
fn list_item_events_get_bullet() {
    let events = vec![MdEvent::Start(TagKind::Item), text("item"), MdEvent::End(TagKind::Item)];
    assert_eq!(render_events(&events), vec![run("\u{2022} item", plain())]);
}

#[test]
fn rule_is_one_separator() {
    assert_eq!(render_markdown("---"), vec![Directive::Separator]);
}

#[test]
fn unmatched_end_strong_is_ignored() {
    let events = vec![MdEvent::End(TagKind::Strong), text("x")];
    assert_eq!(render_events(&events), vec![run("x", plain())]);
    let mut t = StyleTracker::new();
    assert_eq!(t.process(&MdEvent::End(TagKind::Strong)), None);
    assert!(t.stack.is_empty());
}

#[test]
fn nested_strong_emphasis_in_either_order() {
    let both = TextStyle { italic: true, bold: true, ..plain() };
    assert_eq!(render_markdown("**_word_**"), vec![run("word", both)]);
    assert_eq!(render_markdown("_**word**_"), vec![run("word", both)]);
}

#[test]
fn heading_levels_map_to_sizes() {
    assert_eq!(heading_format(1), Some((24, true)));
    assert_eq!(heading_format(2), Some((20, true)));
    assert_eq!(heading_format(3), Some((18, true)));
    assert_eq!(heading_format(4), Some((16, false)));
    assert_eq!(heading_format(5), Some((14, false)));
    assert_eq!(heading_format(6), Some((12, false)));
    assert_eq!(heading_format(0), None);
    assert_eq!(heading_format(7), None);
    let h4 = TextStyle { font_size: Some(16), ..plain() };
    assert_eq!(render_markdown("#### x"), vec![run("x", h4)]);
}

#[test]
fn later_heading_overrides_size() {
    let stack = vec![StyleMarker::Heading(4), StyleMarker::Heading(1), StyleMarker::CodeBlock];
    let s = resolve_style(&stack);
    assert_eq!(s, TextStyle { italic: false, bold: true, font_size: Some(24), monospace: true });
    let stack = vec![StyleMarker::Heading(1), StyleMarker::Heading(6)];
    assert_eq!(resolve_style(&stack), TextStyle { bold: true, font_size: Some(12), ..plain() });
}

#[test]
fn breaks_become_one_space() {
    let out = render_markdown("a\nb");
    assert_eq!(out, vec![run("a", plain()), Directive::Space, run("b", plain())]);
    let out = render_markdown("a  \nb");
    assert_eq!(out, vec![run("a", plain()), Directive::Space, run("b", plain())]);
    assert_eq!(render_events(&vec![MdEvent::HardBreak]), vec![Directive::Space]);
}

#[test]
fn rule_between_paragraphs() {
    let out = render_markdown("a\n\n---\n\nb");
    assert_eq!(out, vec![run("a", plain()), Directive::Separator, run("b", plain())]);
}

#[test]
fn bullets_only_inside_items() {
    let out = render_markdown("- a\n- b\n\nc");
    assert_eq!(out, vec![run("\u{2022} a", plain()), run("\u{2022} b", plain()), run("c", plain())]);
}

#[test]
fn bullet_keeps_run_style() {
    let out = render_markdown("- **a**");
    let bold = TextStyle { bold: true, ..plain() };
    assert_eq!(out, vec![run("\u{2022} a", bold)]);
}

#[test]
fn code_block_is_monospace() {
    let mono = TextStyle { monospace: true, ..plain() };
    assert_eq!(render_markdown("```\ncode\n```"), vec![run("code\n", mono)]);
    assert_eq!(render_markdown("    code"), vec![run("code", mono)]);
}

#[test]
fn skipped_events_emit_nothing() {
    assert_eq!(render_markdown("`x`"), vec![]);
    assert_eq!(render_markdown(""), vec![]);
    let events = vec![MdEvent::Other, MdEvent::Start(TagKind::Other), MdEvent::End(TagKind::Other)];
    assert_eq!(render_events(&events), vec![]);
}

#[test]
fn stack_depth_follows_starts_and_ends() {
    let events = vec![
        MdEvent::Start(TagKind::Strong),
        MdEvent::Start(TagKind::Emphasis),
        text("w"),
        MdEvent::End(TagKind::Emphasis),
        MdEvent::End(TagKind::Strong),
    ];
    let mut t = StyleTracker::new();
    assert!(t.stack.is_empty());
    let depths = [1usize, 2, 2, 1, 0];
    for (e, d) in events.iter().zip(depths.iter()) {
        t.process(e);
        assert_eq!(t.stack.len(), *d);
    }
    assert!(!t.in_list);
}

#[test]
fn list_flag_follows_items() {
    let mut t = StyleTracker::new();
    t.track(&MdEvent::Start(TagKind::Item));
    assert!(t.in_list);
    assert_eq!(t.emit(&text("z")), Some(run("\u{2022} z", plain())));
    t.track(&MdEvent::End(TagKind::Item));
    assert!(!t.in_list);
    assert_eq!(t.emit(&text("z")), Some(run("z", plain())));
}
