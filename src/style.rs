//! Style markers and the style descriptor that a stack of them resolves to.
use vstd::prelude::*;

verus! {

/// One active style scope on the style stack.
#[derive(Clone, Copy, Debug, PartialEq, Eq, Structural)]
pub enum StyleMarker {
    Italic,
    Bold,
    /// A heading scope with its level.
    Heading(u8),
    CodeBlock,
}

/// The flattened style of one run of text.
/// `font_size` is `None` where no heading sets it: the surface's default size.
#[derive(Clone, Copy, Debug, PartialEq, Eq, Structural)]
pub struct TextStyle {
    pub italic: bool,
    pub bold: bool,
    pub font_size: Option<u32>,
    pub monospace: bool,
}

/// The style of text outside every scope.
pub open spec fn plain_style() -> TextStyle {
    TextStyle { italic: false, bold: false, font_size: None, monospace: false }
}

/// Font size of a heading level, and whether that level forces bold.
/// Levels outside 1 to 6 have no effect.
pub open spec fn heading_format_spec(level: u8) -> Option<(u32, bool)> {
    if level == 1 {
        Some((24u32, true))
    } else if level == 2 {
        Some((20u32, true))
    } else if level == 3 {
        Some((18u32, true))
    } else if level == 4 {
        Some((16u32, false))
    } else if level == 5 {
        Some((14u32, false))
    } else if level == 6 {
        Some((12u32, false))
    } else {
        None
    }
}

/// The visual effect of one marker on the style built so far.
pub open spec fn apply_marker(s: TextStyle, m: StyleMarker) -> TextStyle {
    match m {
        StyleMarker::Italic => TextStyle { italic: true, ..s },
        StyleMarker::Bold => TextStyle { bold: true, ..s },
        StyleMarker::Heading(level) => match heading_format_spec(level) {
            Some((size, strong)) => TextStyle { font_size: Some(size), bold: s.bold || strong, ..s },
            None => s,
        },
        StyleMarker::CodeBlock => TextStyle { monospace: true, ..s },
    }
}

/// The style of a stack: its markers applied from the bottom (outermost)
/// to the top (innermost).
pub open spec fn style_of(stack: Seq<StyleMarker>) -> TextStyle
    decreases stack.len(),
{
    if stack.len() == 0 {
        plain_style()
    } else {
        apply_marker(style_of(stack.drop_last()), stack.last())
    }
}

/// True for the markers that make text bold.
pub open spec fn makes_bold(m: StyleMarker) -> bool {
    match m {
        StyleMarker::Bold => true,
        StyleMarker::Heading(level) => 1 <= level <= 3,
        _ => false,
    }
}

/// Font size of a heading level, and whether that level forces bold.
pub fn heading_format(level: u8) -> (r: Option<(u32, bool)>)
    ensures
        r == heading_format_spec(level),
{
    match level {
        1 => Some((24, true)),
        2 => Some((20, true)),
        3 => Some((18, true)),
        4 => Some((16, false)),
        5 => Some((14, false)),
        6 => Some((12, false)),
        _ => None,
    }
}

/// Resolves a stack of markers, outermost first, into one style.
pub fn resolve_style(stack: &Vec<StyleMarker>) -> (r: TextStyle)
    ensures
        r == style_of(stack@),
{
    let mut s = TextStyle { italic: false, bold: false, font_size: None, monospace: false };
    let mut i: usize = 0;
    while i < stack.len()
        invariant
            i <= stack@.len(),
            s == style_of(stack@.take(i as int)),
        decreases stack@.len() - i,
    {
        assert(stack@.take(i + 1).drop_last() =~= stack@.take(i as int));
        match stack[i] {
            StyleMarker::Italic => s.italic = true,
            StyleMarker::Bold => s.bold = true,
            StyleMarker::Heading(level) => match heading_format(level) {
                Some((size, strong)) => {
                    s.font_size = Some(size);
                    s.bold = s.bold || strong;
                },
                None => {},
            },
            StyleMarker::CodeBlock => s.monospace = true,
        }
        i = i + 1;
    }
    assert(stack@.take(i as int) =~= stack@);
    s
}

/// The flags of a resolved style do not depend on the order in which the
/// scopes were opened: text is italic exactly when an italic scope is open,
/// monospace exactly when a code-block scope is open, and bold exactly when a
/// bold scope or a heading of level 1 to 3 is open.
pub proof fn lemma_style_flags(stack: Seq<StyleMarker>)
    ensures
        style_of(stack).italic <==> exists|i: int| 0 <= i < stack.len() && stack[i] == StyleMarker::Italic,
        style_of(stack).monospace <==> exists|i: int| 0 <= i < stack.len() && stack[i] == StyleMarker::CodeBlock,
        style_of(stack).bold <==> exists|i: int| 0 <= i < stack.len() && makes_bold(#[trigger] stack[i]),
    decreases stack.len(),
{
    if stack.len() > 0 {
        let prev = stack.drop_last();
        lemma_style_flags(prev);
        assert forall|i: int| 0 <= i < prev.len() implies prev[i] == stack[i] by {}
        if exists|i: int| 0 <= i < prev.len() && prev[i] == StyleMarker::Italic {
            let i = choose|i: int| 0 <= i < prev.len() && prev[i] == StyleMarker::Italic;
            assert(stack[i] == StyleMarker::Italic);
        }
        if exists|i: int| 0 <= i < prev.len() && prev[i] == StyleMarker::CodeBlock {
            let i = choose|i: int| 0 <= i < prev.len() && prev[i] == StyleMarker::CodeBlock;
            assert(stack[i] == StyleMarker::CodeBlock);
        }
        if exists|i: int| 0 <= i < prev.len() && makes_bold(prev[i]) {
            let i = choose|i: int| 0 <= i < prev.len() && makes_bold(prev[i]);
            assert(makes_bold(stack[i]));
        }
        let j = stack.len() - 1;
        assert(stack[j] == stack.last());
    }
}

/// A heading alone sets the size of its level, and makes the text bold for
/// levels 1 to 3 only.
pub proof fn lemma_heading_style(level: u8)
    requires
        1 <= level <= 6,
    ensures
        style_of(seq![StyleMarker::Heading(level)]) == (TextStyle {
            italic: false,
            bold: level <= 3,
            font_size: Some(
                if level == 1 { 24u32 } else if level == 2 { 20u32 } else if level == 3 { 18u32 }
                else if level == 4 { 16u32 } else if level == 5 { 14u32 } else { 12u32 },
            ),
            monospace: false,
        }),
{
    let s = seq![StyleMarker::Heading(level)];
    assert(s.drop_last() =~= Seq::<StyleMarker>::empty());
    assert(style_of(s.drop_last()) == plain_style());
}

} // verus!
