//! Tab expansion: the mathematical model of how a row of text is rendered.

use vstd::prelude::*;

use crate::TAB_SIZE;

verus! {

/// Number of spaces a tab expands to when it starts at screen column `column`:
/// enough to reach the next tab stop, and never zero.
pub open spec fn tab_fill(column: nat) -> nat {
    (TAB_SIZE - column % (TAB_SIZE as nat)) as nat
}

/// A run of `n` space characters.
pub open spec fn spaces(n: nat) -> Seq<char> {
    Seq::new(n, |i: int| ' ')
}

/// The rendered form of `text`: every tab replaced by the spaces that lead to
/// the next tab stop, every other character kept as it is.
pub open spec fn expand_tabs(text: Seq<char>) -> Seq<char>
    decreases text.len(),
{
    if text.len() == 0 {
        Seq::empty()
    } else {
        let before = expand_tabs(text.drop_last());
        if text.last() == '\t' {
            before + spaces(tab_fill(before.len()))
        } else {
            before.push(text.last())
        }
    }
}

/// Number of screen columns that `text` occupies once rendered.
pub open spec fn render_width(text: Seq<char>) -> nat {
    expand_tabs(text).len()
}

/// Rendering one more character: a tab adds the spaces up to the next tab
/// stop, any other character adds itself.
pub proof fn lemma_expand_tabs_step(text: Seq<char>, i: int)
    requires
        0 <= i < text.len(),
    ensures
        expand_tabs(text.take(i + 1)) == if text[i] == '\t' {
            expand_tabs(text.take(i)) + spaces(tab_fill(expand_tabs(text.take(i)).len()))
        } else {
            expand_tabs(text.take(i)).push(text[i])
        },
{
    assert(text.take(i + 1).drop_last() == text.take(i));
}

/// A rendered row is at least as long as its text and at most `TAB_SIZE`
/// times as long.
pub proof fn lemma_render_width_bound(text: Seq<char>)
    ensures
        text.len() <= render_width(text) <= text.len() * TAB_SIZE,
    decreases text.len(),
{
    if text.len() > 0 {
        lemma_render_width_bound(text.drop_last());
    }
}

/// A prefix of a row is rendered no wider than the row.
pub proof fn lemma_render_width_prefix(text: Seq<char>, k: int)
    requires
        0 <= k <= text.len(),
    ensures
        render_width(text.take(k)) <= render_width(text),
    decreases text.len() - k,
{
    if k < text.len() {
        lemma_expand_tabs_step(text, k);
        lemma_render_width_prefix(text, k + 1);
    } else {
        assert(text.take(k) == text);
    }
}

} // verus!
