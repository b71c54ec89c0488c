//! What a style sequence renders as: the toggle evaluator that decides which
//! instructions count, and the text that the sequence puts around the
//! content.
use crate::output::{OutputItem, OutputView};
use crate::style::{Comparison, RGB};
use crate::text::{decimal, is_digit, lemma_decimal_shape};
use vstd::prelude::*;

verus! {

/// The two characters that open an escape sequence: ESC and `[`.
pub open spec fn sequence_start() -> Seq<char> {
    seq!['\x1b', '[']
}

/// The sequence that puts the terminal back to its defaults.
pub open spec fn reset_sequence() -> Seq<char> {
    seq!['\x1b', '[', '0', 'm']
}

/// The toggle state after `item`, where it was `applying` before. A toggle
/// with an expression sets the state, one without flips it, and a style
/// leaves it as it is.
pub open spec fn toggled(applying: bool, item: OutputItem) -> bool {
    match item {
        OutputItem::Comparison(Comparison::Is, Some(expression)) => expression,
        OutputItem::Comparison(Comparison::Not, Some(expression)) => !expression,
        OutputItem::Comparison(_, None) => !applying,
        _ => applying,
    }
}

/// The toggle state after all of `items`: whether a style that comes next
/// renders. It starts as `true`.
pub open spec fn applying(items: Seq<OutputItem>) -> bool
    decreases items.len(),
{
    if items.len() == 0 {
        true
    } else {
        toggled(applying(items.drop_last()), items.last())
    }
}

/// The SGR parameter that `item` stands for; a toggle stands for none. A
/// 24-bit colour is written out where `true_color` allows it, and replaced
/// by its nearest named colour where not.
pub open spec fn parameter(item: OutputItem, true_color: bool) -> Option<Seq<char>> {
    match item {
        OutputItem::FgColor(color) => Some(decimal(color.fg_number())),
        OutputItem::BgColor(color) => Some(decimal(color.bg_number())),
        OutputItem::FgRgb(rgb) => Some(
            if true_color {
                rgb.fg_parameter()
            } else {
                decimal(rgb.closest().fg_number())
            },
        ),
        OutputItem::BgRgb(rgb) => Some(
            if true_color {
                rgb.bg_parameter()
            } else {
                decimal(rgb.closest().bg_number())
            },
        ),
        OutputItem::Decoration(decoration) => Some(decimal(decoration.number())),
        OutputItem::Comparison(_, _) => None,
    }
}

/// The parameters that `items` render, in the order of the items: one for
/// each style that the toggle state lets through.
pub open spec fn parameters(items: Seq<OutputItem>, true_color: bool) -> Seq<Seq<char>>
    decreases items.len(),
{
    if items.len() == 0 {
        Seq::empty()
    } else {
        let before = parameters(items.drop_last(), true_color);
        match parameter(items.last(), true_color) {
            Some(text) => if applying(items.drop_last()) {
                before.push(text)
            } else {
                before
            },
            None => before,
        }
    }
}

/// The parts with a `;` between each two neighbours.
pub open spec fn joined(parts: Seq<Seq<char>>) -> Seq<char>
    decreases parts.len(),
{
    if parts.len() == 0 {
        Seq::empty()
    } else if parts.len() == 1 {
        parts[0]
    } else {
        joined(parts.drop_last()) + seq![';'] + parts.last()
    }
}

/// The text that a chain renders around `content`. A disabled chain, and one
/// without any instruction, renders the content alone. Any other chain
/// renders one escape sequence with the parameters that passed the toggles,
/// the content, and the reset sequence if the reset flag is set. That holds
/// also where the toggles let no parameter pass: the chain then renders the
/// empty sequence `ESC [ m` before the content, not the content alone.
pub open spec fn rendered(
    enabled: bool,
    output: OutputView,
    content: Seq<char>,
    true_color: bool,
) -> Seq<char> {
    if !enabled || output.items.len() == 0 {
        content
    } else {
        sequence_start() + joined(parameters(output.items, true_color)) + seq!['m'] + content + (
        if output.should_reset {
            reset_sequence()
        } else {
            Seq::empty()
        })
    }
}

/// Joining one more part puts a `;` before it, unless it is the first.
pub proof fn lemma_joined_push(parts: Seq<Seq<char>>, part: Seq<char>)
    ensures
        joined(parts.push(part)) == if parts.len() == 0 {
            part
        } else {
            joined(parts) + seq![';'] + part
        },
{
    assert(parts.push(part).drop_last() == parts);
}

/// One more item changes the toggle state and the parameters by itself
/// alone.
pub proof fn lemma_item_added(items: Seq<OutputItem>, item: OutputItem, true_color: bool)
    ensures
        applying(items.push(item)) == toggled(applying(items), item),
        parameters(items.push(item), true_color) == match parameter(item, true_color) {
            Some(text) => if applying(items) {
                parameters(items, true_color).push(text)
            } else {
                parameters(items, true_color)
            },
            None => parameters(items, true_color),
        },
{
    assert(items.push(item).drop_last() == items);
}

/// What comes after two sequences depends on them only through the toggle
/// state they end in and the parameters they render: two sequences that
/// agree in both still agree when the same items follow.
pub proof fn lemma_same_continuation(
    a: Seq<OutputItem>,
    b: Seq<OutputItem>,
    rest: Seq<OutputItem>,
    true_color: bool,
)
    requires
        applying(a) == applying(b),
        parameters(a, true_color) == parameters(b, true_color),
    ensures
        applying(a + rest) == applying(b + rest),
        parameters(a + rest, true_color) == parameters(b + rest, true_color),
    decreases rest.len(),
{
    if rest.len() == 0 {
        assert(a + rest == a);
        assert(b + rest == b);
    } else {
        let shorter = rest.drop_last();
        lemma_same_continuation(a, b, shorter, true_color);
        assert(a + rest == (a + shorter).push(rest.last()));
        assert(b + rest == (b + shorter).push(rest.last()));
        lemma_item_added(a + shorter, rest.last(), true_color);
        lemma_item_added(b + shorter, rest.last(), true_color);
    }
}

/// `is(Some(true))` and `not(Some(false))` before a style are the same
/// instruction: with the one or with the other a chain renders the same
/// text, whatever stands before the toggle and whatever follows the style.
pub proof fn lemma_is_true_is_not_false(
    before: Seq<OutputItem>,
    style: OutputItem,
    rest: Seq<OutputItem>,
    should_reset: bool,
    content: Seq<char>,
    true_color: bool,
)
    ensures
        rendered(
            true,
            OutputView {
                should_reset,
                items: before.push(OutputItem::Comparison(Comparison::Is, Some(true))).push(style)
                    + rest,
            },
            content,
            true_color,
        ) == rendered(
            true,
            OutputView {
                should_reset,
                items: before.push(OutputItem::Comparison(Comparison::Not, Some(false))).push(
                    style,
                ) + rest,
            },
            content,
            true_color,
        ),
{
    let is_true = OutputItem::Comparison(Comparison::Is, Some(true));
    let not_false = OutputItem::Comparison(Comparison::Not, Some(false));
    lemma_item_added(before, is_true, true_color);
    lemma_item_added(before, not_false, true_color);
    lemma_item_added(before.push(is_true), style, true_color);
    lemma_item_added(before.push(not_false), style, true_color);
    lemma_same_continuation(
        before.push(is_true).push(style),
        before.push(not_false).push(style),
        rest,
        true_color,
    );
}

/// After `is(Some(false))` or `not(Some(true))` a style renders nothing:
/// the parameters are those of the chain before the toggle.
pub proof fn lemma_switched_off_style_is_absent(
    before: Seq<OutputItem>,
    style: OutputItem,
    true_color: bool,
)
    ensures
        parameters(
            before.push(OutputItem::Comparison(Comparison::Is, Some(false))).push(style),
            true_color,
        ) == parameters(before, true_color),
        parameters(
            before.push(OutputItem::Comparison(Comparison::Not, Some(true))).push(style),
            true_color,
        ) == parameters(before, true_color),
{
    let is_false = OutputItem::Comparison(Comparison::Is, Some(false));
    let not_true = OutputItem::Comparison(Comparison::Not, Some(true));
    lemma_item_added(before, is_false, true_color);
    lemma_item_added(before, not_true, true_color);
    lemma_item_added(before.push(is_false), style, true_color);
    lemma_item_added(before.push(not_true), style, true_color);
}

/// A toggle without an expression flips the toggle state, whichever way it
/// is written and however the state came about.
pub proof fn lemma_bare_toggle_flips(items: Seq<OutputItem>, comparison: Comparison)
    ensures
        applying(items.push(OutputItem::Comparison(comparison, None))) == !applying(items),
{
    lemma_item_added(items, OutputItem::Comparison(comparison, None), true);
}

/// A disabled chain renders its content and nothing else, whatever its
/// sequence holds.
pub proof fn lemma_disabled_renders_content(
    output: OutputView,
    content: Seq<char>,
    true_color: bool,
)
    ensures
        rendered(false, output, content, true_color) == content,
{
}

/// Whether `pattern` stands in `text` at position `i`.
pub open spec fn occurs_at(text: Seq<char>, pattern: Seq<char>, i: int) -> bool {
    &&& 0 <= i
    &&& i + pattern.len() <= text.len()
    &&& text.subrange(i, i + pattern.len()) == pattern
}

/// The shape of a parameter: digits and `;` only, and not `0` at the start.
pub open spec fn is_parameter_text(text: Seq<char>) -> bool {
    &&& text.len() > 0
    &&& text[0] != '0'
    &&& forall|i: int| 0 <= i < text.len() ==> is_digit(#[trigger] text[i]) || text[i] == ';'
}

/// The three channels of a 24-bit colour are written with digits and `;`.
proof fn lemma_channels_shape(rgb: RGB)
    ensures
        forall|i: int|
            0 <= i < rgb.channels_text().len() ==> is_digit(#[trigger] rgb.channels_text()[i])
                || rgb.channels_text()[i] == ';',
{
    lemma_decimal_shape(rgb.r as nat);
    lemma_decimal_shape(rgb.g as nat);
    lemma_decimal_shape(rgb.b as nat);
}

/// Every parameter that an item stands for has the shape of a parameter.
pub proof fn lemma_parameter_shape(item: OutputItem, true_color: bool)
    ensures
        parameter(item, true_color) matches Some(text) ==> is_parameter_text(text),
{
    match item {
        OutputItem::FgColor(color) => {
            lemma_decimal_shape(color.fg_number());
        },
        OutputItem::BgColor(color) => {
            lemma_decimal_shape(color.bg_number());
        },
        OutputItem::FgRgb(rgb) => {
            if true_color {
                reveal_strlit("38;2;");
                lemma_channels_shape(rgb);
            } else {
                lemma_decimal_shape(rgb.closest().fg_number());
            }
        },
        OutputItem::BgRgb(rgb) => {
            if true_color {
                reveal_strlit("48;2;");
                lemma_channels_shape(rgb);
            } else {
                lemma_decimal_shape(rgb.closest().bg_number());
            }
        },
        OutputItem::Decoration(decoration) => {
            lemma_decimal_shape(decoration.number());
        },
        OutputItem::Comparison(_, _) => {},
    }
}

/// Every parameter that a sequence renders has the shape of a parameter.
pub proof fn lemma_parameters_shape(items: Seq<OutputItem>, true_color: bool)
    ensures
        forall|k: int|
            0 <= k < parameters(items, true_color).len() ==> is_parameter_text(
                #[trigger] parameters(items, true_color)[k],
            ),
    decreases items.len(),
{
    if items.len() > 0 {
        let before = parameters(items.drop_last(), true_color);
        lemma_parameters_shape(items.drop_last(), true_color);
        lemma_parameter_shape(items.last(), true_color);
        assert forall|k: int|
            0 <= k < parameters(items, true_color).len() implies is_parameter_text(
            #[trigger] parameters(items, true_color)[k],
        ) by {
            if k < before.len() {
                assert(parameters(items, true_color)[k] == before[k]);
            }
        }
    }
}

/// Parameters joined with `;` are empty or have the shape of a parameter.
pub proof fn lemma_joined_shape(parts: Seq<Seq<char>>)
    requires
        forall|k: int| 0 <= k < parts.len() ==> is_parameter_text(#[trigger] parts[k]),
    ensures
        parts.len() == 0 ==> joined(parts).len() == 0,
        parts.len() > 0 ==> is_parameter_text(joined(parts)),
    decreases parts.len(),
{
    if parts.len() > 1 {
        lemma_joined_shape(parts.drop_last());
        assert(is_parameter_text(parts.last()));
    } else if parts.len() == 1 {
        assert(is_parameter_text(parts[0]));
    }
}

/// The reset sequence stands in the text of an enabled chain with at least
/// one instruction exactly once, at the very end, if the reset flag is set,
/// and nowhere if it is not: whatever the chain holds, and for every
/// content that does not hold the reset sequence itself.
pub proof fn lemma_reset_once(output: OutputView, content: Seq<char>, true_color: bool)
    requires
        output.items.len() > 0,
        forall|k: int| !occurs_at(content, reset_sequence(), k),
    ensures
        forall|i: int|
            #[trigger] occurs_at(rendered(true, output, content, true_color), reset_sequence(), i)
                <==> output.should_reset && i == rendered(true, output, content, true_color).len()
                - 4,
{
    let text = rendered(true, output, content, true_color);
    let codes = joined(parameters(output.items, true_color));
    let at_content = 3 + codes.len() as int;
    let at_end = at_content + content.len() as int;
    lemma_parameters_shape(output.items, true_color);
    lemma_joined_shape(parameters(output.items, true_color));
    assert(text.len() == at_end + (if output.should_reset {
        4int
    } else {
        0int
    }));
    assert forall|i: int| #[trigger]
        occurs_at(text, reset_sequence(), i) <==> output.should_reset && i == text.len() - 4 by {
        if occurs_at(text, reset_sequence(), i) {
            let found = text.subrange(i, i + 4);
            assert(found[0] == '\x1b' && found[1] == '[' && found[2] == '0' && found[3] == 'm');
            assert(text[i] == found[0]);
            assert(text[i + 1] == found[1]);
            assert(text[i + 2] == found[2]);
            assert(text[i + 3] == found[3]);
            if i == 0 {
                if codes.len() > 0 {
                    assert(text[2] == codes[0]);
                } else {
                    assert(text[2] == 'm');
                }
                assert(false);
            } else if i < at_content {
                if i >= 2 && i < at_content - 1 {
                    assert(text[i] == codes[i - 2]);
                }
                assert(false);
            } else if i < at_end {
                if i + 4 <= at_end {
                    assert(content.subrange(i - at_content, i - at_content + 4) =~= found);
                    assert(occurs_at(content, reset_sequence(), i - at_content));
                } else {
                    assert(text[at_end] == '\x1b');
                }
                assert(false);
            }
        }
        if output.should_reset && i == text.len() - 4 {
            assert(text.subrange(i, i + 4) =~= reset_sequence());
        }
    }
}

} // verus!
