//! The style sequence: the instructions of one chain in the order in which
//! they were given, and whether a reset closes the rendered text.
use crate::style::{Color, Comparison, Decoration, RGB};
use vstd::prelude::*;

verus! {

/// One instruction of a chain: a style, or a toggle that decides whether the
/// styles after it render.
#[derive(Clone, Debug, PartialEq, Eq)]
pub enum OutputItem {
    FgColor(Color),
    BgColor(Color),
    FgRgb(RGB),
    BgRgb(RGB),
    Decoration(Decoration),
    Comparison(Comparison, Option<bool>),
}

/// The style sequence of one chain: the reset flag and the instructions in
/// the order of their insertion.
#[derive(Clone, Debug, PartialEq, Eq)]
pub struct Output {
    pub(crate) should_reset: bool,
    pub(crate) items: Vec<OutputItem>,
}

/// What an `Output` holds: the reset flag and the instructions in the order
/// of their insertion.
pub struct OutputView {
    pub should_reset: bool,
    pub items: Seq<OutputItem>,
}

impl OutputView {
    /// The sequence of a chain in which nothing was said yet.
    pub open spec fn empty() -> OutputView {
        OutputView { should_reset: true, items: Seq::empty() }
    }

    /// The sequence with `item` added at its end.
    pub open spec fn with_item(self, item: OutputItem) -> OutputView {
        OutputView { should_reset: self.should_reset, items: self.items.push(item) }
    }

    /// The sequence with the reset flag set to `reset`.
    pub open spec fn with_reset(self, reset: bool) -> OutputView {
        OutputView { should_reset: reset, items: self.items }
    }
}

impl View for Output {
    type V = OutputView;

    closed spec fn view(&self) -> OutputView {
        OutputView { should_reset: self.should_reset, items: self.items@ }
    }
}

impl Output {
    /// Create a new Output.
    pub fn new() -> (output: Self)
        ensures
            output@ == OutputView::empty(),
    {
        Self { should_reset: true, items: Vec::new() }
    }

    /// Set `should_reset`
    pub fn set_should_reset(&mut self, reset: bool)
        ensures
            final(self)@ == old(self)@.with_reset(reset),
    {
        self.should_reset = reset;
    }

    /// Push a foreground colour to output.
    pub fn push_fg(&mut self, color: Color)
        ensures
            final(self)@ == old(self)@.with_item(OutputItem::FgColor(color)),
    {
        self.items.push(OutputItem::FgColor(color));
    }

    /// Push a background colour to output.
    pub fn push_bg(&mut self, color: Color)
        ensures
            final(self)@ == old(self)@.with_item(OutputItem::BgColor(color)),
    {
        self.items.push(OutputItem::BgColor(color));
    }

    /// Push a foreground rgb colour to output.
    pub fn push_fg_rgb(&mut self, rgb: RGB)
        ensures
            final(self)@ == old(self)@.with_item(OutputItem::FgRgb(rgb)),
    {
        self.items.push(OutputItem::FgRgb(rgb));
    }

    /// Push a background rgb colour to output.
    pub fn push_bg_rgb(&mut self, rgb: RGB)
        ensures
            final(self)@ == old(self)@.with_item(OutputItem::BgRgb(rgb)),
    {
        self.items.push(OutputItem::BgRgb(rgb));
    }

    /// Push a decoration to output.
    pub fn push_decoration(&mut self, decoration: Decoration)
        ensures
            final(self)@ == old(self)@.with_item(OutputItem::Decoration(decoration)),
    {
        self.items.push(OutputItem::Decoration(decoration));
    }

    /// Push a comparison to output
    pub fn push_comparison(&mut self, comparison: Comparison, expression: Option<bool>)
        ensures
            final(self)@ == old(self)@.with_item(OutputItem::Comparison(comparison, expression)),
    {
        self.items.push(OutputItem::Comparison(comparison, expression));
    }

    /// The instructions, in the order of their insertion.
    pub(crate) fn items(&self) -> (items: &Vec<OutputItem>)
        ensures
            items@ == self@.items,
    {
        &self.items
    }

    /// Whether a reset closes the rendered text.
    pub(crate) fn resets(&self) -> (reset: bool)
        ensures
            reset == self@.should_reset,
    {
        self.should_reset
    }
}

} // verus!
