//! The styling context: content, the decision whether styling is active for
//! it, and the chain of instructions given so far; and the renderer that
//! turns the chain into text.
use crate::env::{
    predefined_style, should_colorize, true_color_allowed, Environment, EnvironmentView,
    PredefinedStyle, PredefinedStyleType, Settings,
};
use crate::output::{Output, OutputItem, OutputView};
use crate::render::{
    applying, joined, lemma_item_added, lemma_joined_push, parameter, parameters, rendered,
    sequence_start,
};
use crate::stream::Stream;
use crate::style::{rgb_from_hex, Color, Comparison, Decoration, RGB};
use vstd::prelude::*;
use vstd::string::to_string_from_display_ensures;

verus! {

/// Paint
///
/// Paint context for managing and displaying styles, including methods for chaining styles
/// together.
pub struct Paint<T> {
    pub(crate) inner: T,
    pub(crate) enabled: bool,
    pub(crate) output: Output,
}

/// What a `Paint` holds: the content, whether styling is active for it, and
/// the style sequence.
pub struct PaintView<T> {
    pub inner: T,
    pub enabled: bool,
    pub output: OutputView,
}

impl<T> PaintView<T> {
    /// A context in which nothing was said yet.
    pub open spec fn fresh(inner: T, enabled: bool) -> Self {
        PaintView { inner, enabled, output: OutputView::empty() }
    }

    /// A fresh context for `stream`, enabled as the settings and the
    /// environment decide.
    pub open spec fn started(
        inner: T,
        settings: Settings,
        environment: EnvironmentView,
        stream: Stream,
    ) -> Self {
        Self::fresh(inner, environment.colorize(settings.choice, stream))
    }

    /// The context after one more instruction: recorded at the end of the
    /// sequence if the context is enabled, dropped if not.
    pub open spec fn styled(self, item: OutputItem) -> Self {
        if self.enabled {
            PaintView { output: self.output.with_item(item), ..self }
        } else {
            self
        }
    }

    /// The context after the instructions `items`, given one after the
    /// other.
    pub open spec fn chained(self, items: Seq<OutputItem>) -> Self
        decreases items.len(),
    {
        if items.len() == 0 {
            self
        } else {
            self.chained(items.drop_last()).styled(items.last())
        }
    }

    /// The context with the reset flag set to `reset`, enabled or not.
    pub open spec fn with_reset(self, reset: bool) -> Self {
        PaintView { output: self.output.with_reset(reset), ..self }
    }

    /// The context after a foreground colour in hexadecimal notation: text
    /// that stands for no colour leaves the context as it is.
    pub open spec fn hex(self, text: Seq<char>) -> Self {
        match rgb_from_hex(text) {
            Some(rgb) => self.styled(OutputItem::FgRgb(rgb)),
            None => self,
        }
    }

    /// The context after a background colour in hexadecimal notation: text
    /// that stands for no colour leaves the context as it is.
    pub open spec fn bg_hex(self, text: Seq<char>) -> Self {
        match rgb_from_hex(text) {
            Some(rgb) => self.styled(OutputItem::BgRgb(rgb)),
            None => self,
        }
    }

    /// The context after a predefined style: its foreground, then its
    /// background, then its decoration, each only if the style has it.
    pub open spec fn predefined(self, style: PredefinedStyle) -> Self {
        let with_fg = match style.fg {
            Some(fg) => self.styled(OutputItem::FgColor(fg)),
            None => self,
        };
        let with_bg = match style.bg {
            Some(bg) => with_fg.styled(OutputItem::BgColor(bg)),
            None => with_fg,
        };
        match style.decoration {
            Some(decoration) => with_bg.styled(OutputItem::Decoration(decoration)),
            None => with_bg,
        }
    }

    /// The text that the context renders around `content`.
    pub open spec fn text(self, content: Seq<char>, true_color: bool) -> Seq<char> {
        rendered(self.enabled, self.output, content, true_color)
    }
}

impl<T> PaintView<T> {
    /// A disabled context takes no instruction and renders its content
    /// alone: whatever is chained to it, styles, toggles or a reset flag.
    pub proof fn lemma_disabled_is_plain(
        self,
        item: OutputItem,
        reset: bool,
        content: Seq<char>,
        true_color: bool,
    )
        requires
            !self.enabled,
        ensures
            self.styled(item) == self,
            !self.with_reset(reset).enabled,
            self.text(content, true_color) == content,
            self.with_reset(reset).text(content, true_color) == content,
    {
    }

    /// Hexadecimal text that stands for no colour leaves the context, and so
    /// what it renders, as it is.
    pub proof fn lemma_malformed_hex_is_dropped(
        self,
        text: Seq<char>,
        content: Seq<char>,
        true_color: bool,
    )
        requires
            rgb_from_hex(text).is_none(),
        ensures
            self.hex(text) == self,
            self.bg_hex(text) == self,
            self.hex(text).text(content, true_color) == self.text(content, true_color),
            self.bg_hex(text).text(content, true_color) == self.text(content, true_color),
    {
    }

    /// A context without instructions renders its content alone, enabled or
    /// not.
    pub proof fn lemma_fresh_is_plain(
        inner: T,
        enabled: bool,
        content: Seq<char>,
        true_color: bool,
    )
        ensures
            Self::fresh(inner, enabled).text(content, true_color) == content,
    {
    }

    /// A disabled context stays as it is and renders its content alone,
    /// however many instructions are chained to it and whatever the reset
    /// flag is set to.
    pub proof fn lemma_disabled_chain_is_plain(
        self,
        items: Seq<OutputItem>,
        reset: bool,
        content: Seq<char>,
        true_color: bool,
    )
        requires
            !self.enabled,
        ensures
            self.chained(items) == self,
            self.chained(items).text(content, true_color) == content,
            self.chained(items).with_reset(reset).text(content, true_color) == content,
        decreases items.len(),
    {
        if items.len() > 0 {
            self.lemma_disabled_chain_is_plain(items.drop_last(), reset, content, true_color);
        }
    }

    /// An enabled context keeps every instruction in the order in which it
    /// was given: a chain puts its instructions, one for one, behind those
    /// that the context held before, and changes nothing else.
    pub proof fn lemma_enabled_chain_keeps_order(self, items: Seq<OutputItem>)
        requires
            self.enabled,
        ensures
            self.chained(items) == (PaintView {
                output: OutputView {
                    should_reset: self.output.should_reset,
                    items: self.output.items + items,
                },
                ..self
            }),
        decreases items.len(),
    {
        if items.len() == 0 {
            assert(self.output.items + items == self.output.items);
        } else {
            self.lemma_enabled_chain_keeps_order(items.drop_last());
            assert((self.output.items + items.drop_last()).push(items.last())
                == self.output.items + items);
        }
    }
}

impl<T> View for Paint<T> {
    type V = PaintView<T>;

    closed spec fn view(&self) -> PaintView<T> {
        PaintView { inner: self.inner, enabled: self.enabled, output: self.output@ }
    }
}

impl<T> Paint<T> {
    /// Initialize a new Paint context, enabled or not.
    pub fn new(inner: T, enabled: bool) -> (paint: Self)
        ensures
            paint@ == PaintView::fresh(inner, enabled),
    {
        Self { inner, enabled, output: Output::new() }
    }

    /// Initialize a new Paint context for writing to std_out explicitly.
    pub fn new_stdout(inner: T, settings: &mut Settings, environment: &Environment) -> (paint: Self)
        ensures
            *final(settings) == old(settings).resolved(environment@),
            paint@ == PaintView::started(inner, *old(settings), environment@, Stream::Stdout),
    {
        let enabled = should_colorize(settings, environment, Stream::Stdout);
        Self::new(inner, enabled)
    }

    /// Initialize a new Paint context for writing to std_err explicitly.
    pub fn new_stderr(inner: T, settings: &mut Settings, environment: &Environment) -> (paint: Self)
        ensures
            *final(settings) == old(settings).resolved(environment@),
            paint@ == PaintView::started(inner, *old(settings), environment@, Stream::Stderr),
    {
        let enabled = should_colorize(settings, environment, Stream::Stderr);
        Self::new(inner, enabled)
    }

    /// Set the foreground colour of the content.
    pub fn fg(self, color: Color) -> (paint: Self)
        ensures
            paint@ == self@.styled(OutputItem::FgColor(color)),
    {
        let mut paint = self;
        if paint.enabled {
            paint.output.push_fg(color);
        }
        paint
    }

    /// Set the background colour of the content.
    pub fn bg(self, color: Color) -> (paint: Self)
        ensures
            paint@ == self@.styled(OutputItem::BgColor(color)),
    {
        let mut paint = self;
        if paint.enabled {
            paint.output.push_bg(color);
        }
        paint
    }

    /// Set the decorations to be used on the content.
    pub fn decoration(self, decoration: Decoration) -> (paint: Self)
        ensures
            paint@ == self@.styled(OutputItem::Decoration(decoration)),
    {
        let mut paint = self;
        if paint.enabled {
            paint.output.push_decoration(decoration);
        }
        paint
    }

    /// Set an is or not expression
    pub fn set_is_not(self, comparison: Comparison, expression: Option<bool>) -> (paint: Self)
        ensures
            paint@ == self@.styled(OutputItem::Comparison(comparison, expression)),
    {
        let mut paint = self;
        if paint.enabled {
            paint.output.push_comparison(comparison, expression);
        }
        paint
    }

    /// Set the foreground RGB value for the content.
    pub fn set_rgb(self, rgb_value: RGB) -> (paint: Self)
        ensures
            paint@ == self@.styled(OutputItem::FgRgb(rgb_value)),
    {
        let mut paint = self;
        if paint.enabled {
            paint.output.push_fg_rgb(rgb_value);
        }
        paint
    }

    /// Set the background RGB value for the content.
    pub fn set_bg_rgb(self, rgb_value: RGB) -> (paint: Self)
        ensures
            paint@ == self@.styled(OutputItem::BgRgb(rgb_value)),
    {
        let mut paint = self;
        if paint.enabled {
            paint.output.push_bg_rgb(rgb_value);
        }
        paint
    }

    /// Set should reset
    pub fn should_reset(self, reset: bool) -> (paint: Self)
        ensures
            paint@ == self@.with_reset(reset),
    {
        let mut paint = self;
        paint.output.set_should_reset(reset);
        paint
    }

    /// Set no reset
    pub fn no_reset(self) -> (paint: Self)
        ensures
            paint@ == self@.with_reset(false),
    {
        let mut paint = self;
        paint.output.set_should_reset(false);
        paint
    }

    /// Add a RGB colour to the content (For use when chaining styles).
    pub fn rgb(self, r: u8, g: u8, b: u8) -> (paint: Self)
        ensures
            paint@ == self@.styled(OutputItem::FgRgb(RGB { r, g, b })),
    {
        self.set_rgb(RGB::new(r, g, b))
    }

    /// Add a background RGB colour to the content (For use when chaining styles).
    pub fn bg_rgb(self, r: u8, g: u8, b: u8) -> (paint: Self)
        ensures
            paint@ == self@.styled(OutputItem::BgRgb(RGB { r, g, b })),
    {
        self.set_bg_rgb(RGB::new(r, g, b))
    }

    /// Add a Hex colour to the content (For use when chaining styles).
    pub fn hex(self, hex: &str) -> (paint: Self)
        ensures
            paint@ == self@.hex(hex@),
    {
        if let Some(rgb) = RGB::new_from_hex(hex) {
            self.set_rgb(rgb)
        } else {
            self
        }
    }

    /// Add a background Hex colour to the content (For use when chaining styles).
    pub fn bg_hex(self, hex: &str) -> (paint: Self)
        ensures
            paint@ == self@.bg_hex(hex@),
    {
        if let Some(rgb) = RGB::new_from_hex(hex) {
            self.set_bg_rgb(rgb)
        } else {
            self
        }
    }

    /// Add ANSI Black colour to the content (For use when chaining styles).
    pub fn black(self) -> (paint: Self)
        ensures
            paint@ == self@.styled(OutputItem::FgColor(Color::Black)),
    {
        self.fg(Color::Black)
    }

    /// Add ANSI Red colour to the content (For use when chaining styles).
    pub fn red(self) -> (paint: Self)
        ensures
            paint@ == self@.styled(OutputItem::FgColor(Color::Red)),
    {
        self.fg(Color::Red)
    }

    /// Add ANSI Green colour to the content (For use when chaining styles).
    pub fn green(self) -> (paint: Self)
        ensures
            paint@ == self@.styled(OutputItem::FgColor(Color::Green)),
    {
        self.fg(Color::Green)
    }

    /// Add ANSI Yellow colour to the content (For use when chaining styles).
    pub fn yellow(self) -> (paint: Self)
        ensures
            paint@ == self@.styled(OutputItem::FgColor(Color::Yellow)),
    {
        self.fg(Color::Yellow)
    }

    /// Add ANSI Blue colour to the content (For use when chaining styles).
    pub fn blue(self) -> (paint: Self)
        ensures
            paint@ == self@.styled(OutputItem::FgColor(Color::Blue)),
    {
        self.fg(Color::Blue)
    }

    /// Add ANSI Magenta colour to the content (For use when chaining styles).
    pub fn magenta(self) -> (paint: Self)
        ensures
            paint@ == self@.styled(OutputItem::FgColor(Color::Magenta)),
    {
        self.fg(Color::Magenta)
    }

    /// Add ANSI Cyan colour to the content (For use when chaining styles).
    pub fn cyan(self) -> (paint: Self)
        ensures
            paint@ == self@.styled(OutputItem::FgColor(Color::Cyan)),
    {
        self.fg(Color::Cyan)
    }

    /// Add ANSI White colour to the content (For use when chaining styles).
    pub fn white(self) -> (paint: Self)
        ensures
            paint@ == self@.styled(OutputItem::FgColor(Color::White)),
    {
        self.fg(Color::White)
    }

    /// Add ANSI Bright Black colour to the content (For use when chaining styles).
    pub fn bright_black(self) -> (paint: Self)
        ensures
            paint@ == self@.styled(OutputItem::FgColor(Color::BrightBlack)),
    {
        self.fg(Color::BrightBlack)
    }

    /// Add ANSI Bright Red colour to the content (For use when chaining styles).
    pub fn bright_red(self) -> (paint: Self)
        ensures
            paint@ == self@.styled(OutputItem::FgColor(Color::BrightRed)),
    {
        self.fg(Color::BrightRed)
    }

    /// Add ANSI Bright Green colour to the content (For use when chaining styles).
    pub fn bright_green(self) -> (paint: Self)
        ensures
            paint@ == self@.styled(OutputItem::FgColor(Color::BrightGreen)),
    {
        self.fg(Color::BrightGreen)
    }

    /// Add ANSI Bright Yellow colour to the content (For use when chaining styles).
    pub fn bright_yellow(self) -> (paint: Self)
        ensures
            paint@ == self@.styled(OutputItem::FgColor(Color::BrightYellow)),
    {
        self.fg(Color::BrightYellow)
    }

    /// Add ANSI Bright Blue colour to the content (For use when chaining styles).
    pub fn bright_blue(self) -> (paint: Self)
        ensures
            paint@ == self@.styled(OutputItem::FgColor(Color::BrightBlue)),
    {
        self.fg(Color::BrightBlue)
    }

    /// Add ANSI Bright Magenta colour to the content (For use when chaining styles).
    pub fn bright_magenta(self) -> (paint: Self)
        ensures
            paint@ == self@.styled(OutputItem::FgColor(Color::BrightMagenta)),
    {
        self.fg(Color::BrightMagenta)
    }

    /// Add ANSI Bright Cyan colour to the content (For use when chaining styles).
    pub fn bright_cyan(self) -> (paint: Self)
        ensures
            paint@ == self@.styled(OutputItem::FgColor(Color::BrightCyan)),
    {
        self.fg(Color::BrightCyan)
    }

    /// Add ANSI Bright White colour to the content (For use when chaining styles).
    pub fn bright_white(self) -> (paint: Self)
        ensures
            paint@ == self@.styled(OutputItem::FgColor(Color::BrightWhite)),
    {
        self.fg(Color::BrightWhite)
    }

    /// Add ANSI Black background colour to the content (For use when chaining styles).
    pub fn bg_black(self) -> (paint: Self)
        ensures
            paint@ == self@.styled(OutputItem::BgColor(Color::Black)),
    {
        self.bg(Color::Black)
    }

    /// Add ANSI Red background colour to the content (For use when chaining styles).
    pub fn bg_red(self) -> (paint: Self)
        ensures
            paint@ == self@.styled(OutputItem::BgColor(Color::Red)),
    {
        self.bg(Color::Red)
    }

    /// Add ANSI Green background colour to the content (For use when chaining styles).
    pub fn bg_green(self) -> (paint: Self)
        ensures
            paint@ == self@.styled(OutputItem::BgColor(Color::Green)),
    {
        self.bg(Color::Green)
    }

    /// Add ANSI Yellow background colour to the content (For use when chaining styles).
    pub fn bg_yellow(self) -> (paint: Self)
        ensures
            paint@ == self@.styled(OutputItem::BgColor(Color::Yellow)),
    {
        self.bg(Color::Yellow)
    }

    /// Add ANSI Blue background colour to the content (For use when chaining styles).
    pub fn bg_blue(self) -> (paint: Self)
        ensures
            paint@ == self@.styled(OutputItem::BgColor(Color::Blue)),
    {
        self.bg(Color::Blue)
    }

    /// Add ANSI Magenta background colour to the content (For use when chaining styles).
    pub fn bg_magenta(self) -> (paint: Self)
        ensures
            paint@ == self@.styled(OutputItem::BgColor(Color::Magenta)),
    {
        self.bg(Color::Magenta)
    }

    /// Add ANSI Cyan background colour to the content (For use when chaining styles).
    pub fn bg_cyan(self) -> (paint: Self)
        ensures
            paint@ == self@.styled(OutputItem::BgColor(Color::Cyan)),
    {
        self.bg(Color::Cyan)
    }

    /// Add ANSI White background colour to the content (For use when chaining styles).
    pub fn bg_white(self) -> (paint: Self)
        ensures
            paint@ == self@.styled(OutputItem::BgColor(Color::White)),
    {
        self.bg(Color::White)
    }

    /// Add ANSI Bright Black background colour to the content (For use when chaining styles).
    pub fn bg_bright_black(self) -> (paint: Self)
        ensures
            paint@ == self@.styled(OutputItem::BgColor(Color::BrightBlack)),
    {
        self.bg(Color::BrightBlack)
    }

    /// Add ANSI Bright Red background colour to the content (For use when chaining styles).
    pub fn bg_bright_red(self) -> (paint: Self)
        ensures
            paint@ == self@.styled(OutputItem::BgColor(Color::BrightRed)),
    {
        self.bg(Color::BrightRed)
    }

    /// Add ANSI Bright Green background colour to the content (For use when chaining styles).
    pub fn bg_bright_green(self) -> (paint: Self)
        ensures
            paint@ == self@.styled(OutputItem::BgColor(Color::BrightGreen)),
    {
        self.bg(Color::BrightGreen)
    }

    /// Add ANSI Bright Yellow background colour to the content (For use when chaining styles).
    pub fn bg_bright_yellow(self) -> (paint: Self)
        ensures
            paint@ == self@.styled(OutputItem::BgColor(Color::BrightYellow)),
    {
        self.bg(Color::BrightYellow)
    }

    /// Add ANSI Bright Blue background colour to the content (For use when chaining styles).
    pub fn bg_bright_blue(self) -> (paint: Self)
        ensures
            paint@ == self@.styled(OutputItem::BgColor(Color::BrightBlue)),
    {
        self.bg(Color::BrightBlue)
    }

    /// Add ANSI Bright Magenta background colour to the content (For use when chaining styles).
    pub fn bg_bright_magenta(self) -> (paint: Self)
        ensures
            paint@ == self@.styled(OutputItem::BgColor(Color::BrightMagenta)),
    {
        self.bg(Color::BrightMagenta)
    }

    /// Add ANSI Bright Cyan background colour to the content (For use when chaining styles).
    pub fn bg_bright_cyan(self) -> (paint: Self)
        ensures
            paint@ == self@.styled(OutputItem::BgColor(Color::BrightCyan)),
    {
        self.bg(Color::BrightCyan)
    }

    /// Add ANSI Bright White background colour to the content (For use when chaining styles).
    pub fn bg_bright_white(self) -> (paint: Self)
        ensures
            paint@ == self@.styled(OutputItem::BgColor(Color::BrightWhite)),
    {
        self.bg(Color::BrightWhite)
    }

    /// Add ANSI Bold decoration to the content (For use when chaining styles).
    pub fn bold(self) -> (paint: Self)
        ensures
            paint@ == self@.styled(OutputItem::Decoration(Decoration::Bold)),
    {
        self.decoration(Decoration::Bold)
    }

    /// Add ANSI Dim decoration to the content (For use when chaining styles).
    pub fn dim(self) -> (paint: Self)
        ensures
            paint@ == self@.styled(OutputItem::Decoration(Decoration::Dim)),
    {
        self.decoration(Decoration::Dim)
    }

    /// Add ANSI Italic decoration to the content (For use when chaining styles).
    pub fn italic(self) -> (paint: Self)
        ensures
            paint@ == self@.styled(OutputItem::Decoration(Decoration::Italic)),
    {
        self.decoration(Decoration::Italic)
    }

    /// Add ANSI Underline decoration to the content (For use when chaining styles).
    pub fn underline(self) -> (paint: Self)
        ensures
            paint@ == self@.styled(OutputItem::Decoration(Decoration::Underline)),
    {
        self.decoration(Decoration::Underline)
    }

    /// Add ANSI Invert decoration to the content (For use when chaining styles).
    pub fn invert(self) -> (paint: Self)
        ensures
            paint@ == self@.styled(OutputItem::Decoration(Decoration::Invert)),
    {
        self.decoration(Decoration::Invert)
    }

    /// Set an is comparison with an optional expression (For use when chaining styles).
    pub fn is(self, expression: Option<bool>) -> (paint: Self)
        ensures
            paint@ == self@.styled(OutputItem::Comparison(Comparison::Is, expression)),
    {
        self.set_is_not(Comparison::Is, expression)
    }

    /// Set a not comparison with an optional expression (For use when chaining styles).
    pub fn not(self, expression: Option<bool>) -> (paint: Self)
        ensures
            paint@ == self@.styled(OutputItem::Comparison(Comparison::Not, expression)),
    {
        self.set_is_not(Comparison::Not, expression)
    }

    /// Set an is comparison with an expression (expression is) (For use when chaining styles).
    pub fn e_is(self, expression: bool) -> (paint: Self)
        ensures
            paint@ == self@.styled(OutputItem::Comparison(Comparison::Is, Some(expression))),
    {
        self.set_is_not(Comparison::Is, Some(expression))
    }

    /// Set a not comparison with an expression (expression not) (For use when chaining styles).
    pub fn e_not(self, expression: bool) -> (paint: Self)
        ensures
            paint@ == self@.styled(OutputItem::Comparison(Comparison::Not, Some(expression))),
    {
        self.set_is_not(Comparison::Not, Some(expression))
    }

    /// Set an is comparison with no expression (none is) (For use when chaining styles).
    pub fn n_is(self) -> (paint: Self)
        ensures
            paint@ == self@.styled(OutputItem::Comparison(Comparison::Is, None)),
    {
        self.set_is_not(Comparison::Is, None)
    }

    /// Set a not comparison with no expression (none not) (For use when chaining styles).
    pub fn n_not(self) -> (paint: Self)
        ensures
            paint@ == self@.styled(OutputItem::Comparison(Comparison::Not, None)),
    {
        self.set_is_not(Comparison::Not, None)
    }

    /// Apply a predefined style: its foreground, then its background, then
    /// its decoration, each only if the style has it.
    pub fn predefined(self, styles: PredefinedStyle) -> (paint: Self)
        ensures
            paint@ == self@.predefined(styles),
    {
        let mut new_self = self;
        if let Some(fg) = styles.fg {
            new_self = new_self.fg(fg);
        }
        if let Some(bg) = styles.bg {
            new_self = new_self.bg(bg);
        }
        if let Some(decoration) = styles.decoration {
            new_self = new_self.decoration(decoration);
        }
        new_self
    }

    /// Success style shortcut (For use when chaining styles).
    pub fn success(self, settings: &Settings) -> (paint: Self)
        ensures
            paint@ == self@.predefined(settings.style(PredefinedStyleType::Success)),
    {
        let styles = predefined_style(settings, PredefinedStyleType::Success);
        self.predefined(styles)
    }

    /// Error style shortcut (For use when chaining styles).
    pub fn error(self, settings: &Settings) -> (paint: Self)
        ensures
            paint@ == self@.predefined(settings.style(PredefinedStyleType::Error)),
    {
        let styles = predefined_style(settings, PredefinedStyleType::Error);
        self.predefined(styles)
    }

    /// Warning style shortcut (For use when chaining styles).
    pub fn warning(self, settings: &Settings) -> (paint: Self)
        ensures
            paint@ == self@.predefined(settings.style(PredefinedStyleType::Warning)),
    {
        let styles = predefined_style(settings, PredefinedStyleType::Warning);
        self.predefined(styles)
    }

    /// Info style shortcut (For use when chaining styles).
    pub fn info(self, settings: &Settings) -> (paint: Self)
        ensures
            paint@ == self@.predefined(settings.style(PredefinedStyleType::Info)),
    {
        let styles = predefined_style(settings, PredefinedStyleType::Info);
        self.predefined(styles)
    }

    /// Debug style shortcut (For use when chaining styles).
    pub fn debug(self, settings: &Settings) -> (paint: Self)
        ensures
            paint@ == self@.predefined(settings.style(PredefinedStyleType::Debug)),
    {
        let styles = predefined_style(settings, PredefinedStyleType::Debug);
        self.predefined(styles)
    }

    /// The text of the context around `content`: the content alone if the
    /// context is disabled or holds no instruction; else one escape sequence
    /// with the parameters that pass the toggles, the content, and the reset
    /// sequence if the reset flag is set.
    ///
    /// Whether 24-bit colours are written out is what the settings allow in
    /// this environment. If that was open, it is resolved here, from
    /// `COLORTERM`, and kept.
    pub fn render_text(
        &self,
        content: &str,
        settings: &mut Settings,
        environment: &Environment,
    ) -> (text: String)
        ensures
            *final(settings) == old(settings).resolved(environment@),
            text@ == self@.text(content@, old(settings).allows_true_color(environment@)),
    {
        let true_color = true_color_allowed(settings, environment);
        self.compose(content, true_color)
    }

    /// The text of the context around `content`, with 24-bit colours written
    /// out if `true_color` says so and replaced by their nearest named
    /// colour if not.
    fn compose(&self, content: &str, true_color: bool) -> (text: String)
        ensures
            text@ == self@.text(content@, true_color),
    {
        let mut text = String::new();
        if !self.enabled {
            text.append(content);
            assert(text@ =~= content@);
            return text;
        }
        let items = self.output.items();
        let count = items.len();

        if count != 0 {
            proof {
                reveal_strlit("\x1b[");
                reveal_strlit("m");
            }
            text.append("\x1b[");
            assert(text@ =~= sequence_start());
            let mut first = true;
            let mut should_paint = true;

            let mut i: usize = 0;
            while i < count
                invariant
                    i <= count,
                    count == items@.len(),
                    should_paint == applying(items@.take(i as int)),
                    first == (parameters(items@.take(i as int), true_color).len() == 0),
                    text@ == sequence_start() + joined(
                        parameters(items@.take(i as int), true_color),
                    ),
                decreases count - i,
            {
                let ghost seen = items@.take(i as int);
                let ghost before = text@;
                proof {
                    assert(items@.take(i + 1) == seen.push(items@[i as int]));
                    lemma_item_added(seen, items@[i as int], true_color);
                }
                match &items[i] {
                    OutputItem::Comparison(comparison, expression) => {
                        match (comparison, expression) {
                            (Comparison::Is, Some(true)) => should_paint = true,
                            (Comparison::Is, Some(false)) => should_paint = false,
                            (Comparison::Not, Some(true)) => should_paint = false,
                            (Comparison::Not, Some(false)) => should_paint = true,
                            (_, None) => should_paint = !should_paint,
                        }
                    },
                    style => {
                        if should_paint {
                            push_parameter(&mut text, &mut first, style, true_color);
                            proof {
                                let part = parameter(*style, true_color).unwrap();
                                lemma_joined_push(parameters(seen, true_color), part);
                                assert(text@ =~= sequence_start() + joined(
                                    parameters(seen, true_color).push(part),
                                ));
                            }
                        }
                    },
                }
                i += 1;
            }
            assert(items@.take(count as int) == items@);

            text.append("m");
        }

        text.append(content);

        if count != 0 && self.output.resets() {
            proof {
                reveal_strlit("\x1b[0m");
            }
            text.append("\x1b[0m");
        }
        assert(text@ =~= self@.text(content@, true_color));
        text
    }
}

impl<T: core::fmt::Display> Paint<T> {
    /// The text of the context around its content as `Display` writes it.
    ///
    /// Whether 24-bit colours are written out is what the settings allow in
    /// this environment. If that was open, it is resolved here, from
    /// `COLORTERM`, and kept.
    pub fn render(&self, settings: &mut Settings, environment: &Environment) -> (text: String)
        ensures
            *final(settings) == old(settings).resolved(environment@),
            exists|content: String|
                {
                    &&& #[trigger] to_string_from_display_ensures::<T>(&self@.inner, content)
                    &&& text@ == self@.text(
                        content@,
                        old(settings).allows_true_color(environment@),
                    )
                },
    {
        let content = self.inner.to_string();
        let text = self.render_text(content.as_str(), settings, environment);
        assert(to_string_from_display_ensures::<T>(&self@.inner, content));
        text
    }
}

/// Append the parameter of one style to the escape sequence under
/// construction; a toggle has none and leaves the sequence as it is.
fn push_parameter(text: &mut String, first: &mut bool, item: &OutputItem, true_color: bool)
    ensures
        match parameter(*item, true_color) {
            Some(part) => {
                &&& !*final(first)
                &&& final(text)@ == old(text)@ + separator(*old(first)) + part
            },
            None => *final(first) == *old(first) && final(text)@ == old(text)@,
        },
{
    match item {
        OutputItem::FgColor(color) => {
            push_raw(text, first, color.fg_code());
        },
        OutputItem::BgColor(color) => {
            push_raw(text, first, color.bg_code());
        },
        OutputItem::FgRgb(rgb) => {
            if true_color {
                let mut direct = String::new();
                rgb.write_fg_sgr(&mut direct);
                assert(direct@ =~= rgb.fg_parameter());
                push_raw(text, first, direct.as_str());
            } else if let Some(color) = rgb.closest_color() {
                push_raw(text, first, color.fg_code());
            }
        },
        OutputItem::BgRgb(rgb) => {
            if true_color {
                let mut direct = String::new();
                rgb.write_bg_sgr(&mut direct);
                assert(direct@ =~= rgb.bg_parameter());
                push_raw(text, first, direct.as_str());
            } else if let Some(color) = rgb.closest_color() {
                push_raw(text, first, color.bg_code());
            }
        },
        OutputItem::Decoration(decoration) => {
            push_raw(text, first, decoration.code());
        },
        OutputItem::Comparison(_, _) => {},
    }
}

/// What stands before a parameter: nothing before the first, a `;` before
/// each other.
pub open spec fn separator(first: bool) -> Seq<char> {
    if first {
        Seq::empty()
    } else {
        seq![';']
    }
}

/// Append one parameter to the escape sequence under construction, after a
/// `;` unless it is the first.
fn push_raw(text: &mut String, first: &mut bool, parameter: &str)
    ensures
        !*final(first),
        final(text)@ == old(text)@ + separator(*old(first)) + parameter@,
{
    if !*first {
        proof {
            reveal_strlit(";");
        }
        text.append(";");
    }
    *first = false;
    text.append(parameter);
    assert(text@ =~= old(text)@ + separator(*old(first)) + parameter@);
}

} // verus!
