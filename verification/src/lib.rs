//! Lightweight ANSI colour styling.
//!
//! A chain of style directives is accumulated in order on a [`Paint`] and
//! rendered as one SGR escape sequence, the content, and a reset. Whether a
//! chain is styled at all is decided once, when it is started, from the
//! [`env::Settings`] and the [`env::Environment`] handed in.
//!
//! ```text
//! let mut settings = Settings::new();
//! let environment = Environment::new();
//! set_color_choice(&mut settings, ColorChoice::Always);
//! let chain = "Hello".blue(&mut settings, &environment).bold();
//! let text = chain.render(&mut settings, &environment);
//! ```
use vstd::prelude::*;

pub mod env;
pub mod output;
pub mod paint;
pub mod render;
pub mod stream;
pub mod style;
pub mod text;

use env::{Environment, PredefinedStyleType, Settings};
use output::OutputItem;
pub use paint::Paint;
use paint::PaintView;
use stream::Stream;
pub use style::{
    Color, Comparison, Decoration, COLOR_BG_BLACK_CODE, COLOR_BG_BLUE_CODE,
    COLOR_BG_BRIGHT_BLACK_CODE, COLOR_BG_BRIGHT_BLUE_CODE, COLOR_BG_BRIGHT_CYAN_CODE,
    COLOR_BG_BRIGHT_GREEN_CODE, COLOR_BG_BRIGHT_MAGENTA_CODE, COLOR_BG_BRIGHT_RED_CODE,
    COLOR_BG_BRIGHT_WHITE_CODE, COLOR_BG_BRIGHT_YELLOW_CODE, COLOR_BG_CYAN_CODE,
    COLOR_BG_GREEN_CODE, COLOR_BG_MAGENTA_CODE, COLOR_BG_RED_CODE, COLOR_BG_RGB,
    COLOR_BG_WHITE_CODE, COLOR_BG_YELLOW_CODE, COLOR_BLACK_CODE, COLOR_BLUE_CODE,
    COLOR_BRIGHT_BLACK_CODE, COLOR_BRIGHT_BLUE_CODE, COLOR_BRIGHT_CYAN_CODE,
    COLOR_BRIGHT_GREEN_CODE, COLOR_BRIGHT_MAGENTA_CODE, COLOR_BRIGHT_RED_CODE,
    COLOR_BRIGHT_WHITE_CODE, COLOR_BRIGHT_YELLOW_CODE, COLOR_CYAN_CODE, COLOR_GREEN_CODE,
    COLOR_MAGENTA_CODE, COLOR_RED_CODE, COLOR_RGB, COLOR_WHITE_CODE, COLOR_YELLOW_CODE,
    DECORATION_BOLD_CODE, DECORATION_DIM_CODE, DECORATION_INVERT_CODE, DECORATION_ITALIC_CODE,
    DECORATION_UNDERLINE_CODE, RGB,
};

verus! {

/// Stylize trait.
///
/// Create new `Paint` contexts and apply styles to them. Every method starts
/// a context: it decides from the settings and the environment whether the
/// context is enabled, and resolves on the way whether 24-bit colours may be
/// used, if that was open.
pub trait Stylize: Sized {
    /// Create a new `Paint` context that writes to std_out.
    fn paint(self, settings: &mut Settings, environment: &Environment) -> (paint: Paint<Self>)
        ensures
            *final(settings) == old(settings).resolved(environment@),
            paint@ == PaintView::started(self, *old(settings), environment@, Stream::Stdout),
    {
        Paint::new_stdout(self, settings, environment)
    }

    /// Create a new `Paint` context that writes to std_err.
    fn paint_err(self, settings: &mut Settings, environment: &Environment) -> (paint: Paint<Self>)
        ensures
            *final(settings) == old(settings).resolved(environment@),
            paint@ == PaintView::started(self, *old(settings), environment@, Stream::Stderr),
    {
        Paint::new_stderr(self, settings, environment)
    }

    /// Set should reset
    fn should_reset(
        self,
        settings: &mut Settings,
        environment: &Environment,
        reset: bool,
    ) -> (paint: Paint<Self>)
        ensures
            *final(settings) == old(settings).resolved(environment@),
            paint@ == PaintView::started(
                self,
                *old(settings),
                environment@,
                Stream::Stdout,
            ).with_reset(reset),
    {
        self.paint(settings, environment).should_reset(reset)
    }

    /// Set no reset
    fn no_reset(self, settings: &mut Settings, environment: &Environment) -> (paint: Paint<Self>)
        ensures
            *final(settings) == old(settings).resolved(environment@),
            paint@ == PaintView::started(
                self,
                *old(settings),
                environment@,
                Stream::Stdout,
            ).with_reset(false),
    {
        self.paint(settings, environment).no_reset()
    }

    /// Create a new std_out `Paint` context and colour content using an RGB value.
    fn rgb(
        self,
        settings: &mut Settings,
        environment: &Environment,
        r: u8,
        g: u8,
        b: u8,
    ) -> (paint: Paint<Self>)
        ensures
            *final(settings) == old(settings).resolved(environment@),
            paint@ == PaintView::started(
                self,
                *old(settings),
                environment@,
                Stream::Stdout,
            ).styled(OutputItem::FgRgb(RGB { r, g, b })),
    {
        self.paint(settings, environment).set_rgb(RGB::new(r, g, b))
    }

    /// Create a new std_out `Paint` context and colour the background of content using an RGB
    /// value.
    fn bg_rgb(
        self,
        settings: &mut Settings,
        environment: &Environment,
        r: u8,
        g: u8,
        b: u8,
    ) -> (paint: Paint<Self>)
        ensures
            *final(settings) == old(settings).resolved(environment@),
            paint@ == PaintView::started(
                self,
                *old(settings),
                environment@,
                Stream::Stdout,
            ).styled(OutputItem::BgRgb(RGB { r, g, b })),
    {
        self.paint(settings, environment).set_bg_rgb(RGB::new(r, g, b))
    }

    /// Create a new std_out `Paint` context and colour content using a Hex string.
    /// For example: FFFFFF
    fn hex(
        self,
        settings: &mut Settings,
        environment: &Environment,
        hex: &str,
    ) -> (paint: Paint<Self>)
        ensures
            *final(settings) == old(settings).resolved(environment@),
            paint@ == PaintView::started(
                self,
                *old(settings),
                environment@,
                Stream::Stdout,
            ).hex(hex@),
    {
        if let Some(rgb) = RGB::new_from_hex(hex) {
            let updated_self = self.paint(settings, environment).set_rgb(rgb);
            updated_self
        } else {
            self.paint(settings, environment)
        }
    }

    /// Create a new std_out `Paint` context and colour the background of content using a Hex
    /// string.
    /// For example: 333333
    fn bg_hex(
        self,
        settings: &mut Settings,
        environment: &Environment,
        hex: &str,
    ) -> (paint: Paint<Self>)
        ensures
            *final(settings) == old(settings).resolved(environment@),
            paint@ == PaintView::started(
                self,
                *old(settings),
                environment@,
                Stream::Stdout,
            ).bg_hex(hex@),
    {
        if let Some(rgb) = RGB::new_from_hex(hex) {
            let updated_self = self.paint(settings, environment).set_bg_rgb(rgb);
            updated_self
        } else {
            self.paint(settings, environment)
        }
    }

    /// Create a new std_out `Paint` context and colour content ANSI Black.
    fn black(self, settings: &mut Settings, environment: &Environment) -> (paint: Paint<Self>)
        ensures
            *final(settings) == old(settings).resolved(environment@),
            paint@ == PaintView::started(
                self,
                *old(settings),
                environment@,
                Stream::Stdout,
            ).styled(OutputItem::FgColor(Color::Black)),
    {
        self.paint(settings, environment).fg(Color::Black)
    }

    /// Create a new std_out `Paint` context and colour content ANSI Red.
    fn red(self, settings: &mut Settings, environment: &Environment) -> (paint: Paint<Self>)
        ensures
            *final(settings) == old(settings).resolved(environment@),
            paint@ == PaintView::started(
                self,
                *old(settings),
                environment@,
                Stream::Stdout,
            ).styled(OutputItem::FgColor(Color::Red)),
    {
        self.paint(settings, environment).fg(Color::Red)
    }

    /// Create a new std_out `Paint` context and colour content ANSI Green.
    fn green(self, settings: &mut Settings, environment: &Environment) -> (paint: Paint<Self>)
        ensures
            *final(settings) == old(settings).resolved(environment@),
            paint@ == PaintView::started(
                self,
                *old(settings),
                environment@,
                Stream::Stdout,
            ).styled(OutputItem::FgColor(Color::Green)),
    {
        self.paint(settings, environment).fg(Color::Green)
    }

    /// Create a new std_out `Paint` context and colour content ANSI Yellow.
    fn yellow(self, settings: &mut Settings, environment: &Environment) -> (paint: Paint<Self>)
        ensures
            *final(settings) == old(settings).resolved(environment@),
            paint@ == PaintView::started(
                self,
                *old(settings),
                environment@,
                Stream::Stdout,
            ).styled(OutputItem::FgColor(Color::Yellow)),
    {
        self.paint(settings, environment).fg(Color::Yellow)
    }

    /// Create a new std_out `Paint` context and colour content ANSI Blue.
    fn blue(self, settings: &mut Settings, environment: &Environment) -> (paint: Paint<Self>)
        ensures
            *final(settings) == old(settings).resolved(environment@),
            paint@ == PaintView::started(
                self,
                *old(settings),
                environment@,
                Stream::Stdout,
            ).styled(OutputItem::FgColor(Color::Blue)),
    {
        self.paint(settings, environment).fg(Color::Blue)
    }

    /// Create a new std_out `Paint` context and colour content ANSI Magenta.
    fn magenta(self, settings: &mut Settings, environment: &Environment) -> (paint: Paint<Self>)
        ensures
            *final(settings) == old(settings).resolved(environment@),
            paint@ == PaintView::started(
                self,
                *old(settings),
                environment@,
                Stream::Stdout,
            ).styled(OutputItem::FgColor(Color::Magenta)),
    {
        self.paint(settings, environment).fg(Color::Magenta)
    }

    /// Create a new std_out `Paint` context and colour content ANSI Cyan.
    fn cyan(self, settings: &mut Settings, environment: &Environment) -> (paint: Paint<Self>)
        ensures
            *final(settings) == old(settings).resolved(environment@),
            paint@ == PaintView::started(
                self,
                *old(settings),
                environment@,
                Stream::Stdout,
            ).styled(OutputItem::FgColor(Color::Cyan)),
    {
        self.paint(settings, environment).fg(Color::Cyan)
    }

    /// Create a new std_out `Paint` context and colour content ANSI White.
    fn white(self, settings: &mut Settings, environment: &Environment) -> (paint: Paint<Self>)
        ensures
            *final(settings) == old(settings).resolved(environment@),
            paint@ == PaintView::started(
                self,
                *old(settings),
                environment@,
                Stream::Stdout,
            ).styled(OutputItem::FgColor(Color::White)),
    {
        self.paint(settings, environment).fg(Color::White)
    }

    /// Create a new std_out `Paint` context and colour content ANSI Bright Black.
    fn bright_black(
        self,
        settings: &mut Settings,
        environment: &Environment,
    ) -> (paint: Paint<Self>)
        ensures
            *final(settings) == old(settings).resolved(environment@),
            paint@ == PaintView::started(
                self,
                *old(settings),
                environment@,
                Stream::Stdout,
            ).styled(OutputItem::FgColor(Color::BrightBlack)),
    {
        self.paint(settings, environment).fg(Color::BrightBlack)
    }

    /// Create a new std_out `Paint` context and colour content ANSI Bright Red.
    fn bright_red(self, settings: &mut Settings, environment: &Environment) -> (paint: Paint<Self>)
        ensures
            *final(settings) == old(settings).resolved(environment@),
            paint@ == PaintView::started(
                self,
                *old(settings),
                environment@,
                Stream::Stdout,
            ).styled(OutputItem::FgColor(Color::BrightRed)),
    {
        self.paint(settings, environment).fg(Color::BrightRed)
    }

    /// Create a new std_out `Paint` context and colour content ANSI Bright Green.
    fn bright_green(
        self,
        settings: &mut Settings,
        environment: &Environment,
    ) -> (paint: Paint<Self>)
        ensures
            *final(settings) == old(settings).resolved(environment@),
            paint@ == PaintView::started(
                self,
                *old(settings),
                environment@,
                Stream::Stdout,
            ).styled(OutputItem::FgColor(Color::BrightGreen)),
    {
        self.paint(settings, environment).fg(Color::BrightGreen)
    }

    /// Create a new std_out `Paint` context and colour content ANSI Bright Yellow.
    fn bright_yellow(
        self,
        settings: &mut Settings,
        environment: &Environment,
    ) -> (paint: Paint<Self>)
        ensures
            *final(settings) == old(settings).resolved(environment@),
            paint@ == PaintView::started(
                self,
                *old(settings),
                environment@,
                Stream::Stdout,
            ).styled(OutputItem::FgColor(Color::BrightYellow)),
    {
        self.paint(settings, environment).fg(Color::BrightYellow)
    }

    /// Create a new std_out `Paint` context and colour content ANSI Bright Blue.
    fn bright_blue(self, settings: &mut Settings, environment: &Environment) -> (paint: Paint<Self>)
        ensures
            *final(settings) == old(settings).resolved(environment@),
            paint@ == PaintView::started(
                self,
                *old(settings),
                environment@,
                Stream::Stdout,
            ).styled(OutputItem::FgColor(Color::BrightBlue)),
    {
        self.paint(settings, environment).fg(Color::BrightBlue)
    }

    /// Create a new std_out `Paint` context and colour content ANSI Bright Magenta.
    fn bright_magenta(
        self,
        settings: &mut Settings,
        environment: &Environment,
    ) -> (paint: Paint<Self>)
        ensures
            *final(settings) == old(settings).resolved(environment@),
            paint@ == PaintView::started(
                self,
                *old(settings),
                environment@,
                Stream::Stdout,
            ).styled(OutputItem::FgColor(Color::BrightMagenta)),
    {
        self.paint(settings, environment).fg(Color::BrightMagenta)
    }

    /// Create a new std_out `Paint` context and colour content ANSI Bright Cyan.
    fn bright_cyan(self, settings: &mut Settings, environment: &Environment) -> (paint: Paint<Self>)
        ensures
            *final(settings) == old(settings).resolved(environment@),
            paint@ == PaintView::started(
                self,
                *old(settings),
                environment@,
                Stream::Stdout,
            ).styled(OutputItem::FgColor(Color::BrightCyan)),
    {
        self.paint(settings, environment).fg(Color::BrightCyan)
    }

    /// Create a new std_out `Paint` context and colour content ANSI Bright White.
    fn bright_white(
        self,
        settings: &mut Settings,
        environment: &Environment,
    ) -> (paint: Paint<Self>)
        ensures
            *final(settings) == old(settings).resolved(environment@),
            paint@ == PaintView::started(
                self,
                *old(settings),
                environment@,
                Stream::Stdout,
            ).styled(OutputItem::FgColor(Color::BrightWhite)),
    {
        self.paint(settings, environment).fg(Color::BrightWhite)
    }

    /// Create a new std_out `Paint` context and colour the background of content ANSI Black.
    fn bg_black(self, settings: &mut Settings, environment: &Environment) -> (paint: Paint<Self>)
        ensures
            *final(settings) == old(settings).resolved(environment@),
            paint@ == PaintView::started(
                self,
                *old(settings),
                environment@,
                Stream::Stdout,
            ).styled(OutputItem::BgColor(Color::Black)),
    {
        self.paint(settings, environment).bg(Color::Black)
    }

    /// Create a new std_out `Paint` context and colour the background of content ANSI Red.
    fn bg_red(self, settings: &mut Settings, environment: &Environment) -> (paint: Paint<Self>)
        ensures
            *final(settings) == old(settings).resolved(environment@),
            paint@ == PaintView::started(
                self,
                *old(settings),
                environment@,
                Stream::Stdout,
            ).styled(OutputItem::BgColor(Color::Red)),
    {
        self.paint(settings, environment).bg(Color::Red)
    }

    /// Create a new std_out `Paint` context and colour the background of content ANSI Green.
    fn bg_green(self, settings: &mut Settings, environment: &Environment) -> (paint: Paint<Self>)
        ensures
            *final(settings) == old(settings).resolved(environment@),
            paint@ == PaintView::started(
                self,
                *old(settings),
                environment@,
                Stream::Stdout,
            ).styled(OutputItem::BgColor(Color::Green)),
    {
        self.paint(settings, environment).bg(Color::Green)
    }

    /// Create a new std_out `Paint` context and colour the background of content ANSI Yellow.
    fn bg_yellow(self, settings: &mut Settings, environment: &Environment) -> (paint: Paint<Self>)
        ensures
            *final(settings) == old(settings).resolved(environment@),
            paint@ == PaintView::started(
                self,
                *old(settings),
                environment@,
                Stream::Stdout,
            ).styled(OutputItem::BgColor(Color::Yellow)),
    {
        self.paint(settings, environment).bg(Color::Yellow)
    }

    /// Create a new std_out `Paint` context and colour the background of content ANSI Blue.
    fn bg_blue(self, settings: &mut Settings, environment: &Environment) -> (paint: Paint<Self>)
        ensures
            *final(settings) == old(settings).resolved(environment@),
            paint@ == PaintView::started(
                self,
                *old(settings),
                environment@,
                Stream::Stdout,
            ).styled(OutputItem::BgColor(Color::Blue)),
    {
        self.paint(settings, environment).bg(Color::Blue)
    }

    /// Create a new std_out `Paint` context and colour the background of content ANSI Magenta.
    fn bg_magenta(self, settings: &mut Settings, environment: &Environment) -> (paint: Paint<Self>)
        ensures
            *final(settings) == old(settings).resolved(environment@),
            paint@ == PaintView::started(
                self,
                *old(settings),
                environment@,
                Stream::Stdout,
            ).styled(OutputItem::BgColor(Color::Magenta)),
    {
        self.paint(settings, environment).bg(Color::Magenta)
    }

    /// Create a new std_out `Paint` context and colour the background of content ANSI Cyan.
    fn bg_cyan(self, settings: &mut Settings, environment: &Environment) -> (paint: Paint<Self>)
        ensures
            *final(settings) == old(settings).resolved(environment@),
            paint@ == PaintView::started(
                self,
                *old(settings),
                environment@,
                Stream::Stdout,
            ).styled(OutputItem::BgColor(Color::Cyan)),
    {
        self.paint(settings, environment).bg(Color::Cyan)
    }

    /// Create a new std_out `Paint` context and colour the background of content ANSI White.
    fn bg_white(self, settings: &mut Settings, environment: &Environment) -> (paint: Paint<Self>)
        ensures
            *final(settings) == old(settings).resolved(environment@),
            paint@ == PaintView::started(
                self,
                *old(settings),
                environment@,
                Stream::Stdout,
            ).styled(OutputItem::BgColor(Color::White)),
    {
        self.paint(settings, environment).bg(Color::White)
    }

    /// Create a new std_out `Paint` context and colour the background of content ANSI Bright Black.
    fn bg_bright_black(
        self,
        settings: &mut Settings,
        environment: &Environment,
    ) -> (paint: Paint<Self>)
        ensures
            *final(settings) == old(settings).resolved(environment@),
            paint@ == PaintView::started(
                self,
                *old(settings),
                environment@,
                Stream::Stdout,
            ).styled(OutputItem::BgColor(Color::BrightBlack)),
    {
        self.paint(settings, environment).bg(Color::BrightBlack)
    }

    /// Create a new std_out `Paint` context and colour the background of content ANSI Bright Red.
    fn bg_bright_red(
        self,
        settings: &mut Settings,
        environment: &Environment,
    ) -> (paint: Paint<Self>)
        ensures
            *final(settings) == old(settings).resolved(environment@),
            paint@ == PaintView::started(
                self,
                *old(settings),
                environment@,
                Stream::Stdout,
            ).styled(OutputItem::BgColor(Color::BrightRed)),
    {
        self.paint(settings, environment).bg(Color::BrightRed)
    }

    /// Create a new std_out `Paint` context and colour the background of content ANSI Bright Green.
    fn bg_bright_green(
        self,
        settings: &mut Settings,
        environment: &Environment,
    ) -> (paint: Paint<Self>)
        ensures
            *final(settings) == old(settings).resolved(environment@),
            paint@ == PaintView::started(
                self,
                *old(settings),
                environment@,
                Stream::Stdout,
            ).styled(OutputItem::BgColor(Color::BrightGreen)),
    {
        self.paint(settings, environment).bg(Color::BrightGreen)
    }

    /// Create a new std_out `Paint` context and colour the background of content ANSI Bright
    /// Yellow.
    fn bg_bright_yellow(
        self,
        settings: &mut Settings,
        environment: &Environment,
    ) -> (paint: Paint<Self>)
        ensures
            *final(settings) == old(settings).resolved(environment@),
            paint@ == PaintView::started(
                self,
                *old(settings),
                environment@,
                Stream::Stdout,
            ).styled(OutputItem::BgColor(Color::BrightYellow)),
    {
        self.paint(settings, environment).bg(Color::BrightYellow)
    }

    /// Create a new std_out `Paint` context and colour the background of content ANSI Bright Blue.
    fn bg_bright_blue(
        self,
        settings: &mut Settings,
        environment: &Environment,
    ) -> (paint: Paint<Self>)
        ensures
            *final(settings) == old(settings).resolved(environment@),
            paint@ == PaintView::started(
                self,
                *old(settings),
                environment@,
                Stream::Stdout,
            ).styled(OutputItem::BgColor(Color::BrightBlue)),
    {
        self.paint(settings, environment).bg(Color::BrightBlue)
    }

    /// Create a new std_out `Paint` context and colour the background of content ANSI Bright
    /// Magenta.
    fn bg_bright_magenta(
        self,
        settings: &mut Settings,
        environment: &Environment,
    ) -> (paint: Paint<Self>)
        ensures
            *final(settings) == old(settings).resolved(environment@),
            paint@ == PaintView::started(
                self,
                *old(settings),
                environment@,
                Stream::Stdout,
            ).styled(OutputItem::BgColor(Color::BrightMagenta)),
    {
        self.paint(settings, environment).bg(Color::BrightMagenta)
    }

    /// Create a new std_out `Paint` context and colour the background of content ANSI Bright Cyan.
    fn bg_bright_cyan(
        self,
        settings: &mut Settings,
        environment: &Environment,
    ) -> (paint: Paint<Self>)
        ensures
            *final(settings) == old(settings).resolved(environment@),
            paint@ == PaintView::started(
                self,
                *old(settings),
                environment@,
                Stream::Stdout,
            ).styled(OutputItem::BgColor(Color::BrightCyan)),
    {
        self.paint(settings, environment).bg(Color::BrightCyan)
    }

    /// Create a new std_out `Paint` context and colour the background of content ANSI Bright White.
    fn bg_bright_white(
        self,
        settings: &mut Settings,
        environment: &Environment,
    ) -> (paint: Paint<Self>)
        ensures
            *final(settings) == old(settings).resolved(environment@),
            paint@ == PaintView::started(
                self,
                *old(settings),
                environment@,
                Stream::Stdout,
            ).styled(OutputItem::BgColor(Color::BrightWhite)),
    {
        self.paint(settings, environment).bg(Color::BrightWhite)
    }

    /// Create a new std_out `Paint` context and decorate content ANSI Bold.
    fn bold(self, settings: &mut Settings, environment: &Environment) -> (paint: Paint<Self>)
        ensures
            *final(settings) == old(settings).resolved(environment@),
            paint@ == PaintView::started(
                self,
                *old(settings),
                environment@,
                Stream::Stdout,
            ).styled(OutputItem::Decoration(Decoration::Bold)),
    {
        self.paint(settings, environment).decoration(Decoration::Bold)
    }

    /// Create a new std_out `Paint` context and decorate content ANSI Dim.
    fn dim(self, settings: &mut Settings, environment: &Environment) -> (paint: Paint<Self>)
        ensures
            *final(settings) == old(settings).resolved(environment@),
            paint@ == PaintView::started(
                self,
                *old(settings),
                environment@,
                Stream::Stdout,
            ).styled(OutputItem::Decoration(Decoration::Dim)),
    {
        self.paint(settings, environment).decoration(Decoration::Dim)
    }

    /// Create a new std_out `Paint` context and decorate content ANSI Italic.
    fn italic(self, settings: &mut Settings, environment: &Environment) -> (paint: Paint<Self>)
        ensures
            *final(settings) == old(settings).resolved(environment@),
            paint@ == PaintView::started(
                self,
                *old(settings),
                environment@,
                Stream::Stdout,
            ).styled(OutputItem::Decoration(Decoration::Italic)),
    {
        self.paint(settings, environment).decoration(Decoration::Italic)
    }

    /// Create a new std_out `Paint` context and decorate content ANSI Underline.
    fn underline(self, settings: &mut Settings, environment: &Environment) -> (paint: Paint<Self>)
        ensures
            *final(settings) == old(settings).resolved(environment@),
            paint@ == PaintView::started(
                self,
                *old(settings),
                environment@,
                Stream::Stdout,
            ).styled(OutputItem::Decoration(Decoration::Underline)),
    {
        self.paint(settings, environment).decoration(Decoration::Underline)
    }

    /// Create a new std_out `Paint` context and decorate content ANSI Invert.
    fn invert(self, settings: &mut Settings, environment: &Environment) -> (paint: Paint<Self>)
        ensures
            *final(settings) == old(settings).resolved(environment@),
            paint@ == PaintView::started(
                self,
                *old(settings),
                environment@,
                Stream::Stdout,
            ).styled(OutputItem::Decoration(Decoration::Invert)),
    {
        self.paint(settings, environment).decoration(Decoration::Invert)
    }

    /// Set an is comparison with or without an expression
    fn is(
        self,
        settings: &mut Settings,
        environment: &Environment,
        expression: Option<bool>,
    ) -> (paint: Paint<Self>)
        ensures
            *final(settings) == old(settings).resolved(environment@),
            paint@ == PaintView::started(
                self,
                *old(settings),
                environment@,
                Stream::Stdout,
            ).styled(OutputItem::Comparison(Comparison::Is, expression)),
    {
        self.paint(settings, environment).set_is_not(Comparison::Is, expression)
    }

    /// Set a not comparison with or without an expression
    fn not(
        self,
        settings: &mut Settings,
        environment: &Environment,
        expression: Option<bool>,
    ) -> (paint: Paint<Self>)
        ensures
            *final(settings) == old(settings).resolved(environment@),
            paint@ == PaintView::started(
                self,
                *old(settings),
                environment@,
                Stream::Stdout,
            ).styled(OutputItem::Comparison(Comparison::Not, expression)),
    {
        self.paint(settings, environment).set_is_not(Comparison::Not, expression)
    }

    /// Set an is comparison with an expression (expression is)
    fn e_is(
        self,
        settings: &mut Settings,
        environment: &Environment,
        expression: bool,
    ) -> (paint: Paint<Self>)
        ensures
            *final(settings) == old(settings).resolved(environment@),
            paint@ == PaintView::started(
                self,
                *old(settings),
                environment@,
                Stream::Stdout,
            ).styled(OutputItem::Comparison(Comparison::Is, Some(expression))),
    {
        self.paint(settings, environment).set_is_not(Comparison::Is, Some(expression))
    }

    /// Set a not comparison with an expression (expression not)
    fn e_not(
        self,
        settings: &mut Settings,
        environment: &Environment,
        expression: bool,
    ) -> (paint: Paint<Self>)
        ensures
            *final(settings) == old(settings).resolved(environment@),
            paint@ == PaintView::started(
                self,
                *old(settings),
                environment@,
                Stream::Stdout,
            ).styled(OutputItem::Comparison(Comparison::Not, Some(expression))),
    {
        self.paint(settings, environment).set_is_not(Comparison::Not, Some(expression))
    }

    /// Set an is comparison with no expression (none is)
    fn n_is(self, settings: &mut Settings, environment: &Environment) -> (paint: Paint<Self>)
        ensures
            *final(settings) == old(settings).resolved(environment@),
            paint@ == PaintView::started(
                self,
                *old(settings),
                environment@,
                Stream::Stdout,
            ).styled(OutputItem::Comparison(Comparison::Is, None)),
    {
        self.paint(settings, environment).set_is_not(Comparison::Is, None)
    }

    /// Set a not comparison with no expression (none not)
    fn n_not(self, settings: &mut Settings, environment: &Environment) -> (paint: Paint<Self>)
        ensures
            *final(settings) == old(settings).resolved(environment@),
            paint@ == PaintView::started(
                self,
                *old(settings),
                environment@,
                Stream::Stdout,
            ).styled(OutputItem::Comparison(Comparison::Not, None)),
    {
        self.paint(settings, environment).set_is_not(Comparison::Not, None)
    }

    /// Success style shortcut
    fn success(self, settings: &mut Settings, environment: &Environment) -> (paint: Paint<Self>)
        ensures
            *final(settings) == old(settings).resolved(environment@),
            paint@ == PaintView::started(
                self,
                *old(settings),
                environment@,
                Stream::Stdout,
            ).predefined(old(settings).style(PredefinedStyleType::Success)),
    {
        let paint = self.paint(settings, environment);
        paint.success(settings)
    }

    /// Error style shortcut
    fn error(self, settings: &mut Settings, environment: &Environment) -> (paint: Paint<Self>)
        ensures
            *final(settings) == old(settings).resolved(environment@),
            paint@ == PaintView::started(
                self,
                *old(settings),
                environment@,
                Stream::Stdout,
            ).predefined(old(settings).style(PredefinedStyleType::Error)),
    {
        let paint = self.paint(settings, environment);
        paint.error(settings)
    }

    /// Warning style shortcut
    fn warning(self, settings: &mut Settings, environment: &Environment) -> (paint: Paint<Self>)
        ensures
            *final(settings) == old(settings).resolved(environment@),
            paint@ == PaintView::started(
                self,
                *old(settings),
                environment@,
                Stream::Stdout,
            ).predefined(old(settings).style(PredefinedStyleType::Warning)),
    {
        let paint = self.paint(settings, environment);
        paint.warning(settings)
    }

    /// Info style shortcut
    fn info(self, settings: &mut Settings, environment: &Environment) -> (paint: Paint<Self>)
        ensures
            *final(settings) == old(settings).resolved(environment@),
            paint@ == PaintView::started(
                self,
                *old(settings),
                environment@,
                Stream::Stdout,
            ).predefined(old(settings).style(PredefinedStyleType::Info)),
    {
        let paint = self.paint(settings, environment);
        paint.info(settings)
    }

    /// Debug style shortcut
    fn debug(self, settings: &mut Settings, environment: &Environment) -> (paint: Paint<Self>)
        ensures
            *final(settings) == old(settings).resolved(environment@),
            paint@ == PaintView::started(
                self,
                *old(settings),
                environment@,
                Stream::Stdout,
            ).predefined(old(settings).style(PredefinedStyleType::Debug)),
    {
        let paint = self.paint(settings, environment);
        paint.debug(settings)
    }
}

impl<T> Stylize for T {
}

} // verus!
