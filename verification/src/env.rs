//! The capability resolver: the settings that decide whether styling is
//! active at all and whether 24-bit colours may be used, the environment
//! that they are resolved against, and the predefined semantic styles.
use crate::stream::Stream;
use crate::style::{Color, Decoration};
use vstd::prelude::*;

verus! {

/// Choose whether output should always be styled, never be styled, or auto
/// select whether to style or not.
#[derive(Clone, Copy, Debug, PartialEq, Eq, Structural)]
pub enum ColorChoice {
    Auto,
    Always,
    Never,
}

/// The five semantic categories that have a predefined style.
#[derive(Clone, Copy, Debug, PartialEq, Eq, Structural)]
pub enum PredefinedStyleType {
    Success,
    Warning,
    Error,
    Info,
    Debug,
}

/// What one semantic category applies to a chain: each part is optional.
#[derive(Clone, Copy, Debug, PartialEq, Eq)]
pub struct PredefinedStyle {
    pub fg: Option<Color>,
    pub bg: Option<Color>,
    pub decoration: Option<Decoration>,
}

impl PredefinedStyleType {
    /// The style that the category has until it is overwritten, and again
    /// after a reset.
    pub open spec fn default_style(self) -> PredefinedStyle {
        match self {
            PredefinedStyleType::Success => PredefinedStyle {
                fg: Some(Color::Green),
                bg: None,
                decoration: Some(Decoration::Bold),
            },
            PredefinedStyleType::Warning => PredefinedStyle {
                fg: Some(Color::Yellow),
                bg: None,
                decoration: Some(Decoration::Bold),
            },
            PredefinedStyleType::Error => PredefinedStyle {
                fg: Some(Color::Red),
                bg: None,
                decoration: Some(Decoration::Bold),
            },
            PredefinedStyleType::Info => PredefinedStyle {
                fg: Some(Color::Blue),
                bg: None,
                decoration: None,
            },
            PredefinedStyleType::Debug => PredefinedStyle {
                fg: Some(Color::Magenta),
                bg: None,
                decoration: None,
            },
        }
    }
}

/// What the process environment and the terminal probes report at one
/// moment. A variable that is unset, or whose value is not Unicode, is
/// `None`.
#[derive(Clone, Debug)]
pub struct Environment {
    /// Whether `NO_COLOR` is present, whatever its value.
    pub no_color: bool,
    /// The value of `TERM`.
    pub term: Option<String>,
    /// The value of `CLICOLOR`.
    pub clicolor: Option<String>,
    /// The value of `CLICOLOR_FORCE`.
    pub clicolor_force: Option<String>,
    /// The value of `COLORTERM`.
    pub colorterm: Option<String>,
    /// Whether standard output is an interactive terminal.
    pub stdout_terminal: bool,
    /// Whether standard error is an interactive terminal.
    pub stderr_terminal: bool,
}

/// An `Environment` with each value as a sequence of characters.
pub struct EnvironmentView {
    pub no_color: bool,
    pub term: Option<Seq<char>>,
    pub clicolor: Option<Seq<char>>,
    pub clicolor_force: Option<Seq<char>>,
    pub colorterm: Option<Seq<char>>,
    pub stdout_terminal: bool,
    pub stderr_terminal: bool,
}

/// The value of a variable as a sequence of characters.
pub open spec fn value_view(value: Option<String>) -> Option<Seq<char>> {
    match value {
        Some(text) => Some(text@),
        None => None,
    }
}

impl View for Environment {
    type V = EnvironmentView;

    open spec fn view(&self) -> EnvironmentView {
        EnvironmentView {
            no_color: self.no_color,
            term: value_view(self.term),
            clicolor: value_view(self.clicolor),
            clicolor_force: value_view(self.clicolor_force),
            colorterm: value_view(self.colorterm),
            stdout_terminal: self.stdout_terminal,
            stderr_terminal: self.stderr_terminal,
        }
    }
}

impl EnvironmentView {
    /// Whether `COLORTERM` announces 24-bit colour.
    pub open spec fn offers_true_color(self) -> bool {
        self.colorterm == Some("truecolor"@) || self.colorterm == Some("24bit"@)
    }

    /// Whether `stream` is an interactive terminal.
    pub open spec fn is_terminal(self, stream: Stream) -> bool {
        match stream {
            Stream::Stdout => self.stdout_terminal,
            Stream::Stderr => self.stderr_terminal,
        }
    }

    /// Whether text meant for `stream` is styled under `choice`. The
    /// override decides first; then the environment, in this order:
    /// `NO_COLOR`, `TERM`, `CLICOLOR`, `CLICOLOR_FORCE`; at last the terminal
    /// probe of the stream.
    pub open spec fn colorize(self, choice: ColorChoice, stream: Stream) -> bool {
        if choice == ColorChoice::Never {
            false
        } else if choice == ColorChoice::Always {
            true
        } else if self.no_color {
            false
        } else if self.term == Some("dumb"@) {
            false
        } else if self.clicolor == Some("0"@) {
            false
        } else if self.clicolor_force == Some("1"@) {
            true
        } else {
            self.is_terminal(stream)
        }
    }

    /// Whether the terminal probe has the last word under `choice`: the
    /// override is `Auto` and no variable decides.
    pub open spec fn probe_decides(self, choice: ColorChoice) -> bool {
        &&& choice == ColorChoice::Auto
        &&& !self.no_color
        &&& self.term != Some("dumb"@)
        &&& self.clicolor != Some("0"@)
        &&& self.clicolor_force != Some("1"@)
    }

    /// Where the probe has the last word, the decision is what the probe of
    /// the stream says; where it has not, the decision is the same whatever
    /// the probes say.
    pub proof fn lemma_probe_decides(
        self,
        choice: ColorChoice,
        stream: Stream,
        stdout_terminal: bool,
        stderr_terminal: bool,
    )
        ensures
            self.probe_decides(choice) ==> self.colorize(choice, stream) == self.is_terminal(
                stream,
            ),
            !self.probe_decides(choice) ==> self.colorize(choice, stream) == (EnvironmentView {
                stdout_terminal,
                stderr_terminal,
                ..self
            }).colorize(choice, stream),
    {
    }

    /// When the override is `Never`, nothing is styled.
    pub proof fn lemma_never_disables(self, stream: Stream)
        ensures
            !self.colorize(ColorChoice::Never, stream),
    {
    }

    /// When the override is `Always`, everything is styled.
    pub proof fn lemma_always_enables(self, stream: Stream)
        ensures
            self.colorize(ColorChoice::Always, stream),
    {
    }

    /// Left to the environment, nothing is styled when `NO_COLOR` is set,
    /// when `TERM` is `dumb` or when `CLICOLOR` is `0`, whatever
    /// `CLICOLOR_FORCE` and the terminal probes say.
    pub proof fn lemma_environment_disables(self, stream: Stream)
        requires
            self.no_color || self.term == Some("dumb"@) || self.clicolor == Some("0"@),
        ensures
            !self.colorize(ColorChoice::Auto, stream),
    {
    }

    /// Left to the environment, `CLICOLOR_FORCE=1` styles text for a stream
    /// that is no interactive terminal too, unless `NO_COLOR`, `TERM` or
    /// `CLICOLOR` forbids it.
    pub proof fn lemma_force_enables(self, stream: Stream)
        requires
            !self.no_color,
            self.term != Some("dumb"@),
            self.clicolor != Some("0"@),
            self.clicolor_force == Some("1"@),
        ensures
            self.colorize(ColorChoice::Auto, stream),
    {
    }
}

impl Environment {
    /// An environment in which no variable is set and no stream is a
    /// terminal.
    pub fn new() -> (environment: Self)
        ensures
            environment@ == (EnvironmentView {
                no_color: false,
                term: None,
                clicolor: None,
                clicolor_force: None,
                colorterm: None,
                stdout_terminal: false,
                stderr_terminal: false,
            }),
    {
        Environment {
            no_color: false,
            term: None,
            clicolor: None,
            clicolor_force: None,
            colorterm: None,
            stdout_terminal: false,
            stderr_terminal: false,
        }
    }
}

/// The settings of the capability resolver: the override, whether 24-bit
/// colours may be used, and the style of each semantic category.
///
/// Whether 24-bit colours may be used is open until it is resolved: `None`
/// stands for "not resolved yet", and the first use resolves it from
/// `COLORTERM`.
#[derive(Clone, Copy, Debug)]
pub struct Settings {
    pub choice: ColorChoice,
    pub true_color: Option<bool>,
    pub success: PredefinedStyle,
    pub warning: PredefinedStyle,
    pub error: PredefinedStyle,
    pub info: PredefinedStyle,
    pub debug: PredefinedStyle,
}

impl Settings {
    /// The settings at the start: the override is `Auto`, it is open whether
    /// 24-bit colours may be used, and each category has its default style.
    pub open spec fn initial() -> Settings {
        Settings {
            choice: ColorChoice::Auto,
            true_color: None,
            success: PredefinedStyleType::Success.default_style(),
            warning: PredefinedStyleType::Warning.default_style(),
            error: PredefinedStyleType::Error.default_style(),
            info: PredefinedStyleType::Info.default_style(),
            debug: PredefinedStyleType::Debug.default_style(),
        }
    }

    /// The style of one category.
    pub open spec fn style(self, style_type: PredefinedStyleType) -> PredefinedStyle {
        match style_type {
            PredefinedStyleType::Success => self.success,
            PredefinedStyleType::Warning => self.warning,
            PredefinedStyleType::Error => self.error,
            PredefinedStyleType::Info => self.info,
            PredefinedStyleType::Debug => self.debug,
        }
    }

    /// The settings with the style of one category replaced.
    pub open spec fn with_style(
        self,
        style_type: PredefinedStyleType,
        style: PredefinedStyle,
    ) -> Settings {
        match style_type {
            PredefinedStyleType::Success => Settings { success: style, ..self },
            PredefinedStyleType::Warning => Settings { warning: style, ..self },
            PredefinedStyleType::Error => Settings { error: style, ..self },
            PredefinedStyleType::Info => Settings { info: style, ..self },
            PredefinedStyleType::Debug => Settings { debug: style, ..self },
        }
    }

    /// The settings with the override replaced.
    pub open spec fn with_choice(self, choice: ColorChoice) -> Settings {
        Settings { choice, ..self }
    }

    /// The settings with 24-bit colour resolved to `allowed`.
    pub open spec fn with_true_color(self, allowed: bool) -> Settings {
        Settings { true_color: Some(allowed), ..self }
    }

    /// Whether 24-bit colours may be used under these settings in this
    /// environment: what was resolved or set before, else what `COLORTERM`
    /// announces.
    pub open spec fn allows_true_color(self, environment: EnvironmentView) -> bool {
        match self.true_color {
            Some(allowed) => allowed,
            None => environment.offers_true_color(),
        }
    }

    /// The settings once it is resolved whether 24-bit colours may be used:
    /// unchanged if that was resolved or set before, else resolved from
    /// `COLORTERM`.
    pub open spec fn resolved(self, environment: EnvironmentView) -> Settings {
        self.with_true_color(self.allows_true_color(environment))
    }

    /// Resolving fixes the answer: it gives what the settings allow in the
    /// environment of the first use, and no later environment changes it.
    pub proof fn lemma_resolved_once(self, first: EnvironmentView, later: EnvironmentView)
        ensures
            self.resolved(first).true_color == Some(self.allows_true_color(first)),
            self.resolved(first).allows_true_color(later) == self.allows_true_color(first),
            self.resolved(first).resolved(later) == self.resolved(first),
            self.true_color.is_some() ==> self.resolved(first) == self,
    {
    }

    /// An explicit value wins over `COLORTERM`, whatever was resolved before.
    pub proof fn lemma_override_wins(self, allowed: bool, environment: EnvironmentView)
        ensures
            self.with_true_color(allowed).allows_true_color(environment) == allowed,
            self.with_true_color(allowed).resolved(environment) == self.with_true_color(allowed),
    {
    }

    /// The settings with every category back at its default style.
    pub open spec fn with_default_styles(self) -> Settings {
        Settings {
            success: PredefinedStyleType::Success.default_style(),
            warning: PredefinedStyleType::Warning.default_style(),
            error: PredefinedStyleType::Error.default_style(),
            info: PredefinedStyleType::Info.default_style(),
            debug: PredefinedStyleType::Debug.default_style(),
            ..self
        }
    }

    /// The settings at the start.
    pub fn new() -> (settings: Self)
        ensures
            settings == Settings::initial(),
    {
        Settings {
            choice: ColorChoice::Auto,
            true_color: None,
            success: default_style(PredefinedStyleType::Success),
            warning: default_style(PredefinedStyleType::Warning),
            error: default_style(PredefinedStyleType::Error),
            info: default_style(PredefinedStyleType::Info),
            debug: default_style(PredefinedStyleType::Debug),
        }
    }
}

/// The default style of a category.
fn default_style(style_type: PredefinedStyleType) -> (style: PredefinedStyle)
    ensures
        style == style_type.default_style(),
{
    match style_type {
        PredefinedStyleType::Success => PredefinedStyle {
            fg: Some(Color::Green),
            bg: None,
            decoration: Some(Decoration::Bold),
        },
        PredefinedStyleType::Warning => PredefinedStyle {
            fg: Some(Color::Yellow),
            bg: None,
            decoration: Some(Decoration::Bold),
        },
        PredefinedStyleType::Error => PredefinedStyle {
            fg: Some(Color::Red),
            bg: None,
            decoration: Some(Decoration::Bold),
        },
        PredefinedStyleType::Info => PredefinedStyle {
            fg: Some(Color::Blue),
            bg: None,
            decoration: None,
        },
        PredefinedStyleType::Debug => PredefinedStyle {
            fg: Some(Color::Magenta),
            bg: None,
            decoration: None,
        },
    }
}

/// Whether a variable is set to exactly `expected`.
fn is_set_to(value: &Option<String>, expected: &str) -> (same: bool)
    ensures
        same == (value_view(*value) == Some(expected@)),
{
    match value {
        Some(text) => *text == String::from_str(expected),
        None => false,
    }
}

/// Get the current colour choice.
pub fn color_choice(settings: &Settings) -> (choice: ColorChoice)
    ensures
        choice == settings.choice,
{
    settings.choice
}

/// Set a new colour choice.
pub fn set_color_choice(settings: &mut Settings, choice: ColorChoice)
    ensures
        *final(settings) == old(settings).with_choice(choice),
{
    if color_choice(settings) != choice {
        settings.choice = choice;
    }
}

/// Whether 24-bit colours may be used. The first use resolves the answer
/// from `COLORTERM`, unless it was set before, and keeps it: later calls
/// give the same answer whatever the environment has become.
pub fn true_color_allowed(settings: &mut Settings, environment: &Environment) -> (allowed: bool)
    ensures
        *final(settings) == old(settings).resolved(environment@),
        allowed == old(settings).allows_true_color(environment@),
{
    if !true_color_initialized(settings) {
        set_true_color_allowed(settings, environment, None);
    }
    match settings.true_color {
        Some(allowed) => allowed,
        None => false,
    }
}

/// Set whether 24-bit colours may be used: the override if there is one,
/// else what `COLORTERM` announces. Either way the answer counts as
/// resolved from now on.
pub fn set_true_color_allowed(
    settings: &mut Settings,
    environment: &Environment,
    override_allowed: Option<bool>,
)
    ensures
        *final(settings) == old(settings).with_true_color(
            match override_allowed {
                Some(allowed) => allowed,
                None => environment@.offers_true_color(),
            },
        ),
{
    let mut is_allowed = is_set_to(&environment.colorterm, "truecolor") || is_set_to(
        &environment.colorterm,
        "24bit",
    );

    if let Some(override_val) = override_allowed {
        is_allowed = override_val;
    }

    settings.true_color = Some(is_allowed);
}

/// Whether it was resolved or set yet if 24-bit colours may be used.
pub fn true_color_initialized(settings: &Settings) -> (initialized: bool)
    ensures
        initialized == settings.true_color.is_some(),
{
    settings.true_color.is_some()
}

/// Work out whether output should be styled or not based on terminal settings.
///
/// The decision is made anew on every call. A call also resolves whether
/// 24-bit colours may be used, unless that was resolved or set before.
pub fn should_colorize(
    settings: &mut Settings,
    environment: &Environment,
    stream: Stream,
) -> (enabled: bool)
    ensures
        *final(settings) == old(settings).resolved(environment@),
        enabled == environment@.colorize(old(settings).choice, stream),
{
    if !true_color_initialized(settings) {
        set_true_color_allowed(settings, environment, None);
    }

    if color_choice(settings) == ColorChoice::Never {
        return false;
    }
    if color_choice(settings) == ColorChoice::Always {
        return true;
    }

    if environment.no_color {
        return false;
    }
    if is_set_to(&environment.term, "dumb") {
        return false;
    }

    if is_set_to(&environment.clicolor, "0") {
        return false;
    }
    if is_set_to(&environment.clicolor_force, "1") {
        return true;
    }

    match stream {
        Stream::Stdout => is_tty_stdout(environment),
        Stream::Stderr => is_tty_stderr(environment),
    }
}

/// Whether the terminal probe has the last word: whether the decision of
/// `should_colorize` depends on what the probes report. Where it does not,
/// the probes need not be made.
pub fn probe_decides(settings: &Settings, environment: &Environment) -> (decides: bool)
    ensures
        decides == environment@.probe_decides(settings.choice),
{
    color_choice(settings) == ColorChoice::Auto && !environment.no_color && !is_set_to(
        &environment.term,
        "dumb",
    ) && !is_set_to(&environment.clicolor, "0") && !is_set_to(&environment.clicolor_force, "1")
}

/// Whether standard output is an interactive terminal.
pub fn is_tty_stdout(environment: &Environment) -> (terminal: bool)
    ensures
        terminal == environment@.is_terminal(Stream::Stdout),
{
    environment.stdout_terminal
}

/// Whether standard error is an interactive terminal.
pub fn is_tty_stderr(environment: &Environment) -> (terminal: bool)
    ensures
        terminal == environment@.is_terminal(Stream::Stderr),
{
    environment.stderr_terminal
}

/// Get the styles for a predefined style type
pub fn predefined_style(settings: &Settings, style_type: PredefinedStyleType) -> (style:
    PredefinedStyle)
    ensures
        style == settings.style(style_type),
{
    match style_type {
        PredefinedStyleType::Success => settings.success,
        PredefinedStyleType::Warning => settings.warning,
        PredefinedStyleType::Error => settings.error,
        PredefinedStyleType::Info => settings.info,
        PredefinedStyleType::Debug => settings.debug,
    }
}

/// Set the styles for a predefined style type
pub fn set_predefined_style(
    settings: &mut Settings,
    style_type: PredefinedStyleType,
    fg: Option<Color>,
    bg: Option<Color>,
    decoration: Option<Decoration>,
)
    ensures
        *final(settings) == old(settings).with_style(
            style_type,
            PredefinedStyle { fg, bg, decoration },
        ),
{
    match style_type {
        PredefinedStyleType::Success => {
            settings.success = PredefinedStyle { fg, bg, decoration }
        },
        PredefinedStyleType::Warning => {
            settings.warning = PredefinedStyle { fg, bg, decoration }
        },
        PredefinedStyleType::Error => {
            settings.error = PredefinedStyle { fg, bg, decoration }
        },
        PredefinedStyleType::Info => {
            settings.info = PredefinedStyle { fg, bg, decoration }
        },
        PredefinedStyleType::Debug => {
            settings.debug = PredefinedStyle { fg, bg, decoration }
        },
    }
}

/// Set the styles for the predefined success style type
pub fn set_success_style(
    settings: &mut Settings,
    fg: Option<Color>,
    bg: Option<Color>,
    decoration: Option<Decoration>,
)
    ensures
        *final(settings) == old(settings).with_style(
            PredefinedStyleType::Success,
            PredefinedStyle { fg, bg, decoration },
        ),
{
    settings.success = PredefinedStyle { fg, bg, decoration };
}

/// Set the styles for the predefined warning style type
pub fn set_warning_style(
    settings: &mut Settings,
    fg: Option<Color>,
    bg: Option<Color>,
    decoration: Option<Decoration>,
)
    ensures
        *final(settings) == old(settings).with_style(
            PredefinedStyleType::Warning,
            PredefinedStyle { fg, bg, decoration },
        ),
{
    settings.warning = PredefinedStyle { fg, bg, decoration };
}

/// Set the styles for the predefined error style type
pub fn set_error_style(
    settings: &mut Settings,
    fg: Option<Color>,
    bg: Option<Color>,
    decoration: Option<Decoration>,
)
    ensures
        *final(settings) == old(settings).with_style(
            PredefinedStyleType::Error,
            PredefinedStyle { fg, bg, decoration },
        ),
{
    settings.error = PredefinedStyle { fg, bg, decoration };
}

/// Set the styles for the predefined info style type
pub fn set_info_style(
    settings: &mut Settings,
    fg: Option<Color>,
    bg: Option<Color>,
    decoration: Option<Decoration>,
)
    ensures
        *final(settings) == old(settings).with_style(
            PredefinedStyleType::Info,
            PredefinedStyle { fg, bg, decoration },
        ),
{
    settings.info = PredefinedStyle { fg, bg, decoration };
}

/// Set the styles for the predefined debug style type
pub fn set_debug_style(
    settings: &mut Settings,
    fg: Option<Color>,
    bg: Option<Color>,
    decoration: Option<Decoration>,
)
    ensures
        *final(settings) == old(settings).with_style(
            PredefinedStyleType::Debug,
            PredefinedStyle { fg, bg, decoration },
        ),
{
    settings.debug = PredefinedStyle { fg, bg, decoration };
}

/// Reset the styles for a predefined style type
pub fn reset_predefined_style(settings: &mut Settings, style_type: PredefinedStyleType)
    ensures
        *final(settings) == old(settings).with_style(style_type, style_type.default_style()),
{
    match style_type {
        PredefinedStyleType::Success => settings.success = default_style(style_type),
        PredefinedStyleType::Warning => settings.warning = default_style(style_type),
        PredefinedStyleType::Error => settings.error = default_style(style_type),
        PredefinedStyleType::Info => settings.info = default_style(style_type),
        PredefinedStyleType::Debug => settings.debug = default_style(style_type),
    }
}

/// Reset the styles for all predefined style types
pub fn reset_all_predefined_styles(settings: &mut Settings)
    ensures
        *final(settings) == old(settings).with_default_styles(),
{
    settings.success = default_style(PredefinedStyleType::Success);
    settings.warning = default_style(PredefinedStyleType::Warning);
    settings.error = default_style(PredefinedStyleType::Error);
    settings.info = default_style(PredefinedStyleType::Info);
    settings.debug = default_style(PredefinedStyleType::Debug);
}

} // verus!
