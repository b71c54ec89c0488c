use rustyhues::env::{
    color_choice, predefined_style, probe_decides, reset_all_predefined_styles, set_color_choice,
    set_debug_style, set_error_style, set_info_style, set_success_style,
    set_true_color_allowed, set_warning_style, should_colorize, true_color_allowed,
    true_color_initialized, ColorChoice, Environment, PredefinedStyleType, Settings,
};
use rustyhues::output::{Output, OutputItem};
use rustyhues::stream::Stream;
use rustyhues::text::push_decimal;
use rustyhues::{Color, Comparison, Decoration, Paint, Stylize, RGB};

/// Settings under which every chain is styled.
fn always() -> Settings {
    let mut settings = Settings::new();
    set_color_choice(&mut settings, ColorChoice::Always);
    settings
}

/// A chain that is enabled whatever the environment says.
fn enabled(content: &'static str) -> Paint<&'static str> {
    Paint::new(content, true)
}

#[test]
fn six_digit_hex_is_three_bytes() {
    assert_eq!(RGB::new_from_hex("fffefd"), Some(RGB::new(255, 254, 253)));
    assert_eq!(RGB::new_from_hex("#0A1b2C"), Some(RGB::new(10, 27, 44)));
    assert_eq!(RGB::new_from_hex("000000"), Some(RGB::new(0, 0, 0)));
}

#[test]
fn three_digit_hex_doubles_each_digit() {
    assert_eq!(RGB::new_from_hex("F1D"), Some(RGB::new(255, 17, 221)));
    assert_eq!(RGB::new_from_hex("#a09"), Some(RGB::new(170, 0, 153)));
}

#[test]
fn malformed_hex_is_no_color() {
    for text in ["", "#", "1", "12", "1234", "12345", "1234567", "##fff", "ffg", "12345z", "fff#"] {
        assert_eq!(RGB::new_from_hex(text), None);
    }
    assert_eq!(RGB::new_from_hex("\u{e9}12"), None);
    assert_eq!(RGB::new_from_hex("+ff"), None);
}

#[test]
fn malformed_hex_leaves_the_chain_alone() {
    let environment = Environment::new();
    let mut settings = always();
    let plain = enabled("X").hex("nothex").bg_hex("12").render(&mut settings, &environment);
    assert_eq!(plain, "X");
    let styled = enabled("X").bold().hex("1234").render(&mut settings, &environment);
    assert_eq!(styled, "\x1b[1mX\x1b[0m");
}

#[test]
fn disabled_chain_renders_the_content() {
    let environment = Environment::new();
    let mut settings = always();
    let painted = Paint::new("X", false)
        .red()
        .bg_rgb(1, 2, 3)
        .bold()
        .is(Some(true))
        .hex("fff")
        .no_reset()
        .success(&settings)
        .render(&mut settings, &environment);
    assert_eq!(painted, "X");
}

#[test]
fn environment_disables() {
    let mut settings = Settings::new();
    let mut environment = Environment::new();
    environment.stdout_terminal = true;
    environment.stderr_terminal = true;
    assert!(should_colorize(&mut settings, &environment, Stream::Stdout));

    environment.no_color = true;
    assert!(!should_colorize(&mut settings, &environment, Stream::Stdout));
    assert_eq!("X".red(&mut settings, &environment).render(&mut settings, &environment), "X");
    environment.no_color = false;

    environment.term = Some(String::from("dumb"));
    assert!(!should_colorize(&mut settings, &environment, Stream::Stderr));
    environment.term = Some(String::from("xterm"));
    assert!(should_colorize(&mut settings, &environment, Stream::Stderr));

    environment.clicolor = Some(String::from("0"));
    environment.clicolor_force = Some(String::from("1"));
    assert!(!should_colorize(&mut settings, &environment, Stream::Stdout));
    assert_eq!("X".bold(&mut settings, &environment).render(&mut settings, &environment), "X");
}

#[test]
fn override_comes_before_the_environment() {
    let mut settings = Settings::new();
    let mut environment = Environment::new();
    environment.no_color = true;
    set_color_choice(&mut settings, ColorChoice::Always);
    assert_eq!(color_choice(&settings), ColorChoice::Always);
    assert!(should_colorize(&mut settings, &environment, Stream::Stdout));
    environment.no_color = false;
    environment.clicolor_force = Some(String::from("1"));
    environment.stdout_terminal = true;
    set_color_choice(&mut settings, ColorChoice::Never);
    assert!(!should_colorize(&mut settings, &environment, Stream::Stdout));
}

#[test]
fn force_enables_without_a_terminal() {
    let mut settings = Settings::new();
    let mut environment = Environment::new();
    assert!(!should_colorize(&mut settings, &environment, Stream::Stdout));
    environment.clicolor_force = Some(String::from("1"));
    assert!(should_colorize(&mut settings, &environment, Stream::Stdout));
    assert!(should_colorize(&mut settings, &environment, Stream::Stderr));
    let painted = "X".red(&mut settings, &environment).render(&mut settings, &environment);
    assert_eq!(painted, "\x1b[31mX\x1b[0m");
    environment.clicolor_force = Some(String::from("yes"));
    assert!(!should_colorize(&mut settings, &environment, Stream::Stdout));
}

#[test]
fn terminal_probe_is_per_stream() {
    let mut settings = Settings::new();
    let mut environment = Environment::new();
    environment.stderr_terminal = true;
    assert!(!should_colorize(&mut settings, &environment, Stream::Stdout));
    assert!(should_colorize(&mut settings, &environment, Stream::Stderr));
    let painted = "X".paint(&mut settings, &environment).red().render(&mut settings, &environment);
    assert_eq!(painted, "X");
    let painted = "X"
        .paint_err(&mut settings, &environment)
        .red()
        .render(&mut settings, &environment);
    assert_eq!(painted, "\x1b[31mX\x1b[0m");
}

#[test]
fn true_color_is_open_at_the_start() {
    let mut settings = Settings::new();
    let environment = Environment::new();
    assert!(!true_color_initialized(&settings));
    assert!(!true_color_allowed(&mut settings, &environment));
    assert!(true_color_initialized(&settings));

    let mut settings = Settings::new();
    let mut environment = Environment::new();
    environment.colorterm = Some(String::from("truecolor"));
    assert!(true_color_allowed(&mut settings, &environment));

    let mut settings = Settings::new();
    environment.colorterm = Some(String::from("24bit"));
    assert!(true_color_allowed(&mut settings, &environment));

    let mut settings = Settings::new();
    environment.colorterm = Some(String::from("TRUECOLOR"));
    assert!(!true_color_allowed(&mut settings, &environment));
}

#[test]
fn rendering_resolves_true_color() {
    let mut settings = Settings::new();
    let mut environment = Environment::new();
    let painted = Paint::new("X", true).rgb(1, 2, 3).render(&mut settings, &environment);
    assert_eq!(painted, "\x1b[30mX\x1b[0m");
    assert!(true_color_initialized(&settings));
    environment.colorterm = Some(String::from("truecolor"));
    let painted = Paint::new("X", true).rgb(1, 2, 3).render(&mut settings, &environment);
    assert_eq!(painted, "\x1b[30mX\x1b[0m");

    let mut settings = Settings::new();
    let painted = Paint::new("X", true).rgb(1, 2, 3).render(&mut settings, &environment);
    assert_eq!(painted, "\x1b[38;2;1;2;3mX\x1b[0m");
    environment.colorterm = None;
    let painted = Paint::new("X", true).bg_rgb(1, 2, 3).render(&mut settings, &environment);
    assert_eq!(painted, "\x1b[48;2;1;2;3mX\x1b[0m");

    let mut settings = Settings::new();
    let painted = Paint::new("X", false).rgb(1, 2, 3).render(&mut settings, &environment);
    assert_eq!(painted, "X");
    assert!(true_color_initialized(&settings));
    assert!(!true_color_allowed(&mut settings, &environment));
}

#[test]
fn true_color_is_resolved_once() {
    let mut settings = Settings::new();
    let mut environment = Environment::new();
    assert!(!true_color_initialized(&settings));
    environment.colorterm = Some(String::from("truecolor"));
    should_colorize(&mut settings, &environment, Stream::Stdout);
    assert!(true_color_initialized(&settings));
    assert!(true_color_allowed(&mut settings, &environment));
    environment.colorterm = None;
    should_colorize(&mut settings, &environment, Stream::Stdout);
    assert!(true_color_allowed(&mut settings, &environment));

    set_true_color_allowed(&mut settings, &environment, None);
    assert!(!true_color_allowed(&mut settings, &environment));
    environment.colorterm = Some(String::from("24bit"));
    assert!(!true_color_allowed(&mut settings, &environment));
    set_true_color_allowed(&mut settings, &environment, None);
    assert!(true_color_allowed(&mut settings, &environment));
    environment.colorterm = Some(String::from("256"));
    set_true_color_allowed(&mut settings, &environment, None);
    assert!(!true_color_allowed(&mut settings, &environment));
    set_true_color_allowed(&mut settings, &environment, Some(true));
    assert!(true_color_allowed(&mut settings, &environment));
}

#[test]
fn probe_has_the_last_word_only() {
    let mut settings = Settings::new();
    let mut environment = Environment::new();
    assert!(probe_decides(&settings, &environment));
    environment.clicolor_force = Some(String::from("1"));
    assert!(!probe_decides(&settings, &environment));
    environment.clicolor_force = Some(String::from("0"));
    assert!(probe_decides(&settings, &environment));
    environment.clicolor = Some(String::from("0"));
    assert!(!probe_decides(&settings, &environment));
    environment.clicolor = None;
    environment.term = Some(String::from("dumb"));
    assert!(!probe_decides(&settings, &environment));
    environment.term = None;
    environment.no_color = true;
    assert!(!probe_decides(&settings, &environment));
    environment.no_color = false;
    set_color_choice(&mut settings, ColorChoice::Always);
    assert!(!probe_decides(&settings, &environment));
    set_color_choice(&mut settings, ColorChoice::Never);
    assert!(!probe_decides(&settings, &environment));
    set_color_choice(&mut settings, ColorChoice::Auto);
    assert!(probe_decides(&settings, &environment));
}

#[test]
fn override_of_true_color_outlives_resolution() {
    let mut settings = Settings::new();
    let mut environment = Environment::new();
    environment.colorterm = Some(String::from("truecolor"));
    set_true_color_allowed(&mut settings, &environment, Some(false));
    should_colorize(&mut settings, &environment, Stream::Stdout);
    assert!(!true_color_allowed(&mut settings, &environment));
}

#[test]
fn blue_on_white_bold() {
    let environment = Environment::new();
    let mut settings = always();
    let painted = enabled("X").blue().bg_white().bold().render(&mut settings, &environment);
    assert_eq!(painted, "\x1b[34;47;1mX\x1b[0m");
}

#[test]
fn is_true_and_not_false_agree() {
    let environment = Environment::new();
    let mut settings = always();
    let one = enabled("X")
        .red()
        .is(Some(true))
        .bold()
        .bg_cyan()
        .render(&mut settings, &environment);
    let other = enabled("X")
        .red()
        .not(Some(false))
        .bold()
        .bg_cyan()
        .render(&mut settings, &environment);
    assert_eq!(one, other);
    assert_eq!(one, "\x1b[31;1;46mX\x1b[0m");
    let one = enabled("X").n_is().e_is(true).bold().render(&mut settings, &environment);
    let other = enabled("X").n_is().e_not(false).bold().render(&mut settings, &environment);
    assert_eq!(one, other);
    assert_eq!(one, "\x1b[1mX\x1b[0m");
}

#[test]
fn switched_off_style_is_absent() {
    let environment = Environment::new();
    let mut settings = always();
    let painted = enabled("X").red().is(Some(false)).bold().render(&mut settings, &environment);
    assert_eq!(painted, "\x1b[31mX\x1b[0m");
    let painted = enabled("X").red().not(Some(true)).bold().render(&mut settings, &environment);
    assert_eq!(painted, "\x1b[31mX\x1b[0m");
}

#[test]
fn toggle_holds_until_the_next_toggle() {
    let environment = Environment::new();
    let mut settings = always();
    let painted = enabled("X")
        .red()
        .e_is(false)
        .bold()
        .italic()
        .bg_blue()
        .e_is(true)
        .underline()
        .render(&mut settings, &environment);
    assert_eq!(painted, "\x1b[31;4mX\x1b[0m");
}

#[test]
fn bare_toggle_flips() {
    let environment = Environment::new();
    let mut settings = always();
    assert_eq!(enabled("X").n_is().bold().render(&mut settings, &environment), "\x1b[mX\x1b[0m");
    assert_eq!(enabled("X").n_not().bold().render(&mut settings, &environment), "\x1b[mX\x1b[0m");
    let painted = enabled("X").n_is().n_not().bold().render(&mut settings, &environment);
    assert_eq!(painted, "\x1b[1mX\x1b[0m");
    let painted = enabled("X").e_is(false).n_is().bold().render(&mut settings, &environment);
    assert_eq!(painted, "\x1b[1mX\x1b[0m");
    let painted = enabled("X").e_not(true).n_not().bold().render(&mut settings, &environment);
    assert_eq!(painted, "\x1b[1mX\x1b[0m");
    let painted = enabled("X").e_not(false).is(None).bold().render(&mut settings, &environment);
    assert_eq!(painted, "\x1b[mX\x1b[0m");
    let painted = enabled("X").e_is(true).not(None).bold().render(&mut settings, &environment);
    assert_eq!(painted, "\x1b[mX\x1b[0m");
}

#[test]
fn chain_without_instructions_is_plain() {
    let environment = Environment::new();
    let mut settings = always();
    assert_eq!(enabled("X").render(&mut settings, &environment), "X");
    assert_eq!(enabled("X").should_reset(true).render(&mut settings, &environment), "X");
    assert_eq!(enabled("").render(&mut settings, &environment), "");
}

#[test]
fn all_toggled_off_gives_the_empty_sequence() {
    let environment = Environment::new();
    let mut settings = always();
    assert_eq!(enabled("X").e_is(false).render(&mut settings, &environment), "\x1b[mX\x1b[0m");
    let painted = enabled("X").e_is(false).red().no_reset().render(&mut settings, &environment);
    assert_eq!(painted, "\x1b[mX");
}

#[test]
fn reset_once_or_never() {
    let environment = Environment::new();
    let mut settings = always();
    let painted = enabled("X")
        .red()
        .bg_bright_green()
        .bold()
        .dim()
        .italic()
        .underline()
        .invert()
        .render(&mut settings, &environment);
    assert_eq!(painted, "\x1b[31;102;1;2;3;4;7mX\x1b[0m");
    assert_eq!(painted.matches("\x1b[0m").count(), 1);
    let painted = enabled("X").red().bold().no_reset().render(&mut settings, &environment);
    assert_eq!(painted, "\x1b[31;1mX");
    assert_eq!(painted.matches("\x1b[0m").count(), 0);
    let painted = enabled("X")
        .no_reset()
        .red()
        .should_reset(true)
        .render(&mut settings, &environment);
    assert_eq!(painted, "\x1b[31mX\x1b[0m");
}

#[test]
fn true_color_parameters() {
    let mut settings = always();
    let environment = Environment::new();
    set_true_color_allowed(&mut settings, &environment, Some(true));
    let painted = enabled("X")
        .rgb(0, 7, 42)
        .bg_rgb(100, 255, 9)
        .render(&mut settings, &environment);
    assert_eq!(painted, "\x1b[38;2;0;7;42;48;2;100;255;9mX\x1b[0m");
    let painted = enabled("X").hex("#102030").bg_hex("abc").render(&mut settings, &environment);
    assert_eq!(painted, "\x1b[38;2;16;32;48;48;2;170;187;204mX\x1b[0m");
    let painted = enabled("X").set_rgb(RGB::new(1, 2, 3)).render(&mut settings, &environment);
    assert_eq!(painted, "\x1b[38;2;1;2;3mX\x1b[0m");
}

#[test]
fn fallback_to_the_nearest_named_color() {
    let mut settings = always();
    let environment = Environment::new();
    set_true_color_allowed(&mut settings, &environment, Some(false));
    let painted = enabled("X").rgb(255, 255, 255).render(&mut settings, &environment);
    assert_eq!(painted, "\x1b[97mX\x1b[0m");
    assert_eq!(enabled("X").rgb(0, 0, 0).render(&mut settings, &environment), "\x1b[30mX\x1b[0m");
    let painted = enabled("X").bg_rgb(255, 255, 255).render(&mut settings, &environment);
    assert_eq!(painted, "\x1b[107mX\x1b[0m");
    let painted = enabled("X").bg_rgb(0, 0, 0).render(&mut settings, &environment);
    assert_eq!(painted, "\x1b[40mX\x1b[0m");
    let painted = enabled("X")
        .set_bg_rgb(RGB::new(200, 50, 50))
        .render(&mut settings, &environment);
    assert_eq!(painted, "\x1b[41mX\x1b[0m");
}

#[test]
fn closest_color_of_each_reference_is_itself() {
    let table = [
        ((0, 0, 0), Color::Black),
        ((205, 49, 49), Color::Red),
        ((13, 188, 121), Color::Green),
        ((229, 229, 16), Color::Yellow),
        ((36, 114, 200), Color::Blue),
        ((188, 63, 188), Color::Magenta),
        ((17, 168, 205), Color::Cyan),
        ((229, 229, 229), Color::White),
        ((102, 102, 102), Color::BrightBlack),
        ((241, 76, 76), Color::BrightRed),
        ((35, 209, 139), Color::BrightGreen),
        ((245, 245, 67), Color::BrightYellow),
        ((59, 142, 234), Color::BrightBlue),
        ((214, 112, 214), Color::BrightMagenta),
        ((41, 184, 219), Color::BrightCyan),
        ((255, 255, 255), Color::BrightWhite),
    ];
    for ((r, g, b), color) in table {
        assert_eq!(RGB::new(r, g, b).closest_color(), Some(color));
    }
}

#[test]
fn closest_color_takes_the_first_of_equals() {
    // at squared distance 507 from white and from bright white
    assert_eq!(RGB::new(242, 242, 242).closest_color(), Some(Color::White));
    // exact distances: to white 3 * 12 * 12, to bright white 3 * 14 * 14
    assert_eq!(RGB::new(241, 241, 241).closest_color(), Some(Color::White));
    assert_eq!(RGB::new(243, 243, 243).closest_color(), Some(Color::BrightWhite));
    assert_eq!(RGB::new(50, 50, 50).closest_color(), Some(Color::Black));
    assert_eq!(RGB::new(52, 52, 52).closest_color(), Some(Color::BrightBlack));
}

#[test]
fn codes_of_the_color_model() {
    let colors = [
        Color::Black,
        Color::Red,
        Color::Green,
        Color::Yellow,
        Color::Blue,
        Color::Magenta,
        Color::Cyan,
        Color::White,
    ];
    let bright = [
        Color::BrightBlack,
        Color::BrightRed,
        Color::BrightGreen,
        Color::BrightYellow,
        Color::BrightBlue,
        Color::BrightMagenta,
        Color::BrightCyan,
        Color::BrightWhite,
    ];
    for (i, color) in colors.iter().enumerate() {
        assert_eq!(color.fg_code(), format!("{}", 30 + i));
        assert_eq!(color.bg_code(), format!("{}", 40 + i));
    }
    for (i, color) in bright.iter().enumerate() {
        assert_eq!(color.fg_code(), format!("{}", 90 + i));
        assert_eq!(color.bg_code(), format!("{}", 100 + i));
    }
    assert_eq!(Decoration::Bold.code(), "1");
    assert_eq!(Decoration::Dim.code(), "2");
    assert_eq!(Decoration::Italic.code(), "3");
    assert_eq!(Decoration::Underline.code(), "4");
    assert_eq!(Decoration::Invert.code(), "7");
}

#[test]
fn decimal_of_every_byte() {
    for n in 0..=255u8 {
        let mut text = String::from(">");
        push_decimal(&mut text, n);
        assert_eq!(text, format!(">{}", n));
    }
}

#[test]
fn sgr_parameters_of_a_color() {
    let mut text = String::from("a");
    RGB::new(0, 10, 255).write_fg_sgr(&mut text);
    assert_eq!(text, "a38;2;0;10;255");
    RGB::new(9, 99, 100).write_bg_sgr(&mut text);
    assert_eq!(text, "a38;2;0;10;25548;2;9;99;100");
}

#[test]
fn output_keeps_the_order() {
    let mut output = Output::new();
    output.push_fg(Color::Red);
    output.push_comparison(Comparison::Not, None);
    output.push_bg(Color::Blue);
    output.push_fg_rgb(RGB::new(1, 2, 3));
    output.push_bg_rgb(RGB::new(4, 5, 6));
    output.push_decoration(Decoration::Dim);
    output.set_should_reset(false);
    let mut expected = Output::new();
    expected.set_should_reset(false);
    for item in [
        OutputItem::FgColor(Color::Red),
        OutputItem::Comparison(Comparison::Not, None),
        OutputItem::BgColor(Color::Blue),
        OutputItem::FgRgb(RGB::new(1, 2, 3)),
        OutputItem::BgRgb(RGB::new(4, 5, 6)),
        OutputItem::Decoration(Decoration::Dim),
    ] {
        match item {
            OutputItem::FgColor(color) => expected.push_fg(color),
            OutputItem::BgColor(color) => expected.push_bg(color),
            OutputItem::FgRgb(rgb) => expected.push_fg_rgb(rgb),
            OutputItem::BgRgb(rgb) => expected.push_bg_rgb(rgb),
            OutputItem::Decoration(decoration) => expected.push_decoration(decoration),
            OutputItem::Comparison(comparison, expression) => {
                expected.push_comparison(comparison, expression)
            }
        }
    }
    assert_eq!(output, expected);
    assert_ne!(output, Output::new());
}

#[test]
fn predefined_styles_default_and_custom() {
    let environment = Environment::new();
    let mut settings = always();
    let painted = enabled("X").success(&settings).render(&mut settings, &environment);
    assert_eq!(painted, "\x1b[32;1mX\x1b[0m");
    let painted = enabled("X").warning(&settings).render(&mut settings, &environment);
    assert_eq!(painted, "\x1b[33;1mX\x1b[0m");
    let painted = enabled("X").error(&settings).render(&mut settings, &environment);
    assert_eq!(painted, "\x1b[31;1mX\x1b[0m");
    let painted = enabled("X").info(&settings).render(&mut settings, &environment);
    assert_eq!(painted, "\x1b[34mX\x1b[0m");
    let painted = enabled("X").debug(&settings).render(&mut settings, &environment);
    assert_eq!(painted, "\x1b[35mX\x1b[0m");

    set_success_style(&mut settings, None, Some(Color::Red), None);
    set_warning_style(&mut settings, Some(Color::White), Some(Color::Red), None);
    set_error_style(&mut settings, None, None, Some(Decoration::Invert));
    set_info_style(&mut settings, Some(Color::Cyan), None, Some(Decoration::Dim));
    set_debug_style(&mut settings, None, None, None);
    let painted = enabled("X").success(&settings).render(&mut settings, &environment);
    assert_eq!(painted, "\x1b[41mX\x1b[0m");
    let painted = enabled("X").warning(&settings).render(&mut settings, &environment);
    assert_eq!(painted, "\x1b[37;41mX\x1b[0m");
    let painted = enabled("X").error(&settings).render(&mut settings, &environment);
    assert_eq!(painted, "\x1b[7mX\x1b[0m");
    let painted = enabled("X").info(&settings).render(&mut settings, &environment);
    assert_eq!(painted, "\x1b[36;2mX\x1b[0m");
    assert_eq!(enabled("X").debug(&settings).render(&mut settings, &environment), "X");
    assert_eq!(predefined_style(&settings, PredefinedStyleType::Debug).fg, None);

    reset_all_predefined_styles(&mut settings);
    let painted = enabled("X").success(&settings).render(&mut settings, &environment);
    assert_eq!(painted, "\x1b[32;1mX\x1b[0m");
    let painted = enabled("X").debug(&settings).render(&mut settings, &environment);
    assert_eq!(painted, "\x1b[35mX\x1b[0m");
    let style = predefined_style(&settings, PredefinedStyleType::Warning);
    assert_eq!(style.fg, Some(Color::Yellow));
    assert_eq!(style.bg, None);
    assert_eq!(style.decoration, Some(Decoration::Bold));
}

#[test]
fn content_is_what_display_writes() {
    let environment = Environment::new();
    let mut settings = always();
    let painted = Paint::new(42, true).green().render(&mut settings, &environment);
    assert_eq!(painted, "\x1b[32m42\x1b[0m");
    assert_eq!(Paint::new('c', false).green().render(&mut settings, &environment), "c");
    let painted = Paint::new(String::from("a\x1b[0mb"), true)
        .bold()
        .render(&mut settings, &environment);
    assert_eq!(painted.matches("\x1b[0m").count(), 2);
    let painted = Paint::new(0, true).bold().render_text("other", &mut settings, &environment);
    assert_eq!(painted, "\x1b[1mother\x1b[0m");
}
