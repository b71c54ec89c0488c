use rustyhues::env::{
    reset_predefined_style, set_color_choice, set_predefined_style, ColorChoice, Environment,
    PredefinedStyleType, Settings,
};
use rustyhues::{
    Color, Decoration, Paint, Stylize, COLOR_BG_WHITE_CODE, COLOR_BLUE_CODE, COLOR_CYAN_CODE,
    COLOR_GREEN_CODE, COLOR_MAGENTA_CODE, COLOR_RED_CODE, COLOR_YELLOW_CODE,
    DECORATION_BOLD_CODE, DECORATION_UNDERLINE_CODE,
};

#[test]
fn add_reset() {
    let mut settings = Settings::new();
    let environment = Environment::new();
    set_color_choice(&mut settings, ColorChoice::Always);
    let painted = "X".blue(&mut settings, &environment).render(&mut settings, &environment);
    assert!(painted.ends_with("\x1b[0m") || painted == "X");
}

#[test]
fn reset_only_appears_once() {
    let mut settings = Settings::new();
    let environment = Environment::new();
    set_color_choice(&mut settings, ColorChoice::Always);
    let painted = "X"
        .blue(&mut settings, &environment)
        .bg_white()
        .bold()
        .render(&mut settings, &environment);
    assert_eq!(painted.matches("\x1b[0m").count(), 1)
}

#[test]
fn chain_styles() {
    let mut settings = Settings::new();
    let environment = Environment::new();
    set_color_choice(&mut settings, ColorChoice::Always);
    let painted = "X"
        .blue(&mut settings, &environment)
        .bg_white()
        .bold()
        .render(&mut settings, &environment);
    assert!(painted.contains(&format!(
        "\x1b[{};{};{}m",
        COLOR_BLUE_CODE, COLOR_BG_WHITE_CODE, DECORATION_BOLD_CODE
    )))
}

#[test]
fn paint_with_no_styles() {
    let mut settings = Settings::new();
    let environment = Environment::new();
    set_color_choice(&mut settings, ColorChoice::Always);
    let painted = "X".paint(&mut settings, &environment).render(&mut settings, &environment);
    assert_eq!(painted, "X")
}

#[test]
fn separators_present_when_multiple_styles() {
    let mut settings = Settings::new();
    let environment = Environment::new();
    set_color_choice(&mut settings, ColorChoice::Always);
    let painted = "X".blue(&mut settings, &environment).bold().render(&mut settings, &environment);
    assert!(painted.starts_with("\x1b[34;1m"))
}

#[test]
fn paint_err_smoke() {
    let mut settings = Settings::new();
    let environment = Environment::new();
    set_color_choice(&mut settings, ColorChoice::Always);
    let painted = "X"
        .paint_err(&mut settings, &environment)
        .red()
        .render(&mut settings, &environment);
    assert!(painted.contains("\x1b[31m") || painted == "X")
}

#[test]
fn color_choice_never() {
    let mut settings = Settings::new();
    let environment = Environment::new();
    set_color_choice(&mut settings, ColorChoice::Never);
    let painted = Paint::new_stdout("X", &mut settings, &environment)
        .red()
        .bg_bright_cyan()
        .bold()
        .render(&mut settings, &environment);
    assert_eq!(painted, "X");
}

#[test]
fn should_reset_false() {
    let mut settings = Settings::new();
    let environment = Environment::new();
    set_color_choice(&mut settings, ColorChoice::Always);
    let painted = "X"
        .blue(&mut settings, &environment)
        .should_reset(false)
        .render(&mut settings, &environment);
    assert!(!painted.contains("\x1b[0m"));
}

#[test]
fn single_is_true() {
    let mut settings = Settings::new();
    let environment = Environment::new();
    set_color_choice(&mut settings, ColorChoice::Always);
    let painted = "X"
        .is(&mut settings, &environment, Some(1 + 1 == 2))
        .blue()
        .render(&mut settings, &environment);
    assert!(painted.contains(&format!("\x1b[{}m", COLOR_BLUE_CODE)));
}

#[test]
fn single_is_false() {
    let mut settings = Settings::new();
    let environment = Environment::new();
    set_color_choice(&mut settings, ColorChoice::Always);
    let painted = "X"
        .is(&mut settings, &environment, Some(1 + 1 == 1))
        .blue()
        .render(&mut settings, &environment);
    assert!(!painted.contains(&format!("\x1b[{}m", COLOR_BLUE_CODE)));
}

#[test]
fn single_not_true() {
    let mut settings = Settings::new();
    let environment = Environment::new();
    set_color_choice(&mut settings, ColorChoice::Always);
    let painted = "X"
        .not(&mut settings, &environment, Some(1 + 1 == 1))
        .blue()
        .render(&mut settings, &environment);
    assert!(painted.contains(&format!("\x1b[{}m", COLOR_BLUE_CODE)));
}

#[test]
fn single_not_false() {
    let mut settings = Settings::new();
    let environment = Environment::new();
    set_color_choice(&mut settings, ColorChoice::Always);
    let painted = "X"
        .not(&mut settings, &environment, Some(1 + 1 == 2))
        .blue()
        .render(&mut settings, &environment);
    assert!(!painted.contains(&format!("\x1b[{}m", COLOR_BLUE_CODE)));
}

#[test]
fn simple_is_true() {
    let mut settings = Settings::new();
    let environment = Environment::new();
    set_color_choice(&mut settings, ColorChoice::Always);
    let painted = "X"
        .blue(&mut settings, &environment)
        .is(Some(10 > 5))
        .bg_white()
        .render(&mut settings, &environment);
    assert!(painted.contains(&format!(
        "\x1b[{};{}m",
        COLOR_BLUE_CODE, COLOR_BG_WHITE_CODE
    )));
}

#[test]
fn simple_is_false() {
    let mut settings = Settings::new();
    let environment = Environment::new();
    set_color_choice(&mut settings, ColorChoice::Always);
    let painted = "X"
        .blue(&mut settings, &environment)
        .is(Some(10 < 5))
        .bg_white()
        .render(&mut settings, &environment);
    assert!(!painted.contains(&format!(
        "\x1b[{};{}m",
        COLOR_BLUE_CODE, COLOR_BG_WHITE_CODE
    )));
}

#[test]
fn simple_not_true() {
    let mut settings = Settings::new();
    let environment = Environment::new();
    set_color_choice(&mut settings, ColorChoice::Always);
    let painted = "X"
        .blue(&mut settings, &environment)
        .not(Some(10 < 5))
        .bg_white()
        .render(&mut settings, &environment);
    assert!(painted.contains(&format!(
        "\x1b[{};{}m",
        COLOR_BLUE_CODE, COLOR_BG_WHITE_CODE
    )));
}

#[test]
fn simple_not_false() {
    let mut settings = Settings::new();
    let environment = Environment::new();
    set_color_choice(&mut settings, ColorChoice::Always);
    let painted = "X"
        .blue(&mut settings, &environment)
        .not(Some(10 > 5))
        .bg_white()
        .render(&mut settings, &environment);
    assert!(!painted.contains(&format!(
        "\x1b[{};{}m",
        COLOR_BLUE_CODE, COLOR_BG_WHITE_CODE
    )));
}

#[test]
fn chain_is_not_optional() {
    let test_vec: Vec<String> = Vec::new();
    let mut settings = Settings::new();
    let environment = Environment::new();
    set_color_choice(&mut settings, ColorChoice::Always);
    let painted = "X"
        .is(&mut settings, &environment, Some(test_vec
        .is_empty()))
        .green()
        .not(None)
        .red()
        .render(&mut settings, &environment);
    assert!(
        painted.contains(&format!("\x1b[{}m", COLOR_GREEN_CODE))
            && !painted.contains(&format!("\x1b[{}m", COLOR_RED_CODE))
    )
}

#[test]
fn chain_is_not_fixed() {
    let test_vec: Vec<String> = Vec::new();
    let mut settings = Settings::new();
    let environment = Environment::new();
    set_color_choice(&mut settings, ColorChoice::Always);
    let painted = "X"
        .e_is(&mut settings, &environment, test_vec
        .is_empty())
        .green()
        .n_not()
        .red()
        .render(&mut settings, &environment);
    assert!(
        painted.contains(&format!("\x1b[{}m", COLOR_GREEN_CODE))
            && !painted.contains(&format!("\x1b[{}m", COLOR_RED_CODE))
    )
}

#[test]
fn success() {
    let mut settings = Settings::new();
    let environment = Environment::new();
    set_color_choice(&mut settings, ColorChoice::Always);
    reset_predefined_style(&mut settings, PredefinedStyleType::Success);
    let painted = "X".success(&mut settings, &environment).render(&mut settings, &environment);
    assert!(painted.contains(&format!(
        "\x1b[{};{}m",
        COLOR_GREEN_CODE, DECORATION_BOLD_CODE
    )))
}

#[test]
fn warning() {
    let mut settings = Settings::new();
    let environment = Environment::new();
    set_color_choice(&mut settings, ColorChoice::Always);
    reset_predefined_style(&mut settings, PredefinedStyleType::Warning);
    let painted = "X".warning(&mut settings, &environment).render(&mut settings, &environment);
    assert!(painted.contains(&format!(
        "\x1b[{};{}m",
        COLOR_YELLOW_CODE, DECORATION_BOLD_CODE
    )))
}

#[test]
fn error() {
    let mut settings = Settings::new();
    let environment = Environment::new();
    set_color_choice(&mut settings, ColorChoice::Always);
    reset_predefined_style(&mut settings, PredefinedStyleType::Error);
    let painted = "X".error(&mut settings, &environment).render(&mut settings, &environment);
    assert!(painted.contains(&format!(
        "\x1b[{};{}m",
        COLOR_RED_CODE, DECORATION_BOLD_CODE
    )))
}

#[test]
fn info() {
    let mut settings = Settings::new();
    let environment = Environment::new();
    set_color_choice(&mut settings, ColorChoice::Always);
    reset_predefined_style(&mut settings, PredefinedStyleType::Info);
    let painted = "X".info(&mut settings, &environment).render(&mut settings, &environment);
    assert!(painted.contains(&format!("\x1b[{}m", COLOR_BLUE_CODE)))
}

#[test]
fn debug() {
    let mut settings = Settings::new();
    let environment = Environment::new();
    set_color_choice(&mut settings, ColorChoice::Always);
    reset_predefined_style(&mut settings, PredefinedStyleType::Debug);
    let painted = "X".debug(&mut settings, &environment).render(&mut settings, &environment);
    assert!(painted.contains(&format!("\x1b[{}m", COLOR_MAGENTA_CODE)))
}

#[test]
fn success_custom() {
    let mut settings = Settings::new();
    let environment = Environment::new();
    set_color_choice(&mut settings, ColorChoice::Always);
    reset_predefined_style(&mut settings, PredefinedStyleType::Success);
    set_predefined_style(
        &mut settings,
        PredefinedStyleType::Success,
        Some(Color::Cyan),
        Some(Color::White),
        Some(Decoration::Underline),
    );
    let painted = "X".success(&mut settings, &environment).render(&mut settings, &environment);
    assert!(
        !painted.contains(&format!(
            "\x1b[{};{}m",
            COLOR_GREEN_CODE, DECORATION_BOLD_CODE
        )) && painted.contains(&format!(
            "\x1b[{};{};{}m",
            COLOR_CYAN_CODE, COLOR_BG_WHITE_CODE, DECORATION_UNDERLINE_CODE
        ))
    )
}

#[test]
fn warning_custom() {
    let mut settings = Settings::new();
    let environment = Environment::new();
    set_color_choice(&mut settings, ColorChoice::Always);
    reset_predefined_style(&mut settings, PredefinedStyleType::Warning);
    set_predefined_style(
        &mut settings,
        PredefinedStyleType::Warning,
        Some(Color::Cyan),
        Some(Color::White),
        Some(Decoration::Underline),
    );
    let painted = "X".warning(&mut settings, &environment).render(&mut settings, &environment);
    assert!(
        !painted.contains(&format!(
            "\x1b[{};{}m",
            COLOR_YELLOW_CODE, DECORATION_BOLD_CODE
        )) && painted.contains(&format!(
            "\x1b[{};{};{}m",
            COLOR_CYAN_CODE, COLOR_BG_WHITE_CODE, DECORATION_UNDERLINE_CODE
        ))
    )
}

#[test]
fn error_custom() {
    let mut settings = Settings::new();
    let environment = Environment::new();
    set_color_choice(&mut settings, ColorChoice::Always);
    reset_predefined_style(&mut settings, PredefinedStyleType::Error);
    set_predefined_style(
        &mut settings,
        PredefinedStyleType::Error,
        Some(Color::Cyan),
        Some(Color::White),
        Some(Decoration::Underline),
    );
    let painted = "X".error(&mut settings, &environment).render(&mut settings, &environment);
    assert!(
        !painted.contains(&format!(
            "\x1b[{};{}m",
            COLOR_RED_CODE, DECORATION_BOLD_CODE
        )) && painted.contains(&format!(
            "\x1b[{};{};{}m",
            COLOR_CYAN_CODE, COLOR_BG_WHITE_CODE, DECORATION_UNDERLINE_CODE
        ))
    )
}

#[test]
fn info_custom() {
    let mut settings = Settings::new();
    let environment = Environment::new();
    set_color_choice(&mut settings, ColorChoice::Always);
    reset_predefined_style(&mut settings, PredefinedStyleType::Info);
    set_predefined_style(
        &mut settings,
        PredefinedStyleType::Info,
        Some(Color::Cyan),
        Some(Color::White),
        Some(Decoration::Underline),
    );
    let painted = "X".info(&mut settings, &environment).render(&mut settings, &environment);
    assert!(
        !painted.contains(&format!("\x1b[{}m", COLOR_BLUE_CODE))
            && painted.contains(&format!(
                "\x1b[{};{};{}m",
                COLOR_CYAN_CODE, COLOR_BG_WHITE_CODE, DECORATION_UNDERLINE_CODE
            ))
    )
}

#[test]
fn debug_custom() {
    let mut settings = Settings::new();
    let environment = Environment::new();
    set_color_choice(&mut settings, ColorChoice::Always);
    reset_predefined_style(&mut settings, PredefinedStyleType::Debug);
    set_predefined_style(
        &mut settings,
        PredefinedStyleType::Debug,
        Some(Color::Cyan),
        Some(Color::White),
        Some(Decoration::Underline),
    );
    let painted = "X".debug(&mut settings, &environment).render(&mut settings, &environment);
    assert!(
        !painted.contains(&format!("\x1b[{}m", COLOR_MAGENTA_CODE))
            && painted.contains(&format!(
                "\x1b[{};{};{}m",
                COLOR_CYAN_CODE, COLOR_BG_WHITE_CODE, DECORATION_UNDERLINE_CODE
            ))
    )
}
