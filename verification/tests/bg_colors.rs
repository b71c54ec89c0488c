use rustyhues::env::{set_color_choice, ColorChoice, Environment, Settings};
use rustyhues::Stylize;
use rustyhues::{
    COLOR_BG_BLACK_CODE, COLOR_BG_RED_CODE, COLOR_BG_GREEN_CODE,
    COLOR_BG_YELLOW_CODE, COLOR_BG_BLUE_CODE, COLOR_BG_MAGENTA_CODE,
    COLOR_BG_CYAN_CODE, COLOR_BG_WHITE_CODE, COLOR_BG_BRIGHT_BLACK_CODE,
    COLOR_BG_BRIGHT_RED_CODE, COLOR_BG_BRIGHT_GREEN_CODE, COLOR_BG_BRIGHT_YELLOW_CODE,
    COLOR_BG_BRIGHT_BLUE_CODE, COLOR_BG_BRIGHT_MAGENTA_CODE, COLOR_BG_BRIGHT_CYAN_CODE,
    COLOR_BG_BRIGHT_WHITE_CODE,
};

#[test]
fn background_black() {
    let mut settings = Settings::new();
    let environment = Environment::new();
    set_color_choice(&mut settings, ColorChoice::Always);
    let painted: String = "X"
        .bg_black(&mut settings, &environment)
        .render(&mut settings, &environment);
    assert!(painted.contains(&format!("\x1b[{}m", COLOR_BG_BLACK_CODE)));
}

#[test]
fn background_red() {
    let mut settings = Settings::new();
    let environment = Environment::new();
    set_color_choice(&mut settings, ColorChoice::Always);
    let painted: String = "X"
        .bg_red(&mut settings, &environment)
        .render(&mut settings, &environment);
    assert!(painted.contains(&format!("\x1b[{}m", COLOR_BG_RED_CODE)));
}

#[test]
fn background_green() {
    let mut settings = Settings::new();
    let environment = Environment::new();
    set_color_choice(&mut settings, ColorChoice::Always);
    let painted: String = "X"
        .bg_green(&mut settings, &environment)
        .render(&mut settings, &environment);
    assert!(painted.contains(&format!("\x1b[{}m", COLOR_BG_GREEN_CODE)));
}

#[test]
fn background_yellow() {
    let mut settings = Settings::new();
    let environment = Environment::new();
    set_color_choice(&mut settings, ColorChoice::Always);
    let painted: String = "X"
        .bg_yellow(&mut settings, &environment)
        .render(&mut settings, &environment);
    assert!(painted.contains(&format!("\x1b[{}m", COLOR_BG_YELLOW_CODE)));
}

#[test]
fn background_blue() {
    let mut settings = Settings::new();
    let environment = Environment::new();
    set_color_choice(&mut settings, ColorChoice::Always);
    let painted: String = "X"
        .bg_blue(&mut settings, &environment)
        .render(&mut settings, &environment);
    assert!(painted.contains(&format!("\x1b[{}m", COLOR_BG_BLUE_CODE)));
}

#[test]
fn background_magenta() {
    let mut settings = Settings::new();
    let environment = Environment::new();
    set_color_choice(&mut settings, ColorChoice::Always);
    let painted: String = "X"
        .bg_magenta(&mut settings, &environment)
        .render(&mut settings, &environment);
    assert!(painted.contains(&format!("\x1b[{}m", COLOR_BG_MAGENTA_CODE)));
}

#[test]
fn background_cyan() {
    let mut settings = Settings::new();
    let environment = Environment::new();
    set_color_choice(&mut settings, ColorChoice::Always);
    let painted: String = "X"
        .bg_cyan(&mut settings, &environment)
        .render(&mut settings, &environment);
    assert!(painted.contains(&format!("\x1b[{}m", COLOR_BG_CYAN_CODE)));
}

#[test]
fn background_white() {
    let mut settings = Settings::new();
    let environment = Environment::new();
    set_color_choice(&mut settings, ColorChoice::Always);
    let painted: String = "X"
        .bg_white(&mut settings, &environment)
        .render(&mut settings, &environment);
    assert!(painted.contains(&format!("\x1b[{}m", COLOR_BG_WHITE_CODE)));
}

#[test]
fn background_bright_black() {
    let mut settings = Settings::new();
    let environment = Environment::new();
    set_color_choice(&mut settings, ColorChoice::Always);
    let painted: String = "X"
        .bg_bright_black(&mut settings, &environment)
        .render(&mut settings, &environment);
    assert!(painted.contains(&format!("\x1b[{}m", COLOR_BG_BRIGHT_BLACK_CODE)));
}

#[test]
fn background_bright_red() {
    let mut settings = Settings::new();
    let environment = Environment::new();
    set_color_choice(&mut settings, ColorChoice::Always);
    let painted: String = "X"
        .bg_bright_red(&mut settings, &environment)
        .render(&mut settings, &environment);
    assert!(painted.contains(&format!("\x1b[{}m", COLOR_BG_BRIGHT_RED_CODE)));
}

#[test]
fn background_bright_green() {
    let mut settings = Settings::new();
    let environment = Environment::new();
    set_color_choice(&mut settings, ColorChoice::Always);
    let painted: String = "X"
        .bg_bright_green(&mut settings, &environment)
        .render(&mut settings, &environment);
    assert!(painted.contains(&format!("\x1b[{}m", COLOR_BG_BRIGHT_GREEN_CODE)));
}

#[test]
fn background_bright_yellow() {
    let mut settings = Settings::new();
    let environment = Environment::new();
    set_color_choice(&mut settings, ColorChoice::Always);
    let painted: String = "X"
        .bg_bright_yellow(&mut settings, &environment)
        .render(&mut settings, &environment);
    assert!(painted.contains(&format!("\x1b[{}m", COLOR_BG_BRIGHT_YELLOW_CODE)));
}

#[test]
fn background_bright_blue() {
    let mut settings = Settings::new();
    let environment = Environment::new();
    set_color_choice(&mut settings, ColorChoice::Always);
    let painted: String = "X"
        .bg_bright_blue(&mut settings, &environment)
        .render(&mut settings, &environment);
    assert!(painted.contains(&format!("\x1b[{}m", COLOR_BG_BRIGHT_BLUE_CODE)));
}

#[test]
fn background_bright_magenta() {
    let mut settings = Settings::new();
    let environment = Environment::new();
    set_color_choice(&mut settings, ColorChoice::Always);
    let painted: String = "X"
        .bg_bright_magenta(&mut settings, &environment)
        .render(&mut settings, &environment);
    assert!(painted.contains(&format!("\x1b[{}m", COLOR_BG_BRIGHT_MAGENTA_CODE)));
}

#[test]
fn background_bright_cyan() {
    let mut settings = Settings::new();
    let environment = Environment::new();
    set_color_choice(&mut settings, ColorChoice::Always);
    let painted: String = "X"
        .bg_bright_cyan(&mut settings, &environment)
        .render(&mut settings, &environment);
    assert!(painted.contains(&format!("\x1b[{}m", COLOR_BG_BRIGHT_CYAN_CODE)));
}

#[test]
fn background_bright_white() {
    let mut settings = Settings::new();
    let environment = Environment::new();
    set_color_choice(&mut settings, ColorChoice::Always);
    let painted: String = "X"
        .bg_bright_white(&mut settings, &environment)
        .render(&mut settings, &environment);
    assert!(painted.contains(&format!("\x1b[{}m", COLOR_BG_BRIGHT_WHITE_CODE)));
}
