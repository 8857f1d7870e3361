use term_ansi::colorspace::hsl_to_rgb;
use term_ansi::colorspace::hsv_to_rgb;
use term_ansi::style::apply;
use term_ansi::style::bg_blue;
use term_ansi::style::bg_rgb;
use term_ansi::style::green;
use term_ansi::style::hsv;
use term_ansi::style::italic;
use term_ansi::style::red;
use term_ansi::style::reset_all;
use term_ansi::style::rgb;
use term_ansi::style::underline;
use term_ansi::style::white;
use term_ansi::ColorContext;
use term_ansi::Colours;

#[test]
fn test_hsl_canonical_points() {
    assert_eq!(hsl_to_rgb(0, 1000, 500), (255, 0, 0));
    assert_eq!(hsl_to_rgb(120, 1000, 500), (0, 255, 0));
    assert_eq!(hsl_to_rgb(240, 1000, 500), (0, 0, 255));
}

#[test]
fn test_hsv_canonical_points() {
    assert_eq!(hsv_to_rgb(0, 1000, 1000), (255, 0, 0));
    assert_eq!(hsv_to_rgb(120, 1000, 1000), (0, 255, 0));
    assert_eq!(hsv_to_rgb(240, 1000, 1000), (0, 0, 255));
}

#[test]
fn test_out_of_range_hue_gives_black() {
    assert_eq!(hsl_to_rgb(400, 1000, 500), (0, 0, 0));
    assert_eq!(hsl_to_rgb(361, 0, 1000), (0, 0, 0));
    assert_eq!(hsv_to_rgb(400, 1000, 1000), (0, 0, 0));
    assert_eq!(hsv_to_rgb(10000, 500, 500), (0, 0, 0));
}

#[test]
fn test_hsl_lightness_extremes() {
    assert_eq!(hsl_to_rgb(0, 0, 1000), (255, 255, 255));
    assert_eq!(hsl_to_rgb(180, 1000, 0), (0, 0, 0));
    assert_eq!(hsv_to_rgb(0, 0, 0), (0, 0, 0));
}

#[test]
fn test_hsl_mid_values() {
    assert_eq!(hsl_to_rgb(200, 500, 400), (51, 119, 153));
}

#[test]
fn test_hsv_mid_values() {
    assert_eq!(hsv_to_rgb(200, 500, 800), (102, 170, 204));
}

#[test]
fn test_hue_wraparound_at_360() {
    assert_eq!(hsl_to_rgb(360, 1000, 500), (255, 0, 0));
    assert_eq!(hsv_to_rgb(360, 1000, 1000), (255, 0, 0));
}

#[test]
fn test_nesting_restores_enclosing() {
    let mut ctx = ColorContext::new();
    ctx.push("\x1b[37m");
    ctx.push("\x1b[31m");
    let g = green(&mut ctx, "inner");
    // The innermost region resumes red, not white and not the sentinel.
    assert_eq!(g, "\x1b[32minner\x1b[0m\x1b[31m");
    ctx.pop();
    let r = red(&mut ctx, &format!("mid {}", g));
    // The middle region resumes white.
    assert!(r.ends_with("\x1b[0m\x1b[37m"));
    ctx.pop();
    let w = white(&mut ctx, &format!("outer {}", r));
    assert!(w.ends_with("\x1b[0m\x1b[37m"));
}

#[test]
fn test_pop_on_sentinel_is_noop() {
    let mut ctx = ColorContext::new();
    ctx.pop();
    ctx.pop();
    assert_eq!(ctx.current_color(), "\x1b[37m");
    ctx.push("\x1b[31m");
    assert_eq!(ctx.current_color(), "\x1b[31m");
    ctx.pop();
    ctx.pop();
    assert_eq!(ctx.current_color(), "\x1b[37m");
}

#[test]
fn test_current_restored_after_balanced_applies() {
    let mut ctx = ColorContext::new();
    ctx.push("\x1b[35m");
    let before = ctx.current_color();
    let inner = red(&mut ctx, "a");
    ctx.push("\x1b[34m");
    let deeper = green(&mut ctx, "b");
    ctx.pop();
    let outer = apply(&mut ctx, "\x1b[34m", &format!("{}{}", inner, deeper));
    assert!(!outer.is_empty());
    assert_eq!(ctx.current_color(), before);
}

#[test]
fn test_apply_custom_code() {
    let mut ctx = ColorContext::new();
    let out = apply(&mut ctx, "\x1b[4;31m", "Hello");
    assert_eq!(out, "\x1b[4;31mHello\x1b[0m\x1b[37m");
}

#[test]
fn test_reset_all_sequence() {
    assert_eq!(reset_all(), "\x1b[0m");
}

#[test]
fn test_colours_as_str() {
    assert_eq!(Colours::Black.as_str(), "30");
    assert_eq!(Colours::Red.as_str(), "31");
    assert_eq!(Colours::Green.as_str(), "32");
    assert_eq!(Colours::Yellow.as_str(), "33");
    assert_eq!(Colours::Blue.as_str(), "34");
    assert_eq!(Colours::Magenta.as_str(), "35");
    assert_eq!(Colours::Cyan.as_str(), "36");
    assert_eq!(Colours::White.as_str(), "37");
}

#[test]
fn test_rgb_digit_widths() {
    let mut ctx = ColorContext::new();
    assert_eq!(
        rgb(&mut ctx, 7, 42, 200, "x"),
        "\x1b[38;2;7;42;200mx\x1b[0m\x1b[37m"
    );
}

#[test]
fn test_bg_rgb_code() {
    let mut ctx = ColorContext::new();
    assert_eq!(
        bg_rgb(&mut ctx, 100, 150, 200, "This has a custom RGB background"),
        "\x1b[48;2;100;150;200mThis has a custom RGB background\x1b[0m\x1b[37m"
    );
}

#[test]
fn test_text_attributes() {
    let mut ctx = ColorContext::new();
    assert_eq!(
        italic(&mut ctx, "slanted"),
        "\x1b[3mslanted\x1b[0m\x1b[37m"
    );
    assert_eq!(
        underline(&mut ctx, "lined"),
        "\x1b[4mlined\x1b[0m\x1b[37m"
    );
}

#[test]
fn test_bg_named_color() {
    let mut ctx = ColorContext::new();
    assert_eq!(
        bg_blue(&mut ctx, "Blue background"),
        "\x1b[44mBlue background\x1b[0m\x1b[37m"
    );
}

#[test]
fn test_hsv_foreground() {
    let mut ctx = ColorContext::new();
    assert_eq!(
        hsv(&mut ctx, 120, 1000, 1000, "green"),
        "\x1b[38;2;0;255;0mgreen\x1b[0m\x1b[37m"
    );
}
