use rustcolor::color::{
    darken, lighten, BG_BLACK, BG_DEFAULT, BG_RED, FG_LIGHT_RED, FG_RED, FG_WHITE, RGB,
};
use rustcolor::printer::ColorPrinter;

#[test]
fn test_color16_printer() {
    let red_fg_text = "this is a red foreground color text".print_c16(FG_RED, BG_BLACK);

    assert_eq!(
        "\u{001b}[31;40mthis is a red foreground color text\u{001b}[0m",
        red_fg_text
    );
}

#[test]
fn test_color256_printer() {
    let red_fg_text = "this is a red foreground color text".print_c256(1, 0);

    let expected = "\u{001b}[38;5;1;48;5;0mthis is a red foreground color text\u{001b}[0m";
    assert_eq!(expected, red_fg_text);
}

#[test]
fn test_default_3bit_color() {
    let error_text = "white text with red bg".error();
    let mut expected = "\u{001b}[37;41mwhite text with red bg\u{001b}[0m";
    assert_eq!(expected, error_text);

    let primary_text = "blue text with primary style".primary();
    expected = "\u{001b}[34;49mblue text with primary style\u{001b}[0m";
    assert_eq!(expected, primary_text);

    let danger = "red text with danger style".danger();
    expected = "\u{001b}[31;49mred text with danger style\u{001b}[0m";
    assert_eq!(expected, danger);

    let info_text = "green text with info style".info();
    expected = "\u{001b}[32;49mgreen text with info style\u{001b}[0m";
    assert_eq!(expected, info_text);

    let warn_text = "yellow text with warn style".warn();
    expected = "\u{001b}[33;49myellow text with warn style\u{001b}[0m";
    assert_eq!(expected, warn_text);

    let blink_text = "this is a text with blink style".blink();
    expected = "\u{001b}[31;5mthis is a text with blink style\u{001b}[0m";
    assert_eq!(expected, blink_text);

    let underlined_text = "this is a text with underlined style".underline();
    expected = "\u{001b}[33;4mthis is a text with underlined style\u{001b}[0m";
    assert_eq!(expected, underlined_text);
}

#[test]
fn test_darken() {
    let result = darken(FG_LIGHT_RED);
    assert_eq!(FG_RED, result);
}

#[test]
fn test_lighten() {
    let result = lighten(FG_RED);
    assert_eq!(FG_LIGHT_RED, result);
}

#[test]
fn test_info_macro() {
    println!("{}", "this is an info text".info());
}

#[test]
fn test_primary_macro() {
    println!("{}", "this is a primary text".primary());
}

#[test]
fn test_warn_macro() {
    println!("{}", "this is a warn text".warn());
}

#[test]
fn test_danger_macro() {
    println!("{}", "this is a danger text".danger());
}

#[test]
fn test_error_macro() {
    println!("{}", "this is an error text".error());
}

#[test]
fn test_blink_macro() {
    println!("{}", "this is a blink text".blink());
}

#[test]
fn test_underline_macro() {
    println!("{}", "this is an underline text".underline());
}

#[test]
fn sixteen_color_sequence_for_hi() {
    assert_eq!("\u{001b}[31;40mhi\u{001b}[0m", "hi".print_c16(31, 40));
}

#[test]
fn palette_sequence_for_hi() {
    assert_eq!("\u{001b}[38;5;1;48;5;0mhi\u{001b}[0m", "hi".print_c256(1, 0));
}

#[test]
fn named_styles_for_x() {
    assert_eq!("\u{001b}[37;41mx\u{001b}[0m", "x".error());
    assert_eq!("\u{001b}[32;49mx\u{001b}[0m", "x".info());
    assert_eq!("\u{001b}[31;49mx\u{001b}[0m", "x".danger());
    assert_eq!("\u{001b}[34;49mx\u{001b}[0m", "x".primary());
    assert_eq!("\u{001b}[33;49mx\u{001b}[0m", "x".warn());
    assert_eq!("\u{001b}[31;5mx\u{001b}[0m", "x".blink());
    assert_eq!("\u{001b}[33;4mx\u{001b}[0m", "x".underline());
}

#[test]
fn error_uses_white_on_red_constants() {
    assert_eq!("x".print_c16(FG_WHITE, BG_RED), "x".error());
    assert_eq!("x".print_c16(FG_RED, BG_DEFAULT), "x".danger());
}

#[test]
fn true_color_sequence() {
    let text = "hi".print_24bit(RGB(1, 2, 3), RGB(40, 50, 60));
    assert_eq!("\u{001b}[38;2;1;2;3;48;2;40;50;60mhi\u{001b}[0m", text);
}

#[test]
fn true_color_black_on_red() {
    let text = " ".print_24bit(RGB(0, 0, 0), RGB(255, 0, 0));
    assert_eq!("\u{001b}[38;2;0;0;0;48;2;255;0;0m \u{001b}[0m", text);
}

#[test]
fn out_of_range_colors_pass_through() {
    assert_eq!("\u{001b}[38;5;256;48;5;1000mhi\u{001b}[0m", "hi".print_c256(256, 1000));
    assert_eq!(
        "\u{001b}[38;2;300;0;0;48;2;0;0;999mhi\u{001b}[0m",
        "hi".print_24bit(RGB(300, 0, 0), RGB(0, 0, 999))
    );
    assert_eq!("\u{001b}[0;5mhi\u{001b}[0m", "hi".print_c16(0, 5));
}

#[test]
fn empty_message_keeps_both_halves() {
    assert_eq!("\u{001b}[31;40m\u{001b}[0m", "".print_c16(31, 40));
    assert_eq!("\u{001b}[37;41m\u{001b}[0m", "".error());
    assert_eq!("\u{001b}[38;5;1;48;5;0m\u{001b}[0m", "".print_c256(1, 0));
}

#[test]
fn message_with_placeholder_token_is_kept_verbatim() {
    assert_eq!("\u{001b}[31;40m${}\u{001b}[0m", "${}".print_c16(31, 40));
    assert_eq!(
        "\u{001b}[37;41ma ${} b ${} c\u{001b}[0m",
        "a ${} b ${} c".error()
    );
    assert_eq!("\u{001b}[31;5m$${}{}\u{001b}[0m", "$${}{}".blink());
}

#[test]
fn message_with_control_sequence_is_kept_verbatim() {
    let inner = "x".info();
    let outer = inner.as_str().error();
    assert_eq!("\u{001b}[37;41m\u{001b}[32;49mx\u{001b}[0m\u{001b}[0m", outer);
}

#[test]
fn message_with_wide_characters() {
    assert_eq!("\u{001b}[32;49mgrün ✓\u{001b}[0m", "grün ✓".info());
}

#[test]
fn named_style_twice_gives_the_same_text() {
    let message = "the same message";
    assert_eq!(message.error(), message.error());
    assert_eq!(message.danger(), message.danger());
    assert_eq!(message.info(), message.info());
    assert_eq!(message.primary(), message.primary());
    assert_eq!(message.warn(), message.warn());
    assert_eq!(message.blink(), message.blink());
    assert_eq!(message.underline(), message.underline());
}

#[test]
fn raw_lighten_and_darken_add_and_subtract_sixty() {
    assert_eq!(90, lighten(30));
    assert_eq!(107, lighten(47));
    assert_eq!(30, darken(90));
    assert_eq!(47, darken(107));
    assert_eq!(60, lighten(0));
    assert_eq!(0, darken(60));
    assert_eq!(65, lighten(5));
}

#[test]
fn raw_lighten_and_darken_wrap_at_the_word() {
    assert_eq!(usize::MAX - 59, darken(0));
    assert_eq!(usize::MAX, darken(59));
    assert_eq!(59, lighten(usize::MAX));
    assert_eq!(0, lighten(usize::MAX - 59));
    assert_eq!(usize::MAX, lighten(usize::MAX - 60));
    assert_eq!(7, darken(lighten(7)));
    assert_eq!(7, lighten(darken(7)));
}
