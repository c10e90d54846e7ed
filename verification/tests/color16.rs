use rustcolor::color16::{Color16, ColorPrinter16};
use rustcolor::color256::ColorPrinter256;

const TABLE: [(usize, Color16); 34] = [
    (30, Color16::FgBlack),
    (31, Color16::FgRed),
    (32, Color16::FgGreen),
    (33, Color16::FgYellow),
    (34, Color16::FgBlue),
    (35, Color16::FgMagenta),
    (36, Color16::FgCyan),
    (37, Color16::FgWhite),
    (39, Color16::FgDefault),
    (40, Color16::BgBlack),
    (41, Color16::BgRed),
    (42, Color16::BgGreen),
    (43, Color16::BgYellow),
    (44, Color16::BgBlue),
    (45, Color16::BgMagenta),
    (46, Color16::BgCyan),
    (47, Color16::BgWhite),
    (49, Color16::BgDefault),
    (90, Color16::FgDarkGray),
    (91, Color16::FgLightRed),
    (92, Color16::FgLightGreen),
    (93, Color16::FgLightYellow),
    (94, Color16::FgLightBlue),
    (95, Color16::FgLightMagenta),
    (96, Color16::FgLightCyan),
    (97, Color16::FgLightWhite),
    (100, Color16::BgDarkGray),
    (101, Color16::BgLightRed),
    (102, Color16::BgLightGreen),
    (103, Color16::BgLightYellow),
    (104, Color16::BgLightBlue),
    (105, Color16::BgLightMagenta),
    (106, Color16::BgLightCyan),
    (107, Color16::BgLightWhite),
];

#[test]
fn fixture_values() {
    assert_eq!(34, Color16::color_to_usize(Color16::FgBlue));
    assert_eq!(44, Color16::color_to_usize(Color16::BgBlue));
    assert_eq!(Color16::BgBlue, Color16::usize_to_color(44));
}

#[test]
fn table_round_trip() {
    for (value, color) in TABLE {
        assert_eq!(color, Color16::usize_to_color(value));
        assert_eq!(value, Color16::color_to_usize(color));
        assert_eq!(value, Color16::color_to_usize(Color16::usize_to_color(value)));
    }
}

#[test]
fn numbers_outside_the_table_are_no_color() {
    for value in 0..300usize {
        let known = TABLE.iter().any(|(v, _)| *v == value);
        if !known {
            assert_eq!(Color16::ColorNone, Color16::usize_to_color(value));
        }
    }
    assert_eq!(Color16::ColorNone, Color16::usize_to_color(0));
    assert_eq!(Color16::ColorNone, Color16::usize_to_color(29));
    assert_eq!(Color16::ColorNone, Color16::usize_to_color(38));
    assert_eq!(Color16::ColorNone, Color16::usize_to_color(48));
    assert_eq!(Color16::ColorNone, Color16::usize_to_color(50));
    assert_eq!(Color16::ColorNone, Color16::usize_to_color(89));
    assert_eq!(Color16::ColorNone, Color16::usize_to_color(98));
    assert_eq!(Color16::ColorNone, Color16::usize_to_color(99));
    assert_eq!(Color16::ColorNone, Color16::usize_to_color(108));
    assert_eq!(Color16::ColorNone, Color16::usize_to_color(usize::MAX));
}

#[test]
fn no_color_is_numbered_outside_the_table() {
    let value = Color16::color_to_usize(Color16::ColorNone);
    assert_eq!(usize::MAX, value);
    assert_eq!(Color16::ColorNone, Color16::usize_to_color(value));
}

#[test]
fn lighten_standard_colors() {
    assert_eq!(Color16::FgLightBlue, Color16::FgBlue.lighten());
    assert_eq!(Color16::FgDarkGray, Color16::FgBlack.lighten());
    assert_eq!(Color16::FgLightWhite, Color16::FgWhite.lighten());
    assert_eq!(Color16::BgDarkGray, Color16::BgBlack.lighten());
    assert_eq!(Color16::BgLightYellow, Color16::BgYellow.lighten());
    assert_eq!(Color16::BgLightWhite, Color16::BgWhite.lighten());
}

#[test]
fn darken_bright_colors() {
    assert_eq!(Color16::FgRed, Color16::FgLightRed.darken());
    assert_eq!(Color16::FgBlack, Color16::FgDarkGray.darken());
    assert_eq!(Color16::FgWhite, Color16::FgLightWhite.darken());
    assert_eq!(Color16::BgBlack, Color16::BgDarkGray.darken());
    assert_eq!(Color16::BgWhite, Color16::BgLightWhite.darken());
}

#[test]
fn darken_undoes_lighten_on_standard_colors() {
    for (value, color) in TABLE {
        if (30..=47).contains(&value) {
            assert_eq!(color, color.lighten().darken());
        }
        if (30..=37).contains(&value) || (40..=47).contains(&value) {
            assert_eq!(value + 60, Color16::color_to_usize(color.lighten()));
        }
    }
    assert_eq!(Color16::FgDefault, Color16::FgDefault.lighten().darken());
}

#[test]
fn lighten_undoes_darken_on_bright_colors() {
    for (value, color) in TABLE {
        if (90..=107).contains(&value) {
            assert_eq!(color, color.darken().lighten());
            assert_eq!(value - 60, Color16::color_to_usize(color.darken()));
        }
    }
}

#[test]
fn lighten_leaves_bright_colors_and_defaults() {
    for (value, color) in TABLE {
        if value >= 90 {
            assert_eq!(color, color.lighten());
        }
    }
    assert_eq!(Color16::FgDefault, Color16::FgDefault.lighten());
    assert_eq!(Color16::BgDefault, Color16::BgDefault.lighten());
    assert_eq!(Color16::ColorNone, Color16::ColorNone.lighten());
}

#[test]
fn lighten_of_default_foreground_is_unchanged() {
    assert_eq!(Color16::FgDefault, Color16::FgDefault.lighten());
    assert_eq!(39, Color16::color_to_usize(Color16::FgDefault.lighten()));
}

#[test]
fn lighten_and_darken_never_lose_a_color() {
    for (_, color) in TABLE {
        assert_ne!(Color16::ColorNone, color.lighten());
        assert_ne!(Color16::ColorNone, color.darken());
    }
}

#[test]
fn darken_leaves_standard_colors_and_defaults() {
    for (value, color) in TABLE {
        if value < 90 {
            assert_eq!(color, color.darken());
        }
    }
    assert_eq!(Color16::FgDefault, Color16::FgDefault.darken());
    assert_eq!(Color16::BgDefault, Color16::BgDefault.darken());
    assert_eq!(Color16::ColorNone, Color16::ColorNone.darken());
}

#[test]
fn string_in_named_colors() {
    let red_fg_text = "this is a red foreground color text"
        .to_owned()
        .print_c16(Color16::FgRed, Color16::BgBlack);
    assert_eq!(
        "\u{001b}[31;40mthis is a red foreground color text\u{001b}[0m",
        red_fg_text
    );
}

#[test]
fn string_in_bright_named_colors() {
    let text = String::from("hi").print_c16(Color16::FgLightWhite, Color16::BgDarkGray);
    assert_eq!("\u{001b}[97;100mhi\u{001b}[0m", text);
}

#[test]
fn string_in_palette_colors() {
    let text = String::from("hi").print_c256(1, 0);
    assert_eq!("\u{001b}[38;5;1;48;5;0mhi\u{001b}[0m", text);
    let text = String::from("hi").print_c256(255, 16);
    assert_eq!("\u{001b}[38;5;255;48;5;16mhi\u{001b}[0m", text);
}
