//! Ready-made styles: a message wrapped in the colors of one of the three
//! color spaces, or in one of the named styles.
//!
//! Every operation is a function of the message and the colors alone: it
//! builds the sequence anew, keeps nothing, and so returns the same text
//! whenever it is asked the same.

use vstd::prelude::*;
use crate::color::{RGB, BG_DEFAULT, BG_RED, FG_BLUE, FG_GREEN, FG_RED, FG_WHITE, FG_YELLOW};
use crate::decimal::decimal;
use crate::style::{
    background_24bit_token, background_8bit_token, blink_token, csi_token, delimiter_token,
    end_sgr_token, foreground_24bit_token, foreground_8bit_token, lemma_render_once,
    lemma_text_concat,
    reset_sequence, text, underline_token, Piece, StyleBuilder,
};

verus! {

/// The opening half of a 16-color sequence: `ESC [ fg ; bg m`.
pub open spec fn c16_open(foreground: nat, background: nat) -> Seq<char> {
    csi_token() + decimal(foreground) + delimiter_token() + decimal(background) + end_sgr_token()
}

/// The opening half of a 256-color sequence:
/// `ESC [ 38;5 ; fg ; 48;5 ; bg m`.
pub open spec fn c256_open(foreground: nat, background: nat) -> Seq<char> {
    csi_token() + foreground_8bit_token() + delimiter_token() + decimal(foreground)
        + delimiter_token() + background_8bit_token() + delimiter_token() + decimal(background)
        + end_sgr_token()
}

/// The three channels of a color as parameters: `r ; g ; b`.
pub open spec fn rgb_params(color: RGB) -> Seq<char> {
    decimal(color.0 as nat) + delimiter_token() + decimal(color.1 as nat) + delimiter_token()
        + decimal(color.2 as nat)
}

/// The opening half of a 24-bit sequence:
/// `ESC [ 38;2 ; r ; g ; b ; 48;2 ; r ; g ; b m`.
pub open spec fn rgb_open(foreground: RGB, background: RGB) -> Seq<char> {
    csi_token() + foreground_24bit_token() + delimiter_token() + rgb_params(foreground)
        + delimiter_token() + background_24bit_token() + delimiter_token() + rgb_params(
        background,
    ) + end_sgr_token()
}

/// The opening half of a sequence that sets a foreground and one
/// attribute in place of a background: `ESC [ fg ; attribute m`.
pub open spec fn attribute_open(foreground: nat, attribute: Seq<char>) -> Seq<char> {
    csi_token() + decimal(foreground) + delimiter_token() + attribute + end_sgr_token()
}

/// A finished sequence: the opening half, the message as it is, and the
/// reset `ESC [ 0 m`.
pub open spec fn wrapped(open: Seq<char>, message: Seq<char>) -> Seq<char> {
    open + message + reset_sequence()
}

/// The named styles.
pub enum NamedStyle {
    /// White on a red background.
    Error,
    /// Red on the default background.
    Danger,
    /// Green on the default background.
    Info,
    /// Blue on the default background.
    Primary,
    /// Yellow on the default background.
    Warn,
    /// Red and blinking.
    Blink,
    /// Yellow and underlined.
    Underline,
}

/// The opening half of a named style.
pub open spec fn named_open(style: NamedStyle) -> Seq<char> {
    match style {
        NamedStyle::Error => c16_open(FG_WHITE as nat, BG_RED as nat),
        NamedStyle::Danger => c16_open(FG_RED as nat, BG_DEFAULT as nat),
        NamedStyle::Info => c16_open(FG_GREEN as nat, BG_DEFAULT as nat),
        NamedStyle::Primary => c16_open(FG_BLUE as nat, BG_DEFAULT as nat),
        NamedStyle::Warn => c16_open(FG_YELLOW as nat, BG_DEFAULT as nat),
        NamedStyle::Blink => attribute_open(FG_RED as nat, blink_token()),
        NamedStyle::Underline => attribute_open(FG_YELLOW as nat, underline_token()),
    }
}

/// The text of a message in a named style.
pub open spec fn named_sequence(style: NamedStyle, message: Seq<char>) -> Seq<char> {
    wrapped(named_open(style), message)
}

/// The opening half of each named style, character by character.
pub proof fn lemma_named_open_text()
    ensures
        named_open(NamedStyle::Error) == seq!['\u{1b}', '[', '3', '7', ';', '4', '1', 'm'],
        named_open(NamedStyle::Danger) == seq!['\u{1b}', '[', '3', '1', ';', '4', '9', 'm'],
        named_open(NamedStyle::Info) == seq!['\u{1b}', '[', '3', '2', ';', '4', '9', 'm'],
        named_open(NamedStyle::Primary) == seq!['\u{1b}', '[', '3', '4', ';', '4', '9', 'm'],
        named_open(NamedStyle::Warn) == seq!['\u{1b}', '[', '3', '3', ';', '4', '9', 'm'],
        named_open(NamedStyle::Blink) == seq!['\u{1b}', '[', '3', '1', ';', '5', 'm'],
        named_open(NamedStyle::Underline) == seq!['\u{1b}', '[', '3', '3', ';', '4', 'm'],
        reset_sequence() == seq!['\u{1b}', '[', '0', 'm'],
{
    reveal_with_fuel(decimal, 2);
    assert(decimal(31) =~= seq!['3', '1']);
    assert(decimal(32) =~= seq!['3', '2']);
    assert(decimal(33) =~= seq!['3', '3']);
    assert(decimal(34) =~= seq!['3', '4']);
    assert(decimal(37) =~= seq!['3', '7']);
    assert(decimal(41) =~= seq!['4', '1']);
    assert(decimal(49) =~= seq!['4', '9']);
    assert(named_open(NamedStyle::Error) =~= seq!['\u{1b}', '[', '3', '7', ';', '4', '1', 'm']);
    assert(named_open(NamedStyle::Danger) =~= seq!['\u{1b}', '[', '3', '1', ';', '4', '9', 'm']);
    assert(named_open(NamedStyle::Info) =~= seq!['\u{1b}', '[', '3', '2', ';', '4', '9', 'm']);
    assert(named_open(NamedStyle::Primary) =~= seq!['\u{1b}', '[', '3', '4', ';', '4', '9', 'm']);
    assert(named_open(NamedStyle::Warn) =~= seq!['\u{1b}', '[', '3', '3', ';', '4', '9', 'm']);
    assert(named_open(NamedStyle::Blink) =~= seq!['\u{1b}', '[', '3', '1', ';', '5', 'm']);
    assert(named_open(NamedStyle::Underline) =~= seq!['\u{1b}', '[', '3', '3', ';', '4', 'm']);
    assert(reset_sequence() =~= seq!['\u{1b}', '[', '0', 'm']);
}

/// A finished sequence holds the message exactly once and as it is,
/// between the opening half and the reset, whatever the message holds: it
/// may be empty, and it may hold the placeholder token or escape
/// characters of its own. Neither half is changed by it.
pub proof fn lemma_wrapped_keeps_message(open: Seq<char>, message: Seq<char>)
    ensures
        wrapped(open, message).len() == open.len() + message.len() + reset_sequence().len(),
        reset_sequence().len() == 4,
        wrapped(open, message).subrange(0, open.len() as int) == open,
        wrapped(open, message).subrange(
            open.len() as int,
            (open.len() + message.len()) as int,
        ) == message,
        wrapped(open, message).subrange(
            (open.len() + message.len()) as int,
            wrapped(open, message).len() as int,
        ) == reset_sequence(),
{
    let whole = wrapped(open, message);
    let start = open.len() as int;
    let end = (open.len() + message.len()) as int;
    assert(whole.subrange(0, start) =~= open);
    assert(whole.subrange(start, end) =~= message);
    assert(whole.subrange(end, whole.len() as int) =~= reset_sequence());
}

/// A named style keeps no state: what it returns is fixed by the style
/// and the message, so two calls on one message return the same text,
/// character for character.
pub proof fn lemma_named_style_repeatable(
    style: NamedStyle,
    message: Seq<char>,
    first: Seq<char>,
    second: Seq<char>,
)
    requires
        first == named_sequence(style, message),
        second == named_sequence(style, message),
    ensures
        first == second,
{
}

/// Styling operations on a piece of text.
///
/// Colors are raw numbers. None is checked against the range of its color
/// space: whatever is given is written into the sequence in decimal.
pub trait ColorPrinter {
    /// The text in a foreground and a background of the 16 colors, each
    /// given by its SGR parameter.
    fn print_c16(&self, foreground: usize, background: usize) -> String;

    /// The text in a foreground and a background of the 256-color palette.
    fn print_c256(&self, foreground: usize, background: usize) -> String;

    /// The text in a 24-bit foreground and background.
    fn print_24bit(&self, foreground: RGB, background: RGB) -> String;

    /// The text in yellow on the default background.
    fn warn(&self) -> String;

    /// The text in white on a red background.
    fn error(&self) -> String;

    /// The text in red on the default background.
    fn danger(&self) -> String;

    /// The text in green on the default background.
    fn info(&self) -> String;

    /// The text in blue on the default background.
    fn primary(&self) -> String;

    /// The text in red, blinking.
    fn blink(&self) -> String;

    /// The text in yellow, underlined.
    fn underline(&self) -> String;
}

impl ColorPrinter for str {
    fn print_c16(&self, foreground: usize, background: usize) -> (out: String)
        ensures
            out@ == wrapped(c16_open(foreground as nat, background as nat), self@),
    {
        let result = StyleBuilder::new()
            .csi()
            .color(foreground)
            .delimiter()
            .color(background)
            .end_sgr()
            .message()
            .csi()
            .reset()
            .end_sgr()
            .build();
        proof {
            let open = c16_open(foreground as nat, background as nat);
            assert(result@ =~= text(open).push(Piece::Slot) + text(reset_sequence()));
            lemma_render_once(open, reset_sequence(), self@);
        }
        result.render(self)
    }

    fn print_c256(&self, foreground: usize, background: usize) -> (out: String)
        ensures
            out@ == wrapped(c256_open(foreground as nat, background as nat), self@),
    {
        let result = StyleBuilder::new()
            .csi()
            .foreground_8bit()
            .delimiter()
            .color(foreground)
            .delimiter()
            .background_8bit()
            .delimiter()
            .color(background)
            .end_sgr()
            .message()
            .csi()
            .reset()
            .end_sgr()
            .build();
        proof {
            let open = c256_open(foreground as nat, background as nat);
            assert(result@ =~= text(open).push(Piece::Slot) + text(reset_sequence()));
            lemma_render_once(open, reset_sequence(), self@);
        }
        result.render(self)
    }

    fn error(&self) -> (out: String)
        ensures
            out@ == named_sequence(NamedStyle::Error, self@),
    {
        self.print_c16(FG_WHITE, BG_RED)
    }

    fn danger(&self) -> (out: String)
        ensures
            out@ == named_sequence(NamedStyle::Danger, self@),
    {
        self.print_c16(FG_RED, BG_DEFAULT)
    }

    fn info(&self) -> (out: String)
        ensures
            out@ == named_sequence(NamedStyle::Info, self@),
    {
        self.print_c16(FG_GREEN, BG_DEFAULT)
    }

    fn primary(&self) -> (out: String)
        ensures
            out@ == named_sequence(NamedStyle::Primary, self@),
    {
        self.print_c16(FG_BLUE, BG_DEFAULT)
    }

    fn warn(&self) -> (out: String)
        ensures
            out@ == named_sequence(NamedStyle::Warn, self@),
    {
        self.print_c16(FG_YELLOW, BG_DEFAULT)
    }

    fn blink(&self) -> (out: String)
        ensures
            out@ == named_sequence(NamedStyle::Blink, self@),
    {
        let result = StyleBuilder::new()
            .csi()
            .color(FG_RED)
            .delimiter()
            .blink()
            .end_sgr()
            .message()
            .csi()
            .reset()
            .end_sgr()
            .build();
        proof {
            let open = attribute_open(FG_RED as nat, blink_token());
            assert(result@ =~= text(open).push(Piece::Slot) + text(reset_sequence()));
            lemma_render_once(open, reset_sequence(), self@);
        }
        result.render(self)
    }

    fn underline(&self) -> (out: String)
        ensures
            out@ == named_sequence(NamedStyle::Underline, self@),
    {
        let result = StyleBuilder::new()
            .csi()
            .color(FG_YELLOW)
            .delimiter()
            .underline()
            .end_sgr()
            .message()
            .csi()
            .reset()
            .end_sgr()
            .build();
        proof {
            let open = attribute_open(FG_YELLOW as nat, underline_token());
            assert(result@ =~= text(open).push(Piece::Slot) + text(reset_sequence()));
            lemma_render_once(open, reset_sequence(), self@);
        }
        result.render(self)
    }

    fn print_24bit(&self, foreground: RGB, background: RGB) -> (out: String)
        ensures
            out@ == wrapped(rgb_open(foreground, background), self@),
    {
        let RGB(fr, fg, fb) = foreground;
        let RGB(br, bg, bb) = background;
        let result = StyleBuilder::new()
            .csi()
            .foreground_24bit()
            .delimiter()
            .color(fr)
            .delimiter()
            .color(fg)
            .delimiter()
            .color(fb)
            .delimiter()
            .background_24bit()
            .delimiter()
            .color(br)
            .delimiter()
            .color(bg)
            .delimiter()
            .color(bb)
            .end_sgr()
            .message()
            .csi()
            .reset()
            .end_sgr()
            .build();
        proof {
            let d = delimiter_token();
            let t1 = csi_token() + foreground_24bit_token();
            let t2 = t1 + d;
            let t3 = t2 + decimal(fr as nat);
            let t4 = t3 + d;
            let t5 = t4 + decimal(fg as nat);
            let t6 = t5 + d;
            let t7 = t6 + decimal(fb as nat);
            let t8 = t7 + d;
            let t9 = t8 + background_24bit_token();
            let t10 = t9 + d;
            let t11 = t10 + decimal(br as nat);
            let t12 = t11 + d;
            let t13 = t12 + decimal(bg as nat);
            let t14 = t13 + d;
            let t15 = t14 + decimal(bb as nat);
            let t16 = t15 + end_sgr_token();
            assert(Seq::<Piece>::empty() + text(csi_token()) =~= text(csi_token()));
            lemma_text_concat(csi_token(), foreground_24bit_token());
            lemma_text_concat(t1, d);
            lemma_text_concat(t2, decimal(fr as nat));
            lemma_text_concat(t3, d);
            lemma_text_concat(t4, decimal(fg as nat));
            lemma_text_concat(t5, d);
            lemma_text_concat(t6, decimal(fb as nat));
            lemma_text_concat(t7, d);
            lemma_text_concat(t8, background_24bit_token());
            lemma_text_concat(t9, d);
            lemma_text_concat(t10, decimal(br as nat));
            lemma_text_concat(t11, d);
            lemma_text_concat(t12, decimal(bg as nat));
            lemma_text_concat(t13, d);
            lemma_text_concat(t14, decimal(bb as nat));
            lemma_text_concat(t15, end_sgr_token());
            let open = rgb_open(foreground, background);
            assert(t16 =~= open);
            assert(result@ =~= text(open).push(Piece::Slot) + text(reset_sequence()));
            lemma_render_once(open, reset_sequence(), self@);
        }
        result.render(self)
    }
}

} // verus!
