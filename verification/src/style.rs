//! The sequence builder: assembles an SGR escape sequence token by token.
//!
//! A style is a template: a row of literal characters with slots where the
//! message goes. The builder appends tokens and slots in the order of the
//! calls and checks nothing: a caller that follows the grammar
//!
//! ```text
//! sequence := open message close
//! open     := CSI params 'm'
//! close    := CSI '0' 'm'
//! params   := token (';' token)*
//! ```
//!
//! gets a well-formed sequence, and any other order of calls gets the text
//! that was asked for.
//!
//! ```text
//! let style = StyleBuilder::new()
//!     .csi().color(31).delimiter().color(40).end_sgr()
//!     .message()
//!     .csi().reset().end_sgr()
//!     .build();
//! style.render("red on black") == "\u{1b}[31;40mred on black\u{1b}[0m"
//! ```

use vstd::prelude::*;
use crate::decimal::{decimal, push_decimal};

verus! {

/// One element of a template.
pub enum Piece {
    /// A character that is rendered as it is.
    Char(char),
    /// A place that the message fills when the template is rendered.
    Slot,
}

/// The piece that holds the character `c`.
pub open spec fn literal(c: char) -> Piece {
    Piece::Char(c)
}

/// The template that renders as `s` whatever the message is.
pub open spec fn text(s: Seq<char>) -> Seq<Piece> {
    s.map_values(|c: char| literal(c))
}

/// What one piece renders to.
pub open spec fn expand_piece(piece: Piece, message: Seq<char>) -> Seq<char> {
    match piece {
        Piece::Char(c) => seq![c],
        Piece::Slot => message,
    }
}

/// What a template renders to: every character stays, in order, and every
/// slot is replaced by `message`, taken as it is. The message is never
/// looked into, so nothing in it can be mistaken for a slot.
pub open spec fn expand(template: Seq<Piece>, message: Seq<char>) -> Seq<char>
    decreases template.len(),
{
    if template.len() == 0 {
        Seq::empty()
    } else {
        expand(template.drop_last(), message) + expand_piece(template.last(), message)
    }
}

/// The number of slots of a template.
pub open spec fn slot_count(template: Seq<Piece>) -> nat
    decreases template.len(),
{
    if template.len() == 0 {
        0
    } else {
        slot_count(template.drop_last()) + if template.last() is Slot {
            1nat
        } else {
            0nat
        }
    }
}

/// The control sequence introducer, `ESC [`.
pub open spec fn csi_token() -> Seq<char> {
    seq!['\u{1b}', '[']
}

/// The selector of a 256-color background, `48;5`.
pub open spec fn background_8bit_token() -> Seq<char> {
    seq!['4', '8', ';', '5']
}

/// The selector of a 256-color foreground, `38;5`.
pub open spec fn foreground_8bit_token() -> Seq<char> {
    seq!['3', '8', ';', '5']
}

/// The selector of a 24-bit background, `48;2`.
pub open spec fn background_24bit_token() -> Seq<char> {
    seq!['4', '8', ';', '2']
}

/// The selector of a 24-bit foreground, `38;2`.
pub open spec fn foreground_24bit_token() -> Seq<char> {
    seq!['3', '8', ';', '2']
}

/// The text that stands for a slot where a template is shown unrendered.
pub open spec fn placeholder_token() -> Seq<char> {
    seq!['$', '{', '}']
}

/// The terminator of an SGR parameter list.
pub open spec fn end_sgr_token() -> Seq<char> {
    seq!['m']
}

/// The parameter that resets all attributes.
pub open spec fn reset_token() -> Seq<char> {
    seq!['0']
}

/// The separator of two parameters.
pub open spec fn delimiter_token() -> Seq<char> {
    seq![';']
}

/// The blink attribute.
pub open spec fn blink_token() -> Seq<char> {
    seq!['5']
}

/// The underline attribute.
pub open spec fn underline_token() -> Seq<char> {
    seq!['4']
}

/// The closing half of every sequence: `ESC [ 0 m`.
pub open spec fn reset_sequence() -> Seq<char> {
    csi_token() + reset_token() + end_sgr_token()
}

/// The template of the segments that are closed by a slot: after each
/// segment comes one slot.
spec fn closed_segments(done: Seq<String>) -> Seq<Piece>
    decreases done.len(),
{
    if done.len() == 0 {
        Seq::empty()
    } else {
        closed_segments(done.drop_last()) + text(done.last()@).push(Piece::Slot)
    }
}

/// Literal text after literal text is the literal text of both.
pub proof fn lemma_text_concat(a: Seq<char>, b: Seq<char>)
    ensures
        text(a) + text(b) == text(a + b),
{
    assert(text(a) + text(b) =~= text(a + b));
}

/// Rendering goes piece by piece: a template in two parts renders to the
/// two renderings, one after the other.
pub proof fn lemma_expand_concat(a: Seq<Piece>, b: Seq<Piece>, message: Seq<char>)
    ensures
        expand(a + b, message) == expand(a, message) + expand(b, message),
    decreases b.len(),
{
    if b.len() == 0 {
        assert(a + b =~= a);
        assert(expand(a, message) + expand(b, message) =~= expand(a, message));
    } else {
        assert((a + b).drop_last() =~= a + b.drop_last());
        assert((a + b).last() == b.last());
        lemma_expand_concat(a, b.drop_last(), message);
        assert(expand(a + b, message) =~= expand(a, message) + expand(b, message));
    }
}

/// Literal text renders to itself: no message changes, drops or repeats a
/// character of it.
pub proof fn lemma_expand_text(s: Seq<char>, message: Seq<char>)
    ensures
        expand(text(s), message) == s,
    decreases s.len(),
{
    if s.len() == 0 {
        assert(expand(text(s), message) =~= s);
    } else {
        assert(text(s).drop_last() =~= text(s.drop_last()));
        lemma_expand_text(s.drop_last(), message);
        assert(expand(text(s), message) =~= s);
    }
}

/// A slot renders to the message, once and unchanged.
pub proof fn lemma_expand_slot(message: Seq<char>)
    ensures
        expand(seq![Piece::Slot], message) == message,
{
    let t = seq![Piece::Slot];
    assert(t.drop_last() =~= Seq::<Piece>::empty());
    assert(expand(t.drop_last(), message) =~= Seq::<char>::empty());
    assert(expand(t, message) =~= message);
}

/// A template of literal text, one slot and more literal text renders to
/// the first text, the message and the second text, for every message: the
/// empty one, and one that holds the placeholder token or control
/// characters, too. The message stands there exactly once and both texts
/// are kept as they are.
pub proof fn lemma_render_once(open: Seq<char>, close: Seq<char>, message: Seq<char>)
    ensures
        expand(text(open).push(Piece::Slot) + text(close), message) == open + message + close,
        slot_count(text(open).push(Piece::Slot) + text(close)) == 1,
{
    let head = text(open);
    let slot = seq![Piece::Slot];
    let tail = text(close);
    assert(head.push(Piece::Slot) =~= head + slot);
    lemma_expand_concat(head + slot, tail, message);
    lemma_expand_concat(head, slot, message);
    lemma_expand_text(open, message);
    lemma_expand_text(close, message);
    lemma_expand_slot(message);
    lemma_slot_count_concat(head + slot, tail);
    lemma_slot_count_concat(head, slot);
    lemma_slot_count_text(open);
    lemma_slot_count_text(close);
    assert(slot_count(slot) == 1) by {
        assert(slot.drop_last() =~= Seq::<Piece>::empty());
        assert(slot_count(slot.drop_last()) == 0);
        assert(slot.last() is Slot);
    }
}

/// The slots of a template in two parts are those of both parts.
pub proof fn lemma_slot_count_concat(a: Seq<Piece>, b: Seq<Piece>)
    ensures
        slot_count(a + b) == slot_count(a) + slot_count(b),
    decreases b.len(),
{
    if b.len() == 0 {
        assert(a + b =~= a);
    } else {
        assert((a + b).drop_last() =~= a + b.drop_last());
        assert((a + b).last() == b.last());
        lemma_slot_count_concat(a, b.drop_last());
    }
}

/// Literal text has no slot.
pub proof fn lemma_slot_count_text(s: Seq<char>)
    ensures
        slot_count(text(s)) == 0,
    decreases s.len(),
{
    if s.len() > 0 {
        assert(text(s).drop_last() =~= text(s.drop_last()));
        lemma_slot_count_text(s.drop_last());
    }
}

/// The length of a rendering: every character of the template counts once
/// and every slot counts as the message. So the message is put in exactly
/// as often as there are slots, and nothing else is added or lost.
pub proof fn lemma_expand_len(template: Seq<Piece>, message: Seq<char>)
    ensures
        expand(template, message).len() == template.len() - slot_count(template) + slot_count(
            template,
        ) * message.len(),
        slot_count(template) <= template.len(),
    decreases template.len(),
{
    let m = message.len();
    if template.len() == 0 {
        assert(0 * m == 0) by (nonlinear_arith);
    } else {
        lemma_expand_len(template.drop_last(), message);
        let k = slot_count(template.drop_last());
        assert((k + 1) * m == k * m + m) by (nonlinear_arith);
        assert(expand(template, message).len() == expand(template.drop_last(), message).len()
            + expand_piece(template.last(), message).len());
    }
}

/// An append-only accumulator of tokens and message slots.
///
/// Every step takes the builder and hands it back, so that steps can be
/// chained; [`StyleBuilder::build`] consumes it.
pub struct StyleBuilder {
    /// The segments that a slot has closed, oldest first.
    done: Vec<String>,
    /// The literal text after the last slot.
    tail: String,
}

impl View for StyleBuilder {
    type V = Seq<Piece>;

    /// The template built so far.
    closed spec fn view(&self) -> Seq<Piece> {
        closed_segments(self.done@) + text(self.tail@)
    }
}

impl StyleBuilder {
    /// A builder with nothing in it.
    pub fn new() -> (builder: StyleBuilder)
        ensures
            builder@ == Seq::<Piece>::empty(),
    {
        let builder = StyleBuilder { done: Vec::new(), tail: String::new() };
        assert(builder@ =~= Seq::<Piece>::empty());
        builder
    }

    /// Appends literal text.
    fn put(self, token: &str) -> (next: StyleBuilder)
        ensures
            next@ == self@ + text(token@),
    {
        let mut next = self;
        next.tail.append(token);
        assert(next@ =~= self@ + text(token@));
        next
    }

    /// Appends the underline attribute, `4`.
    pub fn underline(self) -> (next: StyleBuilder)
        ensures
            next@ == self@ + text(underline_token()),
    {
        proof {
            reveal_strlit("4");
            assert("4"@ =~= underline_token());
        }
        self.put("4")
    }

    /// Appends the blink attribute, `5`.
    pub fn blink(self) -> (next: StyleBuilder)
        ensures
            next@ == self@ + text(blink_token()),
    {
        proof {
            reveal_strlit("5");
            assert("5"@ =~= blink_token());
        }
        self.put("5")
    }

    /// Appends the control sequence introducer, `ESC [`.
    pub fn csi(self) -> (next: StyleBuilder)
        ensures
            next@ == self@ + text(csi_token()),
    {
        proof {
            reveal_strlit("\u{1b}[");
            assert("\u{1b}["@ =~= csi_token());
        }
        self.put("\u{1b}[")
    }

    /// Appends the selector of a 256-color background, `48;5`.
    pub fn background_8bit(self) -> (next: StyleBuilder)
        ensures
            next@ == self@ + text(background_8bit_token()),
    {
        proof {
            reveal_strlit("48;5");
            assert("48;5"@ =~= background_8bit_token());
        }
        self.put("48;5")
    }

    /// Appends a color, or any other number, in decimal.
    pub fn color(self, color: usize) -> (next: StyleBuilder)
        ensures
            next@ == self@ + text(decimal(color as nat)),
    {
        let mut next = self;
        push_decimal(&mut next.tail, color);
        assert(next@ =~= self@ + text(decimal(color as nat)));
        next
    }

    /// Appends the selector of a 256-color foreground, `38;5`.
    pub fn foreground_8bit(self) -> (next: StyleBuilder)
        ensures
            next@ == self@ + text(foreground_8bit_token()),
    {
        proof {
            reveal_strlit("38;5");
            assert("38;5"@ =~= foreground_8bit_token());
        }
        self.put("38;5")
    }

    /// Appends the selector of a 24-bit background, `48;2`.
    pub fn background_24bit(self) -> (next: StyleBuilder)
        ensures
            next@ == self@ + text(background_24bit_token()),
    {
        proof {
            reveal_strlit("48;2");
            assert("48;2"@ =~= background_24bit_token());
        }
        self.put("48;2")
    }

    /// Appends the selector of a 24-bit foreground, `38;2`.
    pub fn foreground_24bit(self) -> (next: StyleBuilder)
        ensures
            next@ == self@ + text(foreground_24bit_token()),
    {
        proof {
            reveal_strlit("38;2");
            assert("38;2"@ =~= foreground_24bit_token());
        }
        self.put("38;2")
    }

    /// Appends the reset parameter, `0`.
    pub fn reset(self) -> (next: StyleBuilder)
        ensures
            next@ == self@ + text(reset_token()),
    {
        proof {
            reveal_strlit("0");
            assert("0"@ =~= reset_token());
        }
        self.put("0")
    }

    /// Appends the parameter separator, `;`.
    pub fn delimiter(self) -> (next: StyleBuilder)
        ensures
            next@ == self@ + text(delimiter_token()),
    {
        proof {
            reveal_strlit(";");
            assert(";"@ =~= delimiter_token());
        }
        self.put(";")
    }

    /// Appends the terminator of the parameter list, `m`.
    pub fn end_sgr(self) -> (next: StyleBuilder)
        ensures
            next@ == self@ + text(end_sgr_token()),
    {
        proof {
            reveal_strlit("m");
            assert("m"@ =~= end_sgr_token());
        }
        self.put("m")
    }

    /// Appends a slot: the place where [`Style::render`] puts the message.
    pub fn message(self) -> (next: StyleBuilder)
        ensures
            next@ == self@.push(Piece::Slot),
    {
        let StyleBuilder { done, tail } = self;
        let mut done = done;
        let ghost before = done@;
        done.push(tail);
        let next = StyleBuilder { done, tail: String::new() };
        proof {
            assert(next.done@.drop_last() =~= before);
            assert(next@ =~= self@.push(Piece::Slot));
        }
        next
    }

    /// Appends the message itself, where no template is wanted. The text
    /// is literal: rendering does not look into it.
    pub fn message_text(self, message: &str) -> (next: StyleBuilder)
        ensures
            next@ == self@ + text(message@),
    {
        self.put(message)
    }

    /// Ends the construction and hands out the style.
    pub fn build(self) -> (style: Style)
        ensures
            style@ == self@,
    {
        Style { done: self.done, tail: self.tail }
    }
}

/// A finished template.
pub struct Style {
    /// The segments that a slot has closed, oldest first.
    done: Vec<String>,
    /// The literal text after the last slot.
    tail: String,
}

impl View for Style {
    type V = Seq<Piece>;

    /// The template of the style.
    closed spec fn view(&self) -> Seq<Piece> {
        closed_segments(self.done@) + text(self.tail@)
    }
}

impl Style {
    /// The text of the style with `message` in each of its slots.
    pub fn render(&self, message: &str) -> (out: String)
        ensures
            out@ == expand(self@, message@),
    {
        let mut out = String::new();
        let n = self.done.len();
        let mut i: usize = 0;
        proof {
            assert(self.done@.take(0) =~= Seq::<String>::empty());
            assert(expand(closed_segments(self.done@.take(0)), message@) =~= Seq::<char>::empty());
        }
        while i < n
            invariant
                n == self.done@.len(),
                i <= n,
                out@ == expand(closed_segments(self.done@.take(i as int)), message@),
            decreases n - i,
        {
            let ghost before = self.done@.take(i as int);
            let ghost segment = self.done@[i as int]@;
            out.append(self.done[i].as_str());
            out.append(message);
            proof {
                let now = self.done@.take(i + 1);
                assert(now.drop_last() =~= before);
                assert(now.last() == self.done@[i as int]);
                assert(text(segment).push(Piece::Slot) =~= text(segment) + seq![Piece::Slot]);
                lemma_expand_concat(closed_segments(before), text(segment).push(Piece::Slot), message@);
                lemma_expand_concat(text(segment), seq![Piece::Slot], message@);
                lemma_expand_text(segment, message@);
                lemma_expand_slot(message@);
                assert(out@ =~= expand(closed_segments(now), message@));
            }
            i = i + 1;
        }
        out.append(self.tail.as_str());
        proof {
            assert(self.done@.take(n as int) =~= self.done@);
            lemma_expand_concat(closed_segments(self.done@), text(self.tail@), message@);
            lemma_expand_text(self.tail@, message@);
        }
        out
    }

    /// The text of the style as it was put together, with the placeholder
    /// token `${}` standing in each slot. For a style without a slot this
    /// is the finished sequence.
    pub fn raw(&self) -> (out: String)
        ensures
            out@ == expand(self@, placeholder_token()),
    {
        proof {
            reveal_strlit("${}");
            assert("${}"@ =~= placeholder_token());
        }
        self.render("${}")
    }
}

} // verus!
