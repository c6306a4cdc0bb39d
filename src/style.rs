//! Apply a style to terminal text using the "Set Graphics Mode" escape
//! sequence.

use crate::consts::{OP_RESET, OP_BOLD, OP_FAINT, OP_ITALIC, OP_UNDERLINE, OP_SLOW_BLINK, OP_FAST_BLINK, OP_REVERSE, OP_CONCEAL, OP_STRIKETHROUGH, FG_BLACK, FG_RED, FG_GREEN, FG_YELLOW, FG_BLUE, FG_MAGENTA, FG_CYAN, FG_WHITE, FG_GRAY, FG_BRIGHT_RED, FG_BRIGHT_GREEN, FG_BRIGHT_YELLOW, FG_BRIGHT_BLUE, FG_BRIGHT_MAGENTA, FG_BRIGHT_CYAN, FG_BRIGHT_WHITE, BG_BLACK, BG_RED, BG_GREEN, BG_YELLOW, BG_BLUE, BG_MAGENTA, BG_CYAN, BG_WHITE, BG_GRAY, BG_BRIGHT_RED, BG_BRIGHT_GREEN, BG_BRIGHT_YELLOW, BG_BRIGHT_BLUE, BG_BRIGHT_MAGENTA, BG_BRIGHT_CYAN, BG_BRIGHT_WHITE};
use crate::escape_sequence::{render, reset, sgr};
use vstd::prelude::*;

verus! {

/// What a `Style` holds: its text and the codes requested so far, in the
/// order of the requests.
pub ghost struct StyleView {
    pub text: Seq<char>,
    pub codes: Seq<u8>,
}

impl StyleView {
    /// The same style with `code` requested once more, after the others.
    pub open spec fn with_code(self, code: u8) -> StyleView {
        StyleView { text: self.text, codes: self.codes.push(code) }
    }

    /// The styled text: the sequence of the codes, the text, then the reset
    /// sequence.
    pub open spec fn rendered(self) -> Seq<char> {
        sgr(self.codes) + self.text + sgr(seq![OP_RESET])
    }
}

/// Requesting two codes one after the other appends exactly those two codes,
/// in that order, and leaves the text as it was: nothing earlier is replaced
/// or reordered.
pub proof fn lemma_requests_chain(s: StyleView, first: u8, second: u8)
    ensures
        s.with_code(first).with_code(second).codes == s.codes + seq![first, second],
        s.with_code(first).with_code(second).text == s.text,
{
    assert(s.with_code(first).with_code(second).codes =~= s.codes + seq![first, second]);
}

/// Requesting the same code twice appends it twice: each request adds exactly
/// one code, and equal codes are not merged.
pub proof fn lemma_repeated_request(s: StyleView, code: u8)
    ensures
        s.with_code(code).codes.len() == s.codes.len() + 1,
        s.with_code(code).with_code(code).codes.len() == s.codes.len() + 2,
        s.with_code(code).with_code(code).codes == s.codes + seq![code, code],
{
    lemma_requests_chain(s, code, code);
}

/// A stylized text that can be output to a terminal.
pub struct Style {
    text: String,
    values: Vec<u8>,
}

impl View for Style {
    type V = StyleView;

    closed spec fn view(&self) -> StyleView {
        StyleView { text: self.text@, codes: self.values@ }
    }
}

impl Style {
    /// Create a new style whose text is the given text and which requests no
    /// code yet.
    pub fn new(text: String) -> (r: Self)
        ensures
            r@.text == text@,
            r@.codes == Seq::<u8>::empty(),
    {
        Self { text: text, values: Vec::new() }
    }

    /// Apply a bold value to the escape sequence.
    pub fn bold(&mut self) -> (r: &mut Self)
        ensures
            r@ == old(self)@.with_code(OP_BOLD),
            *final(self) == *final(r),
    {
        self.values.push(OP_BOLD);
        self
    }

    /// Apply a faint value to the escape sequence.
    pub fn faint(&mut self) -> (r: &mut Self)
        ensures
            r@ == old(self)@.with_code(OP_FAINT),
            *final(self) == *final(r),
    {
        self.values.push(OP_FAINT);
        self
    }

    /// Apply an italic value to the escape sequence.
    pub fn italic(&mut self) -> (r: &mut Self)
        ensures
            r@ == old(self)@.with_code(OP_ITALIC),
            *final(self) == *final(r),
    {
        self.values.push(OP_ITALIC);
        self
    }

    /// Apply a underline value to the escape sequence.
    pub fn underline(&mut self) -> (r: &mut Self)
        ensures
            r@ == old(self)@.with_code(OP_UNDERLINE),
            *final(self) == *final(r),
    {
        self.values.push(OP_UNDERLINE);
        self
    }

    /// Apply a slow blink value to the escape sequence.
    pub fn slow_blink(&mut self) -> (r: &mut Self)
        ensures
            r@ == old(self)@.with_code(OP_SLOW_BLINK),
            *final(self) == *final(r),
    {
        self.values.push(OP_SLOW_BLINK);
        self
    }

    /// Apply a fast blink value to the escape sequence.
    pub fn fast_blink(&mut self) -> (r: &mut Self)
        ensures
            r@ == old(self)@.with_code(OP_FAST_BLINK),
            *final(self) == *final(r),
    {
        self.values.push(OP_FAST_BLINK);
        self
    }

    /// Apply a reverse value to the escape sequence.
    pub fn reverse(&mut self) -> (r: &mut Self)
        ensures
            r@ == old(self)@.with_code(OP_REVERSE),
            *final(self) == *final(r),
    {
        self.values.push(OP_REVERSE);
        self
    }

    /// Apply a conceal value to the escape sequence.
    pub fn conceal(&mut self) -> (r: &mut Self)
        ensures
            r@ == old(self)@.with_code(OP_CONCEAL),
            *final(self) == *final(r),
    {
        self.values.push(OP_CONCEAL);
        self
    }

    /// Apply a strikethrough value to the escape sequence.
    pub fn strikethrough(&mut self) -> (r: &mut Self)
        ensures
            r@ == old(self)@.with_code(OP_STRIKETHROUGH),
            *final(self) == *final(r),
    {
        self.values.push(OP_STRIKETHROUGH);
        self
    }

    /// Apply the foreground color black value to the escape sequence.
    pub fn black(&mut self) -> (r: &mut Self)
        ensures
            r@ == old(self)@.with_code(FG_BLACK),
            *final(self) == *final(r),
    {
        self.values.push(FG_BLACK);
        self
    }

    /// Apply the foreground color red value to the escape sequence.
    pub fn red(&mut self) -> (r: &mut Self)
        ensures
            r@ == old(self)@.with_code(FG_RED),
            *final(self) == *final(r),
    {
        self.values.push(FG_RED);
        self
    }

    /// Apply the foreground color green value to the escape sequence.
    pub fn green(&mut self) -> (r: &mut Self)
        ensures
            r@ == old(self)@.with_code(FG_GREEN),
            *final(self) == *final(r),
    {
        self.values.push(FG_GREEN);
        self
    }

    /// Apply the foreground color yellow value to the escape sequence.
    pub fn yellow(&mut self) -> (r: &mut Self)
        ensures
            r@ == old(self)@.with_code(FG_YELLOW),
            *final(self) == *final(r),
    {
        self.values.push(FG_YELLOW);
        self
    }

    /// Apply the foreground color blue value to the escape sequence.
    pub fn blue(&mut self) -> (r: &mut Self)
        ensures
            r@ == old(self)@.with_code(FG_BLUE),
            *final(self) == *final(r),
    {
        self.values.push(FG_BLUE);
        self
    }

    /// Apply the foreground color magenta value to the escape sequence.
    pub fn magenta(&mut self) -> (r: &mut Self)
        ensures
            r@ == old(self)@.with_code(FG_MAGENTA),
            *final(self) == *final(r),
    {
        self.values.push(FG_MAGENTA);
        self
    }

    /// Apply the foreground color cyan value to the escape sequence.
    pub fn cyan(&mut self) -> (r: &mut Self)
        ensures
            r@ == old(self)@.with_code(FG_CYAN),
            *final(self) == *final(r),
    {
        self.values.push(FG_CYAN);
        self
    }

    /// Apply the foreground color white value to the escape sequence.
    pub fn white(&mut self) -> (r: &mut Self)
        ensures
            r@ == old(self)@.with_code(FG_WHITE),
            *final(self) == *final(r),
    {
        self.values.push(FG_WHITE);
        self
    }

    /// Apply the foreground color gray value to the escape sequence.
    pub fn gray(&mut self) -> (r: &mut Self)
        ensures
            r@ == old(self)@.with_code(FG_GRAY),
            *final(self) == *final(r),
    {
        self.values.push(FG_GRAY);
        self
    }

    /// Apply the foreground color bright red value to the escape sequence.
    pub fn bright_red(&mut self) -> (r: &mut Self)
        ensures
            r@ == old(self)@.with_code(FG_BRIGHT_RED),
            *final(self) == *final(r),
    {
        self.values.push(FG_BRIGHT_RED);
        self
    }

    /// Apply the foreground color bright green value to the escape sequence.
    pub fn bright_green(&mut self) -> (r: &mut Self)
        ensures
            r@ == old(self)@.with_code(FG_BRIGHT_GREEN),
            *final(self) == *final(r),
    {
        self.values.push(FG_BRIGHT_GREEN);
        self
    }

    /// Apply the foreground color bright yellow value to the escape sequence.
    pub fn bright_yellow(&mut self) -> (r: &mut Self)
        ensures
            r@ == old(self)@.with_code(FG_BRIGHT_YELLOW),
            *final(self) == *final(r),
    {
        self.values.push(FG_BRIGHT_YELLOW);
        self
    }

    /// Apply the foreground color bright blue value to the escape sequence.
    pub fn bright_blue(&mut self) -> (r: &mut Self)
        ensures
            r@ == old(self)@.with_code(FG_BRIGHT_BLUE),
            *final(self) == *final(r),
    {
        self.values.push(FG_BRIGHT_BLUE);
        self
    }

    /// Apply the foreground color bright magenta value to the escape sequence.
    pub fn bright_magenta(&mut self) -> (r: &mut Self)
        ensures
            r@ == old(self)@.with_code(FG_BRIGHT_MAGENTA),
            *final(self) == *final(r),
    {
        self.values.push(FG_BRIGHT_MAGENTA);
        self
    }

    /// Apply the foreground color bright cyan value to the escape sequence.
    pub fn bright_cyan(&mut self) -> (r: &mut Self)
        ensures
            r@ == old(self)@.with_code(FG_BRIGHT_CYAN),
            *final(self) == *final(r),
    {
        self.values.push(FG_BRIGHT_CYAN);
        self
    }

    /// Apply the foreground color bright white value to the escape sequence.
    pub fn bright_white(&mut self) -> (r: &mut Self)
        ensures
            r@ == old(self)@.with_code(FG_BRIGHT_WHITE),
            *final(self) == *final(r),
    {
        self.values.push(FG_BRIGHT_WHITE);
        self
    }

    /// Apply the background color black value to the escape sequence.
    pub fn bg_black(&mut self) -> (r: &mut Self)
        ensures
            r@ == old(self)@.with_code(BG_BLACK),
            *final(self) == *final(r),
    {
        self.values.push(BG_BLACK);
        self
    }

    /// Apply the background color red value to the escape sequence.
    pub fn bg_red(&mut self) -> (r: &mut Self)
        ensures
            r@ == old(self)@.with_code(BG_RED),
            *final(self) == *final(r),
    {
        self.values.push(BG_RED);
        self
    }

    /// Apply the background color green value to the escape sequence.
    pub fn bg_green(&mut self) -> (r: &mut Self)
        ensures
            r@ == old(self)@.with_code(BG_GREEN),
            *final(self) == *final(r),
    {
        self.values.push(BG_GREEN);
        self
    }

    /// Apply the background color yellow value to the escape sequence.
    pub fn bg_yellow(&mut self) -> (r: &mut Self)
        ensures
            r@ == old(self)@.with_code(BG_YELLOW),
            *final(self) == *final(r),
    {
        self.values.push(BG_YELLOW);
        self
    }

    /// Apply the background color blue value to the escape sequence.
    pub fn bg_blue(&mut self) -> (r: &mut Self)
        ensures
            r@ == old(self)@.with_code(BG_BLUE),
            *final(self) == *final(r),
    {
        self.values.push(BG_BLUE);
        self
    }

    /// Apply the background color magenta value to the escape sequence.
    pub fn bg_magenta(&mut self) -> (r: &mut Self)
        ensures
            r@ == old(self)@.with_code(BG_MAGENTA),
            *final(self) == *final(r),
    {
        self.values.push(BG_MAGENTA);
        self
    }

    /// Apply the background color cyan value to the escape sequence.
    pub fn bg_cyan(&mut self) -> (r: &mut Self)
        ensures
            r@ == old(self)@.with_code(BG_CYAN),
            *final(self) == *final(r),
    {
        self.values.push(BG_CYAN);
        self
    }

    /// Apply the background color white value to the escape sequence.
    pub fn bg_white(&mut self) -> (r: &mut Self)
        ensures
            r@ == old(self)@.with_code(BG_WHITE),
            *final(self) == *final(r),
    {
        self.values.push(BG_WHITE);
        self
    }

    /// Apply the background color gray value to the escape sequence.
    pub fn bg_gray(&mut self) -> (r: &mut Self)
        ensures
            r@ == old(self)@.with_code(BG_GRAY),
            *final(self) == *final(r),
    {
        self.values.push(BG_GRAY);
        self
    }

    /// Apply the background color bright red value to the escape sequence.
    pub fn bg_bright_red(&mut self) -> (r: &mut Self)
        ensures
            r@ == old(self)@.with_code(BG_BRIGHT_RED),
            *final(self) == *final(r),
    {
        self.values.push(BG_BRIGHT_RED);
        self
    }

    /// Apply the background color bright green value to the escape sequence.
    pub fn bg_bright_green(&mut self) -> (r: &mut Self)
        ensures
            r@ == old(self)@.with_code(BG_BRIGHT_GREEN),
            *final(self) == *final(r),
    {
        self.values.push(BG_BRIGHT_GREEN);
        self
    }

    /// Apply the background color bright yellow value to the escape sequence.
    pub fn bg_bright_yellow(&mut self) -> (r: &mut Self)
        ensures
            r@ == old(self)@.with_code(BG_BRIGHT_YELLOW),
            *final(self) == *final(r),
    {
        self.values.push(BG_BRIGHT_YELLOW);
        self
    }

    /// Apply the background color bright blue value to the escape sequence.
    pub fn bg_bright_blue(&mut self) -> (r: &mut Self)
        ensures
            r@ == old(self)@.with_code(BG_BRIGHT_BLUE),
            *final(self) == *final(r),
    {
        self.values.push(BG_BRIGHT_BLUE);
        self
    }

    /// Apply the background color bright magenta value to the escape sequence.
    pub fn bg_bright_magenta(&mut self) -> (r: &mut Self)
        ensures
            r@ == old(self)@.with_code(BG_BRIGHT_MAGENTA),
            *final(self) == *final(r),
    {
        self.values.push(BG_BRIGHT_MAGENTA);
        self
    }

    /// Apply the background color bright cyan value to the escape sequence.
    pub fn bg_bright_cyan(&mut self) -> (r: &mut Self)
        ensures
            r@ == old(self)@.with_code(BG_BRIGHT_CYAN),
            *final(self) == *final(r),
    {
        self.values.push(BG_BRIGHT_CYAN);
        self
    }

    /// Apply the background color bright white value to the escape sequence.
    pub fn bg_bright_white(&mut self) -> (r: &mut Self)
        ensures
            r@ == old(self)@.with_code(BG_BRIGHT_WHITE),
            *final(self) == *final(r),
    {
        self.values.push(BG_BRIGHT_WHITE);
        self
    }

    /// The text of the style.
    pub fn text(&self) -> (r: &str)
        ensures
            r@ == self@.text,
    {
        self.text.as_str()
    }

    /// The codes requested so far, in the order of the requests.
    pub fn values(&self) -> (r: &[u8])
        ensures
            r@ == self@.codes,
    {
        self.values.as_slice()
    }

    /// The styled text: the "Set Graphics Mode" sequence of the requested
    /// codes, the text unchanged, then the reset sequence. The style itself is
    /// left as it was.
    pub fn to_string(&self) -> (r: String)
        ensures
            r@ == self@.rendered(),
    {
        let mut s = render(self.values.as_slice());
        s.append(self.text.as_str());
        let tail = reset().to_string();
        s.append(tail.as_str());
        s
    }
}

} // verus!
