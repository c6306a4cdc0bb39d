//! Escape sequences for the terminal.
//!
//! Only "Set Graphics Mode" (SGR) is implemented: `ESC [ c0 ; c1 ; ... m`.

use crate::consts::OP_RESET;
use vstd::prelude::*;

verus! {

/// The character of a decimal digit `d` (`d < 10`).
pub open spec fn digit_char(d: nat) -> char {
    seq!['0', '1', '2', '3', '4', '5', '6', '7', '8', '9'][d as int]
}

/// The base-10 form of `n`, with no leading zeros.
pub open spec fn decimal(n: nat) -> Seq<char>
    decreases n,
{
    if n < 10 {
        seq![digit_char(n)]
    } else {
        decimal(n / 10).push(digit_char(n % 10))
    }
}

/// The codes in decimal, in the order given, separated by `;`.
pub open spec fn join_codes(codes: Seq<u8>) -> Seq<char>
    decreases codes.len(),
{
    if codes.len() == 0 {
        seq![]
    } else if codes.len() == 1 {
        decimal(codes[0] as nat)
    } else {
        join_codes(codes.drop_last()) + seq![';'] + decimal(codes.last() as nat)
    }
}

/// The "Set Graphics Mode" sequence of the codes: `ESC [`, the joined codes, `m`.
pub open spec fn sgr(codes: Seq<u8>) -> Seq<char> {
    seq!['\x1b', '['] + join_codes(codes) + seq!['m']
}

fn digit_str(d: u8) -> (r: &'static str)
    requires
        d < 10,
    ensures
        r@ == seq![digit_char(d as nat)],
{
    proof {
        reveal_strlit("0");
        reveal_strlit("1");
        reveal_strlit("2");
        reveal_strlit("3");
        reveal_strlit("4");
        reveal_strlit("5");
        reveal_strlit("6");
        reveal_strlit("7");
        reveal_strlit("8");
        reveal_strlit("9");
    }
    match d {
        0 => "0",
        1 => "1",
        2 => "2",
        3 => "3",
        4 => "4",
        5 => "5",
        6 => "6",
        7 => "7",
        8 => "8",
        _ => "9",
    }
}

fn push_decimal(s: &mut String, n: u8)
    ensures
        final(s)@ == old(s)@ + decimal(n as nat),
{
    let ghost start = s@;
    proof {
        reveal_with_fuel(decimal, 3);
    }
    if n >= 100 {
        s.append(digit_str(n / 100));
    }
    if n >= 10 {
        s.append(digit_str((n / 10) % 10));
    }
    s.append(digit_str(n % 10));
    assert(n >= 100 ==> (n / 10) / 10 == n / 100);
    assert(s@ =~= start + decimal(n as nat));
}

/// Renders the "Set Graphics Mode" sequence of `codes`.
///
/// The codes are written in decimal and in the order given, separated by
/// `;`, between `ESC [` and `m`; no code is dropped, merged or checked. An
/// empty list gives `ESC [ m`.
pub fn render(codes: &[u8]) -> (r: String)
    ensures
        r@ == sgr(codes@),
{
    proof {
        reveal_strlit("\x1b[");
        reveal_strlit("m");
    }
    assert("\x1b["@ =~= seq!['\x1b', '[']);
    let mut s = String::from_str("\x1b[");
    if codes.len() > 0 {
        push_decimal(&mut s, codes[0]);
        assert(codes@.subrange(0, 1).len() == 1);
        let mut i: usize = 1;
        while i < codes.len()
            invariant
                1 <= i <= codes.len(),
                s@ == seq!['\x1b', '['] + join_codes(codes@.subrange(0, i as int)),
            decreases codes.len() - i,
        {
            proof {
                reveal_strlit(";");
            }
            assert(";"@ =~= seq![';']);
            s.append(";");
            push_decimal(&mut s, codes[i]);
            let ghost next = codes@.subrange(0, i + 1);
            assert(next.last() == codes@[i as int]);
            assert(next.drop_last() =~= codes@.subrange(0, i as int));
            assert(join_codes(next) == join_codes(next.drop_last()) + seq![';'] + decimal(
                next.last() as nat,
            ));
            assert(s@ =~= seq!['\x1b', '['] + join_codes(next));
            i += 1;
        }
        assert(codes@.subrange(0, codes.len() as int) =~= codes@);
    }
    s.append("m");
    assert("m"@ =~= seq!['m']);
    assert(s@ =~= sgr(codes@));
    s
}

/// An escape sequence for the terminal.
pub enum EscapeSequence {
    /// Change the foreground, background and attributes of terminal text
    /// using the given values.
    SetGraphicsMode(Vec<u8>),
}

impl EscapeSequence {
    /// The codes that the sequence carries.
    pub open spec fn codes(&self) -> Seq<u8> {
        match self {
            EscapeSequence::SetGraphicsMode(v) => v@,
        }
    }

    /// The text of the escape sequence.
    pub fn to_string(&self) -> (r: String)
        ensures
            r@ == sgr(self.codes()),
    {
        match self {
            EscapeSequence::SetGraphicsMode(v) => render(v.as_slice()),
        }
    }
}

/// The sequence that resets the graphics mode: it carries the one code
/// `OP_RESET`.
pub fn reset() -> (r: EscapeSequence)
    ensures
        r.codes() == seq![OP_RESET],
{
    EscapeSequence::SetGraphicsMode(vec![OP_RESET])
}

/// The reset sequence is `ESC [ 0 m`, whatever else holds.
pub proof fn lemma_reset_text()
    ensures
        sgr(seq![OP_RESET]) == seq!['\x1b', '[', '0', 'm'],
{
    reveal_with_fuel(decimal, 1);
    assert(sgr(seq![OP_RESET]) =~= seq!['\x1b', '[', '0', 'm']);
}

} // verus!
