//! Decimal rendering of unsigned numbers, zero-padded fields, and facts about
//! which characters such fragments can contain.

use vstd::prelude::*;

verus! {

/// The ASCII escape character that starts every ANSI control sequence.
pub open spec fn esc_char() -> char {
    '\u{1b}'
}

/// Whether a sequence of characters is free of the ANSI escape character.
pub open spec fn no_esc(s: Seq<char>) -> bool {
    forall|i: int| 0 <= i < s.len() ==> s[i] != esc_char()
}

/// A concatenation is escape-free exactly when both parts are.
pub proof fn lemma_no_esc_concat(a: Seq<char>, b: Seq<char>)
    ensures
        no_esc(a + b) <==> (no_esc(a) && no_esc(b)),
{
    if no_esc(a + b) {
        assert forall|i: int| 0 <= i < a.len() implies a[i] != esc_char() by {
            assert((a + b)[i] == a[i]);
        }
        assert forall|i: int| 0 <= i < b.len() implies b[i] != esc_char() by {
            assert((a + b)[a.len() + i] == b[i]);
        }
    }
    if no_esc(a) && no_esc(b) {
        assert forall|i: int| 0 <= i < (a + b).len() implies (a + b)[i] != esc_char() by {
            if i < a.len() {
                assert((a + b)[i] == a[i]);
            } else {
                assert((a + b)[i] == b[i - a.len()]);
            }
        }
    }
}

/// The decimal digit character for a value; values ten and above never arise.
pub open spec fn spec_digit(d: int) -> char {
    if d == 0 {
        '0'
    } else if d == 1 {
        '1'
    } else if d == 2 {
        '2'
    } else if d == 3 {
        '3'
    } else if d == 4 {
        '4'
    } else if d == 5 {
        '5'
    } else if d == 6 {
        '6'
    } else if d == 7 {
        '7'
    } else if d == 8 {
        '8'
    } else {
        '9'
    }
}

/// The single decimal digit for `d`, as a string slice.
fn digit_str(d: u8) -> (r: &'static str)
    requires
        d < 10,
    ensures
        r@ =~= seq![spec_digit(d as int)],
{
    proof {
        reveal_strlit("0");
        reveal_strlit("1");
        reveal_strlit("2");
        reveal_strlit("3");
        reveal_strlit("4");
        reveal_strlit("5");
        reveal_strlit("6");
        reveal_strlit("7");
        reveal_strlit("8");
        reveal_strlit("9");
    }
    match d {
        0 => "0",
        1 => "1",
        2 => "2",
        3 => "3",
        4 => "4",
        5 => "5",
        6 => "6",
        7 => "7",
        8 => "8",
        _ => "9",
    }
}

/// A number below one hundred, zero-padded to exactly two digits.
pub open spec fn spec_pad2(n: int) -> Seq<char> {
    seq![spec_digit(n / 10), spec_digit(n % 10)]
}

/// A number below ten thousand, zero-padded to exactly four digits.
pub open spec fn spec_pad4(n: int) -> Seq<char> {
    seq![
        spec_digit(n / 1000),
        spec_digit((n / 100) % 10),
        spec_digit((n / 10) % 10),
        spec_digit(n % 10),
    ]
}

/// The decimal rendering of a natural number, most significant digit first,
/// with no leading zeros (a lone zero renders as one digit).
pub open spec fn spec_dec(n: nat) -> Seq<char>
    decreases n,
{
    if n < 10 {
        seq![spec_digit(n as int)]
    } else {
        spec_dec(n / 10).push(spec_digit((n % 10) as int))
    }
}

/// A decimal rendering always has at least one character and is escape-free.
pub proof fn lemma_dec_digits(n: nat)
    ensures
        spec_dec(n).len() >= 1,
        no_esc(spec_dec(n)),
    decreases n,
{
    if n >= 10 {
        lemma_dec_digits(n / 10);
    }
}

/// A two-digit padded field is escape-free.
pub proof fn lemma_pad2_no_esc(n: int)
    ensures
        no_esc(spec_pad2(n)),
{
}

/// A four-digit padded field is escape-free.
pub proof fn lemma_pad4_no_esc(n: int)
    ensures
        no_esc(spec_pad4(n)),
{
}

/// Render `n` zero-padded to two digits.
pub fn pad2(n: u32) -> (r: String)
    requires
        n < 100,
    ensures
        r@ =~= spec_pad2(n as int),
{
    let hi = digit_str((n / 10) as u8);
    let lo = digit_str((n % 10) as u8);
    String::from_str(hi).concat(lo)
}

/// Render `n` zero-padded to four digits.
pub fn pad4(n: u32) -> (r: String)
    requires
        n < 10000,
    ensures
        r@ =~= spec_pad4(n as int),
{
    let mut s = String::from_str(digit_str((n / 1000) as u8));
    s.append(digit_str(((n / 100) % 10) as u8));
    s.append(digit_str(((n / 10) % 10) as u8));
    s.append(digit_str((n % 10) as u8));
    s
}

/// Render `n` in decimal with no leading zeros.
pub fn dec_u32(n: u32) -> (r: String)
    ensures
        r@ =~= spec_dec(n as nat),
    decreases n,
{
    if n < 10 {
        String::from_str(digit_str(n as u8))
    } else {
        let prefix = dec_u32(n / 10);
        prefix.concat(digit_str((n % 10) as u8))
    }
}

} // verus!
