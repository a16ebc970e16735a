//! Numbers as decimal text, for names and connection strings.

use vstd::prelude::*;
use vstd::string::{StrSliceExecFns, StringExecFns};

verus! {

/// The character of a decimal digit.
pub open spec fn digit_char(d: int) -> char {
    if d == 0 {
        '0'
    } else if d == 1 {
        '1'
    } else if d == 2 {
        '2'
    } else if d == 3 {
        '3'
    } else if d == 4 {
        '4'
    } else if d == 5 {
        '5'
    } else if d == 6 {
        '6'
    } else if d == 7 {
        '7'
    } else if d == 8 {
        '8'
    } else {
        '9'
    }
}

/// A number in decimal, without sign and without leading zeros.
pub open spec fn decimal(n: nat) -> Seq<char>
    decreases n,
{
    if n < 10 {
        seq![digit_char(n as int)]
    } else {
        decimal(n / 10).push(digit_char((n % 10) as int))
    }
}

/// Digits that were collected least significant first, as text.
spec fn digits_text(digits: Seq<u8>) -> Seq<char> {
    Seq::new(digits.len(), |k: int| digit_char(digits[digits.len() - 1 - k] as int))
}

/// The text of one digit.
fn digit_str(d: u8) -> (s: &'static str)
    requires
        d < 10,
    ensures
        s@ == seq![digit_char(d as int)],
{
    proof {
        reveal_strlit("0");
        reveal_strlit("1");
        reveal_strlit("2");
        reveal_strlit("3");
        reveal_strlit("4");
        reveal_strlit("5");
        reveal_strlit("6");
        reveal_strlit("7");
        reveal_strlit("8");
        reveal_strlit("9");
    }
    let s = if d == 0 {
        "0"
    } else if d == 1 {
        "1"
    } else if d == 2 {
        "2"
    } else if d == 3 {
        "3"
    } else if d == 4 {
        "4"
    } else if d == 5 {
        "5"
    } else if d == 6 {
        "6"
    } else if d == 7 {
        "7"
    } else if d == 8 {
        "8"
    } else {
        "9"
    };
    assert(s@ =~= seq![digit_char(d as int)]);
    s
}

/// Writes `n` in decimal.
pub fn decimal_string(n: u64) -> (r: String)
    ensures
        r@ == decimal(n as nat),
{
    let mut digits: Vec<u8> = Vec::new();
    digits.push((n % 10) as u8);
    let mut m: u64 = n / 10;
    assert(digits_text(digits@) =~= seq![digit_char((n % 10) as int)]);
    assert(Seq::<char>::empty() + digits_text(digits@) =~= digits_text(digits@));
    while m > 0
        invariant
            digits@.len() > 0,
            forall|k: int| 0 <= k < digits@.len() ==> digits@[k] < 10,
            decimal(n as nat) == (if m == 0 {
                Seq::<char>::empty()
            } else {
                decimal(m as nat)
            }) + digits_text(digits@),
        decreases m,
    {
        let ghost before = digits@;
        let d = (m % 10) as u8;
        digits.push(d);
        assert(digits_text(digits@) =~= seq![digit_char(d as int)] + digits_text(before));
        proof {
            let lead = if m / 10 == 0 {
                Seq::<char>::empty()
            } else {
                decimal((m / 10) as nat)
            };
            assert(decimal(m as nat) =~= lead + seq![digit_char(d as int)]);
            assert((lead + seq![digit_char(d as int)]) + digits_text(before) =~= lead + (seq![
                digit_char(d as int),
            ] + digits_text(before)));
        }
        m = m / 10;
    }
    assert(decimal(n as nat) =~= digits_text(digits@));
    let mut out = String::new();
    let mut i: usize = digits.len();
    while i > 0
        invariant
            i <= digits@.len(),
            forall|k: int| 0 <= k < digits@.len() ==> digits@[k] < 10,
            out@ == digits_text(digits@).subrange(0, digits@.len() - i),
        decreases i,
    {
        i = i - 1;
        out.append(digit_str(digits[i]));
        assert(out@ =~= digits_text(digits@).subrange(0, digits@.len() - i));
    }
    assert(out@ =~= digits_text(digits@));
    out
}

/// The value of a decimal digit, for a character that is one.
pub open spec fn digit_value(c: char) -> Option<nat> {
    if c == '0' {
        Some(0)
    } else if c == '1' {
        Some(1)
    } else if c == '2' {
        Some(2)
    } else if c == '3' {
        Some(3)
    } else if c == '4' {
        Some(4)
    } else if c == '5' {
        Some(5)
    } else if c == '6' {
        Some(6)
    } else if c == '7' {
        Some(7)
    } else if c == '8' {
        Some(8)
    } else if c == '9' {
        Some(9)
    } else {
        None
    }
}

/// Whether every character is a decimal digit.
pub open spec fn all_digits(s: Seq<char>) -> bool {
    forall|i: int| 0 <= i < s.len() ==> (#[trigger] digit_value(s[i])) is Some
}

/// The number that a string of decimal digits spells.
pub open spec fn number(s: Seq<char>) -> nat
    decreases s.len(),
{
    if s.len() == 0 {
        0
    } else {
        number(s.drop_last()) * 10 + digit_value(s.last()).unwrap()
    }
}

/// The 16-bit number that `s` spells: `s` is one or more decimal digits,
/// and their value fits.
pub open spec fn u16_of(s: Seq<char>) -> Option<u16> {
    if s.len() > 0 && all_digits(s) && number(s) <= 0xffff {
        Some(number(s) as u16)
    } else {
        None
    }
}

/// A prefix of a string of digits spells no more than the string.
proof fn lemma_number_grows(s: Seq<char>, k: int)
    requires
        all_digits(s),
        0 <= k <= s.len(),
    ensures
        number(s.take(k)) <= number(s),
    decreases s.len() - k,
{
    if k == s.len() {
        assert(s.take(k) =~= s);
    } else {
        lemma_number_grows(s, k + 1);
        assert(s.take(k + 1).drop_last() =~= s.take(k));
        assert(digit_value(s[k]) is Some);
    }
}

/// The value of a decimal digit.
fn digit_of(c: char) -> (r: Option<u32>)
    ensures
        match r {
            Some(d) => digit_value(c) == Some(d as nat) && d < 10,
            None => digit_value(c) is None,
        },
{
    if c == '0' {
        Some(0)
    } else if c == '1' {
        Some(1)
    } else if c == '2' {
        Some(2)
    } else if c == '3' {
        Some(3)
    } else if c == '4' {
        Some(4)
    } else if c == '5' {
        Some(5)
    } else if c == '6' {
        Some(6)
    } else if c == '7' {
        Some(7)
    } else if c == '8' {
        Some(8)
    } else if c == '9' {
        Some(9)
    } else {
        None
    }
}

/// Reads a 16-bit number written in decimal digits.
pub fn parse_u16(s: &str) -> (r: Option<u16>)
    ensures
        r == u16_of(s@),
{
    let n = s.unicode_len();
    if n == 0 {
        return None;
    }
    let mut acc: u32 = 0;
    let mut i: usize = 0;
    assert(s@.take(0) =~= Seq::<char>::empty());
    while i < n
        invariant
            i <= n,
            n == s@.len(),
            all_digits(s@.take(i as int)),
            acc == number(s@.take(i as int)),
            acc <= 0xffff,
        decreases n - i,
    {
        let ghost grown = s@.take(i + 1);
        assert(grown.drop_last() =~= s@.take(i as int));
        assert(grown.last() == s@[i as int]);
        match digit_of(s.get_char(i)) {
            None => {
                return None;
            },
            Some(d) => {
                let next: u32 = acc * 10 + d;
                assert(all_digits(grown)) by {
                    assert forall|k: int| 0 <= k < grown.len() implies (#[trigger] digit_value(
                        grown[k],
                    )) is Some by {
                        if k < i {
                            assert(grown[k] == s@.take(i as int)[k]);
                        }
                    }
                }
                if next > 0xffff {
                    proof {
                        if all_digits(s@) {
                            lemma_number_grows(s@, i + 1);
                        }
                    }
                    return None;
                }
                acc = next;
            },
        }
        i = i + 1;
    }
    assert(s@.take(n as int) =~= s@);
    Some(acc as u16)
}

/// The decimal text of a number spells that number, in digits alone.
pub proof fn lemma_decimal_is_read_back(n: nat)
    ensures
        decimal(n).len() > 0,
        all_digits(decimal(n)),
        number(decimal(n)) == n,
    decreases n,
{
    let text = decimal(n);
    if n < 10 {
        assert(text.drop_last() =~= Seq::<char>::empty());
        assert(number(text.drop_last()) == 0);
        assert(text.last() == digit_char(n as int));
        assert(digit_value(digit_char(n as int)) == Some(n));
        assert(number(text) == number(text.drop_last()) * 10 + n);
    } else {
        lemma_decimal_is_read_back(n / 10);
        let d = (n % 10) as int;
        assert(text.drop_last() =~= decimal(n / 10));
        assert(text.last() == digit_char(d));
        assert(digit_value(digit_char(d)) == Some(d as nat));
        assert(number(text) == number(text.drop_last()) * 10 + d);
        assert forall|i: int| 0 <= i < text.len() implies (#[trigger] digit_value(text[i]))
            is Some by {
            if i < text.len() - 1 {
                assert(text[i] == decimal(n / 10)[i]);
            }
        }
    }
}

/// A port number written by `decimal_string` is read back by `parse_u16`.
pub proof fn lemma_port_is_read_back(port: u16)
    ensures
        u16_of(decimal(port as nat)) == Some(port),
{
    lemma_decimal_is_read_back(port as nat);
}

} // verus!
