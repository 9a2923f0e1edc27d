//! Decimal strings: rendering a millisecond count and parsing a port number.
//!
//! `spec_decimal` is the mathematical decimal representation of a natural
//! number, and `spec_decimal_value` reads such a representation back. The
//! round-trip lemma ties the two together, so a rendered latency is exactly
//! the decimal spelling of the measured number and nothing else.

use vstd::prelude::*;

verus! {

/// Whether `c` is one of the ten decimal digit characters.
pub open spec fn spec_is_digit(c: char) -> bool {
    '0' <= c && c <= '9'
}

/// The numeric value of a decimal digit character.
pub open spec fn spec_digit_val(c: char) -> nat
    recommends
        spec_is_digit(c),
{
    if '0' <= c && c <= '9' {
        (c as nat - 48) as nat
    } else {
        0
    }
}

/// The digit character for a value below ten.
pub open spec fn spec_digit_char(d: nat) -> char
    recommends
        d < 10,
{
    if d == 0 {
        '0'
    } else if d == 1 {
        '1'
    } else if d == 2 {
        '2'
    } else if d == 3 {
        '3'
    } else if d == 4 {
        '4'
    } else if d == 5 {
        '5'
    } else if d == 6 {
        '6'
    } else if d == 7 {
        '7'
    } else if d == 8 {
        '8'
    } else {
        '9'
    }
}

/// The decimal representation of `n`: most significant digit first, no sign,
/// no leading zero except for `n == 0` itself.
pub open spec fn spec_decimal(n: nat) -> Seq<char>
    decreases n,
{
    if n < 10 {
        seq![spec_digit_char(n)]
    } else {
        spec_decimal(n / 10) + seq![spec_digit_char(n % 10)]
    }
}

/// Every character of `s` is a decimal digit.
pub open spec fn spec_all_digits(s: Seq<char>) -> bool {
    forall|i: int| 0 <= i < s.len() ==> spec_is_digit(#[trigger] s[i])
}

/// The number a digit string denotes, read most significant digit first.
/// A character outside the digits counts as zero.
pub open spec fn spec_decimal_value(s: Seq<char>) -> nat
    decreases s.len(),
{
    if s.len() == 0 {
        0
    } else {
        spec_decimal_value(s.drop_last()) * 10 + spec_digit_val(s.last())
    }
}

/// Reading one more character multiplies the value by ten and adds the
/// character's digit value.
proof fn lemma_decimal_value_step(s: Seq<char>, i: int)
    requires
        0 <= i < s.len(),
    ensures
        spec_decimal_value(s.take(i + 1)) == spec_decimal_value(s.take(i)) * 10 + spec_digit_val(
            s[i],
        ),
{
    assert(s.take(i + 1).drop_last() =~= s.take(i));
    assert(s.take(i + 1).last() == s[i]);
}

/// The value of a digit string is at least the value of any of its prefixes:
/// once a prefix exceeds a bound, the whole string does too.
pub proof fn lemma_decimal_value_take_monotone(s: Seq<char>, i: int)
    requires
        0 <= i <= s.len(),
    ensures
        spec_decimal_value(s) >= spec_decimal_value(s.take(i)),
    decreases s.len() - i,
{
    if i == s.len() {
        assert(s.take(i) =~= s);
    } else {
        lemma_decimal_value_step(s, i);
        lemma_decimal_value_take_monotone(s, i + 1);
    }
}

/// The decimal representation of `n` is a nonempty digit string that reads
/// back as `n`: rendering and reading are mutually inverse.
pub proof fn lemma_decimal_round_trip(n: nat)
    ensures
        spec_decimal(n).len() >= 1,
        spec_all_digits(spec_decimal(n)),
        spec_decimal_value(spec_decimal(n)) == n,
    decreases n,
{
    if n < 10 {
        assert(spec_decimal_value(Seq::<char>::empty()) == 0);
        assert(spec_decimal(n).drop_last() =~= Seq::<char>::empty());
    } else {
        lemma_decimal_round_trip(n / 10);
        let s = spec_decimal(n);
        assert(s.drop_last() =~= spec_decimal(n / 10));
        assert(s.last() == spec_digit_char(n % 10));
        assert(spec_digit_val(spec_digit_char(n % 10)) == n % 10);
        assert(spec_decimal_value(s) == (n / 10) * 10 + n % 10);
        assert((n / 10) * 10 + n % 10 == n) by (nonlinear_arith);
        assert(spec_all_digits(s)) by {
            assert(forall|i: int|
                0 <= i < s.len() - 1 ==> #[trigger] s[i] == spec_decimal(n / 10)[i]);
        }
    }
}

/// The single-character string for one digit.
fn digit_str(d: u8) -> (r: &'static str)
    requires
        d < 10,
    ensures
        r@ =~= seq![spec_digit_char(d as nat)],
{
    proof {
        reveal_strlit("0");
        reveal_strlit("1");
        reveal_strlit("2");
        reveal_strlit("3");
        reveal_strlit("4");
        reveal_strlit("5");
        reveal_strlit("6");
        reveal_strlit("7");
        reveal_strlit("8");
        reveal_strlit("9");
    }
    match d {
        0 => "0",
        1 => "1",
        2 => "2",
        3 => "3",
        4 => "4",
        5 => "5",
        6 => "6",
        7 => "7",
        8 => "8",
        _ => "9",
    }
}

/// Render `n` as its decimal representation, most significant digit first.
pub fn render_decimal(n: u128) -> (s: String)
    ensures
        s@ == spec_decimal(n as nat),
    decreases n,
{
    if n < 10 {
        String::from_str(digit_str(n as u8))
    } else {
        let mut s = render_decimal(n / 10);
        s.append(digit_str((n % 10) as u8));
        proof {
            assert(s@ =~= spec_decimal(n as nat));
        }
        s
    }
}

/// The digit part of a port string: the whole string, with one optional
/// leading `+` removed.
pub open spec fn spec_port_digits(s: Seq<char>) -> Seq<char> {
    if s.len() > 0 && s[0] == '+' {
        s.skip(1)
    } else {
        s
    }
}

/// Parse a string as a 16-bit port number, the way Rust's unsigned parsing
/// reads it: one optional leading `+`, then one or more decimal digits whose
/// value fits in sixteen bits. Returns `Some` exactly for such strings;
/// anything else (empty, a bare or repeated sign, a minus sign, a non-digit,
/// a value past 65535) is rejected.
pub fn parse_u16(s: &str) -> (r: Option<u16>)
    ensures
        r is Some <==> (spec_port_digits(s@).len() > 0 && spec_all_digits(spec_port_digits(s@))
            && spec_decimal_value(spec_port_digits(s@)) <= 65535),
        r matches Some(v) ==> v as nat == spec_decimal_value(spec_port_digits(s@)),
{
    let n = s.unicode_len();
    if n > 0 && s.get_char(0) == '+' {
        let rest = s.substring_char(1, n);
        proof {
            assert(rest@ =~= s@.skip(1));
        }
        parse_digits(rest)
    } else {
        parse_digits(s)
    }
}

/// Parse a string of decimal digits, with no sign allowed, as a 16-bit
/// value.
fn parse_digits(s: &str) -> (r: Option<u16>)
    ensures
        r is Some <==> (s@.len() > 0 && spec_all_digits(s@) && spec_decimal_value(s@) <= 65535),
        r matches Some(v) ==> v as nat == spec_decimal_value(s@),
{
    let n = s.unicode_len();
    if n == 0 {
        return None;
    }
    let mut i: usize = 0;
    let mut acc: u32 = 0;
    while i < n
        invariant
            0 <= i <= n,
            n == s@.len(),
            forall|j: int| 0 <= j < i ==> spec_is_digit(#[trigger] s@[j]),
            acc as nat == spec_decimal_value(s@.take(i as int)),
            acc <= 65535,
        decreases n - i,
    {
        let c = s.get_char(i);
        if !('0' <= c && c <= '9') {
            return None;
        }
        let d: u32 = (c as u32) - 48;
        let next: u32 = acc * 10 + d;
        proof {
            lemma_decimal_value_step(s@, i as int);
        }
        if next > 65535 {
            proof {
                lemma_decimal_value_take_monotone(s@, i as int + 1);
            }
            return None;
        }
        acc = next;
        i += 1;
    }
    proof {
        assert(s@.take(n as int) =~= s@);
    }
    Some(acc as u16)
}

} // verus!
