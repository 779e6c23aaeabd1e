use crate::values::digits::{digit_value, is_digit, to_digit_value};
use crate::values::fixed::Fixed;
use crate::values::text::push_char;
use vstd::prelude::*;
use vstd::string::*;

verus! {

/// Skipping twice is skipping once by the sum.
pub proof fn lemma_skip_skip(s: Seq<char>, a: int, b: int)
    requires
        0 <= a,
        0 <= b,
        a + b <= s.len(),
    ensures
        s.skip(a).skip(b) == s.skip(a + b),
{
    assert(s.skip(a).skip(b) =~= s.skip(a + b));
}

/// What is left of a text after the character `c` at its start; `None`
/// where it starts otherwise.
pub open spec fn expect_char(s: Seq<char>, c: char) -> Option<Seq<char>> {
    if s.len() > 0 && s[0] == c {
        Some(s.skip(1))
    } else {
        None
    }
}

/// The value of a hexadecimal digit, in either case.
pub open spec fn hex_value(c: char) -> Option<int> {
    if '0' <= c <= '9' {
        Some(c as u8 - 48)
    } else if 'a' <= c <= 'f' {
        Some(c as u8 - 87)
    } else if 'A' <= c <= 'F' {
        Some(c as u8 - 55)
    } else {
        None
    }
}

/// Whether a number is the code of a character: below U+110000 and no
/// surrogate.
pub open spec fn is_char_code(code: int) -> bool {
    0 <= code <= 0xD7FF || 0xE000 <= code <= 0x10FFFF
}

/// The character that an escape stands for, and the length of the escape;
/// `s` is what follows the backslash.
pub open spec fn unescape(s: Seq<char>) -> Option<(char, int)> {
    if s.len() == 0 {
        None
    } else if s[0] == '"' {
        Some(('"', 1))
    } else if s[0] == '\\' {
        Some(('\\', 1))
    } else if s[0] == '/' {
        Some(('/', 1))
    } else if s[0] == 'b' {
        Some((8u8 as char, 1))
    } else if s[0] == 'f' {
        Some((12u8 as char, 1))
    } else if s[0] == 'n' {
        Some(('\n', 1))
    } else if s[0] == 'r' {
        Some(('\r', 1))
    } else if s[0] == 't' {
        Some(('\t', 1))
    } else if s[0] == 'u' {
        if s.len() >= 5 && hex_value(s[1]) is Some && hex_value(s[2]) is Some && hex_value(s[3]) is Some
            && hex_value(s[4]) is Some {
            let code = hex_value(s[1])->0 * 4096 + hex_value(s[2])->0 * 256 + hex_value(s[3])->0
                * 16 + hex_value(s[4])->0;
            if is_char_code(code) {
                Some((code as char, 5))
            } else {
                None
            }
        } else {
            None
        }
    } else {
        None
    }
}

/// The text of a JSON string and what follows its closing quotation mark;
/// `s` is what follows the opening one.
pub open spec fn string_tail(s: Seq<char>) -> Option<(Seq<char>, Seq<char>)>
    decreases s.len(),
{
    if s.len() == 0 {
        None
    } else if s[0] == '"' {
        Some((Seq::empty(), s.skip(1)))
    } else if s[0] == '\\' {
        match unescape(s.skip(1)) {
            Some((c, n)) => if 1 <= n < s.len() {
                match string_tail(s.skip(1 + n)) {
                    Some((t, rest)) => Some((seq![c] + t, rest)),
                    None => None,
                }
            } else {
                None
            },
            None => None,
        }
    } else if (s[0] as u32) < 0x20 {
        None
    } else {
        match string_tail(s.skip(1)) {
            Some((t, rest)) => Some((seq![s[0]] + t, rest)),
            None => None,
        }
    }
}

/// The text of the JSON string at the start of `s`, and what follows it.
pub open spec fn parse_string(s: Seq<char>) -> Option<(Seq<char>, Seq<char>)> {
    match expect_char(s, '"') {
        Some(rest) => string_tail(rest),
        None => None,
    }
}

/// The number of digits at the start of a text.
pub open spec fn digits_len(s: Seq<char>) -> nat
    decreases s.len(),
{
    if s.len() > 0 && is_digit(s[0]) {
        1 + digits_len(s.skip(1))
    } else {
        0
    }
}

/// The number that a text of digits stands for in decimal.
pub open spec fn digits_value(s: Seq<char>) -> nat
    decreases s.len(),
{
    if s.len() == 0 {
        0
    } else {
        (digits_value(s.drop_last()) * 10 + digit_value(s.last())) as nat
    }
}

/// The number that the digits at the start of `s` stand for, and what
/// follows them. There must be one digit at least and twenty at most.
pub open spec fn parse_uint(s: Seq<char>) -> Option<(nat, Seq<char>)> {
    let n = digits_len(s);
    if 1 <= n <= 20 {
        Some((digits_value(s.take(n as int)), s.skip(n as int)))
    } else {
        None
    }
}

/// The thousandths that the digits of a fraction stand for: one to three
/// digits, the first of which counts tenths.
pub open spec fn parse_fraction(s: Seq<char>) -> Option<(nat, Seq<char>)> {
    let n = digits_len(s);
    if n == 1 {
        Some((digits_value(s.take(1)) * 100, s.skip(1)))
    } else if n == 2 {
        Some((digits_value(s.take(2)) * 10, s.skip(2)))
    } else if n == 3 {
        Some((digits_value(s.take(3)), s.skip(3)))
    } else {
        None
    }
}

/// The reading that a sign, a whole part and a fraction of thousandths make
/// up, where it can be held.
pub open spec fn fixed_of(negative: bool, whole: nat, fraction: nat) -> Option<Fixed> {
    let total = whole * 1000 + fraction;
    if negative {
        if total <= i64::MAX + 1 {
            Some(Fixed { thousandths: (-total) as i64 })
        } else {
            None
        }
    } else {
        if total <= i64::MAX {
            Some(Fixed { thousandths: total as i64 })
        } else {
            None
        }
    }
}

/// The reading that the number at the start of `s` stands for, and what
/// follows it: a minus sign or none, a whole part, a point, and a fraction
/// of one to three digits.
pub open spec fn parse_fixed(s: Seq<char>) -> Option<(Fixed, Seq<char>)> {
    let negative = s.len() > 0 && s[0] == '-';
    let body = if negative {
        s.skip(1)
    } else {
        s
    };
    match parse_uint(body) {
        Some((whole, r1)) => match expect_char(r1, '.') {
            Some(r2) => match parse_fraction(r2) {
                Some((fraction, r3)) => match fixed_of(negative, whole, fraction) {
                    Some(v) => Some((v, r3)),
                    None => None,
                },
                None => None,
            },
            None => None,
        },
        None => None,
    }
}

/// The character with the given code.
///
/// Trusted: stands for `char::from_u32` of the standard library, which
/// gives the character with this code where the code is below U+110000
/// and no surrogate, and `None` otherwise.
#[verifier::external_body]
fn char_of_code(code: u32) -> (r: Option<char>)
    ensures
        r is Some <==> is_char_code(code as int),
        r matches Some(c) ==> c as u32 == code,
{
    char::from_u32(code)
}

/// Reads the character `c` at `pos`.
pub fn read_char(v: &Vec<char>, pos: usize, c: char) -> (r: Option<usize>)
    requires
        pos <= v.len(),
    ensures
        match r {
            Some(q) => q == pos + 1 && q <= v.len() && expect_char(v@.skip(pos as int), c) == Some(
                v@.skip(q as int),
            ),
            None => expect_char(v@.skip(pos as int), c) is None,
        },
{
    if pos < v.len() && v[pos] == c {
        proof {
            lemma_skip_skip(v@, pos as int, 1);
        }
        Some(pos + 1)
    } else {
        None
    }
}

/// The value of a hexadecimal digit, or `None` where the character is none.
pub fn to_hex_value(c: char) -> (r: Option<u32>)
    ensures
        match r {
            Some(d) => hex_value(c) == Some(d as int) && d < 16,
            None => hex_value(c) is None,
        },
{
    if '0' <= c && c <= '9' {
        Some((c as u32) - 48)
    } else if 'a' <= c && c <= 'f' {
        Some((c as u32) - 87)
    } else if 'A' <= c && c <= 'F' {
        Some((c as u32) - 55)
    } else {
        None
    }
}

/// Reads an escape; `pos` is the place after the backslash.
#[verifier::spinoff_prover]
pub fn read_escape(v: &Vec<char>, pos: usize) -> (r: Option<(char, usize)>)
    requires
        pos <= v.len(),
    ensures
        match r {
            Some((c, n)) => unescape(v@.skip(pos as int)) == Some((c, n as int)) && 1 <= n && pos
                + n <= v.len(),
            None => unescape(v@.skip(pos as int)) is None,
        },
{
    if pos >= v.len() {
        return None;
    }
    let e = v[pos];
    let ghost here = v@.skip(pos as int);
    assert(here.len() == v.len() - pos);
    assert(here[0] == e);
    if e == '"' {
        Some(('"', 1))
    } else if e == '\\' {
        Some(('\\', 1))
    } else if e == '/' {
        Some(('/', 1))
    } else if e == 'b' {
        Some((8u8 as char, 1))
    } else if e == 'f' {
        Some((12u8 as char, 1))
    } else if e == 'n' {
        Some(('\n', 1))
    } else if e == 'r' {
        Some(('\r', 1))
    } else if e == 't' {
        Some(('\t', 1))
    } else if e == 'u' {
        if v.len() - pos < 5 {
            return None;
        }
        assert(here[1] == v@[pos + 1] && here[2] == v@[pos + 2] && here[3] == v@[pos + 3] && here[4]
            == v@[pos + 4]);
        let h1 = to_hex_value(v[pos + 1]);
        let h2 = to_hex_value(v[pos + 2]);
        let h3 = to_hex_value(v[pos + 3]);
        let h4 = to_hex_value(v[pos + 4]);
        match (h1, h2, h3, h4) {
            (Some(a), Some(b), Some(c), Some(d)) => {
                let code: u32 = a * 4096 + b * 256 + c * 16 + d;
                match char_of_code(code) {
                    Some(ch) => {
                        proof {
                            vstd::utf8::char_u32_cast(ch, code);
                        }
                        Some((ch, 5))
                    },
                    None => None,
                }
            },
            _ => None,
        }
    } else {
        None
    }
}

/// Reads a JSON string at `pos`: its text, and the place after its closing
/// quotation mark.
#[verifier::spinoff_prover]
pub fn read_string(v: &Vec<char>, pos: usize) -> (r: Option<(String, usize)>)
    requires
        pos <= v.len(),
    ensures
        match r {
            Some((t, q)) => pos <= q <= v.len() && parse_string(v@.skip(pos as int)) == Some(
                (t@, v@.skip(q as int)),
            ),
            None => parse_string(v@.skip(pos as int)) is None,
        },
{
    let start = match read_char(v, pos, '"') {
        Some(start) => start,
        None => {
            return None;
        },
    };
    let mut t = String::new();
    let mut p: usize = start;
    let n = v.len();
    loop
        invariant
            n == v.len(),
            pos <= start <= p <= n,
            parse_string(v@.skip(pos as int)) == string_tail(v@.skip(start as int)),
            string_tail(v@.skip(start as int)) == (match string_tail(v@.skip(p as int)) {
                Some((rest_text, rest)) => Some((t@ + rest_text, rest)),
                None => None,
            }),
        decreases n - p,
    {
        if p >= n {
            return None;
        }
        let c = v[p];
        let ghost here = v@.skip(p as int);
        assert(here.len() == n - p);
        assert(here[0] == c);
        if c == '"' {
            proof {
                lemma_skip_skip(v@, p as int, 1);
                assert(t@ + Seq::<char>::empty() =~= t@);
            }
            return Some((t, p + 1));
        } else if c == '\\' {
            proof {
                lemma_skip_skip(v@, p as int, 1);
            }
            match read_escape(v, p + 1) {
                Some((ch, len)) => {
                    proof {
                        lemma_skip_skip(v@, p as int, 1 + len);
                        if p + 1 + len <= n && 1 + len < here.len() {
                            let tail = string_tail(v@.skip(p + 1 + len));
                            if tail is Some {
                                assert((t@.push(ch)) + tail.unwrap().0 =~= t@ + (seq![ch] + tail.unwrap().0));
                            }
                        }
                    }
                    if len >= n - p {
                        return None;
                    }
                    push_char(&mut t, ch);
                    p = p + 1 + len;
                },
                None => {
                    return None;
                },
            }
        } else if (c as u32) < 0x20 {
            return None;
        } else {
            proof {
                lemma_skip_skip(v@, p as int, 1);
                let tail = string_tail(v@.skip(p + 1));
                if tail is Some {
                    assert((t@.push(c)) + tail.unwrap().0 =~= t@ + (seq![c] + tail.unwrap().0));
                }
            }
            push_char(&mut t, c);
            p = p + 1;
        }
    }
}

/// Ten to the power of `n`.
pub open spec fn pow10(n: nat) -> nat
    decreases n,
{
    if n == 0 {
        1
    } else {
        10 * pow10((n - 1) as nat)
    }
}

/// Whether a text is made of digits only.
pub open spec fn all_digits(s: Seq<char>) -> bool {
    forall|i: int| 0 <= i < s.len() ==> is_digit(#[trigger] s[i])
}

/// A number of `n` digits is below ten to the power of `n`.
pub proof fn lemma_digits_value_bound(s: Seq<char>)
    requires
        all_digits(s),
    ensures
        digits_value(s) < pow10(s.len()),
    decreases s.len(),
{
    if s.len() > 0 {
        assert(all_digits(s.drop_last())) by {
            assert forall|i: int| 0 <= i < s.drop_last().len() implies is_digit(
                #[trigger] s.drop_last()[i],
            ) by {
                assert(s.drop_last()[i] == s[i]);
            }
        }
        lemma_digits_value_bound(s.drop_last());
        assert(is_digit(s[s.len() - 1]));
    }
}

/// The powers of ten grow.
pub proof fn lemma_pow10_grows(a: nat, b: nat)
    requires
        a <= b,
    ensures
        pow10(a) <= pow10(b),
        pow10(a) >= 1,
    decreases b,
{
    if a < b {
        lemma_pow10_grows(a, (b - 1) as nat);
    } else if a > 0 {
        lemma_pow10_grows((a - 1) as nat, (b - 1) as nat);
    }
}

/// Reads the digits at `pos`: the number they stand for, and the place
/// after them.
#[verifier::spinoff_prover]
pub fn read_uint(v: &Vec<char>, pos: usize) -> (r: Option<(u128, usize)>)
    requires
        pos <= v.len(),
    ensures
        match r {
            Some((value, q)) => pos < q <= v.len() && q - pos == digits_len(v@.skip(pos as int))
                && parse_uint(v@.skip(pos as int)) == Some((value as nat, v@.skip(q as int))),
            None => parse_uint(v@.skip(pos as int)) is None,
        },
{
    let n = v.len();
    let ghost s = v@.skip(pos as int);
    let mut value: u128 = 0;
    let mut p: usize = pos;
    assert(s.take(0) =~= Seq::<char>::empty());
    let mut more = true;
    while more && p < n && p - pos <= 20
        invariant
            n == v.len(),
            s == v@.skip(pos as int),
            pos <= p <= n,
            p - pos <= 21,
            !more ==> p < n && !is_digit(v@[p as int]),
            digits_len(s) == (p - pos) + digits_len(v@.skip(p as int)),
            all_digits(s.take(p - pos)),
            value == digits_value(s.take(p - pos)),
        decreases n - p + (if more { 1int } else { 0int }),
    {
        let ghost here = v@.skip(p as int);
        assert(here.len() == n - p);
        assert(here[0] == v@[p as int]);
        match to_digit_value(v[p]) {
            Some(d) => {
                proof {
                    lemma_skip_skip(v@, p as int, 1);
                    let next = s.take(p - pos + 1);
                    assert(next.drop_last() =~= s.take(p - pos));
                    assert(next.last() == v@[p as int]);
                    assert(all_digits(next)) by {
                        assert forall|i: int| 0 <= i < next.len() implies is_digit(
                            #[trigger] next[i],
                        ) by {
                            if i < p - pos {
                                assert(next[i] == s.take(p - pos)[i]);
                            }
                        }
                    }
                    lemma_digits_value_bound(s.take(p - pos));
                    lemma_pow10_grows((p - pos) as nat, 21);
                    reveal_with_fuel(pow10, 22);
                    assert(pow10(21) == 1_000_000_000_000_000_000_000);
                }
                value = value * 10 + d as u128;
                p = p + 1;
            },
            None => {
                more = false;
            },
        }
    }
    proof {
        if !more {
            assert(v@.skip(p as int)[0] == v@[p as int]);
        } else if p < n {
            assert(digits_len(s) >= 21);
        } else {
            assert(v@.skip(p as int).len() == 0);
        }
    }
    if p == pos || p - pos > 20 {
        None
    } else {
        proof {
            lemma_skip_skip(v@, pos as int, p - pos);
        }
        Some((value, p))
    }
}

/// Reads the digits of a fraction at `pos`: the thousandths they stand for,
/// and the place after them.
pub fn read_fraction(v: &Vec<char>, pos: usize) -> (r: Option<(u16, usize)>)
    requires
        pos <= v.len(),
    ensures
        match r {
            Some((value, q)) => pos < q <= v.len() && value < 1000 && parse_fraction(
                v@.skip(pos as int),
            ) == Some((value as nat, v@.skip(q as int))),
            None => parse_fraction(v@.skip(pos as int)) is None,
        },
{
    match read_uint(v, pos) {
        Some((value, q)) => {
            proof {
                let s = v@.skip(pos as int);
                if q - pos <= 3 {
                    assert(all_digits(s.take(q - pos))) by {
                        lemma_digits_prefix(s);
                    }
                    lemma_digits_value_bound(s.take(q - pos));
                    reveal_with_fuel(pow10, 4);
                }
            }
            if q - pos == 1 {
                Some(((value * 100) as u16, q))
            } else if q - pos == 2 {
                Some(((value * 10) as u16, q))
            } else if q - pos == 3 {
                Some((value as u16, q))
            } else {
                None
            }
        },
        None => None,
    }
}

/// The digits at the start of a text are digits.
pub proof fn lemma_digits_prefix(s: Seq<char>)
    ensures
        digits_len(s) <= s.len(),
        all_digits(s.take(digits_len(s) as int)),
    decreases s.len(),
{
    if s.len() > 0 && is_digit(s[0]) {
        lemma_digits_prefix(s.skip(1));
        let n = digits_len(s);
        assert forall|i: int| 0 <= i < n implies is_digit(#[trigger] s.take(n as int)[i]) by {
            if i > 0 {
                assert(s.take(n as int)[i] == s.skip(1).take(n - 1)[i - 1]);
            }
        }
    }
}

/// Reads a number with a fraction at `pos`: the reading it stands for, and
/// the place after it.
pub fn read_fixed(v: &Vec<char>, pos: usize) -> (r: Option<(Fixed, usize)>)
    requires
        pos <= v.len(),
    ensures
        match r {
            Some((value, q)) => pos < q <= v.len() && parse_fixed(v@.skip(pos as int)) == Some(
                (value, v@.skip(q as int)),
            ),
            None => parse_fixed(v@.skip(pos as int)) is None,
        },
{
    let ghost s = v@.skip(pos as int);
    let negative = pos < v.len() && v[pos] == '-';
    proof {
        if pos < v.len() {
            assert(s[0] == v@[pos as int]);
        }
        if negative {
            lemma_skip_skip(v@, pos as int, 1);
        }
    }
    let start = if negative {
        pos + 1
    } else {
        pos
    };
    let (whole, k1) = match read_uint(v, start) {
        Some(found) => found,
        None => {
            return None;
        },
    };
    let k2 = match read_char(v, k1, '.') {
        Some(k2) => k2,
        None => {
            return None;
        },
    };
    let (fraction, k3) = match read_fraction(v, k2) {
        Some(found) => found,
        None => {
            return None;
        },
    };
    if whole > u64::MAX as u128 {
        return None;
    }
    match Fixed::from_parts(negative, whole as u64, fraction) {
        Some(value) => Some((value, k3)),
        None => None,
    }
}

} // verus!
