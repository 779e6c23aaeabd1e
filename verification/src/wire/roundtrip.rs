use crate::dtos::measurement::base::{Measurement, ReadOutcome};
use crate::dtos::response::services::sensing_client::{ReportView, Slot};
use crate::values::datetime::UtcDateTime;
use crate::values::digits::{decimal, digit_char, digit_value, is_digit};
use crate::values::fixed::Fixed;
use crate::wire::number::{fixed_text, fraction_text};
use crate::wire::parser::{
    expect_member,
    iso_fields,
    iso_shaped,
    next_fixed,
    next_member,
    next_text,
    pair_at,
    parse_body,
    parse_data,
    parse_head,
    parse_iso,
    parse_member,
    parse_outcome,
    parse_report,
    parse_slot,
    parse_slots,
    parse_texts,
};
use crate::wire::report::{
    data_then,
    fixed_member,
    measurement_then,
    member,
    message_text,
    outcome_then,
    report_text,
    report_then,
    slot_then,
    slots_then,
    status_text,
    text_member,
};
use crate::wire::json::{escape_char, escaped, hex_char, quoted};
use crate::wire::reader::{
    all_digits,
    digits_len,
    digits_value,
    expect_char,
    hex_value,
    fixed_of,
    parse_fixed,
    parse_fraction,
    parse_string,
    parse_uint,
    pow10,
    string_tail,
    unescape,
};
use vstd::prelude::*;

verus! {

/// Whether a text does not go on with a digit.
pub open spec fn no_digit_ahead(rest: Seq<char>) -> bool {
    rest.len() == 0 || !is_digit(rest[0])
}

/// A character is read back from the start of a text.
pub proof fn lemma_char_read_back(c: char, rest: Seq<char>)
    ensures
        expect_char(seq![c] + rest, c) == Some(rest),
{
    assert((seq![c] + rest).skip(1) =~= rest);
}

/// A character that stands for itself in a JSON string is read as itself.
proof fn lemma_plain_step(c: char, next: Seq<char>)
    requires
        c != '"',
        c != '\\',
        (c as u32) >= 0x20,
    ensures
        string_tail(seq![c] + next) == (match string_tail(next) {
            Some((t, rest)) => Some((seq![c] + t, rest)),
            None => None,
        }),
{
    let s = seq![c] + next;
    assert(s[0] == c);
    assert(s.skip(1) =~= next);
}

/// A quotation mark or a backslash after a backslash is read as itself.
proof fn lemma_marked_step(c: char, next: Seq<char>)
    requires
        c == '"' || c == '\\',
    ensures
        string_tail(seq!['\\', c] + next) == (match string_tail(next) {
            Some((t, rest)) => Some((seq![c] + t, rest)),
            None => None,
        }),
{
    let s = seq!['\\', c] + next;
    assert(s[0] == '\\');
    assert(s.skip(1)[0] == c);
    assert(s.skip(2) =~= next);
    assert(unescape(s.skip(1)) == Some((c, 1int)));
}

/// The hexadecimal digits of a number below 16 stand for it.
proof fn lemma_hex_read_back(d: int)
    requires
        0 <= d < 16,
    ensures
        hex_value(hex_char(d)) == Some(d),
{
}

/// A control character is read back from its escape.
#[verifier::spinoff_prover]
proof fn lemma_control_step(c: char, next: Seq<char>)
    requires
        (c as u32) < 0x20,
    ensures
        string_tail(escape_char(c) + next) == (match string_tail(next) {
            Some((t, rest)) => Some((seq![c] + t, rest)),
            None => None,
        }),
{
    let hi = (c as u32 / 16) as int;
    let lo = (c as u32 % 16) as int;
    let s = escape_char(c) + next;
    let e = s.skip(1);
    assert(s[0] == '\\');
    assert(e.len() >= 5);
    assert(e[0] == 'u' && e[1] == '0' && e[2] == '0' && e[3] == hex_char(hi) && e[4] == hex_char(
        lo,
    ));
    lemma_hex_read_back(0);
    lemma_hex_read_back(hi);
    lemma_hex_read_back(lo);
    assert(hex_char(0) == '0');
    assert(0 * 4096 + 0 * 256 + hi * 16 + lo == c as u32);
    vstd::utf8::char_u32_cast(c, c as u32);
    assert(unescape(e) == Some((c, 5int)));
    assert(s.skip(6) =~= next);
}

/// A character is read back from its form inside a JSON string.
proof fn lemma_escape_step(c: char, next: Seq<char>)
    ensures
        string_tail(escape_char(c) + next) == (match string_tail(next) {
            Some((t, rest)) => Some((seq![c] + t, rest)),
            None => None,
        }),
{
    if c == '"' || c == '\\' {
        lemma_marked_step(c, next);
    } else if (c as u32) < 0x20 {
        lemma_control_step(c, next);
    } else {
        lemma_plain_step(c, next);
    }
}

/// The text of a JSON string is read back from its escaped form.
#[verifier::spinoff_prover]
pub proof fn lemma_tail_read_back(t: Seq<char>, rest: Seq<char>)
    ensures
        string_tail(escaped(t) + seq!['"'] + rest) == Some((t, rest)),
    decreases t.len(),
{
    let s = escaped(t) + seq!['"'] + rest;
    if t.len() == 0 {
        assert(s.skip(1) =~= rest);
        assert(s[0] == '"');
    } else {
        let more = t.drop_first();
        let next = escaped(more) + seq!['"'] + rest;
        lemma_tail_read_back(more, rest);
        lemma_escape_step(t[0], next);
        assert(seq![t[0]] + more =~= t);
        assert(s =~= escape_char(t[0]) + next);
    }
}

/// A text is read back from its JSON string.
pub proof fn lemma_string_read_back(t: Seq<char>, rest: Seq<char>)
    ensures
        parse_string(quoted(t) + rest) == Some((t, rest)),
{
    let s = quoted(t) + rest;
    assert(s[0] == '"');
    assert(s.skip(1) =~= escaped(t) + seq!['"'] + rest);
    lemma_tail_read_back(t, rest);
}

/// A number in decimal is made of digits, stands for the number, and has no
/// more digits than the powers of ten allow.
#[verifier::spinoff_prover]
pub proof fn lemma_decimal(n: nat)
    ensures
        all_digits(decimal(n)),
        digits_value(decimal(n)) == n,
        decimal(n).len() >= 1,
        forall|k: nat| k >= 1 && n < pow10(k) ==> decimal(n).len() <= k,
    decreases n,
{
    if n < 10 {
        assert(decimal(n).drop_last() =~= Seq::<char>::empty());
        assert(digits_value(Seq::<char>::empty()) == 0);
        assert(digit_value(digit_char(n as int)) == n);
        assert(decimal(n).last() == digit_char(n as int));
    } else {
        lemma_decimal(n / 10);
        let d = decimal(n / 10);
        assert(decimal(n).drop_last() =~= d);
        assert(decimal(n).last() == digit_char((n % 10) as int));
        assert(digit_value(digit_char((n % 10) as int)) == n % 10);
        assert forall|i: int| 0 <= i < decimal(n).len() implies is_digit(#[trigger] decimal(n)[i]) by {
            if i < d.len() {
                assert(decimal(n)[i] == d[i]);
            }
        }
        assert forall|k: nat| k >= 1 && n < pow10(k) implies decimal(n).len() <= k by {
            if k == 1 {
                assert(pow10(1) == 10) by {
                    reveal_with_fuel(pow10, 2);
                }
            } else {
                assert(n / 10 < pow10((k - 1) as nat));
            }
        }
    }
}

/// The digits at the start of a text that is a run of digits followed by
/// something else are that run.
pub proof fn lemma_digits_len_run(d: Seq<char>, rest: Seq<char>)
    requires
        all_digits(d),
        no_digit_ahead(rest),
    ensures
        digits_len(d + rest) == d.len(),
    decreases d.len(),
{
    let s = d + rest;
    if d.len() == 0 {
        assert(s =~= rest);
    } else {
        assert(s[0] == d[0]);
        assert(s.skip(1) =~= d.drop_first() + rest);
        assert(all_digits(d.drop_first())) by {
            assert forall|i: int| 0 <= i < d.drop_first().len() implies is_digit(
                #[trigger] d.drop_first()[i],
            ) by {
                assert(d.drop_first()[i] == d[i + 1]);
            }
        }
        lemma_digits_len_run(d.drop_first(), rest);
    }
}

/// A number that fits in 64 bits is read back from its decimal form.
pub proof fn lemma_uint_read_back(n: nat, rest: Seq<char>)
    requires
        n <= u64::MAX,
        no_digit_ahead(rest),
    ensures
        parse_uint(decimal(n) + rest) == Some((n, rest)),
{
    let d = decimal(n);
    let s = d + rest;
    lemma_decimal(n);
    lemma_digits_len_run(d, rest);
    assert(pow10(20) == 100_000_000_000_000_000_000) by {
        reveal_with_fuel(pow10, 21);
    }
    assert(d.len() <= 20);
    assert(s.take(d.len() as int) =~= d);
    assert(s.skip(d.len() as int) =~= rest);
}

/// A fraction of thousandths is read back from its digits.
#[verifier::spinoff_prover]
pub proof fn lemma_fraction_read_back(f: nat, rest: Seq<char>)
    requires
        f < 1000,
        no_digit_ahead(rest),
    ensures
        parse_fraction(fraction_text(f) + rest) == Some((f, rest)),
{
    let d = fraction_text(f);
    let s = d + rest;
    let a = digit_char((f / 100 % 10) as int);
    let b = digit_char((f / 10 % 10) as int);
    let c = digit_char((f % 10) as int);
    assert(digit_value(a) == f / 100 % 10 && digit_value(b) == f / 10 % 10 && digit_value(c) == f
        % 10);
    assert(is_digit(a) && is_digit(b) && is_digit(c));
    assert(digits_value(Seq::<char>::empty()) == 0);
    assert(digits_value(seq![a]) == f / 100 % 10) by {
        assert(seq![a].drop_last() =~= Seq::<char>::empty());
    }
    if f % 100 == 0 {
        assert(d =~= seq![a]);
    } else if f % 10 == 0 {
        assert(d =~= seq![a, b]) by {
            assert(f / 10 / 10 % 10 == f / 100 % 10);
            assert(f / 10 % 10 == f / 10 % 10);
        }
        assert(digits_value(seq![a, b]) == (f / 100 % 10) * 10 + f / 10 % 10) by {
            assert(seq![a, b].drop_last() =~= seq![a]);
        }
    } else {
        assert(d =~= seq![a, b, c]);
        assert(digits_value(seq![a, b]) == (f / 100 % 10) * 10 + f / 10 % 10) by {
            assert(seq![a, b].drop_last() =~= seq![a]);
        }
        assert(digits_value(seq![a, b, c]) == ((f / 100 % 10) * 10 + f / 10 % 10) * 10 + f % 10) by {
            assert(seq![a, b, c].drop_last() =~= seq![a, b]);
        }
    }
    assert(all_digits(d));
    lemma_digits_len_run(d, rest);
    assert(s.take(d.len() as int) =~= d);
    assert(s.skip(d.len() as int) =~= rest);
}

/// A reading is read back from its JSON number.
#[verifier::spinoff_prover]
pub proof fn lemma_fixed_read_back(v: Fixed, rest: Seq<char>)
    requires
        no_digit_ahead(rest),
    ensures
        parse_fixed(fixed_text(v) + rest) == Some((v, rest)),
{
    let s = fixed_text(v) + rest;
    let whole = v.magnitude() / 1000;
    let fraction = v.magnitude() % 1000;
    let after_point = fraction_text(fraction) + rest;
    let after_whole = seq!['.'] + after_point;
    let body = decimal(whole) + after_whole;
    lemma_decimal(whole);
    if v.thousandths < 0 {
        assert(s =~= seq!['-'] + body);
        assert(s[0] == '-');
        assert(s.skip(1) =~= body);
    } else {
        assert(s =~= body);
        assert(body[0] == decimal(whole)[0]);
        assert(is_digit(decimal(whole)[0]));
    }
    assert(after_whole[0] == '.');
    lemma_uint_read_back(whole, after_whole);
    lemma_char_read_back('.', after_point);
    lemma_fraction_read_back(fraction, rest);
    assert(fixed_of(v.thousandths < 0, whole, fraction) == Some(v));
}

/// The name of a member is read back.
pub proof fn lemma_member_read_back(name: Seq<char>, rest: Seq<char>)
    ensures
        parse_member(member(name, rest)) == Some((name, rest)),
        expect_member(member(name, rest), name) == Some(rest),
{
    reveal(member);
    lemma_string_read_back(name, seq![':'] + rest);
    lemma_char_read_back(':', rest);
}

/// A member after a comma is read back.
pub proof fn lemma_next_member_read_back(name: Seq<char>, rest: Seq<char>)
    ensures
        next_member(seq![','] + member(name, rest), name) == Some(rest),
{
    lemma_char_read_back(',', member(name, rest));
    lemma_member_read_back(name, rest);
}

/// A member that holds a reading is read back after a comma.
pub proof fn lemma_next_fixed_read_back(name: Seq<char>, v: Fixed, rest: Seq<char>)
    requires
        no_digit_ahead(rest),
    ensures
        next_fixed(seq![','] + fixed_member(name, v, rest), name) == Some((v, rest)),
{
    lemma_next_member_read_back(name, fixed_text(v) + rest);
    lemma_fixed_read_back(v, rest);
}

/// A member that holds a text is read back after a comma.
pub proof fn lemma_next_text_read_back(name: Seq<char>, t: Seq<char>, rest: Seq<char>)
    ensures
        next_text(seq![','] + text_member(name, t, rest), name) == Some((t, rest)),
{
    lemma_next_member_read_back(name, quoted(t) + rest);
    lemma_string_read_back(t, rest);
}

/// A digit is read back from its character.
proof fn lemma_digit_read_back(d: int)
    requires
        0 <= d <= 9,
    ensures
        is_digit(digit_char(d)),
        digit_value(digit_char(d)) == d,
{
}

/// The two digits of the character pair at `i`.
proof fn lemma_pair_read_back(t: Seq<char>, i: int, tens: int, ones: int)
    requires
        0 <= i,
        i + 1 < t.len(),
        0 <= tens <= 9,
        0 <= ones <= 9,
        t[i] == digit_char(tens),
        t[i + 1] == digit_char(ones),
    ensures
        is_digit(t[i]),
        is_digit(t[i + 1]),
        pair_at(t, i) == tens * 10 + ones,
{
    lemma_digit_read_back(tens);
    lemma_digit_read_back(ones);
}

/// A number below 100 is made up of its two decimal digits.
proof fn lemma_two_digits(n: int)
    requires
        0 <= n <= 99,
    ensures
        0 <= n / 10 % 10 <= 9,
        0 <= n % 10 <= 9,
        n == (n / 10 % 10) * 10 + n % 10,
{
}

/// A number below 10000 is made up of its four decimal digits.
proof fn lemma_four_digits(n: int)
    requires
        0 <= n <= 9999,
    ensures
        0 <= n / 1000 % 10 <= 9,
        0 <= n / 100 % 10 <= 9,
        0 <= n / 10 % 10 <= 9,
        0 <= n % 10 <= 9,
        n == ((n / 1000 % 10) * 10 + n / 100 % 10) * 100 + (n / 10 % 10) * 10 + n % 10,
{
}

/// The characters of a moment's text, one by one.
#[verifier::spinoff_prover]
proof fn lemma_iso_chars(moment: UtcDateTime)
    ensures
        moment.iso_text().len() == 20,
        moment.iso_text()[0] == digit_char((moment.year / 1000 % 10) as int),
        moment.iso_text()[1] == digit_char((moment.year / 100 % 10) as int),
        moment.iso_text()[2] == digit_char((moment.year / 10 % 10) as int),
        moment.iso_text()[3] == digit_char((moment.year % 10) as int),
        moment.iso_text()[4] == '-',
        moment.iso_text()[5] == digit_char((moment.month / 10 % 10) as int),
        moment.iso_text()[6] == digit_char((moment.month % 10) as int),
        moment.iso_text()[7] == '-',
        moment.iso_text()[8] == digit_char((moment.day / 10 % 10) as int),
        moment.iso_text()[9] == digit_char((moment.day % 10) as int),
        moment.iso_text()[10] == 'T',
        moment.iso_text()[11] == digit_char((moment.hour / 10 % 10) as int),
        moment.iso_text()[12] == digit_char((moment.hour % 10) as int),
        moment.iso_text()[13] == ':',
        moment.iso_text()[14] == digit_char((moment.minute / 10 % 10) as int),
        moment.iso_text()[15] == digit_char((moment.minute % 10) as int),
        moment.iso_text()[16] == ':',
        moment.iso_text()[17] == digit_char((moment.second / 10 % 10) as int),
        moment.iso_text()[18] == digit_char((moment.second % 10) as int),
        moment.iso_text()[19] == 'Z',
{
}

/// The fields that a text in the form of a moment holds, given the value
/// of each pair of digits in it.
#[verifier::spinoff_prover]
proof fn lemma_iso_fields(
    t: Seq<char>,
    century: int,
    years: int,
    month: int,
    day: int,
    hour: int,
    minute: int,
    second: int,
)
    requires
        t.len() == 20,
        is_digit(t[0]) && is_digit(t[1]) && pair_at(t, 0) == century,
        is_digit(t[2]) && is_digit(t[3]) && pair_at(t, 2) == years,
        is_digit(t[5]) && is_digit(t[6]) && pair_at(t, 5) == month,
        is_digit(t[8]) && is_digit(t[9]) && pair_at(t, 8) == day,
        is_digit(t[11]) && is_digit(t[12]) && pair_at(t, 11) == hour,
        is_digit(t[14]) && is_digit(t[15]) && pair_at(t, 14) == minute,
        is_digit(t[17]) && is_digit(t[18]) && pair_at(t, 17) == second,
        t[4] == '-' && t[7] == '-' && t[10] == 'T' && t[13] == ':' && t[16] == ':' && t[19] == 'Z',
        0 <= century <= 99 && 0 <= years <= 99 && 0 <= month <= 99 && 0 <= day <= 99 && 0 <= hour
            <= 99 && 0 <= minute <= 99 && 0 <= second <= 99,
    ensures
        iso_shaped(t),
        iso_fields(t) == (UtcDateTime {
            year: (century * 100 + years) as u16,
            month: month as u8,
            day: day as u8,
            hour: hour as u8,
            minute: minute as u8,
            second: second as u8,
        }),
{
}

/// A moment that exists is read back from its text.
#[verifier::spinoff_prover]
pub proof fn lemma_iso_read_back(moment: UtcDateTime)
    requires
        moment.valid(),
    ensures
        parse_iso(moment.iso_text()) == Some(moment),
{
    let t = moment.iso_text();
    let y = moment.year as int;
    assert(moment.day <= 31) by {
        assert(moment.day <= crate::values::datetime::days_in_month(
            moment.year as int,
            moment.month as int,
        ));
    }
    lemma_iso_chars(moment);
    lemma_four_digits(y);
    lemma_two_digits(moment.month as int);
    lemma_two_digits(moment.day as int);
    lemma_two_digits(moment.hour as int);
    lemma_two_digits(moment.minute as int);
    lemma_two_digits(moment.second as int);
    lemma_pair_read_back(t, 0, y / 1000 % 10, y / 100 % 10);
    lemma_pair_read_back(t, 2, y / 10 % 10, y % 10);
    lemma_pair_read_back(t, 5, (moment.month / 10 % 10) as int, (moment.month % 10) as int);
    lemma_pair_read_back(t, 8, (moment.day / 10 % 10) as int, (moment.day % 10) as int);
    lemma_pair_read_back(t, 11, (moment.hour / 10 % 10) as int, (moment.hour % 10) as int);
    lemma_pair_read_back(t, 14, (moment.minute / 10 % 10) as int, (moment.minute % 10) as int);
    lemma_pair_read_back(t, 17, (moment.second / 10 % 10) as int, (moment.second % 10) as int);
    lemma_iso_fields(
        t,
        pair_at(t, 0),
        pair_at(t, 2),
        moment.month as int,
        moment.day as int,
        moment.hour as int,
        moment.minute as int,
        moment.second as int,
    );
    assert(pair_at(t, 0) * 100 + pair_at(t, 2) == y);
    assert(iso_fields(t) == moment);
    reveal(parse_iso);
}

/// The names of the members that tell the kinds of outcome apart differ.
pub proof fn lemma_first_members_differ()
    ensures
        "error"@ != "lux"@,
        "error"@ != "temperature"@,
        "error"@ != "datetime"@,
        "error"@ != "distance_mm"@,
        "error"@ != "x"@,
        "lux"@ != "temperature"@,
        "lux"@ != "datetime"@,
        "lux"@ != "distance_mm"@,
        "lux"@ != "x"@,
        "temperature"@ != "datetime"@,
        "temperature"@ != "distance_mm"@,
        "temperature"@ != "x"@,
        "datetime"@ != "distance_mm"@,
        "datetime"@ != "x"@,
        "distance_mm"@ != "x"@,
{
    reveal_strlit("error");
    reveal_strlit("lux");
    reveal_strlit("temperature");
    reveal_strlit("datetime");
    reveal_strlit("distance_mm");
    reveal_strlit("x");
    assert("error"@.len() == 5);
    assert("lux"@.len() == 3);
    assert("temperature"@.len() == 11);
    assert("datetime"@.len() == 8);
    assert("distance_mm"@.len() == 11 && "distance_mm"@[0] == 'd' && "temperature"@[0] == 't');
    assert("x"@.len() == 1);
}

/// An illuminance is read back.
#[verifier::spinoff_prover]
proof fn lemma_illuminance_read_back(m: Measurement, rest: Seq<char>)
    requires
        m is Illuminance,
    ensures
        parse_outcome(measurement_then(m, rest)) == Some((ReadOutcome::Measurement(m), rest)),
{
    reveal(parse_outcome);
    reveal(parse_body);
    reveal(measurement_then);
    lemma_first_members_differ();
    let x = m->Illuminance_0;
    let end = seq!['}'] + rest;
    let second = seq![','] + text_member("condition"@, x.condition.label(), end);
    let first = fixed_text(x.lux) + second;
    lemma_char_read_back('{', member("lux"@, first));
    lemma_member_read_back("lux"@, first);
    assert(second[0] == ',');
    lemma_fixed_read_back(x.lux, second);
    lemma_next_text_read_back("condition"@, x.condition.label(), end);
    x.condition.lemma_named_label();
    lemma_char_read_back('}', rest);
}

/// An atmosphere is read back.
#[verifier::spinoff_prover]
proof fn lemma_atmosphere_read_back(m: Measurement, rest: Seq<char>)
    requires
        m is Atmosphere,
    ensures
        parse_outcome(measurement_then(m, rest)) == Some((ReadOutcome::Measurement(m), rest)),
{
    reveal(parse_outcome);
    reveal(parse_body);
    reveal(measurement_then);
    lemma_first_members_differ();
    let x = m->Atmosphere_0;
    let end = seq!['}'] + rest;
    let third = seq![','] + fixed_member("pressure"@, x.pressure, end);
    let second = seq![','] + fixed_member("humidity"@, x.humidity, third);
    let first = fixed_text(x.temperature) + second;
    lemma_char_read_back('{', member("temperature"@, first));
    lemma_member_read_back("temperature"@, first);
    assert(second[0] == ',');
    assert(third[0] == ',');
    assert(end[0] == '}');
    lemma_fixed_read_back(x.temperature, second);
    lemma_next_fixed_read_back("humidity"@, x.humidity, third);
    lemma_next_fixed_read_back("pressure"@, x.pressure, end);
    lemma_char_read_back('}', rest);
}

/// A moment that exists is read back.
#[verifier::spinoff_prover]
proof fn lemma_clock_read_back(m: Measurement, rest: Seq<char>)
    requires
        m is Clock,
        m.wf(),
    ensures
        parse_outcome(measurement_then(m, rest)) == Some((ReadOutcome::Measurement(m), rest)),
{
    reveal(parse_outcome);
    reveal(parse_body);
    reveal(measurement_then);
    lemma_first_members_differ();
    let x = m->Clock_0;
    let end = seq!['}'] + rest;
    let first = quoted(x.datetime.iso_text()) + end;
    lemma_char_read_back('{', member("datetime"@, first));
    lemma_member_read_back("datetime"@, first);
    lemma_string_read_back(x.datetime.iso_text(), end);
    lemma_iso_read_back(x.datetime);
    lemma_char_read_back('}', rest);
}

/// A range is read back.
#[verifier::spinoff_prover]
proof fn lemma_range_read_back(m: Measurement, rest: Seq<char>)
    requires
        m is Range,
    ensures
        parse_outcome(measurement_then(m, rest)) == Some((ReadOutcome::Measurement(m), rest)),
{
    reveal(parse_outcome);
    reveal(parse_body);
    reveal(measurement_then);
    lemma_first_members_differ();
    let x = m->Range_0;
    let end = seq!['}'] + rest;
    let second = seq![','] + text_member("status"@, x.status.label(), end);
    let first = decimal(x.distance_mm as nat) + second;
    lemma_char_read_back('{', member("distance_mm"@, first));
    lemma_member_read_back("distance_mm"@, first);
    assert(second[0] == ',');
    lemma_uint_read_back(x.distance_mm as nat, second);
    lemma_next_text_read_back("status"@, x.status.label(), end);
    x.status.lemma_named_label();
    lemma_char_read_back('}', rest);
}

/// An acceleration is read back.
#[verifier::spinoff_prover]
proof fn lemma_acceleration_read_back(m: Measurement, rest: Seq<char>)
    requires
        m is Acceleration,
    ensures
        parse_outcome(measurement_then(m, rest)) == Some((ReadOutcome::Measurement(m), rest)),
{
    reveal(parse_outcome);
    reveal(parse_body);
    reveal(measurement_then);
    lemma_first_members_differ();
    let x = m->Acceleration_0;
    let end = seq!['}'] + rest;
    let fifth = seq![','] + fixed_member("tilt"@, x.tilt, end);
    let fourth = seq![','] + fixed_member("magnitude"@, x.magnitude, fifth);
    let third = seq![','] + fixed_member("z"@, x.z, fourth);
    let second = seq![','] + fixed_member("y"@, x.y, third);
    let first = fixed_text(x.x) + second;
    lemma_char_read_back('{', member("x"@, first));
    lemma_member_read_back("x"@, first);
    assert(second[0] == ',');
    assert(third[0] == ',');
    assert(fourth[0] == ',');
    assert(fifth[0] == ',');
    assert(end[0] == '}');
    lemma_fixed_read_back(x.x, second);
    lemma_next_fixed_read_back("y"@, x.y, third);
    lemma_next_fixed_read_back("z"@, x.z, fourth);
    lemma_next_fixed_read_back("magnitude"@, x.magnitude, fifth);
    lemma_next_fixed_read_back("tilt"@, x.tilt, end);
    lemma_char_read_back('}', rest);
}

/// An outcome that keeps its rule is read back from its JSON object.
#[verifier::spinoff_prover]
pub proof fn lemma_outcome_read_back(outcome: ReadOutcome, rest: Seq<char>)
    requires
        outcome.wf(),
    ensures
        parse_outcome(outcome_then(outcome, rest)) == Some((outcome, rest)),
{
    match outcome {
        ReadOutcome::Measurement(m) => {
            match m {
                Measurement::Illuminance(_) => lemma_illuminance_read_back(m, rest),
                Measurement::Atmosphere(_) => lemma_atmosphere_read_back(m, rest),
                Measurement::Clock(_) => lemma_clock_read_back(m, rest),
                Measurement::Range(_) => lemma_range_read_back(m, rest),
                Measurement::Acceleration(_) => lemma_acceleration_read_back(m, rest),
            }
        },
        ReadOutcome::Failure { reason } => {
            reveal(parse_outcome);
            reveal(parse_body);
            let end = seq!['}'] + rest;
            let first = quoted(reason.label()) + end;
            lemma_char_read_back('{', member("error"@, first));
            lemma_member_read_back("error"@, first);
            lemma_string_read_back(reason.label(), end);
            lemma_char_read_back('}', rest);
            reason.lemma_named_label();
        },
    }
}

/// A slot whose outcome keeps its rule is read back.
pub proof fn lemma_slot_read_back(slot: Slot, rest: Seq<char>)
    requires
        slot.outcome.wf(),
    ensures
        parse_slot(slot_then(slot, rest)) == Some((slot, rest)),
{
    reveal(parse_slot);
    lemma_member_read_back(slot.kind.key(), outcome_then(slot.outcome, rest));
    slot.kind.lemma_lookup_own_names();
    lemma_outcome_read_back(slot.outcome, rest);
}

/// A slot makes the text that follows it longer.
pub proof fn lemma_slot_longer(slot: Slot, rest: Seq<char>)
    ensures
        slot_then(slot, rest).len() > rest.len(),
{
    reveal(member);
    reveal(measurement_then);
}

/// Whether every outcome in a list of slots keeps its rule.
pub open spec fn outcomes_wf(data: Seq<Slot>) -> bool {
    forall|i: int| 0 <= i < data.len() ==> (#[trigger] data[i]).outcome.wf()
}

/// A list of slots is read back where no comma follows it.
#[verifier::spinoff_prover]
pub proof fn lemma_slots_read_back(data: Seq<Slot>, rest: Seq<char>)
    requires
        data.len() > 0,
        outcomes_wf(data),
        rest.len() == 0 || rest[0] != ',',
    ensures
        parse_slots(slots_then(data, rest)) == Some((data, rest)),
    decreases data.len(),
{
    let s = slots_then(data, rest);
    if data.len() == 1 {
        lemma_slot_read_back(data[0], rest);
        assert(seq![data[0]] =~= data);
    } else {
        let more = data.drop_first();
        let tail = slots_then(more, rest);
        let after = seq![','] + tail;
        lemma_slot_read_back(data[0], after);
        assert(after[0] == ',');
        assert(after.skip(1) =~= tail);
        assert(outcomes_wf(more)) by {
            assert forall|i: int| 0 <= i < more.len() implies (#[trigger] more[i]).outcome.wf() by {
                assert(more[i] == data[i + 1]);
            }
        }
        lemma_slots_read_back(more, rest);
        assert(seq![data[0]] + more =~= data);
        lemma_slot_longer(data[0], after);
    }
}

/// The slots of a report are read back from their JSON object.
#[verifier::spinoff_prover]
pub proof fn lemma_data_read_back(data: Seq<Slot>, rest: Seq<char>)
    requires
        outcomes_wf(data),
    ensures
        parse_data(seq!['{'] + slots_then(data, seq!['}'] + rest)) == Some((data, rest)),
{
    reveal(parse_data);
    let end = seq!['}'] + rest;
    let inner = slots_then(data, end);
    lemma_char_read_back('{', inner);
    lemma_char_read_back('}', rest);
    if data.len() == 0 {
        assert(inner[0] == '}');
        assert(inner.skip(1) =~= rest);
        assert(data =~= Seq::<Slot>::empty());
    } else {
        assert(inner[0] == '"') by {
            reveal(member);
            if data.len() > 1 {
                assert(inner == slot_then(
                    data[0],
                    seq![','] + slots_then(data.drop_first(), end),
                ));
            }
        }
        assert(end[0] == '}');
        lemma_slots_read_back(data, end);
    }
}

/// A report that keeps its rules is read back from its wire form: reading
/// what was written gives the report that was written.
#[verifier::spinoff_prover]
pub proof fn lemma_report_read_back(r: ReportView)
    requires
        r.wf(),
    ensures
        parse_report(report_text(r)) == Some(r),
{
    reveal(parse_texts);
    reveal(parse_head);
    reveal(report_then);
    let none = Seq::<char>::empty();
    let last = seq!['}'] + none;
    let k9 = seq!['{'] + slots_then(r.data, seq!['}'] + last);
    let k8 = data_then(r.data, none);
    let k7 = decimal(r.cycle_id as nat) + k8;
    let k5 = seq![','] + member("cycleId"@, k7);
    let k4 = seq![','] + text_member("location"@, r.location_urn, k5);
    let k3 = seq![','] + text_member("device"@, r.device_urn, k4);
    let k2 = seq![','] + text_member("message"@, message_text(r.data), k3);
    let k1 = quoted(status_text(r.data)) + k2;
    lemma_char_read_back('{', member("status"@, k1));
    lemma_member_read_back("status"@, k1);
    lemma_string_read_back(status_text(r.data), k2);
    lemma_next_text_read_back("message"@, message_text(r.data), k3);
    lemma_next_text_read_back("device"@, r.device_urn, k4);
    lemma_next_text_read_back("location"@, r.location_urn, k5);
    lemma_next_member_read_back("cycleId"@, k7);
    assert(k8[0] == ',');
    lemma_uint_read_back(r.cycle_id as nat, k8);
    lemma_next_member_read_back("data"@, k9);
    lemma_data_read_back(r.data, last);
    assert(last =~= seq!['}']);
}

} // verus!
