use vstd::prelude::*;
use vstd::string::StringExecFns;
use crate::instant::Instant;

verus! {

/// The character of a decimal digit.
pub open spec fn digit(d: int) -> char {
    if d == 0 {
        '0'
    } else if d == 1 {
        '1'
    } else if d == 2 {
        '2'
    } else if d == 3 {
        '3'
    } else if d == 4 {
        '4'
    } else if d == 5 {
        '5'
    } else if d == 6 {
        '6'
    } else if d == 7 {
        '7'
    } else if d == 8 {
        '8'
    } else {
        '9'
    }
}

/// `n`, below 100, as two decimal digits.
pub open spec fn two_digits(n: int) -> Seq<char> {
    seq![digit(n / 10), digit(n % 10)]
}

/// `n`, below 10000, as four decimal digits.
pub open spec fn four_digits(n: int) -> Seq<char> {
    two_digits(n / 100) + two_digits(n % 100)
}

/// The canonical text of an instant: year, month and day joined by hyphens, a
/// space, then hour, minute and second joined by colons, each zero-padded.
pub open spec fn canonical_text(moment: Instant) -> Seq<char> {
    four_digits(moment.year as int) + seq!['-'] + two_digits(moment.month as int) + seq!['-']
        + two_digits(moment.day as int) + seq![' '] + two_digits(moment.hour as int) + seq![':']
        + two_digits(moment.minute as int) + seq![':'] + two_digits(moment.second as int)
}

/// The canonical text holds the components and nothing else: two valid instants
/// with the same text have the same local date and time.
pub proof fn lemma_text_determines_components(a: Instant, b: Instant)
    requires
        a.wf(),
        b.wf(),
        canonical_text(a) == canonical_text(b),
    ensures
        a.year == b.year,
        a.month == b.month,
        a.day == b.day,
        a.hour == b.hour,
        a.minute == b.minute,
        a.second == b.second,
{
    lemma_text_characters(a);
    lemma_text_characters(b);
    let s = canonical_text(a);
    let t = canonical_text(b);
    assert(s[0] == t[0] && s[1] == t[1] && s[2] == t[2] && s[3] == t[3]);
    assert(s[5] == t[5] && s[6] == t[6]);
    assert(s[8] == t[8] && s[9] == t[9]);
    assert(s[11] == t[11] && s[12] == t[12]);
    assert(s[14] == t[14] && s[15] == t[15]);
    assert(s[17] == t[17] && s[18] == t[18]);
    lemma_two_digits_distinct(a.year as int / 100, b.year as int / 100);
    lemma_two_digits_distinct(a.year as int % 100, b.year as int % 100);
    lemma_two_digits_distinct(a.month as int, b.month as int);
    lemma_two_digits_distinct(a.day as int, b.day as int);
    lemma_two_digits_distinct(a.hour as int, b.hour as int);
    lemma_two_digits_distinct(a.minute as int, b.minute as int);
    lemma_two_digits_distinct(a.second as int, b.second as int);
}

/// The canonical text character by character: nineteen of them, the digits of
/// each component at fixed places between the separators.
pub proof fn lemma_text_characters(m: Instant)
    ensures
        canonical_text(m) == seq![
            digit(m.year as int / 100 / 10),
            digit(m.year as int / 100 % 10),
            digit(m.year as int % 100 / 10),
            digit(m.year as int % 100 % 10),
            '-',
            digit(m.month as int / 10),
            digit(m.month as int % 10),
            '-',
            digit(m.day as int / 10),
            digit(m.day as int % 10),
            ' ',
            digit(m.hour as int / 10),
            digit(m.hour as int % 10),
            ':',
            digit(m.minute as int / 10),
            digit(m.minute as int % 10),
            ':',
            digit(m.second as int / 10),
            digit(m.second as int % 10),
        ],
        canonical_text(m).len() == 19,
{
    let whole = seq![
        digit(m.year as int / 100 / 10),
        digit(m.year as int / 100 % 10),
        digit(m.year as int % 100 / 10),
        digit(m.year as int % 100 % 10),
        '-',
        digit(m.month as int / 10),
        digit(m.month as int % 10),
        '-',
        digit(m.day as int / 10),
        digit(m.day as int % 10),
        ' ',
        digit(m.hour as int / 10),
        digit(m.hour as int % 10),
        ':',
        digit(m.minute as int / 10),
        digit(m.minute as int % 10),
        ':',
        digit(m.second as int / 10),
        digit(m.second as int % 10),
    ];
    assert(canonical_text(m) =~= whole);
}

/// Two numbers below 100 with the same two digits are equal.
pub proof fn lemma_two_digits_distinct(x: int, y: int)
    requires
        0 <= x < 100,
        0 <= y < 100,
    ensures
        (digit(x / 10) == digit(y / 10) && digit(x % 10) == digit(y % 10)) ==> x == y,
{
}

fn digit_text(d: u8) -> (s: &'static str)
    requires
        d < 10,
    ensures
        s@ == seq![digit(d as int)],
{
    proof {
        reveal_strlit("0");
        reveal_strlit("1");
        reveal_strlit("2");
        reveal_strlit("3");
        reveal_strlit("4");
        reveal_strlit("5");
        reveal_strlit("6");
        reveal_strlit("7");
        reveal_strlit("8");
        reveal_strlit("9");
    }
    let s: &'static str = if d == 0 {
        "0"
    } else if d == 1 {
        "1"
    } else if d == 2 {
        "2"
    } else if d == 3 {
        "3"
    } else if d == 4 {
        "4"
    } else if d == 5 {
        "5"
    } else if d == 6 {
        "6"
    } else if d == 7 {
        "7"
    } else if d == 8 {
        "8"
    } else {
        "9"
    };
    assert(s@ =~= seq![digit(d as int)]);
    s
}

fn push_two_digits(text: &mut String, n: u8)
    requires
        n < 100,
    ensures
        final(text)@ == old(text)@ + two_digits(n as int),
{
    text.append(digit_text(n / 10));
    text.append(digit_text(n % 10));
    assert(text@ =~= old(text)@ + two_digits(n as int));
}

fn push_separator(text: &mut String, separator: &'static str)
    ensures
        final(text)@ == old(text)@ + separator@,
{
    text.append(separator);
}

/// Writes an instant as its canonical text, nineteen characters that hold the
/// components of its local date and time.
pub fn serialize(moment: &Instant) -> (text: String)
    requires
        moment.wf(),
    ensures
        text@ == canonical_text(*moment),
        text@.len() == 19,
{
    proof {
        lemma_text_characters(*moment);
        reveal_strlit("-");
        reveal_strlit(" ");
        reveal_strlit(":");
    }
    let mut text = String::new();
    let century: u8 = (moment.year / 100) as u8;
    let years: u8 = (moment.year % 100) as u8;
    push_two_digits(&mut text, century);
    push_two_digits(&mut text, years);
    push_separator(&mut text, "-");
    push_two_digits(&mut text, moment.month);
    push_separator(&mut text, "-");
    push_two_digits(&mut text, moment.day);
    push_separator(&mut text, " ");
    push_two_digits(&mut text, moment.hour);
    push_separator(&mut text, ":");
    push_two_digits(&mut text, moment.minute);
    push_separator(&mut text, ":");
    push_two_digits(&mut text, moment.second);
    assert(text@ =~= canonical_text(*moment));
    text
}

} // verus!
