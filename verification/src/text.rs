//! Text as sequences of characters: decimal numerals, search for a part of
//! a text, and the trimming of typed input.

use vstd::prelude::*;
use vstd::string::*;

verus! {

/// The character that writes the digit `d`.
pub open spec fn spec_digit_char(d: int) -> char {
    if d == 0 {
        '0'
    } else if d == 1 {
        '1'
    } else if d == 2 {
        '2'
    } else if d == 3 {
        '3'
    } else if d == 4 {
        '4'
    } else if d == 5 {
        '5'
    } else if d == 6 {
        '6'
    } else if d == 7 {
        '7'
    } else if d == 8 {
        '8'
    } else {
        '9'
    }
}

/// The decimal numeral of `n`, without sign and without leading zeros.
pub open spec fn spec_decimal_digits(n: nat) -> Seq<char>
    decreases n,
{
    if n < 10 {
        seq![spec_digit_char(n as int)]
    } else {
        spec_decimal_digits(n / 10).push(spec_digit_char((n % 10) as int))
    }
}

/// The decimal numeral of `n`, with a leading `-` where `n` is negative.
pub open spec fn spec_decimal(n: int) -> Seq<char> {
    if n < 0 {
        seq!['-'] + spec_decimal_digits((-n) as nat)
    } else {
        spec_decimal_digits(n as nat)
    }
}

/// `needle` occurs in `hay` as a run of consecutive characters.
pub open spec fn spec_contains(hay: Seq<char>, needle: Seq<char>) -> bool {
    exists|i: int|
        0 <= i && i + needle.len() <= hay.len() && #[trigger] hay.subrange(
            i,
            i + needle.len(),
        ) == needle
}

/// A failure as it is reported: what was attempted, a colon and a space, and
/// what went wrong.
pub open spec fn spec_with_context(context: Seq<char>, cause: Seq<char>) -> Seq<char> {
    context + seq![':', ' '] + cause
}

/// What to call a report that the state was not waiting for.
pub open spec fn spec_unexpected_message() -> Seq<char> {
    "Unexpected event"@
}

/// What `str::trim` makes of a text.
pub uninterp spec fn spec_trimmed(text: Seq<char>) -> Seq<char>;

fn digit_str(d: u64) -> (s: &'static str)
    requires
        d < 10,
    ensures
        s@ == seq![spec_digit_char(d as int)],
{
    proof {
        reveal_strlit("0");
        reveal_strlit("1");
        reveal_strlit("2");
        reveal_strlit("3");
        reveal_strlit("4");
        reveal_strlit("5");
        reveal_strlit("6");
        reveal_strlit("7");
        reveal_strlit("8");
        reveal_strlit("9");
    }
    let s = if d == 0 {
        "0"
    } else if d == 1 {
        "1"
    } else if d == 2 {
        "2"
    } else if d == 3 {
        "3"
    } else if d == 4 {
        "4"
    } else if d == 5 {
        "5"
    } else if d == 6 {
        "6"
    } else if d == 7 {
        "7"
    } else if d == 8 {
        "8"
    } else {
        "9"
    };
    assert(s@ =~= seq![spec_digit_char(d as int)]);
    s
}

fn push_digits(out: &mut String, n: u64)
    ensures
        final(out)@ == old(out)@ + spec_decimal_digits(n as nat),
    decreases n,
{
    if n < 10 {
        out.append(digit_str(n));
    } else {
        push_digits(out, n / 10);
        out.append(digit_str(n % 10));
        assert(final(out)@ =~= old(out)@ + spec_decimal_digits(n as nat));
    }
}

/// Appends the decimal numeral of `n` to `out`.
pub fn push_decimal(out: &mut String, n: i64)
    ensures
        final(out)@ == old(out)@ + spec_decimal(n as int),
{
    if n < 0 {
        proof {
            reveal_strlit("-");
        }
        out.append("-");
        let magnitude: u64 = (-(n + 1)) as u64 + 1;
        push_digits(out, magnitude);
        assert(final(out)@ =~= old(out)@ + spec_decimal(n as int));
    } else {
        push_digits(out, n as u64);
    }
}

/// The decimal numeral of `n`.
pub fn decimal_string(n: i64) -> (s: String)
    ensures
        s@ == spec_decimal(n as int),
{
    let mut s = String::new();
    push_decimal(&mut s, n);
    assert(s@ =~= spec_decimal(n as int));
    s
}

/// Puts what was attempted in front of what went wrong.
pub fn with_context(context: &str, cause: &str) -> (message: String)
    ensures
        message@ == spec_with_context(context@, cause@),
{
    proof {
        reveal_strlit(": ");
    }
    let mut message = String::from_str(context);
    message.append(": ");
    message.append(cause);
    assert(message@ =~= spec_with_context(context@, cause@));
    message
}

/// What to call a report that the state was not waiting for.
pub fn unexpected_message() -> (message: String)
    ensures
        message@ == spec_unexpected_message(),
{
    String::from_str("Unexpected event")
}

/// `str::contains` with a text as the pattern: whether `needle` matches a
/// sub-slice of `hay`. Both are valid UTF-8, so a match of bytes is a match of
/// whole characters, and the claim is made over characters.
#[verifier::external_body]
pub(crate) fn str_contains(hay: &str, needle: &str) -> (found: bool)
    ensures
        found == spec_contains(hay@, needle@),
{
    hay.contains(needle)
}

/// `str::trim`: the text without its leading and trailing whitespace. Which
/// characters count as whitespace is left to the standard library, so the
/// outcome is given a name; nothing more is claimed of it than that it
/// depends on the text alone.
#[verifier::external_body]
fn str_trim(text: &str) -> (trimmed: &str)
    ensures
        trimmed@ == spec_trimmed(text@),
{
    text.trim()
}

/// What a typed line stands for: the line without the whitespace around it,
/// the end of the line included.
pub fn typed_text(line: &str) -> (text: &str)
    ensures
        text@ == spec_trimmed(line@),
{
    str_trim(line)
}

/// The character writes a digit.
pub open spec fn spec_is_digit(c: char) -> bool {
    c == '0' || c == '1' || c == '2' || c == '3' || c == '4' || c == '5' || c == '6' || c == '7'
        || c == '8' || c == '9'
}

/// The digit that a character writes.
pub open spec fn spec_digit_value(c: char) -> nat {
    if c == '0' {
        0
    } else if c == '1' {
        1
    } else if c == '2' {
        2
    } else if c == '3' {
        3
    } else if c == '4' {
        4
    } else if c == '5' {
        5
    } else if c == '6' {
        6
    } else if c == '7' {
        7
    } else if c == '8' {
        8
    } else {
        9
    }
}

/// The number that a run of digits writes.
pub open spec fn spec_digits_value(digits: Seq<char>) -> nat
    decreases digits.len(),
{
    if digits.len() == 0 {
        0
    } else {
        spec_digits_value(digits.drop_last()) * 10 + spec_digit_value(digits.last())
    }
}

/// A numeral is not empty, holds digits only, and writes its number.
pub proof fn lemma_decimal_digits(n: nat)
    ensures
        spec_decimal_digits(n).len() >= 1,
        forall|i: int|
            0 <= i < spec_decimal_digits(n).len() ==> spec_is_digit(
                #[trigger] spec_decimal_digits(n)[i],
            ),
        spec_digits_value(spec_decimal_digits(n)) == n,
    decreases n,
{
    if n < 10 {
        assert(spec_decimal_digits(n).drop_last() =~= Seq::<char>::empty());
        assert(spec_digits_value(Seq::<char>::empty()) == 0);
    } else {
        lemma_decimal_digits(n / 10);
        assert(spec_decimal_digits(n).drop_last() =~= spec_decimal_digits(n / 10));
    }
}

/// A numeral with its sign holds digits only but for a leading `-`.
pub proof fn lemma_decimal_chars(n: int)
    ensures
        spec_decimal(n).len() >= 1,
        forall|i: int|
            0 <= i < spec_decimal(n).len() ==> spec_is_digit(#[trigger] spec_decimal(n)[i]) || (i
                == 0 && spec_decimal(n)[i] == '-'),
{
    if n < 0 {
        lemma_decimal_digits((-n) as nat);
    } else {
        lemma_decimal_digits(n as nat);
    }
}

/// Two numbers with the same numeral are the same number.
pub proof fn lemma_decimal_injective(a: int, b: int)
    requires
        spec_decimal(a) == spec_decimal(b),
    ensures
        a == b,
{
    let da = spec_decimal_digits((if a < 0 {
        -a
    } else {
        a
    }) as nat);
    let db = spec_decimal_digits((if b < 0 {
        -b
    } else {
        b
    }) as nat);
    lemma_decimal_digits((if a < 0 {
        -a
    } else {
        a
    }) as nat);
    lemma_decimal_digits((if b < 0 {
        -b
    } else {
        b
    }) as nat);
    if a < 0 && b < 0 {
        assert((seq!['-'] + da).drop_first() =~= da);
        assert((seq!['-'] + db).drop_first() =~= db);
    } else if a < 0 {
        assert(spec_decimal(a)[0] == '-');
        assert(spec_is_digit(db[0]));
    } else if b < 0 {
        assert(spec_decimal(b)[0] == '-');
        assert(spec_is_digit(da[0]));
    }
}

} // verus!
