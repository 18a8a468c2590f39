//! Putting messages together: concatenation and numbers in words.
use vstd::prelude::*;
use vstd::string::*;

verus! {

/// The text of an optional string.
pub open spec fn text_of(s: Option<String>) -> Option<Seq<char>> {
    match s {
        Some(t) => Some(t@),
        None => None,
    }
}

/// The digit character with value `d`, upper case where it is a letter.
pub open spec fn digit_char(d: int) -> char {
    seq!['0', '1', '2', '3', '4', '5', '6', '7', '8', '9', 'A', 'B', 'C', 'D', 'E', 'F'][d]
}

/// A number in decimal notation, without leading zeros.
pub open spec fn decimal(n: nat) -> Seq<char>
    decreases n,
{
    if n < 10 {
        seq![digit_char(n as int)]
    } else {
        decimal(n / 10).push(digit_char((n % 10) as int))
    }
}

/// An integer in decimal notation, with a minus sign where it is negative.
pub open spec fn signed_decimal(n: int) -> Seq<char> {
    if n < 0 {
        seq!['-'] + decimal((-n) as nat)
    } else {
        decimal(n as nat)
    }
}

/// Two upper-case hexadecimal digits for a byte.
pub open spec fn hex_pair(b: u8) -> Seq<char> {
    seq![digit_char(b as int / 16), digit_char(b as int % 16)]
}

/// The debug form of a string, in double quotes with escapes: what `{:?}` of
/// `core::fmt` gives.
pub uninterp spec fn debug_quoted(s: Seq<char>) -> Seq<char>;

/// The debug form of a string.
///
/// The outside function is `<str as Debug>::fmt` of std, called through `format!`.
/// The contract claims only that the text is determined by the string; the escaping
/// rules are left unsaid.
#[verifier::external_body]
pub(crate) fn quoted(s: &str) -> (res: String)
    ensures
        res@ == debug_quoted(s@),
{
    format!("{s:?}")
}

/// The text of one digit.
fn digit_text(d: u8) -> (res: &'static str)
    requires
        d < 16,
    ensures
        res@ == seq![digit_char(d as int)],
{
    proof {
        reveal_strlit("0");
        reveal_strlit("1");
        reveal_strlit("2");
        reveal_strlit("3");
        reveal_strlit("4");
        reveal_strlit("5");
        reveal_strlit("6");
        reveal_strlit("7");
        reveal_strlit("8");
        reveal_strlit("9");
        reveal_strlit("A");
        reveal_strlit("B");
        reveal_strlit("C");
        reveal_strlit("D");
        reveal_strlit("E");
        reveal_strlit("F");
    }
    match d {
        0 => "0",
        1 => "1",
        2 => "2",
        3 => "3",
        4 => "4",
        5 => "5",
        6 => "6",
        7 => "7",
        8 => "8",
        9 => "9",
        10 => "A",
        11 => "B",
        12 => "C",
        13 => "D",
        14 => "E",
        _ => "F",
    }
}

/// A number in decimal notation.
pub fn decimal_text(n: u64) -> (res: String)
    ensures
        res@ == decimal(n as nat),
    decreases n,
{
    let last: &'static str = digit_text((n % 10) as u8);
    if n < 10 {
        last.to_owned()
    } else {
        let mut s: String = decimal_text(n / 10);
        s.append(last);
        s
    }
}

/// An integer in decimal notation.
pub fn signed_decimal_text(n: i64) -> (res: String)
    requires
        n > i64::MIN,
    ensures
        res@ == signed_decimal(n as int),
{
    if n < 0 {
        proof {
            reveal_strlit("-");
        }
        let digits: String = decimal_text((-n) as u64);
        concat("-", digits.as_str())
    } else {
        decimal_text(n as u64)
    }
}

/// Two upper-case hexadecimal digits for a byte.
pub fn hex_pair_text(b: u8) -> (res: String)
    ensures
        res@ == hex_pair(b),
{
    concat(digit_text(b / 16), digit_text(b % 16))
}

/// One string after another.
pub fn concat(a: &str, b: &str) -> (res: String)
    ensures
        res@ == a@ + b@,
{
    let mut s: String = a.to_owned();
    s.append(b);
    s
}

/// Three strings one after another.
pub fn concat3(a: &str, b: &str, c: &str) -> (res: String)
    ensures
        res@ == a@ + b@ + c@,
{
    let mut s: String = a.to_owned();
    s.append(b);
    s.append(c);
    s
}

/// Whether two strings are the same text.
pub fn same_text(a: &str, b: &str) -> (res: bool)
    ensures
        res == (a@ == b@),
{
    a.to_owned() == b.to_owned()
}

/// Digits follow each other: `0` to `9`, then `A` to `F`.
pub proof fn digits_follow_each_other(d: int)
    requires
        0 <= d < 16,
    ensures
        digit_char(d) as u32 == if d < 10 {
            48 + d
        } else {
            55 + d
        },
{
}

/// The last digit of a number is what is left of it after tens, and the digits before it are those
/// of the tens. There are no leading zeros.
pub proof fn numbers_are_written_digit_by_digit(n: nat)
    ensures
        decimal(n).len() > 0,
        decimal(n).last() as u32 == 48 + n % 10,
        n < 10 ==> decimal(n).len() == 1,
        n >= 10 ==> decimal(n).drop_last() == decimal(n / 10),
        n > 0 ==> decimal(n)[0] != '0',
    decreases n,
{
    if n >= 10 {
        numbers_are_written_digit_by_digit(n / 10);
        assert(decimal(n).drop_last() =~= decimal(n / 10));
        assert(decimal(n)[0] == decimal(n / 10)[0]);
    }
}

/// A negative number has a minus sign before its digits, and only a negative one has.
pub proof fn only_negative_numbers_have_a_sign(n: int)
    ensures
        n >= 0 ==> signed_decimal(n) == decimal(n as nat) && signed_decimal(n)[0] != '-',
        n < 0 ==> signed_decimal(n)[0] == '-' && signed_decimal(n).drop_first() == decimal(
            (-n) as nat,
        ),
{
    numbers_are_written_digit_by_digit(if n >= 0 { n as nat } else { (-n) as nat });
    if n >= 0 {
        lemma_first_digit(n as nat);
    } else {
        assert(signed_decimal(n).drop_first() =~= decimal((-n) as nat));
    }
}

proof fn lemma_first_digit(n: nat)
    ensures
        decimal(n).len() > 0,
        decimal(n)[0] != '-',
    decreases n,
{
    if n >= 10 {
        lemma_first_digit(n / 10);
        assert(decimal(n)[0] == decimal(n / 10)[0]);
    }
}

/// A byte is written as two digits, the higher one first.
pub proof fn bytes_are_written_as_two_digits(b: u8)
    ensures
        hex_pair(b).len() == 2,
        hex_pair(b)[0] == digit_char(b as int / 16),
        hex_pair(b)[1] == digit_char(b as int % 16),
{
}

/// The text of an optional string is that of the string, where there is one.
pub proof fn optional_texts(s: String)
    ensures
        text_of(Some(s)) == Some(s@),
        text_of(None) is None,
{
}

} // verus!
