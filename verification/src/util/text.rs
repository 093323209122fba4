//! Comparisons on string slices.

use vstd::prelude::*;

verus! {

/// `==` on `str`, which compares the two slices' contents. Trusted: it holds
/// exactly where the two hold the same characters.
#[verifier::external_body]
pub(crate) fn str_eq(a: &str, b: &str) -> (same: bool)
    ensures
        same == (a@ == b@),
{
    a == b
}

/// `str::starts_with` for a string pattern. Trusted: it holds exactly where
/// the pattern's characters are the first characters of the text.
#[verifier::external_body]
pub(crate) fn starts_with(text: &str, prefix: &str) -> (found: bool)
    ensures
        found == prefix@.is_prefix_of(text@),
{
    text.starts_with(prefix)
}

/// What `str::to_lowercase` makes of a text: its lowercase equivalent by the
/// rules of Unicode.
pub uninterp spec fn lowercase_of(text: Seq<char>) -> Seq<char>;

/// `str::to_lowercase`. Trusted: the same text always has the same lowercase
/// equivalent.
#[verifier::external_body]
pub(crate) fn to_lowercase(text: &str) -> (lower: String)
    ensures
        lower@ == lowercase_of(text@),
{
    text.to_lowercase()
}

/// The pieces that a text falls into at each occurrence of a separator: one
/// more than there are occurrences, each as long as the text between two
/// occurrences, which may be empty.
pub open spec fn split_spec(text: Seq<char>, separator: char) -> Seq<Seq<char>>
    decreases text.len(),
{
    if text.len() == 0 {
        seq![Seq::<char>::empty()]
    } else {
        let rest = split_spec(text.drop_first(), separator);
        if text[0] == separator {
            seq![Seq::<char>::empty()] + rest
        } else {
            rest.update(0, seq![text[0]] + rest[0])
        }
    }
}

/// `str::split` for a character pattern, each piece copied. Trusted: the
/// pieces are the substrings of the text that the separator separates, in
/// their order.
#[verifier::external_body]
pub(crate) fn split(text: &str, separator: char) -> (pieces: Vec<String>)
    ensures
        pieces@.map_values(|piece: String| piece@) == split_spec(text@, separator),
{
    text.split(separator).map(str::to_owned).collect()
}

/// The last digit of a number, as a character.
pub open spec fn digit_of(n: nat) -> char {
    let d = n % 10;
    if d == 0 {
        '0'
    } else if d == 1 {
        '1'
    } else if d == 2 {
        '2'
    } else if d == 3 {
        '3'
    } else if d == 4 {
        '4'
    } else if d == 5 {
        '5'
    } else if d == 6 {
        '6'
    } else if d == 7 {
        '7'
    } else if d == 8 {
        '8'
    } else {
        '9'
    }
}

/// A number in decimal, without leading zeros.
pub open spec fn decimal_spec(n: nat) -> Seq<char>
    decreases n,
{
    if n < 10 {
        seq![digit_of(n)]
    } else {
        decimal_spec(n / 10).push(digit_of(n))
    }
}

/// The last digit of a number, as a text.
fn digit(n: u64) -> (text: &'static str)
    ensures
        text@ == seq![digit_of(n as nat)],
{
    proof {
        reveal_strlit("0");
        reveal_strlit("1");
        reveal_strlit("2");
        reveal_strlit("3");
        reveal_strlit("4");
        reveal_strlit("5");
        reveal_strlit("6");
        reveal_strlit("7");
        reveal_strlit("8");
        reveal_strlit("9");
    }
    let d = n % 10;
    let text = if d == 0 {
        "0"
    } else if d == 1 {
        "1"
    } else if d == 2 {
        "2"
    } else if d == 3 {
        "3"
    } else if d == 4 {
        "4"
    } else if d == 5 {
        "5"
    } else if d == 6 {
        "6"
    } else if d == 7 {
        "7"
    } else if d == 8 {
        "8"
    } else {
        "9"
    };
    assert(text@ =~= seq![digit_of(n as nat)]);
    text
}

/// A number in decimal, without leading zeros.
pub fn decimal(n: u64) -> (text: String)
    ensures
        text@ == decimal_spec(n as nat),
    decreases n,
{
    if n < 10 {
        digit(n).to_owned()
    } else {
        let mut text = decimal(n / 10);
        text.append(digit(n));
        assert(text@ =~= decimal_spec((n / 10) as nat).push(digit_of(n as nat)));
        text
    }
}

/// The `Debug` form of a text: the text in double quotes, with what would
/// not show in them escaped. Nothing more is promised of it.
#[verifier::external_body]
pub(crate) fn quoted(text: &str) -> (shown: String) {
    format!("{text:?}")
}

} // verus!
