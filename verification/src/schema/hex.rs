//! Checksums in the lock file are written in hexadecimal.

use vstd::prelude::*;
use vstd::string::StrSliceExecFns;

verus! {

/// The hexadecimal digit of a value below sixteen, in lower case.
pub open spec fn hex_digit(n: int) -> char {
    if n == 0 {
        '0'
    } else if n == 1 {
        '1'
    } else if n == 2 {
        '2'
    } else if n == 3 {
        '3'
    } else if n == 4 {
        '4'
    } else if n == 5 {
        '5'
    } else if n == 6 {
        '6'
    } else if n == 7 {
        '7'
    } else if n == 8 {
        '8'
    } else if n == 9 {
        '9'
    } else if n == 10 {
        'a'
    } else if n == 11 {
        'b'
    } else if n == 12 {
        'c'
    } else if n == 13 {
        'd'
    } else if n == 14 {
        'e'
    } else {
        'f'
    }
}

/// The value of a hexadecimal digit of either case, `None` for any other
/// character.
pub open spec fn nibble_of(c: char) -> Option<u8> {
    if c == '0' {
        Some(0u8)
    } else if c == '1' {
        Some(1u8)
    } else if c == '2' {
        Some(2u8)
    } else if c == '3' {
        Some(3u8)
    } else if c == '4' {
        Some(4u8)
    } else if c == '5' {
        Some(5u8)
    } else if c == '6' {
        Some(6u8)
    } else if c == '7' {
        Some(7u8)
    } else if c == '8' {
        Some(8u8)
    } else if c == '9' {
        Some(9u8)
    } else if c == 'a' || c == 'A' {
        Some(10u8)
    } else if c == 'b' || c == 'B' {
        Some(11u8)
    } else if c == 'c' || c == 'C' {
        Some(12u8)
    } else if c == 'd' || c == 'D' {
        Some(13u8)
    } else if c == 'e' || c == 'E' {
        Some(14u8)
    } else if c == 'f' || c == 'F' {
        Some(15u8)
    } else {
        None
    }
}

/// Bytes in hexadecimal: two lower-case digits for each byte, the high half
/// first.
pub open spec fn hex_spec(bytes: Seq<u8>) -> Seq<char>
    decreases bytes.len(),
{
    if bytes.len() == 0 {
        Seq::empty()
    } else {
        hex_spec(bytes.drop_last()) + seq![
            hex_digit(bytes.last() as int / 16),
            hex_digit(bytes.last() as int % 16),
        ]
    }
}

/// The bytes that a text stands for in hexadecimal: one for each pair of
/// digits; `None` where the text is of odd length or holds another character.
pub open spec fn unhex_spec(text: Seq<char>) -> Option<Seq<u8>>
    decreases text.len(),
{
    if text.len() == 0 {
        Some(Seq::empty())
    } else if text.len() == 1 {
        None
    } else {
        let n = text.len() as int;
        match (unhex_spec(text.take(n - 2)), nibble_of(text[n - 2]), nibble_of(text[n - 1])) {
            (Some(bytes), Some(high), Some(low)) => Some(bytes.push((high * 16 + low) as u8)),
            _ => None,
        }
    }
}

/// The hexadecimal digit of a value below sixteen, as a text.
fn digit(n: u8) -> (text: &'static str)
    requires
        n < 16,
    ensures
        text@ == seq![hex_digit(n as int)],
{
    proof {
        reveal_strlit("0");
        reveal_strlit("1");
        reveal_strlit("2");
        reveal_strlit("3");
        reveal_strlit("4");
        reveal_strlit("5");
        reveal_strlit("6");
        reveal_strlit("7");
        reveal_strlit("8");
        reveal_strlit("9");
        reveal_strlit("a");
        reveal_strlit("b");
        reveal_strlit("c");
        reveal_strlit("d");
        reveal_strlit("e");
        reveal_strlit("f");
    }
    let text = match n {
        0 => "0",
        1 => "1",
        2 => "2",
        3 => "3",
        4 => "4",
        5 => "5",
        6 => "6",
        7 => "7",
        8 => "8",
        9 => "9",
        10 => "a",
        11 => "b",
        12 => "c",
        13 => "d",
        14 => "e",
        _ => "f",
    };
    assert(text@ =~= seq![hex_digit(n as int)]);
    text
}

/// The value of a hexadecimal digit of either case.
fn nibble(c: char) -> (value: Option<u8>)
    ensures
        value == nibble_of(c),
        value matches Some(n) ==> n < 16,
{
    match c {
        '0' => Some(0),
        '1' => Some(1),
        '2' => Some(2),
        '3' => Some(3),
        '4' => Some(4),
        '5' => Some(5),
        '6' => Some(6),
        '7' => Some(7),
        '8' => Some(8),
        '9' => Some(9),
        'a' | 'A' => Some(10),
        'b' | 'B' => Some(11),
        'c' | 'C' => Some(12),
        'd' | 'D' => Some(13),
        'e' | 'E' => Some(14),
        'f' | 'F' => Some(15),
        _ => None,
    }
}

/// Write bytes in hexadecimal.
pub fn encode(bytes: &[u8]) -> (text: String)
    ensures
        text@ == hex_spec(bytes@),
{
    let mut text = String::new();
    let mut i: usize = 0;
    assert(bytes@.take(0) =~= Seq::<u8>::empty());
    while i < bytes.len()
        invariant
            i <= bytes@.len(),
            text@ == hex_spec(bytes@.take(i as int)),
        decreases bytes@.len() - i,
    {
        let byte = bytes[i];
        proof {
            let upto = bytes@.take(i + 1);
            assert(upto.drop_last() == bytes@.take(i as int));
            assert(upto.last() == byte);
        }
        text.append(digit(byte / 16));
        text.append(digit(byte % 16));
        assert(text@ =~= hex_spec(bytes@.take(i as int)) + seq![
            hex_digit(byte as int / 16),
            hex_digit(byte as int % 16),
        ]);
        i += 1;
    }
    assert(bytes@.take(i as int) == bytes@);
    text
}

/// A text of odd length stands for no bytes.
proof fn lemma_odd_is_none(text: Seq<char>)
    requires
        text.len() % 2 == 1,
    ensures
        unhex_spec(text) is None,
    decreases text.len(),
{
    if text.len() > 1 {
        lemma_odd_is_none(text.take(text.len() - 2));
    }
}

/// Where a text stands for bytes, so does what comes before any of its
/// pairs of digits.
proof fn lemma_prefix_is_some(text: Seq<char>, k: int)
    requires
        unhex_spec(text) is Some,
        0 <= k <= text.len(),
        k % 2 == 0,
    ensures
        unhex_spec(text.take(k)) is Some,
    decreases text.len(),
{
    if text.len() % 2 == 1 {
        lemma_odd_is_none(text);
    } else if k == text.len() {
        assert(text.take(k) == text);
    } else {
        let n = text.len() as int;
        lemma_prefix_is_some(text.take(n - 2), k);
        assert(text.take(n - 2).take(k) == text.take(k));
    }
}

/// Read bytes from hexadecimal.
pub fn decode(text: &str) -> (bytes: Option<Vec<u8>>)
    ensures
        match bytes {
            Some(read) => unhex_spec(text@) == Some(read@),
            None => unhex_spec(text@) is None,
        },
{
    let n = text.unicode_len();
    if n % 2 != 0 {
        proof {
            lemma_odd_is_none(text@);
        }
        return None;
    }
    let mut read: Vec<u8> = Vec::new();
    let mut i: usize = 0;
    assert(text@.take(0) =~= Seq::<char>::empty());
    while i < n
        invariant
            i <= n,
            n == text@.len(),
            n % 2 == 0,
            i % 2 == 0,
            unhex_spec(text@.take(i as int)) == Some(read@),
        decreases n - i,
    {
        let high = nibble(text.get_char(i));
        let low = nibble(text.get_char(i + 1));
        proof {
            let upto = text@.take(i + 2);
            assert(upto.take(upto.len() - 2) == text@.take(i as int));
            assert(upto[upto.len() - 2] == text@[i as int]);
            assert(upto[upto.len() - 1] == text@[i + 1]);
        }
        match (high, low) {
            (Some(h), Some(l)) => {
                read.push(h * 16 + l);
            },
            _ => {
                proof {
                    if unhex_spec(text@) is Some {
                        lemma_prefix_is_some(text@, i + 2);
                    }
                }
                return None;
            },
        }
        i += 2;
    }
    assert(text@.take(i as int) == text@);
    Some(read)
}

/// What is written in hexadecimal reads back as the bytes it was written
/// from.
pub proof fn lemma_hex_round_trip(bytes: Seq<u8>)
    ensures
        unhex_spec(hex_spec(bytes)) == Some(bytes),
    decreases bytes.len(),
{
    if bytes.len() > 0 {
        let text = hex_spec(bytes);
        let n = text.len() as int;
        let earlier = hex_spec(bytes.drop_last());
        lemma_hex_round_trip(bytes.drop_last());
        assert(text.take(n - 2) == earlier);
        let high = bytes.last() as int / 16;
        let low = bytes.last() as int % 16;
        assert(text[n - 2] == hex_digit(high));
        assert(text[n - 1] == hex_digit(low));
        assert(nibble_of(hex_digit(high)) == Some(high as u8));
        assert(nibble_of(hex_digit(low)) == Some(low as u8));
        assert(bytes.drop_last().push(bytes.last()) == bytes);
    }
}

} // verus!
