//! Rendering of the device's acknowledgement for the terminal.

use vstd::prelude::*;
use vstd::string::*;

verus! {

/// The sixteen lowercase hexadecimal digits, in order of their value.
pub open spec fn hex_digits() -> Seq<char> {
    seq!['0', '1', '2', '3', '4', '5', '6', '7', '8', '9', 'a', 'b', 'c', 'd', 'e', 'f']
}

/// The character at position `k` of the rendering of `bytes`: each byte takes
/// three places, its high digit, its low digit and a space.
pub open spec fn hex_char(bytes: Seq<u8>, k: int) -> char {
    let byte = bytes[k / 3] as int;
    if k % 3 == 0 {
        hex_digits()[byte / 16]
    } else if k % 3 == 1 {
        hex_digits()[byte % 16]
    } else {
        ' '
    }
}

/// The rendering of `bytes`: two lowercase hexadecimal digits and a space for
/// every byte, in order.
pub open spec fn hex_text(bytes: Seq<u8>) -> Seq<char> {
    Seq::new(3 * bytes.len(), |k: int| hex_char(bytes, k))
}

/// The digit of a value below sixteen, as a string of one character.
fn digit(value: u8) -> (text: &'static str)
    requires
        value < 16,
    ensures
        text@ == seq![hex_digits()[value as int]],
{
    proof {
        reveal_strlit("0");
        reveal_strlit("1");
        reveal_strlit("2");
        reveal_strlit("3");
        reveal_strlit("4");
        reveal_strlit("5");
        reveal_strlit("6");
        reveal_strlit("7");
        reveal_strlit("8");
        reveal_strlit("9");
        reveal_strlit("a");
        reveal_strlit("b");
        reveal_strlit("c");
        reveal_strlit("d");
        reveal_strlit("e");
        reveal_strlit("f");
    }
    let text = match value {
        0 => "0",
        1 => "1",
        2 => "2",
        3 => "3",
        4 => "4",
        5 => "5",
        6 => "6",
        7 => "7",
        8 => "8",
        9 => "9",
        10 => "a",
        11 => "b",
        12 => "c",
        13 => "d",
        14 => "e",
        _ => "f",
    };
    assert(text@ =~= seq![hex_digits()[value as int]]);
    text
}

/// Renders received bytes as lowercase hexadecimal, each byte followed by a space.
pub fn hex_line(bytes: &[u8]) -> (text: String)
    ensures
        text@ == hex_text(bytes@),
{
    let mut text = String::new();
    let mut i: usize = 0;
    while i < bytes.len()
        invariant
            i <= bytes.len(),
            text@.len() == 3 * i,
            forall|k: int| 0 <= k < 3 * i ==> text@[k] == hex_char(bytes@, k),
        decreases bytes.len() - i,
    {
        let byte = bytes[i];
        let ghost before = text@;
        proof {
            reveal_strlit(" ");
        }
        text.append(digit(byte / 16));
        text.append(digit(byte % 16));
        text.append(" ");
        proof {
            assert(text@ =~= before + seq![hex_digits()[byte as int / 16]] + seq![
                hex_digits()[byte as int % 16],
            ] + seq![' ']);
            assert forall|k: int| 0 <= k < 3 * (i + 1) implies text@[k] == hex_char(
                bytes@,
                k,
            ) by {
                if k >= 3 * i {
                    assert(k / 3 == i as int);
                }
            }
        }
        i += 1;
    }
    assert(text@ =~= hex_text(bytes@));
    text
}

/// The rendering is three characters for every byte.
pub proof fn lemma_hex_text_length(bytes: Seq<u8>)
    ensures
        hex_text(bytes).len() == 3 * bytes.len(),
{
}

/// The rendering of a byte sequence tells the bytes: different sequences
/// render differently.
pub proof fn lemma_hex_text_is_faithful(first: Seq<u8>, second: Seq<u8>)
    requires
        hex_text(first) == hex_text(second),
    ensures
        first == second,
{
    lemma_hex_text_length(first);
    lemma_hex_text_length(second);
    assert forall|i: int| 0 <= i < first.len() implies first[i] == second[i] by {
        let high = 3 * i;
        let low = 3 * i + 1;
        assert(hex_text(first)[high] == hex_char(first, high));
        assert(hex_text(second)[high] == hex_char(second, high));
        assert(hex_text(first)[low] == hex_char(first, low));
        assert(hex_text(second)[low] == hex_char(second, low));
        assert(high / 3 == i && high % 3 == 0);
        assert(low / 3 == i && low % 3 == 1);
        lemma_digits_differ(first[i] as int / 16, second[i] as int / 16);
        lemma_digits_differ(first[i] as int % 16, second[i] as int % 16);
    }
    assert(first =~= second);
}

/// Different values below sixteen have different digits.
proof fn lemma_digits_differ(a: int, b: int)
    requires
        0 <= a < 16,
        0 <= b < 16,
        hex_digits()[a] == hex_digits()[b],
    ensures
        a == b,
{
}

} // verus!
