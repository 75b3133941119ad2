//! Lowercase hexadecimal text: two digits for each byte, high nibble first.

use vstd::prelude::*;
use vstd::string::StringExecFns;

verus! {

/// The digit for a nibble: `'0'` to `'9'`, then `'a'` to `'f'`.
pub open spec fn hex_digit(nibble: int) -> char
    recommends
        0 <= nibble < 16,
{
    if nibble < 10 {
        ('0' as int + nibble) as char
    } else {
        ('a' as int + nibble - 10) as char
    }
}

/// Whether `c` is one of the sixteen lowercase hexadecimal digits.
pub open spec fn is_lower_hex(c: char) -> bool {
    ('0' as int <= c as int <= '9' as int) || ('a' as int <= c as int <= 'f' as int)
}

/// The text of `bytes`: at `2 * i` the digit for the high nibble of
/// `bytes[i]`, at `2 * i + 1` the digit for its low nibble.
pub open spec fn hex(bytes: Seq<u8>) -> Seq<char> {
    Seq::new(
        2 * bytes.len(),
        |k: int|
            if k % 2 == 0 {
                hex_digit(bytes[k / 2] as int / 16)
            } else {
                hex_digit(bytes[k / 2] as int % 16)
            },
    )
}

/// The text of `N` bytes is exactly `2 * N` characters long, and each of them
/// is a lowercase hexadecimal digit.
pub proof fn lemma_hex_shape(bytes: Seq<u8>)
    ensures
        hex(bytes).len() == 2 * bytes.len(),
        forall|k: int| 0 <= k < hex(bytes).len() ==> is_lower_hex(#[trigger] hex(bytes)[k]),
{
}

/// The text of a sequence with one more byte is the text of the sequence
/// followed by the two digits of that byte.
pub proof fn lemma_hex_push(bytes: Seq<u8>, byte: u8)
    ensures
        hex(bytes.push(byte)) == hex(bytes) + seq![
            hex_digit(byte as int / 16),
            hex_digit(byte as int % 16),
        ],
{
    let left = hex(bytes.push(byte));
    let right = hex(bytes) + seq![hex_digit(byte as int / 16), hex_digit(byte as int % 16)];
    assert(left.len() == right.len());
    assert forall|k: int| 0 <= k < left.len() implies left[k] == right[k] by {
        if k < 2 * bytes.len() {
            assert(bytes.push(byte)[k / 2] == bytes[k / 2]);
        } else {
            assert(bytes.push(byte)[k / 2] == byte);
        }
    }
    assert(left =~= right);
}

/// The digit for `nibble`, as a string of one character.
fn digit(nibble: u8) -> (text: &'static str)
    requires
        nibble < 16,
    ensures
        text@ == seq![hex_digit(nibble as int)],
{
    proof {
        reveal_strlit("0");
        reveal_strlit("1");
        reveal_strlit("2");
        reveal_strlit("3");
        reveal_strlit("4");
        reveal_strlit("5");
        reveal_strlit("6");
        reveal_strlit("7");
        reveal_strlit("8");
        reveal_strlit("9");
        reveal_strlit("a");
        reveal_strlit("b");
        reveal_strlit("c");
        reveal_strlit("d");
        reveal_strlit("e");
        reveal_strlit("f");
    }
    let text = match nibble {
        0 => "0",
        1 => "1",
        2 => "2",
        3 => "3",
        4 => "4",
        5 => "5",
        6 => "6",
        7 => "7",
        8 => "8",
        9 => "9",
        10 => "a",
        11 => "b",
        12 => "c",
        13 => "d",
        14 => "e",
        _ => "f",
    };
    assert(text@ =~= seq![hex_digit(nibble as int)]);
    text
}

/// Appends the text of `bytes` to `out`.
pub fn push_hex(out: &mut String, bytes: &[u8])
    ensures
        final(out)@ == old(out)@ + hex(bytes@),
{
    let mut i: usize = 0;
    assert(out@ =~= old(out)@ + hex(bytes@.take(0)));
    while i < bytes.len()
        invariant
            i <= bytes.len(),
            out@ == old(out)@ + hex(bytes@.take(i as int)),
        decreases bytes.len() - i,
    {
        let byte = bytes[i];
        out.append(digit(byte / 16));
        out.append(digit(byte % 16));
        proof {
            lemma_hex_push(bytes@.take(i as int), byte);
            assert(bytes@.take(i as int).push(byte) =~= bytes@.take(i as int + 1));
            assert(out@ =~= old(out)@ + hex(bytes@.take(i as int + 1)));
        }
        i += 1;
    }
    assert(bytes@.take(i as int) =~= bytes@);
}

} // verus!
