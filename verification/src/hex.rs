use vstd::prelude::*;

verus! {

/// The lower-case hexadecimal digit of a nibble.
pub open spec fn hex_digit(n: int) -> char {
    if n < 10 {
        (48 + n) as char
    } else {
        (87 + n) as char
    }
}

/// Whether `c` is one of `0`-`9`, `a`-`f`.
pub open spec fn is_lower_hex_digit(c: char) -> bool {
    ('0' <= c && c <= '9') || ('a' <= c && c <= 'f')
}

/// The value of a lower-case hexadecimal digit, as a reader parses it.
pub open spec fn hex_value(c: char) -> int {
    if '0' <= c && c <= '9' {
        c as int - '0' as int
    } else {
        c as int - 'a' as int + 10
    }
}

/// Every nibble is written as one lower-case digit that reads back as it.
pub proof fn lemma_hex_digit_reads_back(n: int)
    requires
        0 <= n < 16,
    ensures
        is_lower_hex_digit(hex_digit(n)),
        hex_value(hex_digit(n)) == n,
{
}

/// Two lower-case hexadecimal digits per byte, high nibble first.
pub open spec fn hex_encoding(bytes: Seq<u8>) -> Seq<char>
    decreases bytes.len(),
{
    if bytes.len() == 0 {
        Seq::empty()
    } else {
        let b = bytes.last();
        hex_encoding(bytes.drop_last()).push(hex_digit(b as int / 16)).push(hex_digit(b as int % 16))
    }
}

/// The encoding has two characters per byte.
pub proof fn lemma_hex_encoding_len(bytes: Seq<u8>)
    ensures
        hex_encoding(bytes).len() == 2 * bytes.len(),
    decreases bytes.len(),
{
    if bytes.len() > 0 {
        lemma_hex_encoding_len(bytes.drop_last());
    }
}

/// Each byte is written as two lower-case hexadecimal digits, at positions
/// `2 * i` and `2 * i + 1`, that read back as the byte: high nibble first.
pub proof fn lemma_hex_encoding_reads_back(bytes: Seq<u8>)
    ensures
        hex_encoding(bytes).len() == 2 * bytes.len(),
        forall|i: int|
            0 <= i < bytes.len() ==> {
                &&& is_lower_hex_digit(#[trigger] hex_encoding(bytes)[2 * i])
                &&& is_lower_hex_digit(hex_encoding(bytes)[2 * i + 1])
                &&& hex_value(hex_encoding(bytes)[2 * i]) * 16 + hex_value(
                    hex_encoding(bytes)[2 * i + 1],
                ) == bytes[i]
            },
    decreases bytes.len(),
{
    lemma_hex_encoding_len(bytes);
    if bytes.len() > 0 {
        let prefix = bytes.drop_last();
        lemma_hex_encoding_reads_back(prefix);
        lemma_hex_encoding_len(prefix);
        let b = bytes.last();
        lemma_hex_digit_reads_back(b as int / 16);
        lemma_hex_digit_reads_back(b as int % 16);
        assert forall|i: int| 0 <= i < bytes.len() implies {
            &&& is_lower_hex_digit(#[trigger] hex_encoding(bytes)[2 * i])
            &&& is_lower_hex_digit(hex_encoding(bytes)[2 * i + 1])
            &&& hex_value(hex_encoding(bytes)[2 * i]) * 16 + hex_value(
                hex_encoding(bytes)[2 * i + 1],
            ) == bytes[i]
        } by {
            if i < bytes.len() - 1 {
                assert(hex_encoding(bytes)[2 * i] == hex_encoding(prefix)[2 * i]);
                assert(hex_encoding(bytes)[2 * i + 1] == hex_encoding(prefix)[2 * i + 1]);
                assert(bytes[i] == prefix[i]);
            }
        }
    }
}

/// Calls `String::push`, which appends one character to the string.
#[verifier::external_body]
fn string_push(s: &mut String, c: char)
    ensures
        final(s)@ == old(s)@.push(c),
{
    s.push(c);
}

fn nibble_digit(n: u8) -> (c: char)
    requires
        n < 16,
    ensures
        c == hex_digit(n as int),
{
    if n < 10 {
        (48 + n) as char
    } else {
        (87 + n) as char
    }
}

/// The bytes written as lower-case hexadecimal, two digits per byte.
pub fn hex(bytes: &[u8]) -> (s: String)
    ensures
        s@ == hex_encoding(bytes@),
        s@.len() == 2 * bytes@.len(),
        forall|i: int|
            0 <= i < bytes@.len() ==> {
                &&& is_lower_hex_digit(#[trigger] s@[2 * i])
                &&& is_lower_hex_digit(s@[2 * i + 1])
                &&& hex_value(s@[2 * i]) * 16 + hex_value(s@[2 * i + 1]) == bytes@[i]
            },
{
    let mut s = String::new();
    let mut i: usize = 0;
    while i < bytes.len()
        invariant
            i <= bytes@.len(),
            s@ == hex_encoding(bytes@.subrange(0, i as int)),
        decreases bytes@.len() - i,
    {
        let b = bytes[i];
        assert(bytes@.subrange(0, i + 1).drop_last() =~= bytes@.subrange(0, i as int));
        string_push(&mut s, nibble_digit(b / 16));
        string_push(&mut s, nibble_digit(b % 16));
        i = i + 1;
    }
    assert(bytes@.subrange(0, i as int) =~= bytes@);
    proof {
        lemma_hex_encoding_len(bytes@);
        lemma_hex_encoding_reads_back(bytes@);
    }
    s
}

} // verus!
