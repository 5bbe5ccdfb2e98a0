//! Base64 text of byte strings (standard alphabet, `=` padding), as the
//! registry stores public keys.
use base64::Engine;
use vstd::prelude::*;

verus! {

/// The character for the 6-bit group `i` in the standard alphabet.
pub open spec fn b64_char(i: int) -> char {
    if i < 26 {
        (65 + i) as char
    } else if i < 52 {
        (97 + (i - 26)) as char
    } else if i < 62 {
        (48 + (i - 52)) as char
    } else if i == 62 {
        '+'
    } else {
        '/'
    }
}

/// Standard base64 text of `data`: every three bytes become four
/// characters; a last group of one or two bytes is padded with `=`.
pub open spec fn spec_base64_standard(data: Seq<u8>) -> Seq<char>
    decreases data.len(),
{
    let b0 = data[0] as int;
    let b1 = data[1] as int;
    let b2 = data[2] as int;
    if data.len() == 0 {
        seq![]
    } else if data.len() == 1 {
        seq![b64_char(b0 / 4), b64_char((b0 % 4) * 16), '=', '=']
    } else if data.len() == 2 {
        seq![
            b64_char(b0 / 4),
            b64_char((b0 % 4) * 16 + b1 / 16),
            b64_char((b1 % 16) * 4),
            '=',
        ]
    } else {
        seq![
            b64_char(b0 / 4),
            b64_char((b0 % 4) * 16 + b1 / 16),
            b64_char((b1 % 16) * 4 + b2 / 64),
            b64_char(b2 % 64),
        ] + spec_base64_standard(data.skip(3))
    }
}

/// The standard alphabet: `A`-`Z`, `a`-`z`, `0`-`9`, then `+` and `/`.
pub proof fn lemma_base64_alphabet()
    ensures
        b64_char(0) == 'A',
        b64_char(25) == 'Z',
        b64_char(26) == 'a',
        b64_char(51) == 'z',
        b64_char(52) == '0',
        b64_char(61) == '9',
        b64_char(62) == '+',
        b64_char(63) == '/',
{
}

/// Base64 text is four characters for every started group of three bytes.
pub proof fn lemma_base64_len(data: Seq<u8>)
    ensures
        spec_base64_standard(data).len() == 4 * ((data.len() + 2) / 3),
    decreases data.len(),
{
    if data.len() >= 3 {
        lemma_base64_len(data.skip(3));
    }
}

/// `base64::engine::general_purpose::STANDARD.encode`: the standard base64
/// text of `data`. The crate panics when the text's length overflows
/// `usize`, which `requires` rules out.
#[verifier::external_body]
pub(crate) fn base64_standard_encode(data: &[u8]) -> (text: String)
    requires
        4 * ((data@.len() + 2) / 3) <= usize::MAX,
    ensures
        text@ == spec_base64_standard(data@),
{
    base64::engine::general_purpose::STANDARD.encode(data)
}

} // verus!
