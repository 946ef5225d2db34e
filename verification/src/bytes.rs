use vstd::prelude::*;

verus! {

/// The character that stands for six bits in the standard alphabet of
/// base64.
pub open spec fn base64_char(bits: int) -> char {
    "ABCDEFGHIJKLMNOPQRSTUVWXYZabcdefghijklmnopqrstuvwxyz0123456789+/"@[bits]
}

/// The text of a byte string in base64, with the standard alphabet and with
/// padding: every three bytes give four characters of six bits each, and a
/// last group of one or two bytes is filled up with `=`.
pub open spec fn base64_text(bytes: Seq<u8>) -> Seq<char>
    decreases bytes.len(),
{
    if bytes.len() == 0 {
        Seq::empty()
    } else if bytes.len() == 1 {
        let a = bytes[0] as int;
        seq![base64_char(a / 4), base64_char(a % 4 * 16), '=', '=']
    } else if bytes.len() == 2 {
        let a = bytes[0] as int;
        let b = bytes[1] as int;
        seq![base64_char(a / 4), base64_char(a % 4 * 16 + b / 16), base64_char(b % 16 * 4), '=']
    } else {
        let a = bytes[0] as int;
        let b = bytes[1] as int;
        let c = bytes[2] as int;
        seq![
            base64_char(a / 4),
            base64_char(a % 4 * 16 + b / 16),
            base64_char(b % 16 * 4 + c / 64),
            base64_char(c % 64),
        ] + base64_text(bytes.skip(3))
    }
}

/// The number of characters that the base64 text of `len` bytes has: four
/// for every three bytes, the last group padded.
pub open spec fn base64_len(len: nat) -> nat {
    (len + 2) / 3 * 4
}

/// Whether the base64 text of `len` bytes has a length that a string can
/// have: one of `isize::MAX` at most.
pub open spec fn base64_fits(len: nat) -> bool {
    base64_len(len) <= isize::MAX
}

/// Calls base64's `encode`, which writes a byte string with the standard
/// alphabet and with padding: the contract claims that text. The call
/// panics where the length of the text overflows `usize`, and the buffer
/// that it allocates for the text panics where that length exceeds
/// `isize::MAX`: the contract leaves both out.
#[verifier::external_body]
pub(crate) fn base64_encode(bytes: &[u8]) -> (r: String)
    requires
        base64_fits(bytes@.len()),
    ensures
        r@ == base64_text(bytes@),
{
    ::base64::encode(bytes)
}

/// Whether the base64 text of a byte string of length `len` has a length
/// that a string can have.
pub fn check_base64_fits(len: usize) -> (r: bool)
    ensures
        r == base64_fits(len as nat),
{
    let groups: usize = if len % 3 == 0 {
        len / 3
    } else {
        len / 3 + 1
    };
    let most: usize = isize::MAX as usize;
    groups <= most / 4
}

} // verus!
