//! Base64 encoding of digest bytes.
//!
//! The digests and signatures this crate produces are carried in HTTP headers
//! as standard base64 text with `=` padding. The encoding itself is done by
//! the `base64` crate; [`base64_of`] states, byte for byte, what that call
//! returns, so that every header value has an exact description.

use vstd::prelude::*;

verus! {

/// The character of the standard base64 alphabet at index `i`
/// (`A`-`Z`, `a`-`z`, `0`-`9`, `+`, `/`), for `0 <= i < 64`.
pub open spec fn b64_char(i: int) -> char {
    if 0 <= i < 26 {
        ((65 + i) as u32) as char
    } else if 26 <= i < 52 {
        ((97 + (i - 26)) as u32) as char
    } else if 52 <= i < 62 {
        ((48 + (i - 52)) as u32) as char
    } else if i == 62 {
        '+'
    } else {
        '/'
    }
}

/// Standard base64 with padding: each group of three input bytes becomes
/// four characters of [`b64_char`]'s alphabet; a trailing group of one or
/// two bytes is padded with `==` or `=`.
pub open spec fn base64_of(s: Seq<u8>) -> Seq<char>
    decreases s.len(),
{
    if s.len() == 0 {
        Seq::empty()
    } else if s.len() == 1 {
        let n = s[0] as int;
        seq![b64_char(n / 4), b64_char((n % 4) * 16), '=', '=']
    } else if s.len() == 2 {
        let n = s[0] as int * 256 + s[1] as int;
        seq![b64_char(n / 1024), b64_char((n / 16) % 64), b64_char((n % 16) * 4), '=']
    } else {
        let n = s[0] as int * 65536 + s[1] as int * 256 + s[2] as int;
        seq![
            b64_char(n / 262144),
            b64_char((n / 4096) % 64),
            b64_char((n / 64) % 64),
            b64_char(n % 64),
        ] + base64_of(s.skip(3))
    }
}

/// Relies on `base64::encode`: the standard alphabet with `=` padding,
/// exactly as [`base64_of`] lays it out.
#[verifier::external_body]
pub(crate) fn base64_string(data: &[u8]) -> (r: String)
    ensures
        r@ == base64_of(data@),
{
    base64::encode(data)
}

} // verus!
