//! Generation of random alphanumeric tokens.
//!
//! Each token is a string of `CODE_LEN` characters drawn independently
//! from `A`-`Z`, `a`-`z`, `0`-`9`. Writing the tokens to a file, and the
//! optional echo of each one, stay with the application.

use vstd::prelude::*;

verus! {

/// Length of every generated token.
pub const CODE_LEN: usize = 16;

/// The ASCII code points of `0`-`9`, `A`-`Z`, `a`-`z`.
pub open spec fn is_alnum_code(n: int) -> bool {
    (48 <= n <= 57) || (65 <= n <= 90) || (97 <= n <= 122)
}

/// One of the 62 bytes the token alphabet consists of.
pub open spec fn is_alnum_byte(b: u8) -> bool {
    is_alnum_code(b as int)
}

/// One of the 62 characters of the token alphabet.
pub open spec fn is_alnum_char(c: char) -> bool {
    is_alnum_code(c as int)
}

/// A well-formed token: exactly `CODE_LEN` characters, all alphanumeric.
pub open spec fn code_wf(code: Seq<char>) -> bool {
    code.len() == CODE_LEN && forall|i: int| 0 <= i < code.len() ==> is_alnum_char(code[i])
}

/// Relies on rand's `Alphanumeric` distribution: every sample is one of
/// the 62 ASCII bytes `A`-`Z`, `a`-`z`, `0`-`9`.
#[verifier::external_body]
fn sample_alphanumeric() -> (r: u8)
    ensures
        is_alnum_byte(r),
{
    rand::Rng::sample(&mut rand::thread_rng(), rand::distributions::Alphanumeric)
}

/// Relies on `String::from_utf8`: ASCII bytes are valid UTF-8, and each
/// decodes to the character with the same code point.
#[verifier::external_body]
fn ascii_string(bytes: Vec<u8>) -> (r: String)
    requires
        forall|i: int| 0 <= i < bytes@.len() ==> bytes@[i] < 128,
    ensures
        r@.len() == bytes@.len(),
        forall|i: int| 0 <= i < bytes@.len() ==> r@[i] as int == bytes@[i] as int,
{
    match String::from_utf8(bytes) {
        Ok(s) => s,
        Err(_) => String::new(),
    }
}

/// Generates one random token of `CODE_LEN` alphanumeric characters.
pub fn generate_code() -> (r: String)
    ensures
        code_wf(r@),
{
    let mut bytes: Vec<u8> = Vec::new();
    let mut i: usize = 0;
    while i < CODE_LEN
        invariant
            i <= CODE_LEN,
            bytes@.len() == i,
            forall|j: int| 0 <= j < i ==> is_alnum_byte(bytes@[j]),
        decreases CODE_LEN - i,
    {
        bytes.push(sample_alphanumeric());
        i += 1;
    }
    let r = ascii_string(bytes);
    proof {
        assert forall|j: int| 0 <= j < r@.len() implies is_alnum_char(r@[j]) by {
            assert(is_alnum_byte(bytes@[j]));
        }
    }
    r
}

} // verus!
