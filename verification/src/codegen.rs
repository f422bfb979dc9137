//! Short-code generation: a random 64-bit sample, encoded in base 62 and cut
//! to at most 8 characters. The base-62 representation is pinned down exactly
//! as a spec function, so callers know which string each sample produces.

use vstd::prelude::*;
use vstd::string::StringExecFns;
use vstd::string::StrSliceExecFns;

verus! {

/// One base-62 digit as a character, in the standard ordering: `0`-`9`, then
/// `A`-`Z`, then `a`-`z`.
pub open spec fn base62_digit(d: int) -> char
    recommends
        0 <= d < 62,
{
    if d < 10 {
        ((d + 48) as u8) as char
    } else if d < 36 {
        ((d + 55) as u8) as char
    } else {
        ((d + 61) as u8) as char
    }
}

/// The base-62 representation of `n`, most significant digit first; zero is
/// the single digit `0`.
pub open spec fn base62_rep(n: nat) -> Seq<char>
    decreases n,
{
    if n < 62 {
        seq![base62_digit(n as int)]
    } else {
        base62_rep(n / 62) + seq![base62_digit((n % 62) as int)]
    }
}

/// A character of the base-62 alphabet.
pub open spec fn is_base62_char(c: char) -> bool {
    (48 <= c as u32 && c as u32 <= 57)
    || (65 <= c as u32 && c as u32 <= 90)
    || (97 <= c as u32 && c as u32 <= 122)
}

/// A well-formed short code: one to eight base-62 characters.
pub open spec fn is_valid_code(c: Seq<char>) -> bool {
    1 <= c.len() <= 8 && (forall|i: int| 0 <= i < c.len() ==> is_base62_char(c[i]))
}

proof fn lemma_base62_digit_is_base62(d: int)
    requires
        0 <= d < 62,
    ensures
        is_base62_char(base62_digit(d)),
{
}

proof fn lemma_base62_rep_chars(n: nat)
    ensures
        base62_rep(n).len() >= 1,
        forall|i: int| 0 <= i < base62_rep(n).len() ==> is_base62_char(base62_rep(n)[i]),
    decreases n,
{
    if n < 62 {
        lemma_base62_digit_is_base62(n as int);
    } else {
        lemma_base62_rep_chars(n / 62);
        lemma_base62_digit_is_base62((n % 62) as int);
    }
}

/// Relies on base62::encode with its standard alphabet (digits, then
/// uppercase, then lowercase): the base-62 digits of `n`, most significant
/// first, with `"0"` for zero.
#[verifier::external_body]
fn base62_encode(n: u64) -> (r: String)
    ensures
        r@ == base62_rep(n as nat),
{
    base62::encode(n)
}

/// Relies on rand::random: one sample from the thread-local generator over
/// all of `u64`. Nothing is promised of the value.
#[verifier::external_body]
fn random_u64() -> u64 {
    rand::random::<u64>()
}

/// The short code derived from `n`: its base-62 digits, truncated to the
/// first 8 characters where the representation is longer.
pub open spec fn short_code_of(n: nat) -> Seq<char> {
    if base62_rep(n).len() <= 8 {
        base62_rep(n)
    } else {
        base62_rep(n).subrange(0, 8)
    }
}

/// Encodes `n` in base 62 and keeps at most the first 8 characters.
pub fn encode_short_code(n: u64) -> (r: String)
    ensures
        r@ == short_code_of(n as nat),
        is_valid_code(r@),
{
    proof {
        lemma_base62_rep_chars(n as nat);
    }
    let s = base62_encode(n);
    let len = s.as_str().unicode_len();
    if len <= 8 {
        s
    } else {
        let t = s.as_str().substring_char(0, 8);
        String::from_str(t)
    }
}

/// A fresh short code: at most 8 base-62 characters, derived from one random
/// 64-bit sample. No uniqueness is promised: two calls may collide.
pub fn generate_short_code() -> (r: String)
    ensures
        is_valid_code(r@),
{
    encode_short_code(random_u64())
}

} // verus!
