use rand::Rng;
use vstd::prelude::*;

verus! {

/// True of the characters the identifier alphabet draws from:
/// `A`-`Z`, `a`-`z`, `0`-`9` (62 symbols).
pub open spec fn is_base62_char(c: char) -> bool {
    ('A' <= c && c <= 'Z') || ('a' <= c && c <= 'z') || ('0' <= c && c <= '9')
}

/// Relies on rand's `Rng::gen_range`: the sample lies within the given
/// range, which `n > 0` keeps non-empty.  Nothing else is assumed of
/// the sample; every caller must cope with every value below `n`.
#[verifier::external_body]
fn random_below(n: u8) -> (r: u8)
    requires
        n > 0,
    ensures
        r < n,
{
    rand::thread_rng().gen_range(0..n)
}

/// Relies on `String::from_utf8`: ASCII bytes are valid UTF-8 and
/// decode to exactly one character each, with the same code point.
#[verifier::external_body]
fn ascii_to_string(bytes: Vec<u8>) -> (s: String)
    requires
        forall|i: int| 0 <= i < bytes@.len() ==> bytes@[i] < 128,
    ensures
        s@.len() == bytes@.len(),
        forall|i: int| 0 <= i < bytes@.len() ==> s@[i] == bytes@[i] as char,
{
    match String::from_utf8(bytes) {
        Ok(s) => s,
        Err(_) => String::new(),
    }
}

/// Maps an index below 62 to the byte of its symbol in the identifier
/// alphabet, in the order `A`-`Z`, `a`-`z`, `0`-`9`.
fn base62_byte(i: u8) -> (b: u8)
    requires
        i < 62,
    ensures
        b < 128,
        is_base62_char(b as char),
{
    if i < 26 {
        65 + i
    } else if i < 52 {
        97 + (i - 26)
    } else {
        48 + (i - 52)
    }
}

/// Produces a fresh random identifier of exactly `len` alphanumeric
/// characters.  Keeps no state between calls; uniqueness is not the
/// generator's business — collisions are handled by the shortening
/// service's retry policy.
pub fn generate(len: usize) -> (s: String)
    ensures
        s@.len() == len as int,
        forall|i: int| 0 <= i < len ==> is_base62_char(s@[i]),
{
    let mut bytes: Vec<u8> = Vec::new();
    let mut k: usize = 0;
    while k < len
        invariant
            k <= len,
            bytes@.len() == k as int,
            forall|i: int| 0 <= i < k ==> bytes@[i] < 128 && is_base62_char(bytes@[i] as char),
        decreases len - k,
    {
        let idx: u8 = random_below(62);
        let b: u8 = base62_byte(idx);
        bytes.push(b);
        k = k + 1;
    }
    ascii_to_string(bytes)
}

} // verus!
