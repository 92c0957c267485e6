//! Generation of the 25-character alphanumeric confirmation token.
use vstd::prelude::*;

verus! {

/// The token alphabet: ASCII digits and upper- and lower-case letters.
pub open spec fn is_token_char(c: char) -> bool {
    let u = c as u32;
    (0x30 <= u && u <= 0x39) || (0x41 <= u && u <= 0x5A) || (0x61 <= u && u <= 0x7A)
}

/// A well-formed subscription token: exactly 25 characters, all drawn from
/// the token alphabet.
pub open spec fn is_token(s: Seq<char>) -> bool {
    &&& s.len() == 25
    &&& forall|i: int| 0 <= i < s.len() ==> is_token_char(s[i])
}

/// Relies on rand's thread-local RNG sampling the `Alphanumeric`
/// distribution: every sample is an ASCII digit or letter. Nothing more is
/// assumed of the draw.
#[verifier::external_body]
fn sample_alphanumeric() -> (c: char)
    ensures
        is_token_char(c),
{
    let mut rng = rand::thread_rng();
    char::from(rand::Rng::sample(&mut rng, rand::distributions::Alphanumeric))
}

/// Relies on `String`'s `FromIterator<char>` implementation: collecting
/// characters yields the string of exactly those characters in order.
#[verifier::external_body]
fn chars_to_string(v: Vec<char>) -> (s: String)
    ensures
        s@ == v@,
{
    v.into_iter().collect()
}

/// Generate a random 25-characters-long case-sensitive subscription token.
pub fn generate_subscription_token() -> (t: String)
    ensures
        is_token(t@),
{
    let mut chars: Vec<char> = Vec::new();
    let mut i: usize = 0;
    while i < 25
        invariant
            0 <= i <= 25,
            chars@.len() == i,
            forall|j: int| 0 <= j < i ==> is_token_char(chars@[j]),
        decreases 25 - i,
    {
        chars.push(sample_alphanumeric());
        i += 1;
    }
    chars_to_string(chars)
}

} // verus!
