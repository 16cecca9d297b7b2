//! Generation of the single-use confirmation token: 25 characters drawn
//! from the alphanumeric alphabet by a cryptographically unpredictable
//! source of randomness.

use vstd::prelude::*;
use vstd::string::*;

verus! {

/// A character of the token alphabet: ASCII digits and letters.
pub open spec fn alphanumeric_char(c: char) -> bool {
    (48 <= c as u32 && c as u32 <= 57)  // '0' ..= '9'
     || (65 <= c as u32 && c as u32 <= 90)  // 'A' ..= 'Z'
     || (97 <= c as u32 && c as u32 <= 122)  // 'a' ..= 'z'
}

/// Every character of the sequence is alphanumeric.
pub open spec fn all_alphanumeric(s: Seq<char>) -> bool {
    forall|i: int| 0 <= i < s.len() ==> alphanumeric_char(s[i])
}

/// Relies on `rand::Rng::sample` with `rand::distributions::Alphanumeric`:
/// one byte drawn uniformly from `A-Z`, `a-z`, `0-9`, using the
/// cryptographically secure thread-local generator.
#[verifier::external_body]
fn sample_alphanumeric() -> (r: String)
    ensures
        r@.len() == 1,
        alphanumeric_char(r@[0]),
{
    let c: char = char::from(rand::Rng::sample(&mut rand::thread_rng(), rand::distributions::Alphanumeric));
    c.to_string()
}

/// The fixed length of a subscription token.
pub const TOKEN_LENGTH: usize = 25;

/// Generates a confirmation token: exactly 25 alphanumeric characters,
/// unpredictable to anyone without the generator's entropy.
pub fn generate_subscription_token() -> (r: String)
    ensures
        r@.len() == TOKEN_LENGTH,
        all_alphanumeric(r@),
{
    let mut token = String::new();
    let mut i: usize = 0;
    while i < TOKEN_LENGTH
        invariant
            i <= TOKEN_LENGTH,
            token@.len() == i,
            all_alphanumeric(token@),
        decreases TOKEN_LENGTH - i,
    {
        let c = sample_alphanumeric();
        token.append(c.as_str());
        i += 1;
    }
    token
}

} // verus!
