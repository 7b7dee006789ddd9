use vstd::prelude::*;

verus! {

/// Redis key under which a pending sign-up for `email` waits for its code.
pub open spec fn signup_key_of(email: Seq<char>) -> Seq<char> {
    "signup:"@ + email
}

/// Redis key under which a pending password reset for `email` waits for its code.
pub open spec fn reset_key_of(email: Seq<char>) -> Seq<char> {
    "fpwd:"@ + email
}

/// Builds `signup:<email>`.
pub fn signup_key(email: &str) -> (k: String)
    ensures
        k@ == signup_key_of(email@),
{
    let mut k = String::from_str("signup:");
    k.append(email);
    k
}

/// Builds `fpwd:<email>`.
pub fn reset_key(email: &str) -> (k: String)
    ensures
        k@ == reset_key_of(email@),
{
    let mut k = String::from_str("fpwd:");
    k.append(email);
    k
}

} // verus!
