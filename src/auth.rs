use vstd::prelude::*;

verus! {

/// The lower-case form of a text, as `str::to_lowercase` computes it.
pub uninterp spec fn lower_of(s: Seq<char>) -> Seq<char>;

/// Relies on str::to_lowercase: the result depends on the text alone.
#[verifier::external_body]
fn lowercase(s: &str) -> (r: String)
    ensures
        r@ == lower_of(s@),
{
    s.to_lowercase()
}

/// What every request authenticates with (HTTP basic authentication).
#[derive(Debug)]
pub struct Credentials {
    /// The user name: the account's email address
    pub email: String,
    /// The password: the account's API key, lower-cased
    pub password: String,
}

impl Credentials {
    /// The credentials of the account with this email address and API key.
    pub fn new(email: String, api_key: &str) -> (r: Credentials)
        ensures
            r.email == email,
            r.password@ == lower_of(api_key@),
    {
        Credentials { email, password: lowercase(api_key) }
    }
}

} // verus!
