//! What the server is set up with.

use vstd::prelude::*;
use vstd::string::StrSliceExecFns;

verus! {

/// How the server reaches the identity provider.
#[derive(Debug, PartialEq)]
pub struct Oauth2Client {
    pub client_id: String,
    pub client_secret: String,
    pub auth_url: String,
    pub redirect_url: String,
    pub redirect_url_egui: String,
    pub token_url: String,
}

/// What the server is set up with.
#[derive(Debug, PartialEq)]
pub struct Configuration {
    pub address: String,
    pub port: u16,
    pub domain: String,
    pub scena_webhook: String,
    pub bot_token: String,
    pub mongo_db_uri: String,
    pub oauth2client: Oauth2Client,
}

/// Whether `text` ends in a slash.
pub open spec fn ends_in_slash(text: Seq<char>) -> bool {
    text.len() > 0 && text.last() == '/'
}

/// Whether `text` ends in a slash.
pub fn has_trailing_slash(text: &str) -> (ends: bool)
    ensures
        ends == ends_in_slash(text@),
{
    let len: usize = text.unicode_len();
    if len == 0 {
        false
    } else {
        text.get_char(len - 1) == '/'
    }
}

impl Oauth2Client {
    /// Whether a client can be built from these addresses: none of the
    /// three that the client is given may end in a slash.
    pub fn is_usable(&self) -> (usable: bool)
        ensures
            usable == (!ends_in_slash(self.auth_url@) && !ends_in_slash(self.token_url@)
                && !ends_in_slash(self.redirect_url@)),
    {
        !has_trailing_slash(self.auth_url.as_str()) && !has_trailing_slash(
            self.token_url.as_str(),
        ) && !has_trailing_slash(self.redirect_url.as_str())
    }
}

} // verus!
