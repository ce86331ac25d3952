//! Stored provider credentials. Reading and writing the credentials file is
//! done by the application.
use crate::config::{auth_file_under, auth_path};
use crate::text::{opt_view, str_eq};
use vstd::prelude::*;

verus! {

/// The credentials of one provider.
#[derive(Debug, Clone)]
pub struct ProviderAuth {
    /// Kind of credential (`oauth`, `api`, ...).
    pub auth_type: String,
    pub refresh: Option<String>,
    pub access: Option<String>,
    pub key: Option<String>,
    pub expires: Option<i64>,
}

/// The credentials of each provider, by provider name; a name occurs at
/// most once.
#[derive(Debug, Clone)]
pub struct AuthConfig {
    pub providers: Vec<(String, ProviderAuth)>,
}

/// Name under which the GitHub Copilot credentials are stored.
pub const COPILOT_PROVIDER: &'static str = "github-copilot";

/// The credentials stored for `name` (the first entry with that name).
pub open spec fn provider_of(providers: Seq<(String, ProviderAuth)>, name: Seq<char>) -> Option<
    ProviderAuth,
>
    decreases providers.len(),
{
    if providers.len() == 0 {
        None
    } else if providers[0].0@ == name {
        Some(providers[0].1)
    } else {
        provider_of(providers.drop_first(), name)
    }
}

/// The access token of `p`, or else its refresh token.
pub open spec fn token_of(p: ProviderAuth) -> Option<Seq<char>> {
    match opt_view(p.access) {
        Some(a) => Some(a),
        None => opt_view(p.refresh),
    }
}

impl AuthConfig {
    /// The credentials file in the user's local data directory.
    pub fn path() -> (r: String)
        ensures
            exists|data: Seq<char>| r@ == auth_file_under(data),
    {
        auth_path()
    }

    /// The GitHub Copilot token: the stored access token, or else the
    /// refresh token; nothing when no Copilot credentials are stored.
    pub fn get_copilot_token(&self) -> (r: Option<String>)
        ensures
            opt_view(r) == (match provider_of(self.providers@, COPILOT_PROVIDER@) {
                Some(p) => token_of(p),
                None => None,
            }),
    {
        let ghost all = self.providers@;
        let mut i: usize = 0;
        assert(all.skip(0) =~= all);
        while i < self.providers.len()
            invariant
                i <= all.len(),
                all == self.providers@,
                provider_of(all, COPILOT_PROVIDER@) == provider_of(all.skip(i as int), COPILOT_PROVIDER@),
            decreases self.providers.len() - i,
        {
            assert(all.skip(i as int)[0] == all[i as int]);
            assert(all.skip(i as int).drop_first() =~= all.skip(i + 1));
            if str_eq(self.providers[i].0.as_str(), COPILOT_PROVIDER) {
                let p = &self.providers[i].1;
                return match &p.access {
                    Some(a) => Some(a.clone()),
                    None => match &p.refresh {
                        Some(t) => Some(t.clone()),
                        None => None,
                    },
                };
            }
            i = i + 1;
        }
        None
    }
}

impl Default for AuthConfig {
    fn default() -> (r: Self)
        ensures
            r.providers@.len() == 0,
    {
        AuthConfig { providers: Vec::new() }
    }
}

} // verus!
