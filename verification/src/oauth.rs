//! Device-flow login: the stored authentication state and the pure
//! decisions of the token polling loop. The HTTP exchange itself
//! happens outside; these functions dispatch on its parsed replies.

use vstd::prelude::*;

verus! {

/// The reply to a device-code request.
#[derive(Debug, PartialEq, Eq)]
pub struct DeviceCodeResponse {
    pub device_code: String,
    pub user_code: String,
    pub verification_uri: String,
    pub expires_in: u32,
    pub interval: u32,
}

/// The signed-in user, as stored beside the token.
#[derive(Debug, PartialEq, Eq)]
pub struct UserDetails {
    pub login: String,
    pub avatar_url: String,
}

impl Clone for UserDetails {
    fn clone(&self) -> (r: Self)
        ensures
            r == *self,
    {
        UserDetails { login: self.login.clone(), avatar_url: self.avatar_url.clone() }
    }
}

/// The stored authentication state.
#[derive(Debug, PartialEq, Eq)]
pub struct AuthState {
    pub token: String,
    pub user: Option<UserDetails>,
}

impl Clone for AuthState {
    fn clone(&self) -> (r: Self)
        ensures
            r == *self,
    {
        let r = AuthState { token: self.token.clone(), user: self.user.clone() };
        proof {
            if self.user is Some {
                assert(vstd::pervasive::cloned::<UserDetails>(self.user->0, r.user->0));
            }
        }
        r
    }
}

/// A parsed reply of the token polling endpoint: either a token or a
/// named error with an optional description.
#[derive(Debug, PartialEq, Eq)]
pub enum TokenPollReply {
    Token { access_token: String, token_type: String, scope: String },
    Failure { error: String, error_description: Option<String>, interval: Option<u32> },
}

/// Decides what one polling round reports: a token is handed through;
/// the throttling error reads as still waiting; any other error
/// surfaces its description, or its name when it has none.
pub fn token_poll_outcome(reply: TokenPollReply) -> (r: Result<String, String>)
    ensures
        reply matches TokenPollReply::Token { access_token, .. } ==> (r matches Ok(t) && t
            == access_token),
        reply matches TokenPollReply::Failure { error, error_description, .. } ==> r is Err && (
        error@ == "slow_down"@ ==> (r->Err_0)@ == "still waiting for authorization"@) && (error@
            != "slow_down"@ && error_description is Some ==> r->Err_0 == error_description->0) && (
        error@ != "slow_down"@ && error_description is None ==> r->Err_0 == error),
{
    match reply {
        TokenPollReply::Token { access_token, .. } => Ok(access_token),
        TokenPollReply::Failure { error, error_description, .. } => {
            if error == "slow_down".to_owned() {
                Err("still waiting for authorization".to_owned())
            } else {
                match error_description {
                    Some(d) => Err(d),
                    None => Err(error),
                }
            }
        }
    }
}

/// The stored token, or the not-authenticated error when no state is
/// stored.
pub fn auth_token(auth: Option<AuthState>) -> (r: Result<String, String>)
    ensures
        auth matches Some(a) ==> (r matches Ok(t) && t == a.token),
        auth is None ==> (r matches Err(m) && m@ == "not authenticated"@),
{
    match auth {
        Some(a) => Ok(a.token),
        None => Err("not authenticated".to_owned()),
    }
}

/// The stored user name, or the error naming what is missing.
pub fn auth_username(auth: Option<AuthState>) -> (r: Result<String, String>)
    ensures
        auth matches Some(a) ==> (a.user matches Some(u) ==> (r matches Ok(n) && n == u.login)),
        auth matches Some(a) ==> (a.user is None ==> (r matches Err(m) && m@
            == "no user details"@)),
        auth is None ==> (r matches Err(m) && m@ == "not authenticated"@),
{
    match auth {
        Some(a) => match a.user {
            Some(u) => Ok(u.login),
            None => Err("no user details".to_owned()),
        },
        None => Err("not authenticated".to_owned()),
    }
}

} // verus!
