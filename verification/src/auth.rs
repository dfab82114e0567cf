//! Credentials of the signed-in user, as far as the pipeline needs them.

use vstd::prelude::*;
use vstd::string::StringExecFns;

verus! {

/// What is known of the signed-in user.
#[derive(Debug, PartialEq, Eq)]
pub struct AuthData {
    pub token: String,
    pub user_id: String,
    pub email: String,
}

/// What an [`AuthData`] says.
pub struct Credentials {
    pub token: Seq<char>,
    pub user_id: Seq<char>,
    pub email: Seq<char>,
}

impl View for AuthData {
    type V = Credentials;

    open spec fn view(&self) -> Credentials {
        Credentials { token: self.token@, user_id: self.user_id@, email: self.email@ }
    }
}

impl Clone for AuthData {
    fn clone(&self) -> (copy: Self)
        ensures
            copy@ == self@,
    {
        AuthData {
            token: self.token.clone(),
            user_id: self.user_id.clone(),
            email: self.email.clone(),
        }
    }
}

/// What the three stored secrets amount to: credentials where all are
/// there, and else the complaint about the first that is missing.
pub open spec fn credentials_from(
    token: Option<Seq<char>>,
    user_id: Option<Seq<char>>,
    email: Option<Seq<char>>,
) -> Result<Credentials, Seq<char>> {
    match (token, user_id, email) {
        (None, _, _) => Err("No stored token found"@),
        (Some(_), None, _) => Err("No stored user ID found"@),
        (Some(_), Some(_), None) => Err("No stored email found"@),
        (Some(token), Some(user_id), Some(email)) => Ok(Credentials { token, user_id, email }),
    }
}

/// What a sign-in attempt is reported as when the server refuses it.
pub open spec fn sign_in_refusal(status: Seq<char>, body: Seq<char>) -> Seq<char> {
    "Authentication failed ("@ + status + "): "@ + body
}

/// Puts the three stored secrets together. Each may be missing; the first
/// that is decides the complaint.
pub fn stored_credentials(token: Option<String>, user_id: Option<String>, email: Option<String>) -> (found:
    Result<AuthData, String>)
    ensures
        match credentials_from(token.deep_view(), user_id.deep_view(), email.deep_view()) {
            Ok(credentials) => found is Ok && found->Ok_0@ == credentials,
            Err(complaint) => found is Err && found->Err_0@ == complaint,
        },
{
    let token = match token {
        Some(token) => token,
        None => { return Err(String::from_str("No stored token found")); },
    };
    let user_id = match user_id {
        Some(user_id) => user_id,
        None => { return Err(String::from_str("No stored user ID found")); },
    };
    let email = match email {
        Some(email) => email,
        None => { return Err(String::from_str("No stored email found")); },
    };
    Ok(AuthData { token, user_id, email })
}

/// The text a refused sign-in is reported with.
pub fn sign_in_failure(status: &str, body: &str) -> (text: String)
    ensures
        text@ == sign_in_refusal(status@, body@),
{
    String::from_str("Authentication failed (").concat(status).concat("): ").concat(body)
}

/// Settles who is signed in after an attempt to refresh the token: the
/// fresh credentials where the refresh went through, and the stored ones
/// where it did not, since the stored token may merely have expired.
pub fn settle_credentials(stored: AuthData, refreshed: Option<AuthData>) -> (settled: AuthData)
    ensures
        settled@ == match refreshed {
            Some(fresh) => fresh@,
            None => stored@,
        },
{
    match refreshed {
        Some(fresh) => fresh,
        None => stored,
    }
}

} // verus!
