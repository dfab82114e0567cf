//! Addresses of the server's endpoints.

use crate::text::strip_trailing;
use crate::text::without_trailing;
use vstd::prelude::*;
use vstd::string::StringExecFns;

verus! {

/// `path` below the server at `server_url`, whose trailing slashes do not count.
pub open spec fn endpoint(server_url: Seq<char>, path: Seq<char>) -> Seq<char> {
    without_trailing(server_url, '/') + path
}

/// Address of the lightweight health endpoint.
pub open spec fn health_address(server_url: Seq<char>) -> Seq<char> {
    endpoint(server_url, "/api/health"@)
}

/// Address that new inbox records are posted to.
pub open spec fn upload_address(server_url: Seq<char>) -> Seq<char> {
    endpoint(server_url, "/api/collections/files_inbox/records"@)
}

/// Address that signs a user in with a password.
pub open spec fn login_address(server_url: Seq<char>) -> Seq<char> {
    endpoint(server_url, "/api/collections/users/auth-with-password"@)
}

/// Address that exchanges a token for a fresh one.
pub open spec fn refresh_address(server_url: Seq<char>) -> Seq<char> {
    endpoint(server_url, "/api/collections/users/auth-refresh"@)
}

fn endpoint_url(server_url: &str, path: &str) -> (url: String)
    ensures
        url@ == endpoint(server_url@, path@),
{
    String::from_str(strip_trailing(server_url, '/')).concat(path)
}

/// Address of the lightweight health endpoint.
pub fn health_url(server_url: &str) -> (url: String)
    ensures
        url@ == health_address(server_url@),
{
    endpoint_url(server_url, "/api/health")
}

/// Address that new inbox records are posted to.
pub fn upload_url(server_url: &str) -> (url: String)
    ensures
        url@ == upload_address(server_url@),
{
    endpoint_url(server_url, "/api/collections/files_inbox/records")
}

/// Address that signs a user in with a password.
pub fn login_url(server_url: &str) -> (url: String)
    ensures
        url@ == login_address(server_url@),
{
    endpoint_url(server_url, "/api/collections/users/auth-with-password")
}

/// Address that exchanges a token for a fresh one.
pub fn refresh_url(server_url: &str) -> (url: String)
    ensures
        url@ == refresh_address(server_url@),
{
    endpoint_url(server_url, "/api/collections/users/auth-refresh")
}

} // verus!
