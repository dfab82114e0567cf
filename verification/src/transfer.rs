//! One upload, as far as it can be decided without touching the network:
//! what is sent where, and what the server's answer means.

use crate::endpoints::upload_address;
use crate::endpoints::upload_url;
use crate::errors::category_of;
use crate::errors::humanized;
use crate::errors::ErrorCategory;
use crate::media::guessed_media_type;
use crate::media::media_type_of;
use crate::paths::display_name;
use crate::paths::file_display_name;
use crate::text::decimal;
use crate::text::decimal_text;
use crate::text::has_substring;
use crate::text::occurs_at;
use vstd::prelude::*;
use vstd::string::StringExecFns;

verus! {

/// Everything about an upload request but the file's bytes.
#[derive(Debug, PartialEq, Eq)]
pub struct UploadRequest {
    /// Where the multipart form is posted.
    pub url: String,
    /// Value of the `Authorization` header.
    pub authorization: String,
    /// File name of the `file` part, and value of the `name` field.
    pub file_name: String,
    /// Media type of the `file` part.
    pub mime_type: String,
    /// Value of the `user` field.
    pub user: String,
    /// Value of the `status` field.
    pub status: String,
}

/// What an [`UploadRequest`] says.
pub struct RequestPlan {
    pub url: Seq<char>,
    pub authorization: Seq<char>,
    pub file_name: Seq<char>,
    pub mime_type: Seq<char>,
    pub user: Seq<char>,
    pub status: Seq<char>,
}

impl View for UploadRequest {
    type V = RequestPlan;

    open spec fn view(&self) -> RequestPlan {
        RequestPlan {
            url: self.url@,
            authorization: self.authorization@,
            file_name: self.file_name@,
            mime_type: self.mime_type@,
            user: self.user@,
            status: self.status@,
        }
    }
}

/// Why an upload attempt failed.
#[derive(Debug, PartialEq, Eq)]
pub enum UploadFailure {
    /// No token is stored.
    NotAuthenticated,
    /// No user identity is stored.
    NoUserId,
    /// The file could not be read.
    ReadFailed { reason: String },
    /// The media type was not accepted for the form.
    InvalidMediaType { reason: String },
    /// The request did not get an answer.
    RequestFailed { reason: String },
    /// The server answered outside the 2xx range: with status `code`, the
    /// reason phrase that goes with it, and a body.
    Rejected { code: u16, reason: String, body: String },
}

/// What an [`UploadFailure`] says.
pub enum Failure {
    NotAuthenticated,
    NoUserId,
    ReadFailed { reason: Seq<char> },
    InvalidMediaType { reason: Seq<char> },
    RequestFailed { reason: Seq<char> },
    Rejected { code: u16, reason: Seq<char>, body: Seq<char> },
}

impl View for UploadFailure {
    type V = Failure;

    open spec fn view(&self) -> Failure {
        match self {
            UploadFailure::NotAuthenticated => Failure::NotAuthenticated,
            UploadFailure::NoUserId => Failure::NoUserId,
            UploadFailure::ReadFailed { reason } => Failure::ReadFailed { reason: reason@ },
            UploadFailure::InvalidMediaType { reason } => Failure::InvalidMediaType {
                reason: reason@,
            },
            UploadFailure::RequestFailed { reason } => Failure::RequestFailed { reason: reason@ },
            UploadFailure::Rejected { code, reason, body } => Failure::Rejected {
                code: *code,
                reason: reason@,
                body: body@,
            },
        }
    }
}

/// The status line of an answer: the status code, a space and the reason
/// phrase.
pub open spec fn status_line(code: u16, reason: Seq<char>) -> Seq<char> {
    decimal(code as nat) + " "@ + reason
}

/// The raw text of a failure, as it is logged and later sorted into a
/// category.
pub open spec fn failure_text(failure: Failure) -> Seq<char> {
    match failure {
        Failure::NotAuthenticated => "Not authenticated"@,
        Failure::NoUserId => "No user ID found"@,
        Failure::ReadFailed { reason } => "Failed to read file: "@ + reason,
        Failure::InvalidMediaType { reason } => "Invalid MIME type: "@ + reason,
        Failure::RequestFailed { reason } => "Upload request failed: "@ + reason,
        Failure::Rejected { code, reason, body } => "Upload failed ("@ + status_line(code, reason)
            + "): "@ + body,
    }
}

/// The request for the file at `path`, for a signed-in user.
pub open spec fn request_for(
    path: Seq<char>,
    server_url: Seq<char>,
    token: Seq<char>,
    user_id: Seq<char>,
) -> RequestPlan {
    RequestPlan {
        url: upload_address(server_url),
        authorization: token,
        file_name: display_name(path),
        mime_type: guessed_media_type(path),
        user: user_id,
        status: "pending"@,
    }
}

/// An HTTP status in the 2xx range.
pub open spec fn is_success_status(code: u16) -> bool {
    200 <= code < 300
}

impl UploadFailure {
    /// The raw text of this failure.
    pub fn text(&self) -> (text: String)
        ensures
            text@ == failure_text(self@),
    {
        match self {
            UploadFailure::NotAuthenticated => String::from_str("Not authenticated"),
            UploadFailure::NoUserId => String::from_str("No user ID found"),
            UploadFailure::ReadFailed { reason } => String::from_str(
                "Failed to read file: ",
            ).concat(reason.as_str()),
            UploadFailure::InvalidMediaType { reason } => String::from_str(
                "Invalid MIME type: ",
            ).concat(reason.as_str()),
            UploadFailure::RequestFailed { reason } => String::from_str(
                "Upload request failed: ",
            ).concat(reason.as_str()),
            UploadFailure::Rejected { code, reason, body } => {
                let text = String::from_str("Upload failed (").concat(
                    decimal_text(*code as u64).as_str(),
                ).concat(" ").concat(reason.as_str()).concat("): ").concat(body.as_str());
                assert(text@ =~= failure_text(self@));
                text
            },
        }
    }
}

/// Plans the upload of the file at `path`. The upload needs a stored token
/// and a stored user identity; it fails without the one or the other, the
/// token being looked at first.
pub fn plan_upload(path: &str, server_url: &str, token: Option<String>, user_id: Option<String>) -> (plan:
    Result<UploadRequest, UploadFailure>)
    ensures
        match (token, user_id) {
            (None, _) => plan == Err::<UploadRequest, UploadFailure>(UploadFailure::NotAuthenticated),
            (Some(_), None) => plan == Err::<UploadRequest, UploadFailure>(UploadFailure::NoUserId),
            (Some(t), Some(u)) => plan is Ok && plan->Ok_0@ == request_for(
                path@,
                server_url@,
                t@,
                u@,
            ),
        },
{
    let authorization = match token {
        Some(t) => t,
        None => { return Err(UploadFailure::NotAuthenticated); },
    };
    let user = match user_id {
        Some(u) => u,
        None => { return Err(UploadFailure::NoUserId); },
    };
    Ok(
        UploadRequest {
            url: upload_url(server_url),
            authorization,
            file_name: file_display_name(path),
            mime_type: media_type_of(path),
            user,
            status: String::from_str("pending"),
        },
    )
}

/// Reads the server's answer to an upload: any status in the 2xx range is a
/// success, every other a failure that carries the status code, its reason
/// phrase and the body.
pub fn upload_outcome(code: u16, reason: String, body: String) -> (outcome: Result<
    (),
    UploadFailure,
>)
    ensures
        is_success_status(code) ==> outcome is Ok,
        !is_success_status(code) ==> outcome == Err::<(), UploadFailure>(
            UploadFailure::Rejected { code, reason, body },
        ),
{
    if 200 <= code && code < 300 {
        Ok(())
    } else {
        Err(UploadFailure::Rejected { code, reason, body })
    }
}

/// A text that holds `needle` still holds it with more text before and
/// after.
pub proof fn substring_survives_padding(
    before: Seq<char>,
    hay: Seq<char>,
    after: Seq<char>,
    needle: Seq<char>,
)
    requires
        has_substring(hay, needle),
    ensures
        has_substring(before + hay + after, needle),
{
    let at = choose|at: int| occurs_at(hay, needle, at);
    let whole = before + hay + after;
    assert(whole.subrange(before.len() + at, before.len() + at + needle.len()) =~= hay.subrange(
        at,
        at + needle.len(),
    ));
    assert(occurs_at(whole, needle, before.len() + at));
}

/// An upload that the server refuses with status 413 is reported as too
/// large for the server, whatever reason and body come with it.
pub proof fn refusal_413_is_payload_too_large(reason: Seq<char>, body: Seq<char>)
    ensures
        category_of(failure_text(Failure::Rejected { code: 413, reason, body }))
            == ErrorCategory::PayloadTooLarge,
{
    reveal_with_fuel(decimal, 3);
    reveal_strlit("413");
    assert(decimal(413) =~= "413"@);
    assert("413"@.subrange(0, 3) =~= "413"@);
    assert(occurs_at("413"@, "413"@, 0));
    substring_survives_padding("Upload failed ("@, "413"@, " "@ + reason + "): "@ + body, "413"@);
    assert("Upload failed ("@ + "413"@ + (" "@ + reason + "): "@ + body) =~= failure_text(
        Failure::Rejected { code: 413, reason, body },
    ));
}

/// None of the marks of a payload that is too large occurs in a text that
/// holds no `4` and no `p`, and in which no `t` is followed by an `o`.
proof fn lemma_not_too_large(text: Seq<char>)
    requires
        forall|i: int| 0 <= i < text.len() ==> text[i] != '4' && text[i] != 'p',
        forall|i: int|
            0 <= i && i + 1 < text.len() && #[trigger] text[i] == 't' ==> text[i + 1] != 'o',
    ensures
        !has_substring(text, "413"@),
        !has_substring(text, "too large"@),
        !has_substring(text, "payload"@),
{
    reveal_strlit("413");
    reveal_strlit("too large");
    reveal_strlit("payload");
    assert forall|at: int| !occurs_at(text, "413"@, at) by {
        if occurs_at(text, "413"@, at) {
            assert(text.subrange(at, at + 3)[0] == '4');
        }
    }
    assert forall|at: int| !occurs_at(text, "too large"@, at) by {
        if occurs_at(text, "too large"@, at) {
            assert(text.subrange(at, at + 9)[0] == 't');
            assert(text.subrange(at, at + 9)[1] == 'o');
        }
    }
    assert forall|at: int| !occurs_at(text, "payload"@, at) by {
        if occurs_at(text, "payload"@, at) {
            assert(text.subrange(at, at + 7)[0] == 'p');
        }
    }
}

/// A missing token is reported as an authorization failure.
pub proof fn missing_token_is_unauthorized()
    ensures
        category_of(failure_text(Failure::NotAuthenticated)) == ErrorCategory::Unauthorized,
        humanized(failure_text(Failure::NotAuthenticated))
            == "Sin autorización — cerrá sesión y volvé a ingresar"@,
{
    let text = "Not authenticated"@;
    reveal_strlit("Not authenticated");
    assert(text.subrange(0, text.len() as int) =~= text);
    assert(occurs_at(text, text, 0));
    lemma_not_too_large(text);
}

/// A missing user identity is reported as an authorization failure.
pub proof fn missing_user_is_unauthorized()
    ensures
        category_of(failure_text(Failure::NoUserId)) == ErrorCategory::Unauthorized,
        humanized(failure_text(Failure::NoUserId))
            == "Sin autorización — cerrá sesión y volvé a ingresar"@,
{
    let text = "No user ID found"@;
    reveal_strlit("No user ID found");
    assert(text.subrange(0, text.len() as int) =~= text);
    assert(occurs_at(text, text, 0));
    lemma_not_too_large(text);
}

} // verus!
