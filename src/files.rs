//! Upload and form payloads, and the naming rules of stored uploads.
use vstd::prelude::*;
use vstd::string::*;
use crate::errors::ApiError;

verus! {

pub struct FileUploadResponse {
    pub file_id: String,
    pub filename: String,
    pub size: u64,
    pub content_type: Option<String>,
    pub url: String,
}

pub struct FormDataRequest {
    pub name: String,
    pub email: Option<String>,
    pub message: String,
}

pub struct DatabaseHealthResponse {
    pub database: String,
    pub redis: String,
}

/// The text `s` without leading and trailing whitespace.
pub uninterp spec fn trim_of(s: Seq<char>) -> Seq<char>;

/// `t` is a contiguous part of `s`.
pub open spec fn is_part_of(t: Seq<char>, s: Seq<char>) -> bool {
    exists|i: int| 0 <= i && i + t.len() <= s.len() && t == #[trigger] s.subrange(i, i + t.len())
}

/// Relies on `str::trim`: the text without leading and trailing whitespace,
/// a function of the text alone, and a contiguous part of it.
#[verifier::external_body]
fn trim(s: &str) -> (r: &str)
    ensures
        r@ == trim_of(s@),
        is_part_of(r@, s@),
{
    s.trim()
}

/// Checks a form whose name and message, trimmed, are `name` and `message`:
/// both must be non-empty, the name first.
pub fn check_trimmed_form(name: &str, message: &str) -> (r: Result<(), ApiError>)
    ensures
        name@.len() == 0 ==> r is Err && r->Err_0 is Validation && r->Err_0.spec_text()@
            == "Name is required"@,
        name@.len() > 0 && message@.len() == 0 ==> r is Err && r->Err_0 is Validation
            && r->Err_0.spec_text()@ == "Message is required"@,
        name@.len() > 0 && message@.len() > 0 ==> r is Ok,
{
    if name.unicode_len() == 0 {
        return Err(ApiError::Validation(String::from_str("Name is required")));
    }
    if message.unicode_len() == 0 {
        return Err(ApiError::Validation(String::from_str("Message is required")));
    }
    Ok(())
}

/// Validates a submitted form: its name and message must not be blank.
pub fn validate_form(form: &FormDataRequest) -> (r: Result<(), ApiError>)
    ensures
        trim_of(form.name@).len() == 0 ==> r is Err && r->Err_0 is Validation
            && r->Err_0.spec_text()@ == "Name is required"@,
        trim_of(form.name@).len() > 0 && trim_of(form.message@).len() == 0 ==> r is Err
            && r->Err_0 is Validation && r->Err_0.spec_text()@ == "Message is required"@,
        trim_of(form.name@).len() > 0 && trim_of(form.message@).len() > 0 ==> r is Ok,
{
    check_trimmed_form(trim(form.name.as_str()), trim(form.message.as_str()))
}

/// An upload of `len` bytes is accepted when it is at most `max_file_size`.
pub fn check_upload_size(len: usize, max_file_size: usize) -> (r: Result<(), ApiError>)
    ensures
        r is Ok <==> len <= max_file_size,
        r is Err ==> r->Err_0 is BadRequest && r->Err_0.spec_text()@
            == "File size exceeds maximum allowed size"@,
{
    if len > max_file_size {
        Err(ApiError::BadRequest(String::from_str("File size exceeds maximum allowed size")))
    } else {
        Ok(())
    }
}

/// The name an upload is stored under: its id, then `.` and the uploaded file's
/// extension when there is one.
pub fn stored_filename(file_id: &str, extension: &str) -> (r: String)
    ensures
        extension@.len() == 0 ==> r@ == file_id@,
        extension@.len() > 0 ==> r@ == file_id@ + seq!['.'] + extension@,
{
    let mut out = String::from_str(file_id);
    if extension.unicode_len() > 0 {
        proof {
            reveal_strlit(".");
        }
        out.append(".");
        out.append(extension);
    }
    out
}

/// The URL a stored upload is served at: `/files/<stored name>`.
pub fn file_url(stored: &str) -> (r: String)
    ensures
        r@ == seq!['/', 'f', 'i', 'l', 'e', 's', '/'] + stored@,
{
    proof {
        reveal_strlit("/files/");
    }
    let mut out = String::from_str("/files/");
    out.append(stored);
    assert(out@ =~= seq!['/', 'f', 'i', 'l', 'e', 's', '/'] + stored@);
    out
}

} // verus!
