use vstd::prelude::*;
use crate::repo::RepoError;

verus! {

/// The most characters a title may hold after trimming.
pub const MAX_TITLE_CHARS: usize = 100;

/// The characters with the Unicode property White_Space, which is what
/// `char::is_whitespace` tests.
pub open spec fn is_white_space(c: char) -> bool {
    ('\u{9}' <= c <= '\u{d}') || c == ' ' || c == '\u{85}' || c == '\u{a0}' || c == '\u{1680}'
        || ('\u{2000}' <= c <= '\u{200a}') || c == '\u{2028}' || c == '\u{2029}' || c
        == '\u{202f}' || c == '\u{205f}' || c == '\u{3000}'
}

/// `s` without its leading and trailing white space.
pub open spec fn trim_of(s: Seq<char>) -> Seq<char>
    decreases s.len(),
{
    if s.len() > 0 && is_white_space(s[0]) {
        trim_of(s.drop_first())
    } else if s.len() > 0 && is_white_space(s.last()) {
        trim_of(s.drop_last())
    } else {
        s
    }
}

/// Relies on `str::trim`: leading and trailing White_Space characters are cut.
#[verifier::external_body]
pub(crate) fn trimmed(s: &str) -> (r: &str)
    ensures
        r@ == trim_of(s@),
{
    s.trim()
}

/// The text of `a` followed by that of `b`.
fn joined(a: &str, b: &str) -> (r: String)
    ensures
        r@ == a@ + b@,
{
    let mut r = a.to_string();
    r.append(b);
    r
}

/// A title is accepted when, trimmed, it holds 1 to 100 characters.
pub open spec fn title_ok(t: Seq<char>) -> bool {
    1 <= t.len() <= MAX_TITLE_CHARS
}

/// The body of an error response.
#[derive(Debug)]
pub struct ErrorBody {
    pub message: String,
}

/// The failures that a caller of the repository can see.
#[derive(Debug, PartialEq, Eq)]
pub enum ApiError {
    NotFound,
    BadRequest(String),
    Internal(String),
}

impl ApiError {
    /// The text of an error, as shown to clients.
    pub open spec fn spec_message(&self) -> Seq<char> {
        match self {
            ApiError::NotFound => "not found"@,
            ApiError::BadRequest(m) => "bad request : "@ + m@,
            ApiError::Internal(m) => "internal error : "@ + m@,
        }
    }

    pub fn message(&self) -> (r: String)
        ensures
            r@ == self.spec_message(),
    {
        match self {
            ApiError::NotFound => "not found".to_string(),
            ApiError::BadRequest(m) => joined("bad request : ", m.as_str()),
            ApiError::Internal(m) => joined("internal error : ", m.as_str()),
        }
    }

    /// The response body that carries this error's text.
    pub fn body(&self) -> (r: ErrorBody)
        ensures
            r.message@ == self.spec_message(),
    {
        ErrorBody { message: self.message() }
    }
}

impl ApiError {
    /// The one place where a store failure becomes a client-visible error.
    pub fn from_repo_error(err: RepoError) -> (r: ApiError)
        ensures
            r matches ApiError::Internal(m) && m@ == err.spec_message(),
    {
        ApiError::Internal(err.message())
    }
}

/// The error a trimmed title `t` gets, if any.
pub open spec fn title_error(t: Seq<char>) -> Option<Seq<char>> {
    if t.len() == 0 {
        Some("title is empty"@)
    } else if t.len() > MAX_TITLE_CHARS {
        Some("title is too long"@)
    } else {
        None
    }
}

/// Checks a title that is already trimmed.
pub fn check_trimmed_title(t: &str) -> (r: Result<(), ApiError>)
    ensures
        r is Ok <==> title_ok(t@),
        match r {
            Ok(()) => title_error(t@) is None,
            Err(ApiError::BadRequest(m)) => title_error(t@) == Some(m@),
            Err(_) => false,
        },
{
    let n = t.unicode_len();
    if n == 0 {
        return Err(ApiError::BadRequest("title is empty".to_string()));
    }
    if n > MAX_TITLE_CHARS {
        return Err(ApiError::BadRequest("title is too long".to_string()));
    }
    Ok(())
}

/// Checks a title as a client sent it: trimmed, it must hold 1 to 100
/// characters.
pub fn validate_title(title: &str) -> (r: Result<(), ApiError>)
    ensures
        r is Ok <==> title_ok(trim_of(title@)),
        match r {
            Ok(()) => title_error(trim_of(title@)) is None,
            Err(ApiError::BadRequest(m)) => title_error(trim_of(title@)) == Some(m@),
            Err(_) => false,
        },
{
    check_trimmed_title(trimmed(title))
}

} // verus!
