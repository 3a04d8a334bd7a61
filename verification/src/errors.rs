//! Errors of the HTTP interface and of the mail backends.

use vstd::prelude::*;

verus! {

/// An error that an API request is answered with.
#[derive(Debug)]
pub enum ApiError {
    /// The caller is not authenticated or lacks a scope.
    Auth(String),
    /// The request itself is wrong.
    Validation(String),
    /// The request may succeed later.
    Unavailable(String),
    /// A failure behind the API.
    Internal(String),
}

/// What an [`ApiError`] says.
pub enum ApiErrorView {
    Auth(Seq<char>),
    Validation(Seq<char>),
    Unavailable(Seq<char>),
    Internal(Seq<char>),
}

impl View for ApiError {
    type V = ApiErrorView;

    open spec fn view(&self) -> ApiErrorView {
        match self {
            ApiError::Auth(m) => ApiErrorView::Auth(m@),
            ApiError::Validation(m) => ApiErrorView::Validation(m@),
            ApiError::Unavailable(m) => ApiErrorView::Unavailable(m@),
            ApiError::Internal(m) => ApiErrorView::Internal(m@),
        }
    }
}

/// The outcome of an API operation, success and error taken by their views.
pub open spec fn outcome<T: View>(r: Result<T, ApiError>) -> Result<T::V, ApiErrorView> {
    match r {
        Ok(v) => Ok(v@),
        Err(e) => Err(e@),
    }
}

/// A reply or failure of an SMTP session. Code 0 stands for a failure without
/// a reply.
#[derive(Debug)]
pub struct SmtpError {
    pub code: u16,
    pub enhanced: Option<String>,
    pub message: String,
}

/// What an [`SmtpError`] says.
pub struct SmtpErrorView {
    pub code: u16,
    pub enhanced: Option<Seq<char>>,
    pub message: Seq<char>,
}

impl View for SmtpError {
    type V = SmtpErrorView;

    open spec fn view(&self) -> SmtpErrorView {
        SmtpErrorView {
            code: self.code,
            enhanced: self.enhanced.deep_view(),
            message: self.message@,
        }
    }
}

/// An error of a store or of an SMTP session.
#[derive(Debug)]
pub enum SentioError {
    /// The credential matches nothing, or is refused.
    Auth(String),
    /// No such row.
    NotFound(String),
    /// An SMTP session failed.
    Smtp(SmtpError),
    /// Any other failure.
    Other(String),
}

/// What a [`SentioError`] says.
pub enum SentioErrorView {
    Auth(Seq<char>),
    NotFound(Seq<char>),
    Smtp(SmtpErrorView),
    Other(Seq<char>),
}

impl View for SentioError {
    type V = SentioErrorView;

    open spec fn view(&self) -> SentioErrorView {
        match self {
            SentioError::Auth(m) => SentioErrorView::Auth(m@),
            SentioError::NotFound(m) => SentioErrorView::NotFound(m@),
            SentioError::Smtp(e) => SentioErrorView::Smtp(e@),
            SentioError::Other(m) => SentioErrorView::Other(m@),
        }
    }
}

/// An error says of what kind it is, and its text.
pub proof fn errors_are_taken_as_they_are(api: ApiError, e: SentioError)
    ensures
        api matches ApiError::Auth(m) ==> api@ == ApiErrorView::Auth(m@),
        api matches ApiError::Validation(m) ==> api@ == ApiErrorView::Validation(m@),
        api matches ApiError::Unavailable(m) ==> api@ == ApiErrorView::Unavailable(m@),
        api matches ApiError::Internal(m) ==> api@ == ApiErrorView::Internal(m@),
        e matches SentioError::Auth(m) ==> e@ == SentioErrorView::Auth(m@),
        e matches SentioError::NotFound(m) ==> e@ == SentioErrorView::NotFound(m@),
        e matches SentioError::Other(m) ==> e@ == SentioErrorView::Other(m@),
        e matches SentioError::Smtp(s) ==> (e@ matches SentioErrorView::Smtp(v) && v.code == s.code
            && v.message == s.message@ && (v.enhanced is Some <==> s.enhanced is Some)),
{
}

} // verus!
