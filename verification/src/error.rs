//! The failures of a fetch and of a resolution, with the text that presents
//! each of them to the user.

use crate::text::{decimal, to_decimal};
use vstd::prelude::*;

verus! {

/// Why a GET did not yield a usable response.
#[derive(Debug, PartialEq, Eq)]
pub enum HttpFailure {
    /// The URL was turned down before any request was sent.
    InvalidUrl(String),
    /// The request could not be carried out.
    Transport(String),
    /// The server answered with a status outside the successful range.
    Status(u16),
}

/// An [`HttpFailure`] with its texts as sequences of characters.
pub enum HttpFailureView {
    InvalidUrl(Seq<char>),
    Transport(Seq<char>),
    Status(u16),
}

impl View for HttpFailure {
    type V = HttpFailureView;

    open spec fn view(&self) -> HttpFailureView {
        match *self {
            HttpFailure::InvalidUrl(detail) => HttpFailureView::InvalidUrl(detail@),
            HttpFailure::Transport(detail) => HttpFailureView::Transport(detail@),
            HttpFailure::Status(code) => HttpFailureView::Status(code),
        }
    }
}

/// Why a fetch ended without a file.
#[derive(Debug, PartialEq, Eq)]
pub enum FetchError {
    /// A GET to `url` failed.
    Http { url: String, failure: HttpFailure },
    /// The temporary file could not be created or filled.
    Io(String),
    /// The response carries no `content-type` header.
    MissingContentType,
    /// The HTML page holds no link to a recording.
    LinkNotFound,
}

/// A [`FetchError`] with its texts as sequences of characters.
pub enum FetchErrorView {
    Http { url: Seq<char>, failure: HttpFailureView },
    Io(Seq<char>),
    MissingContentType,
    LinkNotFound,
}

impl View for FetchError {
    type V = FetchErrorView;

    open spec fn view(&self) -> FetchErrorView {
        match *self {
            FetchError::Http { url, failure } => FetchErrorView::Http {
                url: url@,
                failure: failure@,
            },
            FetchError::Io(detail) => FetchErrorView::Io(detail@),
            FetchError::MissingContentType => FetchErrorView::MissingContentType,
            FetchError::LinkNotFound => FetchErrorView::LinkNotFound,
        }
    }
}

/// Why an identifier could not be turned into a local file.
#[derive(Debug, PartialEq, Eq)]
pub enum ResolutionError {
    /// The identifier is a URL and fetching it failed for the given cause.
    DownloadFailed(FetchError),
}

/// A [`ResolutionError`] with its texts as sequences of characters.
pub enum ResolutionErrorView {
    DownloadFailed(FetchErrorView),
}

impl View for ResolutionError {
    type V = ResolutionErrorView;

    open spec fn view(&self) -> ResolutionErrorView {
        match *self {
            ResolutionError::DownloadFailed(cause) => ResolutionErrorView::DownloadFailed(cause@),
        }
    }
}

/// What is said of a failed GET after the URL has been named.
pub open spec fn http_failure_text(failure: HttpFailureView) -> Seq<char> {
    match failure {
        HttpFailureView::InvalidUrl(detail) => detail,
        HttpFailureView::Transport(detail) => detail,
        HttpFailureView::Status(code) => "HTTP status "@ + decimal(code as nat),
    }
}

/// The text that presents a fetch failure. A failed GET names the URL that
/// was attempted, the missing header is named, and a page without a link is
/// told which element it should hold.
pub open spec fn fetch_error_text(error: FetchErrorView) -> Seq<char> {
    match error {
        FetchErrorView::Http { url, failure } => "GET "@ + url + " failed: "@ + http_failure_text(
            failure,
        ),
        FetchErrorView::Io(detail) => "cannot store the download: "@ + detail,
        FetchErrorView::MissingContentType => "no content-type header in the response"@,
        FetchErrorView::LinkNotFound =>
            "<link rel=\"alternate\" type=\"application/x-asciicast\" href=\"...\"> not found in the HTML page"@,
    }
}

/// The text that presents a resolution failure: the cause, marked as a
/// failed download.
pub open spec fn resolution_error_text(error: ResolutionErrorView) -> Seq<char> {
    match error {
        ResolutionErrorView::DownloadFailed(cause) => "download failed: "@ + fetch_error_text(
            cause,
        ),
    }
}

impl HttpFailure {
    /// The text that follows the URL in the message of a failed GET.
    pub fn message(&self) -> (text: String)
        ensures
            text@ == http_failure_text(self@),
    {
        match self {
            HttpFailure::InvalidUrl(detail) => detail.clone(),
            HttpFailure::Transport(detail) => detail.clone(),
            HttpFailure::Status(code) => {
                let mut text = String::from_str("HTTP status ");
                let numeral = to_decimal(*code);
                text.append(numeral.as_str());
                text
            },
        }
    }
}

impl FetchError {
    /// The text that presents this failure to the user.
    pub fn message(&self) -> (text: String)
        ensures
            text@ == fetch_error_text(self@),
    {
        match self {
            FetchError::Http { url, failure } => {
                let mut text = String::from_str("GET ");
                text.append(url.as_str());
                text.append(" failed: ");
                let reason = failure.message();
                text.append(reason.as_str());
                text
            },
            FetchError::Io(detail) => {
                let mut text = String::from_str("cannot store the download: ");
                text.append(detail.as_str());
                text
            },
            FetchError::MissingContentType => String::from_str(
                "no content-type header in the response",
            ),
            FetchError::LinkNotFound => String::from_str(
                "<link rel=\"alternate\" type=\"application/x-asciicast\" href=\"...\"> not found in the HTML page",
            ),
        }
    }
}

impl ResolutionError {
    /// The text that presents this failure to the user.
    pub fn message(&self) -> (text: String)
        ensures
            text@ == resolution_error_text(self@),
    {
        match self {
            ResolutionError::DownloadFailed(cause) => {
                let mut text = String::from_str("download failed: ");
                let reason = cause.message();
                text.append(reason.as_str());
                text
            },
        }
    }
}

} // verus!
