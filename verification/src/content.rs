//! What the head of a response says of it: whether its status is a success,
//! and what kind of content its `content-type` header declares.

use crate::error::{FetchError, FetchErrorView};
use vstd::prelude::*;

verus! {

/// The declared kind of a response's content, as far as the fetch cares.
#[derive(Debug, Clone, Copy, PartialEq, Eq, Structural)]
pub enum ContentEnvelope {
    /// The content type begins with `text/html`: a page to look through.
    Html,
    /// Any other content type: the payload itself.
    Payload,
}

/// Whether `status` lies in the successful range, 200 to 299.
pub open spec fn is_success(status: u16) -> bool {
    200 <= status <= 299
}

/// The bytes of `text/html`.
pub open spec fn html_marker() -> Seq<u8> {
    "text/html"@.map_values(|c: char| c as u8)
}

/// The kind of content that a `content-type` header declares. Only its
/// absence is a failure: a header that is present declares a page where its
/// bytes begin with `text/html`, and the payload otherwise, whatever bytes it
/// holds.
pub open spec fn envelope(content_type: Option<Seq<u8>>) -> Result<
    ContentEnvelope,
    FetchErrorView,
> {
    match content_type {
        None => Err(FetchErrorView::MissingContentType),
        Some(value) => if html_marker().is_prefix_of(value) {
            Ok(ContentEnvelope::Html)
        } else {
            Ok(ContentEnvelope::Payload)
        },
    }
}

/// The bytes of a header that may be absent.
pub open spec fn header_view(header: Option<Vec<u8>>) -> Option<Seq<u8>> {
    match header {
        Some(value) => Some(value@),
        None => None,
    }
}

/// Whether `status` is a success.
pub fn status_is_success(status: u16) -> (success: bool)
    ensures
        success == is_success(status),
{
    200 <= status && status <= 299
}

/// Whether `value` begins with the bytes of `text/html`.
pub fn declares_html(value: &Vec<u8>) -> (html: bool)
    ensures
        html == html_marker().is_prefix_of(value@),
{
    let marker: [u8; 9] = [116, 101, 120, 116, 47, 104, 116, 109, 108];
    proof {
        reveal_strlit("text/html");
    }
    if value.len() < 9 {
        return false;
    }
    let mut i: usize = 0;
    while i < 9
        invariant
            i <= 9 <= value.len(),
            marker@ == html_marker(),
            forall|k: int| 0 <= k < i ==> value@[k] == marker@[k],
        decreases 9 - i,
    {
        if value[i] != marker[i] {
            return false;
        }
        i += 1;
    }
    true
}

/// The outcome of a classification, with the failure as its view.
pub open spec fn outcome_view(kind: Result<ContentEnvelope, FetchError>) -> Result<
    ContentEnvelope,
    FetchErrorView,
> {
    match kind {
        Ok(found) => Ok(found),
        Err(error) => Err(error@),
    }
}

/// Reads the `content-type` header of a response: absent, it is a failure;
/// present, it declares a page or a payload.
pub fn classify(content_type: &Option<Vec<u8>>) -> (kind: Result<ContentEnvelope, FetchError>)
    ensures
        outcome_view(kind) == envelope(header_view(*content_type)),
{
    match content_type {
        None => Err(FetchError::MissingContentType),
        Some(value) => {
            if declares_html(value) {
                Ok(ContentEnvelope::Html)
            } else {
                Ok(ContentEnvelope::Payload)
            }
        },
    }
}

} // verus!
