//! Turning an identifier into a local file: a path is taken as it is, a URL
//! is handed to the fetch.

use crate::error::{FetchError, ResolutionError};
use crate::fetch::{begin, download_asciicast, Action, ActionView, Hop};
use crate::text::starts_with;
use vstd::prelude::*;

verus! {

/// What an identifier resolves to.
#[derive(Debug, PartialEq, Eq)]
pub enum Resolution {
    /// A file that is already local, at this path.
    Local(String),
    /// A remote resource, whose fetch begins with this action.
    Remote(Action),
}

/// A [`Resolution`] with its texts as sequences.
pub enum ResolutionView {
    Local(Seq<char>),
    Remote(ActionView),
}

impl View for Resolution {
    type V = ResolutionView;

    open spec fn view(&self) -> ResolutionView {
        match *self {
            Resolution::Local(path) => ResolutionView::Local(path@),
            Resolution::Remote(action) => ResolutionView::Remote(action@),
        }
    }
}

/// Whether `identifier` names a remote resource: it does where it begins
/// with `https://` or with `http://`.
pub open spec fn is_remote(identifier: Seq<char>) -> bool {
    "https://"@.is_prefix_of(identifier) || "http://"@.is_prefix_of(identifier)
}

/// What `identifier` resolves to: a remote one to the beginning of its
/// fetch, any other to itself as a path.
pub open spec fn resolution(identifier: Seq<char>) -> ResolutionView {
    if is_remote(identifier) {
        ResolutionView::Remote(begin(identifier, Hop::First))
    } else {
        ResolutionView::Local(identifier)
    }
}

/// Resolves `filename`. A URL begins a fetch. Anything else is a path,
/// returned unchanged and unchecked, and nothing is asked of the network.
pub fn get_local_path(filename: &str) -> (found: Resolution)
    ensures
        found@ == resolution(filename@),
        !is_remote(filename@) ==> found@ == ResolutionView::Local(filename@),
{
    if starts_with(filename, "https://") || starts_with(filename, "http://") {
        Resolution::Remote(download_asciicast(filename))
    } else {
        Resolution::Local(filename.to_owned())
    }
}

/// Closes a resolution over the outcome of its fetch: the file is handed
/// on, a failure is handed on as the cause of a failed download.
pub fn conclude<T>(outcome: Result<T, FetchError>) -> (resolved: Result<T, ResolutionError>)
    ensures
        match outcome {
            Ok(file) => resolved == Ok::<T, ResolutionError>(file),
            Err(cause) => resolved == Err::<T, ResolutionError>(
                ResolutionError::DownloadFailed(cause),
            ),
        },
{
    match outcome {
        Ok(file) => Ok(file),
        Err(cause) => Err(ResolutionError::DownloadFailed(cause)),
    }
}

} // verus!
