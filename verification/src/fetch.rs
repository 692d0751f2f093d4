//! Fetching a recording over HTTP, written as the decisions of the fetch
//! alone. Each decision answers with the next [`Action`]; whoever carries
//! the action out reports what came of it to the function that belongs to
//! that action, until the answer is `Done` or `Fail`.
//!
//! A fetch asks for the URL it was given. Where the server answers with an
//! HTML page, the page is searched for a link to the recording and that link
//! is asked for in turn; its answer is stored whatever it holds, so that no
//! more than one link is ever followed.

use crate::content::{classify, envelope, header_view, html_marker, is_success};
use crate::content::{status_is_success, ContentEnvelope};
use crate::error::{FetchError, FetchErrorView, HttpFailure, HttpFailureView};
use crate::link::{find_link, linked_url, selected_attr};
use crate::link::{LINK_ATTRIBUTE, LINK_REL_SELECTOR};
use vstd::prelude::*;

verus! {

/// Which of the two requests of a fetch is meant.
#[derive(Debug, Clone, Copy, PartialEq, Eq, Structural)]
pub enum Hop {
    /// The request for the URL that the fetch was given.
    First,
    /// The request for the link found in an HTML page.
    Linked,
}

/// What a response says of itself before its body is read.
#[derive(Debug, PartialEq, Eq)]
pub struct ResponseHead {
    /// The status code.
    pub status: u16,
    /// The bytes of the `content-type` header, where the response has one.
    pub content_type: Option<Vec<u8>>,
}

/// A [`ResponseHead`] with its header as a sequence of bytes.
pub struct ResponseHeadView {
    pub status: u16,
    pub content_type: Option<Seq<u8>>,
}

impl View for ResponseHead {
    type V = ResponseHeadView;

    open spec fn view(&self) -> ResponseHeadView {
        ResponseHeadView { status: self.status, content_type: header_view(self.content_type) }
    }
}

/// The next thing to do for a fetch.
#[derive(Debug, PartialEq, Eq)]
pub enum Action {
    /// Send a blocking GET to `url` and report the head of the response to
    /// [`on_response`].
    Get { url: String, hop: Hop },
    /// Create the temporary file and report to [`on_file`].
    CreateFile { url: String, content_type: Option<Vec<u8>> },
    /// Read the body of the response to `url` as text and report it to
    /// [`on_text`].
    ReadText { url: String },
    /// Stream the body of the response to `url` into the temporary file and
    /// report to [`on_stored`].
    Store { url: String },
    /// The temporary file holds the recording.
    Done,
    /// The fetch has failed; the temporary file, if there is one, is let go.
    Fail(FetchError),
}

/// An [`Action`] with its texts as sequences.
pub enum ActionView {
    Get { url: Seq<char>, hop: Hop },
    CreateFile { url: Seq<char>, content_type: Option<Seq<u8>> },
    ReadText { url: Seq<char> },
    Store { url: Seq<char> },
    Done,
    Fail(FetchErrorView),
}

impl View for Action {
    type V = ActionView;

    open spec fn view(&self) -> ActionView {
        match *self {
            Action::Get { url, hop } => ActionView::Get { url: url@, hop },
            Action::CreateFile { url, content_type } => ActionView::CreateFile {
                url: url@,
                content_type: header_view(content_type),
            },
            Action::ReadText { url } => ActionView::ReadText { url: url@ },
            Action::Store { url } => ActionView::Store { url: url@ },
            Action::Done => ActionView::Done,
            Action::Fail(error) => ActionView::Fail(error@),
        }
    }
}

/// What was reported of a GET: the head of the response, or why there is
/// none.
pub open spec fn head_reply_view(reply: Result<ResponseHead, String>) -> Result<
    ResponseHeadView,
    Seq<char>,
> {
    match reply {
        Ok(head) => Ok(head@),
        Err(detail) => Err(detail@),
    }
}

/// What was reported of work on the temporary file: that it is done, or why
/// it is not.
pub open spec fn file_reply_view(reply: Result<(), String>) -> Result<(), Seq<char>> {
    match reply {
        Ok(done) => Ok(()),
        Err(detail) => Err(detail@),
    }
}

/// What was reported of reading a body as text: the text, or why there is
/// none.
pub open spec fn text_reply_view(reply: Result<String, String>) -> Result<Seq<char>, Seq<char>> {
    match reply {
        Ok(text) => Ok(text@),
        Err(detail) => Err(detail@),
    }
}

/// `None` where `url` parses as an absolute URL; otherwise what the parser
/// says against it.
pub uninterp spec fn url_rejection(url: Seq<char>) -> Option<Seq<char>>;

/// Asks `reqwest::Url::parse` whether `url` is an absolute URL, and where it
/// is not, takes the text of the error. Nothing is claimed of the outcome
/// but that it is determined by `url`.
#[verifier::external_body]
fn check_url(url: &str) -> (rejection: Option<String>)
    ensures
        rejection.deep_view() == url_rejection(url@),
{
    match reqwest::Url::parse(url) {
        Ok(_) => None,
        Err(error) => Some(error.to_string()),
    }
}

/// How a request begins once its URL has been checked: a rejected URL fails
/// the fetch before anything is sent; an accepted one is asked for.
pub open spec fn request_plan(url: Seq<char>, hop: Hop, rejection: Option<Seq<char>>) -> ActionView {
    match rejection {
        Some(detail) => ActionView::Fail(
            FetchErrorView::Http { url, failure: HttpFailureView::InvalidUrl(detail) },
        ),
        None => ActionView::Get { url, hop },
    }
}

/// How the request for `url` begins.
pub open spec fn begin(url: Seq<char>, hop: Hop) -> ActionView {
    request_plan(url, hop, url_rejection(url))
}

/// What follows a GET. A request that could not be carried out, or that was
/// answered with a status outside the successful range, fails the fetch. A
/// successful first response waits for the temporary file; a successful
/// response to the link is stored.
pub open spec fn after_response(
    url: Seq<char>,
    hop: Hop,
    reply: Result<ResponseHeadView, Seq<char>>,
) -> ActionView {
    match reply {
        Err(detail) => ActionView::Fail(
            FetchErrorView::Http { url, failure: HttpFailureView::Transport(detail) },
        ),
        Ok(head) => if !is_success(head.status) {
            ActionView::Fail(
                FetchErrorView::Http { url, failure: HttpFailureView::Status(head.status) },
            )
        } else {
            match hop {
                Hop::First => ActionView::CreateFile { url, content_type: head.content_type },
                Hop::Linked => ActionView::Store { url },
            }
        },
    }
}

/// What follows the creation of the temporary file. With the file in place
/// the content type of the first response decides: without one the fetch
/// fails, a page is read as text, anything else is stored.
pub open spec fn after_file(
    url: Seq<char>,
    content_type: Option<Seq<u8>>,
    reply: Result<(), Seq<char>>,
) -> ActionView {
    match reply {
        Err(detail) => ActionView::Fail(FetchErrorView::Io(detail)),
        Ok(created) => match envelope(content_type) {
            Err(error) => ActionView::Fail(error),
            Ok(ContentEnvelope::Html) => ActionView::ReadText { url },
            Ok(ContentEnvelope::Payload) => ActionView::Store { url },
        },
    }
}

/// What follows the search of a page: without a link the fetch fails, with
/// one the link is requested.
pub open spec fn follow_plan(link: Option<Seq<char>>) -> ActionView {
    match link {
        None => ActionView::Fail(FetchErrorView::LinkNotFound),
        Some(address) => begin(address, Hop::Linked),
    }
}

/// What follows the reading of the page at `url`.
pub open spec fn after_text(url: Seq<char>, reply: Result<Seq<char>, Seq<char>>) -> ActionView {
    match reply {
        Err(detail) => ActionView::Fail(
            FetchErrorView::Http { url, failure: HttpFailureView::Transport(detail) },
        ),
        Ok(html) => follow_plan(linked_url(html)),
    }
}

/// What follows the storing of a body: the fetch is done, or has failed.
pub open spec fn after_stored(reply: Result<(), Seq<char>>) -> ActionView {
    match reply {
        Err(detail) => ActionView::Fail(FetchErrorView::Io(detail)),
        Ok(stored) => ActionView::Done,
    }
}

/// Begins the request for `url`, given what the URL check said of it.
pub fn request(url: String, hop: Hop, rejection: Option<String>) -> (action: Action)
    ensures
        action@ == request_plan(url@, hop, rejection.deep_view()),
{
    match rejection {
        Some(detail) => Action::Fail(
            FetchError::Http { url, failure: HttpFailure::InvalidUrl(detail) },
        ),
        None => Action::Get { url, hop },
    }
}

/// Checks `url` and begins the request for it.
fn start(url: String, hop: Hop) -> (action: Action)
    ensures
        action@ == begin(url@, hop),
{
    let rejection = check_url(url.as_str());
    request(url, hop, rejection)
}

/// Begins the fetch of the recording at `url`.
pub fn download_asciicast(url: &str) -> (action: Action)
    ensures
        action@ == begin(url@, Hop::First),
{
    start(url.to_owned(), Hop::First)
}

/// Decides what follows the GET that [`Action::Get`] asked for.
pub fn on_response(url: String, hop: Hop, reply: Result<ResponseHead, String>) -> (action: Action)
    ensures
        action@ == after_response(url@, hop, head_reply_view(reply)),
{
    match reply {
        Err(detail) => Action::Fail(
            FetchError::Http { url, failure: HttpFailure::Transport(detail) },
        ),
        Ok(head) => {
            if !status_is_success(head.status) {
                Action::Fail(FetchError::Http { url, failure: HttpFailure::Status(head.status) })
            } else {
                match hop {
                    Hop::First => Action::CreateFile { url, content_type: head.content_type },
                    Hop::Linked => Action::Store { url },
                }
            }
        },
    }
}

/// Decides what follows the creation of the temporary file that
/// [`Action::CreateFile`] asked for.
pub fn on_file(
    url: String,
    content_type: Option<Vec<u8>>,
    reply: Result<(), String>,
) -> (action: Action)
    ensures
        action@ == after_file(url@, header_view(content_type), file_reply_view(reply)),
{
    match reply {
        Err(detail) => Action::Fail(FetchError::Io(detail)),
        Ok(_) => match classify(&content_type) {
            Err(error) => Action::Fail(error),
            Ok(ContentEnvelope::Html) => Action::ReadText { url },
            Ok(ContentEnvelope::Payload) => Action::Store { url },
        },
    }
}

/// Decides what follows the search of a page for its link.
pub fn follow(link: Option<String>) -> (action: Action)
    ensures
        action@ == follow_plan(link.deep_view()),
{
    match link {
        None => Action::Fail(FetchError::LinkNotFound),
        Some(address) => start(address, Hop::Linked),
    }
}

/// Decides what follows the reading of the page that [`Action::ReadText`]
/// asked for.
pub fn on_text(url: String, reply: Result<String, String>) -> (action: Action)
    ensures
        action@ == after_text(url@, text_reply_view(reply)),
{
    match reply {
        Err(detail) => Action::Fail(
            FetchError::Http { url, failure: HttpFailure::Transport(detail) },
        ),
        Ok(html) => follow(find_link(html.as_str())),
    }
}

/// Decides what follows the storing of the body that [`Action::Store`] asked
/// for.
pub fn on_stored(reply: Result<(), String>) -> (action: Action)
    ensures
        action@ == after_stored(file_reply_view(reply)),
{
    match reply {
        Err(detail) => Action::Fail(FetchError::Io(detail)),
        Ok(_) => Action::Done,
    }
}

/// A first response that succeeds and declares a content type other than
/// HTML is the recording itself: the file is created, the body of that very
/// response is stored in it, and with that the fetch is done.
pub proof fn payload_is_stored(url: Seq<char>, head: ResponseHeadView)
    requires
        is_success(head.status),
        envelope(head.content_type) == Ok::<ContentEnvelope, FetchErrorView>(
            ContentEnvelope::Payload,
        ),
    ensures
        after_response(url, Hop::First, Ok(head)) == (ActionView::CreateFile {
            url,
            content_type: head.content_type,
        }),
        after_file(url, head.content_type, Ok(())) == (ActionView::Store { url }),
        after_stored(Ok(())) == ActionView::Done,
{
}

/// Once the file stands, a header that is present never fails the fetch,
/// whatever bytes it holds: where it begins with `text/html` the page is
/// read, and otherwise the body is stored.
pub proof fn present_content_type_decides(url: Seq<char>, value: Seq<u8>)
    ensures
        html_marker().is_prefix_of(value) ==> after_file(url, Some(value), Ok(()))
            == (ActionView::ReadText { url }),
        !html_marker().is_prefix_of(value) ==> after_file(url, Some(value), Ok(()))
            == (ActionView::Store { url }),
{
}

/// A first response that succeeds and declares HTML is a page: the file is
/// created and the page is read as text, to be searched for its link.
pub proof fn page_is_read(url: Seq<char>, head: ResponseHeadView)
    requires
        is_success(head.status),
        envelope(head.content_type) == Ok::<ContentEnvelope, FetchErrorView>(
            ContentEnvelope::Html,
        ),
    ensures
        after_response(url, Hop::First, Ok(head)) == (ActionView::CreateFile {
            url,
            content_type: head.content_type,
        }),
        after_file(url, head.content_type, Ok(())) == (ActionView::ReadText { url }),
{
}

/// A page in which exactly one element matches, and carries an address, has
/// that address requested in place of the page; and a successful response
/// to the link is what gets stored, whatever content type it declares.
pub proof fn single_link_is_followed(
    url: Seq<char>,
    html: Seq<char>,
    address: Seq<char>,
    head: ResponseHeadView,
)
    requires
        is_success(head.status),
    ensures
        selected_attr(html, LINK_REL_SELECTOR@, LINK_ATTRIBUTE@) == Some(seq![Some(address)])
            ==> after_text(url, Ok(html)) == begin(address, Hop::Linked),
        url_rejection(address) is None ==> begin(address, Hop::Linked) == (ActionView::Get {
            url: address,
            hop: Hop::Linked,
        }),
        after_response(address, Hop::Linked, Ok(head)) == (ActionView::Store { url: address }),
{
}

/// A page in which no element matches fails the fetch for want of a link,
/// and no request follows.
pub proof fn page_without_link_fails(url: Seq<char>, html: Seq<char>)
    ensures
        selected_attr(html, LINK_REL_SELECTOR@, LINK_ATTRIBUTE@) == Some(
            Seq::<Option<Seq<char>>>::empty(),
        ) ==> after_text(url, Ok(html)) == ActionView::Fail(FetchErrorView::LinkNotFound),
{
}

/// A successful first response without a `content-type` header fails the
/// fetch as soon as the file stands: no body has been read by then, so none
/// can change the outcome.
pub proof fn missing_content_type_fails(url: Seq<char>, status: u16)
    requires
        is_success(status),
    ensures
        after_response(url, Hop::First, Ok(ResponseHeadView { status, content_type: None }))
            == (ActionView::CreateFile { url, content_type: None }),
        after_file(url, None, Ok(())) == ActionView::Fail(FetchErrorView::MissingContentType),
{
}

/// The response to a link is never searched for a further link: it is
/// stored, or the fetch fails.
pub proof fn one_link_at_most(url: Seq<char>, reply: Result<ResponseHeadView, Seq<char>>)
    ensures
        after_response(url, Hop::Linked, reply) is Store || after_response(
            url,
            Hop::Linked,
            reply,
        ) is Fail,
{
}

/// How many reports an action can still be followed by, at most.
pub open spec fn reports_left(action: ActionView) -> nat {
    match action {
        ActionView::Get { url, hop: Hop::First } => 5,
        ActionView::CreateFile { url, content_type } => 4,
        ActionView::ReadText { url } => 3,
        ActionView::Get { url, hop: Hop::Linked } => 2,
        ActionView::Store { url } => 1,
        ActionView::Done => 0,
        ActionView::Fail(error) => 0,
    }
}

/// Every report brings the fetch nearer to its end: whatever is reported,
/// the action that follows can be followed by fewer reports than the action
/// that was reported on. So a fetch ends after five reports at most, never
/// asks for the same thing twice, and asks for no third URL.
pub proof fn every_report_advances(
    url: Seq<char>,
    hop: Hop,
    content_type: Option<Seq<u8>>,
    response: Result<ResponseHeadView, Seq<char>>,
    file: Result<(), Seq<char>>,
    text: Result<Seq<char>, Seq<char>>,
)
    ensures
        reports_left(begin(url, hop)) <= reports_left(ActionView::Get { url, hop }),
        reports_left(after_response(url, hop, response)) < reports_left(
            ActionView::Get { url, hop },
        ),
        reports_left(after_file(url, content_type, file)) < reports_left(
            ActionView::CreateFile { url, content_type },
        ),
        reports_left(after_text(url, text)) < reports_left(ActionView::ReadText { url }),
        reports_left(after_stored(file)) < reports_left(ActionView::Store { url }),
{
}

/// The fetch is done only when a body has been stored in full: no other
/// report is followed by `Done`, and the report on a body is followed by it
/// exactly where the body was stored.
pub proof fn done_only_when_stored(
    url: Seq<char>,
    hop: Hop,
    content_type: Option<Seq<u8>>,
    response: Result<ResponseHeadView, Seq<char>>,
    file: Result<(), Seq<char>>,
    text: Result<Seq<char>, Seq<char>>,
)
    ensures
        !(begin(url, hop) is Done),
        !(after_response(url, hop, response) is Done),
        !(after_file(url, content_type, file) is Done),
        !(after_text(url, text) is Done),
        after_stored(file) is Done <==> file is Ok,
{
}

} // verus!
