use cast_source::error::{FetchError, HttpFailure, ResolutionError};
use cast_source::fetch::{Action, Hop};
use cast_source::get_local_path;
use cast_source::resolve::{conclude, Resolution};

fn local(path: &str) -> Resolution {
    Resolution::Local(path.to_string())
}

#[test]
fn a_plain_path_is_returned_unchanged() {
    assert_eq!(get_local_path("demo.cast"), local("demo.cast"));
    assert_eq!(get_local_path("/var/tmp/demo.cast"), local("/var/tmp/demo.cast"));
    assert_eq!(get_local_path("./a b/démo.cast"), local("./a b/démo.cast"));
}

#[test]
fn a_path_is_not_checked_for_existence() {
    assert_eq!(
        get_local_path("/no/such/directory/anywhere.cast"),
        local("/no/such/directory/anywhere.cast")
    );
}

#[test]
fn the_empty_identifier_is_a_path() {
    assert_eq!(get_local_path(""), local(""));
}

#[test]
fn only_the_two_exact_prefixes_make_an_identifier_remote() {
    assert_eq!(get_local_path("ftp://example.com/demo.cast"), local("ftp://example.com/demo.cast"));
    assert_eq!(get_local_path("HTTP://example.com/demo.cast"), local("HTTP://example.com/demo.cast"));
    assert_eq!(get_local_path("Https://example.com"), local("Https://example.com"));
    assert_eq!(get_local_path("http:/example.com"), local("http:/example.com"));
    assert_eq!(get_local_path("http:"), local("http:"));
    assert_eq!(get_local_path("https:/"), local("https:/"));
    assert_eq!(get_local_path(" https://example.com"), local(" https://example.com"));
    assert_eq!(get_local_path("file:https://example.com"), local("file:https://example.com"));
}

#[test]
fn an_https_url_begins_a_fetch_with_a_get_to_it() {
    assert_eq!(
        get_local_path("https://example.com/demo.cast"),
        Resolution::Remote(Action::Get {
            url: "https://example.com/demo.cast".to_string(),
            hop: Hop::First,
        })
    );
}

#[test]
fn an_http_url_begins_a_fetch_with_a_get_to_it() {
    assert_eq!(
        get_local_path("http://example.com/a/1"),
        Resolution::Remote(Action::Get { url: "http://example.com/a/1".to_string(), hop: Hop::First })
    );
}

#[test]
fn a_remote_identifier_that_is_no_url_fails_before_any_request() {
    assert_eq!(
        get_local_path("https://"),
        Resolution::Remote(Action::Fail(FetchError::Http {
            url: "https://".to_string(),
            failure: HttpFailure::InvalidUrl("empty host".to_string()),
        }))
    );
    assert_eq!(
        get_local_path("http://example.com:99999/"),
        Resolution::Remote(Action::Fail(FetchError::Http {
            url: "http://example.com:99999/".to_string(),
            failure: HttpFailure::InvalidUrl("invalid port number".to_string()),
        }))
    );
}

#[test]
fn a_fetched_file_is_handed_on() {
    let outcome: Result<u32, FetchError> = Ok(7);
    assert_eq!(conclude(outcome), Ok(7));
}

#[test]
fn a_fetch_failure_becomes_the_cause_of_a_failed_download() {
    let outcome: Result<u32, FetchError> = Err(FetchError::LinkNotFound);
    assert_eq!(conclude(outcome), Err(ResolutionError::DownloadFailed(FetchError::LinkNotFound)));
    let outcome: Result<u32, FetchError> = Err(FetchError::Http {
        url: "https://example.com".to_string(),
        failure: HttpFailure::Status(503),
    });
    assert_eq!(
        conclude(outcome),
        Err(ResolutionError::DownloadFailed(FetchError::Http {
            url: "https://example.com".to_string(),
            failure: HttpFailure::Status(503),
        }))
    );
}
