//! The opening request of a WebSocket connection.

use crate::connection::ConnectionError;
use crate::text::joined;
use tokio_tungstenite::tungstenite::client::IntoClientRequest;
use tokio_tungstenite::tungstenite::http::Request;
use vstd::prelude::*;

verus! {

/// `http::Request`, carried through to whoever opens the connection.
#[verifier::external_type_specification]
#[verifier::external_body]
#[verifier::reject_recursive_types(T)]
pub struct ExRequest<T>(Request<T>);

/// Why `tungstenite` makes no request of a URL, in the words of its error; `None` for a URL of
/// which it makes one.
pub uninterp spec fn request_refusal(url: Seq<char>) -> Option<Seq<char>>;

/// `<String as tungstenite::client::IntoClientRequest>::into_client_request`. Trusted: whether a
/// URL is refused, and the text of the error, depend on the URL alone. Of the request itself, which
/// holds a random key, no more is claimed than that it came of asking for that URL: see [`asked`].
#[verifier::external_body]
fn into_client_request(url: String) -> (request: Result<Request<()>, String>)
    ensures
        match request {
            Ok(_) => request_refusal(url@) is None,
            Err(error) => request_refusal(url@) == Some(error@),
        },
{
    url.into_client_request().map_err(|error| error.to_string())
}

/// Passes a request on, and turns the text of a refusal into the error of a connection whose URL
/// is invalid.
pub fn request_or_error<R>(request: Result<R, String>) -> (outcome: Result<R, ConnectionError>)
    ensures
        match request {
            Ok(r) => outcome == Ok::<R, ConnectionError>(r),
            Err(error) => outcome matches Err(ConnectionError::ConnectionInitFailed(text))
                && text@ == "Invalid URL: "@ + error@,
        },
{
    match request {
        Ok(r) => Ok(r),
        Err(error) => Err(
            ConnectionError::ConnectionInitFailed(joined("Invalid URL: ", error.as_str())),
        ),
    }
}

/// Whether a request is one that `tungstenite` may make when it is asked for that of a URL.
pub closed spec fn asked(url: Seq<char>, request: Request<()>) -> bool {
    exists|s: String| #[trigger]
        s@ == url && call_ensures(into_client_request, (s,), Ok::<Request<()>, String>(request))
}

/// Whether an outcome is that of asking for the opening request of a URL: the request that
/// `tungstenite` makes of it, where it makes one, and otherwise the error with its words.
pub open spec fn is_request_for(
    url: Seq<char>,
    outcome: Result<Request<()>, ConnectionError>,
) -> bool {
    match outcome {
        Ok(request) => request_refusal(url) is None && asked(url, request),
        Err(ConnectionError::ConnectionInitFailed(text)) => request_refusal(url) matches Some(error)
            && text@ == "Invalid URL: "@ + error,
        Err(_) => false,
    }
}

/// The opening request for a URL. It is an error exactly where `tungstenite` refuses the URL.
pub fn client_request(url: &String) -> (outcome: Result<Request<()>, ConnectionError>)
    ensures
        is_request_for(url@, outcome),
{
    let ask = into_client_request;
    let wanted: String = url.clone();
    let ghost s = wanted;
    let request: Result<Request<()>, String> = ask(wanted);
    assert(request is Ok ==> asked(url@, request->Ok_0)) by {
        assert(s@ == url@);
    }
    request_or_error(request)
}

/// A URL is asked about as it is: there is a request for it exactly where `tungstenite` does not
/// refuse it, and that request came of asking for it; a refusal is passed on in its own words.
pub proof fn law_url_is_asked_about_as_it_is(
    url: String,
    outcome: Result<Request<()>, ConnectionError>,
)
    requires
        call_ensures(client_request, (&url,), outcome),
    ensures
        outcome is Ok <==> request_refusal(url@) is None,
        outcome matches Ok(request) ==> asked(url@, request),
        outcome matches Err(error) ==> {
            &&& request_refusal(url@) matches Some(words)
            &&& error matches ConnectionError::ConnectionInitFailed(text)
            &&& text@ == "Invalid URL: "@ + words
        },
{
}

/// A request that came of asking for a URL is what the call returned for a string with just the
/// characters of that URL.
proof fn law_request_comes_of_its_url(url: Seq<char>, request: Request<()>)
    requires
        asked(url, request),
    ensures
        exists|s: String| #[trigger]
            s@ == url && call_ensures(into_client_request, (s,), Ok::<Request<()>, String>(request)),
{
}

/// A request is passed on untouched, and a refusal with its words.
pub proof fn law_outcome_is_passed_on<R>(
    request: Result<R, String>,
    outcome: Result<R, ConnectionError>,
)
    requires
        call_ensures(request_or_error::<R>, (request,), outcome),
    ensures
        request matches Ok(r) ==> outcome == Ok::<R, ConnectionError>(r),
        request matches Err(words) ==> {
            &&& outcome matches Err(ConnectionError::ConnectionInitFailed(text))
            &&& text@ == "Invalid URL: "@ + words@
        },
{
}

} // verus!
