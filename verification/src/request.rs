//! The handshake request and the transport's configuration, built from a URL
//! and the connection's options.
//!
//! The URL grammar and the request builder belong to the `tungstenite` and
//! `http` crates. What they compute is named here and taken on trust; what is
//! done with it is verified.

use crate::options::{frame_limit_of, Options};
use tungstenite::client::ClientRequestBuilder;
use tungstenite::http::Uri;
use tungstenite::protocol::WebSocketConfig;
use vstd::prelude::*;

verus! {

/// `http::Uri`, as `tungstenite` hands it on: a parsed URI, carried through
/// as it is.
#[verifier::external_type_specification]
#[verifier::external_body]
pub struct ExUri(tungstenite::http::Uri);

/// `tungstenite::client::ClientRequestBuilder`: a URI with the additional
/// headers and the subprotocols to ask for in the handshake.
#[verifier::external_type_specification]
#[verifier::external_body]
pub struct ExClientRequestBuilder(tungstenite::client::ClientRequestBuilder);

/// `tungstenite::protocol::WebSocketConfig`: the settings of the transport.
#[verifier::external_type_specification]
#[verifier::external_body]
pub struct ExWebSocketConfig(tungstenite::protocol::WebSocketConfig);

/// What parsing a text as a URI comes to: the URI, by its text, or the
/// reason for which the text is refused.
pub uninterp spec fn uri_parse(url: Seq<char>) -> Result<Seq<char>, Seq<char>>;

/// A URI written out as text.
pub uninterp spec fn uri_text(uri: Uri) -> Seq<char>;

/// The URI that a handshake request goes to, written out as text.
pub uninterp spec fn request_target(request: ClientRequestBuilder) -> Seq<char>;

/// The additional headers of a handshake request, in order.
pub uninterp spec fn request_headers(request: ClientRequestBuilder) -> Seq<(Seq<char>, Seq<char>)>;

/// The subprotocols that a handshake request asks for, in order.
pub uninterp spec fn request_protocols(request: ClientRequestBuilder) -> Seq<Seq<char>>;

/// The largest incoming frame that a configuration admits, `None` for any.
pub uninterp spec fn config_frame_limit(config: WebSocketConfig) -> Option<usize>;

/// A text as `Debug` prints it: in double quotes, with escapes.
pub uninterp spec fn debug_text(text: Seq<char>) -> Seq<char>;

/// `ClientRequestBuilder::new` makes a request to the given URI with no
/// additional header and no subprotocol.
pub assume_specification[ ClientRequestBuilder::new ](uri: Uri) -> (request: ClientRequestBuilder)
    ensures
        request_target(request) == uri_text(uri),
        request_headers(request) == Seq::<(Seq<char>, Seq<char>)>::empty(),
        request_protocols(request) == Seq::<Seq<char>>::empty(),
;

/// `str::parse::<Uri>`, which is `Uri::from_str`: the URI that the text
/// denotes, or the parser's reason for refusing it, as text.
#[verifier::external_body]
fn parse_uri(url: &str) -> (parsed: Result<Uri, String>)
    ensures
        match parsed {
            Ok(uri) => uri_parse(url@) == Ok::<Seq<char>, Seq<char>>(uri_text(uri)),
            Err(reason) => uri_parse(url@) == Err::<Seq<char>, Seq<char>>(reason@),
        },
{
    match url.parse::<Uri>() {
        Ok(uri) => Ok(uri),
        Err(err) => Err(err.to_string()),
    }
}

/// `ClientRequestBuilder::with_header`: the same request with one more
/// additional header, behind those that it had.
#[verifier::external_body]
fn with_header(request: ClientRequestBuilder, key: String, value: String) -> (extended:
    ClientRequestBuilder)
    ensures
        request_target(extended) == request_target(request),
        request_headers(extended) == request_headers(request).push((key@, value@)),
        request_protocols(extended) == request_protocols(request),
{
    request.with_header(key, value)
}

/// `ClientRequestBuilder::with_sub_protocol`: the same request with one more
/// subprotocol, behind those that it had.
#[verifier::external_body]
fn with_sub_protocol(request: ClientRequestBuilder, protocol: String) -> (extended:
    ClientRequestBuilder)
    ensures
        request_target(extended) == request_target(request),
        request_headers(extended) == request_headers(request),
        request_protocols(extended) == request_protocols(request).push(protocol@),
{
    request.with_sub_protocol(protocol)
}

/// `WebSocketConfig::default()` with `max_frame_size` replaced: the
/// transport's own settings, but for the limit on one incoming frame.
#[verifier::external_body]
fn config_with_frame_limit(limit: Option<usize>) -> (config: WebSocketConfig)
    ensures
        config_frame_limit(config) == limit,
{
    WebSocketConfig { max_frame_size: limit, ..WebSocketConfig::default() }
}

/// `format!` with `{:?}` on a `str`: the text as `Debug` prints it.
#[verifier::external_body]
fn debug_quoted(text: &str) -> (quoted: String)
    ensures
        quoted@ == debug_text(text@),
{
    format!("{text:?}")
}

/// The diagnostic for a URL that does not parse.
pub open spec fn malformed_url_text(url: Seq<char>, reason: Seq<char>) -> Seq<char> {
    "Failed to parse URL "@ + debug_text(url) + ": "@ + reason
}

/// Parses the URL of a connection. A malformed URL is refused with a
/// diagnostic that quotes it and gives the parser's reason.
pub fn parse_url(url: &str) -> (parsed: Result<Uri, String>)
    ensures
        match uri_parse(url@) {
            Ok(target) => parsed matches Ok(uri) && uri_text(uri) == target,
            Err(reason) => parsed matches Err(text) && text@ == malformed_url_text(url@, reason),
        },
{
    match parse_uri(url) {
        Ok(uri) => Ok(uri),
        Err(reason) => {
            let quoted = debug_quoted(url);
            let text = String::from_str("Failed to parse URL ").concat(quoted.as_str()).concat(
                ": ",
            ).concat(reason.as_str());
            Err(text)
        },
    }
}

/// The handshake request for `uri` with the options' additional headers and
/// subprotocols, each list in its order.
pub fn into_requester(uri: Uri, options: Options) -> (request: ClientRequestBuilder)
    ensures
        request_target(request) == uri_text(uri),
        request_headers(request) == options.headers(),
        request_protocols(request) == options.protocols(),
{
    let ghost target = uri_text(uri);
    let mut request = ClientRequestBuilder::new(uri);
    let mut i: usize = 0;
    while i < options.additional_headers.len()
        invariant
            i <= options.additional_headers@.len(),
            request_target(request) == target,
            request_headers(request) == options.headers().subrange(0, i as int),
            request_protocols(request) == Seq::<Seq<char>>::empty(),
        decreases options.additional_headers@.len() - i,
    {
        let key = options.additional_headers[i].0.clone();
        let value = options.additional_headers[i].1.clone();
        request = with_header(request, key, value);
        assert(options.headers().subrange(0, i as int).push(options.headers()[i as int])
            =~= options.headers().subrange(0, i + 1));
        i = i + 1;
    }
    assert(options.headers().subrange(0, i as int) =~= options.headers());
    let mut j: usize = 0;
    while j < options.subprotocols.len()
        invariant
            j <= options.subprotocols@.len(),
            request_target(request) == target,
            request_headers(request) == options.headers(),
            request_protocols(request) == options.protocols().subrange(0, j as int),
        decreases options.subprotocols@.len() - j,
    {
        let protocol = options.subprotocols[j].clone();
        request = with_sub_protocol(request, protocol);
        assert(options.protocols().subrange(0, j as int).push(options.protocols()[j as int])
            =~= options.protocols().subrange(0, j + 1));
        j = j + 1;
    }
    assert(options.protocols().subrange(0, j as int) =~= options.protocols());
    request
}

/// The transport's configuration for these options: its own settings, with
/// the options' limit on one incoming frame.
pub fn websocket_config(options: &Options) -> (config: WebSocketConfig)
    ensures
        config_frame_limit(config) == frame_limit_of(options.max_incoming_frame_size),
{
    config_with_frame_limit(options.frame_limit())
}

} // verus!
