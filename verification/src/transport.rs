//! What the HTTP transport checks before a provider request goes out, and how
//! a failed exchange is reported: only POST requests are sent, every header
//! must be a valid HTTP header, and a transport failure becomes an execution
//! error naming its class.
use vstd::prelude::*;
use crate::agent::AgentError;
use crate::provider::{ProviderErrorKind, ProviderTransportRequest};
use crate::request::{error_kind_name, error_kind_name_str};
use crate::text::{ascii_lower, concat, concat3, str_eq};

verus! {

// ---------------------------------------------------------------------------
// Header validity, as the `http` crate under reqwest defines it
// ---------------------------------------------------------------------------

/// A token character of RFC 7230: a letter, a digit, or one of
/// ``!#$%&'*+-.^_`|~``.
pub open spec fn token_char(c: char) -> bool {
    ||| ('a' <= c && c <= 'z')
    ||| ('A' <= c && c <= 'Z')
    ||| ('0' <= c && c <= '9')
    ||| c == '!' || c == '#' || c == '$' || c == '%' || c == '&' || c == '\'' || c == '*'
    ||| c == '+' || c == '-' || c == '.' || c == '^' || c == '_' || c == '`' || c == '|'
    ||| c == '~'
}

/// A header name: 1 to 65535 token characters.
pub open spec fn header_name_valid(name: Seq<char>) -> bool {
    &&& 1 <= name.len() <= 65535
    &&& forall|i: int| 0 <= i < name.len() ==> token_char(#[trigger] name[i])
}

/// A character a header value may hold: a tab, or anything from the space on
/// but DEL (characters past ASCII are encoded in bytes of 128 and more, which
/// are allowed).
pub open spec fn header_value_char(c: char) -> bool {
    c == '\t' || (' ' <= c && c != '\u{7f}')
}

pub open spec fn header_value_valid(value: Seq<char>) -> bool {
    forall|i: int| 0 <= i < value.len() ==> header_value_char(#[trigger] value[i])
}

/// `reqwest::header::HeaderName::from_bytes` (the `http` crate's): accepts a
/// name of 1 to 65535 bytes each of which is a token character, and gives it
/// back lowercased; any other name is refused with the text
/// "invalid HTTP header name".
#[verifier::external_body]
fn parse_header_name(name: &str) -> (r: Result<String, String>)
    ensures
        r is Ok <==> header_name_valid(name@),
        r matches Ok(n) ==> n@ == ascii_lower(name@),
        r matches Err(e) ==> e@ == "invalid HTTP header name"@,
{
    match reqwest::header::HeaderName::from_bytes(name.as_bytes()) {
        Ok(parsed) => Ok(parsed.as_str().to_string()),
        Err(error) => Err(error.to_string()),
    }
}

/// `reqwest::header::HeaderValue::from_str` (the `http` crate's): accepts a
/// value whose bytes are all a tab or at least 32 and not 127; any other value
/// is refused with the text "failed to parse header value".
#[verifier::external_body]
fn parse_header_value(value: &str) -> (r: Result<(), String>)
    ensures
        r is Ok <==> header_value_valid(value@),
        r matches Err(e) ==> e@ == "failed to parse header value"@,
{
    match reqwest::header::HeaderValue::from_str(value) {
        Ok(_) => Ok(()),
        Err(error) => Err(error.to_string()),
    }
}

// ---------------------------------------------------------------------------
// The headers a request is sent with
// ---------------------------------------------------------------------------

pub open spec fn header_views(headers: Seq<(String, String)>) -> Seq<(Seq<char>, Seq<char>)> {
    headers.map_values(|h: (String, String)| (h.0@, h.1@))
}

/// The headers checked in order: the first invalid name or value is the error
/// (a value's error names its header lowercased); when all are valid, each
/// header with its name lowercased.
pub open spec fn checked_headers(headers: Seq<(Seq<char>, Seq<char>)>) -> Result<
    Seq<(Seq<char>, Seq<char>)>,
    Seq<char>,
>
    decreases headers.len(),
{
    if headers.len() == 0 {
        Ok(Seq::empty())
    } else {
        match checked_headers(headers.drop_last()) {
            Err(e) => Err(e),
            Ok(prefix) => {
                let (name, value) = headers.last();
                if !header_name_valid(name) {
                    Err("invalid provider header name "@ + name + ": "@ + "invalid HTTP header name"@)
                } else if !header_value_valid(value) {
                    Err(
                        "invalid provider header value for "@ + ascii_lower(name) + ": "@
                            + "failed to parse header value"@,
                    )
                } else {
                    Ok(prefix.push((ascii_lower(name), value)))
                }
            },
        }
    }
}

/// The request's headers as they go out, or why it cannot be sent: a method
/// other than POST is refused; then the headers are checked as
/// `checked_headers` says.
pub open spec fn sendable_headers(method: Seq<char>, headers: Seq<(Seq<char>, Seq<char>)>) -> Result<
    Seq<(Seq<char>, Seq<char>)>,
    Seq<char>,
> {
    if method != "POST"@ {
        Err("unsupported provider transport method "@ + method)
    } else {
        checked_headers(headers)
    }
}

proof fn lemma_checked_headers_error_stays(headers: Seq<(Seq<char>, Seq<char>)>, k: int, j: int)
    requires
        0 <= k <= j <= headers.len(),
        checked_headers(headers.take(k)) is Err,
    ensures
        checked_headers(headers.take(j)) == checked_headers(headers.take(k)),
    decreases j - k,
{
    if j > k {
        lemma_checked_headers_error_stays(headers, k, j - 1);
        assert(headers.take(j).drop_last() =~= headers.take(j - 1));
    }
}

/// The headers of a transport request, checked before anything is sent: only
/// POST requests go out, and each header's name and value must be valid; the
/// names come back lowercased. A refusal is an execution error whose message
/// `sendable_headers` gives.
pub fn checked_request_headers(request: &ProviderTransportRequest) -> (r: Result<
    Vec<(String, String)>,
    AgentError,
>)
    ensures
        match sendable_headers(request.method@, header_views(request.headers@)) {
            Ok(hs) => r matches Ok(out) && header_views(out@) == hs,
            Err(message) => r matches Err(AgentError::Execution { message: m }) && m@ == message,
        },
{
    if !str_eq(request.method.as_str(), "POST") {
        return Err(
            AgentError::Execution {
                message: concat("unsupported provider transport method ", request.method.as_str()),
            },
        );
    }
    let ghost all = header_views(request.headers@);
    let mut out: Vec<(String, String)> = Vec::new();
    let mut i: usize = 0;
    assert(all.take(0) =~= Seq::<(Seq<char>, Seq<char>)>::empty());
    assert(header_views(out@) =~= Seq::<(Seq<char>, Seq<char>)>::empty());
    while i < request.headers.len()
        invariant
            request.method@ == "POST"@,
            all == header_views(request.headers@),
            i <= request.headers@.len(),
            checked_headers(all.take(i as int)) == Ok::<Seq<(Seq<char>, Seq<char>)>, Seq<char>>(
                header_views(out@),
            ),
        decreases request.headers@.len() - i,
    {
        let (name, value) = &request.headers[i];
        proof {
            assert(all.take(i + 1).drop_last() =~= all.take(i as int));
            assert(all.take(i + 1).last() == all[i as int]);
            assert(all[i as int] == (name@, value@));
        }
        let lowered = match parse_header_name(name.as_str()) {
            Ok(n) => n,
            Err(error) => {
                let message = concat3("invalid provider header name ", name.as_str(), ": ");
                let message = concat(message.as_str(), error.as_str());
                proof {
                    assert(message@ =~= "invalid provider header name "@ + name@ + ": "@ + "invalid HTTP header name"@);
                    assert(checked_headers(all.take(i + 1)) == Err::<Seq<(Seq<char>, Seq<char>)>, Seq<char>>(message@));
                    lemma_checked_headers_error_stays(all, i + 1, all.len() as int);
                    assert(all.take(all.len() as int) =~= all);
                }
                return Err(AgentError::Execution { message });
            },
        };
        match parse_header_value(value.as_str()) {
            Ok(()) => {},
            Err(error) => {
                let message = concat3("invalid provider header value for ", lowered.as_str(), ": ");
                let message = concat(message.as_str(), error.as_str());
                proof {
                    assert(message@ =~= "invalid provider header value for "@ + ascii_lower(name@) + ": "@
                        + "failed to parse header value"@);
                    assert(checked_headers(all.take(i + 1)) == Err::<Seq<(Seq<char>, Seq<char>)>, Seq<char>>(message@));
                    lemma_checked_headers_error_stays(all, i + 1, all.len() as int);
                    assert(all.take(all.len() as int) =~= all);
                }
                return Err(AgentError::Execution { message });
            },
        }
        let ghost before = header_views(out@);
        let copied = value.clone();
        assert(copied@ == value@);
        out.push((lowered, copied));
        proof {
            assert(header_views(out@) =~= before.push((ascii_lower(name@), value@)));
            assert(checked_headers(all.take(i + 1)) == Ok::<Seq<(Seq<char>, Seq<char>)>, Seq<char>>(
                before.push((ascii_lower(name@), value@)),
            ));
        }
        i = i + 1;
    }
    proof {
        assert(all.take(i as int) =~= all);
    }
    Ok(out)
}

// ---------------------------------------------------------------------------
// Transport failures
// ---------------------------------------------------------------------------

/// What a failed HTTP exchange reports of itself: whether it timed out, could
/// not connect, failed while building or sending the request, or could not
/// decode the answer, and its description.
#[derive(Clone, Debug, PartialEq, Eq)]
pub struct TransportFailure {
    pub timeout: bool,
    pub connect: bool,
    pub request: bool,
    pub decode: bool,
    pub description: String,
}

/// The class of a transport failure: a timeout first, then a connection or
/// request failure as the network, an undecodable answer as an invalid
/// response, anything else unknown.
pub open spec fn failure_kind(f: TransportFailure) -> ProviderErrorKind {
    if f.timeout {
        ProviderErrorKind::Timeout
    } else if f.connect || f.request {
        ProviderErrorKind::Network
    } else if f.decode {
        ProviderErrorKind::InvalidResponse
    } else {
        ProviderErrorKind::Unknown
    }
}

pub open spec fn transport_failure_message(f: TransportFailure) -> Seq<char> {
    "provider transport "@ + error_kind_name(failure_kind(f)) + ": "@ + f.description@
}

/// The execution error a transport failure becomes: "provider transport",
/// its class and its description.
pub fn provider_transport_error(failure: &TransportFailure) -> (r: AgentError)
    ensures
        r matches AgentError::Execution { message } && message@ == transport_failure_message(*failure),
{
    let kind = if failure.timeout {
        ProviderErrorKind::Timeout
    } else if failure.connect || failure.request {
        ProviderErrorKind::Network
    } else if failure.decode {
        ProviderErrorKind::InvalidResponse
    } else {
        ProviderErrorKind::Unknown
    };
    let head = concat3("provider transport ", error_kind_name_str(kind), ": ");
    AgentError::Execution { message: concat(head.as_str(), failure.description.as_str()) }
}

} // verus!
