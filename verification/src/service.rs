//! The request builder: composes the absolute URL for an operation and an
//! authenticated HTTP client whose every request carries the bearer token
//! and the fixed JSON headers.

use vstd::prelude::*;
use vstd::string::StrSliceExecFns;
use vstd::string::StringExecFns;
use crate::config::Data;

verus! {

/// Which resource family a confirmation prompt speaks of.
pub enum RequestType {
    PROJECT,
    TASK,
}

pub open spec fn confirmation_prompt(t: RequestType) -> Seq<char> {
    match t {
        RequestType::PROJECT => "Are you sure you want to delete project with ID="@,
        RequestType::TASK => "Are you sure you want to delete task, including subtasks with code="@,
    }
}

impl RequestType {
    /// The confirmation prompt shown before a delete of this resource kind.
    pub fn value(&self) -> (r: &'static str)
        ensures
            r@ == confirmation_prompt(*self),
    {
        match *self {
            RequestType::PROJECT => "Are you sure you want to delete project with ID=",
            RequestType::TASK => "Are you sure you want to delete task, including subtasks with code=",
        }
    }
}

/// Whether a path already ends in a slash, so no separator is owed before
/// an instance id.
pub open spec fn ends_in_slash(path: Seq<char>) -> bool {
    path.len() > 0 && path.last() == '/'
}

/// The absolute URL of an operation: host, then endpoint path, then --- when
/// an instance is addressed --- a single separating slash, the instance id
/// and a trailing slash.
pub open spec fn url_of(host: Seq<char>, endpoint: Seq<char>, instance: Option<Seq<char>>) -> Seq<
    char,
> {
    match instance {
        Some(id) => host + endpoint + (if ends_in_slash(endpoint) {
            Seq::<char>::empty()
        } else {
            "/"@
        }) + id + "/"@,
        None => host + endpoint,
    }
}

/// Composes the absolute URL for an endpoint and an optional instance id.
pub fn build_url(conf: &Data, endpoint: &str, instance: Option<&String>) -> (r: String)
    ensures
        r@ == url_of(
            conf.host@,
            endpoint@,
            match instance {
                Some(id) => Some(id@),
                None => None,
            },
        ),
{
    let mut api_url = String::new();
    api_url.append(conf.host.as_str());
    api_url.append(endpoint);
    match instance {
        Some(id) => {
            let elen = endpoint.unicode_len();
            if elen == 0 || endpoint.get_char(elen - 1) != '/' {
                api_url.append("/");
            }
            api_url.append(id.as_str());
            api_url.append("/");
        },
        None => {},
    }
    proof {
        assert(api_url@ =~= url_of(
            conf.host@,
            endpoint@,
            match instance {
                Some(id) => Some(id@),
                None => None,
            },
        ));
    }
    api_url
}

/// Law: building a URL is a pure function of the configuration and the
/// arguments --- two URLs built from identical inputs are always equal.
pub proof fn lemma_build_url_idempotent(
    host: Seq<char>,
    endpoint: Seq<char>,
    instance: Option<Seq<char>>,
    u1: Seq<char>,
    u2: Seq<char>,
)
    requires
        u1 == url_of(host, endpoint, instance),
        u2 == url_of(host, endpoint, instance),
    ensures
        u1 == u2,
{
}

/// The value of the authorization header: the fixed scheme word, a space,
/// then the stored token.
pub open spec fn auth_value_of(token: Seq<char>) -> Seq<char> {
    "Token "@ + token
}

/// Builds the authorization header value for a token.
pub fn auth_header_value(token: &str) -> (r: String)
    ensures
        r@ == auth_value_of(token@),
{
    let mut auth = String::from_str("Token ");
    auth.append(token);
    auth
}

/// The characters `HeaderValue::from_str` accepts: horizontal tab, and
/// everything from space upward except delete.
pub open spec fn valid_header_char(c: char) -> bool {
    c == '\t' || (32 <= c as int && c as int != 127)
}

pub open spec fn valid_header_value(s: Seq<char>) -> bool {
    forall|i: int| 0 <= i < s.len() ==> valid_header_char(#[trigger] s[i])
}

#[verifier::external_type_specification]
#[verifier::external_body]
#[verifier::reject_recursive_types(T)]
pub struct ExHeaderMap<T>(reqwest::header::HeaderMap<T>);

#[verifier::external_type_specification]
#[verifier::external_body]
pub struct ExHeaderValue(reqwest::header::HeaderValue);

#[verifier::external_type_specification]
#[verifier::external_body]
pub struct ExInvalidHeaderValue(reqwest::header::InvalidHeaderValue);

#[verifier::external_type_specification]
#[verifier::external_body]
pub struct ExMaxSizeReached(reqwest::header::MaxSizeReached);

#[verifier::external_type_specification]
#[verifier::external_body]
pub struct ExClient(reqwest::blocking::Client);

#[verifier::external_type_specification]
#[verifier::external_body]
pub struct ExReqwestError(reqwest::Error);

/// What a header map holds: lower-case header names mapped to the value
/// characters last inserted for each name.
pub uninterp spec fn header_entries(m: reqwest::header::HeaderMap) -> Map<Seq<char>, Seq<char>>;

/// How many distinct header names a map holds: what HeaderMap's growth
/// checks count, so the capacity clauses of the insert wrappers can speak
/// of it.
pub uninterp spec fn header_count(m: reqwest::header::HeaderMap) -> nat;

/// Why one header could not be set.
pub enum HeaderInsertError {
    /// The value holds a character outside the accepted range.
    Invalid(reqwest::header::InvalidHeaderValue),
    /// The map is at its maximum size.
    Capacity(reqwest::header::MaxSizeReached),
}

/// A header map with no entries.
pub open spec fn no_headers() -> Map<Seq<char>, Seq<char>> {
    Map::empty()
}

/// Relies on http's HeaderMap::new: the new map holds no entries.
#[verifier::external_body]
fn new_header_map() -> (r: reqwest::header::HeaderMap)
    ensures
        header_entries(r) == no_headers(),
        header_count(r) == 0,
{
    reqwest::header::HeaderMap::new()
}

/// Relies on http's HeaderValue::from_str, which accepts exactly tab and
/// the bytes from space upward except delete (so all text beyond ASCII),
/// and HeaderMap::try_insert, which replaces any previous value under the
/// key, adds at most one name, and can hit the map's fixed maximum size
/// only once five times the stored names reach that maximum;
/// AUTHORIZATION is "authorization".
#[verifier::external_body]
fn insert_authorization(m: &mut reqwest::header::HeaderMap, value: &str) -> (r: Result<
    (),
    HeaderInsertError,
>)
    ensures
        r is Ok ==> header_entries(*final(m)) == header_entries(*old(m)).insert(
            "authorization"@,
            value@,
        ),
        r is Ok ==> header_count(*final(m)) <= header_count(*old(m)) + 1,
        r matches Err(HeaderInsertError::Invalid(_)) <==> !valid_header_value(value@),
        r matches Err(HeaderInsertError::Capacity(_)) ==> 5 * header_count(*old(m)) >= 32768,
        r is Err ==> header_entries(*final(m)) == header_entries(*old(m)),
{
    match reqwest::header::HeaderValue::from_str(value) {
        Ok(v) => match m.try_insert(reqwest::header::AUTHORIZATION, v) {
            Ok(_) => Ok(()),
            Err(e) => Err(HeaderInsertError::Capacity(e)),
        },
        Err(e) => Err(HeaderInsertError::Invalid(e)),
    }
}

/// Relies on http's HeaderValue::from_str and HeaderMap::try_insert, as for
/// the authorization header; CONTENT_TYPE is "content-type".
#[verifier::external_body]
fn insert_content_type(m: &mut reqwest::header::HeaderMap, value: &str) -> (r: Result<
    (),
    HeaderInsertError,
>)
    ensures
        r is Ok ==> header_entries(*final(m)) == header_entries(*old(m)).insert(
            "content-type"@,
            value@,
        ),
        r is Ok ==> header_count(*final(m)) <= header_count(*old(m)) + 1,
        r matches Err(HeaderInsertError::Invalid(_)) <==> !valid_header_value(value@),
        r matches Err(HeaderInsertError::Capacity(_)) ==> 5 * header_count(*old(m)) >= 32768,
        r is Err ==> header_entries(*final(m)) == header_entries(*old(m)),
{
    match reqwest::header::HeaderValue::from_str(value) {
        Ok(v) => match m.try_insert(reqwest::header::CONTENT_TYPE, v) {
            Ok(_) => Ok(()),
            Err(e) => Err(HeaderInsertError::Capacity(e)),
        },
        Err(e) => Err(HeaderInsertError::Invalid(e)),
    }
}

/// Relies on http's HeaderValue::from_str and HeaderMap::try_insert, as for
/// the authorization header; ACCEPT is "accept".
#[verifier::external_body]
fn insert_accept(m: &mut reqwest::header::HeaderMap, value: &str) -> (r: Result<
    (),
    HeaderInsertError,
>)
    ensures
        r is Ok ==> header_entries(*final(m)) == header_entries(*old(m)).insert(
            "accept"@,
            value@,
        ),
        r is Ok ==> header_count(*final(m)) <= header_count(*old(m)) + 1,
        r matches Err(HeaderInsertError::Invalid(_)) <==> !valid_header_value(value@),
        r matches Err(HeaderInsertError::Capacity(_)) ==> 5 * header_count(*old(m)) >= 32768,
        r is Err ==> header_entries(*final(m)) == header_entries(*old(m)),
{
    match reqwest::header::HeaderValue::from_str(value) {
        Ok(v) => match m.try_insert(reqwest::header::ACCEPT, v) {
            Ok(_) => Ok(()),
            Err(e) => Err(HeaderInsertError::Capacity(e)),
        },
        Err(e) => Err(HeaderInsertError::Invalid(e)),
    }
}

/// Relies on reqwest's blocking Client::builder, ClientBuilder::default_headers
/// and ClientBuilder::build: the built client attaches the given headers to
/// every request it issues.
#[verifier::external_body]
fn build_client_with(headers: reqwest::header::HeaderMap) -> (r: Result<
    reqwest::blocking::Client,
    reqwest::Error,
>) {
    reqwest::blocking::Client::builder().default_headers(headers).build()
}

/// Why the request builder failed.
pub enum ClientError {
    /// The stored token cannot appear in a header value.
    InvalidToken,
    /// The HTTP client itself could not be constructed.
    Build,
}

/// The fixed JSON media-type string is a header value every insert accepts.
proof fn lemma_json_header_value_valid()
    ensures
        valid_header_value("application/json"@),
{
    reveal_strlit("application/json");
    assert forall|i: int| 0 <= i < "application/json"@.len() implies valid_header_char(
        #[trigger] "application/json"@[i],
    ) by {
        if i == 0 {
            assert("application/json"@[0] == 'a');
        } else if i == 1 {
            assert("application/json"@[1] == 'p');
        } else if i == 2 {
            assert("application/json"@[2] == 'p');
        } else if i == 3 {
            assert("application/json"@[3] == 'l');
        } else if i == 4 {
            assert("application/json"@[4] == 'i');
        } else if i == 5 {
            assert("application/json"@[5] == 'c');
        } else if i == 6 {
            assert("application/json"@[6] == 'a');
        } else if i == 7 {
            assert("application/json"@[7] == 't');
        } else if i == 8 {
            assert("application/json"@[8] == 'i');
        } else if i == 9 {
            assert("application/json"@[9] == 'o');
        } else if i == 10 {
            assert("application/json"@[10] == 'n');
        } else if i == 11 {
            assert("application/json"@[11] == '/');
        } else if i == 12 {
            assert("application/json"@[12] == 'j');
        } else if i == 13 {
            assert("application/json"@[13] == 's');
        } else if i == 14 {
            assert("application/json"@[14] == 'o');
        } else {
            assert("application/json"@[15] == 'n');
        }
    }
}

/// The exact headers an authenticated client is built with.
pub open spec fn expected_headers(token: Seq<char>) -> Map<Seq<char>, Seq<char>> {
    Map::<Seq<char>, Seq<char>>::empty().insert("authorization"@, auth_value_of(token)).insert(
        "content-type"@,
        "application/json"@,
    ).insert("accept"@, "application/json"@)
}

/// Builds the header map every request carries: the bearer-style token and
/// the fixed JSON content-type and accept headers. Succeeds exactly when
/// the token can form a header value: the fixed headers always can, and a
/// three-entry map is far below the map's capacity.
fn get_headers(token: &str) -> (r: Result<reqwest::header::HeaderMap, ClientError>)
    ensures
        r matches Ok(h) ==> header_entries(h) == expected_headers(token@),
        r is Ok <==> valid_header_value(auth_value_of(token@)),
        r is Err ==> r == Err::<reqwest::header::HeaderMap, ClientError>(
            ClientError::InvalidToken,
        ),
{
    let auth = auth_header_value(token);
    let mut headers = new_header_map();
    match insert_authorization(&mut headers, auth.as_str()) {
        Ok(()) => {},
        Err(HeaderInsertError::Invalid(_)) => {
            return Err(ClientError::InvalidToken);
        },
        Err(HeaderInsertError::Capacity(_)) => {
            return vstd::pervasive::unreached();
        },
    }
    proof {
        lemma_json_header_value_valid();
    }
    match insert_content_type(&mut headers, "application/json") {
        Ok(()) => {},
        Err(_) => {
            return vstd::pervasive::unreached();
        },
    }
    match insert_accept(&mut headers, "application/json") {
        Ok(()) => {},
        Err(_) => {
            return vstd::pervasive::unreached();
        },
    }
    Ok(headers)
}

/// An authenticated client paired with the absolute URL of one operation.
pub struct RequestClient {
    pub client: reqwest::blocking::Client,
    pub url: String,
}

/// Composes the request client for an operation: the URL from the loaded
/// configuration, endpoint and optional instance id, and a client that
/// carries the authorization and JSON headers. Pure in the configuration:
/// no state is shared across calls.
pub fn make_request_client(conf: &Data, endpoint: &str, instance: Option<&String>) -> (r: Result<
    RequestClient,
    ClientError,
>)
    ensures
        r matches Ok(rc) ==> rc.url@ == url_of(
            conf.host@,
            endpoint@,
            match instance {
                Some(id) => Some(id@),
                None => None,
            },
        ),
        r == Err::<RequestClient, ClientError>(ClientError::InvalidToken) <==> !valid_header_value(
            auth_value_of(conf.credentials@),
        ),
{
    let url = build_url(conf, endpoint, instance);
    let headers = match get_headers(conf.credentials.as_str()) {
        Ok(h) => h,
        Err(e) => {
            return Err(e);
        },
    };
    match build_client_with(headers) {
        Ok(client) => Ok(RequestClient { client, url }),
        Err(_) => Err(ClientError::Build),
    }
}

} // verus!
