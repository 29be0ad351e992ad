//! Writing one value into a Workers KV namespace: the request's address,
//! its query, and where the value comes from.

use url::ParseError as P;
use vstd::prelude::*;

verus! {

/// Why `url` cannot read a string as a URL: the kinds of `url::ParseError`,
/// and `Other` for a kind that a later version of `url` may add.
#[derive(PartialEq, Eq, Structural, Clone, Copy, Debug)]
pub enum UrlError {
    EmptyHost,
    IdnaError,
    InvalidPort,
    InvalidIpv4Address,
    InvalidIpv6Address,
    InvalidDomainCharacter,
    RelativeUrlWithoutBase,
    RelativeUrlWithCannotBeABaseBase,
    SetHostOnCannotBeABaseUrl,
    Overflow,
    Other,
}

/// What `url::Url::parse_with_params` makes of an address and query pairs:
/// the serialized URL, or the kind of error where the address is not an
/// absolute URL.
pub uninterp spec fn url_with_params(input: Seq<char>, params: Seq<(Seq<char>, Seq<char>)>) -> Result<Seq<char>, UrlError>;

/// The character views of query pairs.
pub open spec fn pairs_view(params: Seq<(String, String)>) -> Seq<(Seq<char>, Seq<char>)> {
    params.map_values(|p: (String, String)| (p.0@, p.1@))
}

/// `url::Url::parse_with_params`, serialized with `String::from`, its error
/// given by its kind: exactly what `url_with_params` names.
#[verifier::external_body]
fn parse_with_params(input: &str, params: &Vec<(String, String)>) -> (r: Result<String, UrlError>)
    ensures
        match (r, url_with_params(input@, pairs_view(params@))) {
            (Ok(s), Ok(u)) => s@ == u,
            (Err(e), Err(f)) => e == f,
            _ => false,
        },
{
    match url::Url::parse_with_params(input, params.iter()) {
        Ok(u) => Ok(String::from(u)),
        Err(P::EmptyHost) => Err(UrlError::EmptyHost),
        Err(P::IdnaError) => Err(UrlError::IdnaError),
        Err(P::InvalidPort) => Err(UrlError::InvalidPort),
        Err(P::InvalidIpv4Address) => Err(UrlError::InvalidIpv4Address),
        Err(P::InvalidIpv6Address) => Err(UrlError::InvalidIpv6Address),
        Err(P::InvalidDomainCharacter) => Err(UrlError::InvalidDomainCharacter),
        Err(P::RelativeUrlWithoutBase) => Err(UrlError::RelativeUrlWithoutBase),
        Err(P::RelativeUrlWithCannotBeABaseBase) => Err(UrlError::RelativeUrlWithCannotBeABaseBase),
        Err(P::SetHostOnCannotBeABaseUrl) => Err(UrlError::SetHostOnCannotBeABaseUrl),
        Err(P::Overflow) => Err(UrlError::Overflow),
        Err(_) => Err(UrlError::Other),
    }
}

/// The API address of one key of a namespace; the key is given URL-encoded.
pub open spec fn kv_value_endpoint_spec(account_id: Seq<char>, namespace_id: Seq<char>, encoded_key: Seq<char>) -> Seq<char> {
    "https://api.cloudflare.com/client/v4/accounts/"@ + account_id + "/storage/kv/namespaces/"@
        + namespace_id + "/values/"@ + encoded_key
}

/// The API address of one key of a namespace.
pub fn kv_value_endpoint(account_id: &str, namespace_id: &str, encoded_key: &str) -> (addr: String)
    ensures
        addr@ == kv_value_endpoint_spec(account_id@, namespace_id@, encoded_key@),
{
    String::from_str("https://api.cloudflare.com/client/v4/accounts/").concat(account_id).concat(
        "/storage/kv/namespaces/",
    ).concat(namespace_id).concat("/values/").concat(encoded_key)
}

/// The character view of an optional text.
pub open spec fn opt_view(o: Option<&str>) -> Option<Seq<char>> {
    match o {
        Some(s) => Some(s@),
        None => None,
    }
}

/// The query of a write: `expiration` where one is given, then
/// `expiration_ttl` where one is given.
pub open spec fn put_params_spec(expiration: Option<Seq<char>>, expiration_ttl: Option<Seq<char>>) -> Seq<(Seq<char>, Seq<char>)> {
    let first: Seq<(Seq<char>, Seq<char>)> = match expiration {
        Some(e) => seq![("expiration"@, e)],
        None => seq![],
    };
    let second: Seq<(Seq<char>, Seq<char>)> = match expiration_ttl {
        Some(t) => seq![("expiration_ttl"@, t)],
        None => seq![],
    };
    first + second
}

/// The query pairs of a write with the given expiry options.
pub fn put_query_params(expiration: Option<&str>, expiration_ttl: Option<&str>) -> (params: Vec<(String, String)>)
    ensures
        pairs_view(params@) == put_params_spec(opt_view(expiration), opt_view(expiration_ttl)),
{
    let mut params: Vec<(String, String)> = Vec::new();
    match expiration {
        Some(exp) => params.push((String::from_str("expiration"), String::from_str(exp))),
        None => {},
    }
    match expiration_ttl {
        Some(ttl) => params.push((String::from_str("expiration_ttl"), String::from_str(ttl))),
        None => {},
    }
    assert(pairs_view(params@) =~= put_params_spec(opt_view(expiration), opt_view(expiration_ttl)));
    params
}

/// What the file system says of the path given as the value.
#[derive(PartialEq, Eq, Structural, Clone, Copy, Debug)]
pub enum PathKind {
    File,
    Directory,
    /// Neither a file nor a directory (links are followed, so this is a FIFO,
    /// a socket or a device); the message calls it a symlink.
    Other,
}

/// Where the value to write comes from.
pub enum PutBody {
    /// The value given on the command line, as it is.
    Text(String),
    /// The contents of the file at this path.
    File(String),
}

/// The model of a `PutBody`.
pub enum PutBodyView {
    Text(Seq<char>),
    File(Seq<char>),
}

impl View for PutBody {
    type V = PutBodyView;

    open spec fn view(&self) -> PutBodyView {
        match self {
            PutBody::Text(s) => PutBodyView::Text(s@),
            PutBody::File(p) => PutBodyView::File(p@),
        }
    }
}

/// Why a write is refused before it is sent.
pub enum PutError {
    /// The value was to be read from a path that is not a readable file.
    BadValuePath(String),
    /// The request's address is not a URL.
    InvalidUrl(UrlError),
}

/// A write ready to be sent: the address with its query, and the value.
pub struct PutRequest {
    pub url: String,
    pub body: PutBody,
}

/// Where the value comes from: the command line's value itself, or, with
/// `is_file`, the file it names, which must be a file.
pub open spec fn put_body_spec(value: Seq<char>, is_file: bool, metadata: Option<Result<PathKind, Seq<char>>>) -> Result<PutBodyView, Seq<char>> {
    if !is_file {
        Ok(PutBodyView::Text(value))
    } else {
        match metadata {
            Some(Ok(PathKind::File)) => Ok(PutBodyView::File(value)),
            Some(Ok(PathKind::Directory)) => Err(
                "--path argument takes a file, "@ + value + " is a directory"@,
            ),
            Some(Ok(PathKind::Other)) => Err("--path argument takes a file, "@ + value + " is a symlink"@),
            Some(Err(e)) => Err(e),
            None => Err(Seq::empty()),
        }
    }
}

/// The character view of what the file system said of a path.
pub open spec fn metadata_view(m: Option<Result<PathKind, String>>) -> Option<Result<PathKind, Seq<char>>> {
    match m {
        Some(Ok(k)) => Some(Ok(k)),
        Some(Err(e)) => Some(Err(e@)),
        None => None,
    }
}

/// Decides where the value comes from. `metadata` is what the file system
/// says of `value` taken as a path; it is read only with `is_file`.
pub fn put_body(value: &str, is_file: bool, metadata: Option<Result<PathKind, String>>) -> (r: Result<PutBody, String>)
    requires
        is_file ==> metadata is Some,
    ensures
        match (r, put_body_spec(value@, is_file, metadata_view(metadata))) {
            (Ok(a), Ok(b)) => a@ == b,
            (Err(a), Err(b)) => a@ == b,
            _ => false,
        },
{
    if !is_file {
        return Ok(PutBody::Text(String::from_str(value)));
    }
    match metadata {
        Some(Ok(PathKind::File)) => Ok(PutBody::File(String::from_str(value))),
        Some(Ok(PathKind::Directory)) => Err(
            String::from_str("--path argument takes a file, ").concat(value).concat(" is a directory"),
        ),
        Some(Ok(PathKind::Other)) => Err(
            String::from_str("--path argument takes a file, ").concat(value).concat(" is a symlink"),
        ),
        Some(Err(e)) => Err(e),
        None => Err(String::new()),
    }
}

/// A write from its parts: a refused value comes first, then an address
/// that is not a URL; else the request.
pub fn put_request(url: Result<String, UrlError>, body: Result<PutBody, String>) -> (r: Result<PutRequest, PutError>)
    ensures
        match (body, url) {
            (Err(m), _) => r matches Err(PutError::BadValuePath(x)) && x@ == m@,
            (Ok(_), Err(e)) => r matches Err(PutError::InvalidUrl(x)) && x == e,
            (Ok(b), Ok(u)) => r matches Ok(req) && req.url@ == u@ && req.body@ == b@,
        },
{
    match body {
        Err(m) => Err(PutError::BadValuePath(m)),
        Ok(b) => match url {
            Err(e) => Err(PutError::InvalidUrl(e)),
            Ok(u) => Ok(PutRequest { url: u, body: b }),
        },
    }
}

/// Prepares the write of `value` under the URL-encoded key `encoded_key` of
/// the namespace `namespace_id` of account `account_id`, with the given
/// expiry options. With `is_file` the value is read from the file that
/// `value` names, of which `metadata` is what the file system says.
pub fn put(
    account_id: &str,
    namespace_id: &str,
    encoded_key: &str,
    value: &str,
    is_file: bool,
    expiration: Option<&str>,
    expiration_ttl: Option<&str>,
    metadata: Option<Result<PathKind, String>>,
) -> (r: Result<PutRequest, PutError>)
    requires
        is_file ==> metadata is Some,
    ensures
        ({
            let body = put_body_spec(value@, is_file, metadata_view(metadata));
            let url = url_with_params(
                kv_value_endpoint_spec(account_id@, namespace_id@, encoded_key@),
                put_params_spec(opt_view(expiration), opt_view(expiration_ttl)),
            );
            match body {
                Err(m) => r matches Err(PutError::BadValuePath(x)) && x@ == m,
                Ok(b) => match url {
                    Err(e) => r matches Err(PutError::InvalidUrl(x)) && x == e,
                    Ok(u) => r matches Ok(req) && req.url@ == u && req.body@ == b,
                },
            }
        }),
{
    let endpoint = kv_value_endpoint(account_id, namespace_id, encoded_key);
    let params = put_query_params(expiration, expiration_ttl);
    let url = parse_with_params(endpoint.as_str(), &params);
    let body = put_body(value, is_file, metadata);
    put_request(url, body)
}

/// The query carries each expiry option exactly when it is given, under its
/// own name, `expiration` before `expiration_ttl`, and nothing else.
pub proof fn law_put_query_follows_options(expiration: Option<Seq<char>>, expiration_ttl: Option<Seq<char>>)
    ensures
        ({
            let q = put_params_spec(expiration, expiration_ttl);
            &&& q.len() == (if expiration is Some { 1int } else { 0int }) + (if expiration_ttl is Some {
                1int
            } else {
                0int
            })
            &&& expiration matches Some(e) ==> q[0] == ("expiration"@, e)
            &&& expiration_ttl matches Some(t) ==> q[q.len() - 1] == ("expiration_ttl"@, t)
        }),
{
}

/// Without `is_file` the value is sent as it was given, whatever the file
/// system says; with it, only a file is read and nothing else is sent.
pub proof fn law_value_source(value: Seq<char>, is_file: bool, metadata: Option<Result<PathKind, Seq<char>>>)
    ensures
        !is_file ==> put_body_spec(value, is_file, metadata) == Ok::<PutBodyView, Seq<char>>(
            PutBodyView::Text(value),
        ),
        is_file ==> (put_body_spec(value, is_file, metadata) is Ok <==> metadata == Some(
            Ok::<PathKind, Seq<char>>(PathKind::File),
        )),
        put_body_spec(value, is_file, metadata) matches Ok(PutBodyView::File(p)) ==> p == value,
{
}

/// How the reply to a write is reported.
pub enum PutReply {
    /// The write succeeded; show this message.
    Succeeded(String),
    /// The API refused the write; show its errors.
    ApiErrors,
}

/// The text shown after a successful write.
pub open spec fn put_success_message() -> Seq<char> {
    "Success"@
}

/// How the reply to a write is reported, given whether its status is a
/// success. Either way the command itself succeeds: a refused write is
/// reported, not returned as an error.
pub fn put_reply(success: bool) -> (r: PutReply)
    ensures
        match r {
            PutReply::Succeeded(m) => success && m@ == put_success_message(),
            PutReply::ApiErrors => !success,
        },
{
    if success {
        PutReply::Succeeded(String::from_str("Success"))
    } else {
        PutReply::ApiErrors
    }
}

/// With `is_file`, an accepted value is always the file it names, never the
/// path's text: a regular file is read, whatever its path looks like, and
/// anything else is refused.
pub proof fn law_file_value_is_read(value: Seq<char>, metadata: Option<Result<PathKind, Seq<char>>>)
    ensures
        metadata == Some(Ok::<PathKind, Seq<char>>(PathKind::File)) ==> put_body_spec(value, true, metadata)
            == Ok::<PutBodyView, Seq<char>>(PutBodyView::File(value)),
        !(put_body_spec(value, true, metadata) matches Ok(PutBodyView::Text(_))),
        put_body_spec(value, true, metadata) is Ok ==> put_body_spec(value, true, metadata) == Ok::<
            PutBodyView,
            Seq<char>,
        >(PutBodyView::File(value)),
{
}

} // verus!
