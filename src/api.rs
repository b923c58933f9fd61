//! The transport contract: how a call to the service is described, and how
//! its failures are classified.
use vstd::prelude::*;
use crate::model::ChatCompletions;

verus! {

/// The closed set of failures a call to the service can end in.
#[derive(Clone, Copy, Debug, PartialEq, Eq, Structural)]
pub enum ApiErrorType {
    Status(u16),
    Timeout,
    Redirect,
    Request,
    Connect,
    Body,
    Decode,
    Builder,
    Unknown,
    DryDebug,
}

/// A failed call to the service.
#[derive(Clone, Copy, Debug, PartialEq, Eq, Structural)]
pub struct ApiError {
    pub kind: ApiErrorType,
}

/// What the transport reports of a failure.  Several flags may be set at
/// once; `status_code` is the HTTP status that came with the failure, if any.
#[derive(Clone, Copy, Debug, PartialEq, Eq, Structural)]
pub struct TransportFlags {
    pub builder: bool,
    pub redirect: bool,
    pub status: bool,
    pub timeout: bool,
    pub request: bool,
    pub connect: bool,
    pub body: bool,
    pub decode: bool,
    pub status_code: Option<u16>,
}

/// The one kind a failure is classified as: the first that applies of
/// builder, redirect, status (with a code), timeout, request, connect, body
/// and decode; otherwise unknown.
pub open spec fn classify(f: TransportFlags) -> ApiErrorType {
    if f.builder {
        ApiErrorType::Builder
    } else if f.redirect {
        ApiErrorType::Redirect
    } else if f.status && f.status_code is Some {
        ApiErrorType::Status(f.status_code->0)
    } else if f.timeout {
        ApiErrorType::Timeout
    } else if f.request {
        ApiErrorType::Request
    } else if f.connect {
        ApiErrorType::Connect
    } else if f.body {
        ApiErrorType::Body
    } else if f.decode {
        ApiErrorType::Decode
    } else {
        ApiErrorType::Unknown
    }
}

/// Classifies a transport failure.
pub fn to_api_error(flags: &TransportFlags) -> (r: ApiError)
    ensures
        r.kind == classify(*flags),
{
    let kind = if flags.builder {
        ApiErrorType::Builder
    } else if flags.redirect {
        ApiErrorType::Redirect
    } else if flags.status && flags.status_code.is_some() {
        ApiErrorType::Status(flags.status_code.unwrap())
    } else if flags.timeout {
        ApiErrorType::Timeout
    } else if flags.request {
        ApiErrorType::Request
    } else if flags.connect {
        ApiErrorType::Connect
    } else if flags.body {
        ApiErrorType::Body
    } else if flags.decode {
        ApiErrorType::Decode
    } else {
        ApiErrorType::Unknown
    };
    ApiError { kind }
}

/// Where and how the service is reached.
pub struct ApiOptions {
    pub api_host: String,
    pub api_key: String,
    /// Whole seconds a call may take.
    pub timeout: u8,
    /// Log each call and its reply.
    pub debug: bool,
    /// With `debug`, log each call and send nothing.
    pub dry: bool,
}

/// The two methods the service is called with.
#[derive(Clone, Copy, Debug, PartialEq, Eq, Structural)]
pub enum Method {
    Get,
    Post,
}

/// A call to be sent: method, full URL, value of the authorization header,
/// time limit, and body if any.
pub struct HttpRequest {
    pub method: Method,
    pub url: String,
    pub authorization: String,
    pub timeout: u8,
    pub body: Option<ChatCompletions>,
}

/// The value of the authorization header for `key`.
pub open spec fn bearer(key: Seq<char>) -> Seq<char> {
    "Bearer "@ + key
}

/// `req` calls `path` on the configured host with `method`, authorized by the
/// configured key and bounded by the configured time limit.
pub open spec fn is_call(req: HttpRequest, method: Method, opts: ApiOptions, path: Seq<char>) -> bool {
    &&& req.method == method
    &&& req.url@ == opts.api_host@ + path
    &&& req.authorization@ == bearer(opts.api_key@)
    &&& req.timeout == opts.timeout
}

/// Whether calls are only logged, never sent.
pub open spec fn is_dry(opts: ApiOptions) -> bool {
    opts.debug && opts.dry
}

/// The URL of `path` on the configured host.
pub fn endpoint(opts: &ApiOptions, path: &str) -> (r: String)
    ensures
        r@ == opts.api_host@ + path@,
{
    let mut url = opts.api_host.clone();
    url.append(path);
    url
}

/// The authorization header's value.
fn authorization(opts: &ApiOptions) -> (r: String)
    ensures
        r@ == bearer(opts.api_key@),
{
    let mut value = String::from_str("Bearer ");
    value.append(opts.api_key.as_str());
    value
}

/// Describes a GET of `path`, or fails with `DryDebug` in a dry run.
pub fn get(opts: &ApiOptions, path: &str) -> (r: Result<HttpRequest, ApiError>)
    ensures
        is_dry(*opts) ==> r == Err::<HttpRequest, ApiError>(ApiError { kind: ApiErrorType::DryDebug }),
        !is_dry(*opts) ==> (r matches Ok(req) && is_call(req, Method::Get, *opts, path@)
            && req.body is None),
{
    if opts.debug && opts.dry {
        return Err(ApiError { kind: ApiErrorType::DryDebug });
    }
    Ok(HttpRequest {
        method: Method::Get,
        url: endpoint(opts, path),
        authorization: authorization(opts),
        timeout: opts.timeout,
        body: None,
    })
}

/// Describes a POST of `body` to `path`, or fails with `DryDebug` in a dry
/// run.
pub fn post(opts: &ApiOptions, path: &str, body: &ChatCompletions) -> (r: Result<HttpRequest, ApiError>)
    ensures
        is_dry(*opts) ==> r == Err::<HttpRequest, ApiError>(ApiError { kind: ApiErrorType::DryDebug }),
        !is_dry(*opts) ==> (r matches Ok(req) && is_call(req, Method::Post, *opts, path@)
            && (req.body matches Some(b) && b.same_as(*body))),
{
    if opts.debug && opts.dry {
        return Err(ApiError { kind: ApiErrorType::DryDebug });
    }
    Ok(HttpRequest {
        method: Method::Post,
        url: endpoint(opts, path),
        authorization: authorization(opts),
        timeout: opts.timeout,
        body: Some(body.clone()),
    })
}

/// The call that lists the models.
pub fn models(opts: &ApiOptions) -> (r: Result<HttpRequest, ApiError>)
    ensures
        is_dry(*opts) ==> r == Err::<HttpRequest, ApiError>(ApiError { kind: ApiErrorType::DryDebug }),
        !is_dry(*opts) ==> (r matches Ok(req) && is_call(req, Method::Get, *opts, "/models"@)
            && req.body is None),
{
    get(opts, "/models")
}

/// The call that asks for a completion of `request`.
pub fn chat_completions(opts: &ApiOptions, request: &ChatCompletions) -> (r: Result<HttpRequest, ApiError>)
    ensures
        is_dry(*opts) ==> r == Err::<HttpRequest, ApiError>(ApiError { kind: ApiErrorType::DryDebug }),
        !is_dry(*opts) ==> (r matches Ok(req) && is_call(req, Method::Post, *opts, "/chat/completions"@)
            && (req.body matches Some(b) && b.same_as(*request))),
{
    post(opts, "/chat/completions", request)
}

impl ChatCompletions {
    /// Equal field by field, the transcript compared message by message.
    pub open spec fn same_as(self, other: ChatCompletions) -> bool {
        &&& self.model == other.model
        &&& self.max_tokens == other.max_tokens
        &&& self.temperature == other.temperature
        &&& self.messages@ == other.messages@
    }
}

impl Clone for ChatCompletions {
    fn clone(&self) -> (r: Self)
        ensures
            r.same_as(*self),
    {
        let messages = self.messages.clone();
        assert(messages@ =~= self.messages@);
        ChatCompletions {
            model: self.model.clone(),
            max_tokens: self.max_tokens,
            temperature: self.temperature,
            messages,
        }
    }
}

} // verus!
