//! A client of the chat-completion service that describes each call for the
//! transport to send.
use vstd::prelude::*;
use crate::api::{self, ApiError, ApiOptions, HttpRequest};
use crate::model::ChatCompletions;

verus! {

/// A configured client of the service.
pub struct OpenAi {
    pub opts: ApiOptions,
}

impl OpenAi {
    /// A client for `api_host`, authenticated by `api_key`.
    pub fn new(api_host: String, api_key: String, timeout: u8, debug: bool, dry: bool) -> (r: OpenAi)
        ensures
            r.opts == (ApiOptions { api_host, api_key, timeout, debug, dry }),
    {
        OpenAi { opts: ApiOptions { api_host, api_key, timeout, debug, dry } }
    }

    /// The call that lists the models.
    pub fn models(&self) -> (r: Result<HttpRequest, ApiError>)
        ensures
            api::is_dry(self.opts) ==> r == Err::<HttpRequest, ApiError>(ApiError { kind: api::ApiErrorType::DryDebug }),
            !api::is_dry(self.opts) ==> (r matches Ok(req)
                && api::is_call(req, api::Method::Get, self.opts, "/models"@) && req.body is None),
    {
        api::models(&self.opts)
    }

    /// The call that asks for a completion of `request`.
    pub fn chat_completions(&self, request: &ChatCompletions) -> (r: Result<HttpRequest, ApiError>)
        ensures
            api::is_dry(self.opts) ==> r == Err::<HttpRequest, ApiError>(ApiError { kind: api::ApiErrorType::DryDebug }),
            !api::is_dry(self.opts) ==> (r matches Ok(req)
                && api::is_call(req, api::Method::Post, self.opts, "/chat/completions"@)
                && (req.body matches Some(b) && b.same_as(*request))),
    {
        api::chat_completions(&self.opts, request)
    }
}

} // verus!
