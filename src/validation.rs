//! The checks a session's configuration must pass before any call is made.
use vstd::prelude::*;
use crate::cli::{Exit, ExitView, GptOptions};

verus! {

/// The exit for a missing API key.
pub open spec fn missing_key_exit() -> ExitView {
    ExitView { code: 1, message: Some("OPENAPI_API_KEY is required"@) }
}

/// The exit for a context asked for while the prompt is piped in.
pub open spec fn piped_context_exit() -> ExitView {
    ExitView { code: 1, message: Some("context cannot be used in the pipe"@) }
}

/// The exit for a run with neither prompt nor context.
pub open spec fn no_prompt_exit() -> ExitView {
    ExitView { code: 0, message: Some("No prompt given\nUse --help for usage"@) }
}

/// Fails unless an API key is configured.
pub fn validate_api_key(opts: &GptOptions) -> (r: Result<(), Exit>)
    ensures
        opts.envs.api_key is Some <==> r is Ok,
        r matches Err(e) ==> e@ == missing_key_exit(),
{
    match &opts.envs.api_key {
        Some(_) => Ok(()),
        None => Err(Exit::with_message(1, "OPENAPI_API_KEY is required")),
    }
}

/// Fails when a context is asked for while standard input is not a terminal.
pub fn validate_context(opts: &GptOptions, stdin_is_tty: bool) -> (r: Result<(), Exit>)
    ensures
        (!stdin_is_tty && opts.flags.context is Some) <==> r is Err,
        r matches Err(e) ==> e@ == piped_context_exit(),
{
    if !stdin_is_tty && opts.flags.context.is_some() {
        Err(Exit::with_message(1, "context cannot be used in the pipe"))
    } else {
        Ok(())
    }
}

/// The checks made before the prompt is read: the API key, then the context.
pub fn validate(opts: &GptOptions, stdin_is_tty: bool) -> (r: Result<(), Exit>)
    ensures
        r is Ok <==> (opts.envs.api_key is Some && (stdin_is_tty || opts.flags.context is None)),
        opts.envs.api_key is None ==> (r matches Err(e) && e@ == missing_key_exit()),
        (opts.envs.api_key is Some && !stdin_is_tty && opts.flags.context is Some) ==> (r matches Err(e)
            && e@ == piped_context_exit()),
{
    validate_api_key(opts)?;
    validate_context(opts, stdin_is_tty)?;
    Ok(())
}

/// Fails, with a clean exit, when there is neither a prompt nor a context.
pub fn validate_prompt(opts: &GptOptions, prompt: &String) -> (r: Result<(), Exit>)
    ensures
        (opts.flags.context is None && prompt@.len() == 0) <==> r is Err,
        r matches Err(e) ==> e@ == no_prompt_exit(),
{
    if opts.flags.context.is_none() && prompt.as_str().unicode_len() == 0 {
        Err(Exit::with_message(0, "No prompt given\nUse --help for usage"))
    } else {
        Ok(())
    }
}

} // verus!
