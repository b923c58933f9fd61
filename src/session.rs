//! Bootstrapping a session: where its prompt comes from, the client it
//! talks through, and how the models on offer are shown.
use vstd::prelude::*;
use crate::api::ApiOptions;
use crate::cli::GptOptions;
use crate::model::Model;
use crate::openai::OpenAi;
use crate::text::{join, join_strings, views};

verus! {

/// The prompt of a session.  At a terminal it is the command line's words
/// laid end to end; from a pipe it is the lines read, joined by newlines.
pub open spec fn prompt_of(stdin_is_tty: bool, words: Seq<String>, lines: Seq<String>) -> Seq<char> {
    if stdin_is_tty {
        join(views(words), ""@)
    } else {
        join(views(lines), "\n"@)
    }
}

/// Resolves the prompt from the command line's words or the piped lines.
pub fn resolve_prompt(stdin_is_tty: bool, words: &Vec<String>, lines: &Vec<String>) -> (r: String)
    ensures
        r@ == prompt_of(stdin_is_tty, words@, lines@),
{
    if stdin_is_tty {
        join_strings(words, "")
    } else {
        join_strings(lines, "\n")
    }
}

/// The client options a session's configuration gives: debugging is on
/// with either switch, and a dry run only with the second.
pub open spec fn client_options(opts: GptOptions) -> ApiOptions {
    ApiOptions {
        api_host: opts.envs.api_host,
        api_key: opts.envs.api_key->0,
        timeout: opts.flags.timeout,
        debug: opts.debug.debug || opts.debug.debug_dry,
        dry: opts.debug.debug_dry,
    }
}

/// The client a session talks through.
pub fn client(opts: &GptOptions) -> (r: OpenAi)
    requires
        opts.envs.api_key is Some,
    ensures
        r.opts == client_options(*opts),
{
    OpenAi::new(
        opts.envs.api_host.clone(),
        opts.envs.api_key.clone().unwrap(),
        opts.flags.timeout,
        opts.debug.debug || opts.debug.debug_dry,
        opts.debug.debug_dry,
    )
}

/// How a model is listed: its id, and on the next line its owner.
pub open spec fn model_entry(id: Seq<char>, by: Seq<char>) -> Seq<char> {
    "  - "@ + id + "\n    by: "@ + by
}

/// The lines that list `model`.
pub fn model_line(model: &Model) -> (r: String)
    ensures
        r@ == model_entry(model.id@, model.by@),
{
    let mut line = String::from_str("  - ");
    line.append(model.id.as_str());
    line.append("\n    by: ");
    line.append(model.by.as_str());
    line
}

} // verus!
