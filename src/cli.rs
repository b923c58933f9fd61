//! The configuration a session runs with, and how a run ends.
use vstd::prelude::*;

verus! {

/// How a run ends early: the process's exit code and what to tell the
/// operator, if anything.
pub struct Exit {
    pub exit_code: i32,
    pub message: Option<String>,
}

/// An exit as the operator sees it.
pub struct ExitView {
    pub code: i32,
    pub message: Option<Seq<char>>,
}

impl View for Exit {
    type V = ExitView;

    open spec fn view(&self) -> ExitView {
        ExitView {
            code: self.exit_code,
            message: match self.message {
                Some(m) => Some(m@),
                None => None,
            },
        }
    }
}

impl Exit {
    /// An exit with `code` that tells the operator `message`.
    pub fn with_message(code: i32, message: &str) -> (r: Exit)
        ensures
            r@ == (ExitView { code, message: Some(message@) }),
    {
        Exit { exit_code: code, message: Some(String::from_str(message)) }
    }
}

/// Switches for inspecting the calls made to the service.
#[derive(Clone, Copy, Debug, PartialEq, Eq, Structural)]
pub struct DebugOptions {
    /// Log each call and its reply.
    pub debug: bool,
    /// Log each call and send nothing.
    pub debug_dry: bool,
}

/// Settings that usually come from the environment.
pub struct Envs {
    pub api_key: Option<String>,
    pub api_host: String,
}

/// Settings of the request and of the session.
pub struct Flags {
    /// The sampling temperature, held as the bit pattern of an IEEE-754
    /// single-precision number.
    pub temperature: Option<u32>,
    pub max_tokens: Option<u16>,
    pub model: String,
    /// Where the transcript is kept: absent for a single turn, `-` for a
    /// conversation held in memory only, otherwise a file.
    pub context: Option<String>,
    /// Whole seconds a call may take.
    pub timeout: u8,
    pub show_models: bool,
}

/// Prompt styles; at most one is chosen.
#[derive(Clone, Copy, Debug, PartialEq, Eq, Structural)]
pub struct Helpers {
    pub produce_command: bool,
    pub produce_code: bool,
    pub produce_url: bool,
    pub produce_copilot: bool,
}

/// Everything a chat session is configured with.
pub struct GptOptions {
    pub flags: Flags,
    pub envs: Envs,
    pub helpers: Helpers,
    /// The words of the prompt given on the command line.
    pub prompt: Vec<String>,
    pub debug: DebugOptions,
}

} // verus!
