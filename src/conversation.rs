//! The conversation engine: seeds the transcript, and from each event (a
//! line from the operator, a reply of the service) decides what is done
//! next.  The driver performs what it is told and reports back.
use vstd::prelude::*;
use crate::api::{ApiError, ApiErrorType};
use crate::cli::{Exit, ExitView, GptOptions};
use crate::model::{
    ChatCompletions, Entry, Message, ResponseOutcome, Role, choice_texts, entries, role_label,
};
use crate::text::{join, join_strings, str_eq, trim, trim_of, views};

verus! {

/// The context path that keeps the transcript in memory only.
pub open spec fn memory_path() -> Seq<char> {
    "-"@
}

/// The transcript is kept in a file.
pub open spec fn is_durable(context: Option<String>) -> bool {
    context matches Some(p) && p@ != memory_path()
}

/// The transcript a session starts from.  Without a context it is empty;
/// with a file that was found, it is what the file held; otherwise it holds
/// the prompt as a system message, if the prompt is not empty.
pub open spec fn seed_entries(
    context: Option<String>,
    prompt: Seq<char>,
    stored: Option<Vec<Message>>,
) -> Seq<Entry> {
    if context is None {
        Seq::empty()
    } else if is_durable(context) && stored is Some {
        entries(stored->0@)
    } else if prompt.len() > 0 {
        seq![Entry { role: Role::System, content: prompt }]
    } else {
        Seq::empty()
    }
}

/// What a failed call ends the run with.
pub open spec fn exit_for(kind: ApiErrorType) -> ExitView {
    match kind {
        ApiErrorType::Timeout => ExitView { code: 1, message: Some("Request timed out"@) },
        ApiErrorType::Decode => ExitView { code: 1, message: Some("Bad response"@) },
        ApiErrorType::DryDebug => ExitView { code: 0, message: None },
        _ => ExitView { code: 1, message: Some("Request failed"@) },
    }
}

/// Maps a failed call to the exit of the run.
pub fn to_exit(error: ApiError) -> (r: Exit)
    ensures
        r@ == exit_for(error.kind),
{
    match error.kind {
        ApiErrorType::Timeout => Exit::with_message(1, "Request timed out"),
        ApiErrorType::Decode => Exit::with_message(1, "Bad response"),
        ApiErrorType::DryDebug => Exit { exit_code: 0, message: None },
        _ => Exit::with_message(1, "Request failed"),
    }
}

/// The ways the stored transcript can fail.
#[derive(Clone, Copy, Debug, PartialEq, Eq, Structural)]
pub enum StoreError {
    /// The file could not be read.
    Read,
    /// The file's content is not a transcript.
    Parse,
    /// The file could not be written.
    Write,
}

/// What a failure of the stored transcript ends the run with.
pub open spec fn store_exit(e: StoreError) -> ExitView {
    match e {
        StoreError::Read => ExitView { code: 1, message: Some("Failed to read context file"@) },
        StoreError::Parse => ExitView { code: 1, message: Some("Failed to parse context file"@) },
        StoreError::Write => ExitView { code: 1, message: Some("Failed to write context file"@) },
    }
}

impl StoreError {
    /// The exit of the run.
    pub fn to_exit(self) -> (r: Exit)
        ensures
            r@ == store_exit(self),
    {
        match self {
            StoreError::Read => Exit::with_message(1, "Failed to read context file"),
            StoreError::Parse => Exit::with_message(1, "Failed to parse context file"),
            StoreError::Write => Exit::with_message(1, "Failed to write context file"),
        }
    }
}

/// The exit for an error that the service reports: its kind in brackets,
/// then its message.
pub open spec fn reported_exit(kind: Seq<char>, message: Seq<char>) -> ExitView {
    ExitView { code: 1, message: Some("["@ + kind + "] "@ + message) }
}

/// What the driver does next.
pub enum Next {
    /// Ask the operator for a line.
    ReadLine,
    /// Send this request to the service.
    Send(ChatCompletions),
    /// End the run.
    Finish(Result<(), Exit>),
}

/// The first step sends a request: there is no context to read lines for.
pub open spec fn first_sends(context: Option<String>) -> bool {
    context is None
}

/// What follows a reply of the service: text to show, a file to write the
/// transcript to, and the next step.
pub struct Reply {
    pub shown: Option<String>,
    pub persist_to: Option<String>,
    pub next: Next,
}

/// The run ends after this reply: there is no context, or the reply is not a
/// completion.
pub open spec fn reply_ends(context: Option<String>, reply: Result<ResponseOutcome, ApiError>) -> bool {
    context is None || !(reply matches Ok(ResponseOutcome::Completed(_)))
}

/// Where the transcript is written after this reply: to the context file,
/// after a completion, in a session that keeps one.
pub open spec fn persist_target(
    context: Option<String>,
    reply: Result<ResponseOutcome, ApiError>,
) -> Option<String> {
    if is_durable(context) && reply matches Ok(ResponseOutcome::Completed(_)) {
        context
    } else {
        None
    }
}

/// The text of a completion: its choices joined by newlines.
pub open spec fn completion_text(choices: Seq<crate::model::Choice>) -> Seq<char> {
    join(choice_texts(choices), "\n"@)
}

/// The line that shows a transcript entry: its role's label in brackets,
/// then its content.
pub open spec fn entry_line(e: Entry) -> Seq<char> {
    "["@ + role_label(e.role) + "] "@ + e.content
}

/// The line that shows `message` to the operator.
pub fn transcript_line(message: &Message) -> (r: String)
    ensures
        r@ == entry_line(message@),
{
    let mut line = String::from_str("[");
    let label = match message.role {
        Role::System => "System",
        Role::User => "User",
        Role::Assistant => "Assistant",
    };
    line.append(label);
    line.append("] ");
    line.append(message.content.as_str());
    line
}

/// The file the transcript is kept in, if `context` names one.
pub fn context_file(context: &Option<String>) -> (r: Option<String>)
    ensures
        r == (if is_durable(*context) { *context } else { None }),
{
    proof {
        reveal_strlit("-");
    }
    match context {
        Some(p) => if str_eq(p.as_str(), "-") {
            None
        } else {
            Some(p.clone())
        },
        None => None,
    }
}

/// A conversation in progress.
pub struct Conversation {
    pub context: Option<String>,
    pub prompt: String,
    pub model: String,
    pub max_tokens: Option<u16>,
    pub temperature: Option<u32>,
    pub messages: Vec<Message>,
}

impl Conversation {
    /// The settings are those of `other`; only the transcript may differ.
    pub open spec fn same_settings(self, other: Conversation) -> bool {
        &&& self.context == other.context
        &&& self.prompt == other.prompt
        &&& self.model == other.model
        &&& self.max_tokens == other.max_tokens
        &&& self.temperature == other.temperature
    }

    /// `r` asks for a completion of this conversation's whole transcript.
    pub open spec fn asks_for(self, r: ChatCompletions) -> bool {
        &&& r.model == self.model
        &&& r.max_tokens == self.max_tokens
        &&& r.temperature == self.temperature
        &&& r.messages@ == self.messages@
    }

    /// Starts a conversation on `prompt`.  `stored` is the transcript read
    /// from the context file, where one was found.
    pub fn new(opts: &GptOptions, prompt: &String, stored: Option<Vec<Message>>) -> (r: Conversation)
        ensures
            entries(r.messages@) == seed_entries(opts.flags.context, prompt@, stored),
            r.context == opts.flags.context,
            r.prompt == *prompt,
            r.model == opts.flags.model,
            r.max_tokens == opts.flags.max_tokens,
            r.temperature == opts.flags.temperature,
    {
        let context = opts.flags.context.clone();
        let mut messages: Vec<Message> = Vec::new();
        if context.is_some() {
            let durable = context_file(&context).is_some();
            let mut loaded = false;
            if durable {
                if let Some(found) = stored {
                    messages = found;
                    loaded = true;
                }
            }
            if !loaded && prompt.as_str().unicode_len() > 0 {
                messages.push(Message { role: Role::System, content: prompt.clone() });
            }
        }
        proof {
            if context is Some && !(is_durable(context) && stored is Some) && prompt@.len() > 0 {
                assert(entries(messages@) =~= seq![Entry { role: Role::System, content: prompt@ }]);
            }
            assert(entries(messages@) =~= seed_entries(opts.flags.context, prompt@, stored));
        }
        Conversation {
            context,
            prompt: prompt.clone(),
            model: opts.flags.model.clone(),
            max_tokens: opts.flags.max_tokens,
            temperature: opts.flags.temperature,
            messages,
        }
    }

    /// Whether the transcript is kept in a file.
    pub fn is_durable(&self) -> (r: bool)
        ensures
            r == is_durable(self.context),
    {
        context_file(&self.context).is_some()
    }

    /// The request for a completion of the whole transcript.
    pub fn request(&self) -> (r: ChatCompletions)
        ensures
            self.asks_for(r),
    {
        let messages = self.messages.clone();
        assert(messages@ =~= self.messages@);
        ChatCompletions {
            model: self.model.clone(),
            max_tokens: self.max_tokens,
            temperature: self.temperature,
            messages,
        }
    }

    /// The first step.  Without a context the prompt becomes the one user
    /// message and is sent; with one, the operator is asked for a line.
    pub fn first(&mut self) -> (r: Next)
        ensures
            final(self).same_settings(*old(self)),
            r is Send <==> first_sends(old(self).context),
            old(self).context is None ==> entries(final(self).messages@) == entries(old(self).messages@).push(
                Entry { role: Role::User, content: old(self).prompt@ },
            ),
            old(self).context is None ==> (r matches Next::Send(req) && final(self).asks_for(req)),
            old(self).context is Some ==> (r is ReadLine && final(self).messages@ == old(self).messages@),
    {
        if self.context.is_none() {
            let ghost before = self.messages@;
            self.messages.push(Message { role: Role::User, content: self.prompt.clone() });
            assert(entries(self.messages@) =~= entries(before).push(
                Entry { role: Role::User, content: self.prompt@ },
            ));
            Next::Send(self.request())
        } else {
            Next::ReadLine
        }
    }

    /// A line from the operator, already trimmed.  An empty line ends the
    /// run; any other is added as a user message and the transcript is sent.
    pub fn on_trimmed_line(&mut self, line: String) -> (r: Next)
        ensures
            final(self).same_settings(*old(self)),
            line@.len() == 0 ==> (r matches Next::Finish(Ok(())) && final(self).messages@ == old(self).messages@),
            line@.len() > 0 ==> entries(final(self).messages@) == entries(old(self).messages@).push(
                Entry { role: Role::User, content: line@ },
            ),
            line@.len() > 0 ==> (r matches Next::Send(req) && final(self).asks_for(req)),
    {
        if line.as_str().unicode_len() == 0 {
            return Next::Finish(Ok(()));
        }
        let ghost before = self.messages@;
        let ghost content = line@;
        self.messages.push(Message { role: Role::User, content: line });
        assert(entries(self.messages@) =~= entries(before).push(Entry { role: Role::User, content }));
        Next::Send(self.request())
    }

    /// A line from the operator: trimmed, then taken as by `on_trimmed_line`.
    pub fn on_line(&mut self, line: &str) -> (r: Next)
        ensures
            final(self).same_settings(*old(self)),
            trim_of(line@).len() == 0 ==> (r matches Next::Finish(Ok(()))
                && final(self).messages@ == old(self).messages@),
            trim_of(line@).len() > 0 ==> entries(final(self).messages@) == entries(old(self).messages@).push(
                Entry { role: Role::User, content: trim_of(line@) },
            ),
            trim_of(line@).len() > 0 ==> (r matches Next::Send(req) && final(self).asks_for(req)),
    {
        let trimmed = trim(line);
        self.on_trimmed_line(trimmed)
    }

    /// A reply of the service to the last request.  A failure ends the run
    /// with its exit.  A completion is shown; without a context the run then
    /// ends, with one it is added to the transcript as an assistant message,
    /// the transcript is written where it is kept in a file, and the operator
    /// is asked for the next line.
    pub fn on_reply(&mut self, reply: Result<ResponseOutcome, ApiError>) -> (r: Reply)
        ensures
            final(self).same_settings(*old(self)),
            r.persist_to == persist_target(old(self).context, reply),
            reply_ends(old(self).context, reply) ==> final(self).messages@ == old(self).messages@,
            r.next is Finish <==> reply_ends(old(self).context, reply),
            !reply_ends(old(self).context, reply) ==> r.next is ReadLine,
            reply matches Err(e) ==> (r.next matches Next::Finish(Err(x)) && x@ == exit_for(e.kind)
                && r.shown is None),
            reply matches Ok(ResponseOutcome::Failed(d)) ==> (r.next matches Next::Finish(Err(x))
                && x@ == reported_exit(d.kind@, d.message@) && r.shown is None),
            reply matches Ok(ResponseOutcome::Completed(c)) ==> (r.shown matches Some(t) && (
                if old(self).context is None {
                    t@ == completion_text(c.choices@) && r.next matches Next::Finish(Ok(()))
                } else {
                    &&& t@ == entry_line(Entry { role: Role::Assistant, content: completion_text(c.choices@) })
                    &&& entries(final(self).messages@) == entries(old(self).messages@).push(
                        Entry { role: Role::Assistant, content: completion_text(c.choices@) },
                    )
                })),
    {
        match reply {
            Err(e) => Reply { shown: None, persist_to: None, next: Next::Finish(Err(to_exit(e))) },
            Ok(ResponseOutcome::Failed(d)) => {
                let mut text = String::from_str("[");
                text.append(d.kind.as_str());
                text.append("] ");
                text.append(d.message.as_str());
                Reply {
                    shown: None,
                    persist_to: None,
                    next: Next::Finish(Err(Exit { exit_code: 1, message: Some(text) })),
                }
            },
            Ok(ResponseOutcome::Completed(c)) => {
                let mut texts: Vec<String> = Vec::new();
                let n = c.choices.len();
                let mut i: usize = 0;
                while i < n
                    invariant
                        n == c.choices@.len(),
                        i <= n,
                        views(texts@) =~= choice_texts(c.choices@).take(i as int),
                    decreases n - i,
                {
                    let ghost before = texts@;
                    texts.push(c.choices[i].message.content.clone());
                    assert(texts@ =~= before.push(c.choices@[i as int].message.content));
                    assert(views(texts@) =~= views(before).push(c.choices@[i as int].message.content@));
                    i = i + 1;
                }
                assert(choice_texts(c.choices@).take(n as int) =~= choice_texts(c.choices@));
                let text = join_strings(&texts, "\n");
                if self.context.is_none() {
                    return Reply { shown: Some(text), persist_to: None, next: Next::Finish(Ok(())) };
                }
                let message = Message { role: Role::Assistant, content: text };
                let shown = transcript_line(&message);
                let ghost before = self.messages@;
                self.messages.push(message);
                assert(entries(self.messages@) =~= entries(before).push(message@));
                let persist_to = context_file(&self.context);
                Reply { shown: Some(shown), persist_to, next: Next::ReadLine }
            },
        }
    }
}

/// Without a context a session makes exactly one request: its first step
/// sends the prompt, and whatever the reply, the run then ends.
pub proof fn single_turn_sends_once(
    context: Option<String>,
    prompt: Seq<char>,
    reply: Result<ResponseOutcome, ApiError>,
)
    requires
        context is None,
        prompt.len() > 0,
    ensures
        first_sends(context),
        reply_ends(context, reply),
{
}

/// A session whose context is `-` never touches storage: a stored
/// transcript is not read, and no reply has the transcript written.
pub proof fn memory_context_never_persists(
    context: Option<String>,
    prompt: Seq<char>,
    stored: Option<Vec<Message>>,
    reply: Result<ResponseOutcome, ApiError>,
)
    requires
        context matches Some(p) && p@ == memory_path(),
    ensures
        !is_durable(context),
        persist_target(context, reply) is None,
        seed_entries(context, prompt, stored) == seed_entries(context, prompt, None),
{
}

/// A transcript that was written to the context file and is read back from
/// it starts the next session unchanged: same roles, same contents, same
/// order.
pub proof fn reload_restores_transcript(context: Option<String>, prompt: Seq<char>, saved: Vec<Message>)
    requires
        is_durable(context),
    ensures
        seed_entries(context, prompt, Some(saved)) == entries(saved@),
{
}

/// A call that timed out ends the run with exit code 1 and says so; a dry
/// run ends it cleanly, with nothing to say.
pub proof fn timeout_fails_and_dry_run_is_clean()
    ensures
        exit_for(ApiErrorType::Timeout) == (ExitView { code: 1, message: Some("Request timed out"@) }),
        exit_for(ApiErrorType::DryDebug) == (ExitView { code: 0, message: None }),
{
}

} // verus!
