//! The messages of a conversation and the payloads exchanged with the
//! chat-completion service.
use vstd::prelude::*;

verus! {

/// Who speaks a message.
#[derive(Clone, Copy, Debug, PartialEq, Eq, Structural)]
pub enum Role {
    System,
    User,
    Assistant,
}

/// The label under which a role is shown to the operator.
pub open spec fn role_label(role: Role) -> Seq<char> {
    match role {
        Role::System => "System"@,
        Role::User => "User"@,
        Role::Assistant => "Assistant"@,
    }
}

/// One entry of a transcript.
pub struct Message {
    pub role: Role,
    pub content: String,
}

/// A transcript entry as seen in contracts.
pub struct Entry {
    pub role: Role,
    pub content: Seq<char>,
}

impl View for Message {
    type V = Entry;

    open spec fn view(&self) -> Entry {
        Entry { role: self.role, content: self.content@ }
    }
}

/// The entries of a transcript, in order.
pub open spec fn entries(messages: Seq<Message>) -> Seq<Entry> {
    messages.map_values(|m: Message| m@)
}

impl Clone for Message {
    fn clone(&self) -> (r: Self)
        ensures
            r == *self,
    {
        Message { role: self.role, content: self.content.clone() }
    }
}

/// A model offered by the service.
pub struct Model {
    pub id: String,
    /// The owner of the model.
    pub by: String,
}

/// The list of models offered by the service.
pub struct Models {
    pub models: Vec<Model>,
}

/// A request for a chat completion: the model, the optional limits on
/// sampling, and the whole transcript to be continued.
pub struct ChatCompletions {
    pub model: String,
    pub max_tokens: Option<u16>,
    /// The sampling temperature, held as the bit pattern of an IEEE-754
    /// single-precision number; the library passes it on untouched.
    pub temperature: Option<u32>,
    pub messages: Vec<Message>,
}

/// One candidate completion.
pub struct Choice {
    pub message: Message,
}

/// The token accounting of a completion.
#[derive(Clone, Copy, Debug, PartialEq, Eq, Structural)]
pub struct Usage {
    pub prompt_tokens: u16,
    pub completion_tokens: u16,
    pub total_tokens: u16,
}

/// A successful completion.
pub struct ChatCompletionsResponse {
    pub choices: Vec<Choice>,
    pub usage: Usage,
}

/// The error object that the service sends in place of a completion.
pub struct ErrorDetail {
    /// The service's name for the kind of error.
    pub kind: String,
    pub message: String,
}

/// What a well-formed reply of the service holds: a completion, or an
/// error that the service reports.
pub enum ResponseOutcome {
    Completed(ChatCompletionsResponse),
    Failed(ErrorDetail),
}

/// The text of each choice, in order.
pub open spec fn choice_texts(choices: Seq<Choice>) -> Seq<Seq<char>> {
    choices.map_values(|c: Choice| c.message.content@)
}

} // verus!
