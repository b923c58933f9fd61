use gpt::api::{ApiError, ApiErrorType};
use gpt::cli::{DebugOptions, Envs, Flags, GptOptions, Helpers};
use gpt::conversation::{to_exit, transcript_line, Conversation, Next, StoreError};
use gpt::model::{ChatCompletionsResponse, Choice, ErrorDetail, Message, ResponseOutcome, Role, Usage};

fn options(context: Option<&str>) -> GptOptions {
    GptOptions {
        flags: Flags {
            temperature: None,
            max_tokens: Some(64),
            model: "gpt-3.5-turbo".to_string(),
            context: context.map(|c| c.to_string()),
            timeout: 30,
            show_models: false,
        },
        envs: Envs { api_key: Some("sk-test".to_string()), api_host: "https://api.openai.com/v1".to_string() },
        helpers: Helpers { produce_command: false, produce_code: false, produce_url: false, produce_copilot: false },
        prompt: vec![],
        debug: DebugOptions { debug: false, debug_dry: false },
    }
}

fn msg(role: Role, content: &str) -> Message {
    Message { role, content: content.to_string() }
}

fn completion(texts: &[&str]) -> Result<ResponseOutcome, ApiError> {
    Ok(ResponseOutcome::Completed(ChatCompletionsResponse {
        choices: texts.iter().map(|t| Choice { message: msg(Role::Assistant, t) }).collect(),
        usage: Usage { prompt_tokens: 1, completion_tokens: 1, total_tokens: 2 },
    }))
}

fn pairs(messages: &[Message]) -> Vec<(Role, String)> {
    messages.iter().map(|m| (m.role, m.content.clone())).collect()
}

#[test]
fn single_turn_prints_the_answer_and_ends() {
    let mut conv = Conversation::new(&options(None), &"Explain recursion".to_string(), None);
    assert!(conv.messages.is_empty());
    match conv.first() {
        Next::Send(req) => {
            assert_eq!(pairs(&req.messages), vec![(Role::User, "Explain recursion".to_string())]);
            assert_eq!(req.model, "gpt-3.5-turbo");
            assert_eq!(req.max_tokens, Some(64));
        }
        _ => panic!("expected a request"),
    }
    let reply = conv.on_reply(completion(&["Recursion is..."]));
    assert_eq!(reply.shown.as_deref(), Some("Recursion is..."));
    assert!(reply.persist_to.is_none());
    assert!(matches!(reply.next, Next::Finish(Ok(()))));
}

#[test]
fn single_turn_ends_whatever_the_reply() {
    for reply in [
        completion(&[]),
        Err(ApiError { kind: ApiErrorType::Connect }),
        Ok(ResponseOutcome::Failed(ErrorDetail { kind: "x".to_string(), message: "y".to_string() })),
    ] {
        let mut conv = Conversation::new(&options(None), &"hi".to_string(), None);
        assert!(matches!(conv.first(), Next::Send(_)));
        assert!(matches!(conv.on_reply(reply).next, Next::Finish(_)));
    }
}

#[test]
fn fresh_context_file_is_seeded_and_grows() {
    let mut conv = Conversation::new(&options(Some("chat.json")), &"You are terse.".to_string(), None);
    assert_eq!(pairs(&conv.messages), vec![(Role::System, "You are terse.".to_string())]);
    assert!(conv.is_durable());
    assert!(matches!(conv.first(), Next::ReadLine));
    match conv.on_line("Hi") {
        Next::Send(req) => assert_eq!(
            pairs(&req.messages),
            vec![(Role::System, "You are terse.".to_string()), (Role::User, "Hi".to_string())]
        ),
        _ => panic!("expected a request"),
    }
    let reply = conv.on_reply(completion(&["Hello."]));
    assert_eq!(reply.persist_to.as_deref(), Some("chat.json"));
    assert_eq!(reply.shown.as_deref(), Some("[Assistant] Hello."));
    assert!(matches!(reply.next, Next::ReadLine));
    assert_eq!(
        pairs(&conv.messages),
        vec![
            (Role::System, "You are terse.".to_string()),
            (Role::User, "Hi".to_string()),
            (Role::Assistant, "Hello.".to_string()),
        ]
    );
}

#[test]
fn memory_context_grows_without_writing() {
    let stored = vec![msg(Role::User, "old")];
    let mut conv = Conversation::new(&options(Some("-")), &"Be brief.".to_string(), Some(stored));
    assert_eq!(pairs(&conv.messages), vec![(Role::System, "Be brief.".to_string())]);
    assert!(!conv.is_durable());
    for (line, answer) in [("one", "1"), ("two", "2")] {
        assert!(matches!(conv.on_line(line), Next::Send(_)));
        let reply = conv.on_reply(completion(&[answer]));
        assert!(reply.persist_to.is_none());
        assert!(matches!(reply.next, Next::ReadLine));
    }
    assert_eq!(conv.messages.len(), 5);
}

#[test]
fn stored_transcript_is_restored() {
    let stored = vec![msg(Role::System, "s"), msg(Role::User, "u"), msg(Role::Assistant, "a")];
    let conv = Conversation::new(&options(Some("chat.json")), &"ignored".to_string(), Some(stored.clone()));
    assert_eq!(pairs(&conv.messages), pairs(&stored));
}

#[test]
fn empty_prompt_seeds_nothing() {
    let conv = Conversation::new(&options(Some("chat.json")), &String::new(), None);
    assert!(conv.messages.is_empty());
}

#[test]
fn blank_line_ends_without_request() {
    let mut conv = Conversation::new(&options(Some("-")), &"sys".to_string(), None);
    assert!(matches!(conv.on_line(""), Next::Finish(Ok(()))));
    assert!(matches!(conv.on_line("   \t "), Next::Finish(Ok(()))));
    assert!(matches!(conv.on_trimmed_line(String::new()), Next::Finish(Ok(()))));
    assert_eq!(conv.messages.len(), 1);
}

#[test]
fn line_is_trimmed_before_it_is_sent() {
    let mut conv = Conversation::new(&options(Some("-")), &String::new(), None);
    assert!(matches!(conv.on_line("  Hi there \n"), Next::Send(_)));
    assert_eq!(pairs(&conv.messages), vec![(Role::User, "Hi there".to_string())]);
}

#[test]
fn choices_are_joined_by_newlines() {
    let mut conv = Conversation::new(&options(Some("-")), &String::new(), None);
    conv.on_line("q");
    let reply = conv.on_reply(completion(&["a", "b", "c"]));
    assert_eq!(conv.messages[1].content, "a\nb\nc");
    assert_eq!(reply.shown.as_deref(), Some("[Assistant] a\nb\nc"));
}

#[test]
fn reported_error_ends_with_its_kind_and_message() {
    let mut conv = Conversation::new(&options(Some("chat.json")), &String::new(), None);
    conv.on_line("q");
    let reply = conv.on_reply(Ok(ResponseOutcome::Failed(ErrorDetail {
        kind: "invalid_request_error".to_string(),
        message: "bad model".to_string(),
    })));
    assert!(reply.persist_to.is_none());
    match reply.next {
        Next::Finish(Err(e)) => {
            assert_eq!(e.exit_code, 1);
            assert_eq!(e.message.as_deref(), Some("[invalid_request_error] bad model"));
        }
        _ => panic!("expected an error exit"),
    }
    assert_eq!(conv.messages.len(), 1);
}

#[test]
fn transport_failure_ends_the_conversation() {
    let mut conv = Conversation::new(&options(Some("chat.json")), &String::new(), None);
    conv.on_line("q");
    match conv.on_reply(Err(ApiError { kind: ApiErrorType::Timeout })).next {
        Next::Finish(Err(e)) => {
            assert_eq!(e.exit_code, 1);
            assert_eq!(e.message.as_deref(), Some("Request timed out"));
        }
        _ => panic!("expected an error exit"),
    }
}

#[test]
fn exits_for_each_failure() {
    let e = to_exit(ApiError { kind: ApiErrorType::Timeout });
    assert_eq!((e.exit_code, e.message.as_deref()), (1, Some("Request timed out")));
    let e = to_exit(ApiError { kind: ApiErrorType::Decode });
    assert_eq!((e.exit_code, e.message.as_deref()), (1, Some("Bad response")));
    let e = to_exit(ApiError { kind: ApiErrorType::DryDebug });
    assert_eq!((e.exit_code, e.message.as_deref()), (0, None));
    for kind in [
        ApiErrorType::Status(500),
        ApiErrorType::Redirect,
        ApiErrorType::Request,
        ApiErrorType::Connect,
        ApiErrorType::Body,
        ApiErrorType::Builder,
        ApiErrorType::Unknown,
    ] {
        let e = to_exit(ApiError { kind });
        assert_eq!((e.exit_code, e.message.as_deref()), (1, Some("Request failed")));
    }
}

#[test]
fn store_failures_exit_with_fixed_messages() {
    let e = StoreError::Read.to_exit();
    assert_eq!((e.exit_code, e.message.as_deref()), (1, Some("Failed to read context file")));
    let e = StoreError::Parse.to_exit();
    assert_eq!((e.exit_code, e.message.as_deref()), (1, Some("Failed to parse context file")));
    let e = StoreError::Write.to_exit();
    assert_eq!((e.exit_code, e.message.as_deref()), (1, Some("Failed to write context file")));
}

#[test]
fn transcript_lines_show_the_role() {
    assert_eq!(transcript_line(&msg(Role::System, "be kind")), "[System] be kind");
    assert_eq!(transcript_line(&msg(Role::User, "hi")), "[User] hi");
    assert_eq!(transcript_line(&msg(Role::Assistant, "")), "[Assistant] ");
}
