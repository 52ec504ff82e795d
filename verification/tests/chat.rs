use aivchat::chat::{
    ChatAction, ChatCommand, ChatEvent, ChatMessage, ChatRequest, ChatSession, PollOutcome, Role,
    IDLE_DELAY_MS, POLL_DELAY_MS,
};
use aivchat::config::AiApi;

fn provider() -> AiApi {
    AiApi {
        name: "P".to_string(),
        key: "secret".to_string(),
        url: "https://example.test/v1/".to_string(),
        model: "m-1".to_string(),
    }
}

fn user(text: &str) -> ChatMessage {
    ChatMessage { role: Role::User, content: text.to_string() }
}

fn system(text: &str) -> ChatMessage {
    ChatMessage { role: Role::System, content: text.to_string() }
}

fn request(messages: Vec<ChatMessage>) -> ChatRequest {
    ChatRequest {
        key: "secret".to_string(),
        url: "https://example.test/v1/".to_string(),
        model: "m-1".to_string(),
        messages,
    }
}

fn with_provider() -> ChatSession {
    let mut session = ChatSession::new();
    assert_eq!(session.on_command(ChatCommand::SetChat(provider())), ChatAction::Nothing);
    session
}

fn prompt(session: &mut ChatSession, text: &str) -> u64 {
    match session.on_command(ChatCommand::Prompt(text.to_string())) {
        ChatAction::Open { stream, .. } => stream,
        other => panic!("a prompt must open a stream, got {:?}", other),
    }
}

#[test]
fn prompt_without_context_sends_one_user_message() {
    let mut session = with_provider();
    assert_eq!(
        session.on_command(ChatCommand::Prompt("X".to_string())),
        ChatAction::Open { stream: 1, request: request(vec![user("X")]) }
    );
    assert!(session.is_streaming());
}

#[test]
fn context_precedes_the_prompt_as_a_system_message() {
    let mut session = with_provider();
    assert_eq!(session.on_command(ChatCommand::SetContext("C".to_string())), ChatAction::Nothing);
    assert_eq!(
        session.on_command(ChatCommand::Prompt("X".to_string())),
        ChatAction::Open { stream: 1, request: request(vec![system("C"), user("X")]) }
    );
}

#[test]
fn context_is_kept_for_later_prompts_and_can_be_replaced() {
    let mut session = with_provider();
    session.on_command(ChatCommand::SetContext("C".to_string()));
    prompt(&mut session, "first");
    session.on_command(ChatCommand::SetContext("D".to_string()));
    assert_eq!(
        session.on_command(ChatCommand::Prompt("second".to_string())),
        ChatAction::Open { stream: 2, request: request(vec![system("D"), user("second")]) }
    );
}

#[test]
fn stopped_stream_delivers_nothing_after_a_new_prompt() {
    let mut session = with_provider();
    let old = prompt(&mut session, "first");
    assert_eq!(session.on_command(ChatCommand::Stop), ChatAction::Close);
    assert!(!session.is_streaming());
    assert_eq!(
        session.on_poll(old, PollOutcome::Fragment(Some("late".to_string()))),
        ChatAction::Nothing
    );
    let new = prompt(&mut session, "second");
    assert_ne!(old, new);
    assert_eq!(
        session.on_poll(old, PollOutcome::Fragment(Some("late".to_string()))),
        ChatAction::Nothing
    );
    assert_eq!(session.on_poll(old, PollOutcome::Disconnected), ChatAction::Nothing);
    assert!(session.is_streaming());
    assert_eq!(
        session.on_poll(new, PollOutcome::Fragment(Some("fresh".to_string()))),
        ChatAction::Emit(ChatEvent::ChatMessage("fresh".to_string()))
    );
}

#[test]
fn new_prompt_replaces_the_open_stream() {
    let mut session = with_provider();
    let first = prompt(&mut session, "first");
    let second = prompt(&mut session, "second");
    assert_eq!((first, second), (1, 2));
    assert_eq!(
        session.on_poll(first, PollOutcome::Fragment(Some("old".to_string()))),
        ChatAction::Nothing
    );
    assert_eq!(session.on_idle(), ChatAction::Poll { stream: second });
}

#[test]
fn fragments_are_forwarded_in_order_until_the_stream_ends() {
    let mut session = with_provider();
    let stream = prompt(&mut session, "X");
    assert_eq!(session.on_idle(), ChatAction::Poll { stream });
    assert_eq!(
        session.on_poll(stream, PollOutcome::Fragment(Some("Hel".to_string()))),
        ChatAction::Emit(ChatEvent::ChatMessage("Hel".to_string()))
    );
    assert_eq!(session.on_poll(stream, PollOutcome::Fragment(None)), ChatAction::Nothing);
    assert_eq!(session.on_poll(stream, PollOutcome::Empty), ChatAction::Wait(POLL_DELAY_MS));
    assert_eq!(
        session.on_poll(stream, PollOutcome::Fragment(Some("lo".to_string()))),
        ChatAction::Emit(ChatEvent::ChatMessage("lo".to_string()))
    );
    assert!(session.is_streaming());
    assert_eq!(
        session.on_poll(stream, PollOutcome::Disconnected),
        ChatAction::Emit(ChatEvent::StreamEnded)
    );
    assert!(!session.is_streaming());
    assert_eq!(session.on_idle(), ChatAction::Wait(IDLE_DELAY_MS));
    assert_eq!(session.on_poll(stream, PollOutcome::Disconnected), ChatAction::Nothing);
}

#[test]
fn request_error_is_reported_once_and_returns_to_idle() {
    let mut session = with_provider();
    let stream = prompt(&mut session, "X");
    assert_eq!(
        session.on_opened(stream, Err("401 unauthorized".to_string())),
        ChatAction::Emit(ChatEvent::ChatError("401 unauthorized".to_string()))
    );
    assert!(!session.is_streaming());
    assert_eq!(
        session.on_opened(stream, Err("401 unauthorized".to_string())),
        ChatAction::Nothing
    );
    assert_eq!(session.on_idle(), ChatAction::Wait(400));
}

#[test]
fn opened_stream_is_polled() {
    let mut session = with_provider();
    let stream = prompt(&mut session, "X");
    assert_eq!(session.on_opened(stream, Ok(())), ChatAction::Nothing);
    assert!(session.is_streaming());
    assert!(session.listens_to(stream));
    assert!(!session.listens_to(stream + 1));
    assert_eq!(session.on_idle(), ChatAction::Poll { stream });
}

#[test]
fn idle_session_waits() {
    let mut session = ChatSession::new();
    assert!(!session.has_provider());
    assert!(!session.is_streaming());
    assert_eq!(session.on_idle(), ChatAction::Wait(400));
    assert_eq!(session.on_command(ChatCommand::Stop), ChatAction::Close);
    assert_eq!(session.on_idle(), ChatAction::Wait(400));
}

#[test]
fn poll_delay_can_be_set() {
    let mut session = with_provider();
    session.set_poll_delay(20);
    let stream = prompt(&mut session, "X");
    assert_eq!(session.on_poll(stream, PollOutcome::Empty), ChatAction::Wait(20));
    assert_eq!(POLL_DELAY_MS, 350);
}

#[test]
fn latest_provider_is_used() {
    let mut session = with_provider();
    let other = AiApi {
        name: "Q".to_string(),
        key: "k2".to_string(),
        url: "u2".to_string(),
        model: "m2".to_string(),
    };
    session.on_command(ChatCommand::SetChat(other));
    assert!(session.has_provider());
    assert_eq!(
        session.on_command(ChatCommand::Prompt("X".to_string())),
        ChatAction::Open {
            stream: 1,
            request: ChatRequest {
                key: "k2".to_string(),
                url: "u2".to_string(),
                model: "m2".to_string(),
                messages: vec![user("X")],
            },
        }
    );
}

#[test]
fn chat_commands_and_events_can_be_copied() {
    let command = ChatCommand::SetChat(provider());
    assert_eq!(command.clone(), command);
    let event = ChatEvent::ChatMessage("m".to_string());
    assert_eq!(event.clone(), event);
}
