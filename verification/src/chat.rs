//! The chat session: one logical conversation with a streaming
//! chat-completion provider.
//!
//! The session makes no request itself. Its methods turn what happened (a
//! command arrived, the command queue was empty, a request was opened, a
//! poll of the stream returned) into a [`ChatAction`] for the driver, which
//! owns the connection.

use crate::config::{opt_api, AiApi, AiApiModel};
use crate::text::{done_text, opt_text};
use vstd::prelude::*;
use vstd::string::*;

verus! {

/// How long the driver waits after a poll of an open stream found nothing, in milliseconds.
pub const POLL_DELAY_MS: u64 = 350;

/// How long the driver waits when no command is pending and no stream is open, in milliseconds.
pub const IDLE_DELAY_MS: u64 = 400;

/// Commands accepted by the chat session.
#[derive(Debug, PartialEq, Eq)]
pub enum ChatCommand {
    SetChat(AiApi),
    SetContext(String),
    Prompt(String),
    Stop,
}

/// Events the chat session reports.
#[derive(Debug, PartialEq, Eq)]
pub enum ChatEvent {
    ChatReady,
    ChatMessage(String),
    ChatError(String),
    StreamEnded,
}

/// Who speaks in a message of a request.
#[derive(Debug, Clone, Copy, PartialEq, Eq, Structural)]
pub enum Role {
    System,
    User,
}

/// One message of a request.
#[derive(Debug, PartialEq, Eq)]
pub struct ChatMessage {
    pub role: Role,
    pub content: String,
}

/// A streaming completion request: where to send it, and the messages.
#[derive(Debug, PartialEq, Eq)]
pub struct ChatRequest {
    pub key: String,
    pub url: String,
    pub model: String,
    pub messages: Vec<ChatMessage>,
}

/// What one poll of an open stream returned.
#[derive(Debug, PartialEq, Eq)]
pub enum PollOutcome {
    /// A fragment arrived; it carries the content of its primary choice, if it has any.
    Fragment(Option<String>),
    /// Nothing has arrived yet.
    Empty,
    /// The stream is exhausted.
    Disconnected,
}

/// What the driver of the session has to do next.
#[derive(Debug, PartialEq, Eq)]
pub enum ChatAction {
    /// Open a streaming request under the number `stream`, dropping any stream opened before.
    Open { stream: u64, request: ChatRequest },
    /// Drop the open stream, if there is one.
    Close,
    /// Poll the stream with this number once, without blocking.
    Poll { stream: u64 },
    /// Pass the event on.
    Emit(ChatEvent),
    /// Wait this many milliseconds.
    Wait(u64),
    /// Nothing.
    Nothing,
}

/// [`ChatCommand`] over character sequences.
pub enum ChatCommandModel {
    SetChat(AiApiModel),
    SetContext(Seq<char>),
    Prompt(Seq<char>),
    Stop,
}

/// [`ChatEvent`] over character sequences.
pub enum ChatEventModel {
    ChatReady,
    ChatMessage(Seq<char>),
    ChatError(Seq<char>),
    StreamEnded,
}

/// [`ChatMessage`] over character sequences.
pub struct ChatMessageModel {
    pub role: Role,
    pub content: Seq<char>,
}

/// [`ChatRequest`] over character sequences.
pub struct ChatRequestModel {
    pub key: Seq<char>,
    pub url: Seq<char>,
    pub model: Seq<char>,
    pub messages: Seq<ChatMessageModel>,
}

/// [`PollOutcome`] over character sequences.
pub enum PollOutcomeModel {
    Fragment(Option<Seq<char>>),
    Empty,
    Disconnected,
}

/// [`ChatAction`] over character sequences.
pub enum ChatActionModel {
    Open { stream: u64, request: ChatRequestModel },
    Close,
    Poll { stream: u64 },
    Emit(ChatEventModel),
    Wait(u64),
    Nothing,
}

/// [`ChatSession`] over character sequences.
pub struct ChatSessionModel {
    /// The provider that requests go to.
    pub provider: Option<AiApiModel>,
    /// The system context that precedes every prompt.
    pub context: Option<Seq<char>>,
    /// The number of the open stream, if one is open.
    pub stream: Option<u64>,
    /// The number given to the stream opened last.
    pub opened: u64,
    /// The wait after an empty poll, in milliseconds.
    pub poll_delay_ms: u64,
}

impl View for ChatCommand {
    type V = ChatCommandModel;

    open spec fn view(&self) -> ChatCommandModel {
        match self {
            ChatCommand::SetChat(api) => ChatCommandModel::SetChat(api@),
            ChatCommand::SetContext(c) => ChatCommandModel::SetContext(c@),
            ChatCommand::Prompt(p) => ChatCommandModel::Prompt(p@),
            ChatCommand::Stop => ChatCommandModel::Stop,
        }
    }
}

impl View for ChatEvent {
    type V = ChatEventModel;

    open spec fn view(&self) -> ChatEventModel {
        match self {
            ChatEvent::ChatReady => ChatEventModel::ChatReady,
            ChatEvent::ChatMessage(m) => ChatEventModel::ChatMessage(m@),
            ChatEvent::ChatError(e) => ChatEventModel::ChatError(e@),
            ChatEvent::StreamEnded => ChatEventModel::StreamEnded,
        }
    }
}

impl View for ChatMessage {
    type V = ChatMessageModel;

    open spec fn view(&self) -> ChatMessageModel {
        ChatMessageModel { role: self.role, content: self.content@ }
    }
}

impl View for ChatRequest {
    type V = ChatRequestModel;

    open spec fn view(&self) -> ChatRequestModel {
        ChatRequestModel {
            key: self.key@,
            url: self.url@,
            model: self.model@,
            messages: self.messages@.map_values(|m: ChatMessage| m@),
        }
    }
}

impl View for PollOutcome {
    type V = PollOutcomeModel;

    open spec fn view(&self) -> PollOutcomeModel {
        match self {
            PollOutcome::Fragment(content) => PollOutcomeModel::Fragment(opt_text(*content)),
            PollOutcome::Empty => PollOutcomeModel::Empty,
            PollOutcome::Disconnected => PollOutcomeModel::Disconnected,
        }
    }
}

impl View for ChatAction {
    type V = ChatActionModel;

    open spec fn view(&self) -> ChatActionModel {
        match self {
            ChatAction::Open { stream, request } => ChatActionModel::Open {
                stream: *stream,
                request: request@,
            },
            ChatAction::Close => ChatActionModel::Close,
            ChatAction::Poll { stream } => ChatActionModel::Poll { stream: *stream },
            ChatAction::Emit(e) => ChatActionModel::Emit(e@),
            ChatAction::Wait(ms) => ChatActionModel::Wait(*ms),
            ChatAction::Nothing => ChatActionModel::Nothing,
        }
    }
}

/// The messages of a request: the system context first, if one is set, then the prompt.
pub open spec fn prompt_messages(context: Option<Seq<char>>, prompt: Seq<char>) -> Seq<
    ChatMessageModel,
> {
    let user = ChatMessageModel { role: Role::User, content: prompt };
    match context {
        Some(c) => seq![ChatMessageModel { role: Role::System, content: c }, user],
        None => seq![user],
    }
}

/// The number of the stream that follows stream number `n`.
pub open spec fn stream_after(n: u64) -> u64 {
    if n == u64::MAX {
        0
    } else {
        (n + 1) as u64
    }
}

impl ChatSessionModel {
    /// A fresh session: idle, nothing set.
    pub open spec fn initial() -> ChatSessionModel {
        ChatSessionModel {
            provider: None,
            context: None,
            stream: None,
            opened: 0,
            poll_delay_ms: POLL_DELAY_MS,
        }
    }

    /// The open stream is the one that was opened last.
    pub open spec fn wf(self) -> bool {
        self.stream matches Some(n) ==> n == self.opened
    }

    /// A stream is open: the session is streaming, not idle.
    pub open spec fn streaming(self) -> bool {
        self.stream is Some
    }

    /// The command can be handled: a prompt needs a provider.
    pub open spec fn accepts(self, cmd: ChatCommandModel) -> bool {
        cmd is Prompt ==> self.provider is Some
    }

    /// The request that a prompt opens.
    pub open spec fn request(self, prompt: Seq<char>) -> ChatRequestModel {
        ChatRequestModel {
            key: self.provider->0.key,
            url: self.provider->0.url,
            model: self.provider->0.model,
            messages: prompt_messages(self.context, prompt),
        }
    }

    /// The session after `cmd`.
    pub open spec fn next(self, cmd: ChatCommandModel) -> ChatSessionModel {
        match cmd {
            ChatCommandModel::SetChat(api) => ChatSessionModel { provider: Some(api), ..self },
            ChatCommandModel::SetContext(c) => ChatSessionModel { context: Some(c), ..self },
            ChatCommandModel::Prompt(_) => ChatSessionModel {
                stream: Some(stream_after(self.opened)),
                opened: stream_after(self.opened),
                ..self
            },
            ChatCommandModel::Stop => ChatSessionModel { stream: None, ..self },
        }
    }

    /// What `cmd` makes the driver do.
    pub open spec fn action(self, cmd: ChatCommandModel) -> ChatActionModel {
        match cmd {
            ChatCommandModel::SetChat(_) => ChatActionModel::Nothing,
            ChatCommandModel::SetContext(_) => ChatActionModel::Nothing,
            ChatCommandModel::Prompt(p) => ChatActionModel::Open {
                stream: stream_after(self.opened),
                request: self.request(p),
            },
            ChatCommandModel::Stop => ChatActionModel::Close,
        }
    }

    /// What the driver does when no command is pending: poll the open
    /// stream, or wait when there is none.
    pub open spec fn idle_action(self) -> ChatActionModel {
        match self.stream {
            Some(stream) => ChatActionModel::Poll { stream },
            None => ChatActionModel::Wait(IDLE_DELAY_MS),
        }
    }

    /// The session after the attempt to open stream number `stream` ended
    /// with `outcome`: a failure of the open stream returns it to idle.
    pub open spec fn after_opened(self, stream: u64, outcome: Result<(), Seq<char>>) -> ChatSessionModel {
        if self.stream == Some(stream) && outcome is Err {
            ChatSessionModel { stream: None, ..self }
        } else {
            self
        }
    }

    /// What the driver does after the attempt to open stream number
    /// `stream`: a failure of the open stream is reported, once.
    pub open spec fn opened_action(self, stream: u64, outcome: Result<(), Seq<char>>) -> ChatActionModel {
        if self.stream == Some(stream) {
            match outcome {
                Ok(_) => ChatActionModel::Nothing,
                Err(e) => ChatActionModel::Emit(ChatEventModel::ChatError(e)),
            }
        } else {
            ChatActionModel::Nothing
        }
    }

    /// The session after a poll of stream number `stream` returned
    /// `outcome`: the end of the open stream returns it to idle.
    pub open spec fn after_poll(self, stream: u64, outcome: PollOutcomeModel) -> ChatSessionModel {
        if self.stream == Some(stream) && outcome is Disconnected {
            ChatSessionModel { stream: None, ..self }
        } else {
            self
        }
    }

    /// What the driver does after a poll of stream number `stream`. Only
    /// the open stream is listened to: its content is passed on, an empty
    /// poll is followed by a wait, its end is reported.
    pub open spec fn poll_action(self, stream: u64, outcome: PollOutcomeModel) -> ChatActionModel {
        if self.stream == Some(stream) {
            match outcome {
                PollOutcomeModel::Fragment(Some(text)) => ChatActionModel::Emit(
                    ChatEventModel::ChatMessage(text),
                ),
                PollOutcomeModel::Fragment(None) => ChatActionModel::Nothing,
                PollOutcomeModel::Empty => ChatActionModel::Wait(self.poll_delay_ms),
                PollOutcomeModel::Disconnected => ChatActionModel::Emit(
                    ChatEventModel::StreamEnded,
                ),
            }
        } else {
            ChatActionModel::Nothing
        }
    }
}

/// The chat session: the provider, the system context, and which stream is open.
pub struct ChatSession {
    provider: Option<AiApi>,
    context: Option<String>,
    stream: Option<u64>,
    opened: u64,
    poll_delay_ms: u64,
}

impl View for ChatSession {
    type V = ChatSessionModel;

    closed spec fn view(&self) -> ChatSessionModel {
        ChatSessionModel {
            provider: opt_api(self.provider),
            context: opt_text(self.context),
            stream: self.stream,
            opened: self.opened,
            poll_delay_ms: self.poll_delay_ms,
        }
    }
}

impl ChatSession {
    /// A fresh session: idle, nothing set.
    pub fn new() -> (r: ChatSession)
        ensures
            r@ == ChatSessionModel::initial(),
    {
        ChatSession {
            provider: None,
            context: None,
            stream: None,
            opened: 0,
            poll_delay_ms: POLL_DELAY_MS,
        }
    }

    /// Sets the wait that follows an empty poll, in milliseconds.
    pub fn set_poll_delay(&mut self, ms: u64)
        ensures
            final(self)@ == (ChatSessionModel { poll_delay_ms: ms, ..old(self)@ }),
    {
        self.poll_delay_ms = ms;
    }

    /// Whether a stream is open.
    pub fn is_streaming(&self) -> (r: bool)
        ensures
            r == self@.streaming(),
    {
        self.stream.is_some()
    }

    /// Whether a provider is set, so that a prompt can be handled.
    pub fn has_provider(&self) -> (r: bool)
        ensures
            r == self@.provider is Some,
    {
        self.provider.is_some()
    }

    /// Handles one command and says what the driver must do.
    ///
    /// `SetChat` and `SetContext` store their argument. `Prompt` opens a
    /// request under a new stream number, which replaces any open stream.
    /// `Stop` abandons the open stream. A prompt needs a provider.
    pub fn on_command(&mut self, cmd: ChatCommand) -> (act: ChatAction)
        requires
            old(self)@.accepts(cmd@),
        ensures
            final(self)@ == old(self)@.next(cmd@),
            act@ == old(self)@.action(cmd@),
    {
        match cmd {
            ChatCommand::SetChat(api) => {
                self.provider = Some(api);
                ChatAction::Nothing
            },
            ChatCommand::SetContext(context) => {
                self.context = Some(context);
                ChatAction::Nothing
            },
            ChatCommand::Prompt(prompt) => {
                let mut messages: Vec<ChatMessage> = Vec::new();
                match &self.context {
                    Some(context) => {
                        messages.push(ChatMessage { role: Role::System, content: context.clone() });
                    },
                    None => {},
                }
                messages.push(ChatMessage { role: Role::User, content: prompt });
                let api = self.provider.as_ref().unwrap();
                let request = ChatRequest {
                    key: api.key.clone(),
                    url: api.url.clone(),
                    model: api.model.clone(),
                    messages,
                };
                let stream = self.opened.wrapping_add(1);
                self.opened = stream;
                self.stream = Some(stream);
                assert(request@.messages =~= prompt_messages(old(self)@.context, prompt@));
                ChatAction::Open { stream, request }
            },
            ChatCommand::Stop => {
                self.stream = None;
                ChatAction::Close
            },
        }
    }

    /// Says what the driver must do when no command is pending.
    pub fn on_idle(&self) -> (act: ChatAction)
        ensures
            act@ == self@.idle_action(),
    {
        match self.stream {
            Some(stream) => ChatAction::Poll { stream },
            None => ChatAction::Wait(IDLE_DELAY_MS),
        }
    }

    /// Takes the outcome of opening stream number `stream`.
    pub fn on_opened(&mut self, stream: u64, outcome: Result<(), String>) -> (act: ChatAction)
        ensures
            final(self)@ == old(self)@.after_opened(stream, done_text(outcome)),
            act@ == old(self)@.opened_action(stream, done_text(outcome)),
    {
        if !self.listens_to(stream) {
            return ChatAction::Nothing;
        }
        match outcome {
            Ok(_) => ChatAction::Nothing,
            Err(message) => {
                self.stream = None;
                ChatAction::Emit(ChatEvent::ChatError(message))
            },
        }
    }

    /// Takes what a poll of stream number `stream` returned.
    pub fn on_poll(&mut self, stream: u64, outcome: PollOutcome) -> (act: ChatAction)
        ensures
            final(self)@ == old(self)@.after_poll(stream, outcome@),
            act@ == old(self)@.poll_action(stream, outcome@),
    {
        if !self.listens_to(stream) {
            return ChatAction::Nothing;
        }
        match outcome {
            PollOutcome::Fragment(Some(text)) => ChatAction::Emit(ChatEvent::ChatMessage(text)),
            PollOutcome::Fragment(None) => ChatAction::Nothing,
            PollOutcome::Empty => ChatAction::Wait(self.poll_delay_ms),
            PollOutcome::Disconnected => {
                self.stream = None;
                ChatAction::Emit(ChatEvent::StreamEnded)
            },
        }
    }

    /// Whether `stream` is the number of the open stream.
    pub fn listens_to(&self, stream: u64) -> (r: bool)
        ensures
            r == (self@.stream == Some(stream)),
    {
        match self.stream {
            Some(open) => open == stream,
            None => false,
        }
    }
}

/// A well-formed session stays well-formed whatever happens to it.
pub proof fn law_session_stays_well_formed(
    s: ChatSessionModel,
    cmd: ChatCommandModel,
    stream: u64,
    opened: Result<(), Seq<char>>,
    polled: PollOutcomeModel,
)
    requires
        s.wf(),
    ensures
        ChatSessionModel::initial().wf(),
        s.next(cmd).wf(),
        s.after_opened(stream, opened).wf(),
        s.after_poll(stream, polled).wf(),
{
}

/// A prompt sent while no context is set carries one message: the prompt,
/// from the user. This holds whichever provider is set, also right after
/// it was set.
pub proof fn law_prompt_without_context(s: ChatSessionModel, api: AiApiModel, prompt: Seq<char>)
    requires
        s.context is None,
    ensures
        s.next(ChatCommandModel::SetChat(api)).action(ChatCommandModel::Prompt(prompt))
            matches ChatActionModel::Open { request, .. } && request.messages == seq![
            ChatMessageModel { role: Role::User, content: prompt },
        ] && request.key == api.key && request.url == api.url && request.model == api.model,
{
}

/// After a context was set, a prompt carries two messages: the context,
/// from the system, and then the prompt, from the user.
pub proof fn law_prompt_with_context(
    s: ChatSessionModel,
    api: AiApiModel,
    context: Seq<char>,
    prompt: Seq<char>,
)
    ensures
        s.next(ChatCommandModel::SetChat(api)).next(ChatCommandModel::SetContext(context)).action(
            ChatCommandModel::Prompt(prompt),
        ) matches ChatActionModel::Open { request, .. } && request.messages == seq![
            ChatMessageModel { role: Role::System, content: context },
            ChatMessageModel { role: Role::User, content: prompt },
        ],
        s.next(ChatCommandModel::SetContext(context)).next(ChatCommandModel::SetChat(api)).action(
            ChatCommandModel::Prompt(prompt),
        ) matches ChatActionModel::Open { request, .. } && request.messages == seq![
            ChatMessageModel { role: Role::System, content: context },
            ChatMessageModel { role: Role::User, content: prompt },
        ],
{
}

/// Once a stream was stopped, nothing that a poll of it returns is passed
/// on or changes the session: not right after the stop, and not after a
/// new prompt has opened the next stream.
pub proof fn law_stopped_stream_is_silent(
    s: ChatSessionModel,
    stopped: u64,
    prompt: Seq<char>,
    outcome: PollOutcomeModel,
)
    requires
        s.wf(),
        s.stream == Some(stopped),
    ensures
        ({
            let idle = s.next(ChatCommandModel::Stop);
            let again = idle.next(ChatCommandModel::Prompt(prompt));
            &&& !idle.streaming()
            &&& idle.poll_action(stopped, outcome) == ChatActionModel::Nothing
            &&& idle.after_poll(stopped, outcome) == idle
            &&& again.stream == Some(stream_after(stopped))
            &&& again.poll_action(stopped, outcome) == ChatActionModel::Nothing
            &&& again.after_poll(stopped, outcome) == again
        }),
{
}

/// A new prompt replaces the open stream: from then on only the new
/// stream is listened to, and what the replaced one delivers is dropped.
pub proof fn law_last_request_wins(
    s: ChatSessionModel,
    prompt: Seq<char>,
    outcome: PollOutcomeModel,
)
    requires
        s.wf(),
        s.stream is Some,
    ensures
        ({
            let again = s.next(ChatCommandModel::Prompt(prompt));
            &&& again.stream == Some(stream_after(s.stream->0))
            &&& again.stream != s.stream
            &&& again.poll_action(s.stream->0, outcome) == ChatActionModel::Nothing
            &&& again.after_poll(s.stream->0, outcome) == again
        }),
{
}

impl Clone for ChatCommand {
    fn clone(&self) -> (r: Self)
        ensures
            r@ == self@,
    {
        match self {
            ChatCommand::SetChat(api) => ChatCommand::SetChat(api.clone()),
            ChatCommand::SetContext(c) => ChatCommand::SetContext(c.clone()),
            ChatCommand::Prompt(p) => ChatCommand::Prompt(p.clone()),
            ChatCommand::Stop => ChatCommand::Stop,
        }
    }
}

impl Clone for ChatEvent {
    fn clone(&self) -> (r: Self)
        ensures
            r@ == self@,
    {
        match self {
            ChatEvent::ChatReady => ChatEvent::ChatReady,
            ChatEvent::ChatMessage(m) => ChatEvent::ChatMessage(m.clone()),
            ChatEvent::ChatError(e) => ChatEvent::ChatError(e.clone()),
            ChatEvent::StreamEnded => ChatEvent::StreamEnded,
        }
    }
}

} // verus!
