//! The coordinator: the state of the application, and what every user
//! action and every event of the three sessions does to it.
//!
//! [`AiVChat::update`] changes the state and returns an [`Effect`]:
//! the one thing the shell around the coordinator has to carry out. Where
//! an effect ends in a message, the functions `after_..` say which.

use crate::chat::{ChatCommand, ChatCommandModel, ChatEvent, ChatEventModel};
use crate::config::{
    api_names, apis, clone_chat_entries, clone_opt_text, clone_voice_entries,
    entry_apis, names_of, providers_of, replace_provider, spec_replace_provider,
    spec_voice_id, voice_entries, voice_id, AiApi, AiApiModel, Config, ConfigModel, VoiceEntry,
    VoiceEntryModel,
};
use crate::language::Language;
use crate::meter::{peak_level, spec_peak};
use crate::recorder::{
    DeviceReplyModel, DeviceRequest, RecEvent, RecEventModel, RecState, RecorderPhase,
    RecordingSessionModel, DEFAULT_DEVICE,
};
use crate::text::{
    decimal, done_text, join, last_position_ignore_ascii_case, opt_text, position,
    position_ignore_ascii_case, spec_decimal, spec_join, spec_last_position_ignoring_ascii_case, spec_position,
    spec_position_ignoring_ascii_case, spec_substring_between, substring_between, texts,
};
use crate::transcribe::{result_text, TranscribeError, TranscribeErrorModel};
use crate::voice::{VoiceEvent, VoiceEventModel};
use vstd::prelude::*;
use vstd::string::*;

verus! {

/// The font can be made larger while its size is below this.
pub const LARGEST_FONT: u32 = 32;

/// The font can be made smaller while its size is above this.
pub const SMALLEST_FONT: u32 = 8;

/// The name of the provider whose key and model configure the speech session.
pub open spec fn speech_provider_name() -> Seq<char> {
    "Elevenlabs"@
}

/// What is shown when a prompt is asked before the chat session is there.
pub open spec fn no_chat_text() -> Seq<char> {
    "No channel to chat established"@
}

/// The mark that encloses code in a response.
pub open spec fn code_fence() -> Seq<char> {
    "```"@
}

/// What separates the errors of the two commands that set up the speech session.
pub open spec fn error_separator() -> Seq<char> {
    "; "@
}

/// What the coordinator is told: a user action, or an event of a session.
#[derive(Debug, PartialEq, Eq)]
pub enum Message {
    /// The prompt editor was changed to hold `text`; `selection` says
    /// that the change was a selection or a drag.
    EditAction { text: String, selection: bool },
    ToggleRecord,
    LinkClicked(String),
    DeviceSelected(String),
    AppendResult(String),
    ToggleSettings,
    SaveSettings,
    PlayToggle(bool),
    Void,
    FontSizeChangedUp,
    FontSizeChangedDown,
    ThemeSelected(String),
    SetText(String),
    RecStreamEvent(RecEvent),
    UpdateState(RecState),
    LanguageSelected(Language),
    ShowError(String),
    HideModal,
    CtxInput(String),
    ChatSelected(String),
    ChatEventReceived(ChatEvent),
    AskChat,
    ChatApiKeyChanged(String),
    ChatApiUrlChanged(String),
    ChatApiModelChanged(String),
    CopyResult,
    VoiceEventRec(VoiceEvent),
    CopyCode,
}

/// What the shell has to carry out after an update.
#[derive(Debug, PartialEq, Eq)]
pub enum Effect {
    Nothing,
    /// Send `command` to the recording session, if there is one to send,
    /// and then, however the sending went, tell the coordinator
    /// `UpdateState(then)`.
    Record { command: Option<RecState>, then: RecState },
    /// Send the command to the recording session; then [`after_send`].
    SendRecorder(RecState),
    /// Send the commands to the chat session in order, stopping at the
    /// first that cannot be sent; then [`after_send`].
    SendChat(Vec<ChatCommand>),
    /// Send the text to the speech session to be read; then [`after_send`].
    ReadAloud(String),
    /// Send key and voice to the speech session, both in any case; then
    /// [`after_voice_setup`].
    SetUpVoice { key: String, voice: String },
    /// Transcribe the samples; then [`after_transcription`].
    Transcribe { samples: Vec<i16>, language: String, model: String },
    /// Write the settings; then [`after_save`].
    SaveConfig(Config),
    /// Put the text on the clipboard.
    Clipboard(String),
    /// Open the link, and put it on the clipboard.
    OpenLink(String),
    /// Move the keyboard focus on.
    FocusNext,
    /// Show this peak on the level meter.
    Meter { peak: i16 },
    /// Tell the level meter the sample rate.
    MeterRate(usize),
}

/// Which of the three screens is shown.
#[derive(Debug, Clone, Copy, PartialEq, Eq, Structural)]
pub enum Screen {
    Settings,
    Modal,
    Main,
}

/// What is on screen, with what the state decides about it.
#[derive(Debug, PartialEq, Eq)]
pub enum Page {
    /// The settings, with the font size as a numeral, and whether it can go up or down.
    Settings { font_size: String, can_grow_font: bool, can_shrink_font: bool },
    /// The dialog with its text.
    Modal { text: String },
    /// The prompt editor and the response, with what the record button
    /// says, whether a prompt can be asked, whether code can be copied,
    /// and whether responses are read aloud.
    Main { record_label: String, can_ask: bool, can_copy_code: bool, play: bool },
}

/// [`Page`] over sequences.
pub enum PageModel {
    Settings { font_size: Seq<char>, can_grow_font: bool, can_shrink_font: bool },
    Modal { text: Seq<char> },
    Main { record_label: Seq<char>, can_ask: bool, can_copy_code: bool, play: bool },
}

impl View for Page {
    type V = PageModel;

    open spec fn view(&self) -> PageModel {
        match self {
            Page::Settings { font_size, can_grow_font, can_shrink_font } => PageModel::Settings {
                font_size: font_size@,
                can_grow_font: *can_grow_font,
                can_shrink_font: *can_shrink_font,
            },
            Page::Modal { text } => PageModel::Modal { text: text@ },
            Page::Main { record_label, can_ask, can_copy_code, play } => PageModel::Main {
                record_label: record_label@,
                can_ask: *can_ask,
                can_copy_code: *can_copy_code,
                play: *play,
            },
        }
    }
}

/// The name of the theme that is used where none is chosen.
pub open spec fn default_theme() -> Seq<char> {
    "Light"@
}

/// [`Message`] over sequences.
pub enum MessageModel {
    EditAction { text: Seq<char>, selection: bool },
    ToggleRecord,
    LinkClicked(Seq<char>),
    DeviceSelected(Seq<char>),
    AppendResult(Seq<char>),
    ToggleSettings,
    SaveSettings,
    PlayToggle(bool),
    Void,
    FontSizeChangedUp,
    FontSizeChangedDown,
    ThemeSelected(Seq<char>),
    SetText(Seq<char>),
    RecStreamEvent(RecEventModel),
    UpdateState(RecState),
    LanguageSelected(Language),
    ShowError(Seq<char>),
    HideModal,
    CtxInput(Seq<char>),
    ChatSelected(Seq<char>),
    ChatEventReceived(ChatEventModel),
    AskChat,
    ChatApiKeyChanged(Seq<char>),
    ChatApiUrlChanged(Seq<char>),
    ChatApiModelChanged(Seq<char>),
    CopyResult,
    VoiceEventRec(VoiceEventModel),
    CopyCode,
}

/// [`Effect`] over sequences.
pub enum EffectModel {
    Nothing,
    Record { command: Option<RecState>, then: RecState },
    SendRecorder(RecState),
    SendChat(Seq<ChatCommandModel>),
    ReadAloud(Seq<char>),
    SetUpVoice { key: Seq<char>, voice: Seq<char> },
    Transcribe { samples: Seq<i16>, language: Seq<char>, model: Seq<char> },
    SaveConfig(ConfigModel),
    Clipboard(Seq<char>),
    OpenLink(Seq<char>),
    FocusNext,
    Meter { peak: i16 },
    MeterRate(usize),
}

impl View for Message {
    type V = MessageModel;

    open spec fn view(&self) -> MessageModel {
        match self {
            Message::EditAction { text, selection } => MessageModel::EditAction {
                text: text@,
                selection: *selection,
            },
            Message::ToggleRecord => MessageModel::ToggleRecord,
            Message::LinkClicked(url) => MessageModel::LinkClicked(url@),
            Message::DeviceSelected(d) => MessageModel::DeviceSelected(d@),
            Message::AppendResult(s) => MessageModel::AppendResult(s@),
            Message::ToggleSettings => MessageModel::ToggleSettings,
            Message::SaveSettings => MessageModel::SaveSettings,
            Message::PlayToggle(p) => MessageModel::PlayToggle(*p),
            Message::Void => MessageModel::Void,
            Message::FontSizeChangedUp => MessageModel::FontSizeChangedUp,
            Message::FontSizeChangedDown => MessageModel::FontSizeChangedDown,
            Message::ThemeSelected(t) => MessageModel::ThemeSelected(t@),
            Message::SetText(s) => MessageModel::SetText(s@),
            Message::RecStreamEvent(e) => MessageModel::RecStreamEvent(e@),
            Message::UpdateState(s) => MessageModel::UpdateState(*s),
            Message::LanguageSelected(l) => MessageModel::LanguageSelected(*l),
            Message::ShowError(e) => MessageModel::ShowError(e@),
            Message::HideModal => MessageModel::HideModal,
            Message::CtxInput(s) => MessageModel::CtxInput(s@),
            Message::ChatSelected(s) => MessageModel::ChatSelected(s@),
            Message::ChatEventReceived(e) => MessageModel::ChatEventReceived(e@),
            Message::AskChat => MessageModel::AskChat,
            Message::ChatApiKeyChanged(s) => MessageModel::ChatApiKeyChanged(s@),
            Message::ChatApiUrlChanged(s) => MessageModel::ChatApiUrlChanged(s@),
            Message::ChatApiModelChanged(s) => MessageModel::ChatApiModelChanged(s@),
            Message::CopyResult => MessageModel::CopyResult,
            Message::VoiceEventRec(e) => MessageModel::VoiceEventRec(e@),
            Message::CopyCode => MessageModel::CopyCode,
        }
    }
}

/// The views of a list of chat commands.
pub open spec fn chat_commands(list: Seq<ChatCommand>) -> Seq<ChatCommandModel> {
    list.map_values(|c: ChatCommand| c@)
}

impl View for Effect {
    type V = EffectModel;

    open spec fn view(&self) -> EffectModel {
        match self {
            Effect::Nothing => EffectModel::Nothing,
            Effect::Record { command, then } => EffectModel::Record {
                command: *command,
                then: *then,
            },
            Effect::SendRecorder(state) => EffectModel::SendRecorder(*state),
            Effect::SendChat(commands) => EffectModel::SendChat(chat_commands(commands@)),
            Effect::ReadAloud(text) => EffectModel::ReadAloud(text@),
            Effect::SetUpVoice { key, voice } => EffectModel::SetUpVoice {
                key: key@,
                voice: voice@,
            },
            Effect::Transcribe { samples, language, model } => EffectModel::Transcribe {
                samples: samples@,
                language: language@,
                model: model@,
            },
            Effect::SaveConfig(config) => EffectModel::SaveConfig(config@),
            Effect::Clipboard(text) => EffectModel::Clipboard(text@),
            Effect::OpenLink(url) => EffectModel::OpenLink(url@),
            Effect::FocusNext => EffectModel::FocusNext,
            Effect::Meter { peak } => EffectModel::Meter { peak: *peak },
            Effect::MeterRate(rate) => EffectModel::MeterRate(*rate),
        }
    }
}

/// [`AiVChat`] over sequences.
pub struct AiVChatModel {
    pub config: ConfigModel,
    /// The text of the prompt editor.
    pub query_text: Seq<char>,
    /// The response as it is displayed.
    pub result_text: Seq<char>,
    /// The fragments of the response, as they arrived.
    pub result_raw: Seq<Seq<char>>,
    pub themes: Seq<Seq<char>>,
    pub theme: Option<Seq<char>>,
    /// Whether responses are read aloud.
    pub play: bool,
    /// The names of the capture devices; a device's index is its place here.
    pub devices: Seq<Seq<char>>,
    pub device_sel: Option<Seq<char>>,
    pub device_i: i32,
    /// Whether the settings are shown.
    pub settings: bool,
    /// The samples of the recording in progress, or of the last one.
    pub audio_data: Seq<i16>,
    pub font_size_u: u32,
    pub rec_state: RecState,
    /// Whether the recording session has reported that it is there.
    pub recorder_ready: bool,
    pub tr_language: Option<Language>,
    pub show_modal: bool,
    pub modal_text: Seq<char>,
    pub prompt_context: Seq<char>,
    /// The name of the provider in use.
    pub ai_chat: Option<Seq<char>>,
    pub ai_chats: Seq<Seq<char>>,
    /// The provider in use, as edited.
    pub ai_api: AiApiModel,
    pub ai_apis: Seq<AiApiModel>,
    /// Whether the chat session has reported that it is there.
    pub chat_ready: bool,
    /// The key under which the settings list the provider in use.
    pub ai_api_k: Seq<char>,
    /// Whether the speech session has reported that it is there.
    pub voice_ready: bool,
    pub voices: Seq<VoiceEntryModel>,
}

/// The text in an option, or the empty text.
pub open spec fn text_or_empty(s: Option<Seq<char>>) -> Seq<char> {
    match s {
        Some(t) => t,
        None => Seq::empty(),
    }
}

/// The index of a capture device as the recording session takes it.
pub open spec fn device_index(at: int) -> i32 {
    at as i32
}

impl AiVChatModel {
    /// The state at start, made of the settings, the names of the capture
    /// devices and the names of the themes.
    ///
    /// The provider in use is the last one listed whose name is the
    /// selected one up to the case of ASCII letters. The device in use is
    /// the first whose name is the remembered one up to the case of ASCII
    /// letters; without one, the default device stands in its place.
    pub open spec fn initial(
        config: ConfigModel,
        devices: Seq<Seq<char>>,
        themes: Seq<Seq<char>>,
    ) -> AiVChatModel {
        let listed = entry_apis(config.ai_chats);
        let selected = match config.sel_chat {
            Some(sel) => spec_last_position_ignoring_ascii_case(api_names(listed), sel),
            None => None,
        };
        let remembered = text_or_empty(config.rec_device);
        let device = spec_position_ignoring_ascii_case(devices, remembered);
        AiVChatModel {
            config,
            query_text: Seq::empty(),
            result_text: Seq::empty(),
            result_raw: Seq::empty(),
            themes,
            theme: match spec_position(themes, config.theme) {
                Some(_) => Some(config.theme),
                None => None,
            },
            play: false,
            devices,
            device_sel: match device {
                Some(_) => Some(remembered),
                None => None,
            },
            device_i: match device {
                Some(at) => device_index(at),
                None => DEFAULT_DEVICE,
            },
            settings: false,
            audio_data: Seq::empty(),
            font_size_u: config.font_size,
            rec_state: RecState::Stopped,
            recorder_ready: false,
            tr_language: Some(Language::parse(config.tr_lang)),
            show_modal: false,
            modal_text: Seq::empty(),
            prompt_context: text_or_empty(config.prompt_context),
            ai_chat: config.sel_chat,
            ai_chats: api_names(listed),
            ai_api: match selected {
                Some(at) => config.ai_chats[at].api,
                None => AiApiModel::empty(),
            },
            ai_apis: listed,
            chat_ready: false,
            ai_api_k: match selected {
                Some(at) => config.ai_chats[at].key,
                None => Seq::empty(),
            },
            voice_ready: false,
            voices: config.voices,
        }
    }

    /// Every device has an index that the recording session can take.
    pub open spec fn wf(self) -> bool {
        self.devices.len() <= i32::MAX
    }

    /// The state with `text` shown in the modal dialog.
    pub open spec fn showing(self, text: Seq<char>) -> AiVChatModel {
        AiVChatModel { modal_text: text, show_modal: true, ..self }
    }

    /// The whole response: its fragments, one after another.
    pub open spec fn response(self) -> Seq<char> {
        spec_join(self.result_raw, Seq::empty())
    }

    /// The provider that configures the speech session: the first one of that name.
    pub open spec fn speech_provider(self) -> Option<AiApiModel> {
        match spec_position(api_names(self.ai_apis), speech_provider_name()) {
            Some(at) => Some(self.ai_apis[at]),
            None => None,
        }
    }

    /// The settings as `SaveSettings` writes them.
    pub open spec fn saved_config(self) -> ConfigModel {
        ConfigModel {
            ai_chats: spec_replace_provider(self.config.ai_chats, self.ai_api_k, self.ai_api),
            sel_chat: self.ai_chat,
            font_size: self.font_size_u,
            rec_device: self.device_sel,
            theme: text_or_empty(self.theme),
            tr_model: self.config.tr_model,
            tr_lang: match self.tr_language {
                Some(l) => l.name(),
                None => Language::PL.name(),
            },
            prompt_context: Some(self.prompt_context),
            voices: self.config.voices,
        }
    }

    /// The commands that `AskChat` sends: the context, unless it is empty, and then the prompt.
    pub open spec fn ask_commands(self) -> Seq<ChatCommandModel> {
        if self.prompt_context.len() == 0 {
            seq![ChatCommandModel::Prompt(self.query_text)]
        } else {
            seq![
                ChatCommandModel::SetContext(self.prompt_context),
                ChatCommandModel::Prompt(self.query_text),
            ]
        }
    }

    /// The message can be handled: a font size stays within `u32`, and the
    /// provider that configures the speech session names a voice that is listed.
    pub open spec fn accepts(self, msg: MessageModel) -> bool {
        match msg {
            MessageModel::FontSizeChangedUp => self.font_size_u < u32::MAX,
            MessageModel::FontSizeChangedDown => self.font_size_u > 0,
            MessageModel::VoiceEventRec(VoiceEventModel::Ready) => match self.speech_provider() {
                Some(api) => spec_voice_id(self.voices, api.model) is Some,
                None => true,
            },
            _ => true,
        }
    }

    /// The state after an event of the recording session.
    pub open spec fn after_rec_event(self, e: RecEventModel) -> AiVChatModel {
        match e {
            RecEventModel::Sending(samples) => if self.rec_state is Recording {
                AiVChatModel { audio_data: self.audio_data + samples, ..self }
            } else {
                self
            },
            RecEventModel::Ready => AiVChatModel { recorder_ready: true, ..self },
            RecEventModel::SetSampleRate(_) => self,
            RecEventModel::Error(e) => self.showing(e),
        }
    }

    /// The state after an event of the chat session.
    pub open spec fn after_chat_event(self, e: ChatEventModel) -> AiVChatModel {
        match e {
            ChatEventModel::ChatReady => AiVChatModel { chat_ready: true, ..self },
            ChatEventModel::ChatMessage(m) => AiVChatModel {
                result_text: self.result_text + m,
                result_raw: self.result_raw.push(m),
                ..self
            },
            ChatEventModel::ChatError(e) => self.showing(e),
            ChatEventModel::StreamEnded => self,
        }
    }

    /// The state after an event of the speech session.
    pub open spec fn after_voice_event(self, e: VoiceEventModel) -> AiVChatModel {
        match e {
            VoiceEventModel::Ready => AiVChatModel { voice_ready: true, ..self },
            VoiceEventModel::Error(e) => AiVChatModel { play: false, ..self.showing(e) },
            VoiceEventModel::Finished => self,
        }
    }

    /// The state after a device was chosen by name: the recording so far
    /// is discarded, and the index of the device is its first place among
    /// the devices, or that of the default device where it has none.
    pub open spec fn after_device_selected(self, name: Seq<char>) -> AiVChatModel {
        AiVChatModel {
            audio_data: Seq::empty(),
            device_sel: Some(name),
            device_i: match spec_position(self.devices, name) {
                Some(at) => device_index(at),
                None => DEFAULT_DEVICE,
            },
            ..self
        }
    }

    /// The state after a provider was chosen by name: the first entry of
    /// the settings with that name becomes the provider in use, if there is one.
    pub open spec fn after_chat_selected(self, name: Seq<char>) -> AiVChatModel {
        let listed = entry_apis(self.config.ai_chats);
        match spec_position(api_names(listed), name) {
            Some(at) => AiVChatModel {
                ai_chat: Some(name),
                ai_api_k: self.config.ai_chats[at].key,
                ai_api: self.config.ai_chats[at].api,
                ..self
            },
            None => AiVChatModel { ai_chat: Some(name), ..self },
        }
    }

    /// The state after `msg`.
    pub open spec fn next(self, msg: MessageModel) -> AiVChatModel {
        match msg {
            MessageModel::EditAction { text, selection } => AiVChatModel {
                query_text: text,
                result_text: if selection {
                    Seq::empty()
                } else {
                    self.result_text
                },
                ..self
            },
            MessageModel::ToggleRecord => self,
            MessageModel::LinkClicked(_) => self,
            MessageModel::DeviceSelected(name) => self.after_device_selected(name),
            MessageModel::AppendResult(s) => AiVChatModel {
                result_text: self.result_text + s,
                ..self
            },
            MessageModel::ToggleSettings => AiVChatModel { settings: !self.settings, ..self },
            MessageModel::SaveSettings => AiVChatModel { config: self.saved_config(), ..self },
            MessageModel::PlayToggle(p) => AiVChatModel { play: p, ..self },
            MessageModel::Void => self,
            MessageModel::FontSizeChangedUp => AiVChatModel {
                font_size_u: (self.font_size_u + 1) as u32,
                ..self
            },
            MessageModel::FontSizeChangedDown => AiVChatModel {
                font_size_u: (self.font_size_u - 1) as u32,
                ..self
            },
            MessageModel::ThemeSelected(t) => AiVChatModel { theme: Some(t), ..self },
            MessageModel::SetText(s) => AiVChatModel { query_text: s, ..self },
            MessageModel::RecStreamEvent(e) => self.after_rec_event(e),
            MessageModel::UpdateState(state) => AiVChatModel {
                rec_state: state,
                audio_data: if state is Recording {
                    Seq::empty()
                } else {
                    self.audio_data
                },
                ..self
            },
            MessageModel::LanguageSelected(l) => AiVChatModel { tr_language: Some(l), ..self },
            MessageModel::ShowError(e) => self.showing(e),
            MessageModel::HideModal => AiVChatModel { show_modal: false, ..self },
            MessageModel::CtxInput(s) => AiVChatModel { prompt_context: s, ..self },
            MessageModel::ChatSelected(name) => self.after_chat_selected(name),
            MessageModel::ChatEventReceived(e) => self.after_chat_event(e),
            MessageModel::AskChat => {
                let cleared = AiVChatModel {
                    result_raw: Seq::empty(),
                    result_text: Seq::empty(),
                    ..self
                };
                if self.chat_ready {
                    cleared
                } else {
                    cleared.showing(no_chat_text())
                }
            },
            MessageModel::ChatApiKeyChanged(s) => AiVChatModel {
                ai_api: AiApiModel { key: s, ..self.ai_api },
                ..self
            },
            MessageModel::ChatApiUrlChanged(s) => AiVChatModel {
                ai_api: AiApiModel { url: s, ..self.ai_api },
                ..self
            },
            MessageModel::ChatApiModelChanged(s) => AiVChatModel {
                ai_api: AiApiModel { model: s, ..self.ai_api },
                ..self
            },
            MessageModel::CopyResult => self,
            MessageModel::VoiceEventRec(e) => self.after_voice_event(e),
            MessageModel::CopyCode => self,
        }
    }

    /// What an event of the recording session has the shell do.
    pub open spec fn rec_event_effect(self, e: RecEventModel) -> EffectModel {
        match e {
            RecEventModel::Sending(samples) => EffectModel::Meter { peak: spec_peak(samples) },
            RecEventModel::SetSampleRate(rate) => EffectModel::MeterRate(rate),
            _ => EffectModel::Nothing,
        }
    }

    /// What an event of the chat session has the shell do.
    pub open spec fn chat_event_effect(self, e: ChatEventModel) -> EffectModel {
        match e {
            ChatEventModel::ChatReady => if self.ai_api.url.len() > 0 {
                EffectModel::SendChat(seq![ChatCommandModel::SetChat(self.ai_api)])
            } else {
                EffectModel::Nothing
            },
            ChatEventModel::ChatMessage(m) => if self.play && self.voice_ready {
                EffectModel::ReadAloud(m)
            } else {
                EffectModel::Nothing
            },
            _ => EffectModel::Nothing,
        }
    }

    /// What an event of the speech session has the shell do.
    pub open spec fn voice_event_effect(self, e: VoiceEventModel) -> EffectModel {
        match e {
            VoiceEventModel::Ready => match self.speech_provider() {
                Some(api) => EffectModel::SetUpVoice {
                    key: api.key,
                    voice: spec_voice_id(self.voices, api.model)->0,
                },
                None => EffectModel::Nothing,
            },
            _ => EffectModel::Nothing,
        }
    }

    /// What `msg` has the shell do.
    pub open spec fn effect(self, msg: MessageModel) -> EffectModel {
        match msg {
            MessageModel::ToggleRecord => if self.recorder_ready {
                match self.rec_state {
                    RecState::Stopped => EffectModel::Record {
                        command: Some(RecState::Recording(self.device_i)),
                        then: RecState::Recording(self.device_i),
                    },
                    RecState::Recording(_) => EffectModel::Record {
                        command: None,
                        then: RecState::Stopped,
                    },
                }
            } else {
                EffectModel::Nothing
            },
            MessageModel::LinkClicked(url) => EffectModel::OpenLink(url),
            MessageModel::DeviceSelected(name) => if self.recorder_ready && spec_position(
                self.devices,
                name,
            ) is Some {
                EffectModel::SendRecorder(
                    RecState::Recording(self.after_device_selected(name).device_i),
                )
            } else {
                EffectModel::Nothing
            },
            MessageModel::SaveSettings => EffectModel::SaveConfig(self.saved_config()),
            MessageModel::RecStreamEvent(e) => self.rec_event_effect(e),
            MessageModel::UpdateState(state) => if state is Recording {
                EffectModel::Nothing
            } else {
                EffectModel::Transcribe {
                    samples: self.audio_data,
                    language: match self.tr_language {
                        Some(l) => l.code(),
                        None => Language::EN.code(),
                    },
                    model: self.config.tr_model,
                }
            },
            MessageModel::HideModal => EffectModel::FocusNext,
            MessageModel::ChatEventReceived(e) => self.chat_event_effect(e),
            MessageModel::AskChat => if self.chat_ready {
                EffectModel::SendChat(self.ask_commands())
            } else {
                EffectModel::Nothing
            },
            MessageModel::CopyResult => EffectModel::Clipboard(self.response()),
            MessageModel::VoiceEventRec(e) => self.voice_event_effect(e),
            MessageModel::CopyCode => match spec_substring_between(self.response(), code_fence()) {
                Some(code) => EffectModel::Clipboard(code),
                None => EffectModel::Nothing,
            },
            _ => EffectModel::Nothing,
        }
    }

    /// Which screen is shown: the settings before the dialog, the dialog before the rest.
    pub open spec fn screen(self) -> Screen {
        if self.settings {
            Screen::Settings
        } else if self.show_modal {
            Screen::Modal
        } else {
            Screen::Main
        }
    }

    /// What the record button says: what pressing it does.
    pub open spec fn record_label(self) -> Seq<char> {
        match self.rec_state {
            RecState::Recording(_) => "Stop"@,
            RecState::Stopped => "Record"@,
        }
    }

    /// A prompt can be asked: a provider is in use and the editor holds text.
    pub open spec fn can_ask(self) -> bool {
        self.ai_api.name.len() > 0 && self.query_text.len() > 0
    }

    /// What is on screen.
    pub open spec fn page(self) -> PageModel {
        match self.screen() {
            Screen::Settings => PageModel::Settings {
                font_size: spec_decimal(self.font_size_u as nat),
                can_grow_font: self.font_size_u < LARGEST_FONT,
                can_shrink_font: self.font_size_u > SMALLEST_FONT,
            },
            Screen::Modal => PageModel::Modal { text: self.modal_text },
            Screen::Main => PageModel::Main {
                record_label: self.record_label(),
                can_ask: self.can_ask(),
                can_copy_code: self.result_raw.len() > 0,
                play: self.play,
            },
        }
    }

    /// The name of the theme in use: the chosen one, or the default.
    pub open spec fn theme_name(self) -> Seq<char> {
        match self.theme {
            Some(t) => t,
            None => default_theme(),
        }
    }
}

/// The message that follows a command that was sent, or could not be sent.
pub open spec fn spec_after_send(outcome: Result<(), Seq<char>>) -> MessageModel {
    match outcome {
        Ok(_) => MessageModel::Void,
        Err(e) => MessageModel::ShowError(e),
    }
}

/// The message that follows a transcription.
pub open spec fn spec_after_transcription(
    outcome: Result<Seq<char>, TranscribeErrorModel>,
) -> MessageModel {
    match outcome {
        Ok(text) => MessageModel::SetText(text),
        Err(e) => MessageModel::ShowError(e.message()),
    }
}

/// The errors among the outcomes of the two commands that set up the speech session, in order.
pub open spec fn setup_errors(
    key: Result<(), Seq<char>>,
    voice: Result<(), Seq<char>>,
) -> Seq<Seq<char>> {
    let first: Seq<Seq<char>> = match key {
        Ok(_) => Seq::empty(),
        Err(e) => seq![e],
    };
    match voice {
        Ok(_) => first,
        Err(e) => first.push(e),
    }
}

/// The message that follows the two commands that set up the speech session.
pub open spec fn spec_after_voice_setup(
    key: Result<(), Seq<char>>,
    voice: Result<(), Seq<char>>,
) -> MessageModel {
    if setup_errors(key, voice).len() == 0 {
        MessageModel::Void
    } else {
        MessageModel::ShowError(spec_join(setup_errors(key, voice), error_separator()))
    }
}

/// Tells whether `theme` is the name of one of the themes.
pub fn knows_theme(themes: &Vec<String>, theme: &str) -> (r: bool)
    ensures
        r == spec_position(texts(themes@), theme@) is Some,
{
    position(themes, theme).is_some()
}

/// The message that follows a command that was sent, or could not be sent.
pub fn after_send(outcome: Result<(), String>) -> (m: Message)
    ensures
        m@ == spec_after_send(done_text(outcome)),
{
    match outcome {
        Ok(_) => Message::Void,
        Err(e) => Message::ShowError(e),
    }
}

/// The message that follows a transcription: the transcript goes into
/// the prompt editor, a failure is shown.
pub fn after_transcription(outcome: Result<String, TranscribeError>) -> (m: Message)
    ensures
        m@ == spec_after_transcription(result_text(outcome)),
{
    match outcome {
        Ok(text) => Message::SetText(text),
        Err(e) => Message::ShowError(e.message()),
    }
}

/// The message that follows the two commands that set up the speech
/// session: their errors, if any, are shown together.
pub fn after_voice_setup(key: Result<(), String>, voice: Result<(), String>) -> (m: Message)
    ensures
        m@ == spec_after_voice_setup(done_text(key), done_text(voice)),
{
    let mut errors: Vec<String> = Vec::new();
    match key {
        Ok(_) => {},
        Err(e) => {
            errors.push(e);
        },
    }
    match voice {
        Ok(_) => {},
        Err(e) => {
            errors.push(e);
        },
    }
    assert(texts(errors@) =~= setup_errors(done_text(key), done_text(voice)));
    if errors.len() == 0 {
        Message::Void
    } else {
        Message::ShowError(join(&errors, "; "))
    }
}

/// The message that follows the writing of the settings, however it went.
pub fn after_save() -> (m: Message)
    ensures
        m@ == MessageModel::ToggleSettings,
{
    Message::ToggleSettings
}

/// The state of the application.
pub struct AiVChat {
    config: Config,
    query_text: String,
    result_text: String,
    result_raw: Vec<String>,
    themes: Vec<String>,
    theme: Option<String>,
    play: bool,
    devices: Vec<String>,
    device_sel: Option<String>,
    device_i: i32,
    settings: bool,
    audio_data: Vec<i16>,
    font_size_u: u32,
    rec_state: RecState,
    recorder_ready: bool,
    tr_language: Option<Language>,
    show_modal: bool,
    modal_text: String,
    prompt_context: String,
    ai_chat: Option<String>,
    ai_chats: Vec<String>,
    ai_api: AiApi,
    ai_apis: Vec<AiApi>,
    chat_ready: bool,
    ai_api_k: String,
    voice_ready: bool,
    voices: Vec<VoiceEntry>,
}

impl AiVChat {
    /// The state over sequences.
    pub closed spec fn model(&self) -> AiVChatModel {
        AiVChatModel {
            config: self.config@,
            query_text: self.query_text@,
            result_text: self.result_text@,
            result_raw: texts(self.result_raw@),
            themes: texts(self.themes@),
            theme: opt_text(self.theme),
            play: self.play,
            devices: texts(self.devices@),
            device_sel: opt_text(self.device_sel),
            device_i: self.device_i,
            settings: self.settings,
            audio_data: self.audio_data@,
            font_size_u: self.font_size_u,
            rec_state: self.rec_state,
            recorder_ready: self.recorder_ready,
            tr_language: self.tr_language,
            show_modal: self.show_modal,
            modal_text: self.modal_text@,
            prompt_context: self.prompt_context@,
            ai_chat: opt_text(self.ai_chat),
            ai_chats: texts(self.ai_chats@),
            ai_api: self.ai_api@,
            ai_apis: apis(self.ai_apis@),
            chat_ready: self.chat_ready,
            ai_api_k: self.ai_api_k@,
            voice_ready: self.voice_ready,
            voices: voice_entries(self.voices@),
        }
    }
}

impl AiVChat {
    /// Makes the state at start out of the settings, the names of the
    /// capture devices and the names of the themes.
    pub fn new(config: Config, devices: Vec<String>, themes: Vec<String>) -> (r: AiVChat)
        requires
            devices.len() <= i32::MAX,
        ensures
            r.model() == AiVChatModel::initial(config@, texts(devices@), texts(themes@)),
            r.model().wf(),
    {
        let ai_apis = providers_of(&config.ai_chats);
        let ai_chats = names_of(&ai_apis);
        let selected = match &config.sel_chat {
            Some(sel) => last_position_ignore_ascii_case(&ai_chats, sel.as_str()),
            None => None,
        };
        let (ai_api, ai_api_k) = match selected {
            Some(at) => (config.ai_chats[at].api.clone(), config.ai_chats[at].key.clone()),
            None => (AiApi::default(), String::new()),
        };
        let theme = match position(&themes, config.theme.as_str()) {
            Some(_) => Some(config.theme.clone()),
            None => None,
        };
        let remembered = match &config.rec_device {
            Some(d) => d.clone(),
            None => String::new(),
        };
        let (device_sel, device_i) = match position_ignore_ascii_case(
            &devices,
            remembered.as_str(),
        ) {
            Some(at) => (Some(remembered), at as i32),
            None => (None, DEFAULT_DEVICE),
        };
        let prompt_context = match &config.prompt_context {
            Some(c) => c.clone(),
            None => String::new(),
        };
        let tr_language = Language::from_name(config.tr_lang.as_str());
        let voices = clone_voice_entries(&config.voices);
        let font_size_u = config.font_size;
        let ai_chat = clone_opt_text(&config.sel_chat);
        let r = AiVChat {
            config,
            query_text: String::new(),
            result_text: String::new(),
            result_raw: Vec::new(),
            themes,
            theme,
            play: false,
            devices,
            device_sel,
            device_i,
            settings: false,
            audio_data: Vec::new(),
            font_size_u,
            rec_state: RecState::Stopped,
            recorder_ready: false,
            tr_language: Some(tr_language),
            show_modal: false,
            modal_text: String::new(),
            prompt_context,
            ai_chat,
            ai_chats,
            ai_api,
            ai_apis,
            chat_ready: false,
            ai_api_k,
            voice_ready: false,
            voices,
        };
        assert(texts(r.result_raw@) =~= Seq::empty());
        r
    }

    /// Shows `text` in the modal dialog.
    fn display_av(&mut self, text: String)
        ensures
            final(self).model() == old(self).model().showing(text@),
    {
        self.modal_text = text;
        self.show_modal = true;
    }

    /// Whether `msg` can be handled in this state.
    pub fn accepts(&self, msg: &Message) -> (r: bool)
        ensures
            r == self.model().accepts(msg@),
    {
        match msg {
            Message::FontSizeChangedUp => self.font_size_u < u32::MAX,
            Message::FontSizeChangedDown => self.font_size_u > 0,
            Message::VoiceEventRec(VoiceEvent::Ready) => match self.speech_provider() {
                Some(at) => voice_id(&self.voices, self.ai_apis[at].model.as_str()).is_some(),
                None => true,
            },
            _ => true,
        }
    }

    /// The place of the provider that configures the speech session.
    fn speech_provider(&self) -> (r: Option<usize>)
        ensures
            match r {
                Some(at) => at < self.ai_apis@.len() && self.model().speech_provider() == Some(
                    self.ai_apis@[at as int]@,
                ),
                None => self.model().speech_provider() is None,
            },
    {
        let names = names_of(&self.ai_apis);
        position(&names, "Elevenlabs")
    }

    /// The settings as `SaveSettings` writes them.
    fn saved_config(&self) -> (r: Config)
        ensures
            r@ == self.model().saved_config(),
    {
        let mut ai_chats = clone_chat_entries(&self.config.ai_chats);
        replace_provider(&mut ai_chats, self.ai_api_k.as_str(), &self.ai_api);
        let language = match self.tr_language {
            Some(l) => l,
            None => Language::PL,
        };
        Config {
            ai_chats,
            sel_chat: clone_opt_text(&self.ai_chat),
            font_size: self.font_size_u,
            rec_device: clone_opt_text(&self.device_sel),
            theme: match &self.theme {
                Some(t) => t.clone(),
                None => String::new(),
            },
            tr_model: self.config.tr_model.clone(),
            tr_lang: language.to_string(),
            prompt_context: Some(self.prompt_context.clone()),
            voices: clone_voice_entries(&self.config.voices),
        }
    }

    /// Takes an event of the recording session.
    fn on_rec_event(&mut self, e: RecEvent) -> (eff: Effect)
        ensures
            final(self).model() == old(self).model().after_rec_event(e@),
            eff@ == old(self).model().rec_event_effect(e@),
    {
        match e {
            RecEvent::Sending(samples) => {
                let peak = peak_level(&samples);
                let mut samples = samples;
                match self.rec_state {
                    RecState::Recording(_) => {
                        self.audio_data.append(&mut samples);
                    },
                    RecState::Stopped => {},
                }
                Effect::Meter { peak }
            },
            RecEvent::Ready => {
                self.recorder_ready = true;
                Effect::Nothing
            },
            RecEvent::SetSampleRate(rate) => Effect::MeterRate(rate),
            RecEvent::Error(message) => {
                self.display_av(message);
                Effect::Nothing
            },
        }
    }

    /// Takes an event of the chat session.
    fn on_chat_event(&mut self, e: ChatEvent) -> (eff: Effect)
        ensures
            final(self).model() == old(self).model().after_chat_event(e@),
            eff@ == old(self).model().chat_event_effect(e@),
    {
        match e {
            ChatEvent::ChatReady => {
                self.chat_ready = true;
                if !self.ai_api.url.as_str().is_empty() {
                    let mut commands: Vec<ChatCommand> = Vec::new();
                    commands.push(ChatCommand::SetChat(self.ai_api.clone()));
                    assert(chat_commands(commands@) =~= seq![
                        ChatCommandModel::SetChat(self.ai_api@),
                    ]);
                    Effect::SendChat(commands)
                } else {
                    Effect::Nothing
                }
            },
            ChatEvent::StreamEnded => Effect::Nothing,
            ChatEvent::ChatError(message) => {
                self.display_av(message);
                Effect::Nothing
            },
            ChatEvent::ChatMessage(m) => {
                self.result_text.append(m.as_str());
                let aloud = if self.play && self.voice_ready {
                    Effect::ReadAloud(m.clone())
                } else {
                    Effect::Nothing
                };
                self.result_raw.push(m);
                assert(texts(self.result_raw@) =~= texts(old(self).result_raw@).push(m@));
                aloud
            },
        }
    }

    /// Takes an event of the speech session.
    fn on_voice_event(&mut self, e: VoiceEvent) -> (eff: Effect)
        requires
            old(self).model().accepts(MessageModel::VoiceEventRec(e@)),
        ensures
            final(self).model() == old(self).model().after_voice_event(e@),
            eff@ == old(self).model().voice_event_effect(e@),
    {
        match e {
            VoiceEvent::Ready => {
                self.voice_ready = true;
                match self.speech_provider() {
                    Some(at) => {
                        let api = &self.ai_apis[at];
                        let voice = voice_id(&self.voices, api.model.as_str()).unwrap();
                        Effect::SetUpVoice { key: api.key.clone(), voice }
                    },
                    None => Effect::Nothing,
                }
            },
            VoiceEvent::Error(message) => {
                self.display_av(message);
                self.play = false;
                Effect::Nothing
            },
            VoiceEvent::Finished => Effect::Nothing,
        }
    }

    /// Takes the choice of a capture device.
    fn on_device_selected(&mut self, name: String) -> (eff: Effect)
        requires
            old(self).model().wf(),
        ensures
            final(self).model() == old(self).model().after_device_selected(name@),
            eff@ == old(self).model().effect(MessageModel::DeviceSelected(name@)),
    {
        self.audio_data.clear();
        let at = position(&self.devices, name.as_str());
        self.device_sel = Some(name);
        match at {
            Some(at) => {
                self.device_i = at as i32;
                if self.recorder_ready {
                    Effect::SendRecorder(RecState::Recording(self.device_i))
                } else {
                    Effect::Nothing
                }
            },
            None => {
                self.device_i = DEFAULT_DEVICE;
                Effect::Nothing
            },
        }
    }

    /// Takes the choice of a provider.
    fn on_chat_selected(&mut self, name: String)
        ensures
            final(self).model() == old(self).model().after_chat_selected(name@),
    {
        let listed = providers_of(&self.config.ai_chats);
        let names = names_of(&listed);
        match position(&names, name.as_str()) {
            Some(at) => {
                self.ai_api_k = self.config.ai_chats[at].key.clone();
                self.ai_api = self.config.ai_chats[at].api.clone();
            },
            None => {},
        }
        self.ai_chat = Some(name);
    }

    /// The commands that `AskChat` sends.
    fn ask_commands(&self) -> (r: Vec<ChatCommand>)
        ensures
            chat_commands(r@) == self.model().ask_commands(),
    {
        let mut commands: Vec<ChatCommand> = Vec::new();
        if !self.prompt_context.as_str().is_empty() {
            commands.push(ChatCommand::SetContext(self.prompt_context.clone()));
        }
        commands.push(ChatCommand::Prompt(self.query_text.clone()));
        commands
    }

    /// The whole response: its fragments, one after another.
    pub fn response(&self) -> (r: String)
        ensures
            r@ == self.model().response(),
    {
        proof {
            reveal_strlit("");
            assert(""@ =~= Seq::<char>::empty());
        }
        join(&self.result_raw, "")
    }

    /// Starts a recording on the device in use, or ends the one in progress.
    fn on_toggle_record(&self) -> (eff: Effect)
        ensures
            eff@ == self.model().effect(MessageModel::ToggleRecord),
    {
        if self.recorder_ready {
            match self.rec_state {
                RecState::Stopped => Effect::Record {
                    command: Some(RecState::Recording(self.device_i)),
                    then: RecState::Recording(self.device_i),
                },
                RecState::Recording(_) => Effect::Record { command: None, then: RecState::Stopped },
            }
        } else {
            Effect::Nothing
        }
    }

    /// Puts what was edited into the settings and has them written.
    fn on_save_settings(&mut self) -> (eff: Effect)
        ensures
            final(self).model() == old(self).model().next(MessageModel::SaveSettings),
            eff@ == old(self).model().effect(MessageModel::SaveSettings),
    {
        let config = self.saved_config();
        self.config = config.clone();
        Effect::SaveConfig(config)
    }

    /// Takes the capture state: a recording that starts discards the
    /// samples held, one that ends has them transcribed.
    fn on_update_state(&mut self, state: RecState) -> (eff: Effect)
        ensures
            final(self).model() == old(self).model().next(MessageModel::UpdateState(state)),
            eff@ == old(self).model().effect(MessageModel::UpdateState(state)),
    {
        self.rec_state = state;
        match state {
            RecState::Recording(_) => {
                self.audio_data.clear();
                Effect::Nothing
            },
            RecState::Stopped => {
                let language = match self.tr_language {
                    Some(l) => l,
                    None => Language::EN,
                };
                let samples = self.audio_data.clone();
                Effect::Transcribe {
                    samples,
                    language: String::from_str(language.lowercase_code()),
                    model: self.config.tr_model.clone(),
                }
            },
        }
    }

    /// Discards the last response and sends the prompt to the chat session.
    fn on_ask_chat(&mut self) -> (eff: Effect)
        ensures
            final(self).model() == old(self).model().next(MessageModel::AskChat),
            eff@ == old(self).model().effect(MessageModel::AskChat),
    {
        self.result_raw.clear();
        self.result_text = String::new();
        assert(texts(self.result_raw@) =~= Seq::empty());
        if self.chat_ready {
            Effect::SendChat(self.ask_commands())
        } else {
            self.display_av(String::from_str("No channel to chat established"));
            Effect::Nothing
        }
    }

    /// Puts the first piece of code of the response on the clipboard, if there is one.
    fn code_to_clipboard(&self) -> (eff: Effect)
        ensures
            eff@ == self.model().effect(MessageModel::CopyCode),
    {
        let all = self.response();
        match substring_between(all.as_str(), "```") {
            Some(code) => Effect::Clipboard(String::from_str(code)),
            None => Effect::Nothing,
        }
    }

    /// Takes a user action or an event of a session, changes the state,
    /// and says what the shell has to carry out.
    pub fn update(&mut self, msg: Message) -> (eff: Effect)
        requires
            old(self).model().wf(),
            old(self).model().accepts(msg@),
        ensures
            final(self).model() == old(self).model().next(msg@),
            eff@ == old(self).model().effect(msg@),
            final(self).model().wf(),
    {
        match msg {
            Message::EditAction { text, selection } => {
                self.query_text = text;
                if selection {
                    self.result_text = String::new();
                }
                Effect::Nothing
            },
            Message::ToggleRecord => self.on_toggle_record(),
            Message::LinkClicked(url) => Effect::OpenLink(url),
            Message::DeviceSelected(name) => self.on_device_selected(name),
            Message::AppendResult(s) => {
                self.result_text.append(s.as_str());
                Effect::Nothing
            },
            Message::ToggleSettings => {
                self.settings = !self.settings;
                Effect::Nothing
            },
            Message::SaveSettings => self.on_save_settings(),
            Message::PlayToggle(p) => {
                self.play = p;
                Effect::Nothing
            },
            Message::Void => Effect::Nothing,
            Message::FontSizeChangedUp => {
                self.font_size_u = self.font_size_u + 1;
                Effect::Nothing
            },
            Message::FontSizeChangedDown => {
                self.font_size_u = self.font_size_u - 1;
                Effect::Nothing
            },
            Message::ThemeSelected(t) => {
                self.theme = Some(t);
                Effect::Nothing
            },
            Message::SetText(s) => {
                self.query_text = s;
                Effect::Nothing
            },
            Message::RecStreamEvent(e) => self.on_rec_event(e),
            Message::UpdateState(state) => self.on_update_state(state),
            Message::LanguageSelected(l) => {
                self.tr_language = Some(l);
                Effect::Nothing
            },
            Message::ShowError(e) => {
                self.display_av(e);
                Effect::Nothing
            },
            Message::HideModal => {
                self.show_modal = false;
                Effect::FocusNext
            },
            Message::CtxInput(s) => {
                self.prompt_context = s;
                Effect::Nothing
            },
            Message::ChatSelected(name) => {
                self.on_chat_selected(name);
                Effect::Nothing
            },
            Message::ChatEventReceived(e) => self.on_chat_event(e),
            Message::AskChat => self.on_ask_chat(),
            Message::ChatApiKeyChanged(s) => {
                self.ai_api.key = s;
                Effect::Nothing
            },
            Message::ChatApiUrlChanged(s) => {
                self.ai_api.url = s;
                Effect::Nothing
            },
            Message::ChatApiModelChanged(s) => {
                self.ai_api.model = s;
                Effect::Nothing
            },
            Message::CopyResult => Effect::Clipboard(self.response()),
            Message::VoiceEventRec(e) => self.on_voice_event(e),
            Message::CopyCode => self.code_to_clipboard(),
        }
    }

    /// The settings.
    pub fn config(&self) -> (r: &Config)
        ensures
            r@ == self.model().config,
    {
        &self.config
    }

    /// The text of the prompt editor.
    pub fn query_text(&self) -> (r: &String)
        ensures
            r@ == self.model().query_text,
    {
        &self.query_text
    }

    /// The response as it is displayed.
    pub fn result_text(&self) -> (r: &String)
        ensures
            r@ == self.model().result_text,
    {
        &self.result_text
    }

    /// The fragments of the response, as they arrived.
    pub fn result_raw(&self) -> (r: &Vec<String>)
        ensures
            texts(r@) == self.model().result_raw,
    {
        &self.result_raw
    }

    /// The names of the themes.
    pub fn themes(&self) -> (r: &Vec<String>)
        ensures
            texts(r@) == self.model().themes,
    {
        &self.themes
    }

    /// The name of the theme that was chosen, if one was.
    pub fn chosen_theme(&self) -> (r: &Option<String>)
        ensures
            opt_text(*r) == self.model().theme,
    {
        &self.theme
    }

    /// The name of the theme in use: the chosen one, or the default.
    pub fn theme(&self) -> (r: String)
        ensures
            r@ == self.model().theme_name(),
    {
        match &self.theme {
            Some(t) => t.clone(),
            None => String::from_str("Light"),
        }
    }

    /// What is on screen, with what the state decides about it.
    pub fn view(&self) -> (r: Page)
        ensures
            r@ == self.model().page(),
    {
        match self.screen() {
            Screen::Settings => Page::Settings {
                font_size: self.font_size_text(),
                can_grow_font: self.can_grow_font(),
                can_shrink_font: self.can_shrink_font(),
            },
            Screen::Modal => Page::Modal { text: self.modal_text.clone() },
            Screen::Main => Page::Main {
                record_label: String::from_str(self.record_label()),
                can_ask: self.can_ask(),
                can_copy_code: self.can_copy_code(),
                play: self.play,
            },
        }
    }

    /// Whether responses are read aloud.
    pub fn play(&self) -> (r: bool)
        ensures
            r == self.model().play,
    {
        self.play
    }

    /// The names of the capture devices.
    pub fn devices(&self) -> (r: &Vec<String>)
        ensures
            texts(r@) == self.model().devices,
    {
        &self.devices
    }

    /// The name of the capture device in use.
    pub fn device_sel(&self) -> (r: &Option<String>)
        ensures
            opt_text(*r) == self.model().device_sel,
    {
        &self.device_sel
    }

    /// The index of the capture device in use.
    pub fn device_i(&self) -> (r: i32)
        ensures
            r == self.model().device_i,
    {
        self.device_i
    }

    /// The samples of the recording in progress, or of the last one.
    pub fn audio_data(&self) -> (r: &Vec<i16>)
        ensures
            r@ == self.model().audio_data,
    {
        &self.audio_data
    }

    /// The font size.
    pub fn font_size(&self) -> (r: u32)
        ensures
            r == self.model().font_size_u,
    {
        self.font_size_u
    }

    /// The capture state.
    pub fn rec_state(&self) -> (r: RecState)
        ensures
            r == self.model().rec_state,
    {
        self.rec_state
    }

    /// The transcription language.
    pub fn tr_language(&self) -> (r: Option<Language>)
        ensures
            r == self.model().tr_language,
    {
        self.tr_language
    }

    /// The text of the modal dialog.
    pub fn modal_text(&self) -> (r: &String)
        ensures
            r@ == self.model().modal_text,
    {
        &self.modal_text
    }

    /// The system context that precedes every prompt.
    pub fn prompt_context(&self) -> (r: &String)
        ensures
            r@ == self.model().prompt_context,
    {
        &self.prompt_context
    }

    /// The name of the provider in use.
    pub fn ai_chat(&self) -> (r: &Option<String>)
        ensures
            opt_text(*r) == self.model().ai_chat,
    {
        &self.ai_chat
    }

    /// The names of the providers.
    pub fn ai_chats(&self) -> (r: &Vec<String>)
        ensures
            texts(r@) == self.model().ai_chats,
    {
        &self.ai_chats
    }

    /// The provider in use, as edited.
    pub fn ai_api(&self) -> (r: &AiApi)
        ensures
            r@ == self.model().ai_api,
    {
        &self.ai_api
    }

    /// Which screen is shown.
    pub fn screen(&self) -> (r: Screen)
        ensures
            r == self.model().screen(),
    {
        if self.settings {
            Screen::Settings
        } else if self.show_modal {
            Screen::Modal
        } else {
            Screen::Main
        }
    }

    /// What the record button says: what pressing it does.
    pub fn record_label(&self) -> (r: &'static str)
        ensures
            r@ == self.model().record_label(),
    {
        match self.rec_state {
            RecState::Recording(_) => "Stop",
            RecState::Stopped => "Record",
        }
    }

    /// Whether a prompt can be asked.
    pub fn can_ask(&self) -> (r: bool)
        ensures
            r == self.model().can_ask(),
    {
        !(self.ai_api.name.as_str().is_empty() || self.query_text.as_str().is_empty())
    }

    /// Whether there is a response whose code could be copied.
    pub fn can_copy_code(&self) -> (r: bool)
        ensures
            r == (self.model().result_raw.len() > 0),
    {
        self.result_raw.len() > 0
    }

    /// Whether the font can be made larger.
    pub fn can_grow_font(&self) -> (r: bool)
        ensures
            r == (self.model().font_size_u < LARGEST_FONT),
    {
        self.font_size_u < LARGEST_FONT
    }

    /// Whether the font can be made smaller.
    pub fn can_shrink_font(&self) -> (r: bool)
        ensures
            r == (self.model().font_size_u > SMALLEST_FONT),
    {
        self.font_size_u > SMALLEST_FONT
    }

    /// The font size as it is written in the settings.
    pub fn font_size_text(&self) -> (r: String)
        ensures
            r@ == spec_decimal(self.model().font_size_u as nat),
    {
        decimal(self.font_size_u)
    }
}

/// The list of devices never changes, so every state that follows a
/// well-formed one is well-formed.
pub proof fn law_devices_are_fixed(c: AiVChatModel, msg: MessageModel)
    ensures
        c.next(msg).devices == c.devices,
        c.wf() ==> c.next(msg).wf(),
{
}

/// The capture state has one writer: no message but `UpdateState` changes it.
pub proof fn law_capture_state_has_one_writer(c: AiVChatModel, msg: MessageModel)
    requires
        !(msg is UpdateState),
    ensures
        c.next(msg).rec_state == c.rec_state,
{
}

/// The samples held change in three ways only: a recording that starts
/// and the choice of a device discard them, and a chunk that arrives
/// while a recording is in progress is appended to them.
pub proof fn law_samples_follow_the_recording(c: AiVChatModel, msg: MessageModel)
    ensures
        msg matches MessageModel::UpdateState(RecState::Recording(_)) ==> c.next(msg).audio_data
            == Seq::<i16>::empty(),
        msg is DeviceSelected ==> c.next(msg).audio_data == Seq::<i16>::empty(),
        msg matches MessageModel::RecStreamEvent(RecEventModel::Sending(chunk)) ==> c.next(
            msg,
        ).audio_data == if c.rec_state is Recording {
            c.audio_data + chunk
        } else {
            c.audio_data
        },
        !(msg matches MessageModel::UpdateState(RecState::Recording(_))) && !(msg
            is DeviceSelected) && !(msg matches MessageModel::RecStreamEvent(
            RecEventModel::Sending(_),
        )) ==> c.next(msg).audio_data == c.audio_data,
{
}

/// The device that is chosen by name is the device that is opened.
///
/// When a listed device is chosen, the index the coordinator keeps is the
/// place of that name among the devices, and it is the index it sends to
/// the recording session. A session that holds another device answers
/// the command by stopping that one and opening the device with exactly
/// this index, which is then the one it holds; a session that holds this
/// device already goes on as it is. A recording that is started later is
/// started on this index too.
pub proof fn law_selected_device_is_opened(
    c: AiVChatModel,
    name: Seq<char>,
    s: RecordingSessionModel,
    stopped: Result<(), Seq<char>>,
    rate: usize,
)
    requires
        c.wf(),
        c.recorder_ready,
        spec_position(c.devices, name) is Some,
        s.phase == RecorderPhase::Polling,
    ensures
        ({
            let at = spec_position(c.devices, name)->0;
            let chosen = c.next(MessageModel::DeviceSelected(name));
            let command = DeviceReplyModel::Command(RecState::Recording(chosen.device_i));
            &&& 0 <= at < c.devices.len()
            &&& c.devices[at] == name
            &&& chosen.device_i == at
            &&& c.effect(MessageModel::DeviceSelected(name)) == EffectModel::SendRecorder(
                RecState::Recording(chosen.device_i),
            )
            &&& s.device != chosen.device_i ==> {
                &&& s.next(command).pending() == DeviceRequest::Stop
                &&& s.next(command).next(DeviceReplyModel::Stopped(stopped)).pending()
                    == DeviceRequest::Open(chosen.device_i)
                &&& s.next(command).next(DeviceReplyModel::Stopped(stopped)).next(
                    DeviceReplyModel::Opened(Ok(rate)),
                ).device == chosen.device_i
            }
            &&& s.device == chosen.device_i ==> s.next(command) == s
            &&& chosen.rec_state is Stopped ==> chosen.effect(MessageModel::ToggleRecord)
                == (EffectModel::Record {
                command: Some(RecState::Recording(chosen.device_i)),
                then: RecState::Recording(chosen.device_i),
            })
        }),
{
}

/// A device that is not listed is answered with the default device, and
/// nothing is sent to the recording session.
pub proof fn law_unlisted_device_is_the_default(c: AiVChatModel, name: Seq<char>)
    requires
        spec_position(c.devices, name) is None,
    ensures
        c.next(MessageModel::DeviceSelected(name)).device_i == DEFAULT_DEVICE,
        c.effect(MessageModel::DeviceSelected(name)) == EffectModel::Nothing,
{
}

/// A recording is transcribed whole, and once.
///
/// From the start of a recording on, the chunks that arrive are kept in
/// the order of their arrival. The message that ends the recording has
/// exactly their concatenation transcribed, in the language that is set
/// (English where none is) and with the model of the settings; no other of
/// these messages has anything transcribed.
pub proof fn law_recording_is_transcribed_whole(
    c: AiVChatModel,
    device: i32,
    first: Seq<i16>,
    second: Seq<i16>,
    third: Seq<i16>,
)
    ensures
        ({
            let start = MessageModel::UpdateState(RecState::Recording(device));
            let c0 = c.next(start);
            let c1 = c0.next(MessageModel::RecStreamEvent(RecEventModel::Sending(first)));
            let c2 = c1.next(MessageModel::RecStreamEvent(RecEventModel::Sending(second)));
            let c3 = c2.next(MessageModel::RecStreamEvent(RecEventModel::Sending(third)));
            let stop = MessageModel::UpdateState(RecState::Stopped);
            &&& c.effect(start) == EffectModel::Nothing
            &&& c0.effect(MessageModel::RecStreamEvent(RecEventModel::Sending(first)))
                == (EffectModel::Meter { peak: spec_peak(first) })
            &&& c1.effect(MessageModel::RecStreamEvent(RecEventModel::Sending(second)))
                == (EffectModel::Meter { peak: spec_peak(second) })
            &&& c2.effect(MessageModel::RecStreamEvent(RecEventModel::Sending(third)))
                == (EffectModel::Meter { peak: spec_peak(third) })
            &&& c3.effect(stop) == (EffectModel::Transcribe {
                samples: first + second + third,
                language: match c.tr_language {
                    Some(l) => l.code(),
                    None => Language::EN.code(),
                },
                model: c.config.tr_model,
            })
            &&& c3.next(stop).rec_state == RecState::Stopped
            &&& c3.next(stop).audio_data == first + second + third
        }),
{
}

/// Samples are transcribed when a recording ends, and at no other time.
pub proof fn law_transcription_follows_a_stop(c: AiVChatModel, msg: MessageModel)
    ensures
        c.effect(msg) is Transcribe <==> msg == MessageModel::UpdateState(RecState::Stopped),
{
}

/// One provider is in use at a time: the choice of a listed provider
/// makes it the provider in use, under the key it is listed by, and the
/// choice of a name that is not listed leaves the provider in use as it is.
pub proof fn law_chosen_provider_is_in_use(c: AiVChatModel, name: Seq<char>)
    ensures
        ({
            let chosen = c.next(MessageModel::ChatSelected(name));
            let listed = spec_position(api_names(entry_apis(c.config.ai_chats)), name);
            &&& chosen.ai_chat == Some(name)
            &&& listed matches Some(at) ==> {
                &&& 0 <= at < c.config.ai_chats.len()
                &&& chosen.ai_api == c.config.ai_chats[at].api
                &&& chosen.ai_api.name == name
                &&& chosen.ai_api_k == c.config.ai_chats[at].key
            }
            &&& listed is None ==> chosen.ai_api == c.ai_api && chosen.ai_api_k == c.ai_api_k
        }),
{
    let names = api_names(entry_apis(c.config.ai_chats));
    if spec_position(names, name) is Some {
    }
}

/// What was edited is what is saved: the settings that `SaveSettings`
/// writes hold the provider in use under its key, and are the settings
/// that the state holds from then on.
pub proof fn law_saved_settings_are_kept(c: AiVChatModel)
    ensures
        c.effect(MessageModel::SaveSettings) == EffectModel::SaveConfig(
            c.next(MessageModel::SaveSettings).config,
        ),
        c.next(MessageModel::SaveSettings).config.ai_chats.len() == c.config.ai_chats.len(),
        forall|i: int|
            0 <= i < c.config.ai_chats.len() ==> (#[trigger] c.next(
                MessageModel::SaveSettings,
            ).config.ai_chats[i]).key == c.config.ai_chats[i].key && c.next(
                MessageModel::SaveSettings,
            ).config.ai_chats[i].api == if c.config.ai_chats[i].key == c.ai_api_k {
                c.ai_api
            } else {
                c.config.ai_chats[i].api
            },
{
}

/// What a chunk that arrives while nothing is recorded leaves behind: nothing.
pub proof fn law_chunks_outside_a_recording_are_dropped(c: AiVChatModel, chunk: Seq<i16>)
    requires
        c.rec_state == RecState::Stopped,
    ensures
        c.next(MessageModel::RecStreamEvent(RecEventModel::Sending(chunk))).audio_data
            == c.audio_data,
{
}

/// A response is read aloud fragment by fragment, and only while reading
/// is switched on and the speech session is there. In every case the
/// fragment is appended to what is displayed and to what can be copied.
pub proof fn law_fragments_are_kept_in_order(c: AiVChatModel, fragment: Seq<char>)
    ensures
        ({
            let msg = MessageModel::ChatEventReceived(ChatEventModel::ChatMessage(fragment));
            &&& c.next(msg).result_raw == c.result_raw.push(fragment)
            &&& c.next(msg).result_text == c.result_text + fragment
            &&& c.effect(msg) == if c.play && c.voice_ready {
                EffectModel::ReadAloud(fragment)
            } else {
                EffectModel::Nothing
            }
        }),
{
}

impl Clone for Message {
    fn clone(&self) -> (r: Self)
        ensures
            r@ == self@,
    {
        match self {
            Message::EditAction { text, selection } => Message::EditAction {
                text: text.clone(),
                selection: *selection,
            },
            Message::ToggleRecord => Message::ToggleRecord,
            Message::LinkClicked(url) => Message::LinkClicked(url.clone()),
            Message::DeviceSelected(d) => Message::DeviceSelected(d.clone()),
            Message::AppendResult(s) => Message::AppendResult(s.clone()),
            Message::ToggleSettings => Message::ToggleSettings,
            Message::SaveSettings => Message::SaveSettings,
            Message::PlayToggle(p) => Message::PlayToggle(*p),
            Message::Void => Message::Void,
            Message::FontSizeChangedUp => Message::FontSizeChangedUp,
            Message::FontSizeChangedDown => Message::FontSizeChangedDown,
            Message::ThemeSelected(t) => Message::ThemeSelected(t.clone()),
            Message::SetText(s) => Message::SetText(s.clone()),
            Message::RecStreamEvent(e) => Message::RecStreamEvent(e.clone()),
            Message::UpdateState(s) => Message::UpdateState(*s),
            Message::LanguageSelected(l) => Message::LanguageSelected(*l),
            Message::ShowError(e) => Message::ShowError(e.clone()),
            Message::HideModal => Message::HideModal,
            Message::CtxInput(s) => Message::CtxInput(s.clone()),
            Message::ChatSelected(s) => Message::ChatSelected(s.clone()),
            Message::ChatEventReceived(e) => Message::ChatEventReceived(e.clone()),
            Message::AskChat => Message::AskChat,
            Message::ChatApiKeyChanged(s) => Message::ChatApiKeyChanged(s.clone()),
            Message::ChatApiUrlChanged(s) => Message::ChatApiUrlChanged(s.clone()),
            Message::ChatApiModelChanged(s) => Message::ChatApiModelChanged(s.clone()),
            Message::CopyResult => Message::CopyResult,
            Message::VoiceEventRec(e) => Message::VoiceEventRec(e.clone()),
            Message::CopyCode => Message::CopyCode,
        }
    }
}

} // verus!
