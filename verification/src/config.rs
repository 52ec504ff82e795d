//! Settings: the chat providers and what else the application remembers
//! between runs.

use crate::text::{opt_text, position, spec_position, text_eq, texts};
use vstd::prelude::*;
use vstd::string::*;

verus! {

/// One configured chat-completion endpoint.
#[derive(Debug, PartialEq, Eq)]
pub struct AiApi {
    pub name: String,
    pub key: String,
    pub url: String,
    pub model: String,
}

/// [`AiApi`] over character sequences.
pub struct AiApiModel {
    pub name: Seq<char>,
    pub key: Seq<char>,
    pub url: Seq<char>,
    pub model: Seq<char>,
}

impl AiApiModel {
    /// The provider whose fields are all empty.
    pub open spec fn empty() -> AiApiModel {
        AiApiModel { name: Seq::empty(), key: Seq::empty(), url: Seq::empty(), model: Seq::empty() }
    }
}

impl View for AiApi {
    type V = AiApiModel;

    open spec fn view(&self) -> AiApiModel {
        AiApiModel { name: self.name@, key: self.key@, url: self.url@, model: self.model@ }
    }
}

impl Clone for AiApi {
    fn clone(&self) -> (r: Self)
        ensures
            r == *self,
    {
        AiApi {
            name: self.name.clone(),
            key: self.key.clone(),
            url: self.url.clone(),
            model: self.model.clone(),
        }
    }
}

impl Default for AiApi {
    fn default() -> (r: Self)
        ensures
            r@ == AiApiModel::empty(),
    {
        AiApi { name: String::new(), key: String::new(), url: String::new(), model: String::new() }
    }
}

impl AiApi {
    /// The text under which the provider is shown: its name.
    pub fn label(&self) -> (r: String)
        ensures
            r@ == self@.name,
    {
        self.name.clone()
    }
}

/// The view of an optional provider.
pub open spec fn opt_api(p: Option<AiApi>) -> Option<AiApiModel> {
    match p {
        Some(api) => Some(api@),
        None => None,
    }
}

/// A chat provider under the key by which the settings file lists it.
#[derive(Debug, PartialEq, Eq)]
pub struct ChatEntry {
    pub key: String,
    pub api: AiApi,
}

/// [`ChatEntry`] over character sequences.
pub struct ChatEntryModel {
    pub key: Seq<char>,
    pub api: AiApiModel,
}

impl View for ChatEntry {
    type V = ChatEntryModel;

    open spec fn view(&self) -> ChatEntryModel {
        ChatEntryModel { key: self.key@, api: self.api@ }
    }
}

impl Clone for ChatEntry {
    fn clone(&self) -> (r: Self)
        ensures
            r == *self,
    {
        ChatEntry { key: self.key.clone(), api: self.api.clone() }
    }
}

/// A voice: the name it is chosen by, and the identifier the speech provider knows it by.
#[derive(Debug, PartialEq, Eq)]
pub struct VoiceEntry {
    pub name: String,
    pub id: String,
}

/// [`VoiceEntry`] over character sequences.
pub struct VoiceEntryModel {
    pub name: Seq<char>,
    pub id: Seq<char>,
}

impl View for VoiceEntry {
    type V = VoiceEntryModel;

    open spec fn view(&self) -> VoiceEntryModel {
        VoiceEntryModel { name: self.name@, id: self.id@ }
    }
}

impl Clone for VoiceEntry {
    fn clone(&self) -> (r: Self)
        ensures
            r == *self,
    {
        VoiceEntry { name: self.name.clone(), id: self.id.clone() }
    }
}

/// The views of a list of providers.
pub open spec fn apis(list: Seq<AiApi>) -> Seq<AiApiModel> {
    list.map_values(|a: AiApi| a@)
}

/// The views of a list of provider entries.
pub open spec fn chat_entries(list: Seq<ChatEntry>) -> Seq<ChatEntryModel> {
    list.map_values(|e: ChatEntry| e@)
}

/// The views of a list of voices.
pub open spec fn voice_entries(list: Seq<VoiceEntry>) -> Seq<VoiceEntryModel> {
    list.map_values(|e: VoiceEntry| e@)
}

/// The names of a list of providers.
pub open spec fn api_names(list: Seq<AiApiModel>) -> Seq<Seq<char>> {
    list.map_values(|a: AiApiModel| a.name)
}

/// The providers of a list of provider entries.
pub open spec fn entry_apis(list: Seq<ChatEntryModel>) -> Seq<AiApiModel> {
    list.map_values(|e: ChatEntryModel| e.api)
}

/// The names of a list of voices.
pub open spec fn voice_names(list: Seq<VoiceEntryModel>) -> Seq<Seq<char>> {
    list.map_values(|v: VoiceEntryModel| v.name)
}

/// The identifier of the first voice called `name`.
pub open spec fn spec_voice_id(list: Seq<VoiceEntryModel>, name: Seq<char>) -> Option<Seq<char>> {
    match spec_position(voice_names(list), name) {
        Some(i) => Some(list[i].id),
        None => None,
    }
}

/// The entries with `api` put in place of the provider of every entry listed under `key`.
pub open spec fn spec_replace_provider(
    list: Seq<ChatEntryModel>,
    key: Seq<char>,
    api: AiApiModel,
) -> Seq<ChatEntryModel> {
    list.map_values(
        |e: ChatEntryModel|
            if e.key == key {
                ChatEntryModel { key: e.key, api }
            } else {
                e
            },
    )
}

/// What the application remembers between runs.
#[derive(Debug, PartialEq, Eq)]
pub struct Config {
    /// The chat providers, each under its key.
    pub ai_chats: Vec<ChatEntry>,
    /// The name of the provider that is in use.
    pub sel_chat: Option<String>,
    pub font_size: u32,
    /// The name of the capture device that is in use.
    pub rec_device: Option<String>,
    pub theme: String,
    /// The path of the transcription model.
    pub tr_model: String,
    /// The name of the transcription language.
    pub tr_lang: String,
    /// The system context that precedes every prompt.
    pub prompt_context: Option<String>,
    /// The voices, by name.
    pub voices: Vec<VoiceEntry>,
}

/// [`Config`] over character sequences.
pub struct ConfigModel {
    pub ai_chats: Seq<ChatEntryModel>,
    pub sel_chat: Option<Seq<char>>,
    pub font_size: u32,
    pub rec_device: Option<Seq<char>>,
    pub theme: Seq<char>,
    pub tr_model: Seq<char>,
    pub tr_lang: Seq<char>,
    pub prompt_context: Option<Seq<char>>,
    pub voices: Seq<VoiceEntryModel>,
}

impl View for Config {
    type V = ConfigModel;

    open spec fn view(&self) -> ConfigModel {
        ConfigModel {
            ai_chats: chat_entries(self.ai_chats@),
            sel_chat: opt_text(self.sel_chat),
            font_size: self.font_size,
            rec_device: opt_text(self.rec_device),
            theme: self.theme@,
            tr_model: self.tr_model@,
            tr_lang: self.tr_lang@,
            prompt_context: opt_text(self.prompt_context),
            voices: voice_entries(self.voices@),
        }
    }
}

/// Copies an optional string.
pub fn clone_opt_text(s: &Option<String>) -> (r: Option<String>)
    ensures
        r == *s,
{
    match s {
        Some(t) => Some(t.clone()),
        None => None,
    }
}

/// Copies a list of provider entries.
pub fn clone_chat_entries(list: &Vec<ChatEntry>) -> (r: Vec<ChatEntry>)
    ensures
        r@ == list@,
{
    let mut r: Vec<ChatEntry> = Vec::new();
    let mut i: usize = 0;
    while i < list.len()
        invariant
            i <= list.len(),
            r@ == list@.take(i as int),
        decreases list.len() - i,
    {
        r.push(list[i].clone());
        i += 1;
    }
    r
}

/// Copies a list of voices.
pub fn clone_voice_entries(list: &Vec<VoiceEntry>) -> (r: Vec<VoiceEntry>)
    ensures
        r@ == list@,
{
    let mut r: Vec<VoiceEntry> = Vec::new();
    let mut i: usize = 0;
    while i < list.len()
        invariant
            i <= list.len(),
            r@ == list@.take(i as int),
        decreases list.len() - i,
    {
        r.push(list[i].clone());
        i += 1;
    }
    r
}

impl Clone for Config {
    fn clone(&self) -> (r: Self)
        ensures
            r@ == self@,
    {
        Config {
            ai_chats: clone_chat_entries(&self.ai_chats),
            sel_chat: clone_opt_text(&self.sel_chat),
            font_size: self.font_size,
            rec_device: clone_opt_text(&self.rec_device),
            theme: self.theme.clone(),
            tr_model: self.tr_model.clone(),
            tr_lang: self.tr_lang.clone(),
            prompt_context: clone_opt_text(&self.prompt_context),
            voices: clone_voice_entries(&self.voices),
        }
    }
}

/// Finds the identifier of the first voice called `name`.
pub fn voice_id(voices: &Vec<VoiceEntry>, name: &str) -> (r: Option<String>)
    ensures
        opt_text(r) == spec_voice_id(voice_entries(voices@), name@),
{
    let mut names: Vec<String> = Vec::new();
    let mut i: usize = 0;
    while i < voices.len()
        invariant
            i <= voices.len(),
            names@.len() == i,
            forall|k: int| 0 <= k < i ==> (#[trigger] names@[k])@ == voices@[k].name@,
        decreases voices.len() - i,
    {
        names.push(voices[i].name.clone());
        i += 1;
    }
    assert(texts(names@) =~= voice_names(voice_entries(voices@)));
    match position(&names, name) {
        Some(at) => {
            Some(voices[at].id.clone())
        },
        None => None,
    }
}

/// Puts `api` in place of the provider of every entry listed under `key`.
pub fn replace_provider(list: &mut Vec<ChatEntry>, key: &str, api: &AiApi)
    ensures
        chat_entries(final(list)@) == spec_replace_provider(chat_entries(old(list)@), key@, api@),
{
    let n = list.len();
    let mut i: usize = 0;
    while i < n
        invariant
            n == list@.len(),
            n == old(list)@.len(),
            i <= n,
            forall|k: int|
                0 <= k < i ==> (#[trigger] list@[k])@ == spec_replace_provider(
                    chat_entries(old(list)@),
                    key@,
                    api@,
                )[k],
            forall|k: int| i <= k < n ==> #[trigger] list@[k] == old(list)@[k],
        decreases n - i,
    {
        if text_eq(list[i].key.as_str(), key) {
            let entry = ChatEntry { key: list[i].key.clone(), api: api.clone() };
            list.set(i, entry);
        }
        i += 1;
    }
}

/// Lists the names of the providers, in order.
pub fn names_of(list: &Vec<AiApi>) -> (r: Vec<String>)
    ensures
        texts(r@) == api_names(apis(list@)),
{
    let mut r: Vec<String> = Vec::new();
    let mut i: usize = 0;
    while i < list.len()
        invariant
            i <= list.len(),
            r@.len() == i,
            forall|k: int| 0 <= k < i ==> (#[trigger] r@[k])@ == list@[k].name@,
        decreases list.len() - i,
    {
        r.push(list[i].name.clone());
        i += 1;
    }
    r
}

/// Lists the providers of the entries, in order.
pub fn providers_of(entries: &Vec<ChatEntry>) -> (r: Vec<AiApi>)
    ensures
        apis(r@) == entry_apis(chat_entries(entries@)),
{
    let mut r: Vec<AiApi> = Vec::new();
    let mut i: usize = 0;
    while i < entries.len()
        invariant
            i <= entries.len(),
            r@.len() == i,
            forall|k: int| 0 <= k < i ==> #[trigger] r@[k] == entries@[k].api,
        decreases entries.len() - i,
    {
        r.push(entries[i].api.clone());
        i += 1;
    }
    r
}

} // verus!
