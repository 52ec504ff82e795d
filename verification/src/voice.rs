//! The speech session: buffers streamed text fragments and decides when a
//! sentence is complete and must be spoken.
//!
//! The session performs no synthesis itself. [`VoiceSession::handle`] turns
//! each command into a [`VoiceAction`]; whoever drives the session carries the
//! action out and passes the outcome of a synthesis to
//! [`VoiceSession::spoken`].

use crate::text::{
    byte_len, byte_length, done_text, join, opt_text, spec_join, text_eq, texts,
};
use vstd::prelude::*;
use vstd::string::*;

verus! {

/// A buffered fragment counts as long when its encoded length exceeds this many bytes.
pub const LONG_FRAGMENT: usize = 4;

/// What the session answers to a `Read` that arrives before key and voice are set.
pub open spec fn not_configured_text() -> Seq<char> {
    "No key/voice no read"@
}

/// A fragment that ends a sentence: a full stop, or the ideographic full stop.
pub open spec fn is_sentence_end(s: Seq<char>) -> bool {
    s == seq!['.'] || s == seq!['\u{3002}']
}

/// Some fragment of the buffer is long.
pub open spec fn holds_long_fragment(fragments: Seq<Seq<char>>) -> bool {
    exists|i: int| 0 <= i < fragments.len() && byte_len(#[trigger] fragments[i]) > LONG_FRAGMENT
}

/// The buffer holds enough text to be worth speaking: more than one
/// fragment, one of them long.
pub open spec fn spec_check_buf(fragments: Seq<Seq<char>>) -> bool {
    fragments.len() > 1 && holds_long_fragment(fragments)
}

/// The incoming fragment completes a sentence of the buffered text. The
/// buffer is judged as it stands before the fragment is appended.
pub open spec fn completes_sentence(fragments: Seq<Seq<char>>, incoming: Seq<char>) -> bool {
    spec_check_buf(fragments) && is_sentence_end(incoming)
}

/// The text handed to synthesis: the fragments separated by single spaces.
pub open spec fn spoken_text(fragments: Seq<Seq<char>>) -> Seq<char> {
    spec_join(fragments, seq![' '])
}

/// Commands accepted by the speech session.
#[derive(Debug, PartialEq, Eq)]
pub enum VoiceCommand {
    SetKey(String),
    SetVoice(String),
    Read(String),
}

/// Events the speech session reports.
#[derive(Debug, PartialEq, Eq)]
pub enum VoiceEvent {
    Ready,
    Error(String),
    Finished,
}

/// What the driver of the session has to do after a command.
#[derive(Debug, PartialEq, Eq)]
pub enum VoiceAction {
    /// Nothing: wait for the next command.
    Idle,
    /// Pass the event on.
    Report(VoiceEvent),
    /// Synthesize `text` with the given credentials and play it.
    Speak { key: String, voice: String, text: String },
}

/// [`VoiceCommand`] over character sequences.
pub enum VoiceCommandModel {
    SetKey(Seq<char>),
    SetVoice(Seq<char>),
    Read(Seq<char>),
}

/// [`VoiceEvent`] over character sequences.
pub enum VoiceEventModel {
    Ready,
    Error(Seq<char>),
    Finished,
}

/// [`VoiceAction`] over character sequences.
pub enum VoiceActionModel {
    Idle,
    Report(VoiceEventModel),
    Speak { key: Seq<char>, voice: Seq<char>, text: Seq<char> },
}

/// [`VoiceBuffer`] over character sequences.
pub struct VoiceBufferModel {
    pub fragments: Seq<Seq<char>>,
    pub ready: bool,
}

/// [`VoiceSession`] over character sequences.
pub struct VoiceSessionModel {
    pub key: Option<Seq<char>>,
    pub voice: Option<Seq<char>>,
    pub buffer: VoiceBufferModel,
}

impl View for VoiceCommand {
    type V = VoiceCommandModel;

    open spec fn view(&self) -> VoiceCommandModel {
        match self {
            VoiceCommand::SetKey(k) => VoiceCommandModel::SetKey(k@),
            VoiceCommand::SetVoice(v) => VoiceCommandModel::SetVoice(v@),
            VoiceCommand::Read(s) => VoiceCommandModel::Read(s@),
        }
    }
}

impl View for VoiceEvent {
    type V = VoiceEventModel;

    open spec fn view(&self) -> VoiceEventModel {
        match self {
            VoiceEvent::Ready => VoiceEventModel::Ready,
            VoiceEvent::Error(e) => VoiceEventModel::Error(e@),
            VoiceEvent::Finished => VoiceEventModel::Finished,
        }
    }
}

impl View for VoiceAction {
    type V = VoiceActionModel;

    open spec fn view(&self) -> VoiceActionModel {
        match self {
            VoiceAction::Idle => VoiceActionModel::Idle,
            VoiceAction::Report(e) => VoiceActionModel::Report(e@),
            VoiceAction::Speak { key, voice, text } => VoiceActionModel::Speak {
                key: key@,
                voice: voice@,
                text: text@,
            },
        }
    }
}

impl VoiceBufferModel {
    /// The empty buffer.
    pub open spec fn empty() -> VoiceBufferModel {
        VoiceBufferModel { fragments: Seq::empty(), ready: false }
    }

    /// The buffer after `fragment` arrived: the fragment is appended in any
    /// case, and the buffer becomes ready when the fragment completes a
    /// sentence of what was buffered before.
    pub open spec fn push(self, fragment: Seq<char>) -> VoiceBufferModel {
        VoiceBufferModel {
            fragments: self.fragments.push(fragment),
            ready: self.ready || completes_sentence(self.fragments, fragment),
        }
    }

    /// The text to speak, if the buffer is ready.
    pub open spec fn due(self) -> Option<Seq<char>> {
        if self.ready {
            Some(spoken_text(self.fragments))
        } else {
            None
        }
    }

    /// The buffer after its text was taken: empty if it was ready, unchanged otherwise.
    pub open spec fn taken(self) -> VoiceBufferModel {
        if self.ready {
            VoiceBufferModel::empty()
        } else {
            self
        }
    }
}

impl VoiceSessionModel {
    /// A fresh session: no key, no voice, nothing buffered.
    pub open spec fn initial() -> VoiceSessionModel {
        VoiceSessionModel { key: None, voice: None, buffer: VoiceBufferModel::empty() }
    }

    /// Between commands the buffer is never left ready: a complete sentence
    /// is spoken by the command that completed it.
    pub open spec fn wf(self) -> bool {
        !self.buffer.ready
    }

    /// Key and voice are both set.
    pub open spec fn configured(self) -> bool {
        self.key is Some && self.voice is Some
    }

    /// The session after `cmd`.
    pub open spec fn next(self, cmd: VoiceCommandModel) -> VoiceSessionModel {
        match cmd {
            VoiceCommandModel::SetKey(k) => VoiceSessionModel { key: Some(k), ..self },
            VoiceCommandModel::SetVoice(v) => VoiceSessionModel { voice: Some(v), ..self },
            VoiceCommandModel::Read(s) => if self.configured() {
                VoiceSessionModel { buffer: self.buffer.push(s).taken(), ..self }
            } else {
                self
            },
        }
    }

    /// What `cmd` makes the driver do.
    pub open spec fn action(self, cmd: VoiceCommandModel) -> VoiceActionModel {
        match cmd {
            VoiceCommandModel::SetKey(_) => VoiceActionModel::Idle,
            VoiceCommandModel::SetVoice(_) => VoiceActionModel::Idle,
            VoiceCommandModel::Read(s) => if self.configured() {
                match self.buffer.push(s).due() {
                    Some(text) => VoiceActionModel::Speak {
                        key: self.key->0,
                        voice: self.voice->0,
                        text,
                    },
                    None => VoiceActionModel::Idle,
                }
            } else {
                VoiceActionModel::Report(VoiceEventModel::Error(not_configured_text()))
            },
        }
    }
}

/// The event that reports the outcome of a synthesis: a failure is passed
/// on as an error, a success is silent.
pub open spec fn spoken_event(outcome: Result<(), Seq<char>>) -> Option<VoiceEventModel> {
    match outcome {
        Ok(_) => None,
        Err(e) => Some(VoiceEventModel::Error(e)),
    }
}

/// The view of an optional event.
pub open spec fn opt_event(e: Option<VoiceEvent>) -> Option<VoiceEventModel> {
    match e {
        Some(ev) => Some(ev@),
        None => None,
    }
}

/// Tells whether `s` ends a sentence.
pub fn sentence_end(s: &str) -> (r: bool)
    ensures
        r == is_sentence_end(s@),
{
    proof {
        reveal_strlit(".");
        reveal_strlit("\u{3002}");
        assert("."@ =~= seq!['.']);
        assert("\u{3002}"@ =~= seq!['\u{3002}']);
    }
    text_eq(s, ".") || text_eq(s, "\u{3002}")
}

/// Tells whether the buffered fragments are worth speaking: more than one
/// fragment, and at least one of them long.
pub fn check_buf(buf: &Vec<String>) -> (r: bool)
    ensures
        r == spec_check_buf(texts(buf@)),
{
    if buf.len() <= 1 {
        return false;
    }
    let n = buf.len();
    let mut i: usize = 0;
    while i < n
        invariant
            n == buf@.len(),
            1 < n,
            i <= n,
            forall|k: int| 0 <= k < i ==> byte_len(#[trigger] texts(buf@)[k]) <= LONG_FRAGMENT,
        decreases n - i,
    {
        let fragment = buf[i].as_str();
        assert(texts(buf@)[i as int] == fragment@);
        if byte_length(fragment) > LONG_FRAGMENT {
            return true;
        }
        i += 1;
    }
    false
}

/// Text fragments waiting to be spoken, with the flag that says a sentence is complete.
pub struct VoiceBuffer {
    fragments: Vec<String>,
    ready: bool,
}

impl View for VoiceBuffer {
    type V = VoiceBufferModel;

    closed spec fn view(&self) -> VoiceBufferModel {
        VoiceBufferModel { fragments: texts(self.fragments@), ready: self.ready }
    }
}

impl VoiceBuffer {
    /// An empty buffer.
    pub fn new() -> (r: VoiceBuffer)
        ensures
            r@ == VoiceBufferModel::empty(),
    {
        let r = VoiceBuffer { fragments: Vec::new(), ready: false };
        assert(texts(r.fragments@) =~= Seq::empty());
        r
    }

    /// The number of buffered fragments.
    pub fn len(&self) -> (n: usize)
        ensures
            n == self@.fragments.len(),
    {
        self.fragments.len()
    }

    /// Whether a complete sentence is waiting.
    pub fn is_ready(&self) -> (r: bool)
        ensures
            r == self@.ready,
    {
        self.ready
    }

    /// Appends `fragment`; the buffer becomes ready when the fragment
    /// completes a sentence of what was buffered before.
    pub fn push(&mut self, fragment: String)
        ensures
            final(self)@ == old(self)@.push(fragment@),
    {
        let completes = check_buf(&self.fragments) && sentence_end(fragment.as_str());
        self.fragments.push(fragment);
        if completes {
            self.ready = true;
        }
        assert(texts(self.fragments@) =~= texts(old(self).fragments@).push(fragment@));
    }

    /// Takes the text to speak out of a ready buffer and empties it. A
    /// buffer that is not ready is left as it is.
    pub fn take_ready(&mut self) -> (r: Option<String>)
        ensures
            opt_text(r) == old(self)@.due(),
            final(self)@ == old(self)@.taken(),
    {
        if self.ready {
            let text = join(&self.fragments, " ");
            proof {
                reveal_strlit(" ");
                assert(" "@ =~= seq![' ']);
            }
            self.fragments.clear();
            self.ready = false;
            assert(texts(self.fragments@) =~= Seq::empty());
            Some(text)
        } else {
            None
        }
    }
}

/// The speech session: credentials and the buffer of pending text.
pub struct VoiceSession {
    key: Option<String>,
    voice: Option<String>,
    buffer: VoiceBuffer,
}

impl View for VoiceSession {
    type V = VoiceSessionModel;

    closed spec fn view(&self) -> VoiceSessionModel {
        VoiceSessionModel {
            key: opt_text(self.key),
            voice: opt_text(self.voice),
            buffer: self.buffer@,
        }
    }
}

impl VoiceSession {
    /// A fresh session: no key, no voice, nothing buffered.
    pub fn new() -> (r: VoiceSession)
        ensures
            r@ == VoiceSessionModel::initial(),
    {
        VoiceSession { key: None, voice: None, buffer: VoiceBuffer::new() }
    }

    /// The number of fragments waiting to be spoken.
    pub fn pending(&self) -> (n: usize)
        ensures
            n == self@.buffer.fragments.len(),
    {
        self.buffer.len()
    }

    /// Handles one command and says what the driver must do.
    ///
    /// `SetKey` and `SetVoice` store their argument. `Read` before both are
    /// set reports an error and drops the fragment. Otherwise the fragment
    /// is buffered, and when it completes a sentence the whole buffer is
    /// handed out for synthesis and emptied.
    pub fn handle(&mut self, cmd: VoiceCommand) -> (act: VoiceAction)
        ensures
            final(self)@ == old(self)@.next(cmd@),
            act@ == old(self)@.action(cmd@),
    {
        match cmd {
            VoiceCommand::SetKey(k) => {
                self.key = Some(k);
                VoiceAction::Idle
            },
            VoiceCommand::SetVoice(v) => {
                self.voice = Some(v);
                VoiceAction::Idle
            },
            VoiceCommand::Read(s) => {
                let credentials = match (&self.key, &self.voice) {
                    (Some(k), Some(v)) => Some((k.clone(), v.clone())),
                    _ => None,
                };
                match credentials {
                    None => VoiceAction::Report(
                        VoiceEvent::Error(String::from_str("No key/voice no read")),
                    ),
                    Some((key, voice)) => {
                        self.buffer.push(s);
                        match self.buffer.take_ready() {
                            Some(text) => VoiceAction::Speak { key, voice, text },
                            None => VoiceAction::Idle,
                        }
                    },
                }
            },
        }
    }

    /// Turns the outcome of a synthesis into the event to report, if any.
    pub fn spoken(outcome: Result<(), String>) -> (e: Option<VoiceEvent>)
        ensures
            opt_event(e) == spoken_event(done_text(outcome)),
    {
        match outcome {
            Ok(_) => None,
            Err(message) => Some(VoiceEvent::Error(message)),
        }
    }
}

/// A well-formed session stays well-formed under every command.
pub proof fn law_session_stays_well_formed(s: VoiceSessionModel, cmd: VoiceCommandModel)
    requires
        s.wf(),
    ensures
        s.next(cmd).wf(),
{
}

/// On a configured session a `Read` has the buffer spoken if and only if
/// the fragment completes a sentence of what was buffered before it. What
/// is spoken then is the buffer with the fragment appended, joined by
/// single spaces, and the buffer is empty afterwards. In every other case
/// nothing is spoken and the fragment joins the buffer.
pub proof fn law_speaks_iff_sentence_complete(s: VoiceSessionModel, fragment: Seq<char>)
    requires
        s.wf(),
        s.configured(),
    ensures
        s.action(VoiceCommandModel::Read(fragment)) is Speak <==> completes_sentence(
            s.buffer.fragments,
            fragment,
        ),
        completes_sentence(s.buffer.fragments, fragment) ==> {
            &&& s.action(VoiceCommandModel::Read(fragment)) == (VoiceActionModel::Speak {
                key: s.key->0,
                voice: s.voice->0,
                text: spoken_text(s.buffer.fragments.push(fragment)),
            })
            &&& s.next(VoiceCommandModel::Read(fragment)).buffer == VoiceBufferModel::empty()
        },
        !completes_sentence(s.buffer.fragments, fragment) ==> {
            &&& s.action(VoiceCommandModel::Read(fragment)) == VoiceActionModel::Idle
            &&& s.next(VoiceCommandModel::Read(fragment)).buffer.fragments
                == s.buffer.fragments.push(fragment)
        },
{
}

/// Without key or voice a `Read` is answered with an error and changes nothing.
pub proof fn law_unconfigured_read_is_dropped(s: VoiceSessionModel, fragment: Seq<char>)
    requires
        !s.configured(),
    ensures
        s.action(VoiceCommandModel::Read(fragment)) == VoiceActionModel::Report(
            VoiceEventModel::Error(not_configured_text()),
        ),
        s.next(VoiceCommandModel::Read(fragment)) == s,
{
}

impl Clone for VoiceCommand {
    fn clone(&self) -> (r: Self)
        ensures
            r@ == self@,
    {
        match self {
            VoiceCommand::SetKey(k) => VoiceCommand::SetKey(k.clone()),
            VoiceCommand::SetVoice(v) => VoiceCommand::SetVoice(v.clone()),
            VoiceCommand::Read(s) => VoiceCommand::Read(s.clone()),
        }
    }
}

impl Clone for VoiceEvent {
    fn clone(&self) -> (r: Self)
        ensures
            r@ == self@,
    {
        match self {
            VoiceEvent::Ready => VoiceEvent::Ready,
            VoiceEvent::Error(e) => VoiceEvent::Error(e.clone()),
            VoiceEvent::Finished => VoiceEvent::Finished,
        }
    }
}

} // verus!
