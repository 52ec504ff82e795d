//! The recording session: keeps one capture device running, hands on the
//! chunks it reads, and switches devices on command.
//!
//! The session never touches a device. It tells its driver which device
//! operation comes next, and the driver reports how the operation ended.

use crate::text::done_text;
use vstd::prelude::*;

verus! {

/// The index that stands for the system's default capture device.
pub const DEFAULT_DEVICE: i32 = -1;

/// The capture state that the coordinator asks for.
#[derive(Debug, Clone, Copy, PartialEq, Eq, Structural)]
pub enum RecState {
    /// Capture from the device with this index.
    Recording(i32),
    Stopped,
}

impl Default for RecState {
    fn default() -> (r: Self)
        ensures
            r == RecState::Stopped,
    {
        RecState::Stopped
    }
}

/// Events the recording session reports.
#[derive(Debug, PartialEq, Eq)]
pub enum RecEvent {
    /// One chunk of samples was captured.
    Sending(Vec<i16>),
    Ready,
    /// The device that was opened captures at this rate.
    SetSampleRate(usize),
    /// A device operation failed.
    Error(String),
}

/// The operation that the driver carries out next.
#[derive(Debug, Clone, Copy, PartialEq, Eq, Structural)]
pub enum DeviceRequest {
    /// Open the device with this index in place of the one held so far.
    Open(i32),
    /// Start capturing on the device that is held.
    Start,
    /// Stop capturing on the device that is held.
    Stop,
    /// Read one chunk of samples, blocking until it is there.
    Read,
    /// Look for a pending command without blocking.
    NextCommand,
}

/// How the operation that the driver carried out ended.
#[derive(Debug, PartialEq, Eq)]
pub enum DeviceReply {
    /// The device was opened and reports its sample rate, or could not be opened.
    Opened(Result<usize, String>),
    Started(Result<(), String>),
    Stopped(Result<(), String>),
    /// The chunk that was read.
    Frame(Vec<i16>),
    /// The command that was pending.
    Command(RecState),
    /// No command was pending.
    NoCommand,
    /// The command channel has no sender left.
    Closed,
}

/// What a step of the session yields: an event to pass on, if any, and the next operation.
#[derive(Debug, PartialEq, Eq)]
pub struct RecorderStep {
    pub event: Option<RecEvent>,
    pub request: DeviceRequest,
}

/// Which reply the session is waiting for.
#[derive(Debug, Clone, Copy, PartialEq, Eq, Structural)]
pub enum RecorderPhase {
    /// The device with this index is being opened.
    Opening(i32),
    Starting,
    /// The held device is being stopped, to open the device with this index.
    Stopping(i32),
    /// The command queue is being looked at.
    Polling,
    Reading,
}

/// [`RecEvent`] over sequences.
pub enum RecEventModel {
    Sending(Seq<i16>),
    Ready,
    SetSampleRate(usize),
    Error(Seq<char>),
}

/// [`DeviceReply`] over sequences.
pub enum DeviceReplyModel {
    Opened(Result<usize, Seq<char>>),
    Started(Result<(), Seq<char>>),
    Stopped(Result<(), Seq<char>>),
    Frame(Seq<i16>),
    Command(RecState),
    NoCommand,
    Closed,
}

/// [`RecorderStep`] over sequences.
pub struct RecorderStepModel {
    pub event: Option<RecEventModel>,
    pub request: DeviceRequest,
}

/// The state of a [`RecordingSession`].
pub struct RecordingSessionModel {
    /// The index of the device that is held.
    pub device: i32,
    pub phase: RecorderPhase,
}

impl View for RecEvent {
    type V = RecEventModel;

    open spec fn view(&self) -> RecEventModel {
        match self {
            RecEvent::Sending(samples) => RecEventModel::Sending(samples@),
            RecEvent::Ready => RecEventModel::Ready,
            RecEvent::SetSampleRate(rate) => RecEventModel::SetSampleRate(*rate),
            RecEvent::Error(e) => RecEventModel::Error(e@),
        }
    }
}

/// The view of the outcome of opening a device.
pub open spec fn rate_text(outcome: Result<usize, String>) -> Result<usize, Seq<char>> {
    match outcome {
        Ok(rate) => Ok(rate),
        Err(e) => Err(e@),
    }
}

impl View for DeviceReply {
    type V = DeviceReplyModel;

    open spec fn view(&self) -> DeviceReplyModel {
        match self {
            DeviceReply::Opened(outcome) => DeviceReplyModel::Opened(rate_text(*outcome)),
            DeviceReply::Started(outcome) => DeviceReplyModel::Started(done_text(*outcome)),
            DeviceReply::Stopped(outcome) => DeviceReplyModel::Stopped(done_text(*outcome)),
            DeviceReply::Frame(samples) => DeviceReplyModel::Frame(samples@),
            DeviceReply::Command(state) => DeviceReplyModel::Command(*state),
            DeviceReply::NoCommand => DeviceReplyModel::NoCommand,
            DeviceReply::Closed => DeviceReplyModel::Closed,
        }
    }
}

/// The view of an optional event.
pub open spec fn opt_rec_event(e: Option<RecEvent>) -> Option<RecEventModel> {
    match e {
        Some(ev) => Some(ev@),
        None => None,
    }
}

impl View for RecorderStep {
    type V = RecorderStepModel;

    open spec fn view(&self) -> RecorderStepModel {
        RecorderStepModel { event: opt_rec_event(self.event), request: self.request }
    }
}

/// The event that reports a failed operation; a success is silent.
pub open spec fn failure_event(outcome: Result<(), Seq<char>>) -> Option<RecEventModel> {
    match outcome {
        Ok(_) => None,
        Err(e) => Some(RecEventModel::Error(e)),
    }
}

impl RecordingSessionModel {
    /// A session that is about to open `device`.
    pub open spec fn initial(device: i32) -> RecordingSessionModel {
        RecordingSessionModel { device, phase: RecorderPhase::Opening(device) }
    }

    /// The operation that the session is waiting for.
    pub open spec fn pending(self) -> DeviceRequest {
        match self.phase {
            RecorderPhase::Opening(device) => DeviceRequest::Open(device),
            RecorderPhase::Starting => DeviceRequest::Start,
            RecorderPhase::Stopping(_) => DeviceRequest::Stop,
            RecorderPhase::Polling => DeviceRequest::NextCommand,
            RecorderPhase::Reading => DeviceRequest::Read,
        }
    }

    /// The reply answers the operation that the session is waiting for.
    pub open spec fn expects(self, reply: DeviceReplyModel) -> bool {
        match self.phase {
            RecorderPhase::Opening(_) => reply is Opened,
            RecorderPhase::Starting => reply is Started,
            RecorderPhase::Stopping(_) => reply is Stopped,
            RecorderPhase::Polling => reply is Command || reply is NoCommand || reply is Closed,
            RecorderPhase::Reading => reply is Frame,
        }
    }

    /// The session after `reply`.
    ///
    /// A device that was opened becomes the held device and is started. A
    /// device that could not be opened leaves the held device as it was. A
    /// command that names another device than the held one has the held one
    /// stopped and the named one opened, whether or not the stop succeeds.
    /// With no command pending a chunk is read. A reply that answers
    /// another operation than the pending one changes nothing.
    pub open spec fn next(self, reply: DeviceReplyModel) -> RecordingSessionModel {
        match (self.phase, reply) {
            (RecorderPhase::Opening(device), DeviceReplyModel::Opened(Ok(_))) => {
                RecordingSessionModel { device, phase: RecorderPhase::Starting }
            },
            (RecorderPhase::Opening(_), DeviceReplyModel::Opened(Err(_))) => {
                RecordingSessionModel { phase: RecorderPhase::Polling, ..self }
            },
            (RecorderPhase::Starting, DeviceReplyModel::Started(_)) => {
                RecordingSessionModel { phase: RecorderPhase::Polling, ..self }
            },
            (RecorderPhase::Stopping(device), DeviceReplyModel::Stopped(_)) => {
                RecordingSessionModel { phase: RecorderPhase::Opening(device), ..self }
            },
            (RecorderPhase::Polling, DeviceReplyModel::Command(RecState::Recording(device))) => {
                if device != self.device {
                    RecordingSessionModel { phase: RecorderPhase::Stopping(device), ..self }
                } else {
                    self
                }
            },
            (RecorderPhase::Polling, DeviceReplyModel::NoCommand) => {
                RecordingSessionModel { phase: RecorderPhase::Reading, ..self }
            },
            (RecorderPhase::Reading, DeviceReplyModel::Frame(_)) => {
                RecordingSessionModel { phase: RecorderPhase::Polling, ..self }
            },
            _ => self,
        }
    }

    /// The event that `reply` makes the session report: the sample rate of
    /// a device that was opened, the failure of an operation, a chunk that
    /// was read.
    pub open spec fn event(self, reply: DeviceReplyModel) -> Option<RecEventModel> {
        match (self.phase, reply) {
            (RecorderPhase::Opening(_), DeviceReplyModel::Opened(Ok(rate))) => Some(
                RecEventModel::SetSampleRate(rate),
            ),
            (RecorderPhase::Opening(_), DeviceReplyModel::Opened(Err(e))) => Some(
                RecEventModel::Error(e),
            ),
            (RecorderPhase::Starting, DeviceReplyModel::Started(outcome)) => failure_event(outcome),
            (RecorderPhase::Stopping(_), DeviceReplyModel::Stopped(outcome)) => failure_event(
                outcome,
            ),
            (RecorderPhase::Reading, DeviceReplyModel::Frame(samples)) => Some(
                RecEventModel::Sending(samples),
            ),
            _ => None,
        }
    }

    /// What `reply` yields: the event, and the operation that the session waits for next.
    pub open spec fn step(self, reply: DeviceReplyModel) -> RecorderStepModel {
        RecorderStepModel { event: self.event(reply), request: self.next(reply).pending() }
    }
}

/// The recording session: the held device and the operation in flight.
pub struct RecordingSession {
    device: i32,
    phase: RecorderPhase,
}

impl View for RecordingSession {
    type V = RecordingSessionModel;

    closed spec fn view(&self) -> RecordingSessionModel {
        RecordingSessionModel { device: self.device, phase: self.phase }
    }
}

impl RecordingSession {
    /// A session that is about to open `device`.
    pub fn new(device: i32) -> (r: RecordingSession)
        ensures
            r@ == RecordingSessionModel::initial(device),
    {
        RecordingSession { device, phase: RecorderPhase::Opening(device) }
    }

    /// The index of the device that is held.
    pub fn device(&self) -> (r: i32)
        ensures
            r == self@.device,
    {
        self.device
    }

    /// Which reply the session is waiting for.
    pub fn phase(&self) -> (r: RecorderPhase)
        ensures
            r == self@.phase,
    {
        self.phase
    }

    /// The operation that the driver has to carry out now.
    pub fn pending(&self) -> (r: DeviceRequest)
        ensures
            r == self@.pending(),
    {
        match self.phase {
            RecorderPhase::Opening(device) => DeviceRequest::Open(device),
            RecorderPhase::Starting => DeviceRequest::Start,
            RecorderPhase::Stopping(_) => DeviceRequest::Stop,
            RecorderPhase::Polling => DeviceRequest::NextCommand,
            RecorderPhase::Reading => DeviceRequest::Read,
        }
    }

    /// Takes the reply to the pending operation and says what to report
    /// and which operation comes next.
    pub fn step(&mut self, reply: DeviceReply) -> (out: RecorderStep)
        ensures
            final(self)@ == old(self)@.next(reply@),
            out@ == old(self)@.step(reply@),
    {
        let event = match (self.phase, reply) {
            (RecorderPhase::Opening(device), DeviceReply::Opened(Ok(rate))) => {
                self.device = device;
                self.phase = RecorderPhase::Starting;
                Some(RecEvent::SetSampleRate(rate))
            },
            (RecorderPhase::Opening(_), DeviceReply::Opened(Err(message))) => {
                self.phase = RecorderPhase::Polling;
                Some(RecEvent::Error(message))
            },
            (RecorderPhase::Starting, DeviceReply::Started(outcome)) => {
                self.phase = RecorderPhase::Polling;
                failure(outcome)
            },
            (RecorderPhase::Stopping(device), DeviceReply::Stopped(outcome)) => {
                self.phase = RecorderPhase::Opening(device);
                failure(outcome)
            },
            (RecorderPhase::Polling, DeviceReply::Command(RecState::Recording(device))) => {
                if device != self.device {
                    self.phase = RecorderPhase::Stopping(device);
                }
                None
            },
            (RecorderPhase::Polling, DeviceReply::NoCommand) => {
                self.phase = RecorderPhase::Reading;
                None
            },
            (RecorderPhase::Reading, DeviceReply::Frame(samples)) => {
                self.phase = RecorderPhase::Polling;
                Some(RecEvent::Sending(samples))
            },
            _ => None,
        };
        RecorderStep { event, request: self.pending() }
    }
}

/// Turns the outcome of a device operation into the event that reports its failure, if it failed.
pub fn failure(outcome: Result<(), String>) -> (e: Option<RecEvent>)
    ensures
        opt_rec_event(e) == failure_event(done_text(outcome)),
{
    match outcome {
        Ok(_) => None,
        Err(message) => Some(RecEvent::Error(message)),
    }
}

/// The session always waits for exactly the operation it asked for last.
pub proof fn law_request_is_pending(s: RecordingSessionModel, reply: DeviceReplyModel)
    ensures
        s.step(reply).request == s.next(reply).pending(),
        !s.expects(reply) ==> s.next(reply) == s && s.event(reply) is None,
{
}

/// A command that names another device than the held one is followed by
/// these operations, in this order: stop, open the named device, start.
/// The index that is opened is the one the command named, the device held
/// afterwards is that one, and its sample rate is announced. Failures of
/// the stop or the start are reported and stop nothing.
pub proof fn law_switch_opens_named_device(
    s: RecordingSessionModel,
    device: i32,
    stopped: Result<(), Seq<char>>,
    rate: usize,
    started: Result<(), Seq<char>>,
)
    requires
        s.phase == RecorderPhase::Polling,
        device != s.device,
    ensures
        ({
            let s1 = s.next(DeviceReplyModel::Command(RecState::Recording(device)));
            let s2 = s1.next(DeviceReplyModel::Stopped(stopped));
            let s3 = s2.next(DeviceReplyModel::Opened(Ok(rate)));
            let s4 = s3.next(DeviceReplyModel::Started(started));
            &&& s1.pending() == DeviceRequest::Stop
            &&& s.event(DeviceReplyModel::Command(RecState::Recording(device))) is None
            &&& s2.pending() == DeviceRequest::Open(device)
            &&& s1.event(DeviceReplyModel::Stopped(stopped)) == failure_event(stopped)
            &&& s3.pending() == DeviceRequest::Start
            &&& s3.device == device
            &&& s2.event(DeviceReplyModel::Opened(Ok(rate))) == Some(
                RecEventModel::SetSampleRate(rate),
            )
            &&& s4.pending() == DeviceRequest::NextCommand
            &&& s4.device == device
            &&& s3.event(DeviceReplyModel::Started(started)) == failure_event(started)
        }),
{
}

/// A command that names the held device, or asks to stop, changes nothing.
pub proof fn law_same_device_is_kept(s: RecordingSessionModel)
    requires
        s.phase == RecorderPhase::Polling,
    ensures
        s.next(DeviceReplyModel::Command(RecState::Recording(s.device))) == s,
        s.next(DeviceReplyModel::Command(RecState::Stopped)) == s,
        s.next(DeviceReplyModel::Closed) == s,
{
}

/// A device that cannot be opened is reported, the held device stays the
/// held one, and the session goes on looking for commands.
pub proof fn law_failed_open_keeps_device(s: RecordingSessionModel, device: i32, e: Seq<char>)
    requires
        s.phase == RecorderPhase::Opening(device),
    ensures
        s.next(DeviceReplyModel::Opened(Err(e))).device == s.device,
        s.next(DeviceReplyModel::Opened(Err(e))).pending() == DeviceRequest::NextCommand,
        s.event(DeviceReplyModel::Opened(Err(e))) == Some(RecEventModel::Error(e)),
{
}

/// With no command pending one chunk is read, and the chunk that comes
/// back is passed on unchanged before the session looks for commands again.
pub proof fn law_chunk_is_passed_on(s: RecordingSessionModel, samples: Seq<i16>)
    requires
        s.phase == RecorderPhase::Polling,
    ensures
        ({
            let reading = s.next(DeviceReplyModel::NoCommand);
            &&& reading.pending() == DeviceRequest::Read
            &&& reading.event(DeviceReplyModel::Frame(samples)) == Some(
                RecEventModel::Sending(samples),
            )
            &&& reading.next(DeviceReplyModel::Frame(samples)) == s
        }),
{
}

impl Clone for RecEvent {
    fn clone(&self) -> (r: Self)
        ensures
            r@ == self@,
    {
        match self {
            RecEvent::Sending(samples) => {
                let copy = samples.clone();
                RecEvent::Sending(copy)
            },
            RecEvent::Ready => RecEvent::Ready,
            RecEvent::SetSampleRate(rate) => RecEvent::SetSampleRate(*rate),
            RecEvent::Error(e) => RecEvent::Error(e.clone()),
        }
    }
}

} // verus!
