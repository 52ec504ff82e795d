use aivchat::recorder::{
    failure, DeviceReply, DeviceRequest, RecEvent, RecState, RecorderPhase, RecorderStep,
    RecordingSession, DEFAULT_DEVICE,
};

fn running(device: i32) -> RecordingSession {
    let mut session = RecordingSession::new(device);
    assert_eq!(session.pending(), DeviceRequest::Open(device));
    assert_eq!(
        session.step(DeviceReply::Opened(Ok(16000))),
        RecorderStep { event: Some(RecEvent::SetSampleRate(16000)), request: DeviceRequest::Start }
    );
    assert_eq!(
        session.step(DeviceReply::Started(Ok(()))),
        RecorderStep { event: None, request: DeviceRequest::NextCommand }
    );
    session
}

#[test]
fn session_opens_announces_and_starts() {
    let session = running(3);
    assert_eq!(session.device(), 3);
    assert_eq!(session.phase(), RecorderPhase::Polling);
}

#[test]
fn session_can_start_on_the_default_device() {
    assert_eq!(DEFAULT_DEVICE, -1);
    let session = RecordingSession::new(DEFAULT_DEVICE);
    assert_eq!(session.pending(), DeviceRequest::Open(-1));
}

#[test]
fn chunk_is_read_and_passed_on_when_no_command_waits() {
    let mut session = running(0);
    assert_eq!(
        session.step(DeviceReply::NoCommand),
        RecorderStep { event: None, request: DeviceRequest::Read }
    );
    assert_eq!(
        session.step(DeviceReply::Frame(vec![1, -2, 3])),
        RecorderStep {
            event: Some(RecEvent::Sending(vec![1, -2, 3])),
            request: DeviceRequest::NextCommand,
        }
    );
}

#[test]
fn switching_reopens_the_named_device() {
    let mut session = running(0);
    assert_eq!(
        session.step(DeviceReply::Command(RecState::Recording(2))),
        RecorderStep { event: None, request: DeviceRequest::Stop }
    );
    assert_eq!(session.device(), 0);
    assert_eq!(
        session.step(DeviceReply::Stopped(Ok(()))),
        RecorderStep { event: None, request: DeviceRequest::Open(2) }
    );
    assert_eq!(
        session.step(DeviceReply::Opened(Ok(44100))),
        RecorderStep { event: Some(RecEvent::SetSampleRate(44100)), request: DeviceRequest::Start }
    );
    assert_eq!(session.device(), 2);
    assert_eq!(
        session.step(DeviceReply::Started(Ok(()))),
        RecorderStep { event: None, request: DeviceRequest::NextCommand }
    );
}

#[test]
fn same_device_and_stop_change_nothing() {
    let mut session = running(1);
    assert_eq!(
        session.step(DeviceReply::Command(RecState::Recording(1))),
        RecorderStep { event: None, request: DeviceRequest::NextCommand }
    );
    assert_eq!(
        session.step(DeviceReply::Command(RecState::Stopped)),
        RecorderStep { event: None, request: DeviceRequest::NextCommand }
    );
    assert_eq!(
        session.step(DeviceReply::Closed),
        RecorderStep { event: None, request: DeviceRequest::NextCommand }
    );
    assert_eq!(session.device(), 1);
    assert_eq!(session.phase(), RecorderPhase::Polling);
}

#[test]
fn device_failures_are_reported_and_the_loop_goes_on() {
    let mut session = running(0);
    session.step(DeviceReply::Command(RecState::Recording(5)));
    assert_eq!(
        session.step(DeviceReply::Stopped(Err("stop failed".to_string()))),
        RecorderStep {
            event: Some(RecEvent::Error("stop failed".to_string())),
            request: DeviceRequest::Open(5),
        }
    );
    assert_eq!(
        session.step(DeviceReply::Opened(Err("no such device".to_string()))),
        RecorderStep {
            event: Some(RecEvent::Error("no such device".to_string())),
            request: DeviceRequest::NextCommand,
        }
    );
    // the device held before is still the one held
    assert_eq!(session.device(), 0);
    // asking for it again is tried again
    assert_eq!(
        session.step(DeviceReply::Command(RecState::Recording(5))),
        RecorderStep { event: None, request: DeviceRequest::Stop }
    );
}

#[test]
fn start_failure_is_reported() {
    let mut session = RecordingSession::new(0);
    session.step(DeviceReply::Opened(Ok(8000)));
    assert_eq!(
        session.step(DeviceReply::Started(Err("busy".to_string()))),
        RecorderStep {
            event: Some(RecEvent::Error("busy".to_string())),
            request: DeviceRequest::NextCommand,
        }
    );
}

#[test]
fn reply_to_another_operation_is_ignored() {
    let mut session = running(0);
    assert_eq!(
        session.step(DeviceReply::Frame(vec![9])),
        RecorderStep { event: None, request: DeviceRequest::NextCommand }
    );
    assert_eq!(
        session.step(DeviceReply::Opened(Ok(1))),
        RecorderStep { event: None, request: DeviceRequest::NextCommand }
    );
    assert_eq!(session.device(), 0);
    let mut opening = RecordingSession::new(4);
    assert_eq!(
        opening.step(DeviceReply::NoCommand),
        RecorderStep { event: None, request: DeviceRequest::Open(4) }
    );
}

#[test]
fn failure_turns_an_error_into_an_event() {
    assert_eq!(failure(Ok(())), None);
    assert_eq!(failure(Err("e".to_string())), Some(RecEvent::Error("e".to_string())));
}

#[test]
fn capture_state_defaults_to_stopped() {
    assert_eq!(RecState::default(), RecState::Stopped);
    let event = RecEvent::Sending(vec![1, 2]);
    assert_eq!(event.clone(), event);
}
