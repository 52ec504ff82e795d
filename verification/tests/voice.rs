use aivchat::voice::{
    check_buf, sentence_end, VoiceAction, VoiceBuffer, VoiceCommand, VoiceEvent, VoiceSession,
};

fn configured() -> VoiceSession {
    let mut session = VoiceSession::new();
    assert_eq!(session.handle(VoiceCommand::SetKey("k".to_string())), VoiceAction::Idle);
    assert_eq!(session.handle(VoiceCommand::SetVoice("v".to_string())), VoiceAction::Idle);
    session
}

fn read(session: &mut VoiceSession, text: &str) -> VoiceAction {
    session.handle(VoiceCommand::Read(text.to_string()))
}

fn strings(items: &[&str]) -> Vec<String> {
    items.iter().map(|s| s.to_string()).collect()
}

#[test]
fn sentence_triggers_one_synthesis_and_clears_the_buffer() {
    let mut session = configured();
    assert_eq!(read(&mut session, "Hello"), VoiceAction::Idle);
    assert_eq!(read(&mut session, "world"), VoiceAction::Idle);
    assert_eq!(
        read(&mut session, "."),
        VoiceAction::Speak {
            key: "k".to_string(),
            voice: "v".to_string(),
            text: "Hello world .".to_string(),
        }
    );
    assert_eq!(session.pending(), 0);
}

#[test]
fn short_buffer_does_not_trigger() {
    let mut session = configured();
    assert_eq!(read(&mut session, "Hi"), VoiceAction::Idle);
    assert_eq!(read(&mut session, "."), VoiceAction::Idle);
    assert_eq!(session.pending(), 2);
}

#[test]
fn buffer_without_a_long_fragment_does_not_trigger() {
    let mut session = configured();
    assert_eq!(read(&mut session, "Hi"), VoiceAction::Idle);
    assert_eq!(read(&mut session, "you"), VoiceAction::Idle);
    assert_eq!(read(&mut session, "."), VoiceAction::Idle);
    assert_eq!(session.pending(), 3);
}

#[test]
fn only_a_bare_full_stop_ends_a_sentence() {
    let mut session = configured();
    assert_eq!(read(&mut session, "Hello"), VoiceAction::Idle);
    assert_eq!(read(&mut session, "world"), VoiceAction::Idle);
    assert_eq!(read(&mut session, "!"), VoiceAction::Idle);
    assert_eq!(read(&mut session, " ."), VoiceAction::Idle);
    assert_eq!(read(&mut session, ".."), VoiceAction::Idle);
    assert_eq!(session.pending(), 5);
}

#[test]
fn ideographic_full_stop_ends_a_sentence() {
    let mut session = configured();
    assert_eq!(read(&mut session, "你好"), VoiceAction::Idle);
    assert_eq!(read(&mut session, "世界"), VoiceAction::Idle);
    assert_eq!(
        read(&mut session, "。"),
        VoiceAction::Speak {
            key: "k".to_string(),
            voice: "v".to_string(),
            text: "你好 世界 。".to_string(),
        }
    );
    assert_eq!(session.pending(), 0);
}

#[test]
fn later_sentence_is_spoken_without_the_earlier_one() {
    let mut session = configured();
    read(&mut session, "Hello");
    read(&mut session, "world");
    assert!(matches!(read(&mut session, "."), VoiceAction::Speak { .. }));
    assert_eq!(read(&mut session, "Second"), VoiceAction::Idle);
    assert_eq!(read(&mut session, "part"), VoiceAction::Idle);
    assert_eq!(
        read(&mut session, "."),
        VoiceAction::Speak {
            key: "k".to_string(),
            voice: "v".to_string(),
            text: "Second part .".to_string(),
        }
    );
}

#[test]
fn read_without_key_or_voice_reports_an_error() {
    let error = VoiceAction::Report(VoiceEvent::Error("No key/voice no read".to_string()));
    let mut session = VoiceSession::new();
    assert_eq!(read(&mut session, "Hello"), error);
    assert_eq!(session.pending(), 0);
    session.handle(VoiceCommand::SetKey("k".to_string()));
    assert_eq!(read(&mut session, "Hello"), error);
    assert_eq!(session.pending(), 0);
    let mut other = VoiceSession::new();
    other.handle(VoiceCommand::SetVoice("v".to_string()));
    assert_eq!(read(&mut other, "Hello"), error);
    assert_eq!(other.pending(), 0);
}

#[test]
fn latest_key_and_voice_are_used() {
    let mut session = configured();
    session.handle(VoiceCommand::SetKey("k2".to_string()));
    session.handle(VoiceCommand::SetVoice("v2".to_string()));
    read(&mut session, "Hello");
    read(&mut session, "world");
    assert_eq!(
        read(&mut session, "."),
        VoiceAction::Speak {
            key: "k2".to_string(),
            voice: "v2".to_string(),
            text: "Hello world .".to_string(),
        }
    );
}

#[test]
fn check_buf_wants_two_fragments_and_a_long_one() {
    assert!(!check_buf(&strings(&[])));
    assert!(!check_buf(&strings(&["Hello"])));
    assert!(!check_buf(&strings(&["Hi", "you"])));
    assert!(!check_buf(&strings(&["four", "four"])));
    assert!(check_buf(&strings(&["Hi", "there"])));
    assert!(check_buf(&strings(&["Hello", "a"])));
    // length is counted in bytes: two ideographs are six bytes
    assert!(check_buf(&strings(&["你好", "a"])));
}

#[test]
fn sentence_end_is_one_of_two_tokens() {
    assert!(sentence_end("."));
    assert!(sentence_end("。"));
    assert!(!sentence_end(""));
    assert!(!sentence_end("!"));
    assert!(!sentence_end(". "));
}

#[test]
fn buffer_becomes_ready_and_is_taken_once() {
    let mut buffer = VoiceBuffer::new();
    assert_eq!(buffer.take_ready(), None);
    buffer.push("Hello".to_string());
    buffer.push("world".to_string());
    assert!(!buffer.is_ready());
    buffer.push(".".to_string());
    assert!(buffer.is_ready());
    assert_eq!(buffer.len(), 3);
    assert_eq!(buffer.take_ready(), Some("Hello world .".to_string()));
    assert!(!buffer.is_ready());
    assert_eq!(buffer.len(), 0);
    assert_eq!(buffer.take_ready(), None);
}

#[test]
fn synthesis_failure_is_reported_and_success_is_silent() {
    assert_eq!(VoiceSession::spoken(Ok(())), None);
    assert_eq!(
        VoiceSession::spoken(Err("quota exceeded".to_string())),
        Some(VoiceEvent::Error("quota exceeded".to_string()))
    );
}

#[test]
fn voice_commands_and_events_can_be_copied() {
    let command = VoiceCommand::Read("text".to_string());
    assert_eq!(command.clone(), command);
    let event = VoiceEvent::Error("e".to_string());
    assert_eq!(event.clone(), event);
}
