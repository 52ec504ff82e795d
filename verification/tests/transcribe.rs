use aivchat::transcribe::{check_samples, finish, transcript, TranscribeError};

fn strings(items: &[&str]) -> Vec<String> {
    items.iter().map(|s| s.to_string()).collect()
}

#[test]
fn empty_recording_is_an_error() {
    assert_eq!(check_samples(0), Err(TranscribeError::NoSamples));
    assert_eq!(finish(0, Ok(strings(&["text"]))), Err(TranscribeError::NoSamples));
    assert_eq!(finish(0, Ok(vec![])), Err(TranscribeError::NoSamples));
    assert_eq!(finish(0, Err("engine".to_string())), Err(TranscribeError::NoSamples));
}

#[test]
fn recording_with_samples_is_accepted() {
    assert_eq!(check_samples(1), Ok(()));
    assert_eq!(check_samples(usize::MAX), Ok(()));
}

#[test]
fn segments_are_concatenated_without_separators() {
    assert_eq!(transcript(&strings(&[" Hello", " world.", " Bye."])), " Hello world. Bye.");
    assert_eq!(transcript(&strings(&[])), "");
    assert_eq!(transcript(&strings(&["", ""])), "");
    assert_eq!(
        finish(3072, Ok(strings(&[" Hello", " world."]))),
        Ok(" Hello world.".to_string())
    );
}

#[test]
fn engine_failure_is_passed_on_whole() {
    assert_eq!(
        finish(16, Err("failed to load model".to_string())),
        Err(TranscribeError::Engine("failed to load model".to_string()))
    );
}

#[test]
fn errors_have_a_message() {
    assert_eq!(TranscribeError::NoSamples.message(), "no samples to transcribe");
    assert_eq!(TranscribeError::Engine("decode failed".to_string()).message(), "decode failed");
}
