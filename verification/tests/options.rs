use transcription::error::{JobError, ModelLoadError, RequestError};
use transcription::event::Event;
use transcription::job::{transcribe, JobController};
use transcription::job::JobPhase;
use transcription::options::{
    text_holds_nul, DecodeConfiguration, DecodingStrategy, Real32, TranscriptionOptions,
};
use transcription::token::CancellationToken;

fn base() -> TranscriptionOptions {
    TranscriptionOptions {
        audio_path: String::from("/audio/talk.wav"),
        language: String::from("de"),
        translate: true,
        thread_count: 8,
        strategy: String::from("beamSearch"),
        best_of: 3,
        beam_size: 7,
        temperature: Real32 { bits: 0x3e4c_cccd },
        initial_prompt: String::from("Meeting notes."),
        patience: Real32 { bits: 0x3f80_0000 },
        split_on_word: true,
        suppress_blank: false,
        suppress_non_speech_tokens: true,
        token_timestamps: true,
        max_length: 42,
    }
}

#[test]
fn beam_search_configuration_carries_every_option() {
    let configuration = DecodeConfiguration::from_options(&base());
    assert_eq!(
        configuration,
        Ok(DecodeConfiguration {
            strategy: DecodingStrategy::BeamSearch {
                beam_size: 7,
                patience: Real32 { bits: 0x3f80_0000 },
            },
            language: Some(String::from("de")),
            translate: true,
            thread_count: 8,
            temperature: Real32 { bits: 0x3e4c_cccd },
            initial_prompt: String::from("Meeting notes."),
            split_on_word: true,
            suppress_blank: false,
            suppress_non_speech_tokens: true,
            token_timestamps: true,
            max_length: Some(42),
            print_progress: false,
            print_realtime: false,
        })
    );
}

#[test]
fn any_other_strategy_name_is_greedy() {
    for name in ["greedy", "", "BeamSearch", "beamsearch", "beamSearch "] {
        let mut options = base();
        options.strategy = String::from(name);
        let configuration = DecodeConfiguration::from_options(&options).unwrap();
        assert_eq!(configuration.strategy, DecodingStrategy::Greedy { best_of: 3 });
    }
}

#[test]
fn language_auto_sets_no_language() {
    let mut options = base();
    options.language = String::from("auto");
    assert_eq!(DecodeConfiguration::from_options(&options).unwrap().language, None);
    options.language = String::from("Auto");
    assert_eq!(
        DecodeConfiguration::from_options(&options).unwrap().language,
        Some(String::from("Auto"))
    );
}

#[test]
fn max_length_is_set_only_when_positive() {
    let mut options = base();
    options.max_length = 1;
    assert_eq!(DecodeConfiguration::from_options(&options).unwrap().max_length, Some(1));
    options.max_length = 0;
    assert_eq!(DecodeConfiguration::from_options(&options).unwrap().max_length, None);
    options.max_length = -5;
    assert_eq!(DecodeConfiguration::from_options(&options).unwrap().max_length, None);
    options.max_length = i32::MAX;
    assert_eq!(DecodeConfiguration::from_options(&options).unwrap().max_length, Some(i32::MAX));
}

#[test]
fn console_output_is_always_off() {
    let configuration = DecodeConfiguration::from_options(&base()).unwrap();
    assert!(!configuration.print_progress);
    assert!(!configuration.print_realtime);
}

#[test]
fn accepted_request_returns_the_job_configuration() {
    let mut controller = JobController::new();
    let accepted = transcribe(&base(), &mut controller);
    assert_eq!(accepted, DecodeConfiguration::from_options(&base()));
    assert!(accepted.is_ok());
}

#[test]
fn zero_bytes_are_found_in_text() {
    assert!(!text_holds_nul(""));
    assert!(!text_holds_nul("en"));
    assert!(!text_holds_nul("Gr\u{fc}\u{df}e, \u{4e16}\u{754c} \u{1f600}"));
    assert!(text_holds_nul("\0"));
    assert!(text_holds_nul("en\0"));
    assert!(text_holds_nul("a\0b"));
}

#[test]
fn options_with_a_zero_byte_are_malformed() {
    let mut options = base();
    options.initial_prompt = String::from("Meeting\0notes.");
    assert_eq!(
        DecodeConfiguration::from_options(&options),
        Err(RequestError::MalformedOptions)
    );
    let mut options = base();
    options.language = String::from("\0de");
    assert_eq!(
        DecodeConfiguration::from_options(&options),
        Err(RequestError::MalformedOptions)
    );
    let mut options = base();
    options.audio_path = String::from("a\0.wav");
    options.strategy = String::from("beam\0Search");
    assert!(DecodeConfiguration::from_options(&options).is_ok());
}

#[test]
fn malformed_request_is_refused_and_changes_nothing() {
    let mut options = base();
    options.initial_prompt = String::from("\0");
    let mut controller = JobController::new();
    controller.cancel();
    assert_eq!(transcribe(&options, &mut controller), Err(RequestError::MalformedOptions));
    assert_eq!(controller.phase(), JobPhase::Idle);
    assert!(controller.should_abort());
    assert!(transcribe(&base(), &mut controller).is_ok());
    assert!(controller.launch());
    assert_eq!(transcribe(&options, &mut controller), Err(RequestError::MalformedOptions));
    assert_eq!(transcribe(&base(), &mut controller), Err(RequestError::JobAlreadyRunning));
    assert_eq!(controller.phase(), JobPhase::Running);
}

#[test]
fn job_error_messages() {
    assert_eq!(
        JobError::ModelNotLoaded.message(),
        "Model not loaded. Please load a model first."
    );
    assert_eq!(
        JobError::StateCreation { detail: String::from("InitError") }.message(),
        "Failed to create state: InitError"
    );
    assert_eq!(
        JobError::AudioDecode { path: String::from("a b.wav"), detail: String::from("bad") }
            .message(),
        "Failed to open audio file 'a b.wav': bad"
    );
    assert_eq!(
        JobError::Inference { detail: String::from("GenericError(-7)") }.message(),
        "Transcription failed: GenericError(-7)"
    );
}

#[test]
fn model_load_and_request_error_messages() {
    assert_eq!(
        ModelLoadError { detail: String::from("InitError") }.message(),
        "Failed to load model: InitError"
    );
    assert_eq!(
        RequestError::JobAlreadyRunning.message(),
        "A transcription job is already running."
    );
    assert_eq!(
        RequestError::MalformedOptions.message(),
        "Malformed options: the language and the initial prompt must not contain a NUL byte."
    );
}

#[test]
fn event_names() {
    assert_eq!(Event::Progress { progress: 1 }.name(), "transcribe_progress");
    assert_eq!(
        Event::Segment { start: 0, end: 1, text: String::new() }.name(),
        "new_segment"
    );
    assert_eq!(Event::Completed.name(), "transcribe_completed");
    assert_eq!(Event::Cancelled.name(), "transcribe_cancelled");
    assert_eq!(Event::Error { message: String::new() }.name(), "transcribe_error");
}

#[test]
fn terminal_events_are_the_three_outcomes() {
    assert!(!Event::Progress { progress: 100 }.is_terminal());
    assert!(!Event::Segment { start: 0, end: 1, text: String::new() }.is_terminal());
    assert!(Event::Completed.is_terminal());
    assert!(Event::Cancelled.is_terminal());
    assert!(Event::Error { message: String::new() }.is_terminal());
}

#[test]
fn token_is_raised_until_reset() {
    let mut token = CancellationToken::new();
    assert!(!token.check());
    token.raise();
    assert!(token.check());
    token.raise();
    assert!(token.check());
    token.reset();
    assert!(!token.check());
}
