//! What a caller asks for, and the decode configuration a job runs with.

use vstd::prelude::*;
use crate::error::RequestError;

verus! {

/// A single-precision real carried by its IEEE-754 bit pattern. The library
/// never computes with it; it hands the pattern through to the engine.
#[derive(Debug, Clone, Copy, PartialEq, Eq, Structural)]
pub struct Real32 {
    pub bits: u32,
}

/// The options of one transcription request, as the caller supplies them.
#[derive(Debug, Clone, PartialEq, Eq)]
pub struct TranscriptionOptions {
    pub audio_path: String,
    pub language: String,
    pub translate: bool,
    pub thread_count: i32,
    pub strategy: String,
    pub best_of: i32,
    pub beam_size: i32,
    pub temperature: Real32,
    pub initial_prompt: String,
    pub patience: Real32,
    pub split_on_word: bool,
    pub suppress_blank: bool,
    pub suppress_non_speech_tokens: bool,
    pub token_timestamps: bool,
    pub max_length: i32,
}

/// The search the engine uses to produce text.
#[derive(Debug, Clone, Copy, PartialEq, Eq, Structural)]
pub enum DecodingStrategy {
    Greedy { best_of: i32 },
    BeamSearch { beam_size: i32, patience: Real32 },
}

/// The decoding parameters of one job. Built once when the job is accepted
/// and not changed afterwards.
#[derive(Debug, Clone, PartialEq, Eq)]
pub struct DecodeConfiguration {
    pub strategy: DecodingStrategy,
    /// The target language; `None` leaves the engine's own choice in place.
    pub language: Option<String>,
    pub translate: bool,
    pub thread_count: i32,
    pub temperature: Real32,
    pub initial_prompt: String,
    pub split_on_word: bool,
    pub suppress_blank: bool,
    pub suppress_non_speech_tokens: bool,
    pub token_timestamps: bool,
    /// The maximum segment length; `None` leaves the engine's own limit.
    pub max_length: Option<i32>,
    /// Whether the engine prints progress to the console: never.
    pub print_progress: bool,
    /// Whether the engine prints results to the console as they come: never.
    pub print_realtime: bool,
}

/// Whether the UTF-8 form of `text` holds a zero byte. The engine takes its
/// texts zero-terminated, so such a text cannot be handed to it.
pub open spec fn holds_nul(text: Seq<char>) -> bool {
    vstd::utf8::encode_utf8(text).contains(0u8)
}

/// Options are well formed when the texts that go to the engine, the language
/// and the initial prompt, hold no zero byte.
pub open spec fn well_formed(options: TranscriptionOptions) -> bool {
    !holds_nul(options.language@) && !holds_nul(options.initial_prompt@)
}

/// Looks for a zero byte in the UTF-8 form of `text`.
pub fn text_holds_nul(text: &str) -> (found: bool)
    ensures
        found == holds_nul(text@),
{
    let bytes = text.as_bytes();
    let mut i: usize = 0;
    while i < bytes.len()
        invariant
            i <= bytes.len(),
            bytes@ == vstd::utf8::encode_utf8(text@),
            forall|j: int| 0 <= j < i ==> bytes@[j] != 0u8,
        decreases bytes.len() - i,
    {
        if bytes[i] == 0 {
            return true;
        }
        i += 1;
    }
    false
}

/// Beam search is chosen by the strategy name `beamSearch`; any other name
/// means greedy decoding.
pub open spec fn strategy_of(options: TranscriptionOptions) -> DecodingStrategy {
    if options.strategy@ == "beamSearch"@ {
        DecodingStrategy::BeamSearch { beam_size: options.beam_size, patience: options.patience }
    } else {
        DecodingStrategy::Greedy { best_of: options.best_of }
    }
}

/// The language name `auto` sets no language; any other name is passed on.
pub open spec fn language_of(options: TranscriptionOptions) -> Option<String> {
    if options.language@ == "auto"@ {
        None
    } else {
        Some(options.language)
    }
}

/// A maximum segment length is set only when it is positive.
pub open spec fn max_length_of(options: TranscriptionOptions) -> Option<i32> {
    if options.max_length > 0 {
        Some(options.max_length)
    } else {
        None
    }
}

/// The decode configuration that a request's options stand for.
pub open spec fn configuration_of(options: TranscriptionOptions) -> DecodeConfiguration {
    DecodeConfiguration {
        strategy: strategy_of(options),
        language: language_of(options),
        translate: options.translate,
        thread_count: options.thread_count,
        temperature: options.temperature,
        initial_prompt: options.initial_prompt,
        split_on_word: options.split_on_word,
        suppress_blank: options.suppress_blank,
        suppress_non_speech_tokens: options.suppress_non_speech_tokens,
        token_timestamps: options.token_timestamps,
        max_length: max_length_of(options),
        print_progress: false,
        print_realtime: false,
    }
}

impl DecodeConfiguration {
    /// Builds the decode configuration of a job from the caller's options,
    /// or refuses options that are not well formed.
    pub fn from_options(options: &TranscriptionOptions) -> (built: Result<Self, RequestError>)
        ensures
            match built {
                Ok(configuration) => well_formed(*options) && configuration == configuration_of(
                    *options,
                ),
                Err(e) => !well_formed(*options) && e == RequestError::MalformedOptions,
            },
    {
        if text_holds_nul(options.language.as_str()) || text_holds_nul(
            options.initial_prompt.as_str(),
        ) {
            return Err(RequestError::MalformedOptions);
        }
        let beam_search = String::from_str("beamSearch");
        let strategy = if options.strategy == beam_search {
            DecodingStrategy::BeamSearch {
                beam_size: options.beam_size,
                patience: options.patience,
            }
        } else {
            DecodingStrategy::Greedy { best_of: options.best_of }
        };
        let auto = String::from_str("auto");
        let language = if options.language == auto {
            None
        } else {
            Some(options.language.clone())
        };
        let max_length = if options.max_length > 0 {
            Some(options.max_length)
        } else {
            None
        };
        Ok(DecodeConfiguration {
            strategy,
            language,
            translate: options.translate,
            thread_count: options.thread_count,
            temperature: options.temperature,
            initial_prompt: options.initial_prompt.clone(),
            split_on_word: options.split_on_word,
            suppress_blank: options.suppress_blank,
            suppress_non_speech_tokens: options.suppress_non_speech_tokens,
            token_timestamps: options.token_timestamps,
            max_length,
            print_progress: false,
            print_realtime: false,
        })
    }
}

} // verus!
