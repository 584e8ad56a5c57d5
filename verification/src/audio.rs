//! Decoding of WAVE audio into 16-bit samples.

use vstd::prelude::*;
use crate::error::JobError;

verus! {

#[verifier::external_type_specification]
#[verifier::external_body]
pub struct ExWavError(hound::Error);

/// What reading `bytes` as a WAVE file gives: nothing if the header is not
/// accepted, else one entry for each sample the header announces, in file
/// order with channels interleaved, each the sample as a 16-bit integer or
/// nothing where it could not be read as one.
pub uninterp spec fn wav_samples(bytes: Seq<u8>) -> Option<Seq<Option<i16>>>;

/// Reads `bytes` with `hound::WavReader::new` and drains the reader's
/// `samples::<i16>()`. Trusted: the outcome depends on `bytes` alone, it is an
/// error exactly when `new` refuses the header, and otherwise it holds each
/// item the sample iterator yields, a failed read as `None`.
#[verifier::external_body]
fn read_wav(bytes: &[u8]) -> (outcome: Result<Vec<Option<i16>>, hound::Error>)
    ensures
        match outcome {
            Ok(reads) => wav_samples(bytes@) == Some(reads@),
            Err(_) => wav_samples(bytes@) is None,
        },
{
    let mut reader = hound::WavReader::new(bytes)?;
    Ok(reader.samples::<i16>().map(|sample| sample.ok()).collect())
}

/// Formats a `hound::Error` with its `Display` impl. Trusted, and nothing is
/// claimed of the text.
#[verifier::external_body]
fn wav_error_text(error: &hound::Error) -> (text: String) {
    format!("{}", error)
}

/// The samples that a sequence of reads stands for: a sample that could not
/// be read counts as silence.
pub open spec fn samples_of(reads: Seq<Option<i16>>) -> Seq<i16> {
    Seq::new(
        reads.len(),
        |i: int|
            match reads[i] {
                Some(sample) => sample,
                None => 0i16,
            },
    )
}

/// Replaces each sample that could not be read by silence.
pub fn samples_or_silence(reads: &Vec<Option<i16>>) -> (samples: Vec<i16>)
    ensures
        samples@ == samples_of(reads@),
{
    let mut samples: Vec<i16> = Vec::new();
    let mut i: usize = 0;
    while i < reads.len()
        invariant
            i <= reads.len(),
            samples@ == samples_of(reads@.take(i as int)),
        decreases reads.len() - i,
    {
        let sample: i16 = match reads[i] {
            Some(sample) => sample,
            None => 0,
        };
        samples.push(sample);
        i += 1;
        assert(samples@ =~= samples_of(reads@.take(i as int)));
    }
    assert(reads@.take(i as int) =~= reads@);
    samples
}

/// Decodes the WAVE file whose content is `bytes` into its samples, channels
/// interleaved. If the header is not accepted, the job's audio-decode error is
/// returned; it names `path` and carries the decoder's description.
pub fn decode_audio(path: &str, bytes: &[u8]) -> (decoded: Result<Vec<i16>, JobError>)
    ensures
        match wav_samples(bytes@) {
            Some(reads) => decoded matches Ok(samples) && samples@ == samples_of(reads),
            None => decoded matches Err(JobError::AudioDecode { path: named, detail })
                && named@ == path@,
        },
{
    match read_wav(bytes) {
        Ok(reads) => Ok(samples_or_silence(&reads)),
        Err(error) => Err(
            JobError::AudioDecode { path: String::from_str(path), detail: wav_error_text(&error) },
        ),
    }
}

} // verus!
