use transcription::audio::{decode_audio, samples_or_silence};
use transcription::error::JobError;

fn le16(value: u16) -> [u8; 2] {
    value.to_le_bytes()
}

fn le32(value: u32) -> [u8; 4] {
    value.to_le_bytes()
}

fn pcm_file(channels: u16, rate: u32, bits: u16, data: &[u8], announced: u32) -> Vec<u8> {
    let block = channels * (bits / 8);
    let mut bytes = Vec::new();
    bytes.extend_from_slice(b"RIFF");
    bytes.extend_from_slice(&le32(36 + announced));
    bytes.extend_from_slice(b"WAVE");
    bytes.extend_from_slice(b"fmt ");
    bytes.extend_from_slice(&le32(16));
    bytes.extend_from_slice(&le16(1));
    bytes.extend_from_slice(&le16(channels));
    bytes.extend_from_slice(&le32(rate));
    bytes.extend_from_slice(&le32(rate * block as u32));
    bytes.extend_from_slice(&le16(block));
    bytes.extend_from_slice(&le16(bits));
    bytes.extend_from_slice(b"data");
    bytes.extend_from_slice(&le32(announced));
    bytes.extend_from_slice(data);
    bytes
}

fn written_by_hound(samples: &[i16], channels: u16) -> Vec<u8> {
    let spec = hound::WavSpec {
        channels,
        sample_rate: 16000,
        bits_per_sample: 16,
        sample_format: hound::SampleFormat::Int,
    };
    let mut cursor = std::io::Cursor::new(Vec::new());
    {
        let mut writer = hound::WavWriter::new(&mut cursor, spec).unwrap();
        for &sample in samples {
            writer.write_sample(sample).unwrap();
        }
        writer.finalize().unwrap();
    }
    cursor.into_inner()
}

#[test]
fn sixteen_bit_mono_samples_are_decoded() {
    let data = [2u8, 0, 0xfd, 0xff, 5, 0, 0xf9, 0xff];
    let bytes = pcm_file(1, 44100, 16, &data, 8);
    assert_eq!(decode_audio("four.wav", &bytes), Ok(vec![2, -3, 5, -7]));
}

#[test]
fn extreme_samples_are_decoded() {
    let data = [0xffu8, 0x7f, 0x00, 0x80, 0x00, 0x00];
    let bytes = pcm_file(1, 16000, 16, &data, 6);
    assert_eq!(decode_audio("x.wav", &bytes), Ok(vec![i16::MAX, i16::MIN, 0]));
}

#[test]
fn stereo_samples_stay_interleaved() {
    let bytes = written_by_hound(&[1, -1, 2, -2, 3, -3], 2);
    assert_eq!(decode_audio("stereo.wav", &bytes), Ok(vec![1, -1, 2, -2, 3, -3]));
}

#[test]
fn file_written_by_the_decoder_crate_reads_back() {
    let samples: Vec<i16> = (0..1000).map(|k| ((k * 37) % 2000 - 1000) as i16).collect();
    let bytes = written_by_hound(&samples, 1);
    assert_eq!(decode_audio("thousand.wav", &bytes), Ok(samples));
}

#[test]
fn eight_bit_samples_are_recentred() {
    let bytes = pcm_file(1, 8000, 8, &[128, 129, 127, 0, 255], 5);
    assert_eq!(decode_audio("eight.wav", &bytes), Ok(vec![0, 1, -1, -128, 127]));
}

#[test]
fn empty_data_chunk_gives_no_samples() {
    let bytes = pcm_file(1, 16000, 16, &[], 0);
    assert_eq!(decode_audio("empty.wav", &bytes), Ok(Vec::new()));
}

#[test]
fn samples_too_wide_for_sixteen_bits_count_as_silence() {
    let data = [1u8, 2, 3, 4, 5, 6, 7, 8, 9];
    let bytes = pcm_file(1, 16000, 24, &data, 9);
    assert_eq!(decode_audio("wide.wav", &bytes), Ok(vec![0, 0, 0]));
}

#[test]
fn samples_missing_at_the_end_count_as_silence() {
    let data = [7u8, 0, 9, 0];
    let bytes = pcm_file(1, 16000, 16, &data, 8);
    assert_eq!(decode_audio("short.wav", &bytes), Ok(vec![7, 9, 0, 0]));
}

#[test]
fn bytes_without_riff_tag_are_refused() {
    let decoded = decode_audio("/music/song.mp3", b"ID3\x03\x00\x00\x00\x00\x00\x00\x00\x00");
    assert_eq!(
        decoded,
        Err(JobError::AudioDecode {
            path: String::from("/music/song.mp3"),
            detail: String::from("Ill-formed WAVE file: no RIFF tag found"),
        })
    );
    assert_eq!(
        decoded.unwrap_err().message(),
        "Failed to open audio file '/music/song.mp3': Ill-formed WAVE file: no RIFF tag found"
    );
}

#[test]
fn empty_input_is_refused() {
    match decode_audio("nothing.wav", &[]) {
        Err(JobError::AudioDecode { path, detail }) => {
            assert_eq!(path, "nothing.wav");
            assert_eq!(detail, "Failed to read enough bytes.");
        }
        other => panic!("unexpected {:?}", other),
    }
}

#[test]
fn header_without_data_chunk_is_refused() {
    let mut bytes = pcm_file(1, 16000, 16, &[], 0);
    bytes.truncate(36);
    assert!(matches!(
        decode_audio("cut.wav", &bytes),
        Err(JobError::AudioDecode { .. })
    ));
}

#[test]
fn zero_channels_are_refused() {
    let bytes = pcm_file(0, 16000, 16, &[], 0);
    match decode_audio("zero.wav", &bytes) {
        Err(JobError::AudioDecode { detail, .. }) => {
            assert_eq!(detail, "Ill-formed WAVE file: file contains zero channels");
        }
        other => panic!("unexpected {:?}", other),
    }
}

#[test]
fn data_length_must_be_whole_samples() {
    let bytes = pcm_file(1, 16000, 16, &[1, 0, 2], 3);
    match decode_audio("odd.wav", &bytes) {
        Err(JobError::AudioDecode { detail, .. }) => {
            assert_eq!(
                detail,
                "Ill-formed WAVE file: data chunk length is not a multiple of sample size"
            );
        }
        other => panic!("unexpected {:?}", other),
    }
}

#[test]
fn unreadable_samples_become_silence() {
    let reads = vec![Some(5), None, Some(-5), None, Some(i16::MIN)];
    assert_eq!(samples_or_silence(&reads), vec![5, 0, -5, 0, i16::MIN]);
    assert_eq!(samples_or_silence(&Vec::new()), Vec::<i16>::new());
}
