use std::io::Cursor;

use wisper_audio::encoder::samples_to_wav;
use wisper_audio::errors::AudioError;

fn le16(b: &[u8], off: usize) -> u16 {
    (b[off] as u16) | ((b[off + 1] as u16) << 8)
}

fn le32(b: &[u8], off: usize) -> u32 {
    (b[off] as u32)
        | ((b[off + 1] as u32) << 8)
        | ((b[off + 2] as u32) << 16)
        | ((b[off + 3] as u32) << 24)
}

/// The quantisation the capture layer applies before encoding: scale by
/// the largest positive 16-bit magnitude, then clamp to the signed
/// 16-bit range, then truncate.
fn quantize(sample: f32) -> i16 {
    (sample * i16::MAX as f32).clamp(i16::MIN as f32, i16::MAX as f32) as i16
}

#[test]
fn empty_input_yields_valid_wav_header() {
    let bytes = samples_to_wav(&Vec::new(), 16000).unwrap();
    assert_eq!(bytes.len(), 44);
    assert_eq!(&bytes[0..4], b"RIFF");
    assert_eq!(le32(&bytes, 4), 36);
    assert_eq!(&bytes[8..12], b"WAVE");
    assert_eq!(&bytes[12..16], b"fmt ");
    assert_eq!(le32(&bytes, 16), 16);
    assert_eq!(le16(&bytes, 20), 1);
    assert_eq!(le16(&bytes, 22), 1);
    assert_eq!(le32(&bytes, 24), 16000);
    assert_eq!(le32(&bytes, 28), 32000);
    assert_eq!(le16(&bytes, 32), 2);
    assert_eq!(le16(&bytes, 34), 16);
    assert_eq!(&bytes[36..40], b"data");
    assert_eq!(le32(&bytes, 40), 0);
}

#[test]
fn empty_input_reads_back_with_zero_samples() {
    let bytes = samples_to_wav(&Vec::new(), 16000).unwrap();
    let reader = hound::WavReader::new(Cursor::new(bytes)).unwrap();
    let spec = reader.spec();
    assert_eq!(spec.channels, 1);
    assert_eq!(spec.sample_rate, 16000);
    assert_eq!(spec.bits_per_sample, 16);
    assert_eq!(spec.sample_format, hound::SampleFormat::Int);
    assert_eq!(reader.len(), 0);
}

#[test]
fn data_bytes_are_little_endian_two_complement() {
    let bytes = samples_to_wav(&vec![258, -1, 0], 8000).unwrap();
    assert_eq!(bytes.len(), 44 + 6);
    assert_eq!(le32(&bytes, 40), 6);
    assert_eq!(&bytes[44..50], &[2, 1, 0xff, 0xff, 0, 0]);
}

#[test]
fn encoded_samples_read_back_exactly() {
    let samples: Vec<i16> = vec![0, 1, -1, 32767, -32768, 12345, -12345];
    let bytes = samples_to_wav(&samples, 44100).unwrap();
    let mut reader = hound::WavReader::new(Cursor::new(bytes)).unwrap();
    assert_eq!(reader.spec().sample_rate, 44100);
    let back: Vec<i16> = reader.samples::<i16>().map(|s| s.unwrap()).collect();
    assert_eq!(back, samples);
}

#[test]
fn quantized_round_trip_within_one_step() {
    let input: Vec<f32> = vec![0.0, 1.0, -1.0, 0.5, -0.5, 0.25, 2.0, -3.0, 0.333, -0.125];
    let quantized: Vec<i16> = input.iter().map(|s| quantize(*s)).collect();
    let bytes = samples_to_wav(&quantized, 16000).unwrap();
    let mut reader = hound::WavReader::new(Cursor::new(bytes)).unwrap();
    let back: Vec<i16> = reader.samples::<i16>().map(|s| s.unwrap()).collect();
    assert_eq!(back.len(), input.len());
    for (s, b) in input.iter().zip(back.iter()) {
        let ideal = (s.clamp(-1.0, 1.0) * 32767.0).round();
        assert!((*b as f32 - ideal).abs() <= 1.0, "sample {} decoded {}", s, b);
    }
}

#[test]
fn encoder_uses_the_rate_it_is_given() {
    for rate in [8000u32, 16000, 22050, 48000] {
        let bytes = samples_to_wav(&vec![5, 6], rate).unwrap();
        let reader = hound::WavReader::new(Cursor::new(bytes)).unwrap();
        assert_eq!(reader.spec().sample_rate, rate);
        assert_eq!(reader.len(), 2);
    }
}

#[test]
fn zero_sample_rate_fails_with_encoding_error() {
    assert_eq!(samples_to_wav(&vec![1, 2, 3], 0), Err(AudioError::EncodingError));
}

#[test]
fn oversized_sample_rate_fails_with_encoding_error() {
    // The byte rate of a mono 16-bit stream no longer fits its 32-bit
    // header field.
    assert_eq!(samples_to_wav(&Vec::new(), u32::MAX / 2 + 1), Err(AudioError::EncodingError));
}
