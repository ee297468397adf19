use glkaudio::decode;
use glkaudio::errors::{
    AudioError, DecodeDisposition, ReadDisposition, StreamErrorKind, classify_decode_failure,
    classify_read_failure, fatal_error,
};

fn wav_input(channels: u16, rate: u32, samples: &[f32]) -> Vec<u8> {
    let spec = hound::WavSpec {
        channels,
        sample_rate: rate,
        bits_per_sample: 32,
        sample_format: hound::SampleFormat::Float,
    };
    let mut cursor = std::io::Cursor::new(Vec::new());
    {
        let mut writer = hound::WavWriter::new(&mut cursor, spec).unwrap();
        for s in samples {
            writer.write_sample(*s).unwrap();
        }
        writer.finalize().unwrap();
    }
    cursor.into_inner()
}

fn read_output(bytes: &[u8]) -> (hound::WavSpec, Vec<f32>) {
    let reader = hound::WavReader::new(std::io::Cursor::new(bytes)).unwrap();
    let spec = reader.spec();
    let samples: Vec<f32> = reader.into_samples::<f32>().map(|s| s.unwrap()).collect();
    (spec, samples)
}

#[test]
fn reconstructs_short_mono_stream() {
    let mut samples: Vec<f32> = Vec::new();
    for i in 0..3000 {
        samples.push(((i % 200) as f32 - 100.0) / 128.0);
    }
    let input = wav_input(1, 8000, &samples);
    let output = decode(input).0.unwrap();
    let (spec, decoded) = read_output(&output);
    assert_eq!(spec.channels, 1);
    assert_eq!(spec.sample_rate, 8000);
    assert_eq!(spec.bits_per_sample, 32);
    assert_eq!(spec.sample_format, hound::SampleFormat::Float);
    assert_eq!(decoded.len(), samples.len());
    for (got, expected) in decoded.iter().zip(samples.iter()) {
        assert_eq!(got.to_bits(), expected.to_bits());
    }
}

#[test]
fn keeps_interleaved_channel_order() {
    let mut samples: Vec<f32> = Vec::new();
    for _ in 0..500 {
        samples.push(0.25);
        samples.push(-0.75);
    }
    let input = wav_input(2, 44100, &samples);
    let output = decode(input).0.unwrap();
    let (spec, decoded) = read_output(&output);
    assert_eq!(spec.channels, 2);
    assert_eq!(spec.sample_rate, 44100);
    assert_eq!(decoded.len(), samples.len());
    for pair in decoded.chunks(2) {
        assert_eq!(pair[0].to_bits(), 0.25f32.to_bits());
        assert_eq!(pair[1].to_bits(), (-0.75f32).to_bits());
    }
}

#[test]
fn converts_integer_samples_to_floats() {
    let spec = hound::WavSpec {
        channels: 1,
        sample_rate: 8000,
        bits_per_sample: 16,
        sample_format: hound::SampleFormat::Int,
    };
    let mut cursor = std::io::Cursor::new(Vec::new());
    {
        let mut writer = hound::WavWriter::new(&mut cursor, spec).unwrap();
        for _ in 0..250 {
            for s in [0i16, 8192, 16384, -16384] {
                writer.write_sample(s).unwrap();
            }
        }
        writer.finalize().unwrap();
    }
    let output = decode(cursor.into_inner()).0.unwrap();
    let (out_spec, decoded) = read_output(&output);
    assert_eq!(out_spec.sample_format, hound::SampleFormat::Float);
    assert_eq!(out_spec.bits_per_sample, 32);
    assert_eq!(decoded.len(), 1000);
    for quad in decoded.chunks(4) {
        assert_eq!(quad[0].to_bits(), 0.0f32.to_bits());
        assert_eq!(quad[1].to_bits(), 0.25f32.to_bits());
        assert_eq!(quad[2].to_bits(), 0.5f32.to_bits());
        assert_eq!(quad[3].to_bits(), (-0.5f32).to_bits());
    }
}

#[test]
fn output_is_a_nonempty_wave_container() {
    let samples: Vec<f32> = vec![0.5; 64];
    let input = wav_input(1, 16000, &samples);
    let output = decode(input).0.unwrap();
    assert!(output.len() > 0);
    assert_eq!(&output[0..4], b"RIFF");
    assert_eq!(&output[8..12], b"WAVE");
}

#[test]
fn rejects_unrecognized_container() {
    let garbage: Vec<u8> = (0u8..200u8).map(|b| b.wrapping_mul(37).wrapping_add(11)).collect();
    assert_eq!(decode(garbage).0, Err(AudioError::UnsupportedFormat));
}

#[test]
fn rejects_empty_input() {
    assert_eq!(decode(Vec::new()).0, Err(AudioError::UnsupportedFormat));
}

#[test]
fn rejects_stream_with_no_decodable_frames() {
    let input = wav_input(1, 8000, &[]);
    assert_eq!(decode(input).0, Err(AudioError::NoDecodableAudio));
}

#[test]
fn decoding_twice_gives_identical_bytes() {
    let mut samples: Vec<f32> = Vec::new();
    for i in 0..1000 {
        samples.push((i as f32) / 1000.0);
    }
    let input = wav_input(1, 22050, &samples);
    let first = decode(input.clone()).0.unwrap();
    let second = decode(input).0.unwrap();
    assert_eq!(first, second);
}

#[test]
fn read_failure_classification_follows_the_trichotomy() {
    assert_eq!(
        classify_read_failure(StreamErrorKind::EndOfInput),
        ReadDisposition::EndOfStream
    );
    assert_eq!(
        classify_read_failure(StreamErrorKind::InputFailure),
        ReadDisposition::Fatal(AudioError::FatalIoError)
    );
    assert_eq!(
        classify_read_failure(StreamErrorKind::MalformedPacket),
        ReadDisposition::Fatal(AudioError::FatalDecodeError)
    );
    assert_eq!(
        classify_read_failure(StreamErrorKind::SeekFailure),
        ReadDisposition::Fatal(AudioError::FatalIoError)
    );
}

#[test]
fn decode_failure_classification_follows_the_trichotomy() {
    assert_eq!(
        classify_decode_failure(StreamErrorKind::MalformedPacket),
        DecodeDisposition::SkipPacket
    );
    assert_eq!(
        classify_decode_failure(StreamErrorKind::EndOfInput),
        DecodeDisposition::Fatal(AudioError::FatalIoError)
    );
    assert_eq!(
        classify_decode_failure(StreamErrorKind::ResetRequired),
        DecodeDisposition::Fatal(AudioError::FatalIoError)
    );
}

#[test]
fn fatal_errors_split_by_kind() {
    assert_eq!(fatal_error(StreamErrorKind::MalformedPacket), AudioError::FatalDecodeError);
    assert_eq!(fatal_error(StreamErrorKind::InputFailure), AudioError::FatalIoError);
    assert_eq!(fatal_error(StreamErrorKind::LimitExceeded), AudioError::FatalIoError);
}
