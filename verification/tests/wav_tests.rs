use handy::{
    check_sample_count, require_pcm16, WavFormat,
    downmix_frame_sums, read_wav_bytes, read_wav_samples, recording_wav_format, verify_wav_file,
    SampleFormat, WavReadError, WavVerifyError,
};
use std::io::Cursor;

fn int_wav(channels: u16, bits: u16, samples: &[i32]) -> Vec<u8> {
    let spec = hound::WavSpec {
        channels,
        sample_rate: 16000,
        bits_per_sample: bits,
        sample_format: hound::SampleFormat::Int,
    };
    let mut cursor = Cursor::new(Vec::new());
    {
        let mut writer = hound::WavWriter::new(&mut cursor, spec).unwrap();
        for &s in samples {
            writer.write_sample(s).unwrap();
        }
        writer.finalize().unwrap();
    }
    cursor.into_inner()
}

fn float_wav(samples: &[f32]) -> Vec<u8> {
    let spec = hound::WavSpec {
        channels: 1,
        sample_rate: 16000,
        bits_per_sample: 32,
        sample_format: hound::SampleFormat::Float,
    };
    let mut cursor = Cursor::new(Vec::new());
    {
        let mut writer = hound::WavWriter::new(&mut cursor, spec).unwrap();
        for &s in samples {
            writer.write_sample(s).unwrap();
        }
        writer.finalize().unwrap();
    }
    cursor.into_inner()
}

#[test]
fn mono_samples_pass_through() {
    let bytes = int_wav(1, 16, &[1, -2, 3, 32767, -32768]);
    let d = read_wav_bytes(&bytes).unwrap();
    assert_eq!(d.frame_sums, vec![1, -2, 3, 32767, -32768]);
    assert_eq!(d.header.format.channels, 1);
    assert_eq!(d.header.format.sample_rate, 16000);
    assert_eq!(d.header.format.bits_per_sample, 16);
    assert_eq!(d.header.format.sample_format, SampleFormat::Int);
    assert_eq!(d.header.sample_count, 5);
}

#[test]
fn stereo_frames_are_summed() {
    let bytes = int_wav(2, 16, &[1, 3, -4, 10, 0, 0]);
    let d = read_wav_bytes(&bytes).unwrap();
    assert_eq!(d.frame_sums, vec![4, 6, 0]);
    assert_eq!(d.header.sample_count, 6);
}

#[test]
fn extreme_multichannel_sums_fit() {
    let bytes = int_wav(3, 16, &[32767, 32767, 32767, -32768, -32768, -32768]);
    let d = read_wav_bytes(&bytes).unwrap();
    assert_eq!(d.frame_sums, vec![98301, -98304]);
}

#[test]
fn empty_data_gives_no_frames() {
    let bytes = int_wav(2, 16, &[]);
    let d = read_wav_bytes(&bytes).unwrap();
    assert!(d.frame_sums.is_empty());
}

#[test]
fn eight_bit_audio_is_unsupported() {
    let bytes = int_wav(1, 8, &[1, 2]);
    match read_wav_bytes(&bytes) {
        Err(WavReadError::UnsupportedFormat { bits_per_sample, sample_format }) => {
            assert_eq!(bits_per_sample, 8);
            assert_eq!(sample_format, SampleFormat::Int);
        }
        other => panic!("unexpected {:?}", other),
    }
}

#[test]
fn float_audio_is_unsupported() {
    let bytes = float_wav(&[0.5, -0.25]);
    match read_wav_bytes(&bytes) {
        Err(WavReadError::UnsupportedFormat { bits_per_sample, sample_format }) => {
            assert_eq!(bits_per_sample, 32);
            assert_eq!(sample_format, SampleFormat::Float);
        }
        other => panic!("unexpected {:?}", other),
    }
}

#[test]
fn garbage_is_a_header_error() {
    assert!(matches!(read_wav_bytes(b"not a wav file at all"), Err(WavReadError::Header(_))));
    assert!(matches!(read_wav_bytes(&[]), Err(WavReadError::Header(_))));
}

#[test]
fn truncated_data_is_a_sample_error() {
    let mut bytes = int_wav(1, 16, &[1, 2, 3, 4]);
    bytes.truncate(bytes.len() - 3);
    assert!(matches!(read_wav_bytes(&bytes), Err(WavReadError::Samples(_))));
    assert!(matches!(read_wav_samples(&bytes), Err(WavReadError::Samples(_))));
}

#[test]
fn samples_are_read_interleaved() {
    let bytes = int_wav(2, 16, &[5, -6, 7, -8]);
    assert_eq!(read_wav_samples(&bytes).unwrap(), vec![5, -6, 7, -8]);
}

#[test]
fn eight_bit_samples_are_widened() {
    let bytes = int_wav(1, 8, &[-128, 0, 127]);
    assert_eq!(read_wav_samples(&bytes).unwrap(), vec![-128, 0, 127]);
}

#[test]
fn float_samples_cannot_be_read_as_integers() {
    let bytes = float_wav(&[0.5]);
    assert!(matches!(read_wav_samples(&bytes), Err(WavReadError::Samples(_))));
}

#[test]
fn read_samples_rejects_garbage() {
    assert!(matches!(read_wav_samples(b"RIFF"), Err(WavReadError::Header(_))));
}

#[test]
fn incomplete_frames_are_refused() {
    match downmix_frame_sums(&vec![1, 2, 3], 2) {
        Err(WavReadError::IncompleteFrame { buffered, channels }) => {
            assert_eq!(buffered, 1);
            assert_eq!(channels, 2);
        }
        other => panic!("unexpected {:?}", other),
    }
    assert_eq!(downmix_frame_sums(&vec![1, 2, 3, 4], 2).unwrap(), vec![3, 7]);
    assert_eq!(downmix_frame_sums(&vec![9, -9], 1).unwrap(), vec![9, -9]);
}

#[test]
fn verify_checks_sample_count() {
    let bytes = int_wav(1, 16, &[1, 2, 3]);
    assert!(verify_wav_file(&bytes, 3).is_ok());
    match verify_wav_file(&bytes, 4) {
        Err(WavVerifyError::SampleCountMismatch { expected, actual }) => {
            assert_eq!(expected, 4);
            assert_eq!(actual, 3);
        }
        other => panic!("unexpected {:?}", other),
    }
    assert!(matches!(verify_wav_file(b"xx", 0), Err(WavVerifyError::Header(_))));
}

#[test]
fn verify_counts_all_channels() {
    let bytes = int_wav(2, 16, &[1, 2, 3, 4]);
    assert!(verify_wav_file(&bytes, 4).is_ok());
}

#[test]
fn recordings_are_mono_16khz_16bit() {
    let f = recording_wav_format();
    assert_eq!(f.channels, 1);
    assert_eq!(f.sample_rate, 16000);
    assert_eq!(f.bits_per_sample, 16);
    assert_eq!(f.sample_format, SampleFormat::Int);
}

#[test]
fn only_sixteen_bit_integers_are_accepted() {
    let f = |bits, sample_format| WavFormat { channels: 2, sample_rate: 44100, bits_per_sample: bits, sample_format };
    assert!(require_pcm16(f(16, SampleFormat::Int)).is_ok());
    match require_pcm16(f(24, SampleFormat::Int)) {
        Err(WavReadError::UnsupportedFormat { bits_per_sample: 24, sample_format: SampleFormat::Int }) => {}
        other => panic!("unexpected {:?}", other),
    }
    match require_pcm16(f(16, SampleFormat::Float)) {
        Err(WavReadError::UnsupportedFormat { bits_per_sample: 16, sample_format: SampleFormat::Float }) => {}
        other => panic!("unexpected {:?}", other),
    }
}

#[test]
fn announced_count_must_match() {
    assert!(check_sample_count(16000, 16000).is_ok());
    match check_sample_count(0, 1) {
        Err(WavVerifyError::SampleCountMismatch { expected: 1, actual: 0 }) => {}
        other => panic!("unexpected {:?}", other),
    }
}

#[test]
fn swapping_channels_leaves_the_mix_unchanged() {
    let a = read_wav_bytes(&int_wav(2, 16, &[100, -7, 3, 9, -32768, 32767])).unwrap();
    let b = read_wav_bytes(&int_wav(2, 16, &[-7, 100, 9, 3, 32767, -32768])).unwrap();
    assert_eq!(a.frame_sums, b.frame_sums);
}

#[test]
fn duplicated_channels_mix_to_mono() {
    let mono = [5, -1200, 32767, -32768];
    let dup: Vec<i32> = mono.iter().flat_map(|&v| [v, v, v]).collect();
    let d = read_wav_bytes(&int_wav(3, 16, &dup)).unwrap();
    let expected: Vec<i32> = mono.iter().map(|&v| 3 * v).collect();
    assert_eq!(d.frame_sums, expected);
}

#[test]
fn inputs_shorter_than_a_header_are_refused() {
    let full = int_wav(1, 16, &[]);
    assert_eq!(full.len(), 44);
    assert!(read_wav_bytes(&full).is_ok());
    for n in 0..44 {
        assert!(matches!(read_wav_bytes(&full[..n]), Err(WavReadError::Header(_))));
        assert!(matches!(read_wav_samples(&full[..n]), Err(WavReadError::Header(_))));
        assert!(matches!(verify_wav_file(&full[..n], 0), Err(WavVerifyError::Header(_))));
    }
}

#[test]
fn a_saved_recording_passes_verification() {
    let format = recording_wav_format();
    let spec = hound::WavSpec {
        channels: format.channels,
        sample_rate: format.sample_rate,
        bits_per_sample: format.bits_per_sample,
        sample_format: hound::SampleFormat::Int,
    };
    let samples = [0.0f32, 0.5, -0.25, 1.0, -1.0];
    let mut cursor = Cursor::new(Vec::new());
    {
        let mut writer = hound::WavWriter::new(&mut cursor, spec).unwrap();
        for s in samples {
            writer.write_sample((s * i16::MAX as f32) as i16).unwrap();
        }
        writer.finalize().unwrap();
    }
    let bytes = cursor.into_inner();
    assert!(verify_wav_file(&bytes, samples.len()).is_ok());
    assert!(verify_wav_file(&bytes, samples.len() - 1).is_err());
    assert!(verify_wav_file(&bytes, samples.len() + 1).is_err());
}
