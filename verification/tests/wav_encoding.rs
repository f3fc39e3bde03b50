use kokoroxide::wav::{frame_with_silence, pcm16_wav_bytes, wav_result, WavError};

fn le32(b: &[u8], at: usize) -> u32 {
    u32::from_le_bytes([b[at], b[at + 1], b[at + 2], b[at + 3]])
}

fn le16(b: &[u8], at: usize) -> u16 {
    u16::from_le_bytes([b[at], b[at + 1]])
}

#[test]
fn speech_is_framed_by_silence() {
    let framed = frame_with_silence(3, &[5, -6, 7]);
    assert_eq!(framed, vec![0, 0, 0, 5, -6, 7, 0, 0, 0]);
    let empty: Vec<i16> = frame_with_silence(0, &[]);
    assert!(empty.is_empty());
}

#[test]
fn wav_file_for_one_sample_is_exact() {
    let bytes = pcm16_wav_bytes(10, 1, &[0x1234]).unwrap();
    let expected: Vec<u8> = vec![
        b'R', b'I', b'F', b'F', 42, 0, 0, 0, b'W', b'A', b'V', b'E', b'f', b'm', b't', b' ', 16, 0,
        0, 0, 1, 0, 1, 0, 10, 0, 0, 0, 20, 0, 0, 0, 2, 0, 16, 0, b'd', b'a', b't', b'a', 6, 0, 0,
        0, 0, 0, 0x34, 0x12, 0, 0,
    ];
    assert_eq!(bytes, expected);
}

#[test]
fn wav_file_at_kokoro_rate_holds_the_speech() {
    let speech: Vec<i16> = vec![1, -2, 32767, -32768, 0, 300];
    let bytes = pcm16_wav_bytes(24000, 2400, &speech).unwrap();
    let n = speech.len() + 2 * 2400;
    assert_eq!(bytes.len(), 44 + 2 * n);
    assert_eq!(&bytes[0..4], b"RIFF");
    assert_eq!(le32(&bytes, 4) as usize, bytes.len() - 8);
    assert_eq!(&bytes[8..16], b"WAVEfmt ");
    assert_eq!(le32(&bytes, 16), 16);
    assert_eq!(le16(&bytes, 20), 1);
    assert_eq!(le16(&bytes, 22), 1);
    assert_eq!(le32(&bytes, 24), 24000);
    assert_eq!(le32(&bytes, 28), 48000);
    assert_eq!(le16(&bytes, 32), 2);
    assert_eq!(le16(&bytes, 34), 16);
    assert_eq!(&bytes[36..40], b"data");
    assert_eq!(le32(&bytes, 40) as usize, 2 * n);
    for k in 0..2400 {
        assert_eq!(le16(&bytes, 44 + 2 * k), 0);
        assert_eq!(le16(&bytes, 44 + 2 * (2400 + speech.len() + k)), 0);
    }
    for (i, s) in speech.iter().enumerate() {
        assert_eq!(le16(&bytes, 44 + 2 * (2400 + i)) as i16, *s);
    }
}

#[test]
fn wav_result_maps_the_writer_outcome() {
    let ok = wav_result(Ok(vec![1, 2, 3]));
    assert_eq!(ok.unwrap(), vec![1, 2, 3]);
    let err = wav_result(Err(hound::Error::Unsupported));
    assert!(matches!(err, Err(WavError::Hound(hound::Error::Unsupported))));
}
