use pulse::share::{percent_encode, percent_encode_bytes, tweet_text, tweet_url, GAME_URL};
use pulse::sound::{Playback, SampleBuffer, SoundEffect};
use pulse::wav::{encode_wav, wav_header, SAMPLE_RATE, WAV_HEADER_LEN};

/// Percent-encoding written out independently, as a reference.
fn reference_encode(s: &str) -> String {
    let mut out = String::new();
    for byte in s.bytes() {
        if byte.is_ascii_alphanumeric() || b"-_.~".contains(&byte) {
            out.push(byte as char);
        } else {
            out.push_str(&format!("%{:02X}", byte));
        }
    }
    out
}

#[test]
fn playback_speeds() {
    let p = SoundEffect::HitPerfect { combo: 0 }.playback();
    assert_eq!(p, Playback { buffer: SampleBuffer::HitPerfect, speed_permille: 1000, volume_permille: 1000 });
    assert_eq!(SoundEffect::HitPerfect { combo: 10 }.playback().speed_permille, 1150);
    assert_eq!(SoundEffect::HitGood { combo: 19 }.playback().speed_permille, 1285);
    assert_eq!(SoundEffect::HitGood { combo: 20 }.playback().speed_permille, 1300);
    assert_eq!(SoundEffect::HitGood { combo: u32::MAX }.playback().speed_permille, 1300);
    assert_eq!(SoundEffect::HitGood { combo: 1 }.playback().buffer, SampleBuffer::HitGood);
    assert_eq!(SoundEffect::Combo { combo: 5 }.playback().speed_permille, 1050);
    assert_eq!(SoundEffect::Combo { combo: 25 }.playback().speed_permille, 1250);
    assert_eq!(SoundEffect::Combo { combo: 500 }.playback().buffer, SampleBuffer::Combo);
}

#[test]
fn miss_and_click_share_the_quieter_miss_buffer() {
    let miss = SoundEffect::Miss.playback();
    assert_eq!(miss, Playback { buffer: SampleBuffer::Miss, speed_permille: 1000, volume_permille: 800 });
    assert_eq!(SoundEffect::UiClick.playback(), miss);
}

#[test]
fn percent_encoding() {
    assert_eq!(percent_encode("AZaz09-_.~"), "AZaz09-_.~");
    assert_eq!(percent_encode("a b"), "a%20b");
    assert_eq!(percent_encode("100%/#?&="), "100%25%2F%23%3F%26%3D");
    assert_eq!(percent_encode("é"), "%C3%A9");
    assert_eq!(percent_encode(""), "");
    assert_eq!(percent_encode_bytes(&[0, 255, 10]), "%00%FF%0A");
}

#[test]
fn percent_encoding_agrees_with_reference() {
    for s in ["🎵 PULSE", "シンプル\n#ゲーム", "https://czmirror.github.io/Pulse/", "~~ x_y.z ~~"] {
        assert_eq!(percent_encode(s), reference_encode(s));
    }
}

#[test]
fn share_text_and_url() {
    let score = 4321;
    let best_combo = 27;
    let expected = format!(
        "🎵 PULSE - Score: {score} / Max Combo: {best_combo}\nシンプルなリズムゲームに挑戦！\n{GAME_URL}\n#PULSE #ゲーム制作 #bevy"
    );
    assert_eq!(tweet_text(score, best_combo), expected);
    assert_eq!(
        tweet_url(score, best_combo),
        format!("https://twitter.com/intent/tweet?text={}", reference_encode(&expected))
    );
    assert!(tweet_url(0, 0).starts_with("https://twitter.com/intent/tweet?text=%F0%9F%8E%B5%20PULSE%20-%20Score%3A%200%20"));
}

#[test]
fn wav_header_layout() {
    let h = wav_header(3);
    assert_eq!(h.len(), WAV_HEADER_LEN);
    let mut expected: Vec<u8> = Vec::new();
    expected.extend_from_slice(b"RIFF");
    expected.extend_from_slice(&(36u32 + 6).to_le_bytes());
    expected.extend_from_slice(b"WAVE");
    expected.extend_from_slice(b"fmt ");
    expected.extend_from_slice(&16u32.to_le_bytes());
    expected.extend_from_slice(&1u16.to_le_bytes());
    expected.extend_from_slice(&1u16.to_le_bytes());
    expected.extend_from_slice(&SAMPLE_RATE.to_le_bytes());
    expected.extend_from_slice(&(SAMPLE_RATE * 2).to_le_bytes());
    expected.extend_from_slice(&2u16.to_le_bytes());
    expected.extend_from_slice(&16u16.to_le_bytes());
    expected.extend_from_slice(b"data");
    expected.extend_from_slice(&6u32.to_le_bytes());
    assert_eq!(h, expected);
}

#[test]
fn wav_samples_are_little_endian_and_read_back() {
    let samples: Vec<i16> = vec![0, 1, -1, i16::MAX, i16::MIN, 0x1234];
    let w = encode_wav(&samples);
    assert_eq!(w.len(), 44 + 2 * samples.len());
    assert_eq!(&w[..WAV_HEADER_LEN], wav_header(samples.len() as u32).as_slice());
    assert_eq!(&w[44..48], &[0, 0, 1, 0]);
    assert_eq!(&w[48..50], &[0xFF, 0xFF]);
    assert_eq!(&w[52..54], &[0x00, 0x80]);
    assert_eq!(&w[54..56], &[0x34, 0x12]);
    assert_eq!(u32::from_le_bytes([w[4], w[5], w[6], w[7]]) as usize, w.len() - 8);
    for (i, s) in samples.iter().enumerate() {
        assert_eq!(i16::from_le_bytes([w[44 + 2 * i], w[45 + 2 * i]]), *s);
    }
    assert_eq!(encode_wav(&[]), wav_header(0));
}

/// Percent-decoding written out in the test, as a URL reader does it.
fn reference_decode(s: &str) -> Vec<u8> {
    let b = s.as_bytes();
    let mut out = Vec::new();
    let mut i = 0;
    while i < b.len() {
        if b[i] == b'%' && i + 2 < b.len() {
            let hex = std::str::from_utf8(&b[i + 1..i + 3]).unwrap();
            out.push(u8::from_str_radix(hex, 16).unwrap());
            i += 3;
        } else {
            out.push(b[i]);
            i += 1;
        }
    }
    out
}

#[test]
fn percent_encoding_is_url_safe_and_decodes_back() {
    let inputs: Vec<Vec<u8>> = vec![
        (0u8..=255).collect(),
        "🎵 PULSE - Score: 0 / Max Combo: 0\nシンプル".as_bytes().to_vec(),
        b"%%%".to_vec(),
        vec![],
    ];
    for bytes in inputs {
        let e = percent_encode_bytes(&bytes);
        assert!(e.chars().all(|c| c.is_ascii_alphanumeric() || "-_.~%".contains(c)));
        assert!(e.len() >= bytes.len() && e.len() <= 3 * bytes.len());
        assert_eq!(reference_decode(&e), bytes);
    }
    assert_eq!(percent_encode_bytes(b"abc-XYZ_9.~").len(), 11);
}
