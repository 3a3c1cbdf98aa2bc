use tsclientlib_node::b64::{decode_base64_pcm_to_buffer, encode_buffer_to_base64_pcm, PcmDecodeError};
use tsclientlib_node::events::NativeEvent;
use tsclientlib_node::mixer::{mix_tick, SpeakerDrain};
use tsclientlib_node::pcm::{
    downmix_stereo_to_mono, has_audio, le_bytes_from_samples, samples_from_le_bytes, to_frames,
};

#[test]
fn fifty_ms_buffer_gives_three_padded_windows() {
    let samples: Vec<i16> = (0..2400).map(|i| (i % 1000 + 1) as i16).collect();
    let frames = to_frames(&samples);
    assert_eq!(frames.len(), 3);
    for f in &frames {
        assert_eq!(f.len(), 960);
    }
    assert_eq!(frames[0][0], 1);
    assert_eq!(frames[1][0], samples[960]);
    assert_eq!(frames[2][479], samples[2399]);
    assert!(frames[2][480..].iter().all(|s| *s == 0));
}

#[test]
fn window_counts_round_up() {
    assert_eq!(to_frames(&[]).len(), 0);
    assert_eq!(to_frames(&vec![5i16; 960]).len(), 1);
    let frames = to_frames(&vec![5i16; 961]);
    assert_eq!(frames.len(), 2);
    assert_eq!(frames[1][0], 5);
    assert!(frames[1][1..].iter().all(|s| *s == 0));
    assert_eq!(to_frames(&vec![1i16; 1920]).len(), 2);
}

#[test]
fn little_endian_samples_are_read_and_written() {
    let bytes = vec![0x01, 0x00, 0xff, 0xff, 0x00, 0x80, 0xff, 0x7f];
    let samples = samples_from_le_bytes(&bytes);
    assert_eq!(samples, vec![1, -1, -32768, 32767]);
    assert_eq!(le_bytes_from_samples(&samples), bytes);
    assert_eq!(le_bytes_from_samples(&[258]), vec![2, 1]);
}

#[test]
fn downmix_averages_channel_pairs() {
    let out = downmix_stereo_to_mono(&[100, 200, -3, -4]);
    assert_eq!(out.len(), 960);
    assert_eq!(out[0], 150);
    assert_eq!(out[1], -4);
    assert!(out[2..].iter().all(|s| *s == 0));
    assert!(downmix_stereo_to_mono(&[7]).iter().all(|s| *s == 7));
    assert!(downmix_stereo_to_mono(&[]).iter().all(|s| *s == 0));
}

#[test]
fn silence_threshold() {
    assert!(!has_audio(&[0, 3, -3]));
    assert!(has_audio(&[0, 4]));
    assert!(has_audio(&[-4]));
    assert!(!has_audio(&[]));
}

#[test]
fn base64_pcm_round_trip() {
    assert_eq!(encode_buffer_to_base64_pcm(&[1, 2, 3]), "AQID");
    assert_eq!(encode_buffer_to_base64_pcm(&[0xaa]), "qg==");
    assert_eq!(decode_base64_pcm_to_buffer("qg==").unwrap(), vec![0xaa]);
    assert_eq!(decode_base64_pcm_to_buffer("AQID").unwrap(), vec![1, 2, 3]);
    assert!(matches!(decode_base64_pcm_to_buffer("!!").unwrap_err(), PcmDecodeError::InvalidBase64(_)));
}

#[test]
fn empty_tick_emits_one_silent_mix() {
    let out = mix_tick(&vec![]);
    assert_eq!(out.events.len(), 1);
    assert!(out.remove.is_empty());
    match &out.events[0] {
        NativeEvent::AudioMixed { pcm } => {
            assert_eq!(decode_base64_pcm_to_buffer(pcm).unwrap(), vec![0u8; 1920]);
        }
        other => panic!("unexpected event {:?}", other),
    }
}

#[test]
fn tick_reports_speakers_and_drops_drained_ones() {
    let loud = SpeakerDrain { client_id: 7, stereo: vec![3000; 1920], empty_after: false };
    let quiet = SpeakerDrain { client_id: 9, stereo: vec![0; 1920], empty_after: true };
    let also = SpeakerDrain { client_id: 11, stereo: vec![30000; 1920], empty_after: true };
    let out = mix_tick(&vec![loud, quiet, also]);
    assert_eq!(out.remove, vec![9, 11]);
    assert_eq!(out.events.len(), 3);
    match &out.events[0] {
        NativeEvent::AudioSpeaker { client_id, pcm } => {
            assert_eq!(*client_id, 7);
            let bytes = decode_base64_pcm_to_buffer(pcm).unwrap();
            assert_eq!(samples_from_le_bytes(&bytes), vec![3000i16; 960]);
        }
        other => panic!("unexpected event {:?}", other),
    }
    match &out.events[1] {
        NativeEvent::AudioSpeaker { client_id, .. } => assert_eq!(*client_id, 11),
        other => panic!("unexpected event {:?}", other),
    }
    match &out.events[2] {
        NativeEvent::AudioMixed { pcm } => {
            let bytes = decode_base64_pcm_to_buffer(pcm).unwrap();
            assert_eq!(samples_from_le_bytes(&bytes), vec![32767i16; 960]);
        }
        other => panic!("unexpected event {:?}", other),
    }
    assert_eq!(out.events[2].name(), "audioMixed");
}

#[test]
fn quiet_frames_still_join_the_mix() {
    let hum = SpeakerDrain { client_id: 4, stereo: vec![3; 1920], empty_after: false };
    let hiss = SpeakerDrain { client_id: 5, stereo: vec![-2; 1920], empty_after: false };
    let out = mix_tick(&vec![hum, hiss]);
    assert_eq!(out.events.len(), 1);
    assert!(out.remove.is_empty());
    match &out.events[0] {
        NativeEvent::AudioMixed { pcm } => {
            let bytes = decode_base64_pcm_to_buffer(pcm).unwrap();
            assert_eq!(samples_from_le_bytes(&bytes), vec![1i16; 960]);
        }
        other => panic!("unexpected event {:?}", other),
    }
}
