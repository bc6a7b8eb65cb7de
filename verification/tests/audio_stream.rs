use esp32_s3_box3::audio::{
    audio_frame, chunk_sample_count, handshake_bytes, pcm_bytes, reply_plan, AssistantSound,
    MicAccumulator, ASSISTANT_PHASE, OWW_MODEL_CHUNK_SIZE, STEREO_BLOCK_BYTES,
};
use esp32_s3_box3::speaker::{bytes_taken, next_output, output_for, play, read_request, SpeakerOutput, SpeakerPipe, PIPE_READ_CHUNK};
use embassy_sync::pipe::{TryReadError, TryWriteError};

#[test]
fn phase_codes_roundtrip() {
    let phases = [
        ASSISTANT_PHASE::Disabled,
        ASSISTANT_PHASE::Listening,
        ASSISTANT_PHASE::Detected,
        ASSISTANT_PHASE::Thinking,
        ASSISTANT_PHASE::Executed,
        ASSISTANT_PHASE::Failed,
    ];
    for (i, p) in phases.iter().enumerate() {
        assert_eq!(p.code(), i as u8);
        assert_eq!(ASSISTANT_PHASE::from_code(i as u8), Some(*p));
    }
    assert_eq!(ASSISTANT_PHASE::from_code(6), None);
    assert_eq!(ASSISTANT_PHASE::from_code(255), None);
}

#[test]
fn reply_wake_word() {
    let p = reply_plan(0x01).unwrap();
    assert_eq!(p.phase, ASSISTANT_PHASE::Detected);
    assert_eq!(p.sound, Some(AssistantSound::Ding));
    assert_eq!(p.brightness, vec![70]);
    assert!(!p.then_listening);
}

#[test]
fn reply_thinking_flashes() {
    let p = reply_plan(0x02).unwrap();
    assert_eq!(p.phase, ASSISTANT_PHASE::Thinking);
    assert_eq!(p.sound, None);
    assert_eq!(p.brightness, vec![0, 80, 0, 70]);
    assert!(!p.then_listening);
}

#[test]
fn reply_executed_and_failed_return_to_listening() {
    let e = reply_plan(0x03).unwrap();
    assert_eq!(e.phase, ASSISTANT_PHASE::Executed);
    assert_eq!(e.sound, Some(AssistantSound::Done));
    assert_eq!(e.brightness, vec![0]);
    assert!(e.then_listening);
    let f = reply_plan(0x04).unwrap();
    assert_eq!(f.phase, ASSISTANT_PHASE::Failed);
    assert_eq!(f.sound, Some(AssistantSound::Fail));
    assert_eq!(f.brightness, vec![0]);
    assert!(f.then_listening);
}

#[test]
fn reply_unexpected_bytes_do_nothing() {
    assert!(reply_plan(0x00).is_none());
    assert!(reply_plan(0x05).is_none());
    assert!(reply_plan(0xff).is_none());
}

#[test]
fn handshake_is_length_then_room() {
    assert_eq!(handshake_bytes(b"esp"), vec![3, 0, 0, 0, b'e', b's', b'p']);
    assert_eq!(handshake_bytes(b""), vec![0, 0, 0, 0]);
    let long = vec![b'x'; 300];
    let h = handshake_bytes(&long);
    assert_eq!(&h[..4], &[44, 1, 0, 0]);
    assert_eq!(h.len(), 304);
}

#[test]
fn audio_frame_layout() {
    let bits: Vec<u32> = vec![0.5f32.to_bits(), (-1.0f32).to_bits(), 0x0102_0304];
    let f = audio_frame(&bits);
    assert_eq!(f.len(), 4 + OWW_MODEL_CHUNK_SIZE * 4);
    assert_eq!(&f[0..4], &(1280u32).to_le_bytes());
    assert_eq!(&f[4..8], &0.5f32.to_le_bytes());
    assert_eq!(&f[8..12], &(-1.0f32).to_le_bytes());
    assert_eq!(&f[12..16], &[4, 3, 2, 1]);
    assert!(f[16..].iter().all(|&b| b == 0));
}

#[test]
fn audio_frame_full_chunk() {
    let bits: Vec<u32> = (0..1280u32).collect();
    let f = audio_frame(&bits);
    for (i, b) in bits.iter().enumerate() {
        assert_eq!(&f[4 + 4 * i..8 + 4 * i], &b.to_le_bytes());
    }
}

fn stereo_block(pairs: &[(i16, i16)]) -> Vec<u8> {
    let mut v = Vec::new();
    for &(l, r) in pairs {
        v.extend_from_slice(&l.to_le_bytes());
        v.extend_from_slice(&r.to_le_bytes());
    }
    v.resize(STEREO_BLOCK_BYTES, 0);
    v
}

#[test]
fn mic_mixes_to_mono_rounding_toward_zero() {
    let mut mic = MicAccumulator::new();
    let block = stereo_block(&[(3, 4), (-3, -4), (i16::MAX, i16::MAX), (i16::MIN, i16::MIN), (i16::MIN, i16::MAX), (100, -1)]);
    mic.push_stereo_block(&block);
    assert_eq!(mic.accum.len(), 128);
    assert_eq!(&mic.accum[..6], &[3, -3, i16::MAX, i16::MIN, 0, 49]);
    assert!(mic.accum[6..].iter().all(|&s| s == 0));
}

#[test]
fn mic_chunks_after_ten_blocks() {
    let mut mic = MicAccumulator::new();
    let mut blocks = 0;
    while mic.needs_more() {
        mic.push_stereo_block(&stereo_block(&[(10, 20)]));
        blocks += 1;
    }
    assert_eq!(blocks, 10);
    let (chunk, silent) = mic.take_chunk();
    assert_eq!(chunk.len(), 1280);
    assert_eq!(chunk[0], 15);
    assert!(!silent);
    assert!(!mic.silent);
    assert!(mic.accum.is_empty());
}

#[test]
fn mic_reports_silence_and_recovery() {
    let mut mic = MicAccumulator::new();
    for _ in 0..11 {
        mic.push_stereo_block(&stereo_block(&[]));
    }
    let (_, silent) = mic.take_chunk();
    assert!(silent);
    assert!(mic.silent);
    assert_eq!(mic.accum.len(), 128);
    for _ in 0..10 {
        mic.push_stereo_block(&stereo_block(&[(0, 2)]));
    }
    let (chunk, silent) = mic.take_chunk();
    assert!(!silent);
    assert!(!mic.silent);
    assert_eq!(chunk[0], 0);
    assert_eq!(chunk[128], 1);
}

#[test]
fn chunk_sample_count_bounds() {
    assert_eq!(chunk_sample_count([0, 0, 0, 0]), None);
    assert_eq!(chunk_sample_count([1, 0, 0, 0]), Some(1));
    assert_eq!(chunk_sample_count([0, 16, 0, 0]), Some(4096));
    assert_eq!(chunk_sample_count([1, 16, 0, 0]), None);
    assert_eq!(chunk_sample_count([0, 0, 0, 1]), None);
}

#[test]
fn pcm_bytes_little_endian() {
    assert_eq!(pcm_bytes(&[1, -1, 0x1234, i16::MIN]), vec![1, 0, 0xff, 0xff, 0x34, 0x12, 0x00, 0x80]);
    assert!(pcm_bytes(&[]).is_empty());
}

#[test]
fn speaker_pipe_takes_what_fits_and_plays_it_back() {
    let pipe = SpeakerPipe::new();
    let data = vec![7u8; 20000];
    let first = play(&pipe, &data);
    assert!(first > 0 && first <= 16384);
    let mut total = first;
    loop {
        let n = play(&pipe, &data[total..]);
        if n == 0 {
            break;
        }
        total += n;
    }
    assert_eq!(total, 16384);
    assert_eq!(play(&pipe, &data), 0);
    let mut buf = [0u8; PIPE_READ_CHUNK];
    match next_output(&pipe, 100, &mut buf) {
        SpeakerOutput::Audio(n) => {
            assert_eq!(n, 100);
            assert!(buf[..100].iter().all(|&b| b == 7));
            assert!(buf[100..].iter().all(|&b| b == 0));
        }
        SpeakerOutput::Silence(_) => panic!("the pipe holds audio"),
    }
}

#[test]
fn speaker_silence_when_pipe_is_empty() {
    let pipe = SpeakerPipe::new();
    let mut buf = [0u8; PIPE_READ_CHUNK];
    match next_output(&pipe, 4000, &mut buf) {
        SpeakerOutput::Silence(m) => assert_eq!(m, 4000),
        SpeakerOutput::Audio(_) => panic!("nothing was written"),
    }
    assert_eq!(play(&pipe, &[]), 0);
    assert_eq!(play(&pipe, &[1, 2, 3]), 3);
    match next_output(&pipe, 4000, &mut buf) {
        SpeakerOutput::Audio(n) => {
            assert_eq!(n, 3);
            assert_eq!(&buf[..3], &[1, 2, 3]);
        }
        SpeakerOutput::Silence(_) => panic!("the pipe holds audio"),
    }
}

#[test]
fn bytes_taken_counts_a_write_and_nothing_for_a_full_pipe() {
    assert_eq!(bytes_taken(Ok(1234)), 1234);
    assert_eq!(bytes_taken(Ok(0)), 0);
    assert_eq!(bytes_taken(Err(TryWriteError::Full)), 0);
}

#[test]
fn output_for_sends_what_was_read_or_silence() {
    assert_eq!(output_for(Ok(37), 500), SpeakerOutput::Audio(37));
    assert_eq!(output_for(Ok(0), 500), SpeakerOutput::Silence(500));
    assert_eq!(output_for(Err(TryReadError::Empty), 500), SpeakerOutput::Silence(500));
}

#[test]
fn read_request_is_the_room_up_to_one_chunk() {
    assert_eq!(read_request(1), 1);
    assert_eq!(read_request(100), 100);
    assert_eq!(read_request(PIPE_READ_CHUNK), PIPE_READ_CHUNK);
    assert_eq!(read_request(4000), PIPE_READ_CHUNK);
}
