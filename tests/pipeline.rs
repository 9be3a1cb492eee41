use voice_chatbox::{
    announcement, channel_layout, chatbox_message, denormalize_u16, downmix, normalize_i16,
    normalize_u16, prepare_i16, prepare_u16, stereo_to_mono, CaptureCycle, ChannelLayout,
    CycleAction, CycleEvent, CyclePhase, DecodingState, RecognizerSession, SessionPhase,
    DEFAULT_WINDOW_SECS,
};

fn expected_message(text: &str) -> Vec<u8> {
    let mut b: Vec<u8> = b"/chatbox/input".to_vec();
    b.extend_from_slice(&[0, 0]);
    b.extend_from_slice(&[b',', b's', b'T', 0]);
    b.extend_from_slice(text.as_bytes());
    let pad = 4 - text.len() % 4;
    for _ in 0..pad {
        b.push(0);
    }
    b
}

#[test]
fn stereo_even_length_averages_pairs() {
    let out = stereo_to_mono(&[100, 200, -3, -5, 7, 8]);
    assert_eq!(out, vec![150, -3, 7]);
}

#[test]
fn stereo_truncates_toward_zero() {
    // -3/2 == -1 and -5/2 == -2 in Rust, so the pair gives -3.
    assert_eq!(stereo_to_mono(&[-3, -5]), vec![-3]);
    assert_eq!(stereo_to_mono(&[1, 1]), vec![0]);
    assert_eq!(stereo_to_mono(&[-1, -1]), vec![0]);
}

#[test]
fn stereo_extremes_do_not_overflow() {
    assert_eq!(stereo_to_mono(&[i16::MAX, i16::MAX]), vec![32766]);
    assert_eq!(stereo_to_mono(&[i16::MIN, i16::MIN]), vec![i16::MIN]);
    assert_eq!(stereo_to_mono(&[i16::MIN, i16::MAX]), vec![-16384 + 16383]);
}

#[test]
fn stereo_odd_length_drops_last_sample() {
    assert_eq!(stereo_to_mono(&[10, 20, 30]), vec![15]);
    assert_eq!(stereo_to_mono(&[42]), Vec::<i16>::new());
}

#[test]
fn stereo_empty_input() {
    assert_eq!(stereo_to_mono(&[]), Vec::<i16>::new());
}

#[test]
fn mono_downmix_is_identity() {
    let data = vec![1, -2, 3, i16::MIN, i16::MAX];
    assert_eq!(downmix(ChannelLayout::Mono, data.clone()), data);
    assert_eq!(downmix(ChannelLayout::Stereo, data), vec![-1, -16383]);
}

#[test]
fn channel_layout_accepts_one_or_two() {
    assert_eq!(channel_layout(1), Some(ChannelLayout::Mono));
    assert_eq!(channel_layout(2), Some(ChannelLayout::Stereo));
    assert_eq!(channel_layout(0), None);
    assert_eq!(channel_layout(6), None);
}

#[test]
fn unsigned_samples_normalize_at_extremes() {
    assert_eq!(normalize_u16(&[0, 32768, u16::MAX]), vec![i16::MIN, 0, i16::MAX]);
}

#[test]
fn unsigned_round_trip_is_exact() {
    let data = vec![0u16, 1, 32767, 32768, 40000, u16::MAX];
    assert_eq!(denormalize_u16(&normalize_u16(&data)), data);
    let pcm = vec![i16::MIN, -1, 0, 1, i16::MAX];
    assert_eq!(normalize_u16(&denormalize_u16(&pcm)), pcm);
    assert_eq!(denormalize_u16(&[i16::MIN, 0, i16::MAX]), vec![0, 32768, u16::MAX]);
}

#[test]
fn signed_samples_pass_unchanged() {
    let data = vec![i16::MIN, 0, i16::MAX, -7];
    assert_eq!(normalize_i16(&data), data);
}

#[test]
fn prepare_normalizes_then_downmixes() {
    assert_eq!(prepare_u16(&[32768, 32770, 0, 0], ChannelLayout::Stereo), vec![1, i16::MIN]);
    assert_eq!(prepare_u16(&[32769], ChannelLayout::Mono), vec![1]);
    assert_eq!(prepare_i16(&[4, 8, 9], ChannelLayout::Stereo), vec![6]);
}

#[test]
fn chatbox_message_bytes() {
    let b = chatbox_message("hi");
    assert_eq!(b, expected_message("hi"));
    assert_eq!(b.len(), 16 + 4 + 4);
    assert_eq!(&b[20..], &[b'h', b'i', 0, 0]);
}

#[test]
fn chatbox_message_pads_aligned_text_with_four_zeros() {
    let b = chatbox_message("abcd");
    assert_eq!(&b[20..], &[b'a', b'b', b'c', b'd', 0, 0, 0, 0]);
    let e = chatbox_message("");
    assert_eq!(&e[20..], &[0, 0, 0, 0]);
}

#[test]
fn chatbox_message_non_ascii_text() {
    let b = chatbox_message("déjà");
    assert_eq!(b, expected_message("déjà"));
}

#[test]
fn announcement_bytes() {
    let b = announcement();
    assert_eq!(b, expected_message("STT Initialized"));
    assert_eq!(b.len(), 16 + 4 + 16);
}

#[test]
fn finalize_without_audio_is_empty() {
    let mut s = RecognizerSession::new();
    assert!(!s.begin_finalize());
    assert_eq!(s.end_finalize("ignored".to_string()), "");
    assert_eq!(s.phase, SessionPhase::Idle);
}

#[test]
fn finalize_after_empty_chunk_is_empty() {
    let mut s = RecognizerSession::new();
    assert!(!s.accept(0, DecodingState::Running));
    assert!(!s.begin_finalize());
    assert_eq!(s.end_finalize(String::new()), "");
}

#[test]
fn failed_chunk_does_not_stop_the_window() {
    let mut s = RecognizerSession::new();
    assert!(s.accept(800, DecodingState::Failed));
    assert_eq!(s.phase, SessionPhase::Accepting);
    assert!(!s.accept(800, DecodingState::Running));
    assert!(!s.accept(800, DecodingState::Finalized));
    assert!(s.begin_finalize());
    assert_eq!(s.phase, SessionPhase::Finalizing);
    assert_eq!(s.end_finalize("bonjour".to_string()), "bonjour");
    assert_eq!(s.phase, SessionPhase::Idle);
    assert!(!s.heard);
}

#[test]
fn startup_announces_once_before_first_window() {
    let mut c = CaptureCycle::new(DEFAULT_WINDOW_SECS);
    assert_eq!(c.step(CycleEvent::Sent), None);
    assert_eq!(c.step(CycleEvent::WindowClosed), None);
    assert_eq!(c.step(CycleEvent::Start), Some(CycleAction::Send(announcement())));
    assert_eq!(c.step(CycleEvent::Start), None);
    assert_eq!(c.step(CycleEvent::Sent), Some(CycleAction::Listen(5)));
    assert_eq!(c.phase, CyclePhase::Listening);
}

#[test]
fn silent_window_sends_nothing() {
    let mut c = CaptureCycle::new(5);
    let mut s = RecognizerSession::new();
    c.step(CycleEvent::Start);
    assert_eq!(c.step(CycleEvent::Sent), Some(CycleAction::Listen(5)));
    assert!(!s.accept(0, DecodingState::Running));
    assert_eq!(c.step(CycleEvent::WindowClosed), Some(CycleAction::Finalize));
    let consult = s.begin_finalize();
    assert!(!consult);
    let t = s.end_finalize(String::new());
    assert_eq!(t, "");
    assert_eq!(c.step(CycleEvent::Transcript(t)), Some(CycleAction::Listen(5)));
    assert_eq!(c.phase, CyclePhase::Listening);
}

#[test]
fn utterance_is_forwarded_once() {
    let mut c = CaptureCycle::new(5);
    let mut s = RecognizerSession::new();
    c.step(CycleEvent::Start);
    c.step(CycleEvent::Sent);
    assert!(!s.accept(4000, DecodingState::Running));
    assert!(!s.accept(4000, DecodingState::Finalized));
    assert_eq!(c.step(CycleEvent::WindowClosed), Some(CycleAction::Finalize));
    assert!(s.begin_finalize());
    let t = s.end_finalize("salut tout le monde".to_string());
    assert_eq!(
        c.step(CycleEvent::Transcript(t)),
        Some(CycleAction::Send(expected_message("salut tout le monde")))
    );
    assert_eq!(c.step(CycleEvent::Sent), Some(CycleAction::Listen(5)));
    assert_eq!(c.step(CycleEvent::Sent), None);
}

#[test]
fn cancel_stops_the_cycle() {
    let mut c = CaptureCycle::new(5);
    c.step(CycleEvent::Start);
    c.step(CycleEvent::Sent);
    assert_eq!(c.step(CycleEvent::Cancel), Some(CycleAction::Stop));
    assert_eq!(c.phase, CyclePhase::Stopped);
    assert_eq!(c.step(CycleEvent::Cancel), None);
    assert_eq!(c.step(CycleEvent::WindowClosed), None);
}

#[test]
fn transcript_outside_finalizing_is_rejected() {
    let mut c = CaptureCycle::new(3);
    assert_eq!(c.step(CycleEvent::Transcript("x".to_string())), None);
    assert_eq!(c.phase, CyclePhase::Startup);
    assert_eq!(c.window_secs, 3);
}
