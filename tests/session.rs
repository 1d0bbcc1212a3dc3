use insight_reader::pcm::{decode_pcm, encode_container, HEADER_LEN};
use insight_reader::session::{PlaybackError, PlaybackSession, TrackerStep, MIN_ANALYSIS_SAMPLES};

fn pcm_of(n: usize) -> Vec<u8> {
    let mut bytes = Vec::new();
    for i in 0..n {
        bytes.extend_from_slice(&((i % 1000) as i16).to_le_bytes());
    }
    bytes
}

fn playing_session(rate: u32, n: usize) -> (PlaybackSession, u64) {
    let mut s = PlaybackSession::new(rate);
    assert_eq!(s.load_pcm(&pcm_of(n)), Ok(()));
    assert!(s.clip_from_cursor().is_ok());
    let g = s.mark_started();
    (s, g)
}

#[test]
fn progress_is_zero_right_after_speaking() {
    let (s, _) = playing_session(22050, 1000);
    assert_eq!(s.progress(), (0, 1000));
    assert!(s.is_playing());
    assert!(!s.is_paused());
}

#[test]
fn empty_buffer_progress_is_zero() {
    let s = PlaybackSession::new(22050);
    assert_eq!(s.progress(), (0, 1));
}

#[test]
fn one_second_ends_after_fourteen_ticks() {
    let (mut s, g) = playing_session(22050, 22050);
    for i in 1..=13usize {
        assert_eq!(s.tick(g), TrackerStep::Continue);
        assert_eq!(s.position(), 1653 * i);
        assert!(s.is_playing());
    }
    assert_eq!(s.tick(g), TrackerStep::Finish);
    assert_eq!(s.position(), 22050);
    assert!(!s.is_playing());
    assert_eq!(s.progress(), (22050, 22050));
    assert_eq!(s.tick(g), TrackerStep::Finish);
    assert_eq!(s.position(), 22050);
}

#[test]
fn tick_keeps_the_samples_just_passed() {
    let (mut s, g) = playing_session(22050, 5000);
    assert_eq!(s.snippet_for_analysis(), None);
    assert_eq!(s.tick(g), TrackerStep::Continue);
    let snippet = s.snippet_for_analysis().unwrap();
    assert_eq!(snippet.len(), 1653);
    assert_eq!(snippet, decode_pcm(&pcm_of(5000))[0..1653].to_vec());
}

#[test]
fn short_snippet_is_not_analysed() {
    // 1000 Hz gives 75 samples per tick, fewer than the analysis minimum.
    let (mut s, g) = playing_session(1000, 5000);
    assert_eq!(s.tick(g), TrackerStep::Continue);
    assert!(75 < MIN_ANALYSIS_SAMPLES);
    assert_eq!(s.snippet_for_analysis(), None);
}

#[test]
fn pause_freezes_progress_until_resume() {
    let (mut s, g) = playing_session(22050, 22050);
    s.tick(g);
    s.pause();
    assert!(s.is_paused());
    assert!(!s.is_playing());
    let frozen = s.progress();
    for _ in 0..5 {
        assert_eq!(s.tick(g), TrackerStep::Continue);
        assert_eq!(s.progress(), frozen);
    }
    s.resume();
    assert!(s.is_playing());
    s.tick(g);
    assert_eq!(s.progress(), (2 * 1653, 22050));
}

#[test]
fn seek_sets_progress_whatever_the_state() {
    let mut idle = PlaybackSession::new(22050);
    idle.load_pcm(&pcm_of(1000)).unwrap();
    assert!(!idle.seek_to(250));
    assert_eq!(idle.progress(), (250, 1000));

    let (mut active, _) = playing_session(22050, 1000);
    assert!(active.seek_to(500));
    assert_eq!(active.progress(), (500, 1000));
    assert!(!active.is_playing());
    active.mark_started();
    assert_eq!(active.progress(), (500, 1000));

    let (mut paused, _) = playing_session(22050, 1000);
    paused.pause();
    assert!(!paused.seek_to(5000));
    assert_eq!(paused.progress(), (1000, 1000));
    assert!(paused.is_paused());
}

#[test]
fn skip_forward_then_back_returns() {
    let (mut s, g) = playing_session(22050, 100_000);
    s.tick(g);
    let start = s.position();
    assert!(s.skip_forward(1000));
    assert_eq!(s.position(), start + 22050);
    s.mark_started();
    assert!(s.skip_backward(1000));
    assert_eq!(s.position(), start);
}

#[test]
fn skips_clamp_at_the_ends() {
    let mut s = PlaybackSession::new(22050);
    s.load_pcm(&pcm_of(30000)).unwrap();
    s.seek_to(20000);
    s.skip_forward(1000);
    assert_eq!(s.position(), 30000);
    s.skip_backward(1000);
    assert_eq!(s.position(), 30000 - 22050);
    s.skip_backward(1000);
    assert_eq!(s.position(), 0);
}

#[test]
fn stop_is_idempotent() {
    let (mut s, g) = playing_session(22050, 10000);
    s.tick(g);
    s.stop();
    assert_eq!(s.position(), 0);
    assert!(!s.is_playing());
    assert!(!s.is_paused());
    assert_eq!(s.snippet_for_analysis(), None);
    s.stop();
    assert_eq!(s.position(), 0);
    assert!(!s.is_playing());
    assert!(!s.is_paused());
    assert_eq!(s.len(), 10000);

    let mut fresh = PlaybackSession::new(16000);
    fresh.stop();
    assert_eq!(fresh.progress(), (0, 1));
}

#[test]
fn stopped_tracker_finishes() {
    let (mut s, g) = playing_session(22050, 10000);
    s.stop();
    assert_eq!(s.tick(g), TrackerStep::Finish);
    assert_eq!(s.position(), 0);
}

#[test]
fn superseded_tracker_finishes_without_moving() {
    let (mut s, old) = playing_session(22050, 10000);
    assert!(s.seek_to(100));
    let new = s.mark_started();
    assert_ne!(old, new);
    assert_eq!(s.tick(old), TrackerStep::Finish);
    assert_eq!(s.position(), 100);
    assert_eq!(s.tick(new), TrackerStep::Continue);
    assert_eq!(s.position(), 1753);
}

#[test]
fn clip_starts_at_the_cursor() {
    let mut s = PlaybackSession::new(16000);
    s.load_pcm(&pcm_of(10)).unwrap();
    s.seek_to(4);
    let clip = s.clip_from_cursor().unwrap();
    let samples = decode_pcm(&pcm_of(10));
    assert_eq!(clip, encode_container(&samples[4..], 16000));
    assert_eq!(decode_pcm(&clip[HEADER_LEN..]), samples[4..].to_vec());
}

#[test]
fn clip_errors() {
    let mut s = PlaybackSession::new(16000);
    assert_eq!(s.clip_from_cursor(), Err(PlaybackError::NoAudio));
    s.load_pcm(&pcm_of(10)).unwrap();
    s.seek_to(10);
    assert_eq!(s.clip_from_cursor(), Err(PlaybackError::AtEnd));
}

#[test]
fn loading_nothing_fails_and_empties_the_buffer() {
    let mut s = PlaybackSession::new(16000);
    s.load_pcm(&pcm_of(10)).unwrap();
    assert_eq!(s.load_pcm(&[7u8]), Err(PlaybackError::NoAudio));
    assert_eq!(s.len(), 0);
    assert_eq!(s.progress(), (0, 1));
}

#[test]
fn speaking_again_replaces_the_buffer() {
    let (mut s, g) = playing_session(22050, 10000);
    s.tick(g);
    s.stop();
    s.load_pcm(&pcm_of(500)).unwrap();
    assert_eq!(s.len(), 500);
    assert_eq!(s.progress(), (0, 500));
    assert_eq!(s.snippet_for_analysis(), None);
    assert_eq!(s.sample_rate(), 22050);
}
