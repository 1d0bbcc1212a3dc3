//! The playback session: one utterance's sample buffer, its playback cursor,
//! the play/pause flags and the recent snippet that the position tracker
//! leaves for visualisation.
//!
//! The session is a plain state machine. Whoever owns the output device calls
//! `clip_from_cursor` and `mark_started` to begin rendering, and a tracker that
//! wakes every `TICK_MILLIS` calls `tick` with the generation it was started
//! under, until `tick` answers `Finish`.

use vstd::prelude::*;
use crate::pcm::{container, container_fits, decode_pcm, decoded, encode_container};

verus! {

/// Interval, in milliseconds, at which the position tracker wakes.
pub const TICK_MILLIS: u64 = 75;

/// Fewest snippet samples that are worth a spectral analysis.
pub const MIN_ANALYSIS_SAMPLES: usize = 128;

/// Most samples that one container can hold: its 32-bit size fields count
/// the header's 36 bytes and two bytes per sample.
pub const MAX_CLIP_SAMPLES: usize = 2147483629;

/// The abstract state of a session.
pub struct SessionView {
    pub samples: Seq<i16>,
    pub sample_rate: nat,
    pub position: nat,
    pub playing: bool,
    pub paused: bool,
    pub snippet: Seq<i16>,
    pub generation: nat,
}

/// What a tracker should do after a tick.
#[derive(Clone, Copy, Debug, PartialEq, Eq, Structural)]
pub enum TrackerStep {
    Continue,
    Finish,
}

/// Why playback cannot start from the cursor.
#[derive(Clone, Copy, Debug, PartialEq, Eq, Structural)]
pub enum PlaybackError {
    /// The buffer holds no samples.
    NoAudio,
    /// The cursor stands at the end of the buffer.
    AtEnd,
    /// The remaining samples are too many for the container's size fields.
    TooLong,
}

/// Number of samples that `millis` milliseconds span at `rate` Hz, rounded down.
pub open spec fn samples_for_millis(rate: nat, millis: nat) -> nat {
    rate * millis / 1000
}

pub open spec fn samples_per_tick(rate: nat) -> nat {
    samples_for_millis(rate, TICK_MILLIS as nat)
}

pub open spec fn min_nat(a: nat, b: nat) -> nat {
    if a <= b {
        a
    } else {
        b
    }
}

pub open spec fn next_generation(g: nat) -> nat {
    if g >= u64::MAX {
        0
    } else {
        g + 1
    }
}

/// The session with a fresh buffer installed: cursor at the start, idle, no snippet.
pub open spec fn loaded(s: SessionView, samples: Seq<i16>) -> SessionView {
    SessionView { samples, position: 0, playing: false, paused: false, snippet: seq![], ..s }
}

/// The session after `stop`.
pub open spec fn stopped(s: SessionView) -> SessionView {
    SessionView { position: 0, playing: false, paused: false, snippet: seq![], ..s }
}

/// The session once output has started under a new generation.
pub open spec fn started(s: SessionView) -> SessionView {
    SessionView { playing: true, paused: false, generation: next_generation(s.generation), ..s }
}

/// The session after `pause`.
pub open spec fn paused_state(s: SessionView) -> SessionView {
    if s.playing && !s.paused {
        SessionView { paused: true, ..s }
    } else {
        s
    }
}

/// The session after `resume`.
pub open spec fn resumed_state(s: SessionView) -> SessionView {
    if s.paused {
        SessionView { paused: false, ..s }
    } else {
        s
    }
}

/// Whether output is running: playing and not paused.
pub open spec fn active(s: SessionView) -> bool {
    s.playing && !s.paused
}

/// The session after `seek_to(target)`: the cursor clamped to the buffer; an
/// active playback is stopped so that it can be restarted from there.
pub open spec fn seeked(s: SessionView, target: nat) -> SessionView {
    let p = min_nat(target, s.samples.len());
    if active(s) {
        SessionView { position: p, playing: false, ..s }
    } else {
        SessionView { position: p, ..s }
    }
}

pub open spec fn skip_forward_target(s: SessionView, millis: nat) -> nat {
    min_nat(s.position + samples_for_millis(s.sample_rate, millis), s.samples.len())
}

pub open spec fn skip_backward_target(s: SessionView, millis: nat) -> nat {
    let k = samples_for_millis(s.sample_rate, millis);
    if s.position >= k {
        (s.position - k) as nat
    } else {
        0
    }
}

/// Whether a tracker of generation `g` may still act on the session.
pub open spec fn tracker_current(s: SessionView, g: nat) -> bool {
    g == s.generation && s.playing
}

/// The session after one tick of a tracker of generation `g`.
pub open spec fn ticked(s: SessionView, g: nat) -> SessionView {
    if !tracker_current(s, g) || s.paused {
        s
    } else {
        let np = s.position + samples_per_tick(s.sample_rate);
        if np >= s.samples.len() {
            SessionView { playing: false, position: s.samples.len(), ..s }
        } else {
            SessionView { position: np, snippet: s.samples.subrange(s.position as int, np as int), ..s }
        }
    }
}

/// Whether a tracker of generation `g` keeps running after its tick on `s`.
pub open spec fn tick_continues(s: SessionView, g: nat) -> bool {
    tracker_current(s, g) && (s.paused || s.position + samples_per_tick(s.sample_rate)
        < s.samples.len())
}

/// The session after `n` ticks of a tracker of generation `g`.
pub open spec fn ticks(s: SessionView, g: nat, n: nat) -> SessionView
    decreases n,
{
    if n == 0 {
        s
    } else {
        ticks(ticked(s, g), g, (n - 1) as nat)
    }
}

/// Playback progress as a fraction `(done, total)` with a positive total; an
/// empty buffer counts as not started.
pub open spec fn progress_of(s: SessionView) -> (nat, nat) {
    if s.samples.len() == 0 {
        (0, 1)
    } else {
        (s.position, s.samples.len())
    }
}

/// A tracker that may not act, or a paused session, leaves the session as it is
/// however many times it wakes.
pub proof fn lemma_idle_ticks(s: SessionView, g: nat, n: nat)
    requires
        !tracker_current(s, g) || s.paused,
    ensures
        ticks(s, g, n) == s,
    decreases n,
{
    if n > 0 {
        lemma_idle_ticks(ticked(s, g), g, (n - 1) as nat);
    }
}

/// A freshly loaded, non-empty buffer reports no progress, also once output
/// has started.
pub proof fn lemma_load_starts_at_zero(s: SessionView, samples: Seq<i16>)
    requires
        samples.len() > 0,
    ensures
        progress_of(loaded(s, samples)) == (0nat, samples.len()),
        progress_of(started(loaded(s, samples))) == (0nat, samples.len()),
{
}

/// A playing session whose tracker wakes often enough to cover the rest of
/// the buffer ends with the cursor at the end, no longer playing, so that its
/// progress is complete.
pub proof fn lemma_ticks_reach_end(s: SessionView, g: nat, n: nat)
    requires
        s.position <= s.samples.len(),
        s.samples.len() > 0,
        s.playing,
        !s.paused,
        g == s.generation,
        n > 0,
        s.position + n * samples_per_tick(s.sample_rate) >= s.samples.len(),
    ensures
        ticks(s, g, n).position == s.samples.len(),
        !ticks(s, g, n).playing,
        progress_of(ticks(s, g, n)) == (s.samples.len(), s.samples.len()),
    decreases n,
{
    let step = samples_per_tick(s.sample_rate);
    let t = ticked(s, g);
    if s.position + step >= s.samples.len() {
        lemma_idle_ticks(t, g, (n - 1) as nat);
    } else {
        assert(n * step == (n - 1) * step + step) by (nonlinear_arith)
            requires
                n > 0,
        ;
        assert(n > 1) by {
            if n == 1 {
                assert(n * step == step) by (nonlinear_arith)
                    requires
                        n == 1,
                ;
            }
        }
        lemma_ticks_reach_end(t, g, (n - 1) as nat);
    }
}

/// While paused, any number of tracker wakes leaves the cursor and so the
/// progress where pausing left them; resuming then gives back the session
/// that was paused.
pub proof fn lemma_pause_freezes_progress(s: SessionView, g: nat, n: nat)
    requires
        s.playing,
    ensures
        ticks(paused_state(s), g, n) == paused_state(s),
        progress_of(ticks(paused_state(s), g, n)) == progress_of(s),
        !s.paused ==> resumed_state(ticks(paused_state(s), g, n)) == s,
{
    lemma_idle_ticks(paused_state(s), g, n);
}

/// Right after `seek_to(target)`, and after output restarts there, progress is
/// the clamped target over the buffer length, whatever the flags were.
pub proof fn lemma_seek_progress(s: SessionView, target: nat)
    requires
        s.samples.len() > 0,
    ensures
        progress_of(seeked(s, target)) == (min_nat(target, s.samples.len()), s.samples.len()),
        progress_of(started(seeked(s, target))) == progress_of(seeked(s, target)),
{
}

/// Skipping forward and then back by the same duration returns the cursor to
/// where it was, unless the forward skip was clamped at the end of the
/// buffer; then the cursor ends that duration before the end, or at the start.
pub proof fn lemma_skip_round_trip(s: SessionView, millis: nat)
    requires
        s.position <= s.samples.len(),
    ensures
        ({
            let k = samples_for_millis(s.sample_rate, millis);
            let t = seeked(s, skip_forward_target(s, millis));
            let u = seeked(t, skip_backward_target(t, millis));
            &&& s.position + k <= s.samples.len() ==> u.position == s.position
            &&& s.position + k > s.samples.len() ==> u.position == (if s.samples.len() >= k {
                (s.samples.len() - k) as nat
            } else {
                0nat
            })
        }),
{
}

/// Stopping puts the session at rest (cursor at the start, neither playing nor
/// paused), and stopping again, or stopping a session at rest, changes nothing.
pub proof fn lemma_stop_idempotent(s: SessionView)
    ensures
        stopped(s).position == 0,
        !stopped(s).playing,
        !stopped(s).paused,
        stopped(stopped(s)) == stopped(s),
        (s.position == 0 && !s.playing && !s.paused && s.snippet.len() == 0) ==> stopped(s)
            == s,
{
    if s.snippet.len() == 0 {
        assert(s.snippet =~= seq![]);
    }
}

/// A tick never moves the cursor back and never past the end of the buffer.
pub proof fn lemma_tick_monotone(s: SessionView, g: nat)
    requires
        s.position <= s.samples.len(),
    ensures
        s.position <= ticked(s, g).position <= s.samples.len(),
        ticked(s, g).samples == s.samples,
{
}

/// Once playback is stopped, a new buffer is loaded, or output restarts under
/// a new generation, the tracker of the earlier playback changes nothing.
pub proof fn lemma_superseded_tracker_is_inert(s: SessionView, samples: Seq<i16>, n: nat)
    ensures
        ticks(stopped(s), s.generation, n) == stopped(s),
        ticks(loaded(s, samples), s.generation, n) == loaded(s, samples),
        ticks(started(s), s.generation, n) == started(s),
{
    lemma_idle_ticks(stopped(s), s.generation, n);
    lemma_idle_ticks(loaded(s, samples), s.generation, n);
    lemma_idle_ticks(started(s), s.generation, n);
}

/// Shared playback state of one utterance.
pub struct PlaybackSession {
    samples: Vec<i16>,
    sample_rate: u32,
    position: usize,
    playing: bool,
    paused: bool,
    snippet_start: usize,
    snippet_end: usize,
    generation: u64,
}

impl View for PlaybackSession {
    type V = SessionView;

    closed spec fn view(&self) -> SessionView {
        SessionView {
            samples: self.samples@,
            sample_rate: self.sample_rate as nat,
            position: self.position as nat,
            playing: self.playing,
            paused: self.paused,
            snippet: self.samples@.subrange(self.snippet_start as int, self.snippet_end as int),
            generation: self.generation as nat,
        }
    }
}

impl PlaybackSession {
    /// The session's invariant: the cursor lies within the buffer, a paused
    /// session is playing, and the rate leaves room for the container's byte rate.
    pub open spec fn wf(&self) -> bool {
        &&& self@.position <= self@.samples.len()
        &&& self@.paused ==> self@.playing
        &&& 2 * self@.sample_rate <= u32::MAX
        &&& self.inner_wf()
    }

    pub closed spec fn inner_wf(&self) -> bool {
        self.snippet_start <= self.snippet_end <= self.samples@.len()
    }

    /// An idle session with an empty buffer, for audio at `sample_rate` Hz.
    pub fn new(sample_rate: u32) -> (r: Self)
        requires
            2 * sample_rate <= u32::MAX,
        ensures
            r.wf(),
            r@ == (SessionView {
                samples: seq![],
                sample_rate: sample_rate as nat,
                position: 0,
                playing: false,
                paused: false,
                snippet: seq![],
                generation: 0,
            }),
    {
        let r = PlaybackSession {
            samples: Vec::new(),
            sample_rate,
            position: 0,
            playing: false,
            paused: false,
            snippet_start: 0,
            snippet_end: 0,
            generation: 0,
        };
        assert(r@.snippet =~= seq![]);
        r
    }

    pub fn sample_rate(&self) -> (r: u32)
        ensures
            r as nat == self@.sample_rate,
    {
        self.sample_rate
    }

    pub fn position(&self) -> (r: usize)
        ensures
            r as nat == self@.position,
    {
        self.position
    }

    pub fn len(&self) -> (r: usize)
        ensures
            r as nat == self@.samples.len(),
    {
        self.samples.len()
    }

    pub fn generation(&self) -> (r: u64)
        ensures
            r as nat == self@.generation,
    {
        self.generation
    }

    /// Installs the samples decoded from raw PCM bytes as the new buffer, with
    /// the cursor at the start and playback idle. Fails when no sample could
    /// be decoded; the buffer is then empty.
    pub fn load_pcm(&mut self, pcm: &[u8]) -> (r: Result<(), PlaybackError>)
        requires
            old(self).wf(),
        ensures
            final(self).wf(),
            final(self)@ == loaded(old(self)@, decoded(pcm@)),
            r is Ok <==> decoded(pcm@).len() > 0,
            r is Err ==> r == Err::<(), PlaybackError>(PlaybackError::NoAudio),
    {
        let samples = decode_pcm(pcm);
        let empty = samples.len() == 0;
        self.samples = samples;
        self.position = 0;
        self.playing = false;
        self.paused = false;
        self.snippet_start = 0;
        self.snippet_end = 0;
        assert(self@.snippet =~= seq![]);
        if empty {
            Err(PlaybackError::NoAudio)
        } else {
            Ok(())
        }
    }

    /// The container holding the samples from the cursor to the end, ready for
    /// an output device.
    pub fn clip_from_cursor(&self) -> (r: Result<Vec<u8>, PlaybackError>)
        requires
            self.wf(),
        ensures
            self@.samples.len() == 0 <==> r == Err::<Vec<u8>, PlaybackError>(
                PlaybackError::NoAudio,
            ),
            (self@.samples.len() > 0 && self@.position == self@.samples.len()) <==> r
                == Err::<Vec<u8>, PlaybackError>(PlaybackError::AtEnd),
            (self@.position < self@.samples.len() && !container_fits(
                (self@.samples.len() - self@.position) as nat,
                self@.sample_rate,
            )) <==> r == Err::<Vec<u8>, PlaybackError>(PlaybackError::TooLong),
            r is Ok ==> r.unwrap()@ == container(
                self@.samples.subrange(self@.position as int, self@.samples.len() as int),
                self@.sample_rate,
            ),
    {
        let n = self.samples.len();
        if n == 0 {
            return Err(PlaybackError::NoAudio);
        }
        if self.position >= n {
            return Err(PlaybackError::AtEnd);
        }
        let rest = n - self.position;
        if rest > MAX_CLIP_SAMPLES {
            return Err(PlaybackError::TooLong);
        }
        let tail = copy_range(&self.samples, self.position, n);
        Ok(encode_container(tail.as_slice(), self.sample_rate))
    }

    /// Records that output has started from the cursor, under a new generation
    /// that the tracker of this playback must present; returns that generation.
    pub fn mark_started(&mut self) -> (g: u64)
        requires
            old(self).wf(),
        ensures
            final(self).wf(),
            final(self)@ == started(old(self)@),
            g as nat == final(self)@.generation,
    {
        self.generation = if self.generation == u64::MAX {
            0
        } else {
            self.generation + 1
        };
        self.playing = true;
        self.paused = false;
        self.generation
    }

    /// Suspends an active playback; otherwise does nothing.
    pub fn pause(&mut self)
        requires
            old(self).wf(),
        ensures
            final(self).wf(),
            final(self)@ == paused_state(old(self)@),
    {
        if self.playing && !self.paused {
            self.paused = true;
        }
    }

    /// Lets a paused playback go on; otherwise does nothing.
    pub fn resume(&mut self)
        requires
            old(self).wf(),
        ensures
            final(self).wf(),
            final(self)@ == resumed_state(old(self)@),
    {
        if self.paused {
            self.paused = false;
        }
    }

    /// Halts playback: idle, cursor at the start, no snippet. The buffer stays.
    pub fn stop(&mut self)
        requires
            old(self).wf(),
        ensures
            final(self).wf(),
            final(self)@ == stopped(old(self)@),
    {
        self.playing = false;
        self.paused = false;
        self.position = 0;
        self.snippet_start = 0;
        self.snippet_end = 0;
        assert(self@.snippet =~= seq![]);
    }

    /// Whether output is running (playing and not paused).
    pub fn is_playing(&self) -> (r: bool)
        ensures
            r == active(self@),
    {
        self.playing && !self.paused
    }

    pub fn is_paused(&self) -> (r: bool)
        ensures
            r == self@.paused,
    {
        self.paused
    }

    /// Moves the cursor to `target`, clamped to the buffer. Returns whether
    /// playback was active, in which case it has been stopped and the caller
    /// restarts output from the new cursor.
    pub fn seek_to(&mut self, target: usize) -> (restart: bool)
        requires
            old(self).wf(),
        ensures
            final(self).wf(),
            final(self)@ == seeked(old(self)@, target as nat),
            restart == active(old(self)@),
    {
        let was_active = self.playing && !self.paused;
        let n = self.samples.len();
        self.position = if target <= n {
            target
        } else {
            n
        };
        if was_active {
            self.playing = false;
        }
        was_active
    }

    /// Moves the cursor forward by `millis` milliseconds of audio, at most to the end.
    pub fn skip_forward(&mut self, millis: u64) -> (restart: bool)
        requires
            old(self).wf(),
        ensures
            final(self).wf(),
            final(self)@ == seeked(old(self)@, skip_forward_target(old(self)@, millis as nat)),
            restart == active(old(self)@),
    {
        let k = samples_for(self.sample_rate, millis);
        let n = self.samples.len();
        let target = if k >= n - self.position {
            n
        } else {
            self.position + k
        };
        self.seek_to(target)
    }

    /// Moves the cursor back by `millis` milliseconds of audio, at most to the start.
    pub fn skip_backward(&mut self, millis: u64) -> (restart: bool)
        requires
            old(self).wf(),
        ensures
            final(self).wf(),
            final(self)@ == seeked(old(self)@, skip_backward_target(old(self)@, millis as nat)),
            restart == active(old(self)@),
    {
        let k = samples_for(self.sample_rate, millis);
        let target = if self.position >= k {
            self.position - k
        } else {
            0
        };
        self.seek_to(target)
    }

    /// Playback progress as `(done, total)`, `total` positive.
    pub fn progress(&self) -> (r: (usize, usize))
        requires
            self.wf(),
        ensures
            (r.0 as nat, r.1 as nat) == progress_of(self@),
    {
        if self.samples.len() == 0 {
            (0, 1)
        } else {
            (self.position, self.samples.len())
        }
    }

    /// The recent snippet, when it is long enough to analyse.
    pub fn snippet_for_analysis(&self) -> (r: Option<Vec<i16>>)
        requires
            self.wf(),
        ensures
            r is None <==> self@.snippet.len() < MIN_ANALYSIS_SAMPLES,
            r is Some ==> r.unwrap()@ == self@.snippet,
    {
        if self.snippet_end - self.snippet_start < MIN_ANALYSIS_SAMPLES {
            None
        } else {
            Some(copy_range(&self.samples, self.snippet_start, self.snippet_end))
        }
    }

    /// One wake of the tracker started under generation `g`: advances the
    /// cursor by one tick's worth of samples while playing and not paused,
    /// keeps the samples just passed as the snippet, and ends playback at the
    /// end of the buffer. A tracker of an older generation, or one that finds
    /// playback stopped, changes nothing and is told to finish.
    pub fn tick(&mut self, g: u64) -> (step: TrackerStep)
        requires
            old(self).wf(),
        ensures
            final(self).wf(),
            final(self)@ == ticked(old(self)@, g as nat),
            step == TrackerStep::Continue <==> tick_continues(old(self)@, g as nat),
    {
        if g != self.generation || !self.playing {
            return TrackerStep::Finish;
        }
        if self.paused {
            return TrackerStep::Continue;
        }
        let step = samples_for(self.sample_rate, TICK_MILLIS);
        let n = self.samples.len();
        if step >= n - self.position {
            self.playing = false;
            self.position = n;
            TrackerStep::Finish
        } else {
            let np = self.position + step;
            self.snippet_start = self.position;
            self.snippet_end = np;
            self.position = np;
            TrackerStep::Continue
        }
    }
}

/// Number of samples in `millis` milliseconds at `rate` Hz, saturated to `usize`.
fn samples_for(rate: u32, millis: u64) -> (r: usize)
    ensures
        r as nat == min_nat(samples_for_millis(rate as nat, millis as nat), usize::MAX as nat),
{
    assert(rate as nat * millis as nat <= u32::MAX as nat * u64::MAX as nat) by (nonlinear_arith)
        requires
            rate <= u32::MAX,
            millis <= u64::MAX,
    ;
    let prod: u128 = rate as u128 * millis as u128;
    let k: u128 = prod / 1000;
    if k > usize::MAX as u128 {
        usize::MAX
    } else {
        k as usize
    }
}

fn copy_range(v: &Vec<i16>, from: usize, to: usize) -> (r: Vec<i16>)
    requires
        from <= to <= v@.len(),
    ensures
        r@ == v@.subrange(from as int, to as int),
{
    let mut out: Vec<i16> = Vec::with_capacity(to - from);
    let mut i: usize = from;
    while i < to
        invariant
            from <= i <= to <= v@.len(),
            out@ =~= v@.subrange(from as int, i as int),
        decreases to - i,
    {
        out.push(v[i]);
        i += 1;
    }
    out
}

} // verus!
