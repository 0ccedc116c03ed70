//! Integer bookkeeping behind the session metrics: the one-second window of
//! received bytes from which the bitrate is derived, and the session clock.
//! Times are milliseconds on a monotonic clock.
use vstd::prelude::*;

verus! {

/// Length of the bitrate window.
pub const BITRATE_WINDOW_MS: u64 = 1000;

/// Time from `then` to `now`, zero where the clock reads earlier.
pub open spec fn elapsed_ms(then: u64, now: u64) -> u64 {
    if now >= then {
        (now - then) as u64
    } else {
        0
    }
}

/// Bytes received over one closed window and the window's length.
#[derive(Debug, Clone, Copy, PartialEq, Eq, Structural)]
pub struct RateSample {
    pub bytes: u64,
    pub elapsed_ms: u64,
}

/// One step of the window: counting `bytes` at `now` with `pending` bytes
/// in a window opened at `start` gives the closed window's sample, if the
/// window is at least `BITRATE_WINDOW_MS` old, and the new pending count and
/// start.
pub open spec fn window_step(pending: u64, start: u64, bytes: u64, now: u64) -> (Option<RateSample>, u64, u64) {
    let total = (pending + bytes) as u64;
    let elapsed = elapsed_ms(start, now);
    if elapsed >= BITRATE_WINDOW_MS {
        (Some(RateSample { bytes: total, elapsed_ms: elapsed }), 0, now)
    } else {
        (None, total, start)
    }
}

/// Counts received bytes and closes the window once it is at least
/// `BITRATE_WINDOW_MS` long.
#[derive(Debug, Clone, Copy)]
pub struct ByteRateWindow {
    accumulated: u64,
    window_start_ms: u64,
}

impl ByteRateWindow {
    /// Bytes counted in the open window.
    pub closed spec fn pending(&self) -> u64 {
        self.accumulated
    }

    /// When the open window started.
    pub closed spec fn started_at(&self) -> u64 {
        self.window_start_ms
    }

    /// An empty window opened at `now_ms`.
    pub fn new(now_ms: u64) -> (r: Self)
        ensures
            r.pending() == 0,
            r.started_at() == now_ms,
    {
        ByteRateWindow { accumulated: 0, window_start_ms: now_ms }
    }

    /// Bytes counted in the open window.
    pub fn pending_bytes(&self) -> (r: u64)
        ensures
            r == self.pending(),
    {
        self.accumulated
    }

    /// Counts `bytes` received at `now_ms`. Once the window is at least
    /// `BITRATE_WINDOW_MS` old it is closed: its total and length are
    /// returned and a new window opens at `now_ms`.
    pub fn add_bytes(&mut self, bytes: u64, now_ms: u64) -> (r: Option<RateSample>)
        requires
            old(self).pending() + bytes <= u64::MAX,
        ensures
            (r, final(self).pending(), final(self).started_at()) == window_step(
                old(self).pending(),
                old(self).started_at(),
                bytes,
                now_ms,
            ),
    {
        self.accumulated = self.accumulated + bytes;
        let elapsed = if now_ms >= self.window_start_ms { now_ms - self.window_start_ms } else { 0 };
        if elapsed >= BITRATE_WINDOW_MS {
            let recv = self.accumulated;
            self.accumulated = 0;
            self.window_start_ms = now_ms;
            Some(RateSample { bytes: recv, elapsed_ms: elapsed })
        } else {
            None
        }
    }
}

/// No received byte is lost or counted twice: what a step reports plus what
/// stays pending equals what was pending plus what was added, and a
/// reported window is never shorter than `BITRATE_WINDOW_MS`.
pub proof fn lemma_bytes_conserved(pending: u64, start: u64, bytes: u64, now: u64)
    requires
        pending + bytes <= u64::MAX,
    ensures
        ({
            let (sample, after, _) = window_step(pending, start, bytes, now);
            &&& (match sample {
                Some(s) => s.bytes as int,
                None => 0,
            }) + after == pending + bytes
            &&& sample matches Some(s) ==> s.elapsed_ms >= BITRATE_WINDOW_MS
        }),
{
}

/// When the current session started, if one is running.
#[derive(Debug, Clone, Copy)]
pub struct SessionClock {
    start_ms: Option<u64>,
}

impl SessionClock {
    pub closed spec fn started(&self) -> Option<u64> {
        self.start_ms
    }

    pub fn new() -> (r: Self)
        ensures
            r.started() is None,
    {
        SessionClock { start_ms: None }
    }

    pub fn start_session(&mut self, now_ms: u64)
        ensures
            final(self).started() == Some(now_ms),
    {
        self.start_ms = Some(now_ms);
    }

    pub fn stop_session(&mut self)
        ensures
            final(self).started() is None,
    {
        self.start_ms = None;
    }

    /// Whole seconds since the session started, if one is running.
    pub fn active_duration_secs(&self, now_ms: u64) -> (r: Option<u64>)
        ensures
            match self.started() {
                Some(s) => r == Some((elapsed_ms(s, now_ms) / 1000) as u64),
                None => r is None,
            },
    {
        match self.start_ms {
            Some(s) => {
                let elapsed = if now_ms >= s { now_ms - s } else { 0 };
                Some(elapsed / 1000)
            },
            None => None,
        }
    }
}

} // verus!
