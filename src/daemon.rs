//! The focus-duration aggregator and the daemon that owns it.
//!
//! Each focus signal closes the interval opened by the one before it; an
//! interval in which no window held focus is never recorded. The interval
//! still open when the signals stop is dropped.

use vstd::prelude::*;
use crate::compositor::{get_current_compositor, selection_outcome, CompositorKind, ConfigError, Selector};
use crate::window::WindowInfo;

verus! {

/// A finished focus interval, as handed to storage.
pub struct FocusRecord {
    pub app_name: String,
    pub title: String,
    /// Length of the interval on the monotonic clock, in milliseconds.
    pub duration_ms: u64,
    /// Wall-clock start, in milliseconds since the Unix epoch.
    pub start_timestamp_ms: i64,
    /// Wall-clock end, in milliseconds since the Unix epoch.
    pub end_timestamp_ms: i64,
}

impl View for FocusRecord {
    type V = (Seq<char>, Seq<char>, u64, i64, i64);

    open spec fn view(&self) -> (Seq<char>, Seq<char>, u64, i64, i64) {
        (self.app_name@, self.title@, self.duration_ms, self.start_timestamp_ms, self.end_timestamp_ms)
    }
}

/// A signal's payload seen through its characters.
pub open spec fn signal_view(w: Option<WindowInfo>) -> Option<(Seq<char>, Seq<char>)> {
    match w {
        Some(i) => Some(i@),
        None => None,
    }
}

/// The record that closes an interval of `window` (title, application)
/// opened at `start` and closed at `end`; each instant is (monotonic, wall).
pub open spec fn record_for(window: (Seq<char>, Seq<char>), start: (u64, i64), end: (u64, i64)) -> (Seq<char>, Seq<char>, u64, i64, i64) {
    (window.1, window.0, (end.0 - start.0) as u64, start.1, end.1)
}

/// The aggregator: the window focused since the last signal, and when that began.
pub struct FocusTracker {
    current: Option<WindowInfo>,
    start_mono_ms: u64,
    start_wall_ms: i64,
}

impl FocusTracker {
    /// The window whose interval is open, if any.
    pub closed spec fn current(&self) -> Option<(Seq<char>, Seq<char>)> {
        signal_view(self.current)
    }

    /// When the open interval began: (monotonic, wall) milliseconds.
    pub closed spec fn started(&self) -> (u64, i64) {
        (self.start_mono_ms, self.start_wall_ms)
    }

    /// A tracker with no interval open, started at the given instant.
    pub fn new(now_mono_ms: u64, now_wall_ms: i64) -> (r: FocusTracker)
        ensures
            r.current() == None::<(Seq<char>, Seq<char>)>,
            r.started() == (now_mono_ms, now_wall_ms),
    {
        FocusTracker { current: None, start_mono_ms: now_mono_ms, start_wall_ms: now_wall_ms }
    }

    /// The monotonic instant at which the open interval began.
    pub fn start_mono_ms(&self) -> (r: u64)
        ensures
            r == self.started().0,
    {
        self.start_mono_ms
    }

    /// The window whose interval is open, if any.
    pub fn current_window(&self) -> (r: Option<&WindowInfo>)
        ensures
            r matches Some(w) ==> self.current() == Some(w@),
            r is None ==> self.current() is None,
    {
        match &self.current {
            Some(w) => Some(w),
            None => None,
        }
    }

    /// Takes the next focus signal at the given instant: closes the open
    /// interval, if any, into a record, and opens one for `next` (none when
    /// `next` is `None`).
    pub fn on_signal(&mut self, next: Option<WindowInfo>, now_mono_ms: u64, now_wall_ms: i64) -> (r: Option<FocusRecord>)
        requires
            old(self).started().0 <= now_mono_ms,
        ensures
            match old(self).current() {
                Some(w) => r matches Some(rec) && rec@ == record_for(w, old(self).started(), (now_mono_ms, now_wall_ms)),
                None => r is None,
            },
            final(self).current() == signal_view(next),
            final(self).started() == (now_mono_ms, now_wall_ms),
    {
        let finished = match self.current.take() {
            Some(prev) => Some(FocusRecord {
                app_name: prev.app_name,
                title: prev.title,
                duration_ms: now_mono_ms - self.start_mono_ms,
                start_timestamp_ms: self.start_wall_ms,
                end_timestamp_ms: now_wall_ms,
            }),
            None => None,
        };
        self.current = next;
        self.start_mono_ms = now_mono_ms;
        self.start_wall_ms = now_wall_ms;
        finished
    }
}

/// The daemon: which compositor it watches.
pub struct Daemon {
    compositor: CompositorKind,
}

impl Daemon {
    /// A daemon for the compositor that the selector value names.
    pub fn new(selector: Selector) -> (r: Result<Daemon, ConfigError>)
        ensures
            match r {
                Ok(d) => selection_outcome(selector, Ok(d.compositor())),
                Err(e) => selection_outcome(selector, Err(e)),
            },
    {
        match get_current_compositor(selector) {
            Ok(compositor) => Ok(Daemon { compositor }),
            Err(e) => Err(e),
        }
    }

    /// The compositor this daemon watches.
    pub closed spec fn compositor(&self) -> CompositorKind {
        self.compositor
    }

    /// The compositor this daemon watches.
    pub fn compositor_kind(&self) -> (r: CompositorKind)
        ensures
            r == self.compositor(),
    {
        self.compositor
    }
}

} // verus!
