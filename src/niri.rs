//! The niri window cache and the interpreter of niri's event stream.
//!
//! The cache maps window ids to records and remembers which id holds focus.
//! Full snapshots replace it wholesale; deltas update it in place. An event
//! that names an unknown window is ignored, never fatal.

use std::collections::HashMap;
use vstd::prelude::*;
use crate::compositor::FocusError;
use crate::window::{info_of, opt_text, same_text, WindowInfo, WindowRecord};

verus! {

broadcast use vstd::std_specs::hash::group_hash_axioms;

/// An event of the compositor's stream, in the terms the cache needs.
#[allow(inconsistent_fields)]
pub enum CompositorEvent {
    /// The full window list; it replaces everything known so far.
    WindowsChanged { windows: Vec<WindowRecord> },
    /// A window was opened, or one already open changed.
    WindowOpenedOrChanged { window: WindowRecord },
    /// A window was closed.
    WindowClosed { id: u64 },
    /// Focus moved to the given window, or to none.
    WindowFocusChanged { id: Option<u64> },
    /// A window's urgency changed.
    WindowUrgencyChanged { id: u64, urgent: bool },
    /// The layout of some windows changed.
    WindowLayoutsChanged { changes: Vec<(u64, niri_ipc::WindowLayout)> },
    /// Any event that does not concern the window cache.
    Other,
}

/// Where a niri session stands: no window list yet, the list fetched, the
/// event stream subscribed, or the transport gone.
#[derive(Clone, Copy, PartialEq, Eq, Structural, Debug)]
pub enum SessionPhase {
    Uninitialized,
    Synced,
    Streaming,
    Closed,
}

/// A request this library sends on niri's socket.
#[derive(Clone, Copy, PartialEq, Eq, Structural, Debug)]
pub enum NiriRequest {
    /// The full window list.
    Windows,
    /// The focused window.
    FocusedWindow,
    /// Subscription to the event stream.
    EventStream,
}

/// A reply of niri's socket, in the terms this library reads.
pub enum NiriReply {
    Windows(Vec<WindowRecord>),
    FocusedWindow(Option<WindowRecord>),
    Handled,
    /// Any reply this library does not read.
    Other,
}

/// Whether `reply` is the kind of reply that `request` calls for.
pub open spec fn reply_answers(request: NiriRequest, reply: NiriReply) -> bool {
    match (request, reply) {
        (NiriRequest::Windows, NiriReply::Windows(_)) => true,
        (NiriRequest::FocusedWindow, NiriReply::FocusedWindow(_)) => true,
        (NiriRequest::EventStream, NiriReply::Handled) => true,
        _ => false,
    }
}

/// Whether `r` is a protocol error carrying `message`.
pub open spec fn is_protocol_error<T>(r: Result<T, FocusError>, message: Seq<char>) -> bool {
    r matches Err(FocusError::ProtocolError(m)) && m@ == message
}

/// Whether `r` is a protocol error.
pub open spec fn is_any_protocol_error<T>(r: Result<T, FocusError>) -> bool {
    r matches Err(FocusError::ProtocolError(_))
}

/// The error for a reply of the wrong kind.
fn unexpected_reply<T>() -> (r: Result<T, FocusError>)
    ensures
        is_any_protocol_error(r),
{
    Err(FocusError::ProtocolError("Unexpected reply from niri IPC socket".to_string()))
}

/// What an event may hand downstream: nothing, or a focus signal, whose payload
/// is the newly focused window, or `None` when no window holds focus.
pub type Emitted = Option<Option<WindowInfo>>;

/// The spec-level view of a signal.
pub open spec fn emitted_view(e: Emitted) -> Option<Option<(Seq<char>, Seq<char>)>> {
    match e {
        Some(Some(w)) => Some(Some(w@)),
        Some(None) => Some(None),
        None => None,
    }
}

/// The state of the cache: the windows by id, and the id that holds focus.
pub type CacheState = (Map<u64, WindowRecord>, Option<u64>);

/// A signal at the spec level.
pub type SignalView = Option<Option<(Seq<char>, Seq<char>)>>;

/// `r` with its focus flag set to `f`.
pub open spec fn with_focus(r: WindowRecord, f: bool) -> WindowRecord {
    WindowRecord { is_focused: f, ..r }
}

/// `r` with its urgency set to `u`.
pub open spec fn with_urgency(r: WindowRecord, u: bool) -> WindowRecord {
    WindowRecord { is_urgent: u, ..r }
}

/// `r` with its layout replaced.
pub open spec fn with_layout(r: WindowRecord, l: niri_ipc::WindowLayout) -> WindowRecord {
    WindowRecord { layout: l, ..r }
}

/// Clears the focus flag of window `id`, where the map holds it.
pub open spec fn unfocus(m: Map<u64, WindowRecord>, id: u64) -> Map<u64, WindowRecord> {
    if m.contains_key(id) {
        m.insert(id, with_focus(m[id], false))
    } else {
        m
    }
}

/// The cache that a full list leaves: each id maps to its last record in the list.
pub open spec fn snapshot_map(ws: Seq<WindowRecord>) -> Map<u64, WindowRecord>
    decreases ws.len(),
{
    if ws.len() == 0 {
        Map::empty()
    } else {
        snapshot_map(ws.drop_last()).insert(ws.last().id, ws.last())
    }
}

/// The focused id that a full list leaves: that of its last record marked focused.
pub open spec fn snapshot_focus(ws: Seq<WindowRecord>) -> Option<u64>
    decreases ws.len(),
{
    if ws.len() == 0 {
        None
    } else if ws.last().is_focused {
        Some(ws.last().id)
    } else {
        snapshot_focus(ws.drop_last())
    }
}

/// The layout changes applied in order, each to a window the map holds.
pub open spec fn apply_layouts(m: Map<u64, WindowRecord>, cs: Seq<(u64, niri_ipc::WindowLayout)>) -> Map<u64, WindowRecord>
    decreases cs.len(),
{
    if cs.len() == 0 {
        m
    } else {
        let prev = apply_layouts(m, cs.drop_last());
        let (id, l) = cs.last();
        if prev.contains_key(id) {
            prev.insert(id, with_layout(prev[id], l))
        } else {
            prev
        }
    }
}

/// The cache after an opened-or-changed event. A window reported focused takes
/// focus from every other.
pub open spec fn upsert_state(s: CacheState, w: WindowRecord) -> CacheState {
    let (m, focused) = s;
    let cleared = match focused {
        Some(f) => if w.is_focused && f != w.id { unfocus(m, f) } else { m },
        None => m,
    };
    (cleared.insert(w.id, w), if w.is_focused { Some(w.id) } else { focused })
}

/// The signal of an opened-or-changed event: one exactly when the cached window
/// is marked focused and the title differs.
pub open spec fn upsert_signal(s: CacheState, w: WindowRecord) -> SignalView {
    let m = s.0;
    if m.contains_key(w.id) && m[w.id].is_focused && opt_text(m[w.id].title) != opt_text(w.title) {
        Some(Some(info_of(w)))
    } else {
        None
    }
}

/// The cache after focus moves to `id`: the previous focus flag is cleared,
/// and the new one set where the window is known.
pub open spec fn focus_state(s: CacheState, id: Option<u64>) -> CacheState {
    let (m, focused) = s;
    let cleared = match focused {
        Some(f) => unfocus(m, f),
        None => m,
    };
    match id {
        Some(i) => if cleared.contains_key(i) {
            (cleared.insert(i, with_focus(cleared[i], true)), id)
        } else {
            (cleared, id)
        },
        None => (cleared, None),
    }
}

/// The signal of a focus change: the new window where it is known, `None` for
/// no focus, and nothing for an unknown window.
pub open spec fn focus_signal(s: CacheState, id: Option<u64>) -> SignalView {
    match id {
        Some(i) => if s.0.contains_key(i) { Some(Some(info_of(s.0[i]))) } else { None },
        None => Some(None),
    }
}

/// The state after one event.
pub open spec fn step_state(s: CacheState, e: CompositorEvent) -> CacheState {
    let (m, focused) = s;
    match e {
        CompositorEvent::WindowsChanged { windows } => (snapshot_map(windows@), snapshot_focus(windows@)),
        CompositorEvent::WindowOpenedOrChanged { window } => upsert_state(s, window),
        CompositorEvent::WindowClosed { id } => (m.remove(id), focused),
        CompositorEvent::WindowFocusChanged { id } => focus_state(s, id),
        CompositorEvent::WindowUrgencyChanged { id, urgent } => if m.contains_key(id) {
            (m.insert(id, with_urgency(m[id], urgent)), focused)
        } else {
            s
        },
        CompositorEvent::WindowLayoutsChanged { changes } => (apply_layouts(m, changes@), focused),
        CompositorEvent::Other => s,
    }
}

/// The signal that one event emits.
pub open spec fn step_signal(s: CacheState, e: CompositorEvent) -> SignalView {
    match e {
        CompositorEvent::WindowOpenedOrChanged { window } => upsert_signal(s, window),
        CompositorEvent::WindowFocusChanged { id } => focus_signal(s, id),
        _ => None,
    }
}

/// The cache keeps focus consistent: every window marked focused is the one
/// the cache records as focused.
pub open spec fn focus_consistent(s: CacheState) -> bool {
    forall|id: u64| #[trigger] s.0.contains_key(id) && s.0[id].is_focused ==> s.1 == Some(id)
}

/// At most one window is marked focused.
pub open spec fn at_most_one_focused(m: Map<u64, WindowRecord>) -> bool {
    forall|a: u64, b: u64|
        #[trigger] m.contains_key(a) && #[trigger] m.contains_key(b) && m[a].is_focused && m[b].is_focused ==> a == b
}

/// The window cache of a niri session.
pub struct Niri {
    windows: HashMap<u64, WindowRecord>,
    focused_window_id: Option<u64>,
    phase: SessionPhase,
}

impl Niri {
    /// The windows the cache holds, by id.
    pub closed spec fn cache(&self) -> Map<u64, WindowRecord> {
        self.windows@
    }

    /// The id the cache records as focused.
    pub closed spec fn focused(&self) -> Option<u64> {
        self.focused_window_id
    }

    /// Where the session stands.
    pub closed spec fn phase(&self) -> SessionPhase {
        self.phase
    }

    /// The whole state.
    pub open spec fn state(&self) -> CacheState {
        (self.cache(), self.focused())
    }

    /// An empty cache: no window known, none focused, nothing fetched yet.
    pub fn new() -> (r: Niri)
        ensures
            r.cache() == Map::<u64, WindowRecord>::empty(),
            r.focused() == None::<u64>,
            r.phase() == SessionPhase::Uninitialized,
    {
        Niri { windows: HashMap::new(), focused_window_id: None, phase: SessionPhase::Uninitialized }
    }

    /// Where the session stands.
    pub fn session_phase(&self) -> (r: SessionPhase)
        ensures
            r == self.phase(),
    {
        self.phase
    }

    /// Takes the reply to the event-stream subscription: a `Handled` reply
    /// starts streaming; anything else is a protocol error and closes the
    /// session. The cache is left as it was.
    pub fn confirm_event_stream(&mut self, reply: Result<NiriReply, String>) -> (r: Result<(), FocusError>)
        ensures
            final(self).state() == old(self).state(),
            match reply {
                Ok(rep) => (r is Ok <==> reply_answers(NiriRequest::EventStream, rep)) && (r is Err ==> is_any_protocol_error(r)),
                Err(m) => is_protocol_error(r, m@),
            },
            final(self).phase() == (if r is Ok { SessionPhase::Streaming } else { SessionPhase::Closed }),
    {
        match reply {
            Ok(NiriReply::Handled) => {
                self.phase = SessionPhase::Streaming;
                Ok(())
            },
            Ok(_) => {
                self.phase = SessionPhase::Closed;
                unexpected_reply()
            },
            Err(m) => {
                self.phase = SessionPhase::Closed;
                Err(FocusError::ProtocolError(m))
            },
        }
    }

    /// Marks the session closed: the transport ended or failed.
    pub fn close(&mut self)
        ensures
            final(self).state() == old(self).state(),
            final(self).phase() == SessionPhase::Closed,
    {
        self.phase = SessionPhase::Closed;
    }

    /// The id the cache records as focused.
    pub fn focused_window_id(&self) -> (r: Option<u64>)
        ensures
            r == self.focused(),
    {
        self.focused_window_id
    }

    /// The cached record of window `id`, if any.
    pub fn window(&self, id: u64) -> (r: Option<&WindowRecord>)
        ensures
            match r {
                Some(w) => self.cache().contains_key(id) && *w == self.cache()[id],
                None => !self.cache().contains_key(id),
            },
    {
        self.windows.get(&id)
    }

    /// How many windows the cache holds.
    pub fn len(&self) -> (r: usize)
        ensures
            r == self.cache().len(),
    {
        self.windows.len()
    }

    /// Clears the focus flag of window `id`, where the cache holds it.
    fn unfocus_window(&mut self, id: u64)
        ensures
            final(self).phase() == old(self).phase(),
            final(self).cache() == unfocus(old(self).cache(), id),
            final(self).focused() == old(self).focused(),
    {
        match self.windows.remove(&id) {
            Some(mut w) => {
                w.is_focused = false;
                self.windows.insert(id, w);
                assert(self.windows@ =~= unfocus(old(self).cache(), id));
            },
            None => {
                assert(self.windows@ =~= old(self).cache());
            },
        }
    }

    /// Replaces the cache with `new_windows`; the focused id becomes that of
    /// the last window in the list marked focused, or none.
    pub fn populate_windows(&mut self, new_windows: Vec<WindowRecord>)
        ensures
            final(self).phase() == old(self).phase(),
            final(self).cache() == snapshot_map(new_windows@),
            final(self).focused() == snapshot_focus(new_windows@),
    {
        let ghost ws = new_windows@;
        self.windows.clear();
        self.focused_window_id = None;
        for window in it: new_windows
            invariant
                it.seq() == ws,
                self.phase == old(self).phase(),
                self.windows@ == snapshot_map(ws.take(it.index() as int)),
                self.focused_window_id == snapshot_focus(ws.take(it.index() as int)),
        {
            proof {
                assert(ws.take(it.index() + 1).drop_last() =~= ws.take(it.index() as int));
            }
            if window.is_focused {
                self.focused_window_id = Some(window.id);
            }
            self.windows.insert(window.id, window);
        }
        proof {
            assert(ws.take(ws.len() as int) =~= ws);
        }
    }

    /// Sets the urgency of window `id`, where the cache holds it.
    fn set_urgency(&mut self, id: u64, urgent: bool)
        ensures
            final(self).phase() == old(self).phase(),
            final(self).cache() == (if old(self).cache().contains_key(id) {
                old(self).cache().insert(id, with_urgency(old(self).cache()[id], urgent))
            } else {
                old(self).cache()
            }),
            final(self).focused() == old(self).focused(),
    {
        match self.windows.remove(&id) {
            Some(mut w) => {
                w.is_urgent = urgent;
                self.windows.insert(id, w);
                assert(self.windows@ =~= old(self).cache().insert(id, with_urgency(old(self).cache()[id], urgent)));
            },
            None => {
                assert(self.windows@ =~= old(self).cache());
            },
        }
    }

    /// Applies layout changes in order, skipping windows the cache does not hold.
    fn set_layouts(&mut self, changes: Vec<(u64, niri_ipc::WindowLayout)>)
        ensures
            final(self).phase() == old(self).phase(),
            final(self).cache() == apply_layouts(old(self).cache(), changes@),
            final(self).focused() == old(self).focused(),
    {
        let ghost cs = changes@;
        let ghost m0 = self.windows@;
        for change in it: changes
            invariant
                it.seq() == cs,
                self.phase == old(self).phase(),
                m0 == old(self).cache(),
                self.focused_window_id == old(self).focused(),
                self.windows@ == apply_layouts(m0, cs.take(it.index() as int)),
        {
            proof {
                assert(cs.take(it.index() + 1).drop_last() =~= cs.take(it.index() as int));
            }
            let (id, layout) = change;
            match self.windows.remove(&id) {
                Some(mut w) => {
                    w.layout = layout;
                    self.windows.insert(id, w);
                    assert(self.windows@ =~= apply_layouts(m0, cs.take(it.index() + 1)));
                },
                None => {
                    assert(self.windows@ =~= apply_layouts(m0, cs.take(it.index() + 1)));
                },
            }
        }
        proof {
            assert(cs.take(cs.len() as int) =~= cs);
        }
    }

    /// Takes the reply to a window-list request: a list replaces the cache
    /// and the session is synced; anything else is a protocol error, leaves
    /// the cache as it was, and closes the session.
    pub fn sync_windows(&mut self, reply: Result<NiriReply, String>) -> (r: Result<(), FocusError>)
        ensures
            match reply {
                Ok(NiriReply::Windows(ws)) => r is Ok && final(self).cache() == snapshot_map(ws@)
                    && final(self).focused() == snapshot_focus(ws@),
                Ok(_) => is_any_protocol_error(r) && final(self).state() == old(self).state(),
                Err(m) => is_protocol_error(r, m@) && final(self).state() == old(self).state(),
            },
            r is Ok ==> (reply matches Ok(rep) && reply_answers(NiriRequest::Windows, rep)),
            final(self).phase() == (if r is Ok { SessionPhase::Synced } else { SessionPhase::Closed }),
    {
        match reply {
            Ok(NiriReply::Windows(windows)) => {
                self.populate_windows(windows);
                self.phase = SessionPhase::Synced;
                Ok(())
            },
            Ok(_) => {
                self.phase = SessionPhase::Closed;
                unexpected_reply()
            },
            Err(m) => {
                self.phase = SessionPhase::Closed;
                Err(FocusError::ProtocolError(m))
            },
        }
    }

    /// Takes the reply to a focused-window request. A window becomes the
    /// recorded focus and its snapshot is returned; no window is `NoFocus`;
    /// anything else is a protocol error. The windows are left as they were.
    pub fn get_focused_window(&mut self, reply: Result<NiriReply, String>) -> (r: Result<WindowInfo, FocusError>)
        ensures
            final(self).phase() == old(self).phase(),
            final(self).cache() == old(self).cache(),
            match reply {
                Ok(NiriReply::FocusedWindow(Some(w))) => r matches Ok(info) && info@ == info_of(w)
                    && final(self).focused() == Some(w.id),
                Ok(NiriReply::FocusedWindow(None)) => r matches Err(FocusError::NoFocus)
                    && final(self).focused() == old(self).focused(),
                Ok(_) => is_any_protocol_error(r) && final(self).focused() == old(self).focused(),
                Err(m) => is_protocol_error(r, m@) && final(self).focused() == old(self).focused(),
            },
            r is Ok ==> (reply matches Ok(rep) && reply_answers(NiriRequest::FocusedWindow, rep)),
    {
        match reply {
            Ok(NiriReply::FocusedWindow(Some(window))) => {
                self.focused_window_id = Some(window.id);
                Ok(WindowInfo::from_record(&window))
            },
            Ok(NiriReply::FocusedWindow(None)) => Err(FocusError::NoFocus),
            Ok(_) => unexpected_reply(),
            Err(m) => Err(FocusError::ProtocolError(m)),
        }
    }

    /// Applies one event of the stream to the cache, and returns the focus
    /// signal it calls for, if any.
    pub fn handle_event(&mut self, event: CompositorEvent) -> (signal: Emitted)
        ensures
            final(self).phase() == old(self).phase(),
            final(self).state() == step_state(old(self).state(), event),
            emitted_view(signal) == step_signal(old(self).state(), event),
    {
        match event {
            CompositorEvent::WindowsChanged { windows } => {
                self.populate_windows(windows);
                None
            },
            CompositorEvent::WindowOpenedOrChanged { window } => {
                let id = window.id;
                let signal = match self.windows.get(&id) {
                    Some(existing) => {
                        if existing.is_focused && !same_text(&existing.title, &window.title) {
                            Some(Some(WindowInfo::from_record(&window)))
                        } else {
                            None
                        }
                    },
                    None => None,
                };
                if window.is_focused {
                    match self.focused_window_id {
                        Some(f) => {
                            if f != id {
                                self.unfocus_window(f);
                            }
                        },
                        None => {},
                    }
                    self.focused_window_id = Some(id);
                }
                self.windows.insert(id, window);
                signal
            },
            CompositorEvent::WindowClosed { id } => {
                self.windows.remove(&id);
                None
            },
            CompositorEvent::WindowFocusChanged { id } => {
                match self.focused_window_id {
                    Some(f) => self.unfocus_window(f),
                    None => {},
                }
                self.focused_window_id = id;
                match id {
                    Some(i) => match self.windows.remove(&i) {
                        Some(mut w) => {
                            w.is_focused = true;
                            let info = WindowInfo::from_record(&w);
                            self.windows.insert(i, w);
                            Some(Some(info))
                        },
                        None => None,
                    },
                    None => Some(None),
                }
            },
            CompositorEvent::WindowUrgencyChanged { id, urgent } => {
                self.set_urgency(id, urgent);
                None
            },
            CompositorEvent::WindowLayoutsChanged { changes } => {
                self.set_layouts(changes);
                None
            },
            CompositorEvent::Other => None,
        }
    }
}

/// The state after a sequence of events, applied in order.
pub open spec fn run_state(s: CacheState, events: Seq<CompositorEvent>) -> CacheState
    decreases events.len(),
{
    if events.len() == 0 {
        s
    } else {
        step_state(run_state(s, events.drop_last()), events.last())
    }
}

/// An event that opens, changes, closes or focuses a window.
pub open spec fn is_window_delta(e: CompositorEvent) -> bool {
    ||| e is WindowOpenedOrChanged
    ||| e is WindowClosed
    ||| e is WindowFocusChanged
}

/// Layout changes leave every window's presence and focus flag as they were.
proof fn lemma_layouts_keep_focus(m: Map<u64, WindowRecord>, cs: Seq<(u64, niri_ipc::WindowLayout)>)
    ensures
        apply_layouts(m, cs).dom() == m.dom(),
        forall|id: u64| #[trigger] m.contains_key(id) ==> apply_layouts(m, cs)[id].is_focused == m[id].is_focused,
    decreases cs.len(),
{
    if cs.len() > 0 {
        lemma_layouts_keep_focus(m, cs.drop_last());
        let prev = apply_layouts(m, cs.drop_last());
        let (id, l) = cs.last();
        if prev.contains_key(id) {
            assert(prev.insert(id, with_layout(prev[id], l)).dom() =~= prev.dom());
        }
    }
}

/// Layout changes that name only unknown windows leave the cache as it was.
proof fn lemma_layouts_of_unknown(m: Map<u64, WindowRecord>, cs: Seq<(u64, niri_ipc::WindowLayout)>)
    requires
        forall|i: int| 0 <= i < cs.len() ==> !m.contains_key(#[trigger] cs[i].0),
    ensures
        apply_layouts(m, cs) == m,
    decreases cs.len(),
{
    if cs.len() > 0 {
        lemma_layouts_of_unknown(m, cs.drop_last());
        assert(!m.contains_key(cs[cs.len() - 1].0));
    }
}

/// A consistent focus record allows at most one focused window.
pub proof fn lemma_consistent_has_one_focus(s: CacheState)
    requires
        focus_consistent(s),
    ensures
        at_most_one_focused(s.0),
{
    assert forall|a: u64, b: u64|
        #[trigger] s.0.contains_key(a) && #[trigger] s.0.contains_key(b) && s.0[a].is_focused && s.0[b].is_focused implies a == b by {
        assert(s.1 == Some(a));
        assert(s.1 == Some(b));
    }
}

/// Every event but a full snapshot keeps the focus record consistent.
pub proof fn lemma_step_keeps_focus_consistent(s: CacheState, e: CompositorEvent)
    requires
        focus_consistent(s),
        !(e is WindowsChanged),
    ensures
        focus_consistent(step_state(s, e)),
{
    let (m, focused) = s;
    match e {
        CompositorEvent::WindowOpenedOrChanged { window } => {
            let t = step_state(s, e);
            assert forall|id: u64| #[trigger] t.0.contains_key(id) && t.0[id].is_focused implies t.1 == Some(id) by {
                if id != window.id {
                    assert(m.contains_key(id) && m[id].is_focused ==> focused == Some(id));
                }
            }
        },
        CompositorEvent::WindowFocusChanged { id } => {
            let t = step_state(s, e);
            assert forall|k: u64| #[trigger] t.0.contains_key(k) && t.0[k].is_focused implies t.1 == Some(k) by {
                assert(m.contains_key(k) && m[k].is_focused ==> focused == Some(k));
            }
        },
        CompositorEvent::WindowClosed { id } => {
            let t = step_state(s, e);
            assert forall|k: u64| #[trigger] t.0.contains_key(k) && t.0[k].is_focused implies t.1 == Some(k) by {
                assert(m.contains_key(k));
            }
        },
        CompositorEvent::WindowUrgencyChanged { id, urgent } => {
            let t = step_state(s, e);
            assert forall|k: u64| #[trigger] t.0.contains_key(k) && t.0[k].is_focused implies t.1 == Some(k) by {
                assert(m.contains_key(k));
            }
        },
        CompositorEvent::WindowLayoutsChanged { changes } => {
            lemma_layouts_keep_focus(m, changes@);
            let t = step_state(s, e);
            assert forall|k: u64| #[trigger] t.0.contains_key(k) && t.0[k].is_focused implies t.1 == Some(k) by {
                assert(m.contains_key(k));
            }
        },
        _ => {},
    }
}

/// Whatever sequence of opened-or-changed, closed and focus-changed events is
/// applied to a cache whose focus record is consistent, at most one window is
/// marked focused after every event.
pub proof fn lemma_deltas_keep_single_focus(s: CacheState, events: Seq<CompositorEvent>)
    requires
        focus_consistent(s),
        forall|i: int| 0 <= i < events.len() ==> is_window_delta(#[trigger] events[i]),
    ensures
        forall|k: int| 0 <= k <= events.len() ==> focus_consistent(#[trigger] run_state(s, events.take(k))),
        forall|k: int| 0 <= k <= events.len() ==> at_most_one_focused(#[trigger] run_state(s, events.take(k)).0),
    decreases events.len(),
{
    if events.len() > 0 {
        let init = events.drop_last();
        lemma_deltas_keep_single_focus(s, init);
        assert forall|k: int| 0 <= k <= events.len() implies focus_consistent(#[trigger] run_state(s, events.take(k))) by {
            if k < events.len() {
                assert(events.take(k) =~= init.take(k));
            } else {
                assert(events.take(k) =~= events);
                assert(init.take(init.len() as int) =~= init);
                assert(is_window_delta(events[events.len() - 1]));
                lemma_step_keeps_focus_consistent(run_state(s, init), events.last());
            }
        }
        assert forall|k: int| 0 <= k <= events.len() implies at_most_one_focused(#[trigger] run_state(s, events.take(k)).0) by {
            lemma_consistent_has_one_focus(run_state(s, events.take(k)));
        }
    } else {
        assert forall|k: int| 0 <= k <= events.len() implies at_most_one_focused(#[trigger] run_state(s, events.take(k)).0) by {
            assert(events.take(k) =~= events);
            lemma_consistent_has_one_focus(s);
        }
    }
}

/// No two windows of the list share an id.
pub open spec fn ids_distinct(ws: Seq<WindowRecord>) -> bool {
    forall|i: int, j: int| 0 <= i < ws.len() && 0 <= j < ws.len() && i != j ==> ws[i].id != ws[j].id
}

/// At most one window of the list is marked focused.
pub open spec fn list_has_one_focus(ws: Seq<WindowRecord>) -> bool {
    forall|i: int, j: int| 0 <= i < ws.len() && 0 <= j < ws.len() && ws[i].is_focused && ws[j].is_focused ==> i == j
}

/// The map built from a list of windows with distinct ids holds each of
/// them under its id, and nothing else.
proof fn lemma_snapshot_map_exact(ws: Seq<WindowRecord>)
    requires
        ids_distinct(ws),
    ensures
        snapshot_map(ws).dom().finite(),
        snapshot_map(ws).len() == ws.len(),
        forall|i: int| 0 <= i < ws.len() ==> #[trigger] snapshot_map(ws).contains_key(ws[i].id) && snapshot_map(ws)[ws[i].id] == ws[i],
        forall|id: u64| #[trigger] snapshot_map(ws).contains_key(id) ==> exists|i: int| 0 <= i < ws.len() && ws[i].id == id,
    decreases ws.len(),
{
    if ws.len() > 0 {
        let init = ws.drop_last();
        assert(ids_distinct(init));
        lemma_snapshot_map_exact(init);
        let last = ws.last();
        assert(!snapshot_map(init).contains_key(last.id)) by {
            if snapshot_map(init).contains_key(last.id) {
                let i = choose|i: int| 0 <= i < init.len() && init[i].id == last.id;
                assert(ws[i].id == ws[ws.len() - 1].id);
            }
        }
        assert forall|i: int| 0 <= i < ws.len() implies #[trigger] snapshot_map(ws).contains_key(ws[i].id) && snapshot_map(ws)[ws[i].id] == ws[i] by {
            if i < ws.len() - 1 {
                assert(ws[i] == init[i]);
                assert(snapshot_map(init).contains_key(init[i].id));
            }
        }
        assert forall|id: u64| #[trigger] snapshot_map(ws).contains_key(id) implies exists|i: int| 0 <= i < ws.len() && ws[i].id == id by {
            if id != last.id {
                assert(snapshot_map(init).contains_key(id));
                let i = choose|i: int| 0 <= i < init.len() && init[i].id == id;
                assert(ws[i].id == id);
            } else {
                assert(ws[ws.len() - 1].id == id);
            }
        }
    }
}

/// The focused id a list leaves is that of its one window marked focused, or none.
proof fn lemma_snapshot_focus_exact(ws: Seq<WindowRecord>)
    requires
        list_has_one_focus(ws),
    ensures
        forall|i: int| 0 <= i < ws.len() && ws[i].is_focused ==> snapshot_focus(ws) == Some(#[trigger] ws[i].id),
        (forall|i: int| 0 <= i < ws.len() ==> !(#[trigger] ws[i]).is_focused) ==> snapshot_focus(ws) == None::<u64>,
    decreases ws.len(),
{
    if ws.len() > 0 {
        let init = ws.drop_last();
        assert(list_has_one_focus(init));
        lemma_snapshot_focus_exact(init);
        assert forall|i: int| 0 <= i < ws.len() && ws[i].is_focused implies snapshot_focus(ws) == Some(#[trigger] ws[i].id) by {
            if i < ws.len() - 1 {
                assert(ws[i] == init[i]);
                assert(!ws[ws.len() - 1].is_focused);
            }
        }
        if forall|i: int| 0 <= i < ws.len() ==> !(#[trigger] ws[i]).is_focused {
            assert(!ws[ws.len() - 1].is_focused);
            assert forall|i: int| 0 <= i < init.len() implies !(#[trigger] init[i]).is_focused by {
                assert(init[i] == ws[i]);
            }
        }
    }
}

/// A full snapshot whose windows have distinct ids leaves the cache exactly
/// equal to the list, whatever it held before: every listed window under its
/// id and nothing else. Where at most one listed window is marked focused, the
/// focused id is that window's (or none), and the focus record is consistent.
pub proof fn lemma_snapshot_replaces_cache(s: CacheState, windows: Vec<WindowRecord>)
    requires
        ids_distinct(windows@),
    ensures
        ({
            let t = step_state(s, CompositorEvent::WindowsChanged { windows });
            let ws = windows@;
            &&& t.0.dom().finite()
            &&& t.0.len() == ws.len()
            &&& forall|i: int| 0 <= i < ws.len() ==> #[trigger] t.0.contains_key(ws[i].id) && t.0[ws[i].id] == ws[i]
            &&& forall|id: u64| #[trigger] t.0.contains_key(id) ==> exists|i: int| 0 <= i < ws.len() && ws[i].id == id
            &&& list_has_one_focus(ws) ==> {
                &&& forall|i: int| 0 <= i < ws.len() && ws[i].is_focused ==> t.1 == Some(#[trigger] ws[i].id)
                &&& (forall|i: int| 0 <= i < ws.len() ==> !(#[trigger] ws[i]).is_focused) ==> t.1 == None::<u64>
                &&& focus_consistent(t)
            }
        }),
{
    let ws = windows@;
    lemma_snapshot_map_exact(ws);
    if list_has_one_focus(ws) {
        lemma_snapshot_focus_exact(ws);
        let t = step_state(s, CompositorEvent::WindowsChanged { windows });
        assert forall|id: u64| #[trigger] t.0.contains_key(id) && t.0[id].is_focused implies t.1 == Some(id) by {
            let i = choose|i: int| 0 <= i < ws.len() && ws[i].id == id;
            assert(t.0[ws[i].id] == ws[i]);
        }
    }
}

/// An event naming a window the cache does not hold is ignored and emits
/// nothing: a focus change to it only clears the previous focus flag, and an
/// urgency or layout change for it leaves the state as it was.
pub proof fn lemma_unknown_windows_ignored(s: CacheState, e: CompositorEvent)
    requires
        match e {
            CompositorEvent::WindowFocusChanged { id: Some(i) } => !s.0.contains_key(i),
            CompositorEvent::WindowUrgencyChanged { id, urgent: _ } => !s.0.contains_key(id),
            CompositorEvent::WindowLayoutsChanged { changes } => forall|i: int|
                0 <= i < changes@.len() ==> !s.0.contains_key(#[trigger] changes@[i].0),
            _ => false,
        },
    ensures
        step_signal(s, e) == None::<Option<(Seq<char>, Seq<char>)>>,
        e is WindowFocusChanged ==> step_state(s, e) == (match s.1 {
            Some(f) => unfocus(s.0, f),
            None => s.0,
        }, e->WindowFocusChanged_id),
        !(e is WindowFocusChanged) ==> step_state(s, e) == s,
{
    match e {
        CompositorEvent::WindowLayoutsChanged { changes } => {
            lemma_layouts_of_unknown(s.0, changes@);
        },
        _ => {},
    }
}

} // verus!
