//! Window records as a compositor reports them, and the snapshots that a
//! focus signal carries.

use vstd::prelude::*;

verus! {

/// Relies on niri_ipc::WindowLayout, the position and size of a window, as
/// an opaque value: the cache carries it and reads nothing of it.
#[verifier::external_type_specification]
#[verifier::external_body]
pub struct ExWindowLayout(niri_ipc::WindowLayout);

/// One window of the compositor, as kept in the cache.
pub struct WindowRecord {
    /// Compositor-assigned id, unique among open windows.
    pub id: u64,
    pub title: Option<String>,
    pub app_id: Option<String>,
    pub is_focused: bool,
    pub is_urgent: bool,
    pub layout: niri_ipc::WindowLayout,
}

/// The payload of a focus signal: what the newly focused window shows.
pub struct WindowInfo {
    pub title: String,
    pub app_name: String,
}

impl View for WindowInfo {
    type V = (Seq<char>, Seq<char>);

    open spec fn view(&self) -> (Seq<char>, Seq<char>) {
        (self.title@, self.app_name@)
    }
}

/// The text of an optional string; an absent one reads as empty.
pub open spec fn text_of(s: Option<String>) -> Seq<char> {
    match s {
        Some(t) => t@,
        None => Seq::empty(),
    }
}

/// An optional string seen through its characters.
pub open spec fn opt_text(s: Option<String>) -> Option<Seq<char>> {
    match s {
        Some(t) => Some(t@),
        None => None,
    }
}

/// The (title, application) pair that a signal for `r` carries.
pub open spec fn info_of(r: WindowRecord) -> (Seq<char>, Seq<char>) {
    (text_of(r.title), text_of(r.app_id))
}

/// A copy of `s`, or an empty string where it is absent.
pub fn text_or_empty(s: &Option<String>) -> (r: String)
    ensures
        r@ == text_of(*s),
{
    match s {
        Some(t) => t.clone(),
        None => String::new(),
    }
}

/// Whether two optional strings hold the same text (both absent counts as equal).
pub fn same_text(a: &Option<String>, b: &Option<String>) -> (r: bool)
    ensures
        r == (opt_text(*a) == opt_text(*b)),
{
    match (a, b) {
        (Some(x), Some(y)) => *x == *y,
        (None, None) => true,
        _ => false,
    }
}

impl WindowInfo {
    /// A snapshot of what `r` shows, copied out of it.
    pub fn from_record(r: &WindowRecord) -> (info: WindowInfo)
        ensures
            info@ == info_of(*r),
    {
        WindowInfo { title: text_or_empty(&r.title), app_name: text_or_empty(&r.app_id) }
    }
}

} // verus!
