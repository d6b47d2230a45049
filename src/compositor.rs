//! Which compositor to watch, and the errors a backend reports.

use vstd::prelude::*;
use vstd::string::StrSliceExecFns;
use crate::window::WindowInfo;

verus! {

/// The compositors this library can watch.
#[derive(Clone, Copy, PartialEq, Eq, Structural, Debug)]
pub enum CompositorKind {
    Niri,
    Hyprland,
}

/// The compositor selector as the environment holds it.
pub enum Selector {
    /// The selector is not set.
    Absent,
    /// The selector is set but is not valid text.
    NotUnicode,
    /// The selector's text.
    Name(String),
}

/// Why no backend could be chosen.
#[derive(Debug)]
pub enum ConfigError {
    /// The selector is not set.
    NotFound,
    /// The selector is not valid text.
    InvalidEncoding,
    /// The selector names a compositor with no backend; the name is kept.
    Unsupported(String),
}

/// Why the focused window could not be had.
#[derive(Debug)]
pub enum FocusError {
    /// No window holds focus.
    NoFocus,
    /// The socket could not be reached or read.
    TransportError(String),
    /// The compositor answered with an error or an unexpected reply.
    ProtocolError(String),
}

/// The selector text for niri.
pub open spec fn niri_name() -> Seq<char> {
    seq!['n', 'i', 'r', 'i']
}

/// The selector text for Hyprland.
pub open spec fn hyprland_name() -> Seq<char> {
    seq!['H', 'y', 'p', 'r', 'l', 'a', 'n', 'd']
}

/// The compositor a selector text names, if one has a backend.
pub open spec fn kind_for_name(name: Seq<char>) -> Option<CompositorKind> {
    if name == niri_name() {
        Some(CompositorKind::Niri)
    } else if name == hyprland_name() {
        Some(CompositorKind::Hyprland)
    } else {
        None
    }
}

/// Whether `r` is the outcome owed for `selector`.
pub open spec fn selection_outcome(selector: Selector, r: Result<CompositorKind, ConfigError>) -> bool {
    match selector {
        Selector::Absent => match r {
            Err(ConfigError::NotFound) => true,
            _ => false,
        },
        Selector::NotUnicode => match r {
            Err(ConfigError::InvalidEncoding) => true,
            _ => false,
        },
        Selector::Name(n) => match (kind_for_name(n@), r) {
            (Some(k), Ok(k2)) => k == k2,
            (None, Err(ConfigError::Unsupported(m))) => m@ == n@,
            _ => false,
        },
    }
}

/// Chooses the backend for the compositor that the selector names.
pub fn get_current_compositor(selector: Selector) -> (r: Result<CompositorKind, ConfigError>)
    ensures
        selection_outcome(selector, r),
{
    match selector {
        Selector::Absent => Err(ConfigError::NotFound),
        Selector::NotUnicode => Err(ConfigError::InvalidEncoding),
        Selector::Name(name) => {
            let niri = "niri".to_string();
            let hyprland = "Hyprland".to_string();
            proof {
                reveal_strlit("niri");
                reveal_strlit("Hyprland");
            }
            assert(niri@ == niri_name());
            assert(hyprland@ == hyprland_name());
            if name == niri {
                Ok(CompositorKind::Niri)
            } else if name == hyprland {
                Ok(CompositorKind::Hyprland)
            } else {
                Err(ConfigError::Unsupported(name))
            }
        },
    }
}

/// The head of a Hyprland event line that reports the active window.
pub open spec fn active_window_head() -> Seq<char> {
    seq!['a', 'c', 't', 'i', 'v', 'e', 'w', 'i', 'n', 'd', 'o', 'w', '>', '>']
}

/// The length of the active-window head, in characters.
const HEAD_LEN: usize = 14;

/// Whether `line` starts with the active-window head.
pub open spec fn is_active_window_line(line: Seq<char>) -> bool {
    line.len() >= active_window_head().len() && line.take(active_window_head().len() as int) == active_window_head()
}

/// The data of an active-window line: what follows the head.
pub open spec fn event_data(line: Seq<char>) -> Seq<char> {
    line.skip(active_window_head().len() as int)
}

/// Whether `i` is the first comma of `data`.
pub open spec fn first_comma_at(data: Seq<char>, i: int) -> bool {
    &&& 0 <= i < data.len()
    &&& data[i] == ','
    &&& forall|j: int| 0 <= j < i ==> data[j] != ','
}

/// The Hyprland backend. Hyprland reports complete focus events, so it keeps
/// no window cache.
pub struct Hyprland {}

impl Hyprland {
    /// The Hyprland backend; it needs no state.
    pub fn new() -> (r: Hyprland) {
        Hyprland {}
    }

    /// Reads one line of Hyprland's event socket. A line `activewindow>>CLASS,TITLE`
    /// gives the newly focused window, split at the first comma; any other
    /// line, and one that names no window (`activewindow>>,`), gives nothing.
    pub fn parse_event_line(line: &str) -> (r: Option<WindowInfo>)
        ensures
            r is Some <==> (is_active_window_line(line@) && exists|i: int|
                first_comma_at(event_data(line@), i) && !(i == 0 && event_data(line@).len() == 1)),
            r matches Some(w) ==> forall|i: int| first_comma_at(event_data(line@), i)
                ==> w@ == (event_data(line@).skip(i + 1), event_data(line@).take(i)),
    {
        let n = line.unicode_len();
        let head = "activewindow>>".to_string();
        proof {
            reveal_strlit("activewindow>>");
            assert(head@ =~= active_window_head());
            assert(head@.len() == HEAD_LEN);
        }
        if n < HEAD_LEN {
            return None;
        }
        let start = line.substring_char(0, HEAD_LEN).to_string();
        if start != head {
            assert(!is_active_window_line(line@));
            return None;
        }
        assert(line@.take(HEAD_LEN as int) =~= start@);
        assert(is_active_window_line(line@));
        let ghost data = event_data(line@);
        let mut i: usize = HEAD_LEN;
        while i < n
            invariant
                HEAD_LEN <= i <= n,
                n == line@.len(),
                data == event_data(line@),
                is_active_window_line(line@),
                forall|j: int| 0 <= j < i - HEAD_LEN ==> data[j] != ',',
            decreases n - i,
        {
            if line.get_char(i) == ',' {
                let ghost k = i - HEAD_LEN;
                assert(first_comma_at(data, k));
                if i == HEAD_LEN && n == HEAD_LEN + 1 {
                    assert forall|c: int| first_comma_at(data, c) implies c == 0 && data.len() == 1 by {
                        if c > k { assert(data[k] != ','); }
                        if c < k { assert(data[c] != ','); }
                    }
                    return None;
                }
                let class = line.substring_char(HEAD_LEN, i).to_string();
                let title = line.substring_char(i + 1, n).to_string();
                assert forall|c: int| first_comma_at(data, c) implies c == k by {
                    if c > k { assert(data[k] != ','); }
                    if c < k { assert(data[c] != ','); }
                }
                assert(class@ =~= data.take(k));
                assert(title@ =~= data.skip(k + 1));
                assert(data.len() == n - HEAD_LEN);
                assert(first_comma_at(data, k) && !(k == 0 && data.len() == 1));
                return Some(WindowInfo { title, app_name: class });
            }
            i = i + 1;
        }
        assert forall|c: int| !first_comma_at(data, c) by {
            if 0 <= c < data.len() { assert(data[c] != ','); }
        }
        None
    }
}

} // verus!
