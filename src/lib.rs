//! Focus tracking for desktop compositors: a window cache kept in step with a
//! compositor's event stream, and the aggregation of focus signals into
//! timed intervals.

pub mod compositor;
pub mod daemon;
pub mod data_output;
pub mod niri;
pub mod report;
pub mod tui;
pub mod window;

pub use compositor::{get_current_compositor, CompositorKind, ConfigError, FocusError, Hyprland, Selector};
pub use daemon::{Daemon, FocusRecord, FocusTracker};
pub use data_output::DataOutput;
pub use niri::{CompositorEvent, Niri};
pub use report::{byte_unit, format_millis, group_by_app, AppGroup, AppScreentime, ScreenTimeInstance};
pub use tui::App;
pub use window::{WindowInfo, WindowRecord};
