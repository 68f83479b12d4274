//! Core of a terminal tool that lists the processes holding listening
//! ports and lets an operator end one of them.
//!
//! The library holds the rows, the rules that filter and order them, and
//! the state machine that the keys drive. It runs no process and draws
//! nothing: it takes what the system utilities printed and what the
//! operator pressed, and says what is shown and what is to be done next.

pub mod app;
pub mod clock;
pub mod display;
pub mod entry;
pub mod keys;
pub mod lookup;
pub mod lsof;
pub mod model;
pub mod number;
pub mod order;
pub mod pattern;
pub mod port;
pub mod selection;
pub mod sorting;
pub mod text;
pub mod theorems;
pub mod timing;
pub mod visible;

pub use app::App;
pub use display::get_loading_animation;
pub use entry::{format_duration, LsofEntry, ProcessInfo, Protocol};
pub use keys::{Event, KeyCode, KeyEvent, KeyEventKind, KeyModifiers};
pub use lookup::get_process_info;
pub use lsof::{
    force_kill_process,
    get_listening_processes,
    kill_process,
    CommandOutcome,
    DiscoveryError,
    KillError,
};
pub use model::{Action, AppMode};
pub use order::SortBy;
pub use port::extract_port;
pub use visible::compute_view;
