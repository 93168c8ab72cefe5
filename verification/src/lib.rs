//! A minimal two-pane terminal directory navigator.
//!
//! The crate holds the navigator's verified core: the navigation state, the
//! key-by-key state machine that drives it, the computation of a frame
//! description from the state, and the shell hand-off line emitted on exit.
//! Terminal control, directory reading and the OS "open" call are performed
//! by the surrounding program, which feeds plain values into this core.

pub mod dirpath;
pub mod handoff;
pub mod listing;
pub mod render;
pub mod state;
pub mod step;

pub use dirpath::DirPath;
pub use render::Frame;
pub use state::AppState;
pub use step::Key;
pub use step::StepOutcome;
pub use listing::DirEntry;
pub use listing::ListingUnavailable;
