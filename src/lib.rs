//! Backend logic of a desktop screen recorder: the recording-state register,
//! the table that maps user triggers to frontend events, the window close and
//! restore decisions, and the transcode flow.
use vstd::prelude::*;

pub mod relay;
pub mod state;
pub mod transcode;
pub mod window;

pub use state::{AppState, RecordingStatus, StatusError};

verus! {

} // verus!
