//! A verified model of a static split-pane terminal layout.
//!
//! The library computes the panel layout for a two-column view (a left
//! paragraph and three stacked right panels), describes the frame contents,
//! and models the session loop that renders frames, waits for input, and
//! restores the terminal on exit.

use vstd::prelude::*;

pub mod content;
pub mod frame;
pub mod geometry;
pub mod layout;
pub mod session;

verus! {

pub use content::Color;
pub use content::StyledLine;
pub use frame::Panel;
pub use geometry::Rect;
pub use layout::FrameLayout;
pub use session::BackendReply;
pub use session::InputEvent;
pub use session::SessionEnd;
pub use session::TraceItem;

} // verus!
