//! Small, verified illustrations of ownership, borrowing and checked access.

pub mod cell;
pub mod handoff;
pub mod state;
pub mod text;

pub use cell::{refcell_ok, TextCell};
pub use handoff::{Action, Event, Handoff, HandoffError};
pub use state::{AccessError, BorrowState};
pub use text::{borrow_scopes_ok, longest, read_twice_then_append, Wrapper};
