//! Hover tracking for `iced` widgets.
//!
//! A [`Hoverable`] wraps one child element and watches the pointer. Each event
//! that the child leaves alone is an observation: the pointer is over the
//! wrapper's bounds or it is not. The observation becomes the new [`State`],
//! and up to three message templates, one per [`Hook`], are cloned and
//! published to the host.
//!
//! The wrapper draws nothing and takes no room of its own: its layout node is
//! the child's node inside a parent of the same size.

pub mod hook;
pub mod host;
pub mod hoverable;
pub mod state;
pub mod transitions;

pub use crate::hook::Hook;
pub use crate::hoverable::{enclose, hoverable, Hoverable};
pub use crate::state::State;
