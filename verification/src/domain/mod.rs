pub mod event;

pub use event::{Event, EventView, Timestamp};
