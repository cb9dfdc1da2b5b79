//! Resize zones and state for a window that draws its own decorations.
//!
//! The window has no native frame: a band along its sides takes the pointer,
//! and this library decides which side or corner the pointer is over, which
//! cursor shows that, and whether a press starts a resize. It also holds the
//! window's counter.

pub mod cursor;
pub mod edge;
pub mod model;
pub mod press;

pub use cursor::{cursor_name_from_edge, on_motion};
pub use edge::{adjusted_extent, select_edge, Edge, Outside, Span, BORDER_SIZE};
pub use model::{App, Msg};
pub use press::{on_press, PressAction};
