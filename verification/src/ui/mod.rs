//! The interactive selector: its state, and the match engine behind it.

pub mod event;
pub mod matcher;
pub mod picker;

pub use event::{Event, KeyCode, KeyEvent, KeyModifiers};
pub use picker::{Picker, PickerSelection};
