//! Building blocks of a Windows toast-notification tool: the wide-string
//! buffer handed to the operating system, the texts the tool composes
//! (registry key, shortcut path, toast document), and the order of its steps.

pub mod notification;
pub mod registry;
pub mod sequence;
pub mod shortcut;
pub mod std_specs;
pub mod utf16;
pub mod wstring;

pub use wstring::{WideString, WideStringError};
