//! Embedding support for a retained-mode GUI toolkit inside a native
//! macOS view.
//!
//! The platform glue itself (Objective-C message sends, GPU submission,
//! pasteboard reads) lives outside this library; what stands here is the
//! logic that decides everything the glue does: translating native input
//! events into toolkit events, the key-code lookup table, modifier and
//! mouse-button decoding, the drag-and-drop suppression flag, swap-chain
//! sizing, cursor selection, and the clipboard decision. Each function
//! carries a contract that pins its result down.

pub mod keyboard;
pub mod mouse;
pub mod event;
pub mod translate;
pub mod gpu;
pub mod handler;
pub mod clipboard;
pub mod settings;
pub mod view;

pub use crate::settings::Settings;

