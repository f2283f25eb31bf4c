//! Folder-shortcut toolbar logic for Windows File Explorer: configuration,
//! layout, hit testing, pointer and rename state machines, drag-and-drop
//! effect rules, positioning, foreground classification and the decisions
//! the window procedure takes. Win32 calls live in the application.

pub mod text;
pub mod config;
pub mod theme;
pub mod drop_effect;
pub mod layout;
pub mod pointer;
pub mod rename;
pub mod target;
pub mod position;
pub mod visibility;
pub mod dropfiles;
pub mod toolbar;
pub mod paint;
pub mod dialog_nav;
pub mod shell;
pub mod classic;
pub mod paths;
pub mod log;
pub mod actions;
pub mod retry;
pub mod clipboard;
pub mod status;
