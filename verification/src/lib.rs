//! Verified core of the WellWon desktop shell: window placement on a
//! multi-monitor desktop, the hide/show panel memory, the update-prompt
//! protocol with the webview, token-file interpretation and the
//! navigation targets of the shell.

pub mod geometry;
pub mod inject;
pub mod panel;
pub mod shell;
pub mod text;
pub mod token;
pub mod updater;
