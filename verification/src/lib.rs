//! Prompt rendering for an interactive line editor.
//!
//! The library produces the text segments drawn around an input line: the
//! left segment (the working directory abbreviated against the home
//! directory), the right segment (the current local time), the edit-mode
//! indicator, the multiline continuation indicator, and the reverse
//! history-search indicator. The [`base::Prompt`] trait is the capability a
//! renderer implements; [`default::DefaultPrompt`] is the concrete,
//! stateless implementation.

pub mod base;
pub mod default;
pub mod replace;

pub use base::{
    Prompt, PromptEditMode, PromptHistorySearch, PromptHistorySearchStatus, PromptViMode,
};
pub use default::DefaultPrompt;
