//! The prompt-rendering capability and the values handed to it.
//!
//! A line editor calls the [`Prompt`] operations once per redraw and splices
//! the returned text into its terminal output. The editor supplies the
//! current edit mode and, during a reverse history search, the search term
//! and its status; none of the values retain state across calls.

use vstd::prelude::*;

verus! {

/// The editor's current input-handling mode.
#[derive(Clone, Debug)]
pub enum PromptEditMode {
    Default,
    Emacs,
    Vi(PromptViMode),
    Custom(String),
}

/// The sub-mode of a Vi-style editor.
#[derive(Clone, Copy, Debug)]
pub enum PromptViMode {
    Normal,
    Insert,
}

/// An in-progress reverse search through the editor's history.
#[derive(Clone, Debug)]
pub struct PromptHistorySearch {
    pub status: PromptHistorySearchStatus,
    pub term: String,
}

/// Whether the history search currently matches an entry.
#[derive(Clone, Copy, Debug)]
pub enum PromptHistorySearchStatus {
    Passing,
    Failing,
}

/// The capability a prompt renderer implements: five pure query operations,
/// each returning the text of one prompt segment.
///
/// The left and right segments depend on ambient data, which the caller
/// reads and hands over as plain values: the working directory (absent when
/// the lookup failed), the two home-directory variables (absent when unset),
/// and a formatted clock reading (absent when no clock capability is
/// configured).
pub trait Prompt {
    /// The left-hand prompt segment.
    fn render_prompt_left(
        &self,
        working_dir: Option<String>,
        user_profile: Option<String>,
        home: Option<String>,
    ) -> String;

    /// The right-hand prompt segment, for the given clock reading.
    fn render_prompt_right(&self, clock: Option<String>) -> String;

    /// The indicator shown for the given edit mode.
    fn render_prompt_indicator(&self, edit_mode: PromptEditMode) -> String;

    /// The prefix of each continuation line of a multiline entry.
    fn render_prompt_multiline_indicator(&self) -> String;

    /// The segment shown during a reverse history search.
    fn render_prompt_history_search_indicator(
        &self,
        history_search: PromptHistorySearch,
    ) -> String;
}

} // verus!
