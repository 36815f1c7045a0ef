//! The default prompt: the working directory on the left, the caller's
//! clock reading (or a fixed placeholder) on the right, and literal
//! indicator texts.

use vstd::prelude::*;
use vstd::string::*;

use crate::base::{
    Prompt, PromptEditMode, PromptHistorySearch, PromptHistorySearchStatus, PromptViMode,
};
use crate::replace::{replace_all, replace_chars};

verus! {

/// Simple two-line prompt displaying the current working directory and the
/// time above the entry line.
#[derive(Clone, PartialEq, Eq, Structural)]
pub struct DefaultPrompt;

/// The home directory text used for abbreviation: the Windows-style profile
/// variable when set, else the Unix-style home variable, else the working
/// directory itself, which makes abbreviation a no-op.
pub open spec fn home_text(
    working_dir: Seq<char>,
    user_profile: Option<Seq<char>>,
    home: Option<Seq<char>>,
) -> Seq<char> {
    match user_profile {
        Some(profile) => profile,
        None => match home {
            Some(home_dir) => home_dir,
            None => working_dir,
        },
    }
}

/// The left prompt segment: the working directory with every occurrence of
/// the home directory replaced by a tilde, the directory unchanged when it
/// equals the home directory, and a fixed fallback when the lookup failed.
pub open spec fn left_segment(
    working_dir: Option<Seq<char>>,
    user_profile: Option<Seq<char>>,
    home: Option<Seq<char>>,
) -> Seq<char> {
    match working_dir {
        None => "no path"@,
        Some(dir) => {
            let home_dir = home_text(dir, user_profile, home);
            if dir == home_dir {
                dir
            } else {
                replace_all(dir, home_dir, "~"@)
            }
        },
    }
}

/// The indicator text of each edit mode.
pub open spec fn indicator_text(edit_mode: PromptEditMode) -> Seq<char> {
    match edit_mode {
        PromptEditMode::Default => "〉"@,
        PromptEditMode::Emacs => "〉"@,
        PromptEditMode::Vi(PromptViMode::Normal) => "〉"@,
        PromptEditMode::Vi(PromptViMode::Insert) => ": "@,
        PromptEditMode::Custom(label) => "("@ + label@ + ")"@,
    }
}

/// The history-search segment: the term behind a fixed heading, with a
/// warning prefix when the search is failing.
pub open spec fn history_search_text(history_search: PromptHistorySearch) -> Seq<char> {
    let prefix = match history_search.status {
        PromptHistorySearchStatus::Passing => ""@,
        PromptHistorySearchStatus::Failing => "failing "@,
    };
    "("@ + prefix + "reverse-search: "@ + history_search.term@ + ") "@
}

impl Prompt for DefaultPrompt {
    fn render_prompt_left(
        &self,
        working_dir: Option<String>,
        user_profile: Option<String>,
        home: Option<String>,
    ) -> (r: String)
        ensures
            r@ == left_segment(
                working_dir.deep_view(),
                user_profile.deep_view(),
                home.deep_view(),
            ),
            working_dir is None ==> r@ == "no path"@,
            working_dir matches Some(dir) ==> (home_text(
                dir@,
                user_profile.deep_view(),
                home.deep_view(),
            ) == dir@ ==> r@ == dir@),
    {
        match working_dir {
            None => "no path".to_owned(),
            Some(dir) => {
                let home_dir: String = match user_profile {
                    Some(profile) => profile,
                    None => match home {
                        Some(home_dir) => home_dir,
                        None => dir.clone(),
                    },
                };
                if dir == home_dir {
                    dir
                } else {
                    replace_chars(dir.as_str(), home_dir.as_str(), "~")
                }
            },
        }
    }

    fn render_prompt_right(&self, clock: Option<String>) -> (r: String)
        ensures
            clock matches Some(time) ==> r@ == time@,
            clock is None ==> r@ == "<<< >>>"@,
    {
        match clock {
            Some(time) => time,
            None => "<<< >>>".to_owned(),
        }
    }

    fn render_prompt_indicator(&self, edit_mode: PromptEditMode) -> (r: String)
        ensures
            r@ == indicator_text(edit_mode),
    {
        match edit_mode {
            PromptEditMode::Default => "〉".to_owned(),
            PromptEditMode::Emacs => "〉".to_owned(),
            PromptEditMode::Vi(PromptViMode::Normal) => "〉".to_owned(),
            PromptEditMode::Vi(PromptViMode::Insert) => ": ".to_owned(),
            PromptEditMode::Custom(label) => {
                let mut r = "(".to_owned();
                r.append(label.as_str());
                r.append(")");
                proof {
                    assert(r@ =~= "("@ + label@ + ")"@);
                }
                r
            },
        }
    }

    fn render_prompt_multiline_indicator(&self) -> (r: String)
        ensures
            r@ == "::: "@,
    {
        "::: ".to_owned()
    }

    fn render_prompt_history_search_indicator(
        &self,
        history_search: PromptHistorySearch,
    ) -> (r: String)
        ensures
            r@ == history_search_text(history_search),
    {
        let mut r = "(".to_owned();
        match history_search.status {
            PromptHistorySearchStatus::Passing => {},
            PromptHistorySearchStatus::Failing => {
                r.append("failing ");
            },
        }
        r.append("reverse-search: ");
        r.append(history_search.term.as_str());
        r.append(") ");
        proof {
            reveal_strlit("");
            assert(r@ =~= history_search_text(history_search));
        }
        r
    }
}

impl Default for DefaultPrompt {
    fn default() -> (d: Self)
        ensures
            d == (DefaultPrompt {}),
    {
        DefaultPrompt::new()
    }
}

impl DefaultPrompt {
    /// Constructor for the default prompt.
    pub fn new() -> (d: DefaultPrompt)
        ensures
            d == (DefaultPrompt {}),
    {
        DefaultPrompt {}
    }
}

} // verus!
