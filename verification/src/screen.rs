//! What a frame shows, as plain values for the caller to draw.

use vstd::prelude::*;
use crate::app::{shown_markdown, AppView};
use crate::book::label_text;
use crate::keys::InputMode;
use crate::text::text_view;

verus! {

/// The instructions shown in each mode.
pub open spec fn help_of(mode: InputMode) -> Seq<char> {
    match mode {
        InputMode::Normal => "Press 'e' to edit query, 'v' to navigate results, 'q' to quit"@,
        InputMode::Editing => "Enter query, press Enter to search, Esc to cancel"@,
        InputMode::Viewing =>
            "Select a result with Up/Down, press Enter to copy to clipboard press 'q' to go back"@,
    }
}

/// The bottom line: the instructions, with a pending status in front of them.
pub open spec fn footer_of(status: Option<Seq<char>>, mode: InputMode) -> Seq<char> {
    match status {
        Some(text) => text + " || "@ + help_of(mode),
        None => help_of(mode),
    }
}

/// What one frame shows, as mathematical values.
#[verifier::ext_equal]
pub struct ScreenView {
    pub query: Seq<char>,
    pub query_highlighted: bool,
    pub lines: Seq<Seq<char>>,
    pub selected: Option<nat>,
    pub markdown: Seq<char>,
    pub markdown_highlighted: bool,
    pub footer: Seq<char>,
}

/// What one frame shows: the contents of the four panes and which of them is
/// highlighted.
#[derive(Debug, Clone, PartialEq, Eq)]
pub struct Screen {
    pub query: String,
    pub query_highlighted: bool,
    pub lines: Vec<String>,
    pub selected: Option<usize>,
    pub markdown: String,
    pub markdown_highlighted: bool,
    pub footer: String,
}

impl View for Screen {
    type V = ScreenView;

    open spec fn view(&self) -> ScreenView {
        ScreenView {
            query: self.query@,
            query_highlighted: self.query_highlighted,
            lines: Seq::new(self.lines.len() as nat, |i: int| self.lines[i]@),
            selected: match self.selected {
                Some(i) => Some(i as nat),
                None => None,
            },
            markdown: self.markdown@,
            markdown_highlighted: self.markdown_highlighted,
            footer: self.footer@,
        }
    }
}

/// The frame that a state is drawn as.
pub open spec fn screen_of(s: AppView) -> ScreenView {
    ScreenView {
        query: s.query,
        query_highlighted: s.mode == InputMode::Editing,
        lines: Seq::new(s.results.len(), |i: int| label_text(s.results[i])),
        selected: s.selection,
        markdown: shown_markdown(s),
        markdown_highlighted: s.mode == InputMode::Viewing,
        footer: footer_of(s.status, s.mode),
    }
}

/// The instructions shown in a mode.
pub fn help_text(mode: InputMode) -> (text: &'static str)
    ensures
        text@ == help_of(mode),
{
    match mode {
        InputMode::Normal => "Press 'e' to edit query, 'v' to navigate results, 'q' to quit",
        InputMode::Editing => "Enter query, press Enter to search, Esc to cancel",
        InputMode::Viewing =>
            "Select a result with Up/Down, press Enter to copy to clipboard press 'q' to go back",
    }
}

/// The bottom line for a status and a mode.
pub fn footer_text(status: Option<String>, mode: InputMode) -> (text: String)
    ensures
        text@ == footer_of(text_view(status), mode),
{
    match status {
        Some(message) => {
            let mut text = message;
            text.append(" || ");
            text.append(help_text(mode));
            text
        },
        None => help_text(mode).to_owned(),
    }
}

} // verus!
