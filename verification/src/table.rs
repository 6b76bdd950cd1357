//! The change set as the user sees it before confirming: a header, one row
//! for each change in the order of the change set, and the key to the marks.

use crate::paint::{free_of_escape, green, green_on, is_painted, normal, yellow, yellow_on, colour_off};
use crate::ssm_change::{Action, SSMChange, SSMChangeView};
use vstd::prelude::*;

verus! {

impl Action {
    /// The control sequence that switches to the colour of this action's mark.
    /// The mark of `NoAction` is empty and has no colour.
    pub open spec fn colour_on(self) -> Seq<char> {
        match self {
            Action::Create => green_on(),
            Action::Update => yellow_on(),
            Action::NoAction => Seq::empty(),
        }
    }

    /// Whether `mark` is this action's mark as the terminal is to show it.
    pub open spec fn is_shown_as(self, mark: Seq<char>) -> bool {
        match self {
            Action::NoAction => mark == self.marker(),
            _ => is_painted(mark, self.marker(), self.colour_on()),
        }
    }

    /// Returns this action's mark for the terminal: green for a creation,
    /// yellow for an update.
    pub fn painted_marker(&self) -> (mark: String)
        ensures
            self.is_shown_as(mark@),
    {
        let plain = self.as_marker();
        assert(free_of_escape(plain@));
        match self {
            Action::Create => green(plain),
            Action::Update => yellow(plain),
            Action::NoAction => normal(plain),
        }
    }
}

impl SSMChangeView {
    /// Whether `line` is the row of this change as the terminal is to show it:
    /// the row with the mark in its colour.
    pub open spec fn is_shown_by(self, line: Seq<char>) -> bool {
        ||| line == self.row()
        ||| self.action != Action::NoAction && line == self.row_marked(
            self.action.colour_on() + self.action.marker() + colour_off(),
        )
        ||| self.action != Action::NoAction && line == self.row_marked(
            self.action.marker() + colour_off(),
        )
    }
}

impl SSMChange {
    /// Renders the change as one row for the terminal, with the mark in its
    /// colour.
    pub fn render_painted(&self) -> (row: String)
        ensures
            self@.is_shown_by(row@),
    {
        let mark = self.action.painted_marker();
        self.render_marked(mark.as_str())
    }
}

/// The header of the table.
pub open spec fn header_text() -> Seq<char> {
    "Op\t\tRegion   \t\tParam   \t\tNewVal"@
}

/// The title of the key to the marks.
pub open spec fn keys_title() -> Seq<char> {
    "Op Keys:"@
}

/// The key to the mark of a creation, uncoloured.
pub open spec fn create_key() -> Seq<char> {
    "+ = create"@
}

/// The key to the mark of an update, uncoloured.
pub open spec fn update_key() -> Seq<char> {
    "~ = update"@
}

/// The key to the empty mark.
pub open spec fn no_change_key() -> Seq<char> {
    " = no change"@
}

/// Whether `lines` are the key to the marks: its title, then what `+`, `~` and
/// the empty mark stand for, the first two in the colours of their marks.
pub open spec fn is_change_table_keys(lines: Seq<Seq<char>>) -> bool {
    &&& lines.len() == 4
    &&& lines[0] == keys_title()
    &&& is_painted(lines[1], create_key(), green_on())
    &&& is_painted(lines[2], update_key(), yellow_on())
    &&& lines[3] == no_change_key()
}

/// Whether `lines` are the table of `changes`: the header, then one row for
/// each change, in the order of `changes`.
pub open spec fn is_change_table(lines: Seq<Seq<char>>, changes: Seq<SSMChangeView>) -> bool {
    &&& lines.len() == changes.len() + 1
    &&& lines[0] == header_text()
    &&& forall|i: int| 0 <= i < changes.len() ==> (#[trigger] changes[i]).is_shown_by(lines[i + 1])
}

proof fn lemma_keys_are_free_of_escape()
    ensures
        free_of_escape(create_key()),
        free_of_escape(update_key()),
{
    reveal_strlit("+ = create");
    reveal_strlit("~ = update");
    assert(create_key() =~= seq!['+', ' ', '=', ' ', 'c', 'r', 'e', 'a', 't', 'e']);
    assert(update_key() =~= seq!['~', ' ', '=', ' ', 'u', 'p', 'd', 'a', 't', 'e']);
}

/// Returns the header of the table.
pub fn change_table_header() -> (header: String)
    ensures
        header@ == header_text(),
{
    "Op\t\tRegion   \t\tParam   \t\tNewVal".to_owned()
}

/// Returns the lines of the key to the marks.
pub fn change_table_keys() -> (lines: Vec<String>)
    ensures
        is_change_table_keys(lines.deep_view()),
{
    proof {
        lemma_keys_are_free_of_escape();
    }
    let mut lines: Vec<String> = Vec::new();
    lines.push("Op Keys:".to_owned());
    lines.push(green("+ = create"));
    lines.push(yellow("~ = update"));
    lines.push(" = no change".to_owned());
    lines
}

/// Returns the lines of the table of `changes`: the header, then the row of
/// each change, in the order in which `changes` holds them.
pub fn ssm_changes_table(changes: &Vec<SSMChange>) -> (lines: Vec<String>)
    ensures
        is_change_table(lines.deep_view(), changes.deep_view()),
{
    let mut lines: Vec<String> = Vec::new();
    lines.push(change_table_header());
    let mut i: usize = 0;
    while i < changes.len()
        invariant
            i <= changes.len(),
            lines.len() == i + 1,
            lines[0]@ == header_text(),
            forall|k: int| 0 <= k < i ==> (#[trigger] changes[k])@.is_shown_by(lines[k + 1]@),
        decreases changes.len() - i,
    {
        lines.push(changes[i].render_painted());
        i += 1;
    }
    lines
}

} // verus!
