//! One turn of the prompter.
//!
//! The prompter asks until an answer is accepted. Showing the question,
//! reading the line and looking up a path are the caller's; what to make of a
//! line that was read, or of a read that failed, is decided here.

use crate::text::{trim, trimmed};
use crate::validate::{PathKind, Validator, ValidatorView};
use vstd::prelude::*;

verus! {

/// The field that a question asks for.
#[derive(Clone, Copy, Debug, PartialEq, Eq, Structural)]
pub enum Field {
    WorkspaceDirectory,
    ModulePrefix,
    ProjectName,
}

/// The label under which a field is named to the user.
pub open spec fn label_of(field: Field) -> Seq<char> {
    match field {
        Field::WorkspaceDirectory => "Workspace Directory"@,
        Field::ModulePrefix => "Module Prefix"@,
        Field::ProjectName => "Project Name"@,
    }
}

impl Field {
    /// The label under which the field is named to the user.
    pub fn label(&self) -> (l: &'static str)
        ensures
            l@ == label_of(*self),
    {
        match self {
            Field::WorkspaceDirectory => "Workspace Directory",
            Field::ModulePrefix => "Module Prefix",
            Field::ProjectName => "Project Name",
        }
    }
}

/// What to ask, and how to judge the answer.
#[derive(Clone, Debug, PartialEq, Eq)]
pub struct Question {
    /// The field asked for, named in the notice that follows a rejected answer.
    pub field: Field,
    /// The text shown before a line is read.
    pub message: String,
    /// The predicate that the trimmed line has to meet.
    pub validator: Validator,
}

/// The mathematical value of a [`Question`].
pub struct QuestionView {
    pub field: Field,
    pub message: Seq<char>,
    pub validator: ValidatorView,
}

impl View for Question {
    type V = QuestionView;

    open spec fn view(&self) -> QuestionView {
        QuestionView { field: self.field, message: self.message@, validator: self.validator@ }
    }
}

/// What one turn of the prompter came to.
#[derive(Clone, Debug, PartialEq, Eq)]
pub enum PromptStep {
    /// The trimmed line met the predicate: it is the answer.
    Accepted(String),
    /// A line was read, and its trimmed form did not meet the predicate: the
    /// user is told that the field is not valid, and asked again.
    Rejected,
    /// No line could be read: the user is told so, and asked again.
    ReadFailed,
}

/// The mathematical value of a [`PromptStep`].
pub enum PromptStepView {
    Accepted(Seq<char>),
    Rejected,
    ReadFailed,
}

impl View for PromptStep {
    type V = PromptStepView;

    open spec fn view(&self) -> PromptStepView {
        match *self {
            PromptStep::Accepted(answer) => PromptStepView::Accepted(answer@),
            PromptStep::Rejected => PromptStepView::Rejected,
            PromptStep::ReadFailed => PromptStepView::ReadFailed,
        }
    }
}

/// What the prompter makes of one attempt to read a line. `read` is the line,
/// or `None` where reading failed; `found` is what the filesystem holds at the
/// path that the validator names for the trimmed line.
pub open spec fn prompt_step(
    validator: ValidatorView,
    read: Option<Seq<char>>,
    found: PathKind,
) -> PromptStepView {
    match read {
        None => PromptStepView::ReadFailed,
        Some(line) => if validator.accepts(trimmed(line), found) {
            PromptStepView::Accepted(trimmed(line))
        } else {
            PromptStepView::Rejected
        },
    }
}

/// The view of a line that was read, or of a read that failed.
pub open spec fn read_view(read: Option<&str>) -> Option<Seq<char>> {
    match read {
        Some(line) => Some(line@),
        None => None,
    }
}

/// One turn of the prompter: the answer, if the line that was read is one
/// once trimmed; else which of the two notices is due before the next turn.
///
/// `found` is what the filesystem holds at the path that
/// `validator.lookup(trim(line))` names; it is not read where that names none,
/// nor where `read` is `None`.
pub fn get_input(validator: &Validator, read: Option<&str>, found: PathKind) -> (step: PromptStep)
    ensures
        step@ == prompt_step(validator@, read_view(read), found),
{
    match read {
        None => PromptStep::ReadFailed,
        Some(line) => {
            let answer = trim(line);
            if validator.accepts(answer, found) {
                PromptStep::Accepted(answer.to_owned())
            } else {
                PromptStep::Rejected
            }
        },
    }
}

} // verus!
