//! The metadata collector: the questions that lead from the stored defaults
//! to the metadata of one new project.
//!
//! The collector is a state machine. Each state has one question; a turn of
//! the prompter on that question either leaves the state as it is or, with an
//! accepted answer, leads to the next one. The caller shows the question,
//! reads the line and looks up the path.

use crate::defaults::{MetaInfo, MetaInfoView};
use crate::prompt::{
    get_input, prompt_step, read_view, Field, PromptStep, PromptStepView, Question, QuestionView,
};
use crate::text::{
    is_single_token, lemma_trimmed_idempotent, lemma_trimmed_is_subrange, trimmed,
};
use crate::validate::{
    has_module_prefix_shape, is_yes, law_single_token_accepted, lemma_non_blank_single_token_iff,
    says_no, says_yes, PathKind, Validator, ValidatorView,
};
use vstd::prelude::*;

verus! {

/// All that is needed to set up one project.
#[derive(Clone, Debug, PartialEq, Eq)]
pub struct ProjectMetaData {
    pub workspace_dir: String,
    pub project_name: String,
    pub module_prefix: String,
}

/// The mathematical value of a [`ProjectMetaData`].
pub struct ProjectMetaDataView {
    pub workspace_dir: Seq<char>,
    pub project_name: Seq<char>,
    pub module_prefix: Seq<char>,
}

impl View for ProjectMetaData {
    type V = ProjectMetaDataView;

    open spec fn view(&self) -> ProjectMetaDataView {
        ProjectMetaDataView {
            workspace_dir: self.workspace_dir@,
            project_name: self.project_name@,
            module_prefix: self.module_prefix@,
        }
    }
}

impl ProjectMetaDataView {
    /// The project name is one token: not empty, and without whitespace.
    pub open spec fn well_formed(self) -> bool {
        is_single_token(self.project_name)
    }
}

/// A collection that is under way: what has been settled, and what is asked
/// next.
#[derive(Clone, Debug, PartialEq, Eq)]
pub enum Collecting {
    /// Whether to take the stored workspace directory.
    ConfirmWorkspace { stored: MetaInfo },
    /// Which workspace directory to take instead.
    EnterWorkspace { stored: MetaInfo },
    /// Whether to take the stored module prefix.
    ConfirmPrefix { stored: MetaInfo, workspace_dir: String },
    /// Which module prefix to take instead.
    EnterPrefix { workspace_dir: String },
    /// What to call the project.
    EnterProjectName { workspace_dir: String, module_prefix: String },
}

/// The mathematical value of a [`Collecting`].
pub enum CollectingView {
    ConfirmWorkspace { stored: MetaInfoView },
    EnterWorkspace { stored: MetaInfoView },
    ConfirmPrefix { stored: MetaInfoView, workspace_dir: Seq<char> },
    EnterPrefix { workspace_dir: Seq<char> },
    EnterProjectName { workspace_dir: Seq<char>, module_prefix: Seq<char> },
}

impl View for Collecting {
    type V = CollectingView;

    open spec fn view(&self) -> CollectingView {
        match *self {
            Collecting::ConfirmWorkspace { stored } => CollectingView::ConfirmWorkspace {
                stored: stored@,
            },
            Collecting::EnterWorkspace { stored } => CollectingView::EnterWorkspace {
                stored: stored@,
            },
            Collecting::ConfirmPrefix { stored, workspace_dir } => CollectingView::ConfirmPrefix {
                stored: stored@,
                workspace_dir: workspace_dir@,
            },
            Collecting::EnterPrefix { workspace_dir } => CollectingView::EnterPrefix {
                workspace_dir: workspace_dir@,
            },
            Collecting::EnterProjectName {
                workspace_dir,
                module_prefix,
            } => CollectingView::EnterProjectName {
                workspace_dir: workspace_dir@,
                module_prefix: module_prefix@,
            },
        }
    }
}

/// A collection after a turn: still under way, or done.
#[derive(Clone, Debug, PartialEq, Eq)]
pub enum Progress {
    Pending(Collecting),
    Done(ProjectMetaData),
}

/// The mathematical value of a [`Progress`].
pub enum ProgressView {
    Pending(CollectingView),
    Done(ProjectMetaDataView),
}

impl View for Progress {
    type V = ProgressView;

    open spec fn view(&self) -> ProgressView {
        match *self {
            Progress::Pending(state) => ProgressView::Pending(state@),
            Progress::Done(meta) => ProgressView::Done(meta@),
        }
    }
}

/// The message that offers the stored workspace directory.
pub open spec fn confirm_workspace_message(stored: Seq<char>) -> Seq<char> {
    "use "@ + stored + " for workspace directory (Y/N): "@
}

/// The message that offers the stored module prefix.
pub open spec fn confirm_prefix_message(stored: Seq<char>) -> Seq<char> {
    "use "@ + stored + " for module prefix (Y/N): "@
}

impl CollectingView {
    /// Where every collection begins: with the offer of the stored workspace
    /// directory.
    pub open spec fn start(stored: MetaInfoView) -> CollectingView {
        CollectingView::ConfirmWorkspace { stored }
    }

    /// The question of this state.
    pub open spec fn question(self) -> QuestionView {
        match self {
            CollectingView::ConfirmWorkspace { stored } => QuestionView {
                field: Field::WorkspaceDirectory,
                message: confirm_workspace_message(stored.workspace_dir),
                validator: ValidatorView::YesNo,
            },
            CollectingView::EnterWorkspace { .. } => QuestionView {
                field: Field::WorkspaceDirectory,
                message: "Please enter: Workspace Directory"@,
                validator: ValidatorView::ExistingDirectory,
            },
            CollectingView::ConfirmPrefix { stored, .. } => QuestionView {
                field: Field::ModulePrefix,
                message: confirm_prefix_message(stored.module_prefix),
                validator: ValidatorView::YesNo,
            },
            CollectingView::EnterPrefix { .. } => QuestionView {
                field: Field::ModulePrefix,
                message: "Please enter Module Prefix"@,
                validator: ValidatorView::ModulePrefixShape,
            },
            CollectingView::EnterProjectName { workspace_dir, .. } => QuestionView {
                field: Field::ProjectName,
                message: "Please enter Project Name"@,
                validator: ValidatorView::ProjectNameAvailable { workspace_dir },
            },
        }
    }

    /// Where an accepted answer leads. A yes takes the stored value as it
    /// stands, unchecked; a no leads to the question for a fresh value.
    pub open spec fn accept(self, answer: Seq<char>) -> ProgressView {
        match self {
            CollectingView::ConfirmWorkspace { stored } => if says_yes(answer) {
                ProgressView::Pending(
                    CollectingView::ConfirmPrefix { stored, workspace_dir: stored.workspace_dir },
                )
            } else {
                ProgressView::Pending(CollectingView::EnterWorkspace { stored })
            },
            CollectingView::EnterWorkspace { stored } => ProgressView::Pending(
                CollectingView::ConfirmPrefix { stored, workspace_dir: answer },
            ),
            CollectingView::ConfirmPrefix { stored, workspace_dir } => if says_yes(answer) {
                ProgressView::Pending(
                    CollectingView::EnterProjectName {
                        workspace_dir,
                        module_prefix: stored.module_prefix,
                    },
                )
            } else {
                ProgressView::Pending(CollectingView::EnterPrefix { workspace_dir })
            },
            CollectingView::EnterPrefix { workspace_dir } => ProgressView::Pending(
                CollectingView::EnterProjectName { workspace_dir, module_prefix: answer },
            ),
            CollectingView::EnterProjectName { workspace_dir, module_prefix } => ProgressView::Done(
                ProjectMetaDataView { workspace_dir, project_name: answer, module_prefix },
            ),
        }
    }

    /// Where one turn of the prompter on this state's question leads: on with
    /// an accepted answer, nowhere without one.
    pub open spec fn step(self, read: Option<Seq<char>>, found: PathKind) -> ProgressView {
        match prompt_step(self.question().validator, read, found) {
            PromptStepView::Accepted(answer) => self.accept(answer),
            _ => ProgressView::Pending(self),
        }
    }
}

/// A turn moves the state exactly where a line was read and the validator of
/// the state's question accepts its trimmed form.
pub proof fn law_moves_only_with_an_accepted_answer(
    state: CollectingView,
    read: Option<Seq<char>>,
    found: PathKind,
)
    ensures
        state.step(read, found) != ProgressView::Pending(state) <==> read is Some
            && state.question().validator.accepts(trimmed(read->Some_0), found),
{
}

/// An offer is answered by a yes or a no. A yes takes the stored value; a no
/// leads to the question for a fresh one, which is taken only where it passes
/// the check of its field: a workspace directory has to be a directory that
/// exists, a module prefix has to begin as required.
pub proof fn law_offer_or_checked_entry(
    state: CollectingView,
    read: Option<Seq<char>>,
    found: PathKind,
)
    requires
        state.step(read, found) != ProgressView::Pending(state),
    ensures
        read is Some,
        ({
            let answer = trimmed(read->Some_0);
            let next = state.step(read, found);
            match state {
                CollectingView::ConfirmWorkspace { stored } => {
                    if says_yes(answer) {
                        next == ProgressView::Pending(
                            CollectingView::ConfirmPrefix {
                                stored,
                                workspace_dir: stored.workspace_dir,
                            },
                        )
                    } else {
                        says_no(answer) && next == ProgressView::Pending(
                            CollectingView::EnterWorkspace { stored },
                        )
                    }
                },
                CollectingView::EnterWorkspace { stored } => {
                    &&& found == PathKind::Directory
                    &&& next == ProgressView::Pending(
                        CollectingView::ConfirmPrefix { stored, workspace_dir: answer },
                    )
                },
                CollectingView::ConfirmPrefix { stored, workspace_dir } => {
                    if says_yes(answer) {
                        next == ProgressView::Pending(
                            CollectingView::EnterProjectName {
                                workspace_dir,
                                module_prefix: stored.module_prefix,
                            },
                        )
                    } else {
                        says_no(answer) && next == ProgressView::Pending(
                            CollectingView::EnterPrefix { workspace_dir },
                        )
                    }
                },
                CollectingView::EnterPrefix { workspace_dir } => {
                    &&& has_module_prefix_shape(answer)
                    &&& next == ProgressView::Pending(
                        CollectingView::EnterProjectName { workspace_dir, module_prefix: answer },
                    )
                },
                CollectingView::EnterProjectName { .. } => next is Done,
            }
        }),
{
    lemma_trimmed_idempotent(read->Some_0);
}

/// A collection is done only by a turn on the question for the project name,
/// with a line whose trimmed form is one token and names nothing that the
/// workspace directory holds; that trimmed form is then the project name, and
/// what was settled before is kept.
pub proof fn law_done_with_fresh_single_token(
    state: CollectingView,
    read: Option<Seq<char>>,
    found: PathKind,
)
    requires
        state.step(read, found) is Done,
    ensures
        state is EnterProjectName,
        read is Some,
        found == PathKind::Absent,
        state.step(read, found)->Done_0 == (ProjectMetaDataView {
            workspace_dir: state->EnterProjectName_workspace_dir,
            project_name: trimmed(read->Some_0),
            module_prefix: state->EnterProjectName_module_prefix,
        }),
        state.step(read, found)->Done_0.well_formed(),
{
    let line = read->Some_0;
    lemma_trimmed_idempotent(line);
    lemma_non_blank_single_token_iff(trimmed(line));
}

/// A yes to both offers gives the stored workspace directory and the stored
/// module prefix, whatever they hold: neither is looked up or checked again.
pub proof fn law_stored_defaults_taken_unchecked(
    stored: MetaInfoView,
    yes_workspace: Seq<char>,
    yes_prefix: Seq<char>,
    name: Seq<char>,
)
    requires
        says_yes(trimmed(yes_workspace)),
        says_yes(trimmed(yes_prefix)),
        is_single_token(name),
    ensures
        ({
            let first = CollectingView::start(stored).step(Some(yes_workspace), PathKind::Absent);
            let second = first->Pending_0.step(Some(yes_prefix), PathKind::Absent);
            let third = second->Pending_0.step(Some(name), PathKind::Absent);
            &&& first is Pending
            &&& second is Pending
            &&& third == ProgressView::Done(
                ProjectMetaDataView {
                    workspace_dir: stored.workspace_dir,
                    project_name: name,
                    module_prefix: stored.module_prefix,
                },
            )
        }),
{
    law_single_token_accepted(name);
    lemma_trimmed_is_subrange(name, 0, name.len() as int);
    assert(name.subrange(0, name.len() as int) =~= name);
}

/// Joins three pieces of text.
fn concat3(a: &str, b: &str, c: &str) -> (s: String)
    ensures
        s@ == a@ + b@ + c@,
{
    let mut s = a.to_owned();
    s.append(b);
    s.append(c);
    s
}

impl Collecting {
    /// The state in which every collection begins.
    pub fn start(stored: MetaInfo) -> (state: Collecting)
        ensures
            state@ == CollectingView::start(stored@),
    {
        Collecting::ConfirmWorkspace { stored }
    }

    /// The question to put to the user in this state.
    pub fn question(&self) -> (q: Question)
        ensures
            q@ == self@.question(),
    {
        match self {
            Collecting::ConfirmWorkspace { stored } => Question {
                field: Field::WorkspaceDirectory,
                message: concat3(
                    "use ",
                    stored.workspace_dir.as_str(),
                    " for workspace directory (Y/N): ",
                ),
                validator: Validator::YesNo,
            },
            Collecting::EnterWorkspace { .. } => Question {
                field: Field::WorkspaceDirectory,
                message: "Please enter: Workspace Directory".to_owned(),
                validator: Validator::ExistingDirectory,
            },
            Collecting::ConfirmPrefix { stored, .. } => Question {
                field: Field::ModulePrefix,
                message: concat3("use ", stored.module_prefix.as_str(), " for module prefix (Y/N): "),
                validator: Validator::YesNo,
            },
            Collecting::EnterPrefix { .. } => Question {
                field: Field::ModulePrefix,
                message: "Please enter Module Prefix".to_owned(),
                validator: Validator::ModulePrefixShape,
            },
            Collecting::EnterProjectName { workspace_dir, .. } => Question {
                field: Field::ProjectName,
                message: "Please enter Project Name".to_owned(),
                validator: Validator::ProjectNameAvailable { workspace_dir: workspace_dir.clone() },
            },
        }
    }

    /// Where an accepted answer leads from this state.
    pub fn accept(self, answer: String) -> (next: Progress)
        ensures
            next@ == self@.accept(answer@),
    {
        match self {
            Collecting::ConfirmWorkspace { stored } => {
                if is_yes(answer.as_str()) {
                    let workspace_dir = stored.workspace_dir.clone();
                    Progress::Pending(Collecting::ConfirmPrefix { stored, workspace_dir })
                } else {
                    Progress::Pending(Collecting::EnterWorkspace { stored })
                }
            },
            Collecting::EnterWorkspace { stored } => Progress::Pending(
                Collecting::ConfirmPrefix { stored, workspace_dir: answer },
            ),
            Collecting::ConfirmPrefix { stored, workspace_dir } => {
                if is_yes(answer.as_str()) {
                    Progress::Pending(
                        Collecting::EnterProjectName {
                            workspace_dir,
                            module_prefix: stored.module_prefix,
                        },
                    )
                } else {
                    Progress::Pending(Collecting::EnterPrefix { workspace_dir })
                }
            },
            Collecting::EnterPrefix { workspace_dir } => Progress::Pending(
                Collecting::EnterProjectName { workspace_dir, module_prefix: answer },
            ),
            Collecting::EnterProjectName { workspace_dir, module_prefix } => Progress::Done(
                ProjectMetaData { workspace_dir, project_name: answer, module_prefix },
            ),
        }
    }
}

/// One turn of the collection: judges the line that was read for the question
/// of `state`, and moves on where it is accepted.
///
/// `read` is the line, or `None` where reading failed. `found` is what the
/// filesystem holds at the path that the question's validator names for the
/// trimmed line. Returned are where the collection stands after the turn, and
/// what the prompter made of the line: after `Rejected` or `ReadFailed` the
/// state is the one before, and the same question is due again.
pub fn get_project_meta_data(state: Collecting, read: Option<&str>, found: PathKind) -> (r: (
    Progress,
    PromptStep,
))
    ensures
        r.0@ == state@.step(read_view(read), found),
        r.1@ == prompt_step(state@.question().validator, read_view(read), found),
        r.0 matches Progress::Done(meta) ==> meta@.well_formed(),
{
    proof {
        if state@.step(read_view(read), found) is Done {
            law_done_with_fresh_single_token(state@, read_view(read), found);
        }
    }
    let question = state.question();
    let step = get_input(&question.validator, read, found);
    match &step {
        PromptStep::Accepted(answer) => {
            let next = state.accept(answer.clone());
            (next, step)
        },
        _ => (Progress::Pending(state), step),
    }
}

} // verus!
