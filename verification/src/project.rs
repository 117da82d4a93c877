//! The project materialiser: what is done, in which order, to set up the
//! project that the metadata describe, and what to make of a command that was
//! run.
//!
//! Nothing is done here. The caller creates the directory, runs the commands
//! and writes the file, and asks after each action which one is due next.

use crate::collect::{ProjectMetaData, ProjectMetaDataView};
use vstd::prelude::*;

verus! {

/// The program of the toolchain.
pub const GO_CMD: &'static str = "go";

/// The command of the toolchain that deals with modules.
pub const MODULE_SUBCOMMAND: &'static str = "mod";

/// The program that opens the editor.
pub const EDITOR_CMD: &'static str = "code";

/// The name of the entry-point file, inside the project directory.
pub const MAIN_GO_FILE: &'static str = "main.go";

/// The text of the entry-point file.
pub const MAIN_GO_CONTENT: &'static str =
    "\npackage main\n\nimport \"fmt\"\n\nfunc main() {\n\tfmt.Println(\"Hello World\")\n}\n";

/// A program to run, and its arguments.
#[derive(Clone, Debug, PartialEq, Eq)]
pub struct Invocation {
    pub program: String,
    pub args: Vec<String>,
}

/// The mathematical value of an [`Invocation`].
pub struct InvocationView {
    pub program: Seq<char>,
    pub args: Seq<Seq<char>>,
}

impl View for Invocation {
    type V = InvocationView;

    open spec fn view(&self) -> InvocationView {
        InvocationView { program: self.program@, args: self.args.deep_view() }
    }
}

/// One action of the set-up. The project directory is the entry called by the
/// project name in the workspace directory.
#[derive(Clone, Debug, PartialEq, Eq)]
pub enum Action {
    /// Create the project directory. It fails where the directory exists.
    CreateDirectory,
    /// Make the project directory the working directory.
    EnterDirectory,
    /// Run a command, with the project directory as the working directory.
    Run(Invocation),
    /// Write a file of this name and text into the project directory.
    WriteFile { name: String, contents: String },
    /// Run this program with the path of the project directory as its one
    /// argument.
    LaunchEditor { program: String },
}

/// The mathematical value of an [`Action`].
pub enum ActionView {
    CreateDirectory,
    EnterDirectory,
    Run(InvocationView),
    WriteFile { name: Seq<char>, contents: Seq<char> },
    LaunchEditor { program: Seq<char> },
}

impl View for Action {
    type V = ActionView;

    open spec fn view(&self) -> ActionView {
        match *self {
            Action::CreateDirectory => ActionView::CreateDirectory,
            Action::EnterDirectory => ActionView::EnterDirectory,
            Action::Run(invocation) => ActionView::Run(invocation@),
            Action::WriteFile { name, contents } => ActionView::WriteFile {
                name: name@,
                contents: contents@,
            },
            Action::LaunchEditor { program } => ActionView::LaunchEditor { program: program@ },
        }
    }
}

/// The views of a list of actions, in order.
pub open spec fn actions_view(actions: Seq<Action>) -> Seq<ActionView> {
    Seq::new(actions.len(), |i: int| actions[i]@)
}

/// How an attempt to run a program ended.
#[derive(Clone, Copy, Debug, PartialEq, Eq, Structural)]
pub enum SpawnOutcome {
    /// The program ran and reported success.
    Succeeded,
    /// The program ran and reported failure.
    Failed,
    /// No such program was found.
    NotFound,
    /// The program could not be started, for another reason.
    NotStarted,
}

/// Why a command counts as failed.
#[derive(Clone, Copy, Debug, PartialEq, Eq, Structural)]
pub enum CommandError {
    /// No such program was found.
    NotFound,
    /// The program could not be started, for another reason.
    NotStarted,
    /// The program ran and reported failure.
    Failed,
}

/// The module identifier of a project: the module prefix, a slash, the
/// project name.
pub open spec fn module_identifier(meta: ProjectMetaDataView) -> Seq<char> {
    meta.module_prefix + "/"@ + meta.project_name
}

/// The command that asks the toolchain for its version.
pub open spec fn version_probe_view() -> InvocationView {
    InvocationView { program: GO_CMD@, args: seq!["version"@] }
}

/// The arguments that initialise the module of a project: `init` and the
/// module identifier.
pub open spec fn module_init_arguments(meta: ProjectMetaDataView) -> Seq<Seq<char>> {
    seq!["init"@, module_identifier(meta)]
}

/// The command that initialises the module of a project: the module command
/// of the toolchain, with its arguments.
pub open spec fn module_init_view(meta: ProjectMetaDataView) -> InvocationView {
    InvocationView {
        program: GO_CMD@,
        args: seq![MODULE_SUBCOMMAND@] + module_init_arguments(meta),
    }
}

/// The actions that set a project up, in the order in which they are done.
pub open spec fn plan(meta: ProjectMetaDataView) -> Seq<ActionView> {
    seq![
        ActionView::CreateDirectory,
        ActionView::EnterDirectory,
        ActionView::Run(module_init_view(meta)),
        ActionView::WriteFile { name: MAIN_GO_FILE@, contents: MAIN_GO_CONTENT@ },
        ActionView::LaunchEditor { program: EDITOR_CMD@ },
    ]
}

/// What to make of a command that was run: it succeeded only where the
/// program ran and reported success.
pub open spec fn command_result(outcome: SpawnOutcome) -> Result<(), CommandError> {
    match outcome {
        SpawnOutcome::Succeeded => Ok(()),
        SpawnOutcome::Failed => Err(CommandError::Failed),
        SpawnOutcome::NotFound => Err(CommandError::NotFound),
        SpawnOutcome::NotStarted => Err(CommandError::NotStarted),
    }
}

/// The notice that is due where a program was not found.
pub open spec fn not_found_notice(program: Seq<char>) -> Seq<char> {
    "No file found '"@ + program + "'"@
}

impl CommandError {
    /// The notice that is shown to the user for this error, on top of the
    /// failure of the run: one for a program that was not found, none
    /// otherwise.
    pub fn notice(&self, program: &str) -> (n: Option<String>)
        ensures
            n.deep_view() == if *self == CommandError::NotFound {
                Some(not_found_notice(program@))
            } else {
                None
            },
    {
        match self {
            CommandError::NotFound => {
                let mut text = "No file found '".to_owned();
                text.append(program);
                text.append("'");
                Some(text)
            },
            _ => None,
        }
    }
}

/// The module identifier of a project.
pub fn module_name(meta: &ProjectMetaData) -> (name: String)
    ensures
        name@ == module_identifier(meta@),
{
    let mut name = meta.module_prefix.clone();
    name.append("/");
    name.append(meta.project_name.as_str());
    name
}

/// The command that asks the toolchain for its version.
pub fn version_probe() -> (probe: Invocation)
    ensures
        probe@ == version_probe_view(),
{
    let mut args: Vec<String> = Vec::new();
    args.push("version".to_owned());
    let probe = Invocation { program: GO_CMD.to_owned(), args };
    proof {
        assert(probe.args.deep_view() =~= seq!["version"@]);
    }
    probe
}

/// The command that initialises the module of a project.
pub fn module_init(meta: &ProjectMetaData) -> (init: Invocation)
    ensures
        init@ == module_init_view(meta@),
{
    let mut args: Vec<String> = Vec::new();
    args.push(MODULE_SUBCOMMAND.to_owned());
    args.push("init".to_owned());
    args.push(module_name(meta));
    let init = Invocation { program: GO_CMD.to_owned(), args };
    proof {
        assert(init.args.deep_view() =~= seq![MODULE_SUBCOMMAND@] + module_init_arguments(meta@));
    }
    init
}

/// The actions that set the project up, in the order in which they are done:
/// create the project directory, enter it, initialise the module, write the
/// entry-point file, open the editor.
pub fn create_project(meta: &ProjectMetaData) -> (actions: Vec<Action>)
    ensures
        actions_view(actions@) == plan(meta@),
{
    let mut actions: Vec<Action> = Vec::new();
    actions.push(Action::CreateDirectory);
    actions.push(Action::EnterDirectory);
    actions.push(Action::Run(module_init(meta)));
    actions.push(
        Action::WriteFile { name: MAIN_GO_FILE.to_owned(), contents: MAIN_GO_CONTENT.to_owned() },
    );
    actions.push(Action::LaunchEditor { program: EDITOR_CMD.to_owned() });
    proof {
        assert(actions_view(actions@) =~= plan(meta@));
    }
    actions
}

/// The action that is due after `done` actions of the plan were done, the
/// last of them failed or not: the next of the plan while none has failed and
/// any is left, else none. So what is done is a beginning of the plan, and a
/// failed action is the last: nothing is tried again, nothing is undone.
pub fn next_action(meta: &ProjectMetaData, done: usize, last_failed: bool) -> (next: Option<Action>)
    ensures
        next is Some <==> !last_failed && done < plan(meta@).len(),
        next matches Some(action) ==> action@ == plan(meta@)[done as int],
{
    let mut actions = create_project(meta);
    if last_failed || done >= actions.len() {
        None
    } else {
        proof {
            assert(actions_view(actions@)[done as int] == actions@[done as int]@);
        }
        Some(actions.remove(done))
    }
}

/// What to make of a command that was run: `Ok` where the program ran and
/// reported success, else the error that says how it failed.
pub fn exec_cmd(outcome: SpawnOutcome) -> (r: Result<(), CommandError>)
    ensures
        r == command_result(outcome),
{
    match outcome {
        SpawnOutcome::Succeeded => Ok(()),
        SpawnOutcome::Failed => Err(CommandError::Failed),
        SpawnOutcome::NotFound => Err(CommandError::NotFound),
        SpawnOutcome::NotStarted => Err(CommandError::NotStarted),
    }
}

/// Whether the toolchain is installed, `outcome` being how the run of
/// `version_probe()` ended.
pub fn detect_go_version(outcome: SpawnOutcome) -> (r: Result<(), CommandError>)
    ensures
        r == command_result(outcome),
{
    exec_cmd(outcome)
}

} // verus!
