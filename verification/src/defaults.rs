//! The defaults store: the workspace directory and the module prefix that a
//! user keeps from one run to the next.
//!
//! The store is a settings file of one JSON object with two string members.
//! Reading and writing the file is the caller's. Here are the members that
//! are written for a record, the record that is read from a text, the
//! decision whether a first run has to set the defaults up, and the questions
//! of that set-up.

use crate::json::{from_json_object, json_object_text, json_string_object, to_json_object};
use crate::prompt::{
    get_input, prompt_step, read_view, Field, PromptStep, PromptStepView, Question, QuestionView,
};
use crate::text::trimmed;
use crate::validate::{has_module_prefix_shape, PathKind, Validator, ValidatorView};
use vstd::prelude::*;

verus! {

/// The name of the settings file, inside the user's home directory.
pub const META_FILE: &'static str = "newgo.json";

/// The directory that stands in for the home directory where none is known.
pub const CURRENT_DIR: &'static str = ".";

/// The name of the member that holds the workspace directory.
pub const WORKSPACE_DIR_KEY: &'static str = "workspace_dir";

/// The name of the member that holds the module prefix.
pub const MODULE_PREFIX_KEY: &'static str = "module_prefix";

/// The defaults record.
#[derive(Clone, Debug, PartialEq, Eq)]
pub struct MetaInfo {
    pub workspace_dir: String,
    pub module_prefix: String,
}

/// The mathematical value of a [`MetaInfo`].
pub struct MetaInfoView {
    pub workspace_dir: Seq<char>,
    pub module_prefix: Seq<char>,
}

impl View for MetaInfo {
    type V = MetaInfoView;

    open spec fn view(&self) -> MetaInfoView {
        MetaInfoView { workspace_dir: self.workspace_dir@, module_prefix: self.module_prefix@ }
    }
}

/// Why the store has no record to give.
#[derive(Clone, Copy, Debug, PartialEq, Eq, Structural)]
pub enum StoreError {
    /// There is no settings file.
    Absent,
    /// The settings file does not spell an object of strings with both
    /// members.
    Corrupt,
}

/// The string that the first member called `key` holds, if there is one.
pub open spec fn member(members: Seq<(Seq<char>, Seq<char>)>, key: Seq<char>) -> Option<Seq<char>>
    decreases members.len(),
{
    if members.len() == 0 {
        None
    } else if members[0].0 == key {
        Some(members[0].1)
    } else {
        member(members.drop_first(), key)
    }
}

/// The record that the members of an object give: its two fields are the
/// members of their names; other members are passed over.
pub open spec fn record_of(members: Seq<(Seq<char>, Seq<char>)>) -> Result<
    MetaInfoView,
    StoreError,
> {
    match (member(members, WORKSPACE_DIR_KEY@), member(members, MODULE_PREFIX_KEY@)) {
        (Some(workspace_dir), Some(module_prefix)) => Ok(
            MetaInfoView { workspace_dir, module_prefix },
        ),
        _ => Err(StoreError::Corrupt),
    }
}

/// The record that a settings text gives.
pub open spec fn parsed(text: Seq<char>) -> Result<MetaInfoView, StoreError> {
    match json_string_object(text) {
        Some(members) => record_of(members),
        None => Err(StoreError::Corrupt),
    }
}

/// The record that the settings file gives, `contents` being its text, or
/// `None` where there is no file.
pub open spec fn loaded(contents: Option<Seq<char>>) -> Result<MetaInfoView, StoreError> {
    match contents {
        Some(text) => parsed(text),
        None => Err(StoreError::Absent),
    }
}

/// The members that are written for a record: the workspace directory
/// first, then the module prefix.
pub open spec fn settings_members(record: MetaInfoView) -> Seq<(Seq<char>, Seq<char>)> {
    seq![(WORKSPACE_DIR_KEY@, record.workspace_dir), (MODULE_PREFIX_KEY@, record.module_prefix)]
}

/// The settings text of a record: one object of its two members.
pub open spec fn serialized(record: MetaInfoView) -> Seq<char> {
    json_object_text(settings_members(record))
}

/// The view of a record or an error.
pub open spec fn outcome_view(r: Result<MetaInfo, StoreError>) -> Result<MetaInfoView, StoreError> {
    match r {
        Ok(record) => Ok(record@),
        Err(e) => Err(e),
    }
}

/// The record comes back from its own text, wherever the members that are
/// read from that text are the two that were written into it.
pub proof fn lemma_record_read_back(record: MetaInfoView)
    ensures
        json_string_object(serialized(record)) == Some(
            seq![
                (MODULE_PREFIX_KEY@, record.module_prefix),
                (WORKSPACE_DIR_KEY@, record.workspace_dir),
            ],
        ) ==> loaded(Some(serialized(record))) == Ok::<MetaInfoView, StoreError>(record),
{
    let members = seq![
        (MODULE_PREFIX_KEY@, record.module_prefix),
        (WORKSPACE_DIR_KEY@, record.workspace_dir),
    ];
    reveal_strlit("module_prefix");
    reveal_strlit("workspace_dir");
    assert(MODULE_PREFIX_KEY@[0] != WORKSPACE_DIR_KEY@[0]);
    assert(members.drop_first() =~= seq![(WORKSPACE_DIR_KEY@, record.workspace_dir)]);
    assert(member(members, MODULE_PREFIX_KEY@) == Some(record.module_prefix));
    assert(member(members.drop_first(), WORKSPACE_DIR_KEY@) == Some(record.workspace_dir));
    assert(member(members, WORKSPACE_DIR_KEY@) == Some(record.workspace_dir));
}

/// The string that the first member called `key` holds, if there is one.
pub fn find_member(members: &Vec<(String, String)>, key: &str) -> (found: Option<String>)
    ensures
        found.deep_view() == member(members.deep_view(), key@),
{
    let wanted = key.to_owned();
    let mut i: usize = 0;
    proof {
        assert(members.deep_view().skip(0) =~= members.deep_view());
    }
    while i < members.len()
        invariant
            i <= members.len(),
            wanted@ == key@,
            member(members.deep_view(), key@) == member(members.deep_view().skip(i as int), key@),
        decreases members.len() - i,
    {
        proof {
            let rest = members.deep_view().skip(i as int);
            assert(rest[0] == members.deep_view()[i as int]);
            assert(members.deep_view()[i as int] == (members@[i as int].0@, members@[i as int].1@));
            assert(rest.drop_first() =~= members.deep_view().skip(i + 1));
        }
        if members[i].0 == wanted {
            return Some(members[i].1.clone());
        }
        i += 1;
    }
    None
}

/// The record that the members of the settings object give: `Corrupt` where
/// the workspace directory or the module prefix is not among them.
pub fn defaults_from_members(members: &Vec<(String, String)>) -> (r: Result<MetaInfo, StoreError>)
    ensures
        outcome_view(r) == record_of(members.deep_view()),
{
    match (find_member(members, WORKSPACE_DIR_KEY), find_member(members, MODULE_PREFIX_KEY)) {
        (Some(workspace_dir), Some(module_prefix)) => Ok(MetaInfo { workspace_dir, module_prefix }),
        _ => Err(StoreError::Corrupt),
    }
}

/// Reads a record from a settings text: `Corrupt` where the text is no JSON
/// object of strings, or lacks one of the two members.
pub fn parse(text: &str) -> (r: Result<MetaInfo, StoreError>)
    ensures
        outcome_view(r) == parsed(text@),
{
    match from_json_object(text) {
        Ok(members) => defaults_from_members(&members),
        Err(_) => Err(StoreError::Corrupt),
    }
}

/// The members that are written for a record, in the order in which they
/// are written.
pub fn members_of(record: &MetaInfo) -> (members: Vec<(String, String)>)
    ensures
        members.deep_view() == settings_members(record@),
{
    let mut members: Vec<(String, String)> = Vec::new();
    members.push((WORKSPACE_DIR_KEY.to_owned(), record.workspace_dir.clone()));
    members.push((MODULE_PREFIX_KEY.to_owned(), record.module_prefix.clone()));
    proof {
        assert(members.deep_view() =~= settings_members(record@));
    }
    members
}

/// The settings text of a record, to be written over the settings file as a
/// whole. Every record has one.
pub fn serialize(record: &MetaInfo) -> (r: Result<String, StoreError>)
    ensures
        r matches Ok(text) && text@ == serialized(record@),
{
    let members = members_of(record);
    Ok(to_json_object(&members).unwrap())
}

/// The directory that holds the settings file: the user's home directory,
/// or the current directory where no home directory is known.
pub fn get_home_dir(home: Option<String>) -> (dir: String)
    ensures
        dir@ == match home {
            Some(h) => h@,
            None => CURRENT_DIR@,
        },
{
    match home {
        Some(home_dir) => home_dir,
        None => CURRENT_DIR.to_owned(),
    }
}

/// The record of the settings file, `contents` being its text. The file has
/// to be there and to parse: a caller that cannot tell asks `try_load`, or
/// tests with `parse` first.
pub fn get_project_metadata_from_file(contents: Option<&str>) -> (record: MetaInfo)
    requires
        contents is Some,
        parsed(read_view(contents)->Some_0) is Ok,
    ensures
        loaded(read_view(contents)) == Ok::<MetaInfoView, StoreError>(record@),
{
    parse(contents.unwrap()).unwrap()
}

/// The record of the settings file, `contents` being its text, or `None`
/// where there is no file: `Absent` without a file, `Corrupt` with one that
/// does not parse.
pub fn try_load(contents: Option<&str>) -> (r: Result<MetaInfo, StoreError>)
    ensures
        outcome_view(r) == loaded(read_view(contents)),
{
    match contents {
        None => Err(StoreError::Absent),
        Some(text) => match parse(text) {
            Ok(_) => Ok(get_project_metadata_from_file(contents)),
            Err(e) => Err(e),
        },
    }
}

/// The set-up of the defaults on a first run, under way: what is asked next.
#[derive(Clone, Debug, PartialEq, Eq)]
pub enum Bootstrapping {
    /// Which workspace directory to keep.
    EnterWorkspace,
    /// Which module prefix to keep.
    EnterPrefix { workspace_dir: String },
}

/// The mathematical value of a [`Bootstrapping`].
pub enum BootstrappingView {
    EnterWorkspace,
    EnterPrefix { workspace_dir: Seq<char> },
}

impl View for Bootstrapping {
    type V = BootstrappingView;

    open spec fn view(&self) -> BootstrappingView {
        match *self {
            Bootstrapping::EnterWorkspace => BootstrappingView::EnterWorkspace,
            Bootstrapping::EnterPrefix { workspace_dir } => BootstrappingView::EnterPrefix {
                workspace_dir: workspace_dir@,
            },
        }
    }
}

/// The set-up after a turn: still under way, or done, with the record to
/// write.
#[derive(Clone, Debug, PartialEq, Eq)]
pub enum Bootstrap {
    Pending(Bootstrapping),
    Done(MetaInfo),
}

/// The mathematical value of a [`Bootstrap`].
pub enum BootstrapView {
    Pending(BootstrappingView),
    Done(MetaInfoView),
}

impl View for Bootstrap {
    type V = BootstrapView;

    open spec fn view(&self) -> BootstrapView {
        match *self {
            Bootstrap::Pending(state) => BootstrapView::Pending(state@),
            Bootstrap::Done(record) => BootstrapView::Done(record@),
        }
    }
}

impl BootstrappingView {
    /// The question of this state.
    pub open spec fn question(self) -> QuestionView {
        match self {
            BootstrappingView::EnterWorkspace => QuestionView {
                field: Field::WorkspaceDirectory,
                message: "Please enter Workspace Directory"@,
                validator: ValidatorView::ExistingDirectory,
            },
            BootstrappingView::EnterPrefix { .. } => QuestionView {
                field: Field::ModulePrefix,
                message: "Please enter module prefix"@,
                validator: ValidatorView::ModulePrefixShape,
            },
        }
    }

    /// Where an accepted answer leads.
    pub open spec fn accept(self, answer: Seq<char>) -> BootstrapView {
        match self {
            BootstrappingView::EnterWorkspace => BootstrapView::Pending(
                BootstrappingView::EnterPrefix { workspace_dir: answer },
            ),
            BootstrappingView::EnterPrefix { workspace_dir } => BootstrapView::Done(
                MetaInfoView { workspace_dir, module_prefix: answer },
            ),
        }
    }

    /// Where one turn of the prompter on this state's question leads: on with
    /// an accepted answer, nowhere without one.
    pub open spec fn step(self, read: Option<Seq<char>>, found: PathKind) -> BootstrapView {
        match prompt_step(self.question().validator, read, found) {
            PromptStepView::Accepted(answer) => self.accept(answer),
            _ => BootstrapView::Pending(self),
        }
    }
}

impl Bootstrapping {
    /// The question to put to the user in this state.
    pub fn question(&self) -> (q: Question)
        ensures
            q@ == self@.question(),
    {
        match self {
            Bootstrapping::EnterWorkspace => Question {
                field: Field::WorkspaceDirectory,
                message: "Please enter Workspace Directory".to_owned(),
                validator: Validator::ExistingDirectory,
            },
            Bootstrapping::EnterPrefix { .. } => Question {
                field: Field::ModulePrefix,
                message: "Please enter module prefix".to_owned(),
                validator: Validator::ModulePrefixShape,
            },
        }
    }

    /// Where an accepted answer leads from this state.
    pub fn accept(self, answer: String) -> (next: Bootstrap)
        ensures
            next@ == self@.accept(answer@),
    {
        match self {
            Bootstrapping::EnterWorkspace => Bootstrap::Pending(
                Bootstrapping::EnterPrefix { workspace_dir: answer },
            ),
            Bootstrapping::EnterPrefix { workspace_dir } => Bootstrap::Done(
                MetaInfo { workspace_dir, module_prefix: answer },
            ),
        }
    }
}

/// A turn of the set-up moves the state exactly where a line was read and the
/// validator of the state's question accepts its trimmed form: a workspace
/// directory is kept only where it is a directory that exists, a module
/// prefix only where it begins as required.
pub proof fn law_set_up_keeps_checked_answers(
    state: BootstrappingView,
    read: Option<Seq<char>>,
    found: PathKind,
)
    ensures
        state.step(read, found) != BootstrapView::Pending(state) <==> read is Some
            && state.question().validator.accepts(trimmed(read->Some_0), found),
        state.step(read, found) != BootstrapView::Pending(state) ==> match state {
            BootstrappingView::EnterWorkspace => {
                &&& found == PathKind::Directory
                &&& state.step(read, found) == BootstrapView::Pending(
                    BootstrappingView::EnterPrefix { workspace_dir: trimmed(read->Some_0) },
                )
            },
            BootstrappingView::EnterPrefix { workspace_dir } => {
                &&& has_module_prefix_shape(trimmed(read->Some_0))
                &&& state.step(read, found) == BootstrapView::Done(
                    MetaInfoView { workspace_dir, module_prefix: trimmed(read->Some_0) },
                )
            },
        },
{
}

/// Whether the defaults have to be set up: the set-up to begin where there is
/// no settings file, nothing where there is one.
pub fn check_defaults(settings_file_exists: bool) -> (bootstrap: Option<Bootstrapping>)
    ensures
        match bootstrap {
            None => settings_file_exists,
            Some(state) => !settings_file_exists && state@ == BootstrappingView::EnterWorkspace,
        },
{
    if settings_file_exists {
        None
    } else {
        Some(Bootstrapping::EnterWorkspace)
    }
}

/// One turn of the set-up: judges the line that was read for the question of
/// `state`, and moves on where it is accepted. After the last question the
/// record is complete; its text, from `serialize`, is what the settings file
/// is to hold.
///
/// `read` is the line, or `None` where reading failed. `found` is what the
/// filesystem holds at the path that the question's validator names for the
/// trimmed line. After `Rejected` or `ReadFailed` the state is the one
/// before, and the same question is due again.
pub fn create_project_metadata(state: Bootstrapping, read: Option<&str>, found: PathKind) -> (r: (
    Bootstrap,
    PromptStep,
))
    ensures
        r.0@ == state@.step(read_view(read), found),
        r.1@ == prompt_step(state@.question().validator, read_view(read), found),
{
    let question = state.question();
    let step = get_input(&question.validator, read, found);
    match &step {
        PromptStep::Accepted(answer) => {
            let next = state.accept(answer.clone());
            (next, step)
        },
        _ => (Bootstrap::Pending(state), step),
    }
}

} // verus!
