//! The predicates that decide whether a line of input is an answer.
//!
//! A predicate is a function of the input alone, or of the input and of what
//! the filesystem holds at the one path that the input names. The lookup is
//! the caller's: the predicates take its outcome as a value.

use crate::text::{
    begins_with, chars_of, count_tokens, has_whitespace, is_single_token, is_whitespace,
    lemma_token_count_split, lemma_token_count_without_whitespace, lemma_trimmed_bounds,
    lemma_trimmed_is_subrange, starts_with, token_count, trim, trimmed,
};
use vstd::prelude::*;

verus! {

/// How every module prefix has to begin.
pub const REQUIRED_PREFIX: &'static str = "github.com/";

/// What the filesystem holds at a path.
#[derive(Clone, Copy, Debug, PartialEq, Eq, Structural)]
pub enum PathKind {
    /// Nothing.
    Absent,
    /// A directory.
    Directory,
    /// Something that is no directory.
    Other,
}

/// The trimmed input is exactly one token.
pub open spec fn is_non_blank_single_token(input: Seq<char>) -> bool {
    token_count(trimmed(input)) == 1
}

/// The input, as it stands, is the letter y or Y.
pub open spec fn says_yes(answer: Seq<char>) -> bool {
    answer.len() == 1 && (answer[0] == 'y' || answer[0] == 'Y')
}

/// The input, as it stands, is the letter n or N.
pub open spec fn says_no(answer: Seq<char>) -> bool {
    answer.len() == 1 && (answer[0] == 'n' || answer[0] == 'N')
}

/// The trimmed input is a yes or a no, in either case.
pub open spec fn is_yes_no(input: Seq<char>) -> bool {
    says_yes(trimmed(input)) || says_no(trimmed(input))
}

/// The input begins with the required prefix.
pub open spec fn has_module_prefix_shape(input: Seq<char>) -> bool {
    begins_with(input, REQUIRED_PREFIX@)
}

/// The path exists and is a directory.
pub open spec fn is_existing_directory(found: PathKind) -> bool {
    found == PathKind::Directory
}

/// The input is one token, and the workspace holds no entry of that name.
pub open spec fn is_project_name_available(input: Seq<char>, found: PathKind) -> bool {
    is_non_blank_single_token(input) && found == PathKind::Absent
}

/// The trimmed input is one token exactly where it is not empty and holds no
/// whitespace.
pub proof fn lemma_non_blank_single_token_iff(input: Seq<char>)
    ensures
        is_non_blank_single_token(input) <==> is_single_token(trimmed(input)),
{
    let t = trimmed(input);
    let b = lemma_trimmed_bounds(input);
    if t.len() > 0 {
        if has_whitespace(t) {
            let j = choose|j: int| 0 <= j < t.len() && is_whitespace(#[trigger] t[j]);
            assert(t[0] == input[b.0]);
            assert(t[t.len() - 1] == input[b.1 - 1]);
            lemma_token_count_split(t, 0, j, t.len() - 1);
        } else {
            lemma_token_count_without_whitespace(t);
        }
    }
}

/// Every input that is not empty and holds no whitespace is accepted as a
/// single token.
pub proof fn law_single_token_accepted(input: Seq<char>)
    requires
        is_single_token(input),
    ensures
        is_non_blank_single_token(input),
{
    lemma_trimmed_is_subrange(input, 0, input.len() as int);
    assert(input.subrange(0, input.len() as int) =~= input);
    lemma_non_blank_single_token_iff(input);
}

/// Every input with whitespace is rejected as a single token, where trimming
/// leaves nothing of it or leaves some of the whitespace. (Whitespace before
/// and behind a single token is trimmed away, and the token is accepted.)
pub proof fn law_whitespace_rejected(input: Seq<char>)
    requires
        has_whitespace(input),
        trimmed(input).len() == 0 || has_whitespace(trimmed(input)),
    ensures
        !is_non_blank_single_token(input),
{
    lemma_non_blank_single_token_iff(input);
}

/// Whether splitting the trimmed `input` on whitespace yields exactly one token.
pub fn non_blank_single_token(input: &str) -> (ok: bool)
    ensures
        ok == is_non_blank_single_token(input@),
{
    count_tokens(trim(input)) == 1
}

/// Whether `answer` is the single letter y, in either case.
pub fn is_yes(answer: &str) -> (yes: bool)
    ensures
        yes == says_yes(answer@),
{
    let cs = chars_of(answer);
    cs.len() == 1 && (cs[0] == 'y' || cs[0] == 'Y')
}

/// Whether the trimmed `input` is the single letter y or n, in either case.
pub fn yes_no(input: &str) -> (ok: bool)
    ensures
        ok == is_yes_no(input@),
{
    let cs = chars_of(trim(input));
    cs.len() == 1 && (cs[0] == 'y' || cs[0] == 'Y' || cs[0] == 'n' || cs[0] == 'N')
}

/// Whether `input` begins with [`REQUIRED_PREFIX`].
pub fn module_prefix_shape(input: &str) -> (ok: bool)
    ensures
        ok == has_module_prefix_shape(input@),
{
    starts_with(input, REQUIRED_PREFIX)
}

/// Whether the path that was looked up exists and is a directory.
pub fn existing_directory(found: PathKind) -> (ok: bool)
    ensures
        ok == is_existing_directory(found),
{
    match found {
        PathKind::Directory => true,
        _ => false,
    }
}

/// Whether `input` can name a new project: it is one token, and `found`, what
/// the workspace directory holds under that name, is nothing.
pub fn project_name_available(input: &str, found: PathKind) -> (ok: bool)
    ensures
        ok == is_project_name_available(input@, found),
{
    let absent = match found {
        PathKind::Absent => true,
        _ => false,
    };
    non_blank_single_token(input) && absent
}

/// A predicate as a value, to hand to the prompter.
#[derive(Clone, Debug, PartialEq, Eq)]
pub enum Validator {
    /// The trimmed input is exactly one token.
    NonBlankSingleToken,
    /// The input names an existing directory.
    ExistingDirectory,
    /// The input is a yes or a no.
    YesNo,
    /// The input begins with the required prefix.
    ModulePrefixShape,
    /// The input is one token, and no entry of that name exists under the
    /// workspace directory.
    ProjectNameAvailable { workspace_dir: String },
}

/// The mathematical value of a [`Validator`].
pub enum ValidatorView {
    NonBlankSingleToken,
    ExistingDirectory,
    YesNo,
    ModulePrefixShape,
    ProjectNameAvailable { workspace_dir: Seq<char> },
}

impl View for Validator {
    type V = ValidatorView;

    open spec fn view(&self) -> ValidatorView {
        match *self {
            Validator::NonBlankSingleToken => ValidatorView::NonBlankSingleToken,
            Validator::ExistingDirectory => ValidatorView::ExistingDirectory,
            Validator::YesNo => ValidatorView::YesNo,
            Validator::ModulePrefixShape => ValidatorView::ModulePrefixShape,
            Validator::ProjectNameAvailable { workspace_dir } => ValidatorView::ProjectNameAvailable {
                workspace_dir: workspace_dir@,
            },
        }
    }
}

/// The path that a validator needs looked up before it can judge an input.
#[derive(Clone, Debug, PartialEq, Eq)]
pub enum Lookup {
    /// The validator reads nothing but the input.
    Nothing,
    /// The path that the input spells.
    Path { path: String },
    /// The entry called `name` in the directory `dir`.
    Entry { dir: String, name: String },
}

/// The mathematical value of a [`Lookup`].
pub enum LookupView {
    Nothing,
    Path { path: Seq<char> },
    Entry { dir: Seq<char>, name: Seq<char> },
}

impl View for Lookup {
    type V = LookupView;

    open spec fn view(&self) -> LookupView {
        match *self {
            Lookup::Nothing => LookupView::Nothing,
            Lookup::Path { path } => LookupView::Path { path: path@ },
            Lookup::Entry { dir, name } => LookupView::Entry { dir: dir@, name: name@ },
        }
    }
}

impl ValidatorView {
    /// The path whose kind decides with the input, if any does.
    pub open spec fn lookup(self, input: Seq<char>) -> LookupView {
        match self {
            ValidatorView::ExistingDirectory => LookupView::Path { path: input },
            ValidatorView::ProjectNameAvailable { workspace_dir } => LookupView::Entry {
                dir: workspace_dir,
                name: input,
            },
            _ => LookupView::Nothing,
        }
    }

    /// Whether the validator accepts `input`, where `found` is what the
    /// filesystem holds at `self.lookup(input)`.
    pub open spec fn accepts(self, input: Seq<char>, found: PathKind) -> bool {
        match self {
            ValidatorView::NonBlankSingleToken => is_non_blank_single_token(input),
            ValidatorView::ExistingDirectory => is_existing_directory(found),
            ValidatorView::YesNo => is_yes_no(input),
            ValidatorView::ModulePrefixShape => has_module_prefix_shape(input),
            ValidatorView::ProjectNameAvailable { .. } => is_project_name_available(input, found),
        }
    }
}

impl Validator {
    /// The path that the caller looks up before it asks `accepts` about
    /// `input`.
    pub fn lookup(&self, input: &str) -> (l: Lookup)
        ensures
            l@ == self@.lookup(input@),
    {
        match self {
            Validator::ExistingDirectory => Lookup::Path { path: input.to_owned() },
            Validator::ProjectNameAvailable { workspace_dir } => Lookup::Entry {
                dir: workspace_dir.clone(),
                name: input.to_owned(),
            },
            _ => Lookup::Nothing,
        }
    }

    /// Whether the validator accepts `input`. `found` is what the filesystem
    /// holds at the path that `lookup` names for this input; where it names
    /// none, `found` is not read.
    pub fn accepts(&self, input: &str, found: PathKind) -> (ok: bool)
        ensures
            ok == self@.accepts(input@, found),
    {
        match self {
            Validator::NonBlankSingleToken => non_blank_single_token(input),
            Validator::ExistingDirectory => existing_directory(found),
            Validator::YesNo => yes_no(input),
            Validator::ModulePrefixShape => module_prefix_shape(input),
            Validator::ProjectNameAvailable { .. } => project_name_available(input, found),
        }
    }
}

} // verus!
