//! The verified core of a scaffolder for Go projects.
//!
//! The scaffolder asks for a workspace directory, a module prefix and a
//! project name, keeps the first two as defaults in a settings file, and sets
//! the project up: a directory, a module, an entry-point file, an editor.
//!
//! This library decides; it does not act. Every function here is a function of
//! its arguments: what a line of input is worth, which question comes next,
//! which text the settings file holds, which actions set the project up. The
//! program around it shows the questions, reads the lines, looks up the paths,
//! reads and writes the settings file and runs the commands.

pub mod collect;
pub mod defaults;
pub mod json;
pub mod project;
pub mod prompt;
pub mod text;
pub mod validate;

pub use collect::{get_project_meta_data, Collecting, Progress, ProjectMetaData};
pub use defaults::{
    check_defaults, create_project_metadata, get_home_dir, get_project_metadata_from_file,
    try_load, Bootstrap, Bootstrapping, MetaInfo, StoreError,
};
pub use project::{
    create_project, detect_go_version, exec_cmd, next_action, Action, CommandError, Invocation,
    SpawnOutcome,
};
pub use prompt::{get_input, Field, PromptStep, Question};
pub use validate::{Lookup, PathKind, Validator};
