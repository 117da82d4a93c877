use newgo::{get_input, Field, PathKind, PromptStep, Validator};

#[test]
fn a_failed_read_is_reported_and_nothing_else() {
    assert_eq!(get_input(&Validator::YesNo, None, PathKind::Absent), PromptStep::ReadFailed);
    assert_eq!(
        get_input(&Validator::ExistingDirectory, None, PathKind::Directory),
        PromptStep::ReadFailed
    );
}

#[test]
fn the_answer_is_the_trimmed_line() {
    assert_eq!(
        get_input(&Validator::YesNo, Some(" Y \n"), PathKind::Absent),
        PromptStep::Accepted("Y".to_string())
    );
    assert_eq!(
        get_input(&Validator::ModulePrefixShape, Some("github.com/alice\n"), PathKind::Absent),
        PromptStep::Accepted("github.com/alice".to_string())
    );
    assert_eq!(
        get_input(&Validator::ExistingDirectory, Some("  /tmp/ws\r\n"), PathKind::Directory),
        PromptStep::Accepted("/tmp/ws".to_string())
    );
}

#[test]
fn the_line_is_trimmed_before_it_is_judged() {
    assert_eq!(
        get_input(&Validator::ModulePrefixShape, Some("   github.com/alice"), PathKind::Absent),
        PromptStep::Accepted("github.com/alice".to_string())
    );
}

#[test]
fn a_line_that_fails_the_predicate_is_rejected() {
    assert_eq!(get_input(&Validator::YesNo, Some("yes\n"), PathKind::Absent), PromptStep::Rejected);
    assert_eq!(get_input(&Validator::YesNo, Some("\n"), PathKind::Absent), PromptStep::Rejected);
    assert_eq!(
        get_input(&Validator::ExistingDirectory, Some("/tmp/ws\n"), PathKind::Absent),
        PromptStep::Rejected
    );
    assert_eq!(
        get_input(&Validator::ExistingDirectory, Some("/etc/hosts\n"), PathKind::Other),
        PromptStep::Rejected
    );
    assert_eq!(
        get_input(&Validator::ModulePrefixShape, Some("alice\n"), PathKind::Absent),
        PromptStep::Rejected
    );
}

#[test]
fn a_project_name_with_a_space_is_rejected() {
    let available = Validator::ProjectNameAvailable { workspace_dir: "/tmp/ws".to_string() };
    assert_eq!(get_input(&available, Some("my app\n"), PathKind::Absent), PromptStep::Rejected);
    assert_eq!(
        get_input(&available, Some("my-app\n"), PathKind::Absent),
        PromptStep::Accepted("my-app".to_string())
    );
}

#[test]
fn a_project_name_that_exists_is_rejected() {
    let available = Validator::ProjectNameAvailable { workspace_dir: "/tmp/ws".to_string() };
    assert_eq!(get_input(&available, Some("foo\n"), PathKind::Directory), PromptStep::Rejected);
    assert_eq!(get_input(&available, Some("foo\n"), PathKind::Other), PromptStep::Rejected);
}

#[test]
fn field_labels() {
    assert_eq!(Field::WorkspaceDirectory.label(), "Workspace Directory");
    assert_eq!(Field::ModulePrefix.label(), "Module Prefix");
    assert_eq!(Field::ProjectName.label(), "Project Name");
}
