use newgo::defaults::{
    defaults_from_members, find_member, members_of, parse, serialize, CURRENT_DIR, META_FILE,
    MODULE_PREFIX_KEY, WORKSPACE_DIR_KEY,
};
use newgo::{
    check_defaults, create_project_metadata, get_home_dir, get_project_meta_data,
    get_project_metadata_from_file, try_load, Bootstrap, Bootstrapping, Collecting, Field,
    MetaInfo, PathKind, Progress, ProjectMetaData, PromptStep, Question, StoreError, Validator,
};

fn record(workspace_dir: &str, module_prefix: &str) -> MetaInfo {
    MetaInfo { workspace_dir: workspace_dir.to_string(), module_prefix: module_prefix.to_string() }
}

fn members(pairs: &[(&str, &str)]) -> Vec<(String, String)> {
    pairs.iter().map(|(k, v)| (k.to_string(), v.to_string())).collect()
}

#[test]
fn names_of_the_store() {
    assert_eq!(META_FILE, "newgo.json");
    assert_eq!(CURRENT_DIR, ".");
    assert_eq!(WORKSPACE_DIR_KEY, "workspace_dir");
    assert_eq!(MODULE_PREFIX_KEY, "module_prefix");
}

#[test]
fn serialize_writes_one_object_of_two_members() {
    let text = serialize(&record("/tmp/ws", "github.com/alice"));
    assert_eq!(
        text,
        Ok("{\n  \"workspace_dir\": \"/tmp/ws\",\n  \"module_prefix\": \"github.com/alice\"\n}"
            .to_string())
    );
}

#[test]
fn serialize_escapes_what_json_escapes() {
    let text = serialize(&record("C:\\go \"work\"", "a\nb\t\u{1}")).unwrap();
    assert_eq!(
        text,
        "{\n  \"workspace_dir\": \"C:\\\\go \\\"work\\\"\",\n  \"module_prefix\": \"a\\nb\\t\\u0001\"\n}"
    );
}

#[test]
fn serialize_is_what_serde_json_reads_as_the_same_object() {
    let text = serialize(&record("/tmp/ws", "github.com/alice")).unwrap();
    let value: serde_json::Value = serde_json::from_str(&text).unwrap();
    let object = value.as_object().unwrap();
    assert_eq!(object.len(), 2);
    assert_eq!(object.get("workspace_dir").and_then(|v| v.as_str()), Some("/tmp/ws"));
    assert_eq!(object.get("module_prefix").and_then(|v| v.as_str()), Some("github.com/alice"));
}

#[test]
fn members_of_lists_the_workspace_first_and_the_prefix_second() {
    assert_eq!(
        members_of(&record("/tmp/ws", "github.com/alice")),
        members(&[("workspace_dir", "/tmp/ws"), ("module_prefix", "github.com/alice")])
    );
    assert_eq!(
        members_of(&record("", "")),
        members(&[("workspace_dir", ""), ("module_prefix", "")])
    );
}

#[test]
fn serialize_owes_a_text_for_every_record() {
    assert_eq!(
        serialize(&record("", "")),
        Ok("{\n  \"workspace_dir\": \"\",\n  \"module_prefix\": \"\"\n}".to_string())
    );
    assert!(serialize(&record("\u{0}\u{10ffff}", "\u{feff}\u{d7ff}")).is_ok());
}

#[test]
fn serialize_writes_what_the_pretty_printer_writes_for_the_same_object() {
    let text = serialize(&record("/tmp/ws \"x\"", "github.com/al\\ice")).unwrap();
    let mut object = serde_json::Map::new();
    object.insert("workspace_dir".to_string(), serde_json::Value::from("/tmp/ws \"x\""));
    object.insert("module_prefix".to_string(), serde_json::Value::from("github.com/al\\ice"));
    let sorted = serde_json::to_string_pretty(&serde_json::Value::Object(object)).unwrap();
    let mut ours: Vec<&str> = text.lines().map(|l| l.trim_end_matches(',')).collect();
    let mut theirs: Vec<&str> = sorted.lines().map(|l| l.trim_end_matches(',')).collect();
    ours.sort();
    theirs.sort();
    assert_eq!(ours, theirs);
}

#[test]
fn parse_reads_a_compact_object() {
    let text = "{\"workspace_dir\":\"/tmp/ws\",\"module_prefix\":\"github.com/alice\"}";
    assert_eq!(parse(text), Ok(record("/tmp/ws", "github.com/alice")));
}

#[test]
fn parse_reads_the_members_in_any_order_and_passes_others_over() {
    let text = "{ \"module_prefix\": \"github.com/bob\", \"editor\": \"vi\", \"workspace_dir\": \"/srv\" }";
    assert_eq!(parse(text), Ok(record("/srv", "github.com/bob")));
}

#[test]
fn parse_unescapes() {
    let text = "{\"workspace_dir\":\"C:\\\\go\",\"module_prefix\":\"a\\u0041\\n\"}";
    assert_eq!(parse(text), Ok(record("C:\\go", "aA\n")));
}

#[test]
fn parse_keeps_empty_fields() {
    let text = "{\"workspace_dir\":\"\",\"module_prefix\":\"\"}";
    assert_eq!(parse(text), Ok(record("", "")));
}

#[test]
fn parse_refuses_what_is_no_json() {
    assert_eq!(parse(""), Err(StoreError::Corrupt));
    assert_eq!(parse("workspace_dir=/tmp/ws"), Err(StoreError::Corrupt));
    assert_eq!(parse("{\"workspace_dir\":\"/tmp/ws\""), Err(StoreError::Corrupt));
    assert_eq!(
        parse("{\"workspace_dir\":\"/tmp/ws\",\"module_prefix\":\"github.com/alice\"} x"),
        Err(StoreError::Corrupt)
    );
}

#[test]
fn parse_refuses_what_is_no_object() {
    assert_eq!(parse("[\"/tmp/ws\",\"github.com/alice\"]"), Err(StoreError::Corrupt));
    assert_eq!(parse("\"/tmp/ws\""), Err(StoreError::Corrupt));
    assert_eq!(parse("null"), Err(StoreError::Corrupt));
}

#[test]
fn parse_refuses_a_missing_member() {
    assert_eq!(parse("{}"), Err(StoreError::Corrupt));
    assert_eq!(parse("{\"workspace_dir\":\"/tmp/ws\"}"), Err(StoreError::Corrupt));
    assert_eq!(parse("{\"module_prefix\":\"github.com/alice\"}"), Err(StoreError::Corrupt));
}

#[test]
fn parse_refuses_a_member_that_is_no_string() {
    assert_eq!(
        parse("{\"workspace_dir\":1,\"module_prefix\":\"github.com/alice\"}"),
        Err(StoreError::Corrupt)
    );
    assert_eq!(
        parse("{\"workspace_dir\":\"/tmp/ws\",\"module_prefix\":null}"),
        Err(StoreError::Corrupt)
    );
}

#[test]
fn round_trip_gives_the_record_back() {
    let records = [
        record("/tmp/ws", "github.com/alice"),
        record("C:\\Users\\al\\go", "github.com/al \"the\" gopher"),
        record("/tmp/w\u{e9}\u{3000}s", "github.com/\u{1f980}"),
        record("/tmp/a\nb\tc\r\u{0}\u{1f}\u{7f}", "github.com//\\/"),
        record("x", "y"),
    ];
    for r in records {
        let text = serialize(&r).unwrap();
        assert_eq!(parse(&text), Ok(r));
    }
}

#[test]
fn find_member_gives_the_first_of_that_name() {
    let ms = members(&[("a", "1"), ("b", "2"), ("a", "3")]);
    assert_eq!(find_member(&ms, "a"), Some("1".to_string()));
    assert_eq!(find_member(&ms, "b"), Some("2".to_string()));
    assert_eq!(find_member(&ms, "c"), None);
    assert_eq!(find_member(&Vec::new(), "a"), None);
}

#[test]
fn defaults_from_members_needs_both() {
    let both = members(&[("module_prefix", "github.com/alice"), ("workspace_dir", "/tmp/ws")]);
    assert_eq!(defaults_from_members(&both), Ok(record("/tmp/ws", "github.com/alice")));
    let one = members(&[("workspace_dir", "/tmp/ws")]);
    assert_eq!(defaults_from_members(&one), Err(StoreError::Corrupt));
    let other = members(&[("module_prefix", "github.com/alice"), ("workspace", "/tmp/ws")]);
    assert_eq!(defaults_from_members(&other), Err(StoreError::Corrupt));
    assert_eq!(defaults_from_members(&Vec::new()), Err(StoreError::Corrupt));
}

#[test]
fn home_directory_or_the_current_one() {
    assert_eq!(get_home_dir(Some("/home/alice".to_string())), "/home/alice");
    assert_eq!(get_home_dir(None), ".");
}

#[test]
fn try_load_without_a_file_is_absent() {
    assert_eq!(try_load(None), Err(StoreError::Absent));
}

#[test]
fn try_load_of_a_corrupt_file_is_corrupt() {
    assert_eq!(try_load(Some("not json")), Err(StoreError::Corrupt));
    assert_eq!(try_load(Some("")), Err(StoreError::Corrupt));
    assert_eq!(try_load(Some("{}")), Err(StoreError::Corrupt));
    assert_eq!(try_load(Some("{\"workspace_dir\":\"/tmp/ws\"}")), Err(StoreError::Corrupt));
    assert_eq!(
        try_load(Some("{\"workspace_dir\":\"/tmp/ws\",\"module_prefix\":7}")),
        Err(StoreError::Corrupt)
    );
}

#[test]
fn try_load_reads_the_record() {
    let text = "{\n  \"workspace_dir\": \"/tmp/ws\",\n  \"module_prefix\": \"github.com/alice\"\n}";
    assert_eq!(try_load(Some(text)), Ok(record("/tmp/ws", "github.com/alice")));
}

#[test]
fn load_reads_the_record_of_a_sound_file() {
    let text = "{\n  \"workspace_dir\": \"/tmp/ws\",\n  \"module_prefix\": \"github.com/alice\"\n}";
    assert!(parse(text).is_ok());
    assert_eq!(get_project_metadata_from_file(Some(text)), record("/tmp/ws", "github.com/alice"));
}

#[test]
fn set_up_is_due_only_without_a_settings_file() {
    assert_eq!(check_defaults(false), Some(Bootstrapping::EnterWorkspace));
    assert_eq!(check_defaults(true), None);
}

#[test]
fn questions_of_the_set_up() {
    assert_eq!(
        Bootstrapping::EnterWorkspace.question(),
        Question {
            field: Field::WorkspaceDirectory,
            message: "Please enter Workspace Directory".to_string(),
            validator: Validator::ExistingDirectory,
        }
    );
    assert_eq!(
        Bootstrapping::EnterPrefix { workspace_dir: "/tmp/ws".to_string() }.question(),
        Question {
            field: Field::ModulePrefix,
            message: "Please enter module prefix".to_string(),
            validator: Validator::ModulePrefixShape,
        }
    );
}

#[test]
fn first_run_sets_the_defaults_up_and_the_second_does_not() {
    let state = check_defaults(false).unwrap();
    let (progress, step) = create_project_metadata(state, Some("/tmp/ws\n"), PathKind::Directory);
    assert_eq!(step, PromptStep::Accepted("/tmp/ws".to_string()));
    let state = match progress {
        Bootstrap::Pending(state) => state,
        Bootstrap::Done(_) => panic!("done too early"),
    };
    assert_eq!(state, Bootstrapping::EnterPrefix { workspace_dir: "/tmp/ws".to_string() });
    let (progress, step) = create_project_metadata(state, Some("github.com/alice\n"), PathKind::Absent);
    assert_eq!(step, PromptStep::Accepted("github.com/alice".to_string()));
    assert_eq!(progress, Bootstrap::Done(record("/tmp/ws", "github.com/alice")));
    let written = match progress {
        Bootstrap::Done(r) => serialize(&r).unwrap(),
        Bootstrap::Pending(_) => panic!("not done"),
    };
    assert_eq!(
        written,
        "{\n  \"workspace_dir\": \"/tmp/ws\",\n  \"module_prefix\": \"github.com/alice\"\n}"
    );
    assert_eq!(try_load(Some(&written)), Ok(record("/tmp/ws", "github.com/alice")));
    assert_eq!(
        get_project_metadata_from_file(Some(&written)),
        record("/tmp/ws", "github.com/alice")
    );
    assert_eq!(check_defaults(true), None);
}

#[test]
fn set_up_asks_again_after_a_bad_answer() {
    let (progress, step) =
        create_project_metadata(Bootstrapping::EnterWorkspace, Some("/nowhere\n"), PathKind::Absent);
    assert_eq!(step, PromptStep::Rejected);
    assert_eq!(progress, Bootstrap::Pending(Bootstrapping::EnterWorkspace));
    let (progress, step) =
        create_project_metadata(Bootstrapping::EnterWorkspace, Some("/etc/hosts\n"), PathKind::Other);
    assert_eq!(step, PromptStep::Rejected);
    assert_eq!(progress, Bootstrap::Pending(Bootstrapping::EnterWorkspace));
    let (progress, step) = create_project_metadata(Bootstrapping::EnterWorkspace, None, PathKind::Absent);
    assert_eq!(step, PromptStep::ReadFailed);
    assert_eq!(progress, Bootstrap::Pending(Bootstrapping::EnterWorkspace));
    let state = Bootstrapping::EnterPrefix { workspace_dir: "/tmp/ws".to_string() };
    let (progress, step) = create_project_metadata(state.clone(), Some("alice\n"), PathKind::Absent);
    assert_eq!(step, PromptStep::Rejected);
    assert_eq!(progress, Bootstrap::Pending(state));
}

#[test]
fn stored_settings_are_offered_and_taken_as_they_stand() {
    let text = "{\"workspace_dir\":\"/tmp/ws\",\"module_prefix\":\"github.com/alice\"}";
    assert!(parse(text).is_ok());
    let stored = get_project_metadata_from_file(Some(text));
    let state = Collecting::start(stored);
    assert_eq!(state.question().message, "use /tmp/ws for workspace directory (Y/N): ");
    let (progress, _) = get_project_meta_data(state, Some("Y\n"), PathKind::Absent);
    let state = match progress {
        Progress::Pending(state) => state,
        Progress::Done(_) => panic!("done too early"),
    };
    assert_eq!(state.question().message, "use github.com/alice for module prefix (Y/N): ");
    let (progress, _) = get_project_meta_data(state, Some("Y\n"), PathKind::Absent);
    let state = match progress {
        Progress::Pending(state) => state,
        Progress::Done(_) => panic!("done too early"),
    };
    let (progress, _) = get_project_meta_data(state, Some("demo\n"), PathKind::Absent);
    assert_eq!(
        progress,
        Progress::Done(ProjectMetaData {
            workspace_dir: "/tmp/ws".to_string(),
            project_name: "demo".to_string(),
            module_prefix: "github.com/alice".to_string(),
        })
    );
}
