use rustm::config::{
    Config, DirectoryProbe, FileOutcome, LoadError, LoadStatus, LoadStep, SaveError, SetupReason,
    ValidationError, reason_variant, validate_projects_directory,
};

fn ok_probe() -> DirectoryProbe {
    DirectoryProbe { exists: true, is_directory: true, listable: true, writable: true }
}

fn absent_probe() -> DirectoryProbe {
    DirectoryProbe { exists: false, is_directory: false, listable: false, writable: false }
}

#[test]
fn validate_projects_directory_ok() {
    assert!(validate_projects_directory("projects", &ok_probe()).is_ok());
}

#[test]
fn validate_projects_directory_missing() {
    let e = validate_projects_directory("nope", &absent_probe()).unwrap_err();
    matches!(e, ValidationError::ProjectsDirDoesNotExist(_));
}

#[test]
fn create_and_persist_roundtrip() {
    let probe = ok_probe();
    let plan = Config::create_and_persist("projects", "code", &probe).unwrap();
    assert_eq!(plan.config.projects_directory(), "projects");
    assert_eq!(plan.config.editor_cmd(), "code");
    match Config::load(FileOutcome::Contents(plan.yaml.clone())) {
        LoadStep::CheckDirectory(c) => {
            assert_eq!(c.projects_directory(), "projects");
            match c.resolve(&probe) {
                LoadStatus::Ready(cfg) => {
                    assert_eq!(cfg.projects_directory(), "projects");
                    assert_eq!(cfg.editor_cmd(), "code");
                }
                LoadStatus::NeedsInitialSetup(_) => panic!("expected a ready configuration"),
            }
        }
        LoadStep::Done(r) => panic!("expected a directory check, got {:?}", r.is_ok()),
    }
}

#[test]
fn missing_file_needs_setup() {
    for _ in 0..2 {
        match Config::load(FileOutcome::Missing) {
            LoadStep::Done(Ok(LoadStatus::NeedsInitialSetup(SetupReason::MissingFile))) => {}
            _ => panic!("a missing file must always ask for initial setup"),
        }
    }
}

#[test]
fn unreadable_file_is_io_error() {
    match Config::load(FileOutcome::Unreadable("permission denied".to_string())) {
        LoadStep::Done(Err(LoadError::Io(m))) => assert_eq!(m, "permission denied"),
        _ => panic!("expected an I/O load error"),
    }
}

#[test]
fn corrupt_vs_incomplete() {
    match Config::load(FileOutcome::Contents("editor_cmd: code".to_string())) {
        LoadStep::Done(Ok(LoadStatus::NeedsInitialSetup(SetupReason::IncompleteData))) => {}
        _ => panic!("a missing required key must ask for setup, not fail"),
    }
    match Config::load(FileOutcome::Contents("editor_cmd code".to_string())) {
        LoadStep::Done(Err(LoadError::Corrupt(_))) => {}
        _ => panic!("malformed text must be a corrupt-file error"),
    }
}

#[test]
fn load_blank_fields_incomplete() {
    let yaml = "projects_directory: ' '\neditor_cmd: code\n".to_string();
    match Config::load(FileOutcome::Contents(yaml)) {
        LoadStep::Done(Ok(LoadStatus::NeedsInitialSetup(SetupReason::IncompleteData))) => {}
        _ => panic!("a blank field must ask for setup"),
    }
}

#[test]
fn load_stale_directory_downgrades() {
    let plan = Config::create_and_persist("projects", "code", &ok_probe()).unwrap();
    match Config::load(FileOutcome::Contents(plan.yaml)) {
        LoadStep::CheckDirectory(c) => match c.resolve(&absent_probe()) {
            LoadStatus::NeedsInitialSetup(SetupReason::IncompleteData) => {}
            _ => panic!("a vanished directory must downgrade to setup"),
        },
        LoadStep::Done(_) => panic!("expected a directory check"),
    }
}

#[test]
fn blank_field_rejection() {
    match Config::create_and_persist("", "code", &absent_probe()) {
        Err(SaveError::Validation(ValidationError::EmptyField(f))) => {
            assert_eq!(f, "projects_directory")
        }
        _ => panic!("an empty directory path must be rejected"),
    }
    match Config::create_and_persist("/valid/dir", "   ", &ok_probe()) {
        Err(SaveError::Validation(ValidationError::EmptyField(f))) => {
            assert_eq!(f, "editor_cmd")
        }
        _ => panic!("a blank editor command must be rejected"),
    }
}

#[test]
fn blank_path_is_empty_field() {
    match validate_projects_directory("   ", &ok_probe()).unwrap_err() {
        ValidationError::EmptyField(f) => assert_eq!(f, "projects_directory"),
        _ => panic!("a whitespace-only path must be the empty-field fault"),
    }
    match Config::create_and_persist("   ", "code", &ok_probe()) {
        Err(SaveError::Validation(ValidationError::EmptyField(f))) => {
            assert_eq!(f, "projects_directory")
        }
        _ => panic!("a whitespace-only path must be rejected"),
    }
}

#[test]
fn load_trims_editor_command() {
    let yaml = "projects_directory: projects\neditor_cmd: '  code -n  '\n".to_string();
    match Config::load(FileOutcome::Contents(yaml)) {
        LoadStep::CheckDirectory(c) => match c.resolve(&ok_probe()) {
            LoadStatus::Ready(cfg) => assert_eq!(cfg.editor_cmd(), "code -n"),
            LoadStatus::NeedsInitialSetup(_) => panic!("expected a ready configuration"),
        },
        LoadStep::Done(_) => panic!("expected a directory check"),
    }
}

#[test]
fn unicode_whitespace_counts_as_blank() {
    match Config::create_and_persist("projects", "\u{a0}", &ok_probe()) {
        Err(SaveError::Validation(ValidationError::EmptyField(f))) => {
            assert_eq!(f, "editor_cmd")
        }
        _ => panic!("a no-break-space command must be rejected as blank"),
    }
    let plan = Config::create_and_persist("projects", "\u{a0}vim\u{2028}", &ok_probe()).unwrap();
    assert_eq!(plan.config.editor_cmd(), "vim");
}

#[test]
fn fault_ordering() {
    let e = validate_projects_directory("nope", &absent_probe()).unwrap_err();
    match e {
        ValidationError::ProjectsDirDoesNotExist(p) => assert_eq!(p, "nope"),
        ValidationError::ProjectsDirNotReadable(_) | ValidationError::ProjectsDirNotWritable(_) => {
            panic!("a nonexistent path must report the missing fault first")
        }
        _ => panic!("expected the missing-directory fault"),
    }
}

#[test]
fn existing_file_is_not_a_directory() {
    let probe = DirectoryProbe { exists: true, is_directory: false, listable: false, writable: false };
    let e = validate_projects_directory("some_file", &probe).unwrap_err();
    match e {
        ValidationError::ProjectsDirNotDirectory(p) => assert_eq!(p, "some_file"),
        _ => panic!("an existing non-directory must be rejected as such"),
    }
}

#[test]
fn unreadable_and_unwritable_faults() {
    let unreadable = DirectoryProbe { exists: true, is_directory: true, listable: false, writable: false };
    match validate_projects_directory("d", &unreadable).unwrap_err() {
        ValidationError::ProjectsDirNotReadable(p) => assert_eq!(p, "d"),
        _ => panic!("expected the not-readable fault"),
    }
    let unwritable = DirectoryProbe { exists: true, is_directory: true, listable: true, writable: false };
    match validate_projects_directory("d", &unwritable).unwrap_err() {
        ValidationError::ProjectsDirNotWritable(p) => assert_eq!(p, "d"),
        _ => panic!("expected the not-writable fault"),
    }
}

#[test]
fn validator_determinism() {
    let probe = DirectoryProbe { exists: true, is_directory: true, listable: false, writable: true };
    let first = validate_projects_directory("same", &probe).unwrap_err();
    let second = validate_projects_directory("same", &probe).unwrap_err();
    assert_eq!(first.message(), second.message());
}

#[test]
fn editor_command_is_trimmed() {
    let plan = Config::create_and_persist("projects", "  code -n  ", &ok_probe()).unwrap();
    assert_eq!(plan.config.editor_cmd(), "code -n");
}

#[test]
fn save_plan_is_atomic_write() {
    let plan = Config::create_and_persist("projects", "code", &ok_probe()).unwrap();
    assert_eq!(plan.temp_path, format!("{}.tmp", plan.target_path));
    assert!(plan.target_path.ends_with("/rustm/config.yaml"));
    assert!(Config::file_path().ends_with("/rustm/config.yaml"));
}

#[test]
fn save_roundtrips_existing_record() {
    let probe = ok_probe();
    let plan = Config::create_and_persist("projects", "vim", &probe).unwrap();
    let again = plan.config.save(&probe).unwrap();
    match Config::load(FileOutcome::Contents(again.yaml)) {
        LoadStep::CheckDirectory(c) => match c.resolve(&probe) {
            LoadStatus::Ready(cfg) => {
                assert_eq!(cfg.projects_directory(), "projects");
                assert_eq!(cfg.editor_cmd(), "vim");
            }
            LoadStatus::NeedsInitialSetup(_) => panic!("expected a ready configuration"),
        },
        LoadStep::Done(_) => panic!("expected a directory check"),
    }
}

#[test]
fn roundtrip_with_awkward_values() {
    // Values that YAML would misread unquoted: a colon, a bool-looking word,
    // inner whitespace, a newline. The save must write them so a load reads
    // back exactly the same fields.
    let probe = ok_probe();
    let cases = [
        ("a: b", "true"),
        ("dir with  spaces", "code --wait -n"),
        ("line\nbreak", "null"),
        ("projects_directory", "editor_cmd"),
    ];
    for (dir, cmd) in cases {
        let plan = Config::create_and_persist(dir, cmd, &probe).unwrap();
        match Config::load(FileOutcome::Contents(plan.yaml)) {
            LoadStep::CheckDirectory(c) => match c.resolve(&probe) {
                LoadStatus::Ready(cfg) => {
                    assert_eq!(cfg.projects_directory(), dir);
                    assert_eq!(cfg.editor_cmd(), cmd);
                }
                LoadStatus::NeedsInitialSetup(_) => panic!("expected a ready configuration"),
            },
            LoadStep::Done(_) => panic!("expected a directory check for {dir:?}"),
        }
    }
}

#[test]
fn validation_messages() {
    let e = validate_projects_directory("nope", &absent_probe()).unwrap_err();
    assert_eq!(e.message(), "Projects directory does not exist: nope");
    match Config::create_and_persist("d", " ", &ok_probe()) {
        Err(e) => {
            assert_eq!(e.message(), "Validation error: Field 'editor_cmd' cannot be empty");
            match e {
                SaveError::Validation(v) => {
                    assert_eq!(v.message(), "Field 'editor_cmd' cannot be empty")
                }
                _ => panic!("expected a validation error"),
            }
        }
        Ok(_) => panic!("expected a validation error"),
    }
    match Config::load(FileOutcome::Contents("{]".to_string())) {
        LoadStep::Done(Err(e)) => {
            assert!(e.message().starts_with("Corrupt config YAML: "))
        }
        _ => panic!("expected a corrupt-file error"),
    }
}

#[test]
fn reason_variant_names() {
    assert_eq!(reason_variant(&SetupReason::MissingFile), "MissingFile");
    assert_eq!(reason_variant(&SetupReason::IncompleteData), "IncompleteData");
}
