use rustm::config::{Config, DirectoryProbe};
use rustm::project::create::{
    CargoNewPlan, CreateAndOpenError, CreateProjectError, CreateProjectParams, OpenEditorError,
    ProjectEdition, ProjectType, RunOutcome, conclude_editor, create_and_optionally_open,
    create_project, validate_name,
};
use rustm::project::list::{ListProjectsError, ScanEntry, any_status_intersects, list_projects};

fn ok_probe() -> DirectoryProbe {
    DirectoryProbe { exists: true, is_directory: true, listable: true, writable: true }
}

fn absent_probe() -> DirectoryProbe {
    DirectoryProbe { exists: false, is_directory: false, listable: false, writable: false }
}

fn ready_config(dir: &str, cmd: &str) -> Config {
    Config::create_and_persist(dir, cmd, &ok_probe()).unwrap().config
}

fn entry(name: &str, is_dir: bool, has_cargo_toml: bool, dirty: bool) -> ScanEntry {
    ScanEntry {
        name: name.to_string(),
        path: format!("projects/{}", name),
        is_dir,
        has_cargo_toml,
        has_uncommitted_changes: dirty,
    }
}

#[test]
fn name_validation_ok() {
    assert!(validate_name("my_crate").is_ok());
    assert!(validate_name("crate2").is_ok());
    assert!(validate_name("my-crate").is_ok());
}

#[test]
fn name_validation_failures() {
    assert!(validate_name("").is_err());
    assert!(validate_name("  ").is_err());
    assert!(validate_name("9start").is_err());
    assert!(validate_name("bad name").is_err());
    assert!(validate_name("bad*char").is_err());
}

#[test]
fn defaults_applied() {
    let p = CreateProjectParams::new("abc".to_string());
    assert_eq!(p.project_type, ProjectType::Binary);
    assert_eq!(p.edition, ProjectEdition::E2024);
}

#[test]
fn edition_and_type_strings() {
    assert_eq!(ProjectEdition::E2015.as_str(), "2015");
    assert_eq!(ProjectEdition::E2018.as_str(), "2018");
    assert_eq!(ProjectEdition::E2021.as_str(), "2021");
    assert_eq!(ProjectEdition::E2024.as_str(), "2024");
    assert_eq!(ProjectType::Binary.cargo_flag(), "--bin");
    assert_eq!(ProjectType::Library.cargo_flag(), "--lib");
}

#[test]
fn create_project_plans_generator_command() {
    let cfg = ready_config("projects", "code");
    let params = CreateProjectParams::new("abc".to_string());
    let plan = create_project(&cfg, params, &ok_probe(), false).unwrap();
    assert_eq!(plan.program, "cargo");
    assert_eq!(plan.args, vec!["new", "--bin", "--edition", "2024", "abc"]);
    assert_eq!(plan.working_dir, "projects");
    assert_eq!(plan.project_path, "projects/abc");
}

#[test]
fn create_project_rejections() {
    let cfg = ready_config("projects", "code");
    match create_project(&cfg, CreateProjectParams::new("bad name".to_string()), &ok_probe(), false)
    {
        Err(CreateProjectError::InvalidName(m)) => {
            assert_eq!(m, "name cannot contain whitespace")
        }
        _ => panic!("expected an invalid-name error"),
    }
    match create_project(&cfg, CreateProjectParams::new("abc".to_string()), &absent_probe(), false)
    {
        Err(CreateProjectError::ProjectsDirInvalid(m)) => {
            assert_eq!(m, "Projects directory does not exist: projects")
        }
        _ => panic!("expected a projects-directory error"),
    }
    match create_project(&cfg, CreateProjectParams::new("abc".to_string()), &ok_probe(), true) {
        Err(CreateProjectError::AlreadyExists(p)) => assert_eq!(p, "projects/abc"),
        _ => panic!("expected an already-exists error"),
    }
}

fn plan_for(name: &str) -> CargoNewPlan {
    let cfg = ready_config("projects", "code");
    create_project(&cfg, CreateProjectParams::new(name.to_string()), &ok_probe(), false).unwrap()
}

#[test]
fn conclude_maps_generator_outcomes() {
    match plan_for("abc").conclude(RunOutcome::NotFound) {
        Err(CreateProjectError::CargoNotFound) => {}
        _ => panic!("expected the generator-not-found error"),
    }
    match plan_for("abc").conclude(RunOutcome::SpawnFailed("no pipe".to_string())) {
        Err(CreateProjectError::Io(m)) => assert_eq!(m, "no pipe"),
        _ => panic!("expected an I/O error"),
    }
    let failed = RunOutcome::Exited { success: false, code: Some(101), stderr: "boom".to_string() };
    match plan_for("abc").conclude(failed) {
        Err(CreateProjectError::CargoFailed { status, stderr }) => {
            assert_eq!(status, 101);
            assert_eq!(stderr, "boom");
        }
        _ => panic!("expected a generator failure"),
    }
    let crashed = RunOutcome::Exited { success: false, code: None, stderr: String::new() };
    match plan_for("abc").conclude(crashed) {
        Err(CreateProjectError::CargoFailed { status, .. }) => assert_eq!(status, -1),
        _ => panic!("expected a generator failure"),
    }
    let done = RunOutcome::Exited { success: true, code: Some(0), stderr: String::new() };
    let res = plan_for("abc").conclude(done).unwrap();
    assert_eq!(res.project_path, "projects/abc");
    assert_eq!(res.params.name, "abc");
}

#[test]
fn editor_invocation_splits_command() {
    let cfg = ready_config("projects", "code -n");
    let done = RunOutcome::Exited { success: true, code: Some(0), stderr: String::new() };
    let res = plan_for("abc").conclude(done).unwrap();
    let inv = res.maybe_open_in_editor(&cfg).unwrap();
    assert_eq!(inv.program, "code");
    assert_eq!(inv.args, vec!["-n", "projects/abc"]);
}

#[test]
fn editor_outcomes() {
    let done = RunOutcome::Exited { success: true, code: Some(0), stderr: String::new() };
    assert!(conclude_editor(done).is_ok());
    let failed = RunOutcome::Exited { success: false, code: Some(3), stderr: String::new() };
    match conclude_editor(failed) {
        Err(OpenEditorError::Failed(c)) => assert_eq!(c, 3),
        _ => panic!("expected the exit-status error"),
    }
    match conclude_editor(RunOutcome::SpawnFailed("denied".to_string())) {
        Err(OpenEditorError::Spawn(m)) => assert_eq!(m, "denied"),
        _ => panic!("expected the spawn error"),
    }
}

#[test]
fn name_rejects_unicode_whitespace() {
    assert!(validate_name("\u{a0}").is_err());
}

fn created_abc() -> rustm::project::create::CreateProjectResult {
    let done = RunOutcome::Exited { success: true, code: Some(0), stderr: String::new() };
    plan_for("abc").conclude(done).unwrap()
}

#[test]
fn open_failure_surfaced_only_on_request() {
    let r = create_and_optionally_open(created_abc(), Ok(()), true).unwrap();
    assert_eq!(r.project_path, "projects/abc");
    let quiet = create_and_optionally_open(created_abc(), Err(OpenEditorError::Failed(2)), false);
    assert!(quiet.is_ok());
    match create_and_optionally_open(created_abc(), Err(OpenEditorError::Failed(2)), true) {
        Err(CreateAndOpenError::OpenAfterCreate { result, error: OpenEditorError::Failed(c) }) => {
            assert_eq!(result.project_path, "projects/abc");
            assert_eq!(c, 2);
        }
        _ => panic!("an editor failure must be surfaced when the editor was asked for"),
    }
}

#[test]
fn dirtiness_rule_over_status_bits() {
    assert!(!any_status_intersects(&Vec::new(), 0b111));
    assert!(!any_status_intersects(&vec![0, 0b1000], 0b111));
    assert!(any_status_intersects(&vec![0, 0b0010], 0b111));
}

#[test]
fn lists_simple_projects() {
    let cfg = ready_config("projects", "code");
    let entries = vec![
        entry("project1", true, true, false),
        entry("project2", true, true, true),
        entry("stray_file", false, false, false),
        entry("no_manifest", true, false, false),
    ];
    let list = list_projects(&cfg, entries, &ok_probe()).unwrap();
    assert_eq!(list.len(), 2);
    let p2i = list.iter().find(|p| p.name == "project2").unwrap();
    assert!(p2i.has_uncommitted_changes);
}

#[test]
fn listing_sorts_case_insensitively() {
    let cfg = ready_config("projects", "code");
    let entries = vec![entry("B", true, true, false), entry("a", true, true, false)];
    let list = list_projects(&cfg, entries, &ok_probe()).unwrap();
    let names: Vec<&str> = list.iter().map(|p| p.name.as_str()).collect();
    assert_eq!(names, vec!["a", "B"]);
}

#[test]
fn listing_rejects_invalid_directory() {
    let cfg = ready_config("projects", "code");
    match list_projects(&cfg, Vec::new(), &absent_probe()) {
        Err(ListProjectsError::ProjectsDirInvalid(m)) => {
            assert_eq!(m, "Projects directory does not exist: projects")
        }
        _ => panic!("expected the invalid-directory error"),
    }
    let e = ListProjectsError::Io("splat".to_string());
    assert_eq!(e.message(), "I/O error listing projects: splat");
}
