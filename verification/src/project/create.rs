//! Project creation: validating the requested name, re-validating the
//! configured projects directory, and planning the commands the caller runs
//! (the project generator, and optionally the editor).
//!
//! The functions here decide; the caller performs. `create_project` checks
//! everything and hands back the generator command to run;
//! `CargoNewPlan::conclude` turns the command's outcome into the final
//! result. Opening the editor follows the same pattern.

use vstd::prelude::*;

verus! {

use vstd::string::StrSliceExecFns;
use vstd::string::StringExecFns;
use crate::config::{Config, DirectoryProbe, spec_validate_directory, validate_projects_directory};
use crate::text::{
    is_blank,
    is_blank_str,
    is_space_char,
    char_is_space,
    spec_split_ws,
    split_ws_str,
    lemma_split_ws_nonblank,
};

/// Supported project types.
#[derive(Debug, Clone, Copy, PartialEq, Eq, Structural)]
pub enum ProjectType {
    Binary,
    Library,
}

/// The flag the project generator takes for each project type.
pub open spec fn cargo_flag_of(t: ProjectType) -> Seq<char> {
    match t {
        ProjectType::Binary => "--bin"@,
        ProjectType::Library => "--lib"@,
    }
}

impl ProjectType {
    /// The generator flag for this project type.
    pub fn cargo_flag(self) -> (r: &'static str)
        ensures
            r@ == cargo_flag_of(self),
    {
        match self {
            ProjectType::Binary => "--bin",
            ProjectType::Library => "--lib",
        }
    }
}

impl Default for ProjectType {
    fn default() -> (r: Self)
        ensures
            r == ProjectType::Binary,
    {
        ProjectType::Binary
    }
}

/// Supported Rust editions, the newest being the default.
#[derive(Debug, Clone, Copy, PartialEq, Eq, Structural)]
pub enum ProjectEdition {
    E2015,
    E2018,
    E2021,
    E2024,
}

/// The year string of each edition.
pub open spec fn edition_str_of(e: ProjectEdition) -> Seq<char> {
    match e {
        ProjectEdition::E2015 => "2015"@,
        ProjectEdition::E2018 => "2018"@,
        ProjectEdition::E2021 => "2021"@,
        ProjectEdition::E2024 => "2024"@,
    }
}

impl ProjectEdition {
    /// The edition as its year string.
    pub fn as_str(self) -> (r: &'static str)
        ensures
            r@ == edition_str_of(self),
    {
        match self {
            ProjectEdition::E2015 => "2015",
            ProjectEdition::E2018 => "2018",
            ProjectEdition::E2021 => "2021",
            ProjectEdition::E2024 => "2024",
        }
    }
}

impl Default for ProjectEdition {
    fn default() -> (r: Self)
        ensures
            r == ProjectEdition::E2024,
    {
        ProjectEdition::E2024
    }
}

/// Parameters the caller provides to create a project.
#[derive(Debug, Clone)]
pub struct CreateProjectParams {
    pub name: String,
    pub project_type: ProjectType,
    pub edition: ProjectEdition,
}

impl CreateProjectParams {
    /// Builds parameters with the defaults: a binary project on the newest
    /// edition.
    pub fn new(name: String) -> (r: Self)
        ensures
            r.name@ == name@,
            r.project_type == ProjectType::Binary,
            r.edition == ProjectEdition::E2024,
    {
        CreateProjectParams {
            name,
            project_type: ProjectType::Binary,
            edition: ProjectEdition::E2024,
        }
    }
}

/// A successfully created project.
#[derive(Debug, Clone)]
pub struct CreateProjectResult {
    pub project_path: String,
    pub params: CreateProjectParams,
}

/// Failures of project creation.
#[derive(Debug)]
pub enum CreateProjectError {
    InvalidName(String),
    ProjectsDirInvalid(String),
    AlreadyExists(String),
    CargoNotFound,
    CargoFailed { status: i32, stderr: String },
    Io(String),
}

/// Failures of opening a project in the editor.
#[derive(Debug)]
pub enum OpenEditorError {
    EditorCommandEmpty,
    Spawn(String),
    Failed(i32),
}

/// `c` may start a project name: an ASCII letter.
pub open spec fn is_ascii_alpha(c: char) -> bool {
    (('a' as u32) <= (c as u32) && (c as u32) <= ('z' as u32)) || (('A' as u32) <= (c as u32) && (
    c as u32) <= ('Z' as u32))
}

/// `c` may appear in a project name: an ASCII letter or digit, `_` or `-`.
pub open spec fn is_name_char(c: char) -> bool {
    is_ascii_alpha(c) || (('0' as u32) <= (c as u32) && (c as u32) <= ('9' as u32)) || c == '_'
        || c == '-'
}

fn char_is_ascii_alpha(c: char) -> (r: bool)
    ensures
        r == is_ascii_alpha(c),
{
    let u = c as u32;
    (('a' as u32) <= u && u <= ('z' as u32)) || (('A' as u32) <= u && u <= ('Z' as u32))
}

fn char_is_name_char(c: char) -> (r: bool)
    ensures
        r == is_name_char(c),
{
    let u = c as u32;
    char_is_ascii_alpha(c) || (('0' as u32) <= u && u <= ('9' as u32)) || c == '_' || c == '-'
}

/// Spec-level verdict on a requested project name, in checking order.
pub enum NameVerdict {
    Accepted,
    Blank,
    HasWhitespace,
    BadStart,
    BadChar,
}

/// The verdict on a name: blankness, embedded whitespace, a bad first
/// character, and the character set are checked in that order.
pub open spec fn spec_validate_name(s: Seq<char>) -> NameVerdict {
    if is_blank(s) {
        NameVerdict::Blank
    } else if exists|i: int| 0 <= i < s.len() && is_space_char(s[i]) {
        NameVerdict::HasWhitespace
    } else if !is_ascii_alpha(s[0]) {
        NameVerdict::BadStart
    } else if exists|i: int| 0 <= i < s.len() && !is_name_char(s[i]) {
        NameVerdict::BadChar
    } else {
        NameVerdict::Accepted
    }
}

/// Validates a project name, reporting the first failed check.
#[verifier::loop_isolation(false)]
pub fn validate_name(name: &str) -> (r: Result<(), String>)
    ensures
        r is Ok <==> spec_validate_name(name@) is Accepted,
        spec_validate_name(name@) is Blank ==> (r matches Err(m) && m@
            == "name cannot be blank"@),
        spec_validate_name(name@) is HasWhitespace ==> (r matches Err(m) && m@
            == "name cannot contain whitespace"@),
        spec_validate_name(name@) is BadStart ==> (r matches Err(m) && m@
            == "name must start with an ASCII alphabetic character"@),
        spec_validate_name(name@) is BadChar ==> (r matches Err(m) && m@
            == "name can only contain ASCII alphanumeric, '_' or '-'"@),
{
    if is_blank_str(name) {
        return Err("name cannot be blank".to_owned());
    }
    let n = name.unicode_len();
    let mut i: usize = 0;
    while i < n
        invariant
            0 <= i <= n,
            n == name@.len(),
            forall|k: int| 0 <= k < i ==> !is_space_char(name@[k]),
        decreases n - i,
    {
        if char_is_space(name.get_char(i)) {
            return Err("name cannot contain whitespace".to_owned());
        }
        i = i + 1;
    }
    assert(name@.len() > 0);
    if !char_is_ascii_alpha(name.get_char(0)) {
        return Err("name must start with an ASCII alphabetic character".to_owned());
    }
    let mut i: usize = 0;
    while i < n
        invariant
            0 <= i <= n,
            n == name@.len(),
            forall|k: int| 0 <= k < i ==> is_name_char(name@[k]),
        decreases n - i,
    {
        if !char_is_name_char(name.get_char(i)) {
            return Err("name can only contain ASCII alphanumeric, '_' or '-'".to_owned());
        }
        i = i + 1;
    }
    Ok(())
}

/// The command the caller runs to create the project: the generator, its
/// arguments, and the directory to run it from.
pub struct CargoNewPlan {
    pub program: String,
    pub args: Vec<String>,
    pub working_dir: String,
    pub project_path: String,
    pub params: CreateProjectParams,
}

/// What came of running a planned command.
pub enum RunOutcome {
    /// The program was not found on the search path.
    NotFound,
    /// Spawning failed for another reason, with the error's message.
    SpawnFailed(String),
    /// The program ran to completion.
    Exited { success: bool, code: Option<i32>, stderr: String },
}

/// Decision half of project creation: validates the name, re-validates the
/// projects directory against a fresh probe, insists the target path is
/// unoccupied, and hands back the generator command to run. Nothing is
/// planned unless every check passes.
pub fn create_project(
    config: &Config,
    params: CreateProjectParams,
    probe: &DirectoryProbe,
    target_exists: bool,
) -> (r: Result<CargoNewPlan, CreateProjectError>)
    ensures
        (r matches Err(CreateProjectError::InvalidName(_))) <==> !(spec_validate_name(
            params.name@,
        ) is Accepted),
        (r matches Err(CreateProjectError::ProjectsDirInvalid(_))) <==> (spec_validate_name(
            params.name@,
        ) is Accepted && !(spec_validate_directory(config@.projects_directory, *probe)
            is Accepted)),
        (r matches Err(CreateProjectError::AlreadyExists(_))) <==> (spec_validate_name(
            params.name@,
        ) is Accepted && spec_validate_directory(config@.projects_directory, *probe) is Accepted
            && target_exists),
        r matches Err(CreateProjectError::AlreadyExists(p)) ==> p@ == config@.projects_directory
            + "/"@ + params.name@,
        (r is Ok) <==> (spec_validate_name(params.name@) is Accepted && spec_validate_directory(
            config@.projects_directory,
            *probe,
        ) is Accepted && !target_exists),
        r matches Ok(plan) ==> {
            &&& plan.program@ == "cargo"@
            &&& plan.args@.len() == 5
            &&& plan.args@[0]@ == "new"@
            &&& plan.args@[1]@ == cargo_flag_of(params.project_type)
            &&& plan.args@[2]@ == "--edition"@
            &&& plan.args@[3]@ == edition_str_of(params.edition)
            &&& plan.args@[4]@ == params.name@
            &&& plan.working_dir@ == config@.projects_directory
            &&& plan.project_path@ == config@.projects_directory + "/"@ + params.name@
            &&& plan.params.name@ == params.name@
            &&& plan.params.project_type == params.project_type
            &&& plan.params.edition == params.edition
        },
{
    if let Err(m) = validate_name(params.name.as_str()) {
        return Err(CreateProjectError::InvalidName(m));
    }
    if let Err(v) = validate_projects_directory(config.projects_directory(), probe) {
        return Err(CreateProjectError::ProjectsDirInvalid(v.message()));
    }
    let project_path = config.projects_directory().to_owned().concat("/").concat(
        params.name.as_str(),
    );
    if target_exists {
        return Err(CreateProjectError::AlreadyExists(project_path));
    }
    let mut args: Vec<String> = Vec::new();
    args.push("new".to_owned());
    args.push(params.project_type.cargo_flag().to_owned());
    args.push("--edition".to_owned());
    args.push(params.edition.as_str().to_owned());
    args.push(params.name.clone());
    Ok(
        CargoNewPlan {
            program: "cargo".to_owned(),
            args,
            working_dir: config.projects_directory().to_owned(),
            project_path,
            params,
        },
    )
}

impl CargoNewPlan {
    /// Concludes project creation from the outcome of the planned command.
    pub fn conclude(self, outcome: RunOutcome) -> (r: Result<
        CreateProjectResult,
        CreateProjectError,
    >)
        ensures
            (outcome is NotFound) <==> (r matches Err(CreateProjectError::CargoNotFound)),
            outcome matches RunOutcome::SpawnFailed(m) ==> (r matches Err(
                CreateProjectError::Io(e),
            ) && e@ == m@),
            outcome matches RunOutcome::Exited { success: true, .. } ==> (r matches Ok(res)
                && res.project_path@ == self.project_path@ && res.params.name@ == self.params.name@
                && res.params.project_type == self.params.project_type && res.params.edition
                == self.params.edition),
            outcome matches RunOutcome::Exited { success: false, code, stderr } ==> (r matches Err(
                CreateProjectError::CargoFailed { status, stderr: s },
            ) && s@ == stderr@ && (code matches Some(c) ==> status == c) && (code is None
                ==> status == -1)),
    {
        match outcome {
            RunOutcome::NotFound => Err(CreateProjectError::CargoNotFound),
            RunOutcome::SpawnFailed(m) => Err(CreateProjectError::Io(m)),
            RunOutcome::Exited { success, code, stderr } => {
                if success {
                    Ok(CreateProjectResult { project_path: self.project_path, params: self.params })
                } else {
                    let status: i32 = match code {
                        Some(c) => c,
                        None => -1,
                    };
                    Err(CreateProjectError::CargoFailed { status, stderr })
                }
            },
        }
    }
}

/// The editor command to spawn: a program, then arguments ending with the
/// project path.
pub struct EditorInvocation {
    pub program: String,
    pub args: Vec<String>,
}

impl CreateProjectResult {
    /// Plans opening this project in the configured editor: the command
    /// string is split on whitespace, the first token is the program, the
    /// rest are arguments, and the project path is appended.
    pub fn maybe_open_in_editor(&self, config: &Config) -> (r: Result<
        EditorInvocation,
        OpenEditorError,
    >)
        ensures
            is_blank(config@.editor_cmd) <==> (r matches Err(OpenEditorError::EditorCommandEmpty)),
            r matches Ok(inv) ==> {
                let toks = spec_split_ws(config@.editor_cmd);
                &&& toks.len() > 0
                &&& inv.program@ == toks[0]
                &&& inv.args@.len() == toks.len()
                &&& forall|i: int| 1 <= i < toks.len() ==> inv.args@[i - 1]@ == toks[i]
                &&& inv.args@[inv.args@.len() - 1]@ == self.project_path@
            },
            !(r matches Err(OpenEditorError::Spawn(_))),
            !(r matches Err(OpenEditorError::Failed(_))),
    {
        if is_blank_str(config.editor_cmd()) {
            return Err(OpenEditorError::EditorCommandEmpty);
        }
        proof {
            lemma_split_ws_nonblank(config@.editor_cmd);
        }
        let toks = split_ws_str(config.editor_cmd());
        let ghost toks_view = spec_split_ws(config@.editor_cmd);
        assert(toks@.len() == toks_view.len());
        let program = toks[0].clone();
        assert(program@ == toks_view[0]);
        let mut args: Vec<String> = Vec::new();
        let n = toks.len();
        let mut i: usize = 1;
        while i < n
            invariant
                1 <= i <= n,
                n == toks@.len(),
                toks@.map_values(|t: String| t@) == toks_view,
                args@.len() == i - 1,
                forall|k: int| 1 <= k < i ==> args@[k - 1]@ == toks_view[k],
            decreases n - i,
        {
            args.push(toks[i].clone());
            i = i + 1;
        }
        args.push(self.project_path.clone());
        Ok(EditorInvocation { program, args })
    }
}

/// Composite error for creating a project and then opening it.
#[derive(Debug)]
pub enum CreateAndOpenError {
    CreateFailed(CreateProjectError),
    OpenAfterCreate { result: CreateProjectResult, error: OpenEditorError },
}

/// Decision half of create-and-optionally-open, taken after the editor
/// attempt that always follows a successful creation: an opening failure is
/// surfaced only when the caller asked for the editor; otherwise the created
/// project stands.
pub fn create_and_optionally_open(
    result: CreateProjectResult,
    opened: Result<(), OpenEditorError>,
    open_in_editor: bool,
) -> (r: Result<CreateProjectResult, CreateAndOpenError>)
    ensures
        r == match opened {
            Ok(()) => Ok::<CreateProjectResult, CreateAndOpenError>(result),
            Err(e) => if open_in_editor {
                Err(CreateAndOpenError::OpenAfterCreate { result, error: e })
            } else {
                Ok(result)
            },
        },
{
    match opened {
        Err(e) => {
            if open_in_editor {
                Err(CreateAndOpenError::OpenAfterCreate { result, error: e })
            } else {
                Ok(result)
            }
        },
        Ok(()) => Ok(result),
    }
}

/// Concludes an editor launch from the outcome of the planned command.
pub fn conclude_editor(outcome: RunOutcome) -> (r: Result<(), OpenEditorError>)
    ensures
        (r is Ok) <==> outcome matches RunOutcome::Exited { success: true, .. },
        outcome is NotFound ==> r matches Err(OpenEditorError::Spawn(_)),
        outcome matches RunOutcome::SpawnFailed(m) ==> (r matches Err(OpenEditorError::Spawn(e))
            && e@ == m@),
        outcome matches RunOutcome::Exited { success: false, code, .. } ==> (r matches Err(
            OpenEditorError::Failed(st),
        ) && (code matches Some(c) ==> st == c) && (code is None ==> st == -1)),
{
    match outcome {
        RunOutcome::NotFound => Err(OpenEditorError::Spawn("editor command not found".to_owned())),
        RunOutcome::SpawnFailed(m) => Err(OpenEditorError::Spawn(m)),
        RunOutcome::Exited { success, code, .. } => {
            if success {
                Ok(())
            } else {
                let st: i32 = match code {
                    Some(c) => c,
                    None => -1,
                };
                Err(OpenEditorError::Failed(st))
            }
        },
    }
}

} // verus!
