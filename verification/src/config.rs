//! The configuration record and its load/validate/persist state machine.
//!
//! The record holds two required fields: a projects directory and an editor
//! command. Loading classifies the on-disk file into ready / needs-setup /
//! corrupt without ever exposing a partially valid record; saving validates
//! first and then plans an atomic write (temporary file, then rename) so the
//! previous file is never left half overwritten.
//!
//! The functions here are pure decision logic: the caller reads the file and
//! probes the candidate directory, and hands the observations in as plain
//! values (`FileOutcome`, `DirectoryProbe`); a successful save hands back a
//! `SavePlan` for the caller to carry out.

use vstd::prelude::*;

verus! {

use vstd::string::StrSliceExecFns;
use vstd::string::StringExecFns;
use crate::text::{is_blank, is_blank_str, spec_trim, trim_str, ends_with, lemma_ends_with_concat};

/// Immutable, validated configuration record.
#[derive(Clone)]
pub struct Config {
    projects_directory: String,
    editor_cmd: String,
}

/// The two fields of a configuration record, as character sequences.
pub struct ConfigView {
    pub projects_directory: Seq<char>,
    pub editor_cmd: Seq<char>,
}

impl View for Config {
    type V = ConfigView;

    closed spec fn view(&self) -> ConfigView {
        ConfigView {
            projects_directory: self.projects_directory@,
            editor_cmd: self.editor_cmd@,
        }
    }
}

impl Config {
    /// A record produced by a successful load or save has no blank field.
    pub open spec fn wf(&self) -> bool {
        !is_blank(self@.projects_directory) && !is_blank(self@.editor_cmd)
    }

    /// The validated projects directory path.
    pub fn projects_directory(&self) -> (r: &str)
        ensures
            r@ == self@.projects_directory,
    {
        self.projects_directory.as_str()
    }

    /// The configured editor launch command.
    pub fn editor_cmd(&self) -> (r: &str)
        ensures
            r@ == self@.editor_cmd,
    {
        self.editor_cmd.as_str()
    }
}

/// Status returned when attempting to load the configuration.
pub enum LoadStatus {
    /// Fully loaded and validated configuration.
    Ready(Config),
    /// Initial setup must run (file missing, or data incomplete or stale).
    NeedsInitialSetup(SetupReason),
}

/// Why the setup flow must be shown.
pub enum SetupReason {
    MissingFile,
    IncompleteData,
}

/// Fatal load failures: the caller cannot proceed without outside help.
#[derive(Debug)]
pub enum LoadError {
    /// The file exists but its text is not an acceptable document.
    Corrupt(String),
    /// The file could not be read at all.
    Io(String),
}

/// Failures of a save attempt.
#[derive(Debug)]
pub enum SaveError {
    Io(String),
    Serialize(String),
    Validation(ValidationError),
}

/// Structured reasons a user-provided value fails validation.
#[derive(Debug)]
pub enum ValidationError {
    EmptyField(&'static str),
    ProjectsDirDoesNotExist(String),
    ProjectsDirNotDirectory(String),
    ProjectsDirNotWritable(String),
    ProjectsDirNotReadable(String),
}

/// Names a setup reason, for diagnostics.
pub fn reason_variant(r: &SetupReason) -> (s: &'static str)
    ensures
        s@ == match *r {
            SetupReason::MissingFile => "MissingFile"@,
            SetupReason::IncompleteData => "IncompleteData"@,
        },
{
    match r {
        SetupReason::MissingFile => "MissingFile",
        SetupReason::IncompleteData => "IncompleteData",
    }
}

/// The text each validation fault is reported with.
pub open spec fn spec_validation_message(v: ValidationError) -> Seq<char> {
    match v {
        ValidationError::EmptyField(f) => "Field '"@ + f@ + "' cannot be empty"@,
        ValidationError::ProjectsDirDoesNotExist(p) => "Projects directory does not exist: "@
            + p@,
        ValidationError::ProjectsDirNotDirectory(p) => "Projects directory is not a directory: "@
            + p@,
        ValidationError::ProjectsDirNotWritable(p) => "Projects directory not writable: "@ + p@,
        ValidationError::ProjectsDirNotReadable(p) => "Projects directory not readable: "@ + p@,
    }
}

impl ValidationError {
    /// Human-readable description of the fault.
    pub fn message(&self) -> (r: String)
        ensures
            r@ == spec_validation_message(*self),
    {
        match self {
            ValidationError::EmptyField(f) => "Field '".to_owned().concat(f).concat(
                "' cannot be empty",
            ),
            ValidationError::ProjectsDirDoesNotExist(p) => "Projects directory does not exist: ".to_owned().concat(
                p.as_str(),
            ),
            ValidationError::ProjectsDirNotDirectory(p) => "Projects directory is not a directory: ".to_owned().concat(
                p.as_str(),
            ),
            ValidationError::ProjectsDirNotWritable(p) => "Projects directory not writable: ".to_owned().concat(
                p.as_str(),
            ),
            ValidationError::ProjectsDirNotReadable(p) => "Projects directory not readable: ".to_owned().concat(
                p.as_str(),
            ),
        }
    }
}

impl LoadError {
    /// Human-readable description of the failure.
    pub fn message(&self) -> (r: String)
        ensures
            r@ == match *self {
                LoadError::Corrupt(s) => "Corrupt config YAML: "@ + s@,
                LoadError::Io(e) => "I/O error loading config: "@ + e@,
            },
    {
        match self {
            LoadError::Corrupt(s) => "Corrupt config YAML: ".to_owned().concat(s.as_str()),
            LoadError::Io(e) => "I/O error loading config: ".to_owned().concat(e.as_str()),
        }
    }
}

impl SaveError {
    /// Human-readable description of the failure.
    pub fn message(&self) -> (r: String)
        ensures
            r@ == match *self {
                SaveError::Io(e) => "I/O error saving config: "@ + e@,
                SaveError::Serialize(e) => "Serialization error: "@ + e@,
                SaveError::Validation(v) => "Validation error: "@ + spec_validation_message(v),
            },
    {
        match self {
            SaveError::Io(e) => "I/O error saving config: ".to_owned().concat(e.as_str()),
            SaveError::Serialize(e) => "Serialization error: ".to_owned().concat(e.as_str()),
            SaveError::Validation(v) => "Validation error: ".to_owned().concat(
                v.message().as_str(),
            ),
        }
    }
}

/// What the caller observed about a candidate projects directory path, all
/// gathered at one moment: whether the path exists, is a directory, can be
/// listed, and admits creating (and removing) a probe file.
#[derive(Clone, Copy, PartialEq, Eq, Structural)]
pub struct DirectoryProbe {
    pub exists: bool,
    pub is_directory: bool,
    pub listable: bool,
    pub writable: bool,
}

/// Spec-level verdict of directory validation, in checking order.
pub enum DirVerdict {
    Accepted,
    EmptyPath,
    Missing,
    NotDirectory,
    NotReadable,
    NotWritable,
}

/// The verdict on a path given what was observed of it: the five checks run
/// in a fixed order and the first failure wins. A blank path — empty, or
/// whitespace only — is the empty-field fault, the same blankness rule the
/// editor command is held to.
pub open spec fn spec_validate_directory(path: Seq<char>, probe: DirectoryProbe) -> DirVerdict {
    if is_blank(path) {
        DirVerdict::EmptyPath
    } else if !probe.exists {
        DirVerdict::Missing
    } else if !probe.is_directory {
        DirVerdict::NotDirectory
    } else if !probe.listable {
        DirVerdict::NotReadable
    } else if !probe.writable {
        DirVerdict::NotWritable
    } else {
        DirVerdict::Accepted
    }
}

/// Validates the projects directory path against the caller's observations of
/// it. Exactly one fault is reported, the first in checking order.
pub fn validate_projects_directory(path: &str, probe: &DirectoryProbe) -> (r: Result<
    (),
    ValidationError,
>)
    ensures
        r is Ok <==> spec_validate_directory(path@, *probe) is Accepted,
        (r matches Err(ValidationError::EmptyField(_))) <==> spec_validate_directory(path@, *probe)
            is EmptyPath,
        (r matches Err(ValidationError::ProjectsDirDoesNotExist(_))) <==> spec_validate_directory(
            path@,
            *probe,
        ) is Missing,
        (r matches Err(ValidationError::ProjectsDirNotDirectory(_))) <==> spec_validate_directory(
            path@,
            *probe,
        ) is NotDirectory,
        (r matches Err(ValidationError::ProjectsDirNotReadable(_))) <==> spec_validate_directory(
            path@,
            *probe,
        ) is NotReadable,
        (r matches Err(ValidationError::ProjectsDirNotWritable(_))) <==> spec_validate_directory(
            path@,
            *probe,
        ) is NotWritable,
        r matches Err(ValidationError::EmptyField(f)) ==> f@ == "projects_directory"@,
        r matches Err(ValidationError::ProjectsDirDoesNotExist(p)) ==> p@ == path@,
        r matches Err(ValidationError::ProjectsDirNotDirectory(p)) ==> p@ == path@,
        r matches Err(ValidationError::ProjectsDirNotReadable(p)) ==> p@ == path@,
        r matches Err(ValidationError::ProjectsDirNotWritable(p)) ==> p@ == path@,
{
    if is_blank_str(path) {
        return Err(ValidationError::EmptyField("projects_directory"));
    }
    if !probe.exists {
        return Err(ValidationError::ProjectsDirDoesNotExist(path.to_owned()));
    }
    if !probe.is_directory {
        return Err(ValidationError::ProjectsDirNotDirectory(path.to_owned()));
    }
    if !probe.listable {
        return Err(ValidationError::ProjectsDirNotReadable(path.to_owned()));
    }
    if !probe.writable {
        return Err(ValidationError::ProjectsDirNotWritable(path.to_owned()));
    }
    Ok(())
}

/// Validator determinism law: the verdict is a function of the path and the
/// observed directory state alone, so equal observations give equal verdicts.
pub proof fn lemma_validator_deterministic(
    path1: Seq<char>,
    probe1: DirectoryProbe,
    path2: Seq<char>,
    probe2: DirectoryProbe,
)
    requires
        path1 == path2,
        probe1 == probe2,
    ensures
        spec_validate_directory(path1, probe1) == spec_validate_directory(path2, probe2),
{
}

/// Fault ordering law: a nonexistent path reports the missing-directory
/// fault, never the readability or writability faults that come later in the
/// checking order.
pub proof fn lemma_fault_ordering(path: Seq<char>, probe: DirectoryProbe)
    requires
        !is_blank(path),
        !probe.exists,
    ensures
        spec_validate_directory(path, probe) is Missing,
        !(spec_validate_directory(path, probe) is NotReadable),
        !(spec_validate_directory(path, probe) is NotWritable),
{
}

/// Directory-type rejection law: an existing path that is not a directory is
/// rejected as not-a-directory.
pub proof fn lemma_file_not_directory(path: Seq<char>, probe: DirectoryProbe)
    requires
        !is_blank(path),
        probe.exists,
        !probe.is_directory,
    ensures
        spec_validate_directory(path, probe) is NotDirectory,
{
}

/// The on-disk key of the projects directory field.
pub open spec fn projects_directory_key() -> Seq<char> {
    "projects_directory"@
}

/// The on-disk key of the editor command field.
pub open spec fn editor_cmd_key() -> Seq<char> {
    "editor_cmd"@
}

/// The string-to-string mapping that a YAML document denotes, or the parser's
/// error message for text that does not denote such a flat mapping. The
/// mapping is a function of the text alone; it is named here rather than
/// written out, and the parser below is trusted to return it.
pub uninterp spec fn yaml_string_map(s: Seq<char>) -> Result<Map<Seq<char>, Seq<char>>, Seq<char>>;

/// The mapping denoted by a key-value list, later entries winning.
pub open spec fn entries_model(es: Seq<(String, String)>) -> Map<Seq<char>, Seq<char>>
    decreases es.len(),
{
    if es.len() == 0 {
        Map::empty()
    } else {
        entries_model(es.drop_last()).insert(es.last().0@, es.last().1@)
    }
}

/// No two entries share a key.
pub open spec fn distinct_keys(es: Seq<(String, String)>) -> bool {
    forall|i: int, j: int| 0 <= i < j < es.len() ==> es[i].0@ != es[j].0@
}

/// Relies on serde_norway::from_str: parses YAML text into a map from string
/// keys to string values; text that does not denote such a flat mapping is a
/// parse error. The result is a function of the text alone and is named
/// `yaml_string_map`.
#[verifier::external_body]
fn parse_string_map(raw: &str) -> (r: Result<Vec<(String, String)>, String>)
    ensures
        r matches Ok(es) ==> yaml_string_map(raw@) matches Ok(doc) && entries_model(es@) == doc
            && distinct_keys(es@),
        r matches Err(m) ==> yaml_string_map(raw@) matches Err(e) && e == m@,
{
    match serde_norway::from_str::<std::collections::BTreeMap<String, String>>(raw) {
        Ok(m) => Ok(m.into_iter().collect()),
        Err(e) => Err(e.to_string()),
    }
}

proof fn lemma_entries_model_contains(es: Seq<(String, String)>, k: Seq<char>)
    ensures
        entries_model(es).contains_key(k) <==> exists|i: int| 0 <= i < es.len() && es[i].0@ == k,
    decreases es.len(),
{
    if es.len() > 0 {
        lemma_entries_model_contains(es.drop_last(), k);
        if entries_model(es).contains_key(k) {
            if es.last().0@ != k {
                let w = choose|i: int| 0 <= i < es.drop_last().len() && es.drop_last()[i].0@ == k;
                assert(es[w].0@ == k);
            }
        }
        if exists|i: int| 0 <= i < es.len() && es[i].0@ == k {
            let w = choose|i: int| 0 <= i < es.len() && es[i].0@ == k;
            if w < es.len() - 1 {
                assert(es.drop_last()[w].0@ == k);
            }
        }
    }
}

proof fn lemma_entries_model_value(es: Seq<(String, String)>, i: int)
    requires
        distinct_keys(es),
        0 <= i < es.len(),
    ensures
        entries_model(es).contains_key(es[i].0@),
        entries_model(es)[es[i].0@] == es[i].1@,
    decreases es.len(),
{
    if i == es.len() - 1 {
        lemma_entries_model_contains(es, es[i].0@);
    } else {
        assert(es[i].0@ != es.last().0@);
        assert(es.drop_last()[i] == es[i]);
        lemma_entries_model_value(es.drop_last(), i);
    }
}

/// Finds the value stored under `key`, if any.
fn entries_lookup(es: &Vec<(String, String)>, key: &str) -> (r: Option<String>)
    requires
        distinct_keys(es@),
    ensures
        r matches Some(v) ==> entries_model(es@).contains_key(key@) && entries_model(es@)[key@]
            == v@,
        r is None ==> !entries_model(es@).contains_key(key@),
{
    let k: String = key.to_owned();
    let n = es.len();
    let mut i: usize = 0;
    while i < n
        invariant
            0 <= i <= n,
            n == es@.len(),
            k@ == key@,
            distinct_keys(es@),
            forall|j: int| 0 <= j < i ==> es@[j].0@ != key@,
        decreases n - i,
    {
        if es[i].0 == k {
            proof {
                lemma_entries_model_value(es@, i as int);
            }
            return Some(es[i].1.clone());
        }
        i = i + 1;
    }
    proof {
        lemma_entries_model_contains(es@, key@);
    }
    None
}

/// Spec-level classification of the contents of an existing configuration
/// file: corrupt text, a structurally or semantically incomplete document, or
/// a candidate pair of non-blank fields.
pub enum ContentClass {
    Corrupt(Seq<char>),
    Incomplete,
    Candidate(Seq<char>, Seq<char>),
}

/// Classifies file contents: unparseable text is corrupt; a parsed document
/// with a key missing or blank merely needs setup; otherwise the two values
/// form a candidate whose directory is still to be checked. The candidate
/// carries the fields as a record stores them: the editor command trimmed.
pub open spec fn spec_classify_contents(s: Seq<char>) -> ContentClass {
    match yaml_string_map(s) {
        Err(m) => ContentClass::Corrupt(m),
        Ok(doc) => if !doc.contains_key(projects_directory_key()) || !doc.contains_key(
            editor_cmd_key(),
        ) {
            ContentClass::Incomplete
        } else if is_blank(doc[projects_directory_key()]) || is_blank(doc[editor_cmd_key()]) {
            ContentClass::Incomplete
        } else {
            ContentClass::Candidate(
                doc[projects_directory_key()],
                spec_trim(doc[editor_cmd_key()]),
            )
        },
    }
}

/// What the caller found when reading the configuration file at its
/// canonical path.
pub enum FileOutcome {
    /// No file exists at the canonical path.
    Missing,
    /// The file was read in full.
    Contents(String),
    /// The file exists but reading it failed, with this message.
    Unreadable(String),
}

/// A parsed configuration whose two fields are present and non-blank, the
/// editor command already trimmed; the projects directory still has to be
/// probed on disk before the load can finish.
pub struct Candidate {
    projects_directory: String,
    editor_cmd: String,
}

impl View for Candidate {
    type V = ConfigView;

    closed spec fn view(&self) -> ConfigView {
        ConfigView {
            projects_directory: self.projects_directory@,
            editor_cmd: self.editor_cmd@,
        }
    }
}

impl Candidate {
    /// The path the caller must probe before finishing the load.
    pub fn projects_directory(&self) -> (r: &str)
        ensures
            r@ == self@.projects_directory,
    {
        self.projects_directory.as_str()
    }

    /// Finishes a load: a directory fault downgrades to needs-setup (the user
    /// can re-enter the value), never to a fatal error; a clean probe yields
    /// the ready record with exactly this candidate's fields.
    pub fn resolve(self, probe: &DirectoryProbe) -> (r: LoadStatus)
        ensures
            spec_validate_directory(self@.projects_directory, *probe) is Accepted ==> (r matches
                LoadStatus::Ready(c) && c@ == self@ && (!is_blank(self@.editor_cmd) ==> c.wf())),
            !(spec_validate_directory(self@.projects_directory, *probe) is Accepted) ==> r matches
                LoadStatus::NeedsInitialSetup(SetupReason::IncompleteData),
    {
        match validate_projects_directory(self.projects_directory.as_str(), probe) {
            Ok(()) => LoadStatus::Ready(
                Config {
                    projects_directory: self.projects_directory,
                    editor_cmd: self.editor_cmd,
                },
            ),
            Err(_) => LoadStatus::NeedsInitialSetup(SetupReason::IncompleteData),
        }
    }
}

/// One step of loading: either the load settled, or a candidate awaits its
/// directory probe.
pub enum LoadStep {
    Done(Result<LoadStatus, LoadError>),
    CheckDirectory(Candidate),
}

impl Config {
    /// Classifies a load attempt from what was found at the canonical path.
    ///
    /// A missing file always asks for initial setup and is never an error; an
    /// unreadable file is a fatal I/O failure; contents are classified by
    /// `spec_classify_contents`: corrupt text is fatal, an incomplete or
    /// blank document asks for setup, and a full document becomes a candidate
    /// whose directory the caller must still probe and resolve.
    pub fn load(file: FileOutcome) -> (r: LoadStep)
        ensures
            file is Missing ==> r matches LoadStep::Done(
                Ok(LoadStatus::NeedsInitialSetup(SetupReason::MissingFile)),
            ),
            file matches FileOutcome::Unreadable(m) ==> (r matches LoadStep::Done(
                Err(LoadError::Io(e)),
            ) && e@ == m@),
            file matches FileOutcome::Contents(s) ==> match spec_classify_contents(s@) {
                ContentClass::Corrupt(m) => r matches LoadStep::Done(Err(LoadError::Corrupt(e)))
                    && e@ == m,
                ContentClass::Incomplete => r matches LoadStep::Done(
                    Ok(LoadStatus::NeedsInitialSetup(SetupReason::IncompleteData)),
                ),
                ContentClass::Candidate(pd, ec) => r matches LoadStep::CheckDirectory(c)
                    && c@.projects_directory == pd && c@.editor_cmd == ec && !is_blank(pd)
                    && !is_blank(ec),
            },
    {
        match file {
            FileOutcome::Missing => LoadStep::Done(
                Ok(LoadStatus::NeedsInitialSetup(SetupReason::MissingFile)),
            ),
            FileOutcome::Unreadable(m) => LoadStep::Done(Err(LoadError::Io(m))),
            FileOutcome::Contents(s) => match parse_string_map(s.as_str()) {
                Err(m) => LoadStep::Done(Err(LoadError::Corrupt(m))),
                Ok(es) => {
                    let pd = entries_lookup(&es, "projects_directory");
                    let ec = entries_lookup(&es, "editor_cmd");
                    match (pd, ec) {
                        (Some(pd), Some(ec)) => {
                            if is_blank_str(pd.as_str()) || is_blank_str(ec.as_str()) {
                                LoadStep::Done(
                                    Ok(LoadStatus::NeedsInitialSetup(SetupReason::IncompleteData)),
                                )
                            } else {
                                proof {
                                    crate::text::lemma_trim_not_blank(ec@);
                                }
                                LoadStep::CheckDirectory(
                                    Candidate {
                                        projects_directory: pd,
                                        editor_cmd: trim_str(ec.as_str()),
                                    },
                                )
                            }
                        },
                        _ => LoadStep::Done(
                            Ok(LoadStatus::NeedsInitialSetup(SetupReason::IncompleteData)),
                        ),
                    }
                },
            },
        }
    }
}

/// Corrupt-versus-incomplete law: text the parser rejects is classified
/// corrupt, with the parser's message; a well-formed document that lacks a
/// required key merely needs setup.
pub proof fn lemma_corrupt_vs_incomplete(s: Seq<char>)
    ensures
        yaml_string_map(s) matches Err(m) ==> spec_classify_contents(s)
            == ContentClass::Corrupt(m),
        (yaml_string_map(s) matches Ok(doc) && !(doc.contains_key(projects_directory_key())
            && doc.contains_key(editor_cmd_key()))) ==> spec_classify_contents(s)
            is Incomplete,
{
}

/// The two required field keys are distinct.
proof fn lemma_keys_distinct()
    ensures
        projects_directory_key() != editor_cmd_key(),
        "projects_directory"@ != "editor_cmd"@,
{
    reveal_strlit("projects_directory");
    reveal_strlit("editor_cmd");
    assert(projects_directory_key().len() == 18);
    assert(editor_cmd_key().len() == 10);
}

/// Relies on dirs::config_dir: the platform's per-user configuration
/// directory, if one is known. The value depends on the environment, so
/// nothing is promised of it.
#[verifier::external_body]
fn platform_config_dir() -> (r: Option<String>) {
    dirs::config_dir().map(|p| p.to_string_lossy().into_owned())
}

/// Relies on dirs::home_dir: the user's home directory, if one is known. The
/// value depends on the environment, so nothing is promised of it.
#[verifier::external_body]
fn platform_home_dir() -> (r: Option<String>) {
    dirs::home_dir().map(|p| p.to_string_lossy().into_owned())
}

/// The application's configuration directory: the platform configuration
/// directory (or, failing that, `.config` under the home or current
/// directory) with the application's own subdirectory appended.
pub(crate) fn app_config_dir() -> (r: String)
    ensures
        ends_with(r@, "/rustm"@),
{
    let base = match platform_config_dir() {
        Some(d) => d,
        None => match platform_home_dir() {
            Some(h) => h.concat("/.config"),
            None => "./.config".to_owned(),
        },
    };
    let r = base.concat("/rustm");
    proof {
        assert(r@.skip(r@.len() - "/rustm"@.len()) =~= "/rustm"@);
    }
    r
}

/// The canonical path of the configuration file.
pub fn config_file_path() -> (r: String)
    ensures
        ends_with(r@, "/rustm/config.yaml"@),
{
    let d = app_config_dir();
    let r = d.concat("/config.yaml");
    proof {
        lemma_ends_with_concat(d@, "/config.yaml"@, "/rustm"@);
        reveal_strlit("/rustm");
        reveal_strlit("/config.yaml");
        reveal_strlit("/rustm/config.yaml");
        assert("/rustm"@ + "/config.yaml"@ =~= "/rustm/config.yaml"@);
    }
    r
}

impl Config {
    /// The canonical path of the on-disk configuration file.
    pub fn file_path() -> (r: String)
        ensures
            ends_with(r@, "/rustm/config.yaml"@),
    {
        config_file_path()
    }
}

/// The document a configuration record is stored as: its two fields under
/// their two keys.
pub open spec fn config_doc(pd: Seq<char>, ec: Seq<char>) -> Map<Seq<char>, Seq<char>> {
    Map::empty().insert(projects_directory_key(), pd).insert(editor_cmd_key(), ec)
}

/// Relies on serde_norway::to_string: serializes a string-to-string map as a
/// YAML document. The emitted text parses back, by serde_norway::from_str,
/// to exactly the map that was serialized. The call succeeds: it writes to
/// an in-memory buffer, which cannot fail, and the emitter has no error path
/// for a flat map of plain strings.
#[verifier::external_body]
fn emit_string_map(entries: &Vec<(String, String)>) -> (r: Result<String, String>)
    ensures
        r is Ok,
        r matches Ok(s) ==> yaml_string_map(s@) matches Ok(doc) && doc == entries_model(
            entries@,
        ),
{
    let m: std::collections::BTreeMap<&str, &str> = entries.iter().map(
        |e| (e.0.as_str(), e.1.as_str()),
    ).collect();
    match serde_norway::to_string(&m) {
        Ok(s) => Ok(s),
        Err(e) => Err(e.to_string()),
    }
}

/// A fully validated save, ready to be carried out: the caller writes `yaml`
/// to `temp_path`, syncs it, and only then renames `temp_path` over
/// `target_path`, so the previous file is replaced atomically; `config` is
/// the record the new file denotes.
pub struct SavePlan {
    pub config: Config,
    pub yaml: String,
    pub target_path: String,
    pub temp_path: String,
}

impl Config {
    /// Validates the two user-provided fields and plans persisting them.
    ///
    /// A blank editor command is rejected first, then the directory checks
    /// run in their fixed order; nothing is planned unless every check
    /// passes. On success the plan's record holds the directory as given and
    /// the trimmed editor command, and its document parses back to exactly
    /// those two fields.
    pub fn create_and_persist(
        projects_directory: &str,
        editor_cmd: &str,
        probe: &DirectoryProbe,
    ) -> (r: Result<SavePlan, SaveError>)
        ensures
            is_blank(editor_cmd@) <==> (r matches Err(
                SaveError::Validation(ValidationError::EmptyField(f)),
            ) && f@ == "editor_cmd"@),
            !is_blank(editor_cmd@) ==> match spec_validate_directory(projects_directory@, *probe) {
                DirVerdict::EmptyPath => r matches Err(
                    SaveError::Validation(ValidationError::EmptyField(f)),
                ) && f@ == "projects_directory"@,
                DirVerdict::Missing => r matches Err(
                    SaveError::Validation(ValidationError::ProjectsDirDoesNotExist(p)),
                ) && p@ == projects_directory@,
                DirVerdict::NotDirectory => r matches Err(
                    SaveError::Validation(ValidationError::ProjectsDirNotDirectory(p)),
                ) && p@ == projects_directory@,
                DirVerdict::NotReadable => r matches Err(
                    SaveError::Validation(ValidationError::ProjectsDirNotReadable(p)),
                ) && p@ == projects_directory@,
                DirVerdict::NotWritable => r matches Err(
                    SaveError::Validation(ValidationError::ProjectsDirNotWritable(p)),
                ) && p@ == projects_directory@,
                DirVerdict::Accepted => r matches Ok(_),
            },
            r matches Ok(plan) ==> {
                &&& !is_blank(editor_cmd@)
                &&& spec_validate_directory(projects_directory@, *probe) is Accepted
                &&& plan.config@.projects_directory == projects_directory@
                &&& plan.config@.editor_cmd == spec_trim(editor_cmd@)
                &&& plan.config.wf()
                &&& yaml_string_map(plan.yaml@) == Ok::<_, Seq<char>>(
                    config_doc(projects_directory@, spec_trim(editor_cmd@)),
                )
                &&& plan.temp_path@ == plan.target_path@ + ".tmp"@
                &&& ends_with(plan.target_path@, "/rustm/config.yaml"@)
            },
            !(r matches Err(SaveError::Io(_))),
    {
        if is_blank_str(editor_cmd) {
            return Err(SaveError::Validation(ValidationError::EmptyField("editor_cmd")));
        }
        if let Err(v) = validate_projects_directory(projects_directory, probe) {
            proof {
                lemma_keys_distinct();
            }
            return Err(SaveError::Validation(v));
        }
        let trimmed = trim_str(editor_cmd);
        proof {
            crate::text::lemma_trim_not_blank(editor_cmd@);
        }
        match plan_write(projects_directory.to_owned(), trimmed) {
            Ok(plan) => Ok(plan),
            Err(m) => Err(SaveError::Serialize(m)),
        }
    }

    /// Re-validates this record against a fresh directory probe and plans
    /// persisting it unchanged. The directory checks run first, then the
    /// blank check on the editor command, mirroring the load-side rules.
    pub fn save(&self, probe: &DirectoryProbe) -> (r: Result<SavePlan, SaveError>)
        ensures
            match spec_validate_directory(self@.projects_directory, *probe) {
                DirVerdict::EmptyPath => r matches Err(
                    SaveError::Validation(ValidationError::EmptyField(f)),
                ) && f@ == "projects_directory"@,
                DirVerdict::Missing => r matches Err(
                    SaveError::Validation(ValidationError::ProjectsDirDoesNotExist(p)),
                ) && p@ == self@.projects_directory,
                DirVerdict::NotDirectory => r matches Err(
                    SaveError::Validation(ValidationError::ProjectsDirNotDirectory(p)),
                ) && p@ == self@.projects_directory,
                DirVerdict::NotReadable => r matches Err(
                    SaveError::Validation(ValidationError::ProjectsDirNotReadable(p)),
                ) && p@ == self@.projects_directory,
                DirVerdict::NotWritable => r matches Err(
                    SaveError::Validation(ValidationError::ProjectsDirNotWritable(p)),
                ) && p@ == self@.projects_directory,
                DirVerdict::Accepted => if is_blank(self@.editor_cmd) {
                    r matches Err(SaveError::Validation(ValidationError::EmptyField(f))) && f@
                        == "editor_cmd"@
                } else {
                    r matches Ok(_)
                },
            },
            r matches Ok(plan) ==> {
                &&& spec_validate_directory(self@.projects_directory, *probe) is Accepted
                &&& !is_blank(self@.editor_cmd)
                &&& plan.config@.projects_directory == self@.projects_directory
                &&& plan.config@.editor_cmd == self@.editor_cmd
                &&& yaml_string_map(plan.yaml@) == Ok::<_, Seq<char>>(
                    config_doc(self@.projects_directory, self@.editor_cmd),
                )
                &&& plan.temp_path@ == plan.target_path@ + ".tmp"@
                &&& ends_with(plan.target_path@, "/rustm/config.yaml"@)
            },
            !(r matches Err(SaveError::Io(_))),
    {
        if let Err(v) = validate_projects_directory(self.projects_directory.as_str(), probe) {
            return Err(SaveError::Validation(v));
        }
        if is_blank_str(self.editor_cmd.as_str()) {
            return Err(SaveError::Validation(ValidationError::EmptyField("editor_cmd")));
        }
        match plan_write(self.projects_directory.clone(), self.editor_cmd.clone()) {
            Ok(plan) => Ok(plan),
            Err(m) => Err(SaveError::Serialize(m)),
        }
    }
}

/// Serializes the two fields and assembles the write plan.
fn plan_write(projects_directory: String, editor_cmd: String) -> (r: Result<SavePlan, String>)
    ensures
        r is Ok,
        r matches Ok(plan) ==> {
            &&& plan.config@.projects_directory == projects_directory@
            &&& plan.config@.editor_cmd == editor_cmd@
            &&& yaml_string_map(plan.yaml@) == Ok::<_, Seq<char>>(
                config_doc(projects_directory@, editor_cmd@),
            )
            &&& plan.temp_path@ == plan.target_path@ + ".tmp"@
            &&& ends_with(plan.target_path@, "/rustm/config.yaml"@)
        },
{
    let mut entries: Vec<(String, String)> = Vec::new();
    entries.push(("projects_directory".to_owned(), projects_directory.clone()));
    entries.push(("editor_cmd".to_owned(), editor_cmd.clone()));
    proof {
        let es = entries@;
        assert(es.len() == 2);
        assert(es.last() == es[1]);
        assert(es.drop_last().last() == es[0]);
        assert(es.drop_last().drop_last().len() == 0);
        assert(entries_model(es.drop_last().drop_last()) == Map::<Seq<char>, Seq<char>>::empty());
        assert(es[0].0@ == projects_directory_key());
        assert(es[1].0@ == editor_cmd_key());
        assert(es[0].1@ == projects_directory@);
        assert(es[1].1@ == editor_cmd@);
        assert(entries_model(es.drop_last()) =~~= Map::<Seq<char>, Seq<char>>::empty().insert(
            projects_directory_key(),
            projects_directory@,
        ));
        assert(entries_model(es) =~~= config_doc(projects_directory@, editor_cmd@));
    }
    let yaml = match emit_string_map(&entries) {
        Ok(y) => y,
        Err(m) => {
            return Err(m);
        },
    };
    let target = config_file_path();
    let temp = target.clone().concat(".tmp");
    Ok(
        SavePlan {
            config: Config { projects_directory, editor_cmd },
            yaml,
            target_path: target,
            temp_path: temp,
        },
    )
}

/// A spec-level model of the file store the save protocol touches: a map
/// from path to contents. Writing a file installs its contents under its
/// path.
pub open spec fn spec_disk_write(
    disk: Map<Seq<char>, Seq<char>>,
    path: Seq<char>,
    data: Seq<char>,
) -> Map<Seq<char>, Seq<char>> {
    disk.insert(path, data)
}

/// Renaming moves the contents stored under `from` to `to`.
pub open spec fn spec_disk_rename(
    disk: Map<Seq<char>, Seq<char>>,
    from: Seq<char>,
    to: Seq<char>,
) -> Map<Seq<char>, Seq<char>>
    recommends
        disk.contains_key(from),
{
    disk.remove(from).insert(to, disk[from])
}

/// Atomicity law, interrupted half: a save that stops after writing the
/// temporary file but before the rename leaves the canonical file exactly as
/// it was — present with the same contents, or still absent.
pub proof fn lemma_interrupted_save_preserves_target(
    disk: Map<Seq<char>, Seq<char>>,
    target: Seq<char>,
    temp: Seq<char>,
    data: Seq<char>,
)
    requires
        temp == target + ".tmp"@,
    ensures
        temp != target,
        spec_disk_write(disk, temp, data).contains_key(target) == disk.contains_key(target),
        disk.contains_key(target) ==> spec_disk_write(disk, temp, data)[target] == disk[target],
{
    reveal_strlit(".tmp");
    assert(temp.len() == target.len() + 4);
}

/// Atomicity law, completed half: once the rename runs, exactly the new
/// contents are visible under the canonical path and no temporary file
/// remains.
pub proof fn lemma_completed_save_installs_target(
    disk: Map<Seq<char>, Seq<char>>,
    target: Seq<char>,
    temp: Seq<char>,
    data: Seq<char>,
)
    requires
        temp == target + ".tmp"@,
    ensures
        ({
            let after = spec_disk_rename(spec_disk_write(disk, temp, data), temp, target);
            after.contains_key(target) && after[target] == data && !after.contains_key(temp)
        }),
{
    reveal_strlit(".tmp");
    assert(temp.len() == target.len() + 4);
}

/// Round-trip law: the document a successful save writes, read back and
/// classified, is exactly the candidate that was saved — the fields a save
/// stores are already trimmed, so trimming again on the load path changes
/// nothing. Resolving that candidate against a directory that still passes
/// validation yields a ready record with those fields (see
/// `Candidate::resolve`).
pub proof fn lemma_round_trip(pd: Seq<char>, ec: Seq<char>, yaml: Seq<char>)
    requires
        !is_blank(pd),
        !is_blank(ec),
        spec_trim(ec) == ec,
        yaml_string_map(yaml) == Ok::<_, Seq<char>>(config_doc(pd, ec)),
    ensures
        spec_classify_contents(yaml) == ContentClass::Candidate(pd, ec),
{
    reveal_strlit("projects_directory");
    reveal_strlit("editor_cmd");
    assert(projects_directory_key().len() == 18);
    assert(editor_cmd_key().len() == 10);
    let doc = config_doc(pd, ec);
    assert(doc.contains_key(projects_directory_key()));
    assert(doc[projects_directory_key()] == pd);
    assert(doc[editor_cmd_key()] == ec);
}

} // verus!
