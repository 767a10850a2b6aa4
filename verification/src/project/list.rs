//! Project listing: deciding which scanned directory entries count as
//! projects and returning them sorted by name, case-insensitively.
//!
//! The caller scans the projects directory and reports one `ScanEntry` per
//! entry it could read (and probes the directory itself); this module
//! re-validates the directory, keeps exactly the entries that look like
//! projects (a subdirectory holding a manifest), and sorts them.

use vstd::prelude::*;

verus! {

use vstd::string::StringExecFns;
use crate::config::{Config, DirectoryProbe, spec_validate_directory, validate_projects_directory};
use crate::text::{lex_le, lex_le_str, lemma_lex_le_total, lemma_lex_le_trans, lemma_lex_le_refl};

broadcast use vstd::seq_lib::group_to_multiset_ensures;

/// Information about a discovered project.
#[derive(Debug, Clone)]
pub struct ProjectInfo {
    /// Directory name (project name).
    pub name: String,
    /// Full path to the project directory.
    pub path: String,
    /// Whether the project's repository has uncommitted changes.
    pub has_uncommitted_changes: bool,
}

/// Errors that may occur while listing projects.
#[derive(Debug)]
pub enum ListProjectsError {
    /// The configured projects directory failed validation.
    ProjectsDirInvalid(String),
    /// The directory could not be scanned.
    Io(String),
}

impl ListProjectsError {
    /// Human-readable description of the failure.
    pub fn message(&self) -> (r: String)
        ensures
            r@ == match *self {
                ListProjectsError::ProjectsDirInvalid(m) => "Projects directory invalid: "@ + m@,
                ListProjectsError::Io(m) => "I/O error listing projects: "@ + m@,
            },
    {
        match self {
            ListProjectsError::ProjectsDirInvalid(m) => "Projects directory invalid: ".to_owned().concat(
                m.as_str(),
            ),
            ListProjectsError::Io(m) => "I/O error listing projects: ".to_owned().concat(
                m.as_str(),
            ),
        }
    }
}

/// One entry of the projects directory, as the caller observed it: its name,
/// its full path, whether it is a directory, whether it holds a project
/// manifest file, and whether its repository (if any) is dirty.
pub struct ScanEntry {
    pub name: String,
    pub path: String,
    pub is_dir: bool,
    pub has_cargo_toml: bool,
    pub has_uncommitted_changes: bool,
}

/// An entry counts as a project when it is a subdirectory holding a
/// manifest.
pub open spec fn is_project(e: ScanEntry) -> bool {
    e.is_dir && e.has_cargo_toml
}

/// The fields of a listed project, as plain values.
pub open spec fn info_view(p: ProjectInfo) -> (Seq<char>, Seq<char>, bool) {
    (p.name@, p.path@, p.has_uncommitted_changes)
}

/// The projects among the scanned entries, in scan order, as plain values.
pub open spec fn project_views(es: Seq<ScanEntry>) -> Seq<(Seq<char>, Seq<char>, bool)>
    decreases es.len(),
{
    if es.len() == 0 {
        Seq::empty()
    } else {
        project_views(es.drop_last()) + (if is_project(es.last()) {
            seq![(es.last().name@, es.last().path@, es.last().has_uncommitted_changes)]
        } else {
            Seq::empty()
        })
    }
}

/// The lowercase form of a string, which the listing order goes by. The form
/// depends on the characters alone; it is named here, and the function below
/// is trusted to return it.
pub uninterp spec fn lower_of(s: Seq<char>) -> Seq<char>;

/// Relies on str::to_lowercase: the lowercase form of a string, a function
/// of its characters alone, named `lower_of`.
#[verifier::external_body]
fn lowercase(s: &str) -> (r: String)
    ensures
        r@ == lower_of(s@),
{
    s.to_lowercase()
}

/// The listing order: by lowercase name.
pub open spec fn le_by_name(a: (Seq<char>, Seq<char>, bool), b: (Seq<char>, Seq<char>, bool)) -> bool {
    lex_le(lower_of(a.0), lower_of(b.0))
}

/// The views are sorted in the listing order.
pub open spec fn sorted_by_name(vs: Seq<(Seq<char>, Seq<char>, bool)>) -> bool {
    forall|i: int, j: int| 0 <= i < j < vs.len() ==> le_by_name(vs[i], vs[j])
}

/// Lists the projects among the scanned entries of the configured projects
/// directory.
///
/// The directory is re-validated first; any fault is surfaced. The result
/// holds exactly the entries that count as projects — as a multiset, nothing
/// is added, lost or changed — sorted by lowercase name.
pub fn list_projects(config: &Config, entries: Vec<ScanEntry>, probe: &DirectoryProbe) -> (r:
    Result<Vec<ProjectInfo>, ListProjectsError>)
    ensures
        (r is Ok) <==> spec_validate_directory(config@.projects_directory, *probe) is Accepted,
        (r matches Err(ListProjectsError::ProjectsDirInvalid(_))) <==> !(spec_validate_directory(
            config@.projects_directory,
            *probe,
        ) is Accepted),
        !(r matches Err(ListProjectsError::Io(_))),
        r matches Ok(ps) ==> {
            &&& ps@.map_values(|p: ProjectInfo| info_view(p)).to_multiset() == project_views(
                entries@,
            ).to_multiset()
            &&& sorted_by_name(ps@.map_values(|p: ProjectInfo| info_view(p)))
        },
{
    if let Err(v) = validate_projects_directory(config.projects_directory(), probe) {
        return Err(ListProjectsError::ProjectsDirInvalid(v.message()));
    }
    let mut kept: Vec<ProjectInfo> = Vec::new();
    let n = entries.len();
    let mut i: usize = 0;
    proof {
        assert(entries@.take(0) =~= Seq::<ScanEntry>::empty());
        assert(kept@.map_values(|p: ProjectInfo| info_view(p)) =~= project_views(
            entries@.take(0),
        ));
    }
    while i < n
        invariant
            0 <= i <= n,
            n == entries@.len(),
            kept@.map_values(|p: ProjectInfo| info_view(p)) == project_views(entries@.take(i as int)),
        decreases n - i,
    {
        let ghost prev = kept@.map_values(|p: ProjectInfo| info_view(p));
        let e = &entries[i];
        if e.is_dir && e.has_cargo_toml {
            kept.push(
                ProjectInfo {
                    name: e.name.clone(),
                    path: e.path.clone(),
                    has_uncommitted_changes: e.has_uncommitted_changes,
                },
            );
        }
        proof {
            assert(entries@.take(i + 1).drop_last() =~= entries@.take(i as int));
            assert(entries@.take(i + 1).last() == entries@[i as int]);
            if is_project(entries@[i as int]) {
                assert(kept@.map_values(|p: ProjectInfo| info_view(p)) =~= prev + seq![
                    (
                        entries@[i as int].name@,
                        entries@[i as int].path@,
                        entries@[i as int].has_uncommitted_changes,
                    ),
                ]);
            } else {
                assert(project_views(entries@.take(i + 1)) =~= prev);
            }
        }
        i = i + 1;
    }
    proof {
        assert(entries@.take(n as int) =~= entries@);
    }
    Ok(sort_by_name(kept))
}

/// Whether any of a repository's status entries intersects the given set of
/// change bits: the rule that decides a repository is dirty, over plain bit
/// sets. The caller supplies each entry's status bits and the mask of bits
/// that count as changes.
pub fn any_status_intersects(statuses: &Vec<u32>, mask: u32) -> (r: bool)
    ensures
        r == exists|i: int| 0 <= i < statuses@.len() && #[trigger] (statuses@[i] & mask) != 0,
{
    let n = statuses.len();
    let mut i: usize = 0;
    while i < n
        invariant
            0 <= i <= n,
            n == statuses@.len(),
            forall|k: int| 0 <= k < i ==> #[trigger] (statuses@[k] & mask) == 0,
        decreases n - i,
    {
        if statuses[i] & mask != 0 {
            return true;
        }
        i = i + 1;
    }
    false
}

/// Sorts the projects by lowercase name: the result is a permutation of the
/// input — the same multiset — in the listing order.
fn sort_by_name(input: Vec<ProjectInfo>) -> (r: Vec<ProjectInfo>)
    ensures
        r@.map_values(|p: ProjectInfo| info_view(p)).to_multiset() == input@.map_values(
            |p: ProjectInfo| info_view(p),
        ).to_multiset(),
        sorted_by_name(r@.map_values(|p: ProjectInfo| info_view(p))),
{
    let ghost whole = input@.map_values(|p: ProjectInfo| info_view(p)).to_multiset();
    let mut work = input;
    let mut out: Vec<ProjectInfo> = Vec::new();
    proof {
        assert(out@.map_values(|p: ProjectInfo| info_view(p)) =~= Seq::<
            (Seq<char>, Seq<char>, bool),
        >::empty());
        assert(out@.map_values(|p: ProjectInfo| info_view(p)).to_multiset().add(
            work@.map_values(|p: ProjectInfo| info_view(p)).to_multiset(),
        ) =~= whole);
    }
    while work.len() > 0
        invariant
            out@.map_values(|p: ProjectInfo| info_view(p)).to_multiset().add(
                work@.map_values(|p: ProjectInfo| info_view(p)).to_multiset(),
            ) == whole,
            sorted_by_name(out@.map_values(|p: ProjectInfo| info_view(p))),
            forall|a: int, b: int|
                0 <= a < out@.len() && 0 <= b < work@.len() ==> le_by_name(
                    info_view(out@[a]),
                    info_view(work@[b]),
                ),
        decreases work.len(),
    {
        let m = min_index(&work);
        let ghost old_out = out@.map_values(|p: ProjectInfo| info_view(p));
        let ghost old_work = work@.map_values(|p: ProjectInfo| info_view(p));
        let p = work.remove(m);
        out.push(p);
        proof {
            assert(work@.map_values(|p: ProjectInfo| info_view(p)) =~= old_work.remove(m as int));
            assert(out@.map_values(|p: ProjectInfo| info_view(p)) =~= old_out.push(
                old_work[m as int],
            ));
            assert(old_out.push(old_work[m as int]).to_multiset().add(
                old_work.remove(m as int).to_multiset(),
            ) =~= old_out.to_multiset().add(old_work.to_multiset()));
            assert forall|a: int, b: int|
                0 <= a < out@.len() && 0 <= b < work@.len() implies le_by_name(
                info_view(out@[a]),
                info_view(work@[b]),
            ) by {
                if a < out@.len() - 1 {
                    if b < m {
                        assert(old_work.remove(m as int)[b] == old_work[b]);
                    } else {
                        assert(old_work.remove(m as int)[b] == old_work[b + 1]);
                    }
                } else {
                    if b < m {
                        assert(old_work.remove(m as int)[b] == old_work[b]);
                    } else {
                        assert(old_work.remove(m as int)[b] == old_work[b + 1]);
                    }
                }
            }
        }
    }
    out
}

/// Finds the index of a minimal element in the listing order.
fn min_index(work: &Vec<ProjectInfo>) -> (m: usize)
    requires
        work@.len() > 0,
    ensures
        0 <= m < work@.len(),
        forall|k: int|
            0 <= k < work@.len() ==> le_by_name(info_view(work@[m as int]), info_view(work@[k])),
{
    let mut m: usize = 0;
    let mut mkey = lowercase(work[0].name.as_str());
    let n = work.len();
    let mut j: usize = 1;
    proof {
        lemma_lex_le_refl(mkey@);
    }
    while j < n
        invariant
            0 <= m < j <= n,
            n == work@.len(),
            mkey@ == lower_of(work@[m as int].name@),
            forall|k: int| 0 <= k < j ==> le_by_name(info_view(work@[m as int]), info_view(work@[k])),
        decreases n - j,
    {
        let jkey = lowercase(work[j].name.as_str());
        if !lex_le_str(mkey.as_str(), jkey.as_str()) {
            proof {
                lemma_lex_le_total(mkey@, jkey@);
                assert forall|k: int|
                    0 <= k < j + 1 implies le_by_name(info_view(work@[j as int]), info_view(work@[k]))
                by {
                    if k < j {
                        lemma_lex_le_trans(jkey@, mkey@, lower_of(work@[k].name@));
                    } else {
                        lemma_lex_le_refl(jkey@);
                    }
                }
            }
            m = j;
            mkey = jkey;
        }
        j = j + 1;
    }
    m
}

} // verus!
