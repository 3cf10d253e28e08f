//! Engine for scaffolding a standardized project directory tree.
//!
//! The library validates a project name and a package name against strict
//! casing rules (`Train-Case` for the project, `snake_case` for the
//! package), plans the directory tree and the boilerplate files to create,
//! and decides — through an explicit build state machine — how a partial
//! build is rolled back when a filesystem step fails.
//!
//! Everything here is pure: the planners return ordered path lists, and the
//! state machine returns decisions. A thin driver performs the filesystem
//! work, feeds each phase's success or failure back into
//! [`BuildState::step`], and carries out whatever [`BuildState::rollback`]
//! asks for. Rollback is coarse on purpose: every created path lives under
//! the one root directory created first, so removing that root is enough.

pub mod dir_builder;
pub mod files_builder;
pub mod text;
pub mod validation;

use vstd::prelude::*;

use crate::dir_builder::{dirs_spec, get_dirs};
use crate::files_builder::{files_spec, get_files};
use crate::text::{pair_views, seq_views};
use crate::validation::{check_name, validate_spec, Case, ErrorCase};

verus! {

/// Errors that can occur during the project building process.
#[derive(Clone, Copy, Debug, PartialEq, Eq, Structural)]
pub enum BuildError {
    /// A filesystem operation failed (permissions, missing paths, etc.).
    IOError,
    /// A provided name does not match the required naming convention.
    NameError,
}

/// What a build driver must remove after a failed phase, before surfacing
/// the failure. Removal is best-effort: its own failure is discarded and
/// never replaces the original error.
#[derive(Clone, Copy, Debug, PartialEq, Eq, Structural)]
pub enum RollbackAction {
    /// Nothing was created; there is nothing to undo.
    Nothing,
    /// Remove the root directory, non-recursively: at most the root and a
    /// few empty children exist.
    RemoveRootDir,
    /// Remove the root directory and everything under it: only this
    /// build's own entries live there.
    RemoveRootTree,
}

/// The state of a build: one phase after the other, with a distinct
/// terminal state for each way a phase can fail.
#[derive(Clone, Copy, Debug, PartialEq, Eq, Structural)]
pub enum BuildState {
    /// Nothing has happened yet; name validation is next.
    Start,
    /// Both names validated and normalized; directory creation is next.
    NamesValidated,
    /// The whole directory plan was created; file creation is next.
    DirectoriesCreated,
    /// The whole file plan was written: the build succeeded.
    FilesCreated,
    /// A name failed validation. No filesystem side effects exist.
    NameInvalid,
    /// A directory could not be created.
    DirectoryFailed,
    /// A file could not be written.
    FileFailed,
}

impl BuildState {
    /// The state the build moves to when the phase run from `self` reports
    /// success (`ok`) or failure. Terminal states do not move.
    pub open spec fn step_spec(self, ok: bool) -> BuildState {
        match self {
            BuildState::Start => if ok {
                BuildState::NamesValidated
            } else {
                BuildState::NameInvalid
            },
            BuildState::NamesValidated => if ok {
                BuildState::DirectoriesCreated
            } else {
                BuildState::DirectoryFailed
            },
            BuildState::DirectoriesCreated => if ok {
                BuildState::FilesCreated
            } else {
                BuildState::FileFailed
            },
            _ => self,
        }
    }

    /// Whether the build is over, in success or failure.
    pub open spec fn is_terminal_spec(self) -> bool {
        match self {
            BuildState::Start => false,
            BuildState::NamesValidated => false,
            BuildState::DirectoriesCreated => false,
            _ => true,
        }
    }

    /// The cleanup owed on entering this state. Only failures after the
    /// root directory was created owe one.
    pub open spec fn rollback_spec(self) -> RollbackAction {
        match self {
            BuildState::DirectoryFailed => RollbackAction::RemoveRootDir,
            BuildState::FileFailed => RollbackAction::RemoveRootTree,
            _ => RollbackAction::Nothing,
        }
    }

    /// The result the build surfaces from this state, if it is terminal.
    pub open spec fn outcome_spec(self) -> Option<Result<(), BuildError>> {
        match self {
            BuildState::FilesCreated => Some(Ok(())),
            BuildState::NameInvalid => Some(Err(BuildError::NameError)),
            BuildState::DirectoryFailed => Some(Err(BuildError::IOError)),
            BuildState::FileFailed => Some(Err(BuildError::IOError)),
            _ => None,
        }
    }

    /// Feeds the phase result `ok` into the state machine.
    pub fn step(self, ok: bool) -> (r: BuildState)
        ensures
            r == self.step_spec(ok),
    {
        match self {
            BuildState::Start => if ok {
                BuildState::NamesValidated
            } else {
                BuildState::NameInvalid
            },
            BuildState::NamesValidated => if ok {
                BuildState::DirectoriesCreated
            } else {
                BuildState::DirectoryFailed
            },
            BuildState::DirectoriesCreated => if ok {
                BuildState::FilesCreated
            } else {
                BuildState::FileFailed
            },
            _ => self,
        }
    }

    /// Whether the build is over, in success or failure.
    pub fn is_terminal(self) -> (r: bool)
        ensures
            r == self.is_terminal_spec(),
    {
        match self {
            BuildState::Start => false,
            BuildState::NamesValidated => false,
            BuildState::DirectoriesCreated => false,
            _ => true,
        }
    }

    /// The cleanup owed on entering this state.
    pub fn rollback(self) -> (r: RollbackAction)
        ensures
            r == self.rollback_spec(),
    {
        match self {
            BuildState::DirectoryFailed => RollbackAction::RemoveRootDir,
            BuildState::FileFailed => RollbackAction::RemoveRootTree,
            _ => RollbackAction::Nothing,
        }
    }

    /// The result the build surfaces from this state, if it is terminal.
    pub fn outcome(self) -> (r: Option<Result<(), BuildError>>)
        ensures
            r == self.outcome_spec(),
    {
        match self {
            BuildState::FilesCreated => Some(Ok(())),
            BuildState::NameInvalid => Some(Err(BuildError::NameError)),
            BuildState::DirectoryFailed => Some(Err(BuildError::IOError)),
            BuildState::FileFailed => Some(Err(BuildError::IOError)),
            _ => None,
        }
    }
}

/// Validates the project name as train case and the package name as snake
/// case, in that order, returning the normalized pair or the first name
/// error found.
pub fn prepare_names(project_name: String, pkg_name: String) -> (r: Result<
    (String, String),
    ErrorCase,
>)
    ensures
        match r {
            Ok(names) => validate_spec(project_name@, Case::TrainCase) == Ok::<
                Seq<char>,
                ErrorCase,
            >(names.0@) && validate_spec(pkg_name@, Case::SnakeCase) == Ok::<
                Seq<char>,
                ErrorCase,
            >(names.1@),
            Err(e) => validate_spec(project_name@, Case::TrainCase) == Err::<
                Seq<char>,
                ErrorCase,
            >(e) || (validate_spec(project_name@, Case::TrainCase) is Ok && validate_spec(
                pkg_name@,
                Case::SnakeCase,
            ) == Err::<Seq<char>, ErrorCase>(e)),
        },
{
    let project = match check_name(project_name, Case::TrainCase) {
        Ok(p) => p,
        Err(e) => {
            return Err(e);
        },
    };
    let package = match check_name(pkg_name, Case::SnakeCase) {
        Ok(p) => p,
        Err(e) => {
            return Err(e);
        },
    };
    Ok((project, package))
}

/// Everything a build will create, in creation order: the directory paths
/// first, then the `(path, content)` file entries. Immutable once computed,
/// and a pure function of the two normalized names and the doc flag.
pub struct BuildPlan {
    /// The directories to create, parents before children.
    pub dirs: Vec<String>,
    /// The files to write once the directories exist.
    pub files: Vec<(String, String)>,
}

/// Computes the full build plan for a project rooted at `project` with
/// package `package`.
pub fn plan_build(project: &str, package: &str, docs: bool) -> (plan: BuildPlan)
    ensures
        seq_views(plan.dirs@) == dirs_spec(project@, docs, package@),
        pair_views(plan.files@) == files_spec(project@, package@),
{
    BuildPlan { dirs: get_dirs(project, docs, package), files: get_files(project, package) }
}

/// Two build plans computed from the same normalized inputs hold the same
/// ordered path lists: nothing in a plan depends on anything but its
/// inputs.
pub proof fn lemma_plan_deterministic(
    project_a: Seq<char>,
    package_a: Seq<char>,
    docs_a: bool,
    project_b: Seq<char>,
    package_b: Seq<char>,
    docs_b: bool,
)
    requires
        project_a == project_b,
        package_a == package_b,
        docs_a == docs_b,
    ensures
        dirs_spec(project_a, docs_a, package_a) == dirs_spec(project_b, docs_b, package_b),
        files_spec(project_a, package_a) == files_spec(project_b, package_b),
{
}

/// A failure in name validation ends the build with a `NameError` and owes
/// no cleanup: validation has no filesystem side effects to undo.
pub proof fn lemma_name_failure_is_clean()
    ensures
        BuildState::Start.step_spec(false).is_terminal_spec(),
        BuildState::Start.step_spec(false).rollback_spec() == RollbackAction::Nothing,
        BuildState::Start.step_spec(false).outcome_spec() == Some(
            Err::<(), BuildError>(BuildError::NameError),
        ),
{
}

/// Once directory creation has begun, a failing phase always ends the
/// build with an `IOError` and owes a rollback of the root directory — so
/// either the full plan completes or the driver is told to remove
/// everything this build created.
pub proof fn lemma_failed_phase_rolls_back(s: BuildState)
    requires
        s == BuildState::NamesValidated || s == BuildState::DirectoriesCreated,
    ensures
        s.step_spec(false).is_terminal_spec(),
        s.step_spec(false).rollback_spec() != RollbackAction::Nothing,
        s.step_spec(false).outcome_spec() == Some(Err::<(), BuildError>(BuildError::IOError)),
{
}

/// A build whose three phases all succeed ends in success and owes no
/// cleanup.
pub proof fn lemma_success_path_is_clean()
    ensures
        BuildState::Start.step_spec(true).step_spec(true).step_spec(true)
            == BuildState::FilesCreated,
        BuildState::FilesCreated.rollback_spec() == RollbackAction::Nothing,
        BuildState::FilesCreated.outcome_spec() == Some(Ok::<(), BuildError>(())),
{
}

} // verus!
