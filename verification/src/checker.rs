//! The precondition check: the single gate that makes repeated runs
//! idempotent by intent. Re-running without the overwrite flag reports the
//! conflict instead of corrupting an existing installation.

use vstd::prelude::*;
use vstd::string::StringExecFns;
use crate::error::BuildError;

verus! {

/// The inputs of the precondition check: where the target installation would
/// lie, and whether an existing one may be deleted.
#[derive(Debug, Clone)]
pub struct CheckStep {
    /// The settings-derived location of the target installation.
    pub target: String,
    /// Whether an existing installation is removed rather than reported.
    pub overwrite: bool,
}

/// What the check decided to do before letting the pipeline proceed.
#[derive(Copy, Clone, Debug, PartialEq, Eq, Structural)]
pub enum CheckAction {
    /// Nothing exists at the target: proceed with no side effect.
    Nothing,
    /// An installation exists and overwriting was requested: remove it, then
    /// proceed.
    RemoveExisting,
}

/// Whether the pipeline may proceed: always, unless an installation exists
/// and overwriting was not requested.
pub open spec fn check_allows(exists_install: bool, overwrite: bool) -> bool {
    !exists_install || overwrite
}

/// Whether the check removes an existing installation before proceeding.
pub open spec fn check_removes(exists_install: bool, overwrite: bool) -> bool {
    exists_install && overwrite
}

/// Decides whether the target installation may proceed.
pub struct Checker;

impl Checker {
    /// A checker.
    pub fn new() -> (r: Checker) {
        Checker {  }
    }

    /// Decides the precondition: nothing at the target proceeds with no side
    /// effect; an existing installation is removed when overwriting was
    /// requested, and is otherwise reported as a conflict before any network
    /// or disk side effect happens.
    pub fn decide(&self, exists_install: bool, overwrite: bool) -> (r: Result<
        CheckAction,
        BuildError,
    >)
        ensures
            r is Ok <==> check_allows(exists_install, overwrite),
            r is Ok ==> (r->Ok_0 is RemoveExisting <==> check_removes(exists_install, overwrite)),
            r is Err ==> r->Err_0 is AlreadyExists,
    {
        if exists_install {
            if overwrite {
                Ok(CheckAction::RemoveExisting)
            } else {
                Err(
                    BuildError::AlreadyExists(
                        String::from_str("a target installation is already present"),
                    ),
                )
            }
        } else {
            Ok(CheckAction::Nothing)
        }
    }
}

/// With an existing installation and no overwrite request, the check refuses
/// the run: the pipeline fails at its first step, so no download, extraction
/// or script materialization is ever asked of the driver.
pub proof fn lemma_existing_install_blocks_run(exists_install: bool, overwrite: bool)
    requires
        exists_install,
        !overwrite,
    ensures
        !check_allows(exists_install, overwrite),
{
}

/// With an existing installation and an overwrite request, the check removes
/// the prior installation and lets the pipeline proceed.
pub proof fn lemma_overwrite_replaces_install(exists_install: bool, overwrite: bool)
    requires
        exists_install,
        overwrite,
    ensures
        check_allows(exists_install, overwrite),
        check_removes(exists_install, overwrite),
{
}

} // verus!
