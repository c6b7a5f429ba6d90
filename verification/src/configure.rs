//! The order of a run: what is done to a project that was inspected, step
//! by step. Doing it is the caller's part; a step that fails ends the run.

use crate::types::{ProjectInfo, ProjectView};
use vstd::prelude::*;

verus! {

/// One step of a run.
#[derive(Debug, Clone, Copy, PartialEq, Eq, Structural)]
pub enum Step {
    /// Install the library and the two plugins.
    InstallDependencies,
    /// Patch the Vite configuration file.
    UpdateViteConfig,
    /// Patch the TypeScript configuration file.
    UpdateTsConfig,
    /// Write the declaration files that are missing.
    GenerateDeclarationFiles,
}

/// The steps of a run on a project. A project that is not valid gets none.
/// A valid one has its dependencies installed and its Vite configuration
/// patched, and, where it uses TypeScript, its TypeScript configuration
/// patched and its declaration files written.
pub open spec fn steps(project: ProjectView) -> Seq<Step> {
    if !project.is_valid {
        Seq::empty()
    } else if project.has_typescript {
        seq![
            Step::InstallDependencies,
            Step::UpdateViteConfig,
            Step::UpdateTsConfig,
            Step::GenerateDeclarationFiles,
        ]
    } else {
        seq![Step::InstallDependencies, Step::UpdateViteConfig]
    }
}

/// The steps of a run on the project, in the order in which to take them.
pub fn configure_auto_import(project_info: &ProjectInfo) -> (plan: Vec<Step>)
    ensures
        plan@ == steps(project_info@),
{
    let mut plan: Vec<Step> = Vec::new();
    if project_info.is_valid {
        plan.push(Step::InstallDependencies);
        plan.push(Step::UpdateViteConfig);
        if project_info.has_typescript {
            plan.push(Step::UpdateTsConfig);
            plan.push(Step::GenerateDeclarationFiles);
        }
    }
    assert(plan@ =~= steps(project_info@));
    plan
}

} // verus!
