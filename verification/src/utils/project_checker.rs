//! The project inspector: from what was found at a project's root to what
//! the project is.
//!
//! Looking at the disk is left to the caller, who reports what is there in a
//! `ProjectFiles`. The inspector is tolerant: each thing that is missing adds
//! a message, and only a missing manifest ends the inspection early.

use crate::types::{has_name, lists, PackageJson, PackageManager, PackageView};
use crate::types::{ProjectInfo, ProjectView};
use vstd::prelude::*;

verus! {

/// The project manifest.
pub const MANIFEST_FILE: &'static str = "package.json";

/// The Vite configuration in TypeScript, which is looked for first.
pub const VITE_CONFIG_TS: &'static str = "vite.config.ts";

/// The Vite configuration in JavaScript, which is looked for second.
pub const VITE_CONFIG_JS: &'static str = "vite.config.js";

/// The TypeScript configuration.
pub const TS_CONFIG_FILE: &'static str = "tsconfig.json";

/// The lockfile that yarn writes.
pub const YARN_LOCK: &'static str = "yarn.lock";

/// The lockfile that pnpm writes.
pub const PNPM_LOCK: &'static str = "pnpm-lock.yaml";

/// There is no manifest.
pub const NO_MANIFEST: &'static str = "未找到package.json文件，请确保在Vue项目根目录中运行此工具";

/// The manifest does not list Vue.
pub const NO_VUE: &'static str = "未检测到Vue依赖，请确保这是一个Vue项目";

/// The manifest does not list Vite.
pub const NO_VITE: &'static str = "未检测到Vite依赖，此工具仅支持Vite项目";

/// The manifest lists Vite, but there is no Vite configuration file.
pub const NO_VITE_CONFIG: &'static str = "未找到vite.config.ts或vite.config.js文件";

/// What was found at the root of a project: the manifest, if there is one
/// and it could be read, and whether each of the other files is there.
#[derive(Debug)]
pub struct ProjectFiles {
    pub manifest: Option<PackageJson>,
    pub has_vite_config_ts: bool,
    pub has_vite_config_js: bool,
    pub has_ts_config: bool,
    pub has_yarn_lock: bool,
    pub has_pnpm_lock: bool,
}

/// A `ProjectFiles` as a value of specifications.
pub ghost struct FilesView {
    pub manifest: Option<PackageView>,
    pub has_vite_config_ts: bool,
    pub has_vite_config_js: bool,
    pub has_ts_config: bool,
    pub has_yarn_lock: bool,
    pub has_pnpm_lock: bool,
}

impl View for ProjectFiles {
    type V = FilesView;

    open spec fn view(&self) -> FilesView {
        FilesView {
            manifest: match self.manifest {
                Some(manifest) => Some(manifest@),
                None => None,
            },
            has_vite_config_ts: self.has_vite_config_ts,
            has_vite_config_js: self.has_vite_config_js,
            has_ts_config: self.has_ts_config,
            has_yarn_lock: self.has_yarn_lock,
            has_pnpm_lock: self.has_pnpm_lock,
        }
    }
}

/// The manifest lists Vue, as a dependency or as a development dependency.
pub open spec fn uses_vue(manifest: PackageView) -> bool {
    lists(manifest.dependencies, "vue"@) || lists(manifest.dev_dependencies, "vue"@)
}

/// The manifest lists Vite as a development dependency.
pub open spec fn uses_vite(manifest: PackageView) -> bool {
    lists(manifest.dev_dependencies, "vite"@)
}

/// The Vite configuration file of the project: the first that is there of
/// the TypeScript one and the JavaScript one.
pub open spec fn vite_config_file(files: FilesView) -> Option<Seq<char>> {
    if files.has_vite_config_ts {
        Some(VITE_CONFIG_TS@)
    } else if files.has_vite_config_js {
        Some(VITE_CONFIG_JS@)
    } else {
        None
    }
}

/// The package manager of the project, told by its lockfile: yarn before
/// pnpm, and npm where neither has left one.
pub open spec fn package_manager_of(files: FilesView) -> PackageManager {
    if files.has_yarn_lock {
        PackageManager::Yarn
    } else if files.has_pnpm_lock {
        PackageManager::Pnpm
    } else {
        PackageManager::Npm
    }
}

/// The messages on what the manifest lacks: one if it does not list Vue,
/// then one if it does not list Vite or, where it does, if there is no Vite
/// configuration file.
pub open spec fn diagnostics(manifest: PackageView, files: FilesView) -> Seq<Seq<char>> {
    let on_vue = if uses_vue(manifest) {
        Seq::empty()
    } else {
        seq![NO_VUE@]
    };
    let on_vite = if !uses_vite(manifest) {
        seq![NO_VITE@]
    } else if vite_config_file(files) is None {
        seq![NO_VITE_CONFIG@]
    } else {
        Seq::empty()
    };
    on_vue + on_vite
}

/// What the inspection of `files` finds.
pub open spec fn inspected(files: FilesView) -> ProjectView {
    match files.manifest {
        None => ProjectView {
            is_valid: false,
            is_vue: false,
            is_vite: false,
            has_typescript: false,
            package_manager: PackageManager::Npm,
            vite_config_path: None,
            ts_config_path: None,
            errors: seq![NO_MANIFEST@],
        },
        Some(manifest) => {
            let config = if uses_vite(manifest) {
                vite_config_file(files)
            } else {
                None
            };
            ProjectView {
                is_valid: uses_vue(manifest) && uses_vite(manifest) && config is Some,
                is_vue: uses_vue(manifest),
                is_vite: uses_vite(manifest),
                has_typescript: files.has_ts_config,
                package_manager: package_manager_of(files),
                vite_config_path: config,
                ts_config_path: if files.has_ts_config {
                    Some(TS_CONFIG_FILE@)
                } else {
                    None
                },
                errors: diagnostics(manifest, files),
            }
        },
    }
}

/// Validity gating: a project is found valid exactly when it uses Vue, uses
/// Vite and has a Vite configuration file; a valid project has no message,
/// and each thing that is missing has its own.
pub proof fn lemma_validity_gating(files: FilesView)
    ensures
        inspected(files).wf(),
        inspected(files).is_valid <==> inspected(files).errors.len() == 0,
        files.manifest is None ==> inspected(files).errors == seq![NO_MANIFEST@],
        files.manifest is Some && !inspected(files).is_vue ==> inspected(files).errors.contains(
            NO_VUE@,
        ),
        files.manifest is Some && !inspected(files).is_vite ==> inspected(files).errors.contains(
            NO_VITE@,
        ),
        inspected(files).is_vite && inspected(files).vite_config_path is None ==> inspected(
            files,
        ).errors.contains(NO_VITE_CONFIG@),
{
    match files.manifest {
        None => {},
        Some(manifest) => {
            let errors = diagnostics(manifest, files);
            if !uses_vue(manifest) {
                assert(errors[0] == NO_VUE@);
            }
            if !uses_vite(manifest) {
                assert(errors[errors.len() - 1] == NO_VITE@);
            } else if vite_config_file(files) is None {
                assert(errors[errors.len() - 1] == NO_VITE_CONFIG@);
            }
        },
    }
}

/// Inspects a project, given what was found at its root.
pub fn check_project(files: &ProjectFiles) -> (info: ProjectInfo)
    ensures
        info@ == inspected(files@),
        info@.wf(),
{
    let mut result = ProjectInfo::default();
    let manifest = match &files.manifest {
        None => {
            result.errors.push(NO_MANIFEST.to_string());
            assert(result@.errors =~= seq![NO_MANIFEST@]);
            return result;
        },
        Some(manifest) => manifest,
    };
    let has_vue = has_name(&manifest.dependencies, "vue") || has_name(
        &manifest.dev_dependencies,
        "vue",
    );
    if !has_vue {
        result.errors.push(NO_VUE.to_string());
    } else {
        result.is_vue = true;
    }
    let has_vite = has_name(&manifest.dev_dependencies, "vite");
    if !has_vite {
        result.errors.push(NO_VITE.to_string());
    } else {
        result.is_vite = true;
        if files.has_vite_config_ts {
            result.vite_config_path = Some(VITE_CONFIG_TS.to_string());
        } else if files.has_vite_config_js {
            result.vite_config_path = Some(VITE_CONFIG_JS.to_string());
        } else {
            result.errors.push(NO_VITE_CONFIG.to_string());
        }
    }
    if files.has_ts_config {
        result.has_typescript = true;
        result.ts_config_path = Some(TS_CONFIG_FILE.to_string());
    }
    if files.has_yarn_lock {
        result.package_manager = PackageManager::Yarn;
    } else if files.has_pnpm_lock {
        result.package_manager = PackageManager::Pnpm;
    } else {
        result.package_manager = PackageManager::Npm;
    }
    result.is_valid = result.is_vue && result.is_vite && result.vite_config_path.is_some();
    assert(result@.errors =~= diagnostics(manifest@, files@));
    result
}

} // verus!
