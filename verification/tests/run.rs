use ew_auto_import_tool::configure::{configure_auto_import, Step};
use ew_auto_import_tool::types::{Library, PackageManager, ProjectInfo};
use ew_auto_import_tool::utils::declaration_generator::{declaration_file_names, generate_declaration_files};
use ew_auto_import_tool::utils::dependency_manager::{install_dependencies, installation_result, InstallError};

fn project(is_valid: bool, has_typescript: bool) -> ProjectInfo {
    ProjectInfo {
        is_valid,
        is_vue: is_valid,
        is_vite: is_valid,
        has_typescript,
        package_manager: PackageManager::Npm,
        vite_config_path: if is_valid { Some("vite.config.ts".to_string()) } else { None },
        ts_config_path: if has_typescript { Some("tsconfig.json".to_string()) } else { None },
        errors: Vec::new(),
    }
}

#[test]
fn a_project_that_is_not_valid_gets_no_step() {
    assert_eq!(configure_auto_import(&project(false, false)), Vec::new());
    assert_eq!(configure_auto_import(&project(false, true)), Vec::new());
    assert_eq!(configure_auto_import(&ProjectInfo::default()), Vec::new());
}

#[test]
fn a_project_without_typescript_gets_two_steps() {
    assert_eq!(
        configure_auto_import(&project(true, false)),
        vec![Step::InstallDependencies, Step::UpdateViteConfig]
    );
}

#[test]
fn a_project_with_typescript_gets_four_steps() {
    assert_eq!(
        configure_auto_import(&project(true, true)),
        vec![
            Step::InstallDependencies,
            Step::UpdateViteConfig,
            Step::UpdateTsConfig,
            Step::GenerateDeclarationFiles
        ]
    );
}

#[test]
fn npm_installs() {
    let command = install_dependencies(Library::ElementPlus, &PackageManager::Npm);
    assert_eq!(command.program, "npm");
    assert_eq!(
        command.args,
        vec!["install", "element-plus", "unplugin-auto-import", "unplugin-vue-components", "--save"]
    );
}

#[test]
fn yarn_and_pnpm_add() {
    let command = install_dependencies(Library::Vant, &PackageManager::Yarn);
    assert_eq!(command.program, "yarn");
    assert_eq!(
        command.args,
        vec!["add", "vant", "unplugin-auto-import", "unplugin-vue-components", "--save"]
    );
    let command = install_dependencies(Library::NaiveUi, &PackageManager::Pnpm);
    assert_eq!(command.program, "pnpm");
    assert_eq!(
        command.args,
        vec!["add", "naive-ui", "unplugin-auto-import", "unplugin-vue-components", "--save"]
    );
}

#[test]
fn a_failed_installation_carries_the_exit_code() {
    assert_eq!(installation_result(true, Some(0)), Ok(()));
    assert_eq!(installation_result(true, None), Ok(()));
    assert_eq!(installation_result(false, Some(1)), Err(InstallError { code: Some(1) }));
    assert_eq!(installation_result(false, None), Err(InstallError { code: None }));
}

#[test]
fn the_declaration_files_have_their_names() {
    assert_eq!(declaration_file_names(), vec!["components.d.ts", "auto-imports.d.ts"]);
}

#[test]
fn missing_declaration_files_get_a_placeholder() {
    let files = generate_declaration_files(false, false);
    assert_eq!(files.len(), 2);
    assert_eq!(files[0].name, "components.d.ts");
    assert_eq!(
        files[0].content,
        "// 自动生成的组件声明文件\n// 由ew-auto-import-tool生成，请勿手动修改\n\ndeclare module 'vue' {\n  export interface GlobalComponents {\n    // 将在项目构建时自动填充\n  }\n}\n\nexport {}\n"
    );
    assert_eq!(files[1].name, "auto-imports.d.ts");
    assert_eq!(
        files[1].content,
        "// 自动生成的API导入声明文件\n// 由ew-auto-import-tool生成，请勿手动修改\n\ndeclare global {\n  // 将在项目构建时自动填充\n}\n\nexport {}\n"
    );
}

#[test]
fn declaration_files_that_are_there_are_not_written() {
    let files = generate_declaration_files(true, false);
    assert_eq!(files.len(), 1);
    assert_eq!(files[0].name, "auto-imports.d.ts");
    let files = generate_declaration_files(false, true);
    assert_eq!(files.len(), 1);
    assert_eq!(files[0].name, "components.d.ts");
    assert!(generate_declaration_files(true, true).is_empty());
}
