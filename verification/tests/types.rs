use ew_auto_import_tool::types::{contains_name, get_library_config, has_name};
use ew_auto_import_tool::types::{Library, PackageManager, ProjectInfo};

#[test]
fn library_to_string_is_the_package_name() {
    assert_eq!(Library::ElementPlus.to_string(), "element-plus");
    assert_eq!(Library::AntDesignVue.to_string(), "ant-design-vue");
    assert_eq!(Library::NaiveUi.to_string(), "naive-ui");
    assert_eq!(Library::Vant.to_string(), "vant");
}

#[test]
fn library_display_name_is_the_title() {
    assert_eq!(Library::ElementPlus.display_name(), "Element Plus");
    assert_eq!(Library::AntDesignVue.display_name(), "Ant Design Vue");
    assert_eq!(Library::NaiveUi.display_name(), "Naive UI");
    assert_eq!(Library::Vant.display_name(), "Vant");
}

#[test]
fn package_manager_display_name_is_the_program() {
    assert_eq!(PackageManager::Npm.display_name(), "npm");
    assert_eq!(PackageManager::Yarn.display_name(), "yarn");
    assert_eq!(PackageManager::Pnpm.display_name(), "pnpm");
}

#[test]
fn element_plus_config() {
    let config = get_library_config(Library::ElementPlus);
    assert_eq!(config.name, "element-plus");
    assert_eq!(
        config.dependencies,
        vec!["element-plus", "unplugin-auto-import", "unplugin-vue-components"]
    );
    assert_eq!(
        config.resolver_import,
        "import { ElementPlusResolver } from \"unplugin-vue-components/resolvers\";"
    );
    assert_eq!(config.resolver_name, "ElementPlusResolver");
}

#[test]
fn ant_design_vue_config() {
    let config = get_library_config(Library::AntDesignVue);
    assert_eq!(config.name, "ant-design-vue");
    assert_eq!(
        config.dependencies,
        vec!["ant-design-vue", "unplugin-auto-import", "unplugin-vue-components"]
    );
    assert_eq!(
        config.resolver_import,
        "import { AntDesignVueResolver } from \"unplugin-vue-components/resolvers\";"
    );
    assert_eq!(config.resolver_name, "AntDesignVueResolver");
}

#[test]
fn naive_ui_config() {
    let config = get_library_config(Library::NaiveUi);
    assert_eq!(config.name, "naive-ui");
    assert_eq!(
        config.dependencies,
        vec!["naive-ui", "unplugin-auto-import", "unplugin-vue-components"]
    );
    assert_eq!(
        config.resolver_import,
        "import { NaiveUiResolver } from \"unplugin-vue-components/resolvers\";"
    );
    assert_eq!(config.resolver_name, "NaiveUiResolver");
}

#[test]
fn vant_config() {
    let config = get_library_config(Library::Vant);
    assert_eq!(config.name, "vant");
    assert_eq!(config.dependencies, vec!["vant", "unplugin-auto-import", "unplugin-vue-components"]);
    assert_eq!(
        config.resolver_import,
        "import { VantResolver } from \"unplugin-vue-components/resolvers\";"
    );
    assert_eq!(config.resolver_name, "VantResolver");
}

#[test]
fn every_resolver_import_names_its_resolver() {
    for library in [Library::ElementPlus, Library::AntDesignVue, Library::NaiveUi, Library::Vant] {
        let config = get_library_config(library);
        assert_eq!(
            config.resolver_import,
            format!(
                "import {{ {} }} from \"unplugin-vue-components/resolvers\";",
                config.resolver_name
            )
        );
        assert_eq!(config.name, library.to_string());
        assert_eq!(config.dependencies[0], config.name);
    }
}

#[test]
fn default_project_is_not_valid() {
    let info = ProjectInfo::default();
    assert!(!info.is_valid);
    assert!(!info.is_vue);
    assert!(!info.is_vite);
    assert!(!info.has_typescript);
    assert_eq!(info.package_manager, PackageManager::Npm);
    assert_eq!(info.vite_config_path, None);
    assert_eq!(info.ts_config_path, None);
    assert!(info.errors.is_empty());
}

#[test]
fn names_are_found_whole_only() {
    let names = vec!["vue".to_string(), "vite".to_string()];
    assert!(contains_name(&names, "vue"));
    assert!(contains_name(&names, "vite"));
    assert!(!contains_name(&names, "vu"));
    assert!(!contains_name(&names, "vue-router"));
    assert!(!contains_name(&names, ""));
    assert!(!contains_name(&Vec::new(), "vue"));
}

#[test]
fn a_list_that_is_not_there_holds_no_name() {
    assert!(!has_name(&None, "vue"));
    assert!(!has_name(&Some(Vec::new()), "vue"));
    assert!(has_name(&Some(vec!["vue".to_string()]), "vue"));
}

#[test]
fn a_library_is_chosen_by_its_title() {
    assert_eq!(Library::with_title("Element Plus"), Some(Library::ElementPlus));
    assert_eq!(Library::with_title("Ant Design Vue"), Some(Library::AntDesignVue));
    assert_eq!(Library::with_title("Naive UI"), Some(Library::NaiveUi));
    assert_eq!(Library::with_title("Vant"), Some(Library::Vant));
    assert_eq!(Library::with_title("vant"), None);
    assert_eq!(Library::with_title("element-plus"), None);
    assert_eq!(Library::with_title(""), None);
    for library in [Library::ElementPlus, Library::AntDesignVue, Library::NaiveUi, Library::Vant] {
        assert_eq!(Library::with_title(&library.display_name()), Some(library));
    }
}
