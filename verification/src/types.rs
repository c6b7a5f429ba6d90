//! The closed sets the tool works with: component libraries, package
//! managers, and what is known of a project.

use vstd::prelude::*;

verus! {

/// A supported component library.
#[derive(Debug, Clone, Copy, PartialEq, Eq, Structural)]
pub enum Library {
    ElementPlus,
    AntDesignVue,
    NaiveUi,
    Vant,
}

impl Library {
    /// The name under which the package registry knows the library.
    pub open spec fn package_name(self) -> Seq<char> {
        match self {
            Library::ElementPlus => "element-plus"@,
            Library::AntDesignVue => "ant-design-vue"@,
            Library::NaiveUi => "naive-ui"@,
            Library::Vant => "vant"@,
        }
    }

    /// The name shown to a person choosing a library.
    pub open spec fn title(self) -> Seq<char> {
        match self {
            Library::ElementPlus => "Element Plus"@,
            Library::AntDesignVue => "Ant Design Vue"@,
            Library::NaiveUi => "Naive UI"@,
            Library::Vant => "Vant"@,
        }
    }

    /// The name of the resolver that maps the library's components to their
    /// import paths.
    pub open spec fn resolver_name(self) -> Seq<char> {
        match self {
            Library::ElementPlus => "ElementPlusResolver"@,
            Library::AntDesignVue => "AntDesignVueResolver"@,
            Library::NaiveUi => "NaiveUiResolver"@,
            Library::Vant => "VantResolver"@,
        }
    }

    /// The statement that imports the library's resolver.
    pub open spec fn resolver_import(self) -> Seq<char> {
        match self {
            Library::ElementPlus =>
                "import { ElementPlusResolver } from \"unplugin-vue-components/resolvers\";"@,
            Library::AntDesignVue =>
                "import { AntDesignVueResolver } from \"unplugin-vue-components/resolvers\";"@,
            Library::NaiveUi =>
                "import { NaiveUiResolver } from \"unplugin-vue-components/resolvers\";"@,
            Library::Vant => "import { VantResolver } from \"unplugin-vue-components/resolvers\";"@,
        }
    }

    /// What to install for the library: the library itself and the two
    /// plugins that import on demand.
    pub open spec fn install_list(self) -> Seq<Seq<char>> {
        seq![self.package_name(), "unplugin-auto-import"@, "unplugin-vue-components"@]
    }

    pub fn to_string(&self) -> (name: String)
        ensures
            name@ == self.package_name(),
    {
        match self {
            Library::ElementPlus => "element-plus".to_string(),
            Library::AntDesignVue => "ant-design-vue".to_string(),
            Library::NaiveUi => "naive-ui".to_string(),
            Library::Vant => "vant".to_string(),
        }
    }

    /// The library with the title `title`, if there is one: the choice of
    /// a person who was shown the titles.
    pub fn with_title(title: &str) -> (library: Option<Library>)
        ensures
            match library {
                Some(chosen) => chosen.title() == title@,
                None => forall|other: Library| other.title() != title@,
            },
    {
        let wanted: String = title.to_string();
        if wanted == "Element Plus".to_string() {
            Some(Library::ElementPlus)
        } else if wanted == "Ant Design Vue".to_string() {
            Some(Library::AntDesignVue)
        } else if wanted == "Naive UI".to_string() {
            Some(Library::NaiveUi)
        } else if wanted == "Vant".to_string() {
            Some(Library::Vant)
        } else {
            None
        }
    }

    /// The library's name as a person reads it.
    pub fn display_name(&self) -> (title: String)
        ensures
            title@ == self.title(),
    {
        match self {
            Library::ElementPlus => "Element Plus".to_string(),
            Library::AntDesignVue => "Ant Design Vue".to_string(),
            Library::NaiveUi => "Naive UI".to_string(),
            Library::Vant => "Vant".to_string(),
        }
    }
}

/// No two libraries share a title or a package name, so that either tells
/// which library is meant.
pub proof fn lemma_names_tell_libraries_apart(one: Library, other: Library)
    ensures
        one.title() == other.title() ==> one == other,
        one.package_name() == other.package_name() ==> one == other,
{
    reveal_strlit("Element Plus");
    reveal_strlit("Ant Design Vue");
    reveal_strlit("Naive UI");
    reveal_strlit("Vant");
    reveal_strlit("element-plus");
    reveal_strlit("ant-design-vue");
    reveal_strlit("naive-ui");
    reveal_strlit("vant");
    assert(one.title().len() == other.title().len() ==> one == other);
    assert(one.package_name().len() == other.package_name().len() ==> one == other);
}

/// A package manager.
#[derive(Debug, Clone, Copy, PartialEq, Eq, Structural)]
pub enum PackageManager {
    Npm,
    Yarn,
    Pnpm,
}

impl PackageManager {
    /// The program that runs the package manager.
    pub open spec fn program(self) -> Seq<char> {
        match self {
            PackageManager::Npm => "npm"@,
            PackageManager::Yarn => "yarn"@,
            PackageManager::Pnpm => "pnpm"@,
        }
    }

    /// The package manager's name, which is also its program.
    pub fn display_name(&self) -> (name: String)
        ensures
            name@ == self.program(),
    {
        match self {
            PackageManager::Npm => "npm".to_string(),
            PackageManager::Yarn => "yarn".to_string(),
            PackageManager::Pnpm => "pnpm".to_string(),
        }
    }
}

/// What an inspection found out about a project. The two paths are file
/// names, relative to the project's root.
#[derive(Debug)]
pub struct ProjectInfo {
    pub is_valid: bool,
    pub is_vue: bool,
    pub is_vite: bool,
    pub has_typescript: bool,
    pub package_manager: PackageManager,
    pub vite_config_path: Option<String>,
    pub ts_config_path: Option<String>,
    pub errors: Vec<String>,
}

/// A `ProjectInfo` as a value of specifications.
pub ghost struct ProjectView {
    pub is_valid: bool,
    pub is_vue: bool,
    pub is_vite: bool,
    pub has_typescript: bool,
    pub package_manager: PackageManager,
    pub vite_config_path: Option<Seq<char>>,
    pub ts_config_path: Option<Seq<char>>,
    pub errors: Seq<Seq<char>>,
}

impl ProjectView {
    /// A project is valid exactly when it uses Vue, uses Vite and has a Vite
    /// configuration file.
    pub open spec fn wf(self) -> bool {
        self.is_valid == (self.is_vue && self.is_vite && self.vite_config_path is Some)
    }

    /// The Vite configuration of the project may be patched: the project is
    /// valid and its configuration file is known.
    pub open spec fn patchable(self) -> bool {
        self.is_valid && self.vite_config_path is Some
    }
}

impl View for ProjectInfo {
    type V = ProjectView;

    open spec fn view(&self) -> ProjectView {
        ProjectView {
            is_valid: self.is_valid,
            is_vue: self.is_vue,
            is_vite: self.is_vite,
            has_typescript: self.has_typescript,
            package_manager: self.package_manager,
            vite_config_path: self.vite_config_path.deep_view(),
            ts_config_path: self.ts_config_path.deep_view(),
            errors: self.errors.deep_view(),
        }
    }
}

impl Default for ProjectInfo {
    /// A project of which nothing is known yet: it is not valid.
    fn default() -> (info: Self)
        ensures
            info@ == (ProjectView {
                is_valid: false,
                is_vue: false,
                is_vite: false,
                has_typescript: false,
                package_manager: PackageManager::Npm,
                vite_config_path: None,
                ts_config_path: None,
                errors: Seq::empty(),
            }),
            info@.wf(),
    {
        let info = ProjectInfo {
            is_valid: false,
            is_vue: false,
            is_vite: false,
            has_typescript: false,
            package_manager: PackageManager::Npm,
            vite_config_path: None,
            ts_config_path: None,
            errors: Vec::new(),
        };
        assert(info@.errors =~= Seq::empty());
        info
    }
}

/// What configuring a library takes.
pub struct LibraryConfig {
    pub name: String,
    pub dependencies: Vec<String>,
    pub resolver_import: String,
    pub resolver_name: String,
}

impl LibraryConfig {
    /// The configuration is that of `library`.
    pub open spec fn is_for(&self, library: Library) -> bool {
        &&& self.name@ == library.package_name()
        &&& self.dependencies.deep_view() == library.install_list()
        &&& self.resolver_import@ == library.resolver_import()
        &&& self.resolver_name@ == library.resolver_name()
    }
}

/// The configuration of a library.
pub fn get_library_config(library: Library) -> (config: LibraryConfig)
    ensures
        config.is_for(library),
{
    let name = library.to_string();
    let mut dependencies: Vec<String> = Vec::new();
    dependencies.push(library.to_string());
    dependencies.push("unplugin-auto-import".to_string());
    dependencies.push("unplugin-vue-components".to_string());
    assert(dependencies.deep_view() =~= library.install_list());
    let (resolver_import, resolver_name) = match library {
        Library::ElementPlus => (
            "import { ElementPlusResolver } from \"unplugin-vue-components/resolvers\";".to_string(),
            "ElementPlusResolver".to_string(),
        ),
        Library::AntDesignVue => (
            "import { AntDesignVueResolver } from \"unplugin-vue-components/resolvers\";".to_string(),
            "AntDesignVueResolver".to_string(),
        ),
        Library::NaiveUi => (
            "import { NaiveUiResolver } from \"unplugin-vue-components/resolvers\";".to_string(),
            "NaiveUiResolver".to_string(),
        ),
        Library::Vant => (
            "import { VantResolver } from \"unplugin-vue-components/resolvers\";".to_string(),
            "VantResolver".to_string(),
        ),
    };
    LibraryConfig { name, dependencies, resolver_import, resolver_name }
}

/// The packages that a project manifest lists: the names under its
/// dependencies and under its development dependencies, each `None` where the
/// manifest has no such list.
#[derive(Debug)]
pub struct PackageJson {
    pub dependencies: Option<Vec<String>>,
    pub dev_dependencies: Option<Vec<String>>,
}

/// A `PackageJson` as a value of specifications.
pub ghost struct PackageView {
    pub dependencies: Option<Seq<Seq<char>>>,
    pub dev_dependencies: Option<Seq<Seq<char>>>,
}

impl View for PackageJson {
    type V = PackageView;

    open spec fn view(&self) -> PackageView {
        PackageView {
            dependencies: self.dependencies.deep_view(),
            dev_dependencies: self.dev_dependencies.deep_view(),
        }
    }
}

/// The list is there and `name` is in it.
pub open spec fn lists(names: Option<Seq<Seq<char>>>, name: Seq<char>) -> bool {
    names matches Some(all) && all.contains(name)
}

/// Whether `name` is one of `names`.
pub fn contains_name(names: &Vec<String>, name: &str) -> (found: bool)
    ensures
        found == names.deep_view().contains(name@),
{
    let wanted: String = name.to_string();
    let mut i: usize = 0;
    while i < names.len()
        invariant
            i <= names@.len(),
            wanted@ == name@,
            forall|k: int| 0 <= k < i ==> names.deep_view()[k] != name@,
        decreases names@.len() - i,
    {
        if names[i] == wanted {
            assert(names.deep_view()[i as int] == name@);
            return true;
        }
        i += 1;
    }
    false
}

/// Whether the list is there and `name` is in it.
pub fn has_name(names: &Option<Vec<String>>, name: &str) -> (found: bool)
    ensures
        found == lists(names.deep_view(), name@),
{
    match names {
        None => false,
        Some(all) => contains_name(all, name),
    }
}

} // verus!
