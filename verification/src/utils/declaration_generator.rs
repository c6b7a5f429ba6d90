//! The two declaration files that the plugins fill when the project is
//! built. The tool puts a placeholder in place of each that is missing and
//! never touches one that is there.

use vstd::prelude::*;

verus! {

/// The declaration file of the components.
pub const COMPONENTS_DECLARATION: &'static str = "components.d.ts";

/// The declaration file of the imported functions.
pub const AUTO_IMPORTS_DECLARATION: &'static str = "auto-imports.d.ts";

/// The placeholder for `COMPONENTS_DECLARATION`.
pub const COMPONENTS_PLACEHOLDER: &'static str =
    "// 自动生成的组件声明文件\n// 由ew-auto-import-tool生成，请勿手动修改\n\ndeclare module 'vue' {\n  export interface GlobalComponents {\n    // 将在项目构建时自动填充\n  }\n}\n\nexport {}\n";

/// The placeholder for `AUTO_IMPORTS_DECLARATION`.
pub const AUTO_IMPORTS_PLACEHOLDER: &'static str =
    "// 自动生成的API导入声明文件\n// 由ew-auto-import-tool生成，请勿手动修改\n\ndeclare global {\n  // 将在项目构建时自动填充\n}\n\nexport {}\n";

/// A file to write: its name, relative to the project's root, and what to
/// put in it.
#[derive(Debug)]
pub struct DeclarationFile {
    pub name: String,
    pub content: String,
}

impl DeepView for DeclarationFile {
    type V = (Seq<char>, Seq<char>);

    /// The name and the content.
    open spec fn deep_view(&self) -> (Seq<char>, Seq<char>) {
        (self.name@, self.content@)
    }
}

/// The names of the two declaration files, in the order in which they are
/// dealt with.
pub open spec fn declaration_names() -> Seq<Seq<char>> {
    seq![COMPONENTS_DECLARATION@, AUTO_IMPORTS_DECLARATION@]
}

/// The files to write, as pairs of name and content: a placeholder for each
/// declaration file that is not there.
pub open spec fn placeholders(has_components: bool, has_auto_imports: bool) -> Seq<
    (Seq<char>, Seq<char>),
> {
    let components = if has_components {
        Seq::empty()
    } else {
        seq![(COMPONENTS_DECLARATION@, COMPONENTS_PLACEHOLDER@)]
    };
    let auto_imports = if has_auto_imports {
        Seq::empty()
    } else {
        seq![(AUTO_IMPORTS_DECLARATION@, AUTO_IMPORTS_PLACEHOLDER@)]
    };
    components + auto_imports
}

/// The names of the two declaration files.
pub fn declaration_file_names() -> (names: Vec<String>)
    ensures
        names.deep_view() == declaration_names(),
{
    let mut names: Vec<String> = Vec::new();
    names.push(COMPONENTS_DECLARATION.to_string());
    names.push(AUTO_IMPORTS_DECLARATION.to_string());
    assert(names.deep_view() =~= declaration_names());
    names
}

/// The declaration files to write, given which of the two are there
/// already: a placeholder for each that is missing, none for one that is
/// there.
pub fn generate_declaration_files(has_components: bool, has_auto_imports: bool) -> (files: Vec<
    DeclarationFile,
>)
    ensures
        files.deep_view() == placeholders(has_components, has_auto_imports),
{
    let mut files: Vec<DeclarationFile> = Vec::new();
    if !has_components {
        files.push(
            DeclarationFile {
                name: COMPONENTS_DECLARATION.to_string(),
                content: COMPONENTS_PLACEHOLDER.to_string(),
            },
        );
    }
    if !has_auto_imports {
        files.push(
            DeclarationFile {
                name: AUTO_IMPORTS_DECLARATION.to_string(),
                content: AUTO_IMPORTS_PLACEHOLDER.to_string(),
            },
        );
    }
    assert(files.deep_view() =~= placeholders(has_components, has_auto_imports));
    files
}

} // verus!
