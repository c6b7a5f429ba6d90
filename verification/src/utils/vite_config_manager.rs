//! The patcher of the Vite configuration file.
//!
//! The file is source text, and the patcher does not parse it. It looks for
//! two anchors, the end of the last import statement and the `plugins` array
//! (or, failing that, the object handed to `defineConfig`), and splices new
//! text in at each; no other byte changes. A file that already names both
//! plugins is left alone, and a file that is written names both, so that
//! patching twice is patching once. What is found is the answer of a
//! pattern search that is not looked into here; an answer that would put
//! the plugin entries into the middle of the import lines just added is
//! refused rather than followed.

use crate::types::{get_library_config, Library, ProjectInfo, ProjectView};
use crate::utils::pattern::{find_all, first_capture, pattern_capture, pattern_matches};
use crate::utils::pattern::{Capture, Span};
use crate::utils::text::{contains, contains_word, is_blank, is_blank_text};
use crate::utils::vite_config_laws::{lemma_imports_stand_at, lemma_registered_text_is_configured};
use vstd::prelude::*;
use vstd::string::StringSliceAdditionalSpecFns;
use vstd::utf8::encode_utf8;

verus! {

/// The module that the auto-import plugin is imported from. A file that
/// holds this text and `COMPONENTS_MARKER` counts as configured.
pub const AUTO_IMPORT_MARKER: &'static str = "unplugin-auto-import/vite";

/// The module that the components plugin is imported from.
pub const COMPONENTS_MARKER: &'static str = "unplugin-vue-components/vite";

/// An import statement with a module name in single or double quotes.
pub const IMPORT_PATTERN: &'static str = "import\\s+.+\\s+from\\s+['\"].*['\"];?";

/// A `plugins` array up to its first closing bracket; group 1 is what
/// stands between the brackets.
pub const PLUGINS_PATTERN: &'static str = "(?s)plugins\\s*:\\s*\\[([^\\]]*)\\]";

/// A call of `defineConfig` on an object literal up to its first closing
/// brace; group 1 is what stands between the braces.
pub const DEFINE_CONFIG_PATTERN: &'static str = "(?s)defineConfig\\s*\\(\\s*\\{([^}]*)\\}\\s*\\)";

/// What a patch did to a text.
#[derive(Debug)]
pub enum Patch {
    /// The text needs no change, and nothing is to be written.
    Unchanged,
    /// The new text, to be written in place of the old.
    Rewritten(Vec<u8>),
}

impl View for Patch {
    type V = Option<Seq<u8>>;

    /// The new text, if there is one.
    open spec fn view(&self) -> Option<Seq<u8>> {
        match self {
            Patch::Unchanged => None,
            Patch::Rewritten(text) => Some(text@),
        }
    }
}

/// Why the Vite configuration could not be patched.
#[derive(Debug, Clone, Copy, PartialEq, Eq, Structural)]
pub enum ViteConfigError {
    /// The project is not valid or has no Vite configuration file.
    InvalidProject,
    /// The text has neither a `plugins` array nor a call of `defineConfig`
    /// on an object literal, or what was found of them ends inside the
    /// import lines just added.
    UnsupportedShape,
    /// One of the patterns did not compile.
    BadPattern,
}

impl ViteConfigError {
    /// What to tell the user.
    pub open spec fn text(self) -> Seq<char> {
        match self {
            ViteConfigError::InvalidProject => "无效的项目结构或未找到Vite配置文件"@,
            ViteConfigError::UnsupportedShape => "无法找到Vite配置中的plugins数组或defineConfig函数"@,
            ViteConfigError::BadPattern => "无法编译用于查找Vite配置的正则表达式"@,
        }
    }

    /// The message of the error.
    pub fn message(&self) -> (message: String)
        ensures
            message@ == self.text(),
    {
        match self {
            ViteConfigError::InvalidProject => "无效的项目结构或未找到Vite配置文件".to_string(),
            ViteConfigError::UnsupportedShape =>
                "无法找到Vite配置中的plugins数组或defineConfig函数".to_string(),
            ViteConfigError::BadPattern => "无法编译用于查找Vite配置的正则表达式".to_string(),
        }
    }
}

/// The text already names both plugins.
pub open spec fn already_configured(text: Seq<u8>) -> bool {
    contains(text, AUTO_IMPORT_MARKER.spec_bytes()) && contains(
        text,
        COMPONENTS_MARKER.spec_bytes(),
    )
}

/// The import statements to add: that of the auto-import plugin, that of
/// the components plugin and that of the library's resolver, one per line.
pub open spec fn import_lines(library: Library) -> Seq<u8> {
    "import AutoImport from \"".spec_bytes() + AUTO_IMPORT_MARKER.spec_bytes()
        + "\";\nimport Components from \"".spec_bytes() + COMPONENTS_MARKER.spec_bytes()
        + "\";\n".spec_bytes() + encode_utf8(library.resolver_import())
}

/// The two entries to add to the `plugins` array.
pub open spec fn registration(library: Library) -> Seq<u8> {
    "AutoImport({resolvers: [".spec_bytes() + encode_utf8(library.resolver_name())
        + "()]}), Components({resolvers: [".spec_bytes() + encode_utf8(library.resolver_name())
        + "()]})".spec_bytes()
}

/// Where the new import statements go: the end of the last import statement
/// found, or 0 where none was found.
pub open spec fn import_anchor(imports: Seq<Span>) -> int {
    if imports.len() > 0 {
        imports.last().end as int
    } else {
        0
    }
}

/// `text` with the import statements of `library` added at `anchor`: on
/// lines of their own right after the byte before `anchor`, or, where
/// `anchor` is 0, at the very top with an empty line after them.
pub open spec fn with_imports(text: Seq<u8>, anchor: int, library: Library) -> Seq<u8> {
    if anchor > 0 {
        text.subrange(0, anchor) + "\n".spec_bytes() + import_lines(library) + "\n".spec_bytes()
            + text.subrange(anchor, text.len() as int)
    } else {
        import_lines(library) + "\n\n".spec_bytes() + text
    }
}

/// Where the lines that `with_imports` adds at `anchor` begin in its result.
pub open spec fn inserted_at(anchor: int) -> int {
    if anchor > 0 {
        anchor + 1
    } else {
        0
    }
}

/// What parts the new entries from the entries that an array holds already:
/// a comma, or nothing where the array holds none.
pub open spec fn separator(body: Seq<u8>) -> Seq<u8> {
    if is_blank(body) {
        Seq::empty()
    } else {
        ",".spec_bytes()
    }
}

/// The text ends in a comma, white space after it left aside.
pub open spec fn ends_in_comma(body: Seq<u8>) -> bool {
    exists|at: int|
        0 <= at < body.len() && #[trigger] body[at] == 0x2c && is_blank(
            body.subrange(at + 1, body.len() as int),
        )
}

/// What parts a new property from the properties that an object holds
/// already: a comma, or nothing where the object holds none or what it
/// holds ends in a comma.
pub open spec fn property_separator(body: Seq<u8>) -> Seq<u8> {
    if is_blank(body) || ends_in_comma(body) {
        Seq::empty()
    } else {
        ",".spec_bytes()
    }
}

/// `text` with `added` put in at offset `at`, everything else as it was.
pub open spec fn spliced(text: Seq<u8>, at: int, added: Seq<u8>) -> Seq<u8> {
    text.subrange(0, at) + added + text.subrange(at, text.len() as int)
}

/// What goes into a `plugins` array that holds `body`: a comma where one
/// is needed, then the entries of `library`.
pub open spec fn array_addition(body: Seq<u8>, library: Library) -> Seq<u8> {
    separator(body) + registration(library)
}

/// What goes into an object that holds `body`: a comma where one is
/// needed, then on a line of its own a `plugins` array with the entries of
/// `library`.
pub open spec fn object_addition(body: Seq<u8>, library: Library) -> Seq<u8> {
    property_separator(body) + "\n  plugins: [".spec_bytes() + registration(library)
        + "],".spec_bytes()
}

/// `text` with the entries of `library` added to the `plugins` array at
/// `array`, right after what the array held; no other byte changes.
pub open spec fn with_registration(text: Seq<u8>, array: Capture, library: Library) -> Seq<u8> {
    let body = text.subrange(array.group.start as int, array.group.end as int);
    spliced(text, array.group.end as int, array_addition(body, library))
}

/// `text` with a `plugins` array of the entries of `library` added to the
/// object of the call of `defineConfig` at `call`, right after what the
/// object held; no other byte changes.
pub open spec fn with_plugins_property(text: Seq<u8>, call: Capture, library: Library) -> Seq<u8> {
    let body = text.subrange(call.group.start as int, call.group.end as int);
    spliced(text, call.group.end as int, object_addition(body, library))
}

/// What registering the plugins of `library` makes of `text`, given what
/// the search for a `plugins` array found and, for the case that it found
/// none, what the search for a call of `defineConfig` found.
pub open spec fn registered(
    text: Seq<u8>,
    array: Option<Capture>,
    call: Option<Capture>,
    library: Library,
) -> Result<Seq<u8>, ViteConfigError> {
    match (array, call) {
        (Some(array), _) => Ok(with_registration(text, array, library)),
        (None, Some(call)) => Ok(with_plugins_property(text, call, library)),
        (None, None) => Err(ViteConfigError::UnsupportedShape),
    }
}

/// The match at which the plugin step adds its text: the `plugins` array
/// where one is found, else the call of `defineConfig` where one is found.
pub open spec fn rewrite_site(text: Seq<u8>) -> Result<
    (Option<Capture>, Option<Capture>),
    ViteConfigError,
> {
    match pattern_capture(PLUGINS_PATTERN@, text) {
        Err(_) => Err(ViteConfigError::BadPattern),
        Ok(Some(array)) => Ok((Some(array), None)),
        Ok(None) => match pattern_capture(DEFINE_CONFIG_PATTERN@, text) {
            Err(_) => Err(ViteConfigError::BadPattern),
            Ok(call) => Ok((None, call)),
        },
    }
}

/// Adding text at the end of what the group of `site` matched would split
/// the range `from..to`: that end lies inside the range.
pub open spec fn splits(site: Capture, from: int, to: int) -> bool {
    from < site.group.end < to
}

/// One of the two matches, if there is one, would split the range.
pub open spec fn either_splits(
    array: Option<Capture>,
    call: Option<Capture>,
    from: int,
    to: int,
) -> bool {
    match (array, call) {
        (Some(array), _) => splits(array, from, to),
        (None, Some(call)) => splits(call, from, to),
        (None, None) => false,
    }
}

/// What the plugin step makes of `text`, which got the import lines of
/// `library` at `anchor`. A match that would split those lines is no shape
/// that the step knows, and is refused.
pub open spec fn plugins_step(text: Seq<u8>, anchor: int, library: Library) -> Result<
    Seq<u8>,
    ViteConfigError,
> {
    match rewrite_site(text) {
        Err(error) => Err(error),
        Ok((array, call)) => if either_splits(
            array,
            call,
            inserted_at(anchor),
            inserted_at(anchor) + import_lines(library).len(),
        ) {
            Err(ViteConfigError::UnsupportedShape)
        } else {
            registered(text, array, call, library)
        },
    }
}

/// What patching makes of the configuration text `content` of a project.
pub open spec fn patched(library: Library, content: Seq<u8>, project: ProjectView) -> Result<
    Option<Seq<u8>>,
    ViteConfigError,
> {
    if !project.patchable() {
        Err(ViteConfigError::InvalidProject)
    } else if already_configured(content) {
        Ok(None)
    } else {
        match pattern_matches(IMPORT_PATTERN@, content) {
            Err(_) => Err(ViteConfigError::BadPattern),
            Ok(imports) => match plugins_step(
                with_imports(content, import_anchor(imports), library),
                import_anchor(imports),
                library,
            ) {
                Ok(text) => Ok(Some(text)),
                Err(error) => Err(error),
            },
        }
    }
}

/// Whether the text already names both plugins.
pub fn is_configured(text: &[u8]) -> (configured: bool)
    ensures
        configured == already_configured(text@),
{
    contains_word(text, AUTO_IMPORT_MARKER.as_bytes()) && contains_word(
        text,
        COMPONENTS_MARKER.as_bytes(),
    )
}

/// The import statements to add for `library`.
pub fn import_lines_of(library: Library) -> (lines: Vec<u8>)
    ensures
        lines@ == import_lines(library),
{
    let config = get_library_config(library);
    let mut lines: Vec<u8> = Vec::new();
    lines.extend_from_slice("import AutoImport from \"".as_bytes());
    lines.extend_from_slice(AUTO_IMPORT_MARKER.as_bytes());
    lines.extend_from_slice("\";\nimport Components from \"".as_bytes());
    lines.extend_from_slice(COMPONENTS_MARKER.as_bytes());
    lines.extend_from_slice("\";\n".as_bytes());
    lines.extend_from_slice(config.resolver_import.as_str().as_bytes());
    assert(lines@ =~= import_lines(library));
    lines
}

/// The two entries to add to the `plugins` array for `library`.
pub fn registration_of(library: Library) -> (entries: Vec<u8>)
    ensures
        entries@ == registration(library),
{
    let config = get_library_config(library);
    let mut entries: Vec<u8> = Vec::new();
    entries.extend_from_slice("AutoImport({resolvers: [".as_bytes());
    entries.extend_from_slice(config.resolver_name.as_str().as_bytes());
    entries.extend_from_slice("()]}), Components({resolvers: [".as_bytes());
    entries.extend_from_slice(config.resolver_name.as_str().as_bytes());
    entries.extend_from_slice("()]})".as_bytes());
    assert(entries@ =~= registration(library));
    entries
}

/// Where the new import statements go, given the import statements found.
pub fn anchor_of(imports: &Vec<Span>) -> (anchor: usize)
    ensures
        anchor == import_anchor(imports@),
{
    if imports.len() > 0 {
        imports[imports.len() - 1].end
    } else {
        0
    }
}

/// Adds the import statements of `library` to `text` at `anchor`.
pub fn insert_imports(text: &[u8], anchor: usize, library: Library) -> (out: Vec<u8>)
    requires
        anchor <= text@.len(),
    ensures
        out@ == with_imports(text@, anchor as int, library),
{
    let lines = import_lines_of(library);
    let mut out: Vec<u8> = Vec::new();
    if anchor > 0 {
        out.extend_from_slice(&text[0..anchor]);
        out.extend_from_slice("\n".as_bytes());
        out.extend_from_slice(lines.as_slice());
        out.extend_from_slice("\n".as_bytes());
        out.extend_from_slice(&text[anchor..text.len()]);
    } else {
        out.extend_from_slice(lines.as_slice());
        out.extend_from_slice("\n\n".as_bytes());
        out.extend_from_slice(text);
    }
    assert(out@ =~= with_imports(text@, anchor as int, library));
    out
}

/// Whether the text ends in a comma, white space after it left aside.
pub fn ends_with_comma(body: &[u8]) -> (found: bool)
    ensures
        found == ends_in_comma(body@),
{
    let size: usize = body.len();
    let mut at: usize = size;
    while at > 0
        invariant
            at <= size == body@.len(),
            forall|k: int|
                at <= k < size ==> !(#[trigger] body@[k] == 0x2c && is_blank(
                    body@.subrange(k + 1, size as int),
                )),
        decreases at,
    {
        at -= 1;
        if body[at] == 0x2c && is_blank_text(&body[at + 1..size]) {
            return true;
        }
    }
    false
}

/// Puts `added` into `text` at offset `at`.
pub fn splice(text: &[u8], at: usize, added: &[u8]) -> (out: Vec<u8>)
    requires
        at <= text@.len(),
    ensures
        out@ == spliced(text@, at as int, added@),
{
    let mut out: Vec<u8> = Vec::new();
    out.extend_from_slice(&text[0..at]);
    out.extend_from_slice(added);
    out.extend_from_slice(&text[at..text.len()]);
    assert(out@ =~= spliced(text@, at as int, added@));
    out
}

/// Adds the entries of `library` to the `plugins` array at `array`, after
/// what it held.
pub fn append_registration(text: &[u8], array: Capture, library: Library) -> (out: Vec<u8>)
    requires
        array.within(text@.len()),
    ensures
        out@ == with_registration(text@, array, library),
{
    let entries = registration_of(library);
    let body: &[u8] = &text[array.group.start..array.group.end];
    let mut added: Vec<u8> = Vec::new();
    if !is_blank_text(body) {
        added.extend_from_slice(",".as_bytes());
    }
    added.extend_from_slice(entries.as_slice());
    assert(added@ =~= array_addition(body@, library));
    splice(text, array.group.end, added.as_slice())
}

/// Adds a `plugins` array of the entries of `library` to the object of the
/// call of `defineConfig` at `call`, after what the object held.
pub fn add_plugins_property(text: &[u8], call: Capture, library: Library) -> (out: Vec<u8>)
    requires
        call.within(text@.len()),
    ensures
        out@ == with_plugins_property(text@, call, library),
{
    let entries = registration_of(library);
    let body: &[u8] = &text[call.group.start..call.group.end];
    let mut added: Vec<u8> = Vec::new();
    if !is_blank_text(body) && !ends_with_comma(body) {
        added.extend_from_slice(",".as_bytes());
    }
    added.extend_from_slice("\n  plugins: [".as_bytes());
    added.extend_from_slice(entries.as_slice());
    added.extend_from_slice("],".as_bytes());
    assert(added@ =~= object_addition(body@, library));
    splice(text, call.group.end, added.as_slice())
}

/// Registers the plugins of `library` in `text`: in the `plugins` array
/// where one was found, else in the object handed to `defineConfig` where
/// such a call was found, else not at all.
pub fn register_plugins(
    text: &[u8],
    array: Option<Capture>,
    call: Option<Capture>,
    library: Library,
) -> (out: Result<Vec<u8>, ViteConfigError>)
    requires
        array matches Some(a) ==> a.within(text@.len()),
        call matches Some(c) ==> c.within(text@.len()),
    ensures
        match out {
            Ok(new_text) => registered(text@, array, call, library) == Ok::<
                Seq<u8>,
                ViteConfigError,
            >(new_text@),
            Err(error) => registered(text@, array, call, library) == Err::<
                Seq<u8>,
                ViteConfigError,
            >(error),
        },
{
    match array {
        Some(array) => Ok(append_registration(text, array, library)),
        None => match call {
            Some(call) => Ok(add_plugins_property(text, call, library)),
            None => Err(ViteConfigError::UnsupportedShape),
        },
    }
}

/// Whether one of the two matches, if there is one, would split the range
/// `from..to`.
pub fn splits_range(array: &Option<Capture>, call: &Option<Capture>, from: usize, to: usize) -> (cut:
    bool)
    ensures
        cut == either_splits(*array, *call, from as int, to as int),
{
    match array {
        Some(array) => from < array.group.end && array.group.end < to,
        None => match call {
            Some(call) => from < call.group.end && call.group.end < to,
            None => false,
        },
    }
}

/// Patches the Vite configuration text `content` of a project for
/// `library`.
///
/// A project that is not valid is refused. A text that names both plugins
/// already is left unchanged. Otherwise the import statements are added
/// after the last import statement, and the plugins are registered in the
/// `plugins` array or, where there is none, in the object handed to
/// `defineConfig`; a text with neither is refused. A text that is written
/// names both plugins, so that a second run leaves it unchanged.
pub fn update_vite_config(library: Library, content: &[u8], project_info: &ProjectInfo) -> (out:
    Result<Patch, ViteConfigError>)
    ensures
        match out {
            Ok(patch) => patched(library, content@, project_info@) == Ok::<
                Option<Seq<u8>>,
                ViteConfigError,
            >(patch@),
            Err(error) => patched(library, content@, project_info@) == Err::<
                Option<Seq<u8>>,
                ViteConfigError,
            >(error),
        },
        project_info@.patchable() && already_configured(content@) ==> out matches Ok(
            Patch::Unchanged,
        ),
        out matches Ok(Patch::Rewritten(text)) ==> already_configured(text@),
{
    if !project_info.is_valid || project_info.vite_config_path.is_none() {
        return Err(ViteConfigError::InvalidProject);
    }
    if is_configured(content) {
        return Ok(Patch::Unchanged);
    }
    let imports = match find_all(IMPORT_PATTERN, content) {
        Ok(imports) => imports,
        Err(_) => return Err(ViteConfigError::BadPattern),
    };
    let anchor = anchor_of(&imports);
    let text = insert_imports(content, anchor, library);
    let size: usize = text.len();
    let lines = import_lines_of(library);
    proof {
        lemma_imports_stand_at(content@, anchor as int, library);
    }
    let from: usize = if anchor > 0 {
        anchor + 1
    } else {
        0
    };
    let to: usize = from + lines.len();
    let array = match first_capture(PLUGINS_PATTERN, text.as_slice()) {
        Ok(array) => array,
        Err(_) => return Err(ViteConfigError::BadPattern),
    };
    let call = match array {
        Some(_) => None,
        None => match first_capture(DEFINE_CONFIG_PATTERN, text.as_slice()) {
            Ok(call) => call,
            Err(_) => return Err(ViteConfigError::BadPattern),
        },
    };
    if splits_range(&array, &call, from, to) {
        return Err(ViteConfigError::UnsupportedShape);
    }
    match register_plugins(text.as_slice(), array, call, library) {
        Ok(new_text) => {
            proof {
                lemma_registered_text_is_configured(content@, anchor as int, array, call, library);
            }
            Ok(Patch::Rewritten(new_text))
        },
        Err(error) => Err(error),
    }
}

} // verus!
