use ew_auto_import_tool::types::{Library, PackageManager, ProjectInfo};
use ew_auto_import_tool::utils::pattern::{Capture, Span};
use ew_auto_import_tool::utils::vite_config_manager::{add_plugins_property, anchor_of};
use ew_auto_import_tool::utils::vite_config_manager::{append_registration, import_lines_of};
use ew_auto_import_tool::utils::vite_config_manager::{ends_with_comma, splice, splits_range};
use ew_auto_import_tool::utils::vite_config_manager::{insert_imports, is_configured};
use ew_auto_import_tool::utils::vite_config_manager::{register_plugins, registration_of};
use ew_auto_import_tool::utils::vite_config_manager::{update_vite_config, Patch, ViteConfigError};

const ELEMENT_PLUS_IMPORTS: &str = "import AutoImport from \"unplugin-auto-import/vite\";\n\
import Components from \"unplugin-vue-components/vite\";\n\
import { ElementPlusResolver } from \"unplugin-vue-components/resolvers\";";

const ELEMENT_PLUS_ENTRIES: &str =
    "AutoImport({resolvers: [ElementPlusResolver()]}), Components({resolvers: [ElementPlusResolver()]})";

fn vite_project() -> ProjectInfo {
    ProjectInfo {
        is_valid: true,
        is_vue: true,
        is_vite: true,
        has_typescript: false,
        package_manager: PackageManager::Npm,
        vite_config_path: Some("vite.config.ts".to_string()),
        ts_config_path: None,
        errors: Vec::new(),
    }
}

fn patch(library: Library, content: &str) -> Result<Option<String>, ViteConfigError> {
    match update_vite_config(library, content.as_bytes(), &vite_project()) {
        Ok(Patch::Unchanged) => Ok(None),
        Ok(Patch::Rewritten(text)) => Ok(Some(String::from_utf8(text).unwrap())),
        Err(error) => Err(error),
    }
}

fn text(bytes: Vec<u8>) -> String {
    String::from_utf8(bytes).unwrap()
}

fn span(start: usize, end: usize) -> Span {
    Span { start, end }
}

#[test]
fn empty_plugins_array_gets_the_two_entries() {
    let out = patch(Library::ElementPlus, "export default defineConfig({ plugins: [] })").unwrap();
    assert_eq!(
        out,
        Some(
            "import AutoImport from \"unplugin-auto-import/vite\";\n\
             import Components from \"unplugin-vue-components/vite\";\n\
             import { ElementPlusResolver } from \"unplugin-vue-components/resolvers\";\n\
             \n\
             export default defineConfig({ plugins: [AutoImport({resolvers: [ElementPlusResolver()]}), Components({resolvers: [ElementPlusResolver()]})] })"
                .to_string()
        )
    );
}

#[test]
fn end_to_end_for_every_library() {
    for (library, resolver) in [
        (Library::ElementPlus, "ElementPlusResolver"),
        (Library::AntDesignVue, "AntDesignVueResolver"),
        (Library::NaiveUi, "NaiveUiResolver"),
        (Library::Vant, "VantResolver"),
    ] {
        let out = patch(library, "export default defineConfig({ plugins: [] })").unwrap().unwrap();
        assert!(out.contains("import AutoImport from \"unplugin-auto-import/vite\";\n"));
        assert!(out.contains("import Components from \"unplugin-vue-components/vite\";\n"));
        assert!(out.contains(&format!(
            "import {{ {} }} from \"unplugin-vue-components/resolvers\";\n",
            resolver
        )));
        assert!(out.ends_with(&format!(
            "export default defineConfig({{ plugins: [AutoImport({{resolvers: [{}()]}}), Components({{resolvers: [{}()]}})] }})",
            resolver, resolver
        )));
        assert!(!out.contains("plugins: []"));
    }
}

#[test]
fn patching_twice_is_patching_once() {
    let sources = [
        "export default defineConfig({ plugins: [] })",
        "import { defineConfig } from 'vite'\nimport vue from '@vitejs/plugin-vue'\n\nexport default defineConfig({\n  plugins: [vue()],\n})\n",
        "import { defineConfig } from 'vite'\n\nexport default defineConfig({\n  base: './',\n})\n",
        "plugins: [\nimport x from 'y';\n]",
    ];
    for source in sources {
        let first = patch(Library::NaiveUi, source).unwrap().unwrap();
        assert_eq!(first.matches("unplugin-auto-import/vite").count(), 1);
        assert_eq!(first.matches("unplugin-vue-components/vite").count(), 1);
        assert_eq!(first.matches("AutoImport(").count(), 1);
        assert_eq!(first.matches("Components(").count(), 1);
        assert_eq!(patch(Library::NaiveUi, &first), Ok(None));
        assert_eq!(patch(Library::Vant, &first), Ok(None));
    }
}

#[test]
fn a_configured_file_is_left_alone() {
    let source = "import AutoImport from 'unplugin-auto-import/vite'\n\
                  import Components from 'unplugin-vue-components/vite'\n\
                  export default defineConfig({ plugins: [AutoImport(), Components()] })\n";
    assert_eq!(patch(Library::ElementPlus, source), Ok(None));
    assert!(is_configured(source.as_bytes()));
}

#[test]
fn the_markers_count_wherever_they_stand() {
    let source = "// unplugin-auto-import/vite and unplugin-vue-components/vite come later\n\
                  export default defineConfig({ plugins: [] })\n";
    assert_eq!(patch(Library::ElementPlus, source), Ok(None));
}

#[test]
fn one_marker_alone_does_not_count() {
    let source = "import AutoImport from 'unplugin-auto-import/vite'\nexport default defineConfig({ plugins: [AutoImport()] })\n";
    assert!(!is_configured(source.as_bytes()));
    let out = patch(Library::ElementPlus, source).unwrap().unwrap();
    assert!(out.contains("import Components from \"unplugin-vue-components/vite\";"));
    assert!(is_configured(out.as_bytes()));
    assert!(!is_configured(b""));
    assert!(!is_configured(b"unplugin-vue-components/vite"));
    assert!(is_configured(b"unplugin-vue-components/viteunplugin-auto-import/vite"));
}

#[test]
fn new_imports_follow_the_last_import() {
    let source = "import { defineConfig } from 'vite'\n\
                  import vue from '@vitejs/plugin-vue'\n\
                  \n\
                  export default defineConfig({\n  plugins: [vue()],\n})\n";
    let out = patch(Library::ElementPlus, source).unwrap().unwrap();
    let expected = format!(
        "import {{ defineConfig }} from 'vite'\n\
         import vue from '@vitejs/plugin-vue'\n\
         {}\n\
         \n\
         \n\
         export default defineConfig({{\n  plugins: [vue(),{}],\n}})\n",
        ELEMENT_PLUS_IMPORTS, ELEMENT_PLUS_ENTRIES
    );
    assert_eq!(out, expected);
}

#[test]
fn a_semicolon_belongs_to_the_import() {
    let source = "import a from 'a';\nimport b from 'b';\nconst x = 1;\nexport default defineConfig({ plugins: [] })\n";
    let out = patch(Library::Vant, source).unwrap().unwrap();
    assert!(out.starts_with(
        "import a from 'a';\nimport b from 'b';\nimport AutoImport from \"unplugin-auto-import/vite\";\n"
    ));
    assert!(out.contains(
        "import { VantResolver } from \"unplugin-vue-components/resolvers\";\n\nconst x = 1;\n"
    ));
}

#[test]
fn imports_in_double_quotes_are_seen() {
    let source = "import { defineConfig } from \"vite\";\nexport default defineConfig({ plugins: [] })\n";
    let out = patch(Library::ElementPlus, source).unwrap().unwrap();
    assert_eq!(
        out,
        format!(
            "import {{ defineConfig }} from \"vite\";\n{}\n\nexport default defineConfig({{ plugins: [{}] }})\n",
            ELEMENT_PLUS_IMPORTS, ELEMENT_PLUS_ENTRIES
        )
    );
}

#[test]
fn new_imports_follow_imports_in_either_quotes() {
    let source = "import a from 'a'\nimport b from \"b\"\nconst x = 1\nexport default defineConfig({ plugins: [] })\n";
    let out = patch(Library::ElementPlus, source).unwrap().unwrap();
    assert!(out.starts_with(&format!(
        "import a from 'a'\nimport b from \"b\"\n{}\n\nconst x = 1\n",
        ELEMENT_PLUS_IMPORTS
    )));
    let source = "import a from \"a\"\nimport b from 'b'\nconst x = 1\nexport default defineConfig({ plugins: [] })\n";
    let out = patch(Library::ElementPlus, source).unwrap().unwrap();
    assert!(out.starts_with(&format!(
        "import a from \"a\"\nimport b from 'b'\n{}\n\nconst x = 1\n",
        ELEMENT_PLUS_IMPORTS
    )));
}

#[test]
fn plugins_already_there_come_first() {
    let out = patch(Library::ElementPlus, "defineConfig({ plugins: [Foo(), Bar()] })")
        .unwrap()
        .unwrap();
    assert!(out.ends_with(&format!(
        "defineConfig({{ plugins: [Foo(), Bar(),{}] }})",
        ELEMENT_PLUS_ENTRIES
    )));
    assert!(!out.contains(",,"));
}

#[test]
fn a_blank_array_gets_no_comma() {
    for body in ["", " ", "\n  \t", "\u{a0}", "\u{2003}\u{3000}\r\n", "\u{1680}\u{2028}\u{205f}"] {
        let source = format!("defineConfig({{ plugins: [{}] }})", body);
        let out = patch(Library::ElementPlus, &source).unwrap().unwrap();
        assert!(out.ends_with(&format!(
            "defineConfig({{ plugins: [{}{}] }})",
            body, ELEMENT_PLUS_ENTRIES
        )));
    }
}

#[test]
fn an_array_with_content_gets_a_comma() {
    for body in ["vue()", " vue() ", "\u{200b}", "/* none */", "\u{a0}x"] {
        let source = format!("defineConfig({{ plugins: [{}] }})", body);
        let out = patch(Library::ElementPlus, &source).unwrap().unwrap();
        assert!(out.ends_with(&format!(
            "defineConfig({{ plugins: [{},{}] }})",
            body, ELEMENT_PLUS_ENTRIES
        )));
    }
}

#[test]
fn the_array_keeps_its_form() {
    let out = patch(Library::ElementPlus, "defineConfig({\n  plugins  :\n [vue()]\n})")
        .unwrap()
        .unwrap();
    assert!(out.ends_with(&format!(
        "defineConfig({{\n  plugins  :\n [vue(),{}]\n}})",
        ELEMENT_PLUS_ENTRIES
    )));
}

#[test]
fn taking_out_what_was_added_gives_the_old_text() {
    let sources = [
        "export default defineConfig({ plugins: [] })",
        "import a from \"a\";\nexport default defineConfig ( {\n  plugins :\n [ vue ( ) ] ,\n} )\n",
        "import a from 'a'\n\nexport default defineConfig ( {\n\tbase: './'\n} ) ;\n",
        "import a from 'a'\nexport default defineConfig({})",
    ];
    for source in sources {
        let out = patch(Library::ElementPlus, source).unwrap().unwrap();
        let mut rest = out.clone();
        let found = source.contains("import a");
        let imports = if found {
            format!("\n{}\n", ELEMENT_PLUS_IMPORTS)
        } else {
            format!("{}\n\n", ELEMENT_PLUS_IMPORTS)
        };
        assert_eq!(rest.matches(&imports).count(), 1);
        rest = rest.replacen(&imports, "", 1);
        let property = format!("\n  plugins: [{}],", ELEMENT_PLUS_ENTRIES);
        let with_comma = format!(",{}", property);
        let entry_with_comma = format!(",{}", ELEMENT_PLUS_ENTRIES);
        if rest.contains(&with_comma) {
            rest = rest.replacen(&with_comma, "", 1);
        } else if rest.contains(&property) {
            rest = rest.replacen(&property, "", 1);
        } else if rest.contains(&entry_with_comma) {
            rest = rest.replacen(&entry_with_comma, "", 1);
        } else {
            rest = rest.replacen(ELEMENT_PLUS_ENTRIES, "", 1);
        }
        assert_eq!(rest, source);
    }
}

#[test]
fn the_array_ends_at_its_first_closing_bracket() {
    let out = patch(Library::ElementPlus, "defineConfig({ plugins: [a([1]), b()] })")
        .unwrap()
        .unwrap();
    assert!(out.ends_with(&format!(
        "defineConfig({{ plugins: [a([1,{}]), b()] }})",
        ELEMENT_PLUS_ENTRIES
    )));
}

#[test]
fn without_an_array_the_object_gets_one() {
    let source = "import { defineConfig } from 'vite'\n\nexport default defineConfig({\n  base: './',\n})\n";
    let out = patch(Library::AntDesignVue, source).unwrap().unwrap();
    let expected = "import { defineConfig } from 'vite'\n\
                    import AutoImport from \"unplugin-auto-import/vite\";\n\
                    import Components from \"unplugin-vue-components/vite\";\n\
                    import { AntDesignVueResolver } from \"unplugin-vue-components/resolvers\";\n\
                    \n\
                    \n\
                    export default defineConfig({\n  base: './',\n\n  plugins: [AutoImport({resolvers: [AntDesignVueResolver()]}), Components({resolvers: [AntDesignVueResolver()]})],})\n";
    assert_eq!(out, expected);
}

#[test]
fn an_empty_object_gets_the_array() {
    let out = patch(Library::ElementPlus, "export default defineConfig ( { } )").unwrap().unwrap();
    assert!(out.ends_with(&format!(
        "export default defineConfig ( {{ \n  plugins: [{}],}} )",
        ELEMENT_PLUS_ENTRIES
    )));
    let out = patch(Library::ElementPlus, "export default defineConfig({})").unwrap().unwrap();
    assert!(out.ends_with(&format!(
        "export default defineConfig({{\n  plugins: [{}],}})",
        ELEMENT_PLUS_ENTRIES
    )));
}

#[test]
fn an_object_with_a_property_gets_a_comma_first() {
    let out = patch(Library::ElementPlus, "defineConfig({ base: './' })").unwrap().unwrap();
    assert!(out.ends_with(&format!(
        "defineConfig({{ base: './' ,\n  plugins: [{}],}})",
        ELEMENT_PLUS_ENTRIES
    )));
    let out = patch(Library::ElementPlus, "defineConfig({base:1})").unwrap().unwrap();
    assert!(out.ends_with(&format!(
        "defineConfig({{base:1,\n  plugins: [{}],}})",
        ELEMENT_PLUS_ENTRIES
    )));
}

#[test]
fn an_object_that_ends_in_a_comma_gets_no_second_one() {
    for body in [" base: './', ", "base:1,", "\n  base: './',\n", "a: 1,\u{a0}\n", ","] {
        let source = format!("defineConfig({{{}}})", body);
        let out = patch(Library::ElementPlus, &source).unwrap().unwrap();
        assert!(out.ends_with(&format!(
            "defineConfig({{{}\n  plugins: [{}],}})",
            body, ELEMENT_PLUS_ENTRIES
        )));
    }
}

#[test]
fn a_comma_counts_at_the_end_only() {
    assert!(ends_with_comma(b","));
    assert!(ends_with_comma(b"a, "));
    assert!(ends_with_comma(b"a,b,\n\t"));
    assert!(ends_with_comma("a,\u{3000}".as_bytes()));
    assert!(!ends_with_comma(b""));
    assert!(!ends_with_comma(b" "));
    assert!(!ends_with_comma(b"a,b"));
    assert!(!ends_with_comma(b", a"));
    assert!(!ends_with_comma("a,\u{200b}".as_bytes()));
}

#[test]
fn text_goes_in_at_its_offset() {
    assert_eq!(text(splice(b"abcd", 0, b"XY")), "XYabcd");
    assert_eq!(text(splice(b"abcd", 2, b"XY")), "abXYcd");
    assert_eq!(text(splice(b"abcd", 4, b"XY")), "abcdXY");
    assert_eq!(text(splice(b"abcd", 2, b"")), "abcd");
    assert_eq!(text(splice(b"", 0, b"XY")), "XY");
}

#[test]
fn a_match_that_ends_in_a_range_splits_it() {
    let inside = Capture { whole: span(0, 9), group: span(2, 5) };
    assert!(splits_range(&Some(inside), &None, 4, 6));
    assert!(splits_range(&None, &Some(inside), 4, 6));
    assert!(!splits_range(&Some(inside), &None, 5, 9));
    assert!(!splits_range(&Some(inside), &None, 0, 5));
    assert!(!splits_range(&Some(inside), &None, 6, 9));
    assert!(!splits_range(&None, &None, 0, 9));
    let other = Capture { whole: span(0, 9), group: span(2, 8) };
    assert!(splits_range(&Some(inside), &Some(other), 4, 6));
    assert!(!splits_range(&Some(other), &Some(inside), 4, 6));
}

#[test]
fn a_text_without_array_or_call_is_refused() {
    assert_eq!(patch(Library::ElementPlus, ""), Err(ViteConfigError::UnsupportedShape));
    assert_eq!(
        patch(Library::ElementPlus, "module.exports = { base: './' }\n"),
        Err(ViteConfigError::UnsupportedShape)
    );
    assert_eq!(
        patch(Library::ElementPlus, "import x from 'x'\nexport default defineConfig(config)\n"),
        Err(ViteConfigError::UnsupportedShape)
    );
    assert_eq!(
        patch(Library::ElementPlus, "export default { plugins: [vue() }\n"),
        Err(ViteConfigError::UnsupportedShape)
    );
}

#[test]
fn a_project_that_is_not_valid_is_refused() {
    let source = b"export default defineConfig({ plugins: [] })";
    let mut project = vite_project();
    project.is_valid = false;
    assert!(matches!(
        update_vite_config(Library::ElementPlus, source, &project),
        Err(ViteConfigError::InvalidProject)
    ));
    let mut project = vite_project();
    project.vite_config_path = None;
    assert!(matches!(
        update_vite_config(Library::ElementPlus, source, &project),
        Err(ViteConfigError::InvalidProject)
    ));
    assert!(matches!(
        update_vite_config(
            Library::ElementPlus,
            b"unplugin-auto-import/vite unplugin-vue-components/vite",
            &ProjectInfo::default()
        ),
        Err(ViteConfigError::InvalidProject)
    ));
}

#[test]
fn text_beyond_ascii_passes_through() {
    let source = "// 配置\nimport vue from '@vitejs/plugin-vue' // 插件\nexport default defineConfig({ plugins: [vue() /* 组件 */] })\n";
    let out = patch(Library::ElementPlus, source).unwrap().unwrap();
    assert!(out.starts_with("// 配置\nimport vue from '@vitejs/plugin-vue'\nimport AutoImport"));
    assert!(out.contains("\"unplugin-vue-components/resolvers\";\n // 插件\n"));
    assert!(out.ends_with(&format!("plugins: [vue() /* 组件 */,{}] }})\n", ELEMENT_PLUS_ENTRIES)));
}

#[test]
fn the_import_lines_of_a_library() {
    assert_eq!(text(import_lines_of(Library::ElementPlus)), ELEMENT_PLUS_IMPORTS);
    assert_eq!(
        text(import_lines_of(Library::Vant)),
        "import AutoImport from \"unplugin-auto-import/vite\";\n\
         import Components from \"unplugin-vue-components/vite\";\n\
         import { VantResolver } from \"unplugin-vue-components/resolvers\";"
    );
}

#[test]
fn the_entries_of_a_library() {
    assert_eq!(text(registration_of(Library::ElementPlus)), ELEMENT_PLUS_ENTRIES);
    assert_eq!(
        text(registration_of(Library::NaiveUi)),
        "AutoImport({resolvers: [NaiveUiResolver()]}), Components({resolvers: [NaiveUiResolver()]})"
    );
}

#[test]
fn the_anchor_is_the_end_of_the_last_import() {
    assert_eq!(anchor_of(&Vec::new()), 0);
    assert_eq!(anchor_of(&vec![span(0, 17)]), 17);
    assert_eq!(anchor_of(&vec![span(0, 17), span(18, 40), span(52, 60)]), 60);
}

#[test]
fn imports_go_in_at_the_anchor() {
    assert_eq!(
        text(insert_imports(b"abcdef", 4, Library::ElementPlus)),
        format!("abcd\n{}\nef", ELEMENT_PLUS_IMPORTS)
    );
    assert_eq!(
        text(insert_imports(b"abcdef", 6, Library::ElementPlus)),
        format!("abcdef\n{}\n", ELEMENT_PLUS_IMPORTS)
    );
    assert_eq!(
        text(insert_imports(b"abcdef", 0, Library::ElementPlus)),
        format!("{}\n\nabcdef", ELEMENT_PLUS_IMPORTS)
    );
    assert_eq!(
        text(insert_imports(b"", 0, Library::ElementPlus)),
        format!("{}\n\n", ELEMENT_PLUS_IMPORTS)
    );
}

#[test]
fn the_entries_go_in_at_the_end_of_the_array() {
    let source = b"<<plugins : [ x ]>>";
    let array = Capture { whole: span(2, 17), group: span(13, 16) };
    assert_eq!(
        text(append_registration(source, array, Library::ElementPlus)),
        format!("<<plugins : [ x ,{}]>>", ELEMENT_PLUS_ENTRIES)
    );
    let empty = Capture { whole: span(2, 17), group: span(14, 14) };
    assert_eq!(
        text(append_registration(source, empty, Library::ElementPlus)),
        format!("<<plugins : [ {}x ]>>", ELEMENT_PLUS_ENTRIES)
    );
}

#[test]
fn the_property_goes_in_at_the_end_of_the_object() {
    let source = b"<<defineConfig ( { a: 1 } )>>";
    let call = Capture { whole: span(2, 27), group: span(18, 24) };
    assert_eq!(
        text(add_plugins_property(source, call, Library::ElementPlus)),
        format!("<<defineConfig ( {{ a: 1 ,\n  plugins: [{}],}} )>>", ELEMENT_PLUS_ENTRIES)
    );
}

#[test]
fn the_array_goes_before_the_call() {
    let source = b"defineConfig({ plugins: [] })";
    let array = Capture { whole: span(15, 26), group: span(25, 25) };
    let call = Capture { whole: span(0, 29), group: span(14, 27) };
    assert_eq!(
        text(register_plugins(source, Some(array), Some(call), Library::ElementPlus).unwrap()),
        format!("defineConfig({{ plugins: [{}] }})", ELEMENT_PLUS_ENTRIES)
    );
    assert_eq!(
        text(register_plugins(source, Some(array), None, Library::ElementPlus).unwrap()),
        format!("defineConfig({{ plugins: [{}] }})", ELEMENT_PLUS_ENTRIES)
    );
    assert_eq!(
        text(register_plugins(source, None, Some(call), Library::ElementPlus).unwrap()),
        format!("defineConfig({{ plugins: [] ,\n  plugins: [{}],}})", ELEMENT_PLUS_ENTRIES)
    );
    assert!(matches!(
        register_plugins(source, None, None, Library::ElementPlus),
        Err(ViteConfigError::UnsupportedShape)
    ));
}

#[test]
fn patching_twice_is_patching_once_on_many_texts() {
    let pieces = [
        "plugins", "plugins: [", "plugins : [ a, b ]", "]", "[", ":", "defineConfig", "defineConfig({",
        "defineConfig ( {", "})", "}", "{", "(", ")", " ", "\n", "import a from 'b'", "import", " from ",
        "'", "';", "\"", "unplugin", "-auto-import/vite", "unplugin-vue-components", "/vite", "vue()",
        ",", "export default ", "// 注释", "\u{a0}", "$1", "${x}",
    ];
    let mut state: u64 = 0x2545_f491_4f6c_dd1d;
    let mut written = 0;
    let mut refused = 0;
    let mut untouched = 0;
    for _ in 0..600 {
        let mut source = String::new();
        state = state.wrapping_mul(6364136223846793005).wrapping_add(1442695040888963407);
        let count = 1 + (state >> 33) % 12;
        for _ in 0..count {
            state = state.wrapping_mul(6364136223846793005).wrapping_add(1442695040888963407);
            source.push_str(pieces[((state >> 33) % pieces.len() as u64) as usize]);
        }
        match patch(Library::ElementPlus, &source) {
            Ok(Some(first)) => {
                written += 1;
                assert!(is_configured(first.as_bytes()), "after patching {:?}", source);
                assert_eq!(patch(Library::ElementPlus, &first), Ok(None));
                assert_eq!(first.matches(ELEMENT_PLUS_IMPORTS).count(), 1);
                assert_eq!(first.matches(ELEMENT_PLUS_ENTRIES).count(), 1);
            }
            Ok(None) => {
                untouched += 1;
                assert!(is_configured(source.as_bytes()));
            }
            Err(error) => {
                refused += 1;
                assert_eq!(error, ViteConfigError::UnsupportedShape);
                assert!(!is_configured(source.as_bytes()));
            }
        }
    }
    assert!(written > 50);
    assert!(refused > 50);
    assert_eq!(written + refused + untouched, 600);
}
