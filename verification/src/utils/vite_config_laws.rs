//! What holds of the patcher of the Vite configuration file, whatever the
//! text it is given: a configured text is left alone, patching twice is
//! patching once, the new imports follow the last import, and the new
//! entries follow the entries that the array held.

use crate::types::{Library, ProjectView};
use crate::utils::pattern::{in_order, pattern_matches, Capture, Span};
use crate::utils::text::{contains, is_blank, lemma_occurs_in_middle, occurs_at};
use crate::utils::vite_config_manager::{already_configured, array_addition, either_splits};
use crate::utils::vite_config_manager::{ends_in_comma, import_anchor, import_lines, inserted_at};
use crate::utils::vite_config_manager::{object_addition, patched, registered, registration};
use crate::utils::vite_config_manager::{rewrite_site, spliced, with_imports};
use crate::utils::vite_config_manager::{with_plugins_property, with_registration};
use crate::utils::vite_config_manager::{ViteConfigError, AUTO_IMPORT_MARKER, COMPONENTS_MARKER};
use crate::utils::vite_config_manager::IMPORT_PATTERN;
use vstd::prelude::*;
use vstd::string::StringSliceAdditionalSpecFns;
use vstd::utf8::encode_utf8;

verus! {

/// The file as it stands after a run of the patcher: the new text where the
/// run wrote one, the old text where it wrote nothing or failed.
pub open spec fn file_after(library: Library, content: Seq<u8>, project: ProjectView) -> Seq<u8> {
    match patched(library, content, project) {
        Ok(Some(text)) => text,
        _ => content,
    }
}

/// The searches on `content` gave ranges of the text that was searched:
/// what the searches are trusted to give, and all that is taken of them.
pub open spec fn searches_stay_in_text(library: Library, content: Seq<u8>) -> bool {
    match pattern_matches(IMPORT_PATTERN@, content) {
        Err(_) => true,
        Ok(imports) => {
            let anchor = import_anchor(imports);
            let text = with_imports(content, anchor, library);
            &&& 0 <= anchor <= content.len()
            &&& match rewrite_site(text) {
                Ok((array, call)) => {
                    &&& array matches Some(site) ==> site.within(text.len())
                    &&& call matches Some(site) ==> site.within(text.len())
                },
                Err(_) => true,
            }
        },
    }
}

/// A text that names both plugins already is left alone: nothing is
/// written, whatever else the text holds and whatever the searches would
/// find in it.
pub proof fn lemma_configured_text_is_left_alone(
    library: Library,
    content: Seq<u8>,
    project: ProjectView,
)
    requires
        project.patchable(),
        already_configured(content),
    ensures
        patched(library, content, project) == Ok::<Option<Seq<u8>>, ViteConfigError>(None),
        file_after(library, content, project) == content,
{
}

/// The new import lines name both plugins.
pub proof fn lemma_import_lines_name_plugins(library: Library)
    ensures
        already_configured(import_lines(library)),
{
    let a = "import AutoImport from \"".spec_bytes();
    let m1 = AUTO_IMPORT_MARKER.spec_bytes();
    let b = "\";\nimport Components from \"".spec_bytes();
    let m2 = COMPONENTS_MARKER.spec_bytes();
    let c = "\";\n".spec_bytes() + encode_utf8(library.resolver_import());
    assert(occurs_at(m1, m1, 0)) by {
        assert(m1.subrange(0, m1.len() as int) =~= m1);
    }
    assert(occurs_at(m2, m2, 0)) by {
        assert(m2.subrange(0, m2.len() as int) =~= m2);
    }
    lemma_occurs_in_middle(a, m1, b + m2 + c, m1, 0);
    assert(a + m1 + (b + m2 + c) =~= import_lines(library));
    lemma_occurs_in_middle(a + m1 + b, m2, c, m2, 0);
    assert(a + m1 + b + m2 + c =~= import_lines(library));
}

/// The lines that `with_imports` adds stand in its result at
/// `inserted_at(anchor)`.
pub proof fn lemma_imports_stand_at(text: Seq<u8>, anchor: int, library: Library)
    requires
        0 <= anchor <= text.len(),
    ensures
        "\n".spec_bytes().len() == 1,
        occurs_at(with_imports(text, anchor, library), import_lines(library), inserted_at(anchor)),
{
    let lines = import_lines(library);
    let out = with_imports(text, anchor, library);
    lemma_line_feed();
    assert(out.subrange(inserted_at(anchor), inserted_at(anchor) + lines.len()) =~= lines);
}

/// A text that got its imports names both plugins, wherever they went in:
/// only the plugin step can take that away again.
pub proof fn lemma_text_with_imports_is_configured(content: Seq<u8>, anchor: int, library: Library)
    requires
        0 <= anchor <= content.len(),
    ensures
        already_configured(with_imports(content, anchor, library)),
{
    let text = with_imports(content, anchor, library);
    let lines = import_lines(library);
    let from = inserted_at(anchor);
    lemma_imports_stand_at(content, anchor, library);
    lemma_import_lines_name_plugins(library);
    let m1 = AUTO_IMPORT_MARKER.spec_bytes();
    let m2 = COMPONENTS_MARKER.spec_bytes();
    let k1 = choose|k: int| occurs_at(lines, m1, k);
    let k2 = choose|k: int| occurs_at(lines, m2, k);
    lemma_occurs_in_middle(
        text.subrange(0, from),
        lines,
        text.subrange(from + lines.len(), text.len() as int),
        m1,
        k1,
    );
    lemma_occurs_in_middle(
        text.subrange(0, from),
        lines,
        text.subrange(from + lines.len(), text.len() as int),
        m2,
        k2,
    );
    assert(text.subrange(0, from) + lines + text.subrange(from + lines.len(), text.len() as int)
        =~= text);
}

/// A word that stands in `text` clear of the offset `at` still stands in the
/// text after something was put in at `at`.
pub proof fn lemma_splice_keeps(text: Seq<u8>, at: int, added: Seq<u8>, word: Seq<u8>, k: int)
    requires
        0 <= at <= text.len(),
        occurs_at(text, word, k),
        k + word.len() <= at || at <= k,
    ensures
        contains(spliced(text, at, added), word),
{
    let out = spliced(text, at, added);
    if k + word.len() <= at {
        assert(out.subrange(k, k + word.len()) =~= text.subrange(k, k + word.len()));
        assert(occurs_at(out, word, k));
    } else {
        let moved = k + added.len();
        assert(out.subrange(moved, moved + word.len()) =~= text.subrange(k, k + word.len()));
        assert(occurs_at(out, word, moved));
    }
}

/// A text that got its imports at `anchor` and then had its plugins
/// registered at a match that does not split the lines that were added
/// names both plugins.
pub proof fn lemma_registered_text_is_configured(
    content: Seq<u8>,
    anchor: int,
    array: Option<Capture>,
    call: Option<Capture>,
    library: Library,
)
    requires
        0 <= anchor <= content.len(),
        array matches Some(site) ==> site.within(with_imports(content, anchor, library).len()),
        call matches Some(site) ==> site.within(with_imports(content, anchor, library).len()),
        !either_splits(
            array,
            call,
            inserted_at(anchor),
            inserted_at(anchor) + import_lines(library).len(),
        ),
    ensures
        registered(with_imports(content, anchor, library), array, call, library) matches Ok(text)
            ==> already_configured(text),
{
    let text = with_imports(content, anchor, library);
    let lines = import_lines(library);
    let from = inserted_at(anchor);
    let to = from + lines.len();
    lemma_imports_stand_at(content, anchor, library);
    lemma_import_lines_name_plugins(library);
    let m1 = AUTO_IMPORT_MARKER.spec_bytes();
    let m2 = COMPONENTS_MARKER.spec_bytes();
    let k1 = choose|k: int| occurs_at(lines, m1, k);
    let k2 = choose|k: int| occurs_at(lines, m2, k);
    assert(occurs_at(text, m1, from + k1)) by {
        assert(text.subrange(from + k1, from + k1 + m1.len()) =~= text.subrange(from, to).subrange(
            k1,
            k1 + m1.len(),
        ));
    }
    assert(occurs_at(text, m2, from + k2)) by {
        assert(text.subrange(from + k2, from + k2 + m2.len()) =~= text.subrange(from, to).subrange(
            k2,
            k2 + m2.len(),
        ));
    }
    match (array, call) {
        (Some(site), _) => {
            let body = text.subrange(site.group.start as int, site.group.end as int);
            let added = array_addition(body, library);
            lemma_splice_keeps(text, site.group.end as int, added, m1, from + k1);
            lemma_splice_keeps(text, site.group.end as int, added, m2, from + k2);
        },
        (None, Some(site)) => {
            let body = text.subrange(site.group.start as int, site.group.end as int);
            let added = object_addition(body, library);
            lemma_splice_keeps(text, site.group.end as int, added, m1, from + k1);
            lemma_splice_keeps(text, site.group.end as int, added, m2, from + k2);
        },
        (None, None) => {},
    }
}

/// A run that writes, writes a text that names both plugins.
pub proof fn lemma_written_text_is_configured(
    library: Library,
    content: Seq<u8>,
    project: ProjectView,
)
    requires
        searches_stay_in_text(library, content),
    ensures
        patched(library, content, project) matches Ok(Some(text)) ==> already_configured(text),
{
    match patched(library, content, project) {
        Ok(Some(text)) => {
            let imports = pattern_matches(IMPORT_PATTERN@, content)->Ok_0;
            let anchor = import_anchor(imports);
            let sites = rewrite_site(with_imports(content, anchor, library))->Ok_0;
            lemma_registered_text_is_configured(content, anchor, sites.0, sites.1, library);
        },
        _ => {},
    }
}

/// Patching twice is patching once: a second run on the file that a first
/// run left behind leaves the same file behind, and where the first run did
/// not fail, the second writes nothing.
///
/// Of the searches the law takes what they are trusted to give, that the
/// ranges they find lie in the text searched.
pub proof fn lemma_patching_twice_is_patching_once(
    library: Library,
    content: Seq<u8>,
    project: ProjectView,
)
    requires
        searches_stay_in_text(library, content),
    ensures
        file_after(library, file_after(library, content, project), project) == file_after(
            library,
            content,
            project,
        ),
        patched(library, content, project) is Ok ==> patched(
            library,
            file_after(library, content, project),
            project,
        ) == Ok::<Option<Seq<u8>>, ViteConfigError>(None),
{
    lemma_written_text_is_configured(library, content, project);
}

/// With at least one import statement found, the new import lines stand on
/// lines of their own right after the last of them: every statement found
/// stays where it was, and what came after the last one comes after the new
/// lines.
pub proof fn lemma_imports_follow_last_import(
    content: Seq<u8>,
    imports: Seq<Span>,
    library: Library,
)
    requires
        in_order(imports, content.len()),
        import_anchor(imports) > 0,
    ensures
        ({
            let anchor = import_anchor(imports);
            let lines = import_lines(library);
            let out = with_imports(content, anchor, library);
            &&& out.len() == content.len() + lines.len() + 2
            &&& out.subrange(0, anchor) == content.subrange(0, anchor)
            &&& forall|i: int|
                0 <= i < imports.len() ==> (#[trigger] imports[i]).end <= anchor && out.subrange(
                    imports[i].start as int,
                    imports[i].end as int,
                ) == content.subrange(imports[i].start as int, imports[i].end as int)
            &&& out[anchor] == 0x0au8
            &&& out.subrange(anchor + 1, anchor + 1 + lines.len()) == lines
            &&& out[anchor + 1 + lines.len()] == 0x0au8
            &&& out.subrange(anchor + 2 + lines.len(), out.len() as int) == content.subrange(
                anchor,
                content.len() as int,
            )
        }),
{
    let anchor = import_anchor(imports);
    let lines = import_lines(library);
    let out = with_imports(content, anchor, library);
    lemma_line_feed();
    assert(imports.last().within(content.len()));
    assert(out.subrange(0, anchor) =~= content.subrange(0, anchor));
    assert(out.subrange(anchor + 1, anchor + 1 + lines.len()) =~= lines);
    assert(out.subrange(anchor + 2 + lines.len(), out.len() as int) =~= content.subrange(
        anchor,
        content.len() as int,
    ));
    assert forall|i: int| 0 <= i < imports.len() implies (#[trigger] imports[i]).end <= anchor
        && out.subrange(imports[i].start as int, imports[i].end as int) == content.subrange(
        imports[i].start as int,
        imports[i].end as int,
    ) by {
        assert(imports[i].within(content.len()));
        if i < imports.len() - 1 {
            assert(imports[i].end <= imports[imports.len() - 1].start);
        }
        assert(out.subrange(imports[i].start as int, imports[i].end as int) =~= content.subrange(
            imports[i].start as int,
            imports[i].end as int,
        ));
    }
}

/// With no import statement found, the new import lines stand at the very
/// top, an empty line after them, and the whole old text after that.
pub proof fn lemma_imports_lead_without_import(content: Seq<u8>, library: Library)
    ensures
        ({
            let lines = import_lines(library);
            let size = lines.len() as int;
            let out = with_imports(content, import_anchor(Seq::empty()), library);
            &&& out.len() == content.len() + size + 2
            &&& out.subrange(0, size) == lines
            &&& out[size] == 0x0au8
            &&& out[size + 1] == 0x0au8
            &&& out.subrange(size + 2, out.len() as int) == content
        }),
{
    let lines = import_lines(library);
    let out = with_imports(content, 0, library);
    lemma_blank_line();
    assert(out.subrange(0, lines.len() as int) =~= lines);
    assert(out.subrange(lines.len() as int + 2, out.len() as int) =~= content);
}

/// What `with_imports` puts into a text at `anchor`: the import lines with
/// a line feed before and after them, or, at the top, with two after them.
pub open spec fn import_addition(anchor: int, library: Library) -> Seq<u8> {
    if anchor > 0 {
        "\n".spec_bytes() + import_lines(library) + "\n".spec_bytes()
    } else {
        import_lines(library) + "\n\n".spec_bytes()
    }
}

/// The patcher only adds: the text that a run writes is the old text with
/// the import lines put in at the anchor and the plugin entries put in at
/// the end of what the match held. Taking the two additions out again gives
/// the old text back, byte for byte (`lemma_splice_is_an_insertion`).
pub proof fn lemma_patch_only_adds(library: Library, content: Seq<u8>, project: ProjectView)
    requires
        searches_stay_in_text(library, content),
    ensures
        patched(library, content, project) matches Ok(Some(out)) ==> exists|
            anchor: int,
            at: int,
            entries: Seq<u8>,
        |
            {
                &&& 0 <= anchor <= content.len()
                &&& 0 <= at <= content.len() + import_addition(anchor, library).len()
                &&& #[trigger] spliced(
                    spliced(content, anchor, import_addition(anchor, library)),
                    at,
                    entries,
                ) == out
            },
{
    match patched(library, content, project) {
        Ok(Some(out)) => {
            let imports = pattern_matches(IMPORT_PATTERN@, content)->Ok_0;
            let anchor = import_anchor(imports);
            let text = with_imports(content, anchor, library);
            assert(text =~= spliced(content, anchor, import_addition(anchor, library)));
            let sites = rewrite_site(text)->Ok_0;
            match sites {
                (Some(site), _) => {
                    let body = text.subrange(site.group.start as int, site.group.end as int);
                    assert(out == spliced(
                        spliced(content, anchor, import_addition(anchor, library)),
                        site.group.end as int,
                        array_addition(body, library),
                    ));
                },
                (None, Some(site)) => {
                    let body = text.subrange(site.group.start as int, site.group.end as int);
                    assert(out == spliced(
                        spliced(content, anchor, import_addition(anchor, library)),
                        site.group.end as int,
                        object_addition(body, library),
                    ));
                },
                (None, None) => {},
            }
        },
        _ => {},
    }
}

/// Putting text in at an offset changes nothing else: taking out again
/// what was put in gives the old text back, byte for byte.
pub proof fn lemma_splice_is_an_insertion(text: Seq<u8>, at: int, added: Seq<u8>)
    requires
        0 <= at <= text.len(),
    ensures
        ({
            let out = spliced(text, at, added);
            &&& out.len() == text.len() + added.len()
            &&& out.subrange(0, at) == text.subrange(0, at)
            &&& out.subrange(at, at + added.len()) == added
            &&& out.subrange(at + added.len(), out.len() as int) == text.subrange(
                at,
                text.len() as int,
            )
            &&& out.subrange(0, at) + out.subrange(at + added.len(), out.len() as int) == text
        }),
{
    let out = spliced(text, at, added);
    assert(out.subrange(0, at) =~= text.subrange(0, at));
    assert(out.subrange(at, at + added.len()) =~= added);
    assert(out.subrange(at + added.len(), out.len() as int) =~= text.subrange(
        at,
        text.len() as int,
    ));
    assert(text.subrange(0, at) + text.subrange(at, text.len() as int) =~= text);
}

/// The array keeps what it held, and the new entries follow it, after a
/// comma unless it held nothing but white space; the closing bracket and
/// all the text around the array stay as they were.
pub proof fn lemma_array_keeps_entries_first(text: Seq<u8>, array: Capture, library: Library)
    requires
        array.within(text.len()),
    ensures
        ({
            let body = text.subrange(array.group.start as int, array.group.end as int);
            let out = with_registration(text, array, library);
            let end = array.group.end as int;
            let added = array_addition(body, library);
            &&& out.subrange(0, end) == text.subrange(0, end)
            &&& occurs_at(out, body, array.group.start as int)
            &&& occurs_at(out, added, end)
            &&& out.subrange(end + added.len(), out.len() as int) == text.subrange(
                end,
                text.len() as int,
            )
            &&& is_blank(body) ==> added == registration(library)
            &&& !is_blank(body) ==> added == ",".spec_bytes() + registration(library)
        }),
{
    let body = text.subrange(array.group.start as int, array.group.end as int);
    let out = with_registration(text, array, library);
    let end = array.group.end as int;
    let added = array_addition(body, library);
    lemma_splice_is_an_insertion(text, end, added);
    assert(out.subrange(array.group.start as int, end) =~= body);
    if is_blank(body) {
        assert(added =~= registration(library));
    }
}

/// The object keeps what it held, and the new property follows it, after
/// a comma unless the object held nothing but white space or what it held
/// ends in a comma; the closing brace and all the text around stay as they
/// were.
pub proof fn lemma_object_gets_one_more_property(text: Seq<u8>, call: Capture, library: Library)
    requires
        call.within(text.len()),
    ensures
        ({
            let body = text.subrange(call.group.start as int, call.group.end as int);
            let out = with_plugins_property(text, call, library);
            let end = call.group.end as int;
            let added = object_addition(body, library);
            let property = "\n  plugins: [".spec_bytes() + registration(library)
                + "],".spec_bytes();
            &&& out.subrange(0, end) == text.subrange(0, end)
            &&& occurs_at(out, body, call.group.start as int)
            &&& occurs_at(out, added, end)
            &&& out.subrange(end + added.len(), out.len() as int) == text.subrange(
                end,
                text.len() as int,
            )
            &&& is_blank(body) || ends_in_comma(body) ==> added == property
            &&& !is_blank(body) && !ends_in_comma(body) ==> added == ",".spec_bytes() + property
        }),
{
    let body = text.subrange(call.group.start as int, call.group.end as int);
    let out = with_plugins_property(text, call, library);
    let end = call.group.end as int;
    let added = object_addition(body, library);
    let property = "\n  plugins: [".spec_bytes() + registration(library) + "],".spec_bytes();
    lemma_splice_is_an_insertion(text, end, added);
    assert(out.subrange(call.group.start as int, end) =~= body);
    if is_blank(body) || ends_in_comma(body) {
        assert(added =~= property);
    } else {
        assert(added =~= ",".spec_bytes() + property);
    }
}

/// Two line feeds are two bytes.
proof fn lemma_blank_line()
    ensures
        "\n\n".spec_bytes() == seq![0x0au8, 0x0au8],
{
    reveal_strlit("\n\n");
    let chars = "\n\n"@;
    assert(chars.len() == 2);
    assert(chars.drop_first().drop_first() =~= Seq::<char>::empty());
    assert(encode_utf8(chars) =~= seq![0x0au8, 0x0au8]) by {
        reveal_with_fuel(encode_utf8, 3);
        assert(chars[0] as u32 == 0x0a);
        assert(chars.drop_first()[0] as u32 == 0x0a);
        assert(vstd::utf8::leading_byte_width_1(0x0a) == 0x0au8) by (bit_vector);
    }
}

/// A line feed is one byte.
proof fn lemma_line_feed()
    ensures
        "\n".spec_bytes() == seq![0x0au8],
{
    reveal_strlit("\n");
    let chars = "\n"@;
    assert(chars.len() == 1);
    assert(chars.drop_first() =~= Seq::<char>::empty());
    assert(encode_utf8(chars.drop_first()) =~= Seq::<u8>::empty()) by {
        reveal_with_fuel(encode_utf8, 2);
    }
    assert(encode_utf8(chars) =~= seq![0x0au8]) by {
        reveal_with_fuel(encode_utf8, 2);
        assert(chars[0] as u32 == 0x0a);
        assert(vstd::utf8::leading_byte_width_1(0x0a) == 0x0au8) by (bit_vector);
    }
}

} // verus!
