//! What a match of each of the two patterns of the plugin step looks like,
//! and why a match that looks like that never ends inside the import lines
//! that the step before has added.
//!
//! The patcher refuses a match that would split those lines. The searches
//! are the work of an engine whose workings are not known here, so the
//! patcher tests for it; this module shows that a match of either pattern
//! passes the test, whatever the text.

use crate::types::Library;
use crate::utils::pattern::Capture;
use crate::utils::text::{is_blank, lemma_blank_bytes, occurs_at};
use crate::utils::vite_config_laws::lemma_imports_stand_at;
use crate::utils::vite_config_manager::{import_lines, inserted_at, plugins_step, registered};
use crate::utils::vite_config_manager::{rewrite_site, splits, with_imports, ViteConfigError};
use crate::utils::vite_config_manager::{AUTO_IMPORT_MARKER, COMPONENTS_MARKER};
use vstd::prelude::*;
use vstd::string::StringSliceAdditionalSpecFns;
use vstd::utf8::{encode_utf8, is_ascii_chars_encode_utf8};

verus! {

/// The match `site` keeps clear of the range `from..to`: the range lies
/// before the match, after it, or in what its group matched.
pub open spec fn spares(site: Capture, from: int, to: int) -> bool {
    ||| to <= site.whole.start
    ||| site.whole.end <= from
    ||| site.group.start <= from && to <= site.group.end
}

/// `text` holds, from `from` up to `to`, white space with the one byte
/// `mark` somewhere in it.
pub open spec fn blank_around(text: Seq<u8>, from: int, to: int, mark: u8) -> bool {
    exists|at: int|
        from <= at < to && #[trigger] text[at] == mark && is_blank(text.subrange(from, at))
            && is_blank(text.subrange(at + 1, to))
}

/// `site` is a match of `PLUGINS_PATTERN` in `text`: the word `plugins`,
/// white space with a colon in it, an opening bracket, what the group
/// matched, which holds no closing bracket, and a closing bracket.
pub open spec fn is_plugins_array(text: Seq<u8>, site: Capture) -> bool {
    let word = "plugins".spec_bytes();
    let after_word = site.whole.start + word.len();
    &&& site.within(text.len())
    &&& occurs_at(text, word, site.whole.start as int)
    &&& after_word < site.group.start
    &&& blank_around(text, after_word, site.group.start - 1, 0x3a)
    &&& text[site.group.start - 1] == 0x5b
    &&& forall|i: int| site.group.start <= i < site.group.end ==> text[i] != 0x5d
    &&& site.group.end < text.len()
    &&& text[site.group.end as int] == 0x5d
    &&& site.whole.end == site.group.end + 1
}

/// `site` is a match of `DEFINE_CONFIG_PATTERN` in `text`: the word
/// `defineConfig`, white space with an opening parenthesis in it, an
/// opening brace, what the group matched, which holds no closing brace, a
/// closing brace, white space, and a closing parenthesis.
pub open spec fn is_define_config_call(text: Seq<u8>, site: Capture) -> bool {
    let word = "defineConfig".spec_bytes();
    let after_word = site.whole.start + word.len();
    &&& site.within(text.len())
    &&& occurs_at(text, word, site.whole.start as int)
    &&& after_word < site.group.start
    &&& blank_around(text, after_word, site.group.start - 1, 0x28)
    &&& text[site.group.start - 1] == 0x7b
    &&& forall|i: int| site.group.start <= i < site.group.end ==> text[i] != 0x7d
    &&& site.group.end < site.whole.end
    &&& text[site.group.end as int] == 0x7d
    &&& is_blank(text.subrange(site.group.end + 1, site.whole.end - 1))
    &&& text[site.whole.end - 1] == 0x29
}

/// A byte of a word or a name, or a mark that an import statement is made
/// of: printable ASCII that is no bracket, no parenthesis and no colon.
pub open spec fn is_plain(byte: u8) -> bool {
    0x20 <= byte < 0x80 && byte != 0x28 && byte != 0x29 && byte != 0x5b && byte != 0x5d && byte
        != 0x3a || byte == 0x0a
}

/// Every byte of `text` is plain.
pub open spec fn all_plain(text: Seq<u8>) -> bool {
    forall|i: int| 0 <= i < text.len() ==> is_plain(#[trigger] text[i])
}

/// The fixed parts of the import lines are plain; the first begins with
/// `i`.
proof fn lemma_fixed_parts()
    ensures
        all_plain("import AutoImport from \"".spec_bytes()),
        "import AutoImport from \"".spec_bytes().len() > 0,
        "import AutoImport from \"".spec_bytes()[0] == 0x69,
        all_plain(AUTO_IMPORT_MARKER.spec_bytes()),
        all_plain("\";\nimport Components from \"".spec_bytes()),
        all_plain(COMPONENTS_MARKER.spec_bytes()),
        all_plain("\";\n".spec_bytes()),
{
    reveal_strlit("import AutoImport from \"");
    reveal_strlit("unplugin-auto-import/vite");
    reveal_strlit("\";\nimport Components from \"");
    reveal_strlit("unplugin-vue-components/vite");
    reveal_strlit("\";\n");
    let a = "import AutoImport from \""@;
    let b = "unplugin-auto-import/vite"@;
    let c = "\";\nimport Components from \""@;
    let d = "unplugin-vue-components/vite"@;
    let e = "\";\n"@;
    assert(forall|i: int| 0 <= i < a.len() ==> is_plain(#[trigger] a[i] as u8) && a[i] <= '\u{7f}');
    assert(forall|i: int| 0 <= i < b.len() ==> is_plain(#[trigger] b[i] as u8) && b[i] <= '\u{7f}');
    assert(forall|i: int| 0 <= i < c.len() ==> is_plain(#[trigger] c[i] as u8) && c[i] <= '\u{7f}');
    assert(forall|i: int| 0 <= i < d.len() ==> is_plain(#[trigger] d[i] as u8) && d[i] <= '\u{7f}');
    assert(forall|i: int| 0 <= i < e.len() ==> is_plain(#[trigger] e[i] as u8) && e[i] <= '\u{7f}');
    is_ascii_chars_encode_utf8(a);
    is_ascii_chars_encode_utf8(b);
    is_ascii_chars_encode_utf8(c);
    is_ascii_chars_encode_utf8(d);
    is_ascii_chars_encode_utf8(e);
    assert(a[0] == 'i');
}

/// The statement that imports a resolver is plain and ends with a
/// semicolon.
proof fn lemma_resolver_import(library: Library)
    ensures
        all_plain(encode_utf8(library.resolver_import())),
        encode_utf8(library.resolver_import()).len() > 0,
        encode_utf8(library.resolver_import()).last() == 0x3b,
{
    reveal_strlit("import { ElementPlusResolver } from \"unplugin-vue-components/resolvers\";");
    reveal_strlit("import { AntDesignVueResolver } from \"unplugin-vue-components/resolvers\";");
    reveal_strlit("import { NaiveUiResolver } from \"unplugin-vue-components/resolvers\";");
    reveal_strlit("import { VantResolver } from \"unplugin-vue-components/resolvers\";");
    let r = library.resolver_import();
    assert(forall|i: int| 0 <= i < r.len() ==> is_plain(#[trigger] r[i] as u8) && r[i] <= '\u{7f}');
    is_ascii_chars_encode_utf8(r);
    assert(r[r.len() - 1] == ';');
}

/// Plain texts put together are plain.
proof fn lemma_plain_together(one: Seq<u8>, other: Seq<u8>)
    requires
        all_plain(one),
        all_plain(other),
    ensures
        all_plain(one + other),
{
}

/// The import lines are plain, begin with `i` and end with a semicolon.
pub proof fn lemma_import_lines_are_plain(library: Library)
    ensures
        all_plain(import_lines(library)),
        import_lines(library).len() > 0,
        import_lines(library)[0] == 0x69,
        import_lines(library).last() == 0x3b,
{
    lemma_fixed_parts();
    lemma_resolver_import(library);
    let a = "import AutoImport from \"".spec_bytes();
    let b = AUTO_IMPORT_MARKER.spec_bytes();
    let c = "\";\nimport Components from \"".spec_bytes();
    let d = COMPONENTS_MARKER.spec_bytes();
    let e = "\";\n".spec_bytes();
    let r = encode_utf8(library.resolver_import());
    lemma_plain_together(a, b);
    lemma_plain_together(a + b, c);
    lemma_plain_together(a + b + c, d);
    lemma_plain_together(a + b + c + d, e);
    lemma_plain_together(a + b + c + d + e, r);
}

/// The two words that the patterns begin with are made of letters.
proof fn lemma_words()
    ensures
        "plugins".spec_bytes().len() == 7,
        "defineConfig".spec_bytes().len() == 12,
        forall|i: int| 0 <= i < 7 ==> (#[trigger] "plugins".spec_bytes()[i]) != 0x3b,
        forall|i: int| 0 <= i < 12 ==> (#[trigger] "defineConfig".spec_bytes()[i]) != 0x3b,
{
    reveal_strlit("plugins");
    reveal_strlit("defineConfig");
    let p = "plugins"@;
    let d = "defineConfig"@;
    assert(forall|i: int| 0 <= i < p.len() ==> (#[trigger] p[i]) != ';' && p[i] <= '\u{7f}');
    assert(forall|i: int| 0 <= i < d.len() ==> (#[trigger] d[i]) != ';' && d[i] <= '\u{7f}');
    is_ascii_chars_encode_utf8(p);
    is_ascii_chars_encode_utf8(d);
}

/// In white space with one mark in it, no byte is a semicolon or the
/// letter `i`, given that the mark is neither.
proof fn lemma_blank_around(text: Seq<u8>, from: int, to: int, mark: u8, at: int)
    requires
        0 <= from <= at < to <= text.len(),
        blank_around(text, from, to, mark),
        mark != 0x3b,
        mark != 0x69,
    ensures
        text[at] != 0x3b,
        text[at] != 0x69,
{
    let mid = choose|mid: int|
        from <= mid < to && #[trigger] text[mid] == mark && is_blank(text.subrange(from, mid))
            && is_blank(text.subrange(mid + 1, to));
    lemma_blank_bytes(text.subrange(from, mid));
    lemma_blank_bytes(text.subrange(mid + 1, to));
    if at < mid {
        assert(text.subrange(from, mid)[at - from] == text[at]);
    } else if at > mid {
        assert(text.subrange(mid + 1, to)[at - mid - 1] == text[at]);
    }
}

/// A match of either pattern spares a range of plain text that begins
/// with `i` and ends with a semicolon: such a range lies before the match,
/// after it, or in what its group matched.
pub proof fn lemma_shaped_site_spares_plain_range(text: Seq<u8>, site: Capture, from: int, to: int)
    requires
        0 <= from < to <= text.len(),
        all_plain(text.subrange(from, to)),
        text[from] == 0x69,
        text[to - 1] == 0x3b,
        is_plugins_array(text, site) || is_define_config_call(text, site),
    ensures
        spares(site, from, to),
{
    lemma_words();
    let start = site.whole.start as int;
    let open = site.group.start - 1;
    let close = site.group.end as int;
    let end = site.whole.end as int;
    assert forall|i: int| from <= i < to implies is_plain(#[trigger] text[i]) by {
        assert(text.subrange(from, to)[i - from] == text[i]);
    }
    if is_plugins_array(text, site) {
        if from <= open < to {
            assert(is_plain(text[open]));
        }
        if from <= close < to {
            assert(is_plain(text[close]));
        }
        if to <= open && to > start {
            let last = to - 1;
            if last < start + 7 {
                assert(text.subrange(start, start + 7)[last - start] == text[last]);
            } else {
                lemma_blank_around(text, start + 7, open, 0x3a, last);
            }
        }
    } else {
        let paren = choose|at: int|
            start + 12 <= at < open && #[trigger] text[at] == 0x28 && is_blank(
                text.subrange(start + 12, at),
            ) && is_blank(text.subrange(at + 1, open));
        if from <= paren < to {
            assert(is_plain(text[paren]));
        }
        if from <= end - 1 < to {
            assert(is_plain(text[end - 1]));
        }
        if to <= paren {
            if to > start {
                let last = to - 1;
                if last < start + 12 {
                    assert(text.subrange(start, start + 12)[last - start] == text[last]);
                } else {
                    lemma_blank_around(text, start + 12, open, 0x28, last);
                }
            }
        } else if from > paren && to <= end - 1 {
            if from < open {
                lemma_blank_around(text, start + 12, open, 0x28, from);
            }
            let last = to - 1;
            if last > close {
                lemma_blank_bytes(text.subrange(close + 1, end - 1));
                assert(text.subrange(close + 1, end - 1)[last - close - 1] == text[last]);
            }
        }
    }
}

/// A match of either pattern, found in a text that got its imports at
/// `anchor`, does not split the import lines that were added.
pub proof fn lemma_shaped_site_is_not_refused(
    content: Seq<u8>,
    anchor: int,
    site: Capture,
    library: Library,
)
    requires
        0 <= anchor <= content.len(),
        is_plugins_array(with_imports(content, anchor, library), site) || is_define_config_call(
            with_imports(content, anchor, library),
            site,
        ),
    ensures
        site.within(with_imports(content, anchor, library).len()),
        !splits(site, inserted_at(anchor), inserted_at(anchor) + import_lines(library).len()),
{
    let text = with_imports(content, anchor, library);
    let lines = import_lines(library);
    let from = inserted_at(anchor);
    let to = from + lines.len();
    lemma_imports_stand_at(content, anchor, library);
    lemma_import_lines_are_plain(library);
    assert(text[from] == lines[0]) by {
        assert(text.subrange(from, to)[0] == text[from]);
    }
    assert(text[to - 1] == lines.last()) by {
        assert(text.subrange(from, to)[lines.len() - 1] == text[to - 1]);
    }
    lemma_shaped_site_spares_plain_range(text, site, from, to);
}

/// The search for the match to register at finds what its pattern
/// describes: a `plugins` array that is one or, where none is found, a call
/// of `defineConfig` that is one.
pub open spec fn site_fits_pattern(text: Seq<u8>) -> bool {
    match rewrite_site(text) {
        Ok((Some(array), _)) => is_plugins_array(text, array),
        Ok((None, Some(call))) => is_define_config_call(text, call),
        _ => true,
    }
}

/// Where the search finds what its pattern describes, the plugin step
/// refuses nothing that was found: it fails only where a pattern does not
/// compile or neither pattern matches.
pub proof fn lemma_fitting_site_is_registered(
    content: Seq<u8>,
    anchor: int,
    library: Library,
)
    requires
        0 <= anchor <= content.len(),
        site_fits_pattern(with_imports(content, anchor, library)),
    ensures
        ({
            let text = with_imports(content, anchor, library);
            plugins_step(text, anchor, library) == match rewrite_site(text) {
                Err(error) => Err::<Seq<u8>, ViteConfigError>(error),
                Ok((array, call)) => registered(text, array, call, library),
            }
        }),
{
    let text = with_imports(content, anchor, library);
    match rewrite_site(text) {
        Ok((Some(array), _)) => {
            lemma_shaped_site_is_not_refused(content, anchor, array, library);
        },
        Ok((None, Some(call))) => {
            lemma_shaped_site_is_not_refused(content, anchor, call, library);
        },
        _ => {},
    }
}

} // verus!
