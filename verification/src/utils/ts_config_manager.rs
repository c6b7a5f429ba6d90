//! The patcher of the TypeScript configuration file.
//!
//! The file is a JSON document. Of all that it holds, the patcher reads one
//! thing, the list under `include`, and adds to it the names of the two
//! declaration files, each unless the list holds it already. The document
//! itself is a `serde_json::Value`: reading it, looking into it, adding to
//! it and printing it are the work of serde_json, one call at a time, and
//! the list that it holds under a key is all that is known of it here.

use crate::types::contains_name;
use crate::utils::declaration_generator::{declaration_file_names, declaration_names};
use vstd::prelude::*;

verus! {

/// The member of the document that lists the files to check.
pub const INCLUDE_KEY: &'static str = "include";

/// What a document holds under a key, as far as lists go. The items of a
/// list are given as texts; an item that is no text is `None`.
#[derive(Debug)]
pub enum ListField {
    /// The document has no such member.
    Absent,
    /// The member is there and is not a list.
    NotAList,
    /// The member is a list of these items.
    List(Vec<Option<String>>),
}

/// A `ListField` as a value of specifications.
pub ghost enum ListView {
    Absent,
    NotAList,
    List(Seq<Option<Seq<char>>>),
}

impl View for ListField {
    type V = ListView;

    open spec fn view(&self) -> ListView {
        match self {
            ListField::Absent => ListView::Absent,
            ListField::NotAList => ListView::NotAList,
            ListField::List(items) => ListView::List(items.deep_view()),
        }
    }
}

/// Why the TypeScript configuration could not be patched.
#[derive(Debug, Clone, Copy, PartialEq, Eq, Structural)]
pub enum TsConfigError {
    /// The text is not JSON.
    Malformed,
    /// The document is not an object, so that it has no members.
    NotAnObject,
    /// The document with the longer list could not be printed.
    Unprintable,
}

impl TsConfigError {
    /// What to tell the user.
    pub open spec fn text(self) -> Seq<char> {
        match self {
            TsConfigError::Malformed => "解析tsconfig.json失败"@,
            TsConfigError::NotAnObject => "tsconfig.json的内容不是一个对象"@,
            TsConfigError::Unprintable => "格式化tsconfig.json失败"@,
        }
    }

    /// The message of the error.
    pub fn message(&self) -> (message: String)
        ensures
            message@ == self.text(),
    {
        match self {
            TsConfigError::Malformed => "解析tsconfig.json失败".to_string(),
            TsConfigError::NotAnObject => "tsconfig.json的内容不是一个对象".to_string(),
            TsConfigError::Unprintable => "格式化tsconfig.json失败".to_string(),
        }
    }
}

/// A JSON document. Nothing of it is seen here but through the functions
/// below.
#[verifier::external_type_specification]
#[verifier::external_body]
pub struct ExValue(serde_json::Value);

/// The document that `text` spells, if it spells one.
pub uninterp spec fn document_of(text: Seq<char>) -> Option<serde_json::Value>;

/// What `document` holds under `key`: no such member, a member that is no
/// list, or a list with its items; `Err` where the document is neither an
/// object nor null and so can have no members. A null document has none.
pub uninterp spec fn held_list(document: serde_json::Value, key: Seq<char>) -> Result<
    ListView,
    TsConfigError,
>;

/// `document` holds the list `items` under `key`.
pub open spec fn holds_list(
    document: serde_json::Value,
    key: Seq<char>,
    items: Seq<Option<Seq<char>>>,
) -> bool {
    held_list(document, key) == Ok::<ListView, TsConfigError>(ListView::List(items))
}

/// `document` with an empty list as its member `key`.
pub uninterp spec fn with_empty_list(document: serde_json::Value, key: Seq<char>) -> serde_json::Value;

/// `document` with the text `item` added to the end of the list that is
/// its member `key`.
pub uninterp spec fn with_item(
    document: serde_json::Value,
    key: Seq<char>,
    item: Seq<char>,
) -> serde_json::Value;

/// `document` pretty-printed, if it can be printed.
pub uninterp spec fn printed(document: serde_json::Value) -> Option<Seq<char>>;

/// Calls `serde_json::from_str` for a `serde_json::Value`.
///
/// Trusted: the document is a function of the text (the name
/// `document_of`).
#[verifier::external_body]
pub(crate) fn parse_document(text: &str) -> (document: Option<serde_json::Value>)
    ensures
        document == document_of(text@),
{
    serde_json::from_str(text).ok()
}

/// Tells the variants of `serde_json::Value` apart and looks up `key` with
/// `Map::get`; a list is read with `Value::as_array`, and each item with
/// `Value::as_str`.
///
/// Trusted: the result is a function of the document and the key (the
/// name `held_list`).
#[verifier::external_body]
pub(crate) fn list_of(document: &serde_json::Value, key: &str) -> (field: Result<
    ListField,
    TsConfigError,
>)
    ensures
        match field {
            Ok(list) => held_list(*document, key@) == Ok::<ListView, TsConfigError>(list@),
            Err(error) => held_list(*document, key@) == Err::<ListView, TsConfigError>(error),
        },
{
    match document {
        serde_json::Value::Null => Ok(ListField::Absent),
        serde_json::Value::Object(members) => Ok(match members.get(key).map(|m| m.as_array()) {
            None => ListField::Absent,
            Some(None) => ListField::NotAList,
            Some(Some(items)) => ListField::List(
                items.iter().map(|item| item.as_str().map(String::from)).collect(),
            ),
        }),
        _ => Err(TsConfigError::NotAnObject),
    }
}

/// Assigns an empty array to `document[key]`, through the `IndexMut` of
/// `serde_json::Value`, which makes an empty object of a null document
/// first.
///
/// Trusted: the new document is a function of the old one and the key (the
/// name `with_empty_list`), and it holds an empty list under `key`. Asked
/// of the caller: the document is an object or null, as `IndexMut` panics
/// on any other.
#[verifier::external_body]
pub(crate) fn put_empty_list(document: &mut serde_json::Value, key: &str)
    requires
        held_list(*old(document), key@) is Ok,
    ensures
        *final(document) == with_empty_list(*old(document), key@),
        holds_list(*final(document), key@, Seq::empty()),
{
    document[key] = serde_json::Value::Array(Vec::new());
}

/// Pushes `item` as a `Value::String` onto the array that `Value::get_mut`
/// and `Value::as_array_mut` find under `key`.
///
/// Trusted: the new document is a function of the old one, the key and the
/// item (the name `with_item`), and where it held a list under `key`, it
/// holds that list with the item at its end.
#[verifier::external_body]
pub(crate) fn push_text(document: &mut serde_json::Value, key: &str, item: &str)
    ensures
        *final(document) == with_item(*old(document), key@, item@),
        held_list(*old(document), key@) matches Ok(ListView::List(items)) ==> holds_list(
            *final(document),
            key@,
            items.push(Some(item@)),
        ),
{
    if let Some(list) = document.get_mut(key).and_then(|member| member.as_array_mut()) {
        list.push(serde_json::Value::String(item.to_owned()));
    }
}

/// Calls `serde_json::to_string_pretty`.
///
/// Trusted: the text is a function of the document (the name `printed`).
#[verifier::external_body]
pub(crate) fn print_document(document: &serde_json::Value) -> (text: Option<String>)
    ensures
        text.deep_view() == printed(*document),
{
    serde_json::to_string_pretty(document).ok()
}

/// Of `names`, in their order, those that `items` does not hold as a text;
/// a name that comes twice is taken once.
pub open spec fn missing(items: Seq<Option<Seq<char>>>, names: Seq<Seq<char>>) -> Seq<Seq<char>>
    decreases names.len(),
{
    if names.len() == 0 {
        Seq::empty()
    } else {
        let before = missing(items, names.drop_last());
        if items.contains(Some(names.last())) || before.contains(names.last()) {
            before
        } else {
            before.push(names.last())
        }
    }
}

/// Names as items of a list.
pub open spec fn as_items(names: Seq<Seq<char>>) -> Seq<Option<Seq<char>>> {
    Seq::new(names.len(), |i: int| Some(names[i]))
}

/// The list `items` after each of `names` that it did not hold was added
/// to its end.
pub open spec fn merged(items: Seq<Option<Seq<char>>>, names: Seq<Seq<char>>) -> Seq<
    Option<Seq<char>>,
> {
    items + as_items(missing(items, names))
}

/// The names to add to the list of a document: those of the declaration
/// files that the list does not hold, all of them where the document has no
/// list yet, and none where it holds something else in the list's place.
pub open spec fn to_include(field: ListView) -> Seq<Seq<char>> {
    match field {
        ListView::Absent => missing(Seq::empty(), declaration_names()),
        ListView::NotAList => Seq::empty(),
        ListView::List(items) => missing(items, declaration_names()),
    }
}

/// `document` with the texts `names` added, one after the other, to the
/// end of the list that is its member `key`.
pub open spec fn with_items(
    document: serde_json::Value,
    key: Seq<char>,
    names: Seq<Seq<char>>,
) -> serde_json::Value
    decreases names.len(),
{
    if names.len() == 0 {
        document
    } else {
        with_item(with_items(document, key, names.drop_last()), key, names.last())
    }
}

/// The items of a list, or none for what is no list.
pub open spec fn items_of(field: ListView) -> Seq<Option<Seq<char>>> {
    match field {
        ListView::List(items) => items,
        _ => Seq::empty(),
    }
}

/// What a document holds in the list's place after the patch, given what
/// it held before: the same where there is nothing to add, else the list
/// it held, or an empty one, with what was missing at its end.
pub open spec fn list_after(field: ListView) -> ListView {
    if to_include(field).len() == 0 {
        field
    } else {
        ListView::List(items_of(field) + as_items(to_include(field)))
    }
}

/// The document after the patch: with the names that its list lacks added
/// to that list, an empty list being put in first where it has none.
pub open spec fn included(document: serde_json::Value) -> serde_json::Value {
    match held_list(document, INCLUDE_KEY@) {
        Err(_) => document,
        Ok(field) => if to_include(field).len() == 0 {
            document
        } else if field is Absent {
            with_items(with_empty_list(document, INCLUDE_KEY@), INCLUDE_KEY@, to_include(field))
        } else {
            with_items(document, INCLUDE_KEY@, to_include(field))
        },
    }
}

/// What patching makes of the configuration text `content`, which is `None`
/// where the project has no TypeScript configuration: the new text, or
/// `None` where nothing is to be written.
pub open spec fn patched(content: Option<Seq<char>>) -> Result<Option<Seq<char>>, TsConfigError> {
    match content {
        None => Ok(None),
        Some(text) => match document_of(text) {
            None => Err(TsConfigError::Malformed),
            Some(document) => match held_list(document, INCLUDE_KEY@) {
                Err(error) => Err(error),
                Ok(field) => if to_include(field).len() == 0 {
                    Ok(None)
                } else {
                    match printed(included(document)) {
                        Some(text) => Ok(Some(text)),
                        None => Err(TsConfigError::Unprintable),
                    }
                },
            },
        },
    }
}

/// What `missing` picks: names out of `names` that `items` does not hold,
/// none of them twice, and every such name.
pub proof fn lemma_missing(items: Seq<Option<Seq<char>>>, names: Seq<Seq<char>>)
    ensures
        missing(items, names).no_duplicates(),
        forall|name: Seq<char>| #[trigger]
            missing(items, names).contains(name) <==> names.contains(name) && !items.contains(
                Some(name),
            ),
    decreases names.len(),
{
    if names.len() > 0 {
        let rest = names.drop_last();
        let last = names.last();
        lemma_missing(items, rest);
        let before = missing(items, rest);
        let all = missing(items, names);
        assert forall|name: Seq<char>| #[trigger]
            all.contains(name) <==> names.contains(name) && !items.contains(Some(name)) by {
            if names.contains(name) {
                let k = choose|k: int| 0 <= k < names.len() && names[k] == name;
                if k < names.len() - 1 {
                    assert(rest[k] == name);
                }
            }
            if rest.contains(name) {
                let k = choose|k: int| 0 <= k < rest.len() && rest[k] == name;
                assert(names[k] == name);
            }
            assert(names[names.len() - 1] == last);
            if all.contains(name) && !before.contains(name) {
                let k = choose|k: int| 0 <= k < all.len() && all[k] == name;
                assert(k == before.len());
            }
            if before.contains(name) {
                let k = choose|k: int| 0 <= k < before.len() && before[k] == name;
                assert(all[k] == name);
            }
            if all != before {
                assert(all[before.len() as int] == last);
            }
        }
    }
}

/// Set semantics of the list: after the merge the list begins with what it
/// held before, in the same order; it holds every one of `names`; it holds
/// nothing but what it held and `names`; what was added stands in it once;
/// and a second merge adds nothing.
pub proof fn lemma_merged_is_union(items: Seq<Option<Seq<char>>>, names: Seq<Seq<char>>)
    ensures
        merged(items, names).subrange(0, items.len() as int) == items,
        forall|k: int| 0 <= k < names.len() ==> merged(items, names).contains(Some(#[trigger] names[k])),
        forall|j: int|
            0 <= j < merged(items, names).len() ==> items.contains(
                #[trigger] merged(items, names)[j],
            ) || exists|k: int| 0 <= k < names.len() && merged(items, names)[j] == Some(names[k]),
        forall|i: int, j: int|
            items.len() <= i < merged(items, names).len() && 0 <= j < merged(items, names).len()
                && i != j ==> merged(items, names)[i] != merged(items, names)[j],
        items.no_duplicates() ==> merged(items, names).no_duplicates(),
        missing(merged(items, names), names) == Seq::<Seq<char>>::empty(),
        merged(merged(items, names), names) == merged(items, names),
{
    let added = missing(items, names);
    let out = merged(items, names);
    lemma_missing(items, names);
    assert(out.subrange(0, items.len() as int) =~= items);
    assert forall|k: int| 0 <= k < names.len() implies out.contains(Some(#[trigger] names[k])) by {
        let name = names[k];
        if items.contains(Some(name)) {
            let j = choose|j: int| 0 <= j < items.len() && items[j] == Some(name);
            assert(out[j] == Some(name));
        } else {
            assert(names.contains(name));
            assert(added.contains(name));
            let j = choose|j: int| 0 <= j < added.len() && added[j] == name;
            assert(out[items.len() + j] == Some(name));
        }
    }
    assert forall|j: int| 0 <= j < out.len() implies items.contains(#[trigger] out[j]) || exists|
        k: int,
    |
        0 <= k < names.len() && out[j] == Some(names[k]) by {
        if j < items.len() {
            assert(items[j] == out[j]);
        } else {
            let name = added[j - items.len()];
            assert(added.contains(name));
            assert(names.contains(name));
            let k = choose|k: int| 0 <= k < names.len() && names[k] == name;
            assert(out[j] == Some(names[k]));
        }
    }
    assert forall|i: int, j: int|
        items.len() <= i < out.len() && 0 <= j < out.len() && i != j implies out[i] != out[j] by {
        let name = added[i - items.len()];
        assert(added.contains(name));
        if j < items.len() {
            assert(items[j] == out[j]);
            if out[j] == Some(name) {
                assert(items.contains(Some(name)));
            }
        } else {
            assert(added[i - items.len()] != added[j - items.len()]);
        }
    }
    if items.no_duplicates() {
        assert forall|i: int, j: int| 0 <= i < out.len() && 0 <= j < out.len() && i != j implies out[i]
            != out[j] by {
            if i < items.len() && j < items.len() {
                assert(items[i] != items[j]);
            }
        }
    }
    lemma_missing(out, names);
    assert forall|name: Seq<char>| !(#[trigger] missing(out, names).contains(name)) by {
        if names.contains(name) {
            let k = choose|k: int| 0 <= k < names.len() && names[k] == name;
            assert(out.contains(Some(names[k])));
        }
    }
    if missing(out, names).len() > 0 {
        assert(missing(out, names).contains(missing(out, names)[0]));
    }
    assert(missing(out, names) =~= Seq::<Seq<char>>::empty());
    assert(merged(out, names) =~= out);
}

/// A document without a list and a document with an empty list get the
/// names of both declaration files, in their order.
pub proof fn lemma_empty_list_gets_both_names()
    ensures
        to_include(ListView::Absent) == declaration_names(),
        to_include(ListView::List(Seq::empty())) == declaration_names(),
        merged(Seq::empty(), declaration_names()) == as_items(declaration_names()),
{
    reveal_strlit("components.d.ts");
    reveal_strlit("auto-imports.d.ts");
    let names = declaration_names();
    let none = Seq::<Option<Seq<char>>>::empty();
    assert(names[0].len() != names[1].len());
    assert(names.drop_last() =~= seq![names[0]]);
    assert(names.drop_last().drop_last() =~= Seq::<Seq<char>>::empty());
    reveal_with_fuel(missing, 3);
    assert(missing(none, names.drop_last()) =~= seq![names[0]]);
    assert(missing(none, names) =~= names);
    assert(merged(none, names) =~= as_items(names));
}

/// A second patch adds nothing: what a document holds in the list's place
/// after the patch lacks none of the names.
pub proof fn lemma_second_patch_adds_nothing(field: ListView)
    ensures
        to_include(list_after(field)) == Seq::<Seq<char>>::empty(),
        list_after(list_after(field)) == list_after(field),
{
    if to_include(field).len() == 0 {
        assert(to_include(field) =~= Seq::<Seq<char>>::empty());
    } else {
        lemma_merged_is_union(items_of(field), declaration_names());
    }
}

/// Whether the list holds `name` as a text.
pub fn holds_text(items: &Vec<Option<String>>, name: &String) -> (held: bool)
    ensures
        held == items.deep_view().contains(Some(name@)),
{
    let mut i: usize = 0;
    while i < items.len()
        invariant
            i <= items@.len(),
            forall|k: int| 0 <= k < i ==> items.deep_view()[k] != Some(name@),
        decreases items@.len() - i,
    {
        let same = match &items[i] {
            Some(text) => *text == *name,
            None => false,
        };
        if same {
            assert(items.deep_view()[i as int] == Some(name@));
            return true;
        }
        i += 1;
    }
    false
}

/// Of `names`, in their order, those that `items` does not hold as a text.
pub fn missing_names(items: &Vec<Option<String>>, names: &Vec<String>) -> (added: Vec<String>)
    ensures
        added.deep_view() == missing(items.deep_view(), names.deep_view()),
{
    let mut added: Vec<String> = Vec::new();
    let mut k: usize = 0;
    assert(names.deep_view().take(0) =~= Seq::empty());
    while k < names.len()
        invariant
            k <= names@.len(),
            added.deep_view() == missing(items.deep_view(), names.deep_view().take(k as int)),
        decreases names@.len() - k,
    {
        let ghost before = added.deep_view();
        let ghost prefix = names.deep_view().take(k + 1);
        assert(prefix.drop_last() =~= names.deep_view().take(k as int));
        assert(prefix.last() == names@[k as int]@);
        if !holds_text(items, &names[k]) && !contains_name(&added, names[k].as_str()) {
            let name = names[k].clone();
            added.push(name);
            assert(added.deep_view() =~= before.push(name@));
        }
        k += 1;
    }
    assert(names.deep_view().take(k as int) =~= names.deep_view());
    added
}

/// The names to add to the list of a document, given what the document
/// holds in the list's place.
pub fn declarations_to_include(field: &ListField) -> (names: Vec<String>)
    ensures
        names.deep_view() == to_include(field@),
{
    let wanted = declaration_file_names();
    match field {
        ListField::Absent => {
            let none: Vec<Option<String>> = Vec::new();
            assert(none.deep_view() =~= Seq::empty());
            missing_names(&none, &wanted)
        },
        ListField::NotAList => {
            let names: Vec<String> = Vec::new();
            assert(names.deep_view() =~= Seq::empty());
            names
        },
        ListField::List(items) => missing_names(items, &wanted),
    }
}

/// Adds to the `include` list of `document` the names of the declaration
/// files that it lacks, putting an empty list in first where the document
/// has none, and tells whether anything was added. The list afterwards is
/// the list before with what was missing at its end; a document that holds
/// something else under `include` is left as it is, and one that can have
/// no members is refused.
pub fn include_declarations(document: &mut serde_json::Value) -> (changed: Result<
    bool,
    TsConfigError,
>)
    ensures
        match changed {
            Ok(added) => {
                &&& held_list(*old(document), INCLUDE_KEY@) matches Ok(field)
                &&& added == (to_include(field).len() > 0)
                &&& held_list(*final(document), INCLUDE_KEY@) == Ok::<ListView, TsConfigError>(
                    list_after(field),
                )
            },
            Err(error) => held_list(*old(document), INCLUDE_KEY@) == Err::<
                ListView,
                TsConfigError,
            >(error),
        },
        *final(document) == included(*old(document)),
        held_list(*old(document), INCLUDE_KEY@) matches Ok(ListView::List(items)) ==> held_list(
            *final(document),
            INCLUDE_KEY@,
        ) == Ok::<ListView, TsConfigError>(ListView::List(merged(items, declaration_names()))),
{
    let field = match list_of(document, INCLUDE_KEY) {
        Ok(field) => field,
        Err(error) => return Err(error),
    };
    let names = declarations_to_include(&field);
    if names.len() == 0 {
        proof {
            if let ListView::List(items) = field@ {
                assert(merged(items, declaration_names()) =~= items);
            }
        }
        return Ok(false);
    }
    if let ListField::Absent = field {
        put_empty_list(document, INCLUDE_KEY);
    }
    let ghost start = *document;
    let ghost base = items_of(field@);
    let mut i: usize = 0;
    assert(names.deep_view().take(0) =~= Seq::<Seq<char>>::empty());
    assert(base + as_items(Seq::<Seq<char>>::empty()) =~= base);
    while i < names.len()
        invariant
            i <= names@.len(),
            *document == with_items(start, INCLUDE_KEY@, names.deep_view().take(i as int)),
            held_list(*document, INCLUDE_KEY@) == Ok::<ListView, TsConfigError>(
                ListView::List(base + as_items(names.deep_view().take(i as int))),
            ),
        decreases names@.len() - i,
    {
        let ghost before = names.deep_view().take(i as int);
        let ghost after = names.deep_view().take(i + 1);
        push_text(document, INCLUDE_KEY, names[i].as_str());
        proof {
            assert(after.drop_last() =~= before);
            assert(after.last() == names@[i as int]@);
            assert(base + as_items(after) =~= (base + as_items(before)).push(Some(names@[i as int]@)));
        }
        i += 1;
    }
    assert(names.deep_view().take(i as int) =~= names.deep_view());
    Ok(true)
}

/// Patches the TypeScript configuration text `content`, which is `None`
/// where the project has no such file.
///
/// Without a file there is nothing to do. With one, the names of the
/// declaration files that its `include` list lacks are added to that list,
/// and the document is printed anew; where the list lacks none, or the
/// document holds something else under `include`, nothing is to be written.
pub fn update_ts_config(content: Option<&str>) -> (out: Result<Option<String>, TsConfigError>)
    ensures
        match out {
            Ok(printed) => patched(content.deep_view()) == Ok::<Option<Seq<char>>, TsConfigError>(
                printed.deep_view(),
            ),
            Err(error) => patched(content.deep_view()) == Err::<Option<Seq<char>>, TsConfigError>(
                error,
            ),
        },
{
    let text = match content {
        None => return Ok(None),
        Some(text) => text,
    };
    let mut document = match parse_document(text) {
        Some(document) => document,
        None => return Err(TsConfigError::Malformed),
    };
    match include_declarations(&mut document) {
        Err(error) => Err(error),
        Ok(false) => Ok(None),
        Ok(true) => match print_document(&document) {
            Some(printed) => Ok(Some(printed)),
            None => Err(TsConfigError::Unprintable),
        },
    }
}

} // verus!
