//! The style-sheet engine and the model of what it holds.
//!
//! The engine is `float_pigment_css::StyleSheetResource`. Its contents are
//! modelled as a map from a key to the sheet filed under it: the path and the
//! text that the sheet was parsed from, and the tag-name prefixes applied to it
//! since.
//! Everything stated here of the engine is taken on trust from its source; the
//! rest of the library is proved from these statements.

use float_pigment_css::StyleSheetImportIndex;
use float_pigment_css::StyleSheetResource;
use vstd::prelude::*;

verus! {

/// The engine type, opaque to the verifier.
#[verifier::external_type_specification]
#[verifier::external_body]
pub struct ExStyleSheetResource(float_pigment_css::StyleSheetResource);

/// The engine's import index, opaque to the verifier.
#[verifier::external_type_specification]
#[verifier::external_body]
pub struct ExStyleSheetImportIndex(float_pigment_css::StyleSheetImportIndex);

/// A sheet that the engine holds: the path and the text that it was parsed
/// from, and the prefixes applied to it since, oldest first.
pub ghost struct Sheet {
    pub path: Seq<char>,
    pub text: Seq<char>,
    pub prefixes: Seq<Seq<char>>,
}

/// The sheets of an engine, by the key under which each is filed.
pub type Sheets = Map<Seq<char>, Sheet>;

/// The sheets that an engine holds, by the key under which each is filed.
pub uninterp spec fn engine_sheets(engine: StyleSheetResource) -> Map<Seq<char>, Sheet>;

/// The messages of the warnings that the engine's parser gives for a text
/// parsed under a path, in the parser's order.
pub uninterp spec fn source_diagnostics(path: Seq<char>, text: Seq<char>) -> Seq<Seq<char>>;

/// The bytes to which the engine serialises the sheet parsed from a text under
/// a path, after the given prefixes were applied to it in turn.
pub uninterp spec fn sheet_artifact(path: Seq<char>, text: Seq<char>, prefixes: Seq<Seq<char>>) -> Seq<u8>;

/// The extension that the engine drops from the end of a name.
pub open spec fn source_extension() -> Seq<char> {
    seq!['.', 'w', 'x', 's', 's']
}

/// The path that the engine makes of a name: the name without a trailing
/// source extension. A sheet is parsed under this path and looked up by it.
pub open spec fn engine_path(name: Seq<char>) -> Seq<char> {
    let ext = source_extension();
    if name.len() >= ext.len() && name.subrange(name.len() - ext.len(), name.len() as int) == ext {
        name.subrange(0, name.len() - ext.len())
    } else {
        name
    }
}

/// The key under which the engine files the sheet of a name: the extension is
/// dropped once before parsing and once more on filing, so a name that ends in
/// the extension twice is filed under a key by which it is not looked up.
pub open spec fn filing_path(name: Seq<char>) -> Seq<char> {
    engine_path(engine_path(name))
}

/// The contents of an engine that holds no sheet.
pub open spec fn no_sheets() -> Sheets {
    Map::empty()
}

/// The contents after a prefix was bound to a name: the sheet looked up by the
/// name's path has one more prefix; where there is none, nothing changes.
pub open spec fn bind(sheets: Sheets, name: Seq<char>, prefix: Seq<char>) -> Sheets {
    let key = engine_path(name);
    if sheets.contains_key(key) {
        sheets.insert(key, Sheet { prefixes: sheets[key].prefixes.push(prefix), ..sheets[key] })
    } else {
        sheets
    }
}

/// The contents after a text was registered under a name: a new sheet, with no
/// prefix applied, takes the place of whatever was filed under the name's key.
pub open spec fn register(sheets: Sheets, name: Seq<char>, text: Seq<char>) -> Sheets {
    sheets.insert(filing_path(name), Sheet { path: engine_path(name), text, prefixes: Seq::empty() })
}

/// What serialising a name gives: the artifact of the sheet looked up by the
/// name's path, or nothing where there is none.
pub open spec fn artifact_in(sheets: Sheets, name: Seq<char>) -> Option<Seq<u8>> {
    let key = engine_path(name);
    if sheets.contains_key(key) {
        Some(sheet_artifact(sheets[key].path, sheets[key].text, sheets[key].prefixes))
    } else {
        None
    }
}

/// `StyleSheetResource::new` gives an engine that holds no sheet.
pub assume_specification[ StyleSheetResource::new ]() -> (fresh: StyleSheetResource)
    ensures
        engine_sheets(fresh) == no_sheets(),
;

/// `StyleSheetResource::add_tag_name_prefix` looks up a sheet by the name's
/// path and prefixes its tag names; it does nothing where it finds none, and
/// touches no other sheet.
pub assume_specification[ StyleSheetResource::add_tag_name_prefix ](
    engine: &mut StyleSheetResource,
    path: &str,
    prefix: &str,
)
    ensures
        engine_sheets(*final(engine)) == bind(engine_sheets(*old(engine)), path@, prefix@),
;

/// `StyleSheetResource::serialize_bincode` looks up a sheet by the name's path
/// and serialises it; it gives `None` where it finds none. The engine is only
/// read.
pub assume_specification[ StyleSheetResource::serialize_bincode ](
    engine: &StyleSheetResource,
    path: &str,
) -> (artifact: Option<Vec<u8>>)
    ensures
        artifact.is_some() == engine_sheets(*engine).contains_key(engine_path(path@)),
        artifact.is_some() ==> artifact.unwrap()@ == sheet_artifact(
            engine_sheets(*engine)[engine_path(path@)].path,
            engine_sheets(*engine)[engine_path(path@)].text,
            engine_sheets(*engine)[engine_path(path@)].prefixes,
        ),
;

/// `StyleSheetResource::generate_import_indexes` lists, for every sheet the
/// engine holds, the paths that the sheet imports. Nothing is stated of the
/// index: the order of its entries is that of a hash table.
pub assume_specification[ StyleSheetResource::generate_import_indexes ](
    engine: &StyleSheetResource,
) -> (index: StyleSheetImportIndex)
;

/// `StyleSheetImportIndex::serialize_bincode` writes the index out in the
/// engine's binary format. Nothing is stated of the bytes: they follow the
/// order in which a hash table is walked.
pub assume_specification[ StyleSheetImportIndex::serialize_bincode ](
    index: &StyleSheetImportIndex,
) -> (bytes: Vec<u8>)
;

/// `StyleSheetResource::add_source` parses the text under the name's path,
/// files the new sheet under the name's key in place of any earlier one, and
/// returns the parser's warnings; here each warning is handed out as its
/// message.
#[verifier::external_body]
pub(crate) fn add_source(engine: &mut StyleSheetResource, name: &str, text: &str) -> (warnings: Vec<String>)
    ensures
        engine_sheets(*final(engine)) == register(engine_sheets(*old(engine)), name@, text@),
        warnings.deep_view() == source_diagnostics(engine_path(name@), text@),
{
    engine.add_source(name, text).into_iter().map(|w| String::from(w.message.as_str())).collect()
}

} // verus!
