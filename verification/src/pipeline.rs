//! The compilation pipeline.
//!
//! A batch goes through a fresh engine in phases: the prefix is bound to every
//! name, every source is decoded and registered, every name is serialised,
//! and the import index is taken. A single file goes the same way without an
//! index. An output type other than `bincode` gives an empty result.

use crate::engine::add_source;
use crate::engine::artifact_in;
use crate::engine::bind;
use crate::engine::engine_path;
use crate::engine::engine_sheets;
use crate::engine::no_sheets;
use crate::engine::register;
use crate::engine::source_diagnostics;
use crate::engine::Sheets;
use crate::text::decode_source;
use crate::text::source_text;
use crate::types::blank_file;
use crate::types::file_names;
use crate::types::files_view;
use crate::types::source_names;
use crate::types::CompileOption;
use crate::types::CompileResult;
use crate::types::CompileResultItem;
use crate::types::CompileSingleOption;
use crate::types::FileModel;
use crate::types::RequestModel;
use crate::types::SingleModel;
use float_pigment_css::StyleSheetResource;
use vstd::prelude::*;

verus! {

/// Whether an output type is the one that is compiled.
pub open spec fn recognised(output_type: Seq<char>) -> bool {
    output_type == "bincode"@
}

/// The contents after a prefix was bound to the name of every source, first
/// to last.
pub open spec fn bound_all(sheets: Sheets, src: Seq<(Seq<char>, Seq<u8>)>, prefix: Seq<char>) -> Sheets
    decreases src.len(),
{
    if src.len() == 0 {
        sheets
    } else {
        bind(bound_all(sheets, src.drop_last(), prefix), src.last().0, prefix)
    }
}

/// The contents after every source was decoded and registered, first to last.
pub open spec fn registered_all(sheets: Sheets, src: Seq<(Seq<char>, Seq<u8>)>) -> Sheets
    decreases src.len(),
{
    if src.len() == 0 {
        sheets
    } else {
        register(registered_all(sheets, src.drop_last()), src.last().0, source_text(src.last().1))
    }
}

/// The contents of a fresh engine after the prefix phase: an empty prefix is
/// bound to nothing.
pub open spec fn prefixed(src: Seq<(Seq<char>, Seq<u8>)>, prefix: Seq<char>) -> Sheets {
    if prefix.len() == 0 {
        no_sheets()
    } else {
        bound_all(no_sheets(), src, prefix)
    }
}

/// The contents of the engine of a batch once every source is registered.
pub open spec fn batch_sheets(req: RequestModel) -> Sheets {
    registered_all(prefixed(req.src, req.tag_name_prefix), req.src)
}

/// The artifact that a name has in an engine, empty where serialising the
/// name gives nothing.
pub open spec fn artifact_or_empty(sheets: Sheets, name: Seq<char>) -> Seq<u8> {
    match artifact_in(sheets, name) {
        Some(bytes) => bytes,
        None => Seq::empty(),
    }
}

/// The entry of a source right after its registration.
pub open spec fn registered_file(source: (Seq<char>, Seq<u8>)) -> (Seq<char>, FileModel) {
    (
        source.0,
        FileModel {
            content: Seq::empty(),
            warnings: source_diagnostics(engine_path(source.0), source_text(source.1)),
        },
    )
}

/// The entry of a file after serialisation against the given contents.
pub open spec fn serialized_file(sheets: Sheets, file: (Seq<char>, FileModel)) -> (Seq<char>, FileModel) {
    (
        file.0,
        FileModel {
            content: match artifact_in(sheets, file.0) {
                Some(bytes) => bytes,
                None => file.1.content,
            },
            warnings: file.1.warnings,
        },
    )
}

/// The files of a compiled batch: one entry per source, in the order of the
/// sources, each with the diagnostics of its own registration and the
/// artifact that its name has once the whole batch is registered.
pub open spec fn batch_files(req: RequestModel) -> Seq<(Seq<char>, FileModel)> {
    Seq::new(
        req.src.len(),
        |i: int| serialized_file(batch_sheets(req), registered_file(req.src[i])),
    )
}

/// The contents of the engine of a single file once it is registered.
pub open spec fn single_sheets(req: SingleModel) -> Sheets {
    let start = if req.tag_name_prefix.len() == 0 {
        no_sheets()
    } else {
        bind(no_sheets(), req.file_name, req.tag_name_prefix)
    };
    register(start, req.file_name, source_text(req.file_content))
}

/// The result of a compiled single file.
pub open spec fn single_file(req: SingleModel) -> FileModel {
    serialized_file(single_sheets(req), registered_file((req.file_name, req.file_content))).1
}

/// Tells whether an output type is the one that is compiled.
pub fn is_recognised(output_type: &String) -> (yes: bool)
    ensures
        yes == recognised(output_type@),
{
    let bincode = String::from_str("bincode");
    *output_type == bincode
}

/// The prefix phase: binds the prefix to the name of every source.
fn bind_prefixes(engine: &mut StyleSheetResource, src: &Vec<(String, Vec<u8>)>, prefix: &str)
    ensures
        engine_sheets(*final(engine)) == bound_all(engine_sheets(*old(engine)), src.deep_view(), prefix@),
{
    let ghost all = src.deep_view();
    let mut i: usize = 0;
    while i < src.len()
        invariant
            i <= src.len(),
            all == src.deep_view(),
            engine_sheets(*engine) == bound_all(engine_sheets(*old(engine)), all.take(i as int), prefix@),
        decreases src.len() - i,
    {
        engine.add_tag_name_prefix(src[i].0.as_str(), prefix);
        proof {
            assert(all.take(i + 1).drop_last() =~= all.take(i as int));
            assert(all.take(i + 1).last().0 == src[i as int].0@);
        }
        i += 1;
    }
    proof {
        assert(all.take(src.len() as int) =~= all);
    }
}

/// The registration phase: decodes and registers every source, and opens an
/// entry for it with the diagnostics that its registration gave.
fn register_sources(engine: &mut StyleSheetResource, src: &Vec<(String, Vec<u8>)>) -> (files: Vec<(String, CompileResultItem)>)
    ensures
        engine_sheets(*final(engine)) == registered_all(engine_sheets(*old(engine)), src.deep_view()),
        files_view(files@) == src.deep_view().map_values(|s: (Seq<char>, Seq<u8>)| registered_file(s)),
{
    let ghost all = src.deep_view();
    let mut files: Vec<(String, CompileResultItem)> = Vec::new();
    let mut i: usize = 0;
    while i < src.len()
        invariant
            i <= src.len(),
            all == src.deep_view(),
            files.len() == i,
            engine_sheets(*engine) == registered_all(engine_sheets(*old(engine)), all.take(i as int)),
            forall|k: int| 0 <= k < i ==> files_view(files@)[k] == registered_file(#[trigger] all[k]),
        decreases src.len() - i,
    {
        let name = &src[i].0;
        let text = decode_source(src[i].1.as_slice());
        let warnings = add_source(engine, name.as_str(), text.as_str());
        let ghost before = files_view(files@);
        files.push((name.clone(), CompileResultItem::registered(warnings)));
        proof {
            assert(all.take(i + 1).drop_last() =~= all.take(i as int));
            assert(all.take(i + 1).last() == all[i as int]);
            assert(all[i as int].0 == src[i as int].0@);
            assert(all[i as int].1 == src[i as int].1@);
            assert(files_view(files@)[i as int] == registered_file(all[i as int]));
            assert forall|k: int| 0 <= k < i + 1 implies files_view(files@)[k] == registered_file(
                #[trigger] all[k],
            ) by {
                if k < i {
                    assert(files_view(files@)[k] == before[k]);
                }
            }
        }
        i += 1;
    }
    proof {
        assert(all.take(src.len() as int) =~= all);
        assert(files_view(files@) =~= all.map_values(|s: (Seq<char>, Seq<u8>)| registered_file(s)));
    }
    files
}

/// The serialisation phase: serialises every file by its name and stores
/// what the engine gives for it.
fn serialize_files(engine: &StyleSheetResource, files: &mut Vec<(String, CompileResultItem)>)
    ensures
        files_view(final(files)@) == files_view(old(files)@).map_values(
            |f: (Seq<char>, FileModel)| serialized_file(engine_sheets(*engine), f),
        ),
{
    let ghost before = files_view(files@);
    let ghost sheets = engine_sheets(*engine);
    let mut i: usize = 0;
    while i < files.len()
        invariant
            i <= files.len(),
            files.len() == before.len(),
            sheets == engine_sheets(*engine),
            forall|k: int| 0 <= k < i ==> #[trigger] files_view(files@)[k] == serialized_file(sheets, before[k]),
            forall|k: int| i <= k < files.len() ==> #[trigger] files_view(files@)[k] == before[k],
        decreases files.len() - i,
    {
        let ghost prev = files_view(files@);
        let artifact = engine.serialize_bincode(files[i].0.as_str());
        files[i].1.set_artifact(artifact);
        proof {
            assert forall|k: int| 0 <= k < i + 1 implies #[trigger] files_view(files@)[k] == serialized_file(
                sheets,
                before[k],
            ) by {
                if k < i {
                    assert(files_view(files@)[k] == prev[k]);
                } else {
                    assert(prev[k] == before[k]);
                }
            }
            assert forall|k: int| i + 1 <= k < files.len() implies #[trigger] files_view(files@)[k] == before[k] by {
                assert(files_view(files@)[k] == prev[k]);
            }
        }
        i += 1;
    }
    proof {
        assert(files_view(files@) =~= before.map_values(
            |f: (Seq<char>, FileModel)| serialized_file(sheets, f),
        ));
    }
}

/// Compiles a batch.
///
/// An output type other than `bincode` gives no file and an empty index,
/// whatever the sources. Otherwise the result has one entry per source, in
/// the order of the sources and under the source's name, as `batch_files`
/// describes; no input is refused, whatever its bytes. The import index is
/// the one that the engine gave once every source was registered; nothing is
/// promised of its bytes.
pub fn compile_sync(cfg: CompileOption) -> (result: CompileResult)
    ensures
        !recognised(cfg@.output_type) ==> result@.files.len() == 0 && result@.import_index.len() == 0,
        recognised(cfg@.output_type) ==> result@.files == batch_files(cfg@),
        recognised(cfg@.output_type) ==> file_names(result@.files) == source_names(cfg@.src),
{
    if !is_recognised(&cfg.output_type) {
        return CompileResult::empty();
    }
    let mut engine = StyleSheetResource::new();
    if !cfg.tag_name_prefix.as_str().is_empty() {
        bind_prefixes(&mut engine, &cfg.src, cfg.tag_name_prefix.as_str());
    }
    let mut files = register_sources(&mut engine, &cfg.src);
    serialize_files(&engine, &mut files);
    let index = engine.generate_import_indexes();
    let result = CompileResult::assemble(files, index.serialize_bincode());
    proof {
        assert(result@.files =~= batch_files(cfg@));
        assert(file_names(result@.files) =~= source_names(cfg@.src));
    }
    result
}

/// Compiles one file.
///
/// An output type other than `bincode` gives an empty artifact and no
/// diagnostics. Otherwise the result holds the diagnostics of the file's
/// registration and the artifact of its sheet, as `single_file` describes.
pub fn compile_single_sync(cfg: CompileSingleOption) -> (result: CompileResultItem)
    ensures
        !recognised(cfg@.output_type) ==> result@ == blank_file(),
        recognised(cfg@.output_type) ==> result@ == single_file(cfg@),
{
    if !is_recognised(&cfg.output_type) {
        return CompileResultItem::blank();
    }
    let mut engine = StyleSheetResource::new();
    if !cfg.tag_name_prefix.as_str().is_empty() {
        engine.add_tag_name_prefix(cfg.file_name.as_str(), cfg.tag_name_prefix.as_str());
    }
    let text = decode_source(cfg.file_content.as_slice());
    let warnings = add_source(&mut engine, cfg.file_name.as_str(), text.as_str());
    let mut result = CompileResultItem::registered(warnings);
    result.set_artifact(engine.serialize_bincode(cfg.file_name.as_str()));
    result
}

} // verus!
