//! What holds of every compilation.
//!
//! The laws are stated over the views of requests and results, and over the
//! spec functions that the contracts of the pipeline use.

use crate::engine::engine_path;
use crate::engine::filing_path;
use crate::engine::no_sheets;
use crate::engine::register;
use crate::engine::sheet_artifact;
use crate::engine::source_diagnostics;
use crate::engine::Sheet;
use crate::engine::Sheets;
use crate::pipeline::batch_files;
use crate::pipeline::bound_all;
use crate::pipeline::prefixed;
use crate::pipeline::recognised;
use crate::pipeline::registered_all;
use crate::pipeline::registered_file;
use crate::pipeline::serialized_file;
use crate::pipeline::single_file;
use crate::text::source_text;
use crate::types::blank_file;
use crate::types::file_names;
use crate::types::source_names;
use crate::types::BatchModel;
use crate::types::FileModel;
use crate::types::RequestModel;
use crate::types::SingleModel;
use vstd::prelude::*;

verus! {

/// What `compile_sync` promises of the result of a request.
pub open spec fn batch_outcome(req: RequestModel, result: BatchModel) -> bool {
    if recognised(req.output_type) {
        result.files == batch_files(req)
    } else {
        result.files.len() == 0 && result.import_index.len() == 0
    }
}

/// What `compile_single_sync` promises of the result of a request.
pub open spec fn single_outcome(req: SingleModel, result: FileModel) -> bool {
    if recognised(req.output_type) {
        result == single_file(req)
    } else {
        result == blank_file()
    }
}

/// The batch request that holds the one file of a single-file request.
pub open spec fn batch_of(req: SingleModel) -> RequestModel {
    RequestModel {
        output_type: req.output_type,
        tag_name_prefix: req.tag_name_prefix,
        src: seq![(req.file_name, req.file_content)],
    }
}

/// The entry of a source compiled with nothing else in the engine and no
/// prefix applied: it depends on the source alone. A name that the engine
/// files under another key than it looks it up by has no artifact.
pub open spec fn compiled_alone(source: (Seq<char>, Seq<u8>)) -> (Seq<char>, FileModel) {
    (
        source.0,
        FileModel {
            content: if filing_path(source.0) == engine_path(source.0) {
                sheet_artifact(engine_path(source.0), source_text(source.1), Seq::empty())
            } else {
                Seq::empty()
            },
            warnings: source_diagnostics(engine_path(source.0), source_text(source.1)),
        },
    )
}

/// The files of a batch in which no prefix is ever bound.
pub open spec fn unbound_files(src: Seq<(Seq<char>, Seq<u8>)>) -> Seq<(Seq<char>, FileModel)> {
    Seq::new(
        src.len(),
        |i: int| serialized_file(registered_all(no_sheets(), src), registered_file(src[i])),
    )
}

/// The result of a single file for which no prefix is ever bound.
pub open spec fn unbound_file(req: SingleModel) -> FileModel {
    serialized_file(
        register(no_sheets(), req.file_name, source_text(req.file_content)),
        registered_file((req.file_name, req.file_content)),
    ).1
}

/// No source is filed under the key by which another is looked up.
pub open spec fn independent_paths(src: Seq<(Seq<char>, Seq<u8>)>) -> bool {
    forall|i: int, j: int|
        0 <= i < src.len() && 0 <= j < src.len() && i != j ==> filing_path(#[trigger] src[j].0) != engine_path(
            #[trigger] src[i].0,
        )
}

/// A compiled batch has exactly the names of its sources, in their order.
pub proof fn lemma_batch_names(req: RequestModel, result: BatchModel)
    requires
        recognised(req.output_type),
        batch_outcome(req, result),
    ensures
        file_names(result.files) == source_names(req.src),
        file_names(result.files).to_set() == source_names(req.src).to_set(),
{
    assert(file_names(result.files) =~= source_names(req.src));
}

/// An output type that is not recognised gives no file and an empty index,
/// whatever the sources.
pub proof fn lemma_unrecognised_is_empty(req: RequestModel, result: BatchModel)
    requires
        !recognised(req.output_type),
        batch_outcome(req, result),
    ensures
        result.files == Seq::<(Seq<char>, FileModel)>::empty(),
        result.import_index == Seq::<u8>::empty(),
{
    assert(result.files =~= Seq::<(Seq<char>, FileModel)>::empty());
    assert(result.import_index =~= Seq::<u8>::empty());
}

/// A batch with an empty prefix gives the files of a batch in which no
/// prefix is ever bound.
pub proof fn lemma_empty_prefix_binds_nothing(req: RequestModel)
    requires
        req.tag_name_prefix.len() == 0,
    ensures
        batch_files(req) == unbound_files(req.src),
{
    assert(batch_files(req) =~= unbound_files(req.src));
}

/// A single file with an empty prefix gives the result of a single file for
/// which no prefix is ever bound.
pub proof fn lemma_empty_prefix_binds_nothing_single(req: SingleModel)
    requires
        req.tag_name_prefix.len() == 0,
    ensures
        single_file(req) == unbound_file(req),
{
}

/// Binding a prefix in an engine that holds no sheet leaves it empty.
pub proof fn lemma_binding_finds_no_sheet(src: Seq<(Seq<char>, Seq<u8>)>, prefix: Seq<char>)
    ensures
        bound_all(no_sheets(), src, prefix) == no_sheets(),
        prefixed(src, prefix) == no_sheets(),
    decreases src.len(),
{
    if src.len() > 0 {
        lemma_binding_finds_no_sheet(src.drop_last(), prefix);
    }
}

/// The prefix of a batch leaves no trace in its files: it is bound before
/// any source is registered, when the engine holds no sheet to apply it to.
pub proof fn lemma_prefix_leaves_no_trace(req: RequestModel)
    ensures
        batch_files(req) == unbound_files(req.src),
{
    lemma_binding_finds_no_sheet(req.src, req.tag_name_prefix);
    assert(batch_files(req) =~= unbound_files(req.src));
}

/// A single file is what its source gives alone, whatever the prefix.
pub proof fn lemma_single_is_compiled_alone(req: SingleModel)
    ensures
        single_file(req) == unbound_file(req),
        single_file(req) == compiled_alone((req.file_name, req.file_content)).1,
{
}

/// After registration the engine holds, under a key, the sheet of the last
/// source filed there, with no prefix applied.
pub proof fn lemma_sheet_of_last_filing(start: Sheets, src: Seq<(Seq<char>, Seq<u8>)>, key: Seq<char>, j: int)
    requires
        0 <= j < src.len(),
        filing_path(src[j].0) == key,
        forall|k: int| j < k < src.len() ==> filing_path(#[trigger] src[k].0) != key,
    ensures
        registered_all(start, src).contains_key(key),
        registered_all(start, src)[key] == (Sheet {
            path: engine_path(src[j].0),
            text: source_text(src[j].1),
            prefixes: Seq::empty(),
        }),
    decreases src.len(),
{
    let last = src.len() - 1;
    if j < last {
        let shorter = src.drop_last();
        assert forall|k: int| j < k < shorter.len() implies filing_path(#[trigger] shorter[k].0) != key by {
            assert(shorter[k] == src[k]);
        }
        lemma_sheet_of_last_filing(start, shorter, key, j);
        assert(filing_path(src[last].0) != key);
    }
}

/// Registration leaves alone every key under which no source is filed.
pub proof fn lemma_key_never_filed(start: Sheets, src: Seq<(Seq<char>, Seq<u8>)>, key: Seq<char>)
    requires
        forall|k: int| 0 <= k < src.len() ==> filing_path(#[trigger] src[k].0) != key,
    ensures
        registered_all(start, src).contains_key(key) == start.contains_key(key),
        start.contains_key(key) ==> registered_all(start, src)[key] == start[key],
    decreases src.len(),
{
    if src.len() > 0 {
        let shorter = src.drop_last();
        assert forall|k: int| 0 <= k < shorter.len() implies filing_path(#[trigger] shorter[k].0) != key by {
            assert(shorter[k] == src[k]);
        }
        lemma_key_never_filed(start, shorter, key);
        assert(filing_path(src[src.len() - 1].0) != key);
    }
}

/// A file has the name and the diagnostics of its own source, and the
/// artifact of the last source filed under the key by which the file is
/// looked up.
pub proof fn lemma_file_follows_last_filing(req: RequestModel, i: int, j: int)
    requires
        0 <= i < req.src.len(),
        0 <= j < req.src.len(),
        filing_path(req.src[j].0) == engine_path(req.src[i].0),
        forall|k: int| j < k < req.src.len() ==> filing_path(#[trigger] req.src[k].0) != engine_path(req.src[i].0),
    ensures
        batch_files(req)[i].0 == req.src[i].0,
        batch_files(req)[i].1.warnings == source_diagnostics(
            engine_path(req.src[i].0),
            source_text(req.src[i].1),
        ),
        batch_files(req)[i].1.content == sheet_artifact(
            engine_path(req.src[j].0),
            source_text(req.src[j].1),
            Seq::empty(),
        ),
{
    lemma_sheet_of_last_filing(prefixed(req.src, req.tag_name_prefix), req.src, engine_path(req.src[i].0), j);
}

/// A file that no source is filed for, under the key by which it is looked
/// up, has an empty artifact.
pub proof fn lemma_file_never_filed(req: RequestModel, i: int)
    requires
        0 <= i < req.src.len(),
        forall|k: int| 0 <= k < req.src.len() ==> filing_path(#[trigger] req.src[k].0) != engine_path(req.src[i].0),
    ensures
        batch_files(req)[i].1.content == Seq::<u8>::empty(),
{
    lemma_binding_finds_no_sheet(req.src, req.tag_name_prefix);
    lemma_key_never_filed(no_sheets(), req.src, engine_path(req.src[i].0));
}

/// Where no source is filed under the key of another, every file is what its
/// source gives alone: no file depends on another source, nor on the order of
/// the sources.
pub proof fn lemma_files_are_independent(req: RequestModel)
    requires
        independent_paths(req.src),
    ensures
        batch_files(req) == req.src.map_values(|s: (Seq<char>, Seq<u8>)| compiled_alone(s)),
{
    let alone = req.src.map_values(|s: (Seq<char>, Seq<u8>)| compiled_alone(s));
    assert forall|i: int| 0 <= i < req.src.len() implies batch_files(req)[i] == alone[i] by {
        if filing_path(req.src[i].0) == engine_path(req.src[i].0) {
            lemma_file_follows_last_filing(req, i, i);
        } else {
            lemma_file_never_filed(req, i);
        }
    }
    assert(batch_files(req) =~= alone);
}

/// Two results of one request have the same files, wherever and however
/// often the request is run: the same names in the same order, the same
/// artifacts, the same diagnostics in the same order. Of a compiled batch
/// nothing is said of the import index, whose entries the engine writes in
/// the order of a hash table.
pub proof fn lemma_same_request_same_files(req: RequestModel, first: BatchModel, second: BatchModel)
    requires
        batch_outcome(req, first),
        batch_outcome(req, second),
    ensures
        first.files == second.files,
        !recognised(req.output_type) ==> first.import_index == second.import_index,
{
    if !recognised(req.output_type) {
        assert(first.files =~= second.files);
        assert(first.import_index =~= second.import_index);
    }
}

/// Two results of one single-file request are equal.
pub proof fn lemma_same_request_same_file(req: SingleModel, first: FileModel, second: FileModel)
    requires
        single_outcome(req, first),
        single_outcome(req, second),
    ensures
        first == second,
{
}

/// Compiling one file gives what compiling the batch of that one file gives
/// for it, artifact and diagnostics, when the output type is recognised.
pub proof fn lemma_single_matches_batch(req: SingleModel, file: FileModel, batch: BatchModel)
    requires
        recognised(req.output_type),
        single_outcome(req, file),
        batch_outcome(batch_of(req), batch),
    ensures
        batch.files.len() == 1,
        batch.files[0] == (req.file_name, file),
{
    let whole = batch_of(req);
    assert(independent_paths(whole.src));
    lemma_files_are_independent(whole);
    lemma_single_is_compiled_alone(req);
}

} // verus!
