//! Requests, results and their mathematical views.
//!
//! Sources and files are kept as sequences of named entries, in the order in
//! which they are processed. A request names each source once; the contracts
//! nevertheless hold of every sequence.

use vstd::prelude::*;

verus! {

/// A batch request: the output type, a tag-name prefix (empty for none) and
/// the named sources.
pub struct CompileOption {
    pub output_type: String,
    pub tag_name_prefix: String,
    pub src: Vec<(String, Vec<u8>)>,
}

/// A request for one file.
pub struct CompileSingleOption {
    pub file_content: Vec<u8>,
    pub file_name: String,
    pub output_type: String,
    pub tag_name_prefix: String,
}

/// What compiling one file gave: its artifact, possibly empty, and the
/// diagnostics of its registration, in the engine's order.
pub struct CompileResultItem {
    pub content: Vec<u8>,
    pub warnings: Vec<String>,
}

/// What compiling a batch gave: the import index and one entry per source.
pub struct CompileResult {
    pub import_index: Vec<u8>,
    pub files: Vec<(String, CompileResultItem)>,
}

/// The view of a batch request.
pub ghost struct RequestModel {
    pub output_type: Seq<char>,
    pub tag_name_prefix: Seq<char>,
    pub src: Seq<(Seq<char>, Seq<u8>)>,
}

/// The view of a single-file request.
pub ghost struct SingleModel {
    pub file_content: Seq<u8>,
    pub file_name: Seq<char>,
    pub output_type: Seq<char>,
    pub tag_name_prefix: Seq<char>,
}

/// The view of a file's result.
pub ghost struct FileModel {
    pub content: Seq<u8>,
    pub warnings: Seq<Seq<char>>,
}

/// The view of a batch result.
pub ghost struct BatchModel {
    pub import_index: Seq<u8>,
    pub files: Seq<(Seq<char>, FileModel)>,
}

impl View for CompileOption {
    type V = RequestModel;

    open spec fn view(&self) -> RequestModel {
        RequestModel {
            output_type: self.output_type@,
            tag_name_prefix: self.tag_name_prefix@,
            src: self.src.deep_view(),
        }
    }
}

impl View for CompileSingleOption {
    type V = SingleModel;

    open spec fn view(&self) -> SingleModel {
        SingleModel {
            file_content: self.file_content@,
            file_name: self.file_name@,
            output_type: self.output_type@,
            tag_name_prefix: self.tag_name_prefix@,
        }
    }
}

impl View for CompileResultItem {
    type V = FileModel;

    open spec fn view(&self) -> FileModel {
        FileModel { content: self.content@, warnings: self.warnings.deep_view() }
    }
}

impl View for CompileResult {
    type V = BatchModel;

    open spec fn view(&self) -> BatchModel {
        BatchModel { import_index: self.import_index@, files: files_view(self.files@) }
    }
}

/// The view of a sequence of named results.
pub open spec fn files_view(files: Seq<(String, CompileResultItem)>) -> Seq<(Seq<char>, FileModel)> {
    Seq::new(files.len(), |i: int| (files[i].0@, files[i].1@))
}

/// The names of a sequence of sources, in order.
pub open spec fn source_names(src: Seq<(Seq<char>, Seq<u8>)>) -> Seq<Seq<char>> {
    Seq::new(src.len(), |i: int| src[i].0)
}

/// The names of a sequence of results, in order.
pub open spec fn file_names(files: Seq<(Seq<char>, FileModel)>) -> Seq<Seq<char>> {
    Seq::new(files.len(), |i: int| files[i].0)
}

/// The result of a file for which nothing was compiled.
pub open spec fn blank_file() -> FileModel {
    FileModel { content: Seq::empty(), warnings: Seq::empty() }
}

impl CompileResultItem {
    /// A result with no artifact and no diagnostics.
    pub fn blank() -> (item: CompileResultItem)
        ensures
            item@ == blank_file(),
    {
        let item = CompileResultItem { content: Vec::new(), warnings: Vec::new() };
        assert(item.warnings.deep_view() =~= Seq::<Seq<char>>::empty());
        item
    }

    /// The result of a file right after its registration: the diagnostics
    /// as the engine gave them, and no artifact yet.
    pub fn registered(warnings: Vec<String>) -> (item: CompileResultItem)
        ensures
            item@.content == Seq::<u8>::empty(),
            item@.warnings == warnings.deep_view(),
    {
        CompileResultItem { content: Vec::new(), warnings }
    }

    /// Takes in what serialising the file gave: bytes replace the artifact,
    /// and their absence leaves it as it was. The diagnostics stay.
    pub fn set_artifact(&mut self, artifact: Option<Vec<u8>>)
        ensures
            final(self)@.warnings == old(self)@.warnings,
            final(self)@.content == (match artifact {
                Some(bytes) => bytes@,
                None => old(self)@.content,
            }),
    {
        if let Some(bytes) = artifact {
            self.content = bytes;
        }
    }
}

impl CompileResult {
    /// The result with no file and an empty import index.
    pub fn empty() -> (result: CompileResult)
        ensures
            result@.files == Seq::<(Seq<char>, FileModel)>::empty(),
            result@.import_index == Seq::<u8>::empty(),
    {
        let result = CompileResult { import_index: Vec::new(), files: Vec::new() };
        assert(result@.files =~= Seq::<(Seq<char>, FileModel)>::empty());
        result
    }

    /// Puts the files of a batch and the bytes of its import index together.
    pub fn assemble(files: Vec<(String, CompileResultItem)>, import_index: Vec<u8>) -> (result: CompileResult)
        ensures
            result@.files == files_view(files@),
            result@.import_index == import_index@,
    {
        CompileResult { import_index, files }
    }
}

} // verus!
