//! Batch and single-file compilation of style sheets.
//!
//! A request names its sources; each is decoded, registered with a fresh
//! style-sheet engine and serialised to the engine's binary format. The
//! contracts describe every result over a model of what the engine holds.

pub mod engine;
pub mod failure;
pub mod laws;
pub mod pipeline;
pub mod text;
pub mod types;

pub use failure::task_failure_message;
pub use pipeline::compile_single_sync;
pub use pipeline::compile_sync;
pub use types::CompileOption;
pub use types::CompileResult;
pub use types::CompileResultItem;
pub use types::CompileSingleOption;
