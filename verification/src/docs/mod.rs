//! Documentation that is taken from the doc comments of a source file and
//! attached to the bindings that are made for it.

pub mod dictionary;
pub mod documentation;
pub mod function;
pub mod markdown;
pub mod modules;
pub mod order;
pub mod source;
pub mod syntax;

pub use dictionary::Dictionary;
pub use documentation::{extract_documentation, Documentation, Structure};
pub use function::{Function, Gathering, ParseStage};
pub use markdown::DocEvent;
pub use modules::{choose_module_file, module_files, module_names, ModuleFile};
pub use source::{extract_doc_comment, AttrMeta, Member, SourceItem};
pub use syntax::{parse_source, SyntaxError};
