//! The modules that a source file declares, and the files in which such a
//! module can stand.

use crate::docs::source::{SourceItem, SourceItemView};
use crate::text::texts;
use vstd::prelude::*;
use vstd::string::*;

verus! {

/// The names of the modules among some items, in their order.
pub open spec fn module_names_of(items: Seq<SourceItemView>) -> Seq<Seq<char>>
    decreases items.len(),
{
    if items.len() == 0 {
        Seq::empty()
    } else {
        match items.last() {
            SourceItemView::Module { name } => module_names_of(items.drop_last()).push(name),
            _ => module_names_of(items.drop_last()),
        }
    }
}

/// The names of the modules that a source file declares, in their order.
pub fn module_names(items: &Vec<SourceItem>) -> (r: Vec<String>)
    ensures
        texts(r@) == module_names_of(items.deep_view()),
{
    let mut names: Vec<String> = Vec::new();
    let ghost all = items.deep_view();
    let mut i: usize = 0;
    while i < items.len()
        invariant
            i <= items@.len(),
            all == items.deep_view(),
            texts(names@) == module_names_of(all.take(i as int)),
        decreases items@.len() - i,
    {
        proof {
            assert(all.take(i + 1).drop_last() == all.take(i as int));
        }
        match &items[i] {
            SourceItem::Module { name } => {
                names.push(name.clone());
            },
            _ => {},
        }
        i += 1;
    }
    assert(all.take(i as int) == all);
    names
}

/// The two files, beside the file that declares it, in which the module
/// `name` can stand: `name.rs`, which is looked for first, and
/// `name/mod.rs`.
pub fn module_files(name: &str) -> (r: (String, String))
    ensures
        r.0@ == name@ + ".rs"@,
        r.1@ == name@ + "/mod.rs"@,
{
    let mut flat = name.to_owned();
    flat.append(".rs");
    let mut nested = name.to_owned();
    nested.append("/mod.rs");
    (flat, nested)
}

/// One of the two files in which a module can stand.
#[derive(Debug, Clone, Copy, PartialEq, Eq, Structural)]
pub enum ModuleFile {
    /// `name.rs`.
    Flat,
    /// `name/mod.rs`.
    Nested,
}

/// The file from which a module is read, given which of its two files are
/// there: `name.rs` where it is there, else `name/mod.rs` where that is
/// there, and none where neither is, so that the module is passed over.
pub open spec fn chosen_file(flat_exists: bool, nested_exists: bool) -> Option<ModuleFile> {
    if flat_exists {
        Some(ModuleFile::Flat)
    } else if nested_exists {
        Some(ModuleFile::Nested)
    } else {
        None
    }
}

/// Chooses the file from which a module is read.
pub fn choose_module_file(flat_exists: bool, nested_exists: bool) -> (r: Option<ModuleFile>)
    ensures
        r == chosen_file(flat_exists, nested_exists),
{
    if flat_exists {
        Some(ModuleFile::Flat)
    } else if nested_exists {
        Some(ModuleFile::Nested)
    } else {
        None
    }
}

} // verus!
