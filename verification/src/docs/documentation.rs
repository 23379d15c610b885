//! The documentation of a source file: of its functions, and of its records,
//! enums, objects and traits.

use crate::docs::dictionary::{distinct_names, entries_map, lemma_entries_map, Dictionary};
use crate::docs::function::{function_of, Function, FunctionView};
use crate::docs::markdown::markdown_events;
use crate::docs::source::{
    doc_comment, extract_doc_comment, Member, MemberView, SourceItem, SourceItemView,
};
use crate::docs::syntax::{parse_source, source_items, SyntaxError};
use vstd::prelude::*;

verus! {

/// Record or enum or object documentation.
#[derive(Debug, Clone, PartialEq, Eq)]
pub struct Structure {
    pub description: String,
    /// Members (record fields or enum variants) descriptions.
    pub members: Dictionary<String>,
    /// Methods documentation - empty for records and enums.
    pub methods: Dictionary<Function>,
}

/// The mathematical value of a [`Structure`].
pub struct StructureView {
    pub description: Seq<char>,
    pub members: Map<Seq<char>, Seq<char>>,
    pub methods: Map<Seq<char>, FunctionView>,
}

impl DeepView for Structure {
    type V = StructureView;

    open spec fn deep_view(&self) -> StructureView {
        StructureView {
            description: self.description@,
            members: self.members.deep_view(),
            methods: self.methods.deep_view(),
        }
    }
}

/// The documentation of a source file.
#[derive(Debug, PartialEq, Eq)]
pub struct Documentation {
    pub functions: Dictionary<Function>,
    pub structures: Dictionary<Structure>,
}

/// The mathematical value of a [`Documentation`].
pub struct DocumentationView {
    pub functions: Map<Seq<char>, FunctionView>,
    pub structures: Map<Seq<char>, StructureView>,
}

impl DeepView for Documentation {
    type V = DocumentationView;

    open spec fn deep_view(&self) -> DocumentationView {
        DocumentationView {
            functions: self.functions.deep_view(),
            structures: self.structures.deep_view(),
        }
    }
}

/// Trait documentation.
#[derive(Debug, PartialEq, Eq)]
pub struct Trait {
    /// The docs on the trait itself.
    pub description: String,
    /// Methods documentation.
    pub methods: Dictionary<Function>,
}

/// The mathematical value of a [`Trait`].
pub struct TraitView {
    pub description: Seq<char>,
    pub methods: Map<Seq<char>, FunctionView>,
}

impl DeepView for Trait {
    type V = TraitView;

    open spec fn deep_view(&self) -> TraitView {
        TraitView { description: self.description@, methods: self.methods.deep_view() }
    }
}

/// A trait documented as a structure: it has no members.
pub open spec fn trait_structure(t: TraitView) -> StructureView {
    StructureView { description: t.description, members: Map::empty(), methods: t.methods }
}

impl Trait {
    /// The trait as a structure.
    pub fn into(self) -> (r: Structure)
        ensures
            r.deep_view() == trait_structure(self.deep_view()),
    {
        Structure { description: self.description, members: Dictionary::new(), methods: self.methods }
    }
}

/// The documentation that the doc comment `d` of a function gives.
pub open spec fn function_doc(d: Seq<char>) -> FunctionView {
    function_of(d, markdown_events(d))
}

/// The doc comments of the named parts that have one, by name. Of two parts
/// with one name the later counts.
pub open spec fn documented_members(members: Seq<MemberView>) -> Map<Seq<char>, Seq<char>>
    decreases members.len(),
{
    if members.len() == 0 {
        Map::empty()
    } else {
        let rest = documented_members(members.drop_last());
        match (members.last().name, doc_comment(members.last().attrs)) {
            (Some(name), Some(d)) => rest.insert(name, d),
            _ => rest,
        }
    }
}

/// The documentation of the methods that have a doc comment, by name.
pub open spec fn documented_methods(members: Seq<MemberView>) -> Map<Seq<char>, FunctionView>
    decreases members.len(),
{
    if members.len() == 0 {
        Map::empty()
    } else {
        let rest = documented_methods(members.drop_last());
        match (members.last().name, doc_comment(members.last().attrs)) {
            (Some(name), Some(d)) => rest.insert(name, function_doc(d)),
            _ => rest,
        }
    }
}

/// The documentation of the methods of a trait impl: each method that the
/// trait documents has the description that the trait gives it, read as a
/// doc comment. What stands on the methods of the impl itself is not read.
pub open spec fn inherited_methods(members: Seq<MemberView>, documented: Map<Seq<char>, FunctionView>) -> Map<
    Seq<char>,
    FunctionView,
>
    decreases members.len(),
{
    if members.len() == 0 {
        Map::empty()
    } else {
        let rest = inherited_methods(members.drop_last(), documented);
        match members.last().name {
            Some(name) => if documented.dom().contains(name) {
                rest.insert(name, function_doc(documented[name].description))
            } else {
                rest
            },
            None => rest,
        }
    }
}

/// The methods that a documented trait documents; none for a trait that is
/// not documented.
pub open spec fn trait_methods_of(traits: Map<Seq<char>, TraitView>, name: Seq<char>) -> Map<
    Seq<char>,
    FunctionView,
> {
    if traits.dom().contains(name) {
        traits[name].methods
    } else {
        Map::empty()
    }
}

/// The documentation of the methods of one impl block.
pub open spec fn block_methods(
    of_trait: Option<Seq<char>>,
    methods: Seq<MemberView>,
    traits: Map<Seq<char>, TraitView>,
) -> Map<Seq<char>, FunctionView> {
    match of_trait {
        Some(name) => inherited_methods(methods, trait_methods_of(traits, name)),
        None => documented_methods(methods),
    }
}

/// The traits that have a doc comment, by name.
pub open spec fn traits_of(items: Seq<SourceItemView>) -> Map<Seq<char>, TraitView>
    decreases items.len(),
{
    if items.len() == 0 {
        Map::empty()
    } else {
        let rest = traits_of(items.drop_last());
        match items.last() {
            SourceItemView::Trait { name, attrs, methods } => match doc_comment(attrs) {
                Some(d) => rest.insert(
                    name,
                    TraitView { description: d, methods: documented_methods(methods) },
                ),
                None => rest,
            },
            _ => rest,
        }
    }
}

/// The free functions that have a doc comment, by name.
pub open spec fn functions_of(items: Seq<SourceItemView>) -> Map<Seq<char>, FunctionView>
    decreases items.len(),
{
    if items.len() == 0 {
        Map::empty()
    } else {
        let rest = functions_of(items.drop_last());
        match items.last() {
            SourceItemView::Function { name, attrs } => match doc_comment(attrs) {
                Some(d) => rest.insert(name, function_doc(d)),
                None => rest,
            },
            _ => rest,
        }
    }
}

/// The enums and structs that have a doc comment, by name, each with its
/// documented variants or fields and as yet without methods.
pub open spec fn declared_of(items: Seq<SourceItemView>) -> Map<Seq<char>, StructureView>
    decreases items.len(),
{
    if items.len() == 0 {
        Map::empty()
    } else {
        let rest = declared_of(items.drop_last());
        match items.last() {
            SourceItemView::Enum { name, attrs, variants } => match doc_comment(attrs) {
                Some(d) => rest.insert(
                    name,
                    StructureView {
                        description: d,
                        members: documented_members(variants),
                        methods: Map::empty(),
                    },
                ),
                None => rest,
            },
            SourceItemView::Struct { name, attrs, fields } => match doc_comment(attrs) {
                Some(d) => rest.insert(
                    name,
                    StructureView {
                        description: d,
                        members: documented_members(fields),
                        methods: Map::empty(),
                    },
                ),
                None => rest,
            },
            _ => rest,
        }
    }
}

/// The methods of the impl blocks, by the name of the type that a block is
/// for. The blocks of one type add up, a later method in place of an
/// earlier one of the same name.
pub open spec fn impls_of(items: Seq<SourceItemView>, traits: Map<Seq<char>, TraitView>) -> Map<
    Seq<char>,
    Map<Seq<char>, FunctionView>,
>
    decreases items.len(),
{
    if items.len() == 0 {
        Map::empty()
    } else {
        let rest = impls_of(items.drop_last(), traits);
        match items.last() {
            SourceItemView::Impl { target: Some(name), of_trait, methods } => {
                let block = block_methods(of_trait, methods, traits);
                if rest.dom().contains(name) {
                    rest.insert(name, rest[name].union_prefer_right(block))
                } else {
                    rest.insert(name, block)
                }
            },
            _ => rest,
        }
    }
}

/// A declared structure with the methods of its impl blocks, where it has
/// any.
pub open spec fn with_methods(
    s: StructureView,
    impls: Map<Seq<char>, Map<Seq<char>, FunctionView>>,
    name: Seq<char>,
) -> StructureView {
    if impls.dom().contains(name) {
        StructureView { methods: impls[name], ..s }
    } else {
        s
    }
}

/// Declared structures, each with the methods of its impl blocks.
pub open spec fn decorated(
    declared: Map<Seq<char>, StructureView>,
    impls: Map<Seq<char>, Map<Seq<char>, FunctionView>>,
) -> Map<Seq<char>, StructureView> {
    Map::new(
        |k: Seq<char>| declared.dom().contains(k),
        |k: Seq<char>| with_methods(declared[k], impls, k),
    )
}

/// Structures and traits together. A trait takes the place of a structure
/// of the same name.
pub open spec fn with_traits(
    structures: Map<Seq<char>, StructureView>,
    traits: Map<Seq<char>, TraitView>,
) -> Map<Seq<char>, StructureView> {
    Map::new(
        |k: Seq<char>| structures.dom().contains(k) || traits.dom().contains(k),
        |k: Seq<char>|
            if traits.dom().contains(k) {
                trait_structure(traits[k])
            } else {
                structures[k]
            },
    )
}

/// The structures of a source file: its documented enums and structs with
/// the methods of their impl blocks, and its documented traits.
pub open spec fn structures_of(items: Seq<SourceItemView>) -> Map<Seq<char>, StructureView> {
    let traits = traits_of(items);
    with_traits(decorated(declared_of(items), impls_of(items, traits)), traits)
}

/// The documentation of a source file with the items `items`.
pub open spec fn documentation_of(items: Seq<SourceItemView>) -> DocumentationView {
    DocumentationView { functions: functions_of(items), structures: structures_of(items) }
}

/// Reads the doc comments of the named parts of an item.
fn read_documented_members(members: &Vec<Member>) -> (r: Dictionary<String>)
    ensures
        r.deep_view() == documented_members(members.deep_view()),
{
    let mut out: Dictionary<String> = Dictionary::new();
    let ghost all = members.deep_view();
    let mut i: usize = 0;
    while i < members.len()
        invariant
            i <= members@.len(),
            all == members.deep_view(),
            out.deep_view() == documented_members(all.take(i as int)),
        decreases members@.len() - i,
    {
        proof {
            assert(all.take(i + 1).drop_last() == all.take(i as int));
        }
        match &members[i].name {
            Some(name) => match extract_doc_comment(&members[i].attrs) {
                Some(d) => {
                    out.insert(name.clone(), d);
                },
                None => {},
            },
            None => {},
        }
        i += 1;
    }
    assert(all.take(i as int) == all);
    out
}

/// Reads the documentation of the methods that have a doc comment.
fn read_documented_methods(members: &Vec<Member>) -> (r: Dictionary<Function>)
    ensures
        r.deep_view() == documented_methods(members.deep_view()),
{
    let mut out: Dictionary<Function> = Dictionary::new();
    let ghost all = members.deep_view();
    let mut i: usize = 0;
    while i < members.len()
        invariant
            i <= members@.len(),
            all == members.deep_view(),
            out.deep_view() == documented_methods(all.take(i as int)),
        decreases members@.len() - i,
    {
        proof {
            assert(all.take(i + 1).drop_last() == all.take(i as int));
        }
        match &members[i].name {
            Some(name) => match extract_doc_comment(&members[i].attrs) {
                Some(d) => {
                    out.insert(name.clone(), Function::from_str(d.as_str()));
                },
                None => {},
            },
            None => {},
        }
        i += 1;
    }
    assert(all.take(i as int) == all);
    out
}

/// Reads the documentation of the methods of a trait impl from what the
/// trait documents.
fn read_inherited_methods(members: &Vec<Member>, documented: Option<&Dictionary<Function>>) -> (r:
    Dictionary<Function>)
    ensures
        r.deep_view() == inherited_methods(
            members.deep_view(),
            match documented {
                Some(d) => d.deep_view(),
                None => Map::empty(),
            },
        ),
{
    let mut out: Dictionary<Function> = Dictionary::new();
    let ghost all = members.deep_view();
    let ghost known = match documented {
        Some(d) => d.deep_view(),
        None => Map::empty(),
    };
    let mut i: usize = 0;
    while i < members.len()
        invariant
            i <= members@.len(),
            all == members.deep_view(),
            known == match documented {
                Some(d) => d.deep_view(),
                None => Map::empty(),
            },
            out.deep_view() == inherited_methods(all.take(i as int), known),
        decreases members@.len() - i,
    {
        proof {
            assert(all.take(i + 1).drop_last() == all.take(i as int));
        }
        match (&members[i].name, documented) {
            (Some(name), Some(methods)) => match methods.get(name.as_str()) {
                Some(method) => {
                    out.insert(name.clone(), Function::from_str(method.description.as_str()));
                },
                None => {},
            },
            _ => {},
        }
        i += 1;
    }
    assert(all.take(i as int) == all);
    out
}

/// Reads the documented traits.
fn read_traits(items: &Vec<SourceItem>) -> (r: Dictionary<Trait>)
    ensures
        r.deep_view() == traits_of(items.deep_view()),
{
    let mut out: Dictionary<Trait> = Dictionary::new();
    let ghost all = items.deep_view();
    let mut i: usize = 0;
    while i < items.len()
        invariant
            i <= items@.len(),
            all == items.deep_view(),
            out.deep_view() == traits_of(all.take(i as int)),
        decreases items@.len() - i,
    {
        proof {
            assert(all.take(i + 1).drop_last() == all.take(i as int));
        }
        match &items[i] {
            SourceItem::Trait { name, attrs, methods } => match extract_doc_comment(attrs) {
                Some(description) => {
                    let methods = read_documented_methods(methods);
                    out.insert(name.clone(), Trait { description, methods });
                },
                None => {},
            },
            _ => {},
        }
        i += 1;
    }
    assert(all.take(i as int) == all);
    out
}

/// Reads the documented free functions.
fn read_functions(items: &Vec<SourceItem>) -> (r: Dictionary<Function>)
    ensures
        r.deep_view() == functions_of(items.deep_view()),
{
    let mut out: Dictionary<Function> = Dictionary::new();
    let ghost all = items.deep_view();
    let mut i: usize = 0;
    while i < items.len()
        invariant
            i <= items@.len(),
            all == items.deep_view(),
            out.deep_view() == functions_of(all.take(i as int)),
        decreases items@.len() - i,
    {
        proof {
            assert(all.take(i + 1).drop_last() == all.take(i as int));
        }
        match &items[i] {
            SourceItem::Function { name, attrs } => match extract_doc_comment(attrs) {
                Some(d) => {
                    out.insert(name.clone(), Function::from_str(d.as_str()));
                },
                None => {},
            },
            _ => {},
        }
        i += 1;
    }
    assert(all.take(i as int) == all);
    out
}

/// Reads the documented enums and structs.
fn read_declared(items: &Vec<SourceItem>) -> (r: Dictionary<Structure>)
    ensures
        r.deep_view() == declared_of(items.deep_view()),
{
    let mut out: Dictionary<Structure> = Dictionary::new();
    let ghost all = items.deep_view();
    let mut i: usize = 0;
    while i < items.len()
        invariant
            i <= items@.len(),
            all == items.deep_view(),
            out.deep_view() == declared_of(all.take(i as int)),
        decreases items@.len() - i,
    {
        proof {
            assert(all.take(i + 1).drop_last() == all.take(i as int));
        }
        match &items[i] {
            SourceItem::Enum { name, attrs, variants } => match extract_doc_comment(attrs) {
                Some(description) => {
                    let members = read_documented_members(variants);
                    out.insert(
                        name.clone(),
                        Structure { description, members, methods: Dictionary::new() },
                    );
                },
                None => {},
            },
            SourceItem::Struct { name, attrs, fields } => match extract_doc_comment(attrs) {
                Some(description) => {
                    let members = read_documented_members(fields);
                    out.insert(
                        name.clone(),
                        Structure { description, members, methods: Dictionary::new() },
                    );
                },
                None => {},
            },
            _ => {},
        }
        i += 1;
    }
    assert(all.take(i as int) == all);
    out
}

/// Reads the methods of one impl block.
fn read_block_methods(of_trait: &Option<String>, methods: &Vec<Member>, traits: &Dictionary<Trait>) -> (r:
    Dictionary<Function>)
    ensures
        r.deep_view() == block_methods(
            match of_trait {
                Some(t) => Some(t@),
                None => None,
            },
            methods.deep_view(),
            traits.deep_view(),
        ),
{
    match of_trait {
        Some(name) => match traits.get(name.as_str()) {
            Some(t) => read_inherited_methods(methods, Some(&t.methods)),
            None => read_inherited_methods(methods, None),
        },
        None => read_documented_methods(methods),
    }
}

/// Reads the methods of the impl blocks.
fn read_impls(items: &Vec<SourceItem>, traits: &Dictionary<Trait>) -> (r: Dictionary<
    Dictionary<Function>,
>)
    ensures
        r.deep_view() == impls_of(items.deep_view(), traits.deep_view()),
{
    let mut out: Dictionary<Dictionary<Function>> = Dictionary::new();
    let ghost all = items.deep_view();
    let ghost known = traits.deep_view();
    let mut i: usize = 0;
    while i < items.len()
        invariant
            i <= items@.len(),
            all == items.deep_view(),
            known == traits.deep_view(),
            out.deep_view() == impls_of(all.take(i as int), known),
        decreases items@.len() - i,
    {
        proof {
            assert(all.take(i + 1).drop_last() == all.take(i as int));
        }
        match &items[i] {
            SourceItem::Impl { target, of_trait, methods } => match target {
                Some(name) => {
                    let block = read_block_methods(of_trait, methods, traits);
                    match out.remove(name.as_str()) {
                        Some(earlier) => {
                            let mut merged = earlier;
                            merged.extend(block);
                            out.insert(name.clone(), merged);
                        },
                        None => {
                            out.insert(name.clone(), block);
                        },
                    }
                },
                None => {},
            },
            _ => {},
        }
        i += 1;
    }
    assert(all.take(i as int) == all);
    out
}

/// Gives each declared structure the methods of its impl blocks.
fn decorate(declared: Dictionary<Structure>, impls: Dictionary<Dictionary<Function>>) -> (r: Dictionary<
    Structure,
>)
    ensures
        r.deep_view() == decorated(declared.deep_view(), impls.deep_view()),
{
    let ghost blocks = impls.deep_view();
    let mut impls = impls;
    let mut out: Dictionary<Structure> = Dictionary::new();
    let entries = declared.into_entries();
    for entry in it: entries.into_iter()
        invariant
            it.seq() == entries@,
            distinct_names(entries@),
            out.deep_view() == decorated(entries_map(entries@.take(it.index() as int)), blocks),
            impls.deep_view() == blocks.remove_keys(
                entries_map(entries@.take(it.index() as int)).dom(),
            ),
    {
        let ghost done = entries@.take(it.index() as int);
        let ghost next = entries@.take(it.index() + 1);
        proof {
            assert(next.drop_last() == done);
            lemma_entries_map(done);
        }
        let (key, structure) = entry;
        let Structure { description, members, methods } = structure;
        let methods = match impls.remove(key.as_str()) {
            Some(block) => block,
            None => methods,
        };
        let finished = Structure { description, members, methods };
        out.insert(key, finished);
    }
    assert(entries@.take(entries@.len() as int) == entries@);
    out
}

/// Adds the traits to the structures.
fn add_traits(structures: Dictionary<Structure>, traits: Dictionary<Trait>) -> (r: Dictionary<Structure>)
    ensures
        r.deep_view() == with_traits(structures.deep_view(), traits.deep_view()),
{
    let ghost base = structures.deep_view();
    let mut out = structures;
    let entries = traits.into_entries();
    for entry in it: entries.into_iter()
        invariant
            it.seq() == entries@,
            out.deep_view() == with_traits(base, entries_map(entries@.take(it.index() as int))),
    {
        let ghost done = entries@.take(it.index() as int);
        let ghost next = entries@.take(it.index() + 1);
        let (name, documented) = entry;
        proof {
            assert(next.drop_last() == done);
        }
        out.insert(name, documented.into());
    }
    assert(entries@.take(entries@.len() as int) == entries@);
    out
}

impl Documentation {
    /// Puts together the documentation of a source file from its items.
    pub fn from_items(items: &Vec<SourceItem>) -> (r: Documentation)
        ensures
            r.deep_view() == documentation_of(items.deep_view()),
    {
        // The traits come first, so that every impl block finds them.
        let traits = read_traits(items);
        let functions = read_functions(items);
        let declared = read_declared(items);
        let impls = read_impls(items, &traits);
        let structures = add_traits(decorate(declared, impls), traits);
        Documentation { functions, structures }
    }
}

/// Extract code documentation comments from the contents of a source file.
///
/// A text that is no Rust source file gives the error of the parser. Any
/// other text gives the documentation of the items that it parses to,
/// which [`source_items`] names.
pub fn extract_documentation(source_code: &str) -> (r: Result<Documentation, SyntaxError>)
    ensures
        match source_items(source_code@) {
            Some(items) => r matches Ok(d) && d.deep_view() == documentation_of(items),
            None => r is Err,
        },
{
    match parse_source(source_code) {
        Ok(items) => {
            let documentation = Documentation::from_items(&items);
            Ok(documentation)
        },
        Err(error) => Err(error),
    }
}

} // verus!
