//! Reading a source file with `syn`, and handing on what the documentation
//! is made from as plain values.

use crate::docs::source::{
    is_text, AttrMeta, AttrMetaView, Member, MemberView, SourceItem, SourceItemView,
};
use vstd::prelude::*;

verus! {

/// `syn::Item`: an item of a parsed source file. What it holds is known
/// here by [`item_contents`] alone.
#[verifier::external_type_specification]
#[verifier::external_body]
pub struct ExItem(syn::Item);

/// `syn::Attribute`: an attribute of an item or of a part of one. What it
/// holds is known here by [`attribute_contents`] alone.
#[verifier::external_type_specification]
#[verifier::external_body]
pub struct ExAttribute(syn::Attribute);

/// `syn::Error`: why a text did not parse, of which nothing is known here.
#[verifier::external_type_specification]
#[verifier::external_body]
pub struct ExSyntaxError(syn::Error);

/// What kind of item a `syn::Item` is, with the name of an item that has
/// one.
enum ItemHead {
    Trait(String),
    Enum(String),
    Struct(String),
    Function(String),
    Module(String),
    Impl,
    Other,
}

/// A part of an item, with its attributes as `syn` holds them. What is no
/// method, variant or field has no name here.
struct RawMember {
    name: Option<String>,
    attrs: Vec<syn::Attribute>,
}

/// The items that `syn::parse_file` finds in a text, in their order, each as
/// what it holds; nothing for a text that does not parse.
pub uninterp spec fn source_items(source: Seq<char>) -> Option<Seq<SourceItemView>>;

/// What a `syn::Item` holds of that which doc comments are read from: its
/// kind, its name, its attributes, and its methods, variants or fields, each
/// with its name and attributes.
pub uninterp spec fn item_contents(item: syn::Item) -> SourceItemView;

/// What a `syn::Attribute` holds: whether it has the form `name = value`,
/// whether the name is `doc`, and the text of a value that is a string
/// literal.
pub uninterp spec fn attribute_contents(attr: syn::Attribute) -> AttrMetaView;

/// What each of some items holds.
pub open spec fn item_views(items: Seq<syn::Item>) -> Seq<SourceItemView> {
    items.map_values(|item: syn::Item| item_contents(item))
}

/// What each of some attributes holds.
pub open spec fn attribute_views(attrs: Seq<syn::Attribute>) -> Seq<AttrMetaView> {
    attrs.map_values(|attr: syn::Attribute| attribute_contents(attr))
}

/// The attributes of an item that can bear a doc comment.
pub open spec fn attrs_of(item: SourceItemView) -> Seq<AttrMetaView> {
    match item {
        SourceItemView::Trait { attrs, .. } => attrs,
        SourceItemView::Enum { attrs, .. } => attrs,
        SourceItemView::Struct { attrs, .. } => attrs,
        SourceItemView::Function { attrs, .. } => attrs,
        _ => Seq::empty(),
    }
}

/// The methods, variants or fields of an item that has any.
pub open spec fn members_of(item: SourceItemView) -> Seq<MemberView> {
    match item {
        SourceItemView::Trait { methods, .. } => methods,
        SourceItemView::Enum { variants, .. } => variants,
        SourceItemView::Struct { fields, .. } => fields,
        SourceItemView::Impl { methods, .. } => methods,
        _ => Seq::empty(),
    }
}

/// The type that an impl block is for.
pub open spec fn target_of(item: SourceItemView) -> Option<Seq<char>> {
    match item {
        SourceItemView::Impl { target, .. } => target,
        _ => None,
    }
}

/// The trait that an impl block implements.
pub open spec fn trait_of(item: SourceItemView) -> Option<Seq<char>> {
    match item {
        SourceItemView::Impl { of_trait, .. } => of_trait,
        _ => None,
    }
}

/// The head of an item is that of what the item holds.
spec fn head_matches(head: ItemHead, item: SourceItemView) -> bool {
    match head {
        ItemHead::Trait(n) => item matches SourceItemView::Trait { name, .. } && name == n@,
        ItemHead::Enum(n) => item matches SourceItemView::Enum { name, .. } && name == n@,
        ItemHead::Struct(n) => item matches SourceItemView::Struct { name, .. } && name == n@,
        ItemHead::Function(n) => item matches SourceItemView::Function { name, .. } && name == n@,
        ItemHead::Module(n) => item matches SourceItemView::Module { name } && name == n@,
        ItemHead::Impl => item is Impl,
        ItemHead::Other => item is Other,
    }
}

/// What a part holds.
spec fn raw_view(raw: RawMember) -> MemberView {
    MemberView {
        name: match raw.name {
            Some(n) => Some(n@),
            None => None,
        },
        attrs: attribute_views(raw.attrs@),
    }
}

/// What each of some parts holds.
spec fn raw_views(raw: Seq<RawMember>) -> Seq<MemberView> {
    raw.map_values(|m: RawMember| raw_view(m))
}

/// The source text was not a Rust source file.
#[derive(Debug, Clone, PartialEq, Eq)]
pub struct SyntaxError {
    /// What the parser said.
    pub message: String,
}

/// `syn::parse_file`, and the `items` field of the file that it gives.
/// Whether a text parses, and to which items, depends on the text alone.
/// The parser returns on every text: a literal of a kind that it does not
/// know is kept as it stands, and what is no source file is an error.
#[verifier::external_body]
fn parse_items(source: &str) -> (r: Result<Vec<syn::Item>, syn::Error>)
    ensures
        match r {
            Ok(items) => source_items(source@) == Some(item_views(items@)),
            Err(_) => source_items(source@) is None,
        },
{
    syn::parse_file(source).map(|file| file.items)
}

/// The `Display` text of a `syn::Error`: its first message.
#[verifier::external_body]
fn error_message(error: &syn::Error) -> (r: String) {
    error.to_string()
}

/// Tells the variants of `syn::Item` apart, and takes the `ident` of a
/// trait, an enum, a struct, a function (from its signature) or a module.
#[verifier::external_body]
fn item_head(item: &syn::Item) -> (r: ItemHead)
    ensures
        head_matches(r, item_contents(*item)),
{
    match item {
        syn::Item::Trait(t) => ItemHead::Trait(t.ident.to_string()),
        syn::Item::Enum(e) => ItemHead::Enum(e.ident.to_string()),
        syn::Item::Struct(s) => ItemHead::Struct(s.ident.to_string()),
        syn::Item::Fn(f) => ItemHead::Function(f.sig.ident.to_string()),
        syn::Item::Mod(m) => ItemHead::Module(m.ident.to_string()),
        syn::Item::Impl(_) => ItemHead::Impl,
        _ => ItemHead::Other,
    }
}

/// The `attrs` field of a trait, an enum, a struct or a function; of any
/// other item, no attribute.
#[verifier::external_body]
fn item_attrs(item: &syn::Item) -> (r: Vec<syn::Attribute>)
    ensures
        attribute_views(r@) == attrs_of(item_contents(*item)),
{
    match item {
        syn::Item::Trait(t) => t.attrs.clone(),
        syn::Item::Enum(e) => e.attrs.clone(),
        syn::Item::Struct(s) => s.attrs.clone(),
        syn::Item::Fn(f) => f.attrs.clone(),
        _ => Vec::new(),
    }
}

/// The `items` of a `syn::ItemTrait`, in their order: of a
/// `syn::TraitItem::Fn` the `ident` of its signature and its `attrs`.
#[verifier::external_body]
fn trait_methods(item: &syn::Item) -> (r: Vec<RawMember>)
    ensures
        item_contents(*item) is Trait ==> raw_views(r@) == members_of(item_contents(*item)),
{
    match item {
        syn::Item::Trait(t) => t.items.iter().map(|inner| match inner {
            syn::TraitItem::Fn(m) => RawMember {
                name: Some(m.sig.ident.to_string()),
                attrs: m.attrs.clone(),
            },
            _ => RawMember { name: None, attrs: Vec::new() },
        }).collect(),
        _ => Vec::new(),
    }
}

/// The `items` of a `syn::ItemImpl`, in their order: of a
/// `syn::ImplItem::Fn` the `ident` of its signature and its `attrs`.
#[verifier::external_body]
fn impl_methods(item: &syn::Item) -> (r: Vec<RawMember>)
    ensures
        item_contents(*item) is Impl ==> raw_views(r@) == members_of(item_contents(*item)),
{
    match item {
        syn::Item::Impl(i) => i.items.iter().map(|inner| match inner {
            syn::ImplItem::Fn(m) => RawMember {
                name: Some(m.sig.ident.to_string()),
                attrs: m.attrs.clone(),
            },
            _ => RawMember { name: None, attrs: Vec::new() },
        }).collect(),
        _ => Vec::new(),
    }
}

/// The `variants` of a `syn::ItemEnum`, in their order, each with its
/// `ident` and its `attrs`.
#[verifier::external_body]
fn enum_variants(item: &syn::Item) -> (r: Vec<RawMember>)
    ensures
        item_contents(*item) is Enum ==> raw_views(r@) == members_of(item_contents(*item)),
{
    match item {
        syn::Item::Enum(e) => e.variants.iter().map(|variant| RawMember {
            name: Some(variant.ident.to_string()),
            attrs: variant.attrs.clone(),
        }).collect(),
        _ => Vec::new(),
    }
}

/// The `fields` of a `syn::ItemStruct`, in their order, each with its
/// `ident`, where it has one, and its `attrs`.
#[verifier::external_body]
fn struct_fields(item: &syn::Item) -> (r: Vec<RawMember>)
    ensures
        item_contents(*item) is Struct ==> raw_views(r@) == members_of(item_contents(*item)),
{
    match item {
        syn::Item::Struct(s) => s.fields.iter().map(|field| RawMember {
            name: field.ident.as_ref().map(|ident| ident.to_string()),
            attrs: field.attrs.clone(),
        }).collect(),
        _ => Vec::new(),
    }
}

/// Of a `syn::ItemImpl` whose `self_ty` is a `syn::Type::Path`, the `ident`
/// of the first segment of that path.
#[verifier::external_body]
fn impl_target(item: &syn::Item) -> (r: Option<String>)
    ensures
        is_text(r, target_of(item_contents(*item))),
{
    match item {
        syn::Item::Impl(i) => match &*i.self_ty {
            syn::Type::Path(p) => p.path.segments.first().map(|s| s.ident.to_string()),
            _ => None,
        },
        _ => None,
    }
}

/// Of a `syn::ItemImpl` whose `trait_` is a path without `!` before it,
/// the `ident` of the first segment of that path.
#[verifier::external_body]
fn impl_trait(item: &syn::Item) -> (r: Option<String>)
    ensures
        is_text(r, trait_of(item_contents(*item))),
{
    match item {
        syn::Item::Impl(i) => match &i.trait_ {
            Some((None, path, _)) => path.segments.first().map(|s| s.ident.to_string()),
            _ => None,
        },
        _ => None,
    }
}

/// The `meta` of a `syn::Attribute`: of a `syn::Meta::NameValue`, whether
/// `syn::Path::is_ident` holds of its path and `name`, and the
/// `syn::LitStr::value` of its value where that is the literal expression
/// of a `syn::Lit::Str`. Asked for the name `doc`, that is what the
/// attribute holds.
#[verifier::external_body]
fn attribute_meta(attr: &syn::Attribute, name: &str) -> (r: AttrMeta)
    ensures
        name@ == "doc"@ ==> r.deep_view() == attribute_contents(*attr),
{
    match &attr.meta {
        syn::Meta::NameValue(nv) => AttrMeta::NameValue {
            named_doc: nv.path.is_ident(name),
            text: match &nv.value {
                syn::Expr::Lit(syn::ExprLit { lit: syn::Lit::Str(s), .. }) => Some(s.value()),
                _ => None,
            },
        },
        _ => AttrMeta::Other,
    }
}

/// Reads each of some attributes.
fn read_attrs(attrs: &Vec<syn::Attribute>) -> (r: Vec<AttrMeta>)
    ensures
        r.deep_view() == attribute_views(attrs@),
{
    let mut out: Vec<AttrMeta> = Vec::new();
    let mut i: usize = 0;
    while i < attrs.len()
        invariant
            i <= attrs@.len(),
            out@.len() == i,
            forall|j: int| 0 <= j < i ==> (#[trigger] out@[j]).deep_view() == attribute_contents(attrs@[j]),
        decreases attrs@.len() - i,
    {
        out.push(attribute_meta(&attrs[i], "doc"));
        i += 1;
    }
    assert(out.deep_view() =~= attribute_views(attrs@));
    out
}

/// Reads the attributes of each of some parts.
fn read_members(raw: &Vec<RawMember>) -> (r: Vec<Member>)
    ensures
        r.deep_view() == raw_views(raw@),
{
    let mut out: Vec<Member> = Vec::new();
    let mut i: usize = 0;
    while i < raw.len()
        invariant
            i <= raw@.len(),
            out@.len() == i,
            forall|j: int| 0 <= j < i ==> (#[trigger] out@[j]).deep_view() == raw_view(raw@[j]),
        decreases raw@.len() - i,
    {
        let name = match &raw[i].name {
            Some(n) => Some(n.clone()),
            None => None,
        };
        out.push(Member { name, attrs: read_attrs(&raw[i].attrs) });
        i += 1;
    }
    assert(out.deep_view() =~= raw_views(raw@));
    out
}

/// Reads one item: what comes out is what the item holds.
fn read_item(item: &syn::Item) -> (r: SourceItem)
    ensures
        r.deep_view() == item_contents(*item),
{
    match item_head(item) {
        ItemHead::Trait(name) => SourceItem::Trait {
            name,
            attrs: read_attrs(&item_attrs(item)),
            methods: read_members(&trait_methods(item)),
        },
        ItemHead::Enum(name) => SourceItem::Enum {
            name,
            attrs: read_attrs(&item_attrs(item)),
            variants: read_members(&enum_variants(item)),
        },
        ItemHead::Struct(name) => SourceItem::Struct {
            name,
            attrs: read_attrs(&item_attrs(item)),
            fields: read_members(&struct_fields(item)),
        },
        ItemHead::Function(name) => SourceItem::Function {
            name,
            attrs: read_attrs(&item_attrs(item)),
        },
        ItemHead::Module(name) => SourceItem::Module { name },
        ItemHead::Impl => SourceItem::Impl {
            target: impl_target(item),
            of_trait: impl_trait(item),
            methods: read_members(&impl_methods(item)),
        },
        ItemHead::Other => SourceItem::Other,
    }
}

/// Parses a source file into its items, in their order, or says why it is
/// no source file. A text parses or not, and to which items, as
/// [`source_items`] says.
pub fn parse_source(source: &str) -> (r: Result<Vec<SourceItem>, SyntaxError>)
    ensures
        match source_items(source@) {
            Some(items) => r matches Ok(read) && read.deep_view() == items,
            None => r is Err,
        },
{
    match parse_items(source) {
        Ok(items) => {
            let mut out: Vec<SourceItem> = Vec::new();
            let mut i: usize = 0;
            while i < items.len()
                invariant
                    i <= items@.len(),
                    out@.len() == i,
                    forall|j: int| 0 <= j < i ==> (#[trigger] out@[j]).deep_view() == item_contents(items@[j]),
                decreases items@.len() - i,
            {
                out.push(read_item(&items[i]));
                i += 1;
            }
            assert(out.deep_view() =~= item_views(items@));
            Ok(out)
        },
        Err(error) => Err(SyntaxError { message: error_message(&error) }),
    }
}

} // verus!
