//! The items of a source file, as far as their doc comments are read.

use crate::text::{join_lines, joined_lines, texts, trim, trimmed};
use vstd::prelude::*;

verus! {

/// What an attribute says to a reader of doc comments.
#[derive(Debug, Clone, PartialEq, Eq)]
pub enum AttrMeta {
    /// An attribute of the form `name = value`.
    NameValue {
        /// Whether the name is the single identifier `doc`.
        named_doc: bool,
        /// The text of the value, where it is a string literal.
        text: Option<String>,
    },
    /// Any other attribute.
    Other,
}

/// The mathematical value of an [`AttrMeta`].
pub enum AttrMetaView {
    NameValue { named_doc: bool, text: Option<Seq<char>> },
    Other,
}

impl DeepView for AttrMeta {
    type V = AttrMetaView;

    open spec fn deep_view(&self) -> AttrMetaView {
        match self {
            AttrMeta::NameValue { named_doc, text } => AttrMetaView::NameValue {
                named_doc: *named_doc,
                text: match text {
                    Some(t) => Some(t@),
                    None => None,
                },
            },
            AttrMeta::Other => AttrMetaView::Other,
        }
    }
}

/// A part of an item that can bear a doc comment of its own: a method, a
/// variant or a field. A field of a tuple struct has no name.
#[derive(Debug, Clone, PartialEq, Eq)]
pub struct Member {
    pub name: Option<String>,
    pub attrs: Vec<AttrMeta>,
}

/// The mathematical value of a [`Member`].
pub struct MemberView {
    pub name: Option<Seq<char>>,
    pub attrs: Seq<AttrMetaView>,
}

impl DeepView for Member {
    type V = MemberView;

    open spec fn deep_view(&self) -> MemberView {
        MemberView {
            name: match self.name {
                Some(n) => Some(n@),
                None => None,
            },
            attrs: self.attrs.deep_view(),
        }
    }
}

/// An item of a source file.
#[derive(Debug, Clone, PartialEq, Eq)]
pub enum SourceItem {
    /// A trait with its methods.
    Trait { name: String, attrs: Vec<AttrMeta>, methods: Vec<Member> },
    /// An enum with its variants.
    Enum { name: String, attrs: Vec<AttrMeta>, variants: Vec<Member> },
    /// A struct with its fields.
    Struct { name: String, attrs: Vec<AttrMeta>, fields: Vec<Member> },
    /// An impl block with its methods: the first segment of the path of
    /// the type it is for, where that type is a path, and the first segment
    /// of the path of the trait it implements, where it implements one.
    Impl { target: Option<String>, of_trait: Option<String>, methods: Vec<Member> },
    /// A free function.
    Function { name: String, attrs: Vec<AttrMeta> },
    /// A module.
    Module { name: String },
    /// Any other item.
    Other,
}

/// The mathematical value of a [`SourceItem`].
pub enum SourceItemView {
    Trait { name: Seq<char>, attrs: Seq<AttrMetaView>, methods: Seq<MemberView> },
    Enum { name: Seq<char>, attrs: Seq<AttrMetaView>, variants: Seq<MemberView> },
    Struct { name: Seq<char>, attrs: Seq<AttrMetaView>, fields: Seq<MemberView> },
    Impl { target: Option<Seq<char>>, of_trait: Option<Seq<char>>, methods: Seq<MemberView> },
    Function { name: Seq<char>, attrs: Seq<AttrMetaView> },
    Module { name: Seq<char> },
    Other,
}

impl DeepView for SourceItem {
    type V = SourceItemView;

    open spec fn deep_view(&self) -> SourceItemView {
        match self {
            SourceItem::Trait { name, attrs, methods } => SourceItemView::Trait {
                name: name@,
                attrs: attrs.deep_view(),
                methods: methods.deep_view(),
            },
            SourceItem::Enum { name, attrs, variants } => SourceItemView::Enum {
                name: name@,
                attrs: attrs.deep_view(),
                variants: variants.deep_view(),
            },
            SourceItem::Struct { name, attrs, fields } => SourceItemView::Struct {
                name: name@,
                attrs: attrs.deep_view(),
                fields: fields.deep_view(),
            },
            SourceItem::Impl { target, of_trait, methods } => SourceItemView::Impl {
                target: match target {
                    Some(t) => Some(t@),
                    None => None,
                },
                of_trait: match of_trait {
                    Some(t) => Some(t@),
                    None => None,
                },
                methods: methods.deep_view(),
            },
            SourceItem::Function { name, attrs } => SourceItemView::Function {
                name: name@,
                attrs: attrs.deep_view(),
            },
            SourceItem::Module { name } => SourceItemView::Module { name: name@ },
            SourceItem::Other => SourceItemView::Other,
        }
    }
}

/// The line that an attribute adds to a doc comment: the trimmed text of
/// `doc = "text"`, and nothing for any other attribute.
pub open spec fn doc_line(attr: AttrMetaView) -> Option<Seq<char>> {
    match attr {
        AttrMetaView::NameValue { named_doc: true, text: Some(t) } => Some(trimmed(t)),
        _ => None,
    }
}

/// The lines of the doc comment that some attributes make up.
pub open spec fn doc_lines(attrs: Seq<AttrMetaView>) -> Seq<Seq<char>>
    decreases attrs.len(),
{
    if attrs.len() == 0 {
        Seq::empty()
    } else {
        match doc_line(attrs.last()) {
            Some(line) => doc_lines(attrs.drop_last()).push(line),
            None => doc_lines(attrs.drop_last()),
        }
    }
}

/// The doc comment that some attributes make up: its lines joined by line
/// feeds, or nothing where no attribute adds a line.
pub open spec fn doc_comment(attrs: Seq<AttrMetaView>) -> Option<Seq<char>> {
    if doc_lines(attrs).len() == 0 {
        None
    } else {
        Some(joined_lines(doc_lines(attrs)))
    }
}

/// Whether a text in the library is the text that a contract speaks of.
pub open spec fn is_text(r: Option<String>, t: Option<Seq<char>>) -> bool {
    match t {
        Some(t) => r matches Some(s) && s@ == t,
        None => r is None,
    }
}

/// Extracts the doc comment from the attributes of an item.
///
/// A doc comment reaches the attributes as one `doc = "text"` for each of
/// its lines.
pub fn extract_doc_comment(attrs: &Vec<AttrMeta>) -> (r: Option<String>)
    ensures
        is_text(r, doc_comment(attrs.deep_view())),
{
    let mut docs: Vec<String> = Vec::new();
    let ghost all = attrs.deep_view();
    let mut i: usize = 0;
    while i < attrs.len()
        invariant
            i <= attrs@.len(),
            all == attrs.deep_view(),
            texts(docs@) == doc_lines(all.take(i as int)),
        decreases attrs@.len() - i,
    {
        proof {
            assert(all.take(i + 1).drop_last() == all.take(i as int));
        }
        match &attrs[i] {
            AttrMeta::NameValue { named_doc, text } => {
                if *named_doc {
                    match text {
                        Some(t) => {
                            let line = trim(t.as_str()).to_owned();
                            docs.push(line);
                        },
                        None => {},
                    }
                }
            },
            AttrMeta::Other => {},
        }
        i += 1;
    }
    assert(all.take(i as int) == all);
    if docs.len() == 0 {
        None
    } else {
        Some(join_lines(&docs))
    }
}

} // verus!
