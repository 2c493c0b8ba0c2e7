//! The documentation model: one documented source item, as plain data.

use vstd::prelude::*;
use crate::text::{join, join_prefix, texts};

verus! {

/// Where a function comes from.
#[derive(Debug, Clone, Copy, PartialEq, Eq)]
pub enum FnKind {
    FreeFunction,
    MethodFromImpl,
    MethodFromTrait,
}

/// What a member of a trait is.
#[allow(inconsistent_fields)]
#[derive(Debug, Clone, PartialEq, Eq)]
pub enum TraitItemKind {
    Const { ty: String, expr_text: Option<String> },
    Method { signature_text: String },
    Type { ty: Option<String> },
    Macro { body_text: String },
}

/// What kind of item an entry documents, with the data of that kind.
#[derive(Debug, Clone, PartialEq, Eq)]
pub enum DocInnerData {
    Function { signature_text: String, origin_kind: FnKind },
    Struct,
    Const { ty: String, expr_text: String },
    Enum,
    Trait,
    TraitItem { kind: TraitItemKind },
    Module { is_crate_root: bool },
}

/// The module and type segments that lead to an item, outermost first.
#[derive(Debug, Clone, PartialEq, Eq)]
pub struct ModPath {
    pub segments: Vec<String>,
}

/// The lines of an item's doc comment, in source order.
#[derive(Debug, Clone, PartialEq, Eq)]
pub struct Attributes {
    pub doc_strings: Vec<String>,
}

/// One documented source item.
#[derive(Debug, Clone, PartialEq, Eq)]
pub struct Documentation {
    pub qualified_path: ModPath,
    pub display_name: String,
    pub crate_info: String,
    pub visibility: Option<String>,
    pub inner_data: DocInnerData,
    pub attributes: Attributes,
}

/// A trait member's kind over sequences of characters.
#[allow(inconsistent_fields)]
pub ghost enum TraitItemKindView {
    Const { ty: Seq<char>, expr_text: Option<Seq<char>> },
    Method { signature_text: Seq<char> },
    Type { ty: Option<Seq<char>> },
    Macro { body_text: Seq<char> },
}

/// An entry's kind over sequences of characters.
pub ghost enum InnerView {
    Function { signature_text: Seq<char>, origin_kind: FnKind },
    Struct,
    Const { ty: Seq<char>, expr_text: Seq<char> },
    Enum,
    Trait,
    TraitItem { kind: TraitItemKindView },
    Module { is_crate_root: bool },
}

/// An entry over sequences of characters.
pub ghost struct EntryView {
    pub qualified_path: Seq<Seq<char>>,
    pub display_name: Seq<char>,
    pub crate_info: Seq<char>,
    pub visibility: Option<Seq<char>>,
    pub inner_data: InnerView,
    pub attributes: Seq<Seq<char>>,
}

/// The characters of an optional string.
pub open spec fn optional_text(value: Option<String>) -> Option<Seq<char>> {
    match value {
        Some(s) => Some(s@),
        None => None,
    }
}

impl View for TraitItemKind {
    type V = TraitItemKindView;

    open spec fn view(&self) -> TraitItemKindView {
        match *self {
            TraitItemKind::Const { ty, expr_text } => TraitItemKindView::Const {
                ty: ty@,
                expr_text: optional_text(expr_text),
            },
            TraitItemKind::Method { signature_text } => TraitItemKindView::Method {
                signature_text: signature_text@,
            },
            TraitItemKind::Type { ty } => TraitItemKindView::Type {
                ty: optional_text(ty),
            },
            TraitItemKind::Macro { body_text } => TraitItemKindView::Macro {
                body_text: body_text@,
            },
        }
    }
}

impl View for DocInnerData {
    type V = InnerView;

    open spec fn view(&self) -> InnerView {
        match *self {
            DocInnerData::Function { signature_text, origin_kind } => InnerView::Function {
                signature_text: signature_text@,
                origin_kind,
            },
            DocInnerData::Struct => InnerView::Struct,
            DocInnerData::Const { ty, expr_text } => InnerView::Const {
                ty: ty@,
                expr_text: expr_text@,
            },
            DocInnerData::Enum => InnerView::Enum,
            DocInnerData::Trait => InnerView::Trait,
            DocInnerData::TraitItem { kind } => InnerView::TraitItem { kind: kind@ },
            DocInnerData::Module { is_crate_root } => InnerView::Module { is_crate_root },
        }
    }
}

impl View for ModPath {
    type V = Seq<Seq<char>>;

    open spec fn view(&self) -> Seq<Seq<char>> {
        texts(self.segments@)
    }
}

impl View for Attributes {
    type V = Seq<Seq<char>>;

    open spec fn view(&self) -> Seq<Seq<char>> {
        texts(self.doc_strings@)
    }
}

impl View for Documentation {
    type V = EntryView;

    open spec fn view(&self) -> EntryView {
        EntryView {
            qualified_path: self.qualified_path@,
            display_name: self.display_name@,
            crate_info: self.crate_info@,
            visibility: optional_text(self.visibility),
            inner_data: self.inner_data@,
            attributes: self.attributes@,
        }
    }
}

/// The separator between the segments of a written path.
pub open spec fn path_separator() -> Seq<char> {
    seq![':', ':']
}

/// A path as it is written: its segments with `::` between them.
pub open spec fn path_text(path: Seq<Seq<char>>) -> Seq<char> {
    join(path, path_separator())
}

/// A path without its last segment. The empty path, which has no last
/// segment, is its own parent.
pub open spec fn parent_path(path: Seq<Seq<char>>) -> Seq<Seq<char>> {
    if path.len() == 0 {
        path
    } else {
        path.drop_last()
    }
}

impl ModPath {
    /// A path of the given segments, outermost first.
    pub fn new(segments: Vec<String>) -> (path: ModPath)
        ensures
            path.segments == segments,
    {
        ModPath { segments }
    }

    /// The path as it is written.
    pub fn to_string(&self) -> (out: String)
        ensures
            out@ == path_text(self@),
    {
        proof {
            reveal_strlit("::");
            assert("::"@ == path_separator());
            assert(texts(self.segments@).take(self.segments@.len() as int) == texts(
                self.segments@,
            ));
        }
        join_prefix(&self.segments, self.segments.len(), "::")
    }

    /// The parent path as it is written.
    pub fn parent_to_string(&self) -> (out: String)
        ensures
            out@ == path_text(parent_path(self@)),
    {
        proof {
            reveal_strlit("::");
            assert("::"@ == path_separator());
        }
        if self.segments.len() == 0 {
            proof {
                assert(texts(self.segments@).take(0) == self@);
            }
            join_prefix(&self.segments, 0, "::")
        } else {
            proof {
                assert(texts(self.segments@).take(self.segments@.len() - 1) == self@.drop_last());
            }
            join_prefix(&self.segments, self.segments.len() - 1, "::")
        }
    }
}

} // verus!
