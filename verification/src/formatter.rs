//! The formatting rules: from a documentation entry to its markup document.
//!
//! A document is put together from five phases in a fixed order: the header,
//! the note on where the item comes from, the signature, the body and the
//! related items.

use vstd::prelude::*;
use crate::document::{
    parent_path, path_text, Attributes, DocInnerData, Documentation, EntryView, FnKind, InnerView,
    ModPath, TraitItemKind, TraitItemKindView,
};
use crate::markup::{markdown_sources, Format, Markup, MarkupDoc, MarkupView};
use crate::text::{join, join_strings};

verus! {

/// The width of the rules that frame a signature.
pub const RULE_WIDTH: usize = 10;

/// The characters of an optional text, none where it is absent.
pub open spec fn text_or_empty(value: Option<Seq<char>>) -> Seq<char> {
    match value {
        Some(text) => text,
        None => Seq::empty(),
    }
}

/// The name of an entry's kind as the header shows it.
pub open spec fn kind_label(inner: InnerView) -> Seq<char> {
    match inner {
        InnerView::Function { .. } => "Function"@,
        InnerView::Struct => "Struct"@,
        InnerView::Const { .. } => "Constant"@,
        InnerView::Enum => "Enum"@,
        InnerView::Trait => "Trait"@,
        InnerView::TraitItem { .. } => "Trait Item"@,
        InnerView::Module { is_crate_root } => if is_crate_root {
            "Crate"@
        } else {
            "Module"@
        },
    }
}

/// Header phase: the crate label in parentheses, then the kind and the path.
pub open spec fn header_phase(entry: EntryView) -> Seq<MarkupView> {
    seq![
        MarkupView::Block("("@ + entry.crate_info + ")"@),
        MarkupView::Header(kind_label(entry.inner_data) + " "@ + path_text(entry.qualified_path)),
    ]
}

/// The one directive of the phase that says where an item comes from.
pub open spec fn inner_info(entry: EntryView) -> MarkupView {
    match entry.inner_data {
        InnerView::Function { origin_kind: FnKind::MethodFromImpl, .. } => MarkupView::Header(
            "Impl on type "@ + path_text(parent_path(entry.qualified_path)),
        ),
        InnerView::TraitItem { .. } => MarkupView::Header(
            "From trait "@ + path_text(parent_path(entry.qualified_path)),
        ),
        _ => MarkupView::LineBreak,
    }
}

/// Inner-info phase: the type a method is implemented on, the trait a trait
/// item belongs to, an empty line for everything else.
pub open spec fn inner_info_phase(entry: EntryView) -> Seq<MarkupView> {
    seq![inner_info(entry)]
}

/// The signature of a module at `path`.
pub open spec fn module_signature(path: Seq<Seq<char>>) -> Seq<char> {
    "mod "@ + path_text(path)
}

/// The signature of a function or method named `name`.
pub open spec fn fn_signature(name: Seq<char>, signature_text: Seq<char>) -> Seq<char> {
    "fn "@ + name + " "@ + signature_text
}

/// The signature of an enum named `name`.
pub open spec fn enum_signature(name: Seq<char>) -> Seq<char> {
    "enum "@ + name
}

/// The signature of a struct named `name`; its fields are not shown.
pub open spec fn struct_signature(name: Seq<char>) -> Seq<char> {
    "struct "@ + name + " { /* fields omitted */ }"@
}

/// The signature of a constant named `name`.
pub open spec fn const_signature(name: Seq<char>, ty: Seq<char>, expr_text: Seq<char>) -> Seq<
    char,
> {
    "const "@ + name + ": "@ + ty + " = "@ + expr_text
}

/// The signature of a trait named `name`; its items are not shown.
pub open spec fn trait_signature(name: Seq<char>) -> Seq<char> {
    "trait "@ + name + " { /* fields omitted */ }"@
}

/// The signature of an associated type that stands for `ty`.
pub open spec fn type_signature(ty: Seq<char>) -> Seq<char> {
    "type "@ + ty
}

/// The signature of a macro named `name`.
pub open spec fn macro_signature(name: Seq<char>, body_text: Seq<char>) -> Seq<char> {
    "macro "@ + name + " "@ + body_text
}

/// The signature of a trait item named `name`.
pub open spec fn trait_item_signature(name: Seq<char>, kind: TraitItemKindView) -> Seq<char> {
    match kind {
        TraitItemKindView::Const { ty, expr_text } => const_signature(
            name,
            ty,
            text_or_empty(expr_text),
        ),
        TraitItemKindView::Method { signature_text } => fn_signature(name, signature_text),
        TraitItemKindView::Type { ty } => type_signature(text_or_empty(ty)),
        TraitItemKindView::Macro { body_text } => macro_signature(name, body_text),
    }
}

/// The one-line signature of an entry.
pub open spec fn signature_line(entry: EntryView) -> Seq<char> {
    match entry.inner_data {
        InnerView::Module { .. } => module_signature(entry.qualified_path),
        InnerView::Function { signature_text, .. } => fn_signature(
            entry.display_name,
            signature_text,
        ),
        InnerView::Enum => enum_signature(entry.display_name),
        InnerView::Struct => struct_signature(entry.display_name),
        InnerView::Const { ty, expr_text } => const_signature(entry.display_name, ty, expr_text),
        InnerView::Trait => trait_signature(entry.display_name),
        InnerView::TraitItem { kind } => trait_item_signature(entry.display_name, kind),
    }
}

/// Whether the entry documents the root module of a crate.
pub open spec fn is_crate_root(entry: EntryView) -> bool {
    entry.inner_data == (InnerView::Module { is_crate_root: true })
}

/// The line that shows visibility and signature between the two rules.
pub open spec fn framed_line(entry: EntryView) -> Seq<char> {
    "  "@ + text_or_empty(entry.visibility) + " "@ + signature_line(entry)
}

/// Signature phase: a crate has no signature, only a rule; every other item
/// has its signature line between two rules.
pub open spec fn signature_phase(entry: EntryView) -> Seq<MarkupView> {
    if is_crate_root(entry) {
        seq![MarkupView::Rule(RULE_WIDTH as nat), MarkupView::LineBreak]
    } else {
        seq![
            MarkupView::Rule(RULE_WIDTH as nat),
            MarkupView::LineBreak,
            MarkupView::Block(framed_line(entry)),
            MarkupView::LineBreak,
            MarkupView::Rule(RULE_WIDTH as nat),
            MarkupView::LineBreak,
        ]
    }
}

/// What stands between two lines of a doc comment.
pub open spec fn line_separator() -> Seq<char> {
    seq!['\n']
}

/// The lines of a doc comment as one Markdown directive.
pub open spec fn attributes_markup(lines: Seq<Seq<char>>) -> Seq<MarkupView> {
    seq![MarkupView::Markdown(join(lines, line_separator()))]
}

/// Body phase: the doc comment.
pub open spec fn body_phase(entry: EntryView) -> Seq<MarkupView> {
    attributes_markup(entry.attributes)
}

/// Related-items phase: holds nothing.
pub open spec fn related_items_phase(entry: EntryView) -> Seq<MarkupView> {
    Seq::empty()
}

/// The document of an entry: its five phases in order.
pub open spec fn entry_markup(entry: EntryView) -> Seq<MarkupView> {
    header_phase(entry) + inner_info_phase(entry) + signature_phase(entry) + body_phase(entry)
        + related_items_phase(entry)
}

/// A path alone, as a header.
pub open spec fn path_markup(path: Seq<Seq<char>>) -> Seq<MarkupView> {
    seq![MarkupView::Header(path_text(path))]
}

/// Header phase of the document of `data`.
pub fn doc_header(data: &Documentation) -> (doc: MarkupDoc)
    ensures
        doc@ == header_phase(data@),
{
    let name = match &data.inner_data {
        DocInnerData::Function { .. } => "Function",
        DocInnerData::Struct => "Struct",
        DocInnerData::Const { .. } => "Constant",
        DocInnerData::Enum => "Enum",
        DocInnerData::Trait => "Trait",
        DocInnerData::TraitItem { .. } => "Trait Item",
        DocInnerData::Module { is_crate_root } => if *is_crate_root {
            "Crate"
        } else {
            "Module"
        },
    };
    let mut label = String::from_str("(");
    label.append(data.crate_info.as_str());
    label.append(")");
    let mut title = String::from_str(name);
    title.append(" ");
    title.append(data.qualified_path.to_string().as_str());
    let doc = MarkupDoc::new(vec![Markup::Block(label), Markup::Header(title)]);
    assert(doc@ == header_phase(data@));
    doc
}

/// Body phase of the document of `data`.
pub fn doc_body(data: &Documentation) -> (doc: MarkupDoc)
    ensures
        doc@ == body_phase(data@),
{
    data.attributes.format()
}

/// Related-items phase of the document of `data`.
pub fn doc_related_items(data: &Documentation) -> (doc: MarkupDoc)
    ensures
        doc@ == related_items_phase(data@),
{
    let doc = MarkupDoc::new(Vec::new());
    assert(doc@ == related_items_phase(data@));
    doc
}

/// Inner-info phase of the document of `data`.
pub fn doc_inner_info(data: &Documentation) -> (doc: MarkupDoc)
    ensures
        doc@ == inner_info_phase(data@),
{
    let markup = match &data.inner_data {
        DocInnerData::Function { origin_kind, .. } => {
            match origin_kind {
                FnKind::MethodFromImpl => {
                    let mut text = String::from_str("Impl on type ");
                    text.append(data.qualified_path.parent_to_string().as_str());
                    Markup::Header(text)
                },
                _ => Markup::LineBreak,
            }
        },
        DocInnerData::TraitItem { .. } => {
            let mut text = String::from_str("From trait ");
            text.append(data.qualified_path.parent_to_string().as_str());
            Markup::Header(text)
        },
        DocInnerData::Struct
        | DocInnerData::Const { .. }
        | DocInnerData::Enum
        | DocInnerData::Trait
        | DocInnerData::Module { .. } => Markup::LineBreak,
    };
    assert(markup@ == inner_info(data@));
    let doc = MarkupDoc::new(vec![markup]);
    assert(doc@ == inner_info_phase(data@));
    doc
}

/// Signature phase of the document of `data`.
pub fn doc_signature(data: &Documentation) -> (doc: MarkupDoc)
    ensures
        doc@ == signature_phase(data@),
{
    let vis_string = match &data.visibility {
        Some(v) => v.clone(),
        None => String::new(),
    };
    let header = match &data.inner_data {
        DocInnerData::Module { is_crate_root } => {
            if *is_crate_root {
                let doc = MarkupDoc::new(vec![Markup::Rule(RULE_WIDTH), Markup::LineBreak]);
                assert(doc@ == signature_phase(data@));
                return doc;
            } else {
                doc_module(data)
            }
        },
        DocInnerData::Function { signature_text, .. } => doc_fn(data, signature_text.as_str()),
        DocInnerData::Enum => doc_enum(data),
        DocInnerData::Struct => doc_struct(data),
        DocInnerData::Const { ty, expr_text } => doc_const(data, ty.as_str(), expr_text.as_str()),
        DocInnerData::Trait => doc_trait(data),
        DocInnerData::TraitItem { kind } => doc_trait_item(data, kind),
    };
    assert(header@ == signature_line(data@));
    let mut line = String::from_str("  ");
    line.append(vis_string.as_str());
    line.append(" ");
    line.append(header.as_str());
    assert(line@ == framed_line(data@));
    let doc = MarkupDoc::new(
        vec![
            Markup::Rule(RULE_WIDTH),
            Markup::LineBreak,
            Markup::Block(line),
            Markup::LineBreak,
            Markup::Rule(RULE_WIDTH),
            Markup::LineBreak,
        ],
    );
    assert(doc@ == signature_phase(data@));
    doc
}

/// The signature line of a module.
pub fn doc_module(data: &Documentation) -> (out: String)
    ensures
        out@ == module_signature(data@.qualified_path),
{
    let mut out = String::from_str("mod ");
    out.append(data.qualified_path.to_string().as_str());
    out
}

/// The signature line of a function.
pub fn doc_fn(data: &Documentation, signature_text: &str) -> (out: String)
    ensures
        out@ == fn_signature(data@.display_name, signature_text@),
{
    let mut out = String::from_str("fn ");
    out.append(data.display_name.as_str());
    out.append(" ");
    out.append(signature_text);
    out
}

/// The signature line of an enum.
pub fn doc_enum(data: &Documentation) -> (out: String)
    ensures
        out@ == enum_signature(data@.display_name),
{
    let mut out = String::from_str("enum ");
    out.append(data.display_name.as_str());
    out
}

/// The signature line of a struct.
pub fn doc_struct(data: &Documentation) -> (out: String)
    ensures
        out@ == struct_signature(data@.display_name),
{
    let mut out = String::from_str("struct ");
    out.append(data.display_name.as_str());
    out.append(" { /* fields omitted */ }");
    out
}

/// The signature line of a constant.
pub fn doc_const(data: &Documentation, ty: &str, expr_text: &str) -> (out: String)
    ensures
        out@ == const_signature(data@.display_name, ty@, expr_text@),
{
    let mut out = String::from_str("const ");
    out.append(data.display_name.as_str());
    out.append(": ");
    out.append(ty);
    out.append(" = ");
    out.append(expr_text);
    out
}

/// The signature line of a trait.
pub fn doc_trait(data: &Documentation) -> (out: String)
    ensures
        out@ == trait_signature(data@.display_name),
{
    let mut out = String::from_str("trait ");
    out.append(data.display_name.as_str());
    out.append(" { /* fields omitted */ }");
    out
}

/// The signature line of a trait item.
pub fn doc_trait_item(data: &Documentation, item: &TraitItemKind) -> (out: String)
    ensures
        out@ == trait_item_signature(data@.display_name, item@),
{
    match item {
        TraitItemKind::Const { ty, expr_text } => {
            let expr_string = match expr_text {
                Some(e) => e.clone(),
                None => String::new(),
            };
            doc_const(data, ty.as_str(), expr_string.as_str())
        },
        TraitItemKind::Method { signature_text } => doc_fn(data, signature_text.as_str()),
        TraitItemKind::Type { ty } => {
            let ty_string = match ty {
                Some(t) => t.clone(),
                None => String::new(),
            };
            let mut out = String::from_str("type ");
            out.append(ty_string.as_str());
            out
        },
        TraitItemKind::Macro { body_text } => {
            let mut out = String::from_str("macro ");
            out.append(data.display_name.as_str());
            out.append(" ");
            out.append(body_text.as_str());
            out
        },
    }
}

impl Format for Documentation {
    open spec fn markup(&self) -> Seq<MarkupView> {
        entry_markup(self@)
    }

    fn format(&self) -> (doc: MarkupDoc) {
        let header = doc_header(self);
        let info = doc_inner_info(self);
        let signature = doc_signature(self);
        let body = doc_body(self);
        let related_items = doc_related_items(self);

        let mut result = MarkupDoc::new(Vec::new());
        assert(result@ =~= Seq::<MarkupView>::empty());
        result.extend(header);
        result.extend(info);
        result.extend(signature);
        result.extend(body);
        result.extend(related_items);
        result
    }
}

impl Format for ModPath {
    open spec fn markup(&self) -> Seq<MarkupView> {
        path_markup(self@)
    }

    fn format(&self) -> (doc: MarkupDoc) {
        let doc = MarkupDoc::new(vec![Markup::Header(self.to_string())]);
        assert(doc@ == path_markup(self@));
        doc
    }
}

impl Format for Attributes {
    open spec fn markup(&self) -> Seq<MarkupView> {
        attributes_markup(self@)
    }

    fn format(&self) -> (doc: MarkupDoc) {
        let body = join_strings(&self.doc_strings, "\n");
        proof {
            reveal_strlit("\n");
            assert("\n"@ == line_separator());
        }
        let doc = MarkupDoc::new(vec![Markup::Markdown(body)]);
        assert(doc@ == attributes_markup(self@));
        doc
    }
}

/// Whatever an entry documents, its document starts with the crate label in
/// parentheses, followed by a header that names the kind and ends with the
/// written path.
pub proof fn lemma_document_starts_with_header(entry: EntryView)
    ensures
        entry_markup(entry).len() >= 2,
        entry_markup(entry)[0] == MarkupView::Block("("@ + entry.crate_info + ")"@),
        entry_markup(entry)[1] == MarkupView::Header(
            kind_label(entry.inner_data) + " "@ + path_text(entry.qualified_path),
        ),
{
}

/// The number of directives in the signature phase: two for a crate, six for
/// every other item.
pub open spec fn signature_len(entry: EntryView) -> int {
    if is_crate_root(entry) {
        2
    } else {
        6
    }
}

/// The phases stand in a document in their fixed order, each in one piece:
/// two directives of header, one of inner info, the signature, one of body,
/// and nothing after it. Every phase but the last holds a directive.
pub proof fn lemma_phases_in_order(entry: EntryView)
    ensures
        entry_markup(entry).len() == 4 + signature_len(entry),
        entry_markup(entry).subrange(0, 2) == header_phase(entry),
        entry_markup(entry).subrange(2, 3) == inner_info_phase(entry),
        entry_markup(entry).subrange(3, 3 + signature_len(entry)) == signature_phase(entry),
        entry_markup(entry).subrange(3 + signature_len(entry), 4 + signature_len(entry))
            == body_phase(entry),
        related_items_phase(entry).len() == 0,
{
    let doc = entry_markup(entry);
    let n = signature_len(entry);
    assert(signature_phase(entry).len() == n);
    assert(doc.subrange(0, 2) =~= header_phase(entry));
    assert(doc.subrange(2, 3) =~= inner_info_phase(entry));
    assert(doc.subrange(3, 3 + n) =~= signature_phase(entry));
    assert(doc.subrange(3 + n, 4 + n) =~= body_phase(entry));
}

/// The document of a crate's root module: label, header, an empty line, one
/// rule with its line break, and the body. It has no signature line.
pub proof fn lemma_crate_root_document(entry: EntryView)
    requires
        is_crate_root(entry),
    ensures
        signature_phase(entry) == seq![MarkupView::Rule(10), MarkupView::LineBreak],
        entry_markup(entry) == header_phase(entry) + seq![
            MarkupView::LineBreak,
            MarkupView::Rule(10),
            MarkupView::LineBreak,
        ] + body_phase(entry),
{
    assert(entry_markup(entry) =~= header_phase(entry) + seq![
        MarkupView::LineBreak,
        MarkupView::Rule(10),
        MarkupView::LineBreak,
    ] + body_phase(entry));
}

/// A document ends with its only Markdown directive, and the source of that
/// directive is the lines of the doc comment, in their order, with a line
/// break between each two.
pub proof fn lemma_body_is_joined_attributes(entry: EntryView)
    ensures
        entry_markup(entry).last() == MarkupView::Markdown(
            join(entry.attributes, line_separator()),
        ),
        markdown_sources(entry_markup(entry)) == seq![join(entry.attributes, line_separator())],
{
    let doc = entry_markup(entry);
    let n = signature_len(entry);
    lemma_phases_in_order(entry);
    assert(doc.last() == body_phase(entry)[0]);
    lemma_no_markdown_before_body(entry, 3 + n);
    assert(doc.drop_last() == doc.take(3 + n));
}

/// No directive before the body is a Markdown directive.
proof fn lemma_no_markdown_before_body(entry: EntryView, count: int)
    requires
        0 <= count <= 3 + signature_len(entry),
    ensures
        markdown_sources(entry_markup(entry).take(count)).len() == 0,
    decreases count,
{
    let doc = entry_markup(entry);
    if count > 0 {
        lemma_no_markdown_before_body(entry, count - 1);
        assert(doc.take(count).drop_last() == doc.take(count - 1));
        assert(doc.take(count).last() == doc[count - 1]);
        if count <= 2 {
            assert(doc[count - 1] == header_phase(entry)[count - 1]);
        } else if count == 3 {
            assert(doc[2] == inner_info(entry));
        } else {
            assert(doc[count - 1] == signature_phase(entry)[count - 4]);
        }
    }
}

} // verus!
