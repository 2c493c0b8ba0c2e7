//! Markup directives, documents made of them, and their rendering as
//! terminal text.

use vstd::prelude::*;
use crate::terminal::{bold_text, paint_bold};
use crate::text::{dashes, repeated, texts};

verus! {

/// One formatting instruction.
#[derive(Debug, Clone, PartialEq, Eq)]
pub enum Markup {
    Header(String),
    Section(String),
    Block(String),
    Markdown(String),
    Rule(usize),
    LineBreak,
}

/// A directive over sequences of characters.
pub ghost enum MarkupView {
    Header(Seq<char>),
    Section(Seq<char>),
    Block(Seq<char>),
    Markdown(Seq<char>),
    Rule(nat),
    LineBreak,
}

impl View for Markup {
    type V = MarkupView;

    open spec fn view(&self) -> MarkupView {
        match *self {
            Markup::Header(text) => MarkupView::Header(text@),
            Markup::Section(text) => MarkupView::Section(text@),
            Markup::Block(text) => MarkupView::Block(text@),
            Markup::Markdown(text) => MarkupView::Markdown(text@),
            Markup::Rule(width) => MarkupView::Rule(width as nat),
            Markup::LineBreak => MarkupView::LineBreak,
        }
    }
}

/// A formatted piece of documentation made up of individual markup pieces.
#[derive(Debug, Clone, PartialEq, Eq)]
pub struct MarkupDoc {
    pub parts: Vec<Markup>,
}

/// The directives of a vector, each by its view.
pub open spec fn directives(parts: Seq<Markup>) -> Seq<MarkupView> {
    Seq::new(parts.len(), |i: int| parts[i]@)
}

impl View for MarkupDoc {
    type V = Seq<MarkupView>;

    open spec fn view(&self) -> Seq<MarkupView> {
        directives(self.parts@)
    }
}

/// What stands before the text of a header.
pub open spec fn header_mark() -> Seq<char> {
    seq!['=', '=', '=', '=', ' ']
}

/// What stands before the text of a section title.
pub open spec fn section_mark() -> Seq<char> {
    seq!['=', '=', ' ']
}

/// The line break that ends the text of every directive.
pub open spec fn line_end() -> Seq<char> {
    seq!['\n']
}

/// The text of one directive. `converted` is the terminal text that the
/// source of a `Markdown` directive was converted to; no other directive
/// reads it.
pub open spec fn directive_text(directive: MarkupView, converted: Seq<char>) -> Seq<char> {
    match directive {
        MarkupView::Header(text) => bold_text(header_mark() + text),
        MarkupView::Section(text) => bold_text(section_mark() + text),
        MarkupView::Block(text) => text,
        MarkupView::Markdown(_) => converted,
        MarkupView::Rule(width) => repeated('-', width),
        MarkupView::LineBreak => Seq::empty(),
    }
}

/// The sources of the `Markdown` directives among `parts`, in order.
pub open spec fn markdown_sources(parts: Seq<MarkupView>) -> Seq<Seq<char>>
    decreases parts.len(),
{
    if parts.len() == 0 {
        Seq::empty()
    } else {
        match parts.last() {
            MarkupView::Markdown(source) => markdown_sources(parts.drop_last()).push(source),
            _ => markdown_sources(parts.drop_last()),
        }
    }
}

/// The text of a document: the text of each directive in order, each ended
/// by a line break. The n-th `Markdown` directive stands as the n-th of
/// `converted`.
pub open spec fn document_text(parts: Seq<MarkupView>, converted: Seq<Seq<char>>) -> Seq<char>
    decreases parts.len(),
{
    if parts.len() == 0 {
        Seq::empty()
    } else {
        let before = parts.drop_last();
        let own = match parts.last() {
            MarkupView::Markdown(_) => converted[markdown_sources(before).len() as int],
            _ => Seq::empty(),
        };
        document_text(before, converted) + directive_text(parts.last(), own) + line_end()
    }
}

/// A longer prefix of a document holds at least as many `Markdown`
/// directives as a shorter one.
pub proof fn lemma_markdown_sources_grow(parts: Seq<MarkupView>, shorter: int, longer: int)
    requires
        0 <= shorter <= longer <= parts.len(),
    ensures
        markdown_sources(parts.take(shorter)).len() <= markdown_sources(parts.take(longer)).len(),
    decreases longer - shorter,
{
    if shorter < longer {
        lemma_markdown_sources_grow(parts, shorter, longer - 1);
        assert(parts.take(longer).drop_last() == parts.take(longer - 1));
    }
}

impl Markup {
    /// The text of this directive, without the line break that ends it in a
    /// document. `converted` is read by a `Markdown` directive only.
    pub fn render(&self, converted: &str) -> (out: String)
        ensures
            out@ == directive_text(self@, converted@),
    {
        match self {
            Markup::Header(text) => {
                let mut line = String::from_str("==== ");
                line.append(text.as_str());
                proof {
                    reveal_strlit("==== ");
                    assert("==== "@ == header_mark());
                }
                paint_bold(line.as_str())
            },
            Markup::Section(text) => {
                let mut line = String::from_str("== ");
                line.append(text.as_str());
                proof {
                    reveal_strlit("== ");
                    assert("== "@ == section_mark());
                }
                paint_bold(line.as_str())
            },
            Markup::Block(text) => text.clone(),
            Markup::Markdown(_) => String::from_str(converted),
            Markup::Rule(width) => dashes(*width),
            Markup::LineBreak => String::new(),
        }
    }
}

impl MarkupDoc {
    /// A document of the given directives, in their order.
    pub fn new(parts: Vec<Markup>) -> (doc: MarkupDoc)
        ensures
            doc.parts == parts,
            doc@ == directives(parts@),
    {
        MarkupDoc { parts }
    }

    /// Moves the directives of `other` to the end of this document.
    pub fn extend(&mut self, other: MarkupDoc)
        ensures
            final(self)@ == old(self)@ + other@,
    {
        let mut other = other;
        let ghost added = other.parts@;
        self.parts.append(&mut other.parts);
        assert(self@ =~= old(self)@ + directives(added));
    }

    /// The sources of the `Markdown` directives, in order: what has to be
    /// converted to terminal text before the document can be rendered.
    pub fn markdown_sources(&self) -> (sources: Vec<String>)
        ensures
            texts(sources@) == markdown_sources(self@),
    {
        let mut sources: Vec<String> = Vec::new();
        let mut i: usize = 0;
        while i < self.parts.len()
            invariant
                i <= self.parts@.len(),
                texts(sources@) == markdown_sources(self@.take(i as int)),
            decreases self.parts@.len() - i,
        {
            proof {
                assert(self@.take(i + 1).drop_last() == self@.take(i as int));
                assert(self@.take(i + 1).last() == self.parts@[i as int]@);
            }
            match &self.parts[i] {
                Markup::Markdown(source) => {
                    let ghost before = texts(sources@);
                    sources.push(source.clone());
                    proof {
                        assert(texts(sources@) == before.push(source@));
                    }
                },
                _ => {},
            }
            i += 1;
        }
        proof {
            assert(self@.take(i as int) == self@);
        }
        sources
    }

    /// The document as terminal text. `converted` holds, for each `Markdown`
    /// directive in order, the terminal text that its source was converted
    /// to. The result is `None` exactly when `converted` has not one text for
    /// each `Markdown` directive.
    pub fn render(&self, converted: &Vec<String>) -> (out: Option<String>)
        ensures
            out is Some <==> converted@.len() == markdown_sources(self@).len(),
            out matches Some(text) ==> text@ == document_text(self@, texts(converted@)),
    {
        let mut out = String::new();
        let mut used: usize = 0;
        let mut i: usize = 0;
        while i < self.parts.len()
            invariant
                i <= self.parts@.len(),
                used <= converted@.len(),
                used == markdown_sources(self@.take(i as int)).len(),
                out@ == document_text(self@.take(i as int), texts(converted@)),
            decreases self.parts@.len() - i,
        {
            proof {
                assert(self@.take(i + 1).drop_last() == self@.take(i as int));
                assert(self@.take(i + 1).last() == self.parts@[i as int]@);
            }
            let piece = match &self.parts[i] {
                Markup::Markdown(_) => {
                    if used >= converted.len() {
                        proof {
                            lemma_markdown_sources_grow(self@, i + 1, self@.len() as int);
                            assert(self@.take(self@.len() as int) == self@);
                        }
                        return None;
                    }
                    used += 1;
                    self.parts[i].render(converted[used - 1].as_str())
                },
                _ => self.parts[i].render(""),
            };
            out.append(piece.as_str());
            out.append("\n");
            proof {
                reveal_strlit("\n");
                assert("\n"@ == line_end());
                reveal_strlit("");
                assert(""@ == Seq::<char>::empty());
            }
            i += 1;
        }
        proof {
            assert(self@.take(i as int) == self@);
        }
        if used == converted.len() {
            Some(out)
        } else {
            None
        }
    }
}

/// The text of a document depends on its directives and on the converted
/// Markdown texts, and on nothing else: the same directives with the same
/// converted texts give the same text, character for character.
pub proof fn lemma_render_is_deterministic(
    first: Seq<MarkupView>,
    first_converted: Seq<Seq<char>>,
    second: Seq<MarkupView>,
    second_converted: Seq<Seq<char>>,
)
    requires
        first == second,
        first_converted == second_converted,
    ensures
        document_text(first, first_converted) == document_text(second, second_converted),
{
}

/// The Markdown sources of two documents put together are those of the
/// first followed by those of the second.
pub proof fn lemma_markdown_sources_of_both(first: Seq<MarkupView>, second: Seq<MarkupView>)
    ensures
        markdown_sources(first + second) == markdown_sources(first) + markdown_sources(second),
    decreases second.len(),
{
    if second.len() == 0 {
        assert(first + second == first);
        assert(markdown_sources(first) + markdown_sources(second) == markdown_sources(first));
    } else {
        lemma_markdown_sources_of_both(first, second.drop_last());
        assert((first + second).drop_last() == first + second.drop_last());
        assert((first + second).last() == second.last());
        assert(markdown_sources(first + second) =~= markdown_sources(first) + markdown_sources(
            second,
        ));
    }
}

/// Directives are rendered in their order: the text of two documents put
/// together is the text of the first followed by the text of the second,
/// which reads the converted texts that the first has left over.
pub proof fn lemma_render_in_order(
    first: Seq<MarkupView>,
    second: Seq<MarkupView>,
    converted: Seq<Seq<char>>,
)
    requires
        markdown_sources(first + second).len() <= converted.len(),
    ensures
        document_text(first + second, converted) == document_text(first, converted)
            + document_text(second, converted.skip(markdown_sources(first).len() as int)),
    decreases second.len(),
{
    let used = markdown_sources(first).len() as int;
    lemma_markdown_sources_of_both(first, second);
    if second.len() == 0 {
        assert(first + second == first);
        assert(document_text(first, converted) + Seq::<char>::empty() == document_text(
            first,
            converted,
        ));
    } else {
        let shorter = second.drop_last();
        assert((first + second).drop_last() == first + shorter);
        assert((first + second).last() == second.last());
        lemma_markdown_sources_of_both(first, shorter);
        assert(markdown_sources(shorter).len() <= markdown_sources(second).len());
        lemma_render_in_order(first, shorter, converted);
        if second.last() is Markdown {
            let position = markdown_sources(shorter).len() as int;
            assert(converted.skip(used)[position] == converted[used + position]);
        }
        assert(document_text(first + second, converted) =~= document_text(first, converted)
            + document_text(second, converted.skip(used)));
    }
}

/// The text of every directive is ended by a line break, that of the last
/// one too.
pub proof fn lemma_render_ends_with_line_break(
    parts: Seq<MarkupView>,
    converted: Seq<Seq<char>>,
)
    requires
        parts.len() > 0,
    ensures
        document_text(parts, converted).len() > 0,
        document_text(parts, converted).last() == '\n',
{
}

/// Describes an item that can be inserted into documentation markup.
pub trait Format {
    /// The directives that stand for the item.
    spec fn markup(&self) -> Seq<MarkupView>;

    /// The item as a markup document.
    fn format(&self) -> (doc: MarkupDoc)
        ensures
            doc@ == self.markup(),
    ;
}

} // verus!
