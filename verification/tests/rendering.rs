use oxidoc::markup::{Markup, MarkupDoc};
use oxidoc::terminal::{get_term_width, width_from_dimensions, DEFAULT_WIDTH};

fn sample() -> MarkupDoc {
    MarkupDoc::new(vec![
        Markup::Block("(mycrate 0.1.0)".to_string()),
        Markup::Header("Crate mycrate".to_string()),
        Markup::LineBreak,
        Markup::Rule(10),
        Markup::LineBreak,
        Markup::Markdown("# Title".to_string()),
    ])
}

#[test]
fn header_is_bold_with_four_marks() {
    let text = Markup::Header("Struct a::B".to_string()).render("");
    assert_eq!(text, "\u{1b}[1m==== Struct a::B\u{1b}[0m");
    assert_ne!(text, "==== Struct a::B");
}

#[test]
fn section_is_bold_with_two_marks() {
    let text = Markup::Section("Methods".to_string()).render("unused");
    assert_eq!(text, "\u{1b}[1m== Methods\u{1b}[0m");
}

#[test]
fn empty_header_keeps_its_marks() {
    assert_eq!(Markup::Header(String::new()).render(""), "\u{1b}[1m==== \u{1b}[0m");
}

#[test]
fn block_is_verbatim() {
    assert_eq!(Markup::Block("  pub fn f ()".to_string()).render("unused"), "  pub fn f ()");
    assert_eq!(Markup::Block(String::new()).render(""), "");
}

#[test]
fn markdown_is_its_converted_text() {
    assert_eq!(Markup::Markdown("*a*".to_string()).render("converted"), "converted");
}

#[test]
fn rule_is_dashes() {
    assert_eq!(Markup::Rule(10).render(""), "----------");
    assert_eq!(Markup::Rule(1).render(""), "-");
    assert_eq!(Markup::Rule(0).render(""), "");
}

#[test]
fn line_break_is_empty() {
    assert_eq!(Markup::LineBreak.render("unused"), "");
}

#[test]
fn document_text_ends_every_directive_with_a_line_break() {
    let text = sample().render(&vec!["TITLE".to_string()]);
    assert_eq!(
        text,
        Some(
            "(mycrate 0.1.0)\n\u{1b}[1m==== Crate mycrate\u{1b}[0m\n\n----------\n\nTITLE\n"
                .to_string()
        )
    );
}

#[test]
fn empty_document_renders_to_nothing() {
    let doc = MarkupDoc::new(Vec::new());
    assert_eq!(doc.render(&Vec::new()), Some(String::new()));
    assert_eq!(doc.markdown_sources(), Vec::<String>::new());
    assert_eq!(doc.render(&vec!["extra".to_string()]), None);
}

#[test]
fn markdown_sources_in_order() {
    let doc = MarkupDoc::new(vec![
        Markup::Markdown("one".to_string()),
        Markup::LineBreak,
        Markup::Markdown("two".to_string()),
        Markup::Block("three".to_string()),
    ]);
    assert_eq!(doc.markdown_sources(), vec!["one".to_string(), "two".to_string()]);
    assert_eq!(
        doc.render(&vec!["1".to_string(), "2".to_string()]),
        Some("1\n\n2\nthree\n".to_string())
    );
}

#[test]
fn wrong_number_of_converted_texts_is_refused() {
    let doc = sample();
    assert_eq!(doc.render(&Vec::new()), None);
    assert_eq!(doc.render(&vec!["a".to_string(), "b".to_string()]), None);
    let plain = MarkupDoc::new(vec![Markup::LineBreak]);
    assert_eq!(plain.render(&vec!["a".to_string()]), None);
    assert_eq!(plain.render(&Vec::new()), Some("\n".to_string()));
}

#[test]
fn rendering_twice_gives_the_same_text() {
    let converted = vec!["body".to_string()];
    let first = sample().render(&converted);
    let second = sample().render(&converted);
    assert!(first.is_some());
    assert_eq!(first, second);
}

#[test]
fn unknown_width_is_eighty() {
    assert_eq!(width_from_dimensions(None), 80);
    assert_eq!(DEFAULT_WIDTH, 80);
}

#[test]
fn known_width_is_the_number_of_columns() {
    assert_eq!(width_from_dimensions(Some((120, 40))), 120);
    assert_eq!(width_from_dimensions(Some((1, 1))), 1);
    assert_eq!(width_from_dimensions(Some((65535, 2))), 65535);
}

#[test]
fn width_keeps_the_low_sixteen_bits() {
    assert_eq!(width_from_dimensions(Some((65536, 10))), 0);
    assert_eq!(width_from_dimensions(Some((65536 + 132, 10))), 132);
}

#[test]
fn terminal_width_follows_the_terminal() {
    assert_eq!(get_term_width(), width_from_dimensions(term_size::dimensions()));
}

#[test]
fn extend_appends_in_order() {
    let mut doc = MarkupDoc::new(vec![Markup::Block("a".to_string())]);
    doc.extend(MarkupDoc::new(vec![Markup::LineBreak, Markup::Rule(2)]));
    doc.extend(MarkupDoc::new(Vec::new()));
    assert_eq!(
        doc.parts,
        vec![Markup::Block("a".to_string()), Markup::LineBreak, Markup::Rule(2)]
    );
    assert_eq!(doc.render(&Vec::new()), Some("a\n\n--\n".to_string()));
}
