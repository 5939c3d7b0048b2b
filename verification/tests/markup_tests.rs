use printy::error::PrintyError;
use printy::markup::{parse_failure, EscposMarkdown, MarkupNode};

fn text(s: &str) -> MarkupNode {
    MarkupNode::Text {
        value: s.to_string(),
    }
}

fn compiled(node: &MarkupNode) -> Vec<u8> {
    let mut buf = Vec::new();
    EscposMarkdown.compile_node(node, &mut buf);
    buf
}

fn bytes(parts: &[&[u8]]) -> Vec<u8> {
    parts.concat()
}

const SIZE_DOUBLE: &[u8] = &[0x1D, 0x21, 0x01];
const SIZE_NORMAL: &[u8] = &[0x1D, 0x21, 0x00];
const BOLD_ON: &[u8] = &[0x1B, 0x45, 1];
const BOLD_OFF: &[u8] = &[0x1B, 0x45, 0];
const UNDERLINE_ON: &[u8] = &[0x1B, 0x2D, 1];
const UNDERLINE_OFF: &[u8] = &[0x1B, 0x2D, 0];

#[test]
fn first_level_heading_with_text() {
    let node = MarkupNode::Heading {
        depth: 1,
        children: vec![text("Receipt")],
    };
    assert_eq!(
        compiled(&node),
        bytes(&[SIZE_DOUBLE, b"Receipt", SIZE_NORMAL, b"\n\n"])
    );
}

#[test]
fn second_level_heading_is_underlined_and_bold() {
    let node = MarkupNode::Heading {
        depth: 2,
        children: vec![text("Items")],
    };
    assert_eq!(
        compiled(&node),
        bytes(&[UNDERLINE_ON, BOLD_ON, b"Items", UNDERLINE_OFF, BOLD_OFF, b"\n\n"])
    );
}

#[test]
fn third_level_heading_is_bold() {
    let node = MarkupNode::Heading {
        depth: 3,
        children: vec![text("Note")],
    };
    assert_eq!(compiled(&node), bytes(&[BOLD_ON, b"Note", BOLD_OFF, b"\n\n"]));
}

#[test]
fn deeper_headings_have_no_style() {
    for depth in [0u8, 4, 5, 6, 200] {
        let node = MarkupNode::Heading {
            depth,
            children: vec![text("x")],
        };
        assert_eq!(compiled(&node), b"x\n\n".to_vec());
    }
}

#[test]
fn paragraph_ends_with_two_line_feeds() {
    let node = MarkupNode::Paragraph {
        children: vec![text("a"), text("b")],
    };
    assert_eq!(compiled(&node), b"ab\n\n".to_vec());
    let empty = MarkupNode::Paragraph { children: vec![] };
    assert_eq!(compiled(&empty), b"\n\n".to_vec());
}

#[test]
fn strong_is_wrapped_in_bold() {
    let node = MarkupNode::Strong {
        children: vec![text("now")],
    };
    assert_eq!(compiled(&node), bytes(&[BOLD_ON, b"now", BOLD_OFF]));
}

#[test]
fn text_passes_through_as_utf8_without_escaping() {
    assert_eq!(compiled(&text("")), Vec::<u8>::new());
    assert_eq!(compiled(&text("5 \u{20ac}")), "5 \u{20ac}".as_bytes().to_vec());
    assert_eq!(compiled(&text("\x1b@")), vec![0x1B, 0x40]);
}

#[test]
fn other_nodes_print_nothing() {
    assert_eq!(compiled(&MarkupNode::Other), Vec::<u8>::new());
    let node = MarkupNode::Root {
        children: vec![MarkupNode::Other, text("a"), MarkupNode::Other],
    };
    assert_eq!(compiled(&node), b"a".to_vec());
}

#[test]
fn compile_node_appends_to_what_the_buffer_holds() {
    let mut buf = vec![1, 2, 3];
    EscposMarkdown.compile_node(&text("x"), &mut buf);
    assert_eq!(buf, vec![1, 2, 3, b'x']);
}

#[test]
fn nested_nodes_are_walked_depth_first() {
    let node = MarkupNode::Root {
        children: vec![
            MarkupNode::Heading {
                depth: 1,
                children: vec![
                    text("A "),
                    MarkupNode::Strong {
                        children: vec![text("B")],
                    },
                ],
            },
            MarkupNode::Paragraph {
                children: vec![text("c")],
            },
        ],
    };
    assert_eq!(
        compiled(&node),
        bytes(&[
            SIZE_DOUBLE,
            b"A ",
            BOLD_ON,
            b"B",
            BOLD_OFF,
            SIZE_NORMAL,
            b"\n\n",
            b"c\n\n"
        ])
    );
}

#[test]
fn compile_reads_a_first_level_heading() {
    assert_eq!(
        EscposMarkdown.compile("# Hello").unwrap(),
        bytes(&[SIZE_DOUBLE, b"Hello", SIZE_NORMAL, b"\n\n"])
    );
}

#[test]
fn compile_reads_the_other_headings() {
    assert_eq!(
        EscposMarkdown.compile("## Sub").unwrap(),
        bytes(&[UNDERLINE_ON, BOLD_ON, b"Sub", UNDERLINE_OFF, BOLD_OFF, b"\n\n"])
    );
    assert_eq!(
        EscposMarkdown.compile("### Third").unwrap(),
        bytes(&[BOLD_ON, b"Third", BOLD_OFF, b"\n\n"])
    );
    assert_eq!(
        EscposMarkdown.compile("#### Fourth").unwrap(),
        b"Fourth\n\n".to_vec()
    );
}

#[test]
fn compile_reads_paragraphs_and_strong_text() {
    assert_eq!(
        EscposMarkdown.compile("plain **bold** text").unwrap(),
        bytes(&[b"plain ", BOLD_ON, b"bold", BOLD_OFF, b" text", b"\n\n"])
    );
    assert_eq!(
        EscposMarkdown.compile("one\n\ntwo").unwrap(),
        b"one\n\ntwo\n\n".to_vec()
    );
}

#[test]
fn compile_leaves_out_what_it_does_not_know() {
    assert_eq!(
        EscposMarkdown.compile("a *b* c").unwrap(),
        b"a  c\n\n".to_vec()
    );
    assert_eq!(EscposMarkdown.compile("- item").unwrap(), Vec::<u8>::new());
    assert_eq!(EscposMarkdown.compile("").unwrap(), Vec::<u8>::new());
}

#[test]
fn compile_is_deterministic() {
    let text = "# T\n\nsome **strong** words\n\n### end";
    assert_eq!(
        EscposMarkdown.compile(text).unwrap(),
        EscposMarkdown.compile(text).unwrap()
    );
}

#[test]
fn compile_of_a_document() {
    assert_eq!(
        EscposMarkdown
            .compile("# Shop\n\nThanks **a lot**\n")
            .unwrap(),
        bytes(&[
            SIZE_DOUBLE,
            b"Shop",
            SIZE_NORMAL,
            b"\n\n",
            b"Thanks ",
            BOLD_ON,
            b"a lot",
            BOLD_OFF,
            b"\n\n"
        ])
    );
}

#[test]
fn parse_failure_words_the_context() {
    match parse_failure("1:1: bad (x:y)") {
        PrintyError::Parse { context, source } => {
            assert_eq!(context, "Failed to parse markdown - 1:1: bad (x:y)");
            assert_eq!(source, None);
        }
        _ => panic!("expected a parse error"),
    }
}
