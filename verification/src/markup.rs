//! Markdown turned into the bytes that print it: the text as it stands, with
//! the commands that style headings and strong text around it.

use crate::error::{ErrorView, PrintyError, PrintyResult};
use crate::escpos::{
    bold_bytes, char_size_bytes, underline_bytes, CMD_BOLD, CMD_CHAR_SIZE, CMD_UNDERLINE, LF,
};
use markdown::mdast::Node;
use vstd::prelude::*;
use vstd::string::*;
use vstd::utf8::encode_utf8;

verus! {

/// One node of a parsed document, as far as printing reads it.
#[derive(Debug)]
pub enum MarkupNode {
    Root { children: Vec<MarkupNode> },
    Paragraph { children: Vec<MarkupNode> },
    Heading { depth: u8, children: Vec<MarkupNode> },
    Text { value: String },
    Strong { children: Vec<MarkupNode> },
    /// Any node that is not printed.
    Other,
}

/// The commands that open a heading of the given depth: double-size
/// characters for the first, underlined bold for the second, bold for the
/// third, nothing below.
pub open spec fn heading_style(depth: u8) -> Seq<u8> {
    if depth == 1 {
        char_size_bytes(1, 0)
    } else if depth == 2 {
        underline_bytes(true) + bold_bytes(true)
    } else if depth == 3 {
        bold_bytes(true)
    } else {
        Seq::empty()
    }
}

/// The commands that close a heading of the given depth: they undo what
/// `heading_style` turned on.
pub open spec fn heading_reset(depth: u8) -> Seq<u8> {
    if depth == 1 {
        char_size_bytes(0, 0)
    } else if depth == 2 {
        underline_bytes(false) + bold_bytes(false)
    } else if depth == 3 {
        bold_bytes(false)
    } else {
        Seq::empty()
    }
}

/// The two line feeds that end a block.
pub open spec fn block_end() -> Seq<u8> {
    seq![LF, LF]
}

/// A document as a value of specifications: what a `MarkupNode` holds.
pub ghost enum MarkupTree {
    Root { children: Seq<MarkupTree> },
    Paragraph { children: Seq<MarkupTree> },
    Heading { depth: u8, children: Seq<MarkupTree> },
    Text { value: Seq<char> },
    Strong { children: Seq<MarkupTree> },
    Other,
}

/// What the nodes hold, one by one.
pub open spec fn trees_of(nodes: Seq<MarkupNode>) -> Seq<MarkupTree>
    decreases nodes, 1nat,
{
    Seq::new(
        nodes.len(),
        |i: int|
            if 0 <= i < nodes.len() {
                tree_of(nodes[i])
            } else {
                MarkupTree::Other
            },
    )
}

/// What a node holds.
pub open spec fn tree_of(node: MarkupNode) -> MarkupTree
    decreases node, 0nat,
{
    match node {
        MarkupNode::Root { children } => MarkupTree::Root { children: trees_of(children@) },
        MarkupNode::Paragraph { children } => MarkupTree::Paragraph {
            children: trees_of(children@),
        },
        MarkupNode::Heading { depth, children } => MarkupTree::Heading {
            depth,
            children: trees_of(children@),
        },
        MarkupNode::Text { value } => MarkupTree::Text { value: value@ },
        MarkupNode::Strong { children } => MarkupTree::Strong { children: trees_of(children@) },
        MarkupNode::Other => MarkupTree::Other,
    }
}

impl View for MarkupNode {
    type V = MarkupTree;

    open spec fn view(&self) -> MarkupTree {
        tree_of(*self)
    }
}

/// The bytes that print a document.
pub open spec fn tree_bytes(tree: MarkupTree) -> Seq<u8>
    decreases tree, 0nat,
{
    match tree {
        MarkupTree::Root { children } => trees_bytes(children),
        MarkupTree::Paragraph { children } => trees_bytes(children) + block_end(),
        MarkupTree::Heading { depth, children } => heading_style(depth) + trees_bytes(children)
            + heading_reset(depth) + block_end(),
        MarkupTree::Text { value } => encode_utf8(value),
        MarkupTree::Strong { children } => bold_bytes(true) + trees_bytes(children) + bold_bytes(
            false,
        ),
        MarkupTree::Other => Seq::empty(),
    }
}

/// The bytes that print the documents one after the other.
pub open spec fn trees_bytes(trees: Seq<MarkupTree>) -> Seq<u8>
    decreases trees, 1nat,
{
    if trees.len() == 0 {
        Seq::empty()
    } else {
        trees_bytes(trees.drop_last()) + tree_bytes(trees.last())
    }
}

#[verifier::external_type_specification]
#[verifier::external_body]
pub struct ExNode(markdown::mdast::Node);

/// What the markdown parser makes of a text: the document that it reads
/// out of it, as far as printing reads it, or, for a text that it rejects,
/// the words of its message.
pub uninterp spec fn markdown_tree(text: Seq<char>) -> Result<MarkupTree, Seq<char>>;

/// Copies a node of the parser's tree, `markdown::mdast::Node`, with its
/// children: the five kinds that are printed keep their children, depth and
/// text, every other kind becomes `Other`. Nothing is claimed of the copy
/// here; `parse_markdown` names it.
#[verifier::external_body]
fn lift_node(node: &Node) -> MarkupNode {
    match node {
        Node::Root(n) => MarkupNode::Root { children: n.children.iter().map(lift_node).collect() },
        Node::Paragraph(n) => MarkupNode::Paragraph {
            children: n.children.iter().map(lift_node).collect(),
        },
        Node::Heading(n) => MarkupNode::Heading {
            depth: n.depth,
            children: n.children.iter().map(lift_node).collect(),
        },
        Node::Text(n) => MarkupNode::Text { value: n.value.clone() },
        Node::Strong(n) => MarkupNode::Strong { children: n.children.iter().map(lift_node).collect() },
        _ => MarkupNode::Other,
    }
}

/// Calls `markdown::to_mdast` with the default options, which read plain
/// CommonMark, and hands back the tree as a `MarkupNode`, or the parser's
/// message written out with `Display`, as `markdown::message::Message`
/// implements it. The parser's result depends on the text alone: the
/// contract gives it the name `markdown_tree`, the tree and the message
/// alike.
#[verifier::external_body]
fn parse_markdown(text: &str) -> (r: Result<MarkupNode, String>)
    ensures
        r matches Ok(root) ==> (markdown_tree(text@) matches Ok(tree) && tree == root@),
        r matches Err(words) ==> (markdown_tree(text@) matches Err(said) && said == words@),
{
    match markdown::to_mdast(text, &markdown::ParseOptions::default()) {
        Ok(root) => Ok(lift_node(&root)),
        Err(message) => Err(format!("{message}")),
    }
}

/// The error for a text that the parser rejected with the given words.
pub open spec fn parse_error(words: Seq<char>) -> ErrorView {
    ErrorView::Parse { context: "Failed to parse markdown - "@ + words, source: None }
}

/// The error for a text that the parser rejected with the given words.
pub fn parse_failure(detail: &str) -> (e: PrintyError)
    ensures
        e@ == parse_error(detail@),
{
    let mut context = String::new();
    context.append("Failed to parse markdown - ");
    context.append(detail);
    PrintyError::Parse { context, source: None }
}

fn push_all(buf: &mut Vec<u8>, bytes: &[u8])
    ensures
        final(buf)@ == old(buf)@ + bytes@,
{
    buf.extend_from_slice(bytes);
}

/// Compiles markdown for the printer.
pub struct EscposMarkdown;

impl EscposMarkdown {
    /// Parses markdown and returns the bytes that print it, or the error
    /// that words the parser's message. The text is printed as it stands:
    /// bytes of it that the printer takes for a command are not escaped.
    pub fn compile(&self, md_str: &str) -> (r: PrintyResult<Vec<u8>>)
        ensures
            match markdown_tree(md_str@) {
                Ok(tree) => r matches Ok(bytes) && bytes@ == tree_bytes(tree),
                Err(words) => r matches Err(e) && e@ == parse_error(words),
            },
    {
        match parse_markdown(md_str) {
            Ok(root) => {
                let mut compiled_cmds: Vec<u8> = Vec::new();
                self.compile_node(&root, &mut compiled_cmds);
                Ok(compiled_cmds)
            },
            Err(words) => Err(parse_failure(words.as_str())),
        }
    }

    /// Appends to `buf` the bytes that print `node`.
    pub fn compile_node(&self, node: &MarkupNode, buf: &mut Vec<u8>)
        ensures
            final(buf)@ == old(buf)@ + tree_bytes(node@),
        decreases *node, 1nat,
    {
        match node {
            MarkupNode::Root { children } => {
                self.compile_children(children, buf, Ghost(*node));
            },
            MarkupNode::Paragraph { children } => {
                self.compile_children(children, buf, Ghost(*node));
                push_all(buf, &[LF, LF]);
            },
            MarkupNode::Heading { depth, children } => {
                let d: u8 = *depth;
                if d == 1 {
                    push_all(buf, CMD_CHAR_SIZE(1, 0).as_slice());
                } else if d == 2 {
                    push_all(buf, CMD_UNDERLINE(true).as_slice());
                    push_all(buf, CMD_BOLD(true).as_slice());
                } else if d == 3 {
                    push_all(buf, CMD_BOLD(true).as_slice());
                }
                self.compile_children(children, buf, Ghost(*node));
                if d == 1 {
                    push_all(buf, CMD_CHAR_SIZE(0, 0).as_slice());
                } else if d == 2 {
                    push_all(buf, CMD_UNDERLINE(false).as_slice());
                    push_all(buf, CMD_BOLD(false).as_slice());
                } else if d == 3 {
                    push_all(buf, CMD_BOLD(false).as_slice());
                }
                push_all(buf, &[LF, LF]);
            },
            MarkupNode::Text { value } => {
                push_all(buf, value.as_str().as_bytes());
            },
            MarkupNode::Strong { children } => {
                push_all(buf, CMD_BOLD(true).as_slice());
                self.compile_children(children, buf, Ghost(*node));
                push_all(buf, CMD_BOLD(false).as_slice());
            },
            MarkupNode::Other => {
            },
        }
    }

    fn compile_children(
        &self,
        children: &Vec<MarkupNode>,
        buf: &mut Vec<u8>,
        Ghost(parent): Ghost<MarkupNode>,
    )
        requires
            decreases_to!(parent => *children),
        ensures
            final(buf)@ == old(buf)@ + trees_bytes(trees_of(children@)),
        decreases parent, 0nat,
    {
        let mut i: usize = 0;
        while i < children.len()
            invariant
                i <= children.len(),
                decreases_to!(parent => *children),
                buf@ == old(buf)@ + trees_bytes(trees_of(children@).take(i as int)),
            decreases children.len() - i,
        {
            self.compile_node(&children[i], buf);
            assert(trees_of(children@).take(i + 1).drop_last() =~= trees_of(children@).take(
                i as int,
            ));
            i += 1;
        }
        assert(trees_of(children@).take(i as int) =~= trees_of(children@));
    }
}

/// A first-level heading that holds one text prints as: the command for
/// double-size characters, the text, the command for normal size, and two
/// line feeds.
pub proof fn lemma_first_heading_with_text(text: Seq<char>)
    ensures
        tree_bytes(
            MarkupTree::Heading { depth: 1, children: seq![MarkupTree::Text { value: text }] },
        ) == char_size_bytes(1, 0) + encode_utf8(text) + char_size_bytes(0, 0) + seq![LF, LF],
{
    let children = seq![MarkupTree::Text { value: text }];
    assert(trees_bytes(children) == trees_bytes(children.drop_last()) + tree_bytes(
        children.last(),
    ));
}

/// What is printed for several nodes is what is printed for each, in their
/// order.
pub proof fn lemma_trees_bytes_concat(first: Seq<MarkupTree>, second: Seq<MarkupTree>)
    ensures
        trees_bytes(first + second) == trees_bytes(first) + trees_bytes(second),
    decreases second.len(),
{
    if second.len() == 0 {
    } else {
        lemma_trees_bytes_concat(first, second.drop_last());
        assert((first + second).drop_last() =~= first + second.drop_last());
    }
}

/// A node of a kind that is not printed, and a heading below the third
/// level, add no command of their own.
pub proof fn lemma_unstyled_nodes(depth: u8, children: Seq<MarkupTree>)
    requires
        depth == 0 || depth >= 4,
    ensures
        tree_bytes(MarkupTree::Other) == Seq::<u8>::empty(),
        tree_bytes(MarkupTree::Heading { depth, children }) == trees_bytes(children) + seq![
            LF,
            LF,
        ],
{
}

} // verus!
