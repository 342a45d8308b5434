//! The part of a parsed XML document that a conversion reads, as plain values,
//! and the call into `roxmltree` that produces it.

use vstd::prelude::*;

verus! {

/// A node directly below a top-level node.
#[derive(Debug, Clone, PartialEq, Eq)]
pub struct Child {
    /// The local tag name; empty where the node is not an element.
    pub name: String,
    /// The node's text: for an element that of its first child, if that child
    /// is a text node; `None` where there is none.
    pub text: Option<String>,
}

/// A top-level node: one that stands directly below the document's root element.
#[derive(Debug, Clone, PartialEq, Eq)]
pub struct Node {
    /// Whether the node is a comment.
    pub comment: bool,
    /// The local tag name; empty where the node is not an element.
    pub name: String,
    /// The nodes directly below this one, in document order.
    pub children: Vec<Child>,
}

/// The mathematical value of a [`Child`].
pub struct ChildView {
    pub name: Seq<char>,
    pub text: Option<Seq<char>>,
}

/// The mathematical value of a [`Node`].
pub struct NodeView {
    pub comment: bool,
    pub name: Seq<char>,
    pub children: Seq<ChildView>,
}

impl DeepView for Child {
    type V = ChildView;

    open spec fn deep_view(&self) -> ChildView {
        ChildView { name: self.name@, text: self.text.deep_view() }
    }
}

impl View for Child {
    type V = ChildView;

    open spec fn view(&self) -> ChildView {
        self.deep_view()
    }
}

impl DeepView for Node {
    type V = NodeView;

    open spec fn deep_view(&self) -> NodeView {
        NodeView {
            comment: self.comment,
            name: self.name@,
            children: self.children.deep_view(),
        }
    }
}

impl View for Node {
    type V = NodeView;

    open spec fn view(&self) -> NodeView {
        self.deep_view()
    }
}

/// What `roxmltree` makes of `text`, read with its default options: the
/// top-level nodes of the document, or else the parser's description of the
/// fault that it found.
pub uninterp spec fn top_level_nodes(text: Seq<char>) -> Result<Seq<NodeView>, Seq<char>>;

/// The mathematical value of what the parser hands back.
pub open spec fn parsed_view(r: Result<Vec<Node>, String>) -> Result<Seq<NodeView>, Seq<char>> {
    match r {
        Ok(nodes) => Ok(nodes.deep_view()),
        Err(fault) => Err(fault@),
    }
}

/// Parses `text` with `roxmltree::Document::parse` and copies out of the tree
/// what a conversion reads: for each child of `Document::root_element`, as
/// `Node::children` yields them, whether `Node::is_comment` holds, the local
/// part of `Node::tag_name` and, for each of its own children, that local name
/// and `Node::text`. Where the parser rejects the text, the error is handed on
/// as the text that its `Display` writes.
///
/// Nothing is proved of this function. The contract claims that the parser's
/// verdict, the copied nodes and the error's text depend on `text` alone, and
/// gives them the name [`top_level_nodes`].
#[verifier::external_body]
pub(crate) fn parse_top_level(text: &str) -> (r: Result<Vec<Node>, String>)
    ensures
        parsed_view(r) == top_level_nodes(text@),
{
    let doc = roxmltree::Document::parse(text).map_err(|e| e.to_string())?;
    let mut nodes = Vec::new();
    for n in doc.root_element().children() {
        let mut children = Vec::new();
        for c in n.children() {
            let name = c.tag_name().name().to_string();
            children.push(Child { name, text: c.text().map(String::from) });
        }
        let name = n.tag_name().name().to_string();
        nodes.push(Node { comment: n.is_comment(), name, children });
    }
    Ok(nodes)
}

} // verus!
