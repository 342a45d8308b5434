//! From top-level nodes to Gradle lines, and the conversion as a whole.

use vstd::prelude::*;

use crate::error::{outcome, ConversionError, ConversionErrorView};
use crate::text::{join_lines, joined, soround_str, strip_blanks, without_blanks};
use crate::xml::{parse_top_level, top_level_nodes, ChildView, Node, NodeView};

verus! {

/// `i` is the place of the first of `children` that is named `name`.
pub open spec fn is_first_named(children: Seq<ChildView>, name: Seq<char>, i: int) -> bool {
    &&& 0 <= i < children.len()
    &&& children[i].name == name
    &&& forall|j: int| 0 <= j < i ==> (#[trigger] children[j]).name != name
}

/// The text of the first child of `node` that is named `name`; `None` where no
/// child has that name or the first that has it holds no text.
pub open spec fn tag_text(node: NodeView, name: Seq<char>) -> Option<Seq<char>> {
    if exists|i: int| is_first_named(node.children, name, i) {
        node.children[choose|i: int| is_first_named(node.children, name, i)].text
    } else {
        None
    }
}

/// The Gradle line for a dependency: `implementation "group:artifact"`, with
/// `:version` before the closing quote where there is a version.
pub open spec fn line_of(group: Seq<char>, artifact: Seq<char>, version: Option<Seq<char>>) -> Seq<
    char,
> {
    match version {
        Some(v) => "implementation \""@ + group + ":"@ + artifact + ":"@ + v + "\""@,
        None => "implementation \""@ + group + ":"@ + artifact + "\""@,
    }
}

/// What a single top-level node that is no comment translates to.
pub open spec fn dependency_line(node: NodeView) -> Result<Seq<char>, ConversionErrorView> {
    if node.name != "dependency"@ {
        Err(ConversionErrorView::Structure(node.name))
    } else {
        match (tag_text(node, "groupId"@), tag_text(node, "artifactId"@)) {
            (None, _) => Err(ConversionErrorView::MissingField("groupId"@)),
            (Some(_), None) => Err(ConversionErrorView::MissingField("artifactId"@)),
            (Some(group), Some(artifact)) => Ok(
                line_of(group, artifact, tag_text(node, "version"@)),
            ),
        }
    }
}

/// The node stops the conversion: it is no comment and has no translation.
pub open spec fn is_failure(node: NodeView) -> bool {
    !node.comment && dependency_line(node) is Err
}

/// `k` is the place of the first of `nodes` that stops the conversion.
pub open spec fn is_first_failure(nodes: Seq<NodeView>, k: int) -> bool {
    &&& 0 <= k < nodes.len()
    &&& is_failure(nodes[k])
    &&& forall|j: int| 0 <= j < k ==> !is_failure(#[trigger] nodes[j])
}

/// The test that a node passes unless it is a comment.
pub open spec fn is_no_comment() -> spec_fn(NodeView) -> bool {
    |node: NodeView| !node.comment
}

/// The nodes that are no comments, in document order.
pub open spec fn without_comments(nodes: Seq<NodeView>) -> Seq<NodeView> {
    nodes.filter(is_no_comment())
}

/// The lines of the nodes that are no comments, in document order.
pub open spec fn dependency_lines(nodes: Seq<NodeView>) -> Seq<Seq<char>> {
    without_comments(nodes).map_values(|node: NodeView| dependency_line(node)->Ok_0)
}

/// What the top-level nodes of a document translate to: the error of the
/// first node that stops the conversion, or else one line for each node that
/// is no comment, joined by line feeds.
pub open spec fn translation(nodes: Seq<NodeView>) -> Result<Seq<char>, ConversionErrorView> {
    if exists|k: int| is_first_failure(nodes, k) {
        Err(dependency_line(nodes[choose|k: int| is_first_failure(nodes, k)])->Err_0)
    } else {
        Ok(joined(dependency_lines(nodes)))
    }
}

/// The text that is handed to the parser: the input without its blanks, inside
/// a `p` element, so that sibling dependencies form one document.
pub open spec fn curated(input: Seq<char>) -> Seq<char> {
    "<p>"@ + without_blanks(input) + "</p>"@
}

/// What an input converts to.
pub open spec fn conversion(input: Seq<char>) -> Result<Seq<char>, ConversionErrorView> {
    match top_level_nodes(curated(input)) {
        Err(fault) => Err(ConversionErrorView::Parse(fault)),
        Ok(nodes) => translation(nodes),
    }
}

/// One more node adds its line to those before it, unless it is a comment.
proof fn lemma_lines_step(nodes: Seq<NodeView>, i: int)
    requires
        0 <= i < nodes.len(),
    ensures
        dependency_lines(nodes.take(i + 1)) == if nodes[i].comment {
            dependency_lines(nodes.take(i))
        } else {
            dependency_lines(nodes.take(i)).push(dependency_line(nodes[i])->Ok_0)
        },
{
    reveal(Seq::filter);
    assert(nodes.take(i + 1).drop_last() =~= nodes.take(i));
    if !nodes[i].comment {
        assert(dependency_lines(nodes.take(i + 1)) =~= dependency_lines(nodes.take(i)).push(
            dependency_line(nodes[i])->Ok_0,
        ));
    }
}

/// Looks up the text of the first child of `node` that is named `name`.
///
/// Fails with [`ConversionError::MissingField`] where no child has that name,
/// and also where the first that has it holds no text.
pub fn get_tag<'a>(node: &'a Node, name: &str) -> (r: Result<&'a str, ConversionError>)
    ensures
        match r {
            Ok(text) => tag_text(node@, name@) == Some(text@),
            Err(e) => tag_text(node@, name@) is None && e@ == ConversionErrorView::MissingField(
                name@,
            ),
        },
{
    let wanted = String::from_str(name);
    let mut i: usize = 0;
    while i < node.children.len()
        invariant
            i <= node.children.len(),
            wanted@ == name@,
            forall|j: int| 0 <= j < i ==> (#[trigger] node@.children[j]).name != name@,
        decreases node.children.len() - i,
    {
        if node.children[i].name == wanted {
            assert(is_first_named(node@.children, name@, i as int));
            return match &node.children[i].text {
                Some(text) => Ok(text.as_str()),
                None => Err(ConversionError::MissingField(wanted)),
            };
        }
        i += 1;
    }
    Err(ConversionError::MissingField(wanted))
}

/// Builds the Gradle line for a dependency. Group, artifact and version go
/// into the line as they are.
pub fn gradle_line(group: &str, artifact: &str, version: Option<&str>) -> (line: String)
    ensures
        line@ == line_of(
            group@,
            artifact@,
            match version {
                Some(v) => Some(v@),
                None => None,
            },
        ),
{
    let mut line = String::from_str("implementation \"");
    line.append(group);
    line.append(":");
    line.append(artifact);
    if let Some(v) = version {
        line.append(":");
        line.append(v);
    }
    line.append("\"");
    line
}

/// Translates one top-level node into its Gradle line.
///
/// Fails with [`ConversionError::Structure`] where the node is not named
/// `dependency`, and with [`ConversionError::MissingField`] where it lacks a
/// group or an artifact. A version that is missing, or holds no text, is left
/// out of the line.
pub fn get_dep(node: &Node) -> (r: Result<String, ConversionError>)
    ensures
        outcome(r) == dependency_line(node@),
{
    if node.name == String::from_str("dependency") {
        let group = match get_tag(node, "groupId") {
            Ok(text) => text,
            Err(e) => { return Err(e); },
        };
        let artifact = match get_tag(node, "artifactId") {
            Ok(text) => text,
            Err(e) => { return Err(e); },
        };
        match get_tag(node, "version") {
            Ok(version) => Ok(gradle_line(group, artifact, Some(version))),
            Err(_) => Ok(gradle_line(group, artifact, None)),
        }
    } else {
        Err(ConversionError::Structure(node.name.clone()))
    }
}

/// Translates the top-level nodes of a document: comments are passed over,
/// every other node has to be a dependency, and the first that is not one
/// ends the translation with its error.
pub fn translate_nodes(nodes: &Vec<Node>) -> (r: Result<String, ConversionError>)
    ensures
        outcome(r) == translation(nodes.deep_view()),
{
    let mut lines: Vec<String> = Vec::new();
    let mut i: usize = 0;
    while i < nodes.len()
        invariant
            i <= nodes.len(),
            forall|j: int| 0 <= j < i ==> !is_failure(#[trigger] nodes.deep_view()[j]),
            lines.deep_view() == dependency_lines(nodes.deep_view().take(i as int)),
        decreases nodes.len() - i,
    {
        let ghost all = nodes.deep_view();
        proof {
            lemma_lines_step(all, i as int);
        }
        if !nodes[i].comment {
            match get_dep(&nodes[i]) {
                Ok(line) => {
                    lines.push(line);
                },
                Err(e) => {
                    assert(is_first_failure(all, i as int));
                    return Err(e);
                },
            }
        }
        i += 1;
    }
    proof {
        assert(nodes.deep_view().take(nodes.len() as int) =~= nodes.deep_view());
    }
    Ok(join_lines(&lines))
}

/// Converts Maven dependency declarations into Gradle ones.
///
/// The input holds any number of sibling `dependency` elements, with comments
/// between them where wanted. Its spaces and line feeds are removed, the rest
/// is parsed inside a `p` element, and each dependency becomes one line.
///
/// Fails with [`ConversionError::Parse`] where the parser rejects the wrapped
/// text, with the parser's description of the fault, and else as
/// [`translate_nodes`] does. An error leaves no output.
pub fn maven_to_gradle(input: String) -> (r: Result<String, ConversionError>)
    ensures
        outcome(r) == conversion(input@),
{
    let stripped = strip_blanks(input.as_str());
    let wrapped = soround_str(stripped, "<p>", "</p>");
    match parse_top_level(wrapped.as_str()) {
        Ok(nodes) => translate_nodes(&nodes),
        Err(fault) => Err(ConversionError::Parse(fault)),
    }
}

} // verus!
