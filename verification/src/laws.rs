//! What holds of every conversion, proved from the definitions.
//!
//! Each law is stated of the top-level nodes of a document, and with them of
//! every input that parses to those nodes.

use vstd::prelude::*;

use crate::convert::{
    conversion, curated, dependency_line, dependency_lines, is_failure, is_first_failure,
    is_no_comment, tag_text, translation, without_comments,
};
use crate::error::ConversionErrorView;
use crate::text::joined;
use crate::xml::{top_level_nodes, NodeView};

verus! {

/// The input is well-formed once wrapped, and `nodes` are its top-level nodes.
pub open spec fn parses_to(input: Seq<char>, nodes: Seq<NodeView>) -> bool {
    top_level_nodes(curated(input)) matches Ok(parsed) && parsed == nodes
}

/// The node is a `dependency` element with the given group and artifact and,
/// where `version` is not `None`, that version.
pub open spec fn is_dependency(
    node: NodeView,
    group: Seq<char>,
    artifact: Seq<char>,
    version: Option<Seq<char>>,
) -> bool {
    &&& !node.comment
    &&& node.name == "dependency"@
    &&& tag_text(node, "groupId"@) == Some(group)
    &&& tag_text(node, "artifactId"@) == Some(artifact)
    &&& tag_text(node, "version"@) == version
}

/// A node that stops the conversion has a first such node at or before it.
pub proof fn lemma_first_failure_exists(nodes: Seq<NodeView>, k: int) -> (first: int)
    requires
        0 <= k < nodes.len(),
        is_failure(nodes[k]),
    ensures
        is_first_failure(nodes, first),
        first <= k,
    decreases k,
{
    if exists|j: int| 0 <= j < k && is_failure(nodes[j]) {
        let j = choose|j: int| 0 <= j < k && is_failure(nodes[j]);
        lemma_first_failure_exists(nodes, j)
    } else {
        k
    }
}

/// Where no node is a comment, all of them are kept.
proof fn lemma_without_comments_keeps(nodes: Seq<NodeView>)
    requires
        forall|i: int| 0 <= i < nodes.len() ==> !(#[trigger] nodes[i]).comment,
    ensures
        without_comments(nodes) == nodes,
    decreases nodes.len(),
{
    reveal(Seq::filter);
    if nodes.len() > 0 {
        lemma_without_comments_keeps(nodes.drop_last());
        assert(nodes.drop_last().push(nodes.last()) =~= nodes);
    }
}

/// Each of the nodes that are kept is no comment and stands among the nodes.
proof fn lemma_kept_is_a_node(nodes: Seq<NodeView>, k: int) -> (i: int)
    requires
        0 <= k < without_comments(nodes).len(),
    ensures
        0 <= i < nodes.len(),
        nodes[i] == without_comments(nodes)[k],
        !nodes[i].comment,
{
    let kept = without_comments(nodes);
    nodes.lemma_filter_pred(is_no_comment(), k);
    assert(kept.contains(kept[k]));
    nodes.lemma_filter_contains_rev(is_no_comment(), kept[k]);
    choose|i: int| 0 <= i < nodes.len() && nodes[i] == kept[k]
}

/// The first node that stops the conversion decides the result: its error is
/// the error of the whole, whatever follows it.
pub proof fn law_first_failure_decides(nodes: Seq<NodeView>, k: int)
    requires
        is_first_failure(nodes, k),
    ensures
        translation(nodes) is Err,
        translation(nodes) == dependency_line(nodes[k]),
        forall|input: Seq<char>| #[trigger]
            parses_to(input, nodes) ==> conversion(input) == translation(nodes),
{
    let chosen = choose|c: int| is_first_failure(nodes, c);
    assert(chosen == k);
}

/// A translation succeeds if and only if every top-level node is a comment or
/// a dependency with a group and an artifact: one node that is neither leaves
/// no output at all. A conversion succeeds if and only if, besides, the input
/// is well-formed.
pub proof fn law_all_or_nothing(nodes: Seq<NodeView>)
    ensures
        translation(nodes) is Ok <==> forall|i: int|
            0 <= i < nodes.len() ==> !is_failure(#[trigger] nodes[i]),
        forall|input: Seq<char>|
            conversion(input) is Ok <==> (#[trigger] top_level_nodes(curated(input)) matches Ok(
                parsed,
            ) && translation(parsed) is Ok),
{
    if exists|i: int| 0 <= i < nodes.len() && is_failure(nodes[i]) {
        let i = choose|i: int| 0 <= i < nodes.len() && is_failure(nodes[i]);
        let first = lemma_first_failure_exists(nodes, i);
    }
}

/// Where every top-level node is a comment or a dependency with a group and
/// an artifact, the output is made of one line for each node that is no
/// comment, in document order, each the translation of its node, with a line
/// feed between each two.
pub proof fn law_lines_in_order(nodes: Seq<NodeView>)
    requires
        forall|i: int| 0 <= i < nodes.len() ==> !is_failure(#[trigger] nodes[i]),
    ensures
        translation(nodes) matches Ok(out) && out == joined(dependency_lines(nodes)),
        forall|input: Seq<char>| #[trigger]
            parses_to(input, nodes) ==> conversion(input) == translation(nodes),
        dependency_lines(nodes).len() == without_comments(nodes).len(),
        forall|k: int|
            0 <= k < without_comments(nodes).len() ==> (dependency_line(
                #[trigger] without_comments(nodes)[k],
            ) matches Ok(line) && line == dependency_lines(nodes)[k]),
{
    let kept = without_comments(nodes);
    assert forall|k: int| 0 <= k < kept.len() implies (dependency_line(
        #[trigger] kept[k],
    ) matches Ok(line) && line == dependency_lines(nodes)[k]) by {
        let i = lemma_kept_is_a_node(nodes, k);
        assert(!is_failure(nodes[i]));
    }
}

/// Comments make no difference: the nodes translate to what they translate
/// to once the comments are taken out, be it lines or an error.
pub proof fn law_comments_are_ignored(nodes: Seq<NodeView>)
    ensures
        translation(nodes) == translation(without_comments(nodes)),
        forall|input: Seq<char>| #[trigger]
            parses_to(input, nodes) ==> conversion(input) == translation(nodes),
{
    let kept = without_comments(nodes);
    if exists|i: int| 0 <= i < nodes.len() && is_failure(nodes[i]) {
        let i = choose|i: int| 0 <= i < nodes.len() && is_failure(nodes[i]);
        let k = lemma_first_failure_exists(nodes, i);
        let before = nodes.take(k);
        let from = nodes.skip(k);
        let after = from.skip(1);
        let at = without_comments(before).len() as int;
        assert(nodes =~= before + from);
        assert(from =~= seq![nodes[k]] + after);
        Seq::filter_distributes_over_add(before, from, is_no_comment());
        after.lemma_filter_prepend(nodes[k], is_no_comment());
        assert(kept[at] == nodes[k]);
        assert forall|j: int| 0 <= j < at implies !is_failure(#[trigger] kept[j]) by {
            let m = lemma_kept_is_a_node(before, j);
            assert(nodes[m] == kept[j]);
        }
        law_first_failure_decides(kept, at);
        law_first_failure_decides(nodes, k);
    } else {
        assert forall|j: int| 0 <= j < kept.len() implies !(#[trigger] kept[j]).comment
            && !is_failure(kept[j]) by {
            let m = lemma_kept_is_a_node(nodes, j);
            assert(!is_failure(nodes[m]));
        }
        lemma_without_comments_keeps(kept);
        law_lines_in_order(nodes);
        law_lines_in_order(kept);
    }
}

/// Where one dependency with a version is all that the input holds besides
/// comments, the output is exactly `implementation "group:artifact:version"`.
pub proof fn law_single_dependency(
    nodes: Seq<NodeView>,
    node: NodeView,
    group: Seq<char>,
    artifact: Seq<char>,
    version: Seq<char>,
)
    requires
        without_comments(nodes) == seq![node],
        is_dependency(node, group, artifact, Some(version)),
    ensures
        translation(nodes) matches Ok(out) && out == "implementation \""@ + group + ":"@ + artifact
            + ":"@ + version + "\""@,
        forall|input: Seq<char>| #[trigger]
            parses_to(input, nodes) ==> conversion(input) == translation(nodes),
{
    law_comments_are_ignored(nodes);
    lemma_without_comments_keeps(seq![node]);
    law_lines_in_order(seq![node]);
}

/// Where one dependency without a version element, or with one that holds no
/// text, is all that the input holds besides comments, the output is exactly
/// `implementation "group:artifact"`: no colon follows the artifact.
pub proof fn law_single_dependency_without_version(
    nodes: Seq<NodeView>,
    node: NodeView,
    group: Seq<char>,
    artifact: Seq<char>,
)
    requires
        without_comments(nodes) == seq![node],
        is_dependency(node, group, artifact, None),
    ensures
        translation(nodes) matches Ok(out) && out == "implementation \""@ + group + ":"@ + artifact
            + "\""@,
        forall|input: Seq<char>| #[trigger]
            parses_to(input, nodes) ==> conversion(input) == translation(nodes),
{
    law_comments_are_ignored(nodes);
    lemma_without_comments_keeps(seq![node]);
    law_lines_in_order(seq![node]);
}

/// Whatever the version's text is, it stands in the output character for
/// character, between a colon and the closing quote.
pub proof fn law_version_is_verbatim(
    nodes: Seq<NodeView>,
    node: NodeView,
    group: Seq<char>,
    artifact: Seq<char>,
    version: Seq<char>,
)
    requires
        without_comments(nodes) == seq![node],
        is_dependency(node, group, artifact, Some(version)),
    ensures
        translation(nodes) matches Ok(out) && ({
            let end: int = out.len() - 1;
            let start: int = end - version.len();
            &&& 0 < start
            &&& out[start - 1] == ':'
            &&& out.subrange(start, end) == version
            &&& out[end] == '"'
        }),
        forall|input: Seq<char>| #[trigger]
            parses_to(input, nodes) ==> conversion(input) == translation(nodes),
{
    law_single_dependency(nodes, node, group, artifact, version);
    reveal_strlit(":");
    reveal_strlit("\"");
    let head = "implementation \""@ + group + ":"@ + artifact;
    let out = head + ":"@ + version + "\""@;
    assert(out.subrange(head.len() + 1 as int, out.len() - 1) =~= version);
}

/// A dependency without a group or without an artifact makes the conversion
/// fail, wherever it stands. Where it is the first node to stop the
/// conversion, the error names the missing field, the group before the
/// artifact.
pub proof fn law_missing_field(nodes: Seq<NodeView>, k: int)
    requires
        0 <= k < nodes.len(),
        !nodes[k].comment,
        nodes[k].name == "dependency"@,
        tag_text(nodes[k], "groupId"@) is None || tag_text(nodes[k], "artifactId"@) is None,
    ensures
        translation(nodes) is Err,
        is_first_failure(nodes, k) ==> (translation(nodes) matches Err(e) && e
            == ConversionErrorView::MissingField(
            if tag_text(nodes[k], "groupId"@) is None {
                "groupId"@
            } else {
                "artifactId"@
            },
        )),
        forall|input: Seq<char>| #[trigger]
            parses_to(input, nodes) ==> conversion(input) == translation(nodes),
{
    let first = lemma_first_failure_exists(nodes, k);
    law_first_failure_decides(nodes, first);
    if is_first_failure(nodes, k) {
        law_first_failure_decides(nodes, k);
    }
}

/// A top-level node that is neither a comment nor a `dependency` element
/// makes the conversion fail, wherever it stands. Where it is the first node
/// to stop the conversion, the error holds its tag name.
pub proof fn law_not_a_dependency(nodes: Seq<NodeView>, k: int)
    requires
        0 <= k < nodes.len(),
        !nodes[k].comment,
        nodes[k].name != "dependency"@,
    ensures
        translation(nodes) is Err,
        is_first_failure(nodes, k) ==> (translation(nodes) matches Err(e) && e
            == ConversionErrorView::Structure(nodes[k].name)),
        forall|input: Seq<char>| #[trigger]
            parses_to(input, nodes) ==> conversion(input) == translation(nodes),
{
    let first = lemma_first_failure_exists(nodes, k);
    law_first_failure_decides(nodes, first);
    if is_first_failure(nodes, k) {
        law_first_failure_decides(nodes, k);
    }
}

} // verus!
