//! The tree view: each element on a line of its own below its parent, drawn
//! with box-drawing connectors.
//!
//! Frames are carried as their text (`x,y wxh`, the numbers already
//! rounded), so a tree here is a `TreeNode<String>`.

use vstd::prelude::*;
use crate::ax::tree::{lemma_nodes_view_push, nodes_view, opt_view, NodeView, TreeNode};
use crate::output::plain_fmt::{
    lemma_pieces_concat, lemma_plain_pieces, paint, pieces_ok, plain_pieces, Paint,
};
use crate::output::style::{styled, Style};
use crate::text::{join, join_strings, push_str, views};

verus! {

/// The piece of an optional field: `pre`, the text and `post`, in `style`.
pub open spec fn opt_paint(style: Style, o: Option<Seq<char>>, pre: Seq<char>, post: Seq<char>) -> Seq<
    Paint,
> {
    match o {
        Some(t) => seq![paint(style, pre + t + post)],
        None => Seq::empty(),
    }
}

/// The pieces of a node line that are separated by spaces: path, title,
/// role and subrole.
pub open spec fn line_head_requests(n: NodeView<String>) -> Seq<Paint> {
    opt_paint(Style::Dimmed, n.path, "["@, "]"@) + opt_paint(Style::Green, n.title, "\""@, "\""@)
        + seq![paint(Style::Cyan, "("@ + n.role + ")"@)] + opt_paint(
        Style::Dimmed,
        n.subrole,
        "["@,
        "]"@,
    )
}

/// The pieces appended after those: value, description, identifier, frame
/// and link.
pub open spec fn line_tail_requests(n: NodeView<String>) -> Seq<Paint> {
    opt_paint(Style::Yellow, n.value, " [value: "@, "]"@) + opt_paint(
        Style::Dimmed,
        n.description,
        " — "@,
        ""@,
    ) + opt_paint(Style::Dimmed, n.identifier, " #"@, ""@) + opt_paint(
        Style::Dimmed,
        opt_view(n.frame),
        " @("@,
        ")"@,
    ) + opt_paint(Style::Blue, n.url, " -> "@, ""@)
}

/// The pieces of a node line.
pub open spec fn node_requests(n: NodeView<String>) -> Seq<Paint> {
    line_head_requests(n) + line_tail_requests(n)
}

/// A node line laid out from its pieces: the head pieces joined by spaces,
/// then the tail pieces.
pub open spec fn line_text(n: NodeView<String>, ps: Seq<Seq<char>>) -> Seq<char> {
    let h = line_head_requests(n).len() as int;
    join(ps.take(h), " "@) + join(ps.skip(h), ""@)
}

/// The pieces of a tree, node by node in pre-order.
pub open spec fn subtree_requests(n: NodeView<String>) -> Seq<Paint>
    decreases n,
{
    node_requests(n) + forest_requests(n.children)
}

/// The pieces of a list of trees, one tree after the other.
pub open spec fn forest_requests(cs: Seq<NodeView<String>>) -> Seq<Paint>
    decreases cs,
{
    if cs.len() == 0 {
        Seq::empty()
    } else {
        forest_requests(cs.drop_last()) + subtree_requests(cs.last())
    }
}

/// What stands before a node's line after the prefix: nothing for a node at
/// depth 0, else a branch that closes for the last child.
pub open spec fn connector(n: NodeView<String>, is_last: bool) -> Seq<char> {
    if n.depth == 0 {
        ""@
    } else if is_last {
        "└── "@
    } else {
        "├── "@
    }
}

/// The prefix of a node's children: empty below a node at depth 0, else the
/// node's prefix and a column that continues while siblings follow.
pub open spec fn child_prefix(n: NodeView<String>, prefix: Seq<char>, is_last: bool) -> Seq<char> {
    if n.depth == 0 {
        Seq::empty()
    } else if is_last {
        prefix + "    "@
    } else {
        prefix + "│   "@
    }
}

/// A tree laid out from its pieces: the node's line, then its children.
pub open spec fn subtree_text(n: NodeView<String>, prefix: Seq<char>, is_last: bool, ps: Seq<Seq<char>>) -> Seq<
    char,
>
    decreases n,
{
    let k = node_requests(n).len() as int;
    prefix + connector(n, is_last) + line_text(n, ps.take(k)) + "\n"@ + forest_text(
        n.children,
        child_prefix(n, prefix, is_last),
        true,
        ps.skip(k),
    )
}

/// A list of trees laid out from their pieces; the last of them closes its
/// branch when `last_is_last` holds.
pub open spec fn forest_text(
    cs: Seq<NodeView<String>>,
    prefix: Seq<char>,
    last_is_last: bool,
    ps: Seq<Seq<char>>,
) -> Seq<char>
    decreases cs,
{
    if cs.len() == 0 {
        Seq::empty()
    } else {
        let m = forest_requests(cs.drop_last()).len() as int;
        forest_text(cs.drop_last(), prefix, false, ps.take(m)) + subtree_text(
            cs.last(),
            prefix,
            last_is_last,
            ps.skip(m),
        )
    }
}

/// The text drawn for a node under a prefix begins with that prefix (its
/// own line does, and so does the whole of it).
pub proof fn lemma_drawn_under_prefix(n: NodeView<String>, prefix: Seq<char>, is_last: bool, ps: Seq<Seq<char>>)
    ensures
        subtree_text(n, prefix, is_last, ps).len() >= prefix.len(),
        subtree_text(n, prefix, is_last, ps).subrange(0, prefix.len() as int) == prefix,
{
    let k = node_requests(n).len() as int;
    let rest = connector(n, is_last) + line_text(n, ps.take(k)) + "\n"@ + forest_text(
        n.children,
        child_prefix(n, prefix, is_last),
        true,
        ps.skip(k),
    );
    assert(subtree_text(n, prefix, is_last, ps) =~= prefix + rest);
    assert((prefix + rest).subrange(0, prefix.len() as int) =~= prefix);
}

/// In a list of trees drawn under one prefix, each tree is drawn, as a
/// contiguous part, under that same prefix; only the last one may close its
/// branch.
proof fn lemma_forest_part(
    cs: Seq<NodeView<String>>,
    prefix: Seq<char>,
    last_is_last: bool,
    ps: Seq<Seq<char>>,
    i: int,
) -> (parts: (Seq<char>, Seq<char>, Seq<Seq<char>>))
    requires
        0 <= i < cs.len(),
    ensures
        forest_text(cs, prefix, last_is_last, ps) == parts.0 + subtree_text(
            cs[i],
            prefix,
            i == cs.len() - 1 && last_is_last,
            parts.2,
        ) + parts.1,
    decreases cs.len(),
{
    let m = forest_requests(cs.drop_last()).len() as int;
    let head = forest_text(cs.drop_last(), prefix, false, ps.take(m));
    let tail = subtree_text(cs.last(), prefix, last_is_last, ps.skip(m));
    if i == cs.len() - 1 {
        assert(forest_text(cs, prefix, last_is_last, ps) =~= head + tail + Seq::<char>::empty());
        (head, Seq::empty(), ps.skip(m))
    } else {
        let p = lemma_forest_part(cs.drop_last(), prefix, false, ps.take(m), i);
        assert(cs.drop_last()[i] == cs[i]);
        let mid = subtree_text(cs[i], prefix, false, p.2);
        assert(forest_text(cs, prefix, last_is_last, ps) =~= p.0 + mid + (p.1 + tail));
        (p.0, p.1 + tail, p.2)
    }
}

/// Each child of a node is drawn, as a contiguous part of the node's text,
/// under the prefix of the node's own line extended by one four-column
/// segment (blank below a last node, a vertical rule otherwise); below the
/// root (depth 0) the children start at the left margin. The child closes
/// its branch exactly when it is the last child. So every line drawn for a
/// node's descendants begins with the prefix of the node's own line.
pub proof fn lemma_child_drawn_under_parent_prefix(
    n: NodeView<String>,
    prefix: Seq<char>,
    is_last: bool,
    ps: Seq<Seq<char>>,
    i: int,
) -> (parts: (Seq<char>, Seq<char>, Seq<Seq<char>>))
    requires
        0 <= i < n.children.len(),
    ensures
        subtree_text(n, prefix, is_last, ps) == parts.0 + subtree_text(
            n.children[i],
            if n.depth == 0 {
                Seq::<char>::empty()
            } else if is_last {
                prefix + "    "@
            } else {
                prefix + "│   "@
            },
            i == n.children.len() - 1,
            parts.2,
        ) + parts.1,
        n.depth != 0 ==> subtree_text(n.children[i], child_prefix(n, prefix, is_last), i == n.children.len() - 1, parts.2).subrange(0, prefix.len() as int) == prefix,
{
    let k = node_requests(n).len() as int;
    let q = child_prefix(n, prefix, is_last);
    let p = lemma_forest_part(n.children, q, true, ps.skip(k), i);
    let own = prefix + connector(n, is_last) + line_text(n, ps.take(k)) + "\n"@;
    assert(subtree_text(n, prefix, is_last, ps) =~= (own + p.0) + subtree_text(
        n.children[i],
        q,
        i == n.children.len() - 1,
        p.2,
    ) + p.1);
    lemma_drawn_under_prefix(n.children[i], q, i == n.children.len() - 1, p.2);
    if n.depth != 0 {
        let c = subtree_text(n.children[i], q, i == n.children.len() - 1, p.2);
        assert(q.subrange(0, prefix.len() as int) =~= prefix);
        assert(c.subrange(0, prefix.len() as int) =~= c.subrange(0, q.len() as int).subrange(0, prefix.len() as int));
    }
    (own + p.0, p.1, p.2)
}

/// `pre`, `s` and `post` in one string.
fn wrap(pre: &str, s: &str, post: &str) -> (r: String)
    ensures
        r@ == pre@ + s@ + post@,
{
    let mut r = String::new();
    push_str(&mut r, pre);
    push_str(&mut r, s);
    push_str(&mut r, post);
    r
}

/// Add the piece of an optional field.
fn push_opt_piece(
    parts: &mut Vec<String>,
    style: Style,
    o: &Option<String>,
    pre: &str,
    post: &str,
    use_color: bool,
) -> (qs: Ghost<Seq<Seq<char>>>)
    ensures
        pieces_ok(use_color, opt_paint(style, opt_view(*o), pre@, post@), qs@),
        views(final(parts)@) == views(old(parts)@) + qs@,
{
    let ghost mut qs: Seq<Seq<char>> = Seq::empty();
    match o {
        Some(t) => {
            let w = wrap(pre, t.as_str(), post);
            let p = styled(use_color, style, w.as_str(), 0);
            proof {
                qs = seq![p@];
            }
            parts.push(p);
            assert(views(parts@) =~= views(old(parts)@) + qs);
        },
        None => {
            assert(views(parts@) =~= views(old(parts)@) + qs);
        },
    }
    Ghost(qs)
}

/// Append the line of one node (without its newline).
fn format_node_line(output: &mut String, node: &TreeNode<String>, use_color: bool) -> (ps: Ghost<
    Seq<Seq<char>>,
>)
    ensures
        pieces_ok(use_color, node_requests(node@), ps@),
        final(output)@ == old(output)@ + line_text(node@, ps@),
{
    let mut head: Vec<String> = Vec::new();
    let q1 = push_opt_piece(&mut head, Style::Dimmed, &node.path, "[", "]", use_color);
    let q2 = push_opt_piece(&mut head, Style::Green, &node.title, "\"", "\"", use_color);
    let role = wrap("(", node.role.as_str(), ")");
    let rp = styled(use_color, Style::Cyan, role.as_str(), 0);
    let ghost rpv = rp@;
    let ghost h2 = views(head@);
    head.push(rp);
    assert(views(head@) =~= h2 + seq![rpv]);
    let q4 = push_opt_piece(&mut head, Style::Dimmed, &node.subrole, "[", "]", use_color);
    let mut tail: Vec<String> = Vec::new();
    let t1 = push_opt_piece(&mut tail, Style::Yellow, &node.value, " [value: ", "]", use_color);
    let t2 = push_opt_piece(&mut tail, Style::Dimmed, &node.description, " — ", "", use_color);
    let t3 = push_opt_piece(&mut tail, Style::Dimmed, &node.identifier, " #", "", use_color);
    let t4 = push_opt_piece(&mut tail, Style::Dimmed, &node.frame, " @(", ")", use_color);
    let t5 = push_opt_piece(&mut tail, Style::Blue, &node.url, " -> ", "", use_color);
    let line_head = join_strings(&head, " ");
    let line_tail = join_strings(&tail, "");
    push_str(output, line_head.as_str());
    push_str(output, line_tail.as_str());
    let ghost hp = q1@ + q2@ + seq![rpv] + q4@;
    let ghost tp = t1@ + t2@ + t3@ + t4@ + t5@;
    proof {
        let n = node@;
        let r1 = opt_paint(Style::Dimmed, n.path, "["@, "]"@);
        let r2 = opt_paint(Style::Green, n.title, "\""@, "\""@);
        let r3 = seq![paint(Style::Cyan, "("@ + n.role + ")"@)];
        let r4 = opt_paint(Style::Dimmed, n.subrole, "["@, "]"@);
        assert(pieces_ok(use_color, r3, seq![rpv]));
        lemma_pieces_concat(use_color, r1, q1@, r2, q2@);
        lemma_pieces_concat(use_color, r1 + r2, q1@ + q2@, r3, seq![rpv]);
        lemma_pieces_concat(use_color, r1 + r2 + r3, q1@ + q2@ + seq![rpv], r4, q4@);
        let s1 = opt_paint(Style::Yellow, n.value, " [value: "@, "]"@);
        let s2 = opt_paint(Style::Dimmed, n.description, " — "@, ""@);
        let s3 = opt_paint(Style::Dimmed, n.identifier, " #"@, ""@);
        let s4 = opt_paint(Style::Dimmed, opt_view(n.frame), " @("@, ")"@);
        let s5 = opt_paint(Style::Blue, n.url, " -> "@, ""@);
        lemma_pieces_concat(use_color, s1, t1@, s2, t2@);
        lemma_pieces_concat(use_color, s1 + s2, t1@ + t2@, s3, t3@);
        lemma_pieces_concat(use_color, s1 + s2 + s3, t1@ + t2@ + t3@, s4, t4@);
        lemma_pieces_concat(use_color, s1 + s2 + s3 + s4, t1@ + t2@ + t3@ + t4@, s5, t5@);
        lemma_pieces_concat(use_color, r1 + r2 + r3 + r4, hp, s1 + s2 + s3 + s4 + s5, tp);
        assert(views(head@) =~= hp);
        assert(views(tail@) =~= tp);
        let ps = hp + tp;
        assert(hp.len() == line_head_requests(n).len());
        assert(ps.take(hp.len() as int) =~= hp);
        assert(ps.skip(hp.len() as int) =~= tp);
    }
    Ghost(hp + tp)
}

/// Append a node and, below it, its children.
fn format_node(
    output: &mut String,
    node: &TreeNode<String>,
    prefix: &str,
    is_last: bool,
    use_color: bool,
) -> (ps: Ghost<Seq<Seq<char>>>)
    ensures
        pieces_ok(use_color, subtree_requests(node@), ps@),
        final(output)@ == old(output)@ + subtree_text(node@, prefix@, is_last, ps@),
    decreases node,
{
    let conn: &str = if node.depth == 0 {
        ""
    } else if is_last {
        "└── "
    } else {
        "├── "
    };
    let ghost start = output@;
    push_str(output, prefix);
    push_str(output, conn);
    let lp = format_node_line(output, node, use_color);
    push_str(output, "\n");
    let mut kid_prefix = String::new();
    if node.depth != 0 {
        push_str(&mut kid_prefix, prefix);
        if is_last {
            push_str(&mut kid_prefix, "    ");
        } else {
            push_str(&mut kid_prefix, "│   ");
        }
    }
    assert(kid_prefix@ == child_prefix(node@, prefix@, is_last));
    let ghost head = output@;
    let ghost kids = node.children@;
    let ghost mut cps: Seq<Seq<char>> = Seq::empty();
    let n = node.children.len();
    let mut i: usize = 0;
    while i < n
        invariant
            n == kids.len(),
            kids == node.children@,
            kid_prefix@ == child_prefix(node@, prefix@, is_last),
            i <= n,
            pieces_ok(use_color, forest_requests(nodes_view(kids.take(i as int))), cps),
            output@ == head + forest_text(
                nodes_view(kids.take(i as int)),
                kid_prefix@,
                i == n,
                cps,
            ),
        decreases n - i,
    {
        let child = &node.children[i];
        assert(decreases_to!(node => node.children));
        assert(decreases_to!(node.children => node.children[i as int]));
        let child_is_last = i == n - 1;
        let q = format_node(output, child, kid_prefix.as_str(), child_is_last, use_color);
        proof {
            let pre = nodes_view(kids.take(i as int));
            lemma_nodes_view_push(kids.take(i as int), kids[i as int]);
            assert(kids.take(i + 1) =~= kids.take(i as int).push(kids[i as int]));
            let grown = pre.push(kids[i as int]@);
            assert(grown.drop_last() =~= pre);
            assert(grown.last() == kids[i as int]@);
            assert((cps + q@).take(cps.len() as int) =~= cps);
            assert((cps + q@).skip(cps.len() as int) =~= q@);
            lemma_pieces_concat(
                use_color,
                forest_requests(pre),
                cps,
                subtree_requests(kids[i as int]@),
                q@,
            );
            cps = cps + q@;
        }
        i = i + 1;
    }
    let ghost ps = lp@ + cps;
    proof {
        assert(kids.take(n as int) =~= kids);
        let nv = node@;
        assert(nv.children == nodes_view(kids));
        assert(ps.take(lp@.len() as int) =~= lp@);
        assert(ps.skip(lp@.len() as int) =~= cps);
        lemma_pieces_concat(use_color, node_requests(nv), lp@, forest_requests(nv.children), cps);
        assert(kid_prefix@ == child_prefix(nv, prefix@, is_last));
        assert(conn@ == connector(nv, is_last));
        assert(output@ =~= start + subtree_text(nv, prefix@, is_last, ps));
    }
    Ghost(ps)
}

/// Format a tree node and its children as a unicode tree.
pub fn format_tree(node: &TreeNode<String>, use_color: bool) -> (r: String)
    ensures
        exists|ps: Seq<Seq<char>>|
            pieces_ok(use_color, subtree_requests(node@), ps) && r@ == subtree_text(
                node@,
                ""@,
                true,
                ps,
            ),
        !use_color ==> r@ == subtree_text(
            node@,
            ""@,
            true,
            plain_pieces(subtree_requests(node@)),
        ),
{
    let mut output = String::new();
    let ps = format_node(&mut output, node, "", true, use_color);
    proof {
        assert(output@ =~= subtree_text(node@, ""@, true, ps@));
        if !use_color {
            lemma_plain_pieces(subtree_requests(node@), ps@);
        }
    }
    output
}

} // verus!
