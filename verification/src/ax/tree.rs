//! The accessibility tree as plain values, and the ways the tool shapes it:
//! pruning to a role filter or to what is visible, synthetic paths, and the
//! short forms of attribute values shown in the tree.

use vstd::prelude::*;
use crate::ax::attributes::text_of_display;
use crate::text::{
    chars_of, contains, has_substring, is_digit, lemma_nat_text_digits,
    lemma_parse_usize_nat_text, lemma_split_append, lemma_split_len, lemma_split_none,
    lemma_trim_unchanged, lowercase, nat_text, parse_usize,
    parse_usize_spec, push_str, split_char, split_on, str_eq, string_of, to_lower, trim,
    trim_seq, u64_text, views,
};

verus! {

/// One element of an accessibility tree. `F` is the element's frame (its
/// screen position and size), which the library carries without reading.
#[verifier::reject_recursive_types(F)]
#[derive(Debug)]
pub struct TreeNode<F> {
    pub path: Option<String>,
    pub role: String,
    pub subrole: Option<String>,
    pub title: Option<String>,
    pub value: Option<String>,
    pub description: Option<String>,
    pub identifier: Option<String>,
    pub frame: Option<F>,
    pub url: Option<String>,
    pub children: Vec<TreeNode<F>>,
    pub depth: usize,
}

/// The mathematical form of a tree node.
#[verifier::reject_recursive_types(F)]
pub struct NodeView<F> {
    pub path: Option<Seq<char>>,
    pub role: Seq<char>,
    pub subrole: Option<Seq<char>>,
    pub title: Option<Seq<char>>,
    pub value: Option<Seq<char>>,
    pub description: Option<Seq<char>>,
    pub identifier: Option<Seq<char>>,
    pub frame: Option<F>,
    pub url: Option<Seq<char>>,
    pub children: Seq<NodeView<F>>,
    pub depth: usize,
}

/// The view of an optional string.
pub open spec fn opt_view(o: Option<String>) -> Option<Seq<char>> {
    match o {
        Some(s) => Some(s@),
        None => None,
    }
}

/// The mathematical form of a tree.
pub open spec fn node_view<F>(n: TreeNode<F>) -> NodeView<F>
    decreases n,
{
    NodeView {
        path: opt_view(n.path),
        role: n.role@,
        subrole: opt_view(n.subrole),
        title: opt_view(n.title),
        value: opt_view(n.value),
        description: opt_view(n.description),
        identifier: opt_view(n.identifier),
        frame: n.frame,
        url: opt_view(n.url),
        children: nodes_view(n.children@),
        depth: n.depth,
    }
}

/// The mathematical form of a list of trees.
pub open spec fn nodes_view<F>(ns: Seq<TreeNode<F>>) -> Seq<NodeView<F>>
    decreases ns,
{
    if ns.len() == 0 {
        Seq::empty()
    } else {
        nodes_view(ns.drop_last()).push(node_view(ns.last()))
    }
}

impl<F> View for TreeNode<F> {
    type V = NodeView<F>;

    open spec fn view(&self) -> NodeView<F> {
        node_view(*self)
    }
}


/// `nodes_view` of a list grown by one tree.
pub proof fn lemma_nodes_view_push<F>(ns: Seq<TreeNode<F>>, n: TreeNode<F>)
    ensures
        nodes_view(ns.push(n)) == nodes_view(ns).push(node_view(n)),
        nodes_view(ns).len() == ns.len(),
    decreases ns.len(),
{
    assert(ns.push(n).drop_last() =~= ns);
    lemma_nodes_view_len(ns);
}

/// `nodes_view` keeps the length of the list.
pub proof fn lemma_nodes_view_len<F>(ns: Seq<TreeNode<F>>)
    ensures
        nodes_view(ns).len() == ns.len(),
    decreases ns.len(),
{
    if ns.len() > 0 {
        lemma_nodes_view_len(ns.drop_last());
    }
}

/// The view of an optional tree.
pub open spec fn opt_node_view<F>(o: Option<TreeNode<F>>) -> Option<NodeView<F>> {
    match o {
        Some(n) => Some(node_view(n)),
        None => None,
    }
}

// ---------------------------------------------------------------------------
// Pruning
// ---------------------------------------------------------------------------

/// The tree pruned to the branches that hold a node satisfying `keep`;
/// `None` when no node does.
pub open spec fn pruned_where<F>(n: NodeView<F>, keep: spec_fn(NodeView<F>) -> bool) -> Option<
    NodeView<F>,
>
    decreases n,
{
    let kids = pruned_list_where(n.children, keep);
    if keep(n) || kids.len() > 0 {
        Some(NodeView { children: kids, ..n })
    } else {
        None
    }
}

/// Each tree of the list pruned by `keep`, those left empty dropped.
pub open spec fn pruned_list_where<F>(ns: Seq<NodeView<F>>, keep: spec_fn(NodeView<F>) -> bool) -> Seq<
    NodeView<F>,
>
    decreases ns,
{
    if ns.len() == 0 {
        Seq::empty()
    } else {
        let before = pruned_list_where(ns.drop_last(), keep);
        match pruned_where(ns.last(), keep) {
            Some(m) => before.push(m),
            None => before,
        }
    }
}

/// Number of nodes of the tree that satisfy `keep`.
pub open spec fn count_where<F>(n: NodeView<F>, keep: spec_fn(NodeView<F>) -> bool) -> nat
    decreases n,
{
    (if keep(n) {
        1nat
    } else {
        0nat
    }) + count_list_where(n.children, keep)
}

/// Number of nodes of the trees that satisfy `keep`.
pub open spec fn count_list_where<F>(ns: Seq<NodeView<F>>, keep: spec_fn(NodeView<F>) -> bool) -> nat
    decreases ns,
{
    if ns.len() == 0 {
        0
    } else {
        count_list_where(ns.drop_last(), keep) + count_where(ns.last(), keep)
    }
}

/// Every node of the tree satisfies `keep` or has children: nothing stands
/// in the tree that does not lead to a kept node.
pub open spec fn all_lead_to_kept<F>(n: NodeView<F>, keep: spec_fn(NodeView<F>) -> bool) -> bool
    decreases n,
{
    (keep(n) || n.children.len() > 0) && all_lead_to_kept_list(n.children, keep)
}

/// `all_lead_to_kept` for each tree of the list.
pub open spec fn all_lead_to_kept_list<F>(ns: Seq<NodeView<F>>, keep: spec_fn(NodeView<F>) -> bool) -> bool
    decreases ns,
{
    ns.len() == 0 || (all_lead_to_kept_list(ns.drop_last(), keep) && all_lead_to_kept(
        ns.last(),
        keep,
    ))
}

/// `keep` judges a node by its own fields, not by its children.
pub open spec fn looks_at_node_only<F>(keep: spec_fn(NodeView<F>) -> bool) -> bool {
    forall|n: NodeView<F>, cs: Seq<NodeView<F>>|
        #[trigger] keep(NodeView { children: cs, ..n }) == keep(n)
}

proof fn lemma_lead_to_kept_counts<F>(n: NodeView<F>, keep: spec_fn(NodeView<F>) -> bool)
    requires
        all_lead_to_kept(n, keep),
    ensures
        count_where(n, keep) >= 1,
    decreases n,
{
    if !keep(n) {
        lemma_lead_to_kept_counts_list(n.children, keep);
    }
}

proof fn lemma_lead_to_kept_counts_list<F>(ns: Seq<NodeView<F>>, keep: spec_fn(NodeView<F>) -> bool)
    requires
        all_lead_to_kept_list(ns, keep),
        ns.len() > 0,
    ensures
        count_list_where(ns, keep) >= 1,
    decreases ns,
{
    lemma_lead_to_kept_counts(ns.last(), keep);
}

/// Pruning keeps every kept node and nothing else: the pruned tree is
/// absent exactly when no node satisfies `keep`, holds as many such nodes as
/// the tree, and each of its nodes satisfies `keep` or leads to one that does.
pub proof fn lemma_prune_keeps_exactly_kept<F>(n: NodeView<F>, keep: spec_fn(NodeView<F>) -> bool)
    requires
        looks_at_node_only(keep),
    ensures
        pruned_where(n, keep) is None <==> count_where(n, keep) == 0,
        pruned_where(n, keep) matches Some(m) ==> count_where(m, keep) == count_where(n, keep)
            && all_lead_to_kept(m, keep),
    decreases n,
{
    let kids = pruned_list_where(n.children, keep);
    lemma_prune_list_keeps_exactly_kept(n.children, keep);
    assert(keep(NodeView { children: kids, ..n }) == keep(n));
    if kids.len() > 0 {
        lemma_lead_to_kept_counts_list(kids, keep);
    }
}

/// `lemma_prune_keeps_exactly_kept` for each tree of a list.
pub proof fn lemma_prune_list_keeps_exactly_kept<F>(ns: Seq<NodeView<F>>, keep: spec_fn(NodeView<F>) -> bool)
    requires
        looks_at_node_only(keep),
    ensures
        count_list_where(pruned_list_where(ns, keep), keep) == count_list_where(ns, keep),
        all_lead_to_kept_list(pruned_list_where(ns, keep), keep),
    decreases ns,
{
    if ns.len() > 0 {
        let before = pruned_list_where(ns.drop_last(), keep);
        lemma_prune_list_keeps_exactly_kept(ns.drop_last(), keep);
        lemma_prune_keeps_exactly_kept(ns.last(), keep);
        match pruned_where(ns.last(), keep) {
            Some(m) => {
                assert(before.push(m).drop_last() =~= before);
            },
            None => {},
        }
    }
}

/// Pruning an already pruned tree changes nothing.
pub proof fn lemma_prune_idempotent<F>(n: NodeView<F>, keep: spec_fn(NodeView<F>) -> bool)
    requires
        looks_at_node_only(keep),
        all_lead_to_kept(n, keep),
    ensures
        pruned_where(n, keep) == Some(n),
    decreases n,
{
    lemma_prune_list_idempotent(n.children, keep);
    assert(NodeView { children: n.children, ..n } == n);
}

/// `lemma_prune_idempotent` for each tree of a list.
pub proof fn lemma_prune_list_idempotent<F>(ns: Seq<NodeView<F>>, keep: spec_fn(NodeView<F>) -> bool)
    requires
        looks_at_node_only(keep),
        all_lead_to_kept_list(ns, keep),
    ensures
        pruned_list_where(ns, keep) == ns,
    decreases ns,
{
    if ns.len() > 0 {
        lemma_prune_list_idempotent(ns.drop_last(), keep);
        lemma_prune_idempotent(ns.last(), keep);
        assert(ns.drop_last().push(ns.last()) =~= ns);
    }
}

// ---------------------------------------------------------------------------
// Role filter
// ---------------------------------------------------------------------------

/// A role matches a filter when the lower-cased filter occurs in the
/// lower-cased role.
pub open spec fn role_matches(role: Seq<char>, filter: Seq<char>) -> bool {
    has_substring(lowercase(role), lowercase(filter))
}

/// The nodes a role filter keeps.
pub open spec fn role_keep<F>(filter: Seq<char>) -> spec_fn(NodeView<F>) -> bool {
    |m: NodeView<F>| role_matches(m.role, filter)
}

/// Whether a role matches a filter, ignoring case.
pub fn matches_role_filter(role: &str, filter: &str) -> (r: bool)
    ensures
        r == role_matches(role@, filter@),
{
    let role_lower = to_lower(role);
    let filter_lower = to_lower(filter);
    contains(role_lower.as_str(), filter_lower.as_str())
}

impl<F> TreeNode<F> {
    /// Prune the tree to only keep branches containing nodes whose role
    /// matches the filter.
    pub fn prune_to_filter(self, filter: &str) -> (r: Option<TreeNode<F>>)
        ensures
            opt_node_view(r) == pruned_where(self@, role_keep(filter@)),
        decreases self,
    {
        let dominated = matches_role_filter(self.role.as_str(), filter);
        let TreeNode {
            path,
            role,
            subrole,
            title,
            value,
            description,
            identifier,
            frame,
            url,
            children,
            depth,
        } = self;
        let kids = prune_list_to_filter(children, filter);
        proof {
            lemma_nodes_view_len(kids@);
        }
        if dominated || kids.len() > 0 {
            Some(
                TreeNode {
                    path,
                    role,
                    subrole,
                    title,
                    value,
                    description,
                    identifier,
                    frame,
                    url,
                    children: kids,
                    depth,
                },
            )
        } else {
            None
        }
    }
}

/// Each tree of the list pruned to the role filter, those left empty dropped.
fn prune_list_to_filter<F>(children: Vec<TreeNode<F>>, filter: &str) -> (r: Vec<TreeNode<F>>)
    ensures
        nodes_view(r@) == pruned_list_where(nodes_view(children@), role_keep(filter@)),
    decreases children,
{
    let ghost whole = children;
    let ghost orig = children@;
    let n = children.len();
    let mut rest = children;
    let mut out: Vec<TreeNode<F>> = Vec::new();
    let mut i: usize = 0;
    proof {
        assert(orig.subrange(0, 0) =~= Seq::<TreeNode<F>>::empty());
    }
    #[verifier::loop_isolation(false)]
    while i < n
        invariant
            n == orig.len(),
            whole@ == orig,
            i <= n,
            rest@ == orig.subrange(i as int, n as int),
            nodes_view(out@) == pruned_list_where(
                nodes_view(orig.subrange(0, i as int)),
                role_keep(filter@),
            ),
        decreases n - i,
    {
        let c = rest.remove(0);
        assert(c == orig[i as int]);
        assert(decreases_to!(whole => whole[i as int]));
        proof {
            lemma_nodes_view_push(orig.subrange(0, i as int), c);
            assert(orig.subrange(0, i + 1) =~= orig.subrange(0, i as int).push(c));
            assert(nodes_view(orig.subrange(0, i as int)).push(node_view(c)).drop_last()
                =~= nodes_view(orig.subrange(0, i as int)));
        }
        let pruned = c.prune_to_filter(filter);
        match pruned {
            Some(m) => {
                proof {
                    lemma_nodes_view_push(out@, m);
                }
                out.push(m);
            },
            None => {},
        }
        assert(rest@ =~= orig.subrange(i + 1, n as int));
        i = i + 1;
    }
    assert(orig.subrange(0, n as int) =~= orig);
    out
}

// ---------------------------------------------------------------------------
// Visibility
// ---------------------------------------------------------------------------

/// The overlap test `hits` is a function: it accepts every pair of frames
/// and gives one answer for each pair.
pub open spec fn is_overlap_test<F, H: Fn(&F, &F) -> bool>(hits: H) -> bool {
    &&& forall|a: &F, b: &F| #[trigger] call_requires(hits, (a, b))
    &&& forall|a: &F, b: &F, r1: bool, r2: bool|
        #![trigger call_ensures(hits, (a, b), r1), call_ensures(hits, (a, b), r2)]
        call_ensures(hits, (a, b), r1) && call_ensures(hits, (a, b), r2) ==> r1 == r2
}

/// The nodes shown in a viewport: those with a frame that the overlap test
/// says meets the viewport.
pub open spec fn view_keep<F, H: Fn(&F, &F) -> bool>(viewport: F, hits: H) -> spec_fn(
    NodeView<F>,
) -> bool {
    |m: NodeView<F>|
        match m.frame {
            Some(f) => call_ensures(hits, (&f, &viewport), true),
            None => false,
        }
}

impl<F: Copy> TreeNode<F> {
    /// Prune the tree to only keep elements whose frames meet the viewport.
    pub fn prune_to_visible<H: Fn(&F, &F) -> bool>(self, viewport: &F, hits: &H) -> (r: Option<
        TreeNode<F>,
    >)
        requires
            is_overlap_test(*hits),
        ensures
            opt_node_view(r) == pruned_where(self@, view_keep(*viewport, *hits)),
        decreases self,
    {
        let in_viewport = match &self.frame {
            Some(f) => hits(f, viewport),
            None => false,
        };
        let TreeNode {
            path,
            role,
            subrole,
            title,
            value,
            description,
            identifier,
            frame,
            url,
            children,
            depth,
        } = self;
        let kids = prune_list_to_visible(children, viewport, hits);
        proof {
            lemma_nodes_view_len(kids@);
        }
        if in_viewport || kids.len() > 0 {
            Some(
                TreeNode {
                    path,
                    role,
                    subrole,
                    title,
                    value,
                    description,
                    identifier,
                    frame,
                    url,
                    children: kids,
                    depth,
                },
            )
        } else {
            None
        }
    }
}

/// Each tree of the list pruned to the viewport, those left empty dropped.
fn prune_list_to_visible<F: Copy, H: Fn(&F, &F) -> bool>(
    children: Vec<TreeNode<F>>,
    viewport: &F,
    hits: &H,
) -> (r: Vec<TreeNode<F>>)
    requires
        is_overlap_test(*hits),
    ensures
        nodes_view(r@) == pruned_list_where(nodes_view(children@), view_keep(*viewport, *hits)),
    decreases children,
{
    let ghost whole = children;
    let ghost orig = children@;
    let n = children.len();
    let mut rest = children;
    let mut out: Vec<TreeNode<F>> = Vec::new();
    let mut i: usize = 0;
    proof {
        assert(orig.subrange(0, 0) =~= Seq::<TreeNode<F>>::empty());
    }
    #[verifier::loop_isolation(false)]
    while i < n
        invariant
            n == orig.len(),
            whole@ == orig,
            i <= n,
            rest@ == orig.subrange(i as int, n as int),
            nodes_view(out@) == pruned_list_where(
                nodes_view(orig.subrange(0, i as int)),
                view_keep(*viewport, *hits),
            ),
        decreases n - i,
    {
        let c = rest.remove(0);
        assert(c == orig[i as int]);
        assert(decreases_to!(whole => whole[i as int]));
        proof {
            lemma_nodes_view_push(orig.subrange(0, i as int), c);
            assert(orig.subrange(0, i + 1) =~= orig.subrange(0, i as int).push(c));
            assert(nodes_view(orig.subrange(0, i as int)).push(node_view(c)).drop_last()
                =~= nodes_view(orig.subrange(0, i as int)));
        }
        let pruned = c.prune_to_visible(viewport, hits);
        match pruned {
            Some(m) => {
                proof {
                    lemma_nodes_view_push(out@, m);
                }
                out.push(m);
            },
            None => {},
        }
        assert(rest@ =~= orig.subrange(i + 1, n as int));
        i = i + 1;
    }
    assert(orig.subrange(0, n as int) =~= orig);
    out
}

/// The role filter judges a node by its role alone.
pub proof fn lemma_role_keep_looks_at_node_only<F>(filter: Seq<char>)
    ensures
        looks_at_node_only(role_keep::<F>(filter)),
{
}

/// The viewport test judges a node by its frame alone.
pub proof fn lemma_view_keep_looks_at_node_only<F, H: Fn(&F, &F) -> bool>(viewport: F, hits: H)
    ensures
        looks_at_node_only(view_keep::<F, H>(viewport, hits)),
{
}

/// `--filter` keeps only the branches that hold an element whose role
/// matches, and every such element: the filtered tree is absent exactly
/// when no role matches, has as many matching elements as the tree, and
/// each of its elements matches or is an ancestor of a match.
pub proof fn lemma_role_filter_keeps_matches_and_ancestors<F>(n: NodeView<F>, filter: Seq<char>)
    ensures
        pruned_where(n, role_keep(filter)) is None <==> count_where(n, role_keep(filter)) == 0,
        pruned_where(n, role_keep(filter)) matches Some(m) ==> count_where(m, role_keep(filter))
            == count_where(n, role_keep(filter)) && all_lead_to_kept(m, role_keep(filter)),
{
    lemma_role_keep_looks_at_node_only::<F>(filter);
    lemma_prune_keeps_exactly_kept(n, role_keep(filter));
}

/// Pruning to a viewport keeps only the branches that hold an element shown
/// in it, and every such element.
pub proof fn lemma_visible_prune_keeps_shown_and_ancestors<F, H: Fn(&F, &F) -> bool>(
    n: NodeView<F>,
    viewport: F,
    hits: H,
)
    ensures
        pruned_where(n, view_keep(viewport, hits)) is None <==> count_where(
            n,
            view_keep(viewport, hits),
        ) == 0,
        pruned_where(n, view_keep(viewport, hits)) matches Some(m) ==> count_where(
            m,
            view_keep(viewport, hits),
        ) == count_where(n, view_keep(viewport, hits)) && all_lead_to_kept(
            m,
            view_keep(viewport, hits),
        ),
{
    lemma_view_keep_looks_at_node_only::<F, H>(viewport, hits);
    lemma_prune_keeps_exactly_kept(n, view_keep(viewport, hits));
}

/// A childless node that only carries a role, shown in place of an empty
/// result.
pub open spec fn placeholder<F>(role: Seq<char>) -> NodeView<F> {
    NodeView {
        path: None,
        role,
        subrole: None,
        title: None,
        value: None,
        description: None,
        identifier: None,
        frame: None,
        url: None,
        children: Seq::empty(),
        depth: 0,
    }
}

/// A childless node that only carries a role.
pub fn placeholder_node<F>(role: &str) -> (r: TreeNode<F>)
    ensures
        r@ == placeholder::<F>(role@),
{
    let r = TreeNode {
        path: None,
        role: role.to_string(),
        subrole: None,
        title: None,
        value: None,
        description: None,
        identifier: None,
        frame: None,
        url: None,
        children: Vec::new(),
        depth: 0,
    };
    assert(nodes_view(r.children@) =~= Seq::<NodeView<F>>::empty());
    r
}

/// The children of a frameless root, each window pruned to its own frame;
/// children without a frame are kept whole.
pub open spec fn visible_list<F, H: Fn(&F, &F) -> bool>(ns: Seq<NodeView<F>>, hits: H) -> Seq<
    NodeView<F>,
>
    decreases ns.len(),
{
    if ns.len() == 0 {
        Seq::empty()
    } else {
        let before = visible_list(ns.drop_last(), hits);
        let c = ns.last();
        match c.frame {
            Some(vp) => match pruned_where(c, view_keep(vp, hits)) {
                Some(m) => before.push(m),
                None => before,
            },
            None => before.push(c),
        }
    }
}

/// What `filter_to_visible` gives: a root with a frame is pruned to it;
/// otherwise each child window is pruned to its own frame. An empty result
/// becomes the "No visible elements" placeholder.
pub open spec fn visible_tree<F, H: Fn(&F, &F) -> bool>(root: NodeView<F>, hits: H) -> NodeView<F> {
    match root.frame {
        Some(vp) => match pruned_where(root, view_keep(vp, hits)) {
            Some(m) => m,
            None => placeholder("No visible elements"@),
        },
        None => {
            let kids = visible_list(root.children, hits);
            if kids.len() == 0 {
                placeholder("No visible elements"@)
            } else {
                NodeView { children: kids, ..root }
            }
        },
    }
}

/// Filter a tree to only elements visible within their respective window
/// frames. For multi-window apps, each window uses its own frame as the
/// viewport.
pub fn filter_to_visible<F: Copy, H: Fn(&F, &F) -> bool>(root: TreeNode<F>, hits: &H) -> (r:
    TreeNode<F>)
    requires
        is_overlap_test(*hits),
    ensures
        r@ == visible_tree(root@, *hits),
{
    if let Some(vp) = root.frame {
        return match root.prune_to_visible(&vp, hits) {
            Some(m) => m,
            None => placeholder_node("No visible elements"),
        };
    }
    let TreeNode {
        path,
        role,
        subrole,
        title,
        value,
        description,
        identifier,
        frame,
        url,
        children,
        depth,
    } = root;
    let ghost orig = children@;
    let n = children.len();
    let mut rest = children;
    let mut out: Vec<TreeNode<F>> = Vec::new();
    let mut i: usize = 0;
    proof {
        assert(orig.subrange(0, 0) =~= Seq::<TreeNode<F>>::empty());
    }
    while i < n
        invariant
            n == orig.len(),
            i <= n,
            is_overlap_test(*hits),
            rest@ == orig.subrange(i as int, n as int),
            nodes_view(out@) == visible_list(nodes_view(orig.subrange(0, i as int)), *hits),
        decreases n - i,
    {
        let c = rest.remove(0);
        assert(c == orig[i as int]);
        proof {
            lemma_nodes_view_push(orig.subrange(0, i as int), c);
            assert(orig.subrange(0, i + 1) =~= orig.subrange(0, i as int).push(c));
            assert(nodes_view(orig.subrange(0, i as int)).push(node_view(c)).drop_last()
                =~= nodes_view(orig.subrange(0, i as int)));
        }
        match c.frame {
            Some(vp) => {
                match c.prune_to_visible(&vp, hits) {
                    Some(m) => {
                        proof {
                            lemma_nodes_view_push(out@, m);
                        }
                        out.push(m);
                    },
                    None => {},
                }
            },
            None => {
                proof {
                    lemma_nodes_view_push(out@, c);
                }
                out.push(c);
            },
        }
        assert(rest@ =~= orig.subrange(i + 1, n as int));
        i = i + 1;
    }
    assert(orig.subrange(0, n as int) =~= orig);
    proof {
        lemma_nodes_view_len(out@);
    }
    if out.len() == 0 {
        placeholder_node("No visible elements")
    } else {
        TreeNode {
            path,
            role,
            subrole,
            title,
            value,
            description,
            identifier,
            frame,
            url,
            children: out,
            depth,
        }
    }
}

/// The tree after the optional role filter of `ax tree`: with a filter, the
/// pruned tree, or the "No matches" placeholder when nothing matches.
pub open spec fn role_filtered<F>(tree: NodeView<F>, filter: Option<Seq<char>>) -> NodeView<F> {
    match filter {
        Some(f) => match pruned_where(tree, role_keep(f)) {
            Some(m) => m,
            None => placeholder("No matches"@),
        },
        None => tree,
    }
}

/// Apply the role filter of `ax tree` to a built tree, so that matching
/// descendants nested inside non-matching containers are preserved.
pub fn apply_role_filter<F>(tree: TreeNode<F>, role_filter: Option<&str>) -> (r: TreeNode<F>)
    ensures
        r@ == role_filtered(
            tree@,
            match role_filter {
                Some(f) => Some(f@),
                None => None,
            },
        ),
{
    match role_filter {
        Some(filter) => match tree.prune_to_filter(filter) {
            Some(m) => m,
            None => placeholder_node("No matches"),
        },
        None => tree,
    }
}

// ---------------------------------------------------------------------------
// Building the tree
// ---------------------------------------------------------------------------

/// What was read of one element for the tree: the display strings of its
/// attributes (`None` where an attribute has no value), its frame and link
/// when they were asked for, and the elements below it.
#[verifier::reject_recursive_types(F)]
#[derive(Debug)]
pub struct RawElement<F> {
    pub role: Option<String>,
    pub subrole: Option<String>,
    pub title: Option<String>,
    pub value: Option<String>,
    pub description: Option<String>,
    pub identifier: Option<String>,
    pub frame: Option<F>,
    pub url: Option<String>,
    pub children: Vec<RawElement<F>>,
}

/// A display string kept as text: present and carrying a value.
pub open spec fn kept_text(o: Option<String>) -> Option<Seq<char>> {
    match o {
        Some(s) => if carries_value(s@) {
            Some(s@)
        } else {
            None
        },
        None => None,
    }
}

/// The short form of an optional value.
pub open spec fn kept_value(o: Option<String>) -> Option<Seq<char>> {
    match o {
        Some(s) => short_value(s@),
        None => None,
    }
}

/// The tree node built from what was read of an element at `depth`, whose
/// synthetic path is `path`: elements below `max_depth` are not descended
/// into, frames and links are kept only with `extras`, and paths only with
/// `show_paths`.
pub open spec fn built_node<F>(
    r: RawElement<F>,
    depth: nat,
    max_depth: nat,
    extras: bool,
    show_paths: bool,
    path: Seq<char>,
) -> NodeView<F>
    decreases r,
{
    NodeView {
        path: if show_paths {
            Some(path)
        } else {
            None
        },
        role: match r.role {
            Some(x) => x@,
            None => "Unknown"@,
        },
        subrole: opt_view(r.subrole),
        title: kept_text(r.title),
        value: kept_value(r.value),
        description: kept_text(r.description),
        identifier: kept_text(r.identifier),
        frame: if extras {
            r.frame
        } else {
            None
        },
        url: if extras {
            kept_text(r.url)
        } else {
            None
        },
        children: if depth < max_depth {
            built_list(r.children@, depth + 1, max_depth, extras, show_paths, path)
        } else {
            Seq::empty()
        },
        depth: depth as usize,
    }
}

/// The tree nodes built from the children of the element at `parent`, the
/// `i`-th of them at the path `parent.i`.
pub open spec fn built_list<F>(
    cs: Seq<RawElement<F>>,
    depth: nat,
    max_depth: nat,
    extras: bool,
    show_paths: bool,
    parent: Seq<char>,
) -> Seq<NodeView<F>>
    decreases cs,
{
    if cs.len() == 0 {
        Seq::empty()
    } else {
        built_list(cs.drop_last(), depth, max_depth, extras, show_paths, parent).push(
            built_node(
                cs.last(),
                depth,
                max_depth,
                extras,
                show_paths,
                child_path_spec(parent, (cs.len() - 1) as nat),
            ),
        )
    }
}

/// `built_list` has one node per child, the `i`-th built from the `i`-th
/// child at the path `parent.i`.
proof fn lemma_built_list_index<F>(
    cs: Seq<RawElement<F>>,
    depth: nat,
    max_depth: nat,
    extras: bool,
    show_paths: bool,
    parent: Seq<char>,
)
    ensures
        built_list(cs, depth, max_depth, extras, show_paths, parent).len() == cs.len(),
        forall|i: int|
            0 <= i < cs.len() ==> #[trigger] built_list(
                cs,
                depth,
                max_depth,
                extras,
                show_paths,
                parent,
            )[i] == built_node(
                cs[i],
                depth,
                max_depth,
                extras,
                show_paths,
                parent + "."@ + nat_text(i as nat),
            ),
    decreases cs.len(),
{
    if cs.len() > 0 {
        lemma_built_list_index(cs.drop_last(), depth, max_depth, extras, show_paths, parent);
        let l = built_list(cs, depth, max_depth, extras, show_paths, parent);
        assert forall|i: int| 0 <= i < cs.len() implies #[trigger] l[i] == built_node(
            cs[i],
            depth,
            max_depth,
            extras,
            show_paths,
            parent + "."@ + nat_text(i as nat),
        ) by {
            if i < cs.len() - 1 {
                assert(cs.drop_last()[i] == cs[i]);
            }
        }
    }
}

/// Each node of a built tree carries what was read of its element: the role
/// (`Unknown` when none was read), the subrole unchanged, the title,
/// description and identifier when they are non-empty and not a `<...>`
/// placeholder, the value the same way but cut to its first 47 characters
/// and `...` when longer than 50, the frame and link only with `extras`, its
/// path only with `show_paths`, and its depth.
pub proof fn lemma_built_node_carries_what_was_read<F>(
    r: RawElement<F>,
    depth: nat,
    max_depth: nat,
    extras: bool,
    show_paths: bool,
    path: Seq<char>,
)
    ensures
        ({
            let b = built_node(r, depth, max_depth, extras, show_paths, path);
            &&& b.role == match r.role {
                Some(x) => x@,
                None => "Unknown"@,
            }
            &&& b.subrole == match r.subrole {
                Some(x) => Some(x@),
                None => None::<Seq<char>>,
            }
            &&& b.title == match r.title {
                Some(x) => if x@.len() > 0 && x@[0] != '<' {
                    Some(x@)
                } else {
                    None
                },
                None => None,
            }
            &&& b.description == match r.description {
                Some(x) => if x@.len() > 0 && x@[0] != '<' {
                    Some(x@)
                } else {
                    None
                },
                None => None,
            }
            &&& b.identifier == match r.identifier {
                Some(x) => if x@.len() > 0 && x@[0] != '<' {
                    Some(x@)
                } else {
                    None
                },
                None => None,
            }
            &&& b.value == match r.value {
                Some(x) => if x@.len() == 0 || x@[0] == '<' {
                    None
                } else if x@.len() > 50 {
                    Some(x@.subrange(0, 47) + "..."@)
                } else {
                    Some(x@)
                },
                None => None,
            }
            &&& b.frame == if extras {
                r.frame
            } else {
                None
            }
            &&& b.url == if !extras {
                None
            } else {
                match r.url {
                    Some(x) => if x@.len() > 0 && x@[0] != '<' {
                        Some(x@)
                    } else {
                        None
                    },
                    None => None,
                }
            }
            &&& b.path == if show_paths {
                Some(path)
            } else {
                None
            }
            &&& b.depth == depth as usize
        }),
{
}

/// Below `max_depth` a built node has one child per element read below it,
/// the `i`-th built one level deeper at the path `path.i`; at `max_depth` it
/// has none. With `lemma_built_node_carries_what_was_read` this says what
/// every node of the tree holds.
pub proof fn lemma_built_node_children<F>(
    r: RawElement<F>,
    depth: nat,
    max_depth: nat,
    extras: bool,
    show_paths: bool,
    path: Seq<char>,
)
    ensures
        ({
            let b = built_node(r, depth, max_depth, extras, show_paths, path);
            &&& depth >= max_depth ==> b.children.len() == 0
            &&& depth < max_depth ==> {
                &&& b.children.len() == r.children@.len()
                &&& forall|i: int|
                    0 <= i < b.children.len() ==> #[trigger] b.children[i] == built_node(
                        r.children@[i],
                        depth + 1,
                        max_depth,
                        extras,
                        show_paths,
                        path + "."@ + nat_text(i as nat),
                    )
            }
        }),
{
    lemma_built_list_index(r.children@, depth + 1, max_depth, extras, show_paths, path);
}

/// The element reached from `r` by following the child indices `idx`, if
/// they all stand.
pub open spec fn raw_at<F>(r: RawElement<F>, idx: Seq<usize>) -> Option<RawElement<F>>
    decreases idx.len(),
{
    if idx.len() == 0 {
        Some(r)
    } else if (idx[0] as int) < r.children@.len() {
        raw_at(r.children@[idx[0] as int], idx.drop_first())
    } else {
        None
    }
}

/// The node reached from `n` by following the child indices `idx`, if they
/// all stand.
pub open spec fn node_at<F>(n: NodeView<F>, idx: Seq<usize>) -> Option<NodeView<F>>
    decreases idx.len(),
{
    if idx.len() == 0 {
        Some(n)
    } else if (idx[0] as int) < n.children.len() {
        node_at(n.children[idx[0] as int], idx.drop_first())
    } else {
        None
    }
}

/// Every element within reach of the depth limit has its node in the built
/// tree, at the same child indices and that many levels deeper, and the node
/// carries the element's role (`Unknown` when none was read) and its subrole
/// unchanged.
pub proof fn lemma_built_descendant_carries_role_and_subrole<F>(
    r: RawElement<F>,
    depth: nat,
    max_depth: nat,
    extras: bool,
    show_paths: bool,
    path: Seq<char>,
    idx: Seq<usize>,
)
    requires
        raw_at(r, idx) is Some,
        depth + idx.len() <= max_depth,
    ensures
        ({
            let e = raw_at(r, idx).unwrap();
            let b = node_at(built_node(r, depth, max_depth, extras, show_paths, path), idx);
            &&& b is Some
            &&& b.unwrap().role == match e.role {
                Some(x) => x@,
                None => "Unknown"@,
            }
            &&& b.unwrap().subrole == match e.subrole {
                Some(x) => Some(x@),
                None => None::<Seq<char>>,
            }
            &&& b.unwrap().depth == (depth + idx.len()) as usize
        }),
    decreases idx.len(),
{
    lemma_built_node_carries_what_was_read(r, depth, max_depth, extras, show_paths, path);
    if idx.len() > 0 {
        let i = idx[0] as int;
        lemma_built_node_children(r, depth, max_depth, extras, show_paths, path);
        let n = built_node(r, depth, max_depth, extras, show_paths, path);
        assert(n.children[i] == built_node(
            r.children@[i],
            depth + 1,
            max_depth,
            extras,
            show_paths,
            path + "."@ + nat_text(i as nat),
        ));
        lemma_built_descendant_carries_role_and_subrole(
            r.children@[i],
            depth + 1,
            max_depth,
            extras,
            show_paths,
            path + "."@ + nat_text(i as nat),
            idx.drop_first(),
        );
    }
}

/// A display string kept as text.
fn keep_text(o: Option<String>) -> (r: Option<String>)
    ensures
        opt_view(r) == kept_text(o),
{
    match o {
        Some(s) => text_of_display(s),
        None => None,
    }
}

/// Build the node of an element and, below `max_depth`, its children.
fn build_node<F>(
    raw: RawElement<F>,
    depth: usize,
    max_depth: usize,
    extras: bool,
    show_paths: bool,
    path: String,
) -> (r: TreeNode<F>)
    requires
        depth <= max_depth,
    ensures
        r@ == built_node(raw, depth as nat, max_depth as nat, extras, show_paths, path@),
    decreases raw,
{
    let ghost whole = raw;
    let RawElement { role, subrole, title, value, description, identifier, frame, url, children } =
        raw;
    let kids = if depth < max_depth {
        assert(decreases_to!(whole => whole.children));
        build_children(children, depth + 1, max_depth, extras, show_paths, &path)
    } else {
        Vec::new()
    };
    let role = match role {
        Some(x) => x,
        None => "Unknown".to_string(),
    };
    let value = match value {
        Some(v) => shorten_value(v),
        None => None,
    };
    let (frame, url) = if extras {
        (frame, keep_text(url))
    } else {
        (None, None)
    };
    let r = TreeNode {
        path: if show_paths {
            Some(path)
        } else {
            None
        },
        role,
        subrole,
        title: keep_text(title),
        value,
        description: keep_text(description),
        identifier: keep_text(identifier),
        frame,
        url,
        children: kids,
        depth,
    };
    proof {
        if !(depth < max_depth) {
            assert(nodes_view(r.children@) =~= Seq::<NodeView<F>>::empty());
        }
    }
    r
}

/// Build the nodes of the children of the element at `parent`.
fn build_children<F>(
    children: Vec<RawElement<F>>,
    depth: usize,
    max_depth: usize,
    extras: bool,
    show_paths: bool,
    parent: &String,
) -> (r: Vec<TreeNode<F>>)
    requires
        depth <= max_depth,
    ensures
        nodes_view(r@) == built_list(children@, depth as nat, max_depth as nat, extras, show_paths, parent@),
    decreases children,
{
    let ghost whole = children;
    let ghost orig = children@;
    let n = children.len();
    let mut rest = children;
    let mut out: Vec<TreeNode<F>> = Vec::new();
    let mut i: usize = 0;
    proof {
        assert(orig.subrange(0, 0) =~= Seq::<RawElement<F>>::empty());
    }
    #[verifier::loop_isolation(false)]
    while i < n
        invariant
            n == orig.len(),
            whole@ == orig,
            i <= n,
            rest@ == orig.subrange(i as int, n as int),
            nodes_view(out@) == built_list(
                orig.subrange(0, i as int),
                depth as nat,
                max_depth as nat,
                extras,
                show_paths,
                parent@,
            ),
        decreases n - i,
    {
        let c = rest.remove(0);
        assert(c == orig[i as int]);
        assert(decreases_to!(whole => whole[i as int]));
        let p = child_path(parent.as_str(), i);
        let node = build_node(c, depth, max_depth, extras, show_paths, p);
        proof {
            lemma_nodes_view_push(out@, node);
            let sub = orig.subrange(0, i + 1);
            assert(sub =~= orig.subrange(0, i as int).push(c));
            assert(sub.drop_last() =~= orig.subrange(0, i as int));
            assert(sub.last() == c);
        }
        out.push(node);
        assert(rest@ =~= orig.subrange(i + 1, n as int));
        i = i + 1;
    }
    assert(orig.subrange(0, n as int) =~= orig);
    out
}

/// The tree `ax tree` shows for what was read below an application: built
/// to `max_depth` from the root path `0`, then pruned to the role filter, so
/// that matching elements nested inside non-matching containers are kept.
pub fn build_tree<F>(
    raw: RawElement<F>,
    max_depth: usize,
    role_filter: Option<&str>,
    extras: bool,
    show_paths: bool,
) -> (r: TreeNode<F>)
    ensures
        r@ == role_filtered(
            built_node(raw, 0, max_depth as nat, extras, show_paths, "0"@),
            match role_filter {
                Some(f) => Some(f@),
                None => None,
            },
        ),
{
    let tree = build_node(raw, 0, max_depth, extras, show_paths, "0".to_string());
    apply_role_filter(tree, role_filter)
}

// ---------------------------------------------------------------------------
// Synthetic paths
// ---------------------------------------------------------------------------

/// The path of the `index`-th child of the node at `path`.
pub open spec fn child_path_spec(path: Seq<char>, index: nat) -> Seq<char> {
    path + "."@ + nat_text(index)
}

/// The path of the `index`-th child of the node at `path` (`0.2` -> `0.2.1`).
pub fn child_path(path: &str, index: usize) -> (r: String)
    ensures
        r@ == child_path_spec(path@, index as nat),
{
    let mut r = path.to_string();
    push_str(&mut r, ".");
    let digits = u64_text(index as u64);
    push_str(&mut r, digits.as_str());
    r
}

/// The child indices of a list of path segments, if each is a number.
pub open spec fn segment_indices(segs: Seq<Seq<char>>) -> Option<Seq<usize>>
    decreases segs.len(),
{
    if segs.len() == 0 {
        Some(Seq::empty())
    } else {
        match (segment_indices(segs.drop_last()), parse_usize_spec(segs.last())) {
            (Some(before), Some(i)) => Some(before.push(i)),
            _ => None,
        }
    }
}

/// The child indices a path such as `0.2.1` denotes: after trimming, the
/// first segment must be `0` (the root), and each later segment a number.
pub open spec fn path_indices(path: Seq<char>) -> Option<Seq<usize>> {
    let t = trim_seq(path);
    if t.len() == 0 {
        None
    } else {
        let segs = split_on(t, '.');
        if segs[0] != "0"@ {
            None
        } else {
            segment_indices(segs.drop_first())
        }
    }
}

/// The child indices a synthetic path denotes, root first.
pub fn parse_tree_path(path: &str) -> (r: Option<Vec<usize>>)
    ensures
        match r {
            Some(v) => path_indices(path@) == Some(v@),
            None => path_indices(path@) is None,
        },
{
    let trimmed = trim(path);
    if trimmed.unicode_len() == 0 {
        return None;
    }
    let segs = split_char(trimmed.as_str(), '.');
    proof {
        lemma_split_len(trimmed@, '.');
    }
    assert(views(segs@)[0] == segs@[0]@);
    if !str_eq(segs[0].as_str(), "0") {
        return None;
    }
    let ghost rest = views(segs@).drop_first();
    let mut out: Vec<usize> = Vec::new();
    let mut i: usize = 1;
    assert(rest.subrange(0, 0) =~= Seq::<Seq<char>>::empty());
    while i < segs.len()
        invariant
            1 <= i <= segs@.len(),
            rest == views(segs@).drop_first(),
            views(segs@) == split_on(trim_seq(path@), '.'),
            trim_seq(path@).len() > 0,
            split_on(trim_seq(path@), '.')[0] == "0"@,
            views(segs@).len() == segs@.len(),
            segment_indices(rest.subrange(0, i - 1)) == Some(out@),
        decreases segs.len() - i,
    {
        assert(views(segs@)[i as int] == segs@[i as int]@);
        assert(rest.subrange(0, i as int).drop_last() =~= rest.subrange(0, i - 1));
        match parse_usize(segs[i].as_str()) {
            Some(k) => {
                out.push(k);
            },
            None => {
                proof {
                    assert(rest.subrange(0, i as int).last() == rest[i - 1]);
                    assert(rest[i - 1] == views(segs@)[i as int]);
                    lemma_segment_indices_prefix_none(rest, i as int);
                }
                return None;
            },
        }
        i = i + 1;
    }
    assert(rest.subrange(0, segs@.len() - 1) =~= rest);
    Some(out)
}

/// Once a prefix of segments fails to read, longer prefixes fail too.
proof fn lemma_segment_indices_prefix_none(segs: Seq<Seq<char>>, k: int)
    requires
        1 <= k <= segs.len(),
        segment_indices(segs.subrange(0, k)) is None,
    ensures
        segment_indices(segs) is None,
    decreases segs.len() - k,
{
    if k < segs.len() {
        assert(segs.subrange(0, k + 1).drop_last() =~= segs.subrange(0, k));
        lemma_segment_indices_prefix_none(segs, k + 1);
    } else {
        assert(segs.subrange(0, k) =~= segs);
    }
}

/// The synthetic path of the node reached from the root by the child
/// indices `idx` (`[]` -> `0`, `[2, 1]` -> `0.2.1`).
pub open spec fn path_of(idx: Seq<usize>) -> Seq<char>
    decreases idx.len(),
{
    if idx.len() == 0 {
        "0"@
    } else {
        child_path_spec(path_of(idx.drop_last()), idx.last() as nat)
    }
}

/// The decimal texts of the indices.
pub open spec fn index_texts(idx: Seq<usize>) -> Seq<Seq<char>> {
    idx.map_values(|i: usize| nat_text(i as nat))
}

proof fn lemma_path_shape(idx: Seq<usize>)
    ensures
        path_of(idx).len() > 0,
        path_of(idx)[0] == '0',
        is_digit(path_of(idx).last()),
        split_on(path_of(idx), '.') == seq!["0"@] + index_texts(idx),
    decreases idx.len(),
{
    reveal_strlit("0");
    reveal_strlit(".");
    if idx.len() == 0 {
        assert(!"0"@.contains('.')) by {
            assert("0"@ =~= seq!['0']);
        }
        lemma_split_none("0"@, '.');
        assert(index_texts(idx) =~= Seq::<Seq<char>>::empty());
        assert(seq!["0"@] + index_texts(idx) =~= seq!["0"@]);
    } else {
        let prev = idx.drop_last();
        let t = nat_text(idx.last() as nat);
        lemma_path_shape(prev);
        lemma_nat_text_digits(idx.last() as nat);
        assert(!t.contains('.')) by {
            if t.contains('.') {
                let k = choose|k: int| 0 <= k < t.len() && t[k] == '.';
                assert(is_digit(t[k]));
            }
        }
        assert("."@ =~= seq!['.']);
        let p = path_of(idx);
        assert(p =~= path_of(prev) + seq!['.'] + t);
        lemma_split_append(path_of(prev), '.', t);
        assert(index_texts(idx) =~= index_texts(prev).push(t));
        assert(seq!["0"@] + index_texts(idx) =~= (seq!["0"@] + index_texts(prev)).push(t));
        assert(p[0] == path_of(prev)[0]);
        assert(p.last() == t.last());
        assert(is_digit(t[t.len() - 1]));
    }
}

proof fn lemma_segment_indices_of_texts(idx: Seq<usize>)
    ensures
        segment_indices(index_texts(idx)) == Some(idx),
    decreases idx.len(),
{
    if idx.len() > 0 {
        lemma_segment_indices_of_texts(idx.drop_last());
        assert(index_texts(idx).drop_last() =~= index_texts(idx.drop_last()));
        lemma_parse_usize_nat_text(idx.last());
        assert(idx.drop_last().push(idx.last()) =~= idx);
    } else {
        assert(index_texts(idx) =~= Seq::<Seq<char>>::empty());
        assert(idx =~= Seq::<usize>::empty());
    }
}

/// A synthetic path shown by `--show-paths` reads back, through `--path`,
/// as the child indices that lead to its node.
pub proof fn lemma_path_round_trip(idx: Seq<usize>)
    ensures
        path_indices(path_of(idx)) == Some(idx),
{
    reveal_strlit("0");
    lemma_path_shape(idx);
    let p = path_of(idx);
    lemma_trim_unchanged(p);
    lemma_segment_indices_of_texts(idx);
    assert((seq!["0"@] + index_texts(idx)).drop_first() =~= index_texts(idx));
    assert((seq!["0"@] + index_texts(idx))[0] == "0"@);
}

// ---------------------------------------------------------------------------
// Values shown in the tree
// ---------------------------------------------------------------------------

/// A display string that is empty or a `<...>` placeholder carries no value.
pub open spec fn carries_value(s: Seq<char>) -> bool {
    s.len() > 0 && s[0] != '<'
}

/// The short form of a value shown in the tree: values of more than 50
/// characters are cut to their first 47 and `...`.
pub open spec fn short_value(s: Seq<char>) -> Option<Seq<char>> {
    if !carries_value(s) {
        None
    } else if s.len() > 50 {
        Some(s.subrange(0, 47) + "..."@)
    } else {
        Some(s)
    }
}

/// The short form of a value shown in the tree, if it carries a value.
pub fn shorten_value(display: String) -> (r: Option<String>)
    ensures
        opt_view(r) == short_value(display@),
{
    let cs = chars_of(display.as_str());
    if cs.len() == 0 || cs[0] == '<' {
        return None;
    }
    if cs.len() > 50 {
        let mut r = string_of(&cs.as_slice()[0..47]);
        push_str(&mut r, "...");
        Some(r)
    } else {
        Some(display)
    }
}
// ---------------------------------------------------------------------------
// Children
// ---------------------------------------------------------------------------

/// Whether an element's windows stand in for its children: many
/// applications list their windows only under `AXWindows`, so an
/// application element without children is read through its windows.
pub fn needs_window_fallback(children_count: usize, role: &str) -> (r: bool)
    ensures
        r == (children_count == 0 && role@ == "AXApplication"@),
{
    children_count == 0 && str_eq(role, "AXApplication")
}

} // verus!
