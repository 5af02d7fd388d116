//! A chart seen as a tree.
use vstd::prelude::*;

use super::chart_node::{ChartNode, ChartNodeView};
use super::nodes::codes;
use crate::primitives::account::{views, AccountName};
use crate::primitives::account_code::AccountCode;
use crate::primitives::ids::{CalaAccountSetId, ChartId};

verus! {

/// A chart as a tree.
#[derive(Debug)]
pub struct ChartTree {
    pub id: ChartId,
    pub name: String,
    pub children: Vec<TreeNode>,
}

/// An account in the tree, with the accounts below it.
#[derive(Debug)]
pub struct TreeNode {
    pub id: CalaAccountSetId,
    pub name: AccountName,
    pub code: AccountCode,
    pub children: Vec<TreeNode>,
}

/// The nodes whose parent code is the given one, in their order.
pub open spec fn nodes_under(nodes: Seq<ChartNodeView>, parent: Option<Seq<Seq<char>>>) -> Seq<
    ChartNodeView,
> {
    nodes.filter(|node: ChartNodeView| node.spec.parent == parent)
}

impl TreeNode {
    /// The tree node stands for a node of the chart.
    pub open spec fn stands_for(self, node: ChartNodeView) -> bool {
        &&& self.id == node.account_set_id
        &&& self.name@ == node.spec.name
        &&& self.code@ == node.spec.code
    }
}

/// `level` stands for the nodes under a parent, in their order, and below each
/// of them stand the nodes under it.
pub open spec fn is_level_under(
    nodes: Seq<ChartNodeView>,
    parent: Option<Seq<Seq<char>>>,
    level: Seq<TreeNode>,
) -> bool
    decreases level,
{
    &&& level.len() == nodes_under(nodes, parent).len()
    &&& forall|i: int|
        0 <= i < level.len() ==> {
            &&& (#[trigger] level[i]).stands_for(nodes_under(nodes, parent)[i])
            &&& is_level_under(nodes, Some(level[i].code@), level[i].children@)
        }
}

/// The nodes of a level, each followed by what is below it.
pub open spec fn preorder(level: Seq<TreeNode>) -> Seq<TreeNode>
    decreases level,
{
    if level.len() == 0 {
        Seq::empty()
    } else {
        preorder(level.drop_last()).push(level.last()) + preorder(level.last().children@)
    }
}

/// The codes of tree nodes.
pub open spec fn tree_codes(nodes: Seq<TreeNode>) -> Seq<Seq<Seq<char>>> {
    nodes.map_values(|node: TreeNode| node.code@)
}

/// The first of some tree nodes that has a code.
pub open spec fn first_with_code(nodes: Seq<TreeNode>, code: Seq<Seq<char>>) -> Option<TreeNode> {
    match tree_codes(nodes).index_of_first(code) {
        Some(i) => Some(nodes[i]),
        None => None,
    }
}

/// A tree node as its account set, code and name.
pub open spec fn account_set_of(node: TreeNode) -> (CalaAccountSetId, Seq<Seq<char>>, Seq<char>) {
    (node.id, node.code@, node.name@)
}

/// Tree nodes as their account sets, codes and names.
pub open spec fn account_sets_of(nodes: Seq<TreeNode>) -> Seq<
    (CalaAccountSetId, Seq<Seq<char>>, Seq<char>),
> {
    nodes.map_values(|node: TreeNode| account_set_of(node))
}

/// Listed account sets, codes and names by their values.
pub open spec fn account_set_views(
    listed: Seq<(CalaAccountSetId, AccountCode, AccountName)>,
) -> Seq<(CalaAccountSetId, Seq<Seq<char>>, Seq<char>)> {
    listed.map_values(
        |item: (CalaAccountSetId, AccountCode, AccountName)| (item.0, item.1@, item.2@),
    )
}

/// `path` leads down from the top of a chart, each node under the one before.
spec fn is_path_down(nodes: Seq<ChartNodeView>, path: Seq<int>) -> bool {
    &&& path.no_duplicates()
    &&& forall|k: int| 0 <= k < path.len() ==> 0 <= #[trigger] path[k] < nodes.len()
    &&& forall|k: int| 0 <= k < path.len() ==> #[trigger] goes_down_at(nodes, path, k)
}

/// The node at a place of a path is under the one before.
spec fn goes_down_at(nodes: Seq<ChartNodeView>, path: Seq<int>, k: int) -> bool {
    nodes[path[k]].spec.parent == end_of_path(nodes, path.take(k))
}

/// The parent code that the end of a path gives to the nodes under it.
spec fn end_of_path(nodes: Seq<ChartNodeView>, path: Seq<int>) -> Option<Seq<Seq<char>>> {
    if path.len() == 0 {
        None
    } else {
        Some(nodes[path.last()].spec.code)
    }
}

/// A path down can be made longer by a node under its end, and is never longer
/// than there are nodes.
proof fn path_goes_on(nodes: Seq<ChartNodeView>, path: Seq<int>, i: int)
    requires
        codes(nodes).no_duplicates(),
        is_path_down(nodes, path),
        0 <= i < nodes.len(),
        nodes[i].spec.parent == end_of_path(nodes, path),
    ensures
        is_path_down(nodes, path.push(i)),
        path.len() < nodes.len(),
{
    let longer = path.push(i);
    assert forall|k: int| 0 <= k < path.len() implies path[k] != i by {
        if path[k] == i {
            assert(goes_down_at(nodes, path, k));
            if k > 0 {
                assert(codes(nodes)[path[k - 1]] == nodes[path[k - 1]].spec.code);
                assert(codes(nodes)[path.last()] == nodes[path.last()].spec.code);
                assert(path.take(k).last() == path[k - 1]);
                assert(path[k - 1] == path.last());
            }
        }
    }
    assert forall|k: int| 0 <= k < longer.len() implies #[trigger] goes_down_at(
        nodes,
        longer,
        k,
    ) by {
        if k < path.len() {
            assert(goes_down_at(nodes, path, k));
            assert(longer.take(k) =~= path.take(k));
        } else {
            assert(longer.take(k) =~= path);
        }
    }
    assert forall|k: int| 0 <= k < longer.len() implies 0 <= #[trigger] longer[k] < nodes.len() by {
        if k < path.len() {
            assert(longer[k] == path[k]);
        }
    }
    longer.unique_seq_to_set();
    vstd::set_lib::lemma_int_range(0, nodes.len() as int);
    let all = vstd::set_lib::set_int_range(0, nodes.len() as int);
    assert(longer.to_set().subset_of(all));
    vstd::set_lib::lemma_len_subset(longer.to_set(), all);
}

/// The level of the tree at the end of a path.
fn project_level(
    nodes: &Vec<ChartNode>,
    parent: Option<&AccountCode>,
    Ghost(path): Ghost<Seq<int>>,
) -> (res: Vec<TreeNode>)
    requires
        codes(views(nodes@)).no_duplicates(),
        is_path_down(views(nodes@), path),
        path.len() <= nodes.len(),
        match parent {
            Some(code) => end_of_path(views(nodes@), path) == Some(code@),
            None => end_of_path(views(nodes@), path) is None,
        },
    ensures
        is_level_under(views(nodes@), end_of_path(views(nodes@), path), res@),
    decreases nodes.len() - path.len(),
{
    let ghost all = views(nodes@);
    let ghost end = end_of_path(all, path);
    let ghost wanted = |node: ChartNodeView| node.spec.parent == end;
    let mut res: Vec<TreeNode> = Vec::new();
    let mut i: usize = 0;
    proof {
        reveal(Seq::filter);
        assert(all.take(0) =~= Seq::empty());
    }
    while i < nodes.len()
        invariant
            i <= nodes.len(),
            all == views(nodes@),
            codes(all).no_duplicates(),
            is_path_down(all, path),
            path.len() <= nodes.len(),
            end == end_of_path(all, path),
            match parent {
                Some(code) => end == Some(code@),
                None => end is None,
            },
            wanted == (|node: ChartNodeView| node.spec.parent == end),
            res.len() == all.take(i as int).filter(wanted).len(),
            forall|j: int|
                0 <= j < res.len() ==> {
                    &&& (#[trigger] res@[j]).stands_for(all.take(i as int).filter(wanted)[j])
                    &&& is_level_under(all, Some(res@[j].code@), res@[j].children@)
                },
        decreases nodes.len() - i,
    {
        let node: &ChartNode = &nodes[i];
        let is_under: bool = match parent {
            Some(code) => node.spec.has_parent(code),
            None => node.spec.parent.is_none(),
        };
        proof {
            reveal(Seq::filter);
            assert(all[i as int] == node@);
            assert(is_under == wanted(node@));
            assert(all.take(i + 1).drop_last() =~= all.take(i as int));
            assert(all.take(i + 1).last() == node@);
        }
        if is_under {
            let ghost before = res@;
            proof {
                path_goes_on(all, path, i as int);
                assert(path.push(i as int).last() == i as int);
            }
            let children: Vec<TreeNode> = project_level(
                nodes,
                Some(&node.spec.code),
                Ghost(path.push(i as int)),
            );
            res.push(
                TreeNode {
                    id: node.account_set_id,
                    name: node.spec.name.clone(),
                    code: node.spec.code.clone(),
                    children,
                },
            );
            assert forall|j: int| 0 <= j < res.len() implies {
                &&& (#[trigger] res@[j]).stands_for(all.take(i + 1).filter(wanted)[j])
                &&& is_level_under(all, Some(res@[j].code@), res@[j].children@)
            } by {
                if j < before.len() {
                    assert(res@[j] == before[j]);
                }
            }
        }
        i = i + 1;
    }
    assert(all.take(i as int) =~= all);
    res
}

/// The tree of a chart: at the top stand the nodes without a parent.
pub fn project_from_nodes(id: ChartId, name: &str, nodes: &Vec<ChartNode>) -> (res: ChartTree)
    requires
        codes(views(nodes@)).no_duplicates(),
    ensures
        res.id == id,
        res.name@ == name@,
        is_level_under(views(nodes@), None, res.children@),
{
    let children: Vec<TreeNode> = project_level(nodes, None, Ghost(Seq::empty()));
    ChartTree { id, name: name.to_owned(), children }
}

/// The first of two lists that has a code decides.
proof fn first_of_joined(left: Seq<TreeNode>, right: Seq<TreeNode>, code: Seq<Seq<char>>)
    ensures
        first_with_code(left + right, code) == (match first_with_code(left, code) {
            Some(node) => Some(node),
            None => first_with_code(right, code),
        }),
{
    let l = tree_codes(left);
    let r = tree_codes(right);
    let both = tree_codes(left + right);
    assert(both =~= l + r);
    l.index_of_first_ensures(code);
    r.index_of_first_ensures(code);
    both.index_of_first_ensures(code);
    if l.contains(code) {
        let i = l.index_of_first(code)->0;
        assert(both[i] == code);
        let k = both.index_of_first(code)->0;
        if k < i {
            assert(l[k] == both[k]);
        }
    } else if r.contains(code) {
        let i = r.index_of_first(code)->0;
        assert(both[l.len() + i] == code);
        let k = both.index_of_first(code)->0;
        if k < l.len() {
            assert(l[k] == both[k]);
        } else {
            assert(r[k - l.len()] == both[k]);
        }
    } else if both.contains(code) {
        let k = both.index_of_first(code)->0;
        if k < l.len() {
            assert(l[k] == both[k]);
        } else {
            assert(r[k - l.len()] == both[k]);
        }
    }
}

/// Looks for a code in a level and below it.
fn find_in_level<'a>(level: &'a Vec<TreeNode>, code: &AccountCode) -> (res: Option<&'a TreeNode>)
    ensures
        match res {
            Some(node) => first_with_code(preorder(level@), code@) == Some(*node),
            None => first_with_code(preorder(level@), code@) is None,
        },
    decreases level,
{
    let mut i: usize = 0;
    proof {
        assert(level@.take(0) =~= Seq::empty());
        tree_codes(preorder(level@.take(0))).index_of_first_ensures(code@);
    }
    while i < level.len()
        invariant
            i <= level.len(),
            first_with_code(preorder(level@.take(i as int)), code@) is None,
        decreases level.len() - i,
    {
        let node: &TreeNode = &level[i];
        proof {
            let longer = level@.take(i + 1);
            assert(longer.drop_last() =~= level@.take(i as int));
            assert(longer.last() == *node);
            let above = preorder(level@.take(i as int));
            let below = preorder(node.children@);
            assert(above.push(*node) =~= above + seq![*node]);
            first_of_joined(above, seq![*node], code@);
            first_of_joined(above.push(*node), below, code@);
            tree_codes(seq![*node]).index_of_first_ensures(code@);
            assert(tree_codes(seq![*node])[0] == node.code@);
            first_is_kept(level@, i + 1, code@);
        }
        if node.code.same(code) {
            return Some(node);
        }
        if let Some(found) = find_in_level(&node.children, code) {
            return Some(found);
        }
        i = i + 1;
    }
    assert(level@.take(i as int) =~= level@);
    None
}

/// What is found in the first nodes of a level is found in the whole level.
proof fn first_is_kept(level: Seq<TreeNode>, n: int, code: Seq<Seq<char>>)
    requires
        0 <= n <= level.len(),
    ensures
        first_with_code(preorder(level.take(n)), code) is Some ==> first_with_code(
            preorder(level),
            code,
        ) == first_with_code(preorder(level.take(n)), code),
    decreases level.len() - n,
{
    if n == level.len() {
        assert(level.take(n) =~= level);
    } else {
        let longer = level.take(n + 1);
        assert(longer.drop_last() =~= level.take(n));
        let above = preorder(level.take(n));
        assert(above.push(longer.last()) =~= above + seq![longer.last()]);
        first_of_joined(above, seq![longer.last()], code);
        first_of_joined(above.push(longer.last()), preorder(longer.last().children@), code);
        first_is_kept(level, n + 1, code);
    }
}

/// Lists a level and what is below it.
fn list_level(level: &Vec<TreeNode>) -> (res: Vec<(CalaAccountSetId, AccountCode, AccountName)>)
    ensures
        account_set_views(res@) == account_sets_of(preorder(level@)),
    decreases level,
{
    let mut res: Vec<(CalaAccountSetId, AccountCode, AccountName)> = Vec::new();
    let mut i: usize = 0;
    proof {
        assert(level@.take(0) =~= Seq::empty());
        assert(account_set_views(res@) =~= account_sets_of(preorder(level@.take(0))));
    }
    while i < level.len()
        invariant
            i <= level.len(),
            account_set_views(res@) == account_sets_of(preorder(level@.take(i as int))),
        decreases level.len() - i,
    {
        let node: &TreeNode = &level[i];
        let ghost before = res@;
        let mut below: Vec<(CalaAccountSetId, AccountCode, AccountName)> = list_level(
            &node.children,
        );
        let ghost listed = below@;
        res.push((node.id, node.code.clone(), node.name.clone()));
        let ghost with_node = res@;
        res.append(&mut below);
        proof {
            let longer = level@.take(i + 1);
            assert(longer.drop_last() =~= level@.take(i as int));
            assert(longer.last() == *node);
            assert(res@ =~= with_node + listed);
            assert(account_set_views(res@) =~= account_set_views(before).push(
                account_set_of(*node),
            ) + account_set_views(listed));
            assert(account_sets_of(preorder(longer)) =~= account_sets_of(
                preorder(level@.take(i as int)),
            ).push(account_set_of(*node)) + account_sets_of(preorder(node.children@)));
        }
        i = i + 1;
    }
    assert(level@.take(i as int) =~= level@);
    res
}

impl ChartTree {
    /// The account with a code.
    pub fn find_node_by_code(&self, code: &AccountCode) -> (res: Option<&TreeNode>)
        ensures
            match res {
                Some(node) => first_with_code(preorder(self.children@), code@) == Some(*node),
                None => first_with_code(preorder(self.children@), code@) is None,
            },
    {
        find_in_level(&self.children, code)
    }
}

impl TreeNode {
    /// The accounts below this one, which is not among them. Each is followed
    /// by those below it.
    pub fn descendant_account_sets(&self) -> (res: Vec<
        (CalaAccountSetId, AccountCode, AccountName),
    >)
        ensures
            account_set_views(res@) == account_sets_of(preorder(self.children@)),
    {
        list_level(&self.children)
    }
}

} // verus!
