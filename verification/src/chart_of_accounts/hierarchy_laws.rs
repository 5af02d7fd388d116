//! What holds of parents, children and the tree.
use vstd::prelude::*;

use super::chart_node::ChartNodeView;
use super::entity::{
    after_manual_account, manual_account_answer, member_of, members_under,
    ManualAccountFromChartView,
};
use super::error::ChartOfAccountsErrorView;
use super::facts::{has_account, known_is_what_the_node_says, none_has};
use super::import_laws::ordered_parents_are_valid;
use super::laws::{
    child_entered_keeps, create_adds_one_account, first_index_is, first_position,
    import_adds_missing_accounts, known_means_has_code, with_persisted_keeps,
};
use super::model::{import_order, ChartView, NewNodeIds};
use super::nodes::{codes, manual_accounts, new_codes, ChartNodeDetailsView};
use super::tree::{
    account_set_of, account_sets_of, first_with_code, is_level_under, nodes_under, preorder,
    tree_codes, TreeNode,
};
use crate::primitives::account::{AccountIdOrCodeView, AccountSetMemberView, AccountSpecView};
use crate::primitives::account_code::dotted;
use crate::primitives::ids::{CalaAccountSetId, CalaJournalId, LedgerAccountId};

verus! {

/// An account has one line of ancestors.
pub proof fn ancestors_are_determined(
    chart: ChartView,
    details: ChartNodeDetailsView,
    a: Seq<ChartNodeDetailsView>,
    b: Seq<ChartNodeDetailsView>,
)
    requires
        chart.is_path_above(details, a),
        chart.is_path_above(details, b),
    ensures
        a == b,
    decreases a.len(),
{
    match chart.parent_details(details) {
        None => {
            assert(a =~= b);
        },
        Some(parent) => {
            ancestors_are_determined(chart, parent, a.drop_first(), b.drop_first());
            assert(a =~= seq![a[0]] + a.drop_first());
            assert(b =~= seq![b[0]] + b.drop_first());
        },
    }
}

/// The line of ancestors of an account begins with its parent and goes on with
/// the parent's ancestors.
pub proof fn ancestors_begin_with_parent(
    chart: ChartView,
    code: Seq<Seq<char>>,
    parent: Seq<Seq<char>>,
    path: Seq<ChartNodeDetailsView>,
)
    requires
        chart.nodes.details(code) matches Some(details) && details.spec.parent == Some(parent),
        chart.nodes.details(parent) is Some,
        chart.is_ancestor_path(code, path),
    ensures
        path.len() > 0,
        Some(path[0]) == chart.nodes.details(parent),
        chart.is_ancestor_path(parent, path.drop_first()),
{
}

/// From `from`, whoever follows the parents meets the accounts of `path` and
/// ends at `to`.
pub(crate) open spec fn climbs(
    chart: ChartView,
    from: ChartNodeDetailsView,
    path: Seq<ChartNodeDetailsView>,
    to: ChartNodeDetailsView,
) -> bool
    decreases path.len(),
{
    if path.len() == 0 {
        from == to
    } else {
        chart.parent_details(from) == Some(path[0]) && climbs(chart, path[0], path.drop_first(), to)
    }
}

/// One more step up.
pub(crate) proof fn climbs_on(
    chart: ChartView,
    from: ChartNodeDetailsView,
    path: Seq<ChartNodeDetailsView>,
    to: ChartNodeDetailsView,
    parent: ChartNodeDetailsView,
)
    requires
        climbs(chart, from, path, to),
        chart.parent_details(to) == Some(parent),
    ensures
        climbs(chart, from, path.push(parent), parent),
    decreases path.len(),
{
    let longer = path.push(parent);
    if path.len() == 0 {
        assert(longer.drop_first() =~= Seq::empty());
        assert(climbs(chart, longer[0], longer.drop_first(), parent));
    } else {
        climbs_on(chart, path[0], path.drop_first(), to, parent);
        assert(longer.drop_first() =~= path.drop_first().push(parent));
    }
}

/// At the top, what was met is the line of ancestors.
pub(crate) proof fn climb_ends(
    chart: ChartView,
    from: ChartNodeDetailsView,
    path: Seq<ChartNodeDetailsView>,
    to: ChartNodeDetailsView,
)
    requires
        climbs(chart, from, path, to),
        chart.parent_details(to) is None,
    ensures
        chart.is_path_above(from, path),
    decreases path.len(),
{
    if path.len() > 0 {
        climb_ends(chart, path[0], path.drop_first(), to);
    }
}

/// Whoever climbs stays on the line of ancestors.
pub(crate) proof fn climb_is_on_path(
    chart: ChartView,
    from: ChartNodeDetailsView,
    path: Seq<ChartNodeDetailsView>,
    to: ChartNodeDetailsView,
    whole: Seq<ChartNodeDetailsView>,
)
    requires
        climbs(chart, from, path, to),
        chart.is_path_above(from, whole),
    ensures
        path.len() <= whole.len(),
    decreases path.len(),
{
    if path.len() > 0 {
        climb_is_on_path(chart, path[0], path.drop_first(), to, whole.drop_first());
    }
}

/// What stands above an account of a line of ancestors is the rest of it.
proof fn rest_of_path(
    chart: ChartView,
    details: ChartNodeDetailsView,
    path: Seq<ChartNodeDetailsView>,
    i: int,
)
    requires
        chart.is_path_above(details, path),
        0 <= i < path.len(),
    ensures
        chart.is_path_above(path[i], path.skip(i + 1)),
        chart.nodes.details(path[i].spec.code) == Some(path[i]),
    decreases path.len(),
{
    if i == 0 {
        assert(path.skip(1) =~= path.drop_first());
        known_means_has_code(chart.nodes, details.spec.parent->0);
    } else {
        rest_of_path(chart, path[0], path.drop_first(), i - 1);
        assert(path.drop_first().skip(i) =~= path.skip(i + 1));
    }
}

/// In a line of ancestors each account is followed by its parent, and the last
/// one has none in the chart.
pub proof fn ancestors_follow_their_parents(
    chart: ChartView,
    details: ChartNodeDetailsView,
    path: Seq<ChartNodeDetailsView>,
    i: int,
)
    requires
        chart.is_path_above(details, path),
        0 <= i < path.len(),
    ensures
        chart.nodes.details(path[i].spec.code) == Some(path[i]),
        i + 1 < path.len() ==> chart.parent_details(path[i]) == Some(path[i + 1]),
        i + 1 == path.len() ==> chart.parent_details(path[i]) is None,
{
    rest_of_path(chart, details, path, i);
    let rest = path.skip(i + 1);
    assert(chart.is_path_above(path[i], rest));
    if i + 1 < path.len() {
        assert(rest[0] == path[i + 1]);
    }
}

/// In a line of ancestors each account has the code of the next one as its
/// parent code. The last one has none, or one that no node has. The line begins
/// with the account of the parent code of the one it is for.
pub proof fn ancestors_are_linked_by_parent_codes(
    chart: ChartView,
    details: ChartNodeDetailsView,
    path: Seq<ChartNodeDetailsView>,
    i: int,
)
    requires
        chart.is_path_above(details, path),
    ensures
        path.len() > 0 ==> details.spec.parent == Some(path[0].spec.code),
        path.len() == 0 ==> (details.spec.parent matches Some(code) ==> none_has(
            chart.nodes,
            code,
        )),
        0 <= i < path.len() ==> has_account(
            chart.nodes,
            path[i].spec.code,
            path[i].account_set_id,
            path[i].spec,
        ),
        0 <= i < path.len() - 1 ==> path[i].spec.parent == Some(path[i + 1].spec.code),
        0 <= i == path.len() - 1 ==> (path[i].spec.parent matches Some(code) ==> none_has(
            chart.nodes,
            code,
        )),
{
    if let Some(code) = details.spec.parent {
        known_is_what_the_node_says(chart.nodes, code);
    }
    if 0 <= i < path.len() {
        ancestors_follow_their_parents(chart, details, path, i);
        known_is_what_the_node_says(chart.nodes, path[i].spec.code);
        if let Some(code) = path[i].spec.parent {
            known_is_what_the_node_says(chart.nodes, code);
        }
    }
}

/// The line of ancestors of a code is that of the account with the code, and is
/// empty where no node has it.
pub proof fn ancestors_are_those_of_the_account(
    chart: ChartView,
    code: Seq<Seq<char>>,
    set: CalaAccountSetId,
    spec: AccountSpecView,
    path: Seq<ChartNodeDetailsView>,
)
    requires
        chart.is_ancestor_path(code, path),
    ensures
        none_has(chart.nodes, code) ==> path.len() == 0,
        chart.nodes.details(code) == Some(ChartNodeDetailsView { account_set_id: set, spec }) ==> {
            &&& has_account(chart.nodes, code, set, spec)
            &&& path.len() > 0 ==> spec.parent == Some(path[0].spec.code)
            &&& path.len() == 0 ==> (spec.parent matches Some(parent) ==> none_has(
                chart.nodes,
                parent,
            ))
        },
{
    known_is_what_the_node_says(chart.nodes, code);
    if let Some(details) = chart.nodes.details(code) {
        ancestors_are_linked_by_parent_codes(chart, details, path, 0);
    }
}

/// A tree node shows the account set, the name and the code of its node.
pub proof fn tree_node_shows_its_account(shown: TreeNode, node: ChartNodeView)
    ensures
        shown.stands_for(node) <==> shown.id == node.account_set_id && shown.name@ == node.spec.name
            && shown.code@ == node.spec.code,
{
}

/// No account comes twice in a line of ancestors. Where no two accounts have
/// the same account set, no account set does either.
pub proof fn ancestors_differ(
    chart: ChartView,
    details: ChartNodeDetailsView,
    path: Seq<ChartNodeDetailsView>,
    i: int,
    j: int,
)
    requires
        chart.is_path_above(details, path),
        0 <= i < j < path.len(),
    ensures
        path[i].spec.code != path[j].spec.code,
        chart.account_sets_are_unique() ==> path[i].account_set_id != path[j].account_set_id,
{
    rest_of_path(chart, details, path, i);
    rest_of_path(chart, details, path, j);
    if path[i].spec.code == path[j].spec.code {
        ancestors_are_determined(chart, path[i], path.skip(i + 1), path.skip(j + 1));
        assert(path.skip(i + 1).len() == path.len() - i - 1);
    }
    if chart.account_sets_are_unique() {
        assert(chart.account_set(path[i].spec.code) == Some(path[i].account_set_id));
        assert(chart.account_set(path[j].spec.code) == Some(path[j].account_set_id));
    }
}

/// An account has no more ancestors than the chart has nodes.
pub proof fn ancestors_are_in_the_chart(
    chart: ChartView,
    details: ChartNodeDetailsView,
    path: Seq<ChartNodeDetailsView>,
)
    requires
        chart.is_path_above(details, path),
    ensures
        path.len() <= chart.nodes.persisted.len() + chart.nodes.new.len(),
{
    let met = path.map_values(|ancestor: ChartNodeDetailsView| ancestor.spec.code);
    let all = codes(chart.nodes.persisted) + new_codes(chart.nodes.new);
    assert forall|i: int, j: int| 0 <= i < met.len() && 0 <= j < met.len() && i != j implies met[i]
        != met[j] by {
        if i < j {
            ancestors_differ(chart, details, path, i, j);
        } else {
            ancestors_differ(chart, details, path, j, i);
        }
    }
    assert forall|code: Seq<Seq<char>>| met.to_set().contains(code) implies all.to_set().contains(
        code,
    ) by {
        let i = met.index_of(code);
        rest_of_path(chart, details, path, i);
        known_means_has_code(chart.nodes, code);
        if codes(chart.nodes.persisted).contains(code) {
            let k = codes(chart.nodes.persisted).index_of(code);
            assert(all[k] == code);
        } else {
            let k = new_codes(chart.nodes.new).index_of(code);
            assert(all[codes(chart.nodes.persisted).len() + k] == code);
        }
    }
    met.unique_seq_to_set();
    assert(met.to_set().subset_of(all.to_set()));
    vstd::set_lib::lemma_len_subset(met.to_set(), all.to_set());
    all.lemma_cardinality_of_set();
}

/// Every account's parent code is a proper beginning of its own.
pub open spec fn parents_are_valid(chart: ChartView) -> bool {
    forall|code: Seq<Seq<char>>|
        (#[trigger] chart.nodes.details(code)) matches Some(details)
            ==> details.spec.has_valid_parent()
}

/// Where parents are valid, whoever follows them comes to an end.
pub proof fn valid_parents_come_to_an_end(chart: ChartView, code: Seq<Seq<char>>)
    requires
        parents_are_valid(chart),
    ensures
        chart.has_finite_ancestry(code),
    decreases code.len(),
{
    match chart.nodes.details(code) {
        None => {
            assert(chart.is_ancestor_path(code, Seq::empty()));
        },
        Some(details) => {
            known_means_has_code(chart.nodes, code);
            assert(details.spec.has_valid_parent());
            match chart.parent_details(details) {
                None => {
                    assert(chart.is_path_above(details, Seq::empty()));
                    assert(chart.is_ancestor_path(code, Seq::empty()));
                },
                Some(parent) => {
                    let parent_code = details.spec.parent->0;
                    valid_parents_come_to_an_end(chart, parent_code);
                    let path = choose|path: Seq<ChartNodeDetailsView>|
                        chart.is_ancestor_path(parent_code, path);
                    let longer = seq![parent] + path;
                    assert(longer.drop_first() =~= path);
                    assert(chart.is_path_above(details, longer));
                    assert(chart.is_ancestor_path(code, longer));
                },
            }
        },
    }
}

/// A new account stands among the children of its stored parent, which from
/// then on takes no manual transactions.
pub proof fn parent_of_new_account_is_no_leaf(
    chart: ChartView,
    spec: AccountSpecView,
    parent: Seq<Seq<char>>,
    ids: NewNodeIds,
    new_id: LedgerAccountId,
)
    requires
        chart.nodes.details(spec.code) is None,
        spec.parent == Some(parent),
        chart.nodes.position(parent) is Some,
    ensures
        ({
            let after = chart.after_create(spec, ids);
            let account = AccountIdOrCodeView::Code(parent);
            &&& after.nodes.position(parent) == chart.nodes.position(parent)
            &&& after.nodes.persisted[after.nodes.position(parent)->0].children.contains(
                ids.node_id,
            )
            &&& manual_account_answer(after, account, new_id) == Err::<
                ManualAccountFromChartView,
                ChartOfAccountsErrorView,
            >(ChartOfAccountsErrorView::NonLeafAccount(dotted(parent)))
            &&& after_manual_account(after, account, new_id) == after
        }),
{
    let after = chart.after_create(spec, ids);
    child_entered_keeps(chart, spec.parent, ids.node_id);
    codes(chart.nodes.persisted).index_of_first_ensures(parent);
    let i = chart.nodes.position(parent)->0;
    let was = chart.nodes.persisted[i];
    assert(after.nodes.persisted[i] == was.with_child(ids.node_id));
    if !was.children.contains(ids.node_id) {
        assert(was.children.push(ids.node_id)[was.children.len() as int] == ids.node_id);
    }
}

/// An account for manual transactions is assigned once: from then on its code
/// and its identifier both lead to it.
pub proof fn manual_account_is_assigned_once(
    chart: ChartView,
    code: Seq<Seq<char>>,
    new_id: LedgerAccountId,
    other_id: LedgerAccountId,
)
    requires
        manual_account_answer(chart, AccountIdOrCodeView::Code(code), new_id) matches Ok(
            ManualAccountFromChartView::NewAccount(_, _),
        ),
        !manual_accounts(chart.nodes.persisted).contains(Some(new_id)),
    ensures
        ({
            let after = after_manual_account(chart, AccountIdOrCodeView::Code(code), new_id);
            let found = Ok::<ManualAccountFromChartView, ChartOfAccountsErrorView>(
                ManualAccountFromChartView::IdInChart(new_id),
            );
            &&& manual_account_answer(after, AccountIdOrCodeView::Code(code), other_id) == found
            &&& manual_account_answer(after, AccountIdOrCodeView::Id(new_id), other_id) == found
            &&& after_manual_account(after, AccountIdOrCodeView::Code(code), other_id) == after
        }),
{
    let after = after_manual_account(chart, AccountIdOrCodeView::Code(code), new_id);
    codes(chart.nodes.persisted).index_of_first_ensures(code);
    let i = chart.nodes.position(code)->0;
    let node = chart.nodes.persisted[i].with_manual_account(new_id);
    with_persisted_keeps(chart.nodes, i, node, code);
    let was = manual_accounts(chart.nodes.persisted);
    let now = manual_accounts(after.nodes.persisted);
    assert(now =~= was.update(i, Some(new_id)));
    assert forall|j: int| 0 <= j < i implies now[j] != Some(new_id) by {
        assert(now[j] == was[j]);
        assert(was.contains(was[j]));
    }
    first_index_is(now, Some(new_id), i);
}

/// Two trees of the same nodes list the same accounts in the same order.
pub proof fn tree_is_determined(
    nodes: Seq<ChartNodeView>,
    parent: Option<Seq<Seq<char>>>,
    a: Seq<TreeNode>,
    b: Seq<TreeNode>,
)
    requires
        is_level_under(nodes, parent, a),
        is_level_under(nodes, parent, b),
    ensures
        account_sets_of(preorder(a)) == account_sets_of(preorder(b)),
    decreases a,
{
    levels_list_the_same(nodes, parent, a, b, a.len() as int);
    assert(a.take(a.len() as int) =~= a);
    assert(b.take(a.len() as int) =~= b);
}

proof fn levels_list_the_same(
    nodes: Seq<ChartNodeView>,
    parent: Option<Seq<Seq<char>>>,
    a: Seq<TreeNode>,
    b: Seq<TreeNode>,
    n: int,
)
    requires
        is_level_under(nodes, parent, a),
        is_level_under(nodes, parent, b),
        0 <= n <= a.len(),
    ensures
        account_sets_of(preorder(a.take(n))) == account_sets_of(preorder(b.take(n))),
    decreases a, n,
{
    if n == 0 {
        assert(a.take(n) =~= Seq::empty());
        assert(b.take(n) =~= Seq::empty());
    } else {
        levels_list_the_same(nodes, parent, a, b, n - 1);
        let x = a[n - 1];
        let y = b[n - 1];
        assert(x.stands_for(nodes_under(nodes, parent)[n - 1]));
        assert(y.stands_for(nodes_under(nodes, parent)[n - 1]));
        let c = x.children@;
        let d = y.children@;
        assert(is_level_under(nodes, Some(x.code@), c));
        assert(is_level_under(nodes, Some(x.code@), d));
        assert(c.len() == nodes_under(nodes, Some(x.code@)).len());
        assert(d.len() == nodes_under(nodes, Some(x.code@)).len());
        levels_list_the_same(nodes, Some(x.code@), c, d, c.len() as int);
        assert(c.take(c.len() as int) =~= c);
        assert(d.take(c.len() as int) =~= d);
        assert(a.take(n).drop_last() =~= a.take(n - 1));
        assert(b.take(n).drop_last() =~= b.take(n - 1));
        let left = preorder(a.take(n - 1));
        let right = preorder(b.take(n - 1));
        assert(account_sets_of(left.push(x) + preorder(c)) =~= account_sets_of(left).push(
            account_set_of(x),
        ) + account_sets_of(preorder(c)));
        assert(account_sets_of(right.push(y) + preorder(d)) =~= account_sets_of(right).push(
            account_set_of(y),
        ) + account_sets_of(preorder(d)));
    }
}

/// `path` leads from below a parent down to a node, each node under the one
/// before.
pub open spec fn leads_down(
    nodes: Seq<ChartNodeView>,
    parent: Option<Seq<Seq<char>>>,
    path: Seq<int>,
) -> bool
    decreases path.len(),
{
    &&& path.len() > 0
    &&& 0 <= path[0] < nodes.len()
    &&& nodes[path[0]].spec.parent == parent
    &&& path.len() > 1 ==> leads_down(nodes, Some(nodes[path[0]].spec.code), path.drop_first())
}

/// What is listed below an account of a level is listed in the level.
proof fn level_lists(level: Seq<TreeNode>, i: int, k: int)
    requires
        0 <= i < level.len(),
    ensures
        preorder(level).contains(level[i]),
        0 <= k < preorder(level[i].children@).len() ==> preorder(level).contains(
            preorder(level[i].children@)[k],
        ),
    decreases level.len(),
{
    let above = preorder(level.drop_last());
    let below = preorder(level.last().children@);
    let all = above.push(level.last()) + below;
    if i == level.len() - 1 {
        assert(all[above.len() as int] == level[i]);
        if 0 <= k < below.len() {
            assert(all[above.len() + 1 + k] == below[k]);
        }
    } else {
        level_lists(level.drop_last(), i, k);
        assert(level.drop_last()[i] == level[i]);
        let at = above.index_of(level[i]);
        assert(all[at] == level[i]);
        if 0 <= k < preorder(level[i].children@).len() {
            let item = preorder(level[i].children@)[k];
            let there = above.index_of(item);
            assert(all[there] == item);
        }
    }
}

/// The tree shows every account that a line of parents connects with the top.
/// Below an account it shows every account that is connected with that one.
pub proof fn tree_shows_what_is_connected(
    nodes: Seq<ChartNodeView>,
    parent: Option<Seq<Seq<char>>>,
    level: Seq<TreeNode>,
    path: Seq<int>,
)
    requires
        is_level_under(nodes, parent, level),
        leads_down(nodes, parent, path),
    ensures
        0 <= path.last() < nodes.len(),
        exists|k: int|
            0 <= k < preorder(level).len() && (#[trigger] preorder(level)[k]).stands_for(
                nodes[path.last()],
            ),
    decreases path.len(),
{
    let wanted = |node: ChartNodeView| node.spec.parent == parent;
    let first = nodes[path[0]];
    nodes.lemma_filter_contains(wanted, path[0]);
    let i = nodes_under(nodes, parent).index_of(first);
    assert(level[i].stands_for(first));
    if path.len() == 1 {
        level_lists(level, i, 0);
        let k = preorder(level).index_of(level[i]);
        assert(preorder(level)[k].stands_for(first));
    } else {
        let rest = path.drop_first();
        let below = preorder(level[i].children@);
        tree_shows_what_is_connected(nodes, Some(first.spec.code), level[i].children@, rest);
        let k = choose|k: int|
            0 <= k < below.len() && (#[trigger] below[k]).stands_for(nodes[rest.last()]);
        level_lists(level, i, k);
        let at = preorder(level).index_of(below[k]);
        assert(preorder(level)[at].stands_for(nodes[path.last()]));
    }
}

/// The tree shows no account but those that a line of parents connects with
/// the top. Below an account it shows only what is connected with that one.
pub proof fn tree_shows_only_what_is_connected(
    nodes: Seq<ChartNodeView>,
    parent: Option<Seq<Seq<char>>>,
    level: Seq<TreeNode>,
    k: int,
)
    requires
        is_level_under(nodes, parent, level),
        0 <= k < preorder(level).len(),
    ensures
        exists|path: Seq<int>|
            #[trigger] leads_down(nodes, parent, path) && 0 <= path.last() < nodes.len()
                && preorder(level)[k].stands_for(nodes[path.last()]),
    decreases level, level.len(),
{
    assert(level.take(level.len() as int) =~= level);
    level_shows_only(nodes, parent, level, level.len() as int, k);
}

proof fn level_shows_only(
    nodes: Seq<ChartNodeView>,
    parent: Option<Seq<Seq<char>>>,
    level: Seq<TreeNode>,
    n: int,
    k: int,
)
    requires
        is_level_under(nodes, parent, level),
        0 <= n <= level.len(),
        0 <= k < preorder(level.take(n)).len(),
    ensures
        exists|path: Seq<int>|
            #[trigger] leads_down(nodes, parent, path) && 0 <= path.last() < nodes.len()
                && preorder(level.take(n))[k].stands_for(nodes[path.last()]),
    decreases level, n,
{
    assert(n > 0);
    let part = level.take(n);
    assert(part.drop_last() =~= level.take(n - 1));
    let above = preorder(level.take(n - 1));
    let node = level[n - 1];
    let below = preorder(node.children@);
    let all = preorder(part);
    assert(all == above.push(node) + below);
    if k < above.len() {
        assert(all[k] == above[k]);
        level_shows_only(nodes, parent, level, n - 1, k);
    } else {
        let wanted = |node: ChartNodeView| node.spec.parent == parent;
        let kept = nodes_under(nodes, parent);
        assert(node.stands_for(kept[n - 1]));
        nodes.lemma_filter_pred(wanted, n - 1);
        filtered_comes_from(nodes, wanted, n - 1);
        let at = choose|at: int| 0 <= at < nodes.len() && #[trigger] nodes[at] == kept[n - 1];
        if k == above.len() {
            let path = seq![at];
            assert(leads_down(nodes, parent, path));
            assert(all[k].stands_for(nodes[path.last()]));
        } else {
            let c = node.children@;
            assert(all[k] == below[k - above.len() - 1]);
            assert(c.take(c.len() as int) =~= c);
            level_shows_only(nodes, Some(node.code@), c, c.len() as int, k - above.len() - 1);
            let rest = choose|path: Seq<int>|
                #[trigger] leads_down(nodes, Some(node.code@), path) && 0 <= path.last()
                    < nodes.len() && all[k].stands_for(nodes[path.last()]);
            let path = seq![at] + rest;
            assert(path.drop_first() =~= rest);
            assert(leads_down(nodes, parent, path));
            assert(path.last() == rest.last());
        }
    }
}

pub(crate) proof fn filtered_comes_from(
    nodes: Seq<ChartNodeView>,
    wanted: spec_fn(ChartNodeView) -> bool,
    i: int,
)
    requires
        0 <= i < nodes.filter(wanted).len(),
    ensures
        exists|at: int| 0 <= at < nodes.len() && #[trigger] nodes[at] == nodes.filter(wanted)[i],
    decreases nodes.len(),
{
    reveal(Seq::filter);
    let head = nodes.drop_last();
    if i < head.filter(wanted).len() {
        filtered_comes_from(head, wanted, i);
        let at = choose|at: int|
            0 <= at < head.len() && #[trigger] head[at] == head.filter(wanted)[i];
        assert(nodes[at] == head[at]);
    } else {
        assert(nodes[nodes.len() - 1] == nodes.last());
    }
}

/// Below every account that the tree lists stand the accounts under it.
pub(crate) proof fn listed_accounts_have_levels(
    nodes: Seq<ChartNodeView>,
    parent: Option<Seq<Seq<char>>>,
    level: Seq<TreeNode>,
    n: int,
    k: int,
)
    requires
        is_level_under(nodes, parent, level),
        0 <= n <= level.len(),
        0 <= k < preorder(level.take(n)).len(),
    ensures
        is_level_under(
            nodes,
            Some(preorder(level.take(n))[k].code@),
            preorder(level.take(n))[k].children@,
        ),
    decreases level, n,
{
    assert(n > 0);
    assert(level.take(n).drop_last() =~= level.take(n - 1));
    let above = preorder(level.take(n - 1));
    let node = level[n - 1];
    let below = preorder(node.children@);
    let all = preorder(level.take(n));
    assert(all == above.push(node) + below);
    if k < above.len() {
        assert(all[k] == above[k]);
        listed_accounts_have_levels(nodes, parent, level, n - 1, k);
    } else if k == above.len() {
        assert(all[k] == node);
    } else {
        let c = node.children@;
        assert(all[k] == below[k - above.len() - 1]);
        assert(c.take(c.len() as int) =~= c);
        listed_accounts_have_levels(
            nodes,
            Some(node.code@),
            c,
            c.len() as int,
            k - above.len() - 1,
        );
    }
}

/// A stored node as it is listed under another one.
pub open spec fn member_for(node: ChartNodeView) -> AccountSetMemberView {
    AccountSetMemberView {
        account_set_id: node.account_set_id,
        code: node.spec.code,
        name: node.spec.name,
    }
}

/// Under an account of the tree stand the accounts that a line of parents
/// connects with it, and no others.
pub proof fn members_are_those_below(
    nodes: Seq<ChartNodeView>,
    top: Seq<TreeNode>,
    code: Seq<Seq<char>>,
    member: AccountSetMemberView,
)
    requires
        is_level_under(nodes, None, top),
        first_with_code(preorder(top), code) is Some,
    ensures
        members_under(top, code).contains(member) <==> exists|path: Seq<int>|
            #[trigger] leads_down(nodes, Some(code), path) && 0 <= path.last() < nodes.len()
                && member == member_for(nodes[path.last()]),
{
    let all = preorder(top);
    tree_codes(all).index_of_first_ensures(code);
    let at = tree_codes(all).index_of_first(code)->0;
    assert(tree_codes(all)[at] == all[at].code@);
    let node = all[at];
    assert(top.take(top.len() as int) =~= top);
    listed_accounts_have_levels(nodes, None, top, top.len() as int, at);
    let below = preorder(node.children@);
    let members = members_under(top, code);
    if members.contains(member) {
        let k = members.index_of(member);
        assert(member == member_of(below[k]));
        tree_shows_only_what_is_connected(nodes, Some(code), node.children@, k);
        let path = choose|path: Seq<int>|
            #[trigger] leads_down(nodes, Some(code), path) && 0 <= path.last() < nodes.len()
                && below[k].stands_for(nodes[path.last()]);
        assert(member == member_for(nodes[path.last()]));
    }
    assert forall|path: Seq<int>| #[trigger]
        leads_down(nodes, Some(code), path) && 0 <= path.last() < nodes.len() && member
            == member_for(nodes[path.last()]) implies members.contains(member) by {
        tree_shows_what_is_connected(nodes, Some(code), node.children@, path);
        let k = choose|k: int|
            0 <= k < below.len() && (#[trigger] below[k]).stands_for(nodes[path.last()]);
        assert(members[k] == member);
    }
}

/// Where parents are valid they stay so when an account with a valid parent is
/// created.
pub proof fn create_keeps_parents_valid(chart: ChartView, spec: AccountSpecView, ids: NewNodeIds)
    requires
        parents_are_valid(chart),
        spec.has_valid_parent(),
    ensures
        parents_are_valid(chart.after_create(spec, ids)),
{
    let after = chart.after_create(spec, ids);
    assert forall|code: Seq<Seq<char>>| (
    #[trigger] after.nodes.details(code)) is Some implies after.nodes.details(
        code,
    )->0.spec.has_valid_parent() by {
        create_adds_one_account(chart, spec, ids, code);
        assert(chart.nodes.details(code) matches Some(d) ==> d.spec.has_valid_parent());
    }
}

/// Where parents are valid they stay so when accounts with valid parents are
/// imported.
pub proof fn import_keeps_parents_valid(
    chart: ChartView,
    specs: Seq<AccountSpecView>,
    ids: Seq<NewNodeIds>,
    journal_id: CalaJournalId,
)
    requires
        parents_are_valid(chart),
        ids.len() == specs.len(),
        forall|i: int| 0 <= i < specs.len() ==> (#[trigger] specs[i]).has_valid_parent(),
    ensures
        parents_are_valid(chart.after_import(specs, ids, journal_id)),
{
    let after = chart.after_import(specs, ids, journal_id);
    let order = import_order(specs);
    assert forall|code: Seq<Seq<char>>| (
    #[trigger] after.nodes.details(code)) is Some implies after.nodes.details(
        code,
    )->0.spec.has_valid_parent() by {
        import_adds_missing_accounts(chart, specs, ids, journal_id, code);
        assert(chart.nodes.details(code) matches Some(d) ==> d.spec.has_valid_parent());
        if chart.nodes.details(code) is None {
            order.map_values(|spec: AccountSpecView| spec.code).index_of_first_ensures(code);
            ordered_parents_are_valid(specs);
            assert(order[first_position(order, code)->0].has_valid_parent());
        }
    }
}

} // verus!
