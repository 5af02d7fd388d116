//! What categories are for.
use vstd::prelude::*;

use super::chart_node::ChartNodeView;
use super::entity::members_under;
use super::error::ChartOfAccountsErrorView;
use super::hierarchy_laws::{
    filtered_comes_from, leads_down, listed_accounts_have_levels, member_for,
    members_are_those_below, tree_is_determined, tree_shows_only_what_is_connected,
    tree_shows_what_is_connected,
};
use super::model::{ChartView, NewNodeIds};
use super::nodes::codes;
use super::operation::{
    is_answer, Answer, FailureView, OperationView, ReplyView, Request, StatusView,
};
use super::tree::{
    account_set_of, account_sets_of, first_with_code, is_level_under, nodes_under, preorder,
    tree_codes, TreeNode,
};
use crate::primitives::account::{views, AccountSetMemberView};
use crate::primitives::account_code::is_parent_code;
use crate::primitives::base_config::{at_or_below, AccountCategory, AccountingBaseConfigView};
use crate::primitives::ids::LedgerAccountId;

verus! {

/// `top` is the code that the configuration has for the category, under the
/// category's own name.
pub open spec fn is_code_of(
    config: AccountingBaseConfigView,
    category: AccountCategory,
    top: Seq<Seq<char>>,
) -> bool {
    ||| category == AccountCategory::Asset && top == config.assets_code
    ||| category == AccountCategory::Liability && top == config.liabilities_code
    ||| category == AccountCategory::Equity && top == config.equity_code
    ||| category == AccountCategory::Revenue && top == config.revenue_code
    ||| category == AccountCategory::CostOfRevenue && top == config.cost_of_revenue_code
    ||| category == AccountCategory::Expense && top == config.expenses_code
}

/// The sections of `top` are the first ones of `code`, and `top` has some.
pub open spec fn begins_with(code: Seq<Seq<char>>, top: Seq<Seq<char>>) -> bool {
    &&& 0 < top.len() <= code.len()
    &&& forall|k: int| 0 <= k < top.len() ==> #[trigger] code[k] == top[k]
}

/// A category has the configuration's code of its own name. Off the balance
/// sheet there is none.
pub proof fn each_category_has_its_own_code(
    config: AccountingBaseConfigView,
    category: AccountCategory,
    top: Seq<Seq<char>>,
)
    ensures
        config.code_for_category(category) == Some(top) <==> is_code_of(config, category, top),
        config.code_for_category(category) is None <==> category
            == AccountCategory::OffBalanceSheet,
        config.code_for_category(AccountCategory::Asset) == Some(config.assets_code),
        config.code_for_category(AccountCategory::Liability) == Some(config.liabilities_code),
        config.code_for_category(AccountCategory::Equity) == Some(config.equity_code),
        config.code_for_category(AccountCategory::Revenue) == Some(config.revenue_code),
        config.code_for_category(AccountCategory::CostOfRevenue) == Some(
            config.cost_of_revenue_code,
        ),
        config.code_for_category(AccountCategory::Expense) == Some(config.expenses_code),
{
}

/// An account is in a category if the sections of the category's code are the
/// first ones of its own, or if the two codes are the same.
pub proof fn account_is_in_the_category_above_it(
    config: AccountingBaseConfigView,
    category: AccountCategory,
    top: Seq<Seq<char>>,
    code: Seq<Seq<char>>,
)
    requires
        is_code_of(config, category, top),
    ensures
        config.in_category(code, category) <==> code == top || begins_with(code, top),
        config.in_category(code, category) ==> !config.in_category(
            code,
            AccountCategory::OffBalanceSheet,
        ),
{
    begins_means_below(code, top);
    assert(config.in_named_category(code, category) == config.in_category(code, category));
}

proof fn begins_means_below(code: Seq<Seq<char>>, top: Seq<Seq<char>>)
    ensures
        at_or_below(code, top) <==> code == top || begins_with(
            code,
            top,
        ),
{
    if begins_with(code, top) {
        assert(code.take(top.len() as int) =~= top);
        if code.len() == top.len() {
            assert(code =~= top);
        }
    }
    if is_parent_code(top, code) {
        assert forall|k: int| 0 <= k < top.len() implies #[trigger] code[k] == top[k] by {
            assert(code.take(top.len() as int)[k] == top[k]);
        }
    }
}

/// An account is off the balance sheet exactly if it is neither one of the six
/// accounts of the configuration's categories nor below one.
pub proof fn off_balance_sheet_is_the_rest(config: AccountingBaseConfigView, code: Seq<Seq<char>>)
    ensures
        config.in_category(code, AccountCategory::OffBalanceSheet) <==> {
            &&& code != config.assets_code && !begins_with(code, config.assets_code)
            &&& code != config.liabilities_code && !begins_with(code, config.liabilities_code)
            &&& code != config.equity_code && !begins_with(code, config.equity_code)
            &&& code != config.revenue_code && !begins_with(code, config.revenue_code)
            &&& code != config.cost_of_revenue_code && !begins_with(
                code,
                config.cost_of_revenue_code,
            )
            &&& code != config.expenses_code && !begins_with(code, config.expenses_code)
        },
{
    begins_means_below(code, config.assets_code);
    begins_means_below(code, config.liabilities_code);
    begins_means_below(code, config.equity_code);
    begins_means_below(code, config.revenue_code);
    begins_means_below(code, config.cost_of_revenue_code);
    begins_means_below(code, config.expenses_code);
    let c = config;
    assert(c.in_named_category(code, AccountCategory::Asset)
        == at_or_below(code, c.assets_code));
    assert(c.in_named_category(code, AccountCategory::Liability)
        == at_or_below(code, c.liabilities_code));
    assert(c.in_named_category(code, AccountCategory::Equity)
        == at_or_below(code, c.equity_code));
    assert(c.in_named_category(code, AccountCategory::Revenue)
        == at_or_below(code, c.revenue_code));
    assert(c.in_named_category(code, AccountCategory::CostOfRevenue)
        == at_or_below(code, c.cost_of_revenue_code));
    assert(c.in_named_category(code, AccountCategory::Expense)
        == at_or_below(code, c.expenses_code));
}

/// When the chart of a listing by category is found: without a base
/// configuration it fails, off the balance sheet too, and otherwise it is at its
/// end with the chart as it was found.
pub proof fn listing_by_category_only_reads<E>(
    op: OperationView<E>,
    chart: ChartView,
    category: AccountCategory,
    ids: Seq<NewNodeIds>,
    new_id: LedgerAccountId,
)
    requires
        op.request == (Request::AccountSetsByCategory { category }),
        op.status is Asking,
        op.todo.len() == 1,
        op.todo[0] is FindByReference,
    ensures
        ({
            let found = op.after(ReplyView::Found { chart }, ids, new_id);
            &&& found.chart == Some(chart)
            &&& found.todo.len() == 0
            &&& chart.base_config is None ==> found.status == StatusView::<E>::Failed(
                FailureView::Chart(ChartOfAccountsErrorView::BaseConfigNotInitialized),
            )
            &&& chart.base_config is Some && category == AccountCategory::OffBalanceSheet
                ==> found.status == StatusView::<E>::Failed(
                FailureView::Chart(
                    ChartOfAccountsErrorView::InvalidAccountCategory {
                        code: Seq::empty(),
                        category,
                    },
                ),
            )
            &&& chart.base_config is Some && category != AccountCategory::OffBalanceSheet
                ==> found.status is Finished
        }),
{
    assert(op.todo.drop_first().len() == 0);
}

/// What is listed under the account with a code are exactly the stored accounts
/// that a line of parents connects with it, each by its own account set, code
/// and name, and none twice. Under an account that is not connected with the top
/// of the chart nothing is listed.
pub proof fn accounts_below_are_listed(
    chart: ChartView,
    code: Seq<Seq<char>>,
    members: Seq<AccountSetMemberView>,
    line: Seq<int>,
    member: AccountSetMemberView,
)
    requires
        chart.lists_under(code, members),
        codes(chart.nodes.persisted).no_duplicates(),
    ensures
        leads_down(chart.nodes.persisted, None, line)
            && chart.nodes.persisted[line.last()].spec.code == code ==> (members.contains(member)
            <==> exists|path: Seq<int>|
            #[trigger] leads_down(chart.nodes.persisted, Some(code), path) && 0 <= path.last()
                < chart.nodes.persisted.len() && member.account_set_id
                == chart.nodes.persisted[path.last()].account_set_id && member.code
                == chart.nodes.persisted[path.last()].spec.code && member.name
                == chart.nodes.persisted[path.last()].spec.name),
        forall|a: int, b: int|
            0 <= a < b < members.len() ==> (#[trigger] members[a]).code != (
            #[trigger] members[b]).code,
        members.len() > 0 ==> exists|top: Seq<int>|
            #[trigger] leads_down(chart.nodes.persisted, None, top) && 0 <= top.last()
                < chart.nodes.persisted.len() && chart.nodes.persisted[top.last()].spec.code
                == code,
{
    let nodes = chart.nodes.persisted;
    let level = choose|level: Seq<TreeNode>|
        #[trigger] is_level_under(nodes, None, level) && members == members_under(level, code);
    let all = preorder(level);
    if leads_down(nodes, None, line) && nodes[line.last()].spec.code == code {
        connected_account_is_found(nodes, level, line, code);
        members_are_those_below(nodes, level, code, member);
        assert forall|path: Seq<int>| #[trigger]
            leads_down(nodes, Some(code), path) && 0 <= path.last() < nodes.len() implies (member
            == member_for(nodes[path.last()]) <==> {
            &&& member.account_set_id == nodes[path.last()].account_set_id
            &&& member.code == nodes[path.last()].spec.code
            &&& member.name == nodes[path.last()].spec.name
        }) by {}
    }
    members_differ(nodes, level, code);
    if members.len() > 0 {
        tree_codes(all).index_of_first_ensures(code);
        let at = tree_codes(all).index_of_first(code)->0;
        assert(tree_codes(all)[at] == all[at].code@);
        tree_shows_only_what_is_connected(nodes, None, level, at);
    }
}

/// What is listed for a category is what is listed under the account of the
/// configuration's code of the category's own name: exactly the stored accounts
/// that a line of parents connects with it, each by its own account set, code
/// and name, and none twice.
pub proof fn category_lists_what_is_below_its_code<E>(
    op: OperationView<E>,
    chart: ChartView,
    config: AccountingBaseConfigView,
    category: AccountCategory,
    top: Seq<Seq<char>>,
    line: Seq<int>,
    answer: Answer,
    member: AccountSetMemberView,
)
    requires
        op.request == (Request::AccountSetsByCategory { category }),
        op.chart == Some(chart),
        chart.base_config == Some(config),
        is_code_of(config, category, top),
        codes(chart.nodes.persisted).no_duplicates(),
        leads_down(chart.nodes.persisted, None, line),
        chart.nodes.persisted[line.last()].spec.code == top,
        is_answer(op, answer),
    ensures
        answer matches Answer::AccountSets(members) && {
            &&& views(members@).contains(member) <==> exists|path: Seq<int>|
                #[trigger] leads_down(chart.nodes.persisted, Some(top), path) && 0 <= path.last()
                    < chart.nodes.persisted.len() && member.account_set_id
                    == chart.nodes.persisted[path.last()].account_set_id && member.code
                    == chart.nodes.persisted[path.last()].spec.code && member.name
                    == chart.nodes.persisted[path.last()].spec.name
            &&& forall|a: int, b: int|
                0 <= a < b < members.len() ==> (#[trigger] members@[a])@.code != (
                #[trigger] members@[b])@.code
        },
{
    each_category_has_its_own_code(config, category, top);
    assert(config.code_for_category(category) == Some(top));
    let members = answer->AccountSets_0;
    assert(chart.lists_under(top, views(members@)));
    accounts_below_are_listed(chart, top, views(members@), line, member);
    assert forall|a: int, b: int| 0 <= a < b < members.len() implies (
    #[trigger] members@[a])@.code != (#[trigger] members@[b])@.code by {
        assert(views(members@)[a] == members@[a]@);
        assert(views(members@)[b] == members@[b]@);
    }
}

proof fn members_differ(nodes: Seq<ChartNodeView>, level: Seq<TreeNode>, code: Seq<Seq<char>>)
    requires
        codes(nodes).no_duplicates(),
        is_level_under(nodes, None, level),
    ensures
        forall|a: int, b: int|
            0 <= a < b < members_under(level, code).len() ==> (
            #[trigger] members_under(level, code)[a]).code != (
            #[trigger] members_under(level, code)[b]).code,
{
    let all = preorder(level);
    tree_codes(all).index_of_first_ensures(code);
    if let Some(at) = tree_codes(all).index_of_first(code) {
        assert(level.take(level.len() as int) =~= level);
        listed_accounts_have_levels(nodes, None, level, level.len() as int, at);
        let below = all[at].children@;
        let listed = preorder(below);
        tree_lists_none_twice(nodes, Some(all[at].code@), below);
        assert forall|a: int, b: int|
            0 <= a < b < members_under(level, code).len() implies (
            #[trigger] members_under(level, code)[a]).code != (
            #[trigger] members_under(level, code)[b]).code by {
            assert(tree_codes(listed)[a] == listed[a].code@);
            assert(tree_codes(listed)[b] == listed[b].code@);
        }
    }
}

/// The tree finds every account that a line of parents connects with the top.
pub proof fn connected_account_is_found(
    nodes: Seq<ChartNodeView>,
    level: Seq<TreeNode>,
    path: Seq<int>,
    code: Seq<Seq<char>>,
)
    requires
        is_level_under(nodes, None, level),
        leads_down(nodes, None, path),
        nodes[path.last()].spec.code == code,
    ensures
        first_with_code(preorder(level), code) matches Some(node) && node.code@ == code,
{
    let all = preorder(level);
    tree_shows_what_is_connected(nodes, None, level, path);
    let k = choose|k: int|
        0 <= k < all.len() && (#[trigger] all[k]).stands_for(nodes[path.last()]);
    assert(tree_codes(all)[k] == code);
    tree_codes(all).index_of_first_ensures(code);
    let at = tree_codes(all).index_of_first(code)->0;
    assert(tree_codes(all)[at] == all[at].code@);
}

/// The first account with a code is found in a list, and none where no account
/// of it has the code. An account is listed by its own account set, code and
/// name.
pub proof fn code_is_found_in_the_tree(listed: Seq<TreeNode>, code: Seq<Seq<char>>, i: int)
    ensures
        first_with_code(listed, code) matches Some(node) ==> node.code@ == code && listed.contains(
            node,
        ),
        first_with_code(listed, code) is None && 0 <= i < listed.len() ==> listed[i].code@ != code,
        0 <= i < listed.len() ==> account_sets_of(listed)[i] == (
            listed[i].id,
            listed[i].code@,
            listed[i].name@,
        ),
        account_sets_of(listed).len() == listed.len(),
{
    let all = tree_codes(listed);
    all.index_of_first_ensures(code);
    if let Some(k) = all.index_of_first(code) {
        assert(all[k] == listed[k].code@);
    } else if 0 <= i < listed.len() {
        assert(all[i] == listed[i].code@);
    }
}

/// Below an account the tree does not show that account again.
proof fn account_is_not_below_itself(
    nodes: Seq<ChartNodeView>,
    code: Seq<Seq<char>>,
    level: Seq<TreeNode>,
    k: int,
)
    requires
        is_level_under(nodes, Some(code), level),
        0 <= k < preorder(level).len(),
    ensures
        preorder(level)[k].code@ != code,
    decreases level,
{
    if preorder(level)[k].code@ == code {
        assert(level.take(level.len() as int) =~= level);
        listed_accounts_have_levels(nodes, Some(code), level, level.len() as int, k);
        let below = preorder(level)[k].children@;
        listed_is_smaller(level, k);
        tree_is_determined(nodes, Some(code), level, below);
        assert(account_sets_of(preorder(level))[k] == account_sets_of(preorder(below))[k]);
        assert(account_sets_of(preorder(level))[k] == account_set_of(preorder(level)[k]));
        assert(account_sets_of(preorder(below)).len() == preorder(below).len());
        assert(account_sets_of(preorder(below))[k] == account_set_of(preorder(below)[k]));
        account_is_not_below_itself(nodes, code, below, k);
    }
}

/// What stands below an account of a tree is smaller than the tree.
proof fn listed_is_smaller(level: Seq<TreeNode>, k: int)
    requires
        0 <= k < preorder(level).len(),
    ensures
        decreases_to!(level => preorder(level)[k].children@),
    decreases level,
{
    let head = level.drop_last();
    let last = level.last();
    let above = preorder(head);
    let below = preorder(last.children@);
    let all = preorder(level);
    assert(level[level.len() - 1] == last);
    if k < above.len() {
        assert(all[k] == above[k]);
        listed_is_smaller(head, k);
    } else if k == above.len() {
        assert(all[k] == last);
    } else {
        assert(all[k] == below[k - above.len() - 1]);
        listed_is_smaller(last.children@, k - above.len() - 1);
    }
}

/// Two lines of parents from the same place to the same account have the same
/// length, if no account of either has the code that they begin under.
proof fn lines_are_as_long(
    nodes: Seq<ChartNodeView>,
    parent: Option<Seq<Seq<char>>>,
    p: Seq<int>,
    q: Seq<int>,
)
    requires
        codes(nodes).no_duplicates(),
        leads_down(nodes, parent, p),
        leads_down(nodes, parent, q),
        p.last() == q.last(),
        forall|k: int|
            0 <= k < q.len() ==> parent != Some((#[trigger] nodes[q[k]]).spec.code),
        p.len() <= q.len(),
    ensures
        p == q,
    decreases p.len(),
{
    line_is_in_range(nodes, parent, p);
    line_is_in_range(nodes, parent, q);
    if p.len() == 1 {
        if q.len() > 1 {
            line_steps(nodes, parent, q, q.len() - 1);
            assert(nodes[q[q.len() - 2]].spec.code == nodes[q[q.len() - 2]].spec.code);
        }
        assert(p =~= q);
    } else {
        line_steps(nodes, parent, p, p.len() - 1);
        line_steps(nodes, parent, q, q.len() - 1);
        let a = p[p.len() - 2];
        let b = q[q.len() - 2];
        assert(codes(nodes)[a] == nodes[a].spec.code);
        assert(codes(nodes)[b] == nodes[b].spec.code);
        assert(a == b);
        line_without_last(nodes, parent, p);
        line_without_last(nodes, parent, q);
        lines_are_as_long(nodes, parent, p.drop_last(), q.drop_last());
        assert(p =~= p.drop_last().push(p.last()));
        assert(q =~= q.drop_last().push(q.last()));
    }
}

proof fn line_is_in_range(nodes: Seq<ChartNodeView>, parent: Option<Seq<Seq<char>>>, p: Seq<int>)
    requires
        leads_down(nodes, parent, p),
    ensures
        forall|k: int| 0 <= k < p.len() ==> 0 <= #[trigger] p[k] < nodes.len(),
    decreases p.len(),
{
    if p.len() > 1 {
        let rest = p.drop_first();
        line_is_in_range(nodes, Some(nodes[p[0]].spec.code), rest);
        assert forall|k: int| 0 <= k < p.len() implies 0 <= #[trigger] p[k] < nodes.len() by {
            if k > 0 {
                assert(rest[k - 1] == p[k]);
            }
        }
    }
}

proof fn line_steps(
    nodes: Seq<ChartNodeView>,
    parent: Option<Seq<Seq<char>>>,
    p: Seq<int>,
    k: int,
)
    requires
        leads_down(nodes, parent, p),
        0 < k < p.len(),
    ensures
        nodes[p[k]].spec.parent == Some(nodes[p[k - 1]].spec.code),
    decreases p.len(),
{
    let rest = p.drop_first();
    let code = nodes[p[0]].spec.code;
    assert(leads_down(nodes, Some(code), rest));
    assert(rest[0] == p[1]);
    if k > 1 {
        line_steps(nodes, Some(code), rest, k - 1);
        assert(rest[k - 1] == p[k]);
        assert(rest[k - 2] == p[k - 1]);
    }
}

proof fn line_without_last(nodes: Seq<ChartNodeView>, parent: Option<Seq<Seq<char>>>, p: Seq<int>)
    requires
        leads_down(nodes, parent, p),
        p.len() > 1,
    ensures
        leads_down(nodes, parent, p.drop_last()),
    decreases p.len(),
{
    if p.len() > 2 {
        let rest = p.drop_first();
        line_without_last(nodes, Some(nodes[p[0]].spec.code), rest);
        assert(p.drop_last().drop_first() =~= rest.drop_last());
    }
}

/// Every account of a part of a level is reached by a line that begins with the
/// account at its top.
proof fn part_is_reached(
    nodes: Seq<ChartNodeView>,
    parent: Option<Seq<Seq<char>>>,
    level: Seq<TreeNode>,
    i: int,
    k: int,
) -> (path: Seq<int>)
    requires
        codes(nodes).no_duplicates(),
        is_level_under(nodes, parent, level),
        0 <= i < level.len(),
        -1 <= k < preorder(level[i].children@).len(),
    ensures
        leads_down(nodes, parent, path),
        0 <= path[0] < nodes.len(),
        nodes[path[0]].spec.code == level[i].code@,
        0 <= path.last() < nodes.len(),
        nodes[path.last()].spec.code == (if k < 0 {
            level[i].code@
        } else {
            preorder(level[i].children@)[k].code@
        }),
{
    let kept = nodes_under(nodes, parent);
    let wanted = |node: ChartNodeView| node.spec.parent == parent;
    assert(level[i].stands_for(kept[i]));
    nodes.lemma_filter_pred(wanted, i);
    filtered_comes_from(nodes, wanted, i);
    let at = choose|at: int| 0 <= at < nodes.len() && #[trigger] nodes[at] == kept[i];
    if k < 0 {
        let path = seq![at];
        assert(leads_down(nodes, parent, path));
        path
    } else {
        let below = level[i].children@;
        tree_shows_only_what_is_connected(nodes, Some(level[i].code@), below, k);
        let rest = choose|rest: Seq<int>|
            #[trigger] leads_down(nodes, Some(level[i].code@), rest) && 0 <= rest.last()
                < nodes.len() && preorder(below)[k].stands_for(nodes[rest.last()]);
        let path = seq![at] + rest;
        assert(path.drop_first() =~= rest);
        assert(leads_down(nodes, parent, path));
        assert(path.last() == rest.last());
        path
    }
}

/// No account on a line below an account that the tree shows is that account.
proof fn line_avoids_its_top(
    nodes: Seq<ChartNodeView>,
    parent: Option<Seq<Seq<char>>>,
    level: Seq<TreeNode>,
    path: Seq<int>,
    m: int,
)
    requires
        is_level_under(nodes, parent, level),
        leads_down(nodes, parent, path),
        0 <= m < path.len(),
    ensures
        0 <= path[m] < nodes.len(),
        parent != Some(nodes[path[m]].spec.code),
    decreases path.len(),
{
    line_is_in_range(nodes, parent, path);
    if m < path.len() - 1 {
        line_without_last(nodes, parent, path);
        line_avoids_its_top(nodes, parent, level, path.drop_last(), m);
    } else {
        tree_shows_what_is_connected(nodes, parent, level, path);
        let k = choose|k: int|
            0 <= k < preorder(level).len() && (#[trigger] preorder(level)[k]).stands_for(
                nodes[path.last()],
            );
        if parent == Some(nodes[path[m]].spec.code) {
            account_is_not_below_itself(nodes, parent->0, level, k);
        }
    }
}

/// Where codes are unique, the tree shows no account twice.
pub proof fn tree_lists_none_twice(
    nodes: Seq<ChartNodeView>,
    parent: Option<Seq<Seq<char>>>,
    level: Seq<TreeNode>,
)
    requires
        codes(nodes).no_duplicates(),
        is_level_under(nodes, parent, level),
    ensures
        tree_codes(preorder(level)).no_duplicates(),
{
    part_lists_none_twice(nodes, parent, level, level.len() as int);
    assert(level.take(level.len() as int) =~= level);
}

/// Every account that a part of a level lists stands in the level or below an
/// account of it.
proof fn listed_stands_in_part(level: Seq<TreeNode>, n: int, a: int) -> (at: (int, int))
    requires
        0 <= n <= level.len(),
        0 <= a < preorder(level.take(n)).len(),
    ensures
        0 <= at.0 < n,
        -1 <= at.1 < preorder(level[at.0].children@).len(),
        preorder(level.take(n))[a] == (if at.1 < 0 {
            level[at.0]
        } else {
            preorder(level[at.0].children@)[at.1]
        }),
    decreases n,
{
    assert(n > 0);
    assert(level.take(n).drop_last() =~= level.take(n - 1));
    let above = preorder(level.take(n - 1));
    let all = preorder(level.take(n));
    assert(all == above.push(level[n - 1]) + preorder(level[n - 1].children@));
    if a < above.len() {
        assert(all[a] == above[a]);
        listed_stands_in_part(level, n - 1, a)
    } else {
        (n - 1, a - above.len() - 1)
    }
}

/// Of nodes with different codes those under a parent have different codes.
proof fn kept_codes_differ(
    nodes: Seq<ChartNodeView>,
    wanted: spec_fn(ChartNodeView) -> bool,
    i: int,
    j: int,
)
    requires
        codes(nodes).no_duplicates(),
        0 <= i < j < nodes.filter(wanted).len(),
    ensures
        nodes.filter(wanted)[i].spec.code != nodes.filter(wanted)[j].spec.code,
    decreases nodes.len(),
{
    reveal(Seq::filter);
    let head = nodes.drop_last();
    let kept = head.filter(wanted);
    assert forall|a: int, b: int| 0 <= a < codes(head).len() && 0 <= b < codes(head).len() && a
        != b implies codes(head)[a] != codes(head)[b] by {
        assert(codes(head)[a] == codes(nodes)[a]);
        assert(codes(head)[b] == codes(nodes)[b]);
    }
    if j < kept.len() {
        kept_codes_differ(head, wanted, i, j);
    } else {
        filtered_comes_from(head, wanted, i);
        let at = choose|at: int| 0 <= at < head.len() && #[trigger] head[at] == kept[i];
        assert(codes(nodes)[at] == head[at].spec.code);
        assert(codes(nodes)[nodes.len() - 1] == nodes.last().spec.code);
    }
}

proof fn part_lists_none_twice(
    nodes: Seq<ChartNodeView>,
    parent: Option<Seq<Seq<char>>>,
    level: Seq<TreeNode>,
    n: int,
)
    requires
        codes(nodes).no_duplicates(),
        is_level_under(nodes, parent, level),
        0 <= n <= level.len(),
    ensures
        tree_codes(preorder(level.take(n))).no_duplicates(),
    decreases level, n,
{
    let all = preorder(level.take(n));
    if n == 0 {
        assert(level.take(n) =~= Seq::empty());
        assert(all.len() == 0);
    } else {
        assert(level.take(n).drop_last() =~= level.take(n - 1));
        let above = preorder(level.take(n - 1));
        let node = level[n - 1];
        let children = node.children@;
        let below = preorder(children);
        assert(all == above.push(node) + below);
        part_lists_none_twice(nodes, parent, level, n - 1);
        assert(is_level_under(nodes, Some(node.code@), children));
        part_lists_none_twice(nodes, Some(node.code@), children, children.len() as int);
        assert(children.take(children.len() as int) =~= children);
        assert forall|a: int, b: int| 0 <= a < b < all.len() implies tree_codes(all)[a]
            != tree_codes(all)[b] by {
            assert(tree_codes(all)[a] == all[a].code@);
            assert(tree_codes(all)[b] == all[b].code@);
            if b < above.len() {
                assert(tree_codes(above)[a] == all[a].code@);
                assert(tree_codes(above)[b] == all[b].code@);
            } else if a < above.len() {
                if all[a].code@ == all[b].code@ {
                    parts_do_not_meet(nodes, parent, level, n, a, b);
                }
            } else if a == above.len() {
                account_is_not_below_itself(nodes, node.code@, children, b - above.len() - 1);
            } else {
                assert(tree_codes(below)[a - above.len() - 1] == all[a].code@);
                assert(tree_codes(below)[b - above.len() - 1] == all[b].code@);
            }
        }
    }
}

/// What stands in different parts of a level differs.
proof fn parts_do_not_meet(
    nodes: Seq<ChartNodeView>,
    parent: Option<Seq<Seq<char>>>,
    level: Seq<TreeNode>,
    n: int,
    a: int,
    b: int,
)
    requires
        codes(nodes).no_duplicates(),
        is_level_under(nodes, parent, level),
        0 < n <= level.len(),
        0 <= a < preorder(level.take(n - 1)).len() <= b < preorder(level.take(n)).len(),
    ensures
        preorder(level.take(n))[a].code@ != preorder(level.take(n))[b].code@,
{
    let all = preorder(level.take(n));
    let above = preorder(level.take(n - 1));
    assert(level.take(n).drop_last() =~= level.take(n - 1));
    assert(all == above.push(level[n - 1]) + preorder(level[n - 1].children@));
    assert(all[a] == above[a]);
    if all[a].code@ == all[b].code@ {
        let at = listed_stands_in_part(level, n - 1, a);
        let p = part_is_reached(nodes, parent, level, at.0, at.1);
        let q = part_is_reached(nodes, parent, level, n - 1, b - above.len() - 1);
        assert(codes(nodes)[p.last()] == nodes[p.last()].spec.code);
        assert(codes(nodes)[q.last()] == nodes[q.last()].spec.code);
        assert(p.last() == q.last());
        assert forall|k: int| 0 <= k < q.len() implies parent != Some(
            (#[trigger] nodes[q[k]]).spec.code,
        ) by {
            line_avoids_its_top(nodes, parent, level, q, k);
        }
        assert forall|k: int| 0 <= k < p.len() implies parent != Some(
            (#[trigger] nodes[p[k]]).spec.code,
        ) by {
            line_avoids_its_top(nodes, parent, level, p, k);
        }
        if p.len() <= q.len() {
            lines_are_as_long(nodes, parent, p, q);
        } else {
            lines_are_as_long(nodes, parent, q, p);
        }
        let kept = nodes_under(nodes, parent);
        assert(level[at.0].stands_for(kept[at.0]));
        assert(level[n - 1].stands_for(kept[n - 1]));
        kept_codes_differ(
            nodes,
            |node: ChartNodeView| node.spec.parent == parent,
            at.0,
            n - 1,
        );
    }
}

} // verus!
