//! That every account stands among the children of its parent.
use vstd::prelude::*;

use super::bulk_import::import_order_keeps_length;
use super::chart_node::{ChartNodeView, NewChartNodeView};
use super::children_laws::{
    children_are_direct, children_are_sound, create_keeps_children_sound,
    import_keeps_children_sound, kept_was_created, manual_account_keeps_children_sound,
    store_keeps_children_sound,
};
use super::entity::{after_manual_account, children_of, stored_children};
use super::hierarchy_laws::{
    create_keeps_parents_valid, import_keeps_parents_valid, parents_are_valid,
    valid_parents_come_to_an_end,
};
use super::history::{can_change_by_steps, change_keeps_consistent, ChangeView};
use super::import_laws::{comes_from_import, import_is_complete, import_links_children};
use super::laws::{
    are_fresh, child_entered_keeps, create_adds_one_account, created_entered_keeps, first_index_is,
    first_position, import_adds_missing_accounts, import_changes_nodes_only, import_first_adds,
    import_first_keeps, known_means_has_code, manual_account_keeps_consistent, new_node_ids_of,
    store_keeps_accounts, with_persisted_keeps,
};
use super::model::{
    created_children, import_order, ChartView, CreatedNodeView, ImportView, NewNodeIds,
};
use super::nodes::{codes, new_codes, node_ids, ChartNodeDetailsView, ChartNodesView};
use crate::primitives::account::{AccountIdOrCodeView, AccountSpecView};
use crate::primitives::ids::{CalaAccountSetId, CalaJournalId, ChartNodeId, LedgerAccountId};

verus! {

/// All nodes, those that are stored and then the new ones as they will be once
/// they are stored.
pub open spec fn every_node(nodes: ChartNodesView) -> Seq<ChartNodeView> {
    nodes.persisted + nodes.new.map_values(|node: NewChartNodeView| node.stored())
}

/// Every node stands among the children of each node whose code is its parent
/// code, and none has a child twice.
pub open spec fn children_are_complete(nodes: ChartNodesView) -> bool {
    &&& forall|i: int, j: int|
        0 <= i < every_node(nodes).len() && 0 <= j < every_node(nodes).len() && (
        #[trigger] every_node(nodes)[j]).spec.parent == Some(
            (#[trigger] every_node(nodes)[i]).spec.code,
        ) ==> every_node(nodes)[i].children.contains(every_node(nodes)[j].id)
    &&& forall|i: int|
        0 <= i < every_node(nodes).len() ==> (
        #[trigger] every_node(nodes)[i]).children.no_duplicates()
}

/// Every parent code is that of some node.
pub open spec fn parents_are_known(nodes: ChartNodesView) -> bool {
    forall|i: int|
        0 <= i < every_node(nodes).len() ==> ((
        #[trigger] every_node(nodes)[i]).spec.parent matches Some(code) ==> nodes.details(
            code,
        ) is Some)
}

/// Parents and children of all nodes belong together: every child has its
/// parent, every parent has all its children, and no parent is missing.
pub open spec fn is_linked(nodes: ChartNodesView) -> bool {
    &&& children_are_sound(nodes)
    &&& children_are_complete(nodes)
    &&& parents_are_known(nodes)
}

/// Of the stored nodes: whichever has another one's code as its parent code
/// stands among that one's children, once.
pub proof fn stored_children_are_complete(nodes: ChartNodesView, i: int, j: int)
    requires
        children_are_complete(nodes),
        0 <= i < nodes.persisted.len(),
        0 <= j < nodes.persisted.len(),
    ensures
        nodes.persisted[j].spec.parent == Some(nodes.persisted[i].spec.code)
            ==> nodes.persisted[i].children.contains(nodes.persisted[j].id),
        nodes.persisted[i].children.no_duplicates(),
{
    assert(every_node(nodes)[i] == nodes.persisted[i]);
    assert(every_node(nodes)[j] == nodes.persisted[j]);
}

/// The codes of all nodes.
proof fn codes_of_every_node(nodes: ChartNodesView)
    ensures
        every_node(nodes).len() == nodes.persisted.len() + nodes.new.len(),
        codes(every_node(nodes)) == codes(nodes.persisted) + new_codes(nodes.new),
        node_ids(every_node(nodes)) == node_ids(nodes.persisted) + new_node_ids_of(nodes.new),
{
    assert(codes(every_node(nodes)) =~= codes(nodes.persisted) + new_codes(nodes.new));
    assert(node_ids(every_node(nodes)) =~= node_ids(nodes.persisted) + new_node_ids_of(nodes.new));
}

/// Two nodes with the same code are one.
proof fn one_node_per_code(nodes: ChartNodesView, i: int, j: int)
    requires
        nodes.codes_are_unique(),
        0 <= i < every_node(nodes).len(),
        0 <= j < every_node(nodes).len(),
        every_node(nodes)[i].spec.code == every_node(nodes)[j].spec.code,
    ensures
        i == j,
{
    codes_of_every_node(nodes);
    let all = codes(every_node(nodes));
    assert(all[i] == every_node(nodes)[i].spec.code);
    assert(all[j] == every_node(nodes)[j].spec.code);
}

/// The code of every node is known.
proof fn every_code_is_known(nodes: ChartNodesView, i: int)
    requires
        0 <= i < every_node(nodes).len(),
    ensures
        nodes.details(every_node(nodes)[i].spec.code) is Some,
{
    let code = every_node(nodes)[i].spec.code;
    known_means_has_code(nodes, code);
    if i < nodes.persisted.len() {
        assert(codes(nodes.persisted)[i] == code);
    } else {
        assert(new_codes(nodes.new)[i - nodes.persisted.len()] == code);
    }
}

/// Parents and children of all nodes still belong together when an account is
/// created whose parent, if it has one, is stored.
pub proof fn create_keeps_linked(chart: ChartView, spec: AccountSpecView, ids: NewNodeIds)
    requires
        is_linked(chart.nodes),
        chart.nodes.codes_are_unique(),
        !chart.nodes.has_id(ids.node_id),
        spec.parent matches Some(code) ==> chart.nodes.position(code) is Some,
    ensures
        is_linked(chart.after_create(spec, ids).nodes),
{
    create_keeps_children_sound(chart, spec, ids);
    if chart.nodes.details(spec.code) is None {
        let before = chart.nodes;
        let after = chart.after_create(spec, ids).nodes;
        let node = chart.node_for(spec, ids, Seq::empty());
        let was = every_node(before);
        let now = every_node(after);
        let last = was.len() as int;
        child_entered_keeps(chart, spec.parent, ids.node_id);
        if let Some(code) = spec.parent {
            codes(before.persisted).index_of_first_ensures(code);
        }
        assert(now.len() == last + 1);
        assert(now[last] == node.stored());
        assert forall|i: int| 0 <= i < last implies (#[trigger] now[i]).id == was[i].id
            && now[i].spec == was[i].spec && (now[i].children == was[i].children || now[i]
            == was[i].with_child(ids.node_id)) by {
            if i >= before.persisted.len() {
                assert(after.new[i - before.persisted.len()] == before.new[i
                    - before.persisted.len()]);
            }
        }
        assert forall|i: int, j: int|
            0 <= i < now.len() && 0 <= j < now.len() && (#[trigger] now[j]).spec.parent == Some(
                (#[trigger] now[i]).spec.code,
            ) implies now[i].children.contains(now[j].id) by {
            if i < last && j < last {
                assert(was[i].children.contains(was[j].id));
                let k = was[i].children.index_of(was[j].id);
                assert(was[i].children.push(ids.node_id)[k] == was[j].id);
            } else if i < last {
                let at = before.position(spec.parent->0)->0;
                assert(was[at] == before.persisted[at]);
                assert(codes(before.persisted)[at] == was[at].spec.code);
                one_node_per_code(before, i, at);
                let children = was[at].children;
                assert(now[at] == was[at].with_child(ids.node_id));
                if !children.contains(ids.node_id) {
                    assert(children.push(ids.node_id)[children.len() as int] == ids.node_id);
                }
            } else if j < last {
                assert(was[j].spec.parent == Some(spec.code));
            } else {
                known_means_has_code(before, spec.code);
                assert(before.position(spec.code) is Some);
            }
        }
        assert forall|i: int| 0 <= i < now.len() implies (
        #[trigger] now[i]).children.no_duplicates() by {
            if i < last {
                assert(was[i].children.no_duplicates());
            }
        }
        assert forall|i: int| 0 <= i < now.len() implies (
        (#[trigger] now[i]).spec.parent matches Some(code) ==> after.details(code) is Some) by {
            if let Some(code) = now[i].spec.parent {
                create_adds_one_account(chart, spec, ids, code);
                if i < last {
                    assert(was[i].spec.parent == Some(code));
                }
            }
        }
    }
}

/// Parents and children of all nodes still belong together when a chart is
/// stored.
pub proof fn store_keeps_linked(chart: ChartView)
    requires
        is_linked(chart.nodes),
        chart.nodes.all_ids_are_unique(),
    ensures
        is_linked(chart.nodes.all_stored()),
        every_node(chart.nodes.all_stored()) == every_node(chart.nodes),
{
    let after = chart.nodes.all_stored();
    store_keeps_children_sound(chart);
    store_keeps_accounts(chart.nodes, Seq::empty());
    assert(every_node(after) =~= every_node(chart.nodes));
    assert forall|i: int| 0 <= i < every_node(after).len() implies (
    (#[trigger] every_node(after)[i]).spec.parent matches Some(code) ==> after.details(
        code,
    ) is Some) by {
        if let Some(code) = every_node(after)[i].spec.parent {
            store_keeps_accounts(chart.nodes, code);
            assert(every_node(chart.nodes)[i].spec.parent == Some(code));
        }
    }
}

/// Parents and children of all nodes still belong together when an account
/// for manual transactions is looked for or assigned.
pub proof fn manual_account_keeps_linked(
    chart: ChartView,
    account: AccountIdOrCodeView,
    new_id: LedgerAccountId,
)
    requires
        is_linked(chart.nodes),
        chart.is_consistent(),
    ensures
        is_linked(after_manual_account(chart, account, new_id).nodes),
{
    let after = after_manual_account(chart, account, new_id).nodes;
    let was = every_node(chart.nodes);
    let now = every_node(after);
    manual_account_keeps_children_sound(chart, account, new_id);
    manual_account_keeps_consistent(chart, account, new_id);
    if let AccountIdOrCodeView::Code(code) = account {
        codes(chart.nodes.persisted).index_of_first_ensures(code);
    }
    assert(now.len() == was.len());
    assert forall|i: int| 0 <= i < now.len() implies (#[trigger] now[i]).id == was[i].id
        && now[i].spec == was[i].spec && now[i].children == was[i].children by {}
    assert forall|i: int| 0 <= i < now.len() implies (
    (#[trigger] now[i]).spec.parent matches Some(code) ==> after.details(code) is Some) by {
        if let Some(code) = now[i].spec.parent {
            assert(was[i].spec.parent == Some(code));
            assert(chart.nodes.details(code) is Some);
        }
    }
}

/// No two created nodes have the same identifier.
spec fn created_ids_differ(created: Seq<CreatedNodeView>) -> bool {
    forall|k: int, l: int|
        0 <= k < l < created.len() ==> (#[trigger] created[k]).node_id != (
        #[trigger] created[l]).node_id
}

proof fn created_children_differ(created: Seq<CreatedNodeView>, code: Seq<Seq<char>>)
    requires
        created_ids_differ(created),
    ensures
        created_children(created, code).no_duplicates(),
    decreases created.len(),
{
    reveal(Seq::filter);
    let wanted = |node: CreatedNodeView| node.parent == Some(code);
    let node_id = |node: CreatedNodeView| node.node_id;
    if created.len() > 0 {
        let earlier = created.drop_last();
        let last = created.last();
        assert(forall|k: int| 0 <= k < earlier.len() ==> #[trigger] earlier[k] == created[k]);
        created_children_differ(earlier, code);
        let kept = earlier.filter(wanted);
        let listed = created_children(earlier, code);
        if wanted(last) {
            assert(created_children(created, code) =~= listed.push(last.node_id));
            assert forall|k: int| 0 <= k < listed.len() implies listed[k] != last.node_id by {
                kept_was_created(earlier, wanted, k);
                let i = choose|i: int| 0 <= i < earlier.len() && #[trigger] earlier[i] == kept[k];
                assert(created[i].node_id != created[created.len() - 1].node_id);
            }
        } else {
            assert(created_children(created, code) == listed);
        }
    }
}

/// The new nodes of an import are the ones that it created, in this order,
/// after those that were there.
spec fn is_aligned(
    chart: ChartView,
    specs: Seq<AccountSpecView>,
    ids: Seq<NewNodeIds>,
    import: ImportView,
    n: int,
) -> bool {
    let base = chart.nodes.new.len();
    &&& import.chart.nodes.new.len() == base + import.created.len()
    &&& forall|j: int|
        0 <= j < base ==> #[trigger] import.chart.nodes.new[j] == chart.nodes.new[j]
    &&& forall|k: int|
        0 <= k < import.created.len() ==> {
            let node = import.chart.nodes.new[base + k];
            &&& node.id == (#[trigger] import.created[k]).node_id
            &&& node.spec.parent == import.created[k].parent
            &&& node.children_node_ids.no_duplicates()
            &&& chart.nodes.details(node.spec.code) is None
            &&& exists|m: int|
                0 <= m < n && node.spec == #[trigger] specs[m] && node.id == ids[m].node_id
        }
    &&& created_ids_differ(import.created)
}

proof fn import_first_is_aligned(
    chart: ChartView,
    specs: Seq<AccountSpecView>,
    ids: Seq<NewNodeIds>,
    journal_id: CalaJournalId,
    n: int,
)
    requires
        0 <= n <= specs.len(),
        ids.len() == specs.len(),
        are_fresh(chart.nodes, ids),
    ensures
        is_aligned(chart, specs, ids, chart.import_first(specs, ids, journal_id, n), n),
    decreases n,
{
    if n > 0 {
        let base = chart.nodes.new.len();
        let before = chart.import_first(specs, ids, journal_id, n - 1);
        let after = chart.import_first(specs, ids, journal_id, n);
        let spec = specs[n - 1];
        import_first_is_aligned(chart, specs, ids, journal_id, n - 1);
        if before.chart.nodes.details(spec.code) is None {
            let node = before.chart.node_for(
                spec,
                ids[n - 1],
                created_children(before.created, spec.code),
            );
            import_first_adds(chart, specs, ids, journal_id, n - 1, spec.code);
            created_children_differ(before.created, spec.code);
            assert(after.chart.nodes.new == before.chart.nodes.new.push(node));
            assert forall|k: int| 0 <= k < after.created.len() implies {
                let node = after.chart.nodes.new[base + k];
                &&& node.id == (#[trigger] after.created[k]).node_id
                &&& node.spec.parent == after.created[k].parent
                &&& node.children_node_ids.no_duplicates()
                &&& chart.nodes.details(node.spec.code) is None
                &&& exists|m: int|
                    0 <= m < n && node.spec == #[trigger] specs[m] && node.id == ids[m].node_id
            } by {
                if k < before.created.len() {
                    assert(after.created[k] == before.created[k]);
                    assert(after.chart.nodes.new[base + k] == before.chart.nodes.new[base + k]);
                } else {
                    assert(after.chart.nodes.new[base + k] == node);
                    assert(node.spec == specs[n - 1]);
                }
            }
            assert forall|k: int, l: int| 0 <= k < l < after.created.len() implies (
            #[trigger] after.created[k]).node_id != (#[trigger] after.created[l]).node_id by {
                assert(after.created[k] == before.created[k]);
                if l < before.created.len() {
                    assert(after.created[l] == before.created[l]);
                } else {
                    let m = choose|m: int|
                        0 <= m < n - 1 && before.chart.nodes.new[base + k].spec
                            == #[trigger] specs[m] && before.chart.nodes.new[base + k].id
                            == ids[m].node_id;
                    assert(ids[m].node_id != ids[n - 1].node_id);
                }
            }
        }
    }
}

/// To enter children leaves the identifiers and accounts of stored nodes as
/// they are, keeps the children that they have, and enters none twice.
proof fn created_entered_keeps_children(chart: ChartView, created: Seq<CreatedNodeView>, i: int)
    requires
        0 <= i < chart.nodes.persisted.len(),
    ensures
        ({
            let after = chart.with_created_entered(created).nodes;
            let was = chart.nodes.persisted[i];
            let now = after.persisted[i];
            &&& after.persisted.len() == chart.nodes.persisted.len()
            &&& now.id == was.id
            &&& now.spec == was.spec
            &&& was.children.no_duplicates() ==> now.children.no_duplicates()
            &&& forall|id: ChartNodeId|
                was.children.contains(id) ==> #[trigger] now.children.contains(id)
        }),
    decreases created.len(),
{
    if created.len() > 0 {
        let before = chart.with_created_entered(created.drop_last());
        let after = chart.with_created_entered(created);
        created_entered_keeps_children(chart, created.drop_last(), i);
        let child = created.last().node_id;
        let was = before.nodes.persisted[i];
        let now = after.nodes.persisted[i];
        if let Some(code) = created.last().parent {
            codes(before.nodes.persisted).index_of_first_ensures(code);
        }
        assert(now == was || now == was.with_child(child));
        assert forall|id: ChartNodeId| was.children.contains(id) implies
            #[trigger] now.children.contains(id) by {
            let k = was.children.index_of(id);
            assert(was.children.push(child)[k] == id);
        }
    }
}

/// The parent of an account to import is stored, or comes with it.
pub open spec fn has_parent_for_import(
    chart: ChartView,
    specs: Seq<AccountSpecView>,
    spec: AccountSpecView,
) -> bool {
    spec.parent matches Some(code) ==> {
        ||| chart.nodes.position(code) is Some
        ||| chart.nodes.details(code) is None && exists|k: int|
            0 <= k < specs.len() && (#[trigger] specs[k]).code == code
    }
}

/// Accounts that can be imported with their parents: each parent code is
/// valid, and the parent is stored or comes with them.
pub open spec fn have_parents_for_import(chart: ChartView, specs: Seq<AccountSpecView>) -> bool {
    forall|i: int|
        0 <= i < specs.len() ==> (#[trigger] specs[i]).has_valid_parent() && has_parent_for_import(
            chart,
            specs,
            specs[i],
        )
}

/// Parents and children of all nodes still belong together when accounts are
/// imported whose parents are stored or come with them.
pub proof fn import_keeps_linked(
    chart: ChartView,
    specs: Seq<AccountSpecView>,
    ids: Seq<NewNodeIds>,
    journal_id: CalaJournalId,
)
    requires
        is_linked(chart.nodes),
        chart.nodes.codes_are_unique(),
        ids.len() == specs.len(),
        are_fresh(chart.nodes, ids),
        have_parents_for_import(chart, specs),
    ensures
        is_linked(chart.after_import(specs, ids, journal_id).nodes),
{
    let order = import_order(specs);
    let import = chart.imported(specs, ids, journal_id);
    let before = chart.nodes;
    let after = chart.after_import(specs, ids, journal_id).nodes;
    let was = every_node(before);
    let now = every_node(after);
    let stored = before.persisted.len() as int;
    let base = was.len() as int;
    import_keeps_children_sound(chart, specs, ids, journal_id);
    import_order_keeps_length(specs);
    import_first_keeps(chart, order, ids, journal_id, specs.len() as int);
    import_first_is_aligned(chart, order, ids, journal_id, specs.len() as int);
    created_entered_keeps(import.chart, import.created);
    import_changes_nodes_only(chart, specs, ids, journal_id);
    assert(after.new == import.chart.nodes.new);
    assert(codes(after.persisted).len() == codes(before.persisted).len());
    assert(now.len() == base + import.created.len());
    assert forall|i: int| 0 <= i < base implies {
        &&& (#[trigger] now[i]).id == was[i].id
        &&& now[i].spec == was[i].spec
        &&& was[i].children.no_duplicates() ==> now[i].children.no_duplicates()
        &&& forall|id: ChartNodeId|
            was[i].children.contains(id) ==> #[trigger] now[i].children.contains(id)
    } by {
        if i < stored {
            created_entered_keeps_children(import.chart, import.created, i);
            assert(import.chart.nodes.persisted == before.persisted);
        } else {
            assert(after.new[i - stored] == before.new[i - stored]);
        }
    }
    assert forall|k: int| 0 <= k < import.created.len() implies (#[trigger] now[base + k])
        == after.new[before.new.len() + k].stored() && now[base + k].id
        == import.created[k].node_id && now[base + k].spec.parent == import.created[k].parent
        && before.details(now[base + k].spec.code) is None && now[
    base + k].children.no_duplicates() by {
        assert(import.created[k].node_id == import.created[k].node_id);
    }
    assert forall|i: int, j: int|
        0 <= i < now.len() && 0 <= j < now.len() && (#[trigger] now[j]).spec.parent == Some(
            (#[trigger] now[i]).spec.code,
        ) implies now[i].children.contains(now[j].id) by {
        let code = now[i].spec.code;
        if j < base {
            assert(was[j].spec == now[j].spec);
            if i < base {
                assert(was[i].spec == now[i].spec);
                assert(was[i].children.contains(was[j].id));
            } else {
                assert(before.details(now[base + (i - base)].spec.code) is None);
                assert(was[j].spec.parent == Some(code));
            }
        } else {
            let k = j - base;
            assert(now[base + k].spec.parent == import.created[k].parent);
            let m = choose|m: int|
                0 <= m < order.len() && import.chart.nodes.new[before.new.len() + k].spec
                    == #[trigger] order[m] && import.chart.nodes.new[before.new.len() + k].id
                    == ids[m].node_id;
            let x = comes_from_import(specs, m);
            assert(has_parent_for_import(chart, specs, specs[x]));
            import_links_children(chart, specs, ids, journal_id, k, code);
            assert(after.position(code) == before.position(code));
            codes(before.persisted).index_of_first_ensures(code);
            if let Some(at) = before.position(code) {
                assert(was[at] == before.persisted[at]);
                assert(codes(before.persisted)[at] == was[at].spec.code);
                if i < base {
                    assert(was[i].spec == now[i].spec);
                    one_node_per_code(before, i, at);
                    assert(now[at] == after.persisted[at]);
                } else {
                    assert(before.details(now[base + (i - base)].spec.code) is None);
                }
            } else {
                assert(before.details(code) is None);
                if i < base {
                    every_code_is_known(before, i);
                    assert(was[i].spec == now[i].spec);
                } else {
                    let l = before.new.len() + (i - base);
                    assert(now[base + (i - base)] == after.new[l].stored());
                    assert(after.new[l].spec.code == code);
                }
            }
        }
    }
    assert forall|i: int| 0 <= i < now.len() implies (
    #[trigger] now[i]).children.no_duplicates() by {
        if i < base {
            assert(was[i].children.no_duplicates());
        } else {
            assert(now[base + (i - base)].children.no_duplicates());
        }
    }
    assert forall|i: int| 0 <= i < now.len() implies (
    (#[trigger] now[i]).spec.parent matches Some(code) ==> after.details(code) is Some) by {
        if let Some(code) = now[i].spec.parent {
            if i < base {
                assert(was[i].spec == now[i].spec);
                assert(before.details(code) is Some);
            } else {
                let k = i - base;
                assert(now[base + k].spec.parent == import.created[k].parent);
                let m = choose|m: int|
                    0 <= m < order.len() && import.chart.nodes.new[before.new.len() + k].spec
                        == #[trigger] order[m] && import.chart.nodes.new[before.new.len() + k].id
                        == ids[m].node_id;
                let x = comes_from_import(specs, m);
                assert(has_parent_for_import(chart, specs, specs[x]));
                if before.position(code) is Some {
                    codes(before.persisted).index_of_first_ensures(code);
                    assert(before.details(code) is Some);
                } else {
                    let y = choose|y: int|
                        0 <= y < specs.len() && (#[trigger] specs[y]).code == code;
                    import_is_complete(chart, specs, ids, journal_id, y);
                }
            }
        }
    }
}

impl ChangeView {
    /// The accounts that the change adds have valid parents, which are stored
    /// or come with them.
    pub open spec fn has_parents(self, chart: ChartView) -> bool {
        match self {
            ChangeView::Create { spec, .. } => {
                &&& spec.has_valid_parent()
                &&& spec.parent matches Some(code) ==> chart.nodes.position(code) is Some
            },
            ChangeView::CreateWithChildren { .. } => false,
            ChangeView::Import { specs, .. } => have_parents_for_import(chart, specs),
            ChangeView::Configure { specs, .. } => have_parents_for_import(chart, specs),
            _ => true,
        }
    }

    /// The account sets for new accounts are not those of accounts that are
    /// there, and each is given once.
    pub open spec fn has_fresh_account_sets(self, chart: ChartView) -> bool {
        match self {
            ChangeView::Create { ids, .. } => !chart.has_account_set(ids.account_set_id),
            ChangeView::CreateWithChildren { ids, .. } => !chart.has_account_set(
                ids.account_set_id,
            ),
            ChangeView::Import { ids, .. } => account_sets_are_fresh(chart, ids),
            ChangeView::Configure { ids, .. } => account_sets_are_fresh(chart, ids),
            _ => true,
        }
    }
}

impl ChartView {
    /// Each of the changes adds accounts with their parents, and with account
    /// sets of their own.
    pub open spec fn grows_by(self, changes: Seq<ChangeView>) -> bool {
        forall|k: int|
            0 <= k < changes.len() ==> {
                let before = self.after_changes(changes.take(k));
                (#[trigger] changes[k]).has_parents(before) && changes[k].has_fresh_account_sets(
                    before,
                )
            }
    }
}

/// Account sets that no account has, each of them given once.
pub open spec fn account_sets_are_fresh(chart: ChartView, ids: Seq<NewNodeIds>) -> bool {
    &&& forall|i: int|
        0 <= i < ids.len() ==> !chart.has_account_set((#[trigger] ids[i]).account_set_id)
    &&& forall|i: int, j: int|
        0 <= i < j < ids.len() ==> (#[trigger] ids[i]).account_set_id != (
        #[trigger] ids[j]).account_set_id
}

/// Parents and children of all nodes still belong together after a change that
/// adds accounts with their parents.
pub proof fn change_keeps_linked(chart: ChartView, change: ChangeView)
    requires
        chart.is_consistent(),
        is_linked(chart.nodes),
        change.is_fresh_for(chart.nodes),
        change.has_parents(chart),
    ensures
        is_linked(chart.after_change(change).nodes),
{
    match change {
        ChangeView::Create { spec, ids } => {
            create_keeps_linked(chart, spec, ids);
        },
        ChangeView::CreateWithChildren { .. } => {},
        ChangeView::Import { specs, ids, journal_id } => {
            import_keeps_linked(chart, specs, ids, journal_id);
        },
        ChangeView::Configure { specs, config, journal_id, ids } => {
            import_keeps_linked(chart, specs, ids, journal_id);
        },
        ChangeView::ManualAccount { account, new_id } => {
            manual_account_keeps_linked(chart, account, new_id);
        },
        ChangeView::Close { .. } => {},
        ChangeView::Post { .. } => {},
        ChangeView::Store => {
            store_keeps_linked(chart);
        },
    }
}

/// Where the known accounts are the same, account sets and parents are too.
proof fn same_accounts(before: ChartView, after: ChartView)
    requires
        forall|code: Seq<Seq<char>>| #[trigger]
            after.nodes.details(code) == before.nodes.details(code),
    ensures
        before.account_sets_are_unique() ==> after.account_sets_are_unique(),
        parents_are_valid(before) ==> parents_are_valid(after),
{
    assert forall|code: Seq<Seq<char>>| #[trigger]
        after.account_set(code) == before.account_set(code) by {
        assert(after.nodes.details(code) == before.nodes.details(code));
    }
    if before.account_sets_are_unique() {
        assert forall|a: Seq<Seq<char>>, b: Seq<Seq<char>>|
            (#[trigger] after.account_set(a)) is Some && after.account_set(a) == (
            #[trigger] after.account_set(b)) implies a == b by {
            assert(before.account_set(a) == before.account_set(b));
        }
    }
    if parents_are_valid(before) {
        assert forall|code: Seq<Seq<char>>| (
        #[trigger] after.nodes.details(code)) is Some implies after.nodes.details(
            code,
        )->0.spec.has_valid_parent() by {
            assert(before.nodes.details(code) is Some);
        }
    }
}

/// One more account with an account set of its own.
proof fn one_more_account_set(
    before: ChartView,
    after: ChartView,
    code: Seq<Seq<char>>,
    id: CalaAccountSetId,
)
    requires
        before.account_sets_are_unique(),
        !before.has_account_set(id),
        forall|other: Seq<Seq<char>>| #[trigger]
            after.account_set(other) == before.account_set(other) || other == code
                && after.account_set(other) == Some(id),
    ensures
        after.account_sets_are_unique(),
{
    assert forall|a: Seq<Seq<char>>, b: Seq<Seq<char>>|
        (#[trigger] after.account_set(a)) is Some && after.account_set(a) == (
        #[trigger] after.account_set(b)) implies a == b by {
        assert(before.account_set(a) != Some(id));
        assert(before.account_set(b) != Some(id));
        if after.account_set(a) == before.account_set(a) && after.account_set(b)
            == before.account_set(b) {
            assert(before.account_set(a) == before.account_set(b));
        }
    }
}

proof fn import_keeps_account_sets_unique(
    chart: ChartView,
    specs: Seq<AccountSpecView>,
    ids: Seq<NewNodeIds>,
    journal_id: CalaJournalId,
)
    requires
        chart.account_sets_are_unique(),
        ids.len() == specs.len(),
        account_sets_are_fresh(chart, ids),
    ensures
        chart.after_import(specs, ids, journal_id).account_sets_are_unique(),
{
    let after = chart.after_import(specs, ids, journal_id);
    let order = import_order(specs);
    let all = order.map_values(|spec: AccountSpecView| spec.code);
    import_order_keeps_length(specs);
    assert forall|a: Seq<Seq<char>>, b: Seq<Seq<char>>|
        (#[trigger] after.account_set(a)) is Some && after.account_set(a) == (
        #[trigger] after.account_set(b)) implies a == b by {
        import_adds_missing_accounts(chart, specs, ids, journal_id, a);
        import_adds_missing_accounts(chart, specs, ids, journal_id, b);
        all.index_of_first_ensures(a);
        all.index_of_first_ensures(b);
        if chart.nodes.details(a) is Some && chart.nodes.details(b) is Some {
            assert(chart.account_set(a) == chart.account_set(b));
        } else if chart.nodes.details(a) is Some {
            let k = first_position(order, b)->0;
            assert(chart.account_set(a) == Some(ids[k].account_set_id));
            assert(!chart.has_account_set(ids[k].account_set_id));
        } else if chart.nodes.details(b) is Some {
            let k = first_position(order, a)->0;
            assert(chart.account_set(b) == Some(ids[k].account_set_id));
            assert(!chart.has_account_set(ids[k].account_set_id));
        } else {
            let k = first_position(order, a)->0;
            let l = first_position(order, b)->0;
            assert(ids[k].account_set_id == ids[l].account_set_id);
            if k < l {
                assert(ids[k].account_set_id != ids[l].account_set_id);
            } else if l < k {
                assert(ids[l].account_set_id != ids[k].account_set_id);
            }
        }
    }
}

/// No two accounts get the same account set, and parents stay valid, after a
/// change that adds accounts with their parents and with account sets of their
/// own.
pub proof fn change_keeps_accounts_apart(chart: ChartView, change: ChangeView)
    requires
        chart.is_consistent(),
        chart.account_sets_are_unique(),
        parents_are_valid(chart),
        change.is_fresh_for(chart.nodes),
        change.has_parents(chart),
        change.has_fresh_account_sets(chart),
    ensures
        chart.after_change(change).account_sets_are_unique(),
        parents_are_valid(chart.after_change(change)),
{
    let after = chart.after_change(change);
    match change {
        ChangeView::Create { spec, ids } => {
            create_keeps_parents_valid(chart, spec, ids);
            assert forall|other: Seq<Seq<char>>| #[trigger]
                after.account_set(other) == chart.account_set(other) || other == spec.code
                    && after.account_set(other) == Some(ids.account_set_id) by {
                create_adds_one_account(chart, spec, ids, other);
            }
            one_more_account_set(chart, after, spec.code, ids.account_set_id);
        },
        ChangeView::CreateWithChildren { .. } => {},
        ChangeView::Import { specs, ids, journal_id } => {
            import_keeps_account_sets_unique(chart, specs, ids, journal_id);
            import_keeps_parents_valid(chart, specs, ids, journal_id);
        },
        ChangeView::Configure { specs, config, journal_id, ids } => {
            import_keeps_account_sets_unique(chart, specs, ids, journal_id);
            import_keeps_parents_valid(chart, specs, ids, journal_id);
            let imported = chart.after_import(specs, ids, journal_id);
            if after.nodes == imported.nodes {
                same_accounts(imported, after);
            }
        },
        ChangeView::ManualAccount { account, new_id } => {
            assert forall|code: Seq<Seq<char>>| #[trigger]
                after.nodes.details(code) == chart.nodes.details(code) by {
                manual_account_keeps_details(chart, account, new_id, code);
            }
            same_accounts(chart, after);
        },
        ChangeView::Close { .. } => {
            same_accounts(chart, after);
        },
        ChangeView::Post { .. } => {
            same_accounts(chart, after);
        },
        ChangeView::Store => {
            assert forall|code: Seq<Seq<char>>| #[trigger]
                after.nodes.details(code) == chart.nodes.details(code) by {
                store_keeps_accounts(chart.nodes, code);
            }
            same_accounts(chart, after);
        },
    }
}

proof fn manual_account_keeps_details(
    chart: ChartView,
    account: AccountIdOrCodeView,
    new_id: LedgerAccountId,
    code: Seq<Seq<char>>,
)
    ensures
        after_manual_account(chart, account, new_id).nodes.details(code) == chart.nodes.details(
            code,
        ),
{
    if let AccountIdOrCodeView::Code(sought) = account {
        codes(chart.nodes.persisted).index_of_first_ensures(sought);
        if let Some(i) = chart.nodes.position(sought) {
            with_persisted_keeps(
                chart.nodes,
                i,
                chart.nodes.persisted[i].with_manual_account(new_id),
                code,
            );
        }
    }
}

/// A chart that only ever grew by accounts with their parents has them linked,
/// with an account set for each, and whoever follows parents comes to an end.
pub proof fn grown_chart_is_linked(chart: ChartView, changes: Seq<ChangeView>)
    requires
        chart.is_consistent(),
        is_linked(chart.nodes),
        chart.account_sets_are_unique(),
        parents_are_valid(chart),
        chart.can_change(changes),
        chart.grows_by(changes),
    ensures
        chart.after_changes(changes).is_consistent(),
        is_linked(chart.after_changes(changes).nodes),
        chart.after_changes(changes).account_sets_are_unique(),
        parents_are_valid(chart.after_changes(changes)),
    decreases changes.len(),
{
    if changes.len() > 0 {
        let earlier = changes.drop_last();
        let before = chart.after_changes(earlier);
        can_change_by_steps(chart, changes);
        assert forall|k: int| 0 <= k < earlier.len() implies {
            let reached = chart.after_changes(earlier.take(k));
            (#[trigger] earlier[k]).has_parents(reached) && earlier[k].has_fresh_account_sets(
                reached,
            )
        } by {
            assert(earlier[k] == changes[k]);
            assert(earlier.take(k) =~= changes.take(k));
        }
        grown_chart_is_linked(chart, earlier);
        assert(changes[changes.len() - 1] == changes.last());
        assert(changes.take(changes.len() - 1) =~= earlier);
        change_keeps_consistent(before, changes.last());
        change_keeps_linked(before, changes.last());
        change_keeps_accounts_apart(before, changes.last());
    }
}

/// A chart without nodes is linked.
pub proof fn empty_chart_is_linked(chart: ChartView)
    requires
        chart.nodes.persisted.len() == 0,
        chart.nodes.new.len() == 0,
    ensures
        is_linked(chart.nodes),
        chart.account_sets_are_unique(),
        parents_are_valid(chart),
{
    assert forall|code: Seq<Seq<char>>| (#[trigger] chart.nodes.details(code)) is None by {
        known_means_has_code(chart.nodes, code);
    }
}

/// Where all nodes are stored and linked, `children` lists an account exactly
/// if its parent is the one that was asked for, and lists none twice.
pub proof fn children_are_those_below(
    chart: ChartView,
    code: Seq<Seq<char>>,
    child: Seq<Seq<char>>,
    id: CalaAccountSetId,
)
    requires
        chart.nodes.codes_are_unique(),
        chart.nodes.all_ids_are_unique(),
        is_linked(chart.nodes),
        chart.nodes.new.len() == 0,
    ensures
        children_of(chart, code).no_duplicates(),
        children_of(chart, code).contains((child, id)) <==> (
        chart.nodes.details(child) matches Some(details) && details.account_set_id == id
            && details.spec.parent == Some(code)),
{
    let nodes = chart.nodes;
    let listed = children_of(chart, code);
    codes(nodes.persisted).index_of_first_ensures(code);
    codes(nodes.persisted).index_of_first_ensures(child);
    new_codes(nodes.new).index_of_first_ensures(child);
    new_codes(nodes.new).index_of_first_ensures(code);
    if let Some(at) = nodes.position(code) {
        let ids = nodes.persisted[at].children;
        stored_children_are_complete(nodes, at, at);
        stored_children_differ(chart, ids);
    }
    if listed.contains((child, id)) {
        children_are_direct(chart, code, (child, id));
        let i = choose|i: int|
            0 <= i < nodes.persisted.len() && (#[trigger] nodes.persisted[i]).spec.code == child
                && nodes.persisted[i].account_set_id == id && nodes.persisted[i].spec.parent
                == Some(code);
        assert(codes(nodes.persisted)[i] == child);
        let k = nodes.position(child)->0;
        assert(every_node(nodes)[i] == nodes.persisted[i]);
        assert(every_node(nodes)[k] == nodes.persisted[k]);
        one_node_per_code(nodes, i, k);
    }
    if chart.nodes.details(child) matches Some(details) && details.account_set_id == id
        && details.spec.parent == Some(code) {
        let j = nodes.position(child)->0;
        assert(every_node(nodes)[j] == nodes.persisted[j]);
        assert(nodes.details(code) is Some);
        let at = nodes.position(code)->0;
        assert(codes(nodes.persisted)[at] == nodes.persisted[at].spec.code);
        stored_children_are_complete(nodes, at, j);
        stored_child_is_listed(chart, nodes.persisted[at].children, j);
    }
}

/// Where identifiers are unique, the first node with one is the one.
proof fn stored_id_is_at(nodes: ChartNodesView, j: int)
    requires
        nodes.all_ids_are_unique(),
        0 <= j < nodes.persisted.len(),
    ensures
        node_ids(nodes.persisted).index_of_first(nodes.persisted[j].id) == Some(j),
{
    let stored = node_ids(nodes.persisted);
    let all = stored + new_node_ids_of(nodes.new);
    assert forall|k: int| 0 <= k < j implies stored[k] != nodes.persisted[j].id by {
        assert(all[k] == stored[k]);
        assert(all[j] == stored[j]);
    }
    first_index_is(stored, nodes.persisted[j].id, j);
}

/// A stored node whose identifier is given is listed.
proof fn stored_child_is_listed(chart: ChartView, ids: Seq<ChartNodeId>, j: int)
    requires
        chart.nodes.all_ids_are_unique(),
        0 <= j < chart.nodes.persisted.len(),
        ids.contains(chart.nodes.persisted[j].id),
    ensures
        stored_children(chart, ids).contains(
            (chart.nodes.persisted[j].spec.code, chart.nodes.persisted[j].account_set_id),
        ),
    decreases ids.len(),
{
    let node = chart.nodes.persisted[j];
    let pair = (node.spec.code, node.account_set_id);
    let earlier = stored_children(chart, ids.drop_last());
    let listed = stored_children(chart, ids);
    stored_id_is_at(chart.nodes, j);
    if ids.last() == node.id {
        assert(listed == earlier.push(pair));
        assert(listed[earlier.len() as int] == pair);
    } else {
        let k = ids.index_of(node.id);
        assert(ids.drop_last()[k] == node.id);
        stored_child_is_listed(chart, ids.drop_last(), j);
        let l = earlier.index_of(pair);
        assert(listed[l] == pair);
    }
}

/// What is listed comes from one of the identifiers.
proof fn listed_comes_from(
    chart: ChartView,
    ids: Seq<ChartNodeId>,
    pair: (Seq<Seq<char>>, CalaAccountSetId),
) -> (j: int)
    requires
        stored_children(chart, ids).contains(pair),
    ensures
        0 <= j < chart.nodes.persisted.len(),
        ids.contains(chart.nodes.persisted[j].id),
        chart.nodes.persisted[j].spec.code == pair.0,
    decreases ids.len(),
{
    let earlier = stored_children(chart, ids.drop_last());
    let listed = stored_children(chart, ids);
    node_ids(chart.nodes.persisted).index_of_first_ensures(ids.last());
    if earlier.contains(pair) {
        let j = listed_comes_from(chart, ids.drop_last(), pair);
        let k = ids.drop_last().index_of(chart.nodes.persisted[j].id);
        assert(ids[k] == chart.nodes.persisted[j].id);
        j
    } else {
        let l = listed.index_of(pair);
        if l < earlier.len() {
            assert(earlier[l] == pair);
        }
        let j = node_ids(chart.nodes.persisted).index_of_first(ids.last())->0;
        assert(ids[ids.len() - 1] == chart.nodes.persisted[j].id);
        j
    }
}

/// What is listed of different identifiers differs.
proof fn stored_children_differ(chart: ChartView, ids: Seq<ChartNodeId>)
    requires
        chart.nodes.codes_are_unique(),
        ids.no_duplicates(),
    ensures
        stored_children(chart, ids).no_duplicates(),
    decreases ids.len(),
{
    if ids.len() > 0 {
        let head = ids.drop_last();
        let earlier = stored_children(chart, head);
        stored_children_differ(chart, head);
        node_ids(chart.nodes.persisted).index_of_first_ensures(ids.last());
        if let Some(i) = node_ids(chart.nodes.persisted).index_of_first(ids.last()) {
            let node = chart.nodes.persisted[i];
            let pair = (node.spec.code, node.account_set_id);
            if earlier.contains(pair) {
                let j = listed_comes_from(chart, head, pair);
                assert(every_node(chart.nodes)[i] == node);
                assert(every_node(chart.nodes)[j] == chart.nodes.persisted[j]);
                one_node_per_code(chart.nodes, i, j);
                let k = head.index_of(node.id);
                assert(ids[k] == ids[ids.len() - 1]);
            }
            assert forall|k: int| 0 <= k < earlier.len() implies earlier[k] != pair by {
                assert(earlier.contains(earlier[k]));
            }
        }
    }
}

/// Children and ancestors agree: in a chart that grew from nothing by accounts
/// with their parents, and that is stored, `children` lists an account exactly
/// if the first of its ancestors is the account that was asked for. It lists
/// none twice.
pub proof fn children_agree_with_ancestors(
    start: ChartView,
    changes: Seq<ChangeView>,
    code: Seq<Seq<char>>,
    child: Seq<Seq<char>>,
    id: CalaAccountSetId,
    path: Seq<ChartNodeDetailsView>,
)
    requires
        start.is_consistent(),
        start.nodes.persisted.len() == 0,
        start.nodes.new.len() == 0,
        start.can_change(changes),
        start.grows_by(changes),
        start.after_changes(changes).nodes.new.len() == 0,
    ensures
        ({
            let chart = start.after_changes(changes);
            &&& children_of(chart, code).no_duplicates()
            &&& chart.has_finite_ancestry(child)
            &&& chart.is_ancestor_path(child, path) ==> (children_of(chart, code).contains(
                (child, id),
            ) <==> chart.account_set(child) == Some(id) && path.len() > 0 && chart.account_set(code)
                == Some(path[0].account_set_id))
        }),
{
    let chart = start.after_changes(changes);
    empty_chart_is_linked(start);
    grown_chart_is_linked(start, changes);
    children_are_those_below(chart, code, child, id);
    valid_parents_come_to_an_end(chart, child);
    if chart.is_ancestor_path(child, path) {
        if let Some(details) = chart.nodes.details(child) {
            if let Some(parent) = details.spec.parent {
                codes(chart.nodes.persisted).index_of_first_ensures(child);
                new_codes(chart.nodes.new).index_of_first_ensures(child);
                let j = chart.nodes.position(child)->0;
                assert(every_node(chart.nodes)[j] == chart.nodes.persisted[j]);
                assert(chart.nodes.details(parent) is Some);
                assert(path[0] == chart.nodes.details(parent)->0);
                assert(chart.account_set(parent) == Some(path[0].account_set_id));
                if chart.account_set(code) == Some(path[0].account_set_id) {
                    assert(chart.account_set(code) == chart.account_set(parent));
                }
            }
        }
    }
}

} // verus!
