//! What holds of the children of every account.
use vstd::prelude::*;

use super::bulk_import::import_order_keeps_length;
use super::chart_node::{ChartNodeView, NewChartNodeView};
use super::entity::{after_manual_account, children_of, stored_children};
use super::facts::{none_stored, nothing_is_found, stored_at, stored_is_found};
use super::laws::{are_fresh, import_first_keeps, new_node_ids_of, store_keeps_accounts};
use super::model::{created_children, import_order, ChartView, CreatedNodeView, NewNodeIds};
use super::nodes::{codes, node_ids, ChartNodesView};
use crate::primitives::account::{AccountIdOrCodeView, AccountSpecView};
use crate::primitives::ids::{CalaAccountSetId, CalaJournalId, ChartNodeId, LedgerAccountId};

verus! {

/// Some node has the identifier, and every node that has it has the parent.
pub open spec fn has_parent_under(
    nodes: ChartNodesView,
    id: ChartNodeId,
    parent: Option<Seq<Seq<char>>>,
) -> bool {
    &&& nodes.has_id(id)
    &&& forall|j: int|
        0 <= j < nodes.persisted.len() && (#[trigger] nodes.persisted[j]).id == id
            ==> nodes.persisted[j].spec.parent == parent
    &&& forall|j: int|
        0 <= j < nodes.new.len() && (#[trigger] nodes.new[j]).id == id ==> nodes.new[j].spec.parent
            == parent
}

/// The identifiers of children are those of nodes with the given parent code.
pub open spec fn are_children_of(
    nodes: ChartNodesView,
    ids: Seq<ChartNodeId>,
    code: Seq<Seq<char>>,
) -> bool {
    forall|k: int| 0 <= k < ids.len() ==> has_parent_under(nodes, #[trigger] ids[k], Some(code))
}

/// Every node has only nodes as children whose parent code is its own code.
pub open spec fn children_are_sound(nodes: ChartNodesView) -> bool {
    &&& forall|i: int|
        0 <= i < nodes.persisted.len() ==> are_children_of(
            nodes,
            (#[trigger] nodes.persisted[i]).children,
            nodes.persisted[i].spec.code,
        )
    &&& forall|i: int|
        0 <= i < nodes.new.len() ==> are_children_of(
            nodes,
            (#[trigger] nodes.new[i]).children_node_ids,
            nodes.new[i].spec.code,
        )
}

/// The stored node at `j` has the identifier, and none before it does.
pub open spec fn id_stored_at(chart: ChartView, j: int, id: ChartNodeId) -> bool {
    &&& 0 <= j < chart.nodes.persisted.len()
    &&& chart.nodes.persisted[j].id == id
    &&& forall|k: int| 0 <= k < j ==> (#[trigger] chart.nodes.persisted[k]).id != id
}

/// `children` lists the code and the account set of each stored node whose
/// identifier the node with the code has among its children, and nothing else.
/// It lists nothing for a code that no stored node has, nor for a node without
/// children.
pub proof fn children_are_read_off_the_node(
    chart: ChartView,
    code: Seq<Seq<char>>,
    i: int,
    pair: (Seq<Seq<char>>, CalaAccountSetId),
)
    ensures
        none_stored(chart.nodes, code) ==> children_of(chart, code).len() == 0,
        stored_at(chart.nodes, i, code) ==> {
            let ids = chart.nodes.persisted[i].children;
            &&& children_of(chart, code).len() <= ids.len()
            &&& children_of(chart, code).contains(pair) <==> exists|k: int, j: int|
                0 <= k < ids.len() && #[trigger] id_stored_at(chart, j, #[trigger] ids[k])
                    && pair.0 == chart.nodes.persisted[j].spec.code && pair.1
                    == chart.nodes.persisted[j].account_set_id
        },
{
    nothing_is_found(chart.nodes, code);
    if stored_at(chart.nodes, i, code) {
        stored_is_found(chart.nodes, i, code);
        listed_by_identifier(chart, chart.nodes.persisted[i].children, pair);
    }
}

proof fn listed_by_identifier(
    chart: ChartView,
    ids: Seq<ChartNodeId>,
    pair: (Seq<Seq<char>>, CalaAccountSetId),
)
    ensures
        stored_children(chart, ids).len() <= ids.len(),
        stored_children(chart, ids).contains(pair) <==> exists|k: int, j: int|
            0 <= k < ids.len() && #[trigger] id_stored_at(chart, j, #[trigger] ids[k]) && pair.0
                == chart.nodes.persisted[j].spec.code && pair.1
                == chart.nodes.persisted[j].account_set_id,
    decreases ids.len(),
{
    if ids.len() > 0 {
        let head = ids.drop_last();
        let last = ids.last();
        let before = stored_children(chart, head);
        let now = stored_children(chart, ids);
        let all = node_ids(chart.nodes.persisted);
        listed_by_identifier(chart, head, pair);
        all.index_of_first_ensures(last);
        assert(forall|k: int| 0 <= k < head.len() ==> #[trigger] head[k] == ids[k]);
        assert(ids[ids.len() - 1] == last);
        if before.contains(pair) {
            let at = before.index_of(pair);
            assert(now[at] == pair);
            let (k, j) = choose|k: int, j: int|
                0 <= k < head.len() && #[trigger] id_stored_at(chart, j, #[trigger] head[k])
                    && pair.0 == chart.nodes.persisted[j].spec.code && pair.1
                    == chart.nodes.persisted[j].account_set_id;
            assert(id_stored_at(chart, j, ids[k]));
        }
        if let Some(m) = all.index_of_first(last) {
            assert forall|k: int| 0 <= k < m implies (#[trigger] chart.nodes.persisted[k]).id
                != last by {
                assert(all[k] == chart.nodes.persisted[k].id);
            }
            assert(id_stored_at(chart, m, ids[ids.len() - 1]));
            assert(now[before.len() as int] == (
                chart.nodes.persisted[m].spec.code,
                chart.nodes.persisted[m].account_set_id,
            ));
            if now.contains(pair) && !before.contains(pair) {
                let at = now.index_of(pair);
                if at < before.len() {
                    assert(before[at] == pair);
                }
            }
        }
        if exists|k: int, j: int|
            0 <= k < ids.len() && #[trigger] id_stored_at(chart, j, #[trigger] ids[k]) && pair.0
                == chart.nodes.persisted[j].spec.code && pair.1
                == chart.nodes.persisted[j].account_set_id {
            let (k, j) = choose|k: int, j: int|
                0 <= k < ids.len() && #[trigger] id_stored_at(chart, j, #[trigger] ids[k])
                    && pair.0 == chart.nodes.persisted[j].spec.code && pair.1
                    == chart.nodes.persisted[j].account_set_id;
            if k < head.len() {
                assert(id_stored_at(chart, j, head[k]));
            } else {
                assert(all[j] == last);
                let m = all.index_of_first(last)->0;
                assert(chart.nodes.persisted[m].id == last);
                if m < j {
                    assert(chart.nodes.persisted[m].id != last);
                }
                assert(m == j);
            }
        }
    }
}

/// The account sets and codes that `children` lists are those of stored
/// accounts whose parent is the account that was asked for.
pub proof fn children_are_direct(
    chart: ChartView,
    code: Seq<Seq<char>>,
    child: (Seq<Seq<char>>, CalaAccountSetId),
)
    requires
        children_are_sound(chart.nodes),
        children_of(chart, code).contains(child),
    ensures
        exists|i: int|
            0 <= i < chart.nodes.persisted.len() && (#[trigger] chart.nodes.persisted[i]).spec.code
                == child.0 && chart.nodes.persisted[i].account_set_id == child.1
                && chart.nodes.persisted[i].spec.parent == Some(code),
{
    codes(chart.nodes.persisted).index_of_first_ensures(code);
    let at = chart.nodes.position(code)->0;
    let node = chart.nodes.persisted[at];
    assert(are_children_of(chart.nodes, node.children, node.spec.code));
    listed_are_direct(chart, node.children, code, child);
}

proof fn listed_are_direct(
    chart: ChartView,
    ids: Seq<ChartNodeId>,
    code: Seq<Seq<char>>,
    child: (Seq<Seq<char>>, CalaAccountSetId),
)
    requires
        are_children_of(chart.nodes, ids, code),
        stored_children(chart, ids).contains(child),
    ensures
        exists|i: int|
            0 <= i < chart.nodes.persisted.len() && (#[trigger] chart.nodes.persisted[i]).spec.code
                == child.0 && chart.nodes.persisted[i].account_set_id == child.1
                && chart.nodes.persisted[i].spec.parent == Some(code),
    decreases ids.len(),
{
    let earlier = stored_children(chart, ids.drop_last());
    node_ids(chart.nodes.persisted).index_of_first_ensures(ids.last());
    if earlier.contains(child) {
        assert(forall|k: int|
            0 <= k < ids.len() - 1 ==> #[trigger] ids.drop_last()[k] == ids[k]);
        listed_are_direct(chart, ids.drop_last(), code, child);
    } else {
        let listed = stored_children(chart, ids);
        let k = listed.index_of(child);
        if k < earlier.len() {
            assert(earlier[k] == child);
        }
        let i = node_ids(chart.nodes.persisted).index_of_first(ids.last())->0;
        assert(has_parent_under(chart.nodes, ids[ids.len() - 1], Some(code)));
        assert(chart.nodes.persisted[i].id == ids.last());
    }
}

/// A new node with an identifier of its own leaves the parents of the others
/// as they were.
proof fn with_new_keeps_parents(nodes: ChartNodesView, node: NewChartNodeView)
    requires
        !nodes.has_id(node.id),
    ensures
        has_parent_under(nodes.with_new(node), node.id, node.spec.parent),
        forall|id: ChartNodeId, parent: Option<Seq<Seq<char>>>|
            has_parent_under(nodes, id, parent) ==> #[trigger] has_parent_under(
                nodes.with_new(node),
                id,
                parent,
            ),
{
    let after = nodes.with_new(node);
    let before_ids = new_node_ids_of(nodes.new);
    let after_ids = new_node_ids_of(after.new);
    assert(after_ids =~= before_ids.push(node.id));
    assert(after_ids[before_ids.len() as int] == node.id);
    assert forall|j: int| 0 <= j < nodes.persisted.len() implies (
    #[trigger] nodes.persisted[j]).id != node.id by {
        assert(node_ids(nodes.persisted)[j] == nodes.persisted[j].id);
    }
    assert forall|j: int| 0 <= j < nodes.new.len() implies (#[trigger] nodes.new[j]).id
        != node.id by {
        assert(before_ids[j] == nodes.new[j].id);
    }
    assert(forall|j: int| 0 <= j < nodes.new.len() ==> #[trigger] after.new[j] == nodes.new[j]);
    assert forall|id: ChartNodeId, parent: Option<Seq<Seq<char>>>|
        has_parent_under(nodes, id, parent) implies #[trigger] has_parent_under(
        after,
        id,
        parent,
    ) by {
        if before_ids.contains(id) {
            let k = before_ids.index_of(id);
            assert(after_ids[k] == id);
        }
        assert(id != node.id);
    }
}

/// As before, and children stay sound if those of the new node are.
proof fn with_new_keeps_children_sound(nodes: ChartNodesView, node: NewChartNodeView)
    requires
        children_are_sound(nodes),
        !nodes.has_id(node.id),
        are_children_of(nodes, node.children_node_ids, node.spec.code),
    ensures
        children_are_sound(nodes.with_new(node)),
{
    let after = nodes.with_new(node);
    with_new_keeps_parents(nodes, node);
    assert forall|i: int| 0 <= i < after.persisted.len() implies are_children_of(
        after,
        (#[trigger] after.persisted[i]).children,
        after.persisted[i].spec.code,
    ) by {
        assert(are_children_of(nodes, nodes.persisted[i].children, nodes.persisted[i].spec.code));
    }
    assert forall|i: int| 0 <= i < after.new.len() implies are_children_of(
        after,
        (#[trigger] after.new[i]).children_node_ids,
        after.new[i].spec.code,
    ) by {
        if i < nodes.new.len() {
            assert(after.new[i] == nodes.new[i]);
            assert(are_children_of(nodes, nodes.new[i].children_node_ids, nodes.new[i].spec.code));
        }
    }
}

/// To exchange a stored node for one with the same account and identifier
/// leaves all parents as they were.
proof fn with_persisted_keeps_parents(nodes: ChartNodesView, i: int, node: ChartNodeView)
    requires
        0 <= i < nodes.persisted.len(),
        node.id == nodes.persisted[i].id,
        node.spec == nodes.persisted[i].spec,
    ensures
        forall|id: ChartNodeId, parent: Option<Seq<Seq<char>>>| #[trigger]
            has_parent_under(nodes.with_persisted(i, node), id, parent) == has_parent_under(
                nodes,
                id,
                parent,
            ),
{
    let after = nodes.with_persisted(i, node);
    assert(node_ids(after.persisted) =~= node_ids(nodes.persisted));
    assert forall|id: ChartNodeId, parent: Option<Seq<Seq<char>>>| #[trigger]
        has_parent_under(after, id, parent) == has_parent_under(nodes, id, parent) by {
        assert forall|j: int| 0 <= j < nodes.persisted.len() implies (
        #[trigger] nodes.persisted[j]).id == after.persisted[j].id && nodes.persisted[j].spec
            == after.persisted[j].spec by {}
        assert forall|j: int| 0 <= j < nodes.persisted.len() implies (
        #[trigger] after.persisted[j]).id == nodes.persisted[j].id && nodes.persisted[j].spec
            == after.persisted[j].spec by {}
    }
}

proof fn with_persisted_keeps_children_sound(nodes: ChartNodesView, i: int, node: ChartNodeView)
    requires
        children_are_sound(nodes),
        0 <= i < nodes.persisted.len(),
        node.id == nodes.persisted[i].id,
        node.spec == nodes.persisted[i].spec,
        are_children_of(nodes, node.children, node.spec.code),
    ensures
        children_are_sound(nodes.with_persisted(i, node)),
{
    let after = nodes.with_persisted(i, node);
    with_persisted_keeps_parents(nodes, i, node);
    assert forall|j: int| 0 <= j < after.persisted.len() implies are_children_of(
        after,
        (#[trigger] after.persisted[j]).children,
        after.persisted[j].spec.code,
    ) by {
        if j != i {
            assert(after.persisted[j] == nodes.persisted[j]);
            assert(are_children_of(
                nodes,
                nodes.persisted[j].children,
                nodes.persisted[j].spec.code,
            ));
        }
    }
    assert forall|j: int| 0 <= j < after.new.len() implies are_children_of(
        after,
        (#[trigger] after.new[j]).children_node_ids,
        after.new[j].spec.code,
    ) by {
        assert(are_children_of(nodes, nodes.new[j].children_node_ids, nodes.new[j].spec.code));
    }
}

/// Children stay sound when a node is entered at its stored parent.
proof fn child_entered_keeps_children_sound(
    chart: ChartView,
    parent: Option<Seq<Seq<char>>>,
    child: ChartNodeId,
)
    requires
        children_are_sound(chart.nodes),
        has_parent_under(chart.nodes, child, parent),
    ensures
        children_are_sound(chart.with_child_entered(parent, child).nodes),
        forall|id: ChartNodeId, other: Option<Seq<Seq<char>>>| #[trigger]
            has_parent_under(chart.with_child_entered(parent, child).nodes, id, other)
                == has_parent_under(chart.nodes, id, other),
{
    if let Some(code) = parent {
        codes(chart.nodes.persisted).index_of_first_ensures(code);
        if let Some(i) = chart.nodes.position(code) {
            let was = chart.nodes.persisted[i];
            let node = was.with_child(child);
            assert(codes(chart.nodes.persisted)[i] == was.spec.code);
            assert(are_children_of(chart.nodes, was.children, was.spec.code));
            assert(are_children_of(chart.nodes, node.children, node.spec.code)) by {
                assert forall|k: int| 0 <= k < node.children.len() implies has_parent_under(
                    chart.nodes,
                    #[trigger] node.children[k],
                    Some(code),
                ) by {
                    if k < was.children.len() {
                        assert(node.children[k] == was.children[k]);
                    }
                }
            }
            with_persisted_keeps_parents(chart.nodes, i, node);
            with_persisted_keeps_children_sound(chart.nodes, i, node);
        }
    }
}

/// Children stay sound when an account is created under an identifier that the
/// chart does not have.
pub proof fn create_keeps_children_sound(chart: ChartView, spec: AccountSpecView, ids: NewNodeIds)
    requires
        children_are_sound(chart.nodes),
        !chart.nodes.has_id(ids.node_id),
    ensures
        children_are_sound(chart.after_create(spec, ids).nodes),
{
    if chart.nodes.details(spec.code) is None {
        let node = chart.node_for(spec, ids, Seq::empty());
        let added = chart.with_new_node(node);
        with_new_keeps_children_sound(chart.nodes, node);
        with_new_keeps_parents(chart.nodes, node);
        child_entered_keeps_children_sound(added, spec.parent, ids.node_id);
        assert(chart.after_create(spec, ids) == added.with_child_entered(
            spec.parent,
            ids.node_id,
        ));
    }
}

/// The created nodes have the parents that they were created with.
spec fn created_have_parents(nodes: ChartNodesView, created: Seq<CreatedNodeView>) -> bool {
    forall|k: int|
        0 <= k < created.len() ==> has_parent_under(
            nodes,
            (#[trigger] created[k]).node_id,
            created[k].parent,
        )
}

proof fn created_children_are_children(
    nodes: ChartNodesView,
    created: Seq<CreatedNodeView>,
    code: Seq<Seq<char>>,
)
    requires
        created_have_parents(nodes, created),
    ensures
        are_children_of(nodes, created_children(created, code), code),
{
    let wanted = |node: CreatedNodeView| node.parent == Some(code);
    let kept = created.filter(wanted);
    let ids = created_children(created, code);
    assert forall|k: int| 0 <= k < ids.len() implies has_parent_under(
        nodes,
        #[trigger] ids[k],
        Some(code),
    ) by {
        created.lemma_filter_pred(wanted, k);
        kept_was_created(created, wanted, k);
        let i = choose|i: int| 0 <= i < created.len() && #[trigger] created[i] == kept[k];
        assert(has_parent_under(nodes, created[i].node_id, created[i].parent));
        assert(ids[k] == kept[k].node_id);
    }
}

pub(crate) proof fn kept_was_created(
    created: Seq<CreatedNodeView>,
    wanted: spec_fn(CreatedNodeView) -> bool,
    k: int,
)
    requires
        0 <= k < created.filter(wanted).len(),
    ensures
        exists|i: int|
            0 <= i < created.len() && #[trigger] created[i] == created.filter(wanted)[k],
    decreases created.len(),
{
    reveal(Seq::filter);
    let head = created.drop_last();
    if k < head.filter(wanted).len() {
        kept_was_created(head, wanted, k);
        let i = choose|i: int| 0 <= i < head.len() && #[trigger] head[i] == head.filter(wanted)[k];
        assert(created[i] == head[i]);
    } else {
        assert(created[created.len() - 1] == created.last());
    }
}

proof fn import_first_keeps_children_sound(
    chart: ChartView,
    specs: Seq<AccountSpecView>,
    ids: Seq<NewNodeIds>,
    journal_id: CalaJournalId,
    n: int,
)
    requires
        0 <= n <= specs.len(),
        ids.len() == specs.len(),
        children_are_sound(chart.nodes),
        are_fresh(chart.nodes, ids),
    ensures
        ({
            let import = chart.import_first(specs, ids, journal_id, n);
            &&& children_are_sound(import.chart.nodes)
            &&& created_have_parents(import.chart.nodes, import.created)
        }),
    decreases n,
{
    if n > 0 {
        let before = chart.import_first(specs, ids, journal_id, n - 1);
        let after = chart.import_first(specs, ids, journal_id, n);
        import_first_keeps_children_sound(chart, specs, ids, journal_id, n - 1);
        import_first_keeps(chart, specs, ids, journal_id, n - 1);
        let spec = specs[n - 1];
        if before.chart.nodes.details(spec.code) is None {
            let node = before.chart.node_for(
                spec,
                ids[n - 1],
                created_children(before.created, spec.code),
            );
            created_children_are_children(before.chart.nodes, before.created, spec.code);
            assert(!chart.nodes.has_id(ids[n - 1].node_id));
            assert(!before.chart.nodes.has_id(node.id));
            with_new_keeps_parents(before.chart.nodes, node);
            with_new_keeps_children_sound(before.chart.nodes, node);
            assert forall|k: int| 0 <= k < after.created.len() implies has_parent_under(
                after.chart.nodes,
                (#[trigger] after.created[k]).node_id,
                after.created[k].parent,
            ) by {
                if k < before.created.len() {
                    assert(after.created[k] == before.created[k]);
                    assert(has_parent_under(
                        before.chart.nodes,
                        before.created[k].node_id,
                        before.created[k].parent,
                    ));
                }
            }
        }
    }
}

proof fn created_entered_keeps_children_sound(chart: ChartView, created: Seq<CreatedNodeView>)
    requires
        children_are_sound(chart.nodes),
        created_have_parents(chart.nodes, created),
    ensures
        children_are_sound(chart.with_created_entered(created).nodes),
        forall|id: ChartNodeId, parent: Option<Seq<Seq<char>>>| #[trigger]
            has_parent_under(chart.with_created_entered(created).nodes, id, parent)
                == has_parent_under(chart.nodes, id, parent),
    decreases created.len(),
{
    if created.len() > 0 {
        let earlier = created.drop_last();
        let before = chart.with_created_entered(earlier);
        let after = chart.with_created_entered(created);
        assert(forall|k: int| 0 <= k < earlier.len() ==> #[trigger] earlier[k] == created[k]);
        created_entered_keeps_children_sound(chart, earlier);
        assert(has_parent_under(
            chart.nodes,
            created[created.len() - 1].node_id,
            created[created.len() - 1].parent,
        ));
        child_entered_keeps_children_sound(
            before,
            created.last().parent,
            created.last().node_id,
        );
        assert forall|id: ChartNodeId, parent: Option<Seq<Seq<char>>>| #[trigger]
            has_parent_under(after.nodes, id, parent) == has_parent_under(
                chart.nodes,
                id,
                parent,
            ) by {
            assert(has_parent_under(after.nodes, id, parent) == has_parent_under(
                before.nodes,
                id,
                parent,
            ));
        }
    }
}

/// Children stay sound when accounts are imported under identifiers that the
/// chart does not have.
pub proof fn import_keeps_children_sound(
    chart: ChartView,
    specs: Seq<AccountSpecView>,
    ids: Seq<NewNodeIds>,
    journal_id: CalaJournalId,
)
    requires
        children_are_sound(chart.nodes),
        ids.len() == specs.len(),
        are_fresh(chart.nodes, ids),
    ensures
        children_are_sound(chart.after_import(specs, ids, journal_id).nodes),
{
    let import = chart.imported(specs, ids, journal_id);
    import_order_keeps_length(specs);
    import_first_keeps_children_sound(
        chart,
        import_order(specs),
        ids,
        journal_id,
        specs.len() as int,
    );
    created_entered_keeps_children_sound(import.chart, import.created);
}

/// Children stay sound when an account for manual transactions is looked for
/// or assigned.
pub proof fn manual_account_keeps_children_sound(
    chart: ChartView,
    account: AccountIdOrCodeView,
    new_id: LedgerAccountId,
)
    requires
        children_are_sound(chart.nodes),
    ensures
        children_are_sound(after_manual_account(chart, account, new_id).nodes),
{
    if let AccountIdOrCodeView::Code(code) = account {
        codes(chart.nodes.persisted).index_of_first_ensures(code);
        if let Some(i) = chart.nodes.position(code) {
            let was = chart.nodes.persisted[i];
            assert(are_children_of(chart.nodes, was.children, was.spec.code));
            with_persisted_keeps_children_sound(chart.nodes, i, was.with_manual_account(new_id));
        }
    }
}

/// Children stay sound when a chart is stored.
pub proof fn store_keeps_children_sound(chart: ChartView)
    requires
        children_are_sound(chart.nodes),
        chart.nodes.all_ids_are_unique(),
    ensures
        children_are_sound(chart.nodes.all_stored()),
{
    let before = chart.nodes;
    let after = chart.nodes.all_stored();
    store_keeps_accounts(before, Seq::empty());
    let n = before.persisted.len();
    assert(after.persisted.len() == n + before.new.len());
    assert forall|j: int| 0 <= j < before.new.len() implies #[trigger] after.persisted[n + j]
        == before.new[j].stored() by {}
    assert forall|id: ChartNodeId, parent: Option<Seq<Seq<char>>>|
        has_parent_under(before, id, parent) implies #[trigger] has_parent_under(
        after,
        id,
        parent,
    ) by {
        if node_ids(before.persisted).contains(id) {
            let k = node_ids(before.persisted).index_of(id);
            assert(before.persisted[k].id == id);
            assert(node_ids(after.persisted)[k] == id);
        } else {
            let k = new_node_ids_of(before.new).index_of(id);
            assert(before.new[k].id == id);
            assert(after.persisted[n + k] == before.new[k].stored());
            assert(node_ids(after.persisted)[n + k] == id);
        }
        assert forall|j: int|
            0 <= j < after.persisted.len() && (#[trigger] after.persisted[j]).id
                == id implies after.persisted[j].spec.parent == parent by {
            if j < n {
                assert(after.persisted[j] == before.persisted[j]);
            } else {
                assert(after.persisted[n + (j - n)] == before.new[j - n].stored());
                assert(before.new[j - n].id == id);
            }
        }
    }
    assert forall|i: int| 0 <= i < after.persisted.len() implies are_children_of(
        after,
        (#[trigger] after.persisted[i]).children,
        after.persisted[i].spec.code,
    ) by {
        if i < n {
            assert(after.persisted[i] == before.persisted[i]);
            assert(are_children_of(
                before,
                before.persisted[i].children,
                before.persisted[i].spec.code,
            ));
        } else {
            assert(after.persisted[n + (i - n)] == before.new[i - n].stored());
            assert(are_children_of(
                before,
                before.new[i - n].children_node_ids,
                before.new[i - n].spec.code,
            ));
        }
    }
}

} // verus!
