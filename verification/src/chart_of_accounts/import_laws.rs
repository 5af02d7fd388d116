//! What holds of every import.
use vstd::prelude::*;

use super::bulk_import::import_order_keeps_length;
use super::laws::{
    create_adds_one_account, create_with_children_adds_one_account, created_entered_keeps,
    import_adds_missing_accounts,
};
use super::model::{
    created_children, import_order, inserted, ChartView, CreatedNodeView, ImportView, NewNodeIds,
};
use super::nodes::codes;
use crate::primitives::account::AccountSpecView;
use crate::primitives::account_code::{
    code_order_is_total, code_precedes, is_parent_code, parent_code_precedes,
};
use crate::primitives::ids::CalaJournalId;

verus! {

/// No account comes after one whose code precedes its own.
pub open spec fn is_in_import_order(specs: Seq<AccountSpecView>) -> bool {
    forall|i: int, j: int|
        0 <= i < j < specs.len() ==> !code_precedes(
            (#[trigger] specs[i]).code,
            (#[trigger] specs[j]).code,
        )
}

proof fn inserted_is_sorted(sorted: Seq<AccountSpecView>, spec: AccountSpecView)
    requires
        is_in_import_order(sorted),
    ensures
        is_in_import_order(inserted(sorted, spec)),
        inserted(sorted, spec).to_multiset() == sorted.to_multiset().insert(spec),
    decreases sorted.len(),
{
    broadcast use vstd::seq_lib::group_to_multiset_ensures;

    let res = inserted(sorted, spec);
    if sorted.len() > 0 && code_precedes(sorted.last().code, spec.code) {
        let head = sorted.drop_last();
        inserted_is_sorted(head, spec);
        let inner = inserted(head, spec);
        assert(sorted =~= head.push(sorted.last()));
        assert(res.to_multiset() =~= sorted.to_multiset().insert(spec));
        assert forall|i: int, j: int| 0 <= i < j < res.len() implies !code_precedes(
            (#[trigger] res[i]).code,
            (#[trigger] res[j]).code,
        ) by {
            if j < inner.len() {
                assert(res[i] == inner[i] && res[j] == inner[j]);
            } else {
                assert(res[i] == inner[i]);
                assert(inner.contains(inner[i]));
                assert(inner.to_multiset().count(inner[i]) > 0);
                if inner[i] == spec {
                    code_order_is_total(sorted.last().code, spec.code, spec.code);
                } else {
                    assert(head.to_multiset().count(inner[i]) > 0);
                    assert(head.contains(inner[i]));
                    let k = head.index_of(inner[i]);
                    assert(sorted[k] == inner[i]);
                    assert(sorted[sorted.len() - 1] == sorted.last());
                }
            }
        }
    } else {
        assert(res == sorted.push(spec));
        assert forall|i: int, j: int| 0 <= i < j < res.len() implies !code_precedes(
            (#[trigger] res[i]).code,
            (#[trigger] res[j]).code,
        ) by {
            if j < sorted.len() {
                assert(res[i] == sorted[i] && res[j] == sorted[j]);
            } else if i < sorted.len() - 1 {
                assert(res[i] == sorted[i]);
                let last = sorted[sorted.len() - 1];
                assert(!code_precedes(sorted[i].code, last.code));
                code_order_is_total(last.code, sorted[i].code, spec.code);
                code_order_is_total(sorted[i].code, last.code, spec.code);
            } else {
                assert(res[i] == sorted.last());
            }
        }
    }
}

/// Import order keeps every account as often as it is given, and no account
/// comes after one whose code precedes its own.
pub proof fn import_order_is_sorted(specs: Seq<AccountSpecView>)
    ensures
        is_in_import_order(import_order(specs)),
        import_order(specs).to_multiset() == specs.to_multiset(),
    decreases specs.len(),
{
    broadcast use vstd::seq_lib::group_to_multiset_ensures;

    if specs.len() == 0 {
        assert(specs =~= Seq::empty());
    } else {
        import_order_is_sorted(specs.drop_last());
        inserted_is_sorted(import_order(specs.drop_last()), specs.last());
        assert(specs =~= specs.drop_last().push(specs.last()));
    }
}

/// Every parent comes after its children in import order.
pub proof fn children_come_before_parents(specs: Seq<AccountSpecView>, i: int, j: int)
    requires
        0 <= i < specs.len(),
        0 <= j < specs.len(),
        is_parent_code(import_order(specs)[j].code, import_order(specs)[i].code),
    ensures
        i < j,
{
    let order = import_order(specs);
    import_order_keeps_length(specs);
    import_order_is_sorted(specs);
    parent_code_precedes(order[j].code, order[i].code);
    code_order_is_total(order[i].code, order[i].code, order[i].code);
    if j < i {
        assert(!code_precedes(order[j].code, order[i].code));
    }
}

/// After the first `n` accounts of an import, every new node has the created
/// nodes whose parent it is among its children.
spec fn new_parents_have_children(before: ChartView, import: ImportView) -> bool {
    forall|k: int, j: int|
        0 <= k < import.created.len() && before.nodes.new.len() <= j < import.chart.nodes.new.len()
            && (#[trigger] import.created[k]).parent == Some(
            (#[trigger] import.chart.nodes.new[j]).spec.code,
        ) ==> import.chart.nodes.new[j].children_node_ids.contains(import.created[k].node_id)
}

/// The nodes that the first `n` accounts of an import added stand for these
/// accounts.
spec fn new_nodes_stand_for(
    before: ChartView,
    specs: Seq<AccountSpecView>,
    import: ImportView,
    n: int,
) -> bool {
    &&& before.nodes.new.len() <= import.chart.nodes.new.len()
    &&& forall|j: int|
        before.nodes.new.len() <= j < import.chart.nodes.new.len() ==> exists|m: int|
            0 <= m < n && (#[trigger] import.chart.nodes.new[j]).spec == #[trigger] specs[m]
}

proof fn created_child_is_listed(created: Seq<CreatedNodeView>, code: Seq<Seq<char>>, k: int)
    requires
        0 <= k < created.len(),
        created[k].parent == Some(code),
    ensures
        created_children(created, code).contains(created[k].node_id),
{
    let wanted = |node: CreatedNodeView| node.parent == Some(code);
    let kept = created.filter(wanted);
    created.lemma_filter_contains(wanted, k);
    let i = kept.index_of(created[k]);
    assert(created_children(created, code)[i] == created[k].node_id);
}

proof fn import_first_links(
    chart: ChartView,
    specs: Seq<AccountSpecView>,
    ids: Seq<NewNodeIds>,
    journal_id: CalaJournalId,
    n: int,
)
    requires
        0 <= n <= specs.len(),
        ids.len() == specs.len(),
        is_in_import_order(specs),
        forall|i: int| 0 <= i < specs.len() ==> (#[trigger] specs[i]).has_valid_parent(),
    ensures
        new_nodes_stand_for(chart, specs, chart.import_first(specs, ids, journal_id, n), n),
        new_parents_have_children(chart, chart.import_first(specs, ids, journal_id, n)),
    decreases n,
{
    if n > 0 {
        let before = chart.import_first(specs, ids, journal_id, n - 1);
        let after = chart.import_first(specs, ids, journal_id, n);
        let spec = specs[n - 1];
        import_first_links(chart, specs, ids, journal_id, n - 1);
        if before.chart.nodes.details(spec.code) is None {
            let node = before.chart.node_for(
                spec,
                ids[n - 1],
                created_children(before.created, spec.code),
            );
            let last = before.chart.nodes.new.len() as int;
            assert(after.chart.nodes.new == before.chart.nodes.new.push(node));
            assert forall|j: int|
                chart.nodes.new.len() <= j < after.chart.nodes.new.len() implies exists|m: int|
                0 <= m < n && (#[trigger] after.chart.nodes.new[j]).spec == #[trigger] specs[m] by {
                if j < last {
                    assert(after.chart.nodes.new[j] == before.chart.nodes.new[j]);
                } else {
                    assert(after.chart.nodes.new[j].spec == specs[n - 1]);
                }
            }
            assert forall|k: int, j: int|
                0 <= k < after.created.len() && chart.nodes.new.len() <= j
                    < after.chart.nodes.new.len() && (#[trigger] after.created[k]).parent == Some(
                    (#[trigger] after.chart.nodes.new[j]).spec.code,
                ) implies after.chart.nodes.new[j].children_node_ids.contains(
                after.created[k].node_id,
            ) by {
                if k < before.created.len() {
                    assert(after.created[k] == before.created[k]);
                    if j < last {
                        assert(after.chart.nodes.new[j] == before.chart.nodes.new[j]);
                    } else {
                        created_child_is_listed(before.created, spec.code, k);
                    }
                } else {
                    assert(spec.has_valid_parent());
                    let parent = after.chart.nodes.new[j].spec.code;
                    assert(is_parent_code(parent, spec.code));
                    parent_code_precedes(parent, spec.code);
                    code_order_is_total(spec.code, spec.code, spec.code);
                    if j < last {
                        assert(after.chart.nodes.new[j] == before.chart.nodes.new[j]);
                        let m = choose|m: int|
                            0 <= m < n - 1 && before.chart.nodes.new[j].spec == #[trigger] specs[m];
                        assert(!code_precedes(specs[m].code, specs[n - 1].code));
                    }
                }
            }
        }
    }
}

/// A created node stands among the children of its stored parent.
proof fn stored_parent_has_child(
    chart: ChartView,
    created: Seq<CreatedNodeView>,
    code: Seq<Seq<char>>,
    k: int,
)
    requires
        0 <= k < created.len(),
        created[k].parent == Some(code),
        chart.nodes.position(code) is Some,
    ensures
        ({
            let after = chart.with_created_entered(created);
            &&& after.nodes.position(code) is Some
            &&& after.nodes.persisted[after.nodes.position(code)->0].children.contains(
                created[k].node_id,
            )
        }),
    decreases created.len(),
{
    let before = chart.with_created_entered(created.drop_last());
    let after = chart.with_created_entered(created);
    created_entered_keeps(chart, created.drop_last());
    created_entered_keeps(chart, created);
    codes(chart.nodes.persisted).index_of_first_ensures(code);
    let at = chart.nodes.position(code)->0;
    assert(before.nodes.position(code) == Some(at));
    assert(codes(before.nodes.persisted).len() == codes(chart.nodes.persisted).len());
    let was = before.nodes.persisted[at];
    let child = created.last().node_id;
    if k == created.len() - 1 {
        assert(after.nodes.persisted[at] == was.with_child(child));
        if !was.children.contains(child) {
            assert(was.children.push(child)[was.children.len() as int] == child);
        }
    } else {
        assert(created.drop_last()[k] == created[k]);
        stored_parent_has_child(chart, created.drop_last(), code, k);
        let i = was.children.index_of(created[k].node_id);
        if after.nodes.persisted[at] != was {
            let other = created.last().parent->0;
            codes(before.nodes.persisted).index_of_first_ensures(other);
            assert(after.nodes.persisted[at] == was.with_child(child));
            assert(was.children.push(child)[i] == created[k].node_id);
        }
    }
}

/// Import order keeps parents valid.
pub(crate) proof fn ordered_parents_are_valid(specs: Seq<AccountSpecView>)
    requires
        forall|i: int| 0 <= i < specs.len() ==> (#[trigger] specs[i]).has_valid_parent(),
    ensures
        forall|i: int|
            0 <= i < import_order(specs).len() ==> (
            #[trigger] import_order(specs)[i]).has_valid_parent(),
{
    let order = import_order(specs);
    assert forall|i: int| 0 <= i < order.len() implies (#[trigger] order[i]).has_valid_parent() by {
        let k = comes_from_import(specs, i);
        assert(specs[k].has_valid_parent());
    }
}

/// After an import of accounts whose parents are valid, every created account
/// stands among the children of its parent, where the parent is stored or is
/// created with it.
pub proof fn import_links_children(
    chart: ChartView,
    specs: Seq<AccountSpecView>,
    ids: Seq<NewNodeIds>,
    journal_id: CalaJournalId,
    k: int,
    parent: Seq<Seq<char>>,
)
    requires
        ids.len() == specs.len(),
        forall|i: int| 0 <= i < specs.len() ==> (#[trigger] specs[i]).has_valid_parent(),
        0 <= k < chart.imported(specs, ids, journal_id).created.len(),
        chart.imported(specs, ids, journal_id).created[k].parent == Some(parent),
    ensures
        ({
            let child = chart.imported(specs, ids, journal_id).created[k].node_id;
            let after = chart.after_import(specs, ids, journal_id);
            match after.nodes.position(parent) {
                Some(i) => after.nodes.persisted[i].children.contains(child),
                None => forall|j: int|
                    chart.nodes.new.len() <= j < after.nodes.new.len() && (
                    #[trigger] after.nodes.new[j]).spec.code == parent
                        ==> after.nodes.new[j].children_node_ids.contains(child),
            }
        }),
{
    let order = import_order(specs);
    let import = chart.imported(specs, ids, journal_id);
    let after = chart.after_import(specs, ids, journal_id);
    import_order_keeps_length(specs);
    import_order_is_sorted(specs);
    ordered_parents_are_valid(specs);
    import_first_links(chart, order, ids, journal_id, specs.len() as int);
    created_entered_keeps(import.chart, import.created);
    assert(after.nodes.position(parent) == import.chart.nodes.position(parent));
    if after.nodes.position(parent) is Some {
        stored_parent_has_child(import.chart, import.created, parent, k);
    } else {
        assert(after.nodes.new == import.chart.nodes.new);
        assert(import.created[k].parent == Some(parent));
    }
}

/// Each new account set is connected to the account set of its parent in the
/// chart, or to the chart's own where it has none there.
pub proof fn import_connects_account_sets(
    chart: ChartView,
    specs: Seq<AccountSpecView>,
    ids: Seq<NewNodeIds>,
    journal_id: CalaJournalId,
    k: int,
)
    requires
        ids.len() == specs.len(),
        0 <= k < chart.import_result(specs, ids, journal_id).new_account_sets.len(),
    ensures
        ({
            let after = chart.after_import(specs, ids, journal_id);
            let result = chart.import_result(specs, ids, journal_id);
            let created = result.new_account_sets[k];
            &&& result.new_account_set_ids.len() == result.new_account_sets.len()
            &&& result.new_connections.len() == result.new_account_sets.len()
            &&& result.new_account_set_ids[k] == created.id
            &&& after.nodes.details(created.code) matches Some(details)
            &&& details.account_set_id == created.id
            &&& result.new_connections[k] == (
                after.parent_account_set(details.spec.parent),
                created.id,
            )
        }),
{
    let import = chart.imported(specs, ids, journal_id);
    let order = import_order(specs);
    let after = chart.after_import(specs, ids, journal_id);
    import_order_keeps_length(specs);
    created_entered_keeps(import.chart, import.created);
    created_are_known(chart, order, ids, journal_id, specs.len() as int, k);
    let node = import.created[k];
    assert(after.nodes.details(node.new_account_set.code) == import.chart.nodes.details(
        node.new_account_set.code,
    ));
    if let Some(parent) = node.parent {
        assert(after.nodes.details(parent) == import.chart.nodes.details(parent));
    }
}

proof fn created_are_known(
    chart: ChartView,
    specs: Seq<AccountSpecView>,
    ids: Seq<NewNodeIds>,
    journal_id: CalaJournalId,
    n: int,
    k: int,
)
    requires
        0 <= n <= specs.len(),
        ids.len() == specs.len(),
        0 <= k < chart.import_first(specs, ids, journal_id, n).created.len(),
    ensures
        ({
            let import = chart.import_first(specs, ids, journal_id, n);
            let node = import.created[k];
            &&& node.account_set_id == node.new_account_set.id
            &&& import.chart.nodes.details(node.new_account_set.code) matches Some(details)
            &&& details.account_set_id == node.account_set_id
            &&& details.spec.parent == node.parent
        }),
    decreases n,
{
    let before = chart.import_first(specs, ids, journal_id, n - 1);
    let after = chart.import_first(specs, ids, journal_id, n);
    let spec = specs[n - 1];
    let code = after.created[k].new_account_set.code;
    if k < before.created.len() {
        created_are_known(chart, specs, ids, journal_id, n - 1, k);
    }
    create_with_children_adds_one_account(
        before.chart,
        spec,
        ids[n - 1],
        created_children(before.created, spec.code),
        code,
    );
}

proof fn import_first_needs_only(
    chart: ChartView,
    specs: Seq<AccountSpecView>,
    ids: Seq<NewNodeIds>,
    journal_id: CalaJournalId,
    n: int,
)
    requires
        0 <= n <= specs.len() <= ids.len(),
    ensures
        chart.import_first(specs, ids, journal_id, n) == chart.import_first(
            specs,
            ids.take(specs.len() as int),
            journal_id,
            n,
        ),
    decreases n,
{
    if n > 0 {
        import_first_needs_only(chart, specs, ids, journal_id, n - 1);
    }
}

/// An import uses no more identifiers than it has accounts.
pub proof fn import_needs_only(
    chart: ChartView,
    specs: Seq<AccountSpecView>,
    ids: Seq<NewNodeIds>,
    journal_id: CalaJournalId,
)
    requires
        ids.len() >= specs.len(),
    ensures
        ({
            let used = ids.take(specs.len() as int);
            &&& chart.after_import(specs, ids, journal_id) == chart.after_import(
                specs,
                used,
                journal_id,
            )
            &&& chart.import_result(specs, ids, journal_id) == chart.import_result(
                specs,
                used,
                journal_id,
            )
        }),
{
    import_order_keeps_length(specs);
    import_first_needs_only(chart, import_order(specs), ids, journal_id, specs.len() as int);
}

proof fn no_created_no_new(
    chart: ChartView,
    specs: Seq<AccountSpecView>,
    ids: Seq<NewNodeIds>,
    journal_id: CalaJournalId,
    n: int,
)
    requires
        0 <= n <= specs.len(),
        chart.import_first(specs, ids, journal_id, n).created.len() == 0,
    ensures
        chart.import_first(specs, ids, journal_id, n).chart == chart,
    decreases n,
{
    if n > 0 {
        no_created_no_new(chart, specs, ids, journal_id, n - 1);
    }
}

/// An import that creates nothing leaves the chart as it is.
pub(crate) proof fn nothing_created_changes_nothing(
    chart: ChartView,
    specs: Seq<AccountSpecView>,
    ids: Seq<NewNodeIds>,
    journal_id: CalaJournalId,
)
    requires
        chart.import_result(specs, ids, journal_id).new_account_sets.len() == 0,
    ensures
        chart.after_import(specs, ids, journal_id) == chart,
{
    import_order_keeps_length(specs);
    no_created_no_new(chart, import_order(specs), ids, journal_id, specs.len() as int);
}

/// Where every code is known, an import does nothing.
pub(crate) proof fn import_first_of_known(
    chart: ChartView,
    specs: Seq<AccountSpecView>,
    ids: Seq<NewNodeIds>,
    journal_id: CalaJournalId,
    n: int,
)
    requires
        0 <= n <= specs.len(),
        forall|i: int|
            0 <= i < specs.len() ==> chart.nodes.details((#[trigger] specs[i]).code) is Some,
    ensures
        chart.import_first(specs, ids, journal_id, n) == (ImportView {
            chart,
            created: Seq::empty(),
        }),
    decreases n,
{
    if n > 0 {
        import_first_of_known(chart, specs, ids, journal_id, n - 1);
        assert(chart.nodes.details(specs[n - 1].code) is Some);
    }
}

/// Every imported code is known after an import.
pub proof fn imported_is_known(
    chart: ChartView,
    specs: Seq<AccountSpecView>,
    ids: Seq<NewNodeIds>,
    journal_id: CalaJournalId,
    i: int,
)
    requires
        ids.len() == specs.len(),
        0 <= i < specs.len(),
    ensures
        chart.after_import(specs, ids, journal_id).nodes.details(
            import_order(specs)[i].code,
        ) is Some,
{
    let order = import_order(specs);
    import_order_keeps_length(specs);
    import_adds_missing_accounts(chart, specs, ids, journal_id, order[i].code);
    let all = order.map_values(|spec: AccountSpecView| spec.code);
    all.index_of_first_ensures(order[i].code);
    assert(all[i] == order[i].code);
}

/// Every account that was to be imported has its place in import order.
proof fn has_place_in_order(specs: Seq<AccountSpecView>, i: int) -> (place: int)
    requires
        0 <= i < specs.len(),
    ensures
        0 <= place < import_order(specs).len(),
        import_order(specs)[place] == specs[i],
{
    broadcast use vstd::seq_lib::group_to_multiset_ensures;

    let order = import_order(specs);
    import_order_is_sorted(specs);
    assert(specs.contains(specs[i]));
    assert(specs.to_multiset().count(specs[i]) > 0);
    assert(order.to_multiset().count(specs[i]) > 0);
    assert(order.contains(specs[i]));
    order.index_of(specs[i])
}

/// Every account in import order is one that was to be imported.
pub(crate) proof fn comes_from_import(specs: Seq<AccountSpecView>, place: int) -> (i: int)
    requires
        0 <= place < import_order(specs).len(),
    ensures
        0 <= i < specs.len(),
        specs[i] == import_order(specs)[place],
{
    broadcast use vstd::seq_lib::group_to_multiset_ensures;

    let order = import_order(specs);
    import_order_is_sorted(specs);
    assert(order.contains(order[place]));
    assert(order.to_multiset().count(order[place]) > 0);
    assert(specs.to_multiset().count(order[place]) > 0);
    assert(specs.contains(order[place]));
    specs.index_of(order[place])
}

/// After an import the chart has an account for every code that was to be
/// imported.
pub proof fn import_is_complete(
    chart: ChartView,
    specs: Seq<AccountSpecView>,
    ids: Seq<NewNodeIds>,
    journal_id: CalaJournalId,
    i: int,
)
    requires
        ids.len() == specs.len(),
        0 <= i < specs.len(),
    ensures
        chart.after_import(specs, ids, journal_id).nodes.details(specs[i].code) is Some,
{
    import_order_keeps_length(specs);
    let place = has_place_in_order(specs, i);
    imported_is_known(chart, specs, ids, journal_id, place);
}

/// Accounts that were imported are not imported again: the chart stays as it
/// is, and nothing is handed to the ledger.
pub proof fn import_happens_once(
    chart: ChartView,
    specs: Seq<AccountSpecView>,
    ids: Seq<NewNodeIds>,
    journal_id: CalaJournalId,
    again: Seq<NewNodeIds>,
)
    requires
        ids.len() == specs.len(),
    ensures
        ({
            let after = chart.after_import(specs, ids, journal_id);
            &&& after.after_import(specs, again, journal_id) == after
            &&& after.import_result(specs, again, journal_id).new_account_sets.len() == 0
            &&& after.import_result(specs, again, journal_id).new_account_set_ids.len() == 0
            &&& after.import_result(specs, again, journal_id).new_connections.len() == 0
        }),
{
    let order = import_order(specs);
    let after = chart.after_import(specs, ids, journal_id);
    import_order_keeps_length(specs);
    assert forall|i: int| 0 <= i < order.len() implies after.nodes.details(
        (#[trigger] order[i]).code,
    ) is Some by {
        imported_is_known(chart, specs, ids, journal_id, i);
    }
    import_first_of_known(after, order, again, journal_id, specs.len() as int);
}

/// An account that was created is not created again.
pub proof fn create_happens_once(
    chart: ChartView,
    spec: AccountSpecView,
    ids: NewNodeIds,
    again: NewNodeIds,
)
    ensures
        chart.after_create(spec, ids).nodes.details(spec.code) is Some,
        chart.after_create(spec, ids).after_create(spec, again) == chart.after_create(spec, ids),
{
    create_adds_one_account(chart, spec, ids, spec.code);
}

} // verus!
