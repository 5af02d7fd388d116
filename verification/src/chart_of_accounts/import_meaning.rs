//! What an import is for.
use vstd::prelude::*;

use super::bulk_import::{import_order_keeps_length, imports, BulkImportResult};
use super::facts::{
    has_account, known_is_what_the_node_says, new_at, none_has, none_stored, nothing_is_found,
    stored_at, stored_is_found,
};
use super::import_laws::{
    comes_from_import, import_is_complete, import_order_is_sorted, is_in_import_order,
};
use super::laws::{
    first_position, import_adds_missing_accounts, created_entered_keeps, first_index_is,
    import_changes_nodes_only, import_first_adds, import_first_keeps,
};
use super::model::{import_order, inserted, ChartView, CreatedNodeView, ImportView, NewNodeIds};
use super::nodes::{codes, new_codes};
use crate::primitives::account::{views, AccountSpecView};
use crate::primitives::account_code::{code_order_is_total, code_precedes, parent_code_precedes};
use crate::primitives::ids::CalaJournalId;

verus! {

/// The new nodes after the first accounts of an import, read one by one.
spec fn shows_created(
    chart: ChartView,
    specs: Seq<AccountSpecView>,
    ids: Seq<NewNodeIds>,
    journal_id: CalaJournalId,
    import: ImportView,
    n: int,
) -> bool {
    let base = chart.nodes.new.len();
    let new = import.chart.nodes.new;
    &&& new.len() == base + import.created.len()
    &&& forall|j: int| 0 <= j < base ==> #[trigger] new[j] == chart.nodes.new[j]
    &&& forall|k: int|
        0 <= k < import.created.len() ==> {
            let node = new[base + k];
            let created = #[trigger] import.created[k];
            &&& created.node_id == node.id
            &&& created.account_set_id == node.ledger_account_set_id
            &&& created.parent == node.spec.parent
            &&& created.new_account_set.id == node.ledger_account_set_id
            &&& created.new_account_set.journal_id == journal_id
            &&& created.new_account_set.chart_id == chart.id
            &&& created.new_account_set.code == node.spec.code
            &&& created.new_account_set.name == node.spec.name
            &&& created.new_account_set.normal_balance_type == node.spec.normal_balance_type
            &&& node.chart_id == chart.id
            &&& none_has(chart.nodes, node.spec.code)
            &&& exists|m: int|
                0 <= m < n && node.spec == #[trigger] specs[m] && node.id == ids[m].node_id
                    && node.ledger_account_set_id == ids[m].account_set_id
        }
    &&& forall|k: int, l: int|
        0 <= k < l < import.created.len() ==> {
            let first = (#[trigger] import.created[k]).new_account_set.code;
            let second = (#[trigger] import.created[l]).new_account_set.code;
            first != second && !code_precedes(first, second)
        }
}

proof fn import_first_shows_created(
    chart: ChartView,
    specs: Seq<AccountSpecView>,
    ids: Seq<NewNodeIds>,
    journal_id: CalaJournalId,
    n: int,
)
    requires
        0 <= n <= specs.len(),
        ids.len() == specs.len(),
        is_in_import_order(specs),
    ensures
        shows_created(
            chart,
            specs,
            ids,
            journal_id,
            chart.import_first(specs, ids, journal_id, n),
            n,
        ),
    decreases n,
{
    if n > 0 {
        let base = chart.nodes.new.len();
        let before = chart.import_first(specs, ids, journal_id, n - 1);
        let after = chart.import_first(specs, ids, journal_id, n);
        let spec = specs[n - 1];
        import_first_shows_created(chart, specs, ids, journal_id, n - 1);
        import_first_keeps(chart, specs, ids, journal_id, n - 1);
        if before.chart.nodes.details(spec.code) is None {
            import_first_adds(chart, specs, ids, journal_id, n - 1, spec.code);
            nothing_is_found(chart.nodes, spec.code);
            nothing_is_found(before.chart.nodes, spec.code);
            let last = before.created.len() as int;
            assert forall|k: int| 0 <= k < after.created.len() implies {
                let node = after.chart.nodes.new[base + k];
                let created = #[trigger] after.created[k];
                &&& created.node_id == node.id
                &&& created.account_set_id == node.ledger_account_set_id
                &&& created.parent == node.spec.parent
                &&& created.new_account_set.id == node.ledger_account_set_id
                &&& created.new_account_set.journal_id == journal_id
                &&& created.new_account_set.chart_id == chart.id
                &&& created.new_account_set.code == node.spec.code
                &&& created.new_account_set.name == node.spec.name
                &&& created.new_account_set.normal_balance_type == node.spec.normal_balance_type
                &&& node.chart_id == chart.id
                &&& none_has(chart.nodes, node.spec.code)
                &&& exists|m: int|
                    0 <= m < n && node.spec == #[trigger] specs[m] && node.id == ids[m].node_id
                        && node.ledger_account_set_id == ids[m].account_set_id
            } by {
                if k < last {
                    assert(after.created[k] == before.created[k]);
                    assert(after.chart.nodes.new[base + k] == before.chart.nodes.new[base + k]);
                } else {
                    assert(after.chart.nodes.new[base + k].spec == specs[n - 1]);
                }
            }
            assert forall|k: int, l: int| 0 <= k < l < after.created.len() implies {
                let first = (#[trigger] after.created[k]).new_account_set.code;
                let second = (#[trigger] after.created[l]).new_account_set.code;
                first != second && !code_precedes(first, second)
            } by {
                assert(after.created[k] == before.created[k]);
                if l < last {
                    assert(after.created[l] == before.created[l]);
                } else {
                    let node = before.chart.nodes.new[base + k];
                    assert(node.spec.code == before.created[k].new_account_set.code);
                    assert(node.spec.code != spec.code);
                    let m = choose|m: int|
                        0 <= m < n - 1 && node.spec == #[trigger] specs[m] && node.id
                            == ids[m].node_id && node.ledger_account_set_id
                            == ids[m].account_set_id;
                    assert(!code_precedes(specs[m].code, specs[n - 1].code));
                }
            }
        }
    }
}

/// An import hands an account set to the ledger for each account that it adds,
/// with the account's code, name and side, in the journal and for the chart that
/// were given. It adds accounts as they were given, under identifiers that were
/// given, and none whose code the chart had.
pub proof fn import_hands_over_what_it_adds(
    chart: ChartView,
    specs: Seq<AccountSpecView>,
    ids: Seq<NewNodeIds>,
    journal_id: CalaJournalId,
    k: int,
)
    requires
        ids.len() == specs.len(),
        0 <= k < chart.import_result(specs, ids, journal_id).new_account_sets.len(),
    ensures
        ({
            let result = chart.import_result(specs, ids, journal_id);
            let after = chart.after_import(specs, ids, journal_id);
            let set = result.new_account_sets[k];
            let node = after.nodes.new[chart.nodes.new.len() + k];
            &&& after.nodes.new.len() == chart.nodes.new.len() + result.new_account_sets.len()
            &&& result.new_account_set_ids.len() == result.new_account_sets.len()
            &&& result.new_connections.len() == result.new_account_sets.len()
            &&& result.new_account_set_ids[k] == node.ledger_account_set_id
            &&& result.new_connections[k].1 == node.ledger_account_set_id
            &&& set.id == node.ledger_account_set_id
            &&& set.journal_id == journal_id
            &&& set.chart_id == chart.id
            &&& set.code == node.spec.code
            &&& set.name == node.spec.name
            &&& set.normal_balance_type == node.spec.normal_balance_type
            &&& node.chart_id == chart.id
            &&& none_has(chart.nodes, set.code)
            &&& exists|m: int| 0 <= m < specs.len() && node.spec == #[trigger] specs[m]
            &&& exists|m: int|
                0 <= m < ids.len() && node.id == (#[trigger] ids[m]).node_id
                    && node.ledger_account_set_id == ids[m].account_set_id
        }),
{
    let order = import_order(specs);
    let import = chart.imported(specs, ids, journal_id);
    import_order_keeps_length(specs);
    import_order_is_sorted(specs);
    import_first_shows_created(chart, order, ids, journal_id, specs.len() as int);
    created_entered_keeps(import.chart, import.created);
    let node = import.chart.nodes.new[chart.nodes.new.len() + k];
    assert(import.created[k].node_id == node.id);
    let m = choose|m: int|
        0 <= m < order.len() && node.spec == #[trigger] order[m] && node.id == ids[m].node_id
            && node.ledger_account_set_id == ids[m].account_set_id;
    let x = comes_from_import(specs, m);
    assert(node.spec == specs[x]);
    assert(node.id == ids[m].node_id);
}

/// An import adds every account that was given and that the chart did not have,
/// once for each code, and keeps the nodes that were there. An account comes
/// after those whose codes begin with its own.
pub proof fn import_adds_each_missing_code_once(
    chart: ChartView,
    specs: Seq<AccountSpecView>,
    ids: Seq<NewNodeIds>,
    journal_id: CalaJournalId,
    i: int,
    k: int,
    l: int,
)
    requires
        ids.len() == specs.len(),
    ensures
        ({
            let result = chart.import_result(specs, ids, journal_id);
            let after = chart.after_import(specs, ids, journal_id);
            let sets = result.new_account_sets;
            &&& 0 <= i < specs.len() ==> !none_has(after.nodes, specs[i].code)
            &&& 0 <= i < specs.len() && none_has(chart.nodes, specs[i].code) ==> exists|x: int|
                0 <= x < sets.len() && (#[trigger] sets[x]).code == specs[i].code
            &&& 0 <= k < l < sets.len() ==> sets[k].code != sets[l].code
            &&& 0 <= k < sets.len() && 0 <= l < sets.len() && 0 < sets[k].code.len()
                < sets[l].code.len() && (forall|s: int|
                0 <= s < sets[k].code.len() ==> #[trigger] sets[l].code[s] == sets[k].code[s])
                ==> l < k
            &&& 0 <= k < chart.nodes.new.len() ==> after.nodes.new[k] == chart.nodes.new[k]
            &&& after.nodes.persisted.len() == chart.nodes.persisted.len()
        }),
{
    let order = import_order(specs);
    let import = chart.imported(specs, ids, journal_id);
    let after = chart.after_import(specs, ids, journal_id);
    let sets = chart.import_result(specs, ids, journal_id).new_account_sets;
    import_order_keeps_length(specs);
    import_order_is_sorted(specs);
    import_first_shows_created(chart, order, ids, journal_id, specs.len() as int);
    created_entered_keeps(import.chart, import.created);
    import_changes_nodes_only(chart, specs, ids, journal_id);
    assert(codes(after.nodes.persisted).len() == codes(chart.nodes.persisted).len());
    if 0 <= i < specs.len() {
        let code = specs[i].code;
        import_is_complete(chart, specs, ids, journal_id, i);
        nothing_is_found(after.nodes, code);
        nothing_is_found(chart.nodes, code);
        if none_has(chart.nodes, code) {
            assert(none_stored(chart.nodes, code));
            assert(after.nodes.position(code) == chart.nodes.position(code));
            nothing_is_found(after.nodes, code);
            let j = choose|j: int|
                0 <= j < after.nodes.new.len() && (#[trigger] after.nodes.new[j]).spec.code == code;
            if j < chart.nodes.new.len() {
                assert(after.nodes.new[j] == chart.nodes.new[j]);
            }
            let x = j - chart.nodes.new.len();
            assert(import.created[x].new_account_set.code == code);
            assert(sets[x].code == code);
        }
    }
    if 0 <= k < l < sets.len() {
        assert(import.created[k].new_account_set.code != import.created[l].new_account_set.code);
    }
    if 0 <= k < sets.len() && 0 <= l < sets.len() && 0 < sets[k].code.len() < sets[l].code.len()
        && (forall|s: int|
        0 <= s < sets[k].code.len() ==> #[trigger] sets[l].code[s] == sets[k].code[s]) {
        let a = sets[k].code;
        let b = sets[l].code;
        assert(b.take(a.len() as int) =~= a);
        parent_code_precedes(a, b);
        if k < l {
            assert(import.created[k].new_account_set.code == a);
            assert(import.created[l].new_account_set.code == b);
        }
    }
}

/// Each added account is connected to the account set of its parent: that of
/// the stored account with its parent code, or else that of the new one, or else
/// that of the chart.
pub proof fn import_connects_each_account_to_its_parent(
    chart: ChartView,
    specs: Seq<AccountSpecView>,
    ids: Seq<NewNodeIds>,
    journal_id: CalaJournalId,
    k: int,
    parent: Seq<Seq<char>>,
    i: int,
)
    requires
        ids.len() == specs.len(),
        0 <= k < chart.import_result(specs, ids, journal_id).new_connections.len(),
    ensures
        ({
            let result = chart.import_result(specs, ids, journal_id);
            let after = chart.after_import(specs, ids, journal_id);
            let node = after.nodes.new[chart.nodes.new.len() + k];
            let above = result.new_connections[k].0;
            &&& node.spec.parent is None ==> above == chart.account_set_id
            &&& node.spec.parent == Some(parent) && stored_at(chart.nodes, i, parent) ==> above
                == chart.nodes.persisted[i].account_set_id
            &&& node.spec.parent == Some(parent) && none_stored(chart.nodes, parent) && new_at(
                after.nodes,
                i,
                parent,
            ) ==> above == after.nodes.new[i].ledger_account_set_id
            &&& node.spec.parent == Some(parent) && none_has(after.nodes, parent) ==> above
                == chart.account_set_id
        }),
{
    let order = import_order(specs);
    let import = chart.imported(specs, ids, journal_id);
    let after = chart.after_import(specs, ids, journal_id);
    import_order_keeps_length(specs);
    import_order_is_sorted(specs);
    import_first_shows_created(chart, order, ids, journal_id, specs.len() as int);
    import_first_keeps(chart, order, ids, journal_id, specs.len() as int);
    created_entered_keeps(import.chart, import.created);
    let node = after.nodes.new[chart.nodes.new.len() + k];
    assert(import.created[k].parent == node.spec.parent);
    assert(import.chart.account_set_id == chart.account_set_id);
    if stored_at(chart.nodes, i, parent) {
        assert(stored_at(import.chart.nodes, i, parent));
        stored_is_found(import.chart.nodes, i, parent);
    }
    nothing_is_found(chart.nodes, parent);
    nothing_is_found(after.nodes, parent);
    nothing_is_found(import.chart.nodes, parent);
    assert(after.nodes.details(parent) == import.chart.nodes.details(parent));
    if none_stored(chart.nodes, parent) && new_at(after.nodes, i, parent) {
        assert(none_stored(import.chart.nodes, parent));
        assert(new_at(import.chart.nodes, i, parent));
        let added = new_codes(import.chart.nodes.new);
        assert forall|j: int| 0 <= j < i implies added[j] != parent by {
            assert(added[j] == import.chart.nodes.new[j].spec.code);
        }
        first_index_is(added, parent, i);
    }
}

proof fn entering_leaves_accounts(chart: ChartView, created: Seq<CreatedNodeView>, i: int)
    requires
        0 <= i < chart.nodes.persisted.len(),
    ensures
        ({
            let was = chart.nodes.persisted[i];
            let now = chart.with_created_entered(created).nodes.persisted[i];
            &&& chart.with_created_entered(created).nodes.persisted.len()
                == chart.nodes.persisted.len()
            &&& now.id == was.id
            &&& now.chart_id == was.chart_id
            &&& now.spec == was.spec
            &&& now.account_set_id == was.account_set_id
            &&& now.manual_transaction_account_id == was.manual_transaction_account_id
            &&& now.children.len() >= was.children.len()
            &&& now.children.take(was.children.len() as int) == was.children
            &&& forall|c: int|
                was.children.len() <= c < now.children.len() ==> exists|k: int|
                    0 <= k < created.len() && (#[trigger] created[k]).node_id
                        == #[trigger] now.children[c] && created[k].parent == Some(was.spec.code)
        }),
    decreases created.len(),
{
    let was = chart.nodes.persisted[i];
    if created.len() == 0 {
        assert(was.children.take(was.children.len() as int) =~= was.children);
    } else {
        let earlier = created.drop_last();
        let before = chart.with_created_entered(earlier);
        let after = chart.with_created_entered(created);
        let child = created.last().node_id;
        entering_leaves_accounts(chart, earlier, i);
        let then = before.nodes.persisted[i];
        let now = after.nodes.persisted[i];
        if let Some(code) = created.last().parent {
            codes(before.nodes.persisted).index_of_first_ensures(code);
            if let Some(at) = before.nodes.position(code) {
                assert(codes(before.nodes.persisted)[at] == before.nodes.persisted[at].spec.code);
            }
        }
        assert(now == then || (now == then.with_child(child) && created.last().parent == Some(
            was.spec.code,
        )));
        assert(now.children.take(was.children.len() as int) =~= was.children) by {
            assert(then.children.take(was.children.len() as int) == was.children);
            if now.children != then.children {
                assert(now.children.take(was.children.len() as int) =~= then.children.take(
                    was.children.len() as int,
                ));
            }
        }
        assert forall|c: int| was.children.len() <= c < now.children.len() implies exists|k: int|
            0 <= k < created.len() && (#[trigger] created[k]).node_id
                == #[trigger] now.children[c] && created[k].parent == Some(was.spec.code) by {
            if c < then.children.len() {
                assert(now.children[c] == then.children[c]);
                let k = choose|k: int|
                    0 <= k < earlier.len() && (#[trigger] earlier[k]).node_id == then.children[c]
                        && earlier[k].parent == Some(was.spec.code);
                assert(created[k] == earlier[k]);
            } else {
                assert(now.children[c] == child);
                assert(created[created.len() - 1] == created.last());
            }
        }
    }
}

/// An import leaves stored accounts as they are, but for children: to those that
/// a node has, new nodes are added whose parent code is the node's code.
pub proof fn import_leaves_stored_accounts(
    chart: ChartView,
    specs: Seq<AccountSpecView>,
    ids: Seq<NewNodeIds>,
    journal_id: CalaJournalId,
    i: int,
    c: int,
)
    requires
        ids.len() == specs.len(),
        0 <= i < chart.nodes.persisted.len(),
    ensures
        ({
            let after = chart.after_import(specs, ids, journal_id);
            let was = chart.nodes.persisted[i];
            let now = after.nodes.persisted[i];
            &&& now.id == was.id
            &&& now.chart_id == was.chart_id
            &&& now.spec == was.spec
            &&& now.account_set_id == was.account_set_id
            &&& now.manual_transaction_account_id == was.manual_transaction_account_id
            &&& now.children.len() >= was.children.len()
            &&& now.children.take(was.children.len() as int) == was.children
            &&& was.children.len() <= c < now.children.len() ==> exists|j: int|
                chart.nodes.new.len() <= j < after.nodes.new.len() && (
                #[trigger] after.nodes.new[j]).id == now.children[c]
                    && after.nodes.new[j].spec.parent == Some(was.spec.code)
            &&& after.events == chart.events
            &&& after.base_config == chart.base_config
            &&& after.id == chart.id
            &&& after.account_set_id == chart.account_set_id
            &&& after.name == chart.name
            &&& after.reference == chart.reference
        }),
{
    let order = import_order(specs);
    let import = chart.imported(specs, ids, journal_id);
    let after = chart.after_import(specs, ids, journal_id);
    import_order_keeps_length(specs);
    import_order_is_sorted(specs);
    import_first_shows_created(chart, order, ids, journal_id, specs.len() as int);
    import_first_keeps(chart, order, ids, journal_id, specs.len() as int);
    created_entered_keeps(import.chart, import.created);
    import_changes_nodes_only(chart, specs, ids, journal_id);
    entering_leaves_accounts(import.chart, import.created, i);
    let was = chart.nodes.persisted[i];
    let now = after.nodes.persisted[i];
    if was.children.len() <= c < now.children.len() {
        let k = choose|k: int|
            0 <= k < import.created.len() && (#[trigger] import.created[k]).node_id
                == now.children[c] && import.created[k].parent == Some(was.spec.code);
        assert(after.nodes.new[chart.nodes.new.len() + k].id == now.children[c]);
    }
}

/// What comes out of an import is the new chart and what is handed to the
/// ledger, as they are.
pub proof fn importing_answers_what_it_did(
    before: ChartView,
    specs: Seq<AccountSpecView>,
    journal_id: CalaJournalId,
    ids: Seq<NewNodeIds>,
    after: ChartView,
    res: BulkImportResult,
)
    requires
        imports(before, specs, journal_id, ids, after, res),
    ensures
        after == before.after_import(specs, ids, journal_id),
        views(res.new_account_sets@) == before.import_result(
            specs,
            ids,
            journal_id,
        ).new_account_sets,
        res.new_account_set_ids@ == before.import_result(
            specs,
            ids,
            journal_id,
        ).new_account_set_ids,
        res.new_connections@ == before.import_result(specs, ids, journal_id).new_connections,
{
}

/// Accounts with one code keep their order in import order.
proof fn order_keeps_accounts_of_a_code(specs: Seq<AccountSpecView>, code: Seq<Seq<char>>)
    ensures
        import_order(specs).filter(|spec: AccountSpecView| spec.code == code) == specs.filter(
            |spec: AccountSpecView| spec.code == code,
        ),
    decreases specs.len(),
{
    reveal(Seq::filter);
    let has = |spec: AccountSpecView| spec.code == code;
    if specs.len() == 0 {
        assert(import_order(specs).filter(has) =~= specs.filter(has));
    } else {
        order_keeps_accounts_of_a_code(specs.drop_last(), code);
        inserted_keeps_accounts_of_a_code(import_order(specs.drop_last()), specs.last(), code);
    }
}

proof fn inserted_keeps_accounts_of_a_code(
    sorted: Seq<AccountSpecView>,
    spec: AccountSpecView,
    code: Seq<Seq<char>>,
)
    ensures
        ({
            let has = |spec: AccountSpecView| spec.code == code;
            inserted(sorted, spec).filter(has) == if has(spec) {
                sorted.filter(has).push(spec)
            } else {
                sorted.filter(has)
            }
        }),
    decreases sorted.len(),
{
    reveal(Seq::filter);
    let has = |spec: AccountSpecView| spec.code == code;
    if sorted.len() > 0 && code_precedes(sorted.last().code, spec.code) {
        let head = sorted.drop_last();
        inserted_keeps_accounts_of_a_code(head, spec, code);
        code_order_is_total(spec.code, spec.code, spec.code);
        let res = inserted(sorted, spec);
        assert(res.drop_last() =~= inserted(head, spec));
        assert(res.last() == sorted.last());
    } else {
        let res = inserted(sorted, spec);
        assert(res.drop_last() =~= sorted);
        assert(res.last() == spec);
    }
}

/// The first of some accounts with a code comes first among those with it.
proof fn first_comes_first(specs: Seq<AccountSpecView>, code: Seq<Seq<char>>, i: int)
    requires
        0 <= i < specs.len(),
        specs[i].code == code,
        forall|j: int| 0 <= j < i ==> (#[trigger] specs[j]).code != code,
    ensures
        specs.filter(|spec: AccountSpecView| spec.code == code).len() > 0,
        specs.filter(|spec: AccountSpecView| spec.code == code)[0] == specs[i],
    decreases specs.len(),
{
    reveal(Seq::filter);
    let has = |spec: AccountSpecView| spec.code == code;
    let head = specs.drop_last();
    if i < head.len() {
        assert(forall|j: int| 0 <= j < head.len() ==> #[trigger] head[j] == specs[j]);
        first_comes_first(head, code, i);
    } else {
        none_is_kept(head, code);
    }
}

proof fn none_is_kept(specs: Seq<AccountSpecView>, code: Seq<Seq<char>>)
    requires
        forall|j: int| 0 <= j < specs.len() ==> (#[trigger] specs[j]).code != code,
    ensures
        specs.filter(|spec: AccountSpecView| spec.code == code).len() == 0,
    decreases specs.len(),
{
    reveal(Seq::filter);
    if specs.len() > 0 {
        let head = specs.drop_last();
        assert(forall|j: int| 0 <= j < head.len() ==> #[trigger] head[j] == specs[j]);
        none_is_kept(head, code);
        assert(specs[specs.len() - 1] == specs.last());
    }
}

/// Of several accounts with one code the first that was given is the one that
/// is imported.
pub proof fn first_given_account_counts(
    chart: ChartView,
    specs: Seq<AccountSpecView>,
    ids: Seq<NewNodeIds>,
    journal_id: CalaJournalId,
    i: int,
)
    requires
        ids.len() == specs.len(),
        0 <= i < specs.len(),
        forall|j: int| 0 <= j < i ==> (#[trigger] specs[j]).code != specs[i].code,
        none_has(chart.nodes, specs[i].code),
    ensures
        ({
            let after = chart.after_import(specs, ids, journal_id);
            &&& after.nodes.details(specs[i].code) matches Some(details)
            &&& details.spec == specs[i]
            &&& has_account(after.nodes, specs[i].code, details.account_set_id, specs[i])
        }),
{
    let order = import_order(specs);
    let code = specs[i].code;
    let all = order.map_values(|spec: AccountSpecView| spec.code);
    let after = chart.after_import(specs, ids, journal_id);
    nothing_is_found(chart.nodes, code);
    import_is_complete(chart, specs, ids, journal_id, i);
    import_adds_missing_accounts(chart, specs, ids, journal_id, code);
    all.index_of_first_ensures(code);
    let k = first_position(order, code)->0;
    assert(order[k].code == code);
    assert forall|j: int| 0 <= j < k implies (#[trigger] order[j]).code != code by {
        assert(all[j] == order[j].code);
    }
    first_comes_first(order, code, k);
    first_comes_first(specs, code, i);
    order_keeps_accounts_of_a_code(specs, code);
    known_is_what_the_node_says(after.nodes, code);
}

} // verus!
