//! Plain facts about the nodes of a chart, read off its two lists.
use vstd::prelude::*;

use super::laws::first_index_is;
use super::model::ChartView;
use super::nodes::{codes, new_codes, ChartNodeDetailsView, ChartNodesView};
use crate::primitives::account::AccountSpecView;
use crate::primitives::ids::CalaAccountSetId;

verus! {

/// The stored node at `i` has the code, and none before it does.
pub open spec fn stored_at(nodes: ChartNodesView, i: int, code: Seq<Seq<char>>) -> bool {
    &&& 0 <= i < nodes.persisted.len()
    &&& nodes.persisted[i].spec.code == code
    &&& forall|j: int| 0 <= j < i ==> (#[trigger] nodes.persisted[j]).spec.code != code
}

/// The new node at `i` has the code, and none before it does.
pub open spec fn new_at(nodes: ChartNodesView, i: int, code: Seq<Seq<char>>) -> bool {
    &&& 0 <= i < nodes.new.len()
    &&& nodes.new[i].spec.code == code
    &&& forall|j: int| 0 <= j < i ==> (#[trigger] nodes.new[j]).spec.code != code
}

/// No stored node has the code.
pub open spec fn none_stored(nodes: ChartNodesView, code: Seq<Seq<char>>) -> bool {
    forall|j: int|
        0 <= j < nodes.persisted.len() ==> (#[trigger] nodes.persisted[j]).spec.code != code
}

/// No node has the code.
pub open spec fn none_has(nodes: ChartNodesView, code: Seq<Seq<char>>) -> bool {
    &&& none_stored(nodes, code)
    &&& forall|j: int| 0 <= j < nodes.new.len() ==> (#[trigger] nodes.new[j]).spec.code != code
}

/// The node with the code has the account set and stands for the account.
/// Stored nodes come before new ones.
pub open spec fn has_account(
    nodes: ChartNodesView,
    code: Seq<Seq<char>>,
    account_set_id: CalaAccountSetId,
    spec: AccountSpecView,
) -> bool {
    ||| exists|i: int| #[trigger]
        stored_at(nodes, i, code) && nodes.persisted[i].account_set_id == account_set_id
            && nodes.persisted[i].spec == spec
    ||| none_stored(nodes, code) && exists|i: int| #[trigger]
        new_at(nodes, i, code) && nodes.new[i].ledger_account_set_id == account_set_id
            && nodes.new[i].spec == spec
}

/// The node with the code has the account set.
pub open spec fn has_set(
    nodes: ChartNodesView,
    code: Seq<Seq<char>>,
    account_set_id: CalaAccountSetId,
) -> bool {
    ||| exists|i: int| #[trigger]
        stored_at(nodes, i, code) && nodes.persisted[i].account_set_id == account_set_id
    ||| none_stored(nodes, code) && exists|i: int| #[trigger]
        new_at(nodes, i, code) && nodes.new[i].ledger_account_set_id == account_set_id
}

/// The node with the code has no parent code.
pub open spec fn is_at_top(nodes: ChartNodesView, code: Seq<Seq<char>>) -> bool {
    ||| exists|i: int| #[trigger]
        stored_at(nodes, i, code) && nodes.persisted[i].spec.parent is None
    ||| none_stored(nodes, code) && exists|i: int| #[trigger]
        new_at(nodes, i, code) && nodes.new[i].spec.parent is None
}

/// A stored node is found where it stands.
pub proof fn stored_is_found(nodes: ChartNodesView, i: int, code: Seq<Seq<char>>)
    requires
        stored_at(nodes, i, code),
    ensures
        nodes.position(code) == Some(i),
        nodes.details(code) == Some(
            ChartNodeDetailsView {
                account_set_id: nodes.persisted[i].account_set_id,
                spec: nodes.persisted[i].spec,
            },
        ),
{
    let all = codes(nodes.persisted);
    assert forall|j: int| 0 <= j < i implies all[j] != code by {
        assert(all[j] == nodes.persisted[j].spec.code);
    }
    first_index_is(all, code, i);
}

/// A new node is found where it stands, if no stored one has its code.
pub proof fn new_is_found(nodes: ChartNodesView, i: int, code: Seq<Seq<char>>)
    requires
        none_stored(nodes, code),
        new_at(nodes, i, code),
    ensures
        nodes.position(code) is None,
        nodes.details(code) == Some(
            ChartNodeDetailsView {
                account_set_id: nodes.new[i].ledger_account_set_id,
                spec: nodes.new[i].spec,
            },
        ),
{
    nothing_is_found(nodes, code);
    let added = new_codes(nodes.new);
    assert forall|j: int| 0 <= j < i implies added[j] != code by {
        assert(added[j] == nodes.new[j].spec.code);
    }
    first_index_is(added, code, i);
}

/// A code that no node has is not found.
pub proof fn nothing_is_found(nodes: ChartNodesView, code: Seq<Seq<char>>)
    ensures
        none_stored(nodes, code) <==> nodes.position(code) is None,
        none_has(nodes, code) <==> nodes.details(code) is None,
{
    let all = codes(nodes.persisted);
    let added = new_codes(nodes.new);
    all.index_of_first_ensures(code);
    added.index_of_first_ensures(code);
    if none_stored(nodes, code) && all.contains(code) {
        let j = all.index_of(code);
        assert(nodes.persisted[j].spec.code == code);
    }
    if nodes.position(code) is None {
        assert forall|j: int| 0 <= j < nodes.persisted.len() implies (
        #[trigger] nodes.persisted[j]).spec.code != code by {
            assert(all[j] == nodes.persisted[j].spec.code);
        }
    }
    if none_has(nodes, code) && added.contains(code) {
        let j = added.index_of(code);
        assert(nodes.new[j].spec.code == code);
    }
    if nodes.details(code) is None {
        assert forall|j: int| 0 <= j < nodes.new.len() implies (
        #[trigger] nodes.new[j]).spec.code != code by {
            assert(added[j] == nodes.new[j].spec.code);
        }
    }
}

/// What is known of a code is what the node with the code says.
pub proof fn known_is_what_the_node_says(nodes: ChartNodesView, code: Seq<Seq<char>>)
    ensures
        nodes.details(code) matches Some(details) ==> has_account(
            nodes,
            code,
            details.account_set_id,
            details.spec,
        ) && details.spec.code == code,
        nodes.details(code) is None <==> none_has(nodes, code),
{
    nothing_is_found(nodes, code);
    let all = codes(nodes.persisted);
    let added = new_codes(nodes.new);
    all.index_of_first_ensures(code);
    added.index_of_first_ensures(code);
    if let Some(i) = nodes.position(code) {
        assert forall|j: int| 0 <= j < i implies (#[trigger] nodes.persisted[j]).spec.code
            != code by {
            assert(all[j] == nodes.persisted[j].spec.code);
        }
        assert(stored_at(nodes, i, code));
    } else if let Some(i) = added.index_of_first(code) {
        assert forall|j: int| 0 <= j < i implies (#[trigger] nodes.new[j]).spec.code != code by {
            assert(added[j] == nodes.new[j].spec.code);
        }
        assert(new_at(nodes, i, code));
    }
}

/// The account of a code is one.
proof fn first_is_one(nodes: ChartNodesView, i: int, j: int, code: Seq<Seq<char>>)
    ensures
        stored_at(nodes, i, code) && stored_at(nodes, j, code) ==> i == j,
        new_at(nodes, i, code) && new_at(nodes, j, code) ==> i == j,
        stored_at(nodes, i, code) ==> !none_stored(nodes, code),
{
    if stored_at(nodes, i, code) {
        assert(nodes.persisted[i].spec.code == code);
        if stored_at(nodes, j, code) {
            assert(nodes.persisted[j].spec.code == code);
        }
    }
    if new_at(nodes, i, code) && new_at(nodes, j, code) {
        assert(nodes.new[i].spec.code == code);
        assert(nodes.new[j].spec.code == code);
    }
}

/// The account set that the chart gives for a code is that of the node with
/// the code.
pub proof fn account_set_is_the_nodes(chart: ChartView, code: Seq<Seq<char>>, id: CalaAccountSetId)
    ensures
        chart.account_set(code) == Some(id) <==> has_set(chart.nodes, code, id),
        chart.account_set(code) is None <==> none_has(chart.nodes, code),
{
    let nodes = chart.nodes;
    known_is_what_the_node_says(nodes, code);
    if let Some(details) = nodes.details(code) {
        if none_stored(nodes, code) {
            let i = choose|i: int| #[trigger]
                new_at(nodes, i, code) && nodes.new[i].ledger_account_set_id
                    == details.account_set_id && nodes.new[i].spec == details.spec;
            if has_set(nodes, code, id) {
                assert forall|k: int| !(#[trigger] stored_at(nodes, k, code)) by {
                    first_is_one(nodes, k, k, code);
                }
                let j = choose|j: int| #[trigger]
                    new_at(nodes, j, code) && nodes.new[j].ledger_account_set_id == id;
                first_is_one(nodes, i, j, code);
            }
        } else {
            let i = choose|i: int| #[trigger]
                stored_at(nodes, i, code) && nodes.persisted[i].account_set_id
                    == details.account_set_id && nodes.persisted[i].spec == details.spec;
            if has_set(nodes, code, id) {
                let j = choose|j: int| #[trigger]
                    stored_at(nodes, j, code) && nodes.persisted[j].account_set_id == id;
                first_is_one(nodes, i, j, code);
            }
        }
    } else if has_set(nodes, code, id) {
        if exists|i: int| #[trigger] stored_at(nodes, i, code) && nodes.persisted[i].account_set_id
            == id {
            let i = choose|i: int| #[trigger]
                stored_at(nodes, i, code) && nodes.persisted[i].account_set_id == id;
            first_is_one(nodes, i, i, code);
        } else {
            let i = choose|i: int| #[trigger]
                new_at(nodes, i, code) && nodes.new[i].ledger_account_set_id == id;
            assert(nodes.new[i].spec.code == code);
        }
    }
}

/// An account is at the top of the chart if the node with its code has no
/// parent code.
pub proof fn top_is_what_the_node_says(chart: ChartView, code: Seq<Seq<char>>)
    ensures
        is_at_top(chart.nodes, code) <==> (chart.nodes.details(code) matches Some(details)
            && details.spec.parent is None),
{
    let nodes = chart.nodes;
    known_is_what_the_node_says(nodes, code);
    if let Some(details) = nodes.details(code) {
        if none_stored(nodes, code) {
            let i = choose|i: int| #[trigger]
                new_at(nodes, i, code) && nodes.new[i].ledger_account_set_id
                    == details.account_set_id && nodes.new[i].spec == details.spec;
            if is_at_top(nodes, code) {
                assert forall|k: int| !(#[trigger] stored_at(nodes, k, code)) by {
                    first_is_one(nodes, k, k, code);
                }
                let j = choose|j: int| #[trigger]
                    new_at(nodes, j, code) && nodes.new[j].spec.parent is None;
                first_is_one(nodes, i, j, code);
            }
        } else {
            let i = choose|i: int| #[trigger]
                stored_at(nodes, i, code) && nodes.persisted[i].account_set_id
                    == details.account_set_id && nodes.persisted[i].spec == details.spec;
            if is_at_top(nodes, code) {
                let j = choose|j: int| #[trigger]
                    stored_at(nodes, j, code) && nodes.persisted[j].spec.parent is None;
                first_is_one(nodes, i, j, code);
            }
        }
    } else if is_at_top(nodes, code) {
        if exists|i: int| #[trigger] stored_at(nodes, i, code) && nodes.persisted[i].spec.parent
            is None {
            let i = choose|i: int| #[trigger]
                stored_at(nodes, i, code) && nodes.persisted[i].spec.parent is None;
            first_is_one(nodes, i, i, code);
        } else {
            let i = choose|i: int| #[trigger]
                new_at(nodes, i, code) && nodes.new[i].spec.parent is None;
            assert(nodes.new[i].spec.code == code);
        }
    }
}

} // verus!
