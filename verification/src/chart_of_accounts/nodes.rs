//! The nodes that a chart holds.
use vstd::prelude::*;

use super::chart_node::{ChartNode, ChartNodeView, NewAccount, NewChartNode, NewChartNodeView};
use super::entity::{ManualAccountFromChart, ManualAccountFromChartView};
use super::error::{ChartOfAccountsError, ChartOfAccountsErrorView};
use crate::idempotent::Idempotent;
use crate::primitives::account::{option_view, views, AccountSpec, AccountSpecView};
use crate::primitives::account_code::{dotted, AccountCode};
use crate::primitives::ids::{CalaAccountSetId, ChartNodeId, LedgerAccountId};

verus! {

/// What the chart says of one of its accounts.
#[derive(Debug)]
pub struct ChartNodeDetails {
    pub account_set_id: CalaAccountSetId,
    pub spec: AccountSpec,
}

/// The value of `ChartNodeDetails`.
#[verifier::ext_equal]
pub struct ChartNodeDetailsView {
    pub account_set_id: CalaAccountSetId,
    pub spec: AccountSpecView,
}

impl View for ChartNodeDetails {
    type V = ChartNodeDetailsView;

    open spec fn view(&self) -> ChartNodeDetailsView {
        ChartNodeDetailsView { account_set_id: self.account_set_id, spec: self.spec@ }
    }
}

impl ChartNodeView {
    pub open spec fn details(self) -> ChartNodeDetailsView {
        ChartNodeDetailsView { account_set_id: self.account_set_id, spec: self.spec }
    }
}

impl NewChartNodeView {
    pub open spec fn details(self) -> ChartNodeDetailsView {
        ChartNodeDetailsView { account_set_id: self.ledger_account_set_id, spec: self.spec }
    }
}

impl ChartNodeDetails {
    /// The details of a stored node.
    pub fn of_node(node: &ChartNode) -> (res: Self)
        ensures
            res@ == node@.details(),
    {
        ChartNodeDetails { account_set_id: node.account_set_id, spec: node.spec.clone() }
    }

    /// The details of a node that is not stored yet.
    pub fn of_new_node(node: &NewChartNode) -> (res: Self)
        ensures
            res@ == node@.details(),
    {
        ChartNodeDetails { account_set_id: node.ledger_account_set_id, spec: node.spec.clone() }
    }
}

/// The codes of stored nodes.
pub open spec fn codes(nodes: Seq<ChartNodeView>) -> Seq<Seq<Seq<char>>> {
    nodes.map_values(|node: ChartNodeView| node.spec.code)
}

/// The codes of new nodes.
pub open spec fn new_codes(nodes: Seq<NewChartNodeView>) -> Seq<Seq<Seq<char>>> {
    nodes.map_values(|node: NewChartNodeView| node.spec.code)
}

/// The identifiers of stored nodes.
pub open spec fn node_ids(nodes: Seq<ChartNodeView>) -> Seq<ChartNodeId> {
    nodes.map_values(|node: ChartNodeView| node.id)
}

/// The accounts for manual transactions of stored nodes.
pub open spec fn manual_accounts(nodes: Seq<ChartNodeView>) -> Seq<Option<LedgerAccountId>> {
    nodes.map_values(|node: ChartNodeView| node.manual_transaction_account_id)
}

/// A stored node takes the place of the one with its identifier, or comes last.
pub open spec fn with_loaded(nodes: Seq<ChartNodeView>, node: ChartNodeView) -> Seq<ChartNodeView> {
    match node_ids(nodes).index_of_first(node.id) {
        Some(i) => nodes.update(i, node),
        None => nodes.push(node),
    }
}

/// Loads a list of stored nodes, one after the other.
pub open spec fn with_all_loaded(
    nodes: Seq<ChartNodeView>,
    loaded: Seq<ChartNodeView>,
) -> Seq<ChartNodeView>
    decreases loaded.len(),
{
    if loaded.len() == 0 {
        nodes
    } else {
        with_loaded(with_all_loaded(nodes, loaded.drop_last()), loaded.last())
    }
}

/// The value of `ChartNodes`.
#[verifier::ext_equal]
pub struct ChartNodesView {
    pub persisted: Seq<ChartNodeView>,
    pub new: Seq<NewChartNodeView>,
}

impl ChartNodesView {
    /// Where the stored node with a code stands.
    pub open spec fn position(self, code: Seq<Seq<char>>) -> Option<int> {
        codes(self.persisted).index_of_first(code)
    }

    /// What is known of the account with a code. Stored nodes come first.
    pub open spec fn details(self, code: Seq<Seq<char>>) -> Option<ChartNodeDetailsView> {
        match self.position(code) {
            Some(i) => Some(self.persisted[i].details()),
            None => match new_codes(self.new).index_of_first(code) {
                Some(i) => Some(self.new[i].details()),
                None => None,
            },
        }
    }

    /// Some node has the code.
    pub open spec fn has_code(self, code: Seq<Seq<char>>) -> bool {
        codes(self.persisted).contains(code) || new_codes(self.new).contains(code)
    }

    /// No two nodes have the same code.
    pub open spec fn codes_are_unique(self) -> bool {
        (codes(self.persisted) + new_codes(self.new)).no_duplicates()
    }

    /// The new nodes have become stored ones.
    pub open spec fn all_stored(self) -> ChartNodesView {
        ChartNodesView {
            persisted: with_all_loaded(
                self.persisted,
                self.new.map_values(|node: NewChartNodeView| node.stored()),
            ),
            new: Seq::empty(),
        }
    }

    /// With one more new node.
    pub open spec fn with_new(self, node: NewChartNodeView) -> ChartNodesView {
        ChartNodesView { new: self.new.push(node), ..self }
    }

    /// With one stored node exchanged.
    pub open spec fn with_persisted(self, i: int, node: ChartNodeView) -> ChartNodesView {
        ChartNodesView { persisted: self.persisted.update(i, node), ..self }
    }
}

/// The nodes of a chart: those that are stored, each under its own
/// identifier, and those that were added since.
#[derive(Debug)]
pub struct ChartNodes {
    pub(crate) persisted: Vec<ChartNode>,
    pub(crate) new: Vec<NewChartNode>,
}

impl View for ChartNodes {
    type V = ChartNodesView;

    closed spec fn view(&self) -> ChartNodesView {
        ChartNodesView { persisted: views(self.persisted@), new: views(self.new@) }
    }
}

impl ChartNodes {
    /// No nodes.
    pub fn empty() -> (res: Self)
        ensures
            res@ == (ChartNodesView { persisted: Seq::empty(), new: Seq::empty() }),
    {
        let res: ChartNodes = ChartNodes { persisted: Vec::new(), new: Vec::new() };
        assert(res@.persisted =~= Seq::empty());
        assert(res@.new =~= Seq::empty());
        res
    }

    /// The stored nodes.
    pub fn iter_persisted(&self) -> (res: &Vec<ChartNode>)
        ensures
            views(res@) == self@.persisted,
    {
        &self.persisted
    }

    /// The nodes that are not stored yet.
    pub fn iter_new(&self) -> (res: &Vec<NewChartNode>)
        ensures
            views(res@) == self@.new,
    {
        &self.new
    }

    /// Where the stored node with a code stands.
    pub fn find_persisted(&self, code: &AccountCode) -> (res: Option<usize>)
        ensures
            match res {
                Some(i) => i < self@.persisted.len() && self@.position(code@) == Some(i as int),
                None => self@.position(code@) is None,
            },
    {
        let ghost all = codes(self@.persisted);
        let mut i: usize = 0;
        while i < self.persisted.len()
            invariant
                i <= self.persisted.len(),
                all == codes(self@.persisted),
                forall|j: int| 0 <= j < i ==> all[j] != code@,
            decreases self.persisted.len() - i,
        {
            if self.persisted[i].spec.code.same(code) {
                proof {
                    assert(all[i as int] == code@);
                    all.index_of_first_ensures(code@);
                }
                return Some(i);
            }
            i = i + 1;
        }
        proof {
            all.index_of_first_ensures(code@);
        }
        None
    }

    /// Where the stored node with an account for manual transactions stands.
    pub fn find_manual_account(&self, id: LedgerAccountId) -> (res: Option<usize>)
        ensures
            match res {
                Some(i) => i < self@.persisted.len() && manual_accounts(
                    self@.persisted,
                ).index_of_first(Some(id)) == Some(i as int),
                None => manual_accounts(self@.persisted).index_of_first(Some(id)) is None,
            },
    {
        let ghost all = manual_accounts(self@.persisted);
        let mut i: usize = 0;
        while i < self.persisted.len()
            invariant
                i <= self.persisted.len(),
                all == manual_accounts(self@.persisted),
                forall|j: int| 0 <= j < i ==> all[j] != Some(id),
            decreases self.persisted.len() - i,
        {
            let found: bool = match self.persisted[i].manual_transaction_account_id {
                Some(other) => other == id,
                None => false,
            };
            assert(found == (all[i as int] == Some(id)));
            if found {
                proof {
                    all.index_of_first_ensures(Some(id));
                }
                return Some(i);
            }
            i = i + 1;
        }
        proof {
            all.index_of_first_ensures(Some(id));
        }
        None
    }

    /// Where the stored node with an identifier stands.
    pub fn get_persisted(&self, id: ChartNodeId) -> (res: Option<usize>)
        ensures
            match res {
                Some(i) => i < self@.persisted.len() && node_ids(self@.persisted).index_of_first(id)
                    == Some(i as int),
                None => node_ids(self@.persisted).index_of_first(id) is None,
            },
    {
        let ghost all = node_ids(self@.persisted);
        let mut i: usize = 0;
        while i < self.persisted.len()
            invariant
                i <= self.persisted.len(),
                all == node_ids(self@.persisted),
                forall|j: int| 0 <= j < i ==> all[j] != id,
            decreases self.persisted.len() - i,
        {
            assert(all[i as int] == self.persisted@[i as int].id);
            if self.persisted[i].id == id {
                proof {
                    all.index_of_first_ensures(id);
                }
                return Some(i);
            }
            i = i + 1;
        }
        proof {
            all.index_of_first_ensures(id);
        }
        None
    }

    fn find_new(&self, code: &AccountCode) -> (res: Option<usize>)
        ensures
            match res {
                Some(i) => i < self@.new.len() && new_codes(self@.new).index_of_first(code@)
                    == Some(i as int),
                None => new_codes(self@.new).index_of_first(code@) is None,
            },
    {
        let ghost all = new_codes(self@.new);
        let mut i: usize = 0;
        while i < self.new.len()
            invariant
                i <= self.new.len(),
                all == new_codes(self@.new),
                forall|j: int| 0 <= j < i ==> all[j] != code@,
            decreases self.new.len() - i,
        {
            if self.new[i].spec.code.same(code) {
                proof {
                    assert(all[i as int] == code@);
                    all.index_of_first_ensures(code@);
                }
                return Some(i);
            }
            i = i + 1;
        }
        proof {
            all.index_of_first_ensures(code@);
        }
        None
    }

    /// What is known of the account with a code. Stored nodes come first.
    pub fn details(&self, code: &AccountCode) -> (res: Option<ChartNodeDetails>)
        ensures
            option_view(res) == self@.details(code@),
    {
        if let Some(i) = self.find_persisted(code) {
            return Some(ChartNodeDetails::of_node(&self.persisted[i]));
        }
        match self.find_new(code) {
            Some(i) => Some(ChartNodeDetails::of_new_node(&self.new[i])),
            None => None,
        }
    }

    /// Enters a child at a stored node, and gives that node's account set.
    pub(crate) fn add_child_at(&mut self, i: usize, child: ChartNodeId) -> (res: CalaAccountSetId)
        requires
            i < old(self)@.persisted.len(),
        ensures
            final(self)@ == old(self)@.with_persisted(
                i as int,
                old(self)@.persisted[i as int].with_child(child),
            ),
            res == old(self)@.persisted[i as int].account_set_id,
    {
        let ghost before = self.persisted@;
        let node: &mut ChartNode = &mut self.persisted[i];
        let _ = node.add_child_node(child);
        let account_set_id: CalaAccountSetId = node.account_set_id;
        assert(views(self.persisted@) =~= views(before).update(
            i as int,
            before[i as int]@.with_child(child),
        ));
        account_set_id
    }

    /// Assigns an account for manual transactions at a stored node.
    pub(crate) fn assign_manual_account_at(&mut self, i: usize, new_id: LedgerAccountId) -> (res:
        Result<ManualAccountFromChart, ChartOfAccountsError>)
        requires
            i < old(self)@.persisted.len(),
        ensures
            ({
                let node = old(self)@.persisted[i as int];
                if !node.can_have_manual_transactions() {
                    &&& final(self)@ == old(self)@
                    &&& res matches Err(e)
                    &&& e@ == ChartOfAccountsErrorView::NonLeafAccount(dotted(node.spec.code))
                } else if node.manual_transaction_account_id is Some {
                    &&& final(self)@ == old(self)@
                    &&& res matches Ok(found)
                    &&& found@ == ManualAccountFromChartView::IdInChart(
                        node.manual_transaction_account_id->0,
                    )
                } else {
                    &&& final(self)@ == old(self)@.with_persisted(
                        i as int,
                        node.with_manual_account(new_id),
                    )
                    &&& res matches Ok(found)
                    &&& found@ == ManualAccountFromChartView::NewAccount(
                        node.account_set_id,
                        node.new_manual_account(new_id),
                    )
                }
            }),
    {
        let ghost before = self.persisted@;
        let node: &mut ChartNode = &mut self.persisted[i];
        let account_set_id: CalaAccountSetId = node.account_set_id;
        let assigned: Option<LedgerAccountId> = node.manual_transaction_account_id;
        let outcome: Result<Idempotent<NewAccount>, ChartOfAccountsError> =
            node.assign_manual_transaction_account(new_id);
        assert(views(self.persisted@) =~= views(before).update(
            i as int,
            self.persisted@[i as int]@,
        ));
        assert(views(before).update(i as int, before[i as int]@) =~= views(before));
        match outcome {
            Err(e) => Err(e),
            Ok(Idempotent::Executed(new_account)) => Ok(
                ManualAccountFromChart::NewAccount((account_set_id, new_account)),
            ),
            Ok(Idempotent::AlreadyApplied) => match assigned {
                Some(id) => Ok(ManualAccountFromChart::IdInChart(id)),
                None => vstd::pervasive::unreached(),
            },
        }
    }

    /// Adds a new node.
    pub fn add_new(&mut self, node: NewChartNode)
        ensures
            final(self)@ == old(self)@.with_new(node@),
    {
        self.new.push(node);
        assert(views(self.new@) =~= views(old(self).new@).push(node@));
    }

    /// Puts a stored node in the place of the one with its identifier, or last.
    pub fn load_one(&mut self, node: ChartNode)
        ensures
            final(self)@ == (ChartNodesView {
                persisted: with_loaded(old(self)@.persisted, node@),
                ..old(self)@
            }),
    {
        match self.get_persisted(node.id) {
            Some(i) => {
                self.persisted.set(i, node);
                assert(views(self.persisted@) =~= views(old(self).persisted@).update(
                    i as int,
                    node@,
                ));
            },
            None => {
                self.persisted.push(node);
                assert(views(self.persisted@) =~= views(old(self).persisted@).push(node@));
            },
        }
    }

    /// Loads stored nodes, one after the other.
    pub fn load(&mut self, nodes: Vec<ChartNode>)
        ensures
            final(self)@ == (ChartNodesView {
                persisted: with_all_loaded(old(self)@.persisted, views(nodes@)),
                ..old(self)@
            }),
    {
        let ghost before = self@;
        let ghost all = views(nodes@);
        let mut i: usize = 0;
        assert(all.take(0) =~= Seq::empty());
        while i < nodes.len()
            invariant
                i <= nodes.len(),
                all == views(nodes@),
                self@ == (ChartNodesView {
                    persisted: with_all_loaded(before.persisted, all.take(i as int)),
                    ..before
                }),
            decreases nodes.len() - i,
        {
            let node: ChartNode = nodes[i].clone();
            self.load_one(node);
            proof {
                let longer = all.take(i + 1);
                assert(longer.drop_last() =~= all.take(i as int));
                assert(longer.last() == node@);
            }
            i = i + 1;
        }
        assert(all.take(i as int) =~= all);
    }

    /// Turns the new nodes into stored ones.
    pub fn store_new(&mut self)
        ensures
            final(self)@ == old(self)@.all_stored(),
    {
        let ghost before = self@;
        let ghost turned = before.new.map_values(|node: NewChartNodeView| node.stored());
        let mut taken: Vec<NewChartNode> = Vec::new();
        std::mem::swap(&mut taken, &mut self.new);
        assert(self@.new =~= Seq::empty());
        assert(views(taken@) =~= before.new);
        let mut stored: Vec<ChartNode> = Vec::new();
        let mut i: usize = 0;
        while i < taken.len()
            invariant
                i <= taken.len(),
                stored.len() == i,
                views(taken@) == before.new,
                turned == before.new.map_values(|node: NewChartNodeView| node.stored()),
                forall|j: int| 0 <= j < i ==> (#[trigger] stored@[j])@ == turned[j],
            decreases taken.len() - i,
        {
            let node: ChartNode = taken[i].to_stored();
            assert(taken@[i as int]@ == before.new[i as int]);
            stored.push(node);
            i = i + 1;
        }
        assert(views(stored@) =~= turned);
        self.load(stored);
    }
}

} // verus!
