//! Adding many accounts at once.
use vstd::prelude::*;

use super::chart_node::NewAccountSet;
use super::entity::{new_node_ids, Chart, NewAccountSetWithNodeId};
use super::error::{ChartOfAccountsError, ChartOfAccountsErrorView};
use super::events::{was_base_config_set, ChartEventView};
use super::model::{
    created_children, import_order, inserted, BulkImportResultView, ChartView, CreatedNodeView,
    ImportView, NewNodeIds,
};
use crate::idempotent::Idempotent;
use crate::primitives::account::{option_view, views, AccountSpec, AccountSpecView};
use crate::primitives::account_code::{code_precedes, AccountCode};
use crate::primitives::base_config::{AccountingBaseConfig, AccountingBaseConfigView};
use crate::primitives::ids::{CalaAccountSetId, CalaJournalId, ChartNodeId};

verus! {

/// What an import hands to the ledger: the new account sets, and for each of
/// them the account set that it is put under, followed by its own.
#[derive(Debug)]
pub struct BulkImportResult {
    pub new_account_sets: Vec<NewAccountSet>,
    pub new_account_set_ids: Vec<CalaAccountSetId>,
    pub new_connections: Vec<(CalaAccountSetId, CalaAccountSetId)>,
}

impl View for BulkImportResult {
    type V = BulkImportResultView;

    open spec fn view(&self) -> BulkImportResultView {
        BulkImportResultView {
            new_account_sets: views(self.new_account_sets@),
            new_account_set_ids: self.new_account_set_ids@,
            new_connections: self.new_connections@,
        }
    }
}

/// A node that an import created.
struct CreatedNode {
    node_id: ChartNodeId,
    account_set_id: CalaAccountSetId,
    parent: Option<AccountCode>,
    new_account_set: NewAccountSet,
}

impl View for CreatedNode {
    type V = CreatedNodeView;

    closed spec fn view(&self) -> CreatedNodeView {
        CreatedNodeView {
            node_id: self.node_id,
            account_set_id: self.account_set_id,
            parent: option_view(self.parent),
            new_account_set: self.new_account_set@,
        }
    }
}

/// `inserted` keeps what it is given and adds one.
proof fn inserted_at(sorted: Seq<AccountSpecView>, spec: AccountSpecView, at: int)
    requires
        0 <= at <= sorted.len(),
        forall|i: int|
            at <= i < sorted.len() ==> code_precedes((#[trigger] sorted[i]).code, spec.code),
        at > 0 ==> !code_precedes(sorted[at - 1].code, spec.code),
    ensures
        inserted(sorted, spec) == sorted.insert(at, spec),
    decreases sorted.len(),
{
    if at == sorted.len() {
        assert(sorted.insert(at, spec) =~= sorted.push(spec));
    } else {
        assert(code_precedes(sorted[sorted.len() - 1].code, spec.code));
        inserted_at(sorted.drop_last(), spec, at);
        assert(sorted.insert(at, spec) =~= sorted.drop_last().insert(at, spec).push(
            sorted.last(),
        ));
    }
}

/// Puts an account where it belongs among sorted ones.
fn insert_sorted(sorted: &mut Vec<AccountSpec>, spec: AccountSpec)
    ensures
        views(final(sorted)@) == inserted(views(old(sorted)@), spec@),
{
    let ghost all = views(sorted@);
    let mut at: usize = sorted.len();
    while at > 0 && sorted[at - 1].code.precedes(&spec.code)
        invariant
            at <= sorted.len(),
            all == views(sorted@),
            forall|i: int|
                at <= i < all.len() ==> code_precedes((#[trigger] all[i]).code, spec@.code),
        decreases at,
    {
        assert(all[at - 1] == sorted@[at - 1]@);
        at = at - 1;
    }
    proof {
        if at > 0 {
            assert(all[at - 1] == sorted@[at - 1]@);
        }
        inserted_at(all, spec@, at as int);
    }
    sorted.insert(at, spec);
    assert(views(sorted@) =~= all.insert(at as int, spec@));
}

/// Brings accounts into import order.
fn sort_for_import(specs: Vec<AccountSpec>) -> (res: Vec<AccountSpec>)
    ensures
        views(res@) == import_order(views(specs@)),
        res.len() == specs.len(),
{
    let ghost all = views(specs@);
    let mut res: Vec<AccountSpec> = Vec::new();
    let mut i: usize = 0;
    proof {
        assert(all.take(0) =~= Seq::empty());
        assert(views(res@) =~= Seq::empty());
    }
    while i < specs.len()
        invariant
            i <= specs.len(),
            all == views(specs@),
            views(res@) == import_order(all.take(i as int)),
        decreases specs.len() - i,
    {
        proof {
            assert(all.take(i + 1).drop_last() =~= all.take(i as int));
            assert(all.take(i + 1).last() == specs@[i as int]@);
        }
        insert_sorted(&mut res, specs[i].clone());
        i = i + 1;
    }
    proof {
        assert(all.take(i as int) =~= all);
        import_order_keeps_length(all);
        assert(views(res@).len() == res@.len());
    }
    res
}

proof fn inserted_length(sorted: Seq<AccountSpecView>, spec: AccountSpecView)
    ensures
        inserted(sorted, spec).len() == sorted.len() + 1,
    decreases sorted.len(),
{
    if sorted.len() > 0 {
        inserted_length(sorted.drop_last(), spec);
    }
}

/// As many accounts come out of the import order as went in.
pub proof fn import_order_keeps_length(specs: Seq<AccountSpecView>)
    ensures
        import_order(specs).len() == specs.len(),
    decreases specs.len(),
{
    if specs.len() > 0 {
        import_order_keeps_length(specs.drop_last());
        inserted_length(import_order(specs.drop_last()), specs.last());
    }
}

/// The created nodes whose parent has a code.
fn find_created_children(created: &Vec<CreatedNode>, code: &AccountCode) -> (res: Vec<ChartNodeId>)
    ensures
        res@ == created_children(views(created@), code@),
{
    let ghost all = views(created@);
    let ghost wanted = |node: CreatedNodeView| node.parent == Some(code@);
    let ghost node_id = |node: CreatedNodeView| node.node_id;
    let mut res: Vec<ChartNodeId> = Vec::new();
    let mut i: usize = 0;
    proof {
        reveal(Seq::filter);
        assert(all.take(0) =~= Seq::empty());
        assert(res@ =~= all.take(0).filter(wanted).map_values(node_id));
    }
    while i < created.len()
        invariant
            i <= created.len(),
            all == views(created@),
            wanted == (|node: CreatedNodeView| node.parent == Some(code@)),
            node_id == (|node: CreatedNodeView| node.node_id),
            res@ == all.take(i as int).filter(wanted).map_values(node_id),
        decreases created.len() - i,
    {
        let ghost before = res@;
        let is_child: bool = match &created[i].parent {
            Some(parent) => parent.same(code),
            None => false,
        };
        assert(all[i as int] == created@[i as int]@);
        assert(is_child == wanted(all[i as int]));
        if is_child {
            res.push(created[i].node_id);
        }
        proof {
            reveal(Seq::filter);
            let longer = all.take(i + 1);
            let kept = all.take(i as int).filter(wanted);
            assert(longer.drop_last() =~= all.take(i as int));
            assert(longer.last() == all[i as int]);
            if wanted(all[i as int]) {
                assert(kept.push(all[i as int]).map_values(node_id) =~= before.push(
                    all[i as int].node_id,
                ));
            }
        }
        i = i + 1;
    }
    assert(all.take(i as int) =~= all);
    res
}

impl ChartView {
    /// What `configure_with_initial_accounts` answers.
    pub open spec fn configure_answer(
        self,
        specs: Seq<AccountSpecView>,
        config: AccountingBaseConfigView,
        journal_id: CalaJournalId,
        ids: Seq<NewNodeIds>,
    ) -> Result<Idempotent<BulkImportResultView>, ChartOfAccountsErrorView> {
        if self.events.contains(ChartEventView::BaseConfigSet { base_config: config }) {
            Ok(Idempotent::AlreadyApplied)
        } else if self.base_config is Some {
            Err(ChartOfAccountsErrorView::BaseConfigAlreadyInitializedWithDifferentConfig)
        } else {
            match self.after_import(specs, ids, journal_id).base_config_error(config) {
                Some(e) => Err(e),
                None => Ok(Idempotent::Executed(self.import_result(specs, ids, journal_id))),
            }
        }
    }

    /// The chart after `configure_with_initial_accounts`. Where the accounts
    /// do not fit the base configuration, they stay in the chart.
    pub open spec fn after_configure(
        self,
        specs: Seq<AccountSpecView>,
        config: AccountingBaseConfigView,
        journal_id: CalaJournalId,
        ids: Seq<NewNodeIds>,
    ) -> ChartView {
        match self.configure_answer(specs, config, journal_id, ids) {
            Ok(Idempotent::AlreadyApplied) => self,
            Err(ChartOfAccountsErrorView::BaseConfigAlreadyInitializedWithDifferentConfig) => self,
            Err(_) => self.after_import(specs, ids, journal_id),
            Ok(Idempotent::Executed(_)) => self.after_import(
                specs,
                ids,
                journal_id,
            ).with_base_config(config),
        }
    }
}

/// What `configure_with_initial_accounts` does and answers.
pub open spec fn configures(
    before: ChartView,
    specs: Seq<AccountSpecView>,
    config: AccountingBaseConfigView,
    journal_id: CalaJournalId,
    ids: Seq<NewNodeIds>,
    after: ChartView,
    res: Result<Idempotent<BulkImportResult>, ChartOfAccountsError>,
) -> bool {
    &&& after == before.after_configure(specs, config, journal_id, ids)
    &&& before.configure_answer(specs, config, journal_id, ids) == (match res {
        Ok(Idempotent::AlreadyApplied) => Ok(Idempotent::AlreadyApplied),
        Ok(Idempotent::Executed(result)) => Ok(Idempotent::Executed(result@)),
        Err(e) => Err(e@),
    })
}

/// What `import_accounts` does and answers.
pub open spec fn imports(
    before: ChartView,
    specs: Seq<AccountSpecView>,
    journal_id: CalaJournalId,
    ids: Seq<NewNodeIds>,
    after: ChartView,
    res: BulkImportResult,
) -> bool {
    &&& after == before.after_import(specs, ids, journal_id)
    &&& res@ == before.import_result(specs, ids, journal_id)
}

/// All of the identifiers are version 7 UUIDs.
pub open spec fn are_v7(ids: Seq<NewNodeIds>) -> bool {
    forall|i: int| 0 <= i < ids.len() ==> (#[trigger] ids[i]).is_v7()
}

/// Identifiers for a number of nodes.
pub(crate) fn new_ids_for(n: usize) -> (res: Vec<NewNodeIds>)
    ensures
        res.len() == n,
        are_v7(res@),
{
    let mut res: Vec<NewNodeIds> = Vec::new();
    while res.len() < n
        invariant
            res.len() <= n,
            are_v7(res@),
        decreases n - res.len(),
    {
        res.push(new_node_ids());
    }
    res
}

impl Chart {
    /// Adds the accounts that the chart does not have, under identifiers that
    /// are made up here. Each is put under its parent, stored or new.
    pub fn import_accounts(&mut self, account_specs: Vec<AccountSpec>, journal_id: CalaJournalId) ->
        (res: BulkImportResult)
        ensures
            exists|ids: Seq<NewNodeIds>|
                ids.len() == account_specs.len() && are_v7(ids) && imports(
                    old(self)@,
                    views(account_specs@),
                    journal_id,
                    ids,
                    final(self)@,
                    res,
                ),
    {
        let ids: Vec<NewNodeIds> = new_ids_for(account_specs.len());
        self.import_accounts_as(&ids, account_specs, journal_id)
    }

    /// As `import_accounts`, under the given identifiers: the account at a
    /// place of the import order gets those at the same place.
    pub fn import_accounts_as(
        &mut self,
        ids: &Vec<NewNodeIds>,
        account_specs: Vec<AccountSpec>,
        journal_id: CalaJournalId,
    ) -> (res: BulkImportResult)
        requires
            ids.len() >= account_specs.len(),
        ensures
            imports(old(self)@, views(account_specs@), journal_id, ids@, final(self)@, res),
    {
        let ghost before = self@;
        let ghost order = import_order(views(account_specs@));
        let specs: Vec<AccountSpec> = sort_for_import(account_specs);
        let mut created: Vec<CreatedNode> = Vec::new();
        let mut i: usize = 0;
        assert(views(created@) =~= Seq::empty());
        while i < specs.len()
            invariant
                i <= specs.len(),
                ids.len() >= specs.len(),
                order == views(specs@),
                before.import_first(order, ids@, journal_id, i as int) == (ImportView {
                    chart: self@,
                    created: views(created@),
                }),
            decreases specs.len() - i,
        {
            let spec: &AccountSpec = &specs[i];
            assert(order[i as int] == spec@);
            let ghost done = views(created@);
            let ghost chart = self@;
            let children: Vec<ChartNodeId> = find_created_children(&created, &spec.code);
            match self.create_node_with_existing_children_as(ids[i], spec, journal_id, children) {
                Idempotent::AlreadyApplied => {},
                Idempotent::Executed(NewAccountSetWithNodeId { new_account_set, node_id }) => {
                    let node: CreatedNode = CreatedNode {
                        node_id,
                        account_set_id: new_account_set.id,
                        parent: spec.parent_code(),
                        new_account_set,
                    };
                    proof {
                        assert(new_account_set@.id == new_account_set.id);
                        assert(new_account_set@ == chart.node_for(
                            spec@,
                            ids@[i as int],
                            children@,
                        ).new_account_set(journal_id));
                    }
                    created.push(node);
                    assert(views(created@) =~= done.push(node@));
                },
            }
            i = i + 1;
        }
        self.finish_import(
            created,
            Ghost(before),
            Ghost(views(account_specs@)),
            Ghost(ids@),
            Ghost(journal_id),
        )
    }

    /// Puts created nodes under their parents.
    fn finish_import(
        &mut self,
        created: Vec<CreatedNode>,
        Ghost(before): Ghost<ChartView>,
        Ghost(specs): Ghost<Seq<AccountSpecView>>,
        Ghost(ids): Ghost<Seq<NewNodeIds>>,
        Ghost(journal_id): Ghost<CalaJournalId>,
    ) -> (res: BulkImportResult)
        requires
            before.imported(specs, ids, journal_id) == (ImportView {
                chart: old(self)@,
                created: views(created@),
            }),
        ensures
            imports(before, specs, journal_id, ids, final(self)@, res),
    {
        let ghost all = views(created@);
        let ghost chart = self@;
        let ghost expected = before.import_result(specs, ids, journal_id);
        let mut new_account_sets: Vec<NewAccountSet> = Vec::new();
        let mut new_account_set_ids: Vec<CalaAccountSetId> = Vec::new();
        let mut new_connections: Vec<(CalaAccountSetId, CalaAccountSetId)> = Vec::new();
        let mut i: usize = 0;
        while i < created.len()
            invariant
                i <= created.len(),
                all == views(created@),
                chart == self@,
                expected == before.import_result(specs, ids, journal_id),
                before.imported(specs, ids, journal_id) == (ImportView { chart, created: all }),
                new_account_sets.len() == i,
                new_account_set_ids.len() == i,
                new_connections.len() == i,
                forall|j: int|
                    0 <= j < i ==> #[trigger] new_account_sets@[j]@ == all[j].new_account_set,
                forall|j: int|
                    0 <= j < i ==> #[trigger] new_account_set_ids@[j] == all[j].account_set_id,
                forall|j: int|
                    0 <= j < i ==> #[trigger] new_connections@[j] == (
                        chart.parent_account_set(all[j].parent),
                        all[j].account_set_id,
                    ),
            decreases created.len() - i,
        {
            let node: &CreatedNode = &created[i];
            assert(all[i as int] == node@);
            new_account_sets.push(node.new_account_set.clone());
            new_account_set_ids.push(node.account_set_id);
            new_connections.push((self.parent_account_set_id(&node.parent), node.account_set_id));
            i = i + 1;
        }
        let res: BulkImportResult = BulkImportResult {
            new_account_sets,
            new_account_set_ids,
            new_connections,
        };
        proof {
            assert(res@.new_account_sets =~= expected.new_account_sets);
            assert(res@.new_account_set_ids =~= expected.new_account_set_ids);
            assert(res@.new_connections =~= expected.new_connections);
        }
        let mut k: usize = 0;
        assert(all.take(0) =~= Seq::empty());
        while k < created.len()
            invariant
                k <= created.len(),
                all == views(created@),
                self@ == chart.with_created_entered(all.take(k as int)),
            decreases created.len() - k,
        {
            proof {
                assert(all.take(k + 1).drop_last() =~= all.take(k as int));
                assert(all.take(k + 1).last() == created@[k as int]@);
            }
            let _ = self.enter_child(&created[k].parent, created[k].node_id);
            k = k + 1;
        }
        assert(all.take(k as int) =~= all);
        res
    }

    /// The account set that an account with the given parent is put under.
    fn parent_account_set_id(&self, parent: &Option<AccountCode>) -> (res: CalaAccountSetId)
        ensures
            res == self@.parent_account_set(option_view(*parent)),
    {
        if let Some(code) = parent {
            if let Some(id) = self.maybe_account_set_id_from_code(code) {
                return id;
            }
        }
        self.account_set_id
    }

    /// Imports the first accounts of a chart and sets its base configuration,
    /// once. Identifiers are made up here.
    pub fn configure_with_initial_accounts(
        &mut self,
        account_specs: Vec<AccountSpec>,
        base_config: AccountingBaseConfig,
        journal_id: CalaJournalId,
    ) -> (res: Result<Idempotent<BulkImportResult>, ChartOfAccountsError>)
        ensures
            exists|ids: Seq<NewNodeIds>|
                ids.len() == account_specs.len() && are_v7(ids) && configures(
                    old(self)@,
                    views(account_specs@),
                    base_config@,
                    journal_id,
                    ids,
                    final(self)@,
                    res,
                ),
    {
        let ids: Vec<NewNodeIds> = new_ids_for(account_specs.len());
        self.configure_with_initial_accounts_as(&ids, account_specs, base_config, journal_id)
    }

    /// As `configure_with_initial_accounts`, under the given identifiers.
    pub fn configure_with_initial_accounts_as(
        &mut self,
        ids: &Vec<NewNodeIds>,
        account_specs: Vec<AccountSpec>,
        base_config: AccountingBaseConfig,
        journal_id: CalaJournalId,
    ) -> (res: Result<Idempotent<BulkImportResult>, ChartOfAccountsError>)
        requires
            ids.len() >= account_specs.len(),
        ensures
            configures(
                old(self)@,
                views(account_specs@),
                base_config@,
                journal_id,
                ids@,
                final(self)@,
                res,
            ),
    {
        if was_base_config_set(&self.events, &base_config) {
            return Ok(Idempotent::AlreadyApplied);
        }
        if self.base_config.is_some() {
            return Err(ChartOfAccountsError::BaseConfigAlreadyInitializedWithDifferentConfig);
        }
        let res: BulkImportResult = self.import_accounts_as(ids, account_specs, journal_id);
        self.check_base_config_codes_exists_in_chart(&base_config)?;
        self.set_base_config(base_config);
        Ok(Idempotent::Executed(res))
    }
}

} // verus!
