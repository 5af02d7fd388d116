//! The events that a chart is made of.
use vstd::prelude::*;

use crate::primitives::account::views;
use crate::primitives::base_config::{AccountingBaseConfig, AccountingBaseConfigView};
use crate::primitives::closing::Date;
use crate::primitives::ids::{CalaAccountSetId, ChartId};

verus! {

/// Something that happened to a chart.
#[derive(Debug)]
pub enum ChartEvent {
    Initialized { id: ChartId, account_set_id: CalaAccountSetId, name: String, reference: String },
    BaseConfigSet { base_config: AccountingBaseConfig },
    ClosedAsOf { closed_as_of: Date },
    ClosingTransactionPosted { posted_as_of: Date },
}

/// The value of a `ChartEvent`.
#[verifier::ext_equal]
pub enum ChartEventView {
    Initialized {
        id: ChartId,
        account_set_id: CalaAccountSetId,
        name: Seq<char>,
        reference: Seq<char>,
    },
    BaseConfigSet { base_config: AccountingBaseConfigView },
    ClosedAsOf { closed_as_of: Date },
    ClosingTransactionPosted { posted_as_of: Date },
}

impl View for ChartEvent {
    type V = ChartEventView;

    open spec fn view(&self) -> ChartEventView {
        match self {
            ChartEvent::Initialized { id, account_set_id, name, reference } => {
                ChartEventView::Initialized {
                    id: *id,
                    account_set_id: *account_set_id,
                    name: name@,
                    reference: reference@,
                }
            },
            ChartEvent::BaseConfigSet { base_config } => {
                ChartEventView::BaseConfigSet { base_config: base_config@ }
            },
            ChartEvent::ClosedAsOf { closed_as_of } => {
                ChartEventView::ClosedAsOf { closed_as_of: *closed_as_of }
            },
            ChartEvent::ClosingTransactionPosted { posted_as_of } => {
                ChartEventView::ClosingTransactionPosted { posted_as_of: *posted_as_of }
            },
        }
    }
}

impl Clone for ChartEvent {
    fn clone(&self) -> (res: Self)
        ensures
            res@ == self@,
    {
        match self {
            ChartEvent::Initialized { id, account_set_id, name, reference } => {
                ChartEvent::Initialized {
                    id: *id,
                    account_set_id: *account_set_id,
                    name: name.clone(),
                    reference: reference.clone(),
                }
            },
            ChartEvent::BaseConfigSet { base_config } => {
                ChartEvent::BaseConfigSet { base_config: base_config.clone() }
            },
            ChartEvent::ClosedAsOf { closed_as_of } => {
                ChartEvent::ClosedAsOf { closed_as_of: *closed_as_of }
            },
            ChartEvent::ClosingTransactionPosted { posted_as_of } => {
                ChartEvent::ClosingTransactionPosted { posted_as_of: *posted_as_of }
            },
        }
    }
}

/// The last event that initialized the chart.
pub open spec fn latest_initialized(events: Seq<ChartEventView>) -> Option<ChartEventView>
    decreases events.len(),
{
    if events.len() == 0 {
        None
    } else if events.last() is Initialized {
        Some(events.last())
    } else {
        latest_initialized(events.drop_last())
    }
}

/// The base configuration that was set last.
pub open spec fn latest_base_config(events: Seq<ChartEventView>) -> Option<AccountingBaseConfigView>
    decreases events.len(),
{
    if events.len() == 0 {
        None
    } else {
        match events.last() {
            ChartEventView::BaseConfigSet { base_config } => Some(base_config),
            _ => latest_base_config(events.drop_last()),
        }
    }
}

/// The day of the latest closing event.
pub open spec fn latest_closed_as_of(events: Seq<ChartEventView>) -> Option<Date>
    decreases events.len(),
{
    if events.len() == 0 {
        None
    } else {
        match events.last() {
            ChartEventView::ClosedAsOf { closed_as_of } => Some(closed_as_of),
            _ => latest_closed_as_of(events.drop_last()),
        }
    }
}

/// The day of the latest closing transaction.
pub open spec fn latest_posted_as_of(events: Seq<ChartEventView>) -> Option<Date>
    decreases events.len(),
{
    if events.len() == 0 {
        None
    } else {
        match events.last() {
            ChartEventView::ClosingTransactionPosted { posted_as_of } => Some(posted_as_of),
            _ => latest_posted_as_of(events.drop_last()),
        }
    }
}

/// The latest day is not before the given one.
pub open spec fn not_before(latest: Option<Date>, date: Date) -> bool {
    latest matches Some(previous) && !previous.is_before(date)
}

/// Whether a base configuration was set at any time.
pub(crate) fn was_base_config_set(events: &Vec<ChartEvent>, config: &AccountingBaseConfig) -> (res:
    bool)
    ensures
        res == views(events@).contains(ChartEventView::BaseConfigSet { base_config: config@ }),
{
    let ghost sought = ChartEventView::BaseConfigSet { base_config: config@ };
    let mut i: usize = events.len();
    while i > 0
        invariant
            i <= events.len(),
            sought == (ChartEventView::BaseConfigSet { base_config: config@ }),
            forall|j: int| i <= j < events.len() ==> #[trigger] views(events@)[j] != sought,
        decreases i,
    {
        i = i - 1;
        let found: bool = match &events[i] {
            ChartEvent::BaseConfigSet { base_config } => base_config.same(config),
            _ => false,
        };
        assert(found == (views(events@)[i as int] == sought));
        if found {
            return true;
        }
    }
    false
}

/// The day of the latest closing event.
pub(crate) fn find_closed_as_of(events: &Vec<ChartEvent>) -> (res: Option<Date>)
    ensures
        res == latest_closed_as_of(views(events@)),
{
    let ghost all = views(events@);
    let mut i: usize = events.len();
    assert(all.take(i as int) =~= all);
    while i > 0
        invariant
            i <= events.len(),
            all == views(events@),
            latest_closed_as_of(all) == latest_closed_as_of(all.take(i as int)),
        decreases i,
    {
        proof {
            assert(all.take(i as int).drop_last() =~= all.take(i - 1));
        }
        i = i - 1;
        if let ChartEvent::ClosedAsOf { closed_as_of } = &events[i] {
            assert(all[i as int] == events@[i as int]@);
            return Some(*closed_as_of);
        }
        assert(all[i as int] == events@[i as int]@);
    }
    None
}

/// The day of the latest closing transaction.
pub(crate) fn find_posted_as_of(events: &Vec<ChartEvent>) -> (res: Option<Date>)
    ensures
        res == latest_posted_as_of(views(events@)),
{
    let ghost all = views(events@);
    let mut i: usize = events.len();
    assert(all.take(i as int) =~= all);
    while i > 0
        invariant
            i <= events.len(),
            all == views(events@),
            latest_posted_as_of(all) == latest_posted_as_of(all.take(i as int)),
        decreases i,
    {
        proof {
            assert(all.take(i as int).drop_last() =~= all.take(i - 1));
        }
        i = i - 1;
        if let ChartEvent::ClosingTransactionPosted { posted_as_of } = &events[i] {
            assert(all[i as int] == events@[i as int]@);
            return Some(*posted_as_of);
        }
        assert(all[i as int] == events@[i as int]@);
    }
    None
}

} // verus!
