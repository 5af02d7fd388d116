//! Charts of accounts.
pub mod answer_laws;
pub mod bulk_import;
pub mod category_laws;
pub mod chart_node;
pub mod children_laws;
pub mod closing_laws;
pub mod completeness_laws;
pub mod config_laws;
pub mod creation_laws;
pub mod entity;
pub mod error;
pub mod events;
pub mod facts;
pub mod hierarchy_laws;
pub mod history;
pub mod import_laws;
pub mod import_meaning;
pub mod import_runs;
pub mod laws;
pub mod manual_laws;
pub mod model;
pub mod nodes;
pub mod operation;
pub mod operation_laws;
pub mod run_laws;
pub mod service;
pub mod steps;
pub mod storage_laws;
pub mod tree;

pub use bulk_import::BulkImportResult;
pub use chart_node::{ChartNode, NewAccount, NewAccountSet, NewChartNode};
pub use entity::{
    Chart, ManualAccountFromChart, NewAccountSetWithNodeId, NewChart, NewChartAccountDetails,
    NewChartBuilder, UninitializedFieldError,
};
pub use error::ChartOfAccountsError;
pub use events::ChartEvent;
pub use model::NewNodeIds;
pub use nodes::{ChartNodeDetails, ChartNodes};
pub use service::ChartOfAccounts;
