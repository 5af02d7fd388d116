# core_accounting

A chart of accounts, and the decisions that the services around it take,
written in Rust and proved with Verus.

- `src/primitives`: account codes, names, categories, base configurations,
  closings and identifiers.
- `src/chart_of_accounts`: the chart itself.
  - `model.rs` says what a chart is and what each operation makes of it;
    `entity.rs`, `nodes.rs`, `bulk_import.rs` and `tree.rs` carry it out.
  - `operation.rs` describes the operations of the services as tasks and
    replies; `service.rs` starts them and `steps.rs` carries them forward.
  - `history.rs` describes what is done with a chart as a list of changes.
  - `laws.rs`, `import_laws.rs`, `children_laws.rs`, `completeness_laws.rs`,
    `hierarchy_laws.rs`, `manual_laws.rs` and `operation_laws.rs` prove what
    holds whatever is done with a chart.
- `src/core_accounting.rs`, `src/accounting_templates`, `src/terms_templates.rs`
  and `src/template_operation.rs`: the services around the chart.
- `app`: runs the operations against a database, a ledger and a permission
  service.

Every operation that needs new identifiers comes twice: once under the usual
name, where the identifiers are made up, and once with the suffix `_as`, where
they are given.
