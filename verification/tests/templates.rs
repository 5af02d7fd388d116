use core_accounting::accounting_templates::repo::{
    AccountingTemplateRepo, ListAll, Page, TemplateCursor,
};
use core_accounting::accounting_templates::{
    AccountingTemplateEntry, AccountingTemplateOperation, AccountingTemplateValues,
    AccountingTemplates,
};
use core_accounting::primitives::{
    AccountingTemplateId, CoreAccountingAction, CoreAccountingObject, CoreCreditTermsAction,
    CoreCreditTermsObject, DebitOrCredit, TermsTemplateId,
};
use core_accounting::template_operation::{TemplateReply, TemplateStatus, TemplateTask};
use core_accounting::terms_templates::{PermissionCheck, TermsTemplateOperation, TermsTemplates};

type Op = AccountingTemplateOperation<&'static str>;
type TermsOp = TermsTemplateOperation<u32, &'static str>;

fn values() -> AccountingTemplateValues {
    AccountingTemplateValues {
        chart_ref: Some("chart".to_string()),
        description_template: "Rent".to_string(),
        entries: vec![AccountingTemplateEntry {
            account_id_or_code: "1.1".to_string(),
            direction: DebitOrCredit::Debit,
            description_template: None,
        }],
    }
}

#[test]
fn a_template_is_created_from_checked_parts() {
    let op: Op = AccountingTemplates.create_as(
        AccountingTemplateId(3),
        " rent ".to_string(),
        " Rent ".to_string(),
        values(),
    );
    assert_eq!(
        op.permission,
        (
            CoreAccountingObject::AllAccountingTemplates,
            CoreAccountingAction::AccountingTemplateCreate
        )
    );
    assert_eq!(op.pending(), Some(TemplateTask::Permission));
    let op = op.step(TemplateReply::Done);
    assert_eq!(op.pending(), Some(TemplateTask::ValidateCode));
    let op = op.step(TemplateReply::Done);
    assert_eq!(op.pending(), Some(TemplateTask::ValidateCode));
    let op = op.step(TemplateReply::Validated {
        text: "rent".to_string(),
    });
    assert_eq!(op.pending(), Some(TemplateTask::ValidateName));
    let op = op.step(TemplateReply::Validated {
        text: "Rent".to_string(),
    });
    assert_eq!(op.pending(), Some(TemplateTask::ValidateValues));
    let op = op.step(TemplateReply::Done);
    assert_eq!(op.pending(), Some(TemplateTask::Create));
    assert_eq!(op.id, Some(AccountingTemplateId(3)));
    assert_eq!(op.code.as_deref(), Some("rent"));
    assert_eq!(op.name.as_deref(), Some("Rent"));
    assert_eq!(op.values, Some(values()));
    let op = op.step(TemplateReply::Done);
    assert_eq!(op.pending(), None);
    assert!(matches!(op.status, TemplateStatus::Finished));
    let made_up: Op = AccountingTemplates.create("c".to_string(), "n".to_string(), values());
    assert_eq!((made_up.id.unwrap().0 >> 76) & 0xf, 7);
}

#[test]
fn a_refusal_or_an_invalid_part_ends_the_creation() {
    let refused: Op = AccountingTemplates
        .create("c".to_string(), "n".to_string(), values())
        .step(TemplateReply::Failed { error: "refused" });
    assert!(matches!(
        refused.status,
        TemplateStatus::Failed { error: "refused" }
    ));
    assert_eq!(refused.step(TemplateReply::Done).pending(), None);
    let invalid: Op = AccountingTemplates
        .create("c".to_string(), "n".to_string(), values())
        .step(TemplateReply::Done)
        .step(TemplateReply::Failed { error: "code" });
    assert!(matches!(
        invalid.status,
        TemplateStatus::Failed { error: "code" }
    ));
}

#[test]
fn a_name_is_stored_only_when_it_changes() {
    let start = || -> Op {
        AccountingTemplates
            .update_name(AccountingTemplateId(3), "Rent".to_string())
            .step(TemplateReply::Done)
            .step(TemplateReply::Validated {
                text: "Rent".to_string(),
            })
    };
    assert_eq!(
        start().permission,
        (
            CoreAccountingObject::AccountingTemplate(AccountingTemplateId(3)),
            CoreAccountingAction::AccountingTemplateUpdate
        )
    );
    assert_eq!(start().pending(), Some(TemplateTask::Find));
    let changed = start()
        .step(TemplateReply::Done)
        .step(TemplateReply::Changed { executed: true });
    assert_eq!(changed.pending(), Some(TemplateTask::Update));
    let unchanged = start()
        .step(TemplateReply::Done)
        .step(TemplateReply::Changed { executed: false });
    assert_eq!(unchanged.pending(), None);
    assert!(matches!(unchanged.status, TemplateStatus::Finished));
    let missing = start().step(TemplateReply::NotFound { error: "missing" });
    assert!(matches!(
        missing.status,
        TemplateStatus::Failed { error: "missing" }
    ));
}

#[test]
fn values_are_checked_before_the_template_is_looked_for() {
    let op: Op = AccountingTemplates.update_values(AccountingTemplateId(3), values());
    let op = op.step(TemplateReply::Done);
    assert_eq!(op.pending(), Some(TemplateTask::ValidateValues));
    let op = op.step(TemplateReply::Done);
    assert_eq!(op.pending(), Some(TemplateTask::Find));
    let op = op.step(TemplateReply::Done);
    assert_eq!(op.pending(), Some(TemplateTask::ChangeValues));
    let op = op.step(TemplateReply::Changed { executed: true });
    assert_eq!(op.pending(), Some(TemplateTask::Update));
    assert!(matches!(
        op.step(TemplateReply::Done).status,
        TemplateStatus::Finished
    ));
}

#[test]
fn a_template_that_is_not_there_is_no_error() {
    let op: Op = AccountingTemplates
        .find_by_id(AccountingTemplateId(3))
        .step(TemplateReply::Done)
        .step(TemplateReply::NotFound { error: "missing" });
    assert!(matches!(op.status, TemplateStatus::FinishedWithout));
    let other: Op = AccountingTemplates
        .find_by_id(AccountingTemplateId(3))
        .step(TemplateReply::Done)
        .step(TemplateReply::Failed { error: "down" });
    assert!(matches!(
        other.status,
        TemplateStatus::Failed { error: "down" }
    ));
}

#[test]
fn templates_are_listed_after_permission() {
    let op: Op = AccountingTemplates.list();
    assert_eq!(
        op.permission,
        (
            CoreAccountingObject::AllAccountingTemplates,
            CoreAccountingAction::AccountingTemplateList
        )
    );
    let op = op.step(TemplateReply::Done);
    assert_eq!(op.pending(), Some(TemplateTask::ListAll));
    assert!(matches!(
        op.step(TemplateReply::Done).status,
        TemplateStatus::Finished
    ));
}

#[test]
fn pages_are_joined_in_their_order() {
    let mut listing: ListAll<u32> = AccountingTemplateRepo.list_all();
    let query = listing.take_query().unwrap();
    assert_eq!(query.first, 100);
    assert!(query.after.is_none());
    assert!(listing.take_query().is_none());
    listing.add_page(Page {
        entities: vec![1, 2],
        has_next_page: true,
        end_cursor: Some(TemplateCursor {
            id: AccountingTemplateId(2),
            name: "two".to_string(),
        }),
    });
    let query = listing.take_query().unwrap();
    assert_eq!(query.first, 0);
    assert_eq!(query.after.unwrap().name, "two");
    listing.add_page(Page {
        entities: vec![3],
        has_next_page: false,
        end_cursor: None,
    });
    assert!(listing.take_query().is_none());
    assert_eq!(listing.templates, vec![1, 2, 3]);
}

#[test]
fn a_listing_goes_on_as_long_as_there_are_pages() {
    let cursor = |n: u128| {
        Some(TemplateCursor {
            id: AccountingTemplateId(n),
            name: format!("template {n}"),
        })
    };
    let mut pages = vec![
        Page {
            entities: vec![1, 2, 3],
            has_next_page: true,
            end_cursor: cursor(3),
        },
        Page {
            entities: vec![],
            has_next_page: true,
            end_cursor: cursor(4),
        },
        Page {
            entities: vec![5],
            has_next_page: false,
            end_cursor: cursor(5),
        },
    ]
    .into_iter();
    let mut listing: ListAll<u128> = AccountingTemplateRepo.list_all();
    let mut ends = Vec::new();
    while let Some(query) = listing.take_query() {
        ends.push(query.after.map(|cursor| cursor.id.0));
        listing.add_page(pages.next().unwrap());
    }
    assert!(pages.next().is_none());
    assert_eq!(ends, vec![None, Some(3), Some(4)]);
    assert_eq!(listing.templates, vec![1, 2, 3, 5]);
}

#[test]
fn terms_templates_ask_for_their_own_permissions() {
    assert_eq!(
        TermsTemplates.subject_can_create_terms_template(false),
        PermissionCheck {
            object: CoreCreditTermsObject::AllTermsTemplates,
            action: CoreCreditTermsAction::TermsTemplateCreate,
            enforce: false,
        }
    );
    assert_eq!(
        TermsTemplates.subject_can_update_terms_template(true),
        PermissionCheck {
            object: CoreCreditTermsObject::AllTermsTemplates,
            action: CoreCreditTermsAction::TermsTemplateUpdate,
            enforce: true,
        }
    );
    let find: TermsOp = TermsTemplates.find_by_id(TermsTemplateId(4));
    assert_eq!(
        find.permission,
        (
            CoreCreditTermsObject::TermsTemplate(TermsTemplateId(4)),
            CoreCreditTermsAction::TermsTemplateRead
        )
    );
    let list: TermsOp = TermsTemplates.list();
    assert_eq!(
        list.permission,
        (
            CoreCreditTermsObject::AllTermsTemplates,
            CoreCreditTermsAction::TermsTemplateList
        )
    );
}

#[test]
fn terms_are_created_and_updated_unchecked() {
    let op: TermsOp =
        TermsTemplates.create_terms_template_as(TermsTemplateId(4), "Short".to_string(), 12);
    let op = op.step(TemplateReply::Done);
    assert_eq!(op.pending(), Some(TemplateTask::Create));
    assert_eq!(op.id, Some(TermsTemplateId(4)));
    assert_eq!(op.name.as_deref(), Some("Short"));
    assert_eq!(op.values, Some(12));
    let update: TermsOp = TermsTemplates.update_term_values(TermsTemplateId(4), 24);
    let update = update.step(TemplateReply::Done);
    assert_eq!(update.pending(), Some(TemplateTask::Find));
    let update = update.step(TemplateReply::Done);
    assert_eq!(update.pending(), Some(TemplateTask::ChangeValues));
    assert!(matches!(
        update.step(TemplateReply::Changed { executed: false }).status,
        TemplateStatus::Finished
    ));
    let made_up: TermsOp = TermsTemplates.create_terms_template("Long".to_string(), 36);
    assert_eq!((made_up.id.unwrap().0 >> 76) & 0xf, 7);
}
