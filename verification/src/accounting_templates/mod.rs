//! Templates for manual accounting entries.
use vstd::prelude::*;

use crate::primitives::account::DebitOrCredit;
use crate::primitives::ids::{is_uuid_v7, AccountingTemplateId};
use crate::primitives::permission::{CoreAccountingAction, CoreAccountingObject};
use crate::template_operation::{TemplateOperation, TemplateRequest};

pub mod repo;

verus! {

/// One line of a template.
#[derive(Debug, Clone, PartialEq)]
pub struct AccountingTemplateEntry {
    pub account_id_or_code: String,
    pub direction: DebitOrCredit,
    pub description_template: Option<String>,
}

/// What a template holds.
#[derive(Debug, Clone, PartialEq)]
pub struct AccountingTemplateValues {
    pub chart_ref: Option<String>,
    pub description_template: String,
    pub entries: Vec<AccountingTemplateEntry>,
}

/// A permission that accounting templates ask for.
pub type AccountingPermission = (CoreAccountingObject, CoreAccountingAction);

/// An operation on accounting templates.
pub type AccountingTemplateOperation<E> = TemplateOperation<
    AccountingPermission,
    AccountingTemplateId,
    AccountingTemplateValues,
    E,
>;

/// The accounting templates.
#[derive(Debug, Clone, Copy, PartialEq, Eq, Structural)]
pub struct AccountingTemplates;

impl AccountingTemplates {
    /// Creates a template, under an identifier that is made up here.
    pub fn create<E>(&self, code: String, name: String, values: AccountingTemplateValues) -> (res:
        AccountingTemplateOperation<E>)
        ensures
            exists|id: AccountingTemplateId|
                is_uuid_v7(id.0) && res == (#[trigger] creating_template::<E>(
                    id,
                    code,
                    name,
                    values,
                )),
    {
        self.create_as(AccountingTemplateId::new(), code, name, values)
    }

    /// As `create`, under the given identifier.
    pub fn create_as<E>(
        &self,
        id: AccountingTemplateId,
        code: String,
        name: String,
        values: AccountingTemplateValues,
    ) -> (res: AccountingTemplateOperation<E>)
        ensures
            res == creating_template::<E>(id, code, name, values),
    {
        TemplateOperation::start(
            TemplateRequest::Create,
            (
                CoreAccountingObject::AllAccountingTemplates,
                CoreAccountingAction::AccountingTemplateCreate,
            ),
            Some(id),
            Some(code),
            Some(name),
            Some(values),
        )
    }

    /// Changes the name of a template.
    pub fn update_name<E>(&self, id: AccountingTemplateId, new_name: String) -> (res:
        AccountingTemplateOperation<E>)
        ensures
            res == AccountingTemplateOperation::<E>::started(
                TemplateRequest::UpdateName,
                (
                    CoreAccountingObject::AccountingTemplate(id),
                    CoreAccountingAction::AccountingTemplateUpdate,
                ),
                Some(id),
                None,
                Some(new_name),
                None,
            ),
    {
        TemplateOperation::start(
            TemplateRequest::UpdateName,
            (
                CoreAccountingObject::AccountingTemplate(id),
                CoreAccountingAction::AccountingTemplateUpdate,
            ),
            Some(id),
            None,
            Some(new_name),
            None,
        )
    }

    /// Changes the values of a template.
    pub fn update_values<E>(
        &self,
        id: AccountingTemplateId,
        new_values: AccountingTemplateValues,
    ) -> (res: AccountingTemplateOperation<E>)
        ensures
            res == AccountingTemplateOperation::<E>::started(
                TemplateRequest::UpdateValues,
                (
                    CoreAccountingObject::AccountingTemplate(id),
                    CoreAccountingAction::AccountingTemplateUpdate,
                ),
                Some(id),
                None,
                None,
                Some(new_values),
            ),
    {
        TemplateOperation::start(
            TemplateRequest::UpdateValues,
            (
                CoreAccountingObject::AccountingTemplate(id),
                CoreAccountingAction::AccountingTemplateUpdate,
            ),
            Some(id),
            None,
            None,
            Some(new_values),
        )
    }

    /// Finds a template, if there is one with the identifier.
    pub fn find_by_id<E>(&self, id: AccountingTemplateId) -> (res: AccountingTemplateOperation<E>)
        ensures
            res == AccountingTemplateOperation::<E>::started(
                TemplateRequest::Find,
                (
                    CoreAccountingObject::AccountingTemplate(id),
                    CoreAccountingAction::AccountingTemplateRead,
                ),
                Some(id),
                None,
                None,
                None,
            ),
    {
        TemplateOperation::start(
            TemplateRequest::Find,
            (
                CoreAccountingObject::AccountingTemplate(id),
                CoreAccountingAction::AccountingTemplateRead,
            ),
            Some(id),
            None,
            None,
            None,
        )
    }

    /// Lists all templates.
    pub fn list<E>(&self) -> (res: AccountingTemplateOperation<E>)
        ensures
            res == AccountingTemplateOperation::<E>::started(
                TemplateRequest::List,
                (
                    CoreAccountingObject::AllAccountingTemplates,
                    CoreAccountingAction::AccountingTemplateList,
                ),
                None,
                None,
                None,
                None,
            ),
    {
        TemplateOperation::start(
            TemplateRequest::List,
            (
                CoreAccountingObject::AllAccountingTemplates,
                CoreAccountingAction::AccountingTemplateList,
            ),
            None,
            None,
            None,
            None,
        )
    }
}

/// A template is to be created.
pub open spec fn creating_template<E>(
    id: AccountingTemplateId,
    code: String,
    name: String,
    values: AccountingTemplateValues,
) -> AccountingTemplateOperation<E> {
    TemplateOperation::started(
        TemplateRequest::Create,
        (
            CoreAccountingObject::AllAccountingTemplates,
            CoreAccountingAction::AccountingTemplateCreate,
        ),
        Some(id),
        Some(code),
        Some(name),
        Some(values),
    )
}

/// A new template is created from the code, name and values that were given,
/// under the permission to create accounting templates.
pub proof fn new_template_is_as_given<E>(
    id: AccountingTemplateId,
    code: String,
    name: String,
    values: AccountingTemplateValues,
)
    ensures
        ({
            let op = creating_template::<E>(id, code, name, values);
            &&& op.request == TemplateRequest::Create
            &&& op.permission.0 == CoreAccountingObject::AllAccountingTemplates
            &&& op.permission.1 == CoreAccountingAction::AccountingTemplateCreate
            &&& op.id == Some(id)
            &&& op.code == Some(code)
            &&& op.name == Some(name)
            &&& op.values == Some(values)
            &&& op.status is Running
            &&& op.done == 0
        }),
{
}

} // verus!
