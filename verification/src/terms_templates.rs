//! Templates for the terms of credits.
use vstd::prelude::*;

use crate::primitives::ids::{is_uuid_v7, TermsTemplateId};
use crate::primitives::permission::{CoreCreditTermsAction, CoreCreditTermsObject};
use crate::template_operation::{TemplateOperation, TemplateRequest};

verus! {

/// A permission that terms templates ask for.
pub type TermsPermission = (CoreCreditTermsObject, CoreCreditTermsAction);

/// An operation on terms templates. The values of a template are the caller's.
pub type TermsTemplateOperation<V, E> = TemplateOperation<TermsPermission, TermsTemplateId, V, E>;

/// A permission that is evaluated, and enforced if wanted.
#[derive(Debug, Clone, Copy, PartialEq, Eq, Structural)]
pub struct PermissionCheck {
    pub object: CoreCreditTermsObject,
    pub action: CoreCreditTermsAction,
    pub enforce: bool,
}

/// The terms templates.
#[derive(Debug, Clone, Copy, PartialEq, Eq, Structural)]
pub struct TermsTemplates;

impl TermsTemplates {
    /// What decides whether a subject can create templates.
    pub fn subject_can_create_terms_template(&self, enforce: bool) -> (res: PermissionCheck)
        ensures
            res == (PermissionCheck {
                object: CoreCreditTermsObject::AllTermsTemplates,
                action: CoreCreditTermsAction::TermsTemplateCreate,
                enforce,
            }),
    {
        PermissionCheck {
            object: CoreCreditTermsObject::AllTermsTemplates,
            action: CoreCreditTermsAction::TermsTemplateCreate,
            enforce,
        }
    }

    /// What decides whether a subject can update templates.
    pub fn subject_can_update_terms_template(&self, enforce: bool) -> (res: PermissionCheck)
        ensures
            res == (PermissionCheck {
                object: CoreCreditTermsObject::AllTermsTemplates,
                action: CoreCreditTermsAction::TermsTemplateUpdate,
                enforce,
            }),
    {
        PermissionCheck {
            object: CoreCreditTermsObject::AllTermsTemplates,
            action: CoreCreditTermsAction::TermsTemplateUpdate,
            enforce,
        }
    }

    /// Creates a template, under an identifier that is made up here.
    pub fn create_terms_template<V, E>(&self, name: String, values: V) -> (res:
        TermsTemplateOperation<V, E>)
        ensures
            exists|id: TermsTemplateId|
                is_uuid_v7(id.0) && res == (#[trigger] creating_terms_template::<V, E>(
                    id,
                    name,
                    values,
                )),
    {
        self.create_terms_template_as(TermsTemplateId::new(), name, values)
    }

    /// As `create_terms_template`, under the given identifier.
    pub fn create_terms_template_as<V, E>(
        &self,
        id: TermsTemplateId,
        name: String,
        values: V,
    ) -> (res: TermsTemplateOperation<V, E>)
        ensures
            res == creating_terms_template::<V, E>(id, name, values),
    {
        let check: PermissionCheck = self.subject_can_create_terms_template(true);
        TemplateOperation::start(
            TemplateRequest::CreateUnchecked,
            (check.object, check.action),
            Some(id),
            None,
            Some(name),
            Some(values),
        )
    }

    /// Changes the values of a template.
    pub fn update_term_values<V, E>(&self, id: TermsTemplateId, values: V) -> (res:
        TermsTemplateOperation<V, E>)
        ensures
            res == TermsTemplateOperation::<V, E>::started(
                TemplateRequest::UpdateValuesUnchecked,
                (
                    CoreCreditTermsObject::AllTermsTemplates,
                    CoreCreditTermsAction::TermsTemplateUpdate,
                ),
                Some(id),
                None,
                None,
                Some(values),
            ),
    {
        let check: PermissionCheck = self.subject_can_update_terms_template(true);
        TemplateOperation::start(
            TemplateRequest::UpdateValuesUnchecked,
            (check.object, check.action),
            Some(id),
            None,
            None,
            Some(values),
        )
    }

    /// Finds a template, if there is one with the identifier.
    pub fn find_by_id<V, E>(&self, id: TermsTemplateId) -> (res: TermsTemplateOperation<V, E>)
        ensures
            res == TermsTemplateOperation::<V, E>::started(
                TemplateRequest::Find,
                (
                    CoreCreditTermsObject::TermsTemplate(id),
                    CoreCreditTermsAction::TermsTemplateRead,
                ),
                Some(id),
                None,
                None,
                None,
            ),
    {
        TemplateOperation::start(
            TemplateRequest::Find,
            (
                CoreCreditTermsObject::TermsTemplate(id),
                CoreCreditTermsAction::TermsTemplateRead,
            ),
            Some(id),
            None,
            None,
            None,
        )
    }

    /// Lists all templates.
    pub fn list<V, E>(&self) -> (res: TermsTemplateOperation<V, E>)
        ensures
            res == TermsTemplateOperation::<V, E>::started(
                TemplateRequest::List,
                (
                    CoreCreditTermsObject::AllTermsTemplates,
                    CoreCreditTermsAction::TermsTemplateList,
                ),
                None,
                None,
                None,
                None,
            ),
    {
        TemplateOperation::start(
            TemplateRequest::List,
            (
                CoreCreditTermsObject::AllTermsTemplates,
                CoreCreditTermsAction::TermsTemplateList,
            ),
            None,
            None,
            None,
            None,
        )
    }
}

/// A template is to be created.
pub open spec fn creating_terms_template<V, E>(id: TermsTemplateId, name: String, values: V) ->
    TermsTemplateOperation<V, E> {
    TemplateOperation::started(
        TemplateRequest::CreateUnchecked,
        (
            CoreCreditTermsObject::AllTermsTemplates,
            CoreCreditTermsAction::TermsTemplateCreate,
        ),
        Some(id),
        None,
        Some(name),
        Some(values),
    )
}

/// A new template is created from the name and values that were given, under
/// the permission to create terms templates.
pub proof fn new_terms_template_is_as_given<V, E>(id: TermsTemplateId, name: String, values: V)
    ensures
        ({
            let op = creating_terms_template::<V, E>(id, name, values);
            &&& op.request == TemplateRequest::CreateUnchecked
            &&& op.permission.0 == CoreCreditTermsObject::AllTermsTemplates
            &&& op.permission.1 == CoreCreditTermsAction::TermsTemplateCreate
            &&& op.id == Some(id)
            &&& op.name == Some(name)
            &&& op.values == Some(values)
            &&& op.status is Running
            &&& op.done == 0
        }),
{
}

} // verus!
