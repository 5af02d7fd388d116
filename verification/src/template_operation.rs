//! Operations on templates, as what is to be done next and what comes back.
use vstd::prelude::*;

verus! {

/// What an operation on a template was asked to do.
#[derive(Debug, Clone, Copy, PartialEq, Eq, Structural)]
pub enum TemplateRequest {
    /// Create a template out of a code, a name and values that are checked.
    Create,
    /// Create a template out of a name and values as they are.
    CreateUnchecked,
    /// Change the name of a template to one that is checked.
    UpdateName,
    /// Change the values of a template to some that are checked.
    UpdateValues,
    /// Change the values of a template to some as they are.
    UpdateValuesUnchecked,
    /// Find a template.
    Find,
    /// List all templates.
    List,
}

/// One thing that an operation on a template wants done.
#[derive(Debug, Clone, Copy, PartialEq, Eq, Structural)]
pub enum TemplateTask {
    /// Ask for the operation's permission.
    Permission,
    /// Check the operation's code, and bring it into form.
    ValidateCode,
    /// Check the operation's name, and bring it into form.
    ValidateName,
    /// Check the operation's values.
    ValidateValues,
    /// Store a new template.
    Create,
    /// Look for the template with the operation's identifier.
    Find,
    /// Give the template the operation's name.
    ChangeName,
    /// Give the template the operation's values.
    ChangeValues,
    /// Store what has changed in the template.
    Update,
    /// List all templates.
    ListAll,
}

/// What comes back when a task was carried out.
#[derive(Debug)]
pub enum TemplateReply<E> {
    /// It is done.
    Done,
    /// The text that was checked, in form.
    Validated { text: String },
    /// There is no such template.
    NotFound { error: E },
    /// Whether the template was changed.
    Changed { executed: bool },
    /// It could not be done.
    Failed { error: E },
}

/// How far an operation on a template is.
#[derive(Debug)]
pub enum TemplateStatus<E> {
    Running,
    /// The end, with the template that the operation is about, or with the
    /// list of all templates.
    Finished,
    /// The end, where the template was looked for and there is none.
    FinishedWithout,
    Failed { error: E },
}

/// An operation on templates, with what is needed to carry out its tasks.
#[derive(Debug)]
pub struct TemplateOperation<P, I, V, E> {
    pub request: TemplateRequest,
    pub permission: P,
    pub id: Option<I>,
    pub code: Option<String>,
    pub name: Option<String>,
    pub values: Option<V>,
    /// How many tasks are done.
    pub done: usize,
    pub status: TemplateStatus<E>,
}

impl TemplateRequest {
    /// The tasks of a request, in their order.
    pub open spec fn script(self) -> Seq<TemplateTask> {
        match self {
            TemplateRequest::Create => seq![
                TemplateTask::Permission,
                TemplateTask::ValidateCode,
                TemplateTask::ValidateName,
                TemplateTask::ValidateValues,
                TemplateTask::Create,
            ],
            TemplateRequest::CreateUnchecked => seq![
                TemplateTask::Permission,
                TemplateTask::Create,
            ],
            TemplateRequest::UpdateName => seq![
                TemplateTask::Permission,
                TemplateTask::ValidateName,
                TemplateTask::Find,
                TemplateTask::ChangeName,
                TemplateTask::Update,
            ],
            TemplateRequest::UpdateValues => seq![
                TemplateTask::Permission,
                TemplateTask::ValidateValues,
                TemplateTask::Find,
                TemplateTask::ChangeValues,
                TemplateTask::Update,
            ],
            TemplateRequest::UpdateValuesUnchecked => seq![
                TemplateTask::Permission,
                TemplateTask::Find,
                TemplateTask::ChangeValues,
                TemplateTask::Update,
            ],
            TemplateRequest::Find => seq![TemplateTask::Permission, TemplateTask::Find],
            TemplateRequest::List => seq![TemplateTask::Permission, TemplateTask::ListAll],
        }
    }

    /// The task at a place of the script.
    fn task_at(&self, at: usize) -> (res: Option<TemplateTask>)
        ensures
            res == (if at < self.script().len() {
                Some(self.script()[at as int])
            } else {
                None
            }),
    {
        let task: TemplateTask = match (self, at) {
            (_, 0) => TemplateTask::Permission,
            (TemplateRequest::Create, 1) => TemplateTask::ValidateCode,
            (TemplateRequest::Create, 2) => TemplateTask::ValidateName,
            (TemplateRequest::Create, 3) => TemplateTask::ValidateValues,
            (TemplateRequest::Create, 4) => TemplateTask::Create,
            (TemplateRequest::CreateUnchecked, 1) => TemplateTask::Create,
            (TemplateRequest::UpdateName, 1) => TemplateTask::ValidateName,
            (TemplateRequest::UpdateName, 2) => TemplateTask::Find,
            (TemplateRequest::UpdateName, 3) => TemplateTask::ChangeName,
            (TemplateRequest::UpdateName, 4) => TemplateTask::Update,
            (TemplateRequest::UpdateValues, 1) => TemplateTask::ValidateValues,
            (TemplateRequest::UpdateValues, 2) => TemplateTask::Find,
            (TemplateRequest::UpdateValues, 3) => TemplateTask::ChangeValues,
            (TemplateRequest::UpdateValues, 4) => TemplateTask::Update,
            (TemplateRequest::UpdateValuesUnchecked, 1) => TemplateTask::Find,
            (TemplateRequest::UpdateValuesUnchecked, 2) => TemplateTask::ChangeValues,
            (TemplateRequest::UpdateValuesUnchecked, 3) => TemplateTask::Update,
            (TemplateRequest::Find, 1) => TemplateTask::Find,
            (TemplateRequest::List, 1) => TemplateTask::ListAll,
            _ => {
                return None;
            },
        };
        Some(task)
    }
}

impl<P, I, V, E> TemplateOperation<P, I, V, E> {
    /// An operation that has all its tasks before it.
    pub open spec fn started(
        request: TemplateRequest,
        permission: P,
        id: Option<I>,
        code: Option<String>,
        name: Option<String>,
        values: Option<V>,
    ) -> Self {
        TemplateOperation {
            request,
            permission,
            id,
            code,
            name,
            values,
            done: 0,
            status: TemplateStatus::Running,
        }
    }

    /// What is to be done next.
    pub open spec fn next_task(self) -> Option<TemplateTask> {
        if self.status is Running && self.done < self.request.script().len() {
            Some(self.request.script()[self.done as int])
        } else {
            None
        }
    }

    /// One more task is done. After the last one the operation is at its end.
    pub open spec fn advanced(self) -> Self {
        TemplateOperation {
            done: (self.done + 1) as usize,
            status: if self.done + 1 < self.request.script().len() {
                TemplateStatus::Running
            } else {
                TemplateStatus::Finished
            },
            ..self
        }
    }

    /// The operation after a reply to its task. A reply that does not fit the
    /// task changes nothing.
    pub open spec fn after(self, reply: TemplateReply<E>) -> Self {
        match (self.next_task(), reply) {
            (None, _) => self,
            (Some(_), TemplateReply::Failed { error }) => TemplateOperation {
                status: TemplateStatus::Failed { error },
                ..self
            },
            (
                Some(TemplateTask::ValidateCode),
                TemplateReply::Validated { text },
            ) => TemplateOperation { code: Some(text), ..self }.advanced(),
            (
                Some(TemplateTask::ValidateName),
                TemplateReply::Validated { text },
            ) => TemplateOperation { name: Some(text), ..self }.advanced(),
            (Some(TemplateTask::Find), TemplateReply::NotFound { error }) => TemplateOperation {
                status: if self.request == TemplateRequest::Find {
                    TemplateStatus::FinishedWithout
                } else {
                    TemplateStatus::Failed { error }
                },
                ..self
            },
            (Some(task), TemplateReply::Changed { executed }) => if task
                == TemplateTask::ChangeName || task == TemplateTask::ChangeValues {
                if executed {
                    self.advanced()
                } else {
                    TemplateOperation { status: TemplateStatus::Finished, ..self }
                }
            } else {
                self
            },
            (Some(task), TemplateReply::Done) => match task {
                TemplateTask::ValidateCode => self,
                TemplateTask::ValidateName => self,
                TemplateTask::ChangeName => self,
                TemplateTask::ChangeValues => self,
                _ => self.advanced(),
            },
            _ => self,
        }
    }

    /// What is to be done next.
    pub fn pending(&self) -> (res: Option<TemplateTask>)
        ensures
            res == self.next_task(),
    {
        match &self.status {
            TemplateStatus::Running => self.request.task_at(self.done),
            _ => None,
        }
    }

    /// An operation that has all its tasks before it.
    pub(crate) fn start(
        request: TemplateRequest,
        permission: P,
        id: Option<I>,
        code: Option<String>,
        name: Option<String>,
        values: Option<V>,
    ) -> (res: Self)
        ensures
            res == Self::started(request, permission, id, code, name, values),
    {
        TemplateOperation {
            request,
            permission,
            id,
            code,
            name,
            values,
            done: 0,
            status: TemplateStatus::Running,
        }
    }

    fn advance(self) -> (res: Self)
        requires
            self.next_task() is Some,
        ensures
            res == self.advanced(),
    {
        let done: usize = self.done + 1;
        let status: TemplateStatus<E> = match self.request.task_at(done) {
            Some(_) => TemplateStatus::Running,
            None => TemplateStatus::Finished,
        };
        TemplateOperation { done, status, ..self }
    }

    /// Takes a reply to the task that is pending.
    pub fn step(self, reply: TemplateReply<E>) -> (res: Self)
        ensures
            res == self.after(reply),
    {
        let task: TemplateTask = match self.pending() {
            Some(task) => task,
            None => {
                return self;
            },
        };
        match (task, reply) {
            (_, TemplateReply::Failed { error }) => TemplateOperation {
                status: TemplateStatus::Failed { error },
                ..self
            },
            (TemplateTask::ValidateCode, TemplateReply::Validated { text }) => TemplateOperation {
                code: Some(text),
                ..self
            }.advance(),
            (TemplateTask::ValidateName, TemplateReply::Validated { text }) => TemplateOperation {
                name: Some(text),
                ..self
            }.advance(),
            (TemplateTask::Find, TemplateReply::NotFound { error }) => {
                let status: TemplateStatus<E> = if self.request == TemplateRequest::Find {
                    TemplateStatus::FinishedWithout
                } else {
                    TemplateStatus::Failed { error }
                };
                TemplateOperation { status, ..self }
            },
            (task, TemplateReply::Changed { executed }) => if task == TemplateTask::ChangeName
                || task == TemplateTask::ChangeValues {
                if executed {
                    self.advance()
                } else {
                    TemplateOperation { status: TemplateStatus::Finished, ..self }
                }
            } else {
                self
            },
            (task, TemplateReply::Done) => match task {
                TemplateTask::ValidateCode => self,
                TemplateTask::ValidateName => self,
                TemplateTask::ChangeName => self,
                TemplateTask::ChangeValues => self,
                _ => self.advance(),
            },
            _ => self,
        }
    }
}

/// Permission is the first thing that every operation on templates asks for,
/// and a refusal ends the operation with its error and nothing done.
pub proof fn permission_comes_first<P, I, V, E>(op: TemplateOperation<P, I, V, E>, error: E)
    requires
        op.status is Running,
        op.done == 0,
    ensures
        op.next_task() == Some(TemplateTask::Permission),
        op.after(TemplateReply::Failed { error }) == (TemplateOperation {
            status: TemplateStatus::Failed { error },
            ..op
        }),
        op.after(TemplateReply::Failed { error }).next_task() is None,
{
}

/// A template is stored only as the last task of an operation, when all
/// before it is done.
pub proof fn storing_comes_last<P, I, V, E>(op: TemplateOperation<P, I, V, E>)
    requires
        op.next_task() == Some(TemplateTask::Create) || op.next_task() == Some(
            TemplateTask::Update,
        ),
    ensures
        op.done == op.request.script().len() - 1,
        op.after(TemplateReply::Done).status is Finished,
{
}

/// A template that is not changed is not stored.
pub proof fn unchanged_is_not_stored<P, I, V, E>(op: TemplateOperation<P, I, V, E>)
    requires
        op.next_task() == Some(TemplateTask::ChangeName) || op.next_task() == Some(
            TemplateTask::ChangeValues,
        ),
    ensures
        op.after(TemplateReply::Changed { executed: false }).status is Finished,
        op.after(TemplateReply::Changed { executed: false }).next_task() is None,
        op.after(TemplateReply::Changed { executed: true }).next_task() == Some(
            TemplateTask::Update,
        ),
{
}

/// An operation that is at its end stays as it is.
pub proof fn ended_template_operations_stay<P, I, V, E>(
    op: TemplateOperation<P, I, V, E>,
    reply: TemplateReply<E>,
)
    requires
        !(op.status is Running),
    ensures
        op.after(reply) == op,
{
}

/// A started operation has what it was given, and all its tasks before it.
pub proof fn started_template_operation_has_done_nothing<P, I, V, E>(
    request: TemplateRequest,
    permission: P,
    id: Option<I>,
    code: Option<String>,
    name: Option<String>,
    values: Option<V>,
)
    ensures
        ({
            let op = TemplateOperation::<P, I, V, E>::started(
                request,
                permission,
                id,
                code,
                name,
                values,
            );
            &&& op.request == request
            &&& op.permission == permission
            &&& op.id == id
            &&& op.code == code
            &&& op.name == name
            &&& op.values == values
            &&& op.status is Running
            &&& op.done == 0
            &&& op.next_task() == Some(TemplateTask::Permission)
        }),
{
}

/// What an operation is about stays the same: whatever is replied, its request,
/// permission, identifier and values are kept, and its code and name too unless
/// they are brought into form.
pub proof fn template_operation_keeps_what_it_is_about<P, I, V, E>(
    op: TemplateOperation<P, I, V, E>,
    reply: TemplateReply<E>,
)
    ensures
        op.after(reply).request == op.request,
        op.after(reply).permission == op.permission,
        op.after(reply).id == op.id,
        op.after(reply).values == op.values,
        op.next_task() != Some(TemplateTask::ValidateCode) ==> op.after(reply).code == op.code,
        op.next_task() != Some(TemplateTask::ValidateName) ==> op.after(reply).name == op.name,
{
}

/// Only a reply that fits a task takes an operation on templates on. Any other
/// reply but a failure leaves the operation as it is.
pub proof fn only_a_fitting_template_reply_counts<P, I, V, E>(
    op: TemplateOperation<P, I, V, E>,
    reply: TemplateReply<E>,
)
    requires
        op.next_task() is Some,
        !(reply is Failed),
    ensures
        ({
            let task = op.next_task()->0;
            &&& (task is ValidateCode || task is ValidateName) && !(reply is Validated)
                ==> op.after(reply) == op
            &&& (task is ChangeName || task is ChangeValues) && !(reply is Changed) ==> op.after(
                reply,
            ) == op
            &&& task is Find && !(reply is Done || reply is NotFound) ==> op.after(reply) == op
            &&& (task is Permission || task is ValidateValues || task is Create || task is Update
                || task is ListAll) && !(reply is Done) ==> op.after(reply) == op
        }),
{
}

/// A template is created when permission is given, its code and name are checked
/// and brought into form, and its values are checked, in this order.
pub proof fn template_is_created_from_checked_parts<P, I, V, E>(
    op: TemplateOperation<P, I, V, E>,
    code: String,
    name: String,
)
    requires
        op.request == TemplateRequest::Create,
        op.status is Running,
        op.done == 0,
    ensures
        ({
            let permitted = op.after(TemplateReply::Done);
            let coded = permitted.after(TemplateReply::Validated { text: code });
            let named = coded.after(TemplateReply::Validated { text: name });
            let checked = named.after(TemplateReply::Done);
            let created = checked.after(TemplateReply::Done);
            &&& op.next_task() == Some(TemplateTask::Permission)
            &&& permitted.next_task() == Some(TemplateTask::ValidateCode)
            &&& coded.next_task() == Some(TemplateTask::ValidateName)
            &&& coded.code == Some(code)
            &&& named.next_task() == Some(TemplateTask::ValidateValues)
            &&& named.name == Some(name)
            &&& checked.next_task() == Some(TemplateTask::Create)
            &&& checked.code == Some(code)
            &&& checked.name == Some(name)
            &&& checked.values == op.values
            &&& created.status is Finished
        }),
{
}

/// A template with unchecked parts is created when permission is given.
pub proof fn template_is_created_unchecked<P, I, V, E>(op: TemplateOperation<P, I, V, E>)
    requires
        op.request == TemplateRequest::CreateUnchecked,
        op.status is Running,
        op.done == 0,
    ensures
        op.next_task() == Some(TemplateTask::Permission),
        op.after(TemplateReply::Done).next_task() == Some(TemplateTask::Create),
        op.after(TemplateReply::Done).after(TemplateReply::Done).status is Finished,
{
}

/// A template gets a new name when permission is given, the name is checked and
/// the template is found, in this order, and is stored if the name changed it. A
/// template that is not found fails.
pub proof fn template_is_renamed<P, I, V, E>(
    op: TemplateOperation<P, I, V, E>,
    name: String,
    error: E,
)
    requires
        op.request == TemplateRequest::UpdateName,
        op.status is Running,
        op.done == 0,
    ensures
        ({
            let permitted = op.after(TemplateReply::Done);
            let named = permitted.after(TemplateReply::Validated { text: name });
            let found = named.after(TemplateReply::Done);
            let changed = found.after(TemplateReply::Changed { executed: true });
            &&& op.next_task() == Some(TemplateTask::Permission)
            &&& permitted.next_task() == Some(TemplateTask::ValidateName)
            &&& named.next_task() == Some(TemplateTask::Find)
            &&& named.name == Some(name)
            &&& named.after(TemplateReply::NotFound { error }).status == (
            TemplateStatus::Failed::<E> { error })
            &&& found.next_task() == Some(TemplateTask::ChangeName)
            &&& found.after(TemplateReply::Changed { executed: false }).status is Finished
            &&& changed.next_task() == Some(TemplateTask::Update)
            &&& changed.after(TemplateReply::Done).status is Finished
        }),
{
}

/// A template gets new values when permission is given, the values are checked
/// and the template is found, in this order, and is stored if they changed it. A
/// template that is not found fails.
pub proof fn template_gets_checked_values<P, I, V, E>(
    op: TemplateOperation<P, I, V, E>,
    error: E,
)
    requires
        op.request == TemplateRequest::UpdateValues,
        op.status is Running,
        op.done == 0,
    ensures
        ({
            let permitted = op.after(TemplateReply::Done);
            let checked = permitted.after(TemplateReply::Done);
            let found = checked.after(TemplateReply::Done);
            let changed = found.after(TemplateReply::Changed { executed: true });
            &&& op.next_task() == Some(TemplateTask::Permission)
            &&& permitted.next_task() == Some(TemplateTask::ValidateValues)
            &&& checked.next_task() == Some(TemplateTask::Find)
            &&& checked.after(TemplateReply::NotFound { error }).status == (
            TemplateStatus::Failed::<E> { error })
            &&& found.next_task() == Some(TemplateTask::ChangeValues)
            &&& found.after(TemplateReply::Changed { executed: false }).status is Finished
            &&& changed.next_task() == Some(TemplateTask::Update)
            &&& changed.after(TemplateReply::Done).status is Finished
        }),
{
}

/// As before, for values that are not checked.
pub proof fn template_gets_unchecked_values<P, I, V, E>(
    op: TemplateOperation<P, I, V, E>,
    error: E,
)
    requires
        op.request == TemplateRequest::UpdateValuesUnchecked,
        op.status is Running,
        op.done == 0,
    ensures
        ({
            let permitted = op.after(TemplateReply::Done);
            let found = permitted.after(TemplateReply::Done);
            let changed = found.after(TemplateReply::Changed { executed: true });
            &&& op.next_task() == Some(TemplateTask::Permission)
            &&& permitted.next_task() == Some(TemplateTask::Find)
            &&& permitted.after(TemplateReply::NotFound { error }).status == (
            TemplateStatus::Failed::<E> { error })
            &&& found.next_task() == Some(TemplateTask::ChangeValues)
            &&& found.after(TemplateReply::Changed { executed: false }).status is Finished
            &&& changed.next_task() == Some(TemplateTask::Update)
            &&& changed.after(TemplateReply::Done).status is Finished
        }),
{
}

/// A template is looked for when permission is given. That there is none is no
/// error, but that it could not be looked for is one.
pub proof fn template_is_found_or_not<P, I, V, E>(op: TemplateOperation<P, I, V, E>, error: E)
    requires
        op.request == TemplateRequest::Find,
        op.status is Running,
        op.done == 0,
    ensures
        ({
            let permitted = op.after(TemplateReply::Done);
            &&& op.next_task() == Some(TemplateTask::Permission)
            &&& permitted.next_task() == Some(TemplateTask::Find)
            &&& permitted.after(TemplateReply::Done).status is Finished
            &&& permitted.after(TemplateReply::NotFound { error }).status is FinishedWithout
            &&& permitted.after(TemplateReply::Failed { error }).status == (
            TemplateStatus::Failed::<E> { error })
        }),
{
}

/// All templates are listed when permission is given.
pub proof fn templates_are_listed<P, I, V, E>(op: TemplateOperation<P, I, V, E>)
    requires
        op.request == TemplateRequest::List,
        op.status is Running,
        op.done == 0,
    ensures
        op.next_task() == Some(TemplateTask::Permission),
        op.after(TemplateReply::Done).next_task() == Some(TemplateTask::ListAll),
        op.after(TemplateReply::Done).after(TemplateReply::Done).status is Finished,
{
}

} // verus!
