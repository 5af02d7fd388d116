//! Accounts as they are described before they stand in a chart.
use std::str::FromStr;
use vstd::prelude::*;

use super::account_code::{is_parent_code, parent_code_is_a_beginning, section_texts};
use super::account_code::{AccountCode, AccountCodeParseError, AccountCodeSection};
use super::ids::{CalaAccountSetId, LedgerAccountId};

verus! {

/// The side on which an account normally carries its balance.
#[derive(Debug, Clone, Copy, PartialEq, Eq, Hash, Structural)]
pub enum DebitOrCredit {
    Debit,
    Credit,
}

/// A name may not be empty.
#[derive(Debug, Clone, Copy, PartialEq, Eq, Structural)]
pub enum AccountNameParseError {
    Empty,
}

/// The name of an account.
#[derive(Debug, PartialEq, Eq, Hash)]
pub struct AccountName {
    name: String,
}

impl View for AccountName {
    type V = Seq<char>;

    closed spec fn view(&self) -> Seq<char> {
        self.name@
    }
}

impl Clone for AccountName {
    fn clone(&self) -> (res: Self)
        ensures
            res@ == self@,
    {
        AccountName { name: self.name.clone() }
    }
}

impl AccountName {
    /// Reads a name. Only the empty text is refused.
    pub fn try_new(text: &str) -> (res: Result<Self, AccountNameParseError>)
        ensures
            match res {
                Ok(name) => text@.len() > 0 && name@ == text@,
                Err(AccountNameParseError::Empty) => text@.len() == 0,
            },
    {
        if text.unicode_len() == 0 {
            Err(AccountNameParseError::Empty)
        } else {
            Ok(AccountName { name: text.to_owned() })
        }
    }

    /// The name as text.
    pub fn as_str(&self) -> (res: &str)
        ensures
            res@ == self@,
    {
        self.name.as_str()
    }
}

impl FromStr for AccountName {
    type Err = AccountNameParseError;

    /// As `try_new`.
    fn from_str(s: &str) -> (res: Result<Self, AccountNameParseError>)
        ensures
            match res {
                Ok(name) => s@.len() > 0 && name@ == s@,
                Err(AccountNameParseError::Empty) => s@.len() == 0,
            },
    {
        AccountName::try_new(s)
    }
}

/// The view of an optional value.
pub open spec fn option_view<T: View>(value: Option<T>) -> Option<T::V> {
    match value {
        Some(inner) => Some(inner@),
        None => None,
    }
}

/// The views of a list of values.
pub open spec fn views<T: View>(values: Seq<T>) -> Seq<T::V> {
    values.map_values(|value: T| value@)
}

/// The views of values are taken one by one, in their order.
pub proof fn views_are_taken_one_by_one<T: View>(values: Seq<T>, value: T, i: int)
    ensures
        views(values).len() == values.len(),
        0 <= i < values.len() ==> views(values)[i] == values[i]@,
        option_view(Some(value)) == Some(value@),
        option_view(None::<T>) is None,
{
}

/// What an account of a chart is to be: its code and name, the code of its
/// parent and the side of its balance.
#[derive(Debug, PartialEq, Eq)]
pub struct AccountSpec {
    pub parent: Option<AccountCode>,
    pub code: AccountCode,
    pub name: AccountName,
    pub normal_balance_type: DebitOrCredit,
}

/// The value of an `AccountSpec`.
#[verifier::ext_equal]
pub struct AccountSpecView {
    pub parent: Option<Seq<Seq<char>>>,
    pub code: Seq<Seq<char>>,
    pub name: Seq<char>,
    pub normal_balance_type: DebitOrCredit,
}

impl AccountSpecView {
    /// The parent, where there is one, is a parent code of the code.
    pub open spec fn has_valid_parent(self) -> bool {
        self.parent matches Some(parent) ==> is_parent_code(parent, self.code)
    }
}

impl AccountSpecView {
    /// An account without a parent is as good as one whose parent code is a
    /// proper, non-empty beginning of its own.
    pub proof fn valid_parent_is_a_beginning(self)
        ensures
            self.parent is None ==> self.has_valid_parent(),
            self.parent matches Some(parent) ==> (self.has_valid_parent() <==> 0 < parent.len()
                < self.code.len() && forall|i: int|
                0 <= i < parent.len() ==> #[trigger] self.code[i] == parent[i]),
    {
        if let Some(parent) = self.parent {
            parent_code_is_a_beginning(parent, self.code);
        }
    }
}

impl View for AccountSpec {
    type V = AccountSpecView;

    open spec fn view(&self) -> AccountSpecView {
        AccountSpecView {
            parent: option_view(self.parent),
            code: self.code@,
            name: self.name@,
            normal_balance_type: self.normal_balance_type,
        }
    }
}

impl Clone for AccountSpec {
    fn clone(&self) -> (res: Self)
        ensures
            res@ == self@,
    {
        AccountSpec {
            parent: self.parent_code(),
            code: self.code.clone(),
            name: self.name.clone(),
            normal_balance_type: self.normal_balance_type,
        }
    }
}

impl AccountSpec {
    /// Describes an account. A parent that is no parent code of the given
    /// sections is refused.
    pub fn try_new(
        parent: Option<AccountCode>,
        sections: Vec<AccountCodeSection>,
        name: AccountName,
        normal_balance_type: DebitOrCredit,
    ) -> (res: Result<Self, AccountCodeParseError>)
        ensures
            ({
                let described = AccountSpecView {
                    parent: option_view(parent),
                    code: section_texts(sections@),
                    name: name@,
                    normal_balance_type,
                };
                match res {
                    Ok(spec) => described.has_valid_parent() && spec@ == described,
                    Err(e) => !described.has_valid_parent() && e is InvalidParent,
                }
            }),
    {
        let code: AccountCode = AccountCode::new(sections);
        if let Some(parent_code) = &parent {
            if !parent_code.is_parent_of(&code) {
                return Err(AccountCodeParseError::InvalidParent);
            }
        }
        Ok(AccountSpec { parent, code, name, normal_balance_type })
    }

    /// The code of the account's parent.
    pub fn parent_code(&self) -> (res: Option<AccountCode>)
        ensures
            option_view(res) == self@.parent,
    {
        match &self.parent {
            Some(parent) => Some(parent.clone()),
            None => None,
        }
    }

    /// Whether the account's parent has the given code.
    pub fn has_parent(&self, code: &AccountCode) -> (res: bool)
        ensures
            res == (self@.parent == Some(code@)),
    {
        match &self.parent {
            Some(parent) => parent.same(code),
            None => false,
        }
    }
}

/// Names an account by its identifier or by its code.
#[derive(Debug)]
pub enum AccountIdOrCode {
    Id(LedgerAccountId),
    Code(AccountCode),
}

/// The value of an `AccountIdOrCode`.
pub enum AccountIdOrCodeView {
    Id(LedgerAccountId),
    Code(Seq<Seq<char>>),
}

impl View for AccountIdOrCode {
    type V = AccountIdOrCodeView;

    open spec fn view(&self) -> AccountIdOrCodeView {
        match self {
            AccountIdOrCode::Id(id) => AccountIdOrCodeView::Id(*id),
            AccountIdOrCode::Code(code) => AccountIdOrCodeView::Code(code@),
        }
    }
}

impl Clone for AccountIdOrCode {
    fn clone(&self) -> (res: Self)
        ensures
            res@ == self@,
    {
        match self {
            AccountIdOrCode::Id(id) => AccountIdOrCode::Id(*id),
            AccountIdOrCode::Code(code) => AccountIdOrCode::Code(code.clone()),
        }
    }
}

/// An account set as it is listed under another one.
#[derive(Debug, PartialEq, Eq)]
pub struct AccountSetMember {
    pub account_set_id: CalaAccountSetId,
    pub code: AccountCode,
    pub name: AccountName,
}

/// The value of an `AccountSetMember`.
#[verifier::ext_equal]
pub struct AccountSetMemberView {
    pub account_set_id: CalaAccountSetId,
    pub code: Seq<Seq<char>>,
    pub name: Seq<char>,
}

impl View for AccountSetMember {
    type V = AccountSetMemberView;

    open spec fn view(&self) -> AccountSetMemberView {
        AccountSetMemberView {
            account_set_id: self.account_set_id,
            code: self.code@,
            name: self.name@,
        }
    }
}

} // verus!
