//! What a refused request is answered.
use vstd::prelude::*;

verus! {

/// Why the contract refused a request.
#[derive(Debug, PartialEq, Eq)]
pub enum ContractError {
    /// The account holds less of the token than the withdrawal asks for.
    UserBalanceNotEnough,
    /// The text does not have the length of an Aurora address; it carries the
    /// text.
    ParseAuroraAccountId(String),
    /// An Aurora address was named by a caller other than the Aurora engine,
    /// or an Aurora account was asked for as a NEAR account.
    AccountConversion,
    /// The account never deposited; it carries the account's name.
    AccountNotRegistered(String),
    /// The message of a transfer could not be read.
    Deserialize,
}

/// A [`ContractError`] with its text taken as characters.
pub enum ContractErrorView {
    UserBalanceNotEnough,
    ParseAuroraAccountId(Seq<char>),
    AccountConversion,
    AccountNotRegistered(Seq<char>),
    Deserialize,
}

impl View for ContractError {
    type V = ContractErrorView;

    open spec fn view(&self) -> ContractErrorView {
        match self {
            ContractError::UserBalanceNotEnough => ContractErrorView::UserBalanceNotEnough,
            ContractError::ParseAuroraAccountId(s) => ContractErrorView::ParseAuroraAccountId(s@),
            ContractError::AccountConversion => ContractErrorView::AccountConversion,
            ContractError::AccountNotRegistered(s) => ContractErrorView::AccountNotRegistered(s@),
            ContractError::Deserialize => ContractErrorView::Deserialize,
        }
    }
}

impl ContractErrorView {
    /// The message that the error is shown with; the text an error carries
    /// is not part of it.
    pub open spec fn message(self) -> Seq<char> {
        match self {
            ContractErrorView::UserBalanceNotEnough => "User has not enough balance"@,
            ContractErrorView::ParseAuroraAccountId(_) => "Could not parse aurora account"@,
            ContractErrorView::AccountConversion => "Error while converting aurora account"@,
            ContractErrorView::AccountNotRegistered(_) => "Account is not registered"@,
            ContractErrorView::Deserialize => "Deserialize"@,
        }
    }
}

impl ContractError {
    /// The message that the error is shown with.
    pub fn to_string(&self) -> (text: String)
        ensures
            text@ == self@.message(),
    {
        match self {
            ContractError::UserBalanceNotEnough => "User has not enough balance".to_owned(),
            ContractError::ParseAuroraAccountId(_) => "Could not parse aurora account".to_owned(),
            ContractError::AccountConversion => "Error while converting aurora account".to_owned(),
            ContractError::AccountNotRegistered(_) => "Account is not registered".to_owned(),
            ContractError::Deserialize => "Deserialize".to_owned(),
        }
    }
}

} // verus!
