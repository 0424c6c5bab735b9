//! The errors that the ledger's operations report.

use vstd::prelude::*;

verus! {

/// What a reference failed to resolve to.
#[derive(Debug, Clone, Copy, PartialEq, Eq, Structural)]
pub enum Missing {
    Section,
    SourceSection,
    TargetSection,
    Term,
    Sales,
}

/// Why an operation of the accounting service was refused.
#[derive(Debug, PartialEq, Eq)]
pub enum AccountingError {
    /// A referenced section, term or sales row does not exist.
    NotFound(Missing),
    /// A sale was to be registered while no term is open.
    NoOpenTerm,
    /// The date lies outside the term's window.
    OutOfRange,
    /// The amount of a sale is zero.
    InvalidAmount,
    /// The storage refused a write, with its own message.
    Storage(String),
}

impl AccountingError {
    /// The error in words.
    pub open spec fn text(self) -> Seq<char> {
        match self {
            AccountingError::NotFound(Missing::Section) => "Section not found"@,
            AccountingError::NotFound(Missing::SourceSection) => "Source section not found"@,
            AccountingError::NotFound(Missing::TargetSection) => "Target section not found"@,
            AccountingError::NotFound(Missing::Term) => "Term not found"@,
            AccountingError::NotFound(Missing::Sales) => "Sales not found"@,
            AccountingError::NoOpenTerm => "No open term found"@,
            AccountingError::OutOfRange => "Date is outside of the term"@,
            AccountingError::InvalidAmount => "Sales amount cannot be zero"@,
            AccountingError::Storage(message) => message@,
        }
    }

    /// The error in words; for a refused write, the store's own message.
    pub fn message(&self) -> (s: String)
        ensures
            s@ == self.text(),
    {
        broadcast use vstd::string::to_string_from_display_ensures_for_str;

        match self {
            AccountingError::NotFound(Missing::Section) => "Section not found".to_string(),
            AccountingError::NotFound(Missing::SourceSection) => {
                "Source section not found".to_string()
            },
            AccountingError::NotFound(Missing::TargetSection) => {
                "Target section not found".to_string()
            },
            AccountingError::NotFound(Missing::Term) => "Term not found".to_string(),
            AccountingError::NotFound(Missing::Sales) => "Sales not found".to_string(),
            AccountingError::NoOpenTerm => "No open term found".to_string(),
            AccountingError::OutOfRange => "Date is outside of the term".to_string(),
            AccountingError::InvalidAmount => "Sales amount cannot be zero".to_string(),
            AccountingError::Storage(message) => message.clone(),
        }
    }
}

impl Clone for AccountingError {
    fn clone(&self) -> (e: AccountingError)
        ensures
            e == *self,
    {
        match self {
            AccountingError::NotFound(missing) => AccountingError::NotFound(*missing),
            AccountingError::NoOpenTerm => AccountingError::NoOpenTerm,
            AccountingError::OutOfRange => AccountingError::OutOfRange,
            AccountingError::InvalidAmount => AccountingError::InvalidAmount,
            AccountingError::Storage(message) => AccountingError::Storage(message.clone()),
        }
    }
}

} // verus!
