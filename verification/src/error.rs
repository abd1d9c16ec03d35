use vstd::prelude::*;

verus! {

/// Why a request was rejected. A rejected request leaves the stored records as
/// they were.
#[derive(Clone, Copy, Debug, PartialEq, Eq, Structural)]
pub enum ContractError {
    /// The administrator address did not pass the chain's validation.
    ValidationError,
    /// A poll with this question exists already.
    AlreadyExists,
    /// No record stands under the key that was asked for.
    NotFound,
    /// The choice is neither "yes" nor "no".
    InvalidChoice,
    /// The counter that the vote goes to holds the largest value it can.
    Overflow,
    /// A record stands under the key, but its bytes could not be read back.
    Storage,
}

impl ContractError {
    /// The text that tells a caller what went wrong.
    pub open spec fn text(self) -> Seq<char> {
        match self {
            ContractError::ValidationError => "Invalid administrator address!"@,
            ContractError::AlreadyExists => "Key already taken!"@,
            ContractError::NotFound => "Poll does not exist!"@,
            ContractError::InvalidChoice => "Unrecognised choice!"@,
            ContractError::Overflow => "Vote counter is full!"@,
            ContractError::Storage => "Stored record is unreadable!"@,
        }
    }

    /// The text of the error, as a string.
    pub fn message(&self) -> (message: String)
        ensures
            message@ == self.text(),
    {
        match self {
            ContractError::ValidationError => "Invalid administrator address!".to_owned(),
            ContractError::AlreadyExists => "Key already taken!".to_owned(),
            ContractError::NotFound => "Poll does not exist!".to_owned(),
            ContractError::InvalidChoice => "Unrecognised choice!".to_owned(),
            ContractError::Overflow => "Vote counter is full!".to_owned(),
            ContractError::Storage => "Stored record is unreadable!".to_owned(),
        }
    }
}

} // verus!
