use vstd::prelude::*;

use crate::error::ContractError;

verus! {

/// The choice that counts for a poll's question.
pub open spec fn yes() -> Seq<char> {
    "yes"@
}

/// The choice that counts against a poll's question.
pub open spec fn no() -> Seq<char> {
    "no"@
}

/// The value of a configuration record.
pub struct ConfigData {
    pub admin_address: Seq<char>,
}

/// The value of a poll record.
pub struct PollData {
    pub question: Seq<char>,
    pub yes_votes: u64,
    pub no_votes: u64,
}

impl PollData {
    /// The record of a poll that nobody has voted on yet.
    pub open spec fn fresh(question: Seq<char>) -> PollData {
        PollData { question, yes_votes: 0, no_votes: 0 }
    }

    /// The record after one more vote: "yes" and "no" each add one to their
    /// counter, any other choice is rejected, and so is a vote that the counter
    /// has no room for.
    pub open spec fn tally(self, choice: Seq<char>) -> Result<PollData, ContractError> {
        if choice == yes() {
            if self.yes_votes < u64::MAX {
                Ok(PollData { yes_votes: (self.yes_votes + 1) as u64, ..self })
            } else {
                Err(ContractError::Overflow)
            }
        } else if choice == no() {
            if self.no_votes < u64::MAX {
                Ok(PollData { no_votes: (self.no_votes + 1) as u64, ..self })
            } else {
                Err(ContractError::Overflow)
            }
        } else {
            Err(ContractError::InvalidChoice)
        }
    }
}

/// The single administrative record, written at setup.
#[derive(Clone, Debug, PartialEq)]
pub struct Config {
    pub admin_address: String,
}

impl View for Config {
    type V = ConfigData;

    open spec fn view(&self) -> ConfigData {
        ConfigData { admin_address: self.admin_address@ }
    }
}

/// A poll: its question, which is also the key it is stored under, and the
/// votes counted so far.
#[derive(Clone, Debug, PartialEq)]
pub struct Poll {
    pub question: String,
    pub yes_votes: u64,
    pub no_votes: u64,
}

impl View for Poll {
    type V = PollData;

    open spec fn view(&self) -> PollData {
        PollData {
            question: self.question@,
            yes_votes: self.yes_votes,
            no_votes: self.no_votes,
        }
    }
}

impl Poll {
    /// A poll on `question` with no votes.
    pub fn new(question: String) -> (poll: Poll)
        ensures
            poll@ == PollData::fresh(question@),
    {
        Poll { question, yes_votes: 0, no_votes: 0 }
    }

    /// Counts one vote. On an error the poll is left as it was.
    pub fn tally(&mut self, choice: &str) -> (outcome: Result<(), ContractError>)
        ensures
            match old(self)@.tally(choice@) {
                Ok(next) => outcome is Ok && final(self)@ == next,
                Err(e) => outcome == Err::<(), ContractError>(e) && final(self)@ == old(self)@,
            },
    {
        let given = choice.to_owned();
        if given == "yes".to_owned() {
            if self.yes_votes == u64::MAX {
                return Err(ContractError::Overflow);
            }
            self.yes_votes = self.yes_votes + 1;
            Ok(())
        } else if given == "no".to_owned() {
            if self.no_votes == u64::MAX {
                return Err(ContractError::Overflow);
            }
            self.no_votes = self.no_votes + 1;
            Ok(())
        } else {
            Err(ContractError::InvalidChoice)
        }
    }
}

} // verus!
