use vstd::prelude::*;

use crate::error::ContractError;
use crate::state::{ConfigData, PollData};

verus! {

/// What stands under a key of the storage that holds something: a record, or
/// bytes that cannot be read back as one.
pub enum Stored<T> {
    Readable(T),
    Unreadable,
}

/// The stored records as one mathematical value: the configuration, if it was
/// ever written, and the polls, each under its question.
#[verifier::ext_equal]
pub struct Ledger {
    pub config: Option<Stored<ConfigData>>,
    pub polls: Map<Seq<char>, Stored<PollData>>,
}

/// The result of one request: the records after it, and what the caller is
/// told.
pub struct Transition<T> {
    pub ledger: Ledger,
    pub outcome: Result<T, ContractError>,
}

impl Ledger {
    /// Whether a record stands under `question`.
    pub open spec fn has_poll(self, question: Seq<char>) -> bool {
        self.polls.dom().contains(question)
    }

    /// Every record that is stored can be read back.
    pub open spec fn readable(self) -> bool {
        &&& self.config != Some(Stored::<ConfigData>::Unreadable)
        &&& forall|q: Seq<char>| #[trigger]
            self.polls.dom().contains(q) ==> self.polls[q] != Stored::<PollData>::Unreadable
    }

    /// Every poll that can be read is stored under its own question.
    pub open spec fn keyed_by_question(self) -> bool {
        forall|q: Seq<char>| #[trigger]
            self.polls.dom().contains(q) ==> (self.polls[q] matches Stored::Readable(poll)
                ==> poll.question == q)
    }

    /// Setup: the configuration is written over whatever stood there. A failed
    /// validation of the address writes nothing.
    pub open spec fn initialize(self, validated: Option<Seq<char>>) -> Transition<ConfigData> {
        match validated {
            Some(admin_address) => {
                let config = ConfigData { admin_address };
                Transition {
                    ledger: Ledger { config: Some(Stored::Readable(config)), ..self },
                    outcome: Ok(config),
                }
            },
            None => Transition { ledger: self, outcome: Err(ContractError::ValidationError) },
        }
    }

    /// A new poll is stored under its question, unless that key is taken.
    pub open spec fn create_poll(self, question: Seq<char>) -> Transition<PollData> {
        if self.has_poll(question) {
            Transition { ledger: self, outcome: Err(ContractError::AlreadyExists) }
        } else {
            let poll = PollData::fresh(question);
            Transition {
                ledger: Ledger {
                    polls: self.polls.insert(question, Stored::Readable(poll)),
                    ..self
                },
                outcome: Ok(poll),
            }
        }
    }

    /// One vote on the poll under `question`. The key is looked up first, then
    /// the record is read, then the choice is judged; only a vote that passes
    /// all three changes the record.
    pub open spec fn cast_vote(self, question: Seq<char>, choice: Seq<char>) -> Transition<
        PollData,
    > {
        if !self.has_poll(question) {
            Transition { ledger: self, outcome: Err(ContractError::NotFound) }
        } else {
            match self.polls[question] {
                Stored::Unreadable => Transition {
                    ledger: self,
                    outcome: Err(ContractError::Storage),
                },
                Stored::Readable(poll) => match poll.tally(choice) {
                    Ok(counted) => Transition {
                        ledger: Ledger {
                            polls: self.polls.insert(question, Stored::Readable(counted)),
                            ..self
                        },
                        outcome: Ok(counted),
                    },
                    Err(e) => Transition { ledger: self, outcome: Err(e) },
                },
            }
        }
    }

    /// `count` votes of the same choice on the poll under `question`, one
    /// after the other, stopping at the first that is rejected.
    pub open spec fn cast_votes(self, question: Seq<char>, choice: Seq<char>, count: nat)
        -> Transition<()>
        decreases count,
    {
        if count == 0 {
            Transition { ledger: self, outcome: Ok(()) }
        } else {
            let earlier = self.cast_votes(question, choice, (count - 1) as nat);
            match earlier.outcome {
                Ok(_) => {
                    let last = earlier.ledger.cast_vote(question, choice);
                    match last.outcome {
                        Ok(_) => Transition { ledger: last.ledger, outcome: Ok(()) },
                        Err(e) => Transition { ledger: last.ledger, outcome: Err(e) },
                    }
                },
                Err(_) => earlier,
            }
        }
    }

    /// The poll under `question`, or `None` where the key holds nothing.
    pub open spec fn get_poll(self, question: Seq<char>) -> Result<
        Option<PollData>,
        ContractError,
    > {
        if !self.has_poll(question) {
            Ok(None)
        } else {
            match self.polls[question] {
                Stored::Readable(poll) => Ok(Some(poll)),
                Stored::Unreadable => Err(ContractError::Storage),
            }
        }
    }

    /// The configuration, which is not found before setup.
    pub open spec fn get_config(self) -> Result<ConfigData, ContractError> {
        match self.config {
            None => Err(ContractError::NotFound),
            Some(Stored::Readable(config)) => Ok(config),
            Some(Stored::Unreadable) => Err(ContractError::Storage),
        }
    }
}

} // verus!
