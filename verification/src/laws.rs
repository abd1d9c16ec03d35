use vstd::prelude::*;

use crate::error::ContractError;
use crate::ledger::{Ledger, Stored};
use crate::state::{no, yes, ConfigData, PollData};

verus! {

/// "yes" and "no" are two choices, and "maybe" is neither.
pub proof fn lemma_choices()
    ensures
        yes() != no(),
        "maybe"@ != yes(),
        "maybe"@ != no(),
{
    reveal_strlit("yes");
    reveal_strlit("no");
    reveal_strlit("maybe");
    assert("yes"@.len() == 3 && "no"@.len() == 2 && "maybe"@.len() == 5);
}

/// Setup with an address that passed validation returns a configuration with
/// that address, and a query for the configuration then returns the same; the
/// polls are not touched.
pub proof fn lemma_setup_then_get_config(ledger: Ledger, admin_address: Seq<char>)
    ensures
        ledger.initialize(Some(admin_address)).outcome == Ok::<ConfigData, ContractError>(
            ConfigData { admin_address },
        ),
        ledger.initialize(Some(admin_address)).ledger.get_config() == Ok::<
            ConfigData,
            ContractError,
        >(ConfigData { admin_address }),
        ledger.initialize(Some(admin_address)).ledger.polls == ledger.polls,
{
}

/// Setup with an address that did not pass validation is refused, and nothing
/// is written.
pub proof fn lemma_setup_refused(ledger: Ledger)
    ensures
        ledger.initialize(None).outcome == Err::<ConfigData, ContractError>(
            ContractError::ValidationError,
        ),
        ledger.initialize(None).ledger == ledger,
{
}

/// Where no record stands under a question, creating its poll succeeds, and
/// creating it once more fails with `AlreadyExists`; after both calls the
/// record under the question is the poll that the first call returned.
pub proof fn lemma_create_poll_twice(ledger: Ledger, question: Seq<char>)
    requires
        !ledger.has_poll(question),
    ensures
        ({
            let first = ledger.create_poll(question);
            let second = first.ledger.create_poll(question);
            &&& first.outcome == Ok::<PollData, ContractError>(PollData::fresh(question))
            &&& second.outcome == Err::<PollData, ContractError>(ContractError::AlreadyExists)
            &&& second.ledger == first.ledger
            &&& second.ledger.polls[question] == Stored::Readable(PollData::fresh(question))
        }),
{
}

/// Creating a poll under a question that is taken fails with
/// `AlreadyExists`, whatever stands there, and overwrites nothing.
pub proof fn lemma_create_poll_taken(ledger: Ledger, question: Seq<char>)
    requires
        ledger.has_poll(question),
    ensures
        ledger.create_poll(question).outcome == Err::<PollData, ContractError>(
            ContractError::AlreadyExists,
        ),
        ledger.create_poll(question).ledger == ledger,
{
}

/// A vote on a question that has no record fails with `NotFound`, whatever
/// the choice, and leaves the ledger without a record for it.
pub proof fn lemma_vote_on_missing_poll(ledger: Ledger, question: Seq<char>, choice: Seq<char>)
    requires
        !ledger.has_poll(question),
    ensures
        ledger.cast_vote(question, choice).outcome == Err::<PollData, ContractError>(
            ContractError::NotFound,
        ),
        ledger.cast_vote(question, choice).ledger == ledger,
        !ledger.cast_vote(question, choice).ledger.has_poll(question),
{
}

/// A vote on a poll with a choice other than "yes" and "no" fails with
/// `InvalidChoice` and leaves both counters as they were.
pub proof fn lemma_vote_with_invalid_choice(
    ledger: Ledger,
    question: Seq<char>,
    choice: Seq<char>,
)
    requires
        ledger.has_poll(question),
        ledger.polls[question] is Readable,
        choice != yes(),
        choice != no(),
    ensures
        ledger.cast_vote(question, choice).outcome == Err::<PollData, ContractError>(
            ContractError::InvalidChoice,
        ),
        ledger.cast_vote(question, choice).ledger == ledger,
{
}

/// A vote of "maybe" on a poll fails with `InvalidChoice` and leaves both
/// counters as they were.
pub proof fn lemma_vote_maybe(ledger: Ledger, question: Seq<char>)
    requires
        ledger.has_poll(question),
        ledger.polls[question] is Readable,
    ensures
        ledger.cast_vote(question, "maybe"@).outcome == Err::<PollData, ContractError>(
            ContractError::InvalidChoice,
        ),
        ledger.cast_vote(question, "maybe"@).ledger == ledger,
{
    lemma_choices();
}

/// `count` votes of "yes" on a poll whose counter has room for them all
/// succeed and add `count` to that counter, and to nothing else.
pub proof fn lemma_yes_votes_add_up(ledger: Ledger, question: Seq<char>, count: nat)
    requires
        ledger.has_poll(question),
        ledger.polls[question] matches Stored::Readable(poll) && poll.yes_votes + count
            <= u64::MAX,
    ensures
        ledger.cast_votes(question, yes(), count).outcome is Ok,
        ledger.cast_votes(question, yes(), count).ledger == (Ledger {
            polls: ledger.polls.insert(
                question,
                Stored::Readable(
                    PollData {
                        yes_votes: (ledger.polls[question]->Readable_0.yes_votes + count) as u64,
                        ..ledger.polls[question]->Readable_0
                    },
                ),
            ),
            ..ledger
        }),
    decreases count,
{
    if count > 0 {
        lemma_yes_votes_add_up(ledger, question, (count - 1) as nat);
    }
}

/// `count` votes of "no" on a poll whose counter has room for them all
/// succeed and add `count` to that counter, and to nothing else.
pub proof fn lemma_no_votes_add_up(ledger: Ledger, question: Seq<char>, count: nat)
    requires
        ledger.has_poll(question),
        ledger.polls[question] matches Stored::Readable(poll) && poll.no_votes + count
            <= u64::MAX,
    ensures
        ledger.cast_votes(question, no(), count).outcome is Ok,
        ledger.cast_votes(question, no(), count).ledger == (Ledger {
            polls: ledger.polls.insert(
                question,
                Stored::Readable(
                    PollData {
                        no_votes: (ledger.polls[question]->Readable_0.no_votes + count) as u64,
                        ..ledger.polls[question]->Readable_0
                    },
                ),
            ),
            ..ledger
        }),
    decreases count,
{
    lemma_choices();
    if count > 0 {
        lemma_no_votes_add_up(ledger, question, (count - 1) as nat);
    }
}

/// On a poll that was just created, `yes_count` votes of "yes" followed by
/// `no_count` votes of "no" all succeed, and the poll then stands at exactly
/// those two counts; no other record is touched.
pub proof fn lemma_votes_are_counted(
    ledger: Ledger,
    question: Seq<char>,
    yes_count: nat,
    no_count: nat,
)
    requires
        ledger.get_poll(question) == Ok::<Option<PollData>, ContractError>(
            Some(PollData::fresh(question)),
        ),
        yes_count <= u64::MAX,
        no_count <= u64::MAX,
    ensures
        ({
            let after_yes = ledger.cast_votes(question, yes(), yes_count);
            let after_no = after_yes.ledger.cast_votes(question, no(), no_count);
            let counted = PollData {
                question,
                yes_votes: yes_count as u64,
                no_votes: no_count as u64,
            };
            &&& after_yes.outcome is Ok
            &&& after_no.outcome is Ok
            &&& after_no.ledger.get_poll(question) == Ok::<Option<PollData>, ContractError>(
                Some(counted),
            )
            &&& after_no.ledger == Ledger {
                polls: ledger.polls.insert(question, Stored::Readable(counted)),
                ..ledger
            }
        }),
{
    lemma_yes_votes_add_up(ledger, question, yes_count);
    let after_yes = ledger.cast_votes(question, yes(), yes_count);
    lemma_no_votes_add_up(after_yes.ledger, question, no_count);
}

/// A query for a poll finds nothing before the poll is created, and after a
/// creation or a vote that succeeded it finds exactly the poll that the call
/// returned.
pub proof fn lemma_get_poll_is_current(ledger: Ledger, question: Seq<char>, choice: Seq<char>)
    ensures
        !ledger.has_poll(question) ==> ledger.get_poll(question) == Ok::<
            Option<PollData>,
            ContractError,
        >(None),
        ledger.create_poll(question).outcome matches Ok(poll) ==> ledger.create_poll(
            question,
        ).ledger.get_poll(question) == Ok::<Option<PollData>, ContractError>(Some(poll)),
        ledger.cast_vote(question, choice).outcome matches Ok(poll) ==> ledger.cast_vote(
            question,
            choice,
        ).ledger.get_poll(question) == Ok::<Option<PollData>, ContractError>(Some(poll)),
{
}

/// A creation or a vote on one question changes what a query finds under no
/// other question, and neither changes the configuration.
pub proof fn lemma_other_records_are_kept(
    ledger: Ledger,
    question: Seq<char>,
    choice: Seq<char>,
    other: Seq<char>,
)
    requires
        other != question,
    ensures
        ledger.create_poll(question).ledger.get_poll(other) == ledger.get_poll(other),
        ledger.cast_vote(question, choice).ledger.get_poll(other) == ledger.get_poll(other),
        ledger.create_poll(question).ledger.config == ledger.config,
        ledger.cast_vote(question, choice).ledger.config == ledger.config,
{
}

/// The questions that have a record change only by a creation that succeeds,
/// which adds its own: setup, votes and refused creations add none, and no
/// request removes one.
pub proof fn lemma_questions_are_kept(
    ledger: Ledger,
    validated: Option<Seq<char>>,
    question: Seq<char>,
    choice: Seq<char>,
)
    ensures
        ledger.initialize(validated).ledger.polls.dom() == ledger.polls.dom(),
        ledger.cast_vote(question, choice).ledger.polls.dom() == ledger.polls.dom(),
        ledger.create_poll(question).ledger.polls.dom() == ledger.polls.dom().insert(question),
{
}

/// No request removes a poll or takes a vote back: a poll that stands in the
/// ledger stands there after a creation or a vote on any question, under the
/// same question and with no counter lower than before.
pub proof fn lemma_counts_never_fall(
    ledger: Ledger,
    question: Seq<char>,
    choice: Seq<char>,
    other: Seq<char>,
)
    requires
        ledger.get_poll(other) is Ok,
        ledger.get_poll(other)->Ok_0 is Some,
    ensures
        ({
            let before = ledger.get_poll(other)->Ok_0->Some_0;
            &&& ledger.create_poll(question).ledger.get_poll(other) == Ok::<
                Option<PollData>,
                ContractError,
            >(Some(before))
            &&& ledger.cast_vote(question, choice).ledger.get_poll(other) matches Ok(Some(after))
                && after.question == before.question && after.yes_votes >= before.yes_votes
                && after.no_votes >= before.no_votes
        }),
{
}

/// A ledger in which every record can be read back stays so under every
/// request, and no query on it fails for want of a readable record.
pub proof fn lemma_readable_is_kept(
    ledger: Ledger,
    validated: Option<Seq<char>>,
    question: Seq<char>,
    choice: Seq<char>,
)
    requires
        ledger.readable(),
    ensures
        ledger.initialize(validated).ledger.readable(),
        ledger.create_poll(question).ledger.readable(),
        ledger.cast_vote(question, choice).ledger.readable(),
        ledger.get_poll(question) is Ok,
        ledger.get_config() is Ok || ledger.get_config() == Err::<ConfigData, ContractError>(
            ContractError::NotFound,
        ),
        ledger.cast_vote(question, choice).outcome != Err::<PollData, ContractError>(
            ContractError::Storage,
        ),
{
}

/// A ledger in which every poll is stored under its own question stays so
/// under every request.
pub proof fn lemma_keyed_by_question_is_kept(
    ledger: Ledger,
    validated: Option<Seq<char>>,
    question: Seq<char>,
    choice: Seq<char>,
)
    requires
        ledger.keyed_by_question(),
    ensures
        ledger.initialize(validated).ledger.keyed_by_question(),
        ledger.create_poll(question).ledger.keyed_by_question(),
        ledger.cast_vote(question, choice).ledger.keyed_by_question(),
{
}

} // verus!
