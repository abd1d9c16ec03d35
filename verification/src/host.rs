use cosmwasm_std::{Addr, Api, StdError, Storage};
use vstd::prelude::*;

use crate::ledger::{Ledger, Stored};
use crate::state::{Config, ConfigData, Poll, PollData};

verus! {

/// `cosmwasm_std::StdError`, the error of the storage and address calls. It
/// is carried from the call to the place that turns it into a
/// `ContractError`; nothing is read from it.
#[verifier::external_type_specification]
#[verifier::external_body]
pub struct ExStdError(StdError);

/// What the chain hands a contract for a request that may write: its storage
/// and its address validation, as `DepsMut` of `cosmwasm_std` holds them. The
/// fields are public so that a contract can build the handle from what it was
/// handed. Verus sees neither of them: what is stored is spoken of through
/// `stored_polls` and `stored_config`, and nothing here is proved of it. What
/// is claimed is claimed of a storage that keeps under each key what was last
/// set there, as the trait `Storage` describes it.
#[verifier::external_body]
pub struct Host<'a> {
    pub storage: &'a mut dyn Storage,
    pub api: &'a dyn Api,
}

/// What the chain hands a contract for a query: its storage, to read from, as
/// `Deps` of `cosmwasm_std` holds it. Verus does not see the field: what is
/// stored is spoken of through `visible_polls` and `visible_config`.
#[verifier::external_body]
pub struct HostRef<'a> {
    pub storage: &'a dyn Storage,
}

/// The polls in the host's storage: for each question whose key under the
/// namespace "polls" holds something, the record that those bytes read back
/// as, or `Unreadable`.
pub uninterp spec fn stored_polls(host: Host) -> Map<Seq<char>, Stored<PollData>>;

/// What the host's storage holds under the key "config": nothing, a record,
/// or bytes that do not read back as one.
pub uninterp spec fn stored_config(host: Host) -> Option<Stored<ConfigData>>;

/// The polls in the storage that a query reads: what `stored_polls` is for a
/// `Host`.
pub uninterp spec fn visible_polls(host: HostRef) -> Map<Seq<char>, Stored<PollData>>;

/// The configuration in the storage that a query reads: what `stored_config`
/// is for a `Host`.
pub uninterp spec fn visible_config(host: HostRef) -> Option<Stored<ConfigData>>;

impl<'a> Host<'a> {
    /// The stored records as one value.
    pub open spec fn ledger(&self) -> Ledger {
        Ledger { config: stored_config(*self), polls: stored_polls(*self) }
    }
}

impl<'a> HostRef<'a> {
    /// The stored records as one value.
    pub open spec fn ledger(&self) -> Ledger {
        Ledger { config: visible_config(*self), polls: visible_polls(*self) }
    }
}

/// `Api::addr_validate` of `cosmwasm_std`. Not proved: an address that
/// passes comes back with the text that was handed in. Which addresses pass
/// is the chain's rule, and nothing is said of it.
#[verifier::external_body]
pub(crate) fn validate_address(host: &Host, human: &str) -> (validated: Result<String, StdError>)
    ensures
        validated matches Ok(address) ==> address@ == human@,
{
    let address: Addr = host.api.addr_validate(human)?;
    Ok(address.into_string())
}

/// `Map::has` of `cw-storage-plus`, on the namespace "polls". Not proved: it
/// tells whether the key of `question` holds anything, and reads none of it.
#[verifier::external_body]
pub(crate) fn poll_exists(host: &Host, question: &str) -> (found: bool)
    ensures
        found == stored_polls(*host).contains_key(question@),
{
    let polls = cw_storage_plus::Map::<&str, (String, u64, u64)>::new("polls");
    polls.has(host.storage, question)
}

/// `Map::load` of `cw-storage-plus`, on the namespace "polls". Not proved: it
/// returns the record under the key of `question`, and fails where the key
/// holds nothing or holds bytes that do not read back as a record.
#[verifier::external_body]
pub(crate) fn load_poll(host: &Host, question: &str) -> (loaded: Result<Poll, StdError>)
    ensures
        match loaded {
            Ok(poll) => stored_polls(*host).contains_pair(question@, Stored::Readable(poll@)),
            Err(_) => {
                ||| !stored_polls(*host).contains_key(question@)
                ||| stored_polls(*host).contains_pair(question@, Stored::Unreadable)
            },
        },
{
    let polls = cw_storage_plus::Map::<&str, (String, u64, u64)>::new("polls");
    let (question, yes_votes, no_votes) = polls.load(host.storage, question)?;
    Ok(Poll { question, yes_votes, no_votes })
}

/// `Map::may_load` of `cw-storage-plus`, on the namespace "polls". Not
/// proved: it returns `None` where the key of `question` holds nothing, the
/// record where it holds one, and fails on bytes that do not read back as a
/// record.
#[verifier::external_body]
pub(crate) fn may_load_poll(reader: &HostRef, question: &str) -> (loaded: Result<
    Option<Poll>,
    StdError,
>)
    ensures
        match loaded {
            Ok(None) => !visible_polls(*reader).contains_key(question@),
            Ok(Some(poll)) => visible_polls(*reader).contains_pair(
                question@,
                Stored::Readable(poll@),
            ),
            Err(_) => visible_polls(*reader).contains_pair(question@, Stored::Unreadable),
        },
{
    let polls = cw_storage_plus::Map::<&str, (String, u64, u64)>::new("polls");
    match polls.may_load(reader.storage, question)? {
        Some((question, yes_votes, no_votes)) => Ok(Some(Poll { question, yes_votes, no_votes })),
        None => Ok(None),
    }
}

/// `Map::save` of `cw-storage-plus`, on the namespace "polls". Not proved:
/// it succeeds, since a text and two numbers always serialise; afterwards
/// the key of `question` holds `poll`, and every other key of the storage
/// holds what it held.
#[verifier::external_body]
pub(crate) fn save_poll(host: &mut Host, question: &str, poll: &Poll) -> (saved: Result<
    (),
    StdError,
>)
    ensures
        saved is Ok,
        stored_polls(*final(host)) == stored_polls(*old(host)).insert(
            question@,
            Stored::Readable(poll@),
        ),
        stored_config(*final(host)) == stored_config(*old(host)),
{
    let polls = cw_storage_plus::Map::<&str, (String, u64, u64)>::new("polls");
    let record = (poll.question.clone(), poll.yes_votes, poll.no_votes);
    polls.save(host.storage, question, &record)
}

/// `Item::may_load` of `cw-storage-plus`, on the key "config". Not proved:
/// it returns `None` where the key holds nothing, the record where it holds
/// one, and fails on bytes that do not read back as a record.
#[verifier::external_body]
pub(crate) fn may_load_config(reader: &HostRef) -> (loaded: Result<Option<Config>, StdError>)
    ensures
        match loaded {
            Ok(None) => visible_config(*reader) is None,
            Ok(Some(config)) => visible_config(*reader) == Some(Stored::Readable(config@)),
            Err(_) => visible_config(*reader) == Some(Stored::<ConfigData>::Unreadable),
        },
{
    match cw_storage_plus::Item::<String>::new("config").may_load(reader.storage)? {
        Some(admin_address) => Ok(Some(Config { admin_address })),
        None => Ok(None),
    }
}

/// `Item::save` of `cw-storage-plus`, on the key "config". Not proved: it
/// succeeds, since a text always serialises; afterwards the key holds
/// `config`, and every poll is stored as it was.
#[verifier::external_body]
pub(crate) fn save_config(host: &mut Host, config: &Config) -> (saved: Result<(), StdError>)
    ensures
        saved is Ok,
        stored_config(*final(host)) == Some(Stored::Readable(config@)),
        stored_polls(*final(host)) == stored_polls(*old(host)),
{
    cw_storage_plus::Item::<String>::new("config").save(host.storage, &config.admin_address)
}

} // verus!
