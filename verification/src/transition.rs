//! The transition itself, as steps between the two outside calls: locate the
//! prior record, decide who may overwrite it, and write the outcome.
//!
//! Prior state is found by the pair of proposed content identifier and
//! subject key. Each step is a function of the transaction, the snapshot and
//! the responses received so far; nothing is kept between steps.

use vstd::prelude::*;
use vstd::string::*;
use crate::authority::{
    claimed_identity, equalities, fetch, fetch_args, first_match_identity,
    make_search_metadatas_body, search_text, FilterModel, DEFAULT_LINEAGE_NODE_URL,
};
use crate::clock::unix_millis;
use crate::decode::{
    block_of, decode_block, decode_mention, decode_proposal, decode_response, mention_in,
    proposal_of, response_of,
};
use crate::encode::{
    assemble, encode_mention, failure, mention_text, mutations, rejected, success,
    system_contract,
};
use crate::host::{Reply, ReplyModel};
use crate::store::{get, get_args};
use crate::types::{
    records, texts, FinalMention, MentionModel, MetaContract, MetaContractResult, Metadata,
    OutcomeModel, ProposalModel, RecordModel, SerdeMetadata, Transaction,
};

verus! {

/// What to do when someone other than its author writes to a record.
#[derive(Debug, Clone, Copy)]
pub enum OwnershipPolicy {
    /// Refuse the write.
    RejectOnMismatch,
    /// Ask the remote authority who owns the subject; keep the prior record
    /// unless it names the requester.
    EscalateToAuthority,
}

/// The settings of one transition. An empty address and a zero timeout stand
/// for the defaults.
#[derive(Debug)]
pub struct Config {
    pub ipfs_multiaddr: String,
    pub timeout_sec: u64,
    pub authority_url: String,
    pub policy: OwnershipPolicy,
    pub require_owner: bool,
}

impl Default for Config {
    /// The default settings: the default addresses and timeout, refusal of
    /// writes by anyone but a record's author, and no demand for an owner.
    fn default() -> (r: Config)
        ensures
            r.ipfs_multiaddr@.len() == 0,
            r.timeout_sec == 0,
            r.authority_url@.len() == 0,
            r.policy is RejectOnMismatch,
            !r.require_owner,
    {
        Config {
            ipfs_multiaddr: String::new(),
            timeout_sec: 0,
            authority_url: String::new(),
            policy: OwnershipPolicy::RejectOnMismatch,
            require_owner: false,
        }
    }
}

/// Where a transition stands: finished, or waiting for an outside call whose
/// command line it carries.
#[derive(Debug)]
pub enum Step {
    Finished(MetaContractResult),
    FetchBlock(Vec<String>),
    QueryAuthority(Vec<String>),
}

/// A step as a mathematical value.
pub ghost enum StepModel {
    Finished(OutcomeModel),
    FetchBlock(Seq<Seq<char>>),
    QueryAuthority(Seq<Seq<char>>),
}

impl View for Step {
    type V = StepModel;

    open spec fn view(&self) -> StepModel {
        match *self {
            Step::Finished(r) => StepModel::Finished(r@),
            Step::FetchBlock(cmd) => StepModel::FetchBlock(texts(cmd@)),
            Step::QueryAuthority(cmd) => StepModel::QueryAuthority(texts(cmd@)),
        }
    }
}

/// What a look at the transaction and the snapshot finds.
pub ghost enum Examined {
    /// The payload is refused, with the reason.
    Refused(Seq<char>),
    /// A valid proposal for a subject without prior record.
    First(ProposalModel),
    /// A valid proposal and the prior record it would overwrite.
    Prior(ProposalModel, RecordModel),
}

pub open spec fn schema_error() -> Seq<char> {
    "Data does not follow the required JSON schema"@
}

pub open spec fn empty_cid_error() -> Seq<char> {
    "cid cannot be empty"@
}

pub open spec fn empty_owner_error() -> Seq<char> {
    "owner cannot be empty"@
}

pub open spec fn store_unavailable_error() -> Seq<char> {
    "Unable to reach the content store"@
}

pub open spec fn malformed_block_error() -> Seq<char> {
    "Unable to decode the stored block"@
}

pub open spec fn content_error() -> Seq<char> {
    "Unable to deserialize ipfs content"@
}

pub open spec fn not_owner_error() -> Seq<char> {
    "Not owner of the post"@
}

pub open spec fn authority_unavailable_error() -> Seq<char> {
    "Unable to reach the ownership authority"@
}

pub open spec fn authority_malformed_error() -> Seq<char> {
    "Unable to decode the authority response"@
}

pub open spec fn mint_error() -> Seq<char> {
    "on_mint is not available"@
}

/// Whether a committed fact is prior state of the proposal: its version is
/// the proposed content identifier and its subject key the transaction's.
pub open spec fn correlates(m: RecordModel, cid: Seq<char>, data_key: Seq<char>) -> bool {
    m.version == cid && m.data_key == data_key
}

/// The position of the last fact in the snapshot that correlates.
pub open spec fn last_match(snapshot: Seq<RecordModel>, cid: Seq<char>, data_key: Seq<char>)
    -> Option<int>
    decreases snapshot.len(),
{
    if snapshot.len() == 0 {
        None
    } else if correlates(snapshot.last(), cid, data_key) {
        Some(snapshot.len() - 1)
    } else {
        last_match(snapshot.drop_last(), cid, data_key)
    }
}

/// The prior record of a proposal: the last fact that correlates, if it
/// points at a stored block.
pub open spec fn prior_record(snapshot: Seq<RecordModel>, cid: Seq<char>, data_key: Seq<char>)
    -> Option<RecordModel> {
    match last_match(snapshot, cid, data_key) {
        Some(i) => if snapshot[i].cid.len() > 0 {
            Some(snapshot[i])
        } else {
            None
        },
        None => None,
    }
}

/// Why a decoded proposal is refused, if it is.
pub open spec fn validation_error(require_owner: bool, p: ProposalModel) -> Option<Seq<char>> {
    if p.cid.len() == 0 {
        Some(empty_cid_error())
    } else if require_owner && p.owner.len() == 0 {
        Some(empty_owner_error())
    } else {
        None
    }
}

pub open spec fn examined(config: Config, snapshot: Seq<RecordModel>, tx: Transaction) -> Examined {
    match proposal_of(tx.data@) {
        None => Examined::Refused(schema_error()),
        Some(p) => match validation_error(config.require_owner, p) {
            Some(reason) => Examined::Refused(reason),
            None => match prior_record(snapshot, p.cid, tx.data_key@) {
                Some(record) => Examined::Prior(p, record),
                None => Examined::First(p),
            },
        },
    }
}

/// The mention that a proposal becomes when it is written at `now`.
pub open spec fn proposed(p: ProposalModel, now: u64) -> MentionModel {
    MentionModel {
        timestamp: now,
        mentionable: FinalMention::flag_of(p.mentionable),
        owner: p.owner,
    }
}

/// The outcome that persists `m` for the proposal `p`.
pub open spec fn written(
    snapshot: Seq<RecordModel>,
    tx: Transaction,
    p: ProposalModel,
    m: MentionModel,
) -> OutcomeModel {
    success(mutations(snapshot, tx, mention_text(m), p.cid))
}

/// The mention that the store's reply holds, or why it holds none.
pub open spec fn stored(response: ReplyModel) -> Result<MentionModel, Seq<char>> {
    match response {
        ReplyModel::Unavailable => Err(store_unavailable_error()),
        ReplyModel::Unreadable => Err(malformed_block_error()),
        ReplyModel::Text(text) => match block_of(text) {
            None => Err(malformed_block_error()),
            Some(block) => match mention_in(block.content) {
                None => Err(content_error()),
                Some(m) => Ok(m),
            },
        },
    }
}

/// The filters of the ownership query for a transaction's subject.
pub open spec fn ownership_filters(tx: Transaction) -> Seq<FilterModel> {
    seq![("data_key"@, "="@, tx.data_key@), ("meta_contract_id"@, "="@, system_contract())]
}

/// The command line of the ownership query.
pub open spec fn ownership_query(config: Config, tx: Transaction) -> Seq<Seq<char>> {
    fetch_args(
        search_text(ownership_filters(tx)),
        if config.authority_url@.len() == 0 {
            DEFAULT_LINEAGE_NODE_URL@
        } else {
            config.authority_url@
        },
    )
}

/// The first step: refuse the payload, write a first mention, or ask the
/// store for the block of the prior record.
pub open spec fn start_step(config: Config, snapshot: Seq<RecordModel>, tx: Transaction, now: u64)
    -> StepModel {
    match examined(config, snapshot, tx) {
        Examined::Refused(reason) => StepModel::Finished(failure(reason)),
        Examined::First(p) => StepModel::Finished(written(snapshot, tx, p, proposed(p, now))),
        Examined::Prior(_, record) => StepModel::FetchBlock(
            get_args(record.cid, config.ipfs_multiaddr@, config.timeout_sec),
        ),
    }
}

/// The step after the store has answered: the prior record's author
/// overwrites it; anyone else is refused or referred to the authority.
/// Where the first step asked for no block, this is the first step again.
pub open spec fn block_step(
    config: Config,
    snapshot: Seq<RecordModel>,
    tx: Transaction,
    response: ReplyModel,
    now: u64,
) -> StepModel {
    match examined(config, snapshot, tx) {
        Examined::Prior(p, record) => match stored(response) {
            Err(reason) => StepModel::Finished(failure(reason)),
            Ok(_) => if tx.public_key@ == record.public_key {
                StepModel::Finished(written(snapshot, tx, p, proposed(p, now)))
            } else {
                match config.policy {
                    OwnershipPolicy::RejectOnMismatch => StepModel::Finished(
                        failure(not_owner_error()),
                    ),
                    OwnershipPolicy::EscalateToAuthority => StepModel::QueryAuthority(
                        ownership_query(config, tx),
                    ),
                }
            },
        },
        _ => start_step(config, snapshot, tx, now),
    }
}

/// The identity that the authority's reply claims, or why the lookup
/// failed.
pub open spec fn authority_answer(response: ReplyModel) -> Result<Option<Seq<char>>, Seq<char>> {
    match response {
        ReplyModel::Unavailable => Err(authority_unavailable_error()),
        ReplyModel::Unreadable => Err(authority_malformed_error()),
        ReplyModel::Text(text) => match response_of(text) {
            None => Err(authority_malformed_error()),
            Some(answer) => Ok(claimed_identity(answer)),
        },
    }
}

/// The outcome after the authority has answered: the requester overwrites
/// the record if the authority names them; otherwise the stored mention is
/// written again as it was. Where the second step asked for no lookup, this
/// is that step's outcome. (The second step never asks for a block, so the
/// branch for that is never taken.)
pub open spec fn authority_outcome(
    config: Config,
    snapshot: Seq<RecordModel>,
    tx: Transaction,
    block_response: ReplyModel,
    authority_response: ReplyModel,
    now: u64,
) -> OutcomeModel {
    match block_step(config, snapshot, tx, block_response, now) {
        StepModel::Finished(outcome) => outcome,
        StepModel::FetchBlock(_) => failure(store_unavailable_error()),
        StepModel::QueryAuthority(_) => match examined(config, snapshot, tx) {
            Examined::Prior(p, _) => match authority_answer(authority_response) {
                Err(reason) => failure(reason),
                Ok(identity) => if identity == Some(tx.public_key@) {
                    written(snapshot, tx, p, proposed(p, now))
                } else {
                    written(snapshot, tx, p, stored(block_response)->Ok_0)
                },
            },
            _ => failure(store_unavailable_error()),
        },
    }
}

/// Finds the last fact in the snapshot that correlates with the proposal.
pub fn locate(metadatas: &Vec<Metadata>, cid: &String, data_key: &String) -> (r: Option<usize>)
    ensures
        match r {
            Some(i) => i < metadatas.len() && last_match(records(metadatas@), cid@, data_key@)
                == Some(i as int),
            None => last_match(records(metadatas@), cid@, data_key@).is_none(),
        },
{
    let ghost all = records(metadatas@);
    let mut i: usize = metadatas.len();
    assert(all.take(i as int) =~= all);
    while i > 0
        invariant
            i <= metadatas.len(),
            all == records(metadatas@),
            last_match(all, cid@, data_key@) == last_match(all.take(i as int), cid@, data_key@),
        decreases i,
    {
        let m = &metadatas[i - 1];
        assert(all.take(i as int).last() == m@);
        if m.version == *cid && m.data_key == *data_key {
            return Some(i - 1);
        }
        assert(all.take(i as int).drop_last() =~= all.take(i - 1));
        i -= 1;
    }
    None
}

enum Look {
    Refused(MetaContractResult),
    First(SerdeMetadata),
    Prior(SerdeMetadata, usize),
}

fn examine(config: &Config, metadatas: &Vec<Metadata>, tx: &Transaction) -> (r: Look)
    ensures
        match r {
            Look::Refused(result) => examined(*config, records(metadatas@), *tx)
                == Examined::Refused(result@.error_string) && result@ == failure(
                result@.error_string,
            ),
            Look::First(p) => examined(*config, records(metadatas@), *tx) == Examined::First(p@),
            Look::Prior(p, i) => i < metadatas.len() && examined(
                *config,
                records(metadatas@),
                *tx,
            ) == Examined::Prior(p@, metadatas@[i as int]@),
        },
{
    let p = match decode_proposal(tx.data.as_str()) {
        Some(p) => p,
        None => {
            return Look::Refused(rejected("Data does not follow the required JSON schema"));
        },
    };
    if p.cid.as_str().is_empty() {
        return Look::Refused(rejected("cid cannot be empty"));
    }
    if config.require_owner && p.owner.as_str().is_empty() {
        return Look::Refused(rejected("owner cannot be empty"));
    }
    match locate(metadatas, &p.cid, &tx.data_key) {
        Some(i) => {
            if metadatas[i].cid.as_str().is_empty() {
                Look::First(p)
            } else {
                Look::Prior(p, i)
            }
        },
        None => Look::First(p),
    }
}

fn write(metadatas: &Vec<Metadata>, tx: &Transaction, cid: String, mention: &FinalMention) -> (r:
    MetaContractResult)
    ensures
        r@ == success(mutations(records(metadatas@), *tx, mention_text(mention@), cid@)),
{
    let content = encode_mention(mention);
    assemble(metadatas, tx, content, cid)
}

fn read_stored(response: &Reply) -> (r: Result<FinalMention, MetaContractResult>)
    ensures
        match r {
            Ok(m) => stored(response@) == Ok::<MentionModel, Seq<char>>(m@),
            Err(result) => stored(response@) == Err::<MentionModel, Seq<char>>(
                result@.error_string,
            ) && result@ == failure(result@.error_string),
        },
{
    let text = match response {
        Reply::Text(text) => text,
        Reply::Unavailable => {
            return Err(rejected("Unable to reach the content store"));
        },
        Reply::Unreadable => {
            return Err(rejected("Unable to decode the stored block"));
        },
    };
    let block = match decode_block(text.as_str()) {
        Some(b) => b,
        None => {
            return Err(rejected("Unable to decode the stored block"));
        },
    };
    match decode_mention(&block.content) {
        Some(m) => Ok(m),
        None => Err(rejected("Unable to deserialize ipfs content")),
    }
}

/// The text of an optional string.
pub open spec fn option_text(response: Option<String>) -> Option<Seq<char>> {
    match response {
        Some(s) => Some(s@),
        None => None,
    }
}

fn ownership_command(config: &Config, tx: &Transaction) -> (r: Vec<String>)
    ensures
        texts(r@) == ownership_query(*config, *tx),
{
    let mut args: Vec<(String, String)> = Vec::new();
    args.push((String::from_str("data_key"), tx.data_key.clone()));
    args.push((String::from_str("meta_contract_id"), String::from_str("0x01")));
    assert(equalities(args@) =~= ownership_filters(*tx));
    let body = make_search_metadatas_body(args);
    let url = if config.authority_url.as_str().is_empty() {
        String::from_str(DEFAULT_LINEAGE_NODE_URL)
    } else {
        config.authority_url.clone()
    };
    fetch(body, url)
}

/// The first step of a transition, taken at the time `now`.
pub fn start_at(config: &Config, metadatas: &Vec<Metadata>, tx: &Transaction, now: u64) -> (r: Step)
    ensures
        r@ == start_step(*config, records(metadatas@), *tx, now),
{
    match examine(config, metadatas, tx) {
        Look::Refused(result) => Step::Finished(result),
        Look::First(p) => {
            let mention = FinalMention::at(now, p.mentionable, p.owner);
            Step::Finished(write(metadatas, tx, p.cid, &mention))
        },
        Look::Prior(_, i) => Step::FetchBlock(
            get(metadatas[i].cid.clone(), config.ipfs_multiaddr.clone(), config.timeout_sec),
        ),
    }
}

/// The step after the store's answer to the first step's fetch, taken at
/// the time `now`.
pub fn block_at(
    config: &Config,
    metadatas: &Vec<Metadata>,
    tx: &Transaction,
    response: &Reply,
    now: u64,
) -> (r: Step)
    ensures
        r@ == block_step(*config, records(metadatas@), *tx, response@, now),
{
    match examine(config, metadatas, tx) {
        Look::Prior(p, i) => {
            match read_stored(response) {
                Err(result) => Step::Finished(result),
                Ok(_) => {
                    if tx.public_key == metadatas[i].public_key {
                        let mention = FinalMention::at(now, p.mentionable, p.owner);
                        Step::Finished(write(metadatas, tx, p.cid, &mention))
                    } else {
                        match config.policy {
                            OwnershipPolicy::RejectOnMismatch => Step::Finished(
                                rejected("Not owner of the post"),
                            ),
                            OwnershipPolicy::EscalateToAuthority => Step::QueryAuthority(
                                ownership_command(config, tx),
                            ),
                        }
                    }
                },
            }
        },
        _ => start_at(config, metadatas, tx, now),
    }
}

fn read_answer(response: &Reply) -> (r: Result<Option<String>, MetaContractResult>)
    ensures
        match r {
            Ok(identity) => authority_answer(response@) == Ok::<
                Option<Seq<char>>,
                Seq<char>,
            >(option_text(identity)),
            Err(result) => authority_answer(response@) == Err::<
                Option<Seq<char>>,
                Seq<char>,
            >(result@.error_string) && result@ == failure(result@.error_string),
        },
{
    let text = match response {
        Reply::Text(text) => text,
        Reply::Unavailable => {
            return Err(rejected("Unable to reach the ownership authority"));
        },
        Reply::Unreadable => {
            return Err(rejected("Unable to decode the authority response"));
        },
    };
    match decode_response(text.as_str()) {
        Some(answer) => Ok(first_match_identity(&answer)),
        None => Err(rejected("Unable to decode the authority response")),
    }
}

/// The end of a transition after the authority's answer to the second
/// step's query, taken at the time `now`.
pub fn authority_at(
    config: &Config,
    metadatas: &Vec<Metadata>,
    tx: &Transaction,
    block_response: &Reply,
    authority_response: &Reply,
    now: u64,
) -> (r: MetaContractResult)
    ensures
        r@ == authority_outcome(
            *config,
            records(metadatas@),
            *tx,
            block_response@,
            authority_response@,
            now,
        ),
{
    match block_at(config, metadatas, tx, block_response, now) {
        Step::Finished(result) => result,
        Step::FetchBlock(_) => rejected("Unable to reach the content store"),
        Step::QueryAuthority(_) => {
            match examine(config, metadatas, tx) {
                Look::Prior(p, _) => {
                    let identity = match read_answer(authority_response) {
                        Ok(identity) => identity,
                        Err(result) => {
                            return result;
                        },
                    };
                            let authorized = match identity {
                        Some(id) => id == tx.public_key,
                        None => false,
                    };
                    if authorized {
                        let mention = FinalMention::at(now, p.mentionable, p.owner);
                        write(metadatas, tx, p.cid, &mention)
                    } else {
                        match read_stored(block_response) {
                            Ok(prior) => write(metadatas, tx, p.cid, &prior),
                            Err(result) => result,
                        }
                    }
                },
                _ => rejected("Unable to reach the content store"),
            }
        },
    }
}

/// The first step of a transition, taken now.
pub fn on_execute(
    config: &Config,
    contract: &MetaContract,
    metadatas: &Vec<Metadata>,
    transaction: &Transaction,
) -> (r: Step)
    ensures
        exists|now: u64| r@ == #[trigger] start_step(*config, records(metadatas@), *transaction, now),
{
    let now = unix_millis();
    start_at(config, metadatas, transaction, now)
}

/// The step after the store's answer, taken now.
pub fn on_block(
    config: &Config,
    metadatas: &Vec<Metadata>,
    transaction: &Transaction,
    response: &Reply,
) -> (r: Step)
    ensures
        exists|now: u64|
            r@ == #[trigger] block_step(
                *config,
                records(metadatas@),
                *transaction,
                response@,
                now,
            ),
{
    let now = unix_millis();
    block_at(config, metadatas, transaction, response, now)
}

/// The end of a transition after the authority's answer, taken now.
pub fn on_authority(
    config: &Config,
    metadatas: &Vec<Metadata>,
    transaction: &Transaction,
    block_response: &Reply,
    authority_response: &Reply,
) -> (r: MetaContractResult)
    ensures
        exists|now: u64|
            r@ == #[trigger] authority_outcome(
                *config,
                records(metadatas@),
                *transaction,
                block_response@,
                authority_response@,
                now,
            ),
{
    let now = unix_millis();
    authority_at(config, metadatas, transaction, block_response, authority_response, now)
}

/// Cloning is not supported.
pub fn on_clone() -> (r: bool)
    ensures
        !r,
{
    false
}

/// Minting is not supported: every call is refused.
pub fn on_mint(contract: MetaContract, data_key: String, token_id: String, data: String) -> (r:
    MetaContractResult)
    ensures
        r@ == failure(mint_error()),
{
    rejected("on_mint is not available")
}

} // verus!
