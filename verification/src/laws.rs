//! What holds of every transition, proved from the definitions of its steps.

use vstd::prelude::*;
use crate::authority::claimed_identity;
use crate::decode::{proposal_of, response_of};
use crate::host::ReplyModel;
use crate::encode::{failure, mention_text, mutations, success};
use crate::transition::{
    authority_outcome, block_step, correlates, empty_cid_error, examined, last_match,
    not_owner_error, prior_record, proposed, schema_error, start_step, stored, validation_error,
    written, Config, StepModel,
};
use crate::types::{FinalMention, MentionModel, RecordModel, Transaction};

verus! {

/// A proposal with an empty content identifier is refused with the
/// empty-identifier reason and no facts, whatever the snapshot holds.
pub proof fn lemma_empty_cid_refused(
    config: Config,
    snapshot: Seq<RecordModel>,
    tx: Transaction,
    now: u64,
)
    requires
        proposal_of(tx.data@).is_some(),
        proposal_of(tx.data@).unwrap().cid.len() == 0,
    ensures
        start_step(config, snapshot, tx, now) == StepModel::Finished(failure(empty_cid_error())),
        failure(empty_cid_error()).metadatas.len() == 0,
        !failure(empty_cid_error()).result,
{
}

/// A payload that does not follow the schema is refused with the schema
/// reason and no facts.
pub proof fn lemma_malformed_payload_refused(
    config: Config,
    snapshot: Seq<RecordModel>,
    tx: Transaction,
    now: u64,
)
    requires
        proposal_of(tx.data@).is_none(),
    ensures
        start_step(config, snapshot, tx, now) == StepModel::Finished(failure(schema_error())),
        failure(schema_error()).metadatas.len() == 0,
{
}

/// The first write for a subject succeeds at once, and its mention holds the
/// proposal's owner, its flag, and the time of the write.
pub proof fn lemma_first_write(config: Config, snapshot: Seq<RecordModel>, tx: Transaction, now: u64)
    requires
        proposal_of(tx.data@).is_some(),
        validation_error(config.require_owner, proposal_of(tx.data@).unwrap()).is_none(),
        prior_record(snapshot, proposal_of(tx.data@).unwrap().cid, tx.data_key@).is_none(),
    ensures
        start_step(config, snapshot, tx, now) == StepModel::Finished(
            success(
                mutations(
                    snapshot,
                    tx,
                    mention_text(
                        MentionModel {
                            timestamp: now,
                            mentionable: FinalMention::flag_of(
                                proposal_of(tx.data@).unwrap().mentionable,
                            ),
                            owner: proposal_of(tx.data@).unwrap().owner,
                        },
                    ),
                    proposal_of(tx.data@).unwrap().cid,
                ),
            ),
        ),
{
}

/// A write by the author of the prior record replaces it: what is written
/// is the proposal alone, whatever the stored mention held.
pub proof fn lemma_author_overwrites(
    config: Config,
    snapshot: Seq<RecordModel>,
    tx: Transaction,
    response: ReplyModel,
    now: u64,
)
    requires
        examined(config, snapshot, tx) is Prior,
        stored(response) is Ok,
        tx.public_key@ == examined(config, snapshot, tx)->Prior_1.public_key,
    ensures
        block_step(config, snapshot, tx, response, now) == StepModel::Finished(
            written(
                snapshot,
                tx,
                proposal_of(tx.data@).unwrap(),
                proposed(proposal_of(tx.data@).unwrap(), now),
            ),
        ),
{
}

/// Without fallback, a write by anyone but the author of the prior record
/// is refused as not the owner's, with no facts.
pub proof fn lemma_stranger_refused(
    config: Config,
    snapshot: Seq<RecordModel>,
    tx: Transaction,
    response: ReplyModel,
    now: u64,
)
    requires
        examined(config, snapshot, tx) is Prior,
        stored(response) is Ok,
        tx.public_key@ != examined(config, snapshot, tx)->Prior_1.public_key,
        config.policy is RejectOnMismatch,
    ensures
        block_step(config, snapshot, tx, response, now) == StepModel::Finished(
            failure(not_owner_error()),
        ),
        failure(not_owner_error()).metadatas.len() == 0,
{
}

/// With fallback, a write by anyone but the author is referred to the
/// authority, and overwrites the record if the authority's first match
/// names the requester.
pub proof fn lemma_authority_authorizes(
    config: Config,
    snapshot: Seq<RecordModel>,
    tx: Transaction,
    block_response: ReplyModel,
    authority_response: Seq<char>,
    now: u64,
)
    requires
        examined(config, snapshot, tx) is Prior,
        stored(block_response) is Ok,
        tx.public_key@ != examined(config, snapshot, tx)->Prior_1.public_key,
        config.policy is EscalateToAuthority,
        response_of(authority_response).is_some(),
        claimed_identity(response_of(authority_response).unwrap()) == Some(tx.public_key@),
    ensures
        block_step(config, snapshot, tx, block_response, now) is QueryAuthority,
        authority_outcome(config, snapshot, tx, block_response, ReplyModel::Text(authority_response), now)
            == written(
            snapshot,
            tx,
            proposal_of(tx.data@).unwrap(),
            proposed(proposal_of(tx.data@).unwrap(), now),
        ),
{
}

/// With fallback, where the authority finds no match or names someone
/// else, the transition succeeds and writes the stored mention again as it
/// was, time included.
pub proof fn lemma_authority_keeps_prior(
    config: Config,
    snapshot: Seq<RecordModel>,
    tx: Transaction,
    block_response: ReplyModel,
    authority_response: Seq<char>,
    now: u64,
)
    requires
        examined(config, snapshot, tx) is Prior,
        stored(block_response) is Ok,
        tx.public_key@ != examined(config, snapshot, tx)->Prior_1.public_key,
        config.policy is EscalateToAuthority,
        response_of(authority_response).is_some(),
        claimed_identity(response_of(authority_response).unwrap()) != Some(tx.public_key@),
    ensures
        authority_outcome(config, snapshot, tx, block_response, ReplyModel::Text(authority_response), now)
            == written(
            snapshot,
            tx,
            proposal_of(tx.data@).unwrap(),
            stored(block_response)->Ok_0,
        ),
        authority_outcome(
            config,
            snapshot,
            tx,
            block_response,
            ReplyModel::Text(authority_response),
            now,
        ).result,
{
}

/// No step ever fails with facts: a failed outcome carries none.
pub proof fn lemma_failure_is_empty(
    config: Config,
    snapshot: Seq<RecordModel>,
    tx: Transaction,
    block_response: ReplyModel,
    authority_response: ReplyModel,
    now: u64,
)
    ensures
        !authority_outcome(config, snapshot, tx, block_response, authority_response, now).result
            ==> authority_outcome(
            config,
            snapshot,
            tx,
            block_response,
            authority_response,
            now,
        ).metadatas.len() == 0,
        start_step(config, snapshot, tx, now) matches StepModel::Finished(o) ==> o.result
            || o.metadatas.len() == 0,
        block_step(config, snapshot, tx, block_response, now) matches StepModel::Finished(o)
            ==> o.result || o.metadatas.len() == 0,
{
}

/// Only the first step asks the store for a block.
pub proof fn lemma_block_step_fetches_nothing(
    config: Config,
    snapshot: Seq<RecordModel>,
    tx: Transaction,
    response: ReplyModel,
    now: u64,
)
    ensures
        !(block_step(config, snapshot, tx, response, now) is FetchBlock),
        !(start_step(config, snapshot, tx, now) is QueryAuthority),
{
}

/// The last match wins: the located position correlates and nothing after
/// it does; where nothing is located, nothing correlates.
pub proof fn lemma_last_match(snapshot: Seq<RecordModel>, cid: Seq<char>, data_key: Seq<char>)
    ensures
        match last_match(snapshot, cid, data_key) {
            Some(i) => 0 <= i < snapshot.len() && correlates(snapshot[i], cid, data_key)
                && forall|j: int| i < j < snapshot.len() ==> !correlates(#[trigger] snapshot[j], cid, data_key),
            None => forall|j: int|
                0 <= j < snapshot.len() ==> !correlates(#[trigger] snapshot[j], cid, data_key),
        },
    decreases snapshot.len(),
{
    if snapshot.len() > 0 && !correlates(snapshot.last(), cid, data_key) {
        lemma_last_match(snapshot.drop_last(), cid, data_key);
        let rest = snapshot.drop_last();
        assert forall|j: int| 0 <= j < rest.len() implies rest[j] == snapshot[j] by {}
        match last_match(rest, cid, data_key) {
            Some(i) => {
                assert forall|j: int| i < j < snapshot.len() implies !correlates(
                    #[trigger] snapshot[j],
                    cid,
                    data_key,
                ) by {
                    if j < rest.len() {
                        assert(rest[j] == snapshot[j]);
                    }
                }
            },
            None => {
                assert forall|j: int| 0 <= j < snapshot.len() implies !correlates(
                    #[trigger] snapshot[j],
                    cid,
                    data_key,
                ) by {
                    if j < rest.len() {
                        assert(rest[j] == snapshot[j]);
                    }
                }
            },
        }
    }
}

} // verus!
