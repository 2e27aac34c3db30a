//! The result encoder: a mention as JSON text, and the facts to persist.

use vstd::prelude::*;
use vstd::string::*;
use crate::json::{json_quoted, quoted};
use crate::text::{decimal, u64_to_string};
use crate::types::{
    records, FinalMention, FinalMetadata, MentionModel, MetaContractResult, Metadata,
    MutationModel, OutcomeModel, RecordModel, Transaction,
};

verus! {

/// A boolean as JSON text.
pub open spec fn flag_text(flag: bool) -> Seq<char> {
    if flag {
        "true"@
    } else {
        "false"@
    }
}

/// A mention as JSON text: an object of `timestamp`, `mentionable` and
/// `owner`, in that order and without white space.
pub open spec fn mention_text(m: MentionModel) -> Seq<char> {
    "{\"timestamp\":"@ + decimal(m.timestamp as nat) + ",\"mentionable\":"@ + flag_text(
        m.mentionable,
    ) + ",\"owner\":"@ + json_quoted(m.owner) + "}"@
}

/// The token linkage of a transaction as text. The three values are set in
/// as they are, between quotes.
pub open spec fn token_text(address: Seq<char>, chain: Seq<char>, id: Seq<char>) -> Seq<char> {
    "{ \n                        \"address\": \""@ + address
        + "\", \n                        \"chain\": \""@ + chain
        + "\", \n                        \"id\": \""@ + id + "\"\n                    }"@
}

/// The identity under which bootstrap facts are filed.
pub open spec fn system_contract() -> Seq<char> {
    "0x01"@
}

/// Whether a committed fact is the bootstrap fact with this alias.
pub open spec fn is_bootstrap(m: RecordModel, alias: Seq<char>) -> bool {
    m.public_key == system_contract() && m.alias == alias && m.meta_contract_id
        == system_contract()
}

/// Whether a snapshot holds the bootstrap fact with this alias.
pub open spec fn has_bootstrap(snapshot: Seq<RecordModel>, alias: Seq<char>) -> bool {
    exists|i: int| 0 <= i < snapshot.len() && is_bootstrap(#[trigger] snapshot[i], alias)
}

/// The token fact, unless the snapshot holds one.
pub open spec fn token_mutations(snapshot: Seq<RecordModel>, tx: Transaction) -> Seq<
    MutationModel,
> {
    if has_bootstrap(snapshot, "token"@) {
        seq![]
    } else {
        seq![
            MutationModel {
                public_key: system_contract(),
                alias: "token"@,
                content: token_text(tx.token_address@, tx.chain_id@, tx.token_id@),
                loose: 0,
                version: ""@,
            },
        ]
    }
}

/// The lineage fact, unless the snapshot holds one.
pub open spec fn lineage_mutations(snapshot: Seq<RecordModel>, tx: Transaction) -> Seq<
    MutationModel,
> {
    if has_bootstrap(snapshot, "lineage_key"@) {
        seq![]
    } else {
        seq![
            MutationModel {
                public_key: system_contract(),
                alias: "lineage_key"@,
                content: tx.data_key@,
                loose: 0,
                version: ""@,
            },
        ]
    }
}

/// The mention fact: filed under the transaction's contract, and found again
/// by `version`.
pub open spec fn mention_mutation(tx: Transaction, content: Seq<char>, version: Seq<char>)
    -> MutationModel {
    MutationModel {
        public_key: tx.meta_contract_id@,
        alias: "mentions"@,
        content,
        loose: 0,
        version,
    }
}

/// All facts of a successful transition: the missing bootstrap facts, then
/// the mention.
pub open spec fn mutations(
    snapshot: Seq<RecordModel>,
    tx: Transaction,
    content: Seq<char>,
    version: Seq<char>,
) -> Seq<MutationModel> {
    token_mutations(snapshot, tx) + lineage_mutations(snapshot, tx) + seq![
        mention_mutation(tx, content, version),
    ]
}

/// A failed transition: the reason and no facts.
pub open spec fn failure(reason: Seq<char>) -> OutcomeModel {
    OutcomeModel { result: false, metadatas: seq![], error_string: reason }
}

/// A successful transition: the facts and no reason.
pub open spec fn success(facts: Seq<MutationModel>) -> OutcomeModel {
    OutcomeModel { result: true, metadatas: facts, error_string: ""@ }
}

/// Writes a mention as JSON text.
pub fn encode_mention(m: &FinalMention) -> (r: String)
    ensures
        r@ == mention_text(m@),
{
    let mut out = String::from_str("{\"timestamp\":");
    let number = u64_to_string(m.timestamp);
    out.append(number.as_str());
    out.append(",\"mentionable\":");
    if m.mentionable {
        out.append("true");
    } else {
        out.append("false");
    }
    out.append(",\"owner\":");
    let owner = quoted(m.owner.as_str());
    out.append(owner.as_str());
    out.append("}");
    out
}

/// Writes the token linkage of a transaction.
pub fn token_content(address: &str, chain: &str, id: &str) -> (r: String)
    ensures
        r@ == token_text(address@, chain@, id@),
{
    let mut out = String::from_str("{ \n                        \"address\": \"");
    out.append(address);
    out.append("\", \n                        \"chain\": \"");
    out.append(chain);
    out.append("\", \n                        \"id\": \"");
    out.append(id);
    out.append("\"\n                    }");
    out
}

/// Looks in a snapshot for the bootstrap fact with this alias.
pub fn exists_bootstrap(metadatas: &Vec<Metadata>, alias: &str) -> (r: bool)
    ensures
        r == has_bootstrap(records(metadatas@), alias@),
{
    let system = String::from_str("0x01");
    let wanted = String::from_str(alias);
    let mut i: usize = 0;
    while i < metadatas.len()
        invariant
            i <= metadatas.len(),
            system@ == system_contract(),
            wanted@ == alias@,
            forall|j: int| 0 <= j < i ==> !is_bootstrap(#[trigger] records(metadatas@)[j], alias@),
        decreases metadatas.len() - i,
    {
        let m = &metadatas[i];
        if m.public_key == system && m.alias == wanted && m.meta_contract_id == system {
            assert(is_bootstrap(records(metadatas@)[i as int], alias@));
            return true;
        }
        i += 1;
    }
    false
}

/// Assembles the facts of a successful transition whose mention has been
/// written to `content`. A bootstrap fact that the snapshot holds already is
/// not filed again.
pub fn assemble(metadatas: &Vec<Metadata>, tx: &Transaction, content: String, version: String) -> (r:
    MetaContractResult)
    ensures
        r@ == success(mutations(records(metadatas@), *tx, content@, version@)),
{
    let mut finals: Vec<FinalMetadata> = Vec::new();
    if !exists_bootstrap(metadatas, "token") {
        finals.push(
            FinalMetadata {
                public_key: String::from_str("0x01"),
                alias: String::from_str("token"),
                content: token_content(
                    tx.token_address.as_str(),
                    tx.chain_id.as_str(),
                    tx.token_id.as_str(),
                ),
                loose: 0,
                version: String::from_str(""),
            },
        );
    }
    if !exists_bootstrap(metadatas, "lineage_key") {
        finals.push(
            FinalMetadata {
                public_key: String::from_str("0x01"),
                alias: String::from_str("lineage_key"),
                content: tx.data_key.clone(),
                loose: 0,
                version: String::from_str(""),
            },
        );
    }
    finals.push(
        FinalMetadata {
            public_key: tx.meta_contract_id.clone(),
            alias: String::from_str("mentions"),
            content,
            loose: 0,
            version,
        },
    );
    let r = MetaContractResult {
        result: true,
        metadatas: finals,
        error_string: String::from_str(""),
    };
    assert(r@.metadatas =~= mutations(records(metadatas@), *tx, content@, version@));
    r
}

/// A failed transition with this reason.
pub fn rejected(reason: &str) -> (r: MetaContractResult)
    ensures
        r@ == failure(reason@),
{
    let r = MetaContractResult {
        result: false,
        metadatas: Vec::new(),
        error_string: String::from_str(reason),
    };
    assert(r@.metadatas =~= seq![]);
    r
}

/// Against a snapshot that holds both bootstrap facts, a successful
/// transition files the mention and nothing else.
pub proof fn lemma_bootstrap_once(
    snapshot: Seq<RecordModel>,
    tx: Transaction,
    content: Seq<char>,
    version: Seq<char>,
)
    requires
        has_bootstrap(snapshot, "token"@),
        has_bootstrap(snapshot, "lineage_key"@),
    ensures
        mutations(snapshot, tx, content, version) == seq![mention_mutation(tx, content, version)],
{
    assert(mutations(snapshot, tx, content, version) =~= seq![
        mention_mutation(tx, content, version),
    ]);
}

} // verus!
