//! The records that flow through one transition, and their mathematical views.

use vstd::prelude::*;

verus! {

/// What a transition hands back to its caller.
#[derive(Debug)]
pub struct MetaContractResult {
    pub result: bool,
    pub metadatas: Vec<FinalMetadata>,
    pub error_string: String,
}

/// One fact to persist.
#[derive(Debug)]
pub struct FinalMetadata {
    pub public_key: String,
    pub alias: String,
    pub content: String,
    pub loose: i64,
    pub version: String,
}

/// A previously committed fact.
#[derive(Debug, Clone)]
pub struct Metadata {
    pub hash: String,
    pub token_key: String,
    pub data_key: String,
    pub meta_contract_id: String,
    pub token_id: String,
    pub alias: String,
    pub cid: String,
    pub public_key: String,
    pub version: String,
    pub loose: i64,
}

/// An authenticated action proposed by `public_key`.
#[derive(Debug, Clone)]
pub struct Transaction {
    pub hash: String,
    pub method: String,
    pub meta_contract_id: String,
    pub data_key: String,
    pub token_key: String,
    pub data: String,
    pub public_key: String,
    pub alias: String,
    pub timestamp: u64,
    pub chain_id: String,
    pub token_address: String,
    pub token_id: String,
    pub version: String,
    pub status: i64,
    pub mcdata: String,
}

/// The contract a transition runs under.
#[derive(Debug, Clone)]
pub struct MetaContract {
    pub hash: String,
    pub token_key: String,
    pub meta_contract_id: String,
    pub public_key: String,
    pub cid: String,
}

/// The decoded payload of a transaction: a proposed mention.
#[derive(Debug)]
pub struct SerdeMetadata {
    pub cid: String,
    pub mentionable: Option<bool>,
    pub owner: String,
}

/// A block as the content store returns it. Only `content` is interpreted.
#[derive(Debug)]
pub struct Block {
    pub timestamp: u64,
    pub content: serde_json::Value,
    pub previous: serde_json::Value,
    pub transaction: serde_json::Value,
}

/// The mention record that is persisted.
#[derive(Debug)]
pub struct FinalMention {
    pub timestamp: u64,
    pub mentionable: bool,
    pub owner: String,
}

/// One equality filter of an authority query.
#[derive(Debug, Clone)]
pub struct FilterQuery {
    pub column: String,
    pub op: String,
    pub query: String,
}

#[derive(Debug)]
pub struct FilterOrdering {
    pub column: String,
    pub sort: String,
}

#[derive(Debug)]
pub struct JSONRPCFilter {
    pub query: Vec<FilterQuery>,
    pub ordering: Vec<Option<FilterOrdering>>,
    pub from: u32,
    pub to: u32,
}

#[derive(Debug)]
pub struct JSONRPCBody {
    pub jsonrpc: String,
    pub method: String,
    pub params: JSONRPCFilter,
    pub id: String,
}

#[derive(Debug)]
pub struct FdbMetadatasResult {
    pub success: bool,
    pub err_msg: String,
    pub metadatas: Vec<Metadata>,
}

#[derive(Debug)]
pub struct JSONRPCResult {
    pub jsonrpc: String,
    pub method: String,
    pub result: FdbMetadatasResult,
}

/// A mention as a mathematical value.
pub ghost struct MentionModel {
    pub timestamp: u64,
    pub mentionable: bool,
    pub owner: Seq<char>,
}

/// A proposal as a mathematical value.
pub ghost struct ProposalModel {
    pub cid: Seq<char>,
    pub mentionable: Option<bool>,
    pub owner: Seq<char>,
}

/// A fact to persist as a mathematical value.
pub ghost struct MutationModel {
    pub public_key: Seq<char>,
    pub alias: Seq<char>,
    pub content: Seq<char>,
    pub loose: i64,
    pub version: Seq<char>,
}

/// A transition's result as a mathematical value.
pub ghost struct OutcomeModel {
    pub result: bool,
    pub metadatas: Seq<MutationModel>,
    pub error_string: Seq<char>,
}

/// A committed fact as a mathematical value.
pub ghost struct RecordModel {
    pub hash: Seq<char>,
    pub token_key: Seq<char>,
    pub data_key: Seq<char>,
    pub meta_contract_id: Seq<char>,
    pub token_id: Seq<char>,
    pub alias: Seq<char>,
    pub cid: Seq<char>,
    pub public_key: Seq<char>,
    pub version: Seq<char>,
    pub loose: i64,
}

impl View for FinalMention {
    type V = MentionModel;

    open spec fn view(&self) -> MentionModel {
        MentionModel { timestamp: self.timestamp, mentionable: self.mentionable, owner: self.owner@ }
    }
}

impl View for SerdeMetadata {
    type V = ProposalModel;

    open spec fn view(&self) -> ProposalModel {
        ProposalModel { cid: self.cid@, mentionable: self.mentionable, owner: self.owner@ }
    }
}

impl View for FinalMetadata {
    type V = MutationModel;

    open spec fn view(&self) -> MutationModel {
        MutationModel {
            public_key: self.public_key@,
            alias: self.alias@,
            content: self.content@,
            loose: self.loose,
            version: self.version@,
        }
    }
}

impl View for MetaContractResult {
    type V = OutcomeModel;

    open spec fn view(&self) -> OutcomeModel {
        OutcomeModel {
            result: self.result,
            metadatas: self.metadatas@.map_values(|m: FinalMetadata| m@),
            error_string: self.error_string@,
        }
    }
}

impl View for Metadata {
    type V = RecordModel;

    open spec fn view(&self) -> RecordModel {
        RecordModel {
            hash: self.hash@,
            token_key: self.token_key@,
            data_key: self.data_key@,
            meta_contract_id: self.meta_contract_id@,
            token_id: self.token_id@,
            alias: self.alias@,
            cid: self.cid@,
            public_key: self.public_key@,
            version: self.version@,
            loose: self.loose,
        }
    }
}

/// The views of a list of committed facts.
pub open spec fn records(list: Seq<Metadata>) -> Seq<RecordModel> {
    list.map_values(|m: Metadata| m@)
}

/// The views of a list of strings.
pub open spec fn texts(list: Seq<String>) -> Seq<Seq<char>> {
    list.map_values(|s: String| s@)
}

impl FinalMention {
    /// The flag a proposal asks for: only an explicit `false` disables it.
    pub open spec fn flag_of(mentionable: Option<bool>) -> bool {
        mentionable != Some(false)
    }

    /// The record that a proposal with this flag and owner becomes at `timestamp`.
    pub fn at(timestamp: u64, mentionable: Option<bool>, owner: String) -> (r: FinalMention)
        ensures
            r@ == (MentionModel {
                timestamp,
                mentionable: Self::flag_of(mentionable),
                owner: owner@,
            }),
    {
        let flag = match mentionable {
            Some(false) => false,
            _ => true,
        };
        FinalMention { timestamp, mentionable: flag, owner }
    }

    /// The record that a proposal with this flag and owner becomes now. The
    /// timestamp is the wall clock's, so nothing is promised of it.
    pub fn new(mentionable: Option<bool>, owner: String) -> (r: FinalMention)
        ensures
            r.mentionable == Self::flag_of(mentionable),
            r.owner@ == owner@,
    {
        let now = crate::clock::unix_millis();
        Self::at(now, mentionable, owner)
    }
}

} // verus!
