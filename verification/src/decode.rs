//! Decoders: from JSON text to the records of a transition.

use vstd::prelude::*;
use crate::json::{
    as_flag, as_items, as_signed, as_text, as_unsigned, copy_of, is_null, json_bool, json_i64,
    json_items, json_member, json_null, json_parsed, json_text, json_u64, member, parse,
};
use crate::types::{
    records, Block, FdbMetadatasResult, FinalMention, JSONRPCResult, MentionModel, Metadata,
    ProposalModel, RecordModel, SerdeMetadata,
};

verus! {

/// The string under `key`, if the value is an object that holds one there.
pub open spec fn text_field(value: serde_json::Value, key: Seq<char>) -> Option<Seq<char>> {
    match json_member(value, key) {
        Some(m) => json_text(m),
        None => None,
    }
}

/// The boolean under `key`.
pub open spec fn flag_field(value: serde_json::Value, key: Seq<char>) -> Option<bool> {
    match json_member(value, key) {
        Some(m) => json_bool(m),
        None => None,
    }
}

/// The unsigned number under `key`.
pub open spec fn unsigned_field(value: serde_json::Value, key: Seq<char>) -> Option<u64> {
    match json_member(value, key) {
        Some(m) => json_u64(m),
        None => None,
    }
}

/// The signed number under `key`.
pub open spec fn signed_field(value: serde_json::Value, key: Seq<char>) -> Option<i64> {
    match json_member(value, key) {
        Some(m) => json_i64(m),
        None => None,
    }
}

/// A boolean that may be left out: absent and `null` both read as unset,
/// anything but a boolean is malformed (the outer `None`).
pub open spec fn optional_flag_field(value: serde_json::Value, key: Seq<char>) -> Option<
    Option<bool>,
> {
    match json_member(value, key) {
        None => Some(None),
        Some(m) => if json_null(m) {
            Some(None)
        } else {
            match json_bool(m) {
                Some(b) => Some(Some(b)),
                None => None,
            }
        },
    }
}

/// A string that may be left out: absent reads as the empty string, anything
/// but a string is malformed.
pub open spec fn optional_text_field(value: serde_json::Value, key: Seq<char>) -> Option<
    Seq<char>,
> {
    match json_member(value, key) {
        None => Some(Seq::empty()),
        Some(m) => json_text(m),
    }
}

/// The proposal that a JSON value holds: a string `cid`, an optional boolean
/// `mentionable` and an optional string `owner`.
pub open spec fn proposal_in(value: serde_json::Value) -> Option<ProposalModel> {
    if text_field(value, "cid"@).is_some() && optional_flag_field(value, "mentionable"@).is_some()
        && optional_text_field(value, "owner"@).is_some() {
        Some(
            ProposalModel {
                cid: text_field(value, "cid"@).unwrap(),
                mentionable: optional_flag_field(value, "mentionable"@).unwrap(),
                owner: optional_text_field(value, "owner"@).unwrap(),
            },
        )
    } else {
        None
    }
}

/// The proposal that a payload decodes to, if it follows the schema.
pub open spec fn proposal_of(data: Seq<char>) -> Option<ProposalModel> {
    match json_parsed(data) {
        Some(value) => proposal_in(value),
        None => None,
    }
}

/// The mention that a JSON value holds: a number `timestamp`, a boolean
/// `mentionable` and a string `owner`.
pub open spec fn mention_in(value: serde_json::Value) -> Option<MentionModel> {
    if unsigned_field(value, "timestamp"@).is_some() && flag_field(value, "mentionable"@).is_some()
        && text_field(value, "owner"@).is_some() {
        Some(
            MentionModel {
                timestamp: unsigned_field(value, "timestamp"@).unwrap(),
                mentionable: flag_field(value, "mentionable"@).unwrap(),
                owner: text_field(value, "owner"@).unwrap(),
            },
        )
    } else {
        None
    }
}

/// A decoded block as a mathematical value: the timestamp and the three
/// uninterpreted members.
pub ghost struct BlockModel {
    pub timestamp: u64,
    pub content: serde_json::Value,
    pub previous: serde_json::Value,
    pub transaction: serde_json::Value,
}

impl View for Block {
    type V = BlockModel;

    open spec fn view(&self) -> BlockModel {
        BlockModel {
            timestamp: self.timestamp,
            content: self.content,
            previous: self.previous,
            transaction: self.transaction,
        }
    }
}

/// The block that a store response decodes to: a number `timestamp` and the
/// members `content`, `previous` and `transaction`, all four present.
pub open spec fn block_of(text: Seq<char>) -> Option<BlockModel> {
    match json_parsed(text) {
        None => None,
        Some(value) => if unsigned_field(value, "timestamp"@).is_some() && json_member(
            value,
            "content"@,
        ).is_some() && json_member(value, "previous"@).is_some() && json_member(
            value,
            "transaction"@,
        ).is_some() {
            Some(
                BlockModel {
                    timestamp: unsigned_field(value, "timestamp"@).unwrap(),
                    content: json_member(value, "content"@).unwrap(),
                    previous: json_member(value, "previous"@).unwrap(),
                    transaction: json_member(value, "transaction"@).unwrap(),
                },
            )
        } else {
            None
        },
    }
}

/// The committed fact that a JSON value holds: nine strings and `loose`.
pub open spec fn record_in(value: serde_json::Value) -> Option<RecordModel> {
    if text_field(value, "hash"@).is_some() && text_field(value, "token_key"@).is_some()
        && text_field(value, "data_key"@).is_some() && text_field(
        value,
        "meta_contract_id"@,
    ).is_some() && text_field(value, "token_id"@).is_some() && text_field(value, "alias"@).is_some()
        && text_field(value, "cid"@).is_some() && text_field(value, "public_key"@).is_some()
        && text_field(value, "version"@).is_some() && signed_field(value, "loose"@).is_some() {
        Some(
            RecordModel {
                hash: text_field(value, "hash"@).unwrap(),
                token_key: text_field(value, "token_key"@).unwrap(),
                data_key: text_field(value, "data_key"@).unwrap(),
                meta_contract_id: text_field(value, "meta_contract_id"@).unwrap(),
                token_id: text_field(value, "token_id"@).unwrap(),
                alias: text_field(value, "alias"@).unwrap(),
                cid: text_field(value, "cid"@).unwrap(),
                public_key: text_field(value, "public_key"@).unwrap(),
                version: text_field(value, "version"@).unwrap(),
                loose: signed_field(value, "loose"@).unwrap(),
            },
        )
    } else {
        None
    }
}

/// The committed facts that a list of JSON values holds, if each holds one.
pub open spec fn records_in(items: Seq<serde_json::Value>) -> Option<Seq<RecordModel>> {
    if forall|i: int| 0 <= i < items.len() ==> (#[trigger] record_in(items[i])).is_some() {
        Some(Seq::new(items.len(), |i: int| record_in(items[i]).unwrap()))
    } else {
        None
    }
}

/// An authority's answer as a mathematical value.
pub ghost struct ResponseModel {
    pub jsonrpc: Seq<char>,
    pub method: Seq<char>,
    pub success: bool,
    pub err_msg: Seq<char>,
    pub metadatas: Seq<RecordModel>,
}

impl View for JSONRPCResult {
    type V = ResponseModel;

    open spec fn view(&self) -> ResponseModel {
        ResponseModel {
            jsonrpc: self.jsonrpc@,
            method: self.method@,
            success: self.result.success,
            err_msg: self.result.err_msg@,
            metadatas: records(self.result.metadatas@),
        }
    }
}

/// The search result that a JSON value holds: `success`, `err_msg` and the
/// list `metadatas`.
pub open spec fn search_result_in(value: serde_json::Value) -> Option<
    (bool, Seq<char>, Seq<RecordModel>),
> {
    if flag_field(value, "success"@).is_some() && text_field(value, "err_msg"@).is_some()
        && json_member(value, "metadatas"@).is_some() && json_items(
        json_member(value, "metadatas"@).unwrap(),
    ).is_some() && records_in(
        json_items(json_member(value, "metadatas"@).unwrap()).unwrap(),
    ).is_some() {
        Some(
            (
                flag_field(value, "success"@).unwrap(),
                text_field(value, "err_msg"@).unwrap(),
                records_in(json_items(json_member(value, "metadatas"@).unwrap()).unwrap()).unwrap(),
            ),
        )
    } else {
        None
    }
}

/// The answer that an authority's response decodes to: the strings `jsonrpc`
/// and `method` around a search result under `result`.
pub open spec fn response_of(text: Seq<char>) -> Option<ResponseModel> {
    match json_parsed(text) {
        None => None,
        Some(value) => if text_field(value, "jsonrpc"@).is_some() && text_field(
            value,
            "method"@,
        ).is_some() && json_member(value, "result"@).is_some() && search_result_in(
            json_member(value, "result"@).unwrap(),
        ).is_some() {
            Some(
                ResponseModel {
                    jsonrpc: text_field(value, "jsonrpc"@).unwrap(),
                    method: text_field(value, "method"@).unwrap(),
                    success: search_result_in(json_member(value, "result"@).unwrap()).unwrap().0,
                    err_msg: search_result_in(json_member(value, "result"@).unwrap()).unwrap().1,
                    metadatas: search_result_in(json_member(value, "result"@).unwrap()).unwrap().2,
                },
            )
        } else {
            None
        },
    }
}

fn read_text(value: &serde_json::Value, key: &str) -> (r: Option<String>)
    ensures
        match r {
            Some(s) => text_field(*value, key@) == Some(s@),
            None => text_field(*value, key@).is_none(),
        },
{
    match member(value, key) {
        Some(m) => as_text(m),
        None => None,
    }
}

fn read_flag(value: &serde_json::Value, key: &str) -> (r: Option<bool>)
    ensures
        r == flag_field(*value, key@),
{
    match member(value, key) {
        Some(m) => as_flag(m),
        None => None,
    }
}

fn read_unsigned(value: &serde_json::Value, key: &str) -> (r: Option<u64>)
    ensures
        r == unsigned_field(*value, key@),
{
    match member(value, key) {
        Some(m) => as_unsigned(m),
        None => None,
    }
}

fn read_signed(value: &serde_json::Value, key: &str) -> (r: Option<i64>)
    ensures
        r == signed_field(*value, key@),
{
    match member(value, key) {
        Some(m) => as_signed(m),
        None => None,
    }
}

fn read_optional_flag(value: &serde_json::Value, key: &str) -> (r: Option<Option<bool>>)
    ensures
        r == optional_flag_field(*value, key@),
{
    match member(value, key) {
        None => Some(None),
        Some(m) => {
            if is_null(m) {
                Some(None)
            } else {
                match as_flag(m) {
                    Some(b) => Some(Some(b)),
                    None => None,
                }
            }
        },
    }
}

fn read_optional_text(value: &serde_json::Value, key: &str) -> (r: Option<String>)
    ensures
        match r {
            Some(s) => optional_text_field(*value, key@) == Some(s@),
            None => optional_text_field(*value, key@).is_none(),
        },
{
    match member(value, key) {
        Some(m) => as_text(m),
        None => Some(String::new()),
    }
}

/// Decodes a transaction's payload into a proposal. `None` means that the
/// payload does not follow the schema.
pub fn decode_proposal(data: &str) -> (r: Option<SerdeMetadata>)
    ensures
        match r {
            Some(p) => proposal_of(data@) == Some(p@),
            None => proposal_of(data@).is_none(),
        },
{
    let value = match parse(data) {
        Ok(v) => v,
        Err(_) => { return None; },
    };
    let cid = match read_text(&value, "cid") {
        Some(s) => s,
        None => { return None; },
    };
    let mentionable = match read_optional_flag(&value, "mentionable") {
        Some(f) => f,
        None => { return None; },
    };
    let owner = match read_optional_text(&value, "owner") {
        Some(s) => s,
        None => { return None; },
    };
    Some(SerdeMetadata { cid, mentionable, owner })
}

/// Decodes a stored mention from a block's content.
pub fn decode_mention(value: &serde_json::Value) -> (r: Option<FinalMention>)
    ensures
        match r {
            Some(m) => mention_in(*value) == Some(m@),
            None => mention_in(*value).is_none(),
        },
{
    let timestamp: u64 = match read_unsigned(value, "timestamp") {
        Some(t) => t,
        None => { return None; },
    };
    let mentionable = match read_flag(value, "mentionable") {
        Some(f) => f,
        None => { return None; },
    };
    let owner = match read_text(value, "owner") {
        Some(s) => s,
        None => { return None; },
    };
    Some(FinalMention { timestamp, mentionable, owner })
}

/// Decodes a store response into a block. `None` means a malformed block.
pub fn decode_block(text: &str) -> (r: Option<Block>)
    ensures
        match r {
            Some(b) => block_of(text@) == Some(b@),
            None => block_of(text@).is_none(),
        },
{
    let value = match parse(text) {
        Ok(v) => v,
        Err(_) => { return None; },
    };
    let timestamp: u64 = match read_unsigned(&value, "timestamp") {
        Some(t) => t,
        None => { return None; },
    };
    let content = match member(&value, "content") {
        Some(m) => copy_of(m),
        None => { return None; },
    };
    let previous = match member(&value, "previous") {
        Some(m) => copy_of(m),
        None => { return None; },
    };
    let transaction = match member(&value, "transaction") {
        Some(m) => copy_of(m),
        None => { return None; },
    };
    Some(Block { timestamp, content, previous, transaction })
}

/// Decodes one committed fact.
pub fn decode_metadata(value: &serde_json::Value) -> (r: Option<Metadata>)
    ensures
        match r {
            Some(m) => record_in(*value) == Some(m@),
            None => record_in(*value).is_none(),
        },
{
    let hash = match read_text(value, "hash") {
        Some(s) => s,
        None => { return None; },
    };
    let token_key = match read_text(value, "token_key") {
        Some(s) => s,
        None => { return None; },
    };
    let data_key = match read_text(value, "data_key") {
        Some(s) => s,
        None => { return None; },
    };
    let meta_contract_id = match read_text(value, "meta_contract_id") {
        Some(s) => s,
        None => { return None; },
    };
    let token_id = match read_text(value, "token_id") {
        Some(s) => s,
        None => { return None; },
    };
    let alias = match read_text(value, "alias") {
        Some(s) => s,
        None => { return None; },
    };
    let cid = match read_text(value, "cid") {
        Some(s) => s,
        None => { return None; },
    };
    let public_key = match read_text(value, "public_key") {
        Some(s) => s,
        None => { return None; },
    };
    let version = match read_text(value, "version") {
        Some(s) => s,
        None => { return None; },
    };
    let loose: i64 = match read_signed(value, "loose") {
        Some(n) => n,
        None => { return None; },
    };
    Some(
        Metadata {
            hash,
            token_key,
            data_key,
            meta_contract_id,
            token_id,
            alias,
            cid,
            public_key,
            version,
            loose,
        },
    )
}

/// Decodes a list of committed facts: all of them, or none.
pub fn decode_metadatas(items: &Vec<serde_json::Value>) -> (r: Option<Vec<Metadata>>)
    ensures
        match r {
            Some(list) => records_in(items@) == Some(records(list@)),
            None => records_in(items@).is_none(),
        },
{
    let mut out: Vec<Metadata> = Vec::new();
    let mut i: usize = 0;
    while i < items.len()
        invariant
            i <= items.len(),
            out.len() == i,
            forall|j: int| 0 <= j < i ==> record_in(items@[j]) == Some(#[trigger] out@[j]@),
        decreases items.len() - i,
    {
        match decode_metadata(&items[i]) {
            Some(m) => {
                out.push(m);
            },
            None => {
                return None;
            },
        }
        i += 1;
    }
    proof {
        assert forall|j: int| 0 <= j < items@.len() implies (#[trigger] record_in(
            items@[j],
        )).is_some() by {
            assert(record_in(items@[j]) == Some(out@[j]@));
        }
        assert(records_in(items@).unwrap() =~= records(out@)) by {
            assert forall|j: int| 0 <= j < items@.len() implies records_in(items@).unwrap()[j]
                == records(out@)[j] by {
                assert(record_in(items@[j]) == Some(out@[j]@));
            }
        }
    }
    Some(out)
}

fn decode_search_result(value: &serde_json::Value) -> (r: Option<FdbMetadatasResult>)
    ensures
        match r {
            Some(s) => search_result_in(*value) == Some(
                (s.success, s.err_msg@, records(s.metadatas@)),
            ),
            None => search_result_in(*value).is_none(),
        },
{
    let success = match read_flag(value, "success") {
        Some(f) => f,
        None => { return None; },
    };
    let err_msg = match read_text(value, "err_msg") {
        Some(s) => s,
        None => { return None; },
    };
    let list = match member(value, "metadatas") {
        Some(m) => m,
        None => { return None; },
    };
    let items = match as_items(list) {
        Some(v) => v,
        None => { return None; },
    };
    let metadatas = match decode_metadatas(items) {
        Some(v) => v,
        None => { return None; },
    };
    Some(FdbMetadatasResult { success, err_msg, metadatas })
}

/// Decodes an authority's response. `None` means a malformed response.
pub fn decode_response(text: &str) -> (r: Option<JSONRPCResult>)
    ensures
        match r {
            Some(resp) => response_of(text@) == Some(resp@),
            None => response_of(text@).is_none(),
        },
{
    let value = match parse(text) {
        Ok(v) => v,
        Err(_) => { return None; },
    };
    let jsonrpc = match read_text(&value, "jsonrpc") {
        Some(s) => s,
        None => { return None; },
    };
    let method = match read_text(&value, "method") {
        Some(s) => s,
        None => { return None; },
    };
    let inner = match member(&value, "result") {
        Some(m) => m,
        None => { return None; },
    };
    let result = match decode_search_result(inner) {
        Some(r) => r,
        None => { return None; },
    };
    Some(JSONRPCResult { jsonrpc, method, result })
}

} // verus!
