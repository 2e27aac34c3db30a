//! What an outside command hands back, as the steps of a transition read it.

use vstd::prelude::*;
use vstd::utf8::{decode_utf8, valid_utf8};

verus! {

/// The exit code of a command that ran to success.
pub const SUCCESS_CODE: i32 = 0;

/// The outcome of an outside command.
#[derive(Debug)]
pub enum Reply {
    /// The command could not be completed.
    Unavailable,
    /// The command wrote something that is not text.
    Unreadable,
    /// The text that the command wrote.
    Text(String),
}

/// A reply as a mathematical value.
pub ghost enum ReplyModel {
    Unavailable,
    Unreadable,
    Text(Seq<char>),
}

impl View for Reply {
    type V = ReplyModel;

    open spec fn view(&self) -> ReplyModel {
        match *self {
            Reply::Unavailable => ReplyModel::Unavailable,
            Reply::Unreadable => ReplyModel::Unreadable,
            Reply::Text(s) => ReplyModel::Text(s@),
        }
    }
}

/// The reply that an exit code and an output stand for: a failed command is
/// unavailable whatever it wrote, and the output of a successful one counts
/// if it is UTF-8.
pub open spec fn reply_of(ret_code: i32, stdout: Seq<u8>) -> ReplyModel {
    if ret_code != SUCCESS_CODE {
        ReplyModel::Unavailable
    } else if valid_utf8(stdout) {
        ReplyModel::Text(decode_utf8(stdout))
    } else {
        ReplyModel::Unreadable
    }
}

/// Calls `String::from_utf8`, which std documents to succeed exactly on
/// valid UTF-8 and then to hold the text that the bytes encode.
#[verifier::external_body]
fn utf8_text(bytes: Vec<u8>) -> (r: Option<String>)
    ensures
        match r {
            Some(s) => valid_utf8(bytes@) && s@ == decode_utf8(bytes@),
            None => !valid_utf8(bytes@),
        },
{
    String::from_utf8(bytes).ok()
}

/// Reads the exit code and the output of an outside command.
pub fn read_reply(ret_code: i32, stdout: Vec<u8>) -> (r: Reply)
    ensures
        r@ == reply_of(ret_code, stdout@),
{
    if ret_code != SUCCESS_CODE {
        Reply::Unavailable
    } else {
        match utf8_text(stdout) {
            Some(text) => Reply::Text(text),
            None => Reply::Unreadable,
        }
    }
}

} // verus!
