//! The content store client: the command line of a block fetch.

use vstd::prelude::*;
use vstd::string::*;
use crate::text::{decimal, u64_to_string};
use crate::types::texts;

verus! {

/// The store address used when a call names none.
pub const DEFAULT_IPFS_MULTIADDR: &'static str = "/ip4/127.0.0.1/tcp/5001";

/// The timeout, in seconds, used when a call gives zero.
pub const DEFAULT_TIMEOUT_SEC: u64 = 1;

/// A timeout as the store's command line takes it: the seconds and an `s`.
pub open spec fn timeout_text(timeout: u64) -> Seq<char> {
    decimal(timeout as nat) + "s"@
}

/// The command line of a store call: the arguments, then the timeout and
/// the address options.
pub open spec fn cmd_args(args: Seq<Seq<char>>, api_multiaddr: Seq<char>, timeout_sec: u64) -> Seq<
    Seq<char>,
> {
    args + seq!["--timeout"@, timeout_text(timeout_sec), "--api"@, api_multiaddr]
}

/// The command line that fetches the block `hash`, with the defaults filled in.
pub open spec fn get_args(hash: Seq<char>, api_multiaddr: Seq<char>, timeout_sec: u64) -> Seq<
    Seq<char>,
> {
    cmd_args(
        seq!["dag"@, "get"@, hash],
        if api_multiaddr.len() == 0 {
            DEFAULT_IPFS_MULTIADDR@
        } else {
            api_multiaddr
        },
        if timeout_sec == 0 {
            DEFAULT_TIMEOUT_SEC
        } else {
            timeout_sec
        },
    )
}

/// Writes a timeout as the store's command line takes it.
pub fn get_timeout_string(timeout: u64) -> (r: String)
    ensures
        r@ == timeout_text(timeout),
{
    let mut s = u64_to_string(timeout);
    s.append("s");
    s
}

/// Completes the arguments of a store call with the timeout and the address.
pub fn make_cmd_args(args: Vec<String>, api_multiaddr: String, timeout_sec: u64) -> (r: Vec<String>)
    ensures
        texts(r@) == cmd_args(texts(args@), api_multiaddr@, timeout_sec),
{
    let ghost before = texts(args@);
    let mut out = args;
    out.push(String::from_str("--timeout"));
    out.push(get_timeout_string(timeout_sec));
    out.push(String::from_str("--api"));
    out.push(api_multiaddr);
    assert(texts(out@) =~= cmd_args(before, api_multiaddr@, timeout_sec));
    out
}

/// The command line that asks the store for the block `hash`. An empty
/// address and a zero timeout stand for the defaults.
pub fn get(hash: String, api_multiaddr: String, timeout_sec: u64) -> (r: Vec<String>)
    ensures
        texts(r@) == get_args(hash@, api_multiaddr@, timeout_sec),
{
    let address = if api_multiaddr.as_str().is_empty() {
        String::from_str(DEFAULT_IPFS_MULTIADDR)
    } else {
        api_multiaddr
    };
    let t: u64 = if timeout_sec == 0 {
        DEFAULT_TIMEOUT_SEC
    } else {
        timeout_sec
    };
    let mut args: Vec<String> = Vec::new();
    args.push(String::from_str("dag"));
    args.push(String::from_str("get"));
    args.push(hash);
    assert(texts(args@) =~= seq!["dag"@, "get"@, hash@]);
    make_cmd_args(args, address, t)
}

} // verus!
