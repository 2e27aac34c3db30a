//! Small text helpers: numbers as decimal text, and checks on links and words.

use vstd::prelude::*;
use vstd::string::*;

verus! {

/// The character of one decimal digit.
pub open spec fn digit(d: nat) -> char {
    if d == 0 {
        '0'
    } else if d == 1 {
        '1'
    } else if d == 2 {
        '2'
    } else if d == 3 {
        '3'
    } else if d == 4 {
        '4'
    } else if d == 5 {
        '5'
    } else if d == 6 {
        '6'
    } else if d == 7 {
        '7'
    } else if d == 8 {
        '8'
    } else {
        '9'
    }
}

/// A natural number in decimal, without leading zeros.
pub open spec fn decimal(n: nat) -> Seq<char>
    decreases n,
{
    if n < 10 {
        seq![digit(n)]
    } else {
        decimal(n / 10).push(digit(n % 10))
    }
}

/// Formats a `u64` with `format!("{}", ..)`, which std documents as the
/// number in decimal.
#[verifier::external_body]
pub(crate) fn u64_to_string(n: u64) -> (r: String)
    ensures
        r@ == decimal(n as nat),
{
    format!("{}", n)
}

/// Calls `str::starts_with` with a string pattern: whether the pattern is a
/// prefix of the text.
#[verifier::external_body]
pub(crate) fn starts_with(text: &str, prefix: &str) -> (r: bool)
    ensures
        r == prefix@.is_prefix_of(text@),
{
    text.starts_with(prefix)
}

/// The gateway prefix that a stored link must carry.
pub open spec fn nft_storage_prefix() -> Seq<char> {
    "https://nftstorage.link/ipfs/"@
}

/// Whether a text holds a banned word. The word list is empty, so none does.
pub fn is_profane(text: &str) -> (r: bool)
    ensures
        !r,
{
    false
}

/// Whether a link is empty or points into the storage gateway.
pub fn is_nft_storage_link(link: &str) -> (r: bool)
    ensures
        r == (link@.len() == 0 || nft_storage_prefix().is_prefix_of(link@)),
{
    link.is_empty() || starts_with(link, "https://nftstorage.link/ipfs/")
}

} // verus!
