//! The remote authority client: the query it posts, the command line that
//! posts it, and the identity that an answer claims.

use vstd::prelude::*;
use vstd::string::*;
use crate::decode::ResponseModel;
use crate::json::{json_quoted, quoted};
use crate::text::{decimal, u64_to_string};
use crate::types::{
    texts, FilterOrdering, FilterQuery, JSONRPCBody, JSONRPCFilter, JSONRPCResult,
};

verus! {

/// A filter as plain values: column, operator, value.
pub type FilterModel = (Seq<char>, Seq<char>, Seq<char>);

/// An ordering as plain values: column and direction, or nothing.
pub type OrderingModel = Option<(Seq<char>, Seq<char>)>;

/// The endpoint used when a call names none.
pub const DEFAULT_LINEAGE_NODE_URL: &'static str = "http://127.0.0.1:3000/api/v0/json-rpc";

/// The filters of a query as plain values.
pub open spec fn filters_of(query: Seq<FilterQuery>) -> Seq<FilterModel> {
    query.map_values(|f: FilterQuery| (f.column@, f.op@, f.query@))
}

/// The orderings of a query as plain values.
pub open spec fn orderings_of(ordering: Seq<Option<FilterOrdering>>) -> Seq<OrderingModel> {
    ordering.map_values(
        |o: Option<FilterOrdering>|
            match o {
                Some(f) => Some((f.column@, f.sort@)),
                None => None,
            },
    )
}

/// The equality filters that a list of column and value pairs asks for.
pub open spec fn equalities(args: Seq<(String, String)>) -> Seq<FilterModel> {
    args.map_values(|p: (String, String)| (p.0@, "="@, p.1@))
}

/// One filter as JSON text.
pub open spec fn filter_text(f: FilterModel) -> Seq<char> {
    "{\"column\":"@ + json_quoted(f.0) + ",\"op\":"@ + json_quoted(f.1) + ",\"query\":"@
        + json_quoted(f.2) + "}"@
}

/// The first `n` filters as JSON text, with commas between them.
pub open spec fn filters_text(filters: Seq<FilterModel>, n: nat) -> Seq<char>
    decreases n,
{
    if n == 0 {
        Seq::empty()
    } else if n == 1 {
        filter_text(filters[0])
    } else {
        filters_text(filters, (n - 1) as nat) + ","@ + filter_text(filters[n - 1])
    }
}

/// One ordering slot as JSON text.
pub open spec fn ordering_text(o: OrderingModel) -> Seq<char> {
    match o {
        Some(f) => "{\"column\":"@ + json_quoted(f.0) + ",\"sort\":"@ + json_quoted(f.1) + "}"@,
        None => "null"@,
    }
}

/// The first `n` ordering slots as JSON text, with commas between them.
pub open spec fn orderings_text(orderings: Seq<OrderingModel>, n: nat) -> Seq<char>
    decreases n,
{
    if n == 0 {
        Seq::empty()
    } else if n == 1 {
        ordering_text(orderings[0])
    } else {
        orderings_text(orderings, (n - 1) as nat) + ","@ + ordering_text(orderings[n - 1])
    }
}

/// A query window as JSON text.
pub open spec fn params_text(
    filters: Seq<FilterModel>,
    orderings: Seq<OrderingModel>,
    from: u32,
    to: u32,
) -> Seq<char> {
    "{\"query\":["@ + filters_text(filters, filters.len()) + "],\"ordering\":["@ + orderings_text(
        orderings,
        orderings.len(),
    ) + "],\"from\":"@ + decimal(from as nat) + ",\"to\":"@ + decimal(to as nat) + "}"@
}

/// A request envelope as JSON text.
pub open spec fn body_text(body: JSONRPCBody) -> Seq<char> {
    "{\"jsonrpc\":"@ + json_quoted(body.jsonrpc@) + ",\"method\":"@ + json_quoted(body.method@)
        + ",\"params\":"@ + params_text(
        filters_of(body.params.query@),
        orderings_of(body.params.ordering@),
        body.params.from,
        body.params.to,
    ) + ",\"id\":"@ + json_quoted(body.id@) + "}"@
}

/// The search request for a list of equality filters, as JSON text.
pub open spec fn search_text(filters: Seq<FilterModel>) -> Seq<char> {
    "{\"jsonrpc\":"@ + json_quoted("2.0"@) + ",\"method\":"@ + json_quoted("search_metadatas"@)
        + ",\"params\":"@ + params_text(filters, Seq::empty(), 0, 0) + ",\"id\":"@ + json_quoted(
        "1"@,
    ) + "}"@
}

/// The command line that posts `data` to `url`.
pub open spec fn fetch_args(data: Seq<char>, url: Seq<char>) -> Seq<Seq<char>> {
    seq![
        "curl"@,
        "-X"@,
        "POST"@,
        "-H"@,
        "Content-type: application/json"@,
        "-d"@,
        data,
        url,
    ]
}

/// The identity that an answer claims: the author of its first record, if
/// the search succeeded and found one.
pub open spec fn claimed_identity(response: ResponseModel) -> Option<Seq<char>> {
    if response.success && response.metadatas.len() > 0 {
        Some(response.metadatas[0].public_key)
    } else {
        None
    }
}

fn encode_filter(f: &FilterQuery) -> (r: String)
    ensures
        r@ == filter_text((f.column@, f.op@, f.query@)),
{
    let mut out = String::from_str("{\"column\":");
    out.append(quoted(f.column.as_str()).as_str());
    out.append(",\"op\":");
    out.append(quoted(f.op.as_str()).as_str());
    out.append(",\"query\":");
    out.append(quoted(f.query.as_str()).as_str());
    out.append("}");
    out
}

fn encode_ordering(o: &Option<FilterOrdering>) -> (r: String)
    ensures
        r@ == ordering_text(
            match *o {
                Some(f) => Some((f.column@, f.sort@)),
                None => None,
            },
        ),
{
    match o {
        Some(f) => {
            let mut out = String::from_str("{\"column\":");
            out.append(quoted(f.column.as_str()).as_str());
            out.append(",\"sort\":");
            out.append(quoted(f.sort.as_str()).as_str());
            out.append("}");
            out
        },
        None => String::from_str("null"),
    }
}

fn encode_params(params: &JSONRPCFilter) -> (r: String)
    ensures
        r@ == params_text(
            filters_of(params.query@),
            orderings_of(params.ordering@),
            params.from,
            params.to,
        ),
{
    let ghost filters = filters_of(params.query@);
    let ghost orderings = orderings_of(params.ordering@);
    let mut list = String::new();
    let mut i: usize = 0;
    while i < params.query.len()
        invariant
            i <= params.query.len(),
            filters == filters_of(params.query@),
            list@ == filters_text(filters, i as nat),
        decreases params.query.len() - i,
    {
        if i > 0 {
            list.append(",");
        }
        let item = encode_filter(&params.query[i]);
        list.append(item.as_str());
        proof {
            assert(filters[i as int] == (
                params.query@[i as int].column@,
                params.query@[i as int].op@,
                params.query@[i as int].query@,
            ));
            if i == 0 {
                assert(list@ =~= filter_text(filters[0]));
            }
        }
        i += 1;
    }
    let mut slots = String::new();
    let mut k: usize = 0;
    while k < params.ordering.len()
        invariant
            k <= params.ordering.len(),
            orderings == orderings_of(params.ordering@),
            slots@ == orderings_text(orderings, k as nat),
        decreases params.ordering.len() - k,
    {
        if k > 0 {
            slots.append(",");
        }
        let item = encode_ordering(&params.ordering[k]);
        slots.append(item.as_str());
        proof {
            if k == 0 {
                assert(slots@ =~= ordering_text(orderings[0]));
            }
        }
        k += 1;
    }
    let mut out = String::from_str("{\"query\":[");
    out.append(list.as_str());
    out.append("],\"ordering\":[");
    out.append(slots.as_str());
    out.append("],\"from\":");
    out.append(u64_to_string(widen(params.from)).as_str());
    out.append(",\"to\":");
    out.append(u64_to_string(widen(params.to)).as_str());
    out.append("}");
    out
}

fn widen(n: u32) -> (r: u64)
    ensures
        r == n,
{
    n as u64
}

/// Writes a request envelope as JSON text.
pub fn encode_body(body: &JSONRPCBody) -> (r: String)
    ensures
        r@ == body_text(*body),
{
    let mut out = String::from_str("{\"jsonrpc\":");
    out.append(quoted(body.jsonrpc.as_str()).as_str());
    out.append(",\"method\":");
    out.append(quoted(body.method.as_str()).as_str());
    out.append(",\"params\":");
    out.append(encode_params(&body.params).as_str());
    out.append(",\"id\":");
    out.append(quoted(body.id.as_str()).as_str());
    out.append("}");
    out
}

/// Builds the search request for a list of column and value pairs: one
/// equality filter for each, in the order given, no ordering and an open
/// window.
pub fn search_body(args: &Vec<(String, String)>) -> (r: JSONRPCBody)
    ensures
        r.jsonrpc@ == "2.0"@,
        r.method@ == "search_metadatas"@,
        r.id@ == "1"@,
        filters_of(r.params.query@) == equalities(args@),
        r.params.ordering@.len() == 0,
        r.params.from == 0,
        r.params.to == 0,
{
    let mut query: Vec<FilterQuery> = Vec::new();
    let mut i: usize = 0;
    while i < args.len()
        invariant
            i <= args.len(),
            query.len() == i,
            forall|j: int|
                0 <= j < i ==> #[trigger] filters_of(query@)[j] == equalities(args@)[j],
        decreases args.len() - i,
    {
        let ghost before = query@;
        query.push(
            FilterQuery {
                column: args[i].0.clone(),
                op: String::from_str("="),
                query: args[i].1.clone(),
            },
        );
        proof {
            assert forall|j: int| 0 <= j < i + 1 implies #[trigger] filters_of(query@)[j]
                == equalities(args@)[j] by {
                if j < i {
                    assert(query@[j] == before[j]);
                    assert(filters_of(before)[j] == equalities(args@)[j]);
                }
            }
        }
        i += 1;
    }
    assert(filters_of(query@) =~= equalities(args@));
    let params = JSONRPCFilter { query, ordering: Vec::new(), from: 0, to: 0 };
    JSONRPCBody {
        jsonrpc: String::from_str("2.0"),
        method: String::from_str("search_metadatas"),
        params,
        id: String::from_str("1"),
    }
}

/// The search request for a list of column and value pairs, as JSON text.
pub fn make_search_metadatas_body(args: Vec<(String, String)>) -> (r: String)
    ensures
        r@ == search_text(equalities(args@)),
{
    let body = search_body(&args);
    assert(orderings_of(body.params.ordering@) =~= Seq::empty());
    encode_body(&body)
}

/// The command line that posts `data` to `url` as JSON.
pub fn fetch(data: String, url: String) -> (r: Vec<String>)
    ensures
        texts(r@) == fetch_args(data@, url@),
{
    let mut cmd: Vec<String> = Vec::new();
    cmd.push(String::from_str("curl"));
    cmd.push(String::from_str("-X"));
    cmd.push(String::from_str("POST"));
    cmd.push(String::from_str("-H"));
    cmd.push(String::from_str("Content-type: application/json"));
    cmd.push(String::from_str("-d"));
    cmd.push(data);
    cmd.push(url);
    assert(texts(cmd@) =~= fetch_args(data@, url@));
    cmd
}

/// The identity that an authority's answer claims, if it claims one. Only
/// the first record is consulted.
pub fn first_match_identity(response: &JSONRPCResult) -> (r: Option<String>)
    ensures
        match r {
            Some(id) => claimed_identity(response@) == Some(id@),
            None => claimed_identity(response@).is_none(),
        },
{
    if response.result.success && response.result.metadatas.len() > 0 {
        Some(response.result.metadatas[0].public_key.clone())
    } else {
        None
    }
}

} // verus!
