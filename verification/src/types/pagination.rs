//! Pagination bounds and their extraction from query parameters.

use vstd::prelude::*;

use crate::decimal::{parse_u32, parse_u32_result, ParseFault};
use crate::errors::Error;

verus! {

/// Pagination bounds taken from the query string: how many records to
/// return and how many to skip first. Ephemeral, built per request.
#[derive(Debug, Clone, Copy)]
pub struct Pagination {
    /// Greatest number of records to return; absent means all.
    pub limit: Option<u32>,
    /// Number of records to skip from the front.
    pub offset: u32,
}

impl Default for Pagination {
    /// No limit, nothing skipped: the full result set.
    fn default() -> (r: Self)
        ensures
            r.limit is None,
            r.offset == 0,
    {
        Pagination { limit: None, offset: 0 }
    }
}

/// The value under the first occurrence of `key`, if any.
pub open spec fn lookup(params: Seq<(String, String)>, key: Seq<char>) -> Option<Seq<char>>
    decreases params.len(),
{
    if params.len() == 0 {
        None
    } else if params[0].0@ == key {
        Some(params[0].1@)
    } else {
        lookup(params.drop_first(), key)
    }
}

/// While no key among the first `i` entries matches, the lookup is
/// decided by the remaining entries.
proof fn lemma_lookup_skip(params: Seq<(String, String)>, key: Seq<char>, i: int)
    requires
        0 <= i <= params.len(),
        forall|j: int| 0 <= j < i ==> (#[trigger] params[j].0)@ != key,
    ensures
        lookup(params, key) == lookup(params.skip(i), key),
    decreases i,
{
    if i > 0 {
        let rest = params.drop_first();
        assert forall|j: int| 0 <= j < i - 1 implies (#[trigger] rest[j].0)@ != key by {
            assert(rest[j] == params[j + 1]);
        }
        lemma_lookup_skip(rest, key, i - 1);
        assert(rest.skip(i - 1) =~= params.skip(i));
    } else {
        assert(params.skip(0) =~= params);
    }
}

/// Finds the value under the first occurrence of `key`.
fn find_param<'a>(params: &'a Vec<(String, String)>, key: &str) -> (r: Option<&'a String>)
    ensures
        match r {
            Some(v) => lookup(params@, key@) == Some(v@),
            None => lookup(params@, key@) is None,
        },
{
    let k: String = key.to_owned();
    let mut i: usize = 0;
    while i < params.len()
        invariant
            i <= params@.len(),
            k@ == key@,
            forall|j: int| 0 <= j < i ==> (#[trigger] params@[j].0)@ != key@,
        decreases params@.len() - i,
    {
        if params[i].0 == k {
            proof {
                lemma_lookup_skip(params@, key@, i as int);
                assert(params@.skip(i as int)[0] == params@[i as int]);
            }
            return Some(&params[i].1);
        }
        i = i + 1;
    }
    proof {
        lemma_lookup_skip(params@, key@, params@.len() as int);
        assert(params@.skip(params@.len() as int) =~= Seq::<(String, String)>::empty());
    }
    None
}

/// What extracting pagination from `params` yields: both required
/// keys must be present, both values must read as unsigned integers,
/// and the two numbers come back exactly as given.
pub open spec fn pagination_of(params: Seq<(String, String)>) -> Result<Pagination, Error> {
    match (lookup(params, "limit"@), lookup(params, "offset"@)) {
        (Some(l), Some(o)) => match parse_u32_result(l) {
            Err(fault) => Err(Error::ParseError(fault)),
            Ok(limit) => match parse_u32_result(o) {
                Err(fault) => Err(Error::ParseError(fault)),
                Ok(offset) => Ok(Pagination { limit: Some(limit), offset }),
            },
        },
        _ => Err(Error::MissingParameters),
    }
}

/// Extracts pagination bounds from the query parameters of a
/// questions listing: the `limit` and `offset` keys, both required,
/// both unsigned decimal numbers. No bounds checking is applied
/// against any collection: out-of-range values are returned as-is.
pub fn extract_pagination(params: Vec<(String, String)>) -> (r: Result<Pagination, Error>)
    ensures
        r == pagination_of(params@),
{
    let limit_param = find_param(&params, "limit");
    let offset_param = find_param(&params, "offset");
    match (limit_param, offset_param) {
        (Some(l), Some(o)) => match parse_u32(l.as_str()) {
            Err(fault) => Err(Error::ParseError(fault)),
            Ok(limit) => match parse_u32(o.as_str()) {
                Err(fault) => Err(Error::ParseError(fault)),
                Ok(offset) => Ok(Pagination { limit: Some(limit), offset }),
            },
        },
        _ => Err(Error::MissingParameters),
    }
}

/// Extraction fails with `MissingParameters` exactly when at least
/// one of the two required keys is absent.
pub proof fn lemma_missing_parameters(params: Seq<(String, String)>)
    ensures
        pagination_of(params) == Err::<Pagination, Error>(Error::MissingParameters) <==> (lookup(
            params,
            "limit"@,
        ) is None || lookup(params, "offset"@) is None),
{
}

/// With both keys present, extraction fails with `ParseError` exactly
/// when a present value is not a valid bounded decimal, whatever the
/// other value looks like; the fault reported is the limit's when the
/// limit is invalid, and the offset's otherwise.
pub proof fn lemma_parse_error(params: Seq<(String, String)>, l: Seq<char>, o: Seq<char>)
    requires
        lookup(params, "limit"@) == Some(l),
        lookup(params, "offset"@) == Some(o),
    ensures
        (pagination_of(params) matches Err(e) && e is ParseError) <==> (parse_u32_result(
            l,
        ) is Err || parse_u32_result(o) is Err),
        parse_u32_result(l) matches Err(fault) ==> pagination_of(params) == Err::<
            Pagination,
            Error,
        >(Error::ParseError(fault)),
        parse_u32_result(l) is Ok ==> (parse_u32_result(o) matches Err(fault) ==> pagination_of(
            params,
        ) == Err::<Pagination, Error>(Error::ParseError(fault))),
{
}

/// Well-formed bounds come back exactly as parsed: no clamping and no
/// reordering, however large or inverted the two numbers are.
pub proof fn lemma_no_clamping(
    params: Seq<(String, String)>,
    l: Seq<char>,
    o: Seq<char>,
    limit: u32,
    offset: u32,
)
    requires
        lookup(params, "limit"@) == Some(l),
        lookup(params, "offset"@) == Some(o),
        parse_u32_result(l) == Ok::<u32, ParseFault>(limit),
        parse_u32_result(o) == Ok::<u32, ParseFault>(offset),
    ensures
        pagination_of(params) == Ok::<Pagination, Error>(
            Pagination { limit: Some(limit), offset },
        ),
{
}

} // verus!
