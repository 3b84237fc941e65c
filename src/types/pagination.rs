use crate::error::{CustomError, InvalidPagination};
use crate::types::params::QueryParams;
use std::num::ParseIntError;
use vstd::prelude::*;

verus! {

/// A window `start..end` over a listing.
#[derive(Debug, Clone, Copy)]
pub struct Pagination {
    pub start: usize,
    pub end: usize,
}

pub open spec fn is_decimal_digit(c: char) -> bool {
    '0' <= c && c <= '9'
}

/// The number that a string of decimal digits denotes.
pub open spec fn digits_value(d: Seq<char>) -> nat
    decreases d.len(),
{
    if d.len() == 0 {
        0
    } else {
        digits_value(d.drop_last()) * 10 + (d.last() as int - '0' as int) as nat
    }
}

/// The text after an optional leading `+`.
pub open spec fn unsigned_digits(s: Seq<char>) -> Seq<char> {
    if s.len() > 0 && s[0] == '+' {
        s.drop_first()
    } else {
        s
    }
}

/// Whether `s` is the decimal text of a `usize`: an optional `+`, then one
/// or more decimal digits whose value fits in a `usize`.
pub open spec fn parses_as_usize(s: Seq<char>) -> bool {
    let d = unsigned_digits(s);
    &&& d.len() > 0
    &&& forall|i: int| 0 <= i < d.len() ==> is_decimal_digit(#[trigger] d[i])
    &&& digits_value(d) <= usize::MAX
}

/// The value of a decimal text.
pub open spec fn usize_value(s: Seq<char>) -> nat {
    digits_value(unsigned_digits(s))
}

/// Relies on `str::parse::<usize>` (`usize::from_str_radix` in radix 10),
/// which accepts an optional `+` followed by one or more digits `0`-`9` whose
/// value fits in a `usize`, and returns an error on any other text.
#[verifier::external_body]
fn parse_usize(s: &str) -> (r: Result<usize, ParseIntError>)
    ensures
        r is Ok <==> parses_as_usize(s@),
        r matches Ok(n) ==> n == usize_value(s@),
{
    s.parse::<usize>()
}

/// Whether both window parameters are present.
pub open spec fn has_window_params(params: Map<Seq<char>, Seq<char>>) -> bool {
    params.contains_key("start"@) && params.contains_key("end"@)
}

/// The window that the parameters ask for, when both are present and are
/// decimal `usize` texts.
pub open spec fn requested_window(params: Map<Seq<char>, Seq<char>>) -> Option<(nat, nat)> {
    if has_window_params(params) && parses_as_usize(params["start"@]) && parses_as_usize(
        params["end"@],
    ) {
        Some((usize_value(params["start"@]), usize_value(params["end"@])))
    } else {
        None
    }
}

/// Whether `e` is the error that reading the window from `params` ends with.
pub open spec fn extract_error(params: Map<Seq<char>, Seq<char>>, e: CustomError) -> bool {
    if has_window_params(params) {
        e is ParseError
    } else {
        e is MissingParameters
    }
}

/// Reads the window from the `start` and `end` parameters.
pub fn extract_pagination(params: QueryParams) -> (r: Result<Pagination, CustomError>)
    ensures
        match r {
            Ok(p) => requested_window(params@) == Some((p.start as nat, p.end as nat)),
            Err(e) => requested_window(params@) is None && extract_error(params@, e),
        },
{
    match (params.get("start"), params.get("end")) {
        (Some(start), Some(end)) => {
            let start = match parse_usize(start.as_str()) {
                Ok(n) => n,
                Err(e) => return Err(CustomError::ParseError(e)),
            };
            let end = match parse_usize(end.as_str()) {
                Ok(n) => n,
                Err(e) => return Err(CustomError::ParseError(e)),
            };
            Ok(Pagination { start, end })
        },
        _ => Err(CustomError::MissingParameters),
    }
}

/// The part `start..end` of `s`, when `start <= end <= s.len()`.
pub open spec fn window<T>(s: Seq<T>, start: int, end: int) -> Option<Seq<T>> {
    if 0 <= start <= end <= s.len() {
        Some(s.subrange(start, end))
    } else {
        None
    }
}

/// The part of `listing` that `pagination` selects; fails when the window
/// is reversed or reaches past the end.
pub fn paginate<T>(listing: Vec<T>, pagination: &Pagination) -> (r: Result<
    Vec<T>,
    InvalidPagination,
>)
    ensures
        match r {
            Ok(v) => window(listing@, pagination.start as int, pagination.end as int) == Some(v@),
            Err(_) => window(listing@, pagination.start as int, pagination.end as int) is None,
        },
{
    if pagination.start > pagination.end || pagination.end > listing.len() {
        return Err(InvalidPagination);
    }
    let mut v = listing;
    v.truncate(pagination.end);
    let page = v.split_off(pagination.start);
    Ok(page)
}

} // verus!
