use vstd::prelude::*;
use crate::request::{PitchLakeJobRequest, PitchLakeJobRequestParams};

verus! {

/// The name of one of the three ranges of a request.
#[derive(Clone, Copy, Debug, PartialEq, Eq, Structural)]
pub enum RangeName {
    Twap,
    Volatility,
    ReservePrice,
}

/// Why a request was refused.
#[derive(Clone, Copy, Debug, PartialEq, Eq, Structural)]
pub enum ValidationError {
    EmptyIdentifiers,
    InvalidRange(RangeName),
}

/// A range is well formed when its lower bound lies strictly below its upper bound.
pub open spec fn range_ok(r: (i64, i64)) -> bool {
    r.0 < r.1
}

/// The outcome of checking the ranges in the order twap, volatility, reserve price.
pub open spec fn ranges_result(p: PitchLakeJobRequestParams) -> Result<(), ValidationError> {
    if !range_ok(p.twap) {
        Err(ValidationError::InvalidRange(RangeName::Twap))
    } else if !range_ok(p.volatility) {
        Err(ValidationError::InvalidRange(RangeName::Volatility))
    } else if !range_ok(p.reserve_price) {
        Err(ValidationError::InvalidRange(RangeName::ReservePrice))
    } else {
        Ok(())
    }
}

/// The outcome of validating a request: the identifiers are checked before the ranges.
pub open spec fn request_result(
    ids: Seq<Seq<char>>,
    p: PitchLakeJobRequestParams,
) -> Result<(), ValidationError> {
    if ids.len() == 0 {
        Err(ValidationError::EmptyIdentifiers)
    } else {
        ranges_result(p)
    }
}

pub open spec fn range_label(n: RangeName) -> Seq<char> {
    match n {
        RangeName::Twap => "TWAP"@,
        RangeName::Volatility => "Volatility"@,
        RangeName::ReservePrice => "Reserve Price"@,
    }
}

/// The text that a response carries for a validation error.
pub open spec fn error_text(e: ValidationError) -> Seq<char> {
    match e {
        ValidationError::EmptyIdentifiers => "Identifiers cannot be empty."@,
        ValidationError::InvalidRange(n) => "Invalid time range for "@ + range_label(n)
            + " calculation."@,
    }
}

impl RangeName {
    /// The label of the range as it appears in messages.
    pub fn label(&self) -> (r: &'static str)
        ensures
            r@ == range_label(*self),
    {
        match self {
            RangeName::Twap => "TWAP",
            RangeName::Volatility => "Volatility",
            RangeName::ReservePrice => "Reserve Price",
        }
    }
}

impl ValidationError {
    /// The human-readable message of the error.
    pub fn message(&self) -> (r: String)
        ensures
            r@ == error_text(*self),
    {
        match self {
            ValidationError::EmptyIdentifiers => String::from_str("Identifiers cannot be empty."),
            ValidationError::InvalidRange(n) => {
                let s = String::from_str("Invalid time range for ");
                let s = s.concat(n.label());
                s.concat(" calculation.")
            },
        }
    }
}

/// Checks the three ranges in a fixed order and reports the first one whose
/// lower bound is not below its upper bound.
pub fn validate_time_ranges(params: &PitchLakeJobRequestParams) -> (r: Result<(), ValidationError>)
    ensures
        r == ranges_result(*params),
{
    let checks: [(RangeName, (i64, i64)); 3] = [
        (RangeName::Twap, params.twap),
        (RangeName::Volatility, params.volatility),
        (RangeName::ReservePrice, params.reserve_price),
    ];
    let mut i: usize = 0;
    while i < 3
        invariant
            0 <= i <= 3,
            checks@ == seq![
                (RangeName::Twap, params.twap),
                (RangeName::Volatility, params.volatility),
                (RangeName::ReservePrice, params.reserve_price),
            ],
            forall|k: int| 0 <= k < i ==> range_ok(#[trigger] checks@[k].1),
        decreases 3 - i,
    {
        let (name, (start, end)) = checks[i];
        if start >= end {
            proof {
                if i >= 1 {
                    assert(range_ok(checks@[0].1));
                }
                if i >= 2 {
                    assert(range_ok(checks@[1].1));
                }
            }
            return Err(ValidationError::InvalidRange(name));
        }
        i = i + 1;
    }
    assert(range_ok(checks@[0].1) && range_ok(checks@[1].1) && range_ok(checks@[2].1));
    Ok(())
}

/// Validates a request: the identifiers must not be empty, then each range
/// must be well formed.
pub fn validate_request(payload: &PitchLakeJobRequest) -> (r: Result<(), ValidationError>)
    ensures
        r == request_result(payload.identifiers_spec(), payload.params),
{
    if payload.identifiers.len() == 0 {
        return Err(ValidationError::EmptyIdentifiers);
    }
    validate_time_ranges(&payload.params)
}

/// Identifiers are checked first: a request without identifiers is refused
/// for that reason whatever its ranges hold.
pub proof fn lemma_identifiers_checked_first(ids: Seq<Seq<char>>, p: PitchLakeJobRequestParams)
    requires
        ids.len() == 0,
    ensures
        request_result(ids, p) == Err::<(), ValidationError>(ValidationError::EmptyIdentifiers),
{
}

/// Each range is judged on its own bounds: equal bounds are refused and a
/// lower bound below the upper one is accepted, for each of the three ranges.
pub proof fn lemma_range_boundary(p: PitchLakeJobRequestParams)
    ensures
        p.twap.0 == p.twap.1 ==> ranges_result(p) == Err::<(), ValidationError>(
            ValidationError::InvalidRange(RangeName::Twap),
        ),
        range_ok(p.twap) && p.volatility.0 == p.volatility.1 ==> ranges_result(p) == Err::<
            (),
            ValidationError,
        >(ValidationError::InvalidRange(RangeName::Volatility)),
        range_ok(p.twap) && range_ok(p.volatility) && p.reserve_price.0 == p.reserve_price.1
            ==> ranges_result(p) == Err::<(), ValidationError>(
            ValidationError::InvalidRange(RangeName::ReservePrice),
        ),
        p.twap.0 < p.twap.1 && p.volatility.0 < p.volatility.1 && p.reserve_price.0
            < p.reserve_price.1 <==> ranges_result(p) == Ok::<(), ValidationError>(()),
{
}

} // verus!
