//! Input validation for contract entry points: a builder that applies each
//! rule in turn, collects every failure without stopping, and reports the
//! first one or all of them.
use vstd::prelude::*;

verus! {

/// One failed validation rule.
#[derive(Debug)]
pub struct ValidationError {
    /// The name of the field that failed validation.
    pub field: String,
    /// The constraint that was violated ("positive", "non_negative",
    /// "future", "range" or "nonzero").
    pub constraint: String,
    /// The value provided (0 for a failed non-zero check).
    pub value_provided: i128,
}

/// Collects the failures of the rules applied to it.  Validation is
/// relative to the ledger time `now` it was created with.
pub struct Validator {
    now: u64,
    errors: Vec<ValidationError>,
}

/// Whether `e` reports `field` failing `constraint` with `value`.
pub open spec fn is_error(e: ValidationError, field: Seq<char>, constraint: Seq<char>, value: i128) -> bool {
    &&& e.field@ == field
    &&& e.constraint@ == constraint
    &&& e.value_provided == value
}

/// `after` is `before` plus one error for a failed rule, or `before`
/// unchanged when the rule held.
pub open spec fn recorded(
    before: Seq<ValidationError>,
    after: Seq<ValidationError>,
    failed: bool,
    field: Seq<char>,
    constraint: Seq<char>,
    value: i128,
) -> bool {
    if failed {
        &&& after.len() == before.len() + 1
        &&& after.take(before.len() as int) == before
        &&& is_error(after.last(), field, constraint, value)
    } else {
        after == before
    }
}

impl Validator {
    /// The failures collected so far, in the order the rules were applied.
    pub closed spec fn errors(&self) -> Seq<ValidationError> {
        self.errors@
    }

    /// The ledger time the validator judges timestamps against.
    pub closed spec fn now(&self) -> u64 {
        self.now
    }

    fn record(self, failed: bool, field: &str, constraint: &str, value: i128) -> (r: Self)
        ensures
            recorded(self.errors(), r.errors(), failed, field@, constraint@, value),
            r.now() == self.now(),
    {
        let mut v = self;
        if failed {
            let e = ValidationError { field: field.to_string(), constraint: constraint.to_string(), value_provided: value };
            v.errors.push(e);
            assert(v.errors@.take(self.errors@.len() as int) =~= self.errors@);
        }
        v
    }

    /// A validator with no failures, judging timestamps against `now`.
    pub fn new(now: u64) -> (v: Self)
        ensures
            v.errors() == Seq::<ValidationError>::empty(),
            v.now() == now,
    {
        Validator { now, errors: Vec::new() }
    }

    /// `value` must be strictly positive.
    pub fn require_positive(self, value: i128, field: &str) -> (r: Self)
        ensures
            recorded(self.errors(), r.errors(), value <= 0, field@, "positive"@, value),
            r.now() == self.now(),
    {
        self.record(value <= 0, field, "positive", value)
    }

    /// `value` must not be negative.
    pub fn require_non_negative(self, value: i128, field: &str) -> (r: Self)
        ensures
            recorded(self.errors(), r.errors(), value < 0, field@, "non_negative"@, value),
            r.now() == self.now(),
    {
        self.record(value < 0, field, "non_negative", value)
    }

    /// `timestamp` must lie after the validator's ledger time.
    pub fn require_future_timestamp(self, timestamp: u64, field: &str) -> (r: Self)
        ensures
            recorded(self.errors(), r.errors(), timestamp <= self.now(), field@, "future"@, timestamp as i128),
            r.now() == self.now(),
    {
        let failed = timestamp <= self.now;
        self.record(failed, field, "future", timestamp as i128)
    }

    /// `value` must lie within `[min, max]`.
    pub fn require_range(self, value: i128, min: i128, max: i128, field: &str) -> (r: Self)
        ensures
            recorded(self.errors(), r.errors(), value < min || value > max, field@, "range"@, value),
            r.now() == self.now(),
    {
        self.record(value < min || value > max, field, "range", value)
    }

    /// `value` must not be zero.
    pub fn require_nonzero(self, value: i128, field: &str) -> (r: Self)
        ensures
            recorded(self.errors(), r.errors(), value == 0, field@, "nonzero"@, 0),
            r.now() == self.now(),
    {
        self.record(value == 0, field, "nonzero", 0)
    }

    /// `Ok` when every rule held, else the first failure.
    pub fn validate(self) -> (r: Result<(), ValidationError>)
        ensures
            r is Ok <==> self.errors().len() == 0,
            r matches Err(e) ==> e == self.errors()[0],
    {
        let mut errors = self.errors;
        if errors.len() == 0 {
            Ok(())
        } else {
            Err(errors.remove(0))
        }
    }

    /// Every failure, in the order the rules were applied.
    pub fn validate_all(self) -> (errors: Vec<ValidationError>)
        ensures
            errors@ == self.errors(),
    {
        self.errors
    }
}

} // verus!
