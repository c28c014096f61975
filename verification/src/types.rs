//! Value types of the metrics pipeline: groupable dimensions, time ranges,
//! bucket granularities with range-clamping, error classification, and the
//! raw-row / bucket-identifier shapes exchanged with a backend.

use vstd::prelude::*;
use vstd::arithmetic::div_mod::lemma_mod_bound;

verus! {

/// Currency of a payment, one of the supported set.
#[derive(Clone, Copy, Debug, PartialEq, Eq, Structural)]
pub enum Currency {
    Usd,
    Eur,
    Gbp,
    Inr,
}

/// Lifecycle status of a payment.
#[derive(Clone, Copy, Debug, PartialEq, Eq, Structural)]
pub enum PaymentStatus {
    Succeeded,
    Failed,
    Pending,
    Cancelled,
}

/// How the payment was authenticated.
#[derive(Clone, Copy, Debug, PartialEq, Eq, Structural)]
pub enum AuthenticationType {
    ThreeDs,
    NoThreeDs,
}

/// Categorical attributes an aggregated result can be grouped by.
#[derive(Clone, Copy, Debug, PartialEq, Eq, Structural)]
pub enum PaymentDimensions {
    Currency,
    PaymentStatus,
    Connector,
    AuthType,
    PaymentMethod,
}

/// The time window a query covers, in whole seconds.
///
/// `end_time` is exclusive when present; a range without an end is
/// unbounded above.
#[derive(Clone, Copy, Debug, PartialEq, Eq)]
pub struct TimeRange {
    pub start_time: u64,
    pub end_time: Option<u64>,
}

impl TimeRange {
    /// A range is well formed when its start does not lie past its end.
    pub open spec fn well_formed(self) -> bool {
        match self.end_time {
            Some(e) => self.start_time <= e,
            None => true,
        }
    }

    /// Whether `t` lies inside the window (inclusive of both edges).
    pub open spec fn spec_covers(self, t: u64) -> bool {
        &&& self.start_time <= t
        &&& match self.end_time {
            Some(e) => t <= e,
            None => true,
        }
    }

    pub fn covers(&self, t: u64) -> (r: bool)
        ensures
            r == self.spec_covers(t),
    {
        self.start_time <= t && match self.end_time {
            Some(e) => t <= e,
            None => true,
        }
    }
}

/// A failure while mapping raw backend rows to bucketed results.
#[derive(Clone, Copy, Debug, PartialEq, Eq, Structural)]
pub enum PostProcessingError {
    /// A raw bucket boundary lies outside the queried time range, so the
    /// row cannot be deterministically mapped to a bucket of that range.
    BucketOutsideRange,
    /// A bucket's upper boundary cannot be represented.
    BoundaryOverflow,
}

/// The width of a time bucket laid over the dimension grouping.
#[derive(Clone, Copy, Debug, PartialEq, Eq, Structural)]
pub enum Granularity {
    Hour,
    Day,
    Week,
}

impl Granularity {
    /// Bucket width in seconds.
    pub open spec fn spec_width(self) -> u64 {
        match self {
            Granularity::Hour => 3600,
            Granularity::Day => 86400,
            Granularity::Week => 604800,
        }
    }

    pub fn width(self) -> (w: u64)
        ensures
            w == self.spec_width(),
            w > 0,
    {
        match self {
            Granularity::Hour => 3600,
            Granularity::Day => 86400,
            Granularity::Week => 604800,
        }
    }

    /// The lower boundary of the bucket that `t` falls into.
    pub open spec fn bucket_floor(self, t: u64) -> int {
        t - (t as int % self.spec_width() as int)
    }

    /// What `clip_to_start` returns: the bucket's lower boundary, clamped
    /// so that it never precedes the range's start; a timestamp outside the
    /// range cannot be clipped.
    pub open spec fn clip_start_spec(self, t: u64, range: TimeRange) -> Result<u64, PostProcessingError> {
        if !range.spec_covers(t) {
            Err(PostProcessingError::BucketOutsideRange)
        } else if self.bucket_floor(t) < range.start_time {
            Ok(range.start_time)
        } else {
            Ok(self.bucket_floor(t) as u64)
        }
    }

    /// What `clip_to_end` returns: the bucket's upper boundary, clamped so
    /// that it never exceeds the range's end when the range has one.
    pub open spec fn clip_end_spec(self, t: u64, range: TimeRange) -> Result<u64, PostProcessingError> {
        if !range.spec_covers(t) {
            Err(PostProcessingError::BucketOutsideRange)
        } else {
            let ceil = self.bucket_floor(t) + self.spec_width();
            match range.end_time {
                Some(e) => if ceil < e {
                    Ok(ceil as u64)
                } else {
                    Ok(e)
                },
                None => if ceil <= u64::MAX {
                    Ok(ceil as u64)
                } else {
                    Err(PostProcessingError::BoundaryOverflow)
                },
            }
        }
    }

    /// Round `t` down to its bucket's lower boundary, never leaving `range`.
    pub fn clip_to_start(self, t: u64, range: &TimeRange) -> (r: Result<u64, PostProcessingError>)
        ensures
            r == self.clip_start_spec(t, *range),
    {
        if !range.covers(t) {
            return Err(PostProcessingError::BucketOutsideRange);
        }
        let w = self.width();
        let rem = t % w;
        proof {
            lemma_bucket_floor_bounds(self, t);
        }
        let floor_val = t - rem;
        if floor_val < range.start_time {
            Ok(range.start_time)
        } else {
            Ok(floor_val)
        }
    }

    /// Round `t` up to its bucket's upper boundary, never leaving `range`.
    pub fn clip_to_end(self, t: u64, range: &TimeRange) -> (r: Result<u64, PostProcessingError>)
        ensures
            r == self.clip_end_spec(t, *range),
    {
        if !range.covers(t) {
            return Err(PostProcessingError::BucketOutsideRange);
        }
        let w = self.width();
        let rem = t % w;
        proof {
            lemma_bucket_floor_bounds(self, t);
        }
        let floor_val = t - rem;
        match range.end_time {
            Some(e) => match floor_val.checked_add(w) {
                Some(ceil) => if ceil < e {
                    Ok(ceil)
                } else {
                    Ok(e)
                },
                None => Ok(e),
            },
            None => match floor_val.checked_add(w) {
                Some(ceil) => Ok(ceil),
                None => Err(PostProcessingError::BoundaryOverflow),
            },
        }
    }
}

/// The bucket floor lies between zero and `t`, and `t` lies strictly below
/// the next bucket boundary.
pub proof fn lemma_bucket_floor_bounds(g: Granularity, t: u64)
    ensures
        0 <= g.bucket_floor(t) <= t,
        t < g.bucket_floor(t) + g.spec_width(),
{
    let w = g.spec_width() as int;
    lemma_mod_bound(t as int, w);
}

/// Clamping a timestamp that lies inside a bounded query range succeeds and
/// never produces a boundary outside that range: the clipped start lies in
/// `[start_time, t]` and the clipped end lies in `[t, end_time]`.
pub proof fn lemma_clip_within_range(g: Granularity, t: u64, range: TimeRange)
    requires
        range.spec_covers(t),
        range.end_time is Some,
    ensures
        g.clip_start_spec(t, range) matches Ok(s) && range.start_time <= s <= t,
        g.clip_end_spec(t, range) matches Ok(e) && t <= e <= range.end_time->0,
{
    lemma_bucket_floor_bounds(g, t);
}

/// The three disjoint stages at which a metrics computation can fail.
#[derive(Clone, Copy, Debug, PartialEq, Eq, Structural)]
pub enum MetricsError {
    /// A column, filter or group-by clause could not be built for the
    /// target backend, or a selected dimension was left ungrouped.
    QueryBuildingError,
    /// The backend failed to execute the query (I/O, timeout, native error).
    QueryExecutionFailure,
    /// Raw rows could not be safely mapped onto bucketed results.
    PostProcessingFailure,
}

/// Why a backend could not execute an otherwise well-built query.
#[derive(Clone, Copy, Debug, PartialEq, Eq, Structural)]
pub enum QueryExecutionError {
    StoreUnreachable,
    Timeout,
    NativeQueryFailure,
}

/// Caller-supplied predicates, one inclusion list per dimension; an empty
/// list places no constraint on that dimension.
#[derive(Clone, Debug, PartialEq, Eq)]
pub struct PaymentFilters {
    pub currency: Vec<Currency>,
    pub status: Vec<PaymentStatus>,
    pub connector: Vec<String>,
    pub authentication_type: Vec<AuthenticationType>,
    pub payment_method: Vec<String>,
}

impl PaymentFilters {
    /// A filter set that constrains nothing.
    pub fn new() -> (r: Self)
        ensures
            r.currency@ == Seq::<Currency>::empty(),
            r.status@ == Seq::<PaymentStatus>::empty(),
            r.connector@ == Seq::<String>::empty(),
            r.authentication_type@ == Seq::<AuthenticationType>::empty(),
            r.payment_method@ == Seq::<String>::empty(),
    {
        PaymentFilters {
            currency: Vec::new(),
            status: Vec::new(),
            connector: Vec::new(),
            authentication_type: Vec::new(),
            payment_method: Vec::new(),
        }
    }
}

/// One raw aggregate row as a backend hands it back: the aggregate values
/// plus the echoed dimension values of the group the row stands for.
#[derive(Clone, Debug, PartialEq, Eq)]
pub struct PaymentMetricRow {
    pub currency: Option<Currency>,
    pub status: Option<PaymentStatus>,
    pub connector: Option<String>,
    pub authentication_type: Option<AuthenticationType>,
    pub payment_method: Option<String>,
    /// Sum of the aggregated amount field.
    pub total: Option<u64>,
    /// Number of records in the group.
    pub count: Option<u64>,
    /// Earliest record timestamp observed in the group.
    pub start_bucket: Option<u64>,
    /// Latest record timestamp observed in the group.
    pub end_bucket: Option<u64>,
}

/// The externally visible grouping key of one result bucket: the ordered
/// tuple of optional dimension values plus the bucket's clamped time span.
#[derive(Clone, Debug, PartialEq, Eq)]
pub struct PaymentMetricsBucketIdentifier {
    pub currency: Option<Currency>,
    pub status: Option<PaymentStatus>,
    pub connector: Option<String>,
    pub authentication_type: Option<AuthenticationType>,
    pub payment_method: Option<String>,
    pub time_range: TimeRange,
}

impl PaymentMetricsBucketIdentifier {
    pub fn new(
        currency: Option<Currency>,
        status: Option<PaymentStatus>,
        connector: Option<String>,
        authentication_type: Option<AuthenticationType>,
        payment_method: Option<String>,
        time_range: TimeRange,
    ) -> (r: Self)
        ensures
            r == (PaymentMetricsBucketIdentifier {
                currency,
                status,
                connector,
                authentication_type,
                payment_method,
                time_range,
            }),
    {
        PaymentMetricsBucketIdentifier {
            currency,
            status,
            connector,
            authentication_type,
            payment_method,
            time_range,
        }
    }
}

/// Clone an optional string; the clone equals the original.
pub fn clone_opt_string(o: &Option<String>) -> (r: Option<String>)
    ensures
        r == *o,
{
    match o {
        Some(s) => Some(s.clone()),
        None => None,
    }
}

} // verus!
