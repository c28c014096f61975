//! An in-memory reference backend: holds payment records in a vector and
//! executes built queries by filtering, grouping and aggregating them. It
//! exercises the backend-adapter contract end to end without any external
//! store.

use vstd::prelude::*;
use crate::query::AnalyticsDataSource;
use crate::query::FilterClause;
use crate::query::GroupByClause;
use crate::query::Query;
use crate::query::QueryCapabilities;
use crate::query::SelectColumn;
use crate::query::Aggregate;
use crate::types::AuthenticationType;
use crate::types::Currency;
use crate::types::PaymentDimensions;
use crate::types::PaymentMetricRow;
use crate::types::PaymentStatus;
use crate::types::QueryExecutionError;
use crate::types::clone_opt_string;

verus! {

/// One payment event record of the in-memory store.
#[derive(Clone, Debug, PartialEq, Eq)]
pub struct PaymentRecord {
    pub merchant_id: String,
    pub currency: Currency,
    pub status: PaymentStatus,
    pub connector: String,
    pub authentication_type: AuthenticationType,
    pub payment_method: String,
    pub amount: u64,
    pub created_at: u64,
}

/// Whether one record satisfies one filter clause.
pub open spec fn record_matches_clause_spec(rec: PaymentRecord, c: FilterClause) -> bool {
    match c {
        FilterClause::MerchantIdEq { merchant_id } => rec.merchant_id@ == merchant_id@,
        FilterClause::InCurrency { values } => values@.contains(rec.currency),
        FilterClause::InStatus { values } => values@.contains(rec.status),
        FilterClause::InConnector { values } => (exists|i: int|
            0 <= i < values@.len() && values@[i]@ == rec.connector@),
        FilterClause::InAuthType { values } => values@.contains(rec.authentication_type),
        FilterClause::InPaymentMethod { values } => (exists|i: int|
            0 <= i < values@.len() && values@[i]@ == rec.payment_method@),
        FilterClause::TimeGe { value } => rec.created_at >= value,
        FilterClause::TimeLt { value } => rec.created_at < value,
    }
}

/// Whether one record satisfies every clause of a conjunctive filter list.
pub open spec fn record_matches_filters_spec(rec: PaymentRecord, filters: Seq<FilterClause>) -> bool {
    forall|i: int| 0 <= i < filters.len() ==> record_matches_clause_spec(rec, #[trigger] filters[i])
}

/// Whether `t` satisfies every time clause of a filter list; clauses on
/// other fields do not constrain it.
pub open spec fn satisfies_time_clauses(t: u64, filters: Seq<FilterClause>) -> bool {
    forall|i: int|
        0 <= i < filters.len() ==> match #[trigger] filters[i] {
            FilterClause::TimeGe { value } => t >= value,
            FilterClause::TimeLt { value } => t < value,
            _ => true,
        }
}

/// A record that passes a filter list has a timestamp satisfying its
/// time clauses.
proof fn lemma_matching_record_in_time(rec: PaymentRecord, filters: Seq<FilterClause>)
    requires
        record_matches_filters_spec(rec, filters),
    ensures
        satisfies_time_clauses(rec.created_at, filters),
{
    assert forall|i: int|
        0 <= i < filters.len() implies match #[trigger] filters[i] {
        FilterClause::TimeGe { value } => rec.created_at >= value,
        FilterClause::TimeLt { value } => rec.created_at < value,
        _ => true,
    } by {
        assert(record_matches_clause_spec(rec, filters[i]));
    }
}

/// Whether `x` occurs in `values`, compared by contents.
fn string_in(values: &Vec<String>, x: &String) -> (r: bool)
    ensures
        r == (exists|i: int| 0 <= i < values@.len() && values@[i]@ == x@),
{
    let mut i: usize = 0;
    while i < values.len()
        invariant
            i <= values@.len(),
            forall|k: int| 0 <= k < i ==> values@[k]@ != x@,
        decreases values@.len() - i,
    {
        if values[i] == *x {
            return true;
        }
        i += 1;
    }
    false
}

/// Whether `x` occurs in `values`.
fn currency_in(values: &Vec<Currency>, x: Currency) -> (r: bool)
    ensures
        r == values@.contains(x),
{
    let mut i: usize = 0;
    while i < values.len()
        invariant
            i <= values@.len(),
            forall|k: int| 0 <= k < i ==> values@[k] != x,
        decreases values@.len() - i,
    {
        if values[i] == x {
            return true;
        }
        i += 1;
    }
    false
}

/// Whether `x` occurs in `values`.
fn status_in(values: &Vec<PaymentStatus>, x: PaymentStatus) -> (r: bool)
    ensures
        r == values@.contains(x),
{
    let mut i: usize = 0;
    while i < values.len()
        invariant
            i <= values@.len(),
            forall|k: int| 0 <= k < i ==> values@[k] != x,
        decreases values@.len() - i,
    {
        if values[i] == x {
            return true;
        }
        i += 1;
    }
    false
}

/// Whether `x` occurs in `values`.
fn auth_type_in(values: &Vec<AuthenticationType>, x: AuthenticationType) -> (r: bool)
    ensures
        r == values@.contains(x),
{
    let mut i: usize = 0;
    while i < values.len()
        invariant
            i <= values@.len(),
            forall|k: int| 0 <= k < i ==> values@[k] != x,
        decreases values@.len() - i,
    {
        if values[i] == x {
            return true;
        }
        i += 1;
    }
    false
}

/// Evaluate one filter clause against one record.
fn record_matches_clause(rec: &PaymentRecord, c: &FilterClause) -> (r: bool)
    ensures
        r == record_matches_clause_spec(*rec, *c),
{
    match c {
        FilterClause::MerchantIdEq { merchant_id } => rec.merchant_id == *merchant_id,
        FilterClause::InCurrency { values } => currency_in(values, rec.currency),
        FilterClause::InStatus { values } => status_in(values, rec.status),
        FilterClause::InConnector { values } => string_in(values, &rec.connector),
        FilterClause::InAuthType { values } => auth_type_in(values, rec.authentication_type),
        FilterClause::InPaymentMethod { values } => string_in(values, &rec.payment_method),
        FilterClause::TimeGe { value } => rec.created_at >= *value,
        FilterClause::TimeLt { value } => rec.created_at < *value,
    }
}

/// Evaluate a conjunctive filter list against one record.
fn record_matches_filters(rec: &PaymentRecord, filters: &Vec<FilterClause>) -> (r: bool)
    ensures
        r == record_matches_filters_spec(*rec, filters@),
{
    let mut i: usize = 0;
    while i < filters.len()
        invariant
            i <= filters@.len(),
            forall|k: int| 0 <= k < i ==> record_matches_clause_spec(*rec, #[trigger] filters@[k]),
        decreases filters@.len() - i,
    {
        if !record_matches_clause(rec, &filters[i]) {
            return false;
        }
        i += 1;
    }
    true
}

/// The grouping key of one record under a list of group-by clauses: one
/// slot per groupable dimension, plus the record's time-bucket floor when
/// bucketing is requested. Ungrouped slots stay empty.
pub(crate) struct GroupKey {
    pub currency: Option<Currency>,
    pub status: Option<PaymentStatus>,
    pub connector: Option<String>,
    pub authentication_type: Option<AuthenticationType>,
    pub payment_method: Option<String>,
    pub time_bucket: Option<u64>,
}

/// Running aggregates of one group.
#[derive(Clone, Copy)]
pub(crate) struct GroupAccum {
    pub total: u64,
    pub count: u64,
    pub min_created: u64,
    pub max_created: u64,
}

/// Fill a record's grouping key from the group-by clauses.
fn group_key_of(rec: &PaymentRecord, group_by: &Vec<GroupByClause>) -> GroupKey {
    let mut key = GroupKey {
        currency: None,
        status: None,
        connector: None,
        authentication_type: None,
        payment_method: None,
        time_bucket: None,
    };
    let mut i: usize = 0;
    while i < group_by.len()
        decreases group_by@.len() - i,
    {
        match group_by[i] {
            GroupByClause::Dimension(PaymentDimensions::Currency) => {
                key.currency = Some(rec.currency);
            },
            GroupByClause::Dimension(PaymentDimensions::PaymentStatus) => {
                key.status = Some(rec.status);
            },
            GroupByClause::Dimension(PaymentDimensions::Connector) => {
                key.connector = Some(rec.connector.clone());
            },
            GroupByClause::Dimension(PaymentDimensions::AuthType) => {
                key.authentication_type = Some(rec.authentication_type);
            },
            GroupByClause::Dimension(PaymentDimensions::PaymentMethod) => {
                key.payment_method = Some(rec.payment_method.clone());
            },
            GroupByClause::TimeBucket(g) => {
                let w = g.width();
                let rem = rec.created_at % w;
                key.time_bucket = Some(rec.created_at - rem);
            },
        }
        i += 1;
    }
    key
}

/// Whether two optional strings hold the same contents.
fn opt_string_eq(a: &Option<String>, b: &Option<String>) -> bool {
    match (a, b) {
        (None, None) => true,
        (Some(x), Some(y)) => *x == *y,
        _ => false,
    }
}

/// Whether two grouping keys are equal, component by component.
fn key_eq(a: &GroupKey, b: &GroupKey) -> bool {
    let currency_eq = match (a.currency, b.currency) {
        (None, None) => true,
        (Some(x), Some(y)) => x == y,
        _ => false,
    };
    let status_eq = match (a.status, b.status) {
        (None, None) => true,
        (Some(x), Some(y)) => x == y,
        _ => false,
    };
    let auth_eq = match (a.authentication_type, b.authentication_type) {
        (None, None) => true,
        (Some(x), Some(y)) => x == y,
        _ => false,
    };
    let bucket_eq = match (a.time_bucket, b.time_bucket) {
        (None, None) => true,
        (Some(x), Some(y)) => x == y,
        _ => false,
    };
    currency_eq && status_eq && auth_eq && bucket_eq && opt_string_eq(&a.connector, &b.connector)
        && opt_string_eq(&a.payment_method, &b.payment_method)
}

/// The index of `key` among `keys`, if present.
fn find_group(keys: &Vec<GroupKey>, key: &GroupKey) -> (r: Option<usize>)
    ensures
        r matches Some(j) ==> j < keys@.len(),
{
    let mut i: usize = 0;
    while i < keys.len()
        invariant
            i <= keys@.len(),
        decreases keys@.len() - i,
    {
        if key_eq(&keys[i], key) {
            return Some(i);
        }
        i += 1;
    }
    None
}

/// Which of the four aggregate kinds the select list asks for:
/// (sum, count, min, max).
fn selected_aggregates(select: &Vec<SelectColumn>) -> (bool, bool, bool, bool) {
    let mut has_sum = false;
    let mut has_count = false;
    let mut has_min = false;
    let mut has_max = false;
    let mut i: usize = 0;
    while i < select.len()
        decreases select@.len() - i,
    {
        match select[i] {
            SelectColumn::Aggregation(Aggregate::Sum { .. }) => {
                has_sum = true;
            },
            SelectColumn::Aggregation(Aggregate::Count { .. }) => {
                has_count = true;
            },
            SelectColumn::Aggregation(Aggregate::Min { .. }) => {
                has_min = true;
            },
            SelectColumn::Aggregation(Aggregate::Max { .. }) => {
                has_max = true;
            },
            SelectColumn::Dimension(_) => {},
        }
        i += 1;
    }
    (has_sum, has_count, has_min, has_max)
}

/// A backend that aggregates an in-memory record vector. Read-only once
/// built; every query walks the same records.
pub struct MemoryBackend {
    pub records: Vec<PaymentRecord>,
    pub capability_set: QueryCapabilities,
}

impl MemoryBackend {
    /// A store over `records` that can translate every clause.
    pub fn new(records: Vec<PaymentRecord>) -> (r: Self)
        ensures
            r.records@ == records@,
            r.capability_set == QueryCapabilities::spec_full(),
    {
        MemoryBackend { records, capability_set: QueryCapabilities::full() }
    }

    /// A store over `records` with a restricted clause vocabulary.
    pub fn with_capabilities(records: Vec<PaymentRecord>, capability_set: QueryCapabilities) -> (r:
        Self)
        ensures
            r.records@ == records@,
            r.capability_set == capability_set,
    {
        MemoryBackend { records, capability_set }
    }
}

impl AnalyticsDataSource for MemoryBackend {
    fn capabilities(&self) -> QueryCapabilities {
        self.capability_set
    }

    /// Filter the records by the query's conjunctive clauses, group the
    /// survivors by the query's group-by clauses, and emit one row per
    /// group carrying the selected aggregates and the group's dimension
    /// values. An aggregate that would overflow is a native failure.
    /// Every reported raw bucket boundary is the timestamp of some record
    /// that passed the filters, so it satisfies the query's time clauses.
    fn execute(&self, query: &Query) -> (r: Result<Vec<PaymentMetricRow>, QueryExecutionError>)
        ensures
            r matches Ok(rows) ==> (forall|j: int|
                0 <= j < rows@.len() ==> (((#[trigger] rows@[j]).start_bucket matches Some(t)
                    ==> satisfies_time_clauses(t, query.filters@)) && (rows@[j].end_bucket
                    matches Some(t) ==> satisfies_time_clauses(t, query.filters@)))),
    {
        let mut keys: Vec<GroupKey> = Vec::new();
        let mut accs: Vec<GroupAccum> = Vec::new();
        let mut i: usize = 0;
        while i < self.records.len()
            invariant
                keys@.len() == accs@.len(),
                forall|k: int|
                    0 <= k < accs@.len() ==> (satisfies_time_clauses(
                        (#[trigger] accs@[k]).min_created,
                        query.filters@,
                    ) && satisfies_time_clauses(accs@[k].max_created, query.filters@)),
            decreases self.records@.len() - i,
        {
            let rec = &self.records[i];
            if record_matches_filters(rec, &query.filters) {
                proof {
                    lemma_matching_record_in_time(*rec, query.filters@);
                }
                let key = group_key_of(rec, &query.group_by);
                match find_group(&keys, &key) {
                    Some(j) => {
                        let total = match accs[j].total.checked_add(rec.amount) {
                            Some(v) => v,
                            None => {
                                return Err(QueryExecutionError::NativeQueryFailure);
                            },
                        };
                        let count = match accs[j].count.checked_add(1) {
                            Some(v) => v,
                            None => {
                                return Err(QueryExecutionError::NativeQueryFailure);
                            },
                        };
                        let min_created = if rec.created_at < accs[j].min_created {
                            rec.created_at
                        } else {
                            accs[j].min_created
                        };
                        let max_created = if rec.created_at > accs[j].max_created {
                            rec.created_at
                        } else {
                            accs[j].max_created
                        };
                        accs[j] = GroupAccum { total, count, min_created, max_created };
                    },
                    None => {
                        keys.push(key);
                        accs.push(
                            GroupAccum {
                                total: rec.amount,
                                count: 1,
                                min_created: rec.created_at,
                                max_created: rec.created_at,
                            },
                        );
                    },
                }
            }
            i += 1;
        }
        let (has_sum, has_count, has_min, has_max) = selected_aggregates(&query.select);
        let mut rows: Vec<PaymentMetricRow> = Vec::new();
        let mut k: usize = 0;
        while k < keys.len()
            invariant
                keys@.len() == accs@.len(),
                forall|m: int|
                    0 <= m < accs@.len() ==> (satisfies_time_clauses(
                        (#[trigger] accs@[m]).min_created,
                        query.filters@,
                    ) && satisfies_time_clauses(accs@[m].max_created, query.filters@)),
                forall|j: int|
                    0 <= j < rows@.len() ==> (((#[trigger] rows@[j]).start_bucket matches Some(t)
                        ==> satisfies_time_clauses(t, query.filters@)) && (rows@[j].end_bucket
                        matches Some(t) ==> satisfies_time_clauses(t, query.filters@))),
            decreases keys@.len() - k,
        {
            rows.push(
                PaymentMetricRow {
                    currency: keys[k].currency,
                    status: keys[k].status,
                    connector: clone_opt_string(&keys[k].connector),
                    authentication_type: keys[k].authentication_type,
                    payment_method: clone_opt_string(&keys[k].payment_method),
                    total: if has_sum {
                        Some(accs[k].total)
                    } else {
                        None
                    },
                    count: if has_count {
                        Some(accs[k].count)
                    } else {
                        None
                    },
                    start_bucket: if has_min {
                        Some(accs[k].min_created)
                    } else {
                        None
                    },
                    end_bucket: if has_max {
                        Some(accs[k].max_created)
                    } else {
                        None
                    },
                },
            );
            k += 1;
        }
        Ok(rows)
    }
}

} // verus!
