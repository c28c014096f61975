//! The average-ticket-size metric: the uniform load operation every metric
//! follows. It accumulates the select, filter and group-by clauses for the
//! requested dimensions, executes against a backend adapter, and reassembles
//! the raw rows into results keyed by a dimension + time-bucket identifier.

use vstd::prelude::*;
use crate::query::Aggregate;
use crate::query::AnalyticsCollection;
use crate::query::AnalyticsDataSource;
use crate::query::FilterClause;
use crate::query::FilterClauseModel;
use crate::query::GroupByClause;
use crate::query::MeasureField;
use crate::query::MetricAlias;
use crate::query::QueryBuilder;
use crate::query::QueryCapabilities;
use crate::query::SelectColumn;
use crate::query::caller_filter_models;
use crate::query::clauses_model;
use crate::query::lemma_clauses_model_push;
use crate::query::time_filter_models;
use crate::query::well_grouped;
use crate::types::Granularity;
use crate::types::MetricsError;
use crate::types::PaymentDimensions;
use crate::types::PaymentFilters;
use crate::types::PaymentMetricRow;
use crate::types::PaymentMetricsBucketIdentifier;
use crate::types::PostProcessingError;
use crate::types::TimeRange;
use crate::types::clone_opt_string;

verus! {

/// The aggregate expressions this metric selects: the summed amount, the
/// record count, and the earliest and latest record timestamps. The two
/// timestamp aggregates exist to recover each bucket's true time span for
/// clamping.
pub open spec fn avg_ticket_size_aggregates() -> Seq<SelectColumn> {
    seq![
        SelectColumn::Aggregation(Aggregate::Sum {
            field: MeasureField::Amount,
            alias: Some(MetricAlias::Total),
        }),
        SelectColumn::Aggregation(Aggregate::Count {
            field: None,
            alias: Some(MetricAlias::Count),
        }),
        SelectColumn::Aggregation(Aggregate::Min {
            field: MeasureField::CreatedAt,
            alias: Some(MetricAlias::StartBucket),
        }),
        SelectColumn::Aggregation(Aggregate::Max {
            field: MeasureField::CreatedAt,
            alias: Some(MetricAlias::EndBucket),
        }),
    ]
}

/// One select column per requested dimension, in request order.
pub open spec fn dimension_selects(dims: Seq<PaymentDimensions>) -> Seq<SelectColumn> {
    Seq::new(dims.len(), |i: int| SelectColumn::Dimension(dims[i]))
}

/// One group-by clause per requested dimension, in request order.
pub open spec fn dimension_group_bys(dims: Seq<PaymentDimensions>) -> Seq<GroupByClause> {
    Seq::new(dims.len(), |i: int| GroupByClause::Dimension(dims[i]))
}

/// The time-bucket clause a granularity adds, when one is requested.
pub open spec fn granularity_group_bys(g: Option<Granularity>) -> Seq<GroupByClause> {
    match g {
        Some(gr) => seq![GroupByClause::TimeBucket(gr)],
        None => Seq::empty(),
    }
}

/// Whether a backend with these capabilities can translate every clause
/// this metric builds: all four aggregates, and time bucketing when a
/// granularity is requested.
pub open spec fn avg_ticket_size_supported(caps: QueryCapabilities, g: Option<Granularity>) -> bool {
    &&& caps.supports_sum
    &&& caps.supports_count
    &&& caps.supports_min
    &&& caps.supports_max
    &&& (g is Some ==> caps.supports_time_bucket)
}

/// The start of a row's bucket: the clamped raw boundary when both a
/// granularity and a raw value are present, the query's own start
/// otherwise.
pub open spec fn bucket_start_spec(row: PaymentMetricRow, g: Option<Granularity>, tr: TimeRange) -> Result<
    u64,
    PostProcessingError,
> {
    match (g, row.start_bucket) {
        (Some(gr), Some(st)) => gr.clip_start_spec(st, tr),
        _ => Ok(tr.start_time),
    }
}

/// The end of a row's bucket: the query's own end when no granularity was
/// requested; otherwise the clamped raw boundary, or no end at all when
/// the row carries none.
pub open spec fn bucket_end_spec(row: PaymentMetricRow, g: Option<Granularity>, tr: TimeRange) -> Result<
    Option<u64>,
    PostProcessingError,
> {
    match g {
        None => Ok(tr.end_time),
        Some(gr) => match row.end_bucket {
            None => Ok(None),
            Some(et) => match gr.clip_end_spec(et, tr) {
                Ok(v) => Ok(Some(v)),
                Err(e) => Err(e),
            },
        },
    }
}

/// The bucket identifier a raw row maps to: the row's dimension values
/// plus its clamped time span; fails when a raw boundary cannot be
/// deterministically mapped into the queried range.
pub open spec fn row_bucket_spec(row: PaymentMetricRow, g: Option<Granularity>, tr: TimeRange) -> Result<
    PaymentMetricsBucketIdentifier,
    PostProcessingError,
> {
    match (bucket_start_spec(row, g, tr), bucket_end_spec(row, g, tr)) {
        (Ok(s), Ok(e)) => Ok(PaymentMetricsBucketIdentifier {
            currency: row.currency,
            status: row.status,
            connector: row.connector,
            authentication_type: row.authentication_type,
            payment_method: row.payment_method,
            time_range: TimeRange { start_time: s, end_time: e },
        }),
        (Err(e1), _) => Err(e1),
        (_, Err(e2)) => Err(e2),
    }
}

/// `out` is the faithful assembly of `rows`: same length, and the i-th
/// pair carries the i-th row together with the bucket identifier derived
/// from that very row.
pub open spec fn assembly_post(
    rows: Seq<PaymentMetricRow>,
    g: Option<Granularity>,
    tr: TimeRange,
    out: Seq<(PaymentMetricsBucketIdentifier, PaymentMetricRow)>,
) -> bool {
    &&& out.len() == rows.len()
    &&& forall|i: int|
        0 <= i < rows.len() ==> ((#[trigger] row_bucket_spec(rows[i], g, tr)) matches Ok(id)
            && out[i] == (id, rows[i]))
}

/// Map raw backend rows to `(bucket identifier, row)` pairs, clamping each
/// bucket's time span to the queried range. A row whose raw boundary
/// cannot be mapped fails the whole batch: partial aggregation results are
/// never surfaced.
pub fn assemble_results(
    rows: Vec<PaymentMetricRow>,
    granularity: &Option<Granularity>,
    time_range: &TimeRange,
) -> (r: Result<Vec<(PaymentMetricsBucketIdentifier, PaymentMetricRow)>, MetricsError>)
    ensures
        r is Ok <==> (forall|i: int|
            0 <= i < rows@.len() ==> (#[trigger] row_bucket_spec(rows@[i], *granularity, *time_range))
                is Ok),
        r matches Ok(out) ==> assembly_post(rows@, *granularity, *time_range, out@),
        r is Err ==> r == Err::<Vec<(PaymentMetricsBucketIdentifier, PaymentMetricRow)>, MetricsError>(
            MetricsError::PostProcessingFailure,
        ),
        rows@.len() == 0 ==> (r matches Ok(out) && out@.len() == 0),
{
    let mut out: Vec<(PaymentMetricsBucketIdentifier, PaymentMetricRow)> = Vec::new();
    let mut i: usize = 0;
    while i < rows.len()
        invariant
            i <= rows@.len(),
            out@.len() == i,
            forall|k: int|
                0 <= k < i ==> ((#[trigger] row_bucket_spec(rows@[k], *granularity, *time_range))
                    matches Ok(id) && out@[k] == (id, rows@[k])),
        decreases rows@.len() - i,
    {
        let row = &rows[i];
        let start_time = match (granularity, row.start_bucket) {
            (Some(g), Some(st)) => match g.clip_to_start(st, time_range) {
                Ok(v) => v,
                Err(_) => {
                    proof {
                        assert(row_bucket_spec(rows@[i as int], *granularity, *time_range) is Err);
                    }
                    return Err(MetricsError::PostProcessingFailure);
                },
            },
            _ => time_range.start_time,
        };
        let end_time = match granularity {
            None => time_range.end_time,
            Some(g) => match row.end_bucket {
                None => None,
                Some(et) => match g.clip_to_end(et, time_range) {
                    Ok(v) => Some(v),
                    Err(_) => {
                        proof {
                            assert(row_bucket_spec(rows@[i as int], *granularity, *time_range) is Err);
                        }
                        return Err(MetricsError::PostProcessingFailure);
                    },
                },
            },
        };
        let id = PaymentMetricsBucketIdentifier::new(
            row.currency,
            row.status,
            clone_opt_string(&row.connector),
            row.authentication_type,
            clone_opt_string(&row.payment_method),
            TimeRange { start_time, end_time },
        );
        let row_copy = clone_metric_row(row);
        proof {
            assert(row_bucket_spec(rows@[i as int], *granularity, *time_range) matches Ok(spec_id)
                && spec_id == id);
        }
        out.push((id, row_copy));
        i += 1;
    }
    Ok(out)
}

/// Clone one raw row; the clone equals the original.
pub fn clone_metric_row(row: &PaymentMetricRow) -> (r: PaymentMetricRow)
    ensures
        r == *row,
{
    PaymentMetricRow {
        currency: row.currency,
        status: row.status,
        connector: clone_opt_string(&row.connector),
        authentication_type: row.authentication_type,
        payment_method: clone_opt_string(&row.payment_method),
        total: row.total,
        count: row.count,
        start_bucket: row.start_bucket,
        end_bucket: row.end_bucket,
    }
}

/// Assembling an unchanged backend response twice yields the same pairs:
/// the row-to-bucket mapping is a function of the rows, the granularity
/// and the range alone, so the whole load operation is idempotent while
/// the backend's dataset is unchanged.
pub proof fn lemma_assembly_deterministic(
    rows: Seq<PaymentMetricRow>,
    g: Option<Granularity>,
    tr: TimeRange,
    out1: Seq<(PaymentMetricsBucketIdentifier, PaymentMetricRow)>,
    out2: Seq<(PaymentMetricsBucketIdentifier, PaymentMetricRow)>,
)
    requires
        assembly_post(rows, g, tr, out1),
        assembly_post(rows, g, tr, out2),
    ensures
        out1 == out2,
{
    assert forall|i: int| 0 <= i < out1.len() implies out1[i] == out2[i] by {
        assert(row_bucket_spec(rows[i], g, tr) matches Ok(id) && out1[i] == (id, rows[i]));
        assert(row_bucket_spec(rows[i], g, tr) matches Ok(id) && out2[i] == (id, rows[i]));
    }
    assert(out1 =~= out2);
}

/// Every filter clause this metric attaches: the caller's inclusion
/// filters, then the mandatory merchant filter, then the time-range
/// filter.
pub open spec fn metric_filter_models(f: PaymentFilters, merchant: Seq<char>, tr: TimeRange) -> Seq<
    FilterClauseModel,
> {
    caller_filter_models(f) + seq![FilterClauseModel::MerchantIdEq { merchant_id: merchant }]
        + time_filter_models(tr)
}

/// Whether a clause is the tenant-isolation filter.
pub open spec fn is_merchant_filter(m: FilterClauseModel) -> bool {
    m is MerchantIdEq
}

/// How many clauses of `s` are merchant filters.
pub open spec fn merchant_filter_count(s: Seq<FilterClauseModel>) -> nat
    decreases s.len(),
{
    if s.len() == 0 {
        0
    } else {
        merchant_filter_count(s.drop_last()) + (if is_merchant_filter(s.last()) {
            1nat
        } else {
            0nat
        })
    }
}

/// Counting merchant filters distributes over concatenation.
pub proof fn lemma_merchant_count_append(a: Seq<FilterClauseModel>, b: Seq<FilterClauseModel>)
    ensures
        merchant_filter_count(a + b) == merchant_filter_count(a) + merchant_filter_count(b),
    decreases b.len(),
{
    if b.len() == 0 {
        assert(a + b =~= a);
    } else {
        lemma_merchant_count_append(a, b.drop_last());
        assert((a + b).drop_last() =~= a + b.drop_last());
    }
}

/// A one-clause list holds one merchant filter or none.
pub proof fn lemma_merchant_count_singleton(x: FilterClauseModel)
    ensures
        merchant_filter_count(seq![x]) == (if is_merchant_filter(x) {
            1nat
        } else {
            0nat
        }),
{
    let s = seq![x];
    assert(s.len() == 1);
    assert(s.last() == x);
    assert(s.drop_last() =~= Seq::<FilterClauseModel>::empty());
    assert(merchant_filter_count(Seq::<FilterClauseModel>::empty()) == 0);
    assert(merchant_filter_count(s) == merchant_filter_count(s.drop_last()) + (
    if is_merchant_filter(s.last()) {
        1nat
    } else {
        0nat
    }));
}

/// The caller's own filters never contribute a merchant filter.
pub proof fn lemma_caller_filters_no_merchant(f: PaymentFilters)
    ensures
        merchant_filter_count(caller_filter_models(f)) == 0,
{
    let c1 = crate::query::currency_filter_models(f);
    let c2 = crate::query::status_filter_models(f);
    let c3 = crate::query::connector_filter_models(f);
    let c4 = crate::query::auth_type_filter_models(f);
    let c5 = crate::query::payment_method_filter_models(f);
    if f.currency@.len() > 0 {
        lemma_merchant_count_singleton(FilterClauseModel::InCurrency { values: f.currency@ });
    }
    if f.status@.len() > 0 {
        lemma_merchant_count_singleton(FilterClauseModel::InStatus { values: f.status@ });
    }
    if f.connector@.len() > 0 {
        lemma_merchant_count_singleton(FilterClauseModel::InConnector {
            values: crate::query::strings_view(f.connector@),
        });
    }
    if f.authentication_type@.len() > 0 {
        lemma_merchant_count_singleton(FilterClauseModel::InAuthType {
            values: f.authentication_type@,
        });
    }
    if f.payment_method@.len() > 0 {
        lemma_merchant_count_singleton(FilterClauseModel::InPaymentMethod {
            values: crate::query::strings_view(f.payment_method@),
        });
    }
    lemma_merchant_count_append(c1, c2);
    lemma_merchant_count_append(c1 + c2, c3);
    lemma_merchant_count_append(c1 + c2 + c3, c4);
    lemma_merchant_count_append(c1 + c2 + c3 + c4, c5);
}

/// The merchant filter is present exactly once per built query, whatever
/// filters the caller supplied: tenant isolation is mandatory and never
/// duplicated.
pub proof fn lemma_merchant_filter_exactly_once(
    qb: QueryBuilder,
    f: PaymentFilters,
    merchant: Seq<char>,
    tr: TimeRange,
)
    requires
        clauses_model(qb.filters@) == metric_filter_models(f, merchant, tr),
    ensures
        merchant_filter_count(clauses_model(qb.filters@)) == 1,
{
    let c = caller_filter_models(f);
    let m = seq![FilterClauseModel::MerchantIdEq { merchant_id: merchant }];
    let t = time_filter_models(tr);
    lemma_caller_filters_no_merchant(f);
    lemma_merchant_count_singleton(FilterClauseModel::MerchantIdEq { merchant_id: merchant });
    lemma_merchant_count_singleton(FilterClauseModel::TimeGe { value: tr.start_time });
    let ge = seq![FilterClauseModel::TimeGe { value: tr.start_time }];
    match tr.end_time {
        Some(e) => {
            lemma_merchant_count_singleton(FilterClauseModel::TimeLt { value: e });
            lemma_merchant_count_append(ge, seq![FilterClauseModel::TimeLt { value: e }]);
        },
        None => {
            lemma_merchant_count_append(ge, Seq::empty());
        },
    }
    lemma_merchant_count_append(c, m);
    lemma_merchant_count_append(c + m, t);
}

/// Every requested dimension is selected and grouped: the built query
/// carries one select column and one group-by clause per dimension, and
/// no selected dimension is left ungrouped.
pub proof fn lemma_selected_dimensions_grouped(
    qb: QueryBuilder,
    dims: Seq<PaymentDimensions>,
    g: Option<Granularity>,
)
    requires
        qb.select@ == dimension_selects(dims) + avg_ticket_size_aggregates(),
        qb.group_by@ == dimension_group_bys(dims) + granularity_group_bys(g),
    ensures
        forall|i: int|
            0 <= i < dims.len() ==> qb.select@.contains(SelectColumn::Dimension(#[trigger] dims[i])),
        forall|i: int|
            0 <= i < dims.len() ==> qb.group_by@.contains(
                GroupByClause::Dimension(#[trigger] dims[i]),
            ),
        well_grouped(qb.select@, qb.group_by@),
{
    assert forall|i: int|
        0 <= i < dims.len() implies qb.select@.contains(SelectColumn::Dimension(#[trigger] dims[i]))
        && qb.group_by@.contains(GroupByClause::Dimension(dims[i])) by {
        assert(qb.select@[i] == SelectColumn::Dimension(dims[i]));
        assert(qb.group_by@[i] == GroupByClause::Dimension(dims[i]));
    }
    assert forall|i: int|
        0 <= i < qb.select@.len() implies ((#[trigger] qb.select@[i]) matches SelectColumn::Dimension(
        d,
    ) ==> qb.group_by@.contains(GroupByClause::Dimension(d))) by {
        if i < dims.len() {
            assert(qb.select@[i] == SelectColumn::Dimension(dims[i]));
            assert(qb.group_by@[i] == GroupByClause::Dimension(dims[i]));
        } else {
            let aggs = avg_ticket_size_aggregates();
            let k = i - dims.len();
            assert(qb.select@[i] == aggs[k]);
            assert(aggs[0] is Aggregation && aggs[1] is Aggregation && aggs[2] is Aggregation
                && aggs[3] is Aggregation);
        }
    }
}

/// The uniform operation every metric implements: given the requested
/// dimensions, the owning merchant, the caller's filters, an optional
/// granularity and the time range, load bucketed results from a backend.
/// Whatever the backend returns, every pair of a successful result
/// carries the bucket identifier derived from its own row, and when no
/// granularity is requested every bucket's time range is exactly the
/// queried range.
pub trait PaymentMetric<T: AnalyticsDataSource> {
    fn load_metrics(
        &self,
        dimensions: &Vec<PaymentDimensions>,
        merchant_id: &String,
        filters: &PaymentFilters,
        granularity: &Option<Granularity>,
        time_range: &TimeRange,
        pool: &T,
    ) -> (r: Result<Vec<(PaymentMetricsBucketIdentifier, PaymentMetricRow)>, MetricsError>)
        requires
            time_range.well_formed(),
        ensures
            r matches Ok(out) ==> (forall|i: int|
                0 <= i < out@.len() ==> ((#[trigger] row_bucket_spec(
                    out@[i].1,
                    *granularity,
                    *time_range,
                )) matches Ok(id) && out@[i].0 == id)),
            granularity is None ==> (r matches Ok(out) ==> (forall|i: int|
                0 <= i < out@.len() ==> (#[trigger] out@[i]).0.time_range == *time_range)),
    ;
}

/// The average-transaction-size metric: per bucket it reports the summed
/// amount and the record count, from which the average ticket size is
/// derived.
#[derive(Clone, Copy, Debug, Default)]
pub struct AvgTicketSize;

impl AvgTicketSize {
    /// Accumulate this metric's clauses into a fresh builder: one select
    /// column and one group-by clause per requested dimension, the four
    /// aggregate columns, the caller's filters, the mandatory merchant
    /// filter, the time-range filter, and the granularity's time bucket
    /// when one is requested. Fails exactly when the backend cannot
    /// translate a needed clause.
    pub fn build_query(
        &self,
        dimensions: &Vec<PaymentDimensions>,
        merchant_id: &String,
        filters: &PaymentFilters,
        granularity: &Option<Granularity>,
        time_range: &TimeRange,
        capabilities: QueryCapabilities,
    ) -> (r: Result<QueryBuilder, MetricsError>)
        ensures
            r is Ok <==> avg_ticket_size_supported(capabilities, *granularity),
            r is Err ==> r == Err::<QueryBuilder, MetricsError>(MetricsError::QueryBuildingError),
            r matches Ok(qb) ==> ({
                &&& qb.collection == AnalyticsCollection::Payment
                &&& qb.capabilities == capabilities
                &&& qb.select@ == dimension_selects(dimensions@) + avg_ticket_size_aggregates()
                &&& clauses_model(qb.filters@) == metric_filter_models(
                    *filters,
                    merchant_id@,
                    *time_range,
                )
                &&& qb.group_by@ == dimension_group_bys(dimensions@) + granularity_group_bys(
                    *granularity,
                )
            }),
    {
        let mut qb = QueryBuilder::new(AnalyticsCollection::Payment, capabilities);
        let mut i: usize = 0;
        while i < dimensions.len()
            invariant
                i <= dimensions@.len(),
                qb.collection == AnalyticsCollection::Payment,
                qb.capabilities == capabilities,
                qb.select@ == dimension_selects(dimensions@.take(i as int)),
                qb.filters@ == Seq::<FilterClause>::empty(),
                qb.group_by@ == Seq::<GroupByClause>::empty(),
            decreases dimensions@.len() - i,
        {
            match qb.add_select_column(SelectColumn::Dimension(dimensions[i])) {
                Ok(_) => {},
                Err(_) => {
                    return Err(MetricsError::QueryBuildingError);
                },
            }
            proof {
                assert(dimension_selects(dimensions@.take(i + 1 as int)) =~= dimension_selects(
                    dimensions@.take(i as int),
                ).push(SelectColumn::Dimension(dimensions@[i as int])));
            }
            i += 1;
        }
        proof {
            assert(dimensions@.take(dimensions@.len() as int) =~= dimensions@);
        }
        match qb.add_select_column(
            SelectColumn::Aggregation(Aggregate::Sum {
                field: MeasureField::Amount,
                alias: Some(MetricAlias::Total),
            }),
        ) {
            Ok(_) => {},
            Err(_) => {
                return Err(MetricsError::QueryBuildingError);
            },
        }
        match qb.add_select_column(
            SelectColumn::Aggregation(Aggregate::Count {
                field: None,
                alias: Some(MetricAlias::Count),
            }),
        ) {
            Ok(_) => {},
            Err(_) => {
                return Err(MetricsError::QueryBuildingError);
            },
        }
        match qb.add_select_column(
            SelectColumn::Aggregation(Aggregate::Min {
                field: MeasureField::CreatedAt,
                alias: Some(MetricAlias::StartBucket),
            }),
        ) {
            Ok(_) => {},
            Err(_) => {
                return Err(MetricsError::QueryBuildingError);
            },
        }
        match qb.add_select_column(
            SelectColumn::Aggregation(Aggregate::Max {
                field: MeasureField::CreatedAt,
                alias: Some(MetricAlias::EndBucket),
            }),
        ) {
            Ok(_) => {},
            Err(_) => {
                return Err(MetricsError::QueryBuildingError);
            },
        }
        proof {
            assert(qb.select@ =~= dimension_selects(dimensions@) + avg_ticket_size_aggregates());
        }
        match filters.set_filter_clause(&mut qb) {
            _ => {},
        }
        proof {
            assert(clauses_model(Seq::<FilterClause>::empty()) =~= Seq::<FilterClauseModel>::empty());
            assert(clauses_model(qb.filters@) =~= caller_filter_models(*filters));
        }
        let ghost before_merchant = qb.filters@;
        let merchant_clause = FilterClause::MerchantIdEq { merchant_id: merchant_id.clone() };
        match qb.add_filter_clause(merchant_clause) {
            _ => {},
        }
        proof {
            lemma_clauses_model_push(before_merchant, merchant_clause);
        }
        match time_range.set_filter_clause(&mut qb) {
            _ => {},
        }
        proof {
            assert(clauses_model(qb.filters@) =~= metric_filter_models(
                *filters,
                merchant_id@,
                *time_range,
            ));
        }
        let mut j: usize = 0;
        while j < dimensions.len()
            invariant
                j <= dimensions@.len(),
                qb.collection == AnalyticsCollection::Payment,
                qb.capabilities == capabilities,
                qb.select@ == dimension_selects(dimensions@) + avg_ticket_size_aggregates(),
                clauses_model(qb.filters@) == metric_filter_models(
                    *filters,
                    merchant_id@,
                    *time_range,
                ),
                qb.group_by@ == dimension_group_bys(dimensions@.take(j as int)),
                capabilities.supports_sum,
                capabilities.supports_count,
                capabilities.supports_min,
                capabilities.supports_max,
            decreases dimensions@.len() - j,
        {
            match qb.add_group_by_clause(GroupByClause::Dimension(dimensions[j])) {
                Ok(_) => {},
                Err(_) => {
                    return Err(MetricsError::QueryBuildingError);
                },
            }
            proof {
                assert(dimension_group_bys(dimensions@.take(j + 1 as int)) =~= dimension_group_bys(
                    dimensions@.take(j as int),
                ).push(GroupByClause::Dimension(dimensions@[j as int])));
            }
            j += 1;
        }
        proof {
            assert(dimensions@.take(dimensions@.len() as int) =~= dimensions@);
        }
        match granularity {
            Some(g) => {
                match g.set_group_by_clause(&mut qb) {
                    Ok(_) => {},
                    Err(_) => {
                        return Err(MetricsError::QueryBuildingError);
                    },
                }
            },
            None => {},
        }
        proof {
            assert(qb.group_by@ =~= dimension_group_bys(dimensions@) + granularity_group_bys(
                *granularity,
            ));
        }
        Ok(qb)
    }
}

impl<T: AnalyticsDataSource> PaymentMetric<T> for AvgTicketSize {
    /// Load this metric: build the query, execute it against the backend,
    /// and assemble the raw rows into bucketed results.
    fn load_metrics(
        &self,
        dimensions: &Vec<PaymentDimensions>,
        merchant_id: &String,
        filters: &PaymentFilters,
        granularity: &Option<Granularity>,
        time_range: &TimeRange,
        pool: &T,
    ) -> (r: Result<Vec<(PaymentMetricsBucketIdentifier, PaymentMetricRow)>, MetricsError>) {
        let caps = pool.capabilities();
        let qb = match self.build_query(
            dimensions,
            merchant_id,
            filters,
            granularity,
            time_range,
            caps,
        ) {
            Ok(b) => b,
            Err(e) => {
                return Err(e);
            },
        };
        match qb.execute_query(pool) {
            Err(_) => Err(MetricsError::QueryBuildingError),
            Ok(Err(_)) => Err(MetricsError::QueryExecutionFailure),
            Ok(Ok(rows)) => {
                let res = assemble_results(rows, granularity, time_range);
                proof {
                    if res is Ok {
                        let out = res->Ok_0;
                        assert forall|i: int|
                            0 <= i < out@.len() implies ((#[trigger] row_bucket_spec(
                            out@[i].1,
                            *granularity,
                            *time_range,
                        )) matches Ok(id) && out@[i].0 == id) by {
                            assert(row_bucket_spec(rows@[i], *granularity, *time_range) matches Ok(
                                id,
                            ) && out@[i] == (id, rows@[i]));
                        }
                        if *granularity is None {
                            lemma_no_granularity_keeps_range(rows@, *time_range, out@);
                        }
                    }
                }
                res
            },
        }
    }
}

/// When no granularity is requested, every assembled bucket's time range
/// is exactly the queried range: no clamping is performed.
pub proof fn lemma_no_granularity_keeps_range(
    rows: Seq<PaymentMetricRow>,
    tr: TimeRange,
    out: Seq<(PaymentMetricsBucketIdentifier, PaymentMetricRow)>,
)
    requires
        assembly_post(rows, None, tr, out),
    ensures
        forall|i: int| 0 <= i < out.len() ==> (#[trigger] out[i]).0.time_range == tr,
{
    assert forall|i: int| 0 <= i < out.len() implies (#[trigger] out[i]).0.time_range == tr by {
        assert(row_bucket_spec(rows[i], None, tr) matches Ok(id) && out[i] == (id, rows[i]));
    }
}

} // verus!
