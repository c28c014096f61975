use payment_metrics::memory::MemoryBackend;
use payment_metrics::memory::PaymentRecord;
use payment_metrics::metrics::assemble_results;
use payment_metrics::metrics::AvgTicketSize;
use payment_metrics::metrics::PaymentMetric;
use payment_metrics::query::Aggregate;
use payment_metrics::query::AnalyticsCollection;
use payment_metrics::query::AnalyticsDataSource;
use payment_metrics::query::FilterClause;
use payment_metrics::query::GroupByClause;
use payment_metrics::query::MeasureField;
use payment_metrics::query::MetricAlias;
use payment_metrics::query::Query;
use payment_metrics::query::QueryBuilder;
use payment_metrics::query::QueryBuildingError;
use payment_metrics::query::QueryCapabilities;
use payment_metrics::query::SelectColumn;
use payment_metrics::types::AuthenticationType;
use payment_metrics::types::Currency;
use payment_metrics::types::Granularity;
use payment_metrics::types::MetricsError;
use payment_metrics::types::PaymentDimensions;
use payment_metrics::types::PaymentFilters;
use payment_metrics::types::PaymentMetricRow;
use payment_metrics::types::PaymentStatus;
use payment_metrics::types::QueryExecutionError;
use payment_metrics::types::TimeRange;

const DAY1: u64 = 1704067200;
const DAY2: u64 = 1704153600;
const DAY3: u64 = 1704240000;

fn sample_record() -> PaymentRecord {
    PaymentRecord {
        merchant_id: "M1".to_string(),
        currency: Currency::Usd,
        status: PaymentStatus::Succeeded,
        connector: "stripe".to_string(),
        authentication_type: AuthenticationType::NoThreeDs,
        payment_method: "card".to_string(),
        amount: 10,
        created_at: DAY1 + 60,
    }
}

#[test]
fn ungrouped_selected_dimension_fails_before_execution() {
    let backend = MemoryBackend::new(vec![sample_record()]);
    let mut qb = QueryBuilder::new(AnalyticsCollection::Payment, QueryCapabilities::full());
    qb.add_select_column(SelectColumn::Dimension(PaymentDimensions::Connector)).unwrap();
    let res = qb.execute_query(&backend);
    assert_eq!(res, Err(QueryBuildingError::UngroupedSelectColumn));
}

#[test]
fn grouped_selected_dimension_executes() {
    let backend = MemoryBackend::new(vec![sample_record()]);
    let mut qb = QueryBuilder::new(AnalyticsCollection::Payment, QueryCapabilities::full());
    qb.add_select_column(SelectColumn::Dimension(PaymentDimensions::Connector)).unwrap();
    qb.add_group_by_clause(GroupByClause::Dimension(PaymentDimensions::Connector)).unwrap();
    let res = qb.execute_query(&backend).unwrap().unwrap();
    assert_eq!(res.len(), 1);
    assert_eq!(res[0].connector, Some("stripe".to_string()));
}

#[test]
fn unsupported_select_column_is_rejected_at_add() {
    let caps = QueryCapabilities {
        supports_sum: false,
        supports_count: true,
        supports_min: true,
        supports_max: true,
        supports_time_bucket: true,
    };
    let mut qb = QueryBuilder::new(AnalyticsCollection::Payment, caps);
    let res = qb.add_select_column(SelectColumn::Aggregation(Aggregate::Sum {
        field: MeasureField::Amount,
        alias: Some(MetricAlias::Total),
    }));
    assert_eq!(res, Err(QueryBuildingError::NotRepresentable));
    // A dimension column is always representable.
    qb.add_select_column(SelectColumn::Dimension(PaymentDimensions::Currency)).unwrap();
}

#[test]
fn filter_clauses_always_append() {
    let mut qb = QueryBuilder::new(AnalyticsCollection::Payment, QueryCapabilities::full());
    qb.add_filter_clause(FilterClause::MerchantIdEq { merchant_id: "M1".to_string() }).unwrap();
    qb.add_filter_clause(FilterClause::TimeGe { value: DAY1 }).unwrap();
    assert_eq!(qb.filters.len(), 2);
}

/// A store whose execution always fails; stands in for an unreachable
/// warehouse.
struct UnreachableBackend;

impl AnalyticsDataSource for UnreachableBackend {
    fn capabilities(&self) -> QueryCapabilities {
        QueryCapabilities::full()
    }

    fn execute(&self, _query: &Query) -> Result<Vec<PaymentMetricRow>, QueryExecutionError> {
        Err(QueryExecutionError::StoreUnreachable)
    }
}

#[test]
fn backend_failure_is_execution_error() {
    let res = AvgTicketSize.load_metrics(
        &vec![PaymentDimensions::Currency],
        &"M1".to_string(),
        &PaymentFilters::new(),
        &Some(Granularity::Day),
        &TimeRange { start_time: DAY1, end_time: Some(DAY3) },
        &UnreachableBackend,
    );
    assert_eq!(res, Err(MetricsError::QueryExecutionFailure));
}

fn raw_row(start_bucket: Option<u64>, end_bucket: Option<u64>) -> PaymentMetricRow {
    PaymentMetricRow {
        currency: Some(Currency::Usd),
        status: None,
        connector: None,
        authentication_type: None,
        payment_method: None,
        total: Some(10),
        count: Some(1),
        start_bucket,
        end_bucket,
    }
}

#[test]
fn boundary_outside_range_fails_whole_batch() {
    let range = TimeRange { start_time: DAY1, end_time: Some(DAY3) };
    let rows = vec![
        raw_row(Some(DAY1 + 100), Some(DAY1 + 100)),
        raw_row(Some(100), Some(100)), // far before the queried range
    ];
    let res = assemble_results(rows, &Some(Granularity::Day), &range);
    assert_eq!(res, Err(MetricsError::PostProcessingFailure));
}

#[test]
fn missing_start_bucket_falls_back_to_range_start() {
    let range = TimeRange { start_time: DAY1, end_time: Some(DAY3) };
    let rows = vec![raw_row(None, Some(DAY2 + 100))];
    let out = assemble_results(rows, &Some(Granularity::Day), &range).unwrap();
    assert_eq!(out[0].0.time_range.start_time, DAY1);
    assert_eq!(out[0].0.time_range.end_time, Some(DAY3));
}

#[test]
fn missing_end_bucket_leaves_end_open() {
    let range = TimeRange { start_time: DAY1, end_time: Some(DAY3) };
    let rows = vec![raw_row(Some(DAY1 + 100), None)];
    let out = assemble_results(rows, &Some(Granularity::Day), &range).unwrap();
    assert_eq!(out[0].0.time_range.start_time, DAY1);
    assert_eq!(out[0].0.time_range.end_time, None);
}

#[test]
fn assembled_pair_echoes_its_row() {
    let range = TimeRange { start_time: DAY1, end_time: Some(DAY3) };
    let row = raw_row(Some(DAY1 + 100), Some(DAY1 + 200));
    let out = assemble_results(vec![row.clone()], &Some(Granularity::Day), &range).unwrap();
    assert_eq!(out.len(), 1);
    assert_eq!(out[0].1, row);
    assert_eq!(out[0].0.currency, Some(Currency::Usd));
    assert_eq!(out[0].0.time_range, TimeRange { start_time: DAY1, end_time: Some(DAY2) });
}

#[test]
fn unselected_aggregates_are_absent() {
    let backend = MemoryBackend::new(vec![sample_record()]);
    let mut qb = QueryBuilder::new(AnalyticsCollection::Payment, QueryCapabilities::full());
    qb.add_select_column(SelectColumn::Dimension(PaymentDimensions::Currency)).unwrap();
    qb.add_select_column(SelectColumn::Aggregation(Aggregate::Count {
        field: None,
        alias: Some(MetricAlias::Count),
    }))
    .unwrap();
    qb.add_group_by_clause(GroupByClause::Dimension(PaymentDimensions::Currency)).unwrap();
    let rows = qb.execute_query(&backend).unwrap().unwrap();
    assert_eq!(rows.len(), 1);
    assert_eq!(rows[0].count, Some(1));
    assert_eq!(rows[0].total, None);
    assert_eq!(rows[0].start_bucket, None);
    assert_eq!(rows[0].end_bucket, None);
}

#[test]
fn aggregate_overflow_is_native_failure() {
    let mut a = sample_record();
    a.amount = u64::MAX;
    let mut b = sample_record();
    b.amount = 2;
    let backend = MemoryBackend::new(vec![a, b]);
    let res = AvgTicketSize.load_metrics(
        &vec![PaymentDimensions::Currency],
        &"M1".to_string(),
        &PaymentFilters::new(),
        &None,
        &TimeRange { start_time: DAY1, end_time: Some(DAY3) },
        &backend,
    );
    assert_eq!(res, Err(MetricsError::QueryExecutionFailure));
}
