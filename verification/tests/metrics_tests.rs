use payment_metrics::memory::MemoryBackend;
use payment_metrics::memory::PaymentRecord;
use payment_metrics::metrics::AvgTicketSize;
use payment_metrics::metrics::PaymentMetric;
use payment_metrics::query::QueryCapabilities;
use payment_metrics::types::AuthenticationType;
use payment_metrics::types::Currency;
use payment_metrics::types::Granularity;
use payment_metrics::types::MetricsError;
use payment_metrics::types::PaymentDimensions;
use payment_metrics::types::PaymentFilters;
use payment_metrics::types::PaymentStatus;
use payment_metrics::types::TimeRange;

const DAY1: u64 = 1704067200; // 2024-01-01T00:00:00Z
const DAY2: u64 = 1704153600; // 2024-01-02T00:00:00Z
const DAY3: u64 = 1704240000; // 2024-01-03T00:00:00Z

fn record(
    merchant: &str,
    currency: Currency,
    amount: u64,
    created_at: u64,
) -> PaymentRecord {
    PaymentRecord {
        merchant_id: merchant.to_string(),
        currency,
        status: PaymentStatus::Succeeded,
        connector: "stripe".to_string(),
        authentication_type: AuthenticationType::NoThreeDs,
        payment_method: "card".to_string(),
        amount,
        created_at,
    }
}

fn two_day_records() -> Vec<PaymentRecord> {
    vec![
        record("M1", Currency::Usd, 10, DAY1 + 3600),
        record("M1", Currency::Usd, 20, DAY1 + 7200),
        record("M1", Currency::Usd, 30, DAY1 + 10000),
        record("M1", Currency::Eur, 5, DAY2 + 500),
    ]
}

fn full_range() -> TimeRange {
    TimeRange { start_time: DAY1, end_time: Some(DAY3) }
}

#[test]
fn currency_day_buckets() {
    let backend = MemoryBackend::new(two_day_records());
    let out = AvgTicketSize
        .load_metrics(
            &vec![PaymentDimensions::Currency],
            &"M1".to_string(),
            &PaymentFilters::new(),
            &Some(Granularity::Day),
            &full_range(),
            &backend,
        )
        .unwrap();
    assert_eq!(out.len(), 2);
    let (usd_id, usd_row) = &out[0];
    assert_eq!(usd_id.currency, Some(Currency::Usd));
    assert_eq!(usd_id.time_range, TimeRange { start_time: DAY1, end_time: Some(DAY2) });
    assert_eq!(usd_row.total, Some(60));
    assert_eq!(usd_row.count, Some(3));
    let (eur_id, eur_row) = &out[1];
    assert_eq!(eur_id.currency, Some(Currency::Eur));
    assert_eq!(eur_id.time_range, TimeRange { start_time: DAY2, end_time: Some(DAY3) });
    assert_eq!(eur_row.total, Some(5));
    assert_eq!(eur_row.count, Some(1));
}

#[test]
fn foreign_merchant_is_invisible() {
    let mut records = two_day_records();
    records.push(record("M2", Currency::Usd, 1000, DAY1 + 100));
    let backend = MemoryBackend::new(records);
    let out = AvgTicketSize
        .load_metrics(
            &vec![PaymentDimensions::Currency],
            &"M1".to_string(),
            &PaymentFilters::new(),
            &Some(Granularity::Day),
            &full_range(),
            &backend,
        )
        .unwrap();
    assert_eq!(out.len(), 2);
    let (_, usd_row) = &out[0];
    assert_eq!(usd_row.total, Some(60));
    assert_eq!(usd_row.count, Some(3));
    let (_, eur_row) = &out[1];
    assert_eq!(eur_row.total, Some(5));
}

#[test]
fn empty_backend_gives_empty_result() {
    let backend = MemoryBackend::new(Vec::new());
    let out = AvgTicketSize
        .load_metrics(
            &vec![PaymentDimensions::Currency],
            &"M1".to_string(),
            &PaymentFilters::new(),
            &Some(Granularity::Day),
            &full_range(),
            &backend,
        )
        .unwrap();
    assert!(out.is_empty());
}

#[test]
fn repeat_invocation_is_idempotent() {
    let backend = MemoryBackend::new(two_day_records());
    let dims = vec![PaymentDimensions::Currency, PaymentDimensions::Connector];
    let first = AvgTicketSize
        .load_metrics(
            &dims,
            &"M1".to_string(),
            &PaymentFilters::new(),
            &Some(Granularity::Day),
            &full_range(),
            &backend,
        )
        .unwrap();
    let second = AvgTicketSize
        .load_metrics(
            &dims,
            &"M1".to_string(),
            &PaymentFilters::new(),
            &Some(Granularity::Day),
            &full_range(),
            &backend,
        )
        .unwrap();
    assert_eq!(first, second);
}

#[test]
fn no_granularity_keeps_input_range() {
    let backend = MemoryBackend::new(two_day_records());
    let out = AvgTicketSize
        .load_metrics(
            &vec![PaymentDimensions::Currency],
            &"M1".to_string(),
            &PaymentFilters::new(),
            &None,
            &full_range(),
            &backend,
        )
        .unwrap();
    assert_eq!(out.len(), 2);
    for (id, _) in &out {
        assert_eq!(id.time_range, full_range());
    }
}

#[test]
fn no_granularity_merges_days() {
    let backend = MemoryBackend::new(two_day_records());
    let out = AvgTicketSize
        .load_metrics(
            &vec![PaymentDimensions::Currency],
            &"M1".to_string(),
            &PaymentFilters::new(),
            &None,
            &full_range(),
            &backend,
        )
        .unwrap();
    // Without time bucketing the three USD payments of day one fall into
    // one group whatever their day.
    let (usd_id, usd_row) = &out[0];
    assert_eq!(usd_id.currency, Some(Currency::Usd));
    assert_eq!(usd_row.total, Some(60));
    assert_eq!(usd_row.count, Some(3));
}

#[test]
fn caller_filter_restricts_connector() {
    let mut records = two_day_records();
    let mut adyen = record("M1", Currency::Usd, 500, DAY1 + 50);
    adyen.connector = "adyen".to_string();
    records.push(adyen);
    let backend = MemoryBackend::new(records);
    let mut filters = PaymentFilters::new();
    filters.connector.push("stripe".to_string());
    let out = AvgTicketSize
        .load_metrics(
            &vec![PaymentDimensions::Currency],
            &"M1".to_string(),
            &filters,
            &Some(Granularity::Day),
            &full_range(),
            &backend,
        )
        .unwrap();
    assert_eq!(out.len(), 2);
    let (_, usd_row) = &out[0];
    assert_eq!(usd_row.total, Some(60));
    assert_eq!(usd_row.count, Some(3));
}

#[test]
fn records_outside_range_are_excluded() {
    let mut records = two_day_records();
    records.push(record("M1", Currency::Usd, 999, DAY3 + 100));
    records.push(record("M1", Currency::Usd, 999, DAY1 - 100));
    let backend = MemoryBackend::new(records);
    let out = AvgTicketSize
        .load_metrics(
            &vec![PaymentDimensions::Currency],
            &"M1".to_string(),
            &PaymentFilters::new(),
            &Some(Granularity::Day),
            &full_range(),
            &backend,
        )
        .unwrap();
    assert_eq!(out.len(), 2);
    let (_, usd_row) = &out[0];
    assert_eq!(usd_row.total, Some(60));
}

#[test]
fn unsupported_aggregate_is_build_error() {
    let caps = QueryCapabilities {
        supports_sum: false,
        supports_count: true,
        supports_min: true,
        supports_max: true,
        supports_time_bucket: true,
    };
    let backend = MemoryBackend::with_capabilities(two_day_records(), caps);
    let res = AvgTicketSize.load_metrics(
        &vec![PaymentDimensions::Currency],
        &"M1".to_string(),
        &PaymentFilters::new(),
        &Some(Granularity::Day),
        &full_range(),
        &backend,
    );
    assert_eq!(res, Err(MetricsError::QueryBuildingError));
}

#[test]
fn unsupported_time_bucket_is_build_error() {
    let caps = QueryCapabilities {
        supports_sum: true,
        supports_count: true,
        supports_min: true,
        supports_max: true,
        supports_time_bucket: false,
    };
    let backend = MemoryBackend::with_capabilities(two_day_records(), caps);
    let with_granularity = AvgTicketSize.load_metrics(
        &vec![PaymentDimensions::Currency],
        &"M1".to_string(),
        &PaymentFilters::new(),
        &Some(Granularity::Day),
        &full_range(),
        &backend,
    );
    assert_eq!(with_granularity, Err(MetricsError::QueryBuildingError));
    // Without a granularity no time bucket is needed, so the same store
    // serves the query.
    let without = AvgTicketSize.load_metrics(
        &vec![PaymentDimensions::Currency],
        &"M1".to_string(),
        &PaymentFilters::new(),
        &None,
        &full_range(),
        &backend,
    );
    assert!(without.is_ok());
}

#[test]
fn all_dimensions_grouped_and_filtered() {
    let mut records = two_day_records();
    records[1].status = PaymentStatus::Failed;
    records[2].payment_method = "wallet".to_string();
    records[3].authentication_type = AuthenticationType::ThreeDs;
    let backend = MemoryBackend::new(records);
    let mut filters = PaymentFilters::new();
    filters.currency.push(Currency::Usd);
    filters.currency.push(Currency::Eur);
    filters.status.push(PaymentStatus::Succeeded);
    filters.authentication_type.push(AuthenticationType::NoThreeDs);
    filters.payment_method.push("card".to_string());
    let dims = vec![
        PaymentDimensions::Currency,
        PaymentDimensions::PaymentStatus,
        PaymentDimensions::Connector,
        PaymentDimensions::AuthType,
        PaymentDimensions::PaymentMethod,
    ];
    let out = AvgTicketSize
        .load_metrics(
            &dims,
            &"M1".to_string(),
            &PaymentFilters::new(),
            &None,
            &full_range(),
            &backend,
        )
        .unwrap();
    // Ungrouped-by-time, grouped by every dimension: the four records fall
    // into four distinct groups.
    assert_eq!(out.len(), 4);
    // With the inclusion filters only the first record survives: record 1
    // failed, record 2 pays by wallet, record 3 is EUR but 3DS.
    let filtered = AvgTicketSize
        .load_metrics(
            &dims,
            &"M1".to_string(),
            &filters,
            &None,
            &full_range(),
            &backend,
        )
        .unwrap();
    assert_eq!(filtered.len(), 1);
    let (id, row) = &filtered[0];
    assert_eq!(id.currency, Some(Currency::Usd));
    assert_eq!(id.status, Some(PaymentStatus::Succeeded));
    assert_eq!(id.connector, Some("stripe".to_string()));
    assert_eq!(id.authentication_type, Some(AuthenticationType::NoThreeDs));
    assert_eq!(id.payment_method, Some("card".to_string()));
    assert_eq!(row.total, Some(10));
    assert_eq!(row.count, Some(1));
}
