//! Backend-agnostic query construction: typed select columns, conjunctive
//! filter clauses and group-by clauses, accumulated by a single-use builder
//! and executed through a pluggable backend adapter.

use vstd::prelude::*;
use crate::types::AuthenticationType;
use crate::types::Currency;
use crate::types::Granularity;
use crate::types::PaymentDimensions;
use crate::types::PaymentFilters;
use crate::types::PaymentMetricRow;
use crate::types::PaymentStatus;
use crate::types::QueryExecutionError;
use crate::types::TimeRange;

verus! {

/// The logical collection a query runs against.
#[derive(Clone, Copy, Debug, PartialEq, Eq, Structural)]
pub enum AnalyticsCollection {
    Payment,
    Refund,
}

/// A record field an aggregate can be computed over.
#[derive(Clone, Copy, Debug, PartialEq, Eq, Structural)]
pub enum MeasureField {
    Amount,
    CreatedAt,
}

/// The output column an aggregate's value is reported under.
#[derive(Clone, Copy, Debug, PartialEq, Eq, Structural)]
pub enum MetricAlias {
    Total,
    Count,
    StartBucket,
    EndBucket,
}

/// One aggregate computation. `Count` may omit its field (count-all);
/// the other variants always carry one.
#[derive(Clone, Copy, Debug, PartialEq, Eq)]
pub enum Aggregate {
    Sum { field: MeasureField, alias: Option<MetricAlias> },
    Count { field: Option<MeasureField>, alias: Option<MetricAlias> },
    Min { field: MeasureField, alias: Option<MetricAlias> },
    Max { field: MeasureField, alias: Option<MetricAlias> },
}

/// A column of the select list: either a grouping dimension or an
/// aggregate expression.
#[derive(Clone, Copy, Debug, PartialEq, Eq)]
pub enum SelectColumn {
    Dimension(PaymentDimensions),
    Aggregation(Aggregate),
}

/// One conjunctive predicate of a query. All clauses of a query are ANDed,
/// so their order is insertion order but semantically irrelevant.
#[derive(Clone, Debug, PartialEq, Eq)]
pub enum FilterClause {
    /// Equality on the owning merchant; the mandatory tenant-isolation filter.
    MerchantIdEq { merchant_id: String },
    /// Inclusion filters, one per dimension; a record matches when its
    /// value occurs in the list.
    InCurrency { values: Vec<Currency> },
    InStatus { values: Vec<PaymentStatus> },
    InConnector { values: Vec<String> },
    InAuthType { values: Vec<AuthenticationType> },
    InPaymentMethod { values: Vec<String> },
    /// Record timestamp at or after the given instant.
    TimeGe { value: u64 },
    /// Record timestamp strictly before the given instant.
    TimeLt { value: u64 },
}

/// One group-by clause: a dimension, or the time bucket a granularity
/// lays over the records.
#[derive(Clone, Copy, Debug, PartialEq, Eq, Structural)]
pub enum GroupByClause {
    Dimension(PaymentDimensions),
    TimeBucket(Granularity),
}

/// Which clauses a concrete store can translate into its native query
/// representation.
#[derive(Clone, Copy, Debug, PartialEq, Eq, Structural)]
pub struct QueryCapabilities {
    pub supports_sum: bool,
    pub supports_count: bool,
    pub supports_min: bool,
    pub supports_max: bool,
    pub supports_time_bucket: bool,
}

impl QueryCapabilities {
    /// Capabilities of a store that can translate every clause.
    pub open spec fn spec_full() -> Self {
        QueryCapabilities {
            supports_sum: true,
            supports_count: true,
            supports_min: true,
            supports_max: true,
            supports_time_bucket: true,
        }
    }

    pub fn full() -> (r: Self)
        ensures
            r == Self::spec_full(),
    {
        QueryCapabilities {
            supports_sum: true,
            supports_count: true,
            supports_min: true,
            supports_max: true,
            supports_time_bucket: true,
        }
    }

    /// Whether the store can translate `column`. Dimensions are always
    /// representable; aggregates depend on the store.
    pub open spec fn supports_select(self, column: SelectColumn) -> bool {
        match column {
            SelectColumn::Dimension(_) => true,
            SelectColumn::Aggregation(a) => match a {
                Aggregate::Sum { .. } => self.supports_sum,
                Aggregate::Count { .. } => self.supports_count,
                Aggregate::Min { .. } => self.supports_min,
                Aggregate::Max { .. } => self.supports_max,
            },
        }
    }

    /// Whether the store can translate `clause` as a group-by.
    pub open spec fn supports_group_by(self, clause: GroupByClause) -> bool {
        match clause {
            GroupByClause::Dimension(_) => true,
            GroupByClause::TimeBucket(_) => self.supports_time_bucket,
        }
    }

    pub fn check_select(&self, column: &SelectColumn) -> (r: bool)
        ensures
            r == self.supports_select(*column),
    {
        match column {
            SelectColumn::Dimension(_) => true,
            SelectColumn::Aggregation(a) => match a {
                Aggregate::Sum { .. } => self.supports_sum,
                Aggregate::Count { .. } => self.supports_count,
                Aggregate::Min { .. } => self.supports_min,
                Aggregate::Max { .. } => self.supports_max,
            },
        }
    }

    pub fn check_group_by(&self, clause: &GroupByClause) -> (r: bool)
        ensures
            r == self.supports_group_by(*clause),
    {
        match clause {
            GroupByClause::Dimension(_) => true,
            GroupByClause::TimeBucket(_) => self.supports_time_bucket,
        }
    }
}

/// A failure to accumulate or finish a query.
#[derive(Clone, Copy, Debug, PartialEq, Eq, Structural)]
pub enum QueryBuildingError {
    /// The target backend cannot translate the clause.
    NotRepresentable,
    /// A selected dimension has no matching group-by clause.
    UngroupedSelectColumn,
}

/// A finished, backend-agnostic query: what the builder hands to the
/// backend adapter for translation and execution.
#[derive(Clone, Debug, PartialEq, Eq)]
pub struct Query {
    pub collection: AnalyticsCollection,
    pub select: Vec<SelectColumn>,
    pub filters: Vec<FilterClause>,
    pub group_by: Vec<GroupByClause>,
}

/// Every selected dimension column has a matching group-by clause;
/// standard aggregate-query semantics.
pub open spec fn well_grouped(select: Seq<SelectColumn>, group_by: Seq<GroupByClause>) -> bool {
    forall|i: int|
        0 <= i < select.len() ==> (#[trigger] select[i] matches SelectColumn::Dimension(d)
            ==> group_by.contains(GroupByClause::Dimension(d)))
}

/// The translation and execution capability one concrete analytics store
/// provides. The query pipeline is generic over this trait; backends are
/// read-only and must tolerate concurrent queries.
pub trait AnalyticsDataSource {
    /// Which clauses this store can translate.
    fn capabilities(&self) -> QueryCapabilities;

    /// Translate and run `query`, returning one raw row per group, or an
    /// execution failure. Nothing is promised of the rows: callers must
    /// handle every outcome.
    fn execute(&self, query: &Query) -> Result<Vec<PaymentMetricRow>, QueryExecutionError>;
}

/// Mutable, single-use accumulator of select columns, filter clauses and
/// group-by clauses. Created empty per invocation, consumed exactly once
/// by `execute_query`.
pub struct QueryBuilder {
    pub collection: AnalyticsCollection,
    pub capabilities: QueryCapabilities,
    pub select: Vec<SelectColumn>,
    pub filters: Vec<FilterClause>,
    pub group_by: Vec<GroupByClause>,
}

impl QueryBuilder {
    /// An empty builder for `collection`, validating against `capabilities`.
    pub fn new(collection: AnalyticsCollection, capabilities: QueryCapabilities) -> (r: Self)
        ensures
            r.collection == collection,
            r.capabilities == capabilities,
            r.select@ == Seq::<SelectColumn>::empty(),
            r.filters@ == Seq::<FilterClause>::empty(),
            r.group_by@ == Seq::<GroupByClause>::empty(),
    {
        QueryBuilder {
            collection,
            capabilities,
            select: Vec::new(),
            filters: Vec::new(),
            group_by: Vec::new(),
        }
    }

    /// Append a select column; fails, leaving the builder unchanged, when
    /// the backend cannot translate the column.
    pub fn add_select_column(&mut self, column: SelectColumn) -> (r: Result<(), QueryBuildingError>)
        ensures
            old(self).capabilities.supports_select(column) ==> (r is Ok
                && final(self).select@ == old(self).select@.push(column)),
            !old(self).capabilities.supports_select(column)
                ==> (r == Err::<(), QueryBuildingError>(QueryBuildingError::NotRepresentable)
                && final(self).select@ == old(self).select@),
            final(self).collection == old(self).collection,
            final(self).capabilities == old(self).capabilities,
            final(self).filters@ == old(self).filters@,
            final(self).group_by@ == old(self).group_by@,
    {
        if self.capabilities.check_select(&column) {
            self.select.push(column);
            Ok(())
        } else {
            Err(QueryBuildingError::NotRepresentable)
        }
    }

    /// Append one conjunctive filter clause. Every clause is representable,
    /// so this always succeeds; the `Result` mirrors the other builder steps.
    pub fn add_filter_clause(&mut self, clause: FilterClause) -> (r: Result<(), QueryBuildingError>)
        ensures
            r is Ok,
            final(self).filters@ == old(self).filters@.push(clause),
            final(self).collection == old(self).collection,
            final(self).capabilities == old(self).capabilities,
            final(self).select@ == old(self).select@,
            final(self).group_by@ == old(self).group_by@,
    {
        self.filters.push(clause);
        Ok(())
    }

    /// Append a group-by clause; fails, leaving the builder unchanged, when
    /// the backend cannot translate the clause.
    pub fn add_group_by_clause(&mut self, clause: GroupByClause) -> (r: Result<(), QueryBuildingError>)
        ensures
            old(self).capabilities.supports_group_by(clause) ==> (r is Ok
                && final(self).group_by@ == old(self).group_by@.push(clause)),
            !old(self).capabilities.supports_group_by(clause)
                ==> (r == Err::<(), QueryBuildingError>(QueryBuildingError::NotRepresentable)
                && final(self).group_by@ == old(self).group_by@),
            final(self).collection == old(self).collection,
            final(self).capabilities == old(self).capabilities,
            final(self).select@ == old(self).select@,
            final(self).filters@ == old(self).filters@,
    {
        if self.capabilities.check_group_by(&clause) {
            self.group_by.push(clause);
            Ok(())
        } else {
            Err(QueryBuildingError::NotRepresentable)
        }
    }

    /// Whether every selected dimension is grouped.
    pub fn is_well_grouped(&self) -> (r: bool)
        ensures
            r == well_grouped(self.select@, self.group_by@),
    {
        let mut i: usize = 0;
        while i < self.select.len()
            invariant
                i <= self.select@.len(),
                forall|k: int|
                    0 <= k < i ==> (#[trigger] self.select@[k] matches SelectColumn::Dimension(d)
                        ==> self.group_by@.contains(GroupByClause::Dimension(d))),
            decreases self.select@.len() - i,
        {
            match self.select[i] {
                SelectColumn::Dimension(d) => {
                    if !contains_dimension_group(&self.group_by, d) {
                        return false;
                    }
                },
                SelectColumn::Aggregation(_) => {},
            }
            i += 1;
        }
        true
    }

    /// Finish the query and run it: validate that every selected dimension
    /// is grouped, then hand the accumulated clauses to the backend. The
    /// outer result reports validation (no backend call is made when it
    /// fails); the inner result is the backend's own outcome.
    pub fn execute_query<T: AnalyticsDataSource>(self, pool: &T) -> (r: Result<
        Result<Vec<PaymentMetricRow>, QueryExecutionError>,
        QueryBuildingError,
    >)
        ensures
            r is Ok <==> well_grouped(self.select@, self.group_by@),
            !well_grouped(self.select@, self.group_by@) ==> (r matches Err(e)
                && e == QueryBuildingError::UngroupedSelectColumn),
    {
        if !self.is_well_grouped() {
            return Err(QueryBuildingError::UngroupedSelectColumn);
        }
        let query = Query {
            collection: self.collection,
            select: self.select,
            filters: self.filters,
            group_by: self.group_by,
        };
        Ok(pool.execute(&query))
    }
}

/// The mathematical model of one filter clause: strings as character
/// sequences, vectors as sequences. Contracts compare clauses at this
/// level, where equality is equality of contents.
pub enum FilterClauseModel {
    MerchantIdEq { merchant_id: Seq<char> },
    InCurrency { values: Seq<Currency> },
    InStatus { values: Seq<PaymentStatus> },
    InConnector { values: Seq<Seq<char>> },
    InAuthType { values: Seq<AuthenticationType> },
    InPaymentMethod { values: Seq<Seq<char>> },
    TimeGe { value: u64 },
    TimeLt { value: u64 },
}

/// The contents of a vector of strings.
pub open spec fn strings_view(v: Seq<String>) -> Seq<Seq<char>> {
    v.map(|i: int, s: String| s@)
}

/// The model of one filter clause.
pub open spec fn clause_model(c: FilterClause) -> FilterClauseModel {
    match c {
        FilterClause::MerchantIdEq { merchant_id } => (FilterClauseModel::MerchantIdEq {
            merchant_id: merchant_id@,
        }),
        FilterClause::InCurrency { values } => (FilterClauseModel::InCurrency { values: values@ }),
        FilterClause::InStatus { values } => (FilterClauseModel::InStatus { values: values@ }),
        FilterClause::InConnector { values } => (FilterClauseModel::InConnector {
            values: strings_view(values@),
        }),
        FilterClause::InAuthType { values } => (FilterClauseModel::InAuthType { values: values@ }),
        FilterClause::InPaymentMethod { values } => (FilterClauseModel::InPaymentMethod {
            values: strings_view(values@),
        }),
        FilterClause::TimeGe { value } => (FilterClauseModel::TimeGe { value }),
        FilterClause::TimeLt { value } => (FilterClauseModel::TimeLt { value }),
    }
}

/// The model of a clause list.
pub open spec fn clauses_model(s: Seq<FilterClause>) -> Seq<FilterClauseModel> {
    s.map(|i: int, c: FilterClause| clause_model(c))
}

/// Appending one clause appends its model.
pub proof fn lemma_clauses_model_push(s: Seq<FilterClause>, c: FilterClause)
    ensures
        clauses_model(s.push(c)) == clauses_model(s).push(clause_model(c)),
{
    assert(clauses_model(s.push(c)) =~= clauses_model(s).push(clause_model(c)));
}

/// The clauses a caller's currency filter contributes: one inclusion
/// clause when the list is non-empty, nothing otherwise. The four spec
/// functions below follow the same rule for the other dimensions.
pub open spec fn currency_filter_models(f: PaymentFilters) -> Seq<FilterClauseModel> {
    if f.currency@.len() > 0 {
        seq![FilterClauseModel::InCurrency { values: f.currency@ }]
    } else {
        Seq::empty()
    }
}

pub open spec fn status_filter_models(f: PaymentFilters) -> Seq<FilterClauseModel> {
    if f.status@.len() > 0 {
        seq![FilterClauseModel::InStatus { values: f.status@ }]
    } else {
        Seq::empty()
    }
}

pub open spec fn connector_filter_models(f: PaymentFilters) -> Seq<FilterClauseModel> {
    if f.connector@.len() > 0 {
        seq![FilterClauseModel::InConnector { values: strings_view(f.connector@) }]
    } else {
        Seq::empty()
    }
}

pub open spec fn auth_type_filter_models(f: PaymentFilters) -> Seq<FilterClauseModel> {
    if f.authentication_type@.len() > 0 {
        seq![FilterClauseModel::InAuthType { values: f.authentication_type@ }]
    } else {
        Seq::empty()
    }
}

pub open spec fn payment_method_filter_models(f: PaymentFilters) -> Seq<FilterClauseModel> {
    if f.payment_method@.len() > 0 {
        seq![FilterClauseModel::InPaymentMethod { values: strings_view(f.payment_method@) }]
    } else {
        Seq::empty()
    }
}

/// Every clause a caller's filter set contributes, in field order.
pub open spec fn caller_filter_models(f: PaymentFilters) -> Seq<FilterClauseModel> {
    currency_filter_models(f) + status_filter_models(f) + connector_filter_models(f)
        + auth_type_filter_models(f) + payment_method_filter_models(f)
}

/// The clauses a time range contributes: at-or-after the start, and
/// strictly-before the end when the range has one.
pub open spec fn time_filter_models(tr: TimeRange) -> Seq<FilterClauseModel> {
    seq![FilterClauseModel::TimeGe { value: tr.start_time }] + match tr.end_time {
        Some(e) => seq![FilterClauseModel::TimeLt { value: e }],
        None => Seq::empty(),
    }
}

impl PaymentFilters {
    /// Append one conjunctive inclusion clause per non-empty dimension
    /// list, in field order. Never fails.
    #[verifier::rlimit(60)]
    pub fn set_filter_clause(&self, builder: &mut QueryBuilder) -> (r: Result<(), QueryBuildingError>)
        ensures
            r is Ok,
            clauses_model(final(builder).filters@) == clauses_model(old(builder).filters@)
                + caller_filter_models(*self),
            final(builder).collection == old(builder).collection,
            final(builder).capabilities == old(builder).capabilities,
            final(builder).select@ == old(builder).select@,
            final(builder).group_by@ == old(builder).group_by@,
    {
        let ghost m0 = clauses_model(old(builder).filters@);
        if self.currency.len() > 0 {
            let ghost before = builder.filters@;
            let clause = FilterClause::InCurrency { values: copy_vec(&self.currency) };
            match builder.add_filter_clause(clause) {
                _ => {},
            }
            proof {
                lemma_clauses_model_push(before, clause);
            }
        }
        proof {
            assert(clauses_model(builder.filters@) =~= m0 + currency_filter_models(*self));
        }
        if self.status.len() > 0 {
            let ghost before = builder.filters@;
            let clause = FilterClause::InStatus { values: copy_vec(&self.status) };
            match builder.add_filter_clause(clause) {
                _ => {},
            }
            proof {
                lemma_clauses_model_push(before, clause);
            }
        }
        proof {
            assert(clauses_model(builder.filters@) =~= m0 + currency_filter_models(*self)
                + status_filter_models(*self));
        }
        if self.connector.len() > 0 {
            let ghost before = builder.filters@;
            let clause = FilterClause::InConnector { values: clone_string_vec(&self.connector) };
            match builder.add_filter_clause(clause) {
                _ => {},
            }
            proof {
                lemma_clauses_model_push(before, clause);
            }
        }
        proof {
            assert(clauses_model(builder.filters@) =~= m0 + currency_filter_models(*self)
                + status_filter_models(*self) + connector_filter_models(*self));
        }
        if self.authentication_type.len() > 0 {
            let ghost before = builder.filters@;
            let clause = FilterClause::InAuthType { values: copy_vec(&self.authentication_type) };
            match builder.add_filter_clause(clause) {
                _ => {},
            }
            proof {
                lemma_clauses_model_push(before, clause);
            }
        }
        proof {
            assert(clauses_model(builder.filters@) =~= m0 + currency_filter_models(*self)
                + status_filter_models(*self) + connector_filter_models(*self)
                + auth_type_filter_models(*self));
        }
        if self.payment_method.len() > 0 {
            let ghost before = builder.filters@;
            let clause = FilterClause::InPaymentMethod {
                values: clone_string_vec(&self.payment_method),
            };
            match builder.add_filter_clause(clause) {
                _ => {},
            }
            proof {
                lemma_clauses_model_push(before, clause);
            }
        }
        proof {
            assert(clauses_model(builder.filters@) =~= m0 + currency_filter_models(*self)
                + status_filter_models(*self) + connector_filter_models(*self)
                + auth_type_filter_models(*self) + payment_method_filter_models(*self));
            assert(clauses_model(builder.filters@) =~= m0 + caller_filter_models(*self));
        }
        Ok(())
    }
}

impl TimeRange {
    /// Restrict the query to records inside the range: at or after the
    /// start, and strictly before the end when the range has one.
    pub fn set_filter_clause(&self, builder: &mut QueryBuilder) -> (r: Result<(), QueryBuildingError>)
        ensures
            r is Ok,
            clauses_model(final(builder).filters@) == clauses_model(old(builder).filters@)
                + time_filter_models(*self),
            final(builder).collection == old(builder).collection,
            final(builder).capabilities == old(builder).capabilities,
            final(builder).select@ == old(builder).select@,
            final(builder).group_by@ == old(builder).group_by@,
    {
        let ghost m0 = clauses_model(old(builder).filters@);
        let ghost before = builder.filters@;
        let start_clause = FilterClause::TimeGe { value: self.start_time };
        match builder.add_filter_clause(start_clause) {
            _ => {},
        }
        proof {
            lemma_clauses_model_push(before, start_clause);
        }
        match self.end_time {
            Some(e) => {
                let ghost mid = builder.filters@;
                let end_clause = FilterClause::TimeLt { value: e };
                match builder.add_filter_clause(end_clause) {
                    _ => {},
                }
                proof {
                    lemma_clauses_model_push(mid, end_clause);
                    assert(clauses_model(builder.filters@) =~= m0 + time_filter_models(*self));
                }
            },
            None => {
                proof {
                    assert(clauses_model(builder.filters@) =~= m0 + time_filter_models(*self));
                }
            },
        }
        Ok(())
    }
}

impl Granularity {
    /// Lay this granularity's time bucket over the grouping; fails when
    /// the backend cannot bucket by time.
    pub fn set_group_by_clause(&self, builder: &mut QueryBuilder) -> (r: Result<(), QueryBuildingError>)
        ensures
            old(builder).capabilities.supports_time_bucket ==> (r is Ok
                && final(builder).group_by@ == old(builder).group_by@.push(
                GroupByClause::TimeBucket(*self),
            )),
            !old(builder).capabilities.supports_time_bucket ==> (r is Err
                && final(builder).group_by@ == old(builder).group_by@),
            final(builder).collection == old(builder).collection,
            final(builder).capabilities == old(builder).capabilities,
            final(builder).select@ == old(builder).select@,
            final(builder).filters@ == old(builder).filters@,
    {
        builder.add_group_by_clause(GroupByClause::TimeBucket(*self))
    }
}

/// Copy a vector of copyable values, contents unchanged.
pub fn copy_vec<T: Copy>(v: &Vec<T>) -> (r: Vec<T>)
    ensures
        r@ == v@,
{
    let mut r: Vec<T> = Vec::new();
    let mut i: usize = 0;
    while i < v.len()
        invariant
            i <= v@.len(),
            r@ == v@.take(i as int),
        decreases v@.len() - i,
    {
        r.push(v[i]);
        proof {
            assert(v@.take(i + 1 as int) =~= v@.take(i as int).push(v@[i as int]));
        }
        i += 1;
    }
    proof {
        assert(v@.take(v@.len() as int) =~= v@);
    }
    r
}

/// Clone a vector of strings, contents unchanged.
pub fn clone_string_vec(v: &Vec<String>) -> (r: Vec<String>)
    ensures
        r@ == v@,
{
    let mut r: Vec<String> = Vec::new();
    let mut i: usize = 0;
    while i < v.len()
        invariant
            i <= v@.len(),
            r@ == v@.take(i as int),
        decreases v@.len() - i,
    {
        r.push(v[i].clone());
        proof {
            assert(v@.take(i + 1 as int) =~= v@.take(i as int).push(v@[i as int]));
        }
        i += 1;
    }
    proof {
        assert(v@.take(v@.len() as int) =~= v@);
    }
    r
}

/// Whether `group_by` holds a dimension clause for `d`.
pub fn contains_dimension_group(group_by: &Vec<GroupByClause>, d: PaymentDimensions) -> (r: bool)
    ensures
        r == group_by@.contains(GroupByClause::Dimension(d)),
{
    let mut i: usize = 0;
    while i < group_by.len()
        invariant
            i <= group_by@.len(),
            forall|k: int| 0 <= k < i ==> group_by@[k] != GroupByClause::Dimension(d),
        decreases group_by@.len() - i,
    {
        if group_by[i] == GroupByClause::Dimension(d) {
            return true;
        }
        i += 1;
    }
    false
}

} // verus!
