//! What the statements mean: a table is a sequence of rows, a listing keeps
//! the rows that pass every predicate and cuts a page out of them, an update
//! leaves alone what its request does not name. The laws of the service are
//! stated and proved over this reading of the statements.

use vstd::prelude::*;
use crate::db::{
    bool_param, lemma_same_forms_push, lemma_where_text, moment_after, offset_of, same_forms,
    Dialect, PredicateView, SqlParam, StatementView, Timestamp,
};
use crate::json::{json_text_of_list, round_trips};
use crate::models::{
    CreateItemRequestView, ItemView, UpdateContainerRequestView, UpdateItemRequestView,
};
use crate::services::container_service::{
    container_assignments, container_predicates, container_search_columns,
    container_sort_column, disposed_param, is_container_sort_column,
};
use crate::services::loan_service::loan_predicates;
use crate::services::item_service::{
    create_item_params, item_of_row, item_predicates, item_search_columns,
    items_count_statement, items_page_statement, update_item_assignments, ItemRowView,
    COUNT_ITEMS, DEFAULT_STORAGE_TYPE, SELECT_ITEMS,
};
use crate::text::{same_ignoring_ascii_case, text_or_empty};

verus! {

/// A row of a table: the value that each column holds.
pub type Row = Map<Seq<char>, SqlParam>;

/// Whether `term` occurs in `text`, whatever the case of its ASCII letters.
pub open spec fn occurs_in(term: Seq<char>, text: Seq<char>) -> bool {
    exists|i: int|
        0 <= i && i + term.len() <= text.len() && same_ignoring_ascii_case(
            #[trigger] text.subrange(i, i + term.len()),
            term,
        )
}

/// Whether a row passes a predicate. A search is read for a term of plain
/// characters; a `%` or `_` in the term stands for other characters in the
/// database, which then finds more than this reading.
pub open spec fn holds(p: PredicateView, row: Row) -> bool {
    match p {
        PredicateView::Equals { column, value } => row.dom().contains(column) && row[column]
            == value,
        PredicateView::Search { columns, term } => exists|i: int|
            0 <= i < columns.len() && row.dom().contains(#[trigger] columns[i]) && occurs_in(
                term,
                text_or_empty(text_column(row[columns[i]])),
            ) && text_column(row[columns[i]]) is Some,
        PredicateView::Flag { column, value } => row.dom().contains(column) && (row[column]
            == SqlParam::Bool(value) || row[column] == SqlParam::Int32(
            if value {
                1i32
            } else {
                0i32
            },
        )),
        PredicateView::IsNull { column } => !row.dom().contains(column) || row[column] is Null,
        PredicateView::IsNotNull { column } => row.dom().contains(column) && !(row[column] is Null),
    }
}

/// Whether a row passes all the predicates, as the `WHERE` clause asks that
/// joins them by `AND`.
pub open spec fn passes(predicates: Seq<PredicateView>, row: Row) -> bool {
    forall|i: int| 0 <= i < predicates.len() ==> holds(#[trigger] predicates[i], row)
}

/// The rows of a table that pass all the predicates.
pub open spec fn selection(table: Seq<Row>, predicates: Seq<PredicateView>) -> Set<Row> {
    Set::new(|row: Row| table.contains(row) && passes(predicates, row))
}

/// A row passes a list of predicates with one more at its end exactly when
/// it passes the list and the one more.
pub proof fn lemma_passes_push(predicates: Seq<PredicateView>, p: PredicateView, row: Row)
    ensures
        passes(predicates.push(p), row) == (passes(predicates, row) && holds(p, row)),
{
    let longer = predicates.push(p);
    if passes(longer, row) {
        assert forall|i: int| 0 <= i < predicates.len() implies holds(
            #[trigger] predicates[i],
            row,
        ) by {
            assert(longer[i] == predicates[i]);
        }
        assert(longer[predicates.len() as int] == p);
    }
    if passes(predicates, row) && holds(p, row) {
        assert forall|i: int| 0 <= i < longer.len() implies holds(#[trigger] longer[i], row) by {
            if i < predicates.len() {
                assert(longer[i] == predicates[i]);
            }
        }
    }
}

/// The filters of a listing of items. A filter that is absent lets every
/// row pass.
pub struct ItemFilter {
    pub search: Option<Seq<char>>,
    pub is_on_loan: Option<bool>,
    pub is_disposed: Option<bool>,
    pub container_id: Option<Seq<char>>,
    pub storage_type: Option<Seq<char>>,
}

/// The one of two values that is present; the first where both are.
pub open spec fn either<T>(a: Option<T>, b: Option<T>) -> Option<T> {
    match a {
        Some(_) => a,
        None => b,
    }
}

/// Whether two values that may be absent do not contradict each other.
pub open spec fn agree<T>(a: Option<T>, b: Option<T>) -> bool {
    a is None || b is None || a == b
}

impl ItemFilter {
    /// The predicates that stand for this filter.
    pub open spec fn predicates(self, dialect: Dialect) -> Seq<PredicateView> {
        item_predicates(
            dialect,
            self.search,
            self.is_on_loan,
            self.is_disposed,
            self.container_id,
            self.storage_type,
        )
    }

    /// Whether no part of this filter contradicts the same part of `other`.
    pub open spec fn agrees_with(self, other: ItemFilter) -> bool {
        &&& agree(self.search, other.search)
        &&& agree(self.is_on_loan, other.is_on_loan)
        &&& agree(self.is_disposed, other.is_disposed)
        &&& agree(self.container_id, other.container_id)
        &&& agree(self.storage_type, other.storage_type)
    }

    /// The filter that applies the parts of both filters.
    pub open spec fn and(self, other: ItemFilter) -> ItemFilter {
        ItemFilter {
            search: either(self.search, other.search),
            is_on_loan: either(self.is_on_loan, other.is_on_loan),
            is_disposed: either(self.is_disposed, other.is_disposed),
            container_id: either(self.container_id, other.container_id),
            storage_type: either(self.storage_type, other.storage_type),
        }
    }

    /// Whether a row passes each part of this filter that is present.
    pub open spec fn admits(self, dialect: Dialect, row: Row) -> bool {
        &&& self.search matches Some(term) ==> holds(
            PredicateView::Search { columns: item_search_columns(), term },
            row,
        )
        &&& self.is_on_loan matches Some(b) ==> holds(
            PredicateView::Equals { column: "is_on_loan"@, value: bool_param(dialect, b) },
            row,
        )
        &&& self.is_disposed matches Some(b) ==> holds(
            PredicateView::Equals { column: "is_disposed"@, value: bool_param(dialect, b) },
            row,
        )
        &&& self.container_id matches Some(c) ==> holds(
            PredicateView::Equals { column: "container_id"@, value: SqlParam::Text(c) },
            row,
        )
        &&& self.storage_type matches Some(t) ==> holds(
            PredicateView::Equals { column: "storage_type"@, value: SqlParam::Text(t) },
            row,
        )
    }
}

/// A row passes the predicates of a filter exactly when it passes each part
/// of the filter that is present.
pub proof fn lemma_filter_admits(filter: ItemFilter, dialect: Dialect, row: Row)
    ensures
        passes(filter.predicates(dialect), row) == filter.admits(dialect, row),
{
    let p0 = Seq::<PredicateView>::empty();
    let s = PredicateView::Search {
        columns: item_search_columns(),
        term: filter.search.unwrap(),
    };
    let l = PredicateView::Equals {
        column: "is_on_loan"@,
        value: bool_param(dialect, filter.is_on_loan.unwrap()),
    };
    let d = PredicateView::Equals {
        column: "is_disposed"@,
        value: bool_param(dialect, filter.is_disposed.unwrap()),
    };
    let c = PredicateView::Equals {
        column: "container_id"@,
        value: SqlParam::Text(filter.container_id.unwrap()),
    };
    let t = PredicateView::Equals {
        column: "storage_type"@,
        value: SqlParam::Text(filter.storage_type.unwrap()),
    };
    let p1 = if filter.search is Some { p0.push(s) } else { p0 };
    let p2 = if filter.is_on_loan is Some { p1.push(l) } else { p1 };
    let p3 = if filter.is_disposed is Some { p2.push(d) } else { p2 };
    let p4 = if filter.container_id is Some { p3.push(c) } else { p3 };
    let p5 = if filter.storage_type is Some { p4.push(t) } else { p4 };
    assert(passes(p0, row));
    lemma_passes_push(p0, s, row);
    lemma_passes_push(p1, l, row);
    lemma_passes_push(p2, d, row);
    lemma_passes_push(p3, c, row);
    lemma_passes_push(p4, t, row);
    assert(filter.predicates(dialect) == p5);
}

/// Filters conjoin: a listing under two filters at once returns exactly the
/// rows that the listing under the one and the listing under the other both
/// return.
pub proof fn lemma_filters_conjoin(
    table: Seq<Row>,
    dialect: Dialect,
    a: ItemFilter,
    b: ItemFilter,
)
    requires
        a.agrees_with(b),
    ensures
        selection(table, a.and(b).predicates(dialect)) == selection(
            table,
            a.predicates(dialect),
        ).intersect(selection(table, b.predicates(dialect))),
{
    let both = selection(table, a.and(b).predicates(dialect));
    let each = selection(table, a.predicates(dialect)).intersect(
        selection(table, b.predicates(dialect)),
    );
    assert forall|row: Row| both.contains(row) == each.contains(row) by {
        lemma_filter_admits(a, dialect, row);
        lemma_filter_admits(b, dialect, row);
        lemma_filter_admits(a.and(b), dialect, row);
    }
    assert(both =~= each);
}

/// The filters of a listing of containers. Containers that are disposed of
/// are left out unless they are asked for.
pub struct ContainerFilter {
    pub location: Option<Seq<char>>,
    pub include_disposed: bool,
    pub search: Option<Seq<char>>,
}

impl ContainerFilter {
    /// The predicates that stand for this filter.
    pub open spec fn predicates(self) -> Seq<PredicateView> {
        container_predicates(self.location, self.include_disposed, self.search)
    }

    /// Whether no part of this filter contradicts the same part of `other`.
    pub open spec fn agrees_with(self, other: ContainerFilter) -> bool {
        agree(self.location, other.location) && agree(self.search, other.search)
    }

    /// The filter that applies the parts of both filters: it leaves the
    /// disposed containers out where one of the two does.
    pub open spec fn and(self, other: ContainerFilter) -> ContainerFilter {
        ContainerFilter {
            location: either(self.location, other.location),
            include_disposed: self.include_disposed && other.include_disposed,
            search: either(self.search, other.search),
        }
    }

    /// Whether a row passes each part of this filter that is present.
    pub open spec fn admits(self, row: Row) -> bool {
        &&& !self.include_disposed ==> holds(
            PredicateView::Flag { column: "c.is_disposed"@, value: false },
            row,
        )
        &&& self.location matches Some(l) ==> holds(
            PredicateView::Equals { column: "c.location"@, value: SqlParam::Text(l) },
            row,
        )
        &&& self.search matches Some(term) ==> holds(
            PredicateView::Search { columns: container_search_columns(), term },
            row,
        )
    }
}

/// A row passes the predicates of a filter of containers exactly when it
/// passes each part of the filter that is present.
pub proof fn lemma_container_filter_admits(filter: ContainerFilter, row: Row)
    ensures
        passes(filter.predicates(), row) == filter.admits(row),
{
    let p0 = Seq::<PredicateView>::empty();
    let d = PredicateView::Flag { column: "c.is_disposed"@, value: false };
    let l = PredicateView::Equals {
        column: "c.location"@,
        value: SqlParam::Text(filter.location.unwrap()),
    };
    let s = PredicateView::Search {
        columns: container_search_columns(),
        term: filter.search.unwrap(),
    };
    let p1 = if filter.include_disposed { p0 } else { p0.push(d) };
    let p2 = if filter.location is Some { p1.push(l) } else { p1 };
    let p3 = if filter.search is Some { p2.push(s) } else { p2 };
    assert(passes(p0, row));
    lemma_passes_push(p0, d, row);
    lemma_passes_push(p1, l, row);
    lemma_passes_push(p2, s, row);
    assert(filter.predicates() == p3);
}

/// Filters of containers conjoin: a listing under two filters at once
/// returns exactly the rows that the listing under the one and the listing
/// under the other both return.
pub proof fn lemma_container_filters_conjoin(
    table: Seq<Row>,
    a: ContainerFilter,
    b: ContainerFilter,
)
    requires
        a.agrees_with(b),
    ensures
        selection(table, a.and(b).predicates()) == selection(table, a.predicates()).intersect(
            selection(table, b.predicates()),
        ),
{
    let both = selection(table, a.and(b).predicates());
    let each = selection(table, a.predicates()).intersect(selection(table, b.predicates()));
    assert forall|row: Row| both.contains(row) == each.contains(row) by {
        lemma_container_filter_admits(a, row);
        lemma_container_filter_admits(b, row);
        lemma_container_filter_admits(a.and(b), row);
    }
    assert(both =~= each);
}

/// The filters of a listing of loans. `active_only` keeps the open loans
/// when it is true and the closed ones when it is false.
pub struct LoanFilter {
    pub item_id: Option<i64>,
    pub student_number: Option<Seq<char>>,
    pub active_only: Option<bool>,
}

impl LoanFilter {
    /// The predicates that stand for this filter.
    pub open spec fn predicates(self) -> Seq<PredicateView> {
        loan_predicates(self.item_id, self.student_number, self.active_only)
    }

    /// Whether no part of this filter contradicts the same part of `other`.
    pub open spec fn agrees_with(self, other: LoanFilter) -> bool {
        &&& agree(self.item_id, other.item_id)
        &&& agree(self.student_number, other.student_number)
        &&& agree(self.active_only, other.active_only)
    }

    /// The filter that applies the parts of both filters.
    pub open spec fn and(self, other: LoanFilter) -> LoanFilter {
        LoanFilter {
            item_id: either(self.item_id, other.item_id),
            student_number: either(self.student_number, other.student_number),
            active_only: either(self.active_only, other.active_only),
        }
    }

    /// Whether a row passes each part of this filter that is present.
    pub open spec fn admits(self, row: Row) -> bool {
        &&& self.item_id matches Some(id) ==> holds(
            PredicateView::Equals { column: "l.item_id"@, value: SqlParam::Int64(id) },
            row,
        )
        &&& self.student_number matches Some(n) ==> holds(
            PredicateView::Equals { column: "l.student_number"@, value: SqlParam::Text(n) },
            row,
        )
        &&& self.active_only == Some(true) ==> holds(
            PredicateView::IsNull { column: "l.return_date"@ },
            row,
        )
        &&& self.active_only == Some(false) ==> holds(
            PredicateView::IsNotNull { column: "l.return_date"@ },
            row,
        )
    }
}

/// A row passes the predicates of a filter of loans exactly when it passes
/// each part of the filter that is present.
pub proof fn lemma_loan_filter_admits(filter: LoanFilter, row: Row)
    ensures
        passes(filter.predicates(), row) == filter.admits(row),
{
    let p0 = Seq::<PredicateView>::empty();
    let i = PredicateView::Equals {
        column: "l.item_id"@,
        value: SqlParam::Int64(filter.item_id.unwrap()),
    };
    let n = PredicateView::Equals {
        column: "l.student_number"@,
        value: SqlParam::Text(filter.student_number.unwrap()),
    };
    let open = PredicateView::IsNull { column: "l.return_date"@ };
    let closed = PredicateView::IsNotNull { column: "l.return_date"@ };
    let p1 = if filter.item_id is Some { p0.push(i) } else { p0 };
    let p2 = if filter.student_number is Some { p1.push(n) } else { p1 };
    assert(passes(p0, row));
    lemma_passes_push(p0, i, row);
    lemma_passes_push(p1, n, row);
    lemma_passes_push(p2, open, row);
    lemma_passes_push(p2, closed, row);
}

/// Filters of loans conjoin: a listing under two filters at once returns
/// exactly the rows that the listing under the one and the listing under
/// the other both return.
pub proof fn lemma_loan_filters_conjoin(table: Seq<Row>, a: LoanFilter, b: LoanFilter)
    requires
        a.agrees_with(b),
    ensures
        selection(table, a.and(b).predicates()) == selection(table, a.predicates()).intersect(
            selection(table, b.predicates()),
        ),
{
    let both = selection(table, a.and(b).predicates());
    let each = selection(table, a.predicates()).intersect(selection(table, b.predicates()));
    assert forall|row: Row| both.contains(row) == each.contains(row) by {
        lemma_loan_filter_admits(a, row);
        lemma_loan_filter_admits(b, row);
        lemma_loan_filter_admits(a.and(b), row);
    }
    assert(both =~= each);
}

/// A value as SQLite holds it: a truth value becomes the integer one or
/// zero, every other value stays as it is.
pub open spec fn as_sqlite(value: SqlParam) -> SqlParam {
    match value {
        SqlParam::Bool(b) => SqlParam::Int32(if b { 1i32 } else { 0i32 }),
        other => other,
    }
}

/// A row as SQLite holds it.
pub open spec fn row_as_sqlite(row: Row) -> Row {
    row.map_values(|value: SqlParam| as_sqlite(value))
}

/// Whether a column of a row holds a truth value or nothing, as a column of
/// truth values does in Postgres.
pub open spec fn holds_flag(row: Row, column: Seq<char>) -> bool {
    row.dom().contains(column) ==> row[column] is Bool || row[column] is Null
}

/// The two dialects select alike: a row of Postgres passes the predicates
/// that a filter gives for Postgres exactly when the same row, as SQLite
/// holds it, passes the predicates that the filter gives for SQLite.
pub proof fn lemma_dialects_select_alike(filter: ItemFilter, row: Row)
    requires
        holds_flag(row, "is_on_loan"@),
        holds_flag(row, "is_disposed"@),
    ensures
        passes(filter.predicates(Dialect::Postgres), row) == passes(
            filter.predicates(Dialect::Sqlite),
            row_as_sqlite(row),
        ),
{
    let lite = row_as_sqlite(row);
    lemma_filter_admits(filter, Dialect::Postgres, row);
    lemma_filter_admits(filter, Dialect::Sqlite, lite);
    assert(lite.dom() =~= row.dom());
    assert forall|column: Seq<char>| row.dom().contains(column) implies #[trigger] lite[column]
        == as_sqlite(row[column]) by {}
    if filter.search is Some {
        let columns = item_search_columns();
        let term = filter.search.unwrap();
        let p = PredicateView::Search { columns, term };
        assert forall|i: int| 0 <= i < columns.len() && row.dom().contains(columns[i])
            implies text_column(lite[#[trigger] columns[i]]) == text_column(row[columns[i]]) by {}
        if holds(p, row) {
            let i = choose|i: int|
                0 <= i < columns.len() && row.dom().contains(#[trigger] columns[i]) && occurs_in(
                    term,
                    text_or_empty(text_column(row[columns[i]])),
                ) && text_column(row[columns[i]]) is Some;
            assert(lite.dom().contains(columns[i]));
            assert(holds(p, lite));
        }
        if holds(p, lite) {
            let i = choose|i: int|
                0 <= i < columns.len() && lite.dom().contains(#[trigger] columns[i]) && occurs_in(
                    term,
                    text_or_empty(text_column(lite[columns[i]])),
                ) && text_column(lite[columns[i]]) is Some;
            assert(row.dom().contains(columns[i]));
            assert(holds(p, row));
        }
    }
}

/// Whatever key a listing of containers is asked to sort by, the column
/// that it sorts by is one of the fixed list.
pub proof fn lemma_sort_column_is_listed(sort_by: Seq<char>)
    ensures
        is_container_sort_column(container_sort_column(sort_by)),
{
}

impl ItemFilter {
    /// Whether this filter and `other` apply the same parts, whatever the
    /// values that they ask for.
    pub open spec fn same_parts(self, other: ItemFilter) -> bool {
        &&& self.search is Some <==> other.search is Some
        &&& self.is_on_loan is Some <==> other.is_on_loan is Some
        &&& self.is_disposed is Some <==> other.is_disposed is Some
        &&& self.container_id is Some <==> other.container_id is Some
        &&& self.storage_type is Some <==> other.storage_type is Some
    }
}

/// No value reaches the text of a listing: two listings of items that apply
/// the same filters have the same text, whatever the search term, the
/// states, the container, the storage type and the page that they ask for.
/// What differs between them is bound to placeholders.
pub proof fn lemma_listing_text_ignores_values(
    dialect: Dialect,
    a: ItemFilter,
    b: ItemFilter,
    page_a: u32,
    per_page_a: u32,
    page_b: u32,
    per_page_b: u32,
)
    requires
        a.same_parts(b),
    ensures
        items_page_statement(dialect, a.predicates(dialect), page_a, per_page_a).sql
            == items_page_statement(dialect, b.predicates(dialect), page_b, per_page_b).sql,
        items_count_statement(dialect, a.predicates(dialect)).sql == items_count_statement(
            dialect,
            b.predicates(dialect),
        ).sql,
{
    let columns = item_search_columns();
    let a0 = Seq::<PredicateView>::empty();
    let b0 = Seq::<PredicateView>::empty();
    assert(same_forms(a0, b0));
    let sa = PredicateView::Search { columns, term: a.search.unwrap() };
    let sb = PredicateView::Search { columns, term: b.search.unwrap() };
    let a1 = if a.search is Some { a0.push(sa) } else { a0 };
    let b1 = if b.search is Some { b0.push(sb) } else { b0 };
    if a.search is Some {
        lemma_same_forms_push(a0, b0, sa, sb);
    }
    let la = PredicateView::Equals {
        column: "is_on_loan"@,
        value: bool_param(dialect, a.is_on_loan.unwrap()),
    };
    let lb = PredicateView::Equals {
        column: "is_on_loan"@,
        value: bool_param(dialect, b.is_on_loan.unwrap()),
    };
    let a2 = if a.is_on_loan is Some { a1.push(la) } else { a1 };
    let b2 = if b.is_on_loan is Some { b1.push(lb) } else { b1 };
    if a.is_on_loan is Some {
        lemma_same_forms_push(a1, b1, la, lb);
    }
    let da = PredicateView::Equals {
        column: "is_disposed"@,
        value: bool_param(dialect, a.is_disposed.unwrap()),
    };
    let db = PredicateView::Equals {
        column: "is_disposed"@,
        value: bool_param(dialect, b.is_disposed.unwrap()),
    };
    let a3 = if a.is_disposed is Some { a2.push(da) } else { a2 };
    let b3 = if b.is_disposed is Some { b2.push(db) } else { b2 };
    if a.is_disposed is Some {
        lemma_same_forms_push(a2, b2, da, db);
    }
    let ca = PredicateView::Equals {
        column: "container_id"@,
        value: SqlParam::Text(a.container_id.unwrap()),
    };
    let cb = PredicateView::Equals {
        column: "container_id"@,
        value: SqlParam::Text(b.container_id.unwrap()),
    };
    let a4 = if a.container_id is Some { a3.push(ca) } else { a3 };
    let b4 = if b.container_id is Some { b3.push(cb) } else { b3 };
    if a.container_id is Some {
        lemma_same_forms_push(a3, b3, ca, cb);
    }
    let ta = PredicateView::Equals {
        column: "storage_type"@,
        value: SqlParam::Text(a.storage_type.unwrap()),
    };
    let tb = PredicateView::Equals {
        column: "storage_type"@,
        value: SqlParam::Text(b.storage_type.unwrap()),
    };
    let a5 = if a.storage_type is Some { a4.push(ta) } else { a4 };
    let b5 = if b.storage_type is Some { b4.push(tb) } else { b4 };
    if a.storage_type is Some {
        lemma_same_forms_push(a4, b4, ta, tb);
    }
    assert(a.predicates(dialect) == a5);
    assert(b.predicates(dialect) == b5);
    let head = StatementView::empty().text(SELECT_ITEMS@);
    lemma_where_text(head, head, dialect, a5, b5);
    let count = StatementView::empty().text(COUNT_ITEMS@);
    lemma_where_text(count, count, dialect, a5, b5);
}

/// The rows of a page: what `LIMIT` and `OFFSET` keep of the rows in their
/// order.
pub open spec fn page_of<T>(rows: Seq<T>, page: u32, per_page: u32) -> Seq<T> {
    let start = if offset_of(page, per_page) <= rows.len() {
        offset_of(page, per_page)
    } else {
        rows.len() as int
    };
    let end = if start + per_page <= rows.len() {
        start + per_page
    } else {
        rows.len() as int
    };
    rows.subrange(start, end)
}

/// The first `count` pages, one after the other.
pub open spec fn pages_up_to<T>(rows: Seq<T>, per_page: u32, count: nat) -> Seq<T>
    decreases count,
{
    if count == 0 {
        Seq::empty()
    } else {
        pages_up_to(rows, per_page, (count - 1) as nat) + page_of(rows, count as u32, per_page)
    }
}

/// The first pages of a listing, one after the other, are the first rows of
/// the listing in their order.
pub proof fn lemma_pages_are_a_prefix<T>(rows: Seq<T>, per_page: u32, count: nat, pages: nat)
    requires
        per_page >= 1,
        pages <= u32::MAX,
        rows.len() == pages * per_page,
        count <= pages,
    ensures
        count * per_page <= rows.len(),
        pages_up_to(rows, per_page, count) == rows.subrange(0, count * per_page),
    decreases count,
{
    assert(count * per_page <= pages * per_page) by (nonlinear_arith)
        requires
            count <= pages,
            per_page >= 1,
    ;
    if count == 0 {
        assert(count * per_page == 0) by (nonlinear_arith)
            requires
                count == 0,
        ;
        assert(pages_up_to(rows, per_page, count) =~= rows.subrange(0, 0));
    } else {
        let before = (count - 1) as nat;
        lemma_pages_are_a_prefix(rows, per_page, before, pages);
        let start = before * per_page;
        let end = count * per_page;
        assert(start + per_page == end) by (nonlinear_arith)
            requires
                start == before * per_page,
                end == count * per_page,
                before == count - 1,
        ;
        assert(offset_of(count as u32, per_page) == start);
        assert(page_of(rows, count as u32, per_page) == rows.subrange(start as int, end as int));
        assert(pages_up_to(rows, per_page, count) == pages_up_to(rows, per_page, before) + page_of(
            rows,
            count as u32,
            per_page,
        ));
        assert(rows.subrange(0, start as int) + rows.subrange(start as int, end as int)
            =~= rows.subrange(0, end as int));
    }
}

/// Pages tile a listing: where the rows fill a whole number of pages, the
/// pages one after the other are the rows, each row once and in the order
/// of the listing.
pub proof fn lemma_pages_tile<T>(rows: Seq<T>, per_page: u32, pages: nat)
    requires
        per_page >= 1,
        pages <= u32::MAX,
        rows.len() == pages * per_page,
    ensures
        pages_up_to(rows, per_page, pages) == rows,
{
    lemma_pages_are_a_prefix(rows, per_page, pages, pages);
    assert(rows.subrange(0, rows.len() as int) =~= rows);
}

/// Pages hold every row once: where no row stands twice in a listing, as
/// when its order ends in a key that tells all rows apart, no row stands
/// twice in the pages laid one after the other, and the rows in the pages
/// are the rows of the listing.
pub proof fn lemma_pages_hold_each_row_once<T>(rows: Seq<T>, per_page: u32, pages: nat)
    requires
        per_page >= 1,
        pages <= u32::MAX,
        rows.len() == pages * per_page,
        rows.no_duplicates(),
    ensures
        pages_up_to(rows, per_page, pages).no_duplicates(),
        pages_up_to(rows, per_page, pages).len() == rows.len(),
        pages_up_to(rows, per_page, pages).to_set() == rows.to_set(),
{
    lemma_pages_tile(rows, per_page, pages);
}

/// Pages keep the order of a listing: where each row of the listing stands
/// rightly before every later one, as the `ORDER BY` of the statement asks,
/// so does each row of the pages laid one after the other, across the
/// borders of the pages too.
pub proof fn lemma_pages_keep_order<T>(
    rows: Seq<T>,
    per_page: u32,
    pages: nat,
    in_order: spec_fn(T, T) -> bool,
)
    requires
        per_page >= 1,
        pages <= u32::MAX,
        rows.len() == pages * per_page,
        forall|i: int, j: int| 0 <= i < j < rows.len() ==> in_order(rows[i], rows[j]),
    ensures
        forall|i: int, j: int|
            0 <= i < j < pages_up_to(rows, per_page, pages).len() ==> in_order(
                #[trigger] pages_up_to(rows, per_page, pages)[i],
                #[trigger] pages_up_to(rows, per_page, pages)[j],
            ),
{
    lemma_pages_tile(rows, per_page, pages);
}

/// What a column holds after `column = COALESCE(bound, column)`: the bound
/// value, or what it held where the bound value is null.
pub open spec fn coalesce(bound: SqlParam, held: SqlParam) -> SqlParam {
    if bound is Null {
        held
    } else {
        bound
    }
}

/// The field of an entity after a change: the value of the request, or the
/// value that the entity had where the request leaves the field out.
pub open spec fn changed<T>(requested: Option<T>, held: T) -> T {
    match requested {
        Some(v) => v,
        None => held,
    }
}

/// An item after a change that was written under the moment `written`. The
/// number of the item, its loan state and the moment of its creation are
/// not touched by a change, whatever the request says of the loan state.
pub open spec fn item_after_update(
    item: ItemView,
    request: UpdateItemRequestView,
    written: Timestamp,
) -> ItemView {
    ItemView {
        id: item.id,
        name: changed(request.name, item.name),
        label_id: changed(request.label_id, item.label_id),
        model_number: either(request.model_number, item.model_number),
        remarks: either(request.remarks, item.remarks),
        purchase_year: either(request.purchase_year, item.purchase_year),
        purchase_amount: either(request.purchase_amount, item.purchase_amount),
        durability_years: either(request.durability_years, item.durability_years),
        is_depreciation_target: either(
            request.is_depreciation_target,
            item.is_depreciation_target,
        ),
        connection_names: either(request.connection_names, item.connection_names),
        cable_color_pattern: either(request.cable_color_pattern, item.cable_color_pattern),
        storage_location: either(request.storage_location, item.storage_location),
        container_id: either(request.container_id, item.container_id),
        storage_type: changed(request.storage_type, item.storage_type),
        is_on_loan: item.is_on_loan,
        qr_code_type: either(request.qr_code_type, item.qr_code_type),
        is_disposed: either(request.is_disposed, item.is_disposed),
        image_url: either(request.image_url, item.image_url),
        created_at: item.created_at,
        updated_at: written,
    }
}

/// The request that names no field. The service refuses it; a request that
/// names one field is this request with that field set.
pub open spec fn no_change() -> UpdateItemRequestView {
    UpdateItemRequestView {
        name: None,
        label_id: None,
        model_number: None,
        remarks: None,
        purchase_year: None,
        purchase_amount: None,
        durability_years: None,
        is_depreciation_target: None,
        connection_names: None,
        cable_color_pattern: None,
        storage_location: None,
        container_id: None,
        storage_type: None,
        is_on_loan: None,
        qr_code_type: None,
        is_disposed: None,
        image_url: None,
    }
}

/// The statement that changes an item binds null for exactly the fields
/// that the request leaves out, so each of their columns keeps what it
/// holds, whatever that is; for a field that the request names it binds the
/// value of the request, which the column then takes.
pub proof fn lemma_update_binds_null_for_absent_fields(
    request: UpdateItemRequestView,
    held: SqlParam,
)
    ensures
        ({
            let a = update_item_assignments(request);
            &&& a.len() == 16
            &&& request.name is None ==> coalesce(a[0].value, held) == held
            &&& request.label_id is None ==> coalesce(a[1].value, held) == held
            &&& request.model_number is None ==> coalesce(a[2].value, held) == held
            &&& request.remarks is None ==> coalesce(a[3].value, held) == held
            &&& request.purchase_year is None ==> coalesce(a[4].value, held) == held
            &&& request.purchase_amount is None ==> coalesce(a[5].value, held) == held
            &&& request.durability_years is None ==> coalesce(a[6].value, held) == held
            &&& request.is_depreciation_target is None ==> coalesce(a[7].value, held) == held
            &&& request.connection_names is None ==> coalesce(a[8].value, held) == held
            &&& request.cable_color_pattern is None ==> coalesce(a[9].value, held) == held
            &&& request.storage_location is None ==> coalesce(a[10].value, held) == held
            &&& request.container_id is None ==> coalesce(a[11].value, held) == held
            &&& request.storage_type is None ==> coalesce(a[12].value, held) == held
            &&& request.qr_code_type is None ==> coalesce(a[13].value, held) == held
            &&& request.image_url is None ==> coalesce(a[14].value, held) == held
            &&& request.is_disposed is None ==> coalesce(a[15].value, held) == held
            &&& request.name matches Some(v) ==> coalesce(a[0].value, held) == SqlParam::Text(v)
            &&& request.label_id matches Some(v) ==> coalesce(a[1].value, held)
                == SqlParam::Text(v)
            &&& request.model_number matches Some(v) ==> coalesce(a[2].value, held)
                == SqlParam::Text(v)
            &&& request.remarks matches Some(v) ==> coalesce(a[3].value, held)
                == SqlParam::Text(v)
            &&& request.purchase_year matches Some(v) ==> coalesce(a[4].value, held)
                == SqlParam::Int32(v)
            &&& request.purchase_amount matches Some(v) ==> coalesce(a[5].value, held)
                == SqlParam::Real(v)
            &&& request.durability_years matches Some(v) ==> coalesce(a[6].value, held)
                == SqlParam::Int32(v)
            &&& request.is_depreciation_target matches Some(v) ==> coalesce(a[7].value, held)
                == SqlParam::Bool(v)
            &&& request.connection_names matches Some(v) ==> coalesce(a[8].value, held)
                == SqlParam::Text(json_text_of_list(v))
            &&& request.cable_color_pattern matches Some(v) ==> coalesce(a[9].value, held)
                == SqlParam::Text(json_text_of_list(v))
            &&& request.storage_location matches Some(v) ==> coalesce(a[10].value, held)
                == SqlParam::Text(v)
            &&& request.container_id matches Some(v) ==> coalesce(a[11].value, held)
                == SqlParam::Text(v)
            &&& request.storage_type matches Some(v) ==> coalesce(a[12].value, held)
                == SqlParam::Text(v)
            &&& request.qr_code_type matches Some(v) ==> coalesce(a[13].value, held)
                == SqlParam::Text(v)
            &&& request.image_url matches Some(v) ==> coalesce(a[14].value, held)
                == SqlParam::Text(v)
            &&& request.is_disposed matches Some(v) ==> coalesce(a[15].value, held)
                == SqlParam::Bool(v)
        }),
{
}

/// A change touches only what it names: a request that names one field
/// gives an item that differs from the one before in that field and in the
/// moment of its last change, and in nothing else.
pub proof fn lemma_update_changes_only_named_fields(
    item: ItemView,
    name: Seq<char>,
    remarks: Seq<char>,
    is_disposed: bool,
    written: Timestamp,
)
    ensures
        item_after_update(
            item,
            UpdateItemRequestView { name: Some(name), ..no_change() },
            written,
        ) == (ItemView { name: name, updated_at: written, ..item }),
        item_after_update(
            item,
            UpdateItemRequestView { remarks: Some(remarks), ..no_change() },
            written,
        ) == (ItemView { remarks: Some(remarks), updated_at: written, ..item }),
        item_after_update(
            item,
            UpdateItemRequestView { is_disposed: Some(is_disposed), ..no_change() },
            written,
        ) == (ItemView { is_disposed: Some(is_disposed), updated_at: written, ..item }),
{
}

/// Each field of a changed item is the field of the request where the
/// request names it, and the field of the item before where it does not;
/// the loan state is the one before in either case. The moment of the last
/// change moves on, whatever the clock says: the change is written under a
/// moment that lies strictly after the one stored.
pub proof fn lemma_update_field_by_field(
    item: ItemView,
    request: UpdateItemRequestView,
    now: Timestamp,
)
    ensures
        moment_after(item.updated_at, now) matches Some(written) ==> ({
            let after = item_after_update(item, request, written);
            &&& item.updated_at.before(after.updated_at)
            &&& item.updated_at.before(now) ==> after.updated_at == now
            &&& after.id == item.id
            &&& after.created_at == item.created_at
            &&& after.is_on_loan == item.is_on_loan
            &&& request.name is None ==> after.name == item.name
            &&& request.label_id is None ==> after.label_id == item.label_id
            &&& request.model_number is None ==> after.model_number == item.model_number
            &&& request.remarks is None ==> after.remarks == item.remarks
            &&& request.purchase_year is None ==> after.purchase_year == item.purchase_year
            &&& request.purchase_amount is None ==> after.purchase_amount == item.purchase_amount
            &&& request.durability_years is None ==> after.durability_years
                == item.durability_years
            &&& request.is_depreciation_target is None ==> after.is_depreciation_target
                == item.is_depreciation_target
            &&& request.connection_names is None ==> after.connection_names
                == item.connection_names
            &&& request.cable_color_pattern is None ==> after.cable_color_pattern
                == item.cable_color_pattern
            &&& request.storage_location is None ==> after.storage_location
                == item.storage_location
            &&& request.container_id is None ==> after.container_id == item.container_id
            &&& request.storage_type is None ==> after.storage_type == item.storage_type
            &&& request.qr_code_type is None ==> after.qr_code_type == item.qr_code_type
            &&& request.image_url is None ==> after.image_url == item.image_url
            &&& request.is_disposed is None ==> after.is_disposed == item.is_disposed
            &&& request.name matches Some(v) ==> after.name == v
            &&& request.label_id matches Some(v) ==> after.label_id == v
            &&& request.model_number is Some ==> after.model_number == request.model_number
            &&& request.remarks is Some ==> after.remarks == request.remarks
            &&& request.purchase_year is Some ==> after.purchase_year == request.purchase_year
            &&& request.purchase_amount is Some ==> after.purchase_amount
                == request.purchase_amount
            &&& request.durability_years is Some ==> after.durability_years
                == request.durability_years
            &&& request.is_depreciation_target is Some ==> after.is_depreciation_target
                == request.is_depreciation_target
            &&& request.connection_names is Some ==> after.connection_names
                == request.connection_names
            &&& request.cable_color_pattern is Some ==> after.cable_color_pattern
                == request.cable_color_pattern
            &&& request.storage_location is Some ==> after.storage_location
                == request.storage_location
            &&& request.container_id is Some ==> after.container_id == request.container_id
            &&& request.storage_type matches Some(v) ==> after.storage_type == v
            &&& request.qr_code_type is Some ==> after.qr_code_type == request.qr_code_type
            &&& request.image_url is Some ==> after.image_url == request.image_url
            &&& request.is_disposed is Some ==> after.is_disposed == request.is_disposed
        }),
        moment_after(item.updated_at, now) is None ==> item.updated_at.secs == i64::MAX,
{
}

/// The statement that changes a container sets a column only where the
/// request names the field: it sets as many columns as the request names
/// fields, and none where the request names none.
pub proof fn lemma_container_update_sets_named_fields(
    dialect: Dialect,
    request: UpdateContainerRequestView,
)
    ensures
        container_assignments(dialect, request).len() == (if request.name is Some {
            1int
        } else {
            0int
        }) + (if request.description is Some {
            1int
        } else {
            0int
        }) + (if request.location is Some {
            1int
        } else {
            0int
        }) + (if request.image_url is Some {
            1int
        } else {
            0int
        }) + (if request.is_disposed is Some {
            1int
        } else {
            0int
        }),
        request.is_empty() <==> container_assignments(dialect, request).len() == 0,
        forall|i: int|
            0 <= i < container_assignments(dialect, request).len() ==> {
                let a = #[trigger] container_assignments(dialect, request)[i];
                ||| (a.column == "name"@ && request.name == Some(a.value->Text_0))
                ||| (a.column == "description"@ && request.description == Some(a.value->Text_0))
                ||| (a.column == "location"@ && request.location == Some(a.value->Text_0))
                ||| (a.column == "image_url"@ && request.image_url == Some(a.value->Text_0))
                ||| (a.column == "is_disposed"@ && request.is_disposed is Some && a.value
                    == disposed_param(dialect, request.is_disposed->0))
            },
{
}

/// The text that a column holds after a text or null was bound for it.
pub open spec fn text_column(bound: SqlParam) -> Option<Seq<char>> {
    match bound {
        SqlParam::Text(s) => Some(s),
        _ => None,
    }
}

/// The number that a column holds after a number or null was bound for it.
pub open spec fn int_column(bound: SqlParam) -> Option<i32> {
    match bound {
        SqlParam::Int32(n) => Some(n),
        _ => None,
    }
}

/// The amount that a column holds after an amount or null was bound for it.
pub open spec fn real_column(bound: SqlParam) -> Option<u32> {
    match bound {
        SqlParam::Real(bits) => Some(bits),
        _ => None,
    }
}

/// The truth value that a column holds after a truth value or null was
/// bound for it.
pub open spec fn flag_column(bound: SqlParam) -> Option<bool> {
    match bound {
        SqlParam::Bool(b) => Some(b),
        _ => None,
    }
}

/// The row that the insertion of an item leaves behind: each column holds
/// the value that was bound for it. The number of the row, its loan and
/// disposal state and its two moments are given by the database.
pub open spec fn inserted_item_row(
    bound: Seq<SqlParam>,
    id: i64,
    is_on_loan: Option<bool>,
    is_disposed: Option<bool>,
    created_at: Timestamp,
) -> ItemRowView {
    ItemRowView {
        id,
        name: text_or_empty(text_column(bound[0])),
        label_id: text_or_empty(text_column(bound[1])),
        model_number: text_column(bound[2]),
        remarks: text_column(bound[3]),
        purchase_year: int_column(bound[4]),
        purchase_amount: real_column(bound[5]),
        durability_years: int_column(bound[6]),
        is_depreciation_target: flag_column(bound[7]),
        connection_names: text_column(bound[8]),
        cable_color_pattern: text_column(bound[9]),
        storage_location: text_column(bound[10]),
        container_id: text_column(bound[11]),
        storage_type: text_column(bound[12]),
        is_on_loan,
        qr_code_type: text_column(bound[13]),
        is_disposed,
        image_url: text_column(bound[14]),
        created_at,
        updated_at: created_at,
    }
}

/// Whether a list that may be absent comes back unchanged when its JSON
/// text is decoded.
pub open spec fn comes_back(list: Option<Seq<Seq<char>>>) -> bool {
    match list {
        Some(l) => round_trips(l),
        None => true,
    }
}

/// What is created reads back: the item decoded from the row that an
/// insertion leaves behind has the fields of the request where the request
/// gives them, is no depreciation target and is stored by location where the
/// request leaves that open, and lacks what the request lacks. The two lists
/// are taken to come back unchanged from their JSON text.
pub proof fn lemma_created_item_reads_back(
    request: CreateItemRequestView,
    id: i64,
    is_on_loan: Option<bool>,
    is_disposed: Option<bool>,
    created_at: Timestamp,
)
    requires
        comes_back(request.connection_names),
        comes_back(request.cable_color_pattern),
    ensures
        ({
            let item = item_of_row(
                inserted_item_row(
                    create_item_params(request),
                    id,
                    is_on_loan,
                    is_disposed,
                    created_at,
                ),
            );
            &&& item.id == id
            &&& item.name == request.name
            &&& item.label_id == request.label_id
            &&& item.model_number == request.model_number
            &&& item.remarks == request.remarks
            &&& item.purchase_year == request.purchase_year
            &&& item.purchase_amount == request.purchase_amount
            &&& item.durability_years == request.durability_years
            &&& item.is_depreciation_target == Some(request.is_depreciation_target == Some(true))
            &&& item.connection_names == request.connection_names
            &&& item.cable_color_pattern == request.cable_color_pattern
            &&& item.storage_location == request.storage_location
            &&& item.container_id == request.container_id
            &&& item.storage_type == changed(request.storage_type, DEFAULT_STORAGE_TYPE@)
            &&& item.qr_code_type == request.qr_code_type
            &&& item.image_url == request.image_url
            &&& item.created_at == created_at
            &&& item.updated_at == created_at
        }),
{
}

} // verus!
