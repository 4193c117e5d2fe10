//! Items: the statements that read and write them, the decoding of their
//! rows, and the allocation of labels.

use vstd::prelude::*;
use vstd::string::StringExecFns;
use crate::db::{
    advance, assignments_of, bool_literal, bool_param, flag_param, int32_param, moment_after,
    offset_of, page_offset,
    params_of, predicates_of, push_assignment, push_predicate, push_value, real_param,
    text_param, Assignment, AssignmentView, DatabasePool, Dialect, ListQuery, Predicate,
    PredicateView, QueryWriter, SqlParam, SqlType, SqlValue, Statement, StatementView,
    Timestamp,
};
use crate::error::{fails_with, AppError, AppResult, ErrorKind};
use crate::handlers::labels::{LabelInfo, LabelInfoView};
use crate::json::{
    decode_string_list, encode_string_list, list_of_column, list_text, read_list_column,
};
use crate::models::{
    items_of, CreateItemRequest, CreateItemRequestView, Item, ItemView, ItemsListResponse,
    UpdateItemRequest, UpdateItemRequestView,
};
use crate::services::label_allocator::{
    label_text, labels_from, lemma_label_round_trip, parse_label, render_label, LabelCounter,
    MAX_LABEL_VALUE,
};
use crate::text::{
    ascending, insert_ascending, opt_text, opt_texts, sentence_with_id, signed_decimal, texts,
};

verus! {

/// The start of every statement that reads items: the columns, in the order
/// in which a row is decoded.
pub const SELECT_ITEMS: &'static str =
    "SELECT id, name, label_id, model_number, remarks, purchase_year, purchase_amount, durability_years, is_depreciation_target, connection_names, cable_color_pattern, storage_location, container_id, storage_type, is_on_loan, qr_code_type, is_disposed, image_url, created_at, updated_at FROM items";

/// The start of the statement that counts items.
pub const COUNT_ITEMS: &'static str = "SELECT COUNT(*) as count FROM items";

/// The storage type of an item whose row names none.
pub const DEFAULT_STORAGE_TYPE: &'static str = "location";

/// A row of the table of items as the driver hands it over, before the
/// columns of JSON text are decoded.
#[derive(Debug)]
pub struct ItemRow {
    pub id: i64,
    pub name: String,
    pub label_id: String,
    pub model_number: Option<String>,
    pub remarks: Option<String>,
    pub purchase_year: Option<i32>,
    /// IEEE 754 bit pattern of the single-precision amount.
    pub purchase_amount: Option<u32>,
    pub durability_years: Option<i32>,
    pub is_depreciation_target: Option<bool>,
    /// JSON text of an array of strings.
    pub connection_names: Option<String>,
    /// JSON text of an array of strings.
    pub cable_color_pattern: Option<String>,
    pub storage_location: Option<String>,
    pub container_id: Option<String>,
    pub storage_type: Option<String>,
    pub is_on_loan: Option<bool>,
    pub qr_code_type: Option<String>,
    pub is_disposed: Option<bool>,
    pub image_url: Option<String>,
    pub created_at: Timestamp,
    pub updated_at: Timestamp,
}

/// The mathematical value of an [`ItemRow`].
pub struct ItemRowView {
    pub id: i64,
    pub name: Seq<char>,
    pub label_id: Seq<char>,
    pub model_number: Option<Seq<char>>,
    pub remarks: Option<Seq<char>>,
    pub purchase_year: Option<i32>,
    pub purchase_amount: Option<u32>,
    pub durability_years: Option<i32>,
    pub is_depreciation_target: Option<bool>,
    pub connection_names: Option<Seq<char>>,
    pub cable_color_pattern: Option<Seq<char>>,
    pub storage_location: Option<Seq<char>>,
    pub container_id: Option<Seq<char>>,
    pub storage_type: Option<Seq<char>>,
    pub is_on_loan: Option<bool>,
    pub qr_code_type: Option<Seq<char>>,
    pub is_disposed: Option<bool>,
    pub image_url: Option<Seq<char>>,
    pub created_at: Timestamp,
    pub updated_at: Timestamp,
}

impl View for ItemRow {
    type V = ItemRowView;

    open spec fn view(&self) -> ItemRowView {
        ItemRowView {
            id: self.id,
            name: self.name@,
            label_id: self.label_id@,
            model_number: opt_text(self.model_number),
            remarks: opt_text(self.remarks),
            purchase_year: self.purchase_year,
            purchase_amount: self.purchase_amount,
            durability_years: self.durability_years,
            is_depreciation_target: self.is_depreciation_target,
            connection_names: opt_text(self.connection_names),
            cable_color_pattern: opt_text(self.cable_color_pattern),
            storage_location: opt_text(self.storage_location),
            container_id: opt_text(self.container_id),
            storage_type: opt_text(self.storage_type),
            is_on_loan: self.is_on_loan,
            qr_code_type: opt_text(self.qr_code_type),
            is_disposed: self.is_disposed,
            image_url: opt_text(self.image_url),
            created_at: self.created_at,
            updated_at: self.updated_at,
        }
    }
}

/// The mathematical values of a list of rows.
pub open spec fn item_rows_of(list: Seq<ItemRow>) -> Seq<ItemRowView> {
    Seq::new(list.len(), |i: int| list[i]@)
}

/// The item that a row stands for: the two lists are decoded from their
/// JSON text, a list whose text does not decode is absent, and a row
/// without storage type is stored by location. Every other field is taken
/// over as it is.
pub open spec fn item_of_row(row: ItemRowView) -> ItemView {
    ItemView {
        id: row.id,
        name: row.name,
        label_id: row.label_id,
        model_number: row.model_number,
        remarks: row.remarks,
        purchase_year: row.purchase_year,
        purchase_amount: row.purchase_amount,
        durability_years: row.durability_years,
        is_depreciation_target: row.is_depreciation_target,
        connection_names: list_of_column(row.connection_names),
        cable_color_pattern: list_of_column(row.cable_color_pattern),
        storage_location: row.storage_location,
        container_id: row.container_id,
        storage_type: match row.storage_type {
            Some(t) => t,
            None => DEFAULT_STORAGE_TYPE@,
        },
        is_on_loan: row.is_on_loan,
        qr_code_type: row.qr_code_type,
        is_disposed: row.is_disposed,
        image_url: row.image_url,
        created_at: row.created_at,
        updated_at: row.updated_at,
    }
}

/// The items that the first `count` rows stand for.
pub open spec fn items_of_rows(rows: Seq<ItemRowView>) -> Seq<ItemView> {
    Seq::new(rows.len(), |i: int| item_of_row(rows[i]))
}

/// The columns in which a search term is looked for.
pub open spec fn item_search_columns() -> Seq<Seq<char>> {
    seq!["name"@, "label_id"@, "model_number"@, "remarks"@]
}

/// The predicates of a listing of items, one for each filter that is
/// present, in a fixed order: search, loan state, disposal state, container,
/// storage type.
pub open spec fn item_predicates(
    dialect: Dialect,
    search: Option<Seq<char>>,
    is_on_loan: Option<bool>,
    is_disposed: Option<bool>,
    container_id: Option<Seq<char>>,
    storage_type: Option<Seq<char>>,
) -> Seq<PredicateView> {
    let p0 = Seq::<PredicateView>::empty();
    let p1 = match search {
        Some(term) => p0.push(PredicateView::Search { columns: item_search_columns(), term }),
        None => p0,
    };
    let p2 = match is_on_loan {
        Some(b) => p1.push(
            PredicateView::Equals { column: "is_on_loan"@, value: bool_param(dialect, b) },
        ),
        None => p1,
    };
    let p3 = match is_disposed {
        Some(b) => p2.push(
            PredicateView::Equals { column: "is_disposed"@, value: bool_param(dialect, b) },
        ),
        None => p2,
    };
    let p4 = match container_id {
        Some(c) => p3.push(
            PredicateView::Equals { column: "container_id"@, value: SqlParam::Text(c) },
        ),
        None => p3,
    };
    match storage_type {
        Some(t) => p4.push(
            PredicateView::Equals { column: "storage_type"@, value: SqlParam::Text(t) },
        ),
        None => p4,
    }
}

/// The statement that fetches one page of the items that pass the
/// predicates, newest first. Items created at one moment are ordered by
/// their numbers, so that the order is the same in every page.
pub open spec fn items_page_statement(
    dialect: Dialect,
    predicates: Seq<PredicateView>,
    page: u32,
    per_page: u32,
) -> StatementView {
    StatementView::empty().text(SELECT_ITEMS@).where_all(dialect, predicates).text(
        " ORDER BY created_at DESC, id DESC LIMIT "@,
    ).bind(dialect, SqlParam::Int64(per_page as i64)).text(" OFFSET "@).bind(
        dialect,
        SqlParam::Int64(offset_of(page, per_page) as i64),
    )
}

/// The statement that counts the items that pass the predicates.
pub open spec fn items_count_statement(
    dialect: Dialect,
    predicates: Seq<PredicateView>,
) -> StatementView {
    StatementView::empty().text(COUNT_ITEMS@).where_all(dialect, predicates)
}

/// The statement that reads the item with the given number.
pub open spec fn item_by_id_statement(dialect: Dialect, id: i64) -> StatementView {
    StatementView::empty().text(SELECT_ITEMS@).text(" WHERE id = "@).bind(
        dialect,
        SqlParam::Int64(id),
    )
}

/// The statement that reads the item with the given label.
pub open spec fn item_by_label_statement(dialect: Dialect, label_id: Seq<char>) -> StatementView {
    StatementView::empty().text(SELECT_ITEMS@).text(" WHERE label_id = "@).bind(
        dialect,
        SqlParam::Text(label_id),
    )
}

/// The start of the statement that inserts an item.
pub const INSERT_ITEM: &'static str =
    "INSERT INTO items (name, label_id, model_number, remarks, purchase_year, purchase_amount, durability_years, is_depreciation_target, connection_names, cable_color_pattern, storage_location, container_id, storage_type, qr_code_type, image_url) VALUES (";

/// What is bound for a list: null for no list, else the JSON text of the
/// list.
pub open spec fn list_param(list: Option<Seq<Seq<char>>>) -> SqlParam {
    text_param(list_text(list))
}

/// The values that the insertion of an item binds, in the order of the
/// columns. An item is no depreciation target and is stored by location
/// unless the request says otherwise.
pub open spec fn create_item_params(request: CreateItemRequestView) -> Seq<SqlParam> {
    seq![
        SqlParam::Text(request.name),
        SqlParam::Text(request.label_id),
        text_param(request.model_number),
        text_param(request.remarks),
        int32_param(request.purchase_year),
        real_param(request.purchase_amount),
        int32_param(request.durability_years),
        SqlParam::Bool(request.is_depreciation_target == Some(true)),
        list_param(request.connection_names),
        list_param(request.cable_color_pattern),
        text_param(request.storage_location),
        text_param(request.container_id),
        SqlParam::Text(
            match request.storage_type {
                Some(t) => t,
                None => DEFAULT_STORAGE_TYPE@,
            },
        ),
        text_param(request.qr_code_type),
        text_param(request.image_url),
    ]
}

/// The statement that inserts an item. For Postgres it hands back the number
/// of the new item; SQLite reports that number by itself.
pub open spec fn insert_item_statement(
    dialect: Dialect,
    request: CreateItemRequestView,
) -> StatementView {
    let inserted = StatementView::empty().text(INSERT_ITEM@).bind_list(
        dialect,
        create_item_params(request),
        15,
    ).text(")"@);
    match dialect {
        Dialect::Postgres => inserted.text(" RETURNING id"@),
        Dialect::Sqlite => inserted,
    }
}

/// The columns that a change of an item writes, each with the value bound
/// for it: the value of the request, or null where the request leaves the
/// field out, so that the column keeps what it holds. The loan state is no
/// such column: it changes with the loans alone.
pub open spec fn update_item_assignments(request: UpdateItemRequestView) -> Seq<AssignmentView> {
    seq![
        AssignmentView { column: "name"@, value: text_param(request.name) },
        AssignmentView { column: "label_id"@, value: text_param(request.label_id) },
        AssignmentView { column: "model_number"@, value: text_param(request.model_number) },
        AssignmentView { column: "remarks"@, value: text_param(request.remarks) },
        AssignmentView { column: "purchase_year"@, value: int32_param(request.purchase_year) },
        AssignmentView { column: "purchase_amount"@, value: real_param(request.purchase_amount) },
        AssignmentView {
            column: "durability_years"@,
            value: int32_param(request.durability_years),
        },
        AssignmentView {
            column: "is_depreciation_target"@,
            value: flag_param(request.is_depreciation_target),
        },
        AssignmentView { column: "connection_names"@, value: list_param(request.connection_names) },
        AssignmentView {
            column: "cable_color_pattern"@,
            value: list_param(request.cable_color_pattern),
        },
        AssignmentView { column: "storage_location"@, value: text_param(request.storage_location) },
        AssignmentView { column: "container_id"@, value: text_param(request.container_id) },
        AssignmentView { column: "storage_type"@, value: text_param(request.storage_type) },
        AssignmentView { column: "qr_code_type"@, value: text_param(request.qr_code_type) },
        AssignmentView { column: "image_url"@, value: text_param(request.image_url) },
        AssignmentView { column: "is_disposed"@, value: flag_param(request.is_disposed) },
    ]
}

/// The statement that changes the item with the given number: each column
/// takes the value of the request or keeps its own, and the moment of the
/// change is written as `now`.
pub open spec fn update_item_statement(
    dialect: Dialect,
    id: i64,
    request: UpdateItemRequestView,
    now: Timestamp,
) -> StatementView {
    StatementView::empty().text("UPDATE items SET "@).coalesce_each(
        dialect,
        update_item_assignments(request),
        16,
    ).text(", updated_at = "@).bind(dialect, SqlParam::Timestamp(now)).text(" WHERE id = "@).bind(
        dialect,
        SqlParam::Int64(id),
    )
}

/// The statement that counts the open loans of an item.
pub open spec fn active_loans_statement(dialect: Dialect, id: i64) -> StatementView {
    StatementView::empty().text("SELECT COUNT(*) as count FROM loans WHERE item_id = "@).bind(
        dialect,
        SqlParam::Int64(id),
    ).text(" AND return_date IS NULL"@)
}

/// The statement that removes the item with the given number.
pub open spec fn delete_item_statement(dialect: Dialect, id: i64) -> StatementView {
    StatementView::empty().text("DELETE FROM items WHERE id = "@).bind(dialect, SqlParam::Int64(id))
}

/// The statement that sets the disposal state of the item with the given
/// number and writes the moment of the change.
pub open spec fn set_disposed_statement(
    dialect: Dialect,
    id: i64,
    disposed: bool,
    now: Timestamp,
) -> StatementView {
    StatementView::empty().text("UPDATE items SET is_disposed = "@).text(
        bool_literal(dialect, disposed),
    ).text(", updated_at = "@).bind(dialect, SqlParam::Timestamp(now)).text(" WHERE id = "@).bind(
        dialect,
        SqlParam::Int64(id),
    )
}

/// The failure to find the item with the given number.
pub open spec fn item_not_found<T>(r: AppResult<T>, id: i64) -> bool {
    fails_with(
        r,
        ErrorKind::NotFound,
        "Item with id "@ + signed_decimal(id as int) + " not found"@,
    )
}

/// The statement that reads the counter of the labels, without its lock.
pub const SELECT_LABEL_COUNTER: &'static str =
    "SELECT current_value FROM label_counter WHERE id = 1";

/// The statement that reads the counter of the labels inside the
/// transaction that allocates. For Postgres it locks the row of the counter
/// until the transaction ends, so that no second allocation reads the same
/// value; SQLite lets one transaction write at a time.
pub open spec fn read_counter_statement(dialect: Dialect) -> StatementView {
    match dialect {
        Dialect::Postgres => StatementView::empty().text(SELECT_LABEL_COUNTER@).text(
            " FOR UPDATE"@,
        ),
        Dialect::Sqlite => StatementView::empty().text(SELECT_LABEL_COUNTER@),
    }
}

/// The statement that writes the counter of the labels.
pub open spec fn write_counter_statement(dialect: Dialect, value: i64) -> StatementView {
    StatementView::empty().text("UPDATE label_counter SET current_value = "@).bind(
        dialect,
        SqlParam::Int64(value),
    ).text(" WHERE id = 1"@)
}

/// The labels that were allocated and the statement that records them in
/// the counter.
#[derive(Debug)]
pub struct LabelAllocation {
    pub label_ids: Vec<String>,
    pub update: Statement,
}

/// A label that an item carries, beside the name of the item.
#[derive(Debug, Clone)]
pub struct UsedLabel {
    pub label_id: String,
    pub name: String,
}

/// The name of the item that carries the label `code`, going by the first
/// `count` rows: the name in the last of them that holds the label, or
/// `None` where none of them holds it.
pub open spec fn holder_of(rows: Seq<UsedLabel>, count: nat, code: Seq<char>) -> Option<Seq<char>>
    decreases count,
{
    if count == 0 {
        None
    } else if rows[count - 1].label_id@ == code {
        Some(rows[count - 1].name@)
    } else {
        holder_of(rows, (count - 1) as nat, code)
    }
}

/// What is known of the label with the value `value`, going by the rows:
/// its text, whether an item carries it, and the name of that item.
pub open spec fn label_info(rows: Seq<UsedLabel>, value: int) -> LabelInfoView {
    let holder = holder_of(rows, rows.len(), label_text(value));
    LabelInfoView { id: label_text(value), used: holder is Some, item_name: holder }
}

/// The texts that the first `count` rows of suggestions contribute: each row
/// that holds JSON text of a list of strings contributes the strings of the
/// list; a row that is empty or does not decode contributes nothing.
pub open spec fn connection_names_in(rows: Seq<Option<String>>, count: nat) -> Set<Seq<char>>
    decreases count,
{
    if count == 0 {
        Set::empty()
    } else {
        let before = connection_names_in(rows, (count - 1) as nat);
        match list_of_column(opt_text(rows[count - 1])) {
            Some(names) => before.union(names.to_set()),
            None => before,
        }
    }
}

/// The texts that the first `count` rows hold; a row that is empty holds
/// none.
pub open spec fn texts_in(rows: Seq<Option<String>>, count: nat) -> Set<Seq<char>>
    decreases count,
{
    if count == 0 {
        Set::empty()
    } else {
        let before = texts_in(rows, (count - 1) as nat);
        match rows[count - 1] {
            Some(s) => before.insert(s@),
            None => before,
        }
    }
}

/// The operations on items, for the dialect of one database.
#[derive(Debug, Clone)]
pub struct ItemService {
    db: DatabasePool,
}

impl ItemService {
    /// The dialect that the statements are written for.
    pub closed spec fn dialect(&self) -> Dialect {
        self.db.spec_dialect()
    }

    /// The operations on items of the given database.
    pub fn new(db: DatabasePool) -> (s: ItemService)
        ensures
            s.dialect() == db.spec_dialect(),
    {
        ItemService { db }
    }

    /// Decodes a row into an item.
    pub fn row_to_item(&self, row: ItemRow) -> (item: Item)
        ensures
            item@ == item_of_row(row@),
    {
        let connection_names = read_list_column(&row.connection_names);
        let cable_color_pattern = read_list_column(&row.cable_color_pattern);
        let storage_type = match row.storage_type {
            Some(t) => t,
            None => String::from_str(DEFAULT_STORAGE_TYPE),
        };
        Item {
            id: row.id,
            name: row.name,
            label_id: row.label_id,
            model_number: row.model_number,
            remarks: row.remarks,
            purchase_year: row.purchase_year,
            purchase_amount: row.purchase_amount,
            durability_years: row.durability_years,
            is_depreciation_target: row.is_depreciation_target,
            connection_names,
            cable_color_pattern,
            storage_location: row.storage_location,
            container_id: row.container_id,
            storage_type,
            is_on_loan: row.is_on_loan,
            qr_code_type: row.qr_code_type,
            is_disposed: row.is_disposed,
            image_url: row.image_url,
            created_at: row.created_at,
            updated_at: row.updated_at,
        }
    }

    /// The two statements that list items: the rows of page `page`, newest
    /// first, and the number of all items that pass the filters. A filter
    /// that is absent is not applied. The search term is looked for in the
    /// name, the label, the model number and the remarks, whatever its case.
    /// Every value that the caller supplies is bound to a placeholder.
    pub fn list_items(
        &self,
        page: u32,
        per_page: u32,
        search: Option<String>,
        is_on_loan: Option<bool>,
        is_disposed: Option<bool>,
        container_id: Option<String>,
        storage_type: Option<String>,
    ) -> (q: ListQuery)
        requires
            page >= 1,
            per_page >= 1,
            offset_of(page, per_page) <= i64::MAX,
        ensures
            q.rows@ == items_page_statement(
                self.dialect(),
                item_predicates(
                    self.dialect(),
                    opt_text(search),
                    is_on_loan,
                    is_disposed,
                    opt_text(container_id),
                    opt_text(storage_type),
                ),
                page,
                per_page,
            ),
            q.count@ == items_count_statement(
                self.dialect(),
                item_predicates(
                    self.dialect(),
                    opt_text(search),
                    is_on_loan,
                    is_disposed,
                    opt_text(container_id),
                    opt_text(storage_type),
                ),
            ),
    {
        let dialect = self.db.dialect();
        let offset: i64 = page_offset(page, per_page);
        let limit: i64 = per_page as i64;
        let mut predicates: Vec<Predicate> = Vec::new();
        proof {
            assert(predicates_of(predicates@) =~= Seq::<PredicateView>::empty());
        }
        if let Some(term) = search {
            let columns: Vec<&'static str> = vec!["name", "label_id", "model_number", "remarks"];
            proof {
                assert(crate::db::names(columns@) =~= item_search_columns());
            }
            push_predicate(&mut predicates, Predicate::Search { columns, term });
        }
        if let Some(b) = is_on_loan {
            push_predicate(
                &mut predicates,
                Predicate::Equals { column: "is_on_loan", value: SqlValue::flag(dialect, b) },
            );
        }
        if let Some(b) = is_disposed {
            push_predicate(
                &mut predicates,
                Predicate::Equals { column: "is_disposed", value: SqlValue::flag(dialect, b) },
            );
        }
        if let Some(c) = container_id {
            push_predicate(
                &mut predicates,
                Predicate::Equals { column: "container_id", value: SqlValue::Text(c) },
            );
        }
        if let Some(t) = storage_type {
            push_predicate(
                &mut predicates,
                Predicate::Equals { column: "storage_type", value: SqlValue::Text(t) },
            );
        }
        let mut rows = QueryWriter::new(dialect);
        rows.text(SELECT_ITEMS);
        rows.where_all(&predicates);
        rows.text(" ORDER BY created_at DESC, id DESC LIMIT ");
        rows.bind(SqlValue::Int64(limit));
        rows.text(" OFFSET ");
        rows.bind(SqlValue::Int64(offset));
        let mut count = QueryWriter::new(dialect);
        count.text(COUNT_ITEMS);
        count.where_all(&predicates);
        ListQuery { rows: rows.finish(), count: count.finish() }
    }

    /// The answer to a listing: the items that the fetched rows stand for, in
    /// the order in which they were fetched, beside the count and the page
    /// that was asked for.
    pub fn list_items_response(
        &self,
        rows: Vec<ItemRow>,
        total: i64,
        page: u32,
        per_page: u32,
    ) -> (r: ItemsListResponse)
        ensures
            items_of(r.items@) == items_of_rows(item_rows_of(rows@)),
            r.total == total,
            r.page == page,
            r.per_page == per_page,
    {
        let mut rows = rows;
        let ghost all = item_rows_of(rows@);
        let mut reversed: Vec<Item> = Vec::new();
        while rows.len() > 0
            invariant
                rows@.len() + reversed@.len() == all.len(),
                item_rows_of(rows@) == all.take(rows@.len() as int),
                forall|j: int|
                    0 <= j < reversed@.len() ==> (#[trigger] reversed@[j])@ == item_of_row(
                        all[all.len() - 1 - j],
                    ),
            decreases rows@.len(),
        {
            let ghost before = rows@;
            let row = rows.pop().unwrap();
            proof {
                assert(item_rows_of(before)[before.len() - 1] == row@);
                assert(item_rows_of(rows@) =~= all.take(rows@.len() as int));
            }
            reversed.push(self.row_to_item(row));
        }
        let mut items: Vec<Item> = Vec::new();
        while reversed.len() > 0
            invariant
                items@.len() + reversed@.len() == all.len(),
                forall|j: int|
                    0 <= j < reversed@.len() ==> (#[trigger] reversed@[j])@ == item_of_row(
                        all[all.len() - 1 - j],
                    ),
                forall|j: int|
                    0 <= j < items@.len() ==> (#[trigger] items@[j])@ == item_of_row(all[j]),
            decreases reversed@.len(),
        {
            let item = reversed.pop().unwrap();
            items.push(item);
        }
        proof {
            assert(items_of(items@) =~= items_of_rows(all));
        }
        ItemsListResponse { items, total, page, per_page }
    }

    /// The statement that inserts an item. The two lists are bound as JSON
    /// text.
    pub fn create_item(&self, req: &CreateItemRequest) -> (s: Statement)
        ensures
            s@ == insert_item_statement(self.dialect(), req@),
    {
        let dialect = self.db.dialect();
        let mut values: Vec<SqlValue> = Vec::new();
        proof {
            assert(params_of(values@) =~= Seq::<SqlParam>::empty());
        }
        push_value(&mut values, SqlValue::Text(req.name.clone()));
        push_value(&mut values, SqlValue::Text(req.label_id.clone()));
        push_value(&mut values, SqlValue::opt_text(&req.model_number));
        push_value(&mut values, SqlValue::opt_text(&req.remarks));
        push_value(&mut values, SqlValue::opt_int32(req.purchase_year));
        push_value(&mut values, SqlValue::opt_real(req.purchase_amount));
        push_value(&mut values, SqlValue::opt_int32(req.durability_years));
        let is_depreciation_target = match req.is_depreciation_target {
            Some(b) => b,
            None => false,
        };
        push_value(&mut values, SqlValue::Bool(is_depreciation_target));
        push_value(&mut values, Self::list_value(&req.connection_names));
        push_value(&mut values, Self::list_value(&req.cable_color_pattern));
        push_value(&mut values, SqlValue::opt_text(&req.storage_location));
        push_value(&mut values, SqlValue::opt_text(&req.container_id));
        let storage_type = match &req.storage_type {
            Some(t) => t.clone(),
            None => String::from_str(DEFAULT_STORAGE_TYPE),
        };
        push_value(&mut values, SqlValue::Text(storage_type));
        push_value(&mut values, SqlValue::opt_text(&req.qr_code_type));
        push_value(&mut values, SqlValue::opt_text(&req.image_url));
        proof {
            assert(params_of(values@) =~= create_item_params(req@));
        }
        let mut w = QueryWriter::new(dialect);
        w.text(INSERT_ITEM);
        w.bind_list(&values);
        w.text(")");
        match dialect {
            Dialect::Postgres => w.text(" RETURNING id"),
            Dialect::Sqlite => {},
        }
        w.finish()
    }

    fn list_value(list: &Option<Vec<String>>) -> (v: SqlValue)
        ensures
            v@ == list_param(opt_texts(*list)),
    {
        match list {
            None => SqlValue::Null(SqlType::Text),
            Some(l) => match encode_string_list(l) {
                Ok(text) => SqlValue::Text(text),
                Err(_) => SqlValue::Text(String::new()),
            },
        }
    }

    /// The statement that reads the item with the given number.
    pub fn get_item(&self, id: i64) -> (s: Statement)
        ensures
            s@ == item_by_id_statement(self.dialect(), id),
    {
        let mut w = QueryWriter::new(self.db.dialect());
        w.text(SELECT_ITEMS);
        w.text(" WHERE id = ");
        w.bind(SqlValue::Int64(id));
        w.finish()
    }

    /// The item that was read under its number, or the failure to find it.
    pub fn get_item_result(&self, id: i64, row: Option<ItemRow>) -> (r: AppResult<Item>)
        ensures
            match row {
                Some(found) => r matches Ok(item) && item@ == item_of_row(found@),
                None => item_not_found(r, id),
            },
    {
        match row {
            Some(found) => Ok(self.row_to_item(found)),
            None => Err(AppError::NotFound(sentence_with_id("Item with id ", id, " not found"))),
        }
    }

    /// The statement that reads the item with the given label.
    pub fn get_item_by_label(&self, label_id: &str) -> (s: Statement)
        ensures
            s@ == item_by_label_statement(self.dialect(), label_id@),
    {
        let mut w = QueryWriter::new(self.db.dialect());
        w.text(SELECT_ITEMS);
        w.text(" WHERE label_id = ");
        w.bind(SqlValue::text(label_id));
        w.finish()
    }

    /// The item that was read under its label, or the failure to find it.
    pub fn get_item_by_label_result(&self, label_id: &str, row: Option<ItemRow>) -> (r: AppResult<
        Item,
    >)
        ensures
            match row {
                Some(found) => r matches Ok(item) && item@ == item_of_row(found@),
                None => fails_with(
                    r,
                    ErrorKind::NotFound,
                    "Item with label_id "@ + label_id@ + " not found"@,
                ),
            },
    {
        match row {
            Some(found) => Ok(self.row_to_item(found)),
            None => {
                let mut m = String::from_str("Item with label_id ");
                m.append(label_id);
                m.append(" not found");
                Err(AppError::NotFound(m))
            },
        }
    }

    /// The first step of changing an item: the statement that reads it, to
    /// learn whether it exists.
    pub fn update_item(&self, id: i64) -> (s: Statement)
        ensures
            s@ == item_by_id_statement(self.dialect(), id),
    {
        self.get_item(id)
    }

    /// The second step of changing an item, once it has been read. The change
    /// is refused where the item does not exist, and where the request names
    /// nothing that a change writes, in this order. Else the result is the
    /// statement that writes the fields that the request names and leaves
    /// the others as they are. The loan state is never written, whatever the
    /// request says of it: only lending and returning change it. The moment
    /// of the change is written as the present moment, or one step after the
    /// moment of the last change where the clock has not moved on since, so
    /// that it always moves on.
    pub fn update_item_checked(
        &self,
        id: i64,
        req: &UpdateItemRequest,
        existing: &Option<ItemRow>,
        now: Timestamp,
    ) -> (r: AppResult<Statement>)
        ensures
            match *existing {
                None => item_not_found(r, id),
                Some(row) => if req@.writes_nothing() {
                    fails_with(r, ErrorKind::BadRequest, "No fields to update"@)
                } else {
                    match moment_after(row.updated_at, now) {
                        Some(written) => r matches Ok(s) && s@ == update_item_statement(
                            self.dialect(),
                            id,
                            req@,
                            written,
                        ),
                        None => fails_with(
                            r,
                            ErrorKind::InternalServerError,
                            "updated_at cannot advance"@,
                        ),
                    }
                },
            },
    {
        let stored = match existing {
            Some(row) => row.updated_at,
            None => {
                return Err(
                    AppError::NotFound(sentence_with_id("Item with id ", id, " not found")),
                );
            },
        };
        if req.writes_nothing() {
            return Err(AppError::BadRequest(String::from_str("No fields to update")));
        }
        let written = match advance(stored, now) {
            Some(written) => written,
            None => {
                return Err(
                    AppError::InternalServerError(String::from_str("updated_at cannot advance")),
                );
            },
        };
        let mut updates: Vec<Assignment> = Vec::new();
        proof {
            assert(assignments_of(updates@) =~= Seq::<AssignmentView>::empty());
        }
        push_assignment(&mut updates, "name", SqlValue::opt_text(&req.name));
        push_assignment(&mut updates, "label_id", SqlValue::opt_text(&req.label_id));
        push_assignment(&mut updates, "model_number", SqlValue::opt_text(&req.model_number));
        push_assignment(&mut updates, "remarks", SqlValue::opt_text(&req.remarks));
        push_assignment(&mut updates, "purchase_year", SqlValue::opt_int32(req.purchase_year));
        push_assignment(&mut updates, "purchase_amount", SqlValue::opt_real(req.purchase_amount));
        push_assignment(&mut updates, "durability_years", SqlValue::opt_int32(req.durability_years));
        push_assignment(
            &mut updates,
            "is_depreciation_target",
            SqlValue::opt_flag(req.is_depreciation_target),
        );
        push_assignment(&mut updates, "connection_names", Self::list_value(&req.connection_names));
        push_assignment(
            &mut updates,
            "cable_color_pattern",
            Self::list_value(&req.cable_color_pattern),
        );
        push_assignment(&mut updates, "storage_location", SqlValue::opt_text(&req.storage_location));
        push_assignment(&mut updates, "container_id", SqlValue::opt_text(&req.container_id));
        push_assignment(&mut updates, "storage_type", SqlValue::opt_text(&req.storage_type));
        push_assignment(&mut updates, "qr_code_type", SqlValue::opt_text(&req.qr_code_type));
        push_assignment(&mut updates, "image_url", SqlValue::opt_text(&req.image_url));
        push_assignment(&mut updates, "is_disposed", SqlValue::opt_flag(req.is_disposed));
        proof {
            assert(assignments_of(updates@) =~= update_item_assignments(req@));
        }
        let mut w = QueryWriter::new(self.db.dialect());
        w.text("UPDATE items SET ");
        w.coalesce_each(&updates);
        w.text(", updated_at = ");
        w.bind(SqlValue::Timestamp(written));
        w.text(" WHERE id = ");
        w.bind(SqlValue::Int64(id));
        Ok(w.finish())
    }

    /// The first step of removing an item: the statement that reads it.
    pub fn delete_item(&self, id: i64) -> (s: Statement)
        ensures
            s@ == item_by_id_statement(self.dialect(), id),
    {
        self.get_item(id)
    }

    /// The second step of removing an item, once it has been read. The
    /// removal is refused where the item does not exist or is marked as on
    /// loan; else the result is the statement that counts its open loans.
    pub fn delete_item_checked(&self, id: i64, row: &Option<ItemRow>) -> (r: AppResult<Statement>)
        ensures
            match *row {
                None => item_not_found(r, id),
                Some(found) => if found.is_on_loan == Some(true) {
                    fails_with(
                        r,
                        ErrorKind::BadRequest,
                        "Cannot delete item that is currently on loan"@,
                    )
                } else {
                    r matches Ok(s) && s@ == active_loans_statement(self.dialect(), id)
                },
            },
    {
        match row {
            None => Err(AppError::NotFound(sentence_with_id("Item with id ", id, " not found"))),
            Some(found) => {
                if let Some(true) = found.is_on_loan {
                    return Err(
                        AppError::BadRequest(
                            String::from_str("Cannot delete item that is currently on loan"),
                        ),
                    );
                }
                let mut w = QueryWriter::new(self.db.dialect());
                w.text("SELECT COUNT(*) as count FROM loans WHERE item_id = ");
                w.bind(SqlValue::Int64(id));
                w.text(" AND return_date IS NULL");
                Ok(w.finish())
            },
        }
    }

    /// The third step of removing an item, once its open loans have been
    /// counted. The removal is refused while a loan of the item is open;
    /// else the result is the statement that removes the item.
    pub fn delete_item_counted(&self, id: i64, active_loans: i64) -> (r: AppResult<Statement>)
        ensures
            active_loans > 0 ==> fails_with(
                r,
                ErrorKind::BadRequest,
                "Cannot delete item with active loans"@,
            ),
            active_loans <= 0 ==> (r matches Ok(s) && s@ == delete_item_statement(
                self.dialect(),
                id,
            )),
    {
        if active_loans > 0 {
            return Err(
                AppError::BadRequest(String::from_str("Cannot delete item with active loans")),
            );
        }
        let mut w = QueryWriter::new(self.db.dialect());
        w.text("DELETE FROM items WHERE id = ");
        w.bind(SqlValue::Int64(id));
        Ok(w.finish())
    }

    /// The last step of removing an item: success, or the failure to find it
    /// where the removal touched no row.
    pub fn delete_item_done(&self, id: i64, rows_affected: u64) -> (r: AppResult<()>)
        ensures
            rows_affected == 0 ==> item_not_found(r, id),
            rows_affected != 0 ==> r is Ok,
    {
        if rows_affected == 0 {
            return Err(AppError::NotFound(sentence_with_id("Item with id ", id, " not found")));
        }
        Ok(())
    }

    fn set_disposed(&self, id: i64, disposed: bool, now: Timestamp) -> (s: Statement)
        ensures
            s@ == set_disposed_statement(self.dialect(), id, disposed, now),
    {
        let dialect = self.db.dialect();
        let mut w = QueryWriter::new(dialect);
        w.text("UPDATE items SET is_disposed = ");
        match dialect {
            Dialect::Postgres => if disposed {
                w.text("true")
            } else {
                w.text("false")
            },
            Dialect::Sqlite => if disposed {
                w.text("1")
            } else {
                w.text("0")
            },
        }
        w.text(", updated_at = ");
        w.bind(SqlValue::Timestamp(now));
        w.text(" WHERE id = ");
        w.bind(SqlValue::Int64(id));
        w.finish()
    }

    fn disposal_done(&self, id: i64, rows_affected: u64) -> (r: AppResult<Statement>)
        ensures
            rows_affected == 0 ==> item_not_found(r, id),
            rows_affected != 0 ==> (r matches Ok(s) && s@ == item_by_id_statement(
                self.dialect(),
                id,
            )),
    {
        if rows_affected == 0 {
            return Err(AppError::NotFound(sentence_with_id("Item with id ", id, " not found")));
        }
        Ok(self.get_item(id))
    }

    /// The first step of disposing of an item: the statement that marks it as
    /// disposed of and writes the moment of the change. Whether the item is
    /// on loan is not looked at.
    pub fn dispose_item(&self, id: i64, now: Timestamp) -> (s: Statement)
        ensures
            s@ == set_disposed_statement(self.dialect(), id, true, now),
    {
        self.set_disposed(id, true, now)
    }

    /// The second step of disposing of an item: the statement that reads it
    /// back, or the failure to find it where the update touched no row.
    pub fn dispose_item_done(&self, id: i64, rows_affected: u64) -> (r: AppResult<Statement>)
        ensures
            rows_affected == 0 ==> item_not_found(r, id),
            rows_affected != 0 ==> (r matches Ok(s) && s@ == item_by_id_statement(
                self.dialect(),
                id,
            )),
    {
        self.disposal_done(id, rows_affected)
    }

    /// The first step of taking an item back into use: the statement that
    /// marks it as not disposed of and writes the moment of the change.
    pub fn undispose_item(&self, id: i64, now: Timestamp) -> (s: Statement)
        ensures
            s@ == set_disposed_statement(self.dialect(), id, false, now),
    {
        self.set_disposed(id, false, now)
    }

    /// The second step of taking an item back into use: the statement that
    /// reads it back, or the failure to find it where the update touched no
    /// row.
    pub fn undispose_item_done(&self, id: i64, rows_affected: u64) -> (r: AppResult<Statement>)
        ensures
            rows_affected == 0 ==> item_not_found(r, id),
            rows_affected != 0 ==> (r matches Ok(s) && s@ == item_by_id_statement(
                self.dialect(),
                id,
            )),
    {
        self.disposal_done(id, rows_affected)
    }

    /// The statement that reads the lists of connection names of all items.
    pub fn get_connection_names_suggestions(&self) -> (s: Statement)
        ensures
            s@ == StatementView::empty().text(
                "SELECT DISTINCT connection_names FROM items WHERE connection_names IS NOT NULL AND connection_names != ''"@,
            ),
    {
        let mut w = QueryWriter::new(self.db.dialect());
        w.text(
            "SELECT DISTINCT connection_names FROM items WHERE connection_names IS NOT NULL AND connection_names != ''",
        );
        w.finish()
    }

    /// The connection names that the rows hold, each once, in ascending
    /// order. A row whose text does not decode contributes nothing.
    pub fn get_connection_names_suggestions_result(&self, rows: &Vec<Option<String>>) -> (r: Vec<
        String,
    >)
        ensures
            ascending(texts(r@)),
            texts(r@).to_set() == connection_names_in(rows@, rows@.len()),
    {
        let mut suggestions: Vec<String> = Vec::new();
        proof {
            assert(texts(suggestions@).to_set() =~= Set::<Seq<char>>::empty());
        }
        let mut i: usize = 0;
        while i < rows.len()
            invariant
                i <= rows@.len(),
                ascending(texts(suggestions@)),
                texts(suggestions@).to_set() == connection_names_in(rows@, i as nat),
            decreases rows@.len() - i,
        {
            let ghost before = texts(suggestions@).to_set();
            if let Some(text) = &rows[i] {
                if let Some(names) = decode_string_list(text.as_str()) {
                    let mut k: usize = 0;
                    while k < names.len()
                        invariant
                            k <= names@.len(),
                            ascending(texts(suggestions@)),
                            texts(suggestions@).to_set() == before.union(
                                texts(names@).take(k as int).to_set(),
                            ),
                        decreases names@.len() - k,
                    {
                        proof {
                            assert(texts(names@).take(k + 1) =~= texts(names@).take(k as int).push(
                                names@[k as int]@,
                            ));
                            texts(names@).take(k as int).lemma_push_to_set_commute(
                                names@[k as int]@,
                            );
                        }
                        insert_ascending(&mut suggestions, names[k].clone());
                        k = k + 1;
                        proof {
                            assert(texts(suggestions@).to_set() =~= before.union(
                                texts(names@).take(k as int).to_set(),
                            ));
                        }
                    }
                    proof {
                        assert(texts(names@).take(names@.len() as int) =~= texts(names@));
                    }
                }
            }
            i = i + 1;
        }
        suggestions
    }

    /// The statement that reads the storage locations of all items.
    pub fn get_storage_locations_suggestions(&self) -> (s: Statement)
        ensures
            s@ == StatementView::empty().text(
                "SELECT DISTINCT storage_location FROM items WHERE storage_location IS NOT NULL AND storage_location != ''"@,
            ),
    {
        let mut w = QueryWriter::new(self.db.dialect());
        w.text(
            "SELECT DISTINCT storage_location FROM items WHERE storage_location IS NOT NULL AND storage_location != ''",
        );
        w.finish()
    }

    /// The storage locations that the rows hold, each once, in ascending
    /// order.
    pub fn get_storage_locations_suggestions_result(&self, rows: &Vec<Option<String>>) -> (r: Vec<
        String,
    >)
        ensures
            ascending(texts(r@)),
            texts(r@).to_set() == texts_in(rows@, rows@.len()),
    {
        let mut suggestions: Vec<String> = Vec::new();
        proof {
            assert(texts(suggestions@).to_set() =~= Set::<Seq<char>>::empty());
        }
        let mut i: usize = 0;
        while i < rows.len()
            invariant
                i <= rows@.len(),
                ascending(texts(suggestions@)),
                texts(suggestions@).to_set() == texts_in(rows@, i as nat),
            decreases rows@.len() - i,
        {
            if let Some(location) = &rows[i] {
                insert_ascending(&mut suggestions, location.clone());
            }
            i = i + 1;
        }
        suggestions
    }

    /// The first step of allocating labels: the statement that reads the
    /// counter. It and the statement that writes the counter run in one
    /// transaction.
    pub fn generate_label_ids(&self) -> (s: Statement)
        ensures
            s@ == read_counter_statement(self.dialect()),
    {
        let dialect = self.db.dialect();
        let mut w = QueryWriter::new(dialect);
        w.text(SELECT_LABEL_COUNTER);
        match dialect {
            Dialect::Postgres => w.text(" FOR UPDATE"),
            Dialect::Sqlite => {},
        }
        w.finish()
    }

    /// The second step of allocating labels, once the counter has been read:
    /// the next `quantity` labels behind the counter, and the statement that
    /// advances the counter past them. The request is refused, and nothing
    /// is to be written, where fewer than `quantity` labels are left. A
    /// counter below zero is a failure of the service.
    pub fn generate_label_ids_read(&self, current_value: i64, quantity: u32) -> (r: AppResult<
        LabelAllocation,
    >)
        ensures
            if current_value < 0 {
                fails_with(r, ErrorKind::InternalServerError, "Label counter is out of range"@)
            } else if current_value + quantity > MAX_LABEL_VALUE {
                fails_with(r, ErrorKind::BadRequest, "Not enough label IDs available"@)
            } else {
                r matches Ok(allocation) && texts(allocation.label_ids@) == labels_from(
                    current_value + 1,
                    quantity as nat,
                ) && allocation.update@ == write_counter_statement(
                    self.dialect(),
                    (current_value + quantity) as i64,
                )
            },
    {
        if current_value < 0 {
            return Err(
                AppError::InternalServerError(String::from_str("Label counter is out of range")),
            );
        }
        let mut counter = match LabelCounter::new(current_value) {
            Some(counter) => counter,
            None => {
                return Err(
                    AppError::BadRequest(String::from_str("Not enough label IDs available")),
                );
            },
        };
        let label_ids = counter.allocate(quantity)?;
        let mut w = QueryWriter::new(self.db.dialect());
        w.text("UPDATE label_counter SET current_value = ");
        w.bind(SqlValue::Int64(counter.current_value()));
        w.text(" WHERE id = 1");
        Ok(LabelAllocation { label_ids, update: w.finish() })
    }

    /// The statement that reads the labels that items carry.
    pub fn get_all_labels(&self) -> (s: Statement)
        ensures
            s@ == StatementView::empty().text(
                "SELECT label_id, name FROM items WHERE LENGTH(label_id) = 4"@,
            ),
    {
        let mut w = QueryWriter::new(self.db.dialect());
        w.text("SELECT label_id, name FROM items WHERE LENGTH(label_id) = 4");
        w.finish()
    }

    /// What is known of every label of the pool, from `0000` to `ZZZZ` in
    /// the order of their values.
    pub fn get_all_labels_result(&self, rows: &Vec<UsedLabel>) -> (r: Vec<LabelInfo>)
        ensures
            r@.len() == MAX_LABEL_VALUE + 1,
            forall|v: int|
                0 <= v <= MAX_LABEL_VALUE ==> (#[trigger] r@[v])@ == label_info(rows@, v),
    {
        self.label_infos(rows, 0, MAX_LABEL_VALUE + 1)
    }

    /// What is known of the `count` labels from the value `first` on, in the
    /// order of their values.
    pub fn label_infos(&self, rows: &Vec<UsedLabel>, first: u32, count: u32) -> (r: Vec<LabelInfo>)
        requires
            first + count <= MAX_LABEL_VALUE + 1,
        ensures
            r@.len() == count,
            forall|k: int| 0 <= k < count ==> (#[trigger] r@[k])@ == label_info(rows@, first + k),
    {
        let mut holders: Vec<Option<usize>> = Vec::new();
        let mut v: u32 = 0;
        while v < count
            invariant
                v <= count,
                holders@.len() == v,
                forall|k: int| 0 <= k < v ==> (#[trigger] holders@[k]) is None,
            decreases count - v,
        {
            holders.push(None);
            v = v + 1;
        }
        let mut i: usize = 0;
        while i < rows.len()
            invariant
                i <= rows@.len(),
                first + count <= MAX_LABEL_VALUE + 1,
                holders@.len() == count,
                forall|k: int|
                    0 <= k < count ==> match #[trigger] holders@[k] {
                        Some(j) => j < i && holder_of(rows@, i as nat, label_text(first + k))
                            == Some(rows@[j as int].name@),
                        None => holder_of(rows@, i as nat, label_text(first + k)) is None,
                    },
            decreases rows@.len() - i,
        {
            let ghost before = holders@;
            let parsed = parse_label(rows[i].label_id.as_str());
            let mut hit: Option<usize> = None;
            if let Some(value) = parsed {
                if first <= value && value - first < count {
                    hit = Some((value - first) as usize);
                }
            }
            if let Some(slot) = hit {
                holders.set(slot, Some(i));
            }
            proof {
                assert forall|k: int| 0 <= k < count implies match #[trigger] holders@[k] {
                    Some(j) => j < i + 1 && holder_of(rows@, (i + 1) as nat, label_text(first + k))
                        == Some(rows@[j as int].name@),
                    None => holder_of(rows@, (i + 1) as nat, label_text(first + k)) is None,
                } by {
                    lemma_label_round_trip(first + k);
                    let code = rows@[i as int].label_id@;
                    if code == label_text(first + k) {
                        assert(parsed == Some((first + k) as u32));
                        assert(hit == Some(k as usize));
                    } else {
                        if hit == Some(k as usize) {
                            assert(label_text(first + k) == code);
                        }
                        assert(holders@[k] == before[k]);
                    }
                }
            }
            i = i + 1;
        }
        let mut r: Vec<LabelInfo> = Vec::new();
        let mut k: u32 = 0;
        while k < count
            invariant
                k <= count,
                first + count <= MAX_LABEL_VALUE + 1,
                holders@.len() == count,
                r@.len() == k,
                forall|n: int|
                    0 <= n < count ==> match #[trigger] holders@[n] {
                        Some(j) => j < rows@.len() && holder_of(
                            rows@,
                            rows@.len(),
                            label_text(first + n),
                        ) == Some(rows@[j as int].name@),
                        None => holder_of(rows@, rows@.len(), label_text(first + n)) is None,
                    },
                forall|n: int| 0 <= n < k ==> (#[trigger] r@[n])@ == label_info(rows@, first + n),
            decreases count - k,
        {
            let id = render_label(first + k);
            let info = match holders[k as usize] {
                Some(j) => LabelInfo { id, used: true, item_name: Some(rows[j].name.clone()) },
                None => LabelInfo { id, used: false, item_name: None },
            };
            r.push(info);
            k = k + 1;
        }
        r
    }
}

} // verus!
