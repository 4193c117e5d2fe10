//! Containers: the statements that read and write them, the decoding of
//! their rows, and the guard that keeps an occupied container from leaving.

use vstd::prelude::*;
use vstd::string::StringExecFns;
use crate::db::{
    advance, assignments_of, bool_literal, flag_of, moment_after, params_of, predicates_of,
    push_assignment, push_predicate, push_value, rfc3339, rfc3339_text, text_param, AfterWrite,
    Assignment, AssignmentView, DatabasePool, Dialect, Predicate, PredicateView, QueryWriter,
    RawFlag, RawFlagView, SqlParam, SqlValue, Statement, StatementView, Timestamp,
};
use crate::error::{fails_with, AppError, AppResult, ErrorKind};
use crate::models::{
    Container, ContainerView, ContainerWithItemCount, CreateContainerRequest,
    CreateContainerRequestView, UpdateContainerRequest, UpdateContainerRequestView,
};
use crate::services::item_service::ItemService;
use crate::text::{
    copy_opt_text, copy_or_empty, eq_ignore_ascii_case, opt_text, same_ignoring_ascii_case,
    str_eq, text_or_empty, texts,
};

verus! {

/// The start of every statement that reads containers.
pub const SELECT_CONTAINERS: &'static str =
    "SELECT id, name, description, location, image_url, created_at, updated_at, is_disposed FROM containers";

/// The start of the statement that lists containers with the number of items
/// in each, up to the truth value that is written for "not disposed".
pub const SELECT_CONTAINERS_WITH_COUNT: &'static str =
    "SELECT c.id, c.name, c.description, c.location, c.image_url, c.created_at, c.updated_at, c.is_disposed, COUNT(i.id) as item_count FROM containers c LEFT JOIN items i ON c.id = i.container_id AND i.storage_type = 'container' AND (i.is_disposed IS NULL OR i.is_disposed = ";

/// The grouping of the statement that lists containers.
pub const GROUP_CONTAINERS: &'static str =
    " GROUP BY c.id, c.name, c.description, c.location, c.image_url, c.created_at, c.updated_at, c.is_disposed";

/// The start of the statement that counts the items held by containers and
/// not disposed of, up to the test on the container.
pub const COUNT_HELD_ITEMS: &'static str = "SELECT COUNT(*) as count FROM items WHERE ";

/// The end of the statement that counts the items held by containers, up to
/// the truth value that is written for "not disposed".
pub const HELD_AND_KEPT: &'static str =
    " AND storage_type = 'container' AND (is_disposed IS NULL OR is_disposed = ";

/// A row of the table of containers as the driver hands it over. A column
/// that the driver could not read is absent.
#[derive(Debug)]
pub struct ContainerRow {
    pub id: Option<String>,
    pub name: Option<String>,
    pub description: Option<String>,
    pub location: Option<String>,
    pub image_url: Option<String>,
    pub created_at: Option<Timestamp>,
    pub updated_at: Option<Timestamp>,
    pub is_disposed: RawFlag,
}

/// The mathematical value of a [`ContainerRow`].
pub struct ContainerRowView {
    pub id: Option<Seq<char>>,
    pub name: Option<Seq<char>>,
    pub description: Option<Seq<char>>,
    pub location: Option<Seq<char>>,
    pub image_url: Option<Seq<char>>,
    pub created_at: Option<Timestamp>,
    pub updated_at: Option<Timestamp>,
    pub is_disposed: RawFlagView,
}

impl View for ContainerRow {
    type V = ContainerRowView;

    open spec fn view(&self) -> ContainerRowView {
        ContainerRowView {
            id: opt_text(self.id),
            name: opt_text(self.name),
            description: opt_text(self.description),
            location: opt_text(self.location),
            image_url: opt_text(self.image_url),
            created_at: self.created_at,
            updated_at: self.updated_at,
            is_disposed: self.is_disposed@,
        }
    }
}

/// A row of the listing of containers: the container and the number of its
/// items.
#[derive(Debug)]
pub struct ContainerCountRow {
    pub container: ContainerRow,
    pub item_count: i64,
}

/// The moment that is there, or the start of 1970.
pub open spec fn moment_or_epoch(value: Option<Timestamp>) -> Timestamp {
    match value {
        Some(t) => t,
        None => Timestamp::epoch(),
    }
}

/// The container that a row stands for. An absent text reads as empty, an
/// absent moment as the start of 1970, and the disposal state is normalised
/// from whatever form the row holds it in.
pub open spec fn container_of_row(row: ContainerRowView) -> ContainerView {
    ContainerView {
        id: text_or_empty(row.id),
        name: text_or_empty(row.name),
        description: row.description,
        location: text_or_empty(row.location),
        image_url: row.image_url,
        created_at: moment_or_epoch(row.created_at),
        updated_at: moment_or_epoch(row.updated_at),
        is_disposed: flag_of(row.is_disposed),
    }
}

/// The container that a request creates under the given label at the given
/// moment: it carries the fields of the request and is not disposed of.
pub open spec fn created_container(
    id: Seq<char>,
    request: CreateContainerRequestView,
    now: Timestamp,
) -> ContainerView {
    ContainerView {
        id,
        name: request.name,
        description: request.description,
        location: request.location,
        image_url: request.image_url,
        created_at: now,
        updated_at: now,
        is_disposed: false,
    }
}

/// The column by which a listing of containers is sorted. The key is looked
/// up in a fixed list; any other key sorts by the time of creation.
pub open spec fn container_sort_column(sort_by: Seq<char>) -> Seq<char> {
    if sort_by == "name"@ {
        "c.name"@
    } else if sort_by == "location"@ {
        "c.location"@
    } else if sort_by == "item_count"@ {
        "item_count"@
    } else if sort_by == "created_at"@ {
        "c.created_at"@
    } else if sort_by == "updated_at"@ {
        "c.updated_at"@
    } else if sort_by == "is_disposed"@ {
        "c.is_disposed"@
    } else {
        "c.created_at"@
    }
}

/// Whether `column` is one of the columns by which a listing of containers
/// can be sorted.
pub open spec fn is_container_sort_column(column: Seq<char>) -> bool {
    ||| column == "c.name"@
    ||| column == "c.location"@
    ||| column == "item_count"@
    ||| column == "c.created_at"@
    ||| column == "c.updated_at"@
    ||| column == "c.is_disposed"@
}

/// The direction of a sort: ascending for the word `asc` in any case,
/// descending for everything else.
pub open spec fn sort_direction(sort_order: Seq<char>) -> Seq<char> {
    if same_ignoring_ascii_case(sort_order, "asc"@) {
        "ASC"@
    } else {
        "DESC"@
    }
}

/// The column by which a listing of containers is sorted under the key
/// `sort_by`.
pub fn resolve_sort_column(sort_by: &str) -> (column: &'static str)
    ensures
        column@ == container_sort_column(sort_by@),
        is_container_sort_column(column@),
{
    if str_eq(sort_by, "name") {
        "c.name"
    } else if str_eq(sort_by, "location") {
        "c.location"
    } else if str_eq(sort_by, "item_count") {
        "item_count"
    } else if str_eq(sort_by, "created_at") {
        "c.created_at"
    } else if str_eq(sort_by, "updated_at") {
        "c.updated_at"
    } else if str_eq(sort_by, "is_disposed") {
        "c.is_disposed"
    } else {
        "c.created_at"
    }
}

/// The direction of a sort under the word `sort_order`.
pub fn resolve_sort_direction(sort_order: &str) -> (direction: &'static str)
    ensures
        direction@ == sort_direction(sort_order@),
{
    if eq_ignore_ascii_case(sort_order, "asc") {
        "ASC"
    } else {
        "DESC"
    }
}

/// The columns in which a search term is looked for.
pub open spec fn container_search_columns() -> Seq<Seq<char>> {
    seq!["c.name"@, "c.description"@, "c.location"@]
}

/// The predicates of a listing of containers, in a fixed order: not disposed
/// of (unless disposed containers are asked for), location, search.
pub open spec fn container_predicates(
    location_filter: Option<Seq<char>>,
    include_disposed: bool,
    search: Option<Seq<char>>,
) -> Seq<PredicateView> {
    let p0 = Seq::<PredicateView>::empty();
    let p1 = if include_disposed {
        p0
    } else {
        p0.push(PredicateView::Flag { column: "c.is_disposed"@, value: false })
    };
    let p2 = match location_filter {
        Some(l) => p1.push(PredicateView::Equals { column: "c.location"@, value: SqlParam::Text(l) }),
        None => p1,
    };
    match search {
        Some(term) => p2.push(PredicateView::Search { columns: container_search_columns(), term }),
        None => p2,
    }
}

/// The statement that lists containers with the number of items in each.
/// Containers that the sort column does not tell apart are ordered by their
/// labels.
pub open spec fn containers_list_statement(
    dialect: Dialect,
    predicates: Seq<PredicateView>,
    sort_column: Seq<char>,
    direction: Seq<char>,
) -> StatementView {
    StatementView::empty().text(SELECT_CONTAINERS_WITH_COUNT@).text(
        bool_literal(dialect, false),
    ).text(") WHERE 1=1"@).and_each(dialect, predicates, predicates.len()).text(
        GROUP_CONTAINERS@,
    ).text(" ORDER BY "@).text(sort_column).text(" "@).text(direction).text(", c.id ASC"@)
}

/// The statement that reads the container with the given label.
pub open spec fn container_by_id_statement(dialect: Dialect, id: Seq<char>) -> StatementView {
    StatementView::empty().text(SELECT_CONTAINERS@).text(" WHERE id = "@).bind(
        dialect,
        SqlParam::Text(id),
    )
}

/// The statement that counts the items that lie in one of the containers and
/// are not disposed of.
pub open spec fn held_items_statement(dialect: Dialect, ids: Seq<Seq<char>>) -> StatementView {
    StatementView::empty().text(COUNT_HELD_ITEMS@).one_of(dialect, "container_id"@, ids).text(
        HELD_AND_KEPT@,
    ).text(bool_literal(dialect, false)).text(")"@)
}

/// The statement that counts the items that lie in the container and are not
/// disposed of.
pub open spec fn held_items_of_statement(dialect: Dialect, id: Seq<char>) -> StatementView {
    StatementView::empty().text(COUNT_HELD_ITEMS@).text("container_id = "@).bind(
        dialect,
        SqlParam::Text(id),
    ).text(HELD_AND_KEPT@).text(bool_literal(dialect, false)).text(")"@)
}

/// The statement that removes the container with the given label.
pub open spec fn delete_container_statement(dialect: Dialect, id: Seq<char>) -> StatementView {
    StatementView::empty().text("DELETE FROM containers WHERE id = "@).bind(
        dialect,
        SqlParam::Text(id),
    )
}

/// The values that the insertion of a container binds, in the order of the
/// columns.
pub open spec fn create_container_params(
    id: Seq<char>,
    request: CreateContainerRequestView,
    now: Timestamp,
) -> Seq<SqlParam> {
    seq![
        SqlParam::Text(id),
        SqlParam::Text(request.name),
        text_param(request.description),
        SqlParam::Text(request.location),
        text_param(request.image_url),
        SqlParam::Timestamp(now),
        SqlParam::Timestamp(now),
        SqlParam::Bool(false),
    ]
}

/// The statement that inserts a container.
pub open spec fn create_container_statement(
    dialect: Dialect,
    id: Seq<char>,
    request: CreateContainerRequestView,
    now: Timestamp,
) -> StatementView {
    StatementView::empty().text(
        "INSERT INTO containers (id, name, description, location, image_url, created_at, updated_at, is_disposed) VALUES ("@,
    ).bind_list(dialect, create_container_params(id, request, now), 8).text(")"@)
}

/// How the disposal state is bound when a container is changed: as itself
/// for Postgres, as the text `1` or `0` for SQLite.
pub open spec fn disposed_param(dialect: Dialect, value: bool) -> SqlParam {
    match dialect {
        Dialect::Postgres => SqlParam::Bool(value),
        Dialect::Sqlite => SqlParam::Text(if value { "1"@ } else { "0"@ }),
    }
}

/// How the moment of a change is bound when a container is changed: as
/// itself for Postgres, as its RFC 3339 text for SQLite. `None` where the
/// moment has no such text.
pub open spec fn moment_param(dialect: Dialect, now: Timestamp) -> Option<SqlParam> {
    match dialect {
        Dialect::Postgres => Some(SqlParam::Timestamp(now)),
        Dialect::Sqlite => match rfc3339_text(now.secs, now.nanos) {
            Some(t) => Some(SqlParam::Text(t)),
            None => None,
        },
    }
}

/// The columns that a request sets, each with its value, in a fixed order:
/// name, description, location, image reference, disposal state. A field
/// that is absent from the request sets nothing.
pub open spec fn container_assignments(
    dialect: Dialect,
    request: UpdateContainerRequestView,
) -> Seq<AssignmentView> {
    let a0 = Seq::<AssignmentView>::empty();
    let a1 = match request.name {
        Some(v) => a0.push(AssignmentView { column: "name"@, value: SqlParam::Text(v) }),
        None => a0,
    };
    let a2 = match request.description {
        Some(v) => a1.push(AssignmentView { column: "description"@, value: SqlParam::Text(v) }),
        None => a1,
    };
    let a3 = match request.location {
        Some(v) => a2.push(AssignmentView { column: "location"@, value: SqlParam::Text(v) }),
        None => a2,
    };
    let a4 = match request.image_url {
        Some(v) => a3.push(AssignmentView { column: "image_url"@, value: SqlParam::Text(v) }),
        None => a3,
    };
    match request.is_disposed {
        Some(b) => a4.push(
            AssignmentView { column: "is_disposed"@, value: disposed_param(dialect, b) },
        ),
        None => a4,
    }
}

/// The statement that changes the container with the given label: it sets
/// the columns that the request names, then the moment of the change.
pub open spec fn update_container_statement(
    dialect: Dialect,
    id: Seq<char>,
    request: UpdateContainerRequestView,
    moment: SqlParam,
) -> StatementView {
    let assignments = container_assignments(dialect, request).push(
        AssignmentView { column: "updated_at"@, value: moment },
    );
    StatementView::empty().text("UPDATE containers SET "@).assign_each(
        dialect,
        assignments,
        assignments.len(),
    ).text(" WHERE id = "@).bind(dialect, SqlParam::Text(id))
}

/// The statement that removes the containers with the given labels.
pub open spec fn bulk_delete_statement(dialect: Dialect, ids: Seq<Seq<char>>) -> StatementView {
    StatementView::empty().text("DELETE FROM containers WHERE "@).one_of(dialect, "id"@, ids)
}

/// The statement that sets the disposal state of the containers with the
/// given labels.
pub open spec fn bulk_disposed_statement(
    dialect: Dialect,
    ids: Seq<Seq<char>>,
    is_disposed: bool,
    now: Timestamp,
) -> StatementView {
    StatementView::empty().text("UPDATE containers SET is_disposed = "@).bind(
        dialect,
        SqlParam::Bool(is_disposed),
    ).text(", updated_at = "@).bind(dialect, SqlParam::Timestamp(now)).text(" WHERE "@).one_of(
        dialect,
        "id"@,
        ids,
    )
}

/// What is to be done first to set the disposal state of several
/// containers: nothing, a count of the items in them, or the write itself.
#[derive(Debug)]
pub enum BulkDisposal {
    Nothing,
    Count(Statement),
    Write(Statement),
}

/// The operations on containers, for the dialect of one database.
#[derive(Debug, Clone)]
pub struct ContainerService {
    db: DatabasePool,
    item_service: ItemService,
}

impl ContainerService {
    /// The dialect that the statements are written for.
    pub closed spec fn dialect(&self) -> Dialect {
        self.db.spec_dialect()
    }

    /// The dialect for which the labels of new containers are allocated.
    pub closed spec fn label_dialect(&self) -> Dialect {
        self.item_service.dialect()
    }

    /// The operations on containers of the given database.
    pub fn new(db: DatabasePool) -> (s: ContainerService)
        ensures
            s.dialect() == db.spec_dialect(),
            s.label_dialect() == db.spec_dialect(),
    {
        let item_service = ItemService::new(db.duplicate());
        ContainerService { db, item_service }
    }

    /// The service that allocates the labels of new containers.
    pub fn item_service(&self) -> (r: &ItemService)
        ensures
            r.dialect() == self.label_dialect(),
    {
        &self.item_service
    }

    /// Decodes a row into a container.
    pub fn row_to_container(&self, row: &ContainerRow) -> (c: Container)
        ensures
            c@ == container_of_row(row@),
    {
        Container {
            id: copy_or_empty(&row.id),
            name: copy_or_empty(&row.name),
            description: copy_opt_text(&row.description),
            location: copy_or_empty(&row.location),
            image_url: copy_opt_text(&row.image_url),
            created_at: match row.created_at {
                Some(t) => t,
                None => Timestamp::epoch(),
            },
            updated_at: match row.updated_at {
                Some(t) => t,
                None => Timestamp::epoch(),
            },
            is_disposed: row.is_disposed.normalize(),
        }
    }

    /// The first step of creating a container: takes the label that was
    /// allocated for it and writes the insertion. Fails where no label was
    /// allocated.
    pub fn create_container(
        &self,
        labels: &Vec<String>,
        request: &CreateContainerRequest,
        now: Timestamp,
    ) -> (r: AppResult<(String, Statement)>)
        ensures
            labels@.len() == 0 ==> fails_with(
                r,
                ErrorKind::InternalServerError,
                "Failed to generate container ID"@,
            ),
            labels@.len() > 0 ==> (r matches Ok(pair) && pair.0@ == labels@[0]@ && pair.1@
                == create_container_statement(self.dialect(), labels@[0]@, request@, now)),
    {
        if labels.len() == 0 {
            return Err(
                AppError::InternalServerError(String::from_str("Failed to generate container ID")),
            );
        }
        let id = labels[0].clone();
        let mut values: Vec<SqlValue> = Vec::new();
        proof {
            assert(params_of(values@) =~= Seq::<SqlParam>::empty());
        }
        push_value(&mut values, SqlValue::Text(id.clone()));
        push_value(&mut values, SqlValue::Text(request.name.clone()));
        push_value(&mut values, SqlValue::opt_text(&request.description));
        push_value(&mut values, SqlValue::Text(request.location.clone()));
        push_value(&mut values, SqlValue::opt_text(&request.image_url));
        push_value(&mut values, SqlValue::Timestamp(now));
        push_value(&mut values, SqlValue::Timestamp(now));
        push_value(&mut values, SqlValue::Bool(false));
        proof {
            assert(params_of(values@) =~= create_container_params(id@, request@, now));
        }
        let mut w = QueryWriter::new(self.db.dialect());
        w.text(
            "INSERT INTO containers (id, name, description, location, image_url, created_at, updated_at, is_disposed) VALUES (",
        );
        w.bind_list(&values);
        w.text(")");
        Ok((id, w.finish()))
    }

    /// The second step of creating a container, once the insertion has run.
    /// For Postgres the container is read back. For SQLite it is built from
    /// the request, unless the insertion wrote no row.
    pub fn create_container_done(
        &self,
        id: String,
        request: CreateContainerRequest,
        now: Timestamp,
        rows_affected: u64,
    ) -> (r: AppResult<AfterWrite<Container>>)
        ensures
            match self.dialect() {
                Dialect::Postgres => r matches Ok(AfterWrite::Read(s)) && s@
                    == container_by_id_statement(Dialect::Postgres, id@),
                Dialect::Sqlite => if rows_affected == 0 {
                    fails_with(
                        r,
                        ErrorKind::InternalServerError,
                        "Failed to create container"@,
                    )
                } else {
                    r matches Ok(AfterWrite::Done(c)) && c@ == created_container(
                        id@,
                        request@,
                        now,
                    )
                },
            },
    {
        match self.db.dialect() {
            Dialect::Postgres => Ok(AfterWrite::Read(self.get_container(id.as_str()))),
            Dialect::Sqlite => {
                if rows_affected == 0 {
                    return Err(
                        AppError::InternalServerError(
                            String::from_str("Failed to create container"),
                        ),
                    );
                }
                Ok(
                    AfterWrite::Done(
                        Container {
                            id,
                            name: request.name,
                            description: request.description,
                            location: request.location,
                            image_url: request.image_url,
                            created_at: now,
                            updated_at: now,
                            is_disposed: false,
                        },
                    ),
                )
            },
        }
    }

    /// The statement that reads the container with the given label.
    pub fn get_container(&self, id: &str) -> (s: Statement)
        ensures
            s@ == container_by_id_statement(self.dialect(), id@),
    {
        let mut w = QueryWriter::new(self.db.dialect());
        w.text(SELECT_CONTAINERS);
        w.text(" WHERE id = ");
        w.bind(SqlValue::text(id));
        w.finish()
    }

    /// The container that was read, or the failure to find it.
    pub fn get_container_result(&self, row: Option<ContainerRow>) -> (r: AppResult<Container>)
        ensures
            match row {
                Some(found) => r matches Ok(c) && c@ == container_of_row(found@),
                None => fails_with(r, ErrorKind::NotFound, "Container not found"@),
            },
    {
        match row {
            Some(found) => Ok(self.row_to_container(&found)),
            None => Err(AppError::NotFound(String::from_str("Container not found"))),
        }
    }

    /// The statement that lists containers with the number of items in each.
    /// Containers that are disposed of are left out unless asked for. The
    /// sort key is looked up in a fixed list and never reaches the text as it
    /// came; the location and the search term are bound to placeholders.
    pub fn list_containers(
        &self,
        location_filter: Option<&str>,
        include_disposed: bool,
        search: Option<&str>,
        sort_by: &str,
        sort_order: &str,
    ) -> (s: Statement)
        ensures
            s@ == containers_list_statement(
                self.dialect(),
                container_predicates(
                    match location_filter {
                        Some(l) => Some(l@),
                        None => None,
                    },
                    include_disposed,
                    match search {
                        Some(t) => Some(t@),
                        None => None,
                    },
                ),
                container_sort_column(sort_by@),
                sort_direction(sort_order@),
            ),
    {
        let dialect = self.db.dialect();
        let mut predicates: Vec<Predicate> = Vec::new();
        proof {
            assert(predicates_of(predicates@) =~= Seq::<PredicateView>::empty());
        }
        if !include_disposed {
            push_predicate(&mut predicates, Predicate::Flag { column: "c.is_disposed", value: false });
        }
        if let Some(location) = location_filter {
            push_predicate(
                &mut predicates,
                Predicate::Equals { column: "c.location", value: SqlValue::text(location) },
            );
        }
        if let Some(term) = search {
            let columns: Vec<&'static str> = vec!["c.name", "c.description", "c.location"];
            proof {
                assert(crate::db::names(columns@) =~= container_search_columns());
            }
            push_predicate(
                &mut predicates,
                Predicate::Search { columns, term: String::from_str(term) },
            );
        }
        let mut w = QueryWriter::new(dialect);
        w.text(SELECT_CONTAINERS_WITH_COUNT);
        match dialect {
            Dialect::Postgres => w.text("false"),
            Dialect::Sqlite => w.text("0"),
        }
        w.text(") WHERE 1=1");
        proof {
            assert(predicates_of(predicates@).skip(0) =~= predicates_of(predicates@));
        }
        w.and_each(&predicates, 0);
        w.text(GROUP_CONTAINERS);
        w.text(" ORDER BY ");
        w.text(resolve_sort_column(sort_by));
        w.text(" ");
        w.text(resolve_sort_direction(sort_order));
        w.text(", c.id ASC");
        w.finish()
    }

    /// The containers of a listing, each with the number of its items, in
    /// the order in which the rows were fetched.
    pub fn list_containers_result(&self, rows: &Vec<ContainerCountRow>) -> (r: Vec<
        ContainerWithItemCount,
    >)
        ensures
            r@.len() == rows@.len(),
            forall|i: int|
                0 <= i < rows@.len() ==> (#[trigger] r@[i]).container@ == container_of_row(
                    rows@[i].container@,
                ) && r@[i].item_count == rows@[i].item_count,
    {
        let mut r: Vec<ContainerWithItemCount> = Vec::new();
        let mut i: usize = 0;
        while i < rows.len()
            invariant
                i <= rows@.len(),
                r@.len() == i,
                forall|j: int|
                    0 <= j < i ==> (#[trigger] r@[j]).container@ == container_of_row(
                        rows@[j].container@,
                    ) && r@[j].item_count == rows@[j].item_count,
            decreases rows@.len() - i,
        {
            let container = self.row_to_container(&rows[i].container);
            r.push(ContainerWithItemCount { container, item_count: rows[i].item_count });
            i = i + 1;
        }
        r
    }

    /// The first step of changing a container: the statement that reads it.
    /// A request that names no field is refused before anything is read.
    pub fn update_container(&self, id: &str, request: &UpdateContainerRequest) -> (r: AppResult<
        Statement,
    >)
        ensures
            request@.is_empty() ==> fails_with(r, ErrorKind::BadRequest, "No fields to update"@),
            !request@.is_empty() ==> (r matches Ok(s) && s@ == container_by_id_statement(
                self.dialect(),
                id@,
            )),
    {
        if request.name.is_none() && request.description.is_none() && request.location.is_none()
            && request.image_url.is_none() && request.is_disposed.is_none() {
            return Err(AppError::BadRequest(String::from_str("No fields to update")));
        }
        Ok(self.get_container(id))
    }

    /// The second step of changing a container, once it has been read. The
    /// change is refused where the request names no field, and where the
    /// container does not exist, in this order. Else the result is the
    /// statement that sets the fields that the request names and the moment
    /// of the change. That moment is the present moment, or one step after
    /// the moment of the last change where the clock has not moved on since,
    /// so that it always moves on.
    pub fn update_container_checked(
        &self,
        id: &str,
        request: &UpdateContainerRequest,
        existing: &Option<ContainerRow>,
        now: Timestamp,
    ) -> (r: AppResult<Statement>)
        ensures
            if request@.is_empty() {
                fails_with(r, ErrorKind::BadRequest, "No fields to update"@)
            } else {
                match *existing {
                    None => fails_with(r, ErrorKind::NotFound, "Container not found"@),
                    Some(row) => match moment_after(moment_or_epoch(row.updated_at), now) {
                        None => fails_with(
                            r,
                            ErrorKind::InternalServerError,
                            "updated_at cannot advance"@,
                        ),
                        Some(written) => match moment_param(self.dialect(), written) {
                            Some(moment) => r matches Ok(s) && s@ == update_container_statement(
                                self.dialect(),
                                id@,
                                request@,
                                moment,
                            ),
                            None => fails_with(
                                r,
                                ErrorKind::InternalServerError,
                                "Failed to format updated_at"@,
                            ),
                        },
                    },
                }
            },
    {
        let dialect = self.db.dialect();
        let mut updates: Vec<Assignment> = Vec::new();
        proof {
            assert(assignments_of(updates@) =~= Seq::<AssignmentView>::empty());
        }
        if let Some(name) = &request.name {
            push_assignment(&mut updates, "name", SqlValue::Text(name.clone()));
        }
        if let Some(description) = &request.description {
            push_assignment(&mut updates, "description", SqlValue::Text(description.clone()));
        }
        if let Some(location) = &request.location {
            push_assignment(&mut updates, "location", SqlValue::Text(location.clone()));
        }
        if let Some(image_url) = &request.image_url {
            push_assignment(&mut updates, "image_url", SqlValue::Text(image_url.clone()));
        }
        if let Some(is_disposed) = request.is_disposed {
            let value = match dialect {
                Dialect::Postgres => SqlValue::Bool(is_disposed),
                Dialect::Sqlite => if is_disposed {
                    SqlValue::text("1")
                } else {
                    SqlValue::text("0")
                },
            };
            push_assignment(&mut updates, "is_disposed", value);
        }
        proof {
            assert(assignments_of(updates@) == container_assignments(dialect, request@));
            assert(assignments_of(updates@).len() == updates@.len());
        }
        if updates.len() == 0 {
            return Err(AppError::BadRequest(String::from_str("No fields to update")));
        }
        let stored = match existing {
            Some(row) => match row.updated_at {
                Some(t) => t,
                None => Timestamp::epoch(),
            },
            None => {
                return Err(AppError::NotFound(String::from_str("Container not found")));
            },
        };
        let written = match advance(stored, now) {
            Some(written) => written,
            None => {
                return Err(
                    AppError::InternalServerError(String::from_str("updated_at cannot advance")),
                );
            },
        };
        let moment = match dialect {
            Dialect::Postgres => SqlValue::Timestamp(written),
            Dialect::Sqlite => match rfc3339(written) {
                Some(text) => SqlValue::Text(text),
                None => {
                    return Err(
                        AppError::InternalServerError(
                            String::from_str("Failed to format updated_at"),
                        ),
                    );
                },
            },
        };
        push_assignment(&mut updates, "updated_at", moment);
        let mut w = QueryWriter::new(dialect);
        w.text("UPDATE containers SET ");
        w.assign_each(&updates);
        w.text(" WHERE id = ");
        w.bind(SqlValue::text(id));
        Ok(w.finish())
    }

    /// The last step of changing a container, once the update has run: the
    /// statement that reads the container back, or the failure to find it
    /// where the update touched no row.
    pub fn update_container_done(&self, id: &str, rows_affected: u64) -> (r: AppResult<Statement>)
        ensures
            rows_affected == 0 ==> fails_with(
                r,
                ErrorKind::NotFound,
                "Container not found"@,
            ),
            rows_affected != 0 ==> (r matches Ok(s) && s@ == container_by_id_statement(
                self.dialect(),
                id@,
            )),
    {
        if rows_affected == 0 {
            return Err(AppError::NotFound(String::from_str("Container not found")));
        }
        Ok(self.get_container(id))
    }

    /// The first step of removing a container: the statement that counts the
    /// items that lie in it and are not disposed of.
    pub fn delete_container(&self, id: &str) -> (s: Statement)
        ensures
            s@ == held_items_of_statement(self.dialect(), id@),
    {
        let dialect = self.db.dialect();
        let mut w = QueryWriter::new(dialect);
        w.text(COUNT_HELD_ITEMS);
        w.text("container_id = ");
        w.bind(SqlValue::text(id));
        w.text(HELD_AND_KEPT);
        match dialect {
            Dialect::Postgres => w.text("false"),
            Dialect::Sqlite => w.text("0"),
        }
        w.text(")");
        w.finish()
    }

    /// The second step of removing a container, once its items have been
    /// counted: the removal is refused while an item lies in the container,
    /// else the statement that removes it.
    pub fn delete_container_checked(&self, id: &str, item_count: i64) -> (r: AppResult<Statement>)
        ensures
            item_count > 0 ==> fails_with(
                r,
                ErrorKind::BadRequest,
                "Cannot delete container that contains items"@,
            ),
            item_count <= 0 ==> (r matches Ok(s) && s@ == delete_container_statement(
                self.dialect(),
                id@,
            )),
    {
        if item_count > 0 {
            return Err(
                AppError::BadRequest(
                    String::from_str("Cannot delete container that contains items"),
                ),
            );
        }
        let mut w = QueryWriter::new(self.db.dialect());
        w.text("DELETE FROM containers WHERE id = ");
        w.bind(SqlValue::text(id));
        Ok(w.finish())
    }

    /// The last step of removing a container: success, or the failure to
    /// find it where the removal touched no row.
    pub fn delete_container_done(&self, rows_affected: u64) -> (r: AppResult<()>)
        ensures
            rows_affected == 0 ==> fails_with(
                r,
                ErrorKind::NotFound,
                "Container not found"@,
            ),
            rows_affected != 0 ==> r is Ok,
    {
        if rows_affected == 0 {
            return Err(AppError::NotFound(String::from_str("Container not found")));
        }
        Ok(())
    }

    /// The statement that reads the containers at a location that are not
    /// disposed of, by name.
    pub fn get_containers_by_location(&self, location: &str) -> (s: Statement)
        ensures
            s@ == StatementView::empty().text(SELECT_CONTAINERS@).text(" WHERE location = "@).bind(
                self.dialect(),
                SqlParam::Text(location@),
            ).text(" AND is_disposed = "@).text(bool_literal(self.dialect(), false)).text(
                " ORDER BY name, id"@,
            ),
    {
        let dialect = self.db.dialect();
        let mut w = QueryWriter::new(dialect);
        w.text(SELECT_CONTAINERS);
        w.text(" WHERE location = ");
        w.bind(SqlValue::text(location));
        w.text(" AND is_disposed = ");
        match dialect {
            Dialect::Postgres => w.text("false"),
            Dialect::Sqlite => w.text("0"),
        }
        w.text(" ORDER BY name, id");
        w.finish()
    }

    /// The containers that the rows stand for, in the order in which the rows
    /// were fetched.
    pub fn get_containers_by_location_result(&self, rows: &Vec<ContainerRow>) -> (r: Vec<Container>)
        ensures
            r@.len() == rows@.len(),
            forall|i: int|
                0 <= i < rows@.len() ==> (#[trigger] r@[i])@ == container_of_row(rows@[i]@),
    {
        let mut r: Vec<Container> = Vec::new();
        let mut i: usize = 0;
        while i < rows.len()
            invariant
                i <= rows@.len(),
                r@.len() == i,
                forall|j: int| 0 <= j < i ==> (#[trigger] r@[j])@ == container_of_row(rows@[j]@),
            decreases rows@.len() - i,
        {
            r.push(self.row_to_container(&rows[i]));
            i = i + 1;
        }
        r
    }

    /// The statement that asks whether a container with the given label
    /// exists.
    pub fn check_container_id_exists(&self, id: &str) -> (s: Statement)
        ensures
            s@ == StatementView::empty().text(
                "SELECT EXISTS(SELECT 1 FROM containers WHERE id = "@,
            ).bind(self.dialect(), SqlParam::Text(id@)).text(")"@),
    {
        let mut w = QueryWriter::new(self.db.dialect());
        w.text("SELECT EXISTS(SELECT 1 FROM containers WHERE id = ");
        w.bind(SqlValue::text(id));
        w.text(")");
        w.finish()
    }

    /// Whether the container exists, from the answer of the database in
    /// whatever form its dialect gives it.
    pub fn check_container_id_exists_result(&self, answer: &RawFlag) -> (r: bool)
        ensures
            r == flag_of(answer@),
    {
        answer.normalize()
    }

    /// The statement that counts the items that lie in one of the containers
    /// and are not disposed of; `None` for an empty list, which holds no
    /// items.
    pub fn check_containers_have_items(&self, ids: &Vec<String>) -> (r: Option<Statement>)
        ensures
            ids@.len() == 0 ==> r is None,
            ids@.len() > 0 ==> (r matches Some(s) && s@ == held_items_statement(
                self.dialect(),
                texts(ids@),
            )),
    {
        if ids.len() == 0 {
            return None;
        }
        let dialect = self.db.dialect();
        let mut w = QueryWriter::new(dialect);
        w.text(COUNT_HELD_ITEMS);
        w.one_of("container_id", ids);
        w.text(HELD_AND_KEPT);
        match dialect {
            Dialect::Postgres => w.text("false"),
            Dialect::Sqlite => w.text("0"),
        }
        w.text(")");
        Some(w.finish())
    }

    /// The first step of removing several containers: the statement that
    /// counts the items in all of them; `None` for an empty list, for which
    /// nothing is to be done.
    pub fn bulk_delete_containers(&self, ids: &Vec<String>) -> (r: Option<Statement>)
        ensures
            ids@.len() == 0 ==> r is None,
            ids@.len() > 0 ==> (r matches Some(s) && s@ == held_items_statement(
                self.dialect(),
                texts(ids@),
            )),
    {
        self.check_containers_have_items(ids)
    }

    /// The second step of removing several containers, once their items have
    /// been counted: the whole batch is refused while an item lies in any of
    /// them, else the one statement that removes them all.
    pub fn bulk_delete_containers_checked(&self, ids: &Vec<String>, item_count: i64) -> (r:
        AppResult<Statement>)
        ensures
            item_count > 0 ==> fails_with(
                r,
                ErrorKind::BadRequest,
                "Cannot delete containers that contain items"@,
            ),
            item_count <= 0 ==> (r matches Ok(s) && s@ == bulk_delete_statement(
                self.dialect(),
                texts(ids@),
            )),
    {
        if item_count > 0 {
            return Err(
                AppError::BadRequest(
                    String::from_str("Cannot delete containers that contain items"),
                ),
            );
        }
        let mut w = QueryWriter::new(self.db.dialect());
        w.text("DELETE FROM containers WHERE ");
        w.one_of("id", ids);
        Ok(w.finish())
    }

    /// The first step of setting the disposal state of several containers.
    /// For an empty list nothing is to be done. To dispose of containers,
    /// the items in all of them are counted first. To take containers back
    /// into use breaks no guard: the state of them all is set at once.
    pub fn bulk_update_disposed_status(
        &self,
        ids: &Vec<String>,
        is_disposed: bool,
        now: Timestamp,
    ) -> (r: BulkDisposal)
        ensures
            ids@.len() == 0 ==> r is Nothing,
            ids@.len() > 0 && is_disposed ==> (r matches BulkDisposal::Count(s) && s@
                == held_items_statement(self.dialect(), texts(ids@))),
            ids@.len() > 0 && !is_disposed ==> (r matches BulkDisposal::Write(s) && s@
                == bulk_disposed_statement(self.dialect(), texts(ids@), false, now)),
    {
        if ids.len() == 0 {
            return BulkDisposal::Nothing;
        }
        if is_disposed {
            match self.check_containers_have_items(ids) {
                Some(count) => BulkDisposal::Count(count),
                None => BulkDisposal::Nothing,
            }
        } else {
            BulkDisposal::Write(self.set_disposed(ids, false, now))
        }
    }

    /// The second step of disposing of several containers, once their items
    /// have been counted: the whole batch is refused while an item lies in
    /// any of them, else the one statement that disposes of them all.
    pub fn bulk_update_disposed_status_checked(
        &self,
        ids: &Vec<String>,
        now: Timestamp,
        item_count: i64,
    ) -> (r: AppResult<Statement>)
        ensures
            item_count > 0 ==> fails_with(
                r,
                ErrorKind::BadRequest,
                "Cannot dispose of containers that contain items"@,
            ),
            item_count <= 0 ==> (r matches Ok(s) && s@ == bulk_disposed_statement(
                self.dialect(),
                texts(ids@),
                true,
                now,
            )),
    {
        if item_count > 0 {
            return Err(
                AppError::BadRequest(
                    String::from_str("Cannot dispose of containers that contain items"),
                ),
            );
        }
        Ok(self.set_disposed(ids, true, now))
    }

    fn set_disposed(&self, ids: &Vec<String>, is_disposed: bool, now: Timestamp) -> (s: Statement)
        ensures
            s@ == bulk_disposed_statement(self.dialect(), texts(ids@), is_disposed, now),
    {
        let mut w = QueryWriter::new(self.db.dialect());
        w.text("UPDATE containers SET is_disposed = ");
        w.bind(SqlValue::Bool(is_disposed));
        w.text(", updated_at = ");
        w.bind(SqlValue::Timestamp(now));
        w.text(" WHERE ");
        w.one_of("id", ids);
        w.finish()
    }
}

} // verus!
