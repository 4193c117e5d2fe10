//! Cable colours: the statements that read and write them.

use vstd::prelude::*;
use vstd::string::StringExecFns;
use crate::db::{
    advance, assignments_of, moment_after, offset_of, page_offset, params_of, push_assignment,
    push_value, text_param, Assignment, AssignmentView, DatabasePool, Dialect, ListQuery,
    QueryWriter, SqlParam, SqlValue, Statement, StatementView, Timestamp,
};
use crate::error::{fails_with, AppError, AppResult, ErrorKind};
use crate::models::{
    CableColor, CreateCableColorRequest, CreateCableColorRequestView, UpdateCableColorRequest,
    UpdateCableColorRequestView,
};
use crate::text::{sentence_with_id, signed_decimal};

verus! {

/// The start of every statement that reads cable colours.
pub const SELECT_CABLE_COLORS: &'static str =
    "SELECT id, name, hex_code, description, created_at, updated_at FROM cable_colors";

/// The statement that counts cable colours.
pub const COUNT_CABLE_COLORS: &'static str = "SELECT COUNT(*) as count FROM cable_colors";

/// The failure to find the cable colour with the given number.
pub open spec fn cable_color_not_found<T>(r: AppResult<T>, id: i64) -> bool {
    fails_with(
        r,
        ErrorKind::NotFound,
        "Cable color with id "@ + signed_decimal(id as int) + " not found"@,
    )
}

/// The statement that reads the cable colour with the given number.
pub open spec fn cable_color_by_id_statement(dialect: Dialect, id: i64) -> StatementView {
    StatementView::empty().text(SELECT_CABLE_COLORS@).text(" WHERE id = "@).bind(
        dialect,
        SqlParam::Int64(id),
    )
}

/// The values that the insertion of a cable colour binds, in the order of
/// the columns.
pub open spec fn create_cable_color_params(request: CreateCableColorRequestView) -> Seq<SqlParam> {
    seq![
        SqlParam::Text(request.name),
        text_param(request.hex_code),
        text_param(request.description),
    ]
}

/// The statement that inserts a cable colour. For Postgres it hands back the
/// number of the new colour; SQLite reports that number by itself.
pub open spec fn insert_cable_color_statement(
    dialect: Dialect,
    request: CreateCableColorRequestView,
) -> StatementView {
    let inserted = StatementView::empty().text(
        "INSERT INTO cable_colors (name, hex_code, description) VALUES ("@,
    ).bind_list(dialect, create_cable_color_params(request), 3).text(")"@);
    match dialect {
        Dialect::Postgres => inserted.text(" RETURNING id"@),
        Dialect::Sqlite => inserted,
    }
}

/// The columns that a change of a cable colour writes, each with the value
/// bound for it: the value of the request, or null where the request leaves
/// the field out, so that the column keeps what it holds.
pub open spec fn update_cable_color_assignments(request: UpdateCableColorRequestView) -> Seq<
    AssignmentView,
> {
    seq![
        AssignmentView { column: "name"@, value: text_param(request.name) },
        AssignmentView { column: "hex_code"@, value: text_param(request.hex_code) },
        AssignmentView { column: "description"@, value: text_param(request.description) },
    ]
}

/// The statement that changes the cable colour with the given number.
pub open spec fn update_cable_color_statement(
    dialect: Dialect,
    id: i64,
    request: UpdateCableColorRequestView,
    now: Timestamp,
) -> StatementView {
    StatementView::empty().text("UPDATE cable_colors SET "@).coalesce_each(
        dialect,
        update_cable_color_assignments(request),
        3,
    ).text(", updated_at = "@).bind(dialect, SqlParam::Timestamp(now)).text(" WHERE id = "@).bind(
        dialect,
        SqlParam::Int64(id),
    )
}

/// The statement that fetches one page of cable colours, newest first.
pub open spec fn cable_colors_page_statement(
    dialect: Dialect,
    page: u32,
    per_page: u32,
) -> StatementView {
    StatementView::empty().text(SELECT_CABLE_COLORS@).text(
        " ORDER BY created_at DESC, id DESC LIMIT "@,
    ).bind(dialect, SqlParam::Int64(per_page as i64)).text(" OFFSET "@).bind(
        dialect,
        SqlParam::Int64(offset_of(page, per_page) as i64),
    )
}

/// The operations on cable colours, for the dialect of one database.
#[derive(Debug, Clone)]
pub struct CableColorService {
    db: DatabasePool,
}

impl CableColorService {
    /// The dialect that the statements are written for.
    pub closed spec fn dialect(&self) -> Dialect {
        self.db.spec_dialect()
    }

    /// The operations on cable colours of the given database.
    pub fn new(db: DatabasePool) -> (s: CableColorService)
        ensures
            s.dialect() == db.spec_dialect(),
    {
        CableColorService { db }
    }

    /// The statement that inserts a cable colour.
    pub fn create_cable_color(&self, req: &CreateCableColorRequest) -> (s: Statement)
        ensures
            s@ == insert_cable_color_statement(self.dialect(), req@),
    {
        let dialect = self.db.dialect();
        let mut values: Vec<SqlValue> = Vec::new();
        proof {
            assert(params_of(values@) =~= Seq::<SqlParam>::empty());
        }
        push_value(&mut values, SqlValue::Text(req.name.clone()));
        push_value(&mut values, SqlValue::opt_text(&req.hex_code));
        push_value(&mut values, SqlValue::opt_text(&req.description));
        proof {
            assert(params_of(values@) =~= create_cable_color_params(req@));
        }
        let mut w = QueryWriter::new(dialect);
        w.text("INSERT INTO cable_colors (name, hex_code, description) VALUES (");
        w.bind_list(&values);
        w.text(")");
        match dialect {
            Dialect::Postgres => w.text(" RETURNING id"),
            Dialect::Sqlite => {},
        }
        w.finish()
    }

    /// The statement that reads the cable colour with the given number.
    pub fn get_cable_color(&self, id: i64) -> (s: Statement)
        ensures
            s@ == cable_color_by_id_statement(self.dialect(), id),
    {
        let mut w = QueryWriter::new(self.db.dialect());
        w.text(SELECT_CABLE_COLORS);
        w.text(" WHERE id = ");
        w.bind(SqlValue::Int64(id));
        w.finish()
    }

    /// The cable colour that was read, or the failure to find it.
    pub fn get_cable_color_result(&self, id: i64, color: Option<CableColor>) -> (r: AppResult<
        CableColor,
    >)
        ensures
            match color {
                Some(found) => r == Ok::<CableColor, AppError>(found),
                None => cable_color_not_found(r, id),
            },
    {
        match color {
            Some(found) => Ok(found),
            None => Err(
                AppError::NotFound(sentence_with_id("Cable color with id ", id, " not found")),
            ),
        }
    }

    /// The two statements that list cable colours: the rows of page `page`,
    /// newest first, and the number of all cable colours.
    pub fn list_cable_colors(&self, page: u32, per_page: u32) -> (q: ListQuery)
        requires
            page >= 1,
            per_page >= 1,
            offset_of(page, per_page) <= i64::MAX,
        ensures
            q.rows@ == cable_colors_page_statement(self.dialect(), page, per_page),
            q.count@ == StatementView::empty().text(COUNT_CABLE_COLORS@),
    {
        let dialect = self.db.dialect();
        let offset: i64 = page_offset(page, per_page);
        let limit: i64 = per_page as i64;
        let mut rows = QueryWriter::new(dialect);
        rows.text(SELECT_CABLE_COLORS);
        rows.text(" ORDER BY created_at DESC, id DESC LIMIT ");
        rows.bind(SqlValue::Int64(limit));
        rows.text(" OFFSET ");
        rows.bind(SqlValue::Int64(offset));
        let mut count = QueryWriter::new(dialect);
        count.text(COUNT_CABLE_COLORS);
        ListQuery { rows: rows.finish(), count: count.finish() }
    }

    /// The first step of changing a cable colour: the statement that reads
    /// it, to learn whether it exists.
    pub fn update_cable_color(&self, id: i64) -> (s: Statement)
        ensures
            s@ == cable_color_by_id_statement(self.dialect(), id),
    {
        self.get_cable_color(id)
    }

    /// The second step of changing a cable colour, once it has been read.
    /// The change is refused where the colour does not exist, and where the
    /// request names no field at all, in this order; else the result is the
    /// statement that writes the fields that the request names and leaves
    /// the others as they are. The moment of the change is written as the
    /// present moment, or one step after the moment of the last change where
    /// the clock has not moved on since, so that it always moves on.
    pub fn update_cable_color_checked(
        &self,
        id: i64,
        req: &UpdateCableColorRequest,
        existing: &Option<CableColor>,
        now: Timestamp,
    ) -> (r: AppResult<Statement>)
        ensures
            match *existing {
                None => cable_color_not_found(r, id),
                Some(color) => if req@.is_empty() {
                    fails_with(r, ErrorKind::BadRequest, "No fields to update"@)
                } else {
                    match moment_after(color.updated_at, now) {
                        Some(written) => r matches Ok(s) && s@ == update_cable_color_statement(
                            self.dialect(),
                            id,
                            req@,
                            written,
                        ),
                        None => fails_with(
                            r,
                            ErrorKind::InternalServerError,
                            "updated_at cannot advance"@,
                        ),
                    }
                },
            },
    {
        let stored = match existing {
            Some(color) => color.updated_at,
            None => {
                return Err(
                    AppError::NotFound(sentence_with_id("Cable color with id ", id, " not found")),
                );
            },
        };
        if req.is_empty() {
            return Err(AppError::BadRequest(String::from_str("No fields to update")));
        }
        let written = match advance(stored, now) {
            Some(written) => written,
            None => {
                return Err(
                    AppError::InternalServerError(String::from_str("updated_at cannot advance")),
                );
            },
        };
        let mut updates: Vec<Assignment> = Vec::new();
        proof {
            assert(assignments_of(updates@) =~= Seq::<AssignmentView>::empty());
        }
        push_assignment(&mut updates, "name", SqlValue::opt_text(&req.name));
        push_assignment(&mut updates, "hex_code", SqlValue::opt_text(&req.hex_code));
        push_assignment(&mut updates, "description", SqlValue::opt_text(&req.description));
        proof {
            assert(assignments_of(updates@) =~= update_cable_color_assignments(req@));
        }
        let mut w = QueryWriter::new(self.db.dialect());
        w.text("UPDATE cable_colors SET ");
        w.coalesce_each(&updates);
        w.text(", updated_at = ");
        w.bind(SqlValue::Timestamp(written));
        w.text(" WHERE id = ");
        w.bind(SqlValue::Int64(id));
        Ok(w.finish())
    }

    /// The statement that removes the cable colour with the given number.
    pub fn delete_cable_color(&self, id: i64) -> (s: Statement)
        ensures
            s@ == StatementView::empty().text("DELETE FROM cable_colors WHERE id = "@).bind(
                self.dialect(),
                SqlParam::Int64(id),
            ),
    {
        let mut w = QueryWriter::new(self.db.dialect());
        w.text("DELETE FROM cable_colors WHERE id = ");
        w.bind(SqlValue::Int64(id));
        w.finish()
    }

    /// The outcome of removing a cable colour: success, or the failure to
    /// find it where the removal touched no row.
    pub fn delete_cable_color_done(&self, id: i64, rows_affected: u64) -> (r: AppResult<()>)
        ensures
            rows_affected == 0 ==> cable_color_not_found(r, id),
            rows_affected != 0 ==> r is Ok,
    {
        if rows_affected == 0 {
            return Err(
                AppError::NotFound(sentence_with_id("Cable color with id ", id, " not found")),
            );
        }
        Ok(())
    }
}

} // verus!
