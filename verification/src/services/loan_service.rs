//! Loans: the statements that read and write them, and the guards that keep
//! an item from being lent twice and a loan from being returned twice.

use vstd::prelude::*;
use vstd::string::StringExecFns;
use crate::db::{
    offset_of, page_offset, params_of, predicates_of, push_predicate, push_value,
    text_param, DatabasePool, Dialect, ListQuery, Predicate, PredicateView, QueryWriter, SqlParam,
    SqlValue, Statement, StatementView, Timestamp,
};
use crate::error::{fails_with, AppError, AppResult, ErrorKind};
use crate::models::{CreateLoanRequest, CreateLoanRequestView, Loan, ReturnLoanRequest};
use crate::text::{opt_text, sentence_with_id, signed_decimal};

verus! {

/// The start of every statement that reads loans.
pub const SELECT_LOANS: &'static str =
    "SELECT id, item_id, student_number, student_name, organization, loan_date, return_date, remarks, created_at, updated_at FROM loans";

/// The start of the statement that lists loans with their items.
pub const SELECT_LOANS_WITH_ITEM: &'static str =
    "SELECT l.id, l.item_id, l.student_number, l.student_name, l.organization, l.loan_date, l.return_date, l.remarks, l.created_at, l.updated_at, i.name as item_name, i.label_id as item_label_id FROM loans l INNER JOIN items i ON l.item_id = i.id";

/// The start of the statement that counts loans.
pub const COUNT_LOANS: &'static str =
    "SELECT COUNT(*) as count FROM loans l INNER JOIN items i ON l.item_id = i.id";

/// The start of the statement that inserts a loan.
pub const INSERT_LOAN: &'static str =
    "INSERT INTO loans (item_id, student_number, student_name, organization, remarks) VALUES (";

/// What the guard of a new loan reads of the item: whether it is out on
/// loan, and whether it is disposed of. A state that the row does not hold
/// is absent.
#[derive(Debug, Clone, Copy, PartialEq, Eq, Structural)]
pub struct ItemStatus {
    pub is_on_loan: Option<bool>,
    pub is_disposed: Option<bool>,
}

/// What the guard of a return reads of the loan: the item that was
/// borrowed, where the row holds it, and whether the loan has a date of
/// return.
#[derive(Debug, Clone, Copy, PartialEq, Eq, Structural)]
pub struct LoanStatus {
    pub item_id: Option<i64>,
    pub returned: bool,
}

/// The two writes that close a loan: the loan gets its date of return, the
/// item is no longer on loan.
#[derive(Debug)]
pub struct ReturnPlan {
    pub update_loan: Statement,
    pub update_item: Statement,
}

/// Whether a state that may be absent is set.
pub open spec fn is_set(flag: Option<bool>) -> bool {
    flag == Some(true)
}

/// The predicates of a listing of loans, in a fixed order: item, student,
/// open or closed.
pub open spec fn loan_predicates(
    item_id: Option<i64>,
    student_number: Option<Seq<char>>,
    active_only: Option<bool>,
) -> Seq<PredicateView> {
    let p0 = Seq::<PredicateView>::empty();
    let p1 = match item_id {
        Some(id) => p0.push(
            PredicateView::Equals { column: "l.item_id"@, value: SqlParam::Int64(id) },
        ),
        None => p0,
    };
    let p2 = match student_number {
        Some(n) => p1.push(
            PredicateView::Equals { column: "l.student_number"@, value: SqlParam::Text(n) },
        ),
        None => p1,
    };
    match active_only {
        Some(true) => p2.push(PredicateView::IsNull { column: "l.return_date"@ }),
        Some(false) => p2.push(PredicateView::IsNotNull { column: "l.return_date"@ }),
        None => p2,
    }
}

/// The statement that fetches one page of the loans that pass the
/// predicates, newest first.
pub open spec fn loans_page_statement(
    dialect: Dialect,
    predicates: Seq<PredicateView>,
    page: u32,
    per_page: u32,
) -> StatementView {
    StatementView::empty().text(SELECT_LOANS_WITH_ITEM@).where_all(dialect, predicates).text(
        " ORDER BY l.created_at DESC, l.id DESC LIMIT "@,
    ).bind(dialect, SqlParam::Int64(per_page as i64)).text(" OFFSET "@).bind(
        dialect,
        SqlParam::Int64(offset_of(page, per_page) as i64),
    )
}

/// The statement that counts the loans that pass the predicates.
pub open spec fn loans_count_statement(
    dialect: Dialect,
    predicates: Seq<PredicateView>,
) -> StatementView {
    StatementView::empty().text(COUNT_LOANS@).where_all(dialect, predicates)
}

/// The statement that reads the state of an item before it is lent.
pub open spec fn item_status_statement(dialect: Dialect, item_id: i64) -> StatementView {
    StatementView::empty().text(
        "SELECT id, name, is_on_loan, is_disposed FROM items WHERE id = "@,
    ).bind(dialect, SqlParam::Int64(item_id))
}

/// The values that the insertion of a loan binds, in the order of the
/// columns.
pub open spec fn create_loan_params(request: CreateLoanRequestView) -> Seq<SqlParam> {
    seq![
        SqlParam::Int64(request.item_id),
        SqlParam::Text(request.student_number),
        SqlParam::Text(request.student_name),
        text_param(request.organization),
        text_param(request.remarks),
    ]
}

/// The statement that inserts a loan. For Postgres it hands back the number
/// of the new loan; SQLite reports that number by itself.
pub open spec fn insert_loan_statement(
    dialect: Dialect,
    request: CreateLoanRequestView,
) -> StatementView {
    let inserted = StatementView::empty().text(INSERT_LOAN@).bind_list(
        dialect,
        create_loan_params(request),
        5,
    ).text(")"@);
    match dialect {
        Dialect::Postgres => inserted.text(" RETURNING id"@),
        Dialect::Sqlite => inserted,
    }
}

/// The statement that marks an item as on loan or as back.
pub open spec fn set_on_loan_statement(
    dialect: Dialect,
    item_id: i64,
    on_loan: bool,
    now: Timestamp,
) -> StatementView {
    StatementView::empty().text("UPDATE items SET is_on_loan = "@).bind(
        dialect,
        SqlParam::Bool(on_loan),
    ).text(", updated_at = "@).bind(dialect, SqlParam::Timestamp(now)).text(" WHERE id = "@).bind(
        dialect,
        SqlParam::Int64(item_id),
    )
}

/// The statement that reads the loan with the given number.
pub open spec fn loan_by_id_statement(dialect: Dialect, id: i64) -> StatementView {
    StatementView::empty().text(SELECT_LOANS@).text(" WHERE id = "@).bind(
        dialect,
        SqlParam::Int64(id),
    )
}

/// The statement that reads the state of a loan before it is closed.
pub open spec fn loan_status_statement(dialect: Dialect, id: i64) -> StatementView {
    StatementView::empty().text("SELECT id, item_id, return_date FROM loans WHERE id = "@).bind(
        dialect,
        SqlParam::Int64(id),
    )
}

/// The statement that closes a loan: it sets the date of return, the
/// remarks and the moment of the change.
pub open spec fn close_loan_statement(
    dialect: Dialect,
    id: i64,
    return_date: Timestamp,
    remarks: Option<Seq<char>>,
    now: Timestamp,
) -> StatementView {
    StatementView::empty().text("UPDATE loans SET return_date = "@).bind(
        dialect,
        SqlParam::Timestamp(return_date),
    ).text(", remarks = "@).bind(dialect, text_param(remarks)).text(", updated_at = "@).bind(
        dialect,
        SqlParam::Timestamp(now),
    ).text(" WHERE id = "@).bind(dialect, SqlParam::Int64(id))
}

/// The date under which a loan is closed: the date of the request, or the
/// moment at which the request is served.
pub open spec fn date_of_return(requested: Option<Timestamp>, now: Timestamp) -> Timestamp {
    match requested {
        Some(t) => t,
        None => now,
    }
}

/// The operations on loans, for the dialect of one database.
#[derive(Debug, Clone)]
pub struct LoanService {
    db: DatabasePool,
}

impl LoanService {
    /// The dialect that the statements are written for.
    pub closed spec fn dialect(&self) -> Dialect {
        self.db.spec_dialect()
    }

    /// The operations on loans of the given database.
    pub fn new(db: DatabasePool) -> (s: LoanService)
        ensures
            s.dialect() == db.spec_dialect(),
    {
        LoanService { db }
    }

    fn set_on_loan(&self, item_id: i64, on_loan: bool, now: Timestamp) -> (s: Statement)
        ensures
            s@ == set_on_loan_statement(self.dialect(), item_id, on_loan, now),
    {
        let mut w = QueryWriter::new(self.db.dialect());
        w.text("UPDATE items SET is_on_loan = ");
        w.bind(SqlValue::Bool(on_loan));
        w.text(", updated_at = ");
        w.bind(SqlValue::Timestamp(now));
        w.text(" WHERE id = ");
        w.bind(SqlValue::Int64(item_id));
        w.finish()
    }

    /// The first step of lending an item: the statement that reads the state
    /// of the item.
    pub fn create_loan(&self, req: &CreateLoanRequest) -> (s: Statement)
        ensures
            s@ == item_status_statement(self.dialect(), req.item_id),
    {
        let mut w = QueryWriter::new(self.db.dialect());
        w.text("SELECT id, name, is_on_loan, is_disposed FROM items WHERE id = ");
        w.bind(SqlValue::Int64(req.item_id));
        w.finish()
    }

    /// The second step of lending an item, once its state has been read. The
    /// loan is refused where the item does not exist, is out on loan already,
    /// or is disposed of, in this order; else the result is the statement
    /// that inserts the loan.
    pub fn create_loan_checked(&self, req: &CreateLoanRequest, item: Option<ItemStatus>) -> (r:
        AppResult<Statement>)
        ensures
            match item {
                None => fails_with(
                    r,
                    ErrorKind::NotFound,
                    "Item with id "@ + signed_decimal(req.item_id as int) + " not found"@,
                ),
                Some(status) => if is_set(status.is_on_loan) {
                    fails_with(r, ErrorKind::BadRequest, "Item is already on loan"@)
                } else if is_set(status.is_disposed) {
                    fails_with(r, ErrorKind::BadRequest, "Item is disposed and cannot be loaned"@)
                } else {
                    r matches Ok(s) && s@ == insert_loan_statement(self.dialect(), req@)
                },
            },
    {
        let status = match item {
            Some(status) => status,
            None => {
                return Err(
                    AppError::NotFound(sentence_with_id("Item with id ", req.item_id, " not found")),
                );
            },
        };
        if let Some(true) = status.is_on_loan {
            return Err(AppError::BadRequest(String::from_str("Item is already on loan")));
        }
        if let Some(true) = status.is_disposed {
            return Err(
                AppError::BadRequest(String::from_str("Item is disposed and cannot be loaned")),
            );
        }
        let dialect = self.db.dialect();
        let mut values: Vec<SqlValue> = Vec::new();
        proof {
            assert(params_of(values@) =~= Seq::<SqlParam>::empty());
        }
        push_value(&mut values, SqlValue::Int64(req.item_id));
        push_value(&mut values, SqlValue::Text(req.student_number.clone()));
        push_value(&mut values, SqlValue::Text(req.student_name.clone()));
        push_value(&mut values, SqlValue::opt_text(&req.organization));
        push_value(&mut values, SqlValue::opt_text(&req.remarks));
        proof {
            assert(params_of(values@) =~= create_loan_params(req@));
        }
        let mut w = QueryWriter::new(dialect);
        w.text(INSERT_LOAN);
        w.bind_list(&values);
        w.text(")");
        match dialect {
            Dialect::Postgres => w.text(" RETURNING id"),
            Dialect::Sqlite => {},
        }
        Ok(w.finish())
    }

    /// The third step of lending an item, once the loan has been inserted:
    /// the statement that marks the item as on loan.
    pub fn create_loan_inserted(&self, req: &CreateLoanRequest, now: Timestamp) -> (s: Statement)
        ensures
            s@ == set_on_loan_statement(self.dialect(), req.item_id, true, now),
    {
        self.set_on_loan(req.item_id, true, now)
    }

    /// The statement that reads the loan with the given number.
    pub fn get_loan(&self, id: i64) -> (s: Statement)
        ensures
            s@ == loan_by_id_statement(self.dialect(), id),
    {
        let mut w = QueryWriter::new(self.db.dialect());
        w.text(SELECT_LOANS);
        w.text(" WHERE id = ");
        w.bind(SqlValue::Int64(id));
        w.finish()
    }

    /// The loan that was read, or the failure to find it.
    pub fn get_loan_result(&self, id: i64, loan: Option<Loan>) -> (r: AppResult<Loan>)
        ensures
            match loan {
                Some(found) => r == Ok::<Loan, AppError>(found),
                None => fails_with(
                    r,
                    ErrorKind::NotFound,
                    "Loan with id "@ + signed_decimal(id as int) + " not found"@,
                ),
            },
    {
        match loan {
            Some(found) => Ok(found),
            None => Err(AppError::NotFound(sentence_with_id("Loan with id ", id, " not found"))),
        }
    }

    /// The two statements that list loans: the rows of page `page`, newest
    /// first, and the number of all loans that pass the filters. A filter
    /// that is absent is not applied; `active_only` keeps the open loans when
    /// it is true and the closed ones when it is false.
    pub fn list_loans(
        &self,
        page: u32,
        per_page: u32,
        item_id: Option<i64>,
        student_number: Option<String>,
        active_only: Option<bool>,
    ) -> (q: ListQuery)
        requires
            page >= 1,
            per_page >= 1,
            offset_of(page, per_page) <= i64::MAX,
        ensures
            q.rows@ == loans_page_statement(
                self.dialect(),
                loan_predicates(item_id, opt_text(student_number), active_only),
                page,
                per_page,
            ),
            q.count@ == loans_count_statement(
                self.dialect(),
                loan_predicates(item_id, opt_text(student_number), active_only),
            ),
    {
        let dialect = self.db.dialect();
        let offset: i64 = page_offset(page, per_page);
        let limit: i64 = per_page as i64;
        let mut predicates: Vec<Predicate> = Vec::new();
        proof {
            assert(predicates_of(predicates@) =~= Seq::<PredicateView>::empty());
        }
        if let Some(id) = item_id {
            push_predicate(
                &mut predicates,
                Predicate::Equals { column: "l.item_id", value: SqlValue::Int64(id) },
            );
        }
        if let Some(number) = student_number {
            push_predicate(
                &mut predicates,
                Predicate::Equals { column: "l.student_number", value: SqlValue::Text(number) },
            );
        }
        if let Some(active) = active_only {
            if active {
                push_predicate(&mut predicates, Predicate::IsNull { column: "l.return_date" });
            } else {
                push_predicate(&mut predicates, Predicate::IsNotNull { column: "l.return_date" });
            }
        }
        let mut rows = QueryWriter::new(dialect);
        rows.text(SELECT_LOANS_WITH_ITEM);
        rows.where_all(&predicates);
        rows.text(" ORDER BY l.created_at DESC, l.id DESC LIMIT ");
        rows.bind(SqlValue::Int64(limit));
        rows.text(" OFFSET ");
        rows.bind(SqlValue::Int64(offset));
        let mut count = QueryWriter::new(dialect);
        count.text(COUNT_LOANS);
        count.where_all(&predicates);
        ListQuery { rows: rows.finish(), count: count.finish() }
    }

    /// The first step of returning an item: the statement that reads the
    /// state of the loan.
    pub fn return_loan(&self, id: i64) -> (s: Statement)
        ensures
            s@ == loan_status_statement(self.dialect(), id),
    {
        let mut w = QueryWriter::new(self.db.dialect());
        w.text("SELECT id, item_id, return_date FROM loans WHERE id = ");
        w.bind(SqlValue::Int64(id));
        w.finish()
    }

    /// The second step of returning an item, once the state of the loan has
    /// been read. The return is refused where the loan does not exist or is
    /// closed already; else the result is the pair of writes that close the
    /// loan under the date of the request, or under `now` where the request
    /// names none, and mark the item as back.
    pub fn return_loan_checked(
        &self,
        id: i64,
        req: &ReturnLoanRequest,
        loan: Option<LoanStatus>,
        now: Timestamp,
    ) -> (r: AppResult<ReturnPlan>)
        ensures
            match loan {
                None => fails_with(
                    r,
                    ErrorKind::NotFound,
                    "Loan with id "@ + signed_decimal(id as int) + " not found"@,
                ),
                Some(status) => if status.returned {
                    fails_with(r, ErrorKind::BadRequest, "Loan has already been returned"@)
                } else {
                    match status.item_id {
                        None => fails_with(
                            r,
                            ErrorKind::InternalServerError,
                            "Loan record missing item_id"@,
                        ),
                        Some(item_id) => r matches Ok(plan) && plan.update_loan@
                            == close_loan_statement(
                            self.dialect(),
                            id,
                            date_of_return(req.return_date, now),
                            opt_text(req.remarks),
                            now,
                        ) && plan.update_item@ == set_on_loan_statement(
                            self.dialect(),
                            item_id,
                            false,
                            now,
                        ),
                    }
                },
            },
    {
        let status = match loan {
            Some(status) => status,
            None => {
                return Err(AppError::NotFound(sentence_with_id("Loan with id ", id, " not found")));
            },
        };
        if status.returned {
            return Err(AppError::BadRequest(String::from_str("Loan has already been returned")));
        }
        let item_id: i64 = match status.item_id {
            Some(item_id) => item_id,
            None => {
                return Err(
                    AppError::InternalServerError(String::from_str("Loan record missing item_id")),
                );
            },
        };
        let return_date = match req.return_date {
            Some(t) => t,
            None => now,
        };
        let mut w = QueryWriter::new(self.db.dialect());
        w.text("UPDATE loans SET return_date = ");
        w.bind(SqlValue::Timestamp(return_date));
        w.text(", remarks = ");
        w.bind(SqlValue::opt_text(&req.remarks));
        w.text(", updated_at = ");
        w.bind(SqlValue::Timestamp(now));
        w.text(" WHERE id = ");
        w.bind(SqlValue::Int64(id));
        let update_item = self.set_on_loan(item_id, false, now);
        Ok(ReturnPlan { update_loan: w.finish(), update_item })
    }
}

} // verus!
