//! What the loan endpoints decide before they call the service.

use vstd::prelude::*;
use crate::db::ListQuery;
use crate::error::{fails_with, AppResult, ErrorKind};
use crate::handlers::cable_colors::{check_page, default_page, default_per_page, is_page};
use crate::services::loan_service::{
    loan_predicates, loans_count_statement, loans_page_statement, LoanService,
};
use crate::text::{copy_opt_text, opt_text};

verus! {

/// The page and the filters that a listing of loans asks for.
#[derive(Debug, Clone)]
pub struct LoansQuery {
    pub page: u32,
    pub per_page: u32,
    pub item_id: Option<i64>,
    pub student_number: Option<String>,
    pub active_only: Option<bool>,
}

impl LoansQuery {
    /// The query without filters for the given page and size, each taking
    /// its default where it is not given: the first page, twenty rows.
    pub fn new(page: Option<u32>, per_page: Option<u32>) -> (q: LoansQuery)
        ensures
            q.page == match page {
                Some(p) => p,
                None => 1,
            },
            q.per_page == match per_page {
                Some(p) => p,
                None => 20,
            },
            q.item_id is None,
            q.student_number is None,
            q.active_only is None,
    {
        LoansQuery {
            page: match page {
                Some(p) => p,
                None => default_page(),
            },
            per_page: match per_page {
                Some(p) => p,
                None => default_per_page(),
            },
            item_id: None,
            student_number: None,
            active_only: None,
        }
    }
}

/// The statements that list the loans of the page that the query asks for,
/// under its filters. A query for no page is refused.
pub fn list_loans(service: &LoanService, params: &LoansQuery) -> (r: AppResult<ListQuery>)
    ensures
        !is_page(params.page, params.per_page) ==> fails_with(
            r,
            ErrorKind::BadRequest,
            "page must be at least 1 and per_page must be positive"@,
        ),
        is_page(params.page, params.per_page) ==> (r matches Ok(q) && q.rows@
            == loans_page_statement(
            service.dialect(),
            loan_predicates(params.item_id, opt_text(params.student_number), params.active_only),
            params.page,
            params.per_page,
        ) && q.count@ == loans_count_statement(
            service.dialect(),
            loan_predicates(params.item_id, opt_text(params.student_number), params.active_only),
        )),
{
    check_page(params.page, params.per_page)?;
    Ok(
        service.list_loans(
            params.page,
            params.per_page,
            params.item_id,
            copy_opt_text(&params.student_number),
            params.active_only,
        ),
    )
}

} // verus!
