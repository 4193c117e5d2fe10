//! What the cable colour endpoints decide before they call the service.

use vstd::prelude::*;
use vstd::string::StringExecFns;
use crate::db::{offset_of, ListQuery, StatementView};
use crate::error::{fails_with, AppError, AppResult, ErrorKind};
use crate::services::cable_color_service::{
    cable_colors_page_statement, CableColorService, COUNT_CABLE_COLORS,
};

verus! {

/// The page that a listing of cable colours asks for.
#[derive(Debug, Clone, Copy, PartialEq, Eq, Structural)]
pub struct CableColorsQuery {
    pub page: u32,
    pub per_page: u32,
}

/// The page that is listed where none is asked for.
pub fn default_page() -> (r: u32)
    ensures
        r == 1,
{
    1
}

/// The number of rows of a page where none is asked for.
pub fn default_per_page() -> (r: u32)
    ensures
        r == 20,
{
    20
}

/// Whether a page can be listed: pages are counted from one, a page holds at
/// least one row, and the rows before the page can be counted.
pub open spec fn is_page(page: u32, per_page: u32) -> bool {
    page >= 1 && per_page >= 1 && offset_of(page, per_page) <= i64::MAX
}

/// Holds a page to its rules.
pub fn check_page(page: u32, per_page: u32) -> (r: AppResult<()>)
    ensures
        is_page(page, per_page) ==> r is Ok,
        !is_page(page, per_page) ==> fails_with(
            r,
            ErrorKind::BadRequest,
            "page must be at least 1 and per_page must be positive"@,
        ),
{
    let fits = page >= 1 && per_page >= 1 && {
        let before: u64 = (page - 1) as u64;
        let size: u64 = per_page as u64;
        assert(before * size <= u64::MAX) by (nonlinear_arith)
            requires
                before <= 0xffff_ffff,
                size <= 0xffff_ffff,
        ;
        before * size <= 0x7fff_ffff_ffff_ffff
    };
    if fits {
        Ok(())
    } else {
        Err(
            AppError::BadRequest(
                String::from_str("page must be at least 1 and per_page must be positive"),
            ),
        )
    }
}

impl CableColorsQuery {
    /// The query for the given page and size, each taking its default where
    /// it is not given.
    pub fn new(page: Option<u32>, per_page: Option<u32>) -> (q: CableColorsQuery)
        ensures
            q.page == match page {
                Some(p) => p,
                None => 1,
            },
            q.per_page == match per_page {
                Some(p) => p,
                None => 20,
            },
    {
        CableColorsQuery {
            page: match page {
                Some(p) => p,
                None => default_page(),
            },
            per_page: match per_page {
                Some(p) => p,
                None => default_per_page(),
            },
        }
    }
}

/// The statements that list the cable colours of the page that the query
/// asks for. A query for no page is refused.
pub fn list_cable_colors(service: &CableColorService, params: &CableColorsQuery) -> (r: AppResult<
    ListQuery,
>)
    ensures
        !is_page(params.page, params.per_page) ==> fails_with(
            r,
            ErrorKind::BadRequest,
            "page must be at least 1 and per_page must be positive"@,
        ),
        is_page(params.page, params.per_page) ==> (r matches Ok(q) && q.rows@
            == cable_colors_page_statement(service.dialect(), params.page, params.per_page)
            && q.count@ == StatementView::empty().text(COUNT_CABLE_COLORS@)),
{
    check_page(params.page, params.per_page)?;
    Ok(service.list_cable_colors(params.page, params.per_page))
}

} // verus!
