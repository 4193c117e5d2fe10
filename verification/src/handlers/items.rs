//! What the item endpoints decide before they call the service.

use vstd::prelude::*;
use crate::db::ListQuery;
use crate::error::{fails_with, AppResult, ErrorKind};
use crate::handlers::cable_colors::{check_page, default_page, default_per_page, is_page};
use crate::handlers::images::{stated_or, ImageField, IMAGE_FIELD};
use crate::services::item_service::{
    item_predicates, items_count_statement, items_page_statement, ItemService,
};
use crate::text::{copy_opt_text, opt_text, str_eq};
use vstd::string::StringExecFns;

verus! {

/// The page and the filters that a listing of items asks for.
#[derive(Debug, Clone)]
pub struct ItemsQuery {
    pub page: u32,
    pub per_page: u32,
    pub search: Option<String>,
    pub is_on_loan: Option<bool>,
    pub is_disposed: Option<bool>,
    pub container_id: Option<String>,
    pub storage_type: Option<String>,
}

/// A list of suggestions.
#[derive(Debug, Clone)]
pub struct SuggestionsResponse {
    pub suggestions: Vec<String>,
}

/// The items that are to be removed together.
#[derive(Debug, Clone)]
pub struct BulkDeleteItemsRequest {
    pub ids: Vec<String>,
}

/// The items whose disposal state is to be set together.
#[derive(Debug, Clone)]
pub struct BulkUpdateItemsDisposedStatusRequest {
    pub ids: Vec<String>,
    pub is_disposed: bool,
}

impl ItemsQuery {
    /// The query without filters for the given page and size, each taking
    /// its default where it is not given: the first page, twenty rows.
    pub fn new(page: Option<u32>, per_page: Option<u32>) -> (q: ItemsQuery)
        ensures
            q.page == match page {
                Some(p) => p,
                None => 1,
            },
            q.per_page == match per_page {
                Some(p) => p,
                None => 20,
            },
            q.search is None,
            q.is_on_loan is None,
            q.is_disposed is None,
            q.container_id is None,
            q.storage_type is None,
    {
        ItemsQuery {
            page: match page {
                Some(p) => p,
                None => default_page(),
            },
            per_page: match per_page {
                Some(p) => p,
                None => default_per_page(),
            },
            search: None,
            is_on_loan: None,
            is_disposed: None,
            container_id: None,
            storage_type: None,
        }
    }
}

/// The statements that list the items of the page that the query asks for,
/// under its filters. A query for no page is refused.
pub fn list_items(service: &ItemService, params: &ItemsQuery) -> (r: AppResult<ListQuery>)
    ensures
        !is_page(params.page, params.per_page) ==> fails_with(
            r,
            ErrorKind::BadRequest,
            "page must be at least 1 and per_page must be positive"@,
        ),
        is_page(params.page, params.per_page) ==> (r matches Ok(q) && q.rows@
            == items_page_statement(
            service.dialect(),
            item_predicates(
                service.dialect(),
                opt_text(params.search),
                params.is_on_loan,
                params.is_disposed,
                opt_text(params.container_id),
                opt_text(params.storage_type),
            ),
            params.page,
            params.per_page,
        ) && q.count@ == items_count_statement(
            service.dialect(),
            item_predicates(
                service.dialect(),
                opt_text(params.search),
                params.is_on_loan,
                params.is_disposed,
                opt_text(params.container_id),
                opt_text(params.storage_type),
            ),
        )),
{
    check_page(params.page, params.per_page)?;
    Ok(
        service.list_items(
            params.page,
            params.per_page,
            copy_opt_text(&params.search),
            params.is_on_loan,
            params.is_disposed,
            copy_opt_text(&params.container_id),
            copy_opt_text(&params.storage_type),
        ),
    )
}

/// Looks at one part of an upload that adds an image to an item. A part
/// under another name than `image` is passed over. A part without file name
/// counts as `image.jpg`, one without content type as `image/jpeg`.
pub fn add_item_image(
    name: Option<&str>,
    file_name: Option<&str>,
    content_type: Option<&str>,
) -> (r: Option<ImageField>)
    ensures
        stated_or(name, ""@) != IMAGE_FIELD@ ==> r is None,
        stated_or(name, ""@) == IMAGE_FIELD@ ==> (r matches Some(field) && field.filename@
            == stated_or(file_name, "image.jpg"@) && field.content_type@ == stated_or(
            content_type,
            "image/jpeg"@,
        )),
{
    let name = match name {
        Some(n) => n,
        None => "",
    };
    if !str_eq(name, IMAGE_FIELD) {
        return None;
    }
    let filename = match file_name {
        Some(f) => f,
        None => "image.jpg",
    };
    let content_type = match content_type {
        Some(c) => c,
        None => "image/jpeg",
    };
    Some(
        ImageField {
            filename: String::from_str(filename),
            content_type: String::from_str(content_type),
        },
    )
}

} // verus!
