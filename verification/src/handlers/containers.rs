//! What the container endpoints decide: the defaults of a listing, and the
//! status with which each outcome of the service is answered.

use vstd::prelude::*;
use crate::db::Statement;
use crate::error::{
    AppError, AppResult, ErrorKind, STATUS_BAD_REQUEST, STATUS_CREATED,
    STATUS_INTERNAL_SERVER_ERROR, STATUS_NOT_FOUND, STATUS_NO_CONTENT,
};
use crate::models::{Container, ContainerWithItemCount};
use crate::services::container_service::{
    container_predicates, container_sort_column, containers_list_statement, sort_direction,
    ContainerService,
};
use crate::text::opt_text;

verus! {

/// The filters and the order that a listing of containers asks for.
#[derive(Debug, Clone)]
pub struct ListContainersQuery {
    pub location: Option<String>,
    pub include_disposed: Option<bool>,
    pub search: Option<String>,
    pub sort_by: Option<String>,
    pub sort_order: Option<String>,
}

/// The answer to the creation of a container.
#[derive(Debug, Clone)]
pub struct CreateContainerResponse {
    pub container: Container,
}

/// The answer to the lookup of a container.
#[derive(Debug, Clone)]
pub struct GetContainerResponse {
    pub container: Container,
}

/// The answer to a listing of containers.
#[derive(Debug, Clone)]
pub struct ListContainersResponse {
    pub containers: Vec<ContainerWithItemCount>,
}

/// The answer to the change of a container.
#[derive(Debug, Clone)]
pub struct UpdateContainerResponse {
    pub container: Container,
}

/// Whether a container with the label exists.
#[derive(Debug, Clone, Copy, PartialEq, Eq, Structural)]
pub struct CheckContainerIdResponse {
    pub exists: bool,
}

/// The answer to a listing of the containers at a location.
#[derive(Debug, Clone)]
pub struct GetContainersByLocationResponse {
    pub containers: Vec<Container>,
}

/// The containers that are to be removed together.
#[derive(Debug, Clone)]
pub struct BulkDeleteContainersRequest {
    pub ids: Vec<String>,
}

/// The containers whose disposal state is to be set together.
#[derive(Debug, Clone)]
pub struct BulkUpdateContainersDisposedStatusRequest {
    pub ids: Vec<String>,
    pub is_disposed: bool,
}

/// The text that a query gives, or the given text where it gives none.
pub open spec fn given_or(value: Option<String>, fallback: Seq<char>) -> Seq<char> {
    match value {
        Some(s) => s@,
        None => fallback,
    }
}

/// The statement that lists the containers that the query asks for. Where
/// the query leaves them open, disposed containers are left out and the
/// newest container comes first.
pub fn list_containers(service: &ContainerService, query: &ListContainersQuery) -> (s: Statement)
    ensures
        s@ == containers_list_statement(
            service.dialect(),
            container_predicates(
                opt_text(query.location),
                query.include_disposed == Some(true),
                opt_text(query.search),
            ),
            container_sort_column(given_or(query.sort_by, "created_at"@)),
            sort_direction(given_or(query.sort_order, "desc"@)),
        ),
{
    let location_filter: Option<&str> = match &query.location {
        Some(l) => Some(l.as_str()),
        None => None,
    };
    let include_disposed = match query.include_disposed {
        Some(b) => b,
        None => false,
    };
    let search: Option<&str> = match &query.search {
        Some(t) => Some(t.as_str()),
        None => None,
    };
    let sort_by: &str = match &query.sort_by {
        Some(k) => k.as_str(),
        None => "created_at",
    };
    let sort_order: &str = match &query.sort_order {
        Some(o) => o.as_str(),
        None => "desc",
    };
    service.list_containers(location_filter, include_disposed, search, sort_by, sort_order)
}

/// The answer to the creation of a container: a request that breaks its
/// rules is a bad request, a failure of the service an internal error, and
/// the container that was created is handed out as created.
pub fn create_container(valid: bool, outcome: Option<AppResult<Container>>) -> (r: Result<
    (u16, CreateContainerResponse),
    u16,
>)
    ensures
        !valid ==> r == Err::<(u16, CreateContainerResponse), u16>(STATUS_BAD_REQUEST),
        valid ==> match outcome {
            Some(Ok(container)) => r == Ok::<(u16, CreateContainerResponse), u16>(
                (STATUS_CREATED, CreateContainerResponse { container }),
            ),
            _ => r == Err::<(u16, CreateContainerResponse), u16>(STATUS_INTERNAL_SERVER_ERROR),
        },
{
    if !valid {
        return Err(STATUS_BAD_REQUEST);
    }
    match outcome {
        Some(Ok(container)) => Ok((STATUS_CREATED, CreateContainerResponse { container })),
        _ => Err(STATUS_INTERNAL_SERVER_ERROR),
    }
}

/// The answer to the change of a container: a request that breaks its rules
/// is a bad request, and every failure of the service is answered as if the
/// container were missing.
pub fn update_container(valid: bool, outcome: Option<AppResult<Container>>) -> (r: Result<
    UpdateContainerResponse,
    u16,
>)
    ensures
        !valid ==> r == Err::<UpdateContainerResponse, u16>(STATUS_BAD_REQUEST),
        valid ==> match outcome {
            Some(Ok(container)) => r == Ok::<UpdateContainerResponse, u16>(
                UpdateContainerResponse { container },
            ),
            _ => r == Err::<UpdateContainerResponse, u16>(STATUS_NOT_FOUND),
        },
{
    if !valid {
        return Err(STATUS_BAD_REQUEST);
    }
    match outcome {
        Some(Ok(container)) => Ok(UpdateContainerResponse { container }),
        _ => Err(STATUS_NOT_FOUND),
    }
}

/// The answer to the lookup of a container: every failure of the service
/// is answered as if the container were missing.
pub fn get_container(outcome: AppResult<Container>) -> (r: Result<GetContainerResponse, u16>)
    ensures
        match outcome {
            Ok(container) => r == Ok::<GetContainerResponse, u16>(
                GetContainerResponse { container },
            ),
            Err(_) => r == Err::<GetContainerResponse, u16>(STATUS_NOT_FOUND),
        },
{
    match outcome {
        Ok(container) => Ok(GetContainerResponse { container }),
        Err(_) => Err(STATUS_NOT_FOUND),
    }
}

/// The answer to a listing of containers: every failure of the service is
/// an internal error.
pub fn list_containers_response(outcome: AppResult<Vec<ContainerWithItemCount>>) -> (r: Result<
    ListContainersResponse,
    u16,
>)
    ensures
        match outcome {
            Ok(containers) => r == Ok::<ListContainersResponse, u16>(
                ListContainersResponse { containers },
            ),
            Err(_) => r == Err::<ListContainersResponse, u16>(STATUS_INTERNAL_SERVER_ERROR),
        },
{
    match outcome {
        Ok(containers) => Ok(ListContainersResponse { containers }),
        Err(_) => Err(STATUS_INTERNAL_SERVER_ERROR),
    }
}

/// The answer to the removal of a container: every failure of the service,
/// the refusal to remove an occupied container too, is answered as if the
/// container were missing.
pub fn delete_container(outcome: &AppResult<()>) -> (r: Result<u16, u16>)
    ensures
        match *outcome {
            Ok(_) => r == Ok::<u16, u16>(STATUS_NO_CONTENT),
            Err(_) => r == Err::<u16, u16>(STATUS_NOT_FOUND),
        },
{
    match outcome {
        Ok(_) => Ok(STATUS_NO_CONTENT),
        Err(_) => Err(STATUS_NOT_FOUND),
    }
}

/// The answer to the question whether a container exists: every failure of
/// the service is an internal error.
pub fn check_container_id(outcome: AppResult<bool>) -> (r: Result<CheckContainerIdResponse, u16>)
    ensures
        match outcome {
            Ok(exists) => r == Ok::<CheckContainerIdResponse, u16>(
                CheckContainerIdResponse { exists },
            ),
            Err(_) => r == Err::<CheckContainerIdResponse, u16>(STATUS_INTERNAL_SERVER_ERROR),
        },
{
    match outcome {
        Ok(exists) => Ok(CheckContainerIdResponse { exists }),
        Err(_) => Err(STATUS_INTERNAL_SERVER_ERROR),
    }
}

/// The answer to a listing of the containers at a location: every failure
/// of the service is an internal error.
pub fn get_containers_by_location(outcome: AppResult<Vec<Container>>) -> (r: Result<
    GetContainersByLocationResponse,
    u16,
>)
    ensures
        match outcome {
            Ok(containers) => r == Ok::<GetContainersByLocationResponse, u16>(
                GetContainersByLocationResponse { containers },
            ),
            Err(_) => r == Err::<GetContainersByLocationResponse, u16>(
                STATUS_INTERNAL_SERVER_ERROR,
            ),
        },
{
    match outcome {
        Ok(containers) => Ok(GetContainersByLocationResponse { containers }),
        Err(_) => Err(STATUS_INTERNAL_SERVER_ERROR),
    }
}

/// The answer to the removal of several containers: a refusal of the
/// service is a bad request, any other failure an internal error.
pub fn bulk_delete_containers(outcome: &AppResult<()>) -> (r: Result<u16, u16>)
    ensures
        match *outcome {
            Ok(_) => r == Ok::<u16, u16>(STATUS_NO_CONTENT),
            Err(e) => if e.spec_kind() == ErrorKind::BadRequest {
                r == Err::<u16, u16>(STATUS_BAD_REQUEST)
            } else {
                r == Err::<u16, u16>(STATUS_INTERNAL_SERVER_ERROR)
            },
        },
{
    match outcome {
        Ok(_) => Ok(STATUS_NO_CONTENT),
        Err(AppError::BadRequest(_)) => Err(STATUS_BAD_REQUEST),
        Err(_) => Err(STATUS_INTERNAL_SERVER_ERROR),
    }
}

/// The answer to the setting of the disposal state of several containers:
/// every failure of the service is an internal error.
pub fn bulk_update_containers_disposed_status(outcome: &AppResult<()>) -> (r: Result<u16, u16>)
    ensures
        match *outcome {
            Ok(_) => r == Ok::<u16, u16>(STATUS_NO_CONTENT),
            Err(_) => r == Err::<u16, u16>(STATUS_INTERNAL_SERVER_ERROR),
        },
{
    match outcome {
        Ok(_) => Ok(STATUS_NO_CONTENT),
        Err(_) => Err(STATUS_INTERNAL_SERVER_ERROR),
    }
}

} // verus!
