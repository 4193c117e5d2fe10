//! The entities of the inventory and the requests that act on them.

pub mod cable_color;
pub mod container;
pub mod item;
pub mod loan;

pub use container::{
    Container, ContainerView, ContainerWithItemCount, CreateContainerRequest,
    CreateContainerRequestView, UpdateContainerRequest, UpdateContainerRequestView,
};
pub use item::{
    items_of, CreateItemRequest, CreateItemRequestView, Item, ItemView, ItemsListResponse,
    UpdateItemRequest, UpdateItemRequestView,
};
pub use loan::{
    CreateLoanRequest, CreateLoanRequestView, Loan, LoanFilters, LoanWithItem, LoansListResponse,
    ReturnLoanRequest,
};
pub use cable_color::{
    CableColor, CableColorsListResponse, CreateCableColorRequest, CreateCableColorRequestView,
    UpdateCableColorRequest, UpdateCableColorRequestView,
};
