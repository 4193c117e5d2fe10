//! The operations of the service, one module for each kind of entity.

pub mod cable_color_service;
pub mod container_service;
pub mod item_service;
pub mod label_allocator;
pub mod loan_service;
pub mod storage;

pub use container_service::{BulkDisposal, ContainerCountRow, ContainerRow, ContainerService};
pub use item_service::{ItemRow, ItemService, LabelAllocation, UsedLabel};
pub use label_allocator::LabelCounter;
pub use loan_service::{ItemStatus, LoanService, LoanStatus, ReturnPlan};
pub use cable_color_service::CableColorService;
pub use storage::{LocalStorage, S3Storage, StorageService};
