//! What the endpoints decide before and after they call the services.

pub mod cable_colors;
pub mod containers;
pub mod ids;
pub mod images;
pub mod items;
pub mod labels;
pub mod loans;

pub use cable_colors::CableColorsQuery;
pub use containers::{
    BulkDeleteContainersRequest, BulkUpdateContainersDisposedStatusRequest,
    CheckContainerIdResponse, CreateContainerResponse, GetContainerResponse,
    GetContainersByLocationResponse, ListContainersQuery, ListContainersResponse,
    UpdateContainerResponse,
};
pub use ids::{DuplicateItem, IdCheckResponse};
pub use images::{ImageField, ImageUploadResponse};
pub use items::{
    BulkDeleteItemsRequest, BulkUpdateItemsDisposedStatusRequest, ItemsQuery, SuggestionsResponse,
};
pub use labels::{GenerateLabelsRequest, GenerateLabelsResponse, LabelInfo};
pub use loans::LoansQuery;
