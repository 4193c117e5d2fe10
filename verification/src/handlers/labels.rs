//! The requests and answers of the label endpoints.

use vstd::prelude::*;
use vstd::string::StringExecFns;
use crate::error::{fails_with, AppError, AppResult, ErrorKind};
use crate::text::{opt_text, str_eq};

verus! {

/// What a client sends to have labels generated.
#[derive(Debug, Clone)]
pub struct GenerateLabelsRequest {
    pub quantity: u32,
    /// One of `qr`, `barcode` and `nothing`.
    pub record_type: String,
}

/// The labels that were generated.
#[derive(Debug, Clone)]
pub struct GenerateLabelsResponse {
    pub visible_ids: Vec<String>,
}

/// One label of the pool: whether an item carries it, and the name of that
/// item.
#[derive(Debug, Clone)]
pub struct LabelInfo {
    pub id: String,
    pub used: bool,
    pub item_name: Option<String>,
}

/// The mathematical value of a [`LabelInfo`].
pub struct LabelInfoView {
    pub id: Seq<char>,
    pub used: bool,
    pub item_name: Option<Seq<char>>,
}

impl View for LabelInfo {
    type V = LabelInfoView;

    open spec fn view(&self) -> LabelInfoView {
        LabelInfoView { id: self.id@, used: self.used, item_name: opt_text(self.item_name) }
    }
}

/// The largest number of labels that one request may ask for.
pub const MAX_LABELS_PER_REQUEST: u32 = 1000;

/// Whether `record_type` names a way to record a label.
pub open spec fn is_record_type(record_type: Seq<char>) -> bool {
    record_type == "qr"@ || record_type == "barcode"@ || record_type == "nothing"@
}

/// Holds a request for labels to its rules: the quantity lies between one
/// and a thousand, and the record type is one of the three known ones. The
/// quantity is looked at first.
pub fn generate_labels(req: &GenerateLabelsRequest) -> (r: AppResult<u32>)
    ensures
        if req.quantity == 0 || req.quantity > MAX_LABELS_PER_REQUEST {
            fails_with(r, ErrorKind::BadRequest, "Quantity must be between 1 and 1000"@)
        } else if !is_record_type(req.record_type@) {
            fails_with(r, ErrorKind::BadRequest, "Invalid record type"@)
        } else {
            r == Ok::<u32, AppError>(req.quantity)
        },
{
    if req.quantity == 0 || req.quantity > MAX_LABELS_PER_REQUEST {
        return Err(AppError::BadRequest(String::from_str("Quantity must be between 1 and 1000")));
    }
    let record_type = req.record_type.as_str();
    if !(str_eq(record_type, "qr") || str_eq(record_type, "barcode") || str_eq(
        record_type,
        "nothing",
    )) {
        return Err(AppError::BadRequest(String::from_str("Invalid record type")));
    }
    Ok(req.quantity)
}

/// The answer to a request for labels. A refusal of the request, as when
/// the labels are used up, is handed on as it is. Any other failure of the
/// allocation is reported as a failure inside the service, under the text
/// of the failure.
pub fn generate_labels_response(allocated: AppResult<Vec<String>>) -> (r: AppResult<
    GenerateLabelsResponse,
>)
    ensures
        match allocated {
            Ok(labels) => r matches Ok(response) && response.visible_ids == labels,
            Err(e) => if e.spec_kind() == ErrorKind::BadRequest {
                fails_with(r, ErrorKind::BadRequest, e.detail())
            } else {
                fails_with(
                    r,
                    ErrorKind::InternalServer,
                    crate::error::prefix_of(e.spec_kind()) + e.detail(),
                )
            },
        },
{
    match allocated {
        Ok(labels) => Ok(GenerateLabelsResponse { visible_ids: labels }),
        Err(AppError::BadRequest(m)) => Err(AppError::BadRequest(m)),
        Err(e) => Err(AppError::InternalServer(e.fmt())),
    }
}

/// The answer to the question what is known of every label. A failure of
/// the service is reported as a failure inside the service, under the text
/// of the failure.
pub fn get_label_info(listed: AppResult<Vec<LabelInfo>>) -> (r: AppResult<Vec<LabelInfo>>)
    ensures
        match listed {
            Ok(labels) => r == Ok::<Vec<LabelInfo>, AppError>(labels),
            Err(e) => fails_with(
                r,
                ErrorKind::InternalServer,
                crate::error::prefix_of(e.spec_kind()) + e.detail(),
            ),
        },
{
    match listed {
        Ok(labels) => Ok(labels),
        Err(e) => Err(AppError::InternalServer(e.fmt())),
    }
}

} // verus!
