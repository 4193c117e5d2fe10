//! Items: the assets that are tracked, and the requests that create and
//! change them.

use vstd::prelude::*;
use crate::db::Timestamp;
use crate::text::{opt_text, opt_texts};
use crate::validation::{
    check_length, check_opt_length, check_opt_range, check_opt_url, errors_of, length_between,
    note, noted, opt_in_range, opt_length_between, opt_url, outcome, FieldError, FieldErrorView,
    Rule,
};

verus! {

/// An item as the service hands it out.
#[derive(Debug, Clone)]
pub struct Item {
    pub id: i64,
    pub name: String,
    pub label_id: String,
    pub model_number: Option<String>,
    pub remarks: Option<String>,
    pub purchase_year: Option<i32>,
    /// The purchase amount, a single-precision number held as its IEEE 754
    /// bit pattern.
    pub purchase_amount: Option<u32>,
    pub durability_years: Option<i32>,
    pub is_depreciation_target: Option<bool>,
    pub connection_names: Option<Vec<String>>,
    pub cable_color_pattern: Option<Vec<String>>,
    pub storage_location: Option<String>,
    pub container_id: Option<String>,
    /// Either `location` or `container`.
    pub storage_type: String,
    pub is_on_loan: Option<bool>,
    pub qr_code_type: Option<String>,
    pub is_disposed: Option<bool>,
    pub image_url: Option<String>,
    pub created_at: Timestamp,
    pub updated_at: Timestamp,
}

/// The mathematical value of an [`Item`].
pub struct ItemView {
    pub id: i64,
    pub name: Seq<char>,
    pub label_id: Seq<char>,
    pub model_number: Option<Seq<char>>,
    pub remarks: Option<Seq<char>>,
    pub purchase_year: Option<i32>,
    pub purchase_amount: Option<u32>,
    pub durability_years: Option<i32>,
    pub is_depreciation_target: Option<bool>,
    pub connection_names: Option<Seq<Seq<char>>>,
    pub cable_color_pattern: Option<Seq<Seq<char>>>,
    pub storage_location: Option<Seq<char>>,
    pub container_id: Option<Seq<char>>,
    pub storage_type: Seq<char>,
    pub is_on_loan: Option<bool>,
    pub qr_code_type: Option<Seq<char>>,
    pub is_disposed: Option<bool>,
    pub image_url: Option<Seq<char>>,
    pub created_at: Timestamp,
    pub updated_at: Timestamp,
}

impl View for Item {
    type V = ItemView;

    open spec fn view(&self) -> ItemView {
        ItemView {
            id: self.id,
            name: self.name@,
            label_id: self.label_id@,
            model_number: opt_text(self.model_number),
            remarks: opt_text(self.remarks),
            purchase_year: self.purchase_year,
            purchase_amount: self.purchase_amount,
            durability_years: self.durability_years,
            is_depreciation_target: self.is_depreciation_target,
            connection_names: opt_texts(self.connection_names),
            cable_color_pattern: opt_texts(self.cable_color_pattern),
            storage_location: opt_text(self.storage_location),
            container_id: opt_text(self.container_id),
            storage_type: self.storage_type@,
            is_on_loan: self.is_on_loan,
            qr_code_type: opt_text(self.qr_code_type),
            is_disposed: self.is_disposed,
            image_url: opt_text(self.image_url),
            created_at: self.created_at,
            updated_at: self.updated_at,
        }
    }
}

/// The mathematical values of a list of items.
pub open spec fn items_of(list: Seq<Item>) -> Seq<ItemView> {
    Seq::new(list.len(), |i: int| list[i]@)
}

/// What a client sends to create an item.
#[derive(Debug, Clone)]
pub struct CreateItemRequest {
    pub name: String,
    pub label_id: String,
    pub model_number: Option<String>,
    pub remarks: Option<String>,
    pub purchase_year: Option<i32>,
    /// IEEE 754 bit pattern of the single-precision amount.
    pub purchase_amount: Option<u32>,
    pub durability_years: Option<i32>,
    pub is_depreciation_target: Option<bool>,
    pub connection_names: Option<Vec<String>>,
    pub cable_color_pattern: Option<Vec<String>>,
    pub storage_location: Option<String>,
    pub container_id: Option<String>,
    /// Either `location` or `container`.
    pub storage_type: Option<String>,
    pub qr_code_type: Option<String>,
    pub image_url: Option<String>,
}

/// The mathematical value of a [`CreateItemRequest`].
pub struct CreateItemRequestView {
    pub name: Seq<char>,
    pub label_id: Seq<char>,
    pub model_number: Option<Seq<char>>,
    pub remarks: Option<Seq<char>>,
    pub purchase_year: Option<i32>,
    pub purchase_amount: Option<u32>,
    pub durability_years: Option<i32>,
    pub is_depreciation_target: Option<bool>,
    pub connection_names: Option<Seq<Seq<char>>>,
    pub cable_color_pattern: Option<Seq<Seq<char>>>,
    pub storage_location: Option<Seq<char>>,
    pub container_id: Option<Seq<char>>,
    pub storage_type: Option<Seq<char>>,
    pub qr_code_type: Option<Seq<char>>,
    pub image_url: Option<Seq<char>>,
}

impl View for CreateItemRequest {
    type V = CreateItemRequestView;

    open spec fn view(&self) -> CreateItemRequestView {
        CreateItemRequestView {
            name: self.name@,
            label_id: self.label_id@,
            model_number: opt_text(self.model_number),
            remarks: opt_text(self.remarks),
            purchase_year: self.purchase_year,
            purchase_amount: self.purchase_amount,
            durability_years: self.durability_years,
            is_depreciation_target: self.is_depreciation_target,
            connection_names: opt_texts(self.connection_names),
            cable_color_pattern: opt_texts(self.cable_color_pattern),
            storage_location: opt_text(self.storage_location),
            container_id: opt_text(self.container_id),
            storage_type: opt_text(self.storage_type),
            qr_code_type: opt_text(self.qr_code_type),
            image_url: opt_text(self.image_url),
        }
    }
}

impl CreateItemRequestView {
    /// The rules that the request breaks, in the order of its fields: the
    /// name has 1 to 255 characters, the label 1 to 50, the model number at
    /// most 255, the purchase year lies in 1900 to 2100, the durability in 1
    /// to 100 years, and the image reference is a URL.
    pub open spec fn violations(self) -> Seq<FieldErrorView> {
        let e0 = Seq::<FieldErrorView>::empty();
        let e1 = noted(e0, length_between(self.name, 1, 255), "name"@, Rule::Length);
        let e2 = noted(e1, length_between(self.label_id, 1, 50), "label_id"@, Rule::Length);
        let e3 = noted(
            e2,
            opt_length_between(self.model_number, 0, 255),
            "model_number"@,
            Rule::Length,
        );
        let e4 = noted(e3, opt_in_range(self.purchase_year, 1900, 2100), "purchase_year"@, Rule::Range);
        let e5 = noted(
            e4,
            opt_in_range(self.durability_years, 1, 100),
            "durability_years"@,
            Rule::Range,
        );
        noted(e5, opt_url(self.image_url), "image_url"@, Rule::Url)
    }
}

impl CreateItemRequest {
    /// Holds the request to its rules. Succeeds when none is broken, else
    /// returns the broken rules in the order of the fields.
    pub fn validate(&self) -> (r: Result<(), Vec<FieldError>>)
        ensures
            r is Ok <==> self@.violations().len() == 0,
            r matches Err(list) ==> errors_of(list@) == self@.violations(),
    {
        let mut errors: Vec<FieldError> = Vec::new();
        proof {
            assert(errors_of(errors@) =~= Seq::<FieldErrorView>::empty());
        }
        note(&mut errors, check_length(self.name.as_str(), 1, 255), "name", Rule::Length);
        note(&mut errors, check_length(self.label_id.as_str(), 1, 50), "label_id", Rule::Length);
        note(&mut errors, check_opt_length(&self.model_number, 0, 255), "model_number", Rule::Length);
        note(&mut errors, check_opt_range(self.purchase_year, 1900, 2100), "purchase_year", Rule::Range);
        note(&mut errors, check_opt_range(self.durability_years, 1, 100), "durability_years", Rule::Range);
        note(&mut errors, check_opt_url(&self.image_url), "image_url", Rule::Url);
        outcome(errors)
    }
}

/// What a client sends to change an item. A field that is absent is left as
/// it is.
#[derive(Debug, Clone)]
pub struct UpdateItemRequest {
    pub name: Option<String>,
    pub label_id: Option<String>,
    pub model_number: Option<String>,
    pub remarks: Option<String>,
    pub purchase_year: Option<i32>,
    /// IEEE 754 bit pattern of the single-precision amount.
    pub purchase_amount: Option<u32>,
    pub durability_years: Option<i32>,
    pub is_depreciation_target: Option<bool>,
    pub connection_names: Option<Vec<String>>,
    pub cable_color_pattern: Option<Vec<String>>,
    pub storage_location: Option<String>,
    pub container_id: Option<String>,
    /// Either `location` or `container`.
    pub storage_type: Option<String>,
    pub is_on_loan: Option<bool>,
    pub qr_code_type: Option<String>,
    pub is_disposed: Option<bool>,
    pub image_url: Option<String>,
}

/// The mathematical value of an [`UpdateItemRequest`].
pub struct UpdateItemRequestView {
    pub name: Option<Seq<char>>,
    pub label_id: Option<Seq<char>>,
    pub model_number: Option<Seq<char>>,
    pub remarks: Option<Seq<char>>,
    pub purchase_year: Option<i32>,
    pub purchase_amount: Option<u32>,
    pub durability_years: Option<i32>,
    pub is_depreciation_target: Option<bool>,
    pub connection_names: Option<Seq<Seq<char>>>,
    pub cable_color_pattern: Option<Seq<Seq<char>>>,
    pub storage_location: Option<Seq<char>>,
    pub container_id: Option<Seq<char>>,
    pub storage_type: Option<Seq<char>>,
    pub is_on_loan: Option<bool>,
    pub qr_code_type: Option<Seq<char>>,
    pub is_disposed: Option<bool>,
    pub image_url: Option<Seq<char>>,
}

impl View for UpdateItemRequest {
    type V = UpdateItemRequestView;

    open spec fn view(&self) -> UpdateItemRequestView {
        UpdateItemRequestView {
            name: opt_text(self.name),
            label_id: opt_text(self.label_id),
            model_number: opt_text(self.model_number),
            remarks: opt_text(self.remarks),
            purchase_year: self.purchase_year,
            purchase_amount: self.purchase_amount,
            durability_years: self.durability_years,
            is_depreciation_target: self.is_depreciation_target,
            connection_names: opt_texts(self.connection_names),
            cable_color_pattern: opt_texts(self.cable_color_pattern),
            storage_location: opt_text(self.storage_location),
            container_id: opt_text(self.container_id),
            storage_type: opt_text(self.storage_type),
            is_on_loan: self.is_on_loan,
            qr_code_type: opt_text(self.qr_code_type),
            is_disposed: self.is_disposed,
            image_url: opt_text(self.image_url),
        }
    }
}

impl UpdateItemRequestView {
    /// The rules that the request breaks, in the order of its fields. They
    /// are those of a new item, and bind only the fields that are present.
    pub open spec fn violations(self) -> Seq<FieldErrorView> {
        let e0 = Seq::<FieldErrorView>::empty();
        let e1 = noted(e0, opt_length_between(self.name, 1, 255), "name"@, Rule::Length);
        let e2 = noted(e1, opt_length_between(self.label_id, 1, 50), "label_id"@, Rule::Length);
        let e3 = noted(
            e2,
            opt_length_between(self.model_number, 0, 255),
            "model_number"@,
            Rule::Length,
        );
        let e4 = noted(e3, opt_in_range(self.purchase_year, 1900, 2100), "purchase_year"@, Rule::Range);
        let e5 = noted(
            e4,
            opt_in_range(self.durability_years, 1, 100),
            "durability_years"@,
            Rule::Range,
        );
        noted(e5, opt_url(self.image_url), "image_url"@, Rule::Url)
    }
}

impl UpdateItemRequestView {
    /// Whether the request names nothing that a change writes. The loan
    /// state is not among what a change writes: it changes with the loans
    /// alone, so a request that names nothing but the loan state writes
    /// nothing.
    pub open spec fn writes_nothing(self) -> bool {
        &&& self.name is None
        &&& self.label_id is None
        &&& self.model_number is None
        &&& self.remarks is None
        &&& self.purchase_year is None
        &&& self.purchase_amount is None
        &&& self.durability_years is None
        &&& self.is_depreciation_target is None
        &&& self.connection_names is None
        &&& self.cable_color_pattern is None
        &&& self.storage_location is None
        &&& self.container_id is None
        &&& self.storage_type is None
        &&& self.qr_code_type is None
        &&& self.is_disposed is None
        &&& self.image_url is None
    }
}

impl UpdateItemRequest {
    /// Tests whether the request names nothing that a change writes.
    pub fn writes_nothing(&self) -> (r: bool)
        ensures
            r == self@.writes_nothing(),
    {
        self.name.is_none() && self.label_id.is_none() && self.model_number.is_none()
            && self.remarks.is_none() && self.purchase_year.is_none()
            && self.purchase_amount.is_none() && self.durability_years.is_none()
            && self.is_depreciation_target.is_none() && self.connection_names.is_none()
            && self.cable_color_pattern.is_none() && self.storage_location.is_none()
            && self.container_id.is_none() && self.storage_type.is_none()
            && self.qr_code_type.is_none() && self.is_disposed.is_none()
            && self.image_url.is_none()
    }

    /// Holds the request to its rules. Succeeds when none is broken, else
    /// returns the broken rules in the order of the fields.
    pub fn validate(&self) -> (r: Result<(), Vec<FieldError>>)
        ensures
            r is Ok <==> self@.violations().len() == 0,
            r matches Err(list) ==> errors_of(list@) == self@.violations(),
    {
        let mut errors: Vec<FieldError> = Vec::new();
        proof {
            assert(errors_of(errors@) =~= Seq::<FieldErrorView>::empty());
        }
        note(&mut errors, check_opt_length(&self.name, 1, 255), "name", Rule::Length);
        note(&mut errors, check_opt_length(&self.label_id, 1, 50), "label_id", Rule::Length);
        note(&mut errors, check_opt_length(&self.model_number, 0, 255), "model_number", Rule::Length);
        note(&mut errors, check_opt_range(self.purchase_year, 1900, 2100), "purchase_year", Rule::Range);
        note(&mut errors, check_opt_range(self.durability_years, 1, 100), "durability_years", Rule::Range);
        note(&mut errors, check_opt_url(&self.image_url), "image_url", Rule::Url);
        outcome(errors)
    }
}

/// One page of items, with the number of all items that pass the filter.
#[derive(Debug, Clone)]
pub struct ItemsListResponse {
    pub items: Vec<Item>,
    pub total: i64,
    pub page: u32,
    pub per_page: u32,
}

} // verus!
