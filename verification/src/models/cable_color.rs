//! Cable colours: the named colours that mark cables, and the requests that
//! create and change them.

use vstd::prelude::*;
use crate::db::Timestamp;
use crate::text::opt_text;
use crate::validation::{
    check_length, check_opt_hex_color, check_opt_length, errors_of, length_between, note, noted,
    opt_hex_color, opt_length_between, outcome, FieldError, FieldErrorView, Rule,
};

verus! {

/// A cable colour as the service hands it out.
#[derive(Debug, Clone)]
pub struct CableColor {
    pub id: i64,
    pub name: String,
    /// The colour in the form `#RRGGBB`.
    pub hex_code: Option<String>,
    pub description: Option<String>,
    pub created_at: Timestamp,
    pub updated_at: Timestamp,
}

/// What a client sends to create a cable colour.
#[derive(Debug, Clone)]
pub struct CreateCableColorRequest {
    pub name: String,
    pub hex_code: Option<String>,
    pub description: Option<String>,
}

/// The mathematical value of a [`CreateCableColorRequest`].
pub struct CreateCableColorRequestView {
    pub name: Seq<char>,
    pub hex_code: Option<Seq<char>>,
    pub description: Option<Seq<char>>,
}

impl View for CreateCableColorRequest {
    type V = CreateCableColorRequestView;

    open spec fn view(&self) -> CreateCableColorRequestView {
        CreateCableColorRequestView {
            name: self.name@,
            hex_code: opt_text(self.hex_code),
            description: opt_text(self.description),
        }
    }
}

impl CreateCableColorRequestView {
    /// The rules that the request breaks, in the order of its fields: the
    /// name has 1 to 100 characters, and the colour, where present, has the
    /// form `#RRGGBB`.
    pub open spec fn violations(self) -> Seq<FieldErrorView> {
        let e0 = Seq::<FieldErrorView>::empty();
        let e1 = noted(e0, length_between(self.name, 1, 100), "name"@, Rule::Length);
        noted(e1, opt_hex_color(self.hex_code), "hex_code"@, Rule::Format)
    }
}

impl CreateCableColorRequest {
    /// Holds the request to its rules. Succeeds when none is broken, else
    /// returns the broken rules in the order of the fields.
    pub fn validate(&self) -> (r: Result<(), Vec<FieldError>>)
        ensures
            r is Ok <==> self@.violations().len() == 0,
            r matches Err(list) ==> errors_of(list@) == self@.violations(),
    {
        let mut errors: Vec<FieldError> = Vec::new();
        proof {
            assert(errors_of(errors@) =~= Seq::<FieldErrorView>::empty());
        }
        note(&mut errors, check_length(self.name.as_str(), 1, 100), "name", Rule::Length);
        note(&mut errors, check_opt_hex_color(&self.hex_code), "hex_code", Rule::Format);
        outcome(errors)
    }
}

/// What a client sends to change a cable colour. A field that is absent is
/// left as it is.
#[derive(Debug, Clone)]
pub struct UpdateCableColorRequest {
    pub name: Option<String>,
    pub hex_code: Option<String>,
    pub description: Option<String>,
}

/// The mathematical value of an [`UpdateCableColorRequest`].
pub struct UpdateCableColorRequestView {
    pub name: Option<Seq<char>>,
    pub hex_code: Option<Seq<char>>,
    pub description: Option<Seq<char>>,
}

impl View for UpdateCableColorRequest {
    type V = UpdateCableColorRequestView;

    open spec fn view(&self) -> UpdateCableColorRequestView {
        UpdateCableColorRequestView {
            name: opt_text(self.name),
            hex_code: opt_text(self.hex_code),
            description: opt_text(self.description),
        }
    }
}

impl UpdateCableColorRequestView {
    /// The rules that the request breaks, in the order of its fields: the
    /// name, where present, has 1 to 100 characters, and the colour, where
    /// present, has the form `#RRGGBB`.
    pub open spec fn violations(self) -> Seq<FieldErrorView> {
        let e0 = Seq::<FieldErrorView>::empty();
        let e1 = noted(e0, opt_length_between(self.name, 1, 100), "name"@, Rule::Length);
        noted(e1, opt_hex_color(self.hex_code), "hex_code"@, Rule::Format)
    }
}

impl UpdateCableColorRequestView {
    /// Whether the request names no field at all.
    pub open spec fn is_empty(self) -> bool {
        self.name is None && self.hex_code is None && self.description is None
    }
}

impl UpdateCableColorRequest {
    /// Tests whether the request names no field at all.
    pub fn is_empty(&self) -> (r: bool)
        ensures
            r == self@.is_empty(),
    {
        self.name.is_none() && self.hex_code.is_none() && self.description.is_none()
    }

    /// Holds the request to its rules. Succeeds when none is broken, else
    /// returns the broken rules in the order of the fields.
    pub fn validate(&self) -> (r: Result<(), Vec<FieldError>>)
        ensures
            r is Ok <==> self@.violations().len() == 0,
            r matches Err(list) ==> errors_of(list@) == self@.violations(),
    {
        let mut errors: Vec<FieldError> = Vec::new();
        proof {
            assert(errors_of(errors@) =~= Seq::<FieldErrorView>::empty());
        }
        note(&mut errors, check_opt_length(&self.name, 1, 100), "name", Rule::Length);
        note(&mut errors, check_opt_hex_color(&self.hex_code), "hex_code", Rule::Format);
        outcome(errors)
    }
}

/// One page of cable colours, with the number of all cable colours.
#[derive(Debug, Clone)]
pub struct CableColorsListResponse {
    pub cable_colors: Vec<CableColor>,
    pub total: i64,
    pub page: u32,
    pub per_page: u32,
}

} // verus!
