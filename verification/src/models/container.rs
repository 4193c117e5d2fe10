//! Containers: the boxes and shelves that hold items, and the requests that
//! create and change them.

use vstd::prelude::*;
use crate::db::Timestamp;
use crate::text::opt_text;
use crate::validation::{
    check_length, check_opt_length, errors_of, length_between, note, noted, opt_length_between,
    outcome, FieldError, FieldErrorView, Rule,
};

verus! {

/// A container as the service hands it out. Its identity is a label drawn
/// from the pool that items draw from.
#[derive(Debug, Clone)]
pub struct Container {
    pub id: String,
    pub name: String,
    pub description: Option<String>,
    pub location: String,
    pub image_url: Option<String>,
    pub created_at: Timestamp,
    pub updated_at: Timestamp,
    pub is_disposed: bool,
}

/// The mathematical value of a [`Container`].
pub struct ContainerView {
    pub id: Seq<char>,
    pub name: Seq<char>,
    pub description: Option<Seq<char>>,
    pub location: Seq<char>,
    pub image_url: Option<Seq<char>>,
    pub created_at: Timestamp,
    pub updated_at: Timestamp,
    pub is_disposed: bool,
}

impl View for Container {
    type V = ContainerView;

    open spec fn view(&self) -> ContainerView {
        ContainerView {
            id: self.id@,
            name: self.name@,
            description: opt_text(self.description),
            location: self.location@,
            image_url: opt_text(self.image_url),
            created_at: self.created_at,
            updated_at: self.updated_at,
            is_disposed: self.is_disposed,
        }
    }
}

/// What a client sends to create a container.
#[derive(Debug, Clone)]
pub struct CreateContainerRequest {
    pub name: String,
    pub description: Option<String>,
    pub location: String,
    pub image_url: Option<String>,
}

/// The mathematical value of a [`CreateContainerRequest`].
pub struct CreateContainerRequestView {
    pub name: Seq<char>,
    pub description: Option<Seq<char>>,
    pub location: Seq<char>,
    pub image_url: Option<Seq<char>>,
}

impl View for CreateContainerRequest {
    type V = CreateContainerRequestView;

    open spec fn view(&self) -> CreateContainerRequestView {
        CreateContainerRequestView {
            name: self.name@,
            description: opt_text(self.description),
            location: self.location@,
            image_url: opt_text(self.image_url),
        }
    }
}

impl CreateContainerRequestView {
    /// The rules that the request breaks, in the order of its fields: the
    /// name and the location have 1 to 100 characters each.
    pub open spec fn violations(self) -> Seq<FieldErrorView> {
        let e0 = Seq::<FieldErrorView>::empty();
        let e1 = noted(e0, length_between(self.name, 1, 100), "name"@, Rule::Length);
        noted(e1, length_between(self.location, 1, 100), "location"@, Rule::Length)
    }
}

impl CreateContainerRequest {
    /// Holds the request to its rules. Succeeds when none is broken, else
    /// returns the broken rules in the order of the fields.
    pub fn validate(&self) -> (r: Result<(), Vec<FieldError>>)
        ensures
            r is Ok <==> self@.violations().len() == 0,
            r matches Err(list) ==> errors_of(list@) == self@.violations(),
    {
        let mut errors: Vec<FieldError> = Vec::new();
        proof {
            assert(errors_of(errors@) =~= Seq::<FieldErrorView>::empty());
        }
        note(&mut errors, check_length(self.name.as_str(), 1, 100), "name", Rule::Length);
        note(&mut errors, check_length(self.location.as_str(), 1, 100), "location", Rule::Length);
        outcome(errors)
    }
}

/// What a client sends to change a container. A field that is absent is left
/// as it is.
#[derive(Debug, Clone)]
pub struct UpdateContainerRequest {
    pub name: Option<String>,
    pub description: Option<String>,
    pub location: Option<String>,
    pub image_url: Option<String>,
    pub is_disposed: Option<bool>,
}

/// The mathematical value of an [`UpdateContainerRequest`].
pub struct UpdateContainerRequestView {
    pub name: Option<Seq<char>>,
    pub description: Option<Seq<char>>,
    pub location: Option<Seq<char>>,
    pub image_url: Option<Seq<char>>,
    pub is_disposed: Option<bool>,
}

impl View for UpdateContainerRequest {
    type V = UpdateContainerRequestView;

    open spec fn view(&self) -> UpdateContainerRequestView {
        UpdateContainerRequestView {
            name: opt_text(self.name),
            description: opt_text(self.description),
            location: opt_text(self.location),
            image_url: opt_text(self.image_url),
            is_disposed: self.is_disposed,
        }
    }
}

impl UpdateContainerRequestView {
    /// The rules that the request breaks, in the order of its fields: the
    /// name and the location, where present, have 1 to 100 characters each.
    pub open spec fn violations(self) -> Seq<FieldErrorView> {
        let e0 = Seq::<FieldErrorView>::empty();
        let e1 = noted(e0, opt_length_between(self.name, 1, 100), "name"@, Rule::Length);
        noted(e1, opt_length_between(self.location, 1, 100), "location"@, Rule::Length)
    }

    /// Whether the request names no field at all.
    pub open spec fn is_empty(self) -> bool {
        &&& self.name is None
        &&& self.description is None
        &&& self.location is None
        &&& self.image_url is None
        &&& self.is_disposed is None
    }
}

impl UpdateContainerRequest {
    /// Holds the request to its rules. Succeeds when none is broken, else
    /// returns the broken rules in the order of the fields.
    pub fn validate(&self) -> (r: Result<(), Vec<FieldError>>)
        ensures
            r is Ok <==> self@.violations().len() == 0,
            r matches Err(list) ==> errors_of(list@) == self@.violations(),
    {
        let mut errors: Vec<FieldError> = Vec::new();
        proof {
            assert(errors_of(errors@) =~= Seq::<FieldErrorView>::empty());
        }
        note(&mut errors, check_opt_length(&self.name, 1, 100), "name", Rule::Length);
        note(&mut errors, check_opt_length(&self.location, 1, 100), "location", Rule::Length);
        outcome(errors)
    }
}

/// A container beside the number of items that it holds and that are not
/// disposed of.
#[derive(Debug, Clone)]
pub struct ContainerWithItemCount {
    pub container: Container,
    pub item_count: i64,
}

} // verus!
