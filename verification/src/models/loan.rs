//! Loans: who has borrowed which item, and the requests that open and close
//! a loan.

use vstd::prelude::*;
use crate::db::Timestamp;
use crate::text::opt_text;
use crate::validation::{
    check_length, check_opt_length, errors_of, length_between, note, noted, opt_length_between,
    outcome, FieldError, FieldErrorView, Rule,
};

verus! {

/// A loan as the service hands it out. A loan is open while it has no date
/// of return.
#[derive(Debug, Clone)]
pub struct Loan {
    pub id: i64,
    pub item_id: i64,
    pub student_number: String,
    pub student_name: String,
    pub organization: Option<String>,
    pub loan_date: Timestamp,
    pub return_date: Option<Timestamp>,
    pub remarks: Option<String>,
    pub created_at: Timestamp,
    pub updated_at: Timestamp,
}

/// What a client sends to borrow an item.
#[derive(Debug, Clone)]
pub struct CreateLoanRequest {
    pub item_id: i64,
    pub student_number: String,
    pub student_name: String,
    pub organization: Option<String>,
    pub remarks: Option<String>,
}

/// The mathematical value of a [`CreateLoanRequest`].
pub struct CreateLoanRequestView {
    pub item_id: i64,
    pub student_number: Seq<char>,
    pub student_name: Seq<char>,
    pub organization: Option<Seq<char>>,
    pub remarks: Option<Seq<char>>,
}

impl View for CreateLoanRequest {
    type V = CreateLoanRequestView;

    open spec fn view(&self) -> CreateLoanRequestView {
        CreateLoanRequestView {
            item_id: self.item_id,
            student_number: self.student_number@,
            student_name: self.student_name@,
            organization: opt_text(self.organization),
            remarks: opt_text(self.remarks),
        }
    }
}

impl CreateLoanRequestView {
    /// The rules that the request breaks, in the order of its fields: the
    /// student number has 1 to 20 characters, the student's name 1 to 100,
    /// the organization at most 255.
    pub open spec fn violations(self) -> Seq<FieldErrorView> {
        let e0 = Seq::<FieldErrorView>::empty();
        let e1 = noted(
            e0,
            length_between(self.student_number, 1, 20),
            "student_number"@,
            Rule::Length,
        );
        let e2 = noted(
            e1,
            length_between(self.student_name, 1, 100),
            "student_name"@,
            Rule::Length,
        );
        noted(e2, opt_length_between(self.organization, 0, 255), "organization"@, Rule::Length)
    }
}

impl CreateLoanRequest {
    /// Holds the request to its rules. Succeeds when none is broken, else
    /// returns the broken rules in the order of the fields.
    pub fn validate(&self) -> (r: Result<(), Vec<FieldError>>)
        ensures
            r is Ok <==> self@.violations().len() == 0,
            r matches Err(list) ==> errors_of(list@) == self@.violations(),
    {
        let mut errors: Vec<FieldError> = Vec::new();
        proof {
            assert(errors_of(errors@) =~= Seq::<FieldErrorView>::empty());
        }
        note(
            &mut errors,
            check_length(self.student_number.as_str(), 1, 20),
            "student_number",
            Rule::Length,
        );
        note(
            &mut errors,
            check_length(self.student_name.as_str(), 1, 100),
            "student_name",
            Rule::Length,
        );
        note(&mut errors, check_opt_length(&self.organization, 0, 255), "organization", Rule::Length);
        outcome(errors)
    }
}

/// What a client sends to return an item. Without a date the item counts as
/// returned at the moment the request is served.
#[derive(Debug, Clone)]
pub struct ReturnLoanRequest {
    pub return_date: Option<Timestamp>,
    pub remarks: Option<String>,
}

impl ReturnLoanRequest {
    /// Holds the request to its rules, of which it has none.
    pub fn validate(&self) -> (r: Result<(), Vec<FieldError>>)
        ensures
            r is Ok,
    {
        Ok(())
    }
}

/// A loan beside the name and the label of the item that was borrowed.
#[derive(Debug, Clone)]
pub struct LoanWithItem {
    pub id: i64,
    pub item_id: i64,
    pub item_name: String,
    pub item_label_id: String,
    pub student_number: String,
    pub student_name: String,
    pub organization: Option<String>,
    pub loan_date: Timestamp,
    pub return_date: Option<Timestamp>,
    pub remarks: Option<String>,
    pub created_at: Timestamp,
    pub updated_at: Timestamp,
}

/// One page of loans, with the number of all loans that pass the filter.
#[derive(Debug, Clone)]
pub struct LoansListResponse {
    pub loans: Vec<LoanWithItem>,
    pub total: i64,
    pub page: u32,
    pub per_page: u32,
}

/// The filters of a listing of loans.
#[derive(Debug, Clone)]
pub struct LoanFilters {
    pub item_id: Option<i64>,
    pub student_number: Option<String>,
    pub active_only: Option<bool>,
    pub page: Option<u32>,
    pub per_page: Option<u32>,
}

} // verus!
