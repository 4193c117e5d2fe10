//! Statements: text with placeholders and the values bound to them, built
//! from predicates and assignments whose columns are fixed texts.

use vstd::prelude::*;
use crate::db::value::{params_of, SqlParam, SqlValue};
use crate::db::Dialect;
use crate::text::decimal;

verus! {

/// The placeholder for the value at position `index`, counted from one:
/// numbered for Postgres, positional for SQLite.
pub open spec fn placeholder(dialect: Dialect, index: nat) -> Seq<char> {
    match dialect {
        Dialect::Postgres => seq!['$'] + decimal(index),
        Dialect::Sqlite => seq!['?'],
    }
}

/// The operator of a pattern match that ignores case.
pub open spec fn like_operator(dialect: Dialect) -> Seq<char> {
    match dialect {
        Dialect::Postgres => "ILIKE"@,
        Dialect::Sqlite => "LIKE"@,
    }
}

/// How a truth value is written inside the text of a statement.
pub open spec fn bool_literal(dialect: Dialect, value: bool) -> Seq<char> {
    match dialect {
        Dialect::Postgres => if value { "true"@ } else { "false"@ },
        Dialect::Sqlite => if value { "1"@ } else { "0"@ },
    }
}

/// The pattern that matches every text in which `term` occurs.
pub open spec fn like_pattern(term: Seq<char>) -> Seq<char> {
    seq!['%'] + term + seq!['%']
}

/// A test on the rows of a table, drawn from a closed set of forms. Column
/// names are fixed texts; what a caller supplies travels as a bound value.
#[derive(Debug)]
pub enum Predicate {
    /// The column equals the bound value.
    Equals { column: &'static str, value: SqlValue },
    /// The term occurs, whatever its case, in one of the columns.
    Search { columns: Vec<&'static str>, term: String },
    /// The column equals a truth value written into the text.
    Flag { column: &'static str, value: bool },
    /// The column holds no value.
    IsNull { column: &'static str },
    /// The column holds a value.
    IsNotNull { column: &'static str },
}

/// The mathematical value of a [`Predicate`].
pub enum PredicateView {
    Equals { column: Seq<char>, value: SqlParam },
    Search { columns: Seq<Seq<char>>, term: Seq<char> },
    Flag { column: Seq<char>, value: bool },
    IsNull { column: Seq<char> },
    IsNotNull { column: Seq<char> },
}

/// The texts of a list of column names.
pub open spec fn names(list: Seq<&'static str>) -> Seq<Seq<char>> {
    Seq::new(list.len(), |i: int| list[i]@)
}

impl View for Predicate {
    type V = PredicateView;

    open spec fn view(&self) -> PredicateView {
        match self {
            Predicate::Equals { column, value } => PredicateView::Equals {
                column: column@,
                value: value@,
            },
            Predicate::Search { columns, term } => PredicateView::Search {
                columns: names(columns@),
                term: term@,
            },
            Predicate::Flag { column, value } => PredicateView::Flag {
                column: column@,
                value: *value,
            },
            Predicate::IsNull { column } => PredicateView::IsNull { column: column@ },
            Predicate::IsNotNull { column } => PredicateView::IsNotNull { column: column@ },
        }
    }
}

/// Adds a predicate at the end of a list.
pub fn push_predicate(list: &mut Vec<Predicate>, p: Predicate)
    ensures
        predicates_of(final(list)@) == predicates_of(old(list)@).push(p@),
{
    list.push(p);
    proof {
        assert(predicates_of(list@) =~= predicates_of(old(list)@).push(p@));
    }
}

/// One column set to a bound value by an `UPDATE`.
#[derive(Debug)]
pub struct Assignment {
    pub column: &'static str,
    pub value: SqlValue,
}

/// The mathematical value of an [`Assignment`].
pub struct AssignmentView {
    pub column: Seq<char>,
    pub value: SqlParam,
}

impl View for Assignment {
    type V = AssignmentView;

    open spec fn view(&self) -> AssignmentView {
        AssignmentView { column: self.column@, value: self.value@ }
    }
}

/// The mathematical values of a list of assignments.
pub open spec fn assignments_of(list: Seq<Assignment>) -> Seq<AssignmentView> {
    Seq::new(list.len(), |i: int| list[i]@)
}

/// Adds an assignment at the end of a list.
pub fn push_assignment(list: &mut Vec<Assignment>, column: &'static str, value: SqlValue)
    ensures
        assignments_of(final(list)@) == assignments_of(old(list)@).push(
            AssignmentView { column: column@, value: value@ },
        ),
{
    list.push(Assignment { column, value });
    proof {
        assert(assignments_of(list@) =~= assignments_of(old(list)@).push(
            AssignmentView { column: column@, value: value@ },
        ));
    }
}

/// The mathematical values of a list of predicates.
pub open spec fn predicates_of(list: Seq<Predicate>) -> Seq<PredicateView> {
    Seq::new(list.len(), |i: int| list[i]@)
}

/// A statement ready to be handed to the driver.
#[derive(Debug)]
pub struct Statement {
    pub sql: String,
    pub params: Vec<SqlValue>,
}

/// The mathematical value of a [`Statement`]: its text and the values bound
/// to its placeholders, first placeholder first.
pub struct StatementView {
    pub sql: Seq<char>,
    pub params: Seq<SqlParam>,
}

impl View for Statement {
    type V = StatementView;

    open spec fn view(&self) -> StatementView {
        StatementView { sql: self.sql@, params: params_of(self.params@) }
    }
}

impl StatementView {
    /// The statement without text and without values.
    pub open spec fn empty() -> StatementView {
        StatementView { sql: Seq::empty(), params: Seq::empty() }
    }

    /// This statement with `piece` added to its text.
    pub open spec fn text(self, piece: Seq<char>) -> StatementView {
        StatementView { sql: self.sql + piece, params: self.params }
    }

    /// This statement with one more placeholder at the end of its text and
    /// `value` bound to it. The placeholder carries the position of the value.
    pub open spec fn bind(self, dialect: Dialect, value: SqlParam) -> StatementView {
        StatementView {
            sql: self.sql + placeholder(dialect, self.params.len() + 1),
            params: self.params.push(value),
        }
    }

    /// This statement with `column LIKE pattern` added for each of the first
    /// `count` columns, joined by `OR`.
    pub open spec fn search_columns(
        self,
        dialect: Dialect,
        columns: Seq<Seq<char>>,
        pattern: Seq<char>,
        count: nat,
    ) -> StatementView
        decreases count,
    {
        if count == 0 {
            self
        } else {
            let before = self.search_columns(dialect, columns, pattern, (count - 1) as nat);
            let joined = if count == 1 { before } else { before.text(" OR "@) };
            joined.text(columns[count - 1]).text(" "@).text(like_operator(dialect)).text(" "@).bind(
                dialect,
                SqlParam::Text(pattern),
            )
        }
    }

    /// This statement with the predicate added to its text and the values of
    /// the predicate bound.
    pub open spec fn predicate(self, dialect: Dialect, p: PredicateView) -> StatementView {
        match p {
            PredicateView::Equals { column, value } => self.text(column).text(" = "@).bind(
                dialect,
                value,
            ),
            PredicateView::Search { columns, term } => self.text("("@).search_columns(
                dialect,
                columns,
                like_pattern(term),
                columns.len(),
            ).text(")"@),
            PredicateView::Flag { column, value } => self.text(column).text(" = "@).text(
                bool_literal(dialect, value),
            ),
            PredicateView::IsNull { column } => self.text(column).text(" IS NULL"@),
            PredicateView::IsNotNull { column } => self.text(column).text(" IS NOT NULL"@),
        }
    }

    /// This statement with each of the first `count` predicates added, each
    /// behind the word `AND`.
    pub open spec fn and_each(
        self,
        dialect: Dialect,
        predicates: Seq<PredicateView>,
        count: nat,
    ) -> StatementView
        decreases count,
    {
        if count == 0 {
            self
        } else {
            self.and_each(dialect, predicates, (count - 1) as nat).text(" AND "@).predicate(
                dialect,
                predicates[count - 1],
            )
        }
    }

    /// This statement with `column = placeholder` added for each of the first
    /// `count` assignments, joined by commas, and their values bound.
    pub open spec fn assign_each(
        self,
        dialect: Dialect,
        assignments: Seq<AssignmentView>,
        count: nat,
    ) -> StatementView
        decreases count,
    {
        if count == 0 {
            self
        } else {
            let before = self.assign_each(dialect, assignments, (count - 1) as nat);
            let joined = if count == 1 { before } else { before.text(", "@) };
            joined.text(assignments[count - 1].column).text(" = "@).bind(
                dialect,
                assignments[count - 1].value,
            )
        }
    }

    /// This statement with `column = COALESCE(placeholder, column)` added for
    /// each of the first `count` assignments, joined by commas, and their
    /// values bound: a column keeps what it holds where the value bound for
    /// it is null.
    pub open spec fn coalesce_each(
        self,
        dialect: Dialect,
        assignments: Seq<AssignmentView>,
        count: nat,
    ) -> StatementView
        decreases count,
    {
        if count == 0 {
            self
        } else {
            let before = self.coalesce_each(dialect, assignments, (count - 1) as nat);
            let joined = if count == 1 { before } else { before.text(", "@) };
            joined.text(assignments[count - 1].column).text(" = COALESCE("@).bind(
                dialect,
                assignments[count - 1].value,
            ).text(", "@).text(assignments[count - 1].column).text(")"@)
        }
    }

    /// This statement with one placeholder added for each of the first
    /// `count` values, joined by a comma and a space, and the values bound.
    pub open spec fn bind_list(
        self,
        dialect: Dialect,
        values: Seq<SqlParam>,
        count: nat,
    ) -> StatementView
        decreases count,
    {
        if count == 0 {
            self
        } else {
            let before = self.bind_list(dialect, values, (count - 1) as nat);
            let joined = if count == 1 { before } else { before.text(", "@) };
            joined.bind(dialect, values[count - 1])
        }
    }

    /// This statement with one placeholder added for each of the first
    /// `count` texts, joined by commas, and the texts bound.
    pub open spec fn bind_each(
        self,
        dialect: Dialect,
        values: Seq<Seq<char>>,
        count: nat,
    ) -> StatementView
        decreases count,
    {
        if count == 0 {
            self
        } else {
            let before = self.bind_each(dialect, values, (count - 1) as nat);
            let joined = if count == 1 { before } else { before.text(","@) };
            joined.bind(dialect, SqlParam::Text(values[count - 1]))
        }
    }

    /// This statement with a test added that the column holds one of the
    /// texts: against an array bound as one value for Postgres, against a
    /// list of placeholders, one for each text, for SQLite.
    pub open spec fn one_of(
        self,
        dialect: Dialect,
        column: Seq<char>,
        values: Seq<Seq<char>>,
    ) -> StatementView {
        match dialect {
            Dialect::Postgres => self.text(column).text(" = ANY("@).bind(
                dialect,
                SqlParam::TextList(values),
            ).text(")"@),
            Dialect::Sqlite => self.text(column).text(" IN ("@).bind_each(
                dialect,
                values,
                values.len(),
            ).text(")"@),
        }
    }

    /// This statement with a `WHERE` clause that holds all the predicates,
    /// joined by `AND`; unchanged when there is no predicate.
    pub open spec fn where_all(
        self,
        dialect: Dialect,
        predicates: Seq<PredicateView>,
    ) -> StatementView {
        if predicates.len() == 0 {
            self
        } else {
            self.text(" WHERE "@).predicate(dialect, predicates[0]).and_each(
                dialect,
                predicates.skip(1),
                (predicates.len() - 1) as nat,
            )
        }
    }
}

/// Whether two predicates have the same form: they test the same columns in
/// the same way and differ at most in the values that they bind.
pub open spec fn same_form(p: PredicateView, q: PredicateView) -> bool {
    match p {
        PredicateView::Equals { column, .. } => q is Equals && q->Equals_column == column,
        PredicateView::Search { columns, .. } => q is Search && q->columns == columns,
        PredicateView::Flag { column, value } => q is Flag && q->Flag_column == column
            && q->Flag_value == value,
        PredicateView::IsNull { column } => q is IsNull && q->IsNull_column == column,
        PredicateView::IsNotNull { column } => q is IsNotNull && q->IsNotNull_column == column,
    }
}

/// Whether two lists of predicates are of one length and have the same form
/// place by place.
pub open spec fn same_forms(ps: Seq<PredicateView>, qs: Seq<PredicateView>) -> bool {
    &&& ps.len() == qs.len()
    &&& forall|i: int| 0 <= i < ps.len() ==> same_form(#[trigger] ps[i], qs[i])
}

/// Whether two statements have the same text and bind equally many values.
pub open spec fn same_text(s: StatementView, t: StatementView) -> bool {
    s.sql == t.sql && s.params.len() == t.params.len()
}

/// Two lists of the same forms, each with one more predicate of one form,
/// are of the same forms again.
pub proof fn lemma_same_forms_push(
    ps: Seq<PredicateView>,
    qs: Seq<PredicateView>,
    p: PredicateView,
    q: PredicateView,
)
    requires
        same_forms(ps, qs),
        same_form(p, q),
    ensures
        same_forms(ps.push(p), qs.push(q)),
{
    assert forall|i: int| 0 <= i < ps.push(p).len() implies same_form(
        #[trigger] ps.push(p)[i],
        qs.push(q)[i],
    ) by {
        if i < ps.len() {
            assert(ps.push(p)[i] == ps[i]);
            assert(qs.push(q)[i] == qs[i]);
        }
    }
}

/// The text of a search does not depend on the pattern that is bound.
pub proof fn lemma_search_text(
    s: StatementView,
    t: StatementView,
    dialect: Dialect,
    columns: Seq<Seq<char>>,
    p: Seq<char>,
    q: Seq<char>,
    count: nat,
)
    requires
        same_text(s, t),
    ensures
        same_text(
            s.search_columns(dialect, columns, p, count),
            t.search_columns(dialect, columns, q, count),
        ),
    decreases count,
{
    if count > 0 {
        lemma_search_text(s, t, dialect, columns, p, q, (count - 1) as nat);
    }
}

/// The text of a predicate does not depend on the values that it binds: two
/// predicates of one form, written behind the same text, give the same text.
pub proof fn lemma_predicate_text(
    s: StatementView,
    t: StatementView,
    dialect: Dialect,
    p: PredicateView,
    q: PredicateView,
)
    requires
        same_text(s, t),
        same_form(p, q),
    ensures
        same_text(s.predicate(dialect, p), t.predicate(dialect, q)),
{
    match p {
        PredicateView::Search { columns, term } => {
            lemma_search_text(
                s.text("("@),
                t.text("("@),
                dialect,
                columns,
                like_pattern(term),
                like_pattern(q->term),
                columns.len(),
            );
        },
        _ => {},
    }
}

/// The text of a chain of predicates does not depend on the values that
/// they bind.
pub proof fn lemma_and_each_text(
    s: StatementView,
    t: StatementView,
    dialect: Dialect,
    ps: Seq<PredicateView>,
    qs: Seq<PredicateView>,
    count: nat,
)
    requires
        same_text(s, t),
        same_forms(ps, qs),
        count <= ps.len(),
    ensures
        same_text(s.and_each(dialect, ps, count), t.and_each(dialect, qs, count)),
    decreases count,
{
    if count > 0 {
        lemma_and_each_text(s, t, dialect, ps, qs, (count - 1) as nat);
        lemma_predicate_text(
            s.and_each(dialect, ps, (count - 1) as nat).text(" AND "@),
            t.and_each(dialect, qs, (count - 1) as nat).text(" AND "@),
            dialect,
            ps[count - 1],
            qs[count - 1],
        );
    }
}

/// The text of a `WHERE` clause does not depend on the values that its
/// predicates bind: what a caller supplies as a value never reaches the
/// text.
pub proof fn lemma_where_text(
    s: StatementView,
    t: StatementView,
    dialect: Dialect,
    ps: Seq<PredicateView>,
    qs: Seq<PredicateView>,
)
    requires
        same_text(s, t),
        same_forms(ps, qs),
    ensures
        same_text(s.where_all(dialect, ps), t.where_all(dialect, qs)),
{
    if ps.len() > 0 {
        lemma_predicate_text(s.text(" WHERE "@), t.text(" WHERE "@), dialect, ps[0], qs[0]);
        assert forall|i: int| 0 <= i < ps.skip(1).len() implies same_form(
            #[trigger] ps.skip(1)[i],
            qs.skip(1)[i],
        ) by {
            assert(ps.skip(1)[i] == ps[i + 1]);
            assert(qs.skip(1)[i] == qs[i + 1]);
        }
        lemma_and_each_text(
            s.text(" WHERE "@).predicate(dialect, ps[0]),
            t.text(" WHERE "@).predicate(dialect, qs[0]),
            dialect,
            ps.skip(1),
            qs.skip(1),
            (ps.len() - 1) as nat,
        );
    }
}

} // verus!
