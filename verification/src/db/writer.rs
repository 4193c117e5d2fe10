//! The writer that puts a statement together piece by piece.

use vstd::prelude::*;
use vstd::string::StringExecFns;
use crate::db::statement::{
    assignments_of, like_pattern, names, placeholder, predicates_of, Assignment, Predicate,
    Statement, StatementView,
};
use crate::db::value::{params_of, SqlValue};
use crate::db::Dialect;
use crate::text::{copy_texts, push_char, push_decimal, texts};

verus! {

/// Writes a statement piece by piece. Each value is bound at the moment its
/// placeholder is written, so the two cannot fall out of step.
pub struct QueryWriter {
    dialect: Dialect,
    sql: String,
    params: Vec<SqlValue>,
}

impl View for QueryWriter {
    type V = StatementView;

    closed spec fn view(&self) -> StatementView {
        StatementView { sql: self.sql@, params: params_of(self.params@) }
    }
}

impl QueryWriter {
    /// The dialect that this writer writes for.
    pub closed spec fn spec_dialect(&self) -> Dialect {
        self.dialect
    }

    /// A writer for `dialect` that has written nothing yet.
    pub fn new(dialect: Dialect) -> (w: QueryWriter)
        ensures
            w@ == StatementView::empty(),
            w.spec_dialect() == dialect,
    {
        let w = QueryWriter { dialect, sql: String::new(), params: Vec::new() };
        proof {
            assert(w@.params =~= Seq::empty());
        }
        w
    }

    /// The dialect that this writer writes for.
    #[verifier::when_used_as_spec(spec_dialect)]
    pub fn dialect(&self) -> (d: Dialect)
        ensures
            d == self.spec_dialect(),
    {
        self.dialect
    }

    /// Adds `piece` to the text.
    pub fn text(&mut self, piece: &str)
        ensures
            final(self)@ == old(self)@.text(piece@),
            final(self).spec_dialect() == old(self).spec_dialect(),
    {
        self.sql.append(piece);
    }

    /// Writes the next placeholder and binds `value` to it.
    pub fn bind(&mut self, value: SqlValue)
        ensures
            final(self)@ == old(self)@.bind(old(self).spec_dialect(), value@),
            final(self).spec_dialect() == old(self).spec_dialect(),
    {
        let index: u128 = self.params.len() as u128 + 1;
        match self.dialect {
            Dialect::Postgres => {
                push_char(&mut self.sql, '$');
                push_decimal(&mut self.sql, index);
            },
            Dialect::Sqlite => {
                push_char(&mut self.sql, '?');
            },
        }
        self.params.push(value);
        proof {
            assert(params_of(self.params@) =~= params_of(old(self).params@).push(value@));
            assert(self.sql@ =~= old(self).sql@ + placeholder(
                self.dialect,
                (old(self).params@.len() + 1) as nat,
            ));
        }
    }

    /// Writes `column LIKE pattern` for each of the columns, joined by `OR`,
    /// and binds the pattern once for each.
    pub fn search_columns(&mut self, columns: &Vec<&'static str>, pattern: &String)
        ensures
            final(self)@ == old(self)@.search_columns(
                old(self).spec_dialect(),
                names(columns@),
                pattern@,
                columns@.len(),
            ),
            final(self).spec_dialect() == old(self).spec_dialect(),
    {
        let ghost start = self@;
        let ghost d = self.dialect;
        let mut i: usize = 0;
        while i < columns.len()
            invariant
                i <= columns@.len(),
                self.dialect == d,
                self@ == start.search_columns(d, names(columns@), pattern@, i as nat),
            decreases columns@.len() - i,
        {
            if i > 0 {
                self.text(" OR ");
            }
            self.text(columns[i]);
            self.text(" ");
            match self.dialect {
                Dialect::Postgres => self.text("ILIKE"),
                Dialect::Sqlite => self.text("LIKE"),
            }
            self.text(" ");
            self.bind(SqlValue::Text(pattern.clone()));
            i = i + 1;
        }
    }

    /// Writes one predicate and binds its values.
    pub fn predicate(&mut self, p: &Predicate)
        ensures
            final(self)@ == old(self)@.predicate(old(self).spec_dialect(), p@),
            final(self).spec_dialect() == old(self).spec_dialect(),
    {
        match p {
            Predicate::Equals { column, value } => {
                self.text(column);
                self.text(" = ");
                self.bind(value.duplicate());
            },
            Predicate::Search { columns, term } => {
                let mut pattern = String::new();
                push_char(&mut pattern, '%');
                pattern.append(term.as_str());
                push_char(&mut pattern, '%');
                proof {
                    assert(pattern@ =~= like_pattern(term@));
                }
                self.text("(");
                self.search_columns(columns, &pattern);
                self.text(")");
            },
            Predicate::Flag { column, value } => {
                self.text(column);
                self.text(" = ");
                match self.dialect {
                    Dialect::Postgres => if *value {
                        self.text("true")
                    } else {
                        self.text("false")
                    },
                    Dialect::Sqlite => if *value {
                        self.text("1")
                    } else {
                        self.text("0")
                    },
                }
            },
            Predicate::IsNull { column } => {
                self.text(column);
                self.text(" IS NULL");
            },
            Predicate::IsNotNull { column } => {
                self.text(column);
                self.text(" IS NOT NULL");
            },
        }
    }

    /// Writes each of the predicates behind the word `AND`, starting with the
    /// predicate at position `from`.
    pub fn and_each(&mut self, predicates: &Vec<Predicate>, from: usize)
        requires
            from <= predicates@.len(),
        ensures
            final(self)@ == old(self)@.and_each(
                old(self).spec_dialect(),
                predicates_of(predicates@).skip(from as int),
                (predicates@.len() - from) as nat,
            ),
            final(self).spec_dialect() == old(self).spec_dialect(),
    {
        let ghost start = self@;
        let ghost d = self.dialect;
        let ghost rest = predicates_of(predicates@).skip(from as int);
        let mut i: usize = from;
        while i < predicates.len()
            invariant
                from <= i <= predicates@.len(),
                self.dialect == d,
                rest == predicates_of(predicates@).skip(from as int),
                self@ == start.and_each(d, rest, (i - from) as nat),
            decreases predicates@.len() - i,
        {
            self.text(" AND ");
            self.predicate(&predicates[i]);
            proof {
                assert(rest[i - from] == predicates@[i as int]@);
            }
            i = i + 1;
        }
    }

    /// Writes `column = placeholder` for each assignment, joined by commas,
    /// and binds the values.
    pub fn assign_each(&mut self, assignments: &Vec<Assignment>)
        ensures
            final(self)@ == old(self)@.assign_each(
                old(self).spec_dialect(),
                assignments_of(assignments@),
                assignments@.len(),
            ),
            final(self).spec_dialect() == old(self).spec_dialect(),
    {
        let ghost start = self@;
        let ghost d = self.dialect;
        let mut i: usize = 0;
        while i < assignments.len()
            invariant
                i <= assignments@.len(),
                self.dialect == d,
                self@ == start.assign_each(d, assignments_of(assignments@), i as nat),
            decreases assignments@.len() - i,
        {
            if i > 0 {
                self.text(", ");
            }
            self.text(assignments[i].column);
            self.text(" = ");
            self.bind(assignments[i].value.duplicate());
            i = i + 1;
        }
    }

    /// Writes `column = COALESCE(placeholder, column)` for each assignment,
    /// joined by commas, and binds the values.
    pub fn coalesce_each(&mut self, assignments: &Vec<Assignment>)
        ensures
            final(self)@ == old(self)@.coalesce_each(
                old(self).spec_dialect(),
                assignments_of(assignments@),
                assignments@.len(),
            ),
            final(self).spec_dialect() == old(self).spec_dialect(),
    {
        let ghost start = self@;
        let ghost d = self.dialect;
        let mut i: usize = 0;
        while i < assignments.len()
            invariant
                i <= assignments@.len(),
                self.dialect == d,
                self@ == start.coalesce_each(d, assignments_of(assignments@), i as nat),
            decreases assignments@.len() - i,
        {
            if i > 0 {
                self.text(", ");
            }
            self.text(assignments[i].column);
            self.text(" = COALESCE(");
            self.bind(assignments[i].value.duplicate());
            self.text(", ");
            self.text(assignments[i].column);
            self.text(")");
            i = i + 1;
        }
    }

    /// Writes one placeholder for each value, joined by a comma and a space,
    /// and binds the values.
    pub fn bind_list(&mut self, values: &Vec<SqlValue>)
        ensures
            final(self)@ == old(self)@.bind_list(
                old(self).spec_dialect(),
                params_of(values@),
                values@.len(),
            ),
            final(self).spec_dialect() == old(self).spec_dialect(),
    {
        let ghost start = self@;
        let ghost d = self.dialect;
        let mut i: usize = 0;
        while i < values.len()
            invariant
                i <= values@.len(),
                self.dialect == d,
                self@ == start.bind_list(d, params_of(values@), i as nat),
            decreases values@.len() - i,
        {
            if i > 0 {
                self.text(", ");
            }
            self.bind(values[i].duplicate());
            i = i + 1;
        }
    }

    /// Writes a test that the column holds one of the texts, and binds the
    /// texts: as one array for Postgres, one by one for SQLite.
    pub fn one_of(&mut self, column: &'static str, values: &Vec<String>)
        ensures
            final(self)@ == old(self)@.one_of(old(self).spec_dialect(), column@, texts(values@)),
            final(self).spec_dialect() == old(self).spec_dialect(),
    {
        self.text(column);
        match self.dialect {
            Dialect::Postgres => {
                self.text(" = ANY(");
                self.bind(SqlValue::TextList(copy_texts(values)));
                self.text(")");
            },
            Dialect::Sqlite => {
                self.text(" IN (");
                let ghost start = self@;
                let mut i: usize = 0;
                while i < values.len()
                    invariant
                        i <= values@.len(),
                        self.dialect == Dialect::Sqlite,
                        self@ == start.bind_each(Dialect::Sqlite, texts(values@), i as nat),
                    decreases values@.len() - i,
                {
                    if i > 0 {
                        self.text(",");
                    }
                    self.bind(SqlValue::Text(values[i].clone()));
                    i = i + 1;
                }
                self.text(")");
            },
        }
    }

    /// Writes a `WHERE` clause that holds all the predicates, joined by `AND`;
    /// writes nothing when there is no predicate.
    pub fn where_all(&mut self, predicates: &Vec<Predicate>)
        ensures
            final(self)@ == old(self)@.where_all(
                old(self).spec_dialect(),
                predicates_of(predicates@),
            ),
            final(self).spec_dialect() == old(self).spec_dialect(),
    {
        if predicates.len() > 0 {
            self.text(" WHERE ");
            self.predicate(&predicates[0]);
            self.and_each(predicates, 1);
        }
    }

    /// The statement that has been written.
    pub fn finish(self) -> (s: Statement)
        ensures
            s@ == self@,
    {
        Statement { sql: self.sql, params: self.params }
    }
}

} // verus!
