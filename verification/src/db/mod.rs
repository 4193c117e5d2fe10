//! The two SQL dialects, the database that the service is bound to, and the
//! pages of a listing.

use vstd::prelude::*;
use vstd::string::StringExecFns;
use crate::config::Config;
use crate::error::{fails_with, AppError, AppResult, ErrorKind};
use crate::text::{has_prefix, starts_with};

pub mod statement;
pub mod time;
pub mod value;
pub mod writer;

pub use statement::{
    assignments_of, bool_literal, lemma_and_each_text, lemma_predicate_text,
    lemma_same_forms_push, lemma_search_text, lemma_where_text, like_operator, like_pattern,
    names, placeholder, predicates_of, push_assignment, push_predicate, same_form, same_forms,
    same_text, Assignment, AssignmentView, Predicate, PredicateView, Statement, StatementView,
};
pub use time::{advance, lemma_moment_after, moment_after, rfc3339_text, Timestamp};
pub use value::{
    bool_param, flag_of, flag_param, int32_param, params_of, push_value, real_param, text_param,
    RawFlag, RawFlagView, SqlParam, SqlType, SqlValue,
};
pub use writer::QueryWriter;
pub(crate) use time::rfc3339;

verus! {

/// One of the two SQL engines that the service runs against.
#[derive(Debug, Clone, Copy, PartialEq, Eq, Structural)]
pub enum Dialect {
    Postgres,
    Sqlite,
}

/// The dialect that a database URL selects by its scheme, where it selects
/// one.
pub open spec fn dialect_of_url(url: Seq<char>) -> Option<Dialect> {
    if has_prefix(url, "postgres://"@) || has_prefix(url, "postgresql://"@) {
        Some(Dialect::Postgres)
    } else if has_prefix(url, "sqlite://"@) {
        Some(Dialect::Sqlite)
    } else {
        None
    }
}

/// The number of connections that a pool holds, for either dialect.
pub const MAX_CONNECTIONS: u32 = 10;

/// A database chosen for the life of the process: its dialect and the URL
/// under which it is reached. The connections themselves belong to the
/// driver.
#[derive(Debug, Clone)]
pub struct DatabasePool {
    dialect: Dialect,
    url: String,
}

impl DatabasePool {
    /// The dialect of this database.
    pub closed spec fn spec_dialect(&self) -> Dialect {
        self.dialect
    }

    /// The URL of this database.
    pub closed spec fn spec_url(&self) -> Seq<char> {
        self.url@
    }

    /// Chooses the dialect by the scheme of the URL. A URL with another
    /// scheme is a configuration error.
    pub fn connect(url: &str) -> (r: AppResult<DatabasePool>)
        ensures
            match dialect_of_url(url@) {
                Some(d) => r matches Ok(pool) && pool.spec_dialect() == d && pool.spec_url()
                    == url@,
                None => fails_with(
                    r,
                    ErrorKind::ConfigError,
                    "Invalid database URL. Must start with postgres:// or sqlite://"@,
                ),
            },
    {
        if starts_with(url, "postgres://") || starts_with(url, "postgresql://") {
            Ok(DatabasePool { dialect: Dialect::Postgres, url: String::from_str(url) })
        } else if starts_with(url, "sqlite://") {
            Ok(DatabasePool { dialect: Dialect::Sqlite, url: String::from_str(url) })
        } else {
            Err(
                AppError::ConfigError(
                    String::from_str(
                        "Invalid database URL. Must start with postgres:// or sqlite://",
                    ),
                ),
            )
        }
    }

    /// The database that the configuration names, chosen by the scheme of its
    /// URL.
    pub fn new(config: &Config) -> (r: AppResult<DatabasePool>)
        ensures
            match dialect_of_url(config.database.url@) {
                Some(d) => r matches Ok(pool) && pool.spec_dialect() == d && pool.spec_url()
                    == config.database.url@,
                None => fails_with(
                    r,
                    ErrorKind::ConfigError,
                    "Invalid database URL. Must start with postgres:// or sqlite://"@,
                ),
            },
    {
        Self::connect(config.database.url.as_str())
    }

    /// A second handle on the same database.
    pub fn duplicate(&self) -> (r: DatabasePool)
        ensures
            r.spec_dialect() == self.spec_dialect(),
            r.spec_url() == self.spec_url(),
    {
        DatabasePool { dialect: self.dialect, url: self.url.clone() }
    }

    /// The dialect of this database.
    #[verifier::when_used_as_spec(spec_dialect)]
    pub fn dialect(&self) -> (d: Dialect)
        ensures
            d == self.spec_dialect(),
    {
        self.dialect
    }

    /// The URL of this database.
    pub fn url(&self) -> (u: &String)
        ensures
            u@ == self.spec_url(),
    {
        &self.url
    }

    /// The directory that holds the schema history of this database's
    /// dialect, to be applied before any statement runs.
    pub fn migrate(&self) -> (dir: &'static str)
        ensures
            dir@ == match self.spec_dialect() {
                Dialect::Postgres => "./migrations/postgres"@,
                Dialect::Sqlite => "./migrations/sqlite"@,
            },
    {
        match self.dialect {
            Dialect::Postgres => "./migrations/postgres",
            Dialect::Sqlite => "./migrations/sqlite",
        }
    }

    /// The URL of this database where its dialect is Postgres.
    pub fn postgres(&self) -> (r: Option<&String>)
        ensures
            r is Some <==> self.spec_dialect() == Dialect::Postgres,
            r matches Some(u) ==> u@ == self.spec_url(),
    {
        match self.dialect {
            Dialect::Postgres => Some(&self.url),
            _ => None,
        }
    }

    /// The URL of this database where its dialect is SQLite.
    pub fn sqlite(&self) -> (r: Option<&String>)
        ensures
            r is Some <==> self.spec_dialect() == Dialect::Sqlite,
            r matches Some(u) ==> u@ == self.spec_url(),
    {
        match self.dialect {
            Dialect::Sqlite => Some(&self.url),
            _ => None,
        }
    }
}

/// The number of rows that a page skips.
pub open spec fn offset_of(page: u32, per_page: u32) -> int {
    (page - 1) * per_page
}

/// The number of rows to skip to reach `page`, where each page holds
/// `per_page` rows and pages are counted from one.
pub fn page_offset(page: u32, per_page: u32) -> (r: i64)
    requires
        page >= 1,
        offset_of(page, per_page) <= i64::MAX,
    ensures
        r == offset_of(page, per_page),
{
    let before: u64 = (page - 1) as u64;
    let size: u64 = per_page as u64;
    assert(before * size <= u64::MAX) by (nonlinear_arith)
        requires
            before <= 0xffff_ffff,
            size <= 0xffff_ffff,
    ;
    let product: u64 = before * size;
    product as i64
}

/// The two statements of a paged listing: one that fetches the rows of the
/// page, one that counts the rows that pass the same predicates.
#[derive(Debug)]
pub struct ListQuery {
    pub rows: Statement,
    pub count: Statement,
}

/// What remains to be done once a row has been written: to read it back, or
/// nothing, because the entity is already at hand.
#[derive(Debug)]
pub enum AfterWrite<T> {
    Read(Statement),
    Done(T),
}

} // verus!
