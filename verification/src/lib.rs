//! A catalog of services behind one repository interface, with two
//! interchangeable backends: an in-memory catalog fixed at construction,
//! and a SQLite-backed store read through sqlx. Both report failures in
//! the same closed taxonomy, and callers may hold either behind any
//! ownership-forwarding wrapper without the contract changing.

pub mod models;

use vstd::prelude::*;

use crate::models::{
    dedup_by_id, distinct_ids, has_id, lemma_dedup_distinct, lemma_dedup_identity, spec_service,
    RepoError, Repository, Service,
};

verus! {

/// One row of the services table as plain columns:
/// id, name, description, versions.
pub type ServiceRow = (u32, String, String, u32);

/// Everything a full-table read can come back with.
pub enum TableRead {
    /// The query ran; every row, in the store's own order.
    Rows(Vec<ServiceRow>),
    /// The store could not service the query.
    Unavailable,
}

/// Everything a single-row read can come back with.
pub enum RowRead {
    /// The query ran and matched one row.
    Row(ServiceRow),
    /// The query ran and matched nothing.
    NoRow,
    /// The store could not service the query.
    Unavailable,
}

/// The record a raw table row decodes to.
pub open spec fn row_to_service(row: ServiceRow) -> Service {
    Service { id: row.0, name: row.1, description: row.2, versions: row.3 }
}

/// Raw table rows decoded record by record, in order.
pub open spec fn rows_to_services(rows: Seq<ServiceRow>) -> Seq<Service> {
    rows.map_values(|row: ServiceRow| row_to_service(row))
}

/// What a lookup returns for each storage outcome: the decoded row when
/// it carries the id asked for, `Missing` when the query matched no row,
/// and `ServerError` when the store was unreachable or handed back a row
/// of the wrong id.
pub open spec fn spec_row_lookup(outcome: RowRead, id: u32) -> Result<Service, RepoError> {
    match outcome {
        RowRead::Row(row) => if row.0 == id {
            Ok(row_to_service(row))
        } else {
            Err(RepoError::ServerError)
        },
        RowRead::NoRow => Err(RepoError::Missing),
        RowRead::Unavailable => Err(RepoError::ServerError),
    }
}

/// Copies a catalog record by record.
fn clone_services(v: &Vec<Service>) -> (r: Vec<Service>)
    ensures
        r@ == v@,
{
    let mut out: Vec<Service> = Vec::new();
    let mut i: usize = 0;
    while i < v.len()
        invariant
            i <= v.len(),
            out@ == v@.take(i as int),
        decreases v.len() - i,
    {
        out.push(v[i].clone());
        proof {
            assert(out@ =~= v@.take(i as int + 1));
        }
        i += 1;
    }
    proof {
        assert(out@ =~= v@);
    }
    out
}

/// Whether some record of `v` carries `id`.
fn contains_id(v: &Vec<Service>, id: u32) -> (b: bool)
    ensures
        b == has_id(v@, id),
{
    let mut i: usize = 0;
    while i < v.len()
        invariant
            i <= v.len(),
            forall|j: int| 0 <= j < i ==> v@[j].id != id,
        decreases v.len() - i,
    {
        if v[i].id == id {
            proof {
                assert(has_id(v@, id));
            }
            return true;
        }
        i += 1;
    }
    false
}

/// Decodes raw table rows into catalog records, in order.
pub fn convert_rows(rows: Vec<ServiceRow>) -> (r: Vec<Service>)
    ensures
        r@ == rows_to_services(rows@),
{
    let mut out: Vec<Service> = Vec::new();
    let mut i: usize = 0;
    while i < rows.len()
        invariant
            i <= rows.len(),
            out@ == rows_to_services(rows@.take(i as int)),
        decreases rows.len() - i,
    {
        let row = &rows[i];
        out.push(
            Service {
                id: row.0,
                name: row.1.clone(),
                description: row.2.clone(),
                versions: row.3,
            },
        );
        proof {
            assert(out@ =~= rows_to_services(rows@.take(i as int + 1)));
        }
        i += 1;
    }
    proof {
        assert(rows@.take(rows@.len() as int) =~= rows@);
    }
    out
}

/// Drops every record whose id already appeared earlier in the catalog:
/// the first record of each id survives, in its original place. A catalog
/// already free of duplicate ids passes through unchanged.
pub fn normalize_catalog(services: Vec<Service>) -> (r: Vec<Service>)
    ensures
        r@ == dedup_by_id(services@),
        distinct_ids(r@),
        distinct_ids(services@) ==> r@ == services@,
{
    let mut out: Vec<Service> = Vec::new();
    let mut i: usize = 0;
    while i < services.len()
        invariant
            i <= services.len(),
            out@ == dedup_by_id(services@.take(i as int)),
        decreases services.len() - i,
    {
        proof {
            assert(services@.take(i as int + 1).drop_last() =~= services@.take(i as int));
            assert(services@.take(i as int + 1).last() == services@[i as int]);
        }
        if !contains_id(&out, services[i].id) {
            out.push(services[i].clone());
        }
        i += 1;
    }
    proof {
        assert(services@.take(services@.len() as int) =~= services@);
        lemma_dedup_distinct(services@);
        if distinct_ids(services@) {
            lemma_dedup_identity(services@);
        }
    }
    out
}

/// What listing returns for each storage outcome: the decoded rows as a
/// normalized catalog, or `ServerError` when the store was unreachable.
pub fn interpret_table_read(outcome: TableRead) -> (r: Result<Vec<Service>, RepoError>)
    ensures
        (outcome matches TableRead::Rows(rows) ==> (r matches Ok(v) && v@ == dedup_by_id(
            rows_to_services(rows@),
        ))),
        outcome is Unavailable ==> r == Err::<Vec<Service>, RepoError>(RepoError::ServerError),
        (r matches Ok(v) ==> distinct_ids(v@)),
        (r matches Err(e) ==> e == RepoError::ServerError),
{
    match outcome {
        TableRead::Rows(rows) => Ok(normalize_catalog(convert_rows(rows))),
        TableRead::Unavailable => Err(RepoError::ServerError),
    }
}

/// What a lookup returns for each storage outcome; the whole mapping is
/// `spec_row_lookup`, case by case.
pub fn interpret_row_read(outcome: RowRead, id: u32) -> (r: Result<Service, RepoError>)
    ensures
        r == spec_row_lookup(outcome, id),
{
    match outcome {
        RowRead::Row(row) => {
            if row.0 == id {
                Ok(Service { id: row.0, name: row.1, description: row.2, versions: row.3 })
            } else {
                Err(RepoError::ServerError)
            }
        },
        RowRead::NoRow => Err(RepoError::Missing),
        RowRead::Unavailable => Err(RepoError::ServerError),
    }
}

/// The in-memory backend: a fixed catalog captured at construction, read
/// without any I/O. Serves both as the reference backend and as a
/// deterministic fixture.
#[derive(Debug)]
pub struct InMemoryRepo {
    data: Vec<Service>,
}

impl InMemoryRepo {
    /// No two records of an in-memory catalog ever share an id.
    #[verifier::type_invariant]
    spec fn inv(self) -> bool {
        distinct_ids(self.data@)
    }

    /// Builds the backend over the given records, captured by value. The
    /// records must already satisfy the catalog invariant: no two of them
    /// may share an id.
    pub fn new(data: Vec<Service>) -> (r: Self)
        requires
            distinct_ids(data@),
        ensures
            r.transparent(),
            r.catalog() == data@,
    {
        Self { data }
    }
}

impl Repository for InMemoryRepo {
    closed spec fn transparent(&self) -> bool {
        true
    }

    closed spec fn catalog(&self) -> Seq<Service> {
        self.data@
    }

    fn services(&self) -> (r: Result<Vec<Service>, RepoError>) {
        proof {
            use_type_invariant(self);
        }
        Ok(clone_services(&self.data))
    }

    fn service(&self, id: u32) -> (r: Result<Service, RepoError>) {
        let n = self.data.len();
        let mut i: usize = 0;
        proof {
            assert(self.data@.skip(0) =~= self.data@);
        }
        while i < n
            invariant
                i <= n,
                n == self.data@.len(),
                spec_service(self.data@, id) == spec_service(self.data@.skip(i as int), id),
            decreases n - i,
        {
            if self.data[i].id == id {
                proof {
                    assert(self.data@.skip(i as int)[0] == self.data@[i as int]);
                }
                return Ok(self.data[i].clone());
            }
            proof {
                assert(self.data@.skip(i as int).drop_first() =~= self.data@.skip(i as int + 1));
            }
            i += 1;
        }
        proof {
            assert(self.data@.skip(n as int) =~= Seq::<Service>::empty());
        }
        Err(RepoError::Missing)
    }
}

/// A SQLite connection pool, held opaquely: sqlx's `Pool` cannot be
/// declared to the verifier (its type parameter is bound by a trait of
/// sqlx), so this struct hides it whole, together with the single-thread
/// runtime that drives the pool's asynchronous reads.
#[verifier::external_body]
#[derive(Debug)]
pub struct DbPool {
    rt: tokio::runtime::Runtime,
    pool: sqlx::Pool<sqlx::Sqlite>,
}

impl DbPool {
    /// Relies on sqlx: `Pool::connect_lazy` parses the URL and sets up a
    /// SQLite pool without touching the store; connections are first made
    /// when an operation runs, so only a malformed URL fails here. Also
    /// relies on tokio: the pool lives inside a runtime of its own.
    #[verifier::external_body]
    pub fn connect_lazy(url: &str) -> (r: Result<DbPool, RepoError>) {
        let rt = match tokio::runtime::Builder::new_current_thread().enable_all().build() {
            Ok(rt) => rt,
            Err(_) => return Err(RepoError::ServerError),
        };
        let guard = rt.enter();
        let pool = sqlx::Pool::connect_lazy(url);
        drop(guard);
        match pool {
            Ok(pool) => Ok(DbPool { rt, pool }),
            Err(_) => Err(RepoError::ServerError),
        }
    }
}

/// Relies on sqlx: `query_as` and `fetch_all` run one SELECT over the
/// services table on the pool and decode every row into plain columns;
/// any connection, query or decode failure surfaces as an `Err`, reported
/// here as `Unavailable`.
#[verifier::external_body]
fn read_all_rows(pool: &DbPool) -> (r: TableRead) {
    let q = sqlx::query_as::<sqlx::Sqlite, ServiceRow>(
        "SELECT id, name, description, versions FROM services",
    );
    match pool.rt.block_on(q.fetch_all(&pool.pool)) {
        Ok(rows) => TableRead::Rows(rows),
        Err(_) => TableRead::Unavailable,
    }
}

/// Relies on sqlx: `query_as`, `bind` and `fetch_one` run one SELECT for
/// a row whose id column equals `id`; sqlx reports an empty result as
/// `Error::RowNotFound`, told apart here from every other failure.
#[verifier::external_body]
fn read_row_by_id(pool: &DbPool, id: u32) -> (r: RowRead) {
    let q = sqlx::query_as::<sqlx::Sqlite, ServiceRow>(
        "SELECT id, name, description, versions FROM services WHERE id = ?",
    );
    match pool.rt.block_on(q.bind(id).fetch_one(&pool.pool)) {
        Ok(row) => RowRead::Row(row),
        Err(sqlx::Error::RowNotFound) => RowRead::NoRow,
        Err(_) => RowRead::Unavailable,
    }
}

/// The persistent backend: projects the services table of a relational
/// store through the repository interface. Construction wraps an
/// already-configured pool and never touches the store; only individual
/// operations can fail.
#[derive(Debug)]
pub struct SqlRepo {
    pool: DbPool,
}

impl SqlRepo {
    /// Wraps the given connection pool; never fails.
    pub fn new(pool: DbPool) -> (r: Result<Self, RepoError>)
        ensures
            r is Ok,
    {
        Ok(Self { pool })
    }
}

impl Repository for SqlRepo {
    closed spec fn transparent(&self) -> bool {
        false
    }

    closed spec fn catalog(&self) -> Seq<Service> {
        Seq::empty()
    }

    fn services(&self) -> (r: Result<Vec<Service>, RepoError>) {
        let outcome = read_all_rows(&self.pool);
        interpret_table_read(outcome)
    }

    fn service(&self, id: u32) -> (r: Result<Service, RepoError>) {
        let outcome = read_row_by_id(&self.pool, id);
        interpret_row_read(outcome, id)
    }
}

} // verus!
