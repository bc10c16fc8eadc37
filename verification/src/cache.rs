//! The persistent response cache: a relational store keyed by
//! (url, method, request-body-or-null), opened through a small incremental
//! migration mechanism. Rows are append-only. The verified model is the map
//! of rows this process has stored or observed; the trusted boundary
//! promises that a row once seen reads back unchanged.

use vstd::prelude::*;

use crate::error::CrawlError;

verus! {

#[verifier::external_type_specification]
#[verifier::external_body]
pub struct ExConnection(rusqlite::Connection);

/// A cache row key: URL, method, and the request body where there is one.
pub type CacheKey = (Seq<char>, Seq<char>, Option<Seq<char>>);

/// The view of an optional request body.
pub open spec fn body_view(body: Option<&str>) -> Option<Seq<char>> {
    match body {
        Some(b) => Some(b@),
        None => None,
    }
}

/// Relies on `rusqlite::Connection::open`: opens or creates the store.
#[verifier::external_body]
fn open_connection(path: &str) -> (r: Result<rusqlite::Connection, CrawlError>)
    ensures
        r is Err ==> r->Err_0 is Cache,
{
    rusqlite::Connection::open(std::path::Path::new(path)).map_err(
        |e| CrawlError::Cache(format!("{e}")),
    )
}

/// Relies on `rusqlite::Connection::pragma_query_value` reading the
/// `user_version` marker.
#[verifier::external_body]
fn db_get_version(conn: &rusqlite::Connection) -> (r: Result<u32, CrawlError>)
    ensures
        r is Err ==> r->Err_0 is Cache,
{
    conn.pragma_query_value(None, "user_version", |row| row.get("user_version")).map_err(
        |e| CrawlError::Cache(format!("{e}")),
    )
}

/// Relies on `rusqlite::Connection::pragma_update` writing the
/// `user_version` marker.
#[verifier::external_body]
fn db_set_version(conn: &rusqlite::Connection, version: u32) -> (r: Result<(), CrawlError>)
    ensures
        r is Err ==> r->Err_0 is Cache,
{
    conn.pragma_update(None, "user_version", version).map_err(
        |e| CrawlError::Cache(format!("{e}")),
    )
}

/// Relies on `rusqlite::Connection::execute` running one schema statement.
#[verifier::external_body]
fn db_execute(conn: &rusqlite::Connection, sql: &str) -> (r: Result<(), CrawlError>)
    ensures
        r is Err ==> r->Err_0 is Cache,
{
    conn.execute(sql, ()).map(|_| ()).map_err(|e| CrawlError::Cache(format!("{e}")))
}

/// The migration steps, in order. Each is a no-op to re-run because the
/// version marker advances by exactly one past each applied step.
pub open spec fn spec_migration(i: int) -> Seq<char> {
    if i == 0 {
        "create table pages (id integer primary key) strict"@
    } else if i == 1 {
        "alter table pages add column url text not null"@
    } else if i == 2 {
        "alter table pages add column method text not null"@
    } else if i == 3 {
        "alter table pages add column data text"@
    } else if i == 4 {
        "alter table pages add column response text not null"@
    } else if i == 5 {
        "alter table pages add column retrieved text not null"@
    } else {
        "create unique index pages_index on pages (url, method, data)"@
    }
}

/// How many migration steps the schema has.
pub open spec fn migration_count() -> int {
    7
}

/// The migration statements still pending at a stored version.
pub open spec fn pending_migrations(version: int) -> Seq<Seq<char>> {
    if version >= migration_count() {
        Seq::<Seq<char>>::empty()
    } else {
        Seq::new((migration_count() - version) as nat, |k: int| spec_migration(version + k))
    }
}

/// Re-run safety: once every step has been applied and the version marker
/// stands past them all, another open has nothing left to run.
pub proof fn lemma_migrations_rerun_safe(version: int)
    requires
        version >= migration_count(),
    ensures
        pending_migrations(version) == Seq::<Seq<char>>::empty(),
{
}

fn migration(i: usize) -> (r: &'static str)
    requires
        i < 7,
    ensures
        r@ == spec_migration(i as int),
{
    if i == 0 {
        "create table pages (id integer primary key) strict"
    } else if i == 1 {
        "alter table pages add column url text not null"
    } else if i == 2 {
        "alter table pages add column method text not null"
    } else if i == 3 {
        "alter table pages add column data text"
    } else if i == 4 {
        "alter table pages add column response text not null"
    } else if i == 5 {
        "alter table pages add column retrieved text not null"
    } else {
        "create unique index pages_index on pages (url, method, data)"
    }
}

/// Applies each pending migration step in order, advancing the version
/// marker by exactly one past each. Yields the statements it ran: exactly
/// those pending at the stored version, in order.
fn apply_migrations(conn: &rusqlite::Connection, version: u32) -> (r: (
    Result<(), CrawlError>,
    Ghost<Seq<Seq<char>>>,
))
    ensures
        r.0 is Ok ==> r.1@ == pending_migrations(version as int),
        r.0 is Err ==> r.0->Err_0 is Cache,
{
    let start: usize = if version >= 7 {
        7
    } else {
        version as usize
    };
    let ghost mut ran: Seq<Seq<char>> = Seq::<Seq<char>>::empty();
    let mut i: usize = start;
    while i < 7
        invariant
            start <= i <= 7,
            start == if version >= 7 {
                7int
            } else {
                version as int
            },
            ran == Seq::new((i - start) as nat, |k: int| spec_migration(start + k)),
        decreases 7 - i,
    {
        let sql = migration(i);
        match db_execute(conn, sql) {
            Ok(()) => (),
            Err(e) => {
                return (Err(e), Ghost(ran));
            },
        }
        match db_set_version(conn, (i + 1) as u32) {
            Ok(()) => (),
            Err(e) => {
                return (Err(e), Ghost(ran));
            },
        }
        proof {
            ran = ran.push(spec_migration(i as int));
            assert(ran =~= Seq::new((i + 1 - start) as nat, |k: int| spec_migration(start + k)));
        }
        i = i + 1;
    }
    proof {
        assert(ran =~= pending_migrations(version as int));
    }
    (Ok(()), Ghost(ran))
}

/// The response cache. Its model is the set of rows this process has stored
/// or observed, as a map from key to response text; rows are never removed.
pub struct Cache {
    conn: rusqlite::Connection,
    contents: Ghost<Map<CacheKey, Seq<char>>>,
}

impl Cache {
    /// The rows this process has stored or observed.
    pub closed spec fn model(&self) -> Map<CacheKey, Seq<char>> {
        self.contents@
    }

    /// Opens (or creates) the cache at the given path and applies every
    /// pending migration step. Any failure here is fatal to construction.
    pub fn new(path: &str) -> (r: Result<Cache, CrawlError>)
        ensures
            match r {
                Ok(c) => c.model() == Map::<CacheKey, Seq<char>>::empty(),
                Err(e) => e is Cache,
            },
    {
        let conn = open_connection(path)?;
        let version = db_get_version(&conn)?;
        let (applied, _ran) = apply_migrations(&conn, version);
        match applied {
            Ok(()) => Ok(Cache { conn, contents: Ghost(Map::empty()) }),
            Err(e) => Err(e),
        }
    }

    /// Relies on `rusqlite::Connection::query_row` over the
    /// (url, method, data) index, newest row first: a row this process
    /// stored or observed is returned exactly as stored, and a found row is
    /// recorded in the model.
    #[verifier::external_body]
    pub fn lookup(&mut self, url: &str, method: &str, body: Option<&str>) -> (r: Result<
        Option<String>,
        CrawlError,
    >)
        ensures
            match r {
                Ok(Some(v)) => {
                    &&& final(self).model() == old(self).model().insert(
                        (url@, method@, body_view(body)),
                        v@,
                    )
                    &&& old(self).model().contains_key((url@, method@, body_view(body)))
                        ==> old(self).model()[(url@, method@, body_view(body))] == v@
                },
                Ok(None) => {
                    &&& final(self).model() == old(self).model()
                    &&& !old(self).model().contains_key((url@, method@, body_view(body)))
                },
                Err(e) => final(self).model() == old(self).model() && e is Cache,
            },
    {
        let found = self.conn.query_row(
            "select response from pages where url = ?1 and method = ?2 and data is ?3 order by id desc limit 1",
            (url, method, body),
            |row| row.get::<_, String>("response"),
        );
        rusqlite::OptionalExtension::optional(found).map_err(
            |e| CrawlError::Cache(format!("{e}")),
        )
    }

    /// Relies on `rusqlite::Connection::execute` inserting one row: on
    /// success the row is durably added and is what the key reads back. The
    /// unique index rejects a duplicate key that has a body; for keys
    /// without one the index cannot fire, so a repeat insert lands a newer
    /// row, which is the one a lookup then finds.
    #[verifier::external_body]
    pub fn store(
        &mut self,
        url: &str,
        method: &str,
        body: Option<&str>,
        retrieved: &str,
        response: &str,
    ) -> (r: Result<(), CrawlError>)
        ensures
            match r {
                Ok(()) => final(self).model() == old(self).model().insert(
                    (url@, method@, body_view(body)),
                    response@,
                ),
                Err(e) => final(self).model() == old(self).model() && e is Cache,
            },
    {
        self.conn.execute(
            "insert into pages (url, method, data, retrieved, response) values (?1, ?2, ?3, ?4, ?5)",
            (url, method, body, retrieved, response),
        ).map(|_| ()).map_err(|e| CrawlError::Cache(format!("{e}")))
    }
}

} // verus!
