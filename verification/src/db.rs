//! Trusted boundary around the SQLite `person` table.
//!
//! Every access to the backing database goes through one of the wrappers
//! below. Their contracts speak of `db_people`, the abstract contents of the
//! table: a map from id to the stored row.

use rusqlite::OptionalExtension;
use vstd::prelude::*;

verus! {

#[verifier::external_type_specification]
#[verifier::external_body]
pub struct ExConnection(rusqlite::Connection);

#[verifier::external_type_specification]
#[verifier::external_body]
pub struct ExSqlError(rusqlite::Error);

/// One stored row of the `person` table: name, admin flag, credential digest.
pub type PersonRow = (Seq<char>, bool, Seq<char>);

/// The rows of the `person` table held by a connection, keyed by id.
pub uninterp spec fn db_people(conn: rusqlite::Connection) -> Map<int, PersonRow>;

/// Relies on rusqlite's `Connection::open_in_memory`: a fresh in-memory
/// database. Nothing is claimed of it; the `person` table does not exist
/// until [`db_create_table`] has succeeded.
#[verifier::external_body]
pub(crate) fn db_open() -> (r: Result<rusqlite::Connection, rusqlite::Error>) {
    rusqlite::Connection::open_in_memory()
}

/// Relies on rusqlite's `Connection::execute` running `CREATE TABLE person
/// ...`: a newly created table holds no rows.
#[verifier::external_body]
pub(crate) fn db_create_table(conn: &mut rusqlite::Connection) -> (r: Result<(), rusqlite::Error>)
    ensures
        r is Ok ==> forall|i: int| !(#[trigger] db_people(*final(conn)).contains_key(i)),
{
    conn.execute(
        "CREATE TABLE person (id INTEGER PRIMARY KEY, name TEXT NOT NULL, is_admin BOOLEAN NOT NULL, password TEXT NOT NULL)",
        (),
    )?;
    Ok(())
}

/// Relies on rusqlite's `Connection::execute` running an `INSERT`: on success
/// exactly the given row now stands under the given id; on any error (such as
/// an id that is already present, which violates the primary key) the failed
/// statement leaves the table unchanged.
#[verifier::external_body]
pub(crate) fn db_insert(
    conn: &mut rusqlite::Connection,
    id: i32,
    name: &str,
    is_admin: bool,
    digest: &str,
) -> (r: Result<(), rusqlite::Error>)
    ensures
        r is Ok ==> db_people(*final(conn)) =~= db_people(*old(conn)).insert(
            id as int,
            (name@, is_admin, digest@),
        ),
        r is Err ==> db_people(*final(conn)) == db_people(*old(conn)),
{
    conn.execute(
        "INSERT INTO person (id, name, is_admin, password) VALUES (?1, ?2, ?3, ?4)",
        (&id, &name, &is_admin, &digest),
    )?;
    Ok(())
}

/// Relies on rusqlite's `Connection::query_row` and `OptionalExtension`:
/// `SELECT name, is_admin FROM person WHERE id = ?1` yields the name and
/// admin flag stored under that id, or no row when the id is absent. The
/// digest column is deliberately not read: a looked-up snapshot never
/// carries it.
#[verifier::external_body]
pub(crate) fn db_lookup_id(
    conn: &rusqlite::Connection,
    id: i32,
) -> (r: Result<Option<(String, bool)>, rusqlite::Error>)
    ensures
        r matches Ok(Some(row)) ==> db_people(*conn).contains_key(id as int)
            && db_people(*conn)[id as int].0 == row.0@ && db_people(*conn)[id as int].1 == row.1,
        r matches Ok(None) ==> !db_people(*conn).contains_key(id as int),
{
    conn.query_row(
        "SELECT name, is_admin FROM person WHERE id = ?1",
        [id],
        |row| Ok((row.get(0)?, row.get(1)?)),
    ).optional()
}

/// Relies on rusqlite's `Connection::query_row` and `OptionalExtension`:
/// `SELECT id FROM person WHERE name = ?1 AND password = ?2` yields the id of
/// a row whose name and digest both match, or no row when none matches.
#[verifier::external_body]
pub(crate) fn db_find_name_digest(
    conn: &rusqlite::Connection,
    name: &str,
    digest: &str,
) -> (r: Result<Option<i32>, rusqlite::Error>)
    ensures
        r matches Ok(Some(id)) ==> db_people(*conn).contains_key(id as int)
            && db_people(*conn)[id as int].0 == name@
            && db_people(*conn)[id as int].2 == digest@,
        r matches Ok(None) ==> forall|i: int|
            #[trigger] db_people(*conn).contains_key(i)
                ==> !(db_people(*conn)[i].0 == name@ && db_people(*conn)[i].2 == digest@),
{
    conn.query_row(
        "SELECT id FROM person WHERE name = ?1 AND password = ?2",
        [name, digest],
        |row| row.get(0),
    ).optional()
}

/// Relies on rusqlite's `Connection::query_row` and `OptionalExtension`:
/// `SELECT id FROM person WHERE name = ?1` yields the id of a row with that
/// name, or no row when the name is absent.
#[verifier::external_body]
pub(crate) fn db_find_name(
    conn: &rusqlite::Connection,
    name: &str,
) -> (r: Result<Option<i32>, rusqlite::Error>)
    ensures
        r matches Ok(Some(id)) ==> db_people(*conn).contains_key(id as int)
            && db_people(*conn)[id as int].0 == name@,
        r matches Ok(None) ==> forall|i: int|
            #[trigger] db_people(*conn).contains_key(i) ==> db_people(*conn)[i].0 != name@,
{
    conn.query_row(
        "SELECT id FROM person WHERE name = ?1",
        [name],
        |row| row.get(0),
    ).optional()
}

/// Relies on rusqlite's `Connection::query_row`: `SELECT MAX(id) FROM person`
/// yields one row holding the largest stored id, or NULL (read as `None`)
/// when the table is empty.
#[verifier::external_body]
pub(crate) fn db_max_id(conn: &rusqlite::Connection) -> (r: Result<Option<i32>, rusqlite::Error>)
    ensures
        r matches Ok(Some(m)) ==> db_people(*conn).contains_key(m as int) && forall|i: int|
            #[trigger] db_people(*conn).contains_key(i) ==> i <= m as int,
        r matches Ok(None) ==> forall|i: int| !(#[trigger] db_people(*conn).contains_key(i)),
{
    let id: Option<i32> = conn.query_row("SELECT MAX(id) FROM person", [], |row| row.get(0))?;
    Ok(id)
}

} // verus!
