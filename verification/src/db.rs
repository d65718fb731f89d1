//! Persistence Gateway: one long-lived store connection that serializes all
//! writes. The store itself is reached through a small set of trusted
//! wrappers around `rusqlite`; everything around them — row encoding, error
//! translation, the round-trip guarantee — is verified. Exclusive access is
//! expressed here by `&mut`: whoever holds the gateway mutably is the one
//! writer.

use vstd::prelude::*;

use crate::errors::HandleError;
use crate::registration::{Registration, encode_row, spec_row_of};

verus! {

#[verifier::external_type_specification]
#[verifier::external_body]
pub struct ExConnection(rusqlite::Connection);

#[verifier::external_type_specification]
#[verifier::external_body]
pub struct ExSqlError(rusqlite::Error);

/// The rows of the registration table of `conn`, oldest first, each as its
/// thirteen column values under the table's textual encoding.
pub uninterp spec fn db_rows(conn: rusqlite::Connection) -> Seq<Seq<Seq<char>>>;

/// Whether the registration table exists in `conn`.
pub uninterp spec fn db_has_table(conn: rusqlite::Connection) -> bool;

/// Relies on rusqlite::Connection::open_in_memory: a freshly created
/// database is empty, so it holds no registration table and no rows.
#[verifier::external_body]
fn conn_open_in_memory() -> (r: Result<rusqlite::Connection, rusqlite::Error>)
    ensures
        r matches Ok(c) ==> !db_has_table(c) && db_rows(c) == Seq::<Seq<Seq<char>>>::empty(),
{
    rusqlite::Connection::open_in_memory()
}

/// Relies on rusqlite::Connection::execute running one `CREATE TABLE IF NOT
/// EXISTS` statement: it creates the registration table empty when absent,
/// leaves an existing table and its rows alone, and, being a single atomic
/// statement, changes nothing when it fails.
#[verifier::external_body]
fn exec_create_table(conn: &mut rusqlite::Connection) -> (r: Result<(), rusqlite::Error>)
    ensures
        r is Ok ==> db_has_table(*final(conn)),
        r is Ok && db_has_table(*old(conn)) ==> db_rows(*final(conn)) == db_rows(*old(conn)),
        r is Ok && !db_has_table(*old(conn)) ==> db_rows(*final(conn)) == Seq::<Seq<Seq<char>>>::empty(),
        r is Err ==> db_has_table(*final(conn)) == db_has_table(*old(conn)) && db_rows(*final(conn)) == db_rows(
            *old(conn),
        ),
{
    let r = conn.execute(
        "CREATE TABLE IF NOT EXISTS registration (
                  id              INTEGER PRIMARY KEY,
                  title           TEXT NOT NULL,
                  last_name       TEXT NOT NULL,
                  first_name      TEXT NOT NULL,
                  email_to        TEXT NOT NULL,
                  institution     TEXT NOT NULL,
                  special_participant TEXT NOT NULL,
                  project_number  TEXT NOT NULL,
                  phd_student     TEXT NOT NULL,
                  presentation    TEXT NOT NULL,
                  presentation_title TEXT NOT NULL,
                  meal_type       TEXT NOT NULL,
                  pay_cash        TEXT NOT NULL,
                  comment         TEXT NOT NULL
                  )",
        (),
    );
    match r {
        Ok(_) => Ok(()),
        Err(e) => Err(e),
    }
}

/// Relies on rusqlite::Connection::execute running one `INSERT` statement
/// with the thirteen column values bound in column order: on success
/// exactly one complete row is appended after the existing rows; a failed
/// statement — in particular one against a missing table — is atomic and
/// changes nothing.
#[verifier::external_body]
fn exec_insert_row(conn: &mut rusqlite::Connection, cols: &Vec<String>) -> (r: Result<
    (),
    rusqlite::Error,
>)
    requires
        cols@.len() == 13,
    ensures
        r is Ok ==> db_has_table(*old(conn)) && db_has_table(*final(conn)) && db_rows(*final(conn)) == db_rows(
            *old(conn),
        ).push(cols.deep_view()),
        r is Err ==> db_has_table(*final(conn)) == db_has_table(*old(conn)) && db_rows(*final(conn)) == db_rows(
            *old(conn),
        ),
{
    let r = conn.execute(
        "INSERT INTO registration (
       title,
       last_name,
       first_name,
       email_to,
       institution,
       special_participant,
       project_number,
       phd_student,
       presentation,
       presentation_title,
       meal_type,
       pay_cash,
       comment
   ) VALUES (?1, ?2, ?3, ?4, ?5, ?6, ?7, ?8, ?9, ?10, ?11, ?12, ?13)",
        rusqlite::params_from_iter(cols.iter()),
    );
    match r {
        Ok(_) => Ok(()),
        Err(e) => Err(e),
    }
}

/// Relies on rusqlite::Connection::prepare and Statement::query_map running
/// one `SELECT` of the thirteen named columns ordered by the integer
/// primary key: on success it returns exactly the stored rows, oldest
/// first, in column order.
#[verifier::external_body]
fn exec_select_rows(conn: &rusqlite::Connection) -> (r: Result<Vec<Vec<String>>, rusqlite::Error>)
    ensures
        r matches Ok(rows) ==> rows.deep_view() == db_rows(*conn),
{
    let mut stmt = conn.prepare(
        "SELECT title, last_name, first_name, email_to, institution,
                special_participant, project_number, phd_student, presentation,
                presentation_title, meal_type, pay_cash, comment
         FROM registration ORDER BY id",
    )?;
    let rows = stmt.query_map((), |row| {
        let mut cols: Vec<String> = Vec::new();
        for i in 0..13 {
            cols.push(row.get(i)?);
        }
        Ok(cols)
    })?;
    rows.collect()
}

/// Relies on rusqlite::Connection::prepare and Statement::query_map reading
/// the `id` column ordered by itself: `id` is the table's integer primary
/// key, so on success there is one identifier per stored row and they come
/// back strictly increasing — in particular, all distinct.
#[verifier::external_body]
fn exec_select_ids(conn: &rusqlite::Connection) -> (r: Result<Vec<i64>, rusqlite::Error>)
    ensures
        r matches Ok(ids) ==> ids@.len() == db_rows(*conn).len() && (forall|x: int, y: int|
            0 <= x < y < ids@.len() ==> ids@[x] < ids@[y]),
{
    let mut stmt = conn.prepare("SELECT id FROM registration ORDER BY id")?;
    let rows = stmt.query_map((), |row| row.get(0))?;
    rows.collect()
}

/// The Persistence Gateway: owns the process's one store connection. All
/// writes go through `&mut`, so they are strictly serialized; each insert
/// is one atomic statement.
pub struct DBConnection {
    conn: rusqlite::Connection,
}

impl DBConnection {
    /// The stored registration rows, oldest first, each as its thirteen
    /// column values under the table's textual encoding.
    pub closed spec fn rows(&self) -> Seq<Seq<Seq<char>>> {
        db_rows(self.conn)
    }

    /// Whether the registration table exists yet.
    pub closed spec fn has_table(&self) -> bool {
        db_has_table(self.conn)
    }

    /// A gateway over a fresh private store that holds nothing yet.
    pub fn open_in_memory() -> (r: Result<DBConnection, HandleError>)
        ensures
            r matches Ok(db) ==> !db.has_table() && db.rows() == Seq::<Seq<Seq<char>>>::empty(),
            r matches Err(e) ==> e == HandleError::SQL,
    {
        match conn_open_in_memory() {
            Ok(c) => Ok(DBConnection { conn: c }),
            Err(_) => Err(HandleError::SQL),
        }
    }

    /// Wrap an already opened connection.
    pub fn from_connection(conn: rusqlite::Connection) -> (r: DBConnection)
        ensures
            r.rows() == db_rows(conn),
            r.has_table() == db_has_table(conn),
    {
        DBConnection { conn }
    }

    /// Give the connection back, for instance to close it.
    pub fn into_connection(self) -> (r: rusqlite::Connection)
        ensures
            db_rows(r) == self.rows(),
            db_has_table(r) == self.has_table(),
    {
        self.conn
    }
}

/// Schema step of the Persistence Gateway: create the registration table if
/// it is absent. Idempotent: when the table already exists, a successful
/// call leaves it and every stored row exactly as they were.
pub fn create_db_table(db: &mut DBConnection) -> (r: Result<(), HandleError>)
    ensures
        r is Ok ==> final(db).has_table(),
        r is Ok && old(db).has_table() ==> final(db).rows() == old(db).rows(),
        r is Ok && !old(db).has_table() ==> final(db).rows() == Seq::<Seq<Seq<char>>>::empty(),
        r matches Err(e) ==> e == HandleError::SQL && final(db).rows() == old(db).rows()
            && final(db).has_table() == old(db).has_table(),
{
    match exec_create_table(&mut db.conn) {
        Ok(_) => Ok(()),
        Err(_) => Err(HandleError::SQL),
    }
}

/// Insert step of the Persistence Gateway: append exactly one row holding
/// the textual encoding of `registration`. On success the new row stands
/// after all existing rows; on failure the store is unchanged — there is no
/// partial write.
pub fn insert_into_db(db: &mut DBConnection, registration: &Registration) -> (r: Result<
    (),
    HandleError,
>)
    ensures
        r is Ok ==> old(db).has_table() && final(db).has_table()
            && final(db).rows() == old(db).rows().push(spec_row_of(*registration)),
        r matches Err(e) ==> e == HandleError::SQL && final(db).rows() == old(db).rows()
            && final(db).has_table() == old(db).has_table(),
{
    let cols = encode_row(registration);
    match exec_insert_row(&mut db.conn, &cols) {
        Ok(_) => Ok(()),
        Err(_) => Err(HandleError::SQL),
    }
}

/// Persist a batch of registrations, first to last: each successful insert
/// appends exactly one complete row, so a successful batch appends exactly
/// one row per registration, in submission order, with nothing interleaved
/// between them. A failure stops the batch; the rows inserted before it
/// stay, each one complete.
pub fn insert_all(db: &mut DBConnection, registrations: &Vec<Registration>) -> (r: Result<
    (),
    HandleError,
>)
    ensures
        r is Ok ==> final(db).rows() == old(db).rows() + registrations@.map_values(
            |x: Registration| spec_row_of(x),
        ),
        r matches Err(e) ==> e == HandleError::SQL && (exists|i: int|
            0 <= i <= registrations@.len() && final(db).rows() == old(db).rows()
                + registrations@.take(i).map_values(|x: Registration| spec_row_of(x))),
{
    let n = registrations.len();
    let mut i: usize = 0;
    proof {
        assert(db.rows() =~= old(db).rows() + registrations@.take(0).map_values(
            |x: Registration| spec_row_of(x),
        ));
    }
    while i < n
        invariant
            i <= n,
            n == registrations@.len(),
            db.rows() == old(db).rows() + registrations@.take(i as int).map_values(
                |x: Registration| spec_row_of(x),
            ),
        decreases n - i,
    {
        match insert_into_db(db, &registrations[i]) {
            Ok(_) => (),
            Err(e) => {
                return Err(e);
            },
        }
        proof {
            assert(db.rows() =~= old(db).rows() + registrations@.take(i + 1).map_values(
                |x: Registration| spec_row_of(x),
            ));
        }
        i = i + 1;
    }
    proof {
        assert(registrations@.take(n as int) =~= registrations@);
    }
    Ok(())
}

/// Every stored row, oldest first, each as its thirteen column values.
pub fn read_all_rows(db: &DBConnection) -> (r: Result<Vec<Vec<String>>, HandleError>)
    ensures
        r matches Ok(rows) ==> rows.deep_view() == db.rows(),
        r matches Err(e) ==> e == HandleError::SQL,
{
    match exec_select_rows(&db.conn) {
        Ok(rows) => Ok(rows),
        Err(_) => Err(HandleError::SQL),
    }
}

/// The auto-assigned identifiers of the stored rows: one per row, strictly
/// increasing, so all distinct.
pub fn read_row_ids(db: &DBConnection) -> (r: Result<Vec<i64>, HandleError>)
    ensures
        r matches Ok(ids) ==> ids@.len() == db.rows().len() && (forall|x: int, y: int|
            0 <= x < y < ids@.len() ==> ids@[x] < ids@[y]),
        r matches Err(e) ==> e == HandleError::SQL,
{
    match exec_select_ids(&db.conn) {
        Ok(ids) => Ok(ids),
        Err(_) => Err(HandleError::SQL),
    }
}

/// Insert-then-select round trip: after a successful insert, reading the
/// store back yields the inserted registration's field values, unchanged
/// under the table's textual encoding, as the last stored row.
pub fn insert_and_read_back(db: &mut DBConnection, registration: &Registration) -> (r: Result<
    Vec<String>,
    HandleError,
>)
    ensures
        r matches Ok(row) ==> {
            &&& row.deep_view() == spec_row_of(*registration)
            &&& final(db).rows() == old(db).rows().push(spec_row_of(*registration))
            &&& final(db).rows().last() == spec_row_of(*registration)
        },
        r matches Err(e) ==> e == HandleError::SQL && (final(db).rows() == old(db).rows()
            || final(db).rows() == old(db).rows().push(spec_row_of(*registration))),
{
    match insert_into_db(db, registration) {
        Ok(_) => (),
        Err(e) => {
            return Err(e);
        },
    }
    let mut rows = match read_all_rows(db) {
        Ok(rows) => rows,
        Err(e) => {
            return Err(e);
        },
    };
    proof {
        assert(rows.deep_view().len() == db.rows().len());
    }
    match rows.pop() {
        Some(row) => {
            proof {
                assert(row.deep_view() == db.rows().last());
            }
            Ok(row)
        },
        None => Err(HandleError::SQL),
    }
}

/// Writes are strictly serialized: two successful inserts append their two
/// complete rows one after the other — every older row keeps its place and
/// nothing interleaves.
pub proof fn lemma_serialized_inserts(
    rows: Seq<Seq<Seq<char>>>,
    r1: Seq<Seq<char>>,
    r2: Seq<Seq<char>>,
)
    ensures
        rows.push(r1).push(r2).len() == rows.len() + 2,
        rows.push(r1).push(r2)[rows.len() as int] == r1,
        rows.push(r1).push(r2)[rows.len() as int + 1] == r2,
        forall|i: int| 0 <= i < rows.len() ==> rows.push(r1).push(r2)[i] == rows[i],
{
}

} // verus!
