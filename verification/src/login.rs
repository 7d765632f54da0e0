//! Identities and the credential store.
//!
//! The store owns the SQLite-backed `person` table (see [`crate::db`]) and
//! offers lookup, authentication, registration and id allocation. Its view is
//! the map from id to stored row.

use vstd::prelude::*;

use crate::db;
use crate::db::PersonRow;
use crate::digest::{sha1_hex, sha1_hex_of};

verus! {

/// An immutable snapshot of one identity, as a session holds it after a
/// successful login: id, name and admin flag, never the stored digest.
pub struct Person {
    id: i32,
    name: String,
    is_admin: bool,
}

/// The mathematical value of a [`Person`].
pub ghost struct PersonView {
    pub id: int,
    pub name: Seq<char>,
    pub is_admin: bool,
}

impl View for Person {
    type V = PersonView;

    closed spec fn view(&self) -> PersonView {
        PersonView {
            id: self.id as int,
            name: self.name@,
            is_admin: self.is_admin,
        }
    }
}

impl Clone for Person {
    fn clone(&self) -> (r: Person)
        ensures
            r@ == self@,
    {
        Person {
            id: self.id,
            name: self.name.clone(),
            is_admin: self.is_admin,
        }
    }
}

/// Why a store operation failed.
#[derive(Clone, Copy, Debug, PartialEq, Eq, Structural)]
pub enum StoreError {
    /// No identity matches the given name and secret.
    AuthFailed,
    /// No identity with the requested id exists.
    NotFound,
    /// The backing database could not complete the operation.
    Storage,
}

/// The credential store: the `person` table behind a verified interface.
pub struct CredentialStore {
    conn: rusqlite::Connection,
}

impl View for CredentialStore {
    type V = Map<int, PersonRow>;

    closed spec fn view(&self) -> Map<int, PersonRow> {
        db::db_people(self.conn)
    }
}

/// No two identities share a name.
pub open spec fn names_unique(m: Map<int, PersonRow>) -> bool {
    forall|i: int, j: int|
        m.contains_key(i) && m.contains_key(j) && m[i].0 == m[j].0 ==> i == j
}

/// Opens a fresh store holding exactly the seeded administrator: id 0, name
/// "admin", admin flag set, digest of the secret "admin".
pub fn initialize_database() -> (r: Result<CredentialStore, StoreError>)
    ensures
        r matches Ok(store) ==> store@ =~= Map::<int, PersonRow>::empty().insert(
            0,
            ("admin"@, true, sha1_hex_of("admin"@)),
        ),
        r is Err ==> r == Err::<CredentialStore, StoreError>(StoreError::Storage),
{
    let conn = match db::db_open() {
        Ok(c) => c,
        Err(_) => {
            return Err(StoreError::Storage);
        },
    };
    let mut store = CredentialStore { conn };
    match db::db_create_table(&mut store.conn) {
        Ok(_) => (),
        Err(_) => {
            return Err(StoreError::Storage);
        },
    }
    let admin_digest = sha1_hex("admin");
    match db::db_insert(&mut store.conn, 0, "admin", true, admin_digest.as_str()) {
        Ok(_) => Ok(store),
        Err(_) => Err(StoreError::Storage),
    }
}

/// Authenticates: returns the id of an identity whose name is `username` and
/// whose stored digest is the digest of `password`. Unknown names and wrong
/// secrets get the same uniform `AuthFailed`; only a backend fault is
/// reported as `Storage`.
pub fn log(store: &CredentialStore, username: &String, password: &String) -> (r: Result<
    i32,
    StoreError,
>)
    ensures
        r matches Ok(id) ==> store@.contains_key(id as int) && store@[id as int].0 == username@
            && store@[id as int].2 == sha1_hex_of(password@),
        r == Err::<i32, StoreError>(StoreError::AuthFailed) ==> forall|i: int|
            #[trigger] store@.contains_key(i)
                ==> !(store@[i].0 == username@ && store@[i].2 == sha1_hex_of(password@)),
        r is Err ==> (r == Err::<i32, StoreError>(StoreError::AuthFailed) || r == Err::<
            i32,
            StoreError,
        >(StoreError::Storage)),
{
    let password_hash = sha1_hex(password.as_str());
    match db::db_find_name_digest(&store.conn, username.as_str(), password_hash.as_str()) {
        Ok(Some(id)) => Ok(id),
        Ok(None) => Err(StoreError::AuthFailed),
        Err(_) => Err(StoreError::Storage),
    }
}

/// Whether an identity with the given name exists.
pub fn user_exists(store: &CredentialStore, username: &str) -> (r: Result<bool, StoreError>)
    ensures
        r matches Ok(b) ==> b == exists|i: int|
            #[trigger] store@.contains_key(i) && store@[i].0 == username@,
        r is Err ==> r == Err::<bool, StoreError>(StoreError::Storage),
{
    match db::db_find_name(&store.conn, username) {
        Ok(Some(id)) => {
            proof {
                assert(store@.contains_key(id as int) && store@[id as int].0 == username@);
            }
            Ok(true)
        },
        Ok(None) => Ok(false),
        Err(_) => Err(StoreError::Storage),
    }
}

/// Inserts a new non-admin identity under a pre-allocated id. The caller is
/// responsible for having checked name availability and reserved the id; a
/// duplicate id is rejected by the table's primary key and surfaces as
/// `Storage`.
pub fn register(
    store: &mut CredentialStore,
    username: &String,
    password: &String,
    id: i32,
) -> (r: Result<(), StoreError>)
    ensures
        r is Ok ==> final(store)@ =~= old(store)@.insert(
            id as int,
            (username@, false, sha1_hex_of(password@)),
        ),
        r is Err ==> final(store)@ == old(store)@ && r == Err::<(), StoreError>(
            StoreError::Storage,
        ),
{
    let password_hash = sha1_hex(password.as_str());
    match db::db_insert(&mut store.conn, id, username.as_str(), false, password_hash.as_str()) {
        Ok(_) => Ok(()),
        Err(_) => Err(StoreError::Storage),
    }
}

/// Returns one more than the largest stored id, or 1 when the store is
/// empty. An id at the very top of the `i32` range cannot be exceeded and is
/// reported as `Storage`.
pub fn generate_unique_id(store: &CredentialStore) -> (r: Result<i32, StoreError>)
    ensures
        r matches Ok(id) ==> forall|i: int| #[trigger] store@.contains_key(i) ==> i < id as int,
        r matches Ok(id) ==> store@.contains_key(id as int - 1) || ((forall|i: int|
            !store@.contains_key(i)) && id == 1),
        r is Err ==> r == Err::<i32, StoreError>(StoreError::Storage),
{
    match db::db_max_id(&store.conn) {
        Ok(Some(m)) => {
            if m == i32::MAX {
                Err(StoreError::Storage)
            } else {
                Ok(m + 1)
            }
        },
        Ok(None) => Ok(1),
        Err(_) => Err(StoreError::Storage),
    }
}

impl Person {
    /// Materializes the identity snapshot stored under `id`.
    pub fn new(id: i32, store: &CredentialStore) -> (r: Result<Person, StoreError>)
        ensures
            r matches Ok(p) ==> store@.contains_key(id as int) && p@.id == id as int
                && p@.name == store@[id as int].0 && p@.is_admin == store@[id as int].1,
            r == Err::<Person, StoreError>(StoreError::NotFound) ==> !store@.contains_key(
                id as int,
            ),
            !store@.contains_key(id as int) ==> r is Err,
            r is Err ==> (r == Err::<Person, StoreError>(StoreError::NotFound) || r == Err::<
                Person,
                StoreError,
            >(StoreError::Storage)),
    {
        match db::db_lookup_id(&store.conn, id) {
            Ok(Some(row)) => Ok(Person { id, name: row.0, is_admin: row.1 }),
            Ok(None) => Err(StoreError::NotFound),
            Err(_) => Err(StoreError::Storage),
        }
    }

    /// The identity's name.
    pub fn get_name(&self) -> (r: &str)
        ensures
            r@ == self@.name,
    {
        self.name.as_str()
    }

    /// The identity's id.
    pub fn get_id(&self) -> (r: i32)
        ensures
            r as int == self@.id,
    {
        self.id
    }
}

/// Law: a registration whose name was absent keeps names unique. Together
/// with the primary key on ids (the view is a map keyed by id, so two
/// identities can never share an id) this is uniqueness under sequential use:
/// the session checks the name before each insert, so every successful
/// sequential registration inserts an absent name.
pub proof fn lemma_register_keeps_names_unique(
    m: Map<int, PersonRow>,
    id: int,
    row: PersonRow,
)
    requires
        names_unique(m),
        forall|i: int| #[trigger] m.contains_key(i) ==> m[i].0 != row.0,
    ensures
        names_unique(m.insert(id, row)),
{
}

/// Law: a freshly allocated id is larger than every bound id, so it is not
/// yet bound: registering under it creates a new identity and never replaces
/// one, and no two sequentially registered identities share an id.
pub proof fn lemma_allocated_id_is_fresh(m: Map<int, PersonRow>, id: int)
    requires
        forall|i: int| #[trigger] m.contains_key(i) ==> i < id,
    ensures
        !m.contains_key(id),
{
}

/// Law: sequentially allocating an id, registering under it, and allocating
/// again yields a strictly larger id the second time; allocated ids are
/// strictly increasing.
pub proof fn lemma_allocated_ids_increase(
    m: Map<int, PersonRow>,
    id1: int,
    row: PersonRow,
    id2: int,
)
    requires
        forall|i: int| #[trigger] m.contains_key(i) ==> i < id1,
        forall|i: int| #[trigger] m.insert(id1, row).contains_key(i) ==> i < id2,
    ensures
        id1 < id2,
{
    assert(m.insert(id1, row).contains_key(id1));
}

} // verus!
