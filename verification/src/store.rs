//! The credential store model: a table of user records with unique ids,
//! usernames and emails.
//!
//! The core consumes exactly four operations of the store: lookup by
//! username, role lookup by id, a combined username-or-email existence
//! check, and insertion with uniqueness enforcement. They are verified here
//! over an in-memory table; a deployment that keeps the records elsewhere
//! must honour the same contracts.

use vstd::prelude::*;
use crate::errors::AuthError;
use crate::text::str_eq;

verus! {

/// One identity record.
pub struct User {
    /// Unique id, assigned by the store on creation.
    pub id: u64,
    /// Unique username.
    pub username: String,
    /// Unique email.
    pub email: String,
    /// One-way hash of the password; never the plaintext.
    pub password_hash: String,
    /// The role label, "user" or "manager".
    pub role: String,
}

/// The mathematical content of a user record.
pub ghost struct UserModel {
    /// Unique id.
    pub id: u64,
    /// Unique username.
    pub username: Seq<char>,
    /// Unique email.
    pub email: Seq<char>,
    /// One-way hash of the password.
    pub password_hash: Seq<char>,
    /// The role label.
    pub role: Seq<char>,
}

impl Clone for User {
    fn clone(&self) -> (r: User)
        ensures
            r == *self,
    {
        User {
            id: self.id,
            username: self.username.clone(),
            email: self.email.clone(),
            password_hash: self.password_hash.clone(),
            role: self.role.clone(),
        }
    }
}

impl View for User {
    type V = UserModel;

    open spec fn view(&self) -> UserModel {
        UserModel {
            id: self.id,
            username: self.username@,
            email: self.email@,
            password_hash: self.password_hash@,
            role: self.role@,
        }
    }
}

/// Whether some record of the table carries this username.
pub open spec fn has_username(rows: Seq<UserModel>, username: Seq<char>) -> bool {
    exists|i: int| 0 <= i < rows.len() && #[trigger] rows[i].username == username
}

/// Whether some record of the table carries this email.
pub open spec fn has_email(rows: Seq<UserModel>, email: Seq<char>) -> bool {
    exists|i: int| 0 <= i < rows.len() && #[trigger] rows[i].email == email
}

/// The record carrying this username, if any.
pub open spec fn spec_find_user(rows: Seq<UserModel>, username: Seq<char>) -> Option<UserModel> {
    if has_username(rows, username) {
        Some(rows[choose|i: int| 0 <= i < rows.len() && #[trigger] rows[i].username == username])
    } else {
        None
    }
}

/// The role of the record carrying this id, if any.
pub open spec fn spec_role_of_id(rows: Seq<UserModel>, id: u64) -> Option<Seq<char>> {
    if exists|i: int| 0 <= i < rows.len() && #[trigger] rows[i].id == id {
        Some(rows[choose|i: int| 0 <= i < rows.len() && #[trigger] rows[i].id == id].role)
    } else {
        None
    }
}

/// How many records of the table carry this username.
pub open spec fn count_username(rows: Seq<UserModel>, username: Seq<char>) -> nat
    decreases rows.len(),
{
    if rows.len() == 0 {
        0
    } else {
        (count_username(rows.drop_last(), username) + if rows.last().username == username {
            1nat
        } else {
            0nat
        }) as nat
    }
}

/// A table without this username has no record of it to count.
pub proof fn lemma_count_username_zero(rows: Seq<UserModel>, username: Seq<char>)
    requires
        !has_username(rows, username),
    ensures
        count_username(rows, username) == 0,
    decreases rows.len(),
{
    if rows.len() > 0 {
        assert(forall|i: int|
            0 <= i < rows.len() - 1 ==> rows.drop_last()[i] == #[trigger] rows[i]);
        assert(!has_username(rows.drop_last(), username));
        lemma_count_username_zero(rows.drop_last(), username);
        assert(rows.last().username != username);
    }
}

/// Registering a username that was free leaves the table with exactly one
/// record of it, and any further registration of it finds it taken.
pub proof fn lemma_duplicate_registration(rows: Seq<UserModel>, row: UserModel)
    requires
        !has_username(rows, row.username),
    ensures
        has_username(rows.push(row), row.username),
        count_username(rows.push(row), row.username) == 1,
{
    let rows2 = rows.push(row);
    assert(rows2[rows.len() as int].username == row.username);
    lemma_count_username_zero(rows, row.username);
    assert(rows2.drop_last() =~= rows);
    assert(rows2.last() == row);
}

/// The table of user records.
pub struct UserStore {
    users: Vec<User>,
}

impl View for UserStore {
    type V = Seq<UserModel>;

    closed spec fn view(&self) -> Seq<UserModel> {
        self.users@.map(|i: int, u: User| u@)
    }
}

impl UserStore {
    /// Well-formedness: ids are the row positions (hence unique), and
    /// usernames and emails are unique.
    pub open spec fn wf(&self) -> bool {
        &&& forall|i: int| 0 <= i < self@.len() ==> #[trigger] self@[i].id == i
        &&& forall|i: int, j: int|
            0 <= i < j < self@.len() ==> #[trigger] self@[i].username != #[trigger] self@[j].username
        &&& forall|i: int, j: int|
            0 <= i < j < self@.len() ==> #[trigger] self@[i].email != #[trigger] self@[j].email
    }

    /// An empty store.
    pub fn new() -> (r: UserStore)
        ensures
            r.wf(),
            r@ == Seq::<UserModel>::empty(),
    {
        let r = UserStore { users: Vec::new() };
        proof {
            assert(r@ =~= Seq::<UserModel>::empty());
        }
        r
    }

    /// How many records the store holds.
    pub fn len(&self) -> (r: usize)
        ensures
            r == self@.len(),
    {
        self.users.len()
    }

    /// Looks a record up by username.
    pub fn find_by_username(&self, username: &str) -> (r: Option<User>)
        requires
            self.wf(),
        ensures
            r matches Some(u) ==> spec_find_user(self@, username@) == Some(u@),
            r is None ==> spec_find_user(self@, username@) is None,
    {
        let n = self.users.len();
        let mut i: usize = 0;
        while i < n
            invariant
                self.wf(),
                0 <= i <= n,
                n == self@.len(),
                forall|j: int| 0 <= j < i ==> #[trigger] self@[j].username != username@,
            decreases n - i,
        {
            if str_eq(self.users[i].username.as_str(), username) {
                proof {
                    let k = choose|k: int|
                        0 <= k < self@.len() && #[trigger] self@[k].username == username@;
                    assert(self@[i as int].username == username@);
                    assert(has_username(self@, username@));
                    if k != i {
                        assert(self@[k].username == self@[i as int].username);
                        assert(false);
                    }
                }
                return Some(self.users[i].clone());
            }
            i = i + 1;
        }
        proof {
            assert(!has_username(self@, username@));
        }
        None
    }

    /// Looks the role of a record up by id.
    pub fn find_role_by_id(&self, id: u64) -> (r: Option<String>)
        requires
            self.wf(),
        ensures
            r matches Some(role) ==> spec_role_of_id(self@, id) == Some(role@),
            r is None ==> spec_role_of_id(self@, id) is None,
    {
        let n = self.users.len();
        let mut i: usize = 0;
        while i < n
            invariant
                self.wf(),
                0 <= i <= n,
                n == self@.len(),
                forall|j: int| 0 <= j < i ==> #[trigger] self@[j].id != id,
            decreases n - i,
        {
            if self.users[i].id == id {
                proof {
                    let k = choose|k: int| 0 <= k < self@.len() && #[trigger] self@[k].id == id;
                    assert(self@[i as int].id == id);
                    if k != i {
                        assert(self@[k].id == k);
                        assert(false);
                    }
                }
                let role = self.users[i].role.clone();
                return Some(role);
            }
            i = i + 1;
        }
        proof {
            assert(!(exists|k: int| 0 <= k < self@.len() && #[trigger] self@[k].id == id));
        }
        None
    }

    /// Whether a record with this username or this email exists.
    pub fn exists_username_or_email(&self, username: &str, email: &str) -> (r: bool)
        requires
            self.wf(),
        ensures
            r == (has_username(self@, username@) || has_email(self@, email@)),
    {
        let n = self.users.len();
        let mut i: usize = 0;
        while i < n
            invariant
                0 <= i <= n,
                n == self@.len(),
                forall|j: int| 0 <= j < i ==> #[trigger] self@[j].username != username@,
                forall|j: int| 0 <= j < i ==> #[trigger] self@[j].email != email@,
            decreases n - i,
        {
            if str_eq(self.users[i].username.as_str(), username) {
                proof {
                    assert(self@[i as int].username == username@);
                }
                return true;
            }
            if str_eq(self.users[i].email.as_str(), email) {
                proof {
                    assert(self@[i as int].email == email@);
                }
                return true;
            }
            i = i + 1;
        }
        false
    }

    /// Inserts a new record, enforcing uniqueness of username and email;
    /// the store assigns the id. On conflict nothing is written.
    pub fn insert_user(&mut self, username: &str, password_hash: &str, email: &str, role: &str) -> (r:
        Result<u64, AuthError>)
        requires
            old(self).wf(),
        ensures
            final(self).wf(),
            ({
                if has_username(old(self)@, username@) || has_email(old(self)@, email@) {
                    r == Result::<u64, AuthError>::Err(AuthError::Conflict) && final(self)@ == old(
                        self,
                    )@
                } else {
                    r matches Ok(id) && id == old(self)@.len() && final(self)@ =~= old(
                        self,
                    )@.push(
                        UserModel {
                            id: id,
                            username: username@,
                            email: email@,
                            password_hash: password_hash@,
                            role: role@,
                        },
                    )
                }
            }),
    {
        if self.exists_username_or_email(username, email) {
            return Err(AuthError::Conflict);
        }
        let id = self.users.len() as u64;
        proof {
            assert(self@.len() <= u64::MAX);
        }
        let user = User {
            id,
            username: crate::text::owned_str(username),
            email: crate::text::owned_str(email),
            password_hash: crate::text::owned_str(password_hash),
            role: crate::text::owned_str(role),
        };
        self.users.push(user);
        proof {
            assert(self@ =~= old(self)@.push(
                UserModel {
                    id: id,
                    username: username@,
                    email: email@,
                    password_hash: password_hash@,
                    role: role@,
                },
            ));
        }
        Ok(id)
    }
}

} // verus!
