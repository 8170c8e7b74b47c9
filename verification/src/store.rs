//! The relational side of the subsystem, modelled exactly: user rows with
//! unique login keys, and the append-only refresh-token records that link a
//! refresh token string to its owner. Records are never mutated; a refresh
//! token is matched by exact string together with its owner.
use vstd::prelude::*;

use crate::byteseq::bytes_eq;
use crate::errors::AuthError;
use crate::types::{AccessToken, AccessTokenView};

verus! {

/// Registration input; the password arrives hashed when this reaches the
/// store.
pub struct RegisterData {
    pub email: Vec<u8>,
    pub username: Vec<u8>,
    pub password: Vec<u8>,
}

/// What registration returns: the fresh identifier and the public fields.
pub struct RegisterPayload {
    pub id: u128,
    pub email: Vec<u8>,
    pub username: Vec<u8>,
}

/// Mathematical view of a registration result.
pub ghost struct RegisterPayloadView {
    pub id: u128,
    pub email: Seq<u8>,
    pub username: Seq<u8>,
}

impl View for RegisterPayload {
    type V = RegisterPayloadView;

    open spec fn view(&self) -> RegisterPayloadView {
        RegisterPayloadView { id: self.id, email: self.email@, username: self.username@ }
    }
}

/// A stored user row as the login flow reads it.
pub struct LoginQueryPayload {
    pub id: u128,
    pub email: Vec<u8>,
    pub username: Vec<u8>,
    pub password: Vec<u8>,
}

/// Mathematical view of a user row.
pub ghost struct LoginQueryPayloadView {
    pub id: u128,
    pub email: Seq<u8>,
    pub username: Seq<u8>,
    pub password: Seq<u8>,
}

impl View for LoginQueryPayload {
    type V = LoginQueryPayloadView;

    open spec fn view(&self) -> LoginQueryPayloadView {
        LoginQueryPayloadView {
            id: self.id,
            email: self.email@,
            username: self.username@,
            password: self.password@,
        }
    }
}

impl Clone for LoginQueryPayload {
    fn clone(&self) -> (r: Self)
        ensures
            r@ == self@,
    {
        LoginQueryPayload {
            id: self.id,
            email: self.email.clone(),
            username: self.username.clone(),
            password: self.password.clone(),
        }
    }
}

/// The identity snapshot a user row yields.
pub open spec fn spec_snapshot_of(row: LoginQueryPayloadView) -> AccessTokenView {
    AccessTokenView { id: row.id, username: row.username, email: row.email }
}

/// One durable link from a refresh token string to the user it was issued to.
pub struct RefreshTokenRecord {
    pub token: Vec<u8>,
    pub owner_id: u128,
}

/// Mathematical view of a refresh-token record.
pub ghost struct RefreshTokenRecordView {
    pub token: Seq<u8>,
    pub owner_id: u128,
}

impl View for RefreshTokenRecord {
    type V = RefreshTokenRecordView;

    open spec fn view(&self) -> RefreshTokenRecordView {
        RefreshTokenRecordView { token: self.token@, owner_id: self.owner_id }
    }
}

/// Whether a record linking this token to this owner is on file.
pub open spec fn spec_store_has(
    records: Seq<RefreshTokenRecordView>,
    token: Seq<u8>,
    owner_id: u128,
) -> bool {
    exists|i: int|
        0 <= i < records.len() && (#[trigger] records[i]).token == token && records[i].owner_id
            == owner_id
}

/// Append-only store of refresh-token records. Duplicate insertion is not
/// deduplicated and is not an error; no deletion path exists.
pub struct RefreshTokenStore {
    records: Vec<RefreshTokenRecord>,
}

impl View for RefreshTokenStore {
    type V = Seq<RefreshTokenRecordView>;

    closed spec fn view(&self) -> Seq<RefreshTokenRecordView> {
        self.records@.map(|i: int, r: RefreshTokenRecord| r@)
    }
}

impl RefreshTokenStore {
    /// An empty store.
    pub fn new() -> (r: RefreshTokenStore)
        ensures
            r@ == Seq::<RefreshTokenRecordView>::empty(),
    {
        let s = RefreshTokenStore { records: Vec::new() };
        proof {
            assert(s@ =~= Seq::<RefreshTokenRecordView>::empty());
        }
        s
    }

    /// Appends a record. Fails only on backend unavailability, which this
    /// in-memory backend never exhibits.
    pub fn insert(&mut self, token: Vec<u8>, owner_id: u128) -> (r: Result<(), AuthError>)
        ensures
            r is Ok,
            final(self)@ == old(self)@.push(RefreshTokenRecordView { token: token@, owner_id }),
    {
        let ghost before = self@;
        let ghost pushed = RefreshTokenRecordView { token: token@, owner_id };
        self.records.push(RefreshTokenRecord { token, owner_id });
        proof {
            assert(self@ =~= before.push(pushed));
        }
        Ok(())
    }

    /// Succeeds only when both the token string and the owner match a record
    /// exactly; a lookup that finds no row is `UnknownToken`, to be treated
    /// as "unauthenticated", never as a backend fault.
    pub fn find(&self, token: &Vec<u8>, owner_id: u128) -> (r: Result<u128, AuthError>)
        ensures
            r matches Ok(id) ==> id == owner_id && spec_store_has(self@, token@, owner_id),
            r matches Err(e) ==> e == AuthError::UnknownToken && !spec_store_has(
                self@,
                token@,
                owner_id,
            ),
    {
        let n = self.records.len();
        let mut i: usize = 0;
        while i < n
            invariant
                0 <= i <= n,
                n == self.records@.len(),
                self@.len() == self.records@.len(),
                forall|k: int|
                    0 <= k < self.records@.len() ==> #[trigger] self@[k] == self.records@[k]@,
                forall|k: int|
                    0 <= k < i ==> !(#[trigger] self@[k].token == token@ && self@[k].owner_id
                        == owner_id),
            decreases n - i,
        {
            let rec = &self.records[i];
            if rec.owner_id == owner_id && bytes_eq(&rec.token, token) {
                proof {
                    assert(self@[i as int].token == token@ && self@[i as int].owner_id == owner_id);
                }
                return Ok(owner_id);
            }
            i += 1;
        }
        Err(AuthError::UnknownToken)
    }
}

/// Mathematical view of the whole relational store.
pub ghost struct UserQueryView {
    pub users: Seq<LoginQueryPayloadView>,
    pub refresh_tokens: Seq<RefreshTokenRecordView>,
}

/// Well-formedness of the user table: identifiers are consecutive from one,
/// and the two login keys are unique across rows.
pub open spec fn user_query_wf(v: UserQueryView) -> bool {
    &&& forall|i: int| 0 <= i < v.users.len() ==> #[trigger] v.users[i].id == (i + 1) as u128
    &&& forall|i: int, j: int|
        #![trigger v.users[i].email, v.users[j].email]
        #![trigger v.users[i].username, v.users[j].username]
        0 <= i < v.users.len() && 0 <= j < v.users.len() && i != j ==> (v.users[i].email
            != v.users[j].email && v.users[i].username != v.users[j].username)
    &&& forall|i: int|
        0 <= i < v.users.len() ==> ((#[trigger] v.users[i]).email.len()
            <= 0xffff_ffff_ffff_ffffu64 && v.users[i].username.len() <= 0xffff_ffff_ffff_ffffu64)
}

/// The user row holding this email, when one exists; unique under
/// well-formedness.
pub open spec fn spec_user_by_email(users: Seq<LoginQueryPayloadView>, email: Seq<u8>) -> Option<
    LoginQueryPayloadView,
> {
    if exists|i: int| 0 <= i < users.len() && #[trigger] users[i].email == email {
        Some(users[choose|i: int| 0 <= i < users.len() && #[trigger] users[i].email == email])
    } else {
        None
    }
}

/// The user row holding this username, when one exists.
pub open spec fn spec_user_by_username(
    users: Seq<LoginQueryPayloadView>,
    username: Seq<u8>,
) -> Option<LoginQueryPayloadView> {
    if exists|i: int| 0 <= i < users.len() && #[trigger] users[i].username == username {
        Some(
            users[choose|i: int|
                    0 <= i < users.len() && #[trigger] users[i].username == username],
        )
    } else {
        None
    }
}

/// The user row holding this identifier, when one exists.
pub open spec fn spec_user_by_id(users: Seq<LoginQueryPayloadView>, id: u128) -> Option<
    LoginQueryPayloadView,
> {
    if exists|i: int| 0 <= i < users.len() && #[trigger] users[i].id == id {
        Some(users[choose|i: int| 0 <= i < users.len() && #[trigger] users[i].id == id])
    } else {
        None
    }
}

/// View of an optional byte string.
pub open spec fn opt_bytes_view(o: Option<Vec<u8>>) -> Option<Seq<u8>> {
    match o {
        Some(v) => Some(v@),
        None => None,
    }
}

/// Identity resolution by login key: exactly one of email and username must
/// be supplied (email takes precedence); a missing row is a credential
/// failure, not a backend fault.
pub open spec fn spec_login_query(
    users: Seq<LoginQueryPayloadView>,
    email: Option<Seq<u8>>,
    username: Option<Seq<u8>>,
) -> Result<LoginQueryPayloadView, AuthError> {
    match email {
        Some(e) => match spec_user_by_email(users, e) {
            Some(u) => Ok(u),
            None => Err(AuthError::InvalidCredentials),
        },
        None => match username {
            Some(un) => match spec_user_by_username(users, un) {
                Some(u) => Ok(u),
                None => Err(AuthError::InvalidCredentials),
            },
            None => Err(AuthError::InputError),
        },
    }
}

/// The relational store the token flow touches: the user table and the
/// refresh-token table, with the exact query surface the services use.
pub struct UserQuery {
    users: Vec<LoginQueryPayload>,
    refresh_tokens: RefreshTokenStore,
}

impl View for UserQuery {
    type V = UserQueryView;

    closed spec fn view(&self) -> UserQueryView {
        UserQueryView {
            users: self.users@.map(|i: int, u: LoginQueryPayload| u@),
            refresh_tokens: self.refresh_tokens@,
        }
    }
}

impl UserQuery {
    /// An empty store.
    pub fn new() -> (r: UserQuery)
        ensures
            r@.users == Seq::<LoginQueryPayloadView>::empty(),
            r@.refresh_tokens == Seq::<RefreshTokenRecordView>::empty(),
            user_query_wf(r@),
    {
        let q = UserQuery { users: Vec::new(), refresh_tokens: RefreshTokenStore::new() };
        proof {
            assert(q@.users =~= Seq::<LoginQueryPayloadView>::empty());
        }
        q
    }

    /// Inserts a user whose email and username are not yet taken; rejects the
    /// registration otherwise. The fresh identifier is one past the last.
    pub fn create_user(&mut self, data: RegisterData) -> (r: Result<RegisterPayload, AuthError>)
        requires
            user_query_wf(old(self)@),
        ensures
            user_query_wf(final(self)@),
            final(self)@.refresh_tokens == old(self)@.refresh_tokens,
            r matches Ok(p) ==> {
                &&& spec_user_by_email(old(self)@.users, data.email@) is None
                &&& spec_user_by_username(old(self)@.users, data.username@) is None
                &&& final(self)@.users == old(self)@.users.push(
                    LoginQueryPayloadView {
                        id: (old(self)@.users.len() + 1) as u128,
                        email: data.email@,
                        username: data.username@,
                        password: data.password@,
                    },
                )
                &&& p@ == RegisterPayloadView {
                    id: (old(self)@.users.len() + 1) as u128,
                    email: data.email@,
                    username: data.username@,
                }
            },
            r matches Err(e) ==> {
                &&& e == AuthError::InputError
                &&& (spec_user_by_email(old(self)@.users, data.email@) is Some
                    || spec_user_by_username(old(self)@.users, data.username@) is Some)
                &&& final(self)@ == old(self)@
            },
    {
        let n = self.users.len();
        let mut i: usize = 0;
        while i < n
            invariant
                0 <= i <= n,
                n == self.users@.len(),
                self@ == old(self)@,
                user_query_wf(self@),
                self@.users.len() == self.users@.len(),
                forall|k: int|
                    0 <= k < self.users@.len() ==> #[trigger] self@.users[k] == self.users@[k]@,
                forall|k: int| 0 <= k < i ==> #[trigger] self@.users[k].email != data.email@,
                forall|k: int|
                    0 <= k < i ==> #[trigger] self@.users[k].username != data.username@,
            decreases n - i,
        {
            let row = &self.users[i];
            if bytes_eq(&row.email, &data.email) {
                proof {
                    assert(self@.users[i as int].email == data.email@);
                }
                return Err(AuthError::InputError);
            }
            if bytes_eq(&row.username, &data.username) {
                proof {
                    assert(self@.users[i as int].username == data.username@);
                }
                return Err(AuthError::InputError);
            }
            i += 1;
        }
        let id = (self.users.len() as u128) + 1;
        let _email_len: u64 = data.email.len() as u64;
        let _username_len: u64 = data.username.len() as u64;
        assert(data.email@.len() <= 0xffff_ffff_ffff_ffffu64);
        assert(data.username@.len() <= 0xffff_ffff_ffff_ffffu64);
        let ghost before = self@.users;
        let ghost new_email = data.email@;
        let ghost new_username = data.username@;
        let ghost new_password = data.password@;
        let payload = RegisterPayload {
            id,
            email: data.email.clone(),
            username: data.username.clone(),
        };
        self.users.push(
            LoginQueryPayload {
                id,
                email: data.email,
                username: data.username,
                password: data.password,
            },
        );
        proof {
            let pushed = LoginQueryPayloadView {
                id: (before.len() + 1) as u128,
                email: new_email,
                username: new_username,
                password: new_password,
            };
            assert(self@.users =~= before.push(pushed));
            let after = self@.users;
            assert forall|i: int, j: int|
                0 <= i < after.len() && 0 <= j < after.len() && i != j implies (
            #[trigger] after[i].email != #[trigger] after[j].email && after[i].username
                != after[j].username) by {
                if i < before.len() && j < before.len() {
                    assert(after[i] == before[i] && after[j] == before[j]);
                } else if i == before.len() {
                    assert(after[j] == before[j] && after[i] == pushed);
                } else {
                    assert(after[i] == before[i] && after[j] == pushed);
                }
            }
            assert forall|i: int| 0 <= i < after.len() implies #[trigger] after[i].id == (i
                + 1) as u128 by {
                if i < before.len() {
                    assert(after[i] == before[i]);
                }
            }
            assert forall|i: int|
                0 <= i < after.len() implies ((#[trigger] after[i]).email.len()
                <= 0xffff_ffff_ffff_ffffu64 && after[i].username.len()
                <= 0xffff_ffff_ffff_ffffu64) by {
                if i < before.len() {
                    assert(after[i] == before[i]);
                }
            }
        }
        Ok(payload)
    }

    /// Resolves login credentials to the stored row: email takes precedence,
    /// a missing key pair is an input error, and an unknown key is a
    /// credential failure.
    pub fn login_query(&self, email: Option<Vec<u8>>, username: Option<Vec<u8>>) -> (r: Result<
        LoginQueryPayload,
        AuthError,
    >)
        requires
            user_query_wf(self@),
        ensures
            r matches Ok(u) ==> spec_login_query(
                self@.users,
                opt_bytes_view(email),
                opt_bytes_view(username),
            ) == Ok::<LoginQueryPayloadView, AuthError>(u@),
            r matches Err(e) ==> spec_login_query(
                self@.users,
                opt_bytes_view(email),
                opt_bytes_view(username),
            ) == Err::<LoginQueryPayloadView, AuthError>(e),
    {
        match (&email, &username) {
            (None, None) => Err(AuthError::InputError),
            (Some(e), _) => {
                match self.row_by_email(e) {
                    Some(u) => Ok(u),
                    None => Err(AuthError::InvalidCredentials),
                }
            },
            (None, Some(un)) => {
                match self.row_by_username(un) {
                    Some(u) => Ok(u),
                    None => Err(AuthError::InvalidCredentials),
                }
            },
        }
    }

    /// Scans the user table for an email match.
    fn row_by_email(&self, email: &Vec<u8>) -> (r: Option<LoginQueryPayload>)
        requires
            user_query_wf(self@),
        ensures
            r matches Some(u) ==> spec_user_by_email(self@.users, email@) == Some(u@),
            r is None ==> spec_user_by_email(self@.users, email@) is None,
    {
        let n = self.users.len();
        let mut i: usize = 0;
        while i < n
            invariant
                0 <= i <= n,
                n == self.users@.len(),
                self@.users.len() == self.users@.len(),
                user_query_wf(self@),
                forall|k: int|
                    0 <= k < self.users@.len() ==> #[trigger] self@.users[k] == self.users@[k]@,
                forall|k: int| 0 <= k < i ==> #[trigger] self@.users[k].email != email@,
            decreases n - i,
        {
            let row = &self.users[i];
            if bytes_eq(&row.email, email) {
                let u = row.clone();
                proof {
                    let users = self@.users;
                    assert(users[i as int].email == email@);
                    let w = choose|k: int| 0 <= k < users.len() && #[trigger] users[k].email
                        == email@;
                    assert(users[w].email == email@);
                    if w != i as int {
                        assert(users[w].email != users[i as int].email);
                    }
                }
                return Some(u);
            }
            i += 1;
        }
        None
    }

    /// Scans the user table for a username match.
    fn row_by_username(&self, username: &Vec<u8>) -> (r: Option<LoginQueryPayload>)
        requires
            user_query_wf(self@),
        ensures
            r matches Some(u) ==> spec_user_by_username(self@.users, username@) == Some(u@),
            r is None ==> spec_user_by_username(self@.users, username@) is None,
    {
        let n = self.users.len();
        let mut i: usize = 0;
        while i < n
            invariant
                0 <= i <= n,
                n == self.users@.len(),
                self@.users.len() == self.users@.len(),
                user_query_wf(self@),
                forall|k: int|
                    0 <= k < self.users@.len() ==> #[trigger] self@.users[k] == self.users@[k]@,
                forall|k: int| 0 <= k < i ==> #[trigger] self@.users[k].username != username@,
            decreases n - i,
        {
            let row = &self.users[i];
            if bytes_eq(&row.username, username) {
                let u = row.clone();
                proof {
                    let users = self@.users;
                    assert(users[i as int].username == username@);
                    let w = choose|k: int|
                        0 <= k < users.len() && #[trigger] users[k].username == username@;
                    assert(users[w].username == username@);
                    if w != i as int {
                        assert(users[w].username != users[i as int].username);
                    }
                }
                return Some(u);
            }
            i += 1;
        }
        None
    }

    /// Reads the current identity snapshot of a user, as the refresh flow
    /// needs it; a missing row is a credential failure.
    pub fn find_user_by_id(&self, id: u128) -> (r: Result<AccessToken, AuthError>)
        requires
            user_query_wf(self@),
        ensures
            r matches Ok(a) ==> spec_user_by_id(self@.users, id) matches Some(row) && a@
                == spec_snapshot_of(row),
            r matches Err(e) ==> e == AuthError::InvalidCredentials && spec_user_by_id(
                self@.users,
                id,
            ) is None,
    {
        let n = self.users.len();
        let mut i: usize = 0;
        while i < n
            invariant
                0 <= i <= n,
                n == self.users@.len(),
                self@.users.len() == self.users@.len(),
                user_query_wf(self@),
                forall|k: int|
                    0 <= k < self.users@.len() ==> #[trigger] self@.users[k] == self.users@[k]@,
                forall|k: int| 0 <= k < i ==> #[trigger] self@.users[k].id != id,
            decreases n - i,
        {
            let row = &self.users[i];
            if row.id == id {
                proof {
                    let users = self@.users;
                    assert(users[i as int].id == id);
                    let w = choose|k: int| 0 <= k < users.len() && #[trigger] users[k].id == id;
                    assert(users[w].id == id);
                    assert(users[w].id == (w + 1) as u128);
                    assert(users[i as int].id == (i + 1) as u128);
                }
                return Ok(
                    AccessToken {
                        id: row.id,
                        username: row.username.clone(),
                        email: row.email.clone(),
                    },
                );
            }
            i += 1;
        }
        Err(AuthError::InvalidCredentials)
    }

    /// Records a freshly issued refresh token for its owner.
    pub fn create_refresh_token(&mut self, token: &Vec<u8>, userid: u128) -> (r: Result<
        (),
        AuthError,
    >)
        ensures
            r is Ok,
            final(self)@.users == old(self)@.users,
            final(self)@.refresh_tokens == old(self)@.refresh_tokens.push(
                RefreshTokenRecordView { token: token@, owner_id: userid },
            ),
    {
        self.refresh_tokens.insert(token.clone(), userid)
    }

    /// Authorisation check of the refresh flow: the exact token string must
    /// be on file for the exact owner.
    pub fn find_refresh_token(&self, token: &Vec<u8>, userid: u128) -> (r: Result<u128, AuthError>)
        ensures
            r matches Ok(id) ==> id == userid && spec_store_has(
                self@.refresh_tokens,
                token@,
                userid,
            ),
            r matches Err(e) ==> e == AuthError::UnknownToken && !spec_store_has(
                self@.refresh_tokens,
                token@,
                userid,
            ),
    {
        self.refresh_tokens.find(token, userid)
    }
}

} // verus!
