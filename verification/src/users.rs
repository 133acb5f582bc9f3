//! The account store: registration with a salted memory-hard password hash,
//! and the login decision. The hash itself comes from the argon2 crate,
//! behind two declared calls.

use vstd::prelude::*;

use crate::errors::ApiError;
use crate::ext::fresh_id;
use crate::model::{LoginUserSchema, RegisterUserSchema, User, UserV};
use crate::text::{lower_of, to_lower_ascii};

use argon2::{Argon2, PasswordHash, PasswordHasher, PasswordVerifier};

verus! {

/// Whether this password matches this PHC hash string: argon2's verdict,
/// a function of the two strings alone.
pub uninterp spec fn argon2_verifies(password: Seq<char>, hash: Seq<char>) -> bool;

/// Relies on argon2's `PasswordHasher::hash_password`, which hashes under a
/// freshly drawn random salt: the PHC string it returns verifies against
/// the same password.
#[verifier::external_body]
fn hash_password(password: &str) -> (r: Option<String>)
    ensures
        r matches Some(h) ==> argon2_verifies(password@, h@),
{
    match Argon2::default().hash_password(password.as_bytes()) {
        Ok(h) => Some(h.to_string()),
        Err(_) => None,
    }
}

/// Relies on argon2's `PasswordVerifier::verify_password` (and
/// `PasswordHash::new` to parse the stored string): whether the password
/// matches the hash; a string no parse accepts matches nothing.
#[verifier::external_body]
fn verify_password(password: &str, hash: &str) -> (r: bool)
    ensures
        r == argon2_verifies(password@, hash@),
{
    match PasswordHash::new(hash) {
        Ok(parsed) => Argon2::default().verify_password(password.as_bytes(), &parsed).is_ok(),
        Err(_) => false,
    }
}

/// Whether some account carries the (folded) email.
pub open spec fn has_email(s: Seq<UserV>, email: Seq<char>) -> bool {
    exists|i: int| 0 <= i < s.len() && (#[trigger] s[i].email) == email
}

/// The position of the account carrying the email.
pub open spec fn email_index(s: Seq<UserV>, email: Seq<char>) -> int {
    choose|i: int| 0 <= i < s.len() && (#[trigger] s[i].email) == email
}

/// The account carrying the email, if any.
pub open spec fn lookup_email(s: Seq<UserV>, email: Seq<char>) -> Option<UserV> {
    if has_email(s, email) {
        Some(s[email_index(s, email)])
    } else {
        None
    }
}

/// Whether some account carries the identifier.
pub open spec fn has_uid(s: Seq<UserV>, id: Seq<char>) -> bool {
    exists|i: int| 0 <= i < s.len() && (#[trigger] s[i].id) == id
}

/// The position of the account carrying the identifier.
pub open spec fn uid_index(s: Seq<UserV>, id: Seq<char>) -> int {
    choose|i: int| 0 <= i < s.len() && (#[trigger] s[i].id) == id
}

/// The account carrying the identifier, if any.
pub open spec fn lookup_uid(s: Seq<UserV>, id: Seq<char>) -> Option<UserV> {
    if has_uid(s, id) {
        Some(s[uid_index(s, id)])
    } else {
        None
    }
}

/// The store of registered accounts.
pub struct UserStore {
    users: Vec<User>,
}

impl View for UserStore {
    type V = Seq<UserV>;

    closed spec fn view(&self) -> Seq<UserV> {
        self.users@.map_values(|u: User| u@)
    }
}

impl UserStore {
    /// The store's invariant: no two accounts share an email or an
    /// identifier.
    pub open spec fn wf(&self) -> bool {
        forall|i: int, j: int|
            0 <= i < j < self@.len() ==> (#[trigger] self@[i]).email != (#[trigger] self@[j]).email
                && self@[i].id != self@[j].id
    }

    /// An empty store.
    pub fn new() -> (r: UserStore)
        ensures
            r@ =~= Seq::<UserV>::empty(),
            r.wf(),
    {
        UserStore { users: Vec::new() }
    }

    /// How many accounts the store holds.
    pub fn count(&self) -> (r: usize)
        ensures
            r == self@.len(),
    {
        self.users.len()
    }

    /// The position of the account with this email, if it exists.
    fn find_email(&self, email: &String) -> (r: Option<usize>)
        ensures
            match r {
                Some(k) => k < self@.len() && self@[k as int].email == email@,
                None => !has_email(self@, email@),
            },
    {
        let n = self.users.len();
        let mut k: usize = 0;
        while k < n
            invariant
                n == self@.len(),
                n == self.users@.len(),
                k <= n,
                forall|i: int| 0 <= i < k ==> (#[trigger] self@[i].email) != email@,
            decreases n - k,
        {
            if self.users[k].email == *email {
                return Some(k);
            }
            k = k + 1;
        }
        None
    }

    /// The position of the account with this identifier, if it exists.
    fn find_uid(&self, id: &str) -> (r: Option<usize>)
        ensures
            match r {
                Some(k) => k < self@.len() && self@[k as int].id == id@,
                None => !has_uid(self@, id@),
            },
    {
        let key: String = id.to_owned();
        let n = self.users.len();
        let mut k: usize = 0;
        while k < n
            invariant
                n == self@.len(),
                n == self.users@.len(),
                k <= n,
                key@ == id@,
                forall|i: int| 0 <= i < k ==> (#[trigger] self@[i].id) != id@,
            decreases n - k,
        {
            if self.users[k].id == key {
                return Some(k);
            }
            k = k + 1;
        }
        None
    }

    /// The account an identifier resolves to, if it still exists.
    pub fn get_by_id(&self, id: &str) -> (r: Option<User>)
        requires
            self.wf(),
        ensures
            r is Some <==> has_uid(self@, id@),
            r matches Some(u) ==> lookup_uid(self@, id@) == Some(u@),
    {
        match self.find_uid(id) {
            Some(k) => {
                proof {
                    assert(has_uid(self@, id@));
                    assert(self@[uid_index(self@, id@)].id == id@);
                    if uid_index(self@, id@) != k as int {
                        assert(false);
                    }
                }
                Some(self.users[k].duplicate())
            },
            None => None,
        }
    }

    /// Stores an account from an already-drawn identifier and an
    /// already-computed password hash. `Conflict` exactly when the folded
    /// email is taken, `StorageError` exactly when the identifier is — and
    /// then nothing is stored.
    pub fn register_prepared(
        &mut self,
        id: String,
        hash: String,
        body: &RegisterUserSchema,
        now: u64,
    ) -> (r: Result<User, ApiError>)
        requires
            old(self).wf(),
        ensures
            final(self).wf(),
            r is Err ==> final(self)@ == old(self)@,
            r is Ok <==> (!has_email(old(self)@, lower_of(body.email@)) && !has_uid(
                old(self)@,
                id@,
            )),
            has_email(old(self)@, lower_of(body.email@)) <==> (r matches Err(e) && e
                matches ApiError::Conflict),
            (!has_email(old(self)@, lower_of(body.email@)) && has_uid(old(self)@, id@)) <==> (r
                matches Err(e) && e matches ApiError::StorageError),
            r matches Ok(u) ==> {
                &&& u@.id == id@
                &&& u@.name == body.name@
                &&& u@.email == lower_of(body.email@)
                &&& u@.password == hash@
                &&& u@.role == "user"@
                &&& u@.photo == "default.png"@
                &&& u@.verified == false
                &&& u@.created_at == now
                &&& u@.updated_at == now
                &&& final(self)@ == old(self)@.push(u@)
            },
    {
        let folded = to_lower_ascii(body.email.as_str());
        if let Some(_) = self.find_email(&folded) {
            return Err(ApiError::Conflict);
        }
        if let Some(_) = self.find_uid(id.as_str()) {
            return Err(ApiError::StorageError);
        }
        let user = User {
            id: id,
            name: body.name.clone(),
            email: folded,
            password: hash,
            role: "user".to_owned(),
            photo: "default.png".to_owned(),
            verified: false,
            created_at: now,
            updated_at: now,
        };
        let out = user.duplicate();
        let ghost pre = self@;
        self.users.push(user);
        proof {
            assert(self@ =~= pre.push(out@));
        }
        Ok(out)
    }

    /// Registers an account: the email is folded to lower case and must be
    /// new, the password is stored only as its salted hash, the account
    /// starts unverified under the default role and photo. `Conflict`
    /// exactly when the folded email is taken; `StorageError` when hashing
    /// fails or a fresh identifier collides — and then nothing is stored.
    pub fn register(&mut self, body: &RegisterUserSchema, now: u64) -> (r: Result<User, ApiError>)
        requires
            old(self).wf(),
        ensures
            final(self).wf(),
            r is Err ==> final(self)@ == old(self)@,
            has_email(old(self)@, lower_of(body.email@)) <==> (r matches Err(e) && e
                matches ApiError::Conflict),
            r matches Err(e) ==> (e matches ApiError::Conflict || e matches ApiError::StorageError),
            r matches Ok(u) ==> {
                &&& u@.name == body.name@
                &&& u@.email == lower_of(body.email@)
                &&& argon2_verifies(body.password@, u@.password)
                &&& u@.role == "user"@
                &&& u@.photo == "default.png"@
                &&& u@.verified == false
                &&& u@.created_at == now
                &&& u@.updated_at == now
                &&& u@.id.len() == 36
                &&& !has_uid(old(self)@, u@.id)
                &&& !has_email(old(self)@, u@.email)
                &&& final(self)@ == old(self)@.push(u@)
            },
    {
        let folded = to_lower_ascii(body.email.as_str());
        if let Some(_) = self.find_email(&folded) {
            return Err(ApiError::Conflict);
        }
        let hash = match hash_password(body.password.as_str()) {
            Some(h) => h,
            None => {
                return Err(ApiError::StorageError);
            },
        };
        let id = fresh_id();
        self.register_prepared(id, hash, body, now)
    }

    /// The login decision: the folded email must name an account and the
    /// password must verify against its stored hash; which of the two
    /// failed is deliberately not told apart.
    pub fn login(&self, body: &LoginUserSchema) -> (r: Result<User, ApiError>)
        requires
            self.wf(),
        ensures
            r is Ok <==> (has_email(self@, lower_of(body.email@)) && argon2_verifies(
                body.password@,
                lookup_email(self@, lower_of(body.email@))->0.password,
            )),
            r matches Ok(u) ==> lookup_email(self@, lower_of(body.email@)) == Some(u@),
            r matches Err(e) ==> e matches ApiError::InvalidCredentials,
    {
        let folded = to_lower_ascii(body.email.as_str());
        let k = match self.find_email(&folded) {
            Some(k) => k,
            None => {
                return Err(ApiError::InvalidCredentials);
            },
        };
        proof {
            assert(has_email(self@, folded@));
            assert(self@[email_index(self@, folded@)].email == folded@);
            if email_index(self@, folded@) != k as int {
                assert(false);
            }
        }
        if verify_password(body.password.as_str(), self.users[k].password.as_str()) {
            Ok(self.users[k].duplicate())
        } else {
            Err(ApiError::InvalidCredentials)
        }
    }
}

} // verus!
