//! The stored record types: users, cases, and the shapes they are reported
//! in. Each executable type has a ghost view that the contracts speak of.

use vstd::prelude::*;

verus! {

/// The view of an optional string: the character sequence, if present.
pub open spec fn opt_view(o: Option<String>) -> Option<Seq<char>> {
    match o {
        Some(s) => Some(s@),
        None => None,
    }
}

/// A registered account as the store keeps it, password hash included.
pub struct User {
    pub id: String,
    pub name: String,
    pub email: String,
    pub password: String,
    pub role: String,
    pub photo: String,
    pub verified: bool,
    pub created_at: u64,
    pub updated_at: u64,
}

/// The ghost image of a `User`.
pub ghost struct UserV {
    pub id: Seq<char>,
    pub name: Seq<char>,
    pub email: Seq<char>,
    pub password: Seq<char>,
    pub role: Seq<char>,
    pub photo: Seq<char>,
    pub verified: bool,
    pub created_at: u64,
    pub updated_at: u64,
}

impl View for User {
    type V = UserV;

    open spec fn view(&self) -> UserV {
        UserV {
            id: self.id@,
            name: self.name@,
            email: self.email@,
            password: self.password@,
            role: self.role@,
            photo: self.photo@,
            verified: self.verified,
            created_at: self.created_at,
            updated_at: self.updated_at,
        }
    }
}

/// What a token attests: the subject's user id and the window of seconds
/// in which it is honoured.
pub struct TokenClaims {
    pub sub: String,
    pub iat: u64,
    pub exp: u64,
}

/// A registration request.
pub struct RegisterUserSchema {
    pub name: String,
    pub email: String,
    pub password: String,
}

/// A login request.
pub struct LoginUserSchema {
    pub email: String,
    pub password: String,
}

/// A user as reported to callers: everything but the password hash.
#[allow(non_snake_case)]
pub struct FilteredUser {
    pub id: String,
    pub name: String,
    pub email: String,
    pub role: String,
    pub photo: String,
    pub verified: bool,
    pub createdAt: u64,
    pub updatedAt: u64,
}

/// A saved HTTP test definition plus its last recorded outcome.
pub struct CaseModel {
    pub id: String,
    pub user_id: String,
    pub title: String,
    pub host: String,
    pub uri: String,
    pub method: Option<String>,
    pub request_body: Option<String>,
    pub expected_result: Option<String>,
    pub category: Option<String>,
    pub response_code: Option<String>,
    pub response_body: Option<String>,
    pub used: bool,
    pub created_at: u64,
    pub updated_at: u64,
}

/// The ghost image of a `CaseModel`.
pub ghost struct CaseV {
    pub id: Seq<char>,
    pub user_id: Seq<char>,
    pub title: Seq<char>,
    pub host: Seq<char>,
    pub uri: Seq<char>,
    pub method: Option<Seq<char>>,
    pub request_body: Option<Seq<char>>,
    pub expected_result: Option<Seq<char>>,
    pub category: Option<Seq<char>>,
    pub response_code: Option<Seq<char>>,
    pub response_body: Option<Seq<char>>,
    pub used: bool,
    pub created_at: u64,
    pub updated_at: u64,
}

impl View for CaseModel {
    type V = CaseV;

    open spec fn view(&self) -> CaseV {
        CaseV {
            id: self.id@,
            user_id: self.user_id@,
            title: self.title@,
            host: self.host@,
            uri: self.uri@,
            method: opt_view(self.method),
            request_body: opt_view(self.request_body),
            expected_result: opt_view(self.expected_result),
            category: opt_view(self.category),
            response_code: opt_view(self.response_code),
            response_body: opt_view(self.response_body),
            used: self.used,
            created_at: self.created_at,
            updated_at: self.updated_at,
        }
    }
}

/// The shape every record the store accepts has: the free-form request
/// fields were all filled in at creation, only the response fields may
/// still be absent.
pub open spec fn case_complete(c: CaseV) -> bool {
    &&& c.method is Some
    &&& c.request_body is Some
    &&& c.expected_result is Some
    &&& c.category is Some
}

fn clone_opt(o: &Option<String>) -> (r: Option<String>)
    ensures
        opt_view(r) == opt_view(*o),
{
    match o {
        Some(s) => Some(s.clone()),
        None => None,
    }
}

impl CaseModel {
    /// A field-for-field copy of the record.
    pub fn duplicate(&self) -> (r: CaseModel)
        ensures
            r@ == self@,
    {
        CaseModel {
            id: self.id.clone(),
            user_id: self.user_id.clone(),
            title: self.title.clone(),
            host: self.host.clone(),
            uri: self.uri.clone(),
            method: clone_opt(&self.method),
            request_body: clone_opt(&self.request_body),
            expected_result: clone_opt(&self.expected_result),
            category: clone_opt(&self.category),
            response_code: clone_opt(&self.response_code),
            response_body: clone_opt(&self.response_body),
            used: self.used,
            created_at: self.created_at,
            updated_at: self.updated_at,
        }
    }
}

impl User {
    /// A field-for-field copy of the record.
    pub fn duplicate(&self) -> (r: User)
        ensures
            r@ == self@,
    {
        User {
            id: self.id.clone(),
            name: self.name.clone(),
            email: self.email.clone(),
            password: self.password.clone(),
            role: self.role.clone(),
            photo: self.photo.clone(),
            verified: self.verified,
            created_at: self.created_at,
            updated_at: self.updated_at,
        }
    }
}

/// A case as listed or returned from reads and writes: the request half
/// of the record, without the response fields.
#[allow(non_snake_case)]
pub struct CaseModelResponse {
    pub id: String,
    pub user_id: String,
    pub title: String,
    pub host: String,
    pub uri: String,
    pub method: String,
    pub request_body: String,
    pub expected_result: String,
    pub category: String,
    pub used: bool,
    pub createdAt: u64,
    pub updatedAt: u64,
}

/// A case as returned from a dispatch: the whole record, captured
/// response included.
#[allow(non_snake_case)]
pub struct CaseModelAllResponse {
    pub id: String,
    pub user_id: String,
    pub title: String,
    pub host: String,
    pub uri: String,
    pub method: String,
    pub request_body: String,
    pub expected_result: String,
    pub category: String,
    pub response_code: String,
    pub response_body: String,
    pub used: bool,
    pub createdAt: u64,
    pub updatedAt: u64,
}

/// Strips a user record down to what callers are shown; the password
/// hash does not appear in the result.
pub fn filter_user_record(user: &User) -> (r: FilteredUser)
    ensures
        r.id@ == user@.id,
        r.name@ == user@.name,
        r.email@ == user@.email,
        r.role@ == user@.role,
        r.photo@ == user@.photo,
        r.verified == user@.verified,
        r.createdAt == user@.created_at,
        r.updatedAt == user@.updated_at,
{
    FilteredUser {
        id: user.id.clone(),
        name: user.name.clone(),
        email: user.email.clone(),
        role: user.role.clone(),
        photo: user.photo.clone(),
        verified: user.verified,
        createdAt: user.created_at,
        updatedAt: user.updated_at,
    }
}

/// Shapes a stored case for reads and writes: the always-present request
/// fields, unwrapped.
pub fn filter_db_record(case: &CaseModel) -> (r: CaseModelResponse)
    requires
        case_complete(case@),
    ensures
        r.id@ == case@.id,
        r.user_id@ == case@.user_id,
        r.title@ == case@.title,
        r.host@ == case@.host,
        r.uri@ == case@.uri,
        Some(r.method@) == case@.method,
        Some(r.request_body@) == case@.request_body,
        Some(r.expected_result@) == case@.expected_result,
        Some(r.category@) == case@.category,
        r.used == case@.used,
        r.createdAt == case@.created_at,
        r.updatedAt == case@.updated_at,
{
    let c = case.duplicate();
    CaseModelResponse {
        id: c.id,
        user_id: c.user_id,
        title: c.title,
        host: c.host,
        uri: c.uri,
        method: c.method.unwrap(),
        request_body: c.request_body.unwrap(),
        expected_result: c.expected_result.unwrap(),
        category: c.category.unwrap(),
        used: c.used,
        createdAt: c.created_at,
        updatedAt: c.updated_at,
    }
}

/// Shapes a dispatched case for callers, captured response included.
pub fn filter_db_all_record(case: &CaseModel) -> (r: CaseModelAllResponse)
    requires
        case_complete(case@),
        case@.response_code is Some,
        case@.response_body is Some,
    ensures
        r.id@ == case@.id,
        r.user_id@ == case@.user_id,
        r.title@ == case@.title,
        r.host@ == case@.host,
        r.uri@ == case@.uri,
        Some(r.method@) == case@.method,
        Some(r.request_body@) == case@.request_body,
        Some(r.expected_result@) == case@.expected_result,
        Some(r.category@) == case@.category,
        Some(r.response_code@) == case@.response_code,
        Some(r.response_body@) == case@.response_body,
        r.used == case@.used,
        r.createdAt == case@.created_at,
        r.updatedAt == case@.updated_at,
{
    let c = case.duplicate();
    CaseModelAllResponse {
        id: c.id,
        user_id: c.user_id,
        title: c.title,
        host: c.host,
        uri: c.uri,
        method: c.method.unwrap(),
        request_body: c.request_body.unwrap(),
        expected_result: c.expected_result.unwrap(),
        category: c.category.unwrap(),
        response_code: c.response_code.unwrap(),
        response_body: c.response_body.unwrap(),
        used: c.used,
        createdAt: c.created_at,
        updatedAt: c.updated_at,
    }
}

} // verus!
