use vstd::prelude::*;
use crate::auth::AuthGuard;
use crate::store::{MemoryStore, StoreError, email_taken, find_user, newest_first};
use crate::users::{NewUser, Timestamp, User, UserResponse, parse_uuid, uuid_parsed};
use crate::validation::{Validator, violations};

verus! {

/// The ways a request can fail, each with its own status and code.
#[derive(Clone, Debug)]
pub enum ApiError {
    /// The bearer credential is missing, malformed or wrong.
    Unauthorized,
    /// The path identifier is not a UUID.
    MalformedId,
    /// The creation request broke these rules (their codes, in rule order).
    ValidationFailed(Vec<String>),
    /// No user has the requested identifier.
    NotFound,
    /// The email is already taken.
    Conflict,
    /// Any other fault of the store.
    StoreFailure,
}

/// The HTTP status of an error.
pub open spec fn error_status(e: ApiError) -> u16 {
    match e {
        ApiError::Unauthorized => 401,
        ApiError::MalformedId => 400,
        ApiError::ValidationFailed(_) => 400,
        ApiError::NotFound => 404,
        ApiError::Conflict => 409,
        ApiError::StoreFailure => 500,
    }
}

/// The machine-readable code of an error.
pub open spec fn error_code(e: ApiError) -> Seq<char> {
    match e {
        ApiError::Unauthorized => "unauthorized"@,
        ApiError::MalformedId => "bad_request"@,
        ApiError::ValidationFailed(_) => "validation_failed"@,
        ApiError::NotFound => "not_found"@,
        ApiError::Conflict => "conflict"@,
        ApiError::StoreFailure => "internal_error"@,
    }
}

impl ApiError {
    pub fn status(&self) -> (r: u16)
        ensures
            r == error_status(*self),
    {
        match self {
            ApiError::Unauthorized => 401,
            ApiError::MalformedId => 400,
            ApiError::ValidationFailed(_) => 400,
            ApiError::NotFound => 404,
            ApiError::Conflict => 409,
            ApiError::StoreFailure => 500,
        }
    }

    pub fn code(&self) -> (r: &'static str)
        ensures
            r@ == error_code(*self),
    {
        match self {
            ApiError::Unauthorized => "unauthorized",
            ApiError::MalformedId => "bad_request",
            ApiError::ValidationFailed(_) => "validation_failed",
            ApiError::NotFound => "not_found",
            ApiError::Conflict => "conflict",
            ApiError::StoreFailure => "internal_error",
        }
    }
}

/// What an endpoint answers.
#[derive(Clone, Debug)]
pub enum ApiResponse {
    /// 200 with every user.
    UserList(Vec<UserResponse>),
    /// 200 with the requested user.
    UserFound(UserResponse),
    /// 201 with the new user.
    UserCreated(UserResponse),
    /// A failure, with its status and code.
    Failed(ApiError),
}

impl ApiResponse {
    pub fn status(&self) -> (r: u16)
        ensures
            r == match *self {
                ApiResponse::UserList(_) => 200,
                ApiResponse::UserFound(_) => 200,
                ApiResponse::UserCreated(_) => 201,
                ApiResponse::Failed(e) => error_status(e),
            },
    {
        match self {
            ApiResponse::UserList(_) => 200,
            ApiResponse::UserFound(_) => 200,
            ApiResponse::UserCreated(_) => 201,
            ApiResponse::Failed(e) => e.status(),
        }
    }
}

/// The three endpoints under `/users`, with what they were given.
#[derive(Clone, Debug)]
pub enum Request {
    /// `GET /`
    List,
    /// `GET /{id}`, with the identifier as written in the path.
    Get(String),
    /// `POST /`, with the parsed body.
    Create(NewUser),
}

/// A call into the store that a request needs.
#[derive(Clone, Debug)]
pub enum StoreCall {
    List,
    Get(u128),
    Insert(NewUser),
}

/// The next step of a request: answer at once, or call the store first.
#[derive(Clone, Debug)]
pub enum Step {
    Respond(ApiResponse),
    Call(StoreCall),
}

/// The error that a store failure becomes.
pub open spec fn store_error_to_api(e: StoreError) -> ApiError {
    match e {
        StoreError::NotFound => ApiError::NotFound,
        StoreError::Conflict => ApiError::Conflict,
        StoreError::Failure => ApiError::StoreFailure,
    }
}

/// `v` holds exactly the violation codes `want`, in order.
pub open spec fn codes_are(v: Vec<String>, want: Seq<Seq<char>>) -> bool {
    v@.len() == want.len() && forall|k: int| 0 <= k < v@.len() ==> #[trigger] v@[k]@ == want[k]
}

/// `out` shows the users `rows`, one for one and in order.
pub open spec fn shows_all(out: Seq<UserResponse>, rows: Seq<User>) -> bool {
    out.len() == rows.len() && forall|k: int| 0 <= k < out.len() ==> (#[trigger] out[k]).shows(rows[k])
}

pub fn classify_store_error(e: StoreError) -> (r: ApiError)
    ensures
        r == store_error_to_api(e),
{
    match e {
        StoreError::NotFound => ApiError::NotFound,
        StoreError::Conflict => ApiError::Conflict,
        StoreError::Failure => ApiError::StoreFailure,
    }
}

/// Answers a list request from what the store returned.
pub fn list_users(rows: Result<Vec<User>, StoreError>) -> (r: ApiResponse)
    ensures
        match rows {
            Ok(v) => r matches ApiResponse::UserList(out) && shows_all(out@, v@),
            Err(_) => r matches ApiResponse::Failed(ApiError::StoreFailure),
        },
{
    match rows {
        Ok(v) => {
            let mut out: Vec<UserResponse> = Vec::new();
            let mut k: usize = 0;
            while k < v.len()
                invariant
                    k <= v@.len(),
                    shows_all(out@, v@.subrange(0, k as int)),
                decreases v@.len() - k,
            {
                out.push(UserResponse::from(v[k].copy()));
                k = k + 1;
            }
            assert(v@.subrange(0, v@.len() as int) =~= v@);
            ApiResponse::UserList(out)
        },
        Err(_) => ApiResponse::Failed(ApiError::StoreFailure),
    }
}

/// Answers a fetch from what the store returned.
pub fn get_user(row: Result<User, StoreError>) -> (r: ApiResponse)
    ensures
        match row {
            Ok(u) => r matches ApiResponse::UserFound(out) && out.shows(u),
            Err(e) => r == ApiResponse::Failed(store_error_to_api(e)),
        },
{
    match row {
        Ok(u) => ApiResponse::UserFound(UserResponse::from(u)),
        Err(e) => ApiResponse::Failed(classify_store_error(e)),
    }
}

/// Answers a creation from what the store returned.
pub fn create_user(row: Result<User, StoreError>) -> (r: ApiResponse)
    ensures
        match row {
            Ok(u) => r matches ApiResponse::UserCreated(out) && out.shows(u)
                && out.created_at@.len() > 0,
            Err(e) => r == ApiResponse::Failed(store_error_to_api(e)),
        },
{
    match row {
        Ok(u) => ApiResponse::UserCreated(UserResponse::from(u)),
        Err(e) => ApiResponse::Failed(classify_store_error(e)),
    }
}

/// The first step of a request: the bearer check, then the path identifier
/// or the body's validation. The store is only called past all of them.
pub fn begin(
    guard: &AuthGuard,
    validator: &Validator,
    authorization: Option<&str>,
    request: Request,
) -> (r: Step)
    ensures
        !guard.passes(authorization) ==> r matches Step::Respond(
            ApiResponse::Failed(ApiError::Unauthorized),
        ),
        guard.passes(authorization) ==> match request {
            Request::List => r matches Step::Call(StoreCall::List),
            Request::Get(path) => match uuid_parsed(path@) {
                Some(id) => r matches Step::Call(StoreCall::Get(g)) && g == id,
                None => r matches Step::Respond(ApiResponse::Failed(ApiError::MalformedId)),
            },
            Request::Create(new) => if violations(new.name@, new.email@).len() == 0 {
                r matches Step::Call(StoreCall::Insert(n)) && n == new
            } else {
                r matches Step::Respond(ApiResponse::Failed(ApiError::ValidationFailed(v)))
                    && codes_are(v, violations(new.name@, new.email@))
            },
        },
{
    if !guard.authorize(authorization) {
        return Step::Respond(ApiResponse::Failed(ApiError::Unauthorized));
    }
    match request {
        Request::List => Step::Call(StoreCall::List),
        Request::Get(path) => match parse_uuid(path.as_str()) {
            Some(id) => Step::Call(StoreCall::Get(id)),
            None => Step::Respond(ApiResponse::Failed(ApiError::MalformedId)),
        },
        Request::Create(new) => match validator.validate(&new) {
            Ok(()) => Step::Call(StoreCall::Insert(new)),
            Err(v) => Step::Respond(ApiResponse::Failed(ApiError::ValidationFailed(v))),
        },
    }
}

/// Runs one request against an in-memory store, from the bearer check to
/// the response. `now` is the creation time of a user that it stores.
pub fn handle(
    guard: &AuthGuard,
    validator: &Validator,
    authorization: Option<&str>,
    request: Request,
    store: &mut MemoryStore,
    now: Timestamp,
) -> (r: ApiResponse)
    requires
        old(store).wf(),
    ensures
        final(store).wf(),
        !guard.passes(authorization) ==> (r matches ApiResponse::Failed(ApiError::Unauthorized))
            && *final(store) == *old(store),
        guard.passes(authorization) ==> match request {
            Request::List => *final(store) == *old(store) && (r matches ApiResponse::UserList(out)
                && shows_all(out@, newest_first(old(store)@))),
            Request::Get(path) => *final(store) == *old(store) && match uuid_parsed(path@) {
                None => r matches ApiResponse::Failed(ApiError::MalformedId),
                Some(id) => match find_user(old(store)@, id) {
                    Some(u) => (r matches ApiResponse::UserFound(out) && out.shows(u)),
                    None => (r matches ApiResponse::Failed(ApiError::NotFound)),
                },
            },
            Request::Create(new) => if violations(new.name@, new.email@).len() != 0 {
                *final(store) == *old(store) && (r matches ApiResponse::Failed(
                    ApiError::ValidationFailed(v),
                ) && codes_are(v, violations(new.name@, new.email@)))
            } else if email_taken(old(store)@, new.email@) {
                final(store)@ == old(store)@ && (r matches ApiResponse::Failed(ApiError::Conflict))
            } else if old(store).exhausted() {
                final(store)@ == old(store)@ && (r matches ApiResponse::Failed(
                    ApiError::StoreFailure,
                ))
            } else {
                (r matches ApiResponse::UserCreated(out) && {
                    &&& out.name@ == new.name@
                    &&& out.email@ == new.email@
                    &&& out.created_at@.len() > 0
                    &&& exists|u: User|
                        {
                            &&& out.shows(u)
                            &&& u.created_at == now
                            &&& find_user(old(store)@, u.id) is None
                            &&& final(store)@ == old(store)@.push(u)
                        }
                })
            },
        },
{
    match begin(guard, validator, authorization, request) {
        Step::Respond(resp) => resp,
        Step::Call(StoreCall::List) => list_users(Ok(store.list())),
        Step::Call(StoreCall::Get(id)) => get_user(store.get(id)),
        Step::Call(StoreCall::Insert(new)) => {
            let row = store.create(&new, now);
            let ghost stored = row;
            let r = create_user(row);
            let ghost answer = r;
            proof {
                if let Ok(u) = stored {
                    if let ApiResponse::UserCreated(out) = answer {
                        assert(out.shows(u));
                    }
                }
            }
            r
        },
    }
}

} // verus!
