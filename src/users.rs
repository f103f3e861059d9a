use vstd::prelude::*;

verus! {

/// The earliest instant that RFC 3339 can write: 0000-01-01T00:00:00Z.
pub const EARLIEST_SECS: i64 = -62167219200;

/// The last second that RFC 3339 can write: 9999-12-31T23:59:59Z.
pub const LATEST_SECS: i64 = 253402300799;

/// Nanoseconds in one second.
pub const NANOS_PER_SEC: u32 = 1_000_000_000;

/// An instant given as seconds and nanoseconds since the Unix epoch, within
/// the years that an RFC 3339 date-time can write.
pub open spec fn instant_in_range(secs: int, nanos: int) -> bool {
    EARLIEST_SECS <= secs <= LATEST_SECS && 0 <= nanos < NANOS_PER_SEC
}

/// What chrono's `to_rfc3339` writes for the given instant.
pub uninterp spec fn rfc3339_text(secs: int, nanos: int) -> Seq<char>;

/// The canonical hyphenated text of a UUID.
pub uninterp spec fn uuid_text(id: u128) -> Seq<char>;

/// What `Uuid::parse_str` makes of a text, as a 128-bit value.
pub uninterp spec fn uuid_parsed(s: Seq<char>) -> Option<u128>;

/// Relies on chrono's `DateTime::<Utc>::from_timestamp`, which gives an
/// instant for every second count of the years 0 to 9999 with nanoseconds
/// below one second, and on `DateTime::to_rfc3339`, whose text depends on
/// the instant alone and is never empty.
#[verifier::external_body]
fn render_rfc3339(secs: i64, nanos: u32) -> (r: Option<String>)
    ensures
        instant_in_range(secs as int, nanos as int) ==> r is Some,
        r matches Some(s) ==> s@ == rfc3339_text(secs as int, nanos as int) && s@.len() > 0,
{
    match chrono::DateTime::<chrono::Utc>::from_timestamp(secs, nanos) {
        Some(t) => Some(t.to_rfc3339()),
        None => None,
    }
}

/// Relies on `uuid::Uuid::from_u128` and the `Display` of `Uuid`, which
/// writes the 36-character hyphenated form.
#[verifier::external_body]
fn render_uuid(id: u128) -> (r: String)
    ensures
        r@ == uuid_text(id),
        r@.len() == 36,
{
    uuid::Uuid::from_u128(id).to_string()
}

/// Relies on `uuid::Uuid::parse_str`, which reads back the hyphenated form
/// that `Display` writes.
#[verifier::external_body]
pub(crate) fn parse_uuid(s: &str) -> (r: Option<u128>)
    ensures
        r == uuid_parsed(s@),
        forall|id: u128| s@ == #[trigger] uuid_text(id) ==> r == Some(id),
{
    match uuid::Uuid::parse_str(s) {
        Ok(u) => Some(u.as_u128()),
        Err(_) => None,
    }
}

/// A creation time, kept within the years that RFC 3339 can write.
#[derive(Clone, Copy, Debug, PartialEq, Eq)]
pub struct Timestamp {
    secs: i64,
    nanos: u32,
}

impl View for Timestamp {
    type V = (int, int);

    closed spec fn view(&self) -> (int, int) {
        (self.secs as int, self.nanos as int)
    }
}

impl Timestamp {
    #[verifier::type_invariant]
    closed spec fn in_range(self) -> bool {
        instant_in_range(self.secs as int, self.nanos as int)
    }

    /// The instant `secs` seconds and `nanos` nanoseconds after the epoch, if
    /// RFC 3339 can write it.
    pub fn new(secs: i64, nanos: u32) -> (r: Option<Timestamp>)
        ensures
            r is Some <==> instant_in_range(secs as int, nanos as int),
            r matches Some(t) ==> t@ == (secs as int, nanos as int),
    {
        if EARLIEST_SECS <= secs && secs <= LATEST_SECS && nanos < NANOS_PER_SEC {
            Some(Timestamp { secs, nanos })
        } else {
            None
        }
    }

    pub fn secs(&self) -> (r: i64)
        ensures
            r == self@.0,
    {
        self.secs
    }

    pub fn nanos(&self) -> (r: u32)
        ensures
            r == self@.1,
    {
        self.nanos
    }

    /// The RFC 3339 text of this instant.
    pub fn to_rfc3339(&self) -> (r: String)
        ensures
            r@ == rfc3339_text(self@.0, self@.1),
            r@.len() > 0,
    {
        proof {
            use_type_invariant(self);
        }
        match render_rfc3339(self.secs, self.nanos) {
            Some(s) => s,
            None => vstd::pervasive::unreached(),
        }
    }
}

/// A stored user.
#[derive(Clone, Debug)]
pub struct User {
    pub id: u128,
    pub name: String,
    pub email: String,
    pub created_at: Timestamp,
}

impl User {
    /// A copy of this user, field for field.
    pub fn copy(&self) -> (r: User)
        ensures
            r == *self,
    {
        User {
            id: self.id,
            name: self.name.clone(),
            email: self.email.clone(),
            created_at: self.created_at,
        }
    }
}

/// A request to create a user, not yet validated.
#[derive(Clone, Debug)]
pub struct NewUser {
    pub name: String,
    pub email: String,
}

/// The wire form of a user: every field as text.
#[derive(Clone, Debug)]
pub struct UserResponse {
    pub id: String,
    pub name: String,
    pub email: String,
    pub created_at: String,
}

impl UserResponse {
    /// This response is the wire form of `u`.
    pub open spec fn shows(self, u: User) -> bool {
        &&& self.id@ == uuid_text(u.id)
        &&& self.name@ == u.name@
        &&& self.email@ == u.email@
        &&& self.created_at@ == rfc3339_text(u.created_at@.0, u.created_at@.1)
    }

    /// Shapes a stored user into its wire form.
    pub fn from(u: User) -> (r: UserResponse)
        ensures
            r.shows(u),
            r.id@.len() == 36,
            r.created_at@.len() > 0,
    {
        let id = render_uuid(u.id);
        let created_at = u.created_at.to_rfc3339();
        UserResponse { id, name: u.name, email: u.email, created_at }
    }
}

} // verus!
