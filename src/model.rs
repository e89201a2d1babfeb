use vstd::prelude::*;

verus! {

/// Identity of a user: the primary-store key, and the only value a session keeps.
#[derive(Clone, Copy, Debug, PartialEq, Eq, Structural, Hash, PartialOrd, Ord)]
pub struct UserId(pub i32);

/// Role of a user.
#[derive(Clone, Copy, Debug, PartialEq, Eq, Structural, Hash)]
pub enum UserRole {
    User,
    Admin,
}

/// A point in time, as microseconds since 1970-01-01 00:00:00 (no time zone).
#[derive(Clone, Copy, Debug, PartialEq, Eq, Structural, Hash, PartialOrd, Ord)]
pub struct Timestamp {
    pub micros: i64,
}

/// A full user record, as the primary store holds it.
#[derive(Clone, Debug)]
pub struct User {
    pub id: UserId,
    pub name: String,
    /// bcrypt hash of the user's password.
    pub password: String,
    pub role: UserRole,
    pub created_at: Timestamp,
    pub updated_at: Timestamp,
    pub last_login_at: Option<Timestamp>,
}

/// The public view of a user: what is cached and what unauthenticated callers see.
#[derive(Clone, Debug)]
pub struct UserDetails {
    pub id: UserId,
    pub name: String,
    pub role: UserRole,
    pub created_at: Timestamp,
}

/// Mathematical model of [`UserDetails`].
pub ghost struct UserDetailsView {
    pub id: UserId,
    pub name: Seq<char>,
    pub role: UserRole,
    pub created_at: Timestamp,
}

impl View for UserDetails {
    type V = UserDetailsView;

    open spec fn view(&self) -> UserDetailsView {
        UserDetailsView { id: self.id, name: self.name@, role: self.role, created_at: self.created_at }
    }
}

impl User {
    /// The public projection of this record: the credential hash and the
    /// bookkeeping timestamps are left out.
    pub open spec fn details_view(&self) -> UserDetailsView {
        UserDetailsView { id: self.id, name: self.name@, role: self.role, created_at: self.created_at }
    }

    /// The public projection of this record, borrowing it.
    pub fn as_details(&self) -> (r: UserDetails)
        ensures
            r@ == self.details_view(),
    {
        UserDetails { id: self.id, name: self.name.clone(), role: self.role, created_at: self.created_at }
    }

    /// The public projection of this record, consuming it.
    pub fn into_details(self) -> (r: UserDetails)
        ensures
            r@ == self.details_view(),
    {
        UserDetails { id: self.id, name: self.name, role: self.role, created_at: self.created_at }
    }
}

} // verus!
