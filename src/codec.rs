use vstd::prelude::*;

use crate::error::CacheError;
use crate::model::{Timestamp, UserDetails, UserDetailsView, UserId, UserRole};

verus! {

#[verifier::external_type_specification]
#[verifier::external_body]
pub struct ExBincodeErrorKind(bincode::ErrorKind);

/// What `bincode::deserialize` reads from `blob` as the tuple
/// `(i32, String, u32, i64)`, or `None` where it fails.
pub uninterp spec fn bincode_fields_of(blob: Seq<u8>) -> Option<(i32, Seq<char>, u32, i64)>;

/// Relies on `bincode::serialize` (default configuration: fixed-width
/// integers, no size limit) of a tuple of integers and a string: sizing and
/// writing such a tuple into a `Vec` never fails, and `bincode::deserialize`
/// reads the bytes back as the same tuple.
#[verifier::external_body]
fn bincode_serialize_fields(id: i32, name: &str, role: u32, micros: i64) -> (r: Result<Vec<u8>, Box<bincode::ErrorKind>>)
    ensures
        r is Ok,
        r matches Ok(b) ==> bincode_fields_of(b@) == Some((id, name@, role, micros)),
{
    bincode::serialize(&(id, name, role, micros))
}

/// Relies on `bincode::deserialize` of the tuple `(i32, String, u32, i64)`,
/// which reports malformed input (too short, invalid UTF-8) as an error.
#[verifier::external_body]
fn bincode_deserialize_fields(blob: &[u8]) -> (r: Result<(i32, String, u32, i64), Box<bincode::ErrorKind>>)
    ensures
        match r {
            Ok(t) => bincode_fields_of(blob@) == Some((t.0, t.1@, t.2, t.3)),
            Err(_) => bincode_fields_of(blob@) is None,
        },
{
    bincode::deserialize(blob)
}

/// A value that the read-through connector can keep in the cache as a blob.
pub trait CacheValue: View + Sized {
    /// The value that `blob` stands for, or `None` if it is no valid entry.
    spec fn blob_value(blob: Seq<u8>) -> Option<Self::V>;

    /// Encodes the value as a cache blob.
    fn to_blob(&self) -> (r: Vec<u8>)
        ensures
            Self::blob_value(r@) == Some(self@),
    ;

    /// Decodes a cache blob; fails with `Codec` exactly where it is no valid entry.
    fn from_blob(blob: &[u8]) -> (r: Result<Self, CacheError>)
        ensures
            match r {
                Ok(v) => Self::blob_value(blob@) == Some(v@),
                Err(e) => Self::blob_value(blob@) is None && e is Codec,
            },
    ;
}

/// Index under which a role is encoded.
pub open spec fn role_index(role: UserRole) -> u32 {
    match role {
        UserRole::User => 0,
        UserRole::Admin => 1,
    }
}

/// The role encoded under `index`, if any.
pub open spec fn role_of_index(index: u32) -> Option<UserRole> {
    if index == 0 {
        Some(UserRole::User)
    } else if index == 1 {
        Some(UserRole::Admin)
    } else {
        None
    }
}

fn encode_role(role: UserRole) -> (r: u32)
    ensures
        r == role_index(role),
        role_of_index(r) == Some(role),
{
    match role {
        UserRole::User => 0,
        UserRole::Admin => 1,
    }
}

fn decode_role(index: u32) -> (r: Option<UserRole>)
    ensures
        r == role_of_index(index),
{
    if index == 0 {
        Some(UserRole::User)
    } else if index == 1 {
        Some(UserRole::Admin)
    } else {
        None
    }
}

/// The profile that a field tuple stands for, if its role index is valid.
pub open spec fn details_of_fields(fields: (i32, Seq<char>, u32, i64)) -> Option<UserDetailsView> {
    match role_of_index(fields.2) {
        Some(role) => Some(
            UserDetailsView {
                id: UserId(fields.0),
                name: fields.1,
                role,
                created_at: Timestamp { micros: fields.3 },
            },
        ),
        None => None,
    }
}

impl CacheValue for UserDetails {
    /// A profile is cached as the bincode encoding of
    /// `(id, name, role index, creation time in microseconds)`.
    open spec fn blob_value(blob: Seq<u8>) -> Option<UserDetailsView> {
        match bincode_fields_of(blob) {
            Some(fields) => details_of_fields(fields),
            None => None,
        }
    }

    fn to_blob(&self) -> (r: Vec<u8>) {
        let role = encode_role(self.role);
        match bincode_serialize_fields(self.id.0, self.name.as_str(), role, self.created_at.micros) {
            Ok(b) => b,
            Err(_) => {
                proof {
                    assert(false);
                }
                Vec::new()
            },
        }
    }

    fn from_blob(blob: &[u8]) -> (r: Result<UserDetails, CacheError>) {
        match bincode_deserialize_fields(blob) {
            Ok((id, name, index, micros)) => match decode_role(index) {
                Some(role) => Ok(
                    UserDetails { id: UserId(id), name, role, created_at: Timestamp { micros } },
                ),
                None => Err(CacheError::Codec),
            },
            Err(_) => Err(CacheError::Codec),
        }
    }
}

} // verus!
