//! Data carried between the session core and the application shell.

use vstd::prelude::*;

verus! {

/// Request payload of the shell's ping round trip.
#[derive(Debug)]
pub struct PingRequest {
    pub value: Option<String>,
}

/// Response payload of the shell's ping round trip.
#[derive(Debug, Clone)]
pub struct PingResponse {
    pub value: Option<String>,
}

/// Immutable snapshot of the profile fields served by the remote API,
/// replaced wholesale on each successful fetch.
#[derive(Debug, Clone)]
pub struct User {
    pub id: i64,
    pub username: Option<String>,
    pub email: Option<String>,
    pub avatar: Option<String>,
    pub first_name: Option<String>,
    pub last_name: Option<String>,
    pub phone: Option<String>,
    pub language: Option<String>,
    pub timezone: Option<String>,
    pub region: Option<String>,
}

/// A field-exact copy of an optional string, unlike the derived clone, whose
/// result Verus leaves unspecified.
pub fn clone_opt_string(o: &Option<String>) -> (r: Option<String>)
    ensures
        r == *o,
{
    match o {
        None => None,
        Some(s) => Some(s.clone()),
    }
}

impl User {
    /// A field-exact copy of the snapshot.
    pub fn duplicate(&self) -> (r: User)
        ensures
            r == *self,
    {
        User {
            id: self.id,
            username: clone_opt_string(&self.username),
            email: clone_opt_string(&self.email),
            avatar: clone_opt_string(&self.avatar),
            first_name: clone_opt_string(&self.first_name),
            last_name: clone_opt_string(&self.last_name),
            phone: clone_opt_string(&self.phone),
            language: clone_opt_string(&self.language),
            timezone: clone_opt_string(&self.timezone),
            region: clone_opt_string(&self.region),
        }
    }
}

impl Default for User {
    fn default() -> (r: Self)
        ensures
            r.id == 0,
            r.username is None,
            r.email is None,
            r.avatar is None,
            r.first_name is None,
            r.last_name is None,
            r.phone is None,
            r.language is None,
            r.timezone is None,
            r.region is None,
    {
        User {
            id: 0,
            username: None,
            email: None,
            avatar: None,
            first_name: None,
            last_name: None,
            phone: None,
            language: None,
            timezone: None,
            region: None,
        }
    }
}

} // verus!
