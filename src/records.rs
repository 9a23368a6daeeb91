//! Canonical records of the record store, as far as the import reads them.
use crate::ids::{now, random_uuid, Timestamp, Uuid};
use vstd::prelude::*;

verus! {

/// One accepted record: a name with its identifier.
#[derive(Debug, Clone)]
pub struct Pig {
    /// The identifier of the record; stays when the name changes.
    pub id: Uuid,
    /// The name itself.
    pub name: String,
    /// When the record was created.
    pub created: Timestamp,
    /// The identifier of the operator who created it.
    pub creator: Uuid,
}

impl Pig {
    /// A record with a fresh random identifier, created now.
    pub fn new(name: &str, creator: &Uuid) -> (r: Pig)
        ensures
            r.id.is_random(),
            r.name@ == name@,
            r.creator == *creator,
    {
        Pig { id: random_uuid(), name: name.to_owned(), created: now(), creator: *creator }
    }

    /// This record with the name of `other`: the only field an edit may
    /// change.
    pub fn merge(&self, other: &Pig) -> (r: Pig)
        ensures
            r.id == self.id,
            r.name@ == other.name@,
            r.created == self.created,
            r.creator == self.creator,
    {
        Pig { id: self.id, name: other.name.clone(), created: self.created, creator: self.creator }
    }
}

/// A user of the application.
#[derive(Debug, Clone)]
pub struct User {
    pub id: Uuid,
    pub username: String,
    /// The groups the sign-in provider reports for the user.
    pub groups: Vec<String>,
    pub created: Timestamp,
    /// When the user was last seen.
    pub seen: Timestamp,
    pub sso_subject: String,
    pub sso_issuer: String,
    /// When the session ends; `None` when there is none.
    pub session_exp: Option<Timestamp>,
}

/// 9999-12-31 23:59:59 UTC, in microseconds since the Unix epoch.
pub const END_OF_TIME_MICROS: i64 = 253402300799000000;

impl User {
    /// A user with a fresh random identifier, created and seen now.
    pub fn new(
        username: String,
        groups: Vec<String>,
        sso_subject: String,
        sso_issuer: String,
        session_exp: Option<Timestamp>,
    ) -> (r: User)
        ensures
            r.id.is_random(),
            r.username == username,
            r.groups == groups,
            r.created == r.seen,
            r.sso_subject == sso_subject,
            r.sso_issuer == sso_issuer,
            r.session_exp == session_exp,
    {
        let at = now();
        User {
            id: random_uuid(),
            username,
            groups,
            created: at,
            seen: at,
            sso_subject,
            sso_issuer,
            session_exp,
        }
    }

    /// The built-in administrator: the nil identifier, no groups, and a
    /// session that lasts until the end of year 9999.
    pub fn get_system_user() -> (r: User)
        ensures
            r.id.value == 0,
            r.username@ == "admin"@,
            r.groups@.len() == 0,
            r.created.micros == 0,
            r.seen.micros == 0,
            r.sso_subject@.len() == 0,
            r.sso_issuer@ == "https://self-issued.me"@,
            r.session_exp == Some(Timestamp { micros: END_OF_TIME_MICROS }),
    {
        User {
            id: Uuid::nil(),
            username: String::from_str("admin"),
            groups: Vec::new(),
            created: Timestamp { micros: 0 },
            seen: Timestamp { micros: 0 },
            sso_subject: String::new(),
            sso_issuer: String::from_str("https://self-issued.me"),
            session_exp: Some(Timestamp { micros: END_OF_TIME_MICROS }),
        }
    }
}

/// The names of a list of records, in order.
pub open spec fn names_of(pigs: Seq<Pig>) -> Seq<Seq<char>> {
    pigs.map_values(|p: Pig| p.name@)
}

} // verus!
