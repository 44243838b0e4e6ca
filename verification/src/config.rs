//! User-supplied connection credentials.

use vstd::prelude::*;

verus! {

/// The four free-form credential fields a user supplies to reach a
/// database: host, user name, password, and database name. All fields
/// may be empty; the driver decides validity. A value is immutable once
/// built: a fresh one replaces the old on every connection attempt.
pub struct ConnectionConfig {
    pub host: String,
    pub username: String,
    pub password: String,
    pub database: String,
}

impl ConnectionConfig {
    /// The four credential fields as one mathematical value: host, user
    /// name, password and database name, in that order.
    pub open spec fn creds(&self) -> (Seq<char>, Seq<char>, Seq<char>, Seq<char>) {
        (self.host@, self.username@, self.password@, self.database@)
    }

    /// Builds a configuration from the four credential fields.
    pub fn new(host: String, username: String, password: String, database: String) -> (c:
        ConnectionConfig)
        ensures
            c.host@ == host@,
            c.username@ == username@,
            c.password@ == password@,
            c.database@ == database@,
    {
        ConnectionConfig { host, username, password, database }
    }
}

impl Default for ConnectionConfig {
    /// An all-empty configuration, the state before the user has typed
    /// anything.
    fn default() -> (c: ConnectionConfig)
        ensures
            c.host@ == Seq::<char>::empty(),
            c.username@ == Seq::<char>::empty(),
            c.password@ == Seq::<char>::empty(),
            c.database@ == Seq::<char>::empty(),
    {
        ConnectionConfig {
            host: String::new(),
            username: String::new(),
            password: String::new(),
            database: String::new(),
        }
    }
}

} // verus!
