//! Connection establishment: turns a configuration into a live, reusable
//! connection handle.

use crate::config::ConnectionConfig;
use crate::driver;
use vstd::prelude::*;

verus! {

/// Connecting failed: the host was unreachable, authentication was
/// rejected, the database name was invalid, or the pool could not be
/// built. Carries the driver's account of the underlying cause. The
/// failure is not fatal to the caller, who may retry with edited
/// credentials.
pub struct ConnectionError {
    pub message: String,
}

/// An owned, live connection source, able to hand out short-lived
/// sub-connections on demand. Only a successful `connect` builds one, so
/// holding a handle means the pool behind it was established; releasing
/// it drops the underlying resources. The handle remembers, as ghost
/// state, the credentials the pool was built from, so contracts can say
/// which configuration a handle corresponds to.
pub struct ConnectionHandle {
    pool: mysql::Pool,
    credentials: Ghost<(Seq<char>, Seq<char>, Seq<char>, Seq<char>)>,
}

impl ConnectionHandle {
    /// The credentials — host, user name, password, database name — that
    /// the pool behind this handle was built from.
    pub closed spec fn creds(&self) -> (Seq<char>, Seq<char>, Seq<char>, Seq<char>) {
        self.credentials@
    }

    /// Wraps an established pool, recording the credentials it was built
    /// from.
    pub(crate) fn from_pool(
        pool: mysql::Pool,
        credentials: Ghost<(Seq<char>, Seq<char>, Seq<char>, Seq<char>)>,
    ) -> (h: ConnectionHandle)
        ensures
            h.creds() == credentials@,
    {
        ConnectionHandle { pool, credentials }
    }

    /// The pooled connection source behind this handle.
    pub(crate) fn pool(&self) -> &mysql::Pool {
        &self.pool
    }
}

/// Attempts to establish a pooled connection source from the four
/// credential fields, handed to the driver one for one (the driver
/// normalizes a host it can parse and keeps the verbatim text
/// otherwise). On success the caller owns the returned handle, built
/// from exactly the given credentials; on any network, authentication or
/// resolution failure a typed error carries the cause, no handle exists,
/// and no partial state is retained. Emits one status line either way.
/// No retry, and no timeout beyond the driver's defaults.
pub fn connect(config: &ConnectionConfig) -> (r: Result<ConnectionHandle, ConnectionError>)
    ensures
        r matches Ok(h) ==> h.creds() == config.creds(),
{
    let opts = driver::opts_from_config(config);
    match driver::pool_new(opts) {
        Ok(pool) => {
            driver::emit_status("Successfully connected to the database.");
            Ok(ConnectionHandle::from_pool(pool, Ghost(config.creds())))
        },
        Err(e) => {
            driver::emit_status("Failed to connect to the database.");
            Err(ConnectionError { message: driver::error_text(&e) })
        },
    }
}

} // verus!
