//! A database instance: its open-time configuration and the per-database
//! replacement-scan hook.

use vstd::prelude::*;

use crate::config::{flag_lookup, Config};
use crate::connection::{Connection, ConnectionModel};
use crate::error::EngineError;

verus! {

/// The registration record of a replacement-scan hook: the callback itself
/// runs host-side, while the database keeps its opaque payload and whether
/// a delete callback was supplied for it.
#[derive(Clone, Copy, Debug, PartialEq, Eq, Structural)]
pub struct ReplacementScanHook {
    /// The opaque extra data handed back to the callback on every
    /// invocation.
    pub extra_data: Option<u64>,
    /// Whether a delete callback was registered for the extra data.
    pub has_destructor: bool,
}

/// An in-process database instance.
///
/// A database is opened with or without a configuration set, hands out
/// client connections, and owns at most one replacement-scan hook whose
/// lifetime is tied to the database object.
pub struct Database {
    read_only: bool,
    replacement: Option<ReplacementScanHook>,
}

impl Database {
    /// Whether the database was opened read-only.
    pub closed spec fn read_only(&self) -> bool {
        self.read_only
    }

    /// The registered replacement-scan hook, if any.
    pub closed spec fn replacement(&self) -> Option<ReplacementScanHook> {
        self.replacement
    }

    /// Opens a fresh in-memory database with the default configuration:
    /// read-write, no replacement-scan hook.
    pub fn new() -> (r: Result<Database, EngineError>)
        ensures
            r matches Ok(db) && !db.read_only() && db.replacement() is None,
    {
        Result::Ok(Database { read_only: false, replacement: Option::None })
    }

    /// Opens a fresh in-memory database with the given configuration. Every
    /// recorded flag assignment was validated when it was set, so opening
    /// succeeds; the database is read-only exactly when the latest
    /// access-mode assignment asks for it.
    pub fn new_with_config(config: &Config) -> (r: Result<Database, EngineError>)
        ensures
            r matches Ok(db) && db.read_only() == (flag_lookup(config.flags_view(), "access_mode"@)
                == Option::Some("READ_ONLY"@)) && db.replacement() is None,
    {
        let read_only = config.read_only_requested();
        Result::Ok(Database { read_only, replacement: Option::None })
    }

    /// Opens a client connection to this database. The connection carries
    /// the database's access mode and its replacement-scan hook, and starts
    /// with an empty catalog.
    pub fn connect(&self) -> (r: Result<Connection, EngineError>)
        ensures
            r matches Ok(conn) && conn@ == (ConnectionModel {
                handle: 1,
                read_only: self.read_only(),
                catalog: Seq::empty(),
                replacement: self.replacement(),
            }) && conn@.handle != 0,
    {
        Result::Ok(Connection::open(1, self.read_only, self.replacement))
    }

    /// Adds a replacement scan definition to this database: on every
    /// unresolved table reference, the engine will hand the reference to
    /// the registered callback. The hook records the callback's opaque
    /// extra data and whether a delete callback was supplied for it;
    /// connections opened afterwards see the hook.
    pub fn add_replacement_scan(&mut self, extra_data: Option<u64>, has_destructor: bool)
        ensures
            final(self).read_only() == old(self).read_only(),
            final(self).replacement() == Option::Some(
                ReplacementScanHook { extra_data, has_destructor },
            ),
    {
        self.replacement = Option::Some(ReplacementScanHook { extra_data, has_destructor });
    }
}

} // verus!
