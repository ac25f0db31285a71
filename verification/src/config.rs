//! Database configuration: the engine's enumerable catalog of recognized
//! flags and the key-value configuration set used when opening a database.

use vstd::prelude::*;

use crate::error::EngineError;
use crate::text::{contains_nul, str_eq};

verus! {

/// One recognized configuration flag: its name and a human-readable
/// description.
pub struct ConfigItem {
    pub name: String,
    pub desc: String,
}

/// The engine's catalog of recognized configuration flags, enumerable by
/// index.
pub struct ConfigList {
    items: Vec<ConfigItem>,
}

/// Whether the engine recognizes a configuration flag of this name.
pub open spec fn is_known_flag(name: Seq<char>) -> bool {
    ||| name == "access_mode"@
    ||| name == "threads"@
    ||| name == "max_memory"@
    ||| name == "default_order"@
    ||| name == "default_null_order"@
    ||| name == "enable_external_access"@
}

/// The values the engine accepts for the access-mode flag.
pub open spec fn valid_access_mode(value: Seq<char>) -> bool {
    ||| value == "AUTOMATIC"@
    ||| value == "READ_ONLY"@
    ||| value == "READ_WRITE"@
}

/// Whether a single flag assignment is accepted: the name must be
/// recognized, the value representable as null-terminated text, and an
/// access-mode value one of the accepted spellings.
pub open spec fn flag_accepted(name: Seq<char>, value: Seq<char>) -> bool {
    &&& !name.contains('\u{0}')
    &&& !value.contains('\u{0}')
    &&& is_known_flag(name)
    &&& (name == "access_mode"@ ==> valid_access_mode(value))
}

/// The typed failure a rejected flag assignment reports, in the order the
/// checks run: text representability first, then name recognition, then the
/// per-key value check.
pub open spec fn flag_error(name: Seq<char>, value: Seq<char>) -> EngineError {
    if name.contains('\u{0}') || value.contains('\u{0}') {
        EngineError::EmbeddedNul
    } else if !is_known_flag(name) {
        EngineError::UnknownConfigFlag
    } else {
        EngineError::InvalidConfigValue
    }
}

/// The latest value assigned to `name`, if any: assignments are kept in
/// order and a later assignment of the same flag wins.
pub open spec fn flag_lookup(flags: Seq<(Seq<char>, Seq<char>)>, name: Seq<char>) -> Option<
    Seq<char>,
>
    decreases flags.len(),
{
    if flags.len() == 0 {
        Option::None
    } else if flags.last().0 == name {
        Option::Some(flags.last().1)
    } else {
        flag_lookup(flags.drop_last(), name)
    }
}

/// Returns the engine's catalog of recognized configuration flags.
pub fn get_configs() -> (r: ConfigList)
    ensures
        r.items_view().len() == 6,
        forall|i: int| 0 <= i < 6 ==> is_known_flag(#[trigger] r.items_view()[i].name@),
        r.items_view()[0].name@ == "access_mode"@,
        r.items_view()[1].name@ == "threads"@,
        r.items_view()[2].name@ == "max_memory"@,
        r.items_view()[3].name@ == "default_order"@,
        r.items_view()[4].name@ == "default_null_order"@,
        r.items_view()[5].name@ == "enable_external_access"@,
        r.items_view()[0].desc@ == "Access mode of the database (AUTOMATIC, READ_ONLY or READ_WRITE)"@,
        r.items_view()[1].desc@ == "The number of total threads used by the system"@,
        r.items_view()[2].desc@ == "The maximum memory of the system"@,
        r.items_view()[3].desc@ == "The order type used when none is specified"@,
        r.items_view()[4].desc@ == "Null ordering used when none is specified"@,
        r.items_view()[5].desc@ == "Allow the database to access external state"@,
{
    let mut items: Vec<ConfigItem> = Vec::new();
    items.push(
        ConfigItem {
            name: "access_mode".to_owned(),
            desc: "Access mode of the database (AUTOMATIC, READ_ONLY or READ_WRITE)".to_owned(),
        },
    );
    items.push(
        ConfigItem {
            name: "threads".to_owned(),
            desc: "The number of total threads used by the system".to_owned(),
        },
    );
    items.push(
        ConfigItem {
            name: "max_memory".to_owned(),
            desc: "The maximum memory of the system".to_owned(),
        },
    );
    items.push(
        ConfigItem {
            name: "default_order".to_owned(),
            desc: "The order type used when none is specified".to_owned(),
        },
    );
    items.push(
        ConfigItem {
            name: "default_null_order".to_owned(),
            desc: "Null ordering used when none is specified".to_owned(),
        },
    );
    items.push(
        ConfigItem {
            name: "enable_external_access".to_owned(),
            desc: "Allow the database to access external state".to_owned(),
        },
    );
    ConfigList { items }
}

impl ConfigList {
    /// The catalog entries, in enumeration order.
    pub closed spec fn items_view(&self) -> Seq<ConfigItem> {
        self.items@
    }

    /// The number of recognized configuration flags.
    pub fn len(&self) -> (r: usize)
        ensures
            r == self.items_view().len(),
    {
        self.items.len()
    }

    /// Whether the catalog is empty (it never is for a real engine).
    pub fn is_empty(&self) -> (r: bool)
        ensures
            r == (self.items_view().len() == 0),
    {
        self.len() == 0
    }

    /// Retrieves the catalog entry at `index`.
    pub fn get(&self, index: usize) -> (r: &ConfigItem)
        requires
            index < self.items_view().len(),
        ensures
            *r == self.items_view()[index as int],
    {
        &self.items[index]
    }
}

/// A key-value configuration set to open a database with. Assignments are
/// validated one by one; only accepted assignments are recorded, so opening
/// with any `Config` value succeeds.
pub struct Config {
    flags: Vec<(String, String)>,
}

impl Config {
    /// The recorded assignments, in order; a later assignment of the same
    /// flag wins.
    pub closed spec fn flags_view(&self) -> Seq<(Seq<char>, Seq<char>)> {
        self.flags@.map_values(|p: (String, String)| (p.0@, p.1@))
    }

    /// Every recorded assignment was accepted.
    #[verifier::type_invariant]
    closed spec fn inv(self) -> bool {
        forall|i: int|
            0 <= i < self.flags_view().len() ==> flag_accepted(
                (#[trigger] self.flags_view()[i]).0,
                self.flags_view()[i].1,
            )
    }

    /// Creates an empty configuration set.
    pub fn new() -> (r: Result<Config, EngineError>)
        ensures
            r matches Ok(c) && c.flags_view() =~= Seq::<(Seq<char>, Seq<char>)>::empty(),
    {
        let c = Config { flags: Vec::new() };
        proof {
            assert(c.flags_view() =~= Seq::<(Seq<char>, Seq<char>)>::empty());
        }
        Result::Ok(c)
    }

    /// Records the assignment `name = value`. Fails exactly when the name or
    /// value holds an embedded NUL, the name is not a recognized flag, or an
    /// access-mode value is not one of the accepted spellings; a rejected
    /// assignment leaves the configuration unchanged.
    pub fn set_flag(&mut self, name: &str, value: &str) -> (r: Result<(), EngineError>)
        ensures
            r is Ok <==> flag_accepted(name@, value@),
            r is Ok ==> final(self).flags_view() =~= old(self).flags_view().push((name@, value@)),
            r matches Err(e) ==> e == flag_error(name@, value@) && final(self).flags_view() == old(
                self,
            ).flags_view(),
    {
        proof {
            use_type_invariant(&*self);
        }
        if contains_nul(name) || contains_nul(value) {
            return Result::Err(EngineError::EmbeddedNul);
        }
        let known = str_eq(name, "access_mode") || str_eq(name, "threads") || str_eq(
            name,
            "max_memory",
        ) || str_eq(name, "default_order") || str_eq(name, "default_null_order") || str_eq(
            name,
            "enable_external_access",
        );
        if !known {
            return Result::Err(EngineError::UnknownConfigFlag);
        }
        if str_eq(name, "access_mode") {
            let value_ok = str_eq(value, "AUTOMATIC") || str_eq(value, "READ_ONLY") || str_eq(
                value,
                "READ_WRITE",
            );
            if !value_ok {
                return Result::Err(EngineError::InvalidConfigValue);
            }
        }
        let mut flags: Vec<(String, String)> = Vec::new();
        core::mem::swap(&mut flags, &mut self.flags);
        flags.push((name.to_owned(), value.to_owned()));
        proof {
            let fv = flags@.map_values(|p: (String, String)| (p.0@, p.1@));
            assert(fv =~= old(self).flags_view().push((name@, value@)));
            assert forall|i: int|
                0 <= i < fv.len() implies flag_accepted((#[trigger] fv[i]).0, fv[i].1) by {
                if i < old(self).flags_view().len() {
                    assert(flag_accepted(
                        (#[trigger] old(self).flags_view()[i]).0,
                        old(self).flags_view()[i].1,
                    ));
                }
            }
        }
        core::mem::swap(&mut flags, &mut self.flags);
        proof {
            assert(self.flags_view() =~= old(self).flags_view().push((name@, value@)));
        }
        Result::Ok(())
    }

    /// Whether this configuration asks for a read-only database.
    pub(crate) fn read_only_requested(&self) -> (r: bool)
        ensures
            r == (flag_lookup(self.flags_view(), "access_mode"@) == Option::Some("READ_ONLY"@)),
    {
        let n = self.flags.len();
        let mut i: usize = n;
        proof {
            assert(self.flags_view().take(n as int) =~= self.flags_view());
        }
        while i > 0
            invariant
                n == self.flags@.len(),
                i <= n,
                flag_lookup(self.flags_view(), "access_mode"@) == flag_lookup(
                    self.flags_view().take(i as int),
                    "access_mode"@,
                ),
            decreases i,
        {
            i = i - 1;
            let entry = &self.flags[i];
            proof {
                assert(self.flags_view().take(i + 1 as int).drop_last() =~= self.flags_view().take(
                    i as int,
                ));
                assert(self.flags_view().take(i + 1 as int).last() == self.flags_view()[i as int]);
            }
            if str_eq(entry.0.as_str(), "access_mode") {
                return str_eq(entry.1.as_str(), "READ_ONLY");
            }
        }
        proof {
            assert(self.flags_view().take(0) =~= Seq::<(Seq<char>, Seq<char>)>::empty());
        }
        false
    }
}

} // verus!
