//! The table-function descriptor: the registration record an extension
//! fills in before handing it to a connection.

use vstd::prelude::*;

use crate::logical_type::{LogicalType, TypeModel};

verus! {

/// The mathematical content of a descriptor: what has been declared so far.
pub struct TableFunctionModel {
    /// The catalog name, once set.
    pub name: Option<Seq<char>>,
    /// The declared positional parameter types, in order.
    pub parameters: Seq<TypeModel>,
    /// Whether the function supports projection pushdown.
    pub pushdown: bool,
    /// Whether a bind stage was supplied.
    pub has_bind: bool,
    /// Whether an init stage was supplied.
    pub has_init: bool,
    /// Whether an execute stage was supplied.
    pub has_function: bool,
    /// Whether a thread-local init stage was supplied.
    pub has_local_init: bool,
    /// The opaque extra-info payload, once set.
    pub extra_info: Option<u64>,
    /// Whether a destructor was registered for the extra-info payload.
    pub extra_info_has_destructor: bool,
}

impl TableFunctionModel {
    /// A descriptor the engine accepts for registration: it has a usable
    /// name and all three mandatory stages.
    pub open spec fn complete(self) -> bool {
        &&& self.name matches Option::Some(n) && n.len() > 0 && !n.contains('\u{0}')
        &&& self.has_bind
        &&& self.has_init
        &&& self.has_function
    }
}

/// A function that returns a queryable table.
///
/// The registering code declares the name, positional parameter types,
/// pushdown capability, which protocol stages the extension supplies, and an
/// optional opaque extra-info payload, then registers the descriptor through
/// [`crate::Connection::register_table_function`]. Registration transfers
/// ownership of the descriptor to the engine.
pub struct TableFunction {
    name: Option<String>,
    parameters: Vec<LogicalType>,
    pushdown: bool,
    has_bind: bool,
    has_init: bool,
    has_function: bool,
    has_local_init: bool,
    extra_info: Option<u64>,
    extra_info_has_destructor: bool,
}

impl View for TableFunction {
    type V = TableFunctionModel;

    closed spec fn view(&self) -> TableFunctionModel {
        TableFunctionModel {
            name: match self.name {
                Option::Some(n) => Option::Some(n@),
                Option::None => Option::None,
            },
            parameters: self.parameters@.map_values(|t: LogicalType| t@),
            pushdown: self.pushdown,
            has_bind: self.has_bind,
            has_init: self.has_init,
            has_function: self.has_function,
            has_local_init: self.has_local_init,
            extra_info: self.extra_info,
            extra_info_has_destructor: self.extra_info_has_destructor,
        }
    }
}

impl TableFunction {
    /// Creates a new empty table function descriptor.
    pub fn new() -> (r: TableFunction)
        ensures
            r@ == (TableFunctionModel {
                name: Option::None,
                parameters: Seq::empty(),
                pushdown: false,
                has_bind: false,
                has_init: false,
                has_function: false,
                has_local_init: false,
                extra_info: Option::None,
                extra_info_has_destructor: false,
            }),
    {
        let r = TableFunction {
            name: Option::None,
            parameters: Vec::new(),
            pushdown: false,
            has_bind: false,
            has_init: false,
            has_function: false,
            has_local_init: false,
            extra_info: Option::None,
            extra_info_has_destructor: false,
        };
        proof {
            assert(r@.parameters =~= Seq::<TypeModel>::empty());
        }
        r
    }

    /// Sets the catalog name under which the function registers.
    pub fn set_name(&mut self, name: &str)
        ensures
            final(self)@ == (TableFunctionModel { name: Option::Some(name@), ..old(self)@ }),
    {
        self.name = Option::Some(name.to_owned());
    }

    /// Declares one more positional parameter of the given type, copying the
    /// type into the descriptor.
    pub fn add_parameter(&mut self, logical_type: &LogicalType)
        ensures
            final(self)@ == (TableFunctionModel {
                parameters: old(self)@.parameters.push(logical_type@),
                ..old(self)@
            }),
    {
        self.parameters.push(logical_type.clone());
        proof {
            assert(self@.parameters =~= old(self)@.parameters.push(logical_type@));
        }
    }

    /// Declares whether the function supports projection pushdown. When
    /// true, the init stage is told which columns the query needs; when
    /// false (the default), every column must be populated.
    pub fn supports_pushdown(&mut self, supports: bool)
        ensures
            final(self)@ == (TableFunctionModel { pushdown: supports, ..old(self)@ }),
    {
        self.pushdown = supports;
    }

    /// Declares that the extension supplies the bind stage.
    pub fn set_bind(&mut self)
        ensures
            final(self)@ == (TableFunctionModel { has_bind: true, ..old(self)@ }),
    {
        self.has_bind = true;
    }

    /// Declares that the extension supplies the init stage.
    pub fn set_init(&mut self)
        ensures
            final(self)@ == (TableFunctionModel { has_init: true, ..old(self)@ }),
    {
        self.has_init = true;
    }

    /// Declares that the extension supplies the execute stage.
    pub fn set_function(&mut self)
        ensures
            final(self)@ == (TableFunctionModel { has_function: true, ..old(self)@ }),
    {
        self.has_function = true;
    }

    /// Declares that the extension supplies a thread-local init stage.
    pub fn set_local_init(&mut self)
        ensures
            final(self)@ == (TableFunctionModel { has_local_init: true, ..old(self)@ }),
    {
        self.has_local_init = true;
    }

    /// Attaches an opaque extra-info payload, readable from every later
    /// stage, with or without a destructor for the engine to run when it
    /// releases the descriptor.
    pub fn set_extra_info(&mut self, extra_info: u64, has_destructor: bool)
        ensures
            final(self)@ == (TableFunctionModel {
                extra_info: Option::Some(extra_info),
                extra_info_has_destructor: has_destructor,
                ..old(self)@
            }),
    {
        self.extra_info = Option::Some(extra_info);
        self.extra_info_has_destructor = has_destructor;
    }
}

impl TableFunction {
    /// The name set so far, for the engine's catalog bookkeeping.
    pub(crate) fn name_ref(&self) -> (r: &Option<String>)
        ensures
            crate::text::opt_text(*r) == self@.name,
    {
        &self.name
    }

    /// The declared pushdown capability.
    pub(crate) fn get_pushdown(&self) -> (r: bool)
        ensures
            r == self@.pushdown,
    {
        self.pushdown
    }

    /// Whether a thread-local init stage was supplied.
    pub(crate) fn get_has_local_init(&self) -> (r: bool)
        ensures
            r == self@.has_local_init,
    {
        self.has_local_init
    }

    /// The extra-info payload, for seeding a query's stages.
    pub(crate) fn get_extra_info(&self) -> (r: Option<u64>)
        ensures
            r == self@.extra_info,
    {
        self.extra_info
    }

    /// Whether the descriptor is complete enough to register.
    pub(crate) fn is_complete(&self) -> (r: bool)
        ensures
            r == self@.complete(),
    {
        match &self.name {
            Option::None => false,
            Option::Some(n) => {
                if n.as_str().is_empty() || crate::text::contains_nul(n.as_str()) {
                    false
                } else {
                    self.has_bind && self.has_init && self.has_function
                }
            },
        }
    }

    /// The number of declared positional parameters.
    pub(crate) fn parameter_count(&self) -> (r: usize)
        ensures
            r == self@.parameters.len(),
    {
        self.parameters.len()
    }

    /// The kind of the declared parameter at `index`.
    pub(crate) fn parameter_kind(&self, index: usize) -> (r: crate::constants::DuckDBType)
        requires
            index < self@.parameters.len(),
        ensures
            r == self@.parameters[index as int].kind,
    {
        self.parameters[index].type_id()
    }
}

impl Default for TableFunction {
    /// The empty descriptor, as [`TableFunction::new`] returns.
    fn default() -> (r: Self)
        ensures
            r@ == (TableFunctionModel {
                name: Option::None,
                parameters: Seq::empty(),
                pushdown: false,
                has_bind: false,
                has_init: false,
                has_function: false,
                has_local_init: false,
                extra_info: Option::None,
                extra_info_has_destructor: false,
            }),
    {
        TableFunction::new()
    }
}

} // verus!
