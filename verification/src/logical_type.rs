//! Logical column types: a tagged description of a value's type, independent
//! of physical storage. Composite kinds own their child types outright.

use vstd::prelude::*;

use crate::constants::DuckDBType;
use crate::error::EngineError;
use crate::text::contains_nul;

verus! {

broadcast use vstd::std_specs::vec::axiom_vec_index_decreases, vstd::seq::group_seq_axioms;

/// The mathematical shape of a logical type: its kind discriminant and, for
/// composite kinds, the named child types it owns.
///
/// A list has one member, a map two (key then value), a struct or union one
/// per field or variant in declaration order; simple kinds have none.
pub struct TypeModel {
    pub kind: DuckDBType,
    pub members: Seq<(Seq<char>, TypeModel)>,
}

impl TypeModel {
    /// The model of a simple (non-composite) type.
    pub open spec fn simple(kind: DuckDBType) -> TypeModel {
        TypeModel { kind, members: Seq::empty() }
    }

    /// No two members share a name.
    pub open spec fn names_unique(self) -> bool {
        forall|i: int, j: int|
            0 <= i < j < self.members.len() ==> self.members[i].0 != self.members[j].0
    }

    /// No member name holds an embedded NUL, so each can cross the engine
    /// boundary as null-terminated text.
    pub open spec fn names_nul_free(self) -> bool {
        forall|i: int|
            0 <= i < self.members.len() ==> !(#[trigger] self.members[i].0).contains('\u{0}')
    }

    /// Well-formedness: the member count fits the kind, struct and union
    /// members are at least one with unique, NUL-free names, and every child
    /// is itself well-formed.
    pub open spec fn wf(self) -> bool
        decreases self,
    {
        &&& (if self.kind is List {
            self.members.len() == 1
        } else if self.kind is MapType {
            self.members.len() == 2
        } else if self.kind is Struct || self.kind is Union {
            self.members.len() >= 1 && self.names_unique() && self.names_nul_free()
        } else {
            self.members.len() == 0
        })
        &&& (forall|i: int| 0 <= i < self.members.len() ==> (#[trigger] self.members[i]).1.wf())
    }
}

/// A logical type handle. Cheap to create; composite constructors copy their
/// child types by value, so every handle owns its full description (deep, not
/// shared, ownership).
pub struct LogicalType {
    kind: DuckDBType,
    members: Vec<(String, LogicalType)>,
}

impl LogicalType {
    /// The mathematical type this handle describes.
    closed spec fn model(self) -> TypeModel
        decreases self,
    {
        TypeModel {
            kind: self.kind,
            members: Seq::new(
                self.members@.len(),
                |i: int|
                    if 0 <= i < self.members@.len() {
                        (self.members@[i].0@, self.members@[i].1.model())
                    } else {
                        (Seq::empty(), TypeModel::simple(DuckDBType::Boolean))
                    },
            ),
        }
    }
}

impl View for LogicalType {
    type V = TypeModel;

    closed spec fn view(&self) -> TypeModel {
        self.model()
    }
}

/// Whether a struct/union member shape is acceptable: non-empty, with
/// unique, NUL-free member names.
pub open spec fn shape_admissible(shape: Seq<(String, LogicalType)>) -> bool {
    &&& shape.len() >= 1
    &&& (forall|i: int| 0 <= i < shape.len() ==> !(#[trigger] shape[i].0@).contains('\u{0}'))
    &&& (forall|i: int, j: int| 0 <= i < j < shape.len() ==> shape[i].0@ != shape[j].0@)
}

/// The model of a type handle built from a kind and an owned member list.
pub open spec fn shape_model(kind: DuckDBType, shape: Seq<(String, LogicalType)>) -> TypeModel {
    TypeModel {
        kind,
        members: Seq::new(
            shape.len(),
            |i: int|
                if 0 <= i < shape.len() {
                    (shape[i].0@, shape[i].1@)
                } else {
                    (Seq::empty(), TypeModel::simple(DuckDBType::Boolean))
                },
        ),
    }
}

/// Bridges a handle's view to `shape_model` over its fields.
broadcast proof fn lemma_view_shape(lt: LogicalType)
    ensures
        #[trigger] lt@ == shape_model(lt.kind, lt.members@),
{
    let vm = lt@.members;
    let sm = shape_model(lt.kind, lt.members@).members;
    assert forall|i: int| 0 <= i < vm.len() implies vm[i] == sm[i] by {
        assert(vm[i] == (lt.members@[i].0@, lt.members@[i].1.model()));
        assert(sm[i] == (lt.members@[i].0@, lt.members@[i].1@));
    }
    assert(vm =~= sm);
}

impl LogicalType {
    /// Every handle describes a well-formed type.
    #[verifier::type_invariant]
    closed spec fn inv(self) -> bool {
        self@.wf()
    }

    /// Creates a simple (non-composite) type of the given kind.
    pub fn new(typ: DuckDBType) -> (r: LogicalType)
        requires
            typ.is_simple(),
        ensures
            r@ == TypeModel::simple(typ),
    {
        broadcast use lemma_view_shape;

        let members: Vec<(String, LogicalType)> = Vec::new();
        proof {
            assert(shape_model(typ, members@).members =~= Seq::<(Seq<char>, TypeModel)>::empty());
        }
        LogicalType { kind: typ, members }
    }

    /// Creates a map type from its key and value types, copying both into
    /// the new handle.
    pub fn new_map_type(key: &LogicalType, value: &LogicalType) -> (r: LogicalType)
        ensures
            r@.kind == DuckDBType::MapType,
            r@.members == seq![(Seq::<char>::empty(), key@), (Seq::<char>::empty(), value@)],
    {
        broadcast use lemma_view_shape;

        proof {
            use_type_invariant(key);
            use_type_invariant(value);
        }
        let mut members: Vec<(String, LogicalType)> = Vec::new();
        members.push((String::new(), key.clone()));
        members.push((String::new(), value.clone()));
        proof {
            assert(shape_model(DuckDBType::MapType, members@).members =~= seq![
                (Seq::<char>::empty(), key@),
                (Seq::<char>::empty(), value@),
            ]);
        }
        LogicalType { kind: DuckDBType::MapType, members }
    }

    /// Creates a list type from its child type, copying the child into the
    /// new handle.
    pub fn new_list_type(child_type: &LogicalType) -> (r: LogicalType)
        ensures
            r@.kind == DuckDBType::List,
            r@.members == seq![(Seq::<char>::empty(), child_type@)],
    {
        broadcast use lemma_view_shape;

        proof {
            use_type_invariant(child_type);
        }
        let mut members: Vec<(String, LogicalType)> = Vec::new();
        members.push((String::new(), child_type.clone()));
        proof {
            assert(shape_model(DuckDBType::List, members@).members =~= seq![
                (Seq::<char>::empty(), child_type@),
            ]);
        }
        LogicalType { kind: DuckDBType::List, members }
    }

    /// Creates a struct type from its named fields, in order. Fails exactly
    /// when the shape is empty, a name repeats, or a name holds an embedded
    /// NUL.
    pub fn new_struct_type(shape: Vec<(String, LogicalType)>) -> (r: Result<
        LogicalType,
        EngineError,
    >)
        ensures
            r is Ok <==> shape_admissible(shape@),
            r matches Ok(t) ==> t@ == shape_model(DuckDBType::Struct, shape@),
    {
        Self::make_meta_type(DuckDBType::Struct, shape)
    }

    /// Creates a union type from its named variants, in order. Fails exactly
    /// when the shape is empty, a name repeats, or a name holds an embedded
    /// NUL.
    pub fn new_union_type(shape: Vec<(String, LogicalType)>) -> (r: Result<
        LogicalType,
        EngineError,
    >)
        ensures
            r is Ok <==> shape_admissible(shape@),
            r matches Ok(t) ==> t@ == shape_model(DuckDBType::Union, shape@),
    {
        Self::make_meta_type(DuckDBType::Union, shape)
    }

    /// Shared constructor for the struct and union kinds: validates the
    /// member shape, then takes ownership of it.
    fn make_meta_type(kind: DuckDBType, shape: Vec<(String, LogicalType)>) -> (r: Result<
        LogicalType,
        EngineError,
    >)
        requires
            kind is Struct || kind is Union,
        ensures
            r is Ok <==> shape_admissible(shape@),
            r matches Ok(t) ==> t@ == shape_model(kind, shape@),
    {
        broadcast use lemma_view_shape;

        if shape.len() == 0 {
            return Result::Err(EngineError::EmptyTypeShape);
        }
        let n = shape.len();
        let mut i: usize = 0;
        while i < n
            invariant
                n == shape@.len(),
                i <= n,
                forall|k: int| 0 <= k < i ==> !(#[trigger] shape@[k].0@).contains('\u{0}'),
                forall|k: int| 0 <= k < i ==> (#[trigger] shape@[k].1@).wf(),
            decreases n - i,
        {
            let member = &shape[i];
            if contains_nul(member.0.as_str()) {
                return Result::Err(EngineError::EmbeddedNul);
            }
            proof {
                use_type_invariant(&member.1);
            }
            i = i + 1;
        }
        let mut a: usize = 0;
        while a < n
            invariant
                n == shape@.len(),
                a <= n,
                forall|p: int, q: int| 0 <= p < q < n && p < a ==> shape@[p].0@ != shape@[q].0@,
            decreases n - a,
        {
            let mut b: usize = a + 1;
            while b < n
                invariant
                    n == shape@.len(),
                    a < n,
                    a < b <= n,
                    forall|q: int| a < q < b ==> shape@[a as int].0@ != shape@[q].0@,
                decreases n - b,
            {
                if shape[a].0 == shape[b].0 {
                    return Result::Err(EngineError::DuplicateMemberName);
                }
                b = b + 1;
            }
            a = a + 1;
        }
        let ghost m = shape_model(kind, shape@);
        proof {
            assert forall|k: int| 0 <= k < m.members.len() implies (#[trigger] m.members[k]).1.wf() by {
                assert(m.members[k].1 == shape@[k].1@);
            }
            assert(m.names_unique());
            assert(m.names_nul_free());
            assert(m.wf());
        }
        Result::Ok(LogicalType { kind, members: shape })
    }

    /// Reads back the type's kind discriminant.
    pub fn type_id(&self) -> (r: DuckDBType)
        ensures
            r == self@.kind,
    {
        self.kind
    }
}

/// A freshly created simple type reports exactly the kind it was created
/// with: creation yields the model `simple(kind)`, and the type-id read-back
/// returns the model's kind, so their composition is the identity on every
/// simple kind.
pub proof fn lemma_new_type_reports_kind(kind: DuckDBType)
    ensures
        TypeModel::simple(kind).kind == kind,
{
}

/// A composite constructor reports exactly its composite kind, whatever the
/// member shape; and the empty shape is never admissible, so building a
/// struct or union from an empty member set always fails.
pub proof fn lemma_composite_type_reports_kind(kind: DuckDBType, shape: Seq<(String, LogicalType)>)
    ensures
        shape_model(kind, shape).kind == kind,
        !shape_admissible(Seq::<(String, LogicalType)>::empty()),
{
}

impl Clone for LogicalType {
    /// Deep copy: the clone owns a fresh copy of the full composite
    /// structure and describes exactly the same type.
    fn clone(&self) -> (res: Self)
        ensures
            res@ == self@,
        decreases *self,
    {
        broadcast use lemma_view_shape;

        proof {
            use_type_invariant(self);
        }
        let n = self.members.len();
        let mut members: Vec<(String, LogicalType)> = Vec::new();
        let mut i: usize = 0;
        while i < n
            invariant
                n == self.members@.len(),
                self@.wf(),
                i <= n,
                members@.len() == i,
                forall|k: int|
                    0 <= k < i ==> (#[trigger] members@[k]).0@ == self.members@[k].0@
                        && members@[k].1@ == self.members@[k].1@,
            decreases n - i,
        {
            let member = &self.members[i];
            let name = member.0.clone();
            let child = member.1.clone();
            members.push((name, child));
            i = i + 1;
        }
        proof {
            assert(shape_model(self.kind, members@).members =~= self@.members);
            assert(shape_model(self.kind, members@) == self@);
        }
        LogicalType { kind: self.kind, members }
    }
}

} // verus!
