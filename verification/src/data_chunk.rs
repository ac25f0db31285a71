//! A data chunk: an ordered set of equal-capacity column vectors plus the
//! current row count, the unit of data interchange between host and
//! extension.

use vstd::prelude::*;

use crate::logical_type::{LogicalType, TypeModel};
use crate::vector::{Vector, VECTOR_SIZE};

verus! {

/// One batch of rows: a fixed set of column vectors that all share the
/// chunk's current size.
///
/// The column count and types are fixed at creation. The current size says
/// how many of the fixed-capacity rows are logically populated; a table
/// function's execute stage fills column vectors and then publishes the row
/// count with [`DataChunk::set_size`], where publishing size zero is the
/// "no more rows" signal.
pub struct DataChunk {
    columns: Vec<Vector>,
    size: usize,
}

impl DataChunk {
    /// Storage invariant: every column vector is well-formed and the current
    /// size never exceeds the fixed capacity.
    pub open spec fn wf(&self) -> bool {
        &&& forall|i: int| 0 <= i < self.columns().len() ==> (#[trigger] self.columns()[i]).wf()
        &&& self.size_view() <= VECTOR_SIZE
    }

    /// The column vectors, in declaration order.
    pub closed spec fn columns(&self) -> Seq<Vector> {
        self.columns@
    }

    /// The current number of logically populated rows.
    pub closed spec fn size_view(&self) -> nat {
        self.size as nat
    }

    /// The declared column types, in order.
    pub open spec fn column_types(&self) -> Seq<TypeModel> {
        self.columns().map_values(|v: Vector| v.col_type())
    }

    /// Creates an empty owned chunk with one zeroed, all-valid column per
    /// declared type, and size zero.
    pub fn new(types: Vec<LogicalType>) -> (r: DataChunk)
        ensures
            r.wf(),
            r.size_view() == 0,
            r.columns().len() == types@.len(),
            forall|i: int|
                0 <= i < types@.len() ==> (#[trigger] r.columns()[i]).col_type() == types@[i]@,
            forall|i: int|
                0 <= i < types@.len() ==> (#[trigger] r.columns()[i]).validity_view() =~= Seq::new(
                    VECTOR_SIZE as nat,
                    |j: int| true,
                ) && !r.columns()[i].validity_writable(),
            forall|i: int|
                0 <= i < types@.len() ==> (#[trigger] r.columns()[i]).data_view() =~= Seq::new(
                    VECTOR_SIZE as nat,
                    |j: int| 0u64,
                ),
            forall|i: int|
                0 <= i < types@.len() ==> (#[trigger] r.columns()[i]).strings_view() =~= Seq::new(
                    VECTOR_SIZE as nat,
                    |j: int| Seq::<char>::empty(),
                ),
    {
        let n = types.len();
        let mut columns: Vec<Vector> = Vec::new();
        let mut i: usize = 0;
        while i < n
            invariant
                n == types@.len(),
                i <= n,
                columns@.len() == i,
                forall|k: int|
                    0 <= k < i ==> (#[trigger] columns@[k]).wf() && columns@[k].col_type()
                        == types@[k]@,
                forall|k: int|
                    0 <= k < i ==> (#[trigger] columns@[k]).validity_view() =~= Seq::new(
                        VECTOR_SIZE as nat,
                        |j: int| true,
                    ) && !columns@[k].validity_writable(),
                forall|k: int|
                    0 <= k < i ==> (#[trigger] columns@[k]).data_view() =~= Seq::new(
                        VECTOR_SIZE as nat,
                        |j: int| 0u64,
                    ),
                forall|k: int|
                    0 <= k < i ==> (#[trigger] columns@[k]).strings_view() =~= Seq::new(
                        VECTOR_SIZE as nat,
                        |j: int| Seq::<char>::empty(),
                    ),
            decreases n - i,
        {
            let t = types[i].clone();
            columns.push(Vector::new(t));
            i = i + 1;
        }
        DataChunk { columns, size: 0 }
    }

    /// Retrieves the vector at `column_index` for reading. The reference is
    /// a view into chunk-owned storage.
    pub fn get_vector(&self, column_index: usize) -> (r: &Vector)
        requires
            column_index < self.columns().len(),
        ensures
            *r == self.columns()[column_index as int],
    {
        &self.columns[column_index]
    }

    /// Retrieves the vector at `column_index` for writing; the chunk keeps
    /// whatever the caller leaves in the returned vector. Writing only
    /// through the vector's own operations keeps the chunk well-formed.
    pub fn get_vector_mut(&mut self, column_index: usize) -> (r: &mut Vector)
        requires
            column_index < old(self).columns().len(),
        ensures
            *r == old(self).columns()[column_index as int],
            final(self).columns() == old(self).columns().update(column_index as int, *final(r)),
            final(self).size_view() == old(self).size_view(),
            old(self).wf() && final(r).wf() ==> final(self).wf(),
    {
        &mut self.columns[column_index]
    }

    /// Publishes the number of logically populated rows; `set_size(0)` is
    /// the "no more rows" signal. The row data itself is untouched.
    pub fn set_size(&mut self, size: usize)
        requires
            old(self).wf(),
            size <= VECTOR_SIZE,
        ensures
            final(self).wf(),
            final(self).size_view() == size,
            final(self).columns() == old(self).columns(),
    {
        self.size = size;
        proof {
            assert forall|i: int|
                0 <= i < self.columns().len() implies (#[trigger] self.columns()[i]).wf() by {
                assert(old(self).columns()[i].wf());
            }
        }
    }

    /// Resets the chunk for reuse: size returns to zero and every column's
    /// validity is cleared, so all rows report valid again. Column types and
    /// buffer contents are untouched.
    pub fn reset(&mut self)
        requires
            old(self).wf(),
        ensures
            final(self).wf(),
            final(self).size_view() == 0,
            final(self).columns().len() == old(self).columns().len(),
            forall|i: int|
                0 <= i < old(self).columns().len() ==> (#[trigger] final(self).columns()[i]).validity_view()
                    =~= Seq::new(VECTOR_SIZE as nat, |j: int| true),
            forall|i: int|
                0 <= i < old(self).columns().len() ==> (#[trigger] final(self).columns()[i]).col_type()
                    == old(self).columns()[i].col_type() && final(self).columns()[i].data_view()
                    == old(self).columns()[i].data_view() && final(self).columns()[i].strings_view()
                    == old(self).columns()[i].strings_view(),
    {
        self.size = 0;
        let n = self.columns.len();
        let mut i: usize = 0;
        while i < n
            invariant
                n == self.columns@.len(),
                self.columns@.len() == old(self).columns().len(),
                self.size_view() == 0,
                i <= n,
                forall|k: int| 0 <= k < n ==> (#[trigger] self.columns@[k]).wf(),
                forall|k: int|
                    0 <= k < i ==> (#[trigger] self.columns@[k]).validity_view() =~= Seq::new(
                        VECTOR_SIZE as nat,
                        |j: int| true,
                    ),
                forall|k: int|
                    0 <= k < n ==> (#[trigger] self.columns@[k]).col_type() == old(
                        self,
                    ).columns()[k].col_type() && self.columns@[k].data_view() == old(
                        self,
                    ).columns()[k].data_view() && self.columns@[k].strings_view() == old(
                        self,
                    ).columns()[k].strings_view(),
            decreases n - i,
        {
            let v = &mut self.columns[i];
            v.reset_validity();
            i = i + 1;
        }
    }

    /// Retrieves the number of columns, fixed at creation.
    pub fn get_column_count(&self) -> (r: usize)
        ensures
            r == self.columns().len(),
    {
        self.columns.len()
    }

    /// Retrieves the current number of logically populated rows.
    pub fn get_size(&self) -> (r: usize)
        ensures
            r == self.size_view(),
    {
        self.size
    }
}

} // verus!
