//! One column's physical storage for a batch: a fixed-capacity buffer and
//! its validity (null/non-null) mask.

use vstd::prelude::*;
use vstd::string::{StrSliceExecFns, StringExecFns};

use crate::logical_type::{LogicalType, TypeModel};

verus! {

/// The engine's standard vector capacity: every batch holds storage for this
/// many rows, however many are logically populated.
pub const VECTOR_SIZE: usize = 2048;

/// The number of 64-bit words a validity mask packs its row bits into.
pub const VALIDITY_WORDS: usize = VECTOR_SIZE / 64;

/// Whether bit `idx` of `w` is set; bit `r % 64` of word `r / 64` records
/// whether row `r` is valid.
pub open spec fn word_bit(w: u64, idx: u64) -> bool {
    (w >> idx) & 1u64 == 1u64
}

/// A packed bitset marking each row of a fixed-capacity vector as valid
/// (non-null, bit set) or invalid (null, bit clear).
///
/// The word storage may be absent, which the engine reads as "every row is
/// valid". Writes to an absent mask are ignored; a caller that wants to mark
/// rows invalid must first make the mask writable (see
/// [`Vector::ensure_validity_writable`]).
pub struct ValidityMask {
    words: Option<Vec<u64>>,
}

impl View for ValidityMask {
    type V = Seq<bool>;

    /// A mask abstracts to one boolean per row, `true` meaning valid.
    closed spec fn view(&self) -> Seq<bool> {
        match self.words {
            Option::None => Seq::new(VECTOR_SIZE as nat, |i: int| true),
            Option::Some(w) => Seq::new(
                VECTOR_SIZE as nat,
                |i: int| word_bit(w@[i / 64], (i % 64) as u64),
            ),
        }
    }
}

impl ValidityMask {
    /// The storage invariant: if word storage is present, it holds exactly
    /// one bit per row.
    pub closed spec fn wf(&self) -> bool {
        match self.words {
            Option::Some(w) => w@.len() == VALIDITY_WORDS,
            Option::None => true,
        }
    }

    /// Whether word storage is present, so that writes take effect.
    pub closed spec fn writable(&self) -> bool {
        self.words is Some
    }

    /// An absent mask reads as all-valid.
    pub proof fn lemma_absent_is_all_valid(&self)
        ensures
            !self.writable() ==> forall|r: int| 0 <= r < VECTOR_SIZE ==> self@[r],
            self@.len() == VECTOR_SIZE,
    {
    }

    /// A fresh mask with no word storage: every row reads as valid.
    pub(crate) fn new_absent() -> (r: ValidityMask)
        ensures
            r.wf(),
            !r.writable(),
            r@ =~= Seq::new(VECTOR_SIZE as nat, |i: int| true),
    {
        ValidityMask { words: Option::None }
    }

    /// Allocates word storage if it is absent, leaving every row's validity
    /// as it was. Idempotent; afterwards writes take effect.
    pub(crate) fn make_writable(&mut self)
        requires
            old(self).wf(),
        ensures
            final(self).wf(),
            final(self).writable(),
            final(self)@ =~= old(self)@,
    {
        if self.words.is_none() {
            let w: Vec<u64> = vec![0xFFFF_FFFF_FFFF_FFFFu64; VALIDITY_WORDS];
            self.words = Option::Some(w);
            proof {
                assert forall|i: int| 0 <= i < VECTOR_SIZE implies self@[i] == old(self)@[i] by {
                    let b = (i % 64) as u64;
                    assert(b < 64);
                    assert(word_bit(0xFFFF_FFFF_FFFF_FFFFu64, b)) by (bit_vector)
                        requires b < 64;
                }
            }
        }
    }

    /// Drops the word storage, restoring the absent, all-valid state.
    pub(crate) fn reset(&mut self)
        ensures
            final(self).wf(),
            !final(self).writable(),
            final(self)@ =~= Seq::new(VECTOR_SIZE as nat, |i: int| true),
    {
        self.words = Option::None;
    }

    /// Returns whether `row` is valid (not NULL). With no word storage
    /// present every row reads as valid.
    pub fn row_is_valid(&self, row: usize) -> (r: bool)
        requires
            self.wf(),
            row < VECTOR_SIZE,
        ensures
            r == self@[row as int],
    {
        match &self.words {
            Option::None => true,
            Option::Some(w) => {
                let word = w[row / 64];
                (word >> ((row % 64) as u64)) & 1u64 == 1u64
            },
        }
    }

    /// Sets `row` to valid or invalid, leaving every other row unchanged.
    /// A write to an absent mask is ignored (the engine treats it as a no-op);
    /// make the mask writable first to mark rows invalid.
    pub fn set_row_validity(&mut self, row: usize, valid: bool)
        requires
            old(self).wf(),
            row < VECTOR_SIZE,
        ensures
            final(self).wf(),
            final(self).writable() == old(self).writable(),
            old(self).writable() ==> final(self)@ =~= old(self)@.update(row as int, valid),
            !old(self).writable() ==> final(self)@ =~= old(self)@,
    {
        match &mut self.words {
            Option::None => {},
            Option::Some(w) => {
                let wi = row / 64;
                let bit = (row % 64) as u64;
                let old_word = w[wi];
                let new_word = if valid {
                    old_word | (1u64 << bit)
                } else {
                    old_word & !(1u64 << bit)
                };
                w[wi] = new_word;
                proof {
                    lemma_word_bit_update(old_word, new_word, bit, valid);
                    assert forall|i: int| 0 <= i < VECTOR_SIZE implies self@[i] == old(
                        self,
                    )@.update(row as int, valid)[i] by {
                        assert(0 <= i % 64 < 64 && i == 64 * (i / 64) + i % 64);
                        assert(0 <= row % 64 < 64 && row == 64 * (row as int / 64) + row as int
                            % 64);
                        if i != row && i / 64 == row as int / 64 {
                            assert(i % 64 != row as int % 64);
                        }
                    }
                }
            },
        }
    }

    /// Marks `row` invalid (NULL); shorthand for `set_row_validity(row, false)`.
    pub fn set_row_invalid(&mut self, row: usize)
        requires
            old(self).wf(),
            row < VECTOR_SIZE,
        ensures
            final(self).wf(),
            final(self).writable() == old(self).writable(),
            old(self).writable() ==> final(self)@ =~= old(self)@.update(row as int, false),
            !old(self).writable() ==> final(self)@ =~= old(self)@,
    {
        self.set_row_validity(row, false)
    }

    /// Renders the mask one character per row, `.` for a valid row and `X`
    /// for an invalid one.
    pub fn render(&self) -> (r: String)
        requires
            self.wf(),
        ensures
            r@.len() == VECTOR_SIZE,
            forall|i: int| 0 <= i < VECTOR_SIZE ==> r@[i] == (if self@[i] {
                '.'
            } else {
                'X'
            }),
    {
        let mut s = String::new();
        let mut i: usize = 0;
        while i < VECTOR_SIZE
            invariant
                self.wf(),
                i <= VECTOR_SIZE,
                s@.len() == i,
                forall|k: int| 0 <= k < i ==> s@[k] == (if self@[k] {
                    '.'
                } else {
                    'X'
                }),
            decreases VECTOR_SIZE - i,
        {
            proof {
                reveal_strlit(".");
                reveal_strlit("X");
            }
            if self.row_is_valid(i) {
                s.append(".");
            } else {
                s.append("X");
            }
            i = i + 1;
        }
        s
    }

    /// Marks `row` valid; shorthand for `set_row_validity(row, true)`.
    pub fn set_row_valid(&mut self, row: usize)
        requires
            old(self).wf(),
            row < VECTOR_SIZE,
        ensures
            final(self).wf(),
            final(self).writable() == old(self).writable(),
            old(self).writable() ==> final(self)@ =~= old(self)@.update(row as int, true),
            !old(self).writable() ==> final(self)@ =~= old(self)@,
    {
        self.set_row_validity(row, true)
    }
}

/// Setting or clearing bit `bit` of a word changes that bit alone.
proof fn lemma_word_bit_update(old_word: u64, new_word: u64, bit: u64, valid: bool)
    by (bit_vector)
    requires
        bit < 64,
        new_word == if valid {
            old_word | (1u64 << bit)
        } else {
            old_word & !(1u64 << bit)
        },
    ensures
        forall|j: u64| j < 64 ==> word_bit(new_word, j) == if j == bit {
            valid
        } else {
            word_bit(old_word, j)
        },
{
}


/// A single column's physical storage for one batch: a fixed-width word per
/// row, an out-of-line string heap for text kinds, and a validity mask.
///
/// Fixed-width values are stored as raw 64-bit words, reinterpreted by the
/// caller according to the column's declared logical type; variable-length
/// string data lives out of line and is written through the explicit assign
/// operations. A vector inside a [`crate::DataChunk`] is storage owned by the
/// chunk; writes past the chunk's current size are permitted up to capacity
/// but are logically meaningless until the size is published.
pub struct Vector {
    column_type: LogicalType,
    data: Vec<u64>,
    strings: Vec<String>,
    validity: ValidityMask,
}

impl Vector {
    /// Storage invariant: one fixed-width word and one string slot per row,
    /// and a well-formed validity mask.
    pub closed spec fn wf(&self) -> bool {
        &&& self.data@.len() == VECTOR_SIZE
        &&& self.strings@.len() == VECTOR_SIZE
        &&& self.validity.wf()
    }

    /// The model of the column's declared logical type.
    pub closed spec fn col_type(&self) -> TypeModel {
        self.column_type@
    }

    /// The fixed-width words, one per row.
    pub closed spec fn data_view(&self) -> Seq<u64> {
        self.data@
    }

    /// The out-of-line string storage, one slot per row.
    pub closed spec fn strings_view(&self) -> Seq<Seq<char>> {
        self.strings@.map_values(|s: String| s@)
    }

    /// The validity mask's row bits.
    pub closed spec fn validity_view(&self) -> Seq<bool> {
        self.validity@
    }

    /// Whether the validity mask has writable storage.
    pub closed spec fn validity_writable(&self) -> bool {
        self.validity.writable()
    }

    /// Fresh chunk-owned storage for a column of the given type: zeroed
    /// words, empty strings, and an absent (all-valid) mask.
    pub(crate) fn new(column_type: LogicalType) -> (r: Vector)
        ensures
            r.wf(),
            r.col_type() == column_type@,
            r.data_view() =~= Seq::new(VECTOR_SIZE as nat, |i: int| 0u64),
            r.strings_view() =~= Seq::new(VECTOR_SIZE as nat, |i: int| Seq::<char>::empty()),
            r.validity_view() =~= Seq::new(VECTOR_SIZE as nat, |i: int| true),
            !r.validity_writable(),
    {
        let data: Vec<u64> = vec![0u64; VECTOR_SIZE];
        let empty = String::new();
        let ghost empty_value = empty;
        let strings: Vec<String> = vec![empty; VECTOR_SIZE];
        let r = Vector { column_type, data, strings, validity: ValidityMask::new_absent() };
        proof {
            assert forall|i: int| 0 <= i < VECTOR_SIZE implies r.strings_view()[i]
                =~= Seq::<char>::empty() by {
                assert(cloned::<String>(empty_value, r.strings@[i]));
            }
        }
        r
    }

    /// Retrieves the column's declared logical type (a fresh deep copy, as
    /// the engine re-derives type handles rather than sharing them).
    pub fn get_column_type(&self) -> (r: LogicalType)
        ensures
            r@ == self.col_type(),
    {
        self.column_type.clone()
    }

    /// The fixed-width data as a read-only slice of raw 64-bit words, one
    /// per row up to the batch capacity.
    pub fn get_data_as_slice(&self) -> (r: &[u64])
        ensures
            r@ == self.data_view(),
    {
        self.data.as_slice()
    }

    /// Reads the fixed-width word of `row`.
    pub fn get_data(&self, row: usize) -> (r: u64)
        requires
            self.wf(),
            row < VECTOR_SIZE,
        ensures
            r == self.data_view()[row as int],
    {
        self.data[row]
    }

    /// Writes the fixed-width word of `row`, leaving every other row and the
    /// rest of the vector unchanged.
    pub fn set_data(&mut self, row: usize, value: u64)
        requires
            old(self).wf(),
            row < VECTOR_SIZE,
        ensures
            final(self).wf(),
            final(self).data_view() =~= old(self).data_view().update(row as int, value),
            final(self).strings_view() == old(self).strings_view(),
            final(self).validity_view() == old(self).validity_view(),
            final(self).validity_writable() == old(self).validity_writable(),
            final(self).col_type() == old(self).col_type(),
    {
        self.data[row] = value;
    }

    /// Assigns the string element of `row`, leaving every other row and the
    /// rest of the vector unchanged.
    pub fn assign_string_element(&mut self, index: usize, value: &str)
        requires
            old(self).wf(),
            index < VECTOR_SIZE,
        ensures
            final(self).wf(),
            final(self).strings_view() =~= old(self).strings_view().update(index as int, value@),
            final(self).data_view() == old(self).data_view(),
            final(self).validity_view() == old(self).validity_view(),
            final(self).validity_writable() == old(self).validity_writable(),
            final(self).col_type() == old(self).col_type(),
    {
        self.strings[index] = value.to_owned();
        proof {
            assert forall|i: int|
                0 <= i < VECTOR_SIZE implies final(self).strings_view()[i] == old(
                self,
            ).strings_view().update(index as int, value@)[i] by {}
        }
    }

    /// Assigns the first `len` characters of `value` as the string element
    /// of `row`, leaving every other row and the rest of the vector
    /// unchanged.
    pub fn assign_string_element_len(&mut self, index: usize, value: &str, len: usize)
        requires
            old(self).wf(),
            index < VECTOR_SIZE,
            len <= value@.len(),
        ensures
            final(self).wf(),
            final(self).strings_view() =~= old(self).strings_view().update(
                index as int,
                value@.subrange(0, len as int),
            ),
            final(self).data_view() == old(self).data_view(),
            final(self).validity_view() == old(self).validity_view(),
            final(self).validity_writable() == old(self).validity_writable(),
            final(self).col_type() == old(self).col_type(),
    {
        let prefix = value.substring_char(0, len);
        self.assign_string_element(index, prefix)
    }

    /// Reads the string element of `row`.
    pub fn get_string(&self, row: usize) -> (r: &String)
        requires
            self.wf(),
            row < VECTOR_SIZE,
        ensures
            r@ == self.strings_view()[row as int],
    {
        &self.strings[row]
    }

    /// Retrieves a read-only view of the validity mask.
    pub fn get_validity(&self) -> (r: &ValidityMask)
        ensures
            r@ == self.validity_view(),
            self.wf() ==> r.wf(),
            r.writable() == self.validity_writable(),
    {
        &self.validity
    }

    /// Retrieves the validity mask for writing. The final state of the
    /// vector carries whatever the caller leaves in the returned mask.
    pub fn get_validity_mut(&mut self) -> (r: &mut ValidityMask)
        requires
            old(self).wf(),
        ensures
            r@ == old(self).validity_view(),
            r.wf(),
            r.writable() == old(self).validity_writable(),
            final(self).validity_view() == final(r)@,
            final(self).validity_writable() == final(r).writable(),
            final(r).wf() ==> final(self).wf(),
            final(self).data_view() == old(self).data_view(),
            final(self).strings_view() == old(self).strings_view(),
            final(self).col_type() == old(self).col_type(),
    {
        &mut self.validity
    }

    /// Allocates the validity mask's storage if it is absent, leaving every
    /// row's validity unchanged. Idempotent; afterwards the mask is always
    /// writable, so rows can be marked invalid.
    pub fn ensure_validity_writable(&mut self)
        requires
            old(self).wf(),
        ensures
            final(self).wf(),
            final(self).validity_writable(),
            final(self).validity_view() =~= old(self).validity_view(),
            final(self).data_view() == old(self).data_view(),
            final(self).strings_view() == old(self).strings_view(),
            final(self).col_type() == old(self).col_type(),
    {
        self.validity.make_writable()
    }

    /// Resets the validity mask to the absent, all-valid state.
    pub(crate) fn reset_validity(&mut self)
        requires
            old(self).wf(),
        ensures
            final(self).wf(),
            !final(self).validity_writable(),
            final(self).validity_view() =~= Seq::new(VECTOR_SIZE as nat, |i: int| true),
            final(self).data_view() == old(self).data_view(),
            final(self).strings_view() == old(self).strings_view(),
            final(self).col_type() == old(self).col_type(),
    {
        self.validity.reset()
    }
}

/// Setting one row's validity changes that row alone: after
/// `set_row_validity(row, valid)` on a writable mask, `row` reads back
/// `valid` and every other row reads exactly what it read before.
pub proof fn lemma_set_row_isolated(mask: Seq<bool>, row: int, valid: bool, other: int)
    requires
        0 <= row < mask.len(),
        0 <= other < mask.len(),
    ensures
        mask.update(row, valid)[row] == valid,
        other != row ==> mask.update(row, valid)[other] == mask[other],
        mask.update(row, valid).update(row, !valid)[row] == !valid,
        other != row ==> mask.update(row, valid).update(row, !valid)[other] == mask[other],
{
}

} // verus!
