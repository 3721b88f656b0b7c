use vstd::prelude::*;
use vstd::arithmetic::div_mod::lemma_fundamental_div_mod;

verus! {

/// This struct represents a two-dimensional window into a one-dimensional
/// slice. This is accomplished through taking either a `columns` parameter,
/// and dividing the size of the slice evenly into rows based on its length,
/// or by taking `rows` and `columns` directly, with a proof obligation in
/// place of a run-time check that the caller provided correct values.
pub struct Window2D<T> {
    raw: T,
    rows: usize,
    columns: usize,
}

impl<'b, T> Window2D<&'b [T]> {
    /// The underlying storage, row by row.
    pub closed spec fn spec_raw(&self) -> Seq<T> {
        self.raw@
    }

    /// The number of rows.
    pub closed spec fn spec_rows(&self) -> usize {
        self.rows
    }

    /// The number of entries in each row.
    pub closed spec fn spec_columns(&self) -> usize {
        self.columns
    }

    /// The window covers exactly `rows * columns` entries.
    pub open spec fn wf(&self) -> bool {
        self.spec_raw().len() == self.spec_rows() * self.spec_columns()
    }

    /// Creates a new `Window2D` with rows divided into `columns` length.
    /// (I.e., `w[rows][columns]`)
    pub fn new_ref(raw: &'b [T], columns: usize) -> (w: Self)
        requires
            columns != 0,
            raw@.len() as int % (columns as int) == 0,
        ensures
            w.wf(),
            w.spec_raw() == raw@,
            w.spec_columns() == columns,
            w.spec_rows() == raw@.len() as int / columns as int,
    {
        let rows = raw.len() / columns;
        proof {
            lemma_fundamental_div_mod(raw@.len() as int, columns as int);
            vstd::arithmetic::mul::lemma_mul_is_commutative(
                columns as int,
                raw@.len() as int / columns as int,
            );
        }
        Self { raw, rows, columns }
    }

    /// Creates a new `Window2D` divided into `rows` number of rows with
    /// `columns` entries each. The caller discharges the length check as a
    /// proof obligation instead of a run-time check, which makes this
    /// constructor an essentially zero-cost abstraction.
    pub fn new_ref_unchecked(raw: &'b [T], rows: usize, columns: usize) -> (w: Self)
        requires
            raw@.len() == rows * columns,
        ensures
            w.wf(),
            w.spec_raw() == raw@,
            w.spec_rows() == rows,
            w.spec_columns() == columns,
    {
        Self { raw, rows, columns }
    }

    /// A shared reference to the entry at `row` and `column`.
    pub fn get(&self, row: usize, column: usize) -> (r: &T)
        requires
            self.wf(),
            row < self.spec_rows(),
            column < self.spec_columns(),
        ensures
            *r == self.spec_raw()[row as int * self.spec_columns() as int + column as int],
    {
        let n = self.raw.len();
        proof {
            crate::multi_dimensional::vec2d::lemma_entry_index_in_range(
                row as int,
                column as int,
                self.spec_rows() as int,
                self.spec_columns() as int,
            );
            assert((row as int * self.spec_columns() as int + column as int) < n as int);
        }
        &self.raw[row * self.columns + column]
    }

    /// The `row`th row, as a slice of `columns` entries.
    pub fn row(&self, row: usize) -> (r: &[T])
        requires
            self.wf(),
            row < self.spec_rows(),
        ensures
            r@ == self.spec_raw().subrange(
                row as int * self.spec_columns() as int,
                (row + 1) as int * self.spec_columns() as int,
            ),
    {
        let n = self.raw.len();
        proof {
            lemma_row_bounds(row as int, self.spec_rows() as int, self.spec_columns() as int);
            assert((row + 1) as int * self.spec_columns() as int <= n as int);
        }
        vstd::slice::slice_subrange(self.raw, row * self.columns, (row + 1) * self.columns)
    }
}

/// The slice of entries of an in-range row lies within the backing storage.
proof fn lemma_row_bounds(row: int, rows: int, columns: int)
    requires
        0 <= row < rows,
        0 <= columns,
    ensures
        0 <= row * columns <= (row + 1) * columns <= rows * columns,
{
    assert(0 <= row * columns <= (row + 1) * columns <= rows * columns) by (nonlinear_arith)
        requires
            0 <= row < rows,
            0 <= columns,
    ;
}

impl<'b, T> Window2D<&'b mut [T]> {
    /// The storage currently seen through the window, row by row.
    pub closed spec fn spec_raw(&self) -> Seq<T> {
        self.raw@
    }

    /// The number of rows.
    pub closed spec fn spec_rows(&self) -> usize {
        self.rows
    }

    /// The number of entries in each row.
    pub closed spec fn spec_columns(&self) -> usize {
        self.columns
    }

    /// The window covers exactly `rows * columns` entries.
    pub open spec fn wf(&self) -> bool {
        self.spec_raw().len() == self.spec_rows() * self.spec_columns()
    }

    /// Creates a new `Window2D` with rows divided into `columns` length.
    /// (I.e., `w[rows][columns]`)
    pub fn new_mut(raw: &'b mut [T], columns: usize) -> (w: Self)
        requires
            columns != 0,
            old(raw)@.len() as int % (columns as int) == 0,
        ensures
            w.wf(),
            w.spec_raw() == old(raw)@,
            w.spec_columns() == columns,
            w.spec_rows() == old(raw)@.len() as int / columns as int,
    {
        let rows = raw.len() / columns;
        proof {
            lemma_fundamental_div_mod(raw@.len() as int, columns as int);
            vstd::arithmetic::mul::lemma_mul_is_commutative(
                columns as int,
                raw@.len() as int / columns as int,
            );
        }
        Self { raw, rows, columns }
    }

    /// Creates a new `Window2D` divided into `rows` number of rows with
    /// `columns` entries each. The caller discharges the length check as a
    /// proof obligation instead of a run-time check, which makes this
    /// constructor an essentially zero-cost abstraction.
    pub fn new_mut_unchecked(raw: &'b mut [T], rows: usize, columns: usize) -> (w: Self)
        requires
            old(raw)@.len() == rows * columns,
        ensures
            w.wf(),
            w.spec_raw() == old(raw)@,
            w.spec_rows() == rows,
            w.spec_columns() == columns,
    {
        Self { raw, rows, columns }
    }

    /// A shared reference to the entry at `row` and `column`.
    pub fn get(&self, row: usize, column: usize) -> (r: &T)
        requires
            self.wf(),
            row < self.spec_rows(),
            column < self.spec_columns(),
        ensures
            *r == self.spec_raw()[row as int * self.spec_columns() as int + column as int],
    {
        let n = self.raw.len();
        proof {
            crate::multi_dimensional::vec2d::lemma_entry_index_in_range(
                row as int,
                column as int,
                self.spec_rows() as int,
                self.spec_columns() as int,
            );
            assert((row as int * self.spec_columns() as int + column as int) < n as int);
        }
        &self.raw[row * self.columns + column]
    }

    /// A mutable reference to the entry at `row` and `column`. Writes land
    /// in the slice the window was built over.
    pub fn get_mut(&mut self, row: usize, column: usize) -> (r: &mut T)
        requires
            old(self).wf(),
            row < old(self).spec_rows(),
            column < old(self).spec_columns(),
        ensures
            *r == old(self).spec_raw()[row as int * old(self).spec_columns() as int
                + column as int],
            final(self).spec_raw() == old(self).spec_raw().update(
                row as int * old(self).spec_columns() as int + column as int,
                *final(r),
            ),
            final(self).spec_rows() == old(self).spec_rows(),
            final(self).spec_columns() == old(self).spec_columns(),
            final(self).wf(),
    {
        let n = self.raw.len();
        proof {
            crate::multi_dimensional::vec2d::lemma_entry_index_in_range(
                row as int,
                column as int,
                self.spec_rows() as int,
                self.spec_columns() as int,
            );
            assert((row as int * self.spec_columns() as int + column as int) < n as int);
        }
        &mut self.raw[row * self.columns + column]
    }

    /// The `row`th row, as a slice of `columns` entries.
    pub fn row(&self, row: usize) -> (r: &[T])
        requires
            self.wf(),
            row < self.spec_rows(),
        ensures
            r@ == self.spec_raw().subrange(
                row as int * self.spec_columns() as int,
                (row + 1) as int * self.spec_columns() as int,
            ),
    {
        let n = self.raw.len();
        proof {
            lemma_row_bounds(row as int, self.spec_rows() as int, self.spec_columns() as int);
            assert((row + 1) as int * self.spec_columns() as int <= n as int);
        }
        vstd::slice::slice_subrange(&*self.raw, row * self.columns, (row + 1) * self.columns)
    }
}

} // verus!
