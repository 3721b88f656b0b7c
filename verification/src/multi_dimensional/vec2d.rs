use vstd::prelude::*;
use vstd::arithmetic::div_mod::{
    lemma_fundamental_div_mod, lemma_fundamental_div_mod_converse,
    lemma_mod_division_less_than_divisor, lemma_multiply_divide_lt,
};

verus! {

/// This struct represents a two-dimensional window into a one-dimensional
/// [`Vec`]. This is accomplished through taking either a `columns` parameter,
/// and dividing the size of the `Vec` evenly into rows based on its length,
/// or by taking `rows` and `columns` directly, with a proof obligation in
/// place of a run-time check that the caller provided correct values.
pub struct Vec2D<T> {
    raw: Vec<T>,
    rows: usize,
    columns: usize,
}

impl<T> Vec2D<T> {
    /// The underlying storage, row by row.
    pub closed spec fn spec_raw(&self) -> Seq<T> {
        self.raw@
    }

    /// The number of rows.
    pub closed spec fn spec_rows(&self) -> usize {
        self.rows
    }

    /// The number of entries in each row.
    pub closed spec fn spec_columns(&self) -> usize {
        self.columns
    }

    /// The storage holds exactly `rows * columns` entries.
    pub open spec fn wf(&self) -> bool {
        self.spec_raw().len() == self.spec_rows() * self.spec_columns()
    }

    /// Creates a new `Vec2D` with rows divided into `columns` length (i.e.,
    /// `w[rows][columns]`) placing the result of `func` in each respective
    /// entry.
    pub fn new_with<F>(rows: usize, columns: usize, func: F) -> (w: Self) where
        F: Fn(usize, usize) -> T,

        requires
            rows * columns <= usize::MAX,
            forall|r: usize, c: usize| r < rows && c < columns ==> call_requires(func, (r, c)),
        ensures
            w.wf(),
            w.spec_rows() == rows,
            w.spec_columns() == columns,
            forall|r: usize, c: usize|
                r < rows && c < columns ==> call_ensures(
                    func,
                    (r, c),
                    #[trigger] w.spec_raw()[r as int * columns as int + c as int],
                ),
    {
        let total = rows * columns;
        let mut raw: Vec<T> = Vec::new();
        let mut count: usize = 0;
        while count < total
            invariant
                total == rows * columns,
                count <= total,
                raw@.len() == count,
                forall|r: usize, c: usize| r < rows && c < columns ==> call_requires(func, (r, c)),
                forall|i: int|
                    0 <= i < count ==> call_ensures(
                        func,
                        ((i / columns as int) as usize, (i % columns as int) as usize),
                        #[trigger] raw@[i],
                    ),
            decreases total - count,
        {
            proof {
                assert(columns > 0) by (nonlinear_arith)
                    requires
                        0 <= count < rows * columns,
                ;
                lemma_mod_division_less_than_divisor(count as int, columns as int);
                assert(count < columns * rows) by (nonlinear_arith)
                    requires
                        count < rows * columns,
                ;
                lemma_multiply_divide_lt(count as int, columns as int, rows as int);
            }
            let row = count / columns;
            let col = count % columns;
            raw.push(func(row, col));
            count += 1;
        }
        proof {
            assert forall|r: usize, c: usize| r < rows && c < columns implies call_ensures(
                func,
                (r, c),
                #[trigger] raw@[r as int * columns as int + c as int],
            ) by {
                let i = r as int * columns as int + c as int;
                assert(0 <= i < rows as int * columns as int) by (nonlinear_arith)
                    requires
                        r < rows,
                        c < columns,
                        i == r as int * columns as int + c as int,
                ;
                lemma_fundamental_div_mod_converse(i, columns as int, r as int, c as int);
            }
        }
        Self { raw, rows, columns }
    }

    /// Creates a new `Vec2D` with rows divided into `columns` length. (I.e.,
    /// `w[rows][columns]`)
    pub fn from(raw: Vec<T>, columns: usize) -> (w: Self)
        requires
            columns != 0,
            raw@.len() as int % (columns as int) == 0,
        ensures
            w.wf(),
            w.spec_raw() == raw@,
            w.spec_columns() == columns,
            w.spec_rows() == raw@.len() as int / columns as int,
    {
        let rows = raw.len() / columns;
        proof {
            lemma_fundamental_div_mod(raw@.len() as int, columns as int);
            assert(raw@.len() as int == columns as int * (raw@.len() as int / columns as int));
            assert(rows as int == raw@.len() as int / columns as int);
            vstd::arithmetic::mul::lemma_mul_is_commutative(columns as int, rows as int);
        }
        Self { raw, rows, columns }
    }

    /// Creates a new `Vec2D` divided into `rows` number of rows with
    /// `columns` entries each. The caller discharges the length check as a
    /// proof obligation instead of a run-time check, which makes this
    /// constructor an essentially zero-cost abstraction.
    pub fn from_unchecked(raw: Vec<T>, rows: usize, columns: usize) -> (w: Self)
        requires
            raw@.len() == rows * columns,
        ensures
            w.wf(),
            w.spec_raw() == raw@,
            w.spec_rows() == rows,
            w.spec_columns() == columns,
    {
        Self { raw, rows, columns }
    }

    /// Unwraps this `Vec2D<T>`, returning the underlying [`Vec`].
    pub fn into_inner(self) -> (raw: Vec<T>)
        ensures
            raw@ == self.spec_raw(),
    {
        self.raw
    }

    /// A shared reference to the entry at `row` and `column`.
    pub fn get(&self, row: usize, column: usize) -> (r: &T)
        requires
            self.wf(),
            row < self.spec_rows(),
            column < self.spec_columns(),
        ensures
            *r == self.spec_raw()[row as int * self.spec_columns() as int + column as int],
    {
        let n = self.raw.len();
        proof {
            lemma_entry_index_in_range(
                row as int,
                column as int,
                self.spec_rows() as int,
                self.spec_columns() as int,
            );
            assert((row as int * self.spec_columns() as int + column as int) < n as int);
        }
        &self.raw[row * self.columns + column]
    }

    /// A mutable reference to the entry at `row` and `column`.
    pub fn get_mut(&mut self, row: usize, column: usize) -> (r: &mut T)
        requires
            old(self).wf(),
            row < old(self).spec_rows(),
            column < old(self).spec_columns(),
        ensures
            *r == old(self).spec_raw()[row as int * old(self).spec_columns() as int + column as int],
            final(self).spec_raw() == old(self).spec_raw().update(
                row as int * old(self).spec_columns() as int + column as int,
                *final(r),
            ),
            final(self).spec_rows() == old(self).spec_rows(),
            final(self).spec_columns() == old(self).spec_columns(),
            final(self).wf(),
    {
        let n = self.raw.len();
        proof {
            lemma_entry_index_in_range(
                row as int,
                column as int,
                self.spec_rows() as int,
                self.spec_columns() as int,
            );
            assert((row as int * self.spec_columns() as int + column as int) < n as int);
        }
        &mut self.raw[row * self.columns + column]
    }
}

impl<T: Default> Vec2D<T> {
    /// Creates a new `Vec2D` with rows divided into `columns` length (i.e.,
    /// `w[rows][columns]`) with `T::default()` in every entry.
    pub fn new(rows: usize, columns: usize) -> (w: Self)
        requires
            rows * columns <= usize::MAX,
        ensures
            w.wf(),
            w.spec_rows() == rows,
            w.spec_columns() == columns,
            forall|r: usize, c: usize|
                r < rows && c < columns ==> call_ensures(
                    T::default,
                    (),
                    #[trigger] w.spec_raw()[r as int * columns as int + c as int],
                ),
    {
        Self::new_with(rows, columns, default_entry)
    }
}

/// One default value, whatever the entry's position.
fn default_entry<T: Default>(_row: usize, _column: usize) -> (t: T)
    ensures
        call_ensures(T::default, (), t),
{
    T::default()
}

/// An in-range row and column name an in-range entry of the backing storage.
pub proof fn lemma_entry_index_in_range(row: int, column: int, rows: int, columns: int)
    requires
        0 <= row < rows,
        0 <= column < columns,
    ensures
        0 <= row * columns + column < rows * columns,
{
    assert(0 <= row * columns + column < rows * columns) by (nonlinear_arith)
        requires
            0 <= row < rows,
            0 <= column < columns,
    ;
}

} // verus!
