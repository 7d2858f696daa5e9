use vstd::prelude::*;

verus! {

/// A rectangular table of integers, stored as an `ndarray::Array2<i64>`.
///
/// Verus does not accept a declaration of ndarray's array type, so the array
/// sits in a private field and is reached only through the wrappers below.
#[verifier::external_body]
pub struct NumericTable {
    cells: ndarray::Array2<i64>,
}

/// The rows of a table, each row holding its cells from the first column on.
pub uninterp spec fn table_rows(t: NumericTable) -> Seq<Seq<i64>>;

/// The number of columns of a table.
pub uninterp spec fn table_column_count(t: NumericTable) -> nat;

/// The rows that a row-major list of `n_rows * n_columns` cells describes.
pub open spec fn row_major(n_rows: nat, n_columns: nat, cells: Seq<i64>) -> Seq<Seq<i64>> {
    Seq::new(n_rows, |i: int| cells.subrange(i * n_columns, i * n_columns + n_columns))
}

/// Every row of `rows` holds `n_columns` cells.
pub open spec fn is_rectangular(rows: Seq<Seq<i64>>, n_columns: nat) -> bool {
    forall|i: int| 0 <= i < rows.len() ==> #[trigger] rows[i].len() == n_columns
}

impl NumericTable {
    /// Relies on ndarray's `Array2::from_shape_vec` with a `(rows, columns)`
    /// shape: it succeeds exactly when the shape holds as many cells as the
    /// vector and neither the shape nor its size overflows `isize`, and it lays
    /// the vector out in row-major order.
    #[verifier::external_body]
    pub fn from_row_major(n_rows: usize, n_columns: usize, cells: Vec<i64>) -> (r: Option<
        NumericTable,
    >)
        ensures
            r is Some ==> n_rows * n_columns == cells@.len(),
            (n_rows * n_columns == cells@.len() && n_rows <= isize::MAX && n_columns
                <= isize::MAX && n_rows * n_columns <= isize::MAX) ==> r is Some,
            r matches Some(t) ==> table_rows(t) == row_major(
                n_rows as nat,
                n_columns as nat,
                cells@,
            ),
            r matches Some(t) ==> table_column_count(t) == n_columns,
    {
        ndarray::Array2::from_shape_vec((n_rows, n_columns), cells).ok().map(
            |a| NumericTable { cells: a },
        )
    }

    /// Relies on ndarray's `ArrayBase::nrows`: the length of the first axis.
    #[verifier::external_body]
    pub fn n_rows(&self) -> (r: usize)
        ensures
            r == table_rows(*self).len(),
    {
        self.cells.nrows()
    }

    /// Relies on ndarray's `ArrayBase::ncols`: the length of the second axis,
    /// which every row has.
    #[verifier::external_body]
    pub fn n_columns(&self) -> (r: usize)
        ensures
            r == table_column_count(*self),
            is_rectangular(table_rows(*self), r as nat),
    {
        self.cells.ncols()
    }

    /// Relies on ndarray's `ArrayBase::get` with a `(row, column)` index: `None`
    /// exactly for an index outside the shape, else the cell there.
    #[verifier::external_body]
    pub fn cell(&self, row: usize, column: usize) -> (r: Option<i64>)
        ensures
            r is Some <==> (row < table_rows(*self).len() && column < table_rows(
                *self,
            )[row as int].len()),
            r matches Some(v) ==> v == table_rows(*self)[row as int][column as int],
    {
        self.cells.get((row, column)).copied()
    }
}

} // verus!
