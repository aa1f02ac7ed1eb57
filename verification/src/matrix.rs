use vstd::prelude::*;

use crate::svd::SvdError;

verus! {

/// Position of entry (r, c) in the row-major storage of a matrix with `cols` columns.
pub open spec fn row_major_index(r: int, c: int, cols: int) -> int {
    r * cols + c
}

/// Position of entry (r, c) in the column-major storage of a matrix with `rows` rows.
pub open spec fn column_major_index(r: int, c: int, rows: int) -> int {
    c * rows + r
}

/// `g` has `rows` rows of `cols` entries each.
pub open spec fn grid_shaped<T>(g: Seq<Seq<T>>, rows: nat, cols: nat) -> bool {
    &&& g.len() == rows
    &&& forall|r: int| 0 <= r < rows ==> (#[trigger] g[r]).len() == cols
}

/// The `rows x cols` matrix stored row by row in `data`.
pub open spec fn row_major_grid<T>(data: Seq<T>, rows: nat, cols: nat) -> Seq<Seq<T>> {
    Seq::new(rows, |r: int| Seq::new(cols, |c: int| data[row_major_index(r, c, cols as int)]))
}

/// The `rows x cols` matrix stored column by column in `data` (Fortran order).
pub open spec fn column_major_grid<T>(data: Seq<T>, rows: nat, cols: nat) -> Seq<Seq<T>> {
    Seq::new(rows, |r: int| Seq::new(cols, |c: int| data[column_major_index(r, c, rows as int)]))
}

/// The transpose of the `rows x cols` matrix `g`: a `cols x rows` matrix.
pub open spec fn transposed_grid<T>(g: Seq<Seq<T>>, rows: nat, cols: nat) -> Seq<Seq<T>> {
    Seq::new(cols, |r: int| Seq::new(rows, |c: int| g[c][r]))
}

/// 0 <= r < rows and 0 <= c < cols place (r, c) inside a storage of rows * cols.
pub proof fn lemma_index_bounds(r: int, c: int, rows: int, cols: int)
    requires
        0 <= r < rows,
        0 <= c < cols,
    ensures
        0 <= row_major_index(r, c, cols) < rows * cols,
        0 <= column_major_index(r, c, rows) < rows * cols,
        r * cols + cols <= rows * cols,
{
    vstd::arithmetic::mul::lemma_mul_basics(cols);
    vstd::arithmetic::mul::lemma_mul_inequality(r + 1, rows, cols);
    vstd::arithmetic::mul::lemma_mul_is_distributive_add_other_way(cols, r, 1);
    vstd::arithmetic::mul::lemma_mul_inequality(c + 1, cols, rows);
    vstd::arithmetic::mul::lemma_mul_is_distributive_add_other_way(rows, c, 1);
    vstd::arithmetic::mul::lemma_mul_is_commutative(rows, cols);
    vstd::arithmetic::mul::lemma_mul_nonnegative(r, cols);
    vstd::arithmetic::mul::lemma_mul_nonnegative(c, rows);
}

/// (k + 1) * n == k * n + n.
proof fn lemma_next_multiple(k: int, n: int)
    ensures
        (k + 1) * n == k * n + n,
{
    vstd::arithmetic::mul::lemma_mul_is_distributive_add_other_way(n, k, 1);
}

/// Transposing twice gives back the matrix.
pub proof fn lemma_transpose_twice<T>(g: Seq<Seq<T>>, rows: nat, cols: nat)
    requires
        grid_shaped(g, rows, cols),
    ensures
        transposed_grid(transposed_grid(g, rows, cols), cols, rows) == g,
{
    let t = transposed_grid(transposed_grid(g, rows, cols), cols, rows);
    assert forall|r: int| 0 <= r < rows implies #[trigger] t[r] =~= g[r] by {}
    assert(t =~= g);
}

/// Reading storage column by column as a `rows x cols` matrix is the same as
/// reading it row by row as a `cols x rows` matrix and transposing that.
pub proof fn lemma_column_major_is_transposed_row_major<T>(data: Seq<T>, rows: nat, cols: nat)
    ensures
        column_major_grid(data, rows, cols) == transposed_grid(
            row_major_grid(data, cols, rows),
            cols,
            rows,
        ),
{
    let a = column_major_grid(data, rows, cols);
    let b = transposed_grid(row_major_grid(data, cols, rows), cols, rows);
    assert forall|r: int| 0 <= r < rows implies #[trigger] a[r] =~= b[r] by {}
    assert(a =~= b);
}

/// Column-major storage of rows * cols entries is determined by the matrix it holds.
pub proof fn lemma_column_major_storage_unique<T>(d1: Seq<T>, d2: Seq<T>, rows: nat, cols: nat)
    requires
        d1.len() == rows * cols,
        d2.len() == rows * cols,
        column_major_grid(d1, rows, cols) == column_major_grid(d2, rows, cols),
    ensures
        d1 == d2,
{
    assert forall|i: int| 0 <= i < d1.len() implies d1[i] == d2[i] by {
        let r = i % (rows as int);
        let c = i / (rows as int);
        assert(rows > 0) by {
            if rows == 0 {
                vstd::arithmetic::mul::lemma_mul_basics(cols as int);
            }
        }
        vstd::arithmetic::div_mod::lemma_fundamental_div_mod(i, rows as int);
        vstd::arithmetic::div_mod::lemma_mod_bound(i, rows as int);
        vstd::arithmetic::div_mod::lemma_div_pos_is_pos(i, rows as int);
        assert(c < cols) by {
            if c >= cols {
                vstd::arithmetic::mul::lemma_mul_inequality(cols as int, c, rows as int);
                vstd::arithmetic::mul::lemma_mul_is_commutative(rows as int, c);
                vstd::arithmetic::mul::lemma_mul_is_commutative(rows as int, cols as int);
            }
        }
        vstd::arithmetic::mul::lemma_mul_is_commutative(rows as int, c);
        assert(column_major_index(r, c, rows as int) == i);
        let g1 = column_major_grid(d1, rows, cols);
        let g2 = column_major_grid(d2, rows, cols);
        assert(g1[r][c] == d1[i] && g2[r][c] == d2[i]);
    }
    assert(d1 =~= d2);
}

/// Entry (i, j) of U * diag(s) * Vt summed over the first `k` singular values,
/// in a number system given by `plus`, `times` and `zero`.
pub open spec fn product_entry<T>(
    u: Seq<Seq<T>>,
    s: Seq<T>,
    vt: Seq<Seq<T>>,
    i: int,
    j: int,
    k: nat,
    plus: spec_fn(T, T) -> T,
    times: spec_fn(T, T) -> T,
    zero: T,
) -> T
    decreases k,
{
    if k == 0 {
        zero
    } else {
        let t = k - 1;
        plus(product_entry(u, s, vt, i, j, (k - 1) as nat, plus, times, zero), times(times(u[i][t], s[t]), vt[t][j]))
    }
}

/// The `rows x cols` matrix U * diag(s) * Vt.
pub open spec fn reconstruction<T>(
    u: Seq<Seq<T>>,
    s: Seq<T>,
    vt: Seq<Seq<T>>,
    rows: nat,
    cols: nat,
    plus: spec_fn(T, T) -> T,
    times: spec_fn(T, T) -> T,
    zero: T,
) -> Seq<Seq<T>> {
    Seq::new(rows, |i: int| Seq::new(cols, |j: int| product_entry(u, s, vt, i, j, s.len(), plus, times, zero)))
}

/// Each term of the sum is the same for the factors (U', Vt') of a matrix and
/// for the factors (Vt'^T, U'^T) read at the transposed position.
proof fn lemma_product_entry_of_transposed_factors<T>(
    u: Seq<Seq<T>>,
    s: Seq<T>,
    vt: Seq<Seq<T>>,
    m: nat,
    ku: nat,
    kv: nat,
    n: nat,
    i: int,
    j: int,
    k: nat,
    plus: spec_fn(T, T) -> T,
    times: spec_fn(T, T) -> T,
    zero: T,
)
    requires
        forall|a: T, b: T| #[trigger] times(a, b) == times(b, a),
        forall|a: T, b: T, c: T| #[trigger] times(times(a, b), c) == times(a, times(b, c)),
        grid_shaped(u, m, ku),
        grid_shaped(vt, kv, n),
        k <= ku,
        k <= kv,
        0 <= i < n,
        0 <= j < m,
    ensures
        product_entry(transposed_grid(vt, kv, n), s, transposed_grid(u, m, ku), i, j, k, plus, times, zero)
            == product_entry(u, s, vt, j, i, k, plus, times, zero),
    decreases k,
{
    if k > 0 {
        lemma_product_entry_of_transposed_factors(u, s, vt, m, ku, kv, n, i, j, (k - 1) as nat, plus, times, zero);
        let t = k - 1;
        let a = vt[t][i];
        let b = s[t];
        let c = u[j][t];
        assert(transposed_grid(vt, kv, n)[i][t] == a);
        assert(transposed_grid(u, m, ku)[t][j] == c);
        // (a * b) * c == (c * b) * a
        assert(times(times(a, b), c) == times(a, times(b, c)));
        assert(times(a, times(b, c)) == times(times(b, c), a));
        assert(times(b, c) == times(c, b));
        assert(times(times(c, b), a) == times(c, times(b, a)));
        assert(times(b, a) == times(a, b));
    }
}

/// Exact reconstruction carries over through transposition: if U' * diag(s) * Vt'
/// is a `m x n` matrix, then Vt'^T * diag(s) * U'^T is its transpose, in any
/// number system whose multiplication is commutative and associative. This is
/// why the factors of a wide matrix can be taken from the decomposition of its
/// transpose.
pub proof fn lemma_reconstruction_of_transposed_factors<T>(
    u: Seq<Seq<T>>,
    s: Seq<T>,
    vt: Seq<Seq<T>>,
    m: nat,
    ku: nat,
    kv: nat,
    n: nat,
    plus: spec_fn(T, T) -> T,
    times: spec_fn(T, T) -> T,
    zero: T,
)
    requires
        forall|a: T, b: T| #[trigger] times(a, b) == times(b, a),
        forall|a: T, b: T, c: T| #[trigger] times(times(a, b), c) == times(a, times(b, c)),
        grid_shaped(u, m, ku),
        grid_shaped(vt, kv, n),
        s.len() <= ku,
        s.len() <= kv,
    ensures
        reconstruction(transposed_grid(vt, kv, n), s, transposed_grid(u, m, ku), n, m, plus, times, zero)
            == transposed_grid(reconstruction(u, s, vt, m, n, plus, times, zero), m, n),
{
    let lhs = reconstruction(transposed_grid(vt, kv, n), s, transposed_grid(u, m, ku), n, m, plus, times, zero);
    let rhs = transposed_grid(reconstruction(u, s, vt, m, n, plus, times, zero), m, n);
    assert forall|i: int| 0 <= i < n implies #[trigger] lhs[i] =~= rhs[i] by {
        assert forall|j: int| 0 <= j < m implies lhs[i][j] == rhs[i][j] by {
            lemma_product_entry_of_transposed_factors(u, s, vt, m, ku, kv, n, i, j, s.len(), plus, times, zero);
        }
    }
    assert(lhs =~= rhs);
}

/// A dense matrix stored row by row.
#[derive(Debug)]
pub struct Matrix<T> {
    rows: usize,
    cols: usize,
    data: Vec<T>,
}

impl<T> Matrix<T> {
    #[verifier::type_invariant]
    spec fn storage_matches_shape(self) -> bool {
        self.data@.len() == self.rows as int * self.cols as int
    }

    /// Number of rows.
    pub closed spec fn height(self) -> nat {
        self.rows as nat
    }

    /// Number of columns.
    pub closed spec fn width(self) -> nat {
        self.cols as nat
    }

    /// Number of rows.
    pub fn nrows(&self) -> (r: usize)
        ensures
            r == self.height(),
    {
        self.rows
    }

    /// Number of columns.
    pub fn ncols(&self) -> (c: usize)
        ensures
            c == self.width(),
    {
        self.cols
    }

    /// (rows, columns); the entries form a rows x cols grid whose element count fits usize.
    pub fn dims(&self) -> (d: (usize, usize))
        ensures
            d.0 == self.height(),
            d.1 == self.width(),
            grid_shaped(self@, self.height(), self.width()),
            self.height() * self.width() <= usize::MAX,
    {
        proof {
            use_type_invariant(self);
        }
        let _ = self.data.len();
        (self.rows, self.cols)
    }

    /// The entry in row `r`, column `c`.
    pub fn get(&self, r: usize, c: usize) -> (v: &T)
        requires
            r < self.height(),
            c < self.width(),
        ensures
            *v == self@[r as int][c as int],
    {
        proof {
            use_type_invariant(self);
            lemma_index_bounds(r as int, c as int, self.rows as int, self.cols as int);
        }
        let _ = self.data.len();
        &self.data[r * self.cols + c]
    }

    /// Builds a `rows x cols` matrix from its entries in row-major order;
    /// fails unless `data` holds exactly rows * cols entries.
    pub fn from_shape_vec(rows: usize, cols: usize, data: Vec<T>) -> (res: Result<
        Matrix<T>,
        SvdError,
    >)
        ensures
            res is Ok <==> data@.len() == rows * cols,
            res matches Ok(m) ==> {
                &&& m.height() == rows
                &&& m.width() == cols
                &&& m@ == row_major_grid(data@, rows as nat, cols as nat)
            },
            res matches Err(e) ==> e == SvdError::IncompatibleShape,
    {
        let _ = data.len();
        match rows.checked_mul(cols) {
            Some(count) => {
                if count == data.len() {
                    Ok(Matrix { rows, cols, data })
                } else {
                    Err(SvdError::IncompatibleShape)
                }
            },
            None => Err(SvdError::IncompatibleShape),
        }
    }

    /// The entries in row-major order.
    pub fn into_row_major(self) -> (data: Vec<T>)
        ensures
            data@.len() == self.height() * self.width(),
            row_major_grid(data@, self.height(), self.width()) == self@,
    {
        proof {
            use_type_invariant(&self);
        }
        self.data
    }
}

impl<T> View for Matrix<T> {
    type V = Seq<Seq<T>>;

    /// The entries, row by row.
    closed spec fn view(&self) -> Seq<Seq<T>> {
        row_major_grid(self.data@, self.rows as nat, self.cols as nat)
    }
}

impl<T: Copy> Matrix<T> {

    /// Builds a `rows x cols` matrix from exactly rows * cols entries in column-major order.
    pub fn from_column_major_storage(rows: usize, cols: usize, data: Vec<T>) -> (m: Matrix<T>)
        requires
            data@.len() == rows * cols,
        ensures
            m.height() == rows,
            m.width() == cols,
            m@ == column_major_grid(data@, rows as nat, cols as nat),
    {
        let _ = data.len();
        let ghost src = data@;
        let mut out: Vec<T> = Vec::new();
        let mut r: usize = 0;
        while r < rows
            invariant
                r <= rows,
                src == data@,
                src.len() == rows * cols,
                rows * cols <= usize::MAX,
                out@.len() == r * cols,
                forall|i: int, j: int|
                    #![trigger out@[row_major_index(i, j, cols as int)]]
                    0 <= i < r && 0 <= j < cols ==> out@[row_major_index(i, j, cols as int)]
                        == src[column_major_index(i, j, rows as int)],
            decreases rows - r,
        {
            let mut c: usize = 0;
            while c < cols
                invariant
                    r < rows,
                    c <= cols,
                    src == data@,
                    src.len() == rows * cols,
                    rows * cols <= usize::MAX,
                    out@.len() == r * cols + c,
                    forall|i: int, j: int|
                        #![trigger out@[row_major_index(i, j, cols as int)]]
                        (0 <= i < r && 0 <= j < cols) || (i == r && 0 <= j < c)
                            ==> out@[row_major_index(i, j, cols as int)]
                            == src[column_major_index(i, j, rows as int)],
                decreases cols - c,
            {
                proof {
                    lemma_index_bounds(r as int, c as int, rows as int, cols as int);
                }
                let v = data[c * rows + r];
                out.push(v);
                proof {
                    assert forall|i: int, j: int|
                        (0 <= i < r && 0 <= j < cols) || (i == r && 0 <= j < c + 1) implies #[trigger] out@[row_major_index(
                        i,
                        j,
                        cols as int,
                    )] == src[column_major_index(i, j, rows as int)] by {
                        if i == r && j == c {
                        } else {
                            if i < r {
                                lemma_index_bounds(i, j, r as int, cols as int);
                            }
                        }
                    }
                }
                c = c + 1;
            }
            proof {
                lemma_next_multiple(r as int, cols as int);
            }
            r = r + 1;
        }
        let m = Matrix { rows, cols, data: out };
        proof {
            assert forall|i: int|
                0 <= i < rows implies #[trigger] m@[i] =~= column_major_grid(
                src,
                rows as nat,
                cols as nat,
            )[i] by {
                assert forall|j: int| 0 <= j < cols implies m@[i][j] == column_major_grid(
                    src,
                    rows as nat,
                    cols as nat,
                )[i][j] by {
                    assert(out@[row_major_index(i, j, cols as int)] == src[column_major_index(
                        i,
                        j,
                        rows as int,
                    )]);
                }
            }
            assert(m@ =~= column_major_grid(src, rows as nat, cols as nat));
        }
        m
    }

    /// The entries in column-major (Fortran) order: entry (r, c) at c * rows + r.
    pub fn to_column_major(&self) -> (out: Vec<T>)
        ensures
            out@.len() == self.height() * self.width(),
            column_major_grid(out@, self.height(), self.width()) == self@,
    {
        proof {
            use_type_invariant(self);
        }
        let _ = self.data.len();
        let rows = self.rows;
        let cols = self.cols;
        let ghost src = self.data@;
        let mut out: Vec<T> = Vec::new();
        let mut c: usize = 0;
        while c < cols
            invariant
                c <= cols,
                rows == self.rows,
                cols == self.cols,
                src == self.data@,
                src.len() == rows * cols,
                rows * cols <= usize::MAX,
                out@.len() == c * rows,
                forall|i: int, j: int|
                    #![trigger out@[column_major_index(i, j, rows as int)]]
                    0 <= i < rows && 0 <= j < c ==> out@[column_major_index(i, j, rows as int)]
                        == src[row_major_index(i, j, cols as int)],
            decreases cols - c,
        {
            let mut r: usize = 0;
            while r < rows
                invariant
                    c < cols,
                    r <= rows,
                    rows == self.rows,
                    cols == self.cols,
                    src == self.data@,
                    src.len() == rows * cols,
                    rows * cols <= usize::MAX,
                    out@.len() == c * rows + r,
                    forall|i: int, j: int|
                        #![trigger out@[column_major_index(i, j, rows as int)]]
                        (0 <= i < rows && 0 <= j < c) || (j == c && 0 <= i < r)
                            ==> out@[column_major_index(i, j, rows as int)]
                            == src[row_major_index(i, j, cols as int)],
                decreases rows - r,
            {
                proof {
                    lemma_index_bounds(r as int, c as int, rows as int, cols as int);
                }
                let v = self.data[r * cols + c];
                out.push(v);
                proof {
                    assert forall|i: int, j: int|
                        (0 <= i < rows && 0 <= j < c) || (j == c && 0 <= i < r + 1) implies #[trigger] out@[column_major_index(
                        i,
                        j,
                        rows as int,
                    )] == src[row_major_index(i, j, cols as int)] by {
                        if j < c {
                            lemma_index_bounds(i, j, rows as int, c as int);
                            vstd::arithmetic::mul::lemma_mul_is_commutative(rows as int, c as int);
                        }
                    }
                }
                r = r + 1;
            }
            proof {
                lemma_next_multiple(c as int, rows as int);
            }
            c = c + 1;
        }
        proof {
            vstd::arithmetic::mul::lemma_mul_is_commutative(rows as int, cols as int);
            let g = column_major_grid(out@, rows as nat, cols as nat);
            assert forall|i: int| 0 <= i < rows implies #[trigger] g[i] =~= self@[i] by {
                assert forall|j: int| 0 <= j < cols implies g[i][j] == self@[i][j] by {
                    assert(out@[column_major_index(i, j, rows as int)] == src[row_major_index(
                        i,
                        j,
                        cols as int,
                    )]);
                }
            }
            assert(g =~= self@);
        }
        out
    }

    /// The transpose: a `cols x rows` matrix with entry (r, c) equal to entry (c, r) here.
    pub fn transpose(&self) -> (t: Matrix<T>)
        ensures
            t.height() == self.width(),
            t.width() == self.height(),
            t@ == transposed_grid(self@, self.height(), self.width()),
    {
        proof {
            use_type_invariant(self);
        }
        let data = self.to_column_major();
        proof {
            vstd::arithmetic::mul::lemma_mul_is_commutative(self.rows as int, self.cols as int);
        }
        let t = Matrix { rows: self.cols, cols: self.rows, data };
        proof {
            let h = self.rows as nat;
            let w = self.cols as nat;
            let expected = transposed_grid(self@, h, w);
            assert forall|i: int| 0 <= i < w implies #[trigger] t@[i] =~= expected[i] by {
                assert forall|j: int| 0 <= j < h implies t@[i][j] == expected[i][j] by {
                    assert(column_major_grid(data@, h, w)[j][i] == self@[j][i]);
                }
            }
            assert(t@ =~= expected);
        }
        t
    }

    /// Builds a `rows x cols` matrix from its entries in column-major (Fortran) order;
    /// fails unless `data` holds exactly rows * cols entries.
    pub fn from_column_major(rows: usize, cols: usize, data: Vec<T>) -> (res: Result<
        Matrix<T>,
        SvdError,
    >)
        ensures
            res is Ok <==> data@.len() == rows * cols,
            res matches Ok(m) ==> {
                &&& m.height() == rows
                &&& m.width() == cols
                &&& m@ == column_major_grid(data@, rows as nat, cols as nat)
            },
            res matches Err(e) ==> e == SvdError::IncompatibleShape,
    {
        let _ = data.len();
        let count = match rows.checked_mul(cols) {
            Some(count) => count,
            None => {
                return Err(SvdError::IncompatibleShape);
            },
        };
        if count != data.len() {
            return Err(SvdError::IncompatibleShape);
        }
        Ok(Self::from_column_major_storage(rows, cols, data))
    }
}

} // verus!
