use vstd::prelude::*;

use crate::matrix::{column_major_grid, Matrix};
use crate::svd::{
    check_factor_shapes, check_non_empty, min_dim, u_shape, vt_shape, Factor, SvdError, SvdMode,
    SvdOutput,
};

verus! {

/// Single-precision SVD through Julia's LinearAlgebra.
pub struct JuliaF32Svd;

/// Double-precision SVD through Julia's LinearAlgebra.
pub struct JuliaF64Svd;

/// What Julia is handed for one decomposition: the input column by column, and
/// whether the full factors are asked for (`full=true`) or the thin ones.
#[derive(Debug, Clone, PartialEq, Eq)]
pub struct JuliaRequest<T> {
    pub data: Vec<T>,
    pub full: bool,
}

/// The request for Julia: the input as Julia stores matrices (column by column)
/// and the factor size that `mode` asks for. An empty input is refused.
pub fn julia_input<T: Copy>(a: &Matrix<T>, mode: SvdMode) -> (res: Result<JuliaRequest<T>, SvdError>)
    ensures
        res is Ok <==> (a.height() > 0 && a.width() > 0),
        res matches Ok(req) ==> {
            &&& req.data@.len() == a.height() * a.width()
            &&& column_major_grid(req.data@, a.height(), a.width()) == a@
            &&& req.full == (mode == SvdMode::Full)
        },
        res matches Err(e) ==> e == SvdError::EmptyInput,
{
    check_non_empty(a.nrows(), a.ncols())?;
    let full = match mode {
        SvdMode::Full => true,
        SvdMode::Reduced => false,
    };
    Ok(JuliaRequest { data: a.to_column_major(), full })
}

/// Why the factors handed back by Julia for a `rows x cols` input under `mode`
/// cannot be taken, checked in this order; `None` when they can.
pub open spec fn julia_output_failure(
    rows: nat,
    cols: nat,
    mode: SvdMode,
    u_rows: Option<usize>,
    u_cols: Option<usize>,
    u_len: nat,
    s_len: nat,
    vt_rows: Option<usize>,
    vt_cols: Option<usize>,
    vt_len: nat,
) -> Option<SvdError> {
    if u_rows is None || u_cols is None {
        Some(SvdError::NotTwoDimensional(Factor::U))
    } else if vt_rows is None || vt_cols is None {
        Some(SvdError::NotTwoDimensional(Factor::Vt))
    } else if u_len != u_rows.unwrap() * u_cols.unwrap() {
        Some(SvdError::IncompatibleShape)
    } else if vt_len != vt_rows.unwrap() * vt_cols.unwrap() {
        Some(SvdError::IncompatibleShape)
    } else if (u_rows.unwrap() as nat, u_cols.unwrap() as nat) != u_shape(rows, cols, mode)
        || s_len != min_dim(rows, cols)
        || (vt_rows.unwrap() as nat, vt_cols.unwrap() as nat) != vt_shape(rows, cols, mode) {
        Some(SvdError::UnexpectedFactorShape)
    } else {
        None
    }
}

/// Julia reported both factors as two-dimensional, each with as many elements
/// as its extents say, and U (rows x rows in full mode, rows x min(rows, cols)
/// in reduced mode), S (min(rows, cols) values) and Vt (cols x cols in full
/// mode, min(rows, cols) x cols in reduced mode) have the shapes the mode asks for.
pub open spec fn julia_factors_fit(
    rows: nat,
    cols: nat,
    mode: SvdMode,
    u_rows: Option<usize>,
    u_cols: Option<usize>,
    u_len: nat,
    s_len: nat,
    vt_rows: Option<usize>,
    vt_cols: Option<usize>,
    vt_len: nat,
) -> bool {
    let k = if rows <= cols { rows } else { cols };
    &&& u_rows is Some
    &&& u_cols is Some
    &&& vt_rows is Some
    &&& vt_cols is Some
    &&& u_len == u_rows.unwrap() * u_cols.unwrap()
    &&& vt_len == vt_rows.unwrap() * vt_cols.unwrap()
    &&& u_rows.unwrap() == rows
    &&& u_cols.unwrap() == (if mode == SvdMode::Full { rows } else { k })
    &&& s_len == k
    &&& vt_rows.unwrap() == (if mode == SvdMode::Full { cols } else { k })
    &&& vt_cols.unwrap() == cols
}

/// Factors that Julia handed back are refused exactly when they do not fit:
/// two-dimensional factors whose data match their extents and whose shapes are
/// the ones the mode asks for are always admitted, whatever the mode and
/// whether the input is tall, square or wide.
pub proof fn lemma_julia_output_admitted(
    rows: nat,
    cols: nat,
    mode: SvdMode,
    u_rows: Option<usize>,
    u_cols: Option<usize>,
    u_len: nat,
    s_len: nat,
    vt_rows: Option<usize>,
    vt_cols: Option<usize>,
    vt_len: nat,
)
    ensures
        julia_output_failure(rows, cols, mode, u_rows, u_cols, u_len, s_len, vt_rows, vt_cols, vt_len)
            is None <==> julia_factors_fit(
            rows,
            cols,
            mode,
            u_rows,
            u_cols,
            u_len,
            s_len,
            vt_rows,
            vt_cols,
            vt_len,
        ),
{
}

/// Reads the factors Julia handed back for a `rows x cols` input under `mode`:
/// U and Vt in column-major order with the extents Julia reports for their two
/// axes (`None` where an axis is missing), and the singular values as they are.
/// The factors are taken only with the shapes that `mode` asks for.
pub fn collect_julia_output<T: Copy>(
    rows: usize,
    cols: usize,
    mode: SvdMode,
    u_rows: Option<usize>,
    u_cols: Option<usize>,
    u_data: Vec<T>,
    s: Vec<T>,
    vt_rows: Option<usize>,
    vt_cols: Option<usize>,
    vt_data: Vec<T>,
) -> (res: Result<SvdOutput<T>, SvdError>)
    ensures
        match julia_output_failure(
            rows as nat,
            cols as nat,
            mode,
            u_rows,
            u_cols,
            u_data@.len(),
            s@.len(),
            vt_rows,
            vt_cols,
            vt_data@.len(),
        ) {
            Some(e) => res == Err::<SvdOutput<T>, SvdError>(e),
            None => res matches Ok(out) && {
                &&& out.u.height() == u_rows.unwrap()
                &&& out.u.width() == u_cols.unwrap()
                &&& out.u@ == column_major_grid(
                    u_data@,
                    u_rows.unwrap() as nat,
                    u_cols.unwrap() as nat,
                )
                &&& out.s == s
                &&& out.vt.height() == vt_rows.unwrap()
                &&& out.vt.width() == vt_cols.unwrap()
                &&& out.vt@ == column_major_grid(
                    vt_data@,
                    vt_rows.unwrap() as nat,
                    vt_cols.unwrap() as nat,
                )
                &&& out.has_shape(rows as nat, cols as nat, mode)
            },
        },
        julia_factors_fit(
            rows as nat,
            cols as nat,
            mode,
            u_rows,
            u_cols,
            u_data@.len(),
            s@.len(),
            vt_rows,
            vt_cols,
            vt_data@.len(),
        ) ==> res is Ok,
        res matches Ok(out) ==> out.has_shape(rows as nat, cols as nat, mode) && out.s == s,
{
    proof {
        lemma_julia_output_admitted(
            rows as nat,
            cols as nat,
            mode,
            u_rows,
            u_cols,
            u_data@.len(),
            s@.len(),
            vt_rows,
            vt_cols,
            vt_data@.len(),
        );
    }
    let (ur, uc) = match (u_rows, u_cols) {
        (Some(r), Some(c)) => (r, c),
        _ => {
            return Err(SvdError::NotTwoDimensional(Factor::U));
        },
    };
    let (vr, vc) = match (vt_rows, vt_cols) {
        (Some(r), Some(c)) => (r, c),
        _ => {
            return Err(SvdError::NotTwoDimensional(Factor::Vt));
        },
    };
    let u = Matrix::from_column_major(ur, uc, u_data)?;
    let vt = Matrix::from_column_major(vr, vc, vt_data)?;
    check_factor_shapes(SvdOutput { u, s, vt }, rows, cols, mode)
}

impl JuliaF32Svd {
    /// The request for Julia under `mode`, or the reason to refuse the matrix.
    pub fn prepare_input<T: Copy>(&self, a: &Matrix<T>, mode: SvdMode) -> (res: Result<
        JuliaRequest<T>,
        SvdError,
    >)
        ensures
            res is Ok <==> (a.height() > 0 && a.width() > 0),
            res matches Ok(req) ==> {
                &&& req.data@.len() == a.height() * a.width()
                &&& column_major_grid(req.data@, a.height(), a.width()) == a@
                &&& req.full == (mode == SvdMode::Full)
            },
            res matches Err(e) ==> e == SvdError::EmptyInput,
    {
        julia_input(a, mode)
    }
}

impl JuliaF64Svd {
    /// The request for Julia under `mode`, or the reason to refuse the matrix.
    pub fn prepare_input<T: Copy>(&self, a: &Matrix<T>, mode: SvdMode) -> (res: Result<
        JuliaRequest<T>,
        SvdError,
    >)
        ensures
            res is Ok <==> (a.height() > 0 && a.width() > 0),
            res matches Ok(req) ==> {
                &&& req.data@.len() == a.height() * a.width()
                &&& column_major_grid(req.data@, a.height(), a.width()) == a@
                &&& req.full == (mode == SvdMode::Full)
            },
            res matches Err(e) ==> e == SvdError::EmptyInput,
    {
        julia_input(a, mode)
    }
}

} // verus!
