use vstd::prelude::*;

use crate::matrix::{column_major_grid, Matrix};
use crate::svd::{min_dim, SvdError, SvdMode, SvdOutput};

verus! {

/// Double-precision SVD through MAGMA's dgesvd (experimental).
pub struct OpenClSvd {}

impl OpenClSvd {
    /// The input in the column-major order MAGMA reads.
    pub fn pack_input<T: Copy>(&self, a: &Matrix<T>) -> (packed: Vec<T>)
        ensures
            packed@.len() == a.height() * a.width(),
            column_major_grid(packed@, a.height(), a.width()) == a@,
    {
        a.to_column_major()
    }

    /// The decomposition of a `rows x cols` input from what dgesvd wrote when
    /// asked for all singular vectors: a non-zero `info` is a failure; U
    /// (rows x rows) and Vt (cols x cols) are read column by column from their
    /// buffers, and the min(rows, cols) singular values are kept as a vector.
    pub fn assemble<T: Copy>(
        &self,
        rows: usize,
        cols: usize,
        info: i32,
        singular_values: Vec<T>,
        u: Vec<T>,
        vt: Vec<T>,
    ) -> (res: Result<SvdOutput<T>, SvdError>)
        requires
            u@.len() == rows * rows,
            vt@.len() == cols * cols,
            singular_values@.len() == min_dim(rows as nat, cols as nat),
        ensures
            res is Ok <==> info == 0,
            res matches Err(e) ==> e == SvdError::MagmaFailure(info),
            res matches Ok(out) ==> {
                &&& out.u@ == column_major_grid(u@, rows as nat, rows as nat)
                &&& out.s@ == singular_values@
                &&& out.vt@ == column_major_grid(vt@, cols as nat, cols as nat)
                &&& out.has_shape(rows as nat, cols as nat, SvdMode::Full)
            },
    {
        if info != 0 {
            return Err(SvdError::MagmaFailure(info));
        }
        let u_mat = Matrix::from_column_major_storage(rows, rows, u);
        let vt_mat = Matrix::from_column_major_storage(cols, cols, vt);
        Ok(SvdOutput { u: u_mat, s: singular_values, vt: vt_mat })
    }
}

} // verus!
