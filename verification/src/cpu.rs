use vstd::prelude::*;

use crate::matrix::Matrix;
use crate::svd::{
    check_factor_shapes, check_non_empty, job_for_mode, job_of, SolverJob, SvdError, SvdMode,
    SvdOutput,
};

verus! {

/// Single-precision SVD through LAPACK's divide-and-conquer driver (gesdd).
pub struct CpuF32Svd;

/// Double-precision SVD through LAPACK's divide-and-conquer driver (gesdd).
pub struct CpuF64Svd;

/// Double-precision SVD through LAPACK's gesvd, always with all singular vectors.
pub struct CpuSvd;

/// Admits a `rows x cols` input for LAPACK and chooses the job for `mode`;
/// an empty input is refused.
pub fn lapack_job(rows: usize, cols: usize, mode: SvdMode) -> (res: Result<SolverJob, SvdError>)
    ensures
        res is Ok <==> (rows > 0 && cols > 0),
        res matches Ok(job) ==> job == job_of(mode),
        res matches Err(e) ==> e == SvdError::EmptyInput,
{
    check_non_empty(rows, cols)?;
    Ok(job_for_mode(mode))
}

/// Takes the factors LAPACK handed back for a `rows x cols` input under `mode`:
/// U and Vt must both be there, and all three must have the mode's shapes.
pub fn collect_lapack_factors<T>(
    rows: usize,
    cols: usize,
    mode: SvdMode,
    u: Option<Matrix<T>>,
    s: Vec<T>,
    vt: Option<Matrix<T>>,
) -> (res: Result<SvdOutput<T>, SvdError>)
    ensures
        u is None ==> res == Err::<SvdOutput<T>, SvdError>(SvdError::MissingU),
        u is Some && vt is None ==> res == Err::<SvdOutput<T>, SvdError>(SvdError::MissingVt),
        u is Some && vt is Some ==> {
            let out = SvdOutput { u: u.unwrap(), s, vt: vt.unwrap() };
            if out.has_shape(rows as nat, cols as nat, mode) {
                res == Ok::<SvdOutput<T>, SvdError>(out)
            } else {
                res == Err::<SvdOutput<T>, SvdError>(SvdError::UnexpectedFactorShape)
            }
        },
{
    let u = match u {
        Some(u) => u,
        None => {
            return Err(SvdError::MissingU);
        },
    };
    let vt = match vt {
        Some(vt) => vt,
        None => {
            return Err(SvdError::MissingVt);
        },
    };
    check_factor_shapes(SvdOutput { u, s, vt }, rows, cols, mode)
}

impl CpuF32Svd {
    /// The LAPACK job for a `rows x cols` input, or the reason to refuse it.
    pub fn prepare(&self, rows: usize, cols: usize, mode: SvdMode) -> (res: Result<
        SolverJob,
        SvdError,
    >)
        ensures
            res is Ok <==> (rows > 0 && cols > 0),
            res matches Ok(job) ==> job == job_of(mode),
            res matches Err(e) ==> e == SvdError::EmptyInput,
    {
        lapack_job(rows, cols, mode)
    }

    /// The decomposition of a `rows x cols` input under `mode`, built from what LAPACK handed back.
    pub fn finish<T>(
        &self,
        rows: usize,
        cols: usize,
        mode: SvdMode,
        u: Option<Matrix<T>>,
        s: Vec<T>,
        vt: Option<Matrix<T>>,
    ) -> (res: Result<SvdOutput<T>, SvdError>)
        ensures
            u is None ==> res == Err::<SvdOutput<T>, SvdError>(SvdError::MissingU),
            u is Some && vt is None ==> res == Err::<SvdOutput<T>, SvdError>(SvdError::MissingVt),
            u is Some && vt is Some ==> {
                let out = SvdOutput { u: u.unwrap(), s, vt: vt.unwrap() };
                if out.has_shape(rows as nat, cols as nat, mode) {
                    res == Ok::<SvdOutput<T>, SvdError>(out)
                } else {
                    res == Err::<SvdOutput<T>, SvdError>(SvdError::UnexpectedFactorShape)
                }
            },
    {
        collect_lapack_factors(rows, cols, mode, u, s, vt)
    }
}

impl CpuF64Svd {
    /// The LAPACK job for a `rows x cols` input, or the reason to refuse it.
    pub fn prepare(&self, rows: usize, cols: usize, mode: SvdMode) -> (res: Result<
        SolverJob,
        SvdError,
    >)
        ensures
            res is Ok <==> (rows > 0 && cols > 0),
            res matches Ok(job) ==> job == job_of(mode),
            res matches Err(e) ==> e == SvdError::EmptyInput,
    {
        lapack_job(rows, cols, mode)
    }

    /// The decomposition of a `rows x cols` input under `mode`, built from what LAPACK handed back.
    pub fn finish<T>(
        &self,
        rows: usize,
        cols: usize,
        mode: SvdMode,
        u: Option<Matrix<T>>,
        s: Vec<T>,
        vt: Option<Matrix<T>>,
    ) -> (res: Result<SvdOutput<T>, SvdError>)
        ensures
            u is None ==> res == Err::<SvdOutput<T>, SvdError>(SvdError::MissingU),
            u is Some && vt is None ==> res == Err::<SvdOutput<T>, SvdError>(SvdError::MissingVt),
            u is Some && vt is Some ==> {
                let out = SvdOutput { u: u.unwrap(), s, vt: vt.unwrap() };
                if out.has_shape(rows as nat, cols as nat, mode) {
                    res == Ok::<SvdOutput<T>, SvdError>(out)
                } else {
                    res == Err::<SvdOutput<T>, SvdError>(SvdError::UnexpectedFactorShape)
                }
            },
    {
        collect_lapack_factors(rows, cols, mode, u, s, vt)
    }
}

impl CpuSvd {
    /// The decomposition of a `rows x cols` input from what gesvd handed back
    /// when asked for all singular vectors: U (rows x rows), the min(rows, cols)
    /// singular values as a vector, and Vt (cols x cols).
    pub fn finish<T>(
        &self,
        rows: usize,
        cols: usize,
        u: Option<Matrix<T>>,
        s: Vec<T>,
        vt: Option<Matrix<T>>,
    ) -> (res: Result<SvdOutput<T>, SvdError>)
        ensures
            u is None ==> res == Err::<SvdOutput<T>, SvdError>(SvdError::MissingU),
            u is Some && vt is None ==> res == Err::<SvdOutput<T>, SvdError>(SvdError::MissingVt),
            u is Some && vt is Some ==> {
                let out = SvdOutput { u: u.unwrap(), s, vt: vt.unwrap() };
                if out.has_shape(rows as nat, cols as nat, SvdMode::Full) {
                    res == Ok::<SvdOutput<T>, SvdError>(out)
                } else {
                    res == Err::<SvdOutput<T>, SvdError>(SvdError::UnexpectedFactorShape)
                }
            },
    {
        collect_lapack_factors(rows, cols, SvdMode::Full, u, s, vt)
    }
}

} // verus!
