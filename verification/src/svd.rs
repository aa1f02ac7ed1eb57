use vstd::prelude::*;

use crate::matrix::Matrix;
use crate::text::{decimal, push_decimal, push_signed_decimal, signed_decimal};
use vstd::string::StringExecFns;

verus! {

/// Numerical backend used for the decomposition.
#[derive(Debug, Clone, Copy, PartialEq, Eq, Structural, Hash)]
pub enum Backend {
    Cpu,
    Cuda,
    Julia,
}

/// Controls the shape of the singular-vector matrices returned by an SVD.
#[derive(Debug, Clone, Copy, PartialEq, Eq, Structural, Hash)]
pub enum SvdMode {
    /// Return full singular-vector matrices: U is m x m and Vt is n x n.
    Full,
    /// Return reduced singular-vector matrices with k = min(m, n): U is m x k and Vt is k x n.
    Reduced,
}

/// Which singular vectors a LAPACK-style solver is asked to compute.
#[derive(Debug, Clone, Copy, PartialEq, Eq, Structural, Hash)]
pub enum SolverJob {
    /// All columns of U and all rows of Vt (`'A'`).
    All,
    /// The leading min(m, n) columns of U and rows of Vt (`'S'`).
    Leading,
}

/// A buffer that a backend sizes, allocates or fills.
#[derive(Debug, Clone, Copy, PartialEq, Eq, Structural, Hash)]
pub enum Buffer {
    Input,
    SingularValues,
    LeftVectors,
    RightVectors,
    Workspace,
    DeviceInfo,
}

/// The direction of a copy between host and device memory.
#[derive(Debug, Clone, Copy, PartialEq, Eq, Structural, Hash)]
pub enum CopyDirection {
    HostToDevice,
    DeviceToHost,
}

/// A factor matrix handed back by a solver.
#[derive(Debug, Clone, Copy, PartialEq, Eq, Structural, Hash)]
pub enum Factor {
    U,
    Vt,
}

/// Everything that can make a decomposition fail before, around or after
/// the numerical solver.
#[derive(Debug, Clone, PartialEq, Eq)]
pub enum SvdError {
    /// The input matrix has no rows or no columns.
    EmptyInput,
    /// A data buffer does not hold rows * cols elements.
    IncompatibleShape,
    /// The CPU solver did not hand back U.
    MissingU,
    /// The CPU solver did not hand back Vt.
    MissingVt,
    /// The solver row count does not fit the solver's 32-bit integer.
    TooManyRows,
    /// The solver column count does not fit the solver's 32-bit integer.
    TooManyColumns,
    /// The element count of a buffer does not fit in usize.
    ElementCountOverflow(Buffer),
    /// The byte size of a buffer does not fit in usize.
    ByteSizeOverflow(Buffer),
    /// A device buffer of zero bytes was requested.
    ZeroSizedAllocation(Buffer),
    /// A copy is larger than the device buffer it reads or writes.
    TransferTooLarge { buffer: Buffer, direction: CopyDirection, requested: usize, capacity: usize },
    /// The solver reported a workspace size that is not positive.
    InvalidWorkspaceSize(i32),
    /// The solver rejected the argument at this (1-based) position.
    ArgumentRejected(u32),
    /// The solver did not converge; this many superdiagonals did not converge.
    NotConverged(i32),
    /// A driver call returned a status other than success; `status_name` is
    /// the name the driver gives that status.
    DriverFailure { operation: String, status: u32, status_name: String },
    /// A solver library call returned a status other than success;
    /// `status_name` is the name the library gives that status.
    SolverFailure { operation: String, status: u32, status_name: String },
    /// A factor handed back by the Julia runtime is not two-dimensional.
    NotTwoDimensional(Factor),
    /// The MAGMA solver reported a non-zero info value.
    MagmaFailure(i32),
    /// A solver handed back factors whose shapes are not the ones the mode asks for.
    UnexpectedFactorShape,
    /// The requested backend is not part of this build.
    BackendNotCompiled,
}

/// The smaller of two dimensions: the number of singular values.
pub open spec fn min_dim(a: nat, b: nat) -> nat {
    if a <= b { a } else { b }
}

/// The larger of two dimensions.
pub open spec fn max_dim(a: nat, b: nat) -> nat {
    if a <= b { b } else { a }
}

/// Shape (rows, columns) of U for an `rows x cols` input under `mode`.
pub open spec fn u_shape(rows: nat, cols: nat, mode: SvdMode) -> (nat, nat) {
    match mode {
        SvdMode::Full => (rows, rows),
        SvdMode::Reduced => (rows, min_dim(rows, cols)),
    }
}

/// Shape (rows, columns) of Vt for an `rows x cols` input under `mode`.
pub open spec fn vt_shape(rows: nat, cols: nat, mode: SvdMode) -> (nat, nat) {
    match mode {
        SvdMode::Full => (cols, cols),
        SvdMode::Reduced => (min_dim(rows, cols), cols),
    }
}

/// The solver job that a mode asks for.
pub open spec fn job_of(mode: SvdMode) -> SolverJob {
    match mode {
        SvdMode::Full => SolverJob::All,
        SvdMode::Reduced => SolverJob::Leading,
    }
}

/// Number of singular values of a `rows x cols` matrix: min(rows, cols).
fn min_usize(a: usize, b: usize) -> (m: usize)
    ensures
        m == min_dim(a as nat, b as nat),
{
    if a <= b {
        a
    } else {
        b
    }
}

/// Admits factors handed back by a solver only when they have the shapes that
/// `mode` asks for of a `rows x cols` input: U is rows x rows (full) or
/// rows x min(rows, cols) (reduced), S holds min(rows, cols) values, Vt is
/// cols x cols (full) or min(rows, cols) x cols (reduced).
pub fn check_factor_shapes<T>(out: SvdOutput<T>, rows: usize, cols: usize, mode: SvdMode) -> (res:
    Result<SvdOutput<T>, SvdError>)
    ensures
        res is Ok <==> out.has_shape(rows as nat, cols as nat, mode),
        res matches Ok(o) ==> o == out,
        res matches Err(e) ==> e == SvdError::UnexpectedFactorShape,
{
    let k = min_usize(rows, cols);
    let (u_cols, vt_rows) = match mode {
        SvdMode::Full => (rows, cols),
        SvdMode::Reduced => (k, k),
    };
    if out.u.nrows() == rows && out.u.ncols() == u_cols && out.s.len() == k && out.vt.nrows()
        == vt_rows && out.vt.ncols() == cols {
        Ok(out)
    } else {
        Err(SvdError::UnexpectedFactorShape)
    }
}

/// Maps an output mode to the solver job that produces it.
pub fn job_for_mode(mode: SvdMode) -> (job: SolverJob)
    ensures
        job == job_of(mode),
{
    match mode {
        SvdMode::Full => SolverJob::All,
        SvdMode::Reduced => SolverJob::Leading,
    }
}

impl SolverJob {
    /// The LAPACK job character: `'A'` for all vectors, `'S'` for the leading ones.
    pub fn lapack_code(&self) -> (code: u8)
        ensures
            *self == SolverJob::All ==> code == 65,
            *self == SolverJob::Leading ==> code == 83,
    {
        match self {
            SolverJob::All => 65u8,
            SolverJob::Leading => 83u8,
        }
    }
}

/// Rejects a matrix without rows or without columns; every backend does so
/// before it hands the matrix to a solver.
pub fn check_non_empty(rows: usize, cols: usize) -> (res: Result<(), SvdError>)
    ensures
        res is Ok <==> (rows > 0 && cols > 0),
        res matches Err(e) ==> e == SvdError::EmptyInput,
{
    if rows == 0 || cols == 0 {
        Err(SvdError::EmptyInput)
    } else {
        Ok(())
    }
}

/// Factors produced by a singular value decomposition.
#[derive(Debug)]
pub struct SvdOutput<T> {
    /// Left singular vectors.
    pub u: Matrix<T>,
    /// Singular values in descending order.
    pub s: Vec<T>,
    /// Transposed right singular vectors.
    pub vt: Matrix<T>,
}

impl<T> SvdOutput<T> {
    /// The factors have the shapes that `mode` asks for of a `rows x cols` input.
    pub open spec fn has_shape(&self, rows: nat, cols: nat, mode: SvdMode) -> bool {
        &&& (self.u.height(), self.u.width()) == u_shape(rows, cols, mode)
        &&& self.s@.len() == min_dim(rows, cols)
        &&& (self.vt.height(), self.vt.width()) == vt_shape(rows, cols, mode)
    }
}

/// The name a buffer goes by in messages.
pub open spec fn buffer_text(buffer: Buffer) -> Seq<char> {
    match buffer {
        Buffer::Input => "A"@,
        Buffer::SingularValues => "singular values"@,
        Buffer::LeftVectors => "U"@,
        Buffer::RightVectors => "Vt"@,
        Buffer::Workspace => "cuSOLVER workspace"@,
        Buffer::DeviceInfo => "cuSOLVER devInfo"@,
    }
}

/// The name a backend goes by in messages.
pub open spec fn backend_text(backend: Backend) -> Seq<char> {
    match backend {
        Backend::Cpu => "CPU"@,
        Backend::Cuda => "CUDA"@,
        Backend::Julia => "Julia"@,
    }
}

/// How a copy direction is written in messages.
pub open spec fn direction_text(direction: CopyDirection) -> Seq<char> {
    match direction {
        CopyDirection::HostToDevice => "host-to-device"@,
        CopyDirection::DeviceToHost => "device-to-host"@,
    }
}

/// The message of `error` as `backend` reports it; `routine` names the solver
/// routine whose devInfo is read.
pub open spec fn error_text(error: SvdError, backend: Backend, routine: Seq<char>) -> Seq<char> {
    match error {
        SvdError::EmptyInput => match backend {
            Backend::Cpu => "SVD input matrix must be non-empty"@,
            Backend::Cuda => "CUDA SVD requires a non-empty matrix"@,
            Backend::Julia => "SVD requires a non-empty matrix"@,
        },
        SvdError::IncompatibleShape => "ShapeError/IncompatibleShape: incompatible shapes"@,
        SvdError::MissingU => "LAPACK did not return U"@,
        SvdError::MissingVt => "LAPACK did not return V^T"@,
        SvdError::TooManyRows => "matrix row count exceeds cuSOLVER i32 limits"@,
        SvdError::TooManyColumns => "matrix column count exceeds cuSOLVER i32 limits"@,
        SvdError::ElementCountOverflow(buffer) => match buffer {
            Buffer::Input => "matrix element count overflow"@,
            _ => buffer_text(buffer) + " element count overflow"@,
        },
        SvdError::ByteSizeOverflow(buffer) => "byte-size overflow while allocating "@ + buffer_text(
            buffer,
        ),
        SvdError::ZeroSizedAllocation(buffer) => "cannot allocate zero bytes for "@ + buffer_text(
            buffer,
        ),
        SvdError::TransferTooLarge { buffer, direction, requested, capacity } => direction_text(
            direction,
        ) + " copy for "@ + buffer_text(buffer) + " exceeds device buffer: "@ + decimal(
            requested as nat,
        ) + " > "@ + decimal(capacity as nat),
        SvdError::InvalidWorkspaceSize(lwork) => "cuSOLVER returned invalid workspace size "@
            + signed_decimal(lwork as int),
        SvdError::ArgumentRejected(position) => routine + " rejected argument "@ + decimal(
            position as nat,
        ),
        SvdError::NotConverged(count) => routine + " did not converge; "@ + signed_decimal(
            count as int,
        ) + " superdiagonals did not converge"@,
        SvdError::DriverFailure { operation, status, status_name } => operation@
            + " failed with CUDA status "@ + status_name@,
        SvdError::SolverFailure { operation, status, status_name } => operation@
            + " failed with status "@ + status_name@,
        SvdError::NotTwoDimensional(factor) => match factor {
            Factor::U => "Julia U result is not two-dimensional"@,
            Factor::Vt => "Julia Vt result is not two-dimensional"@,
        },
        SvdError::MagmaFailure(info) => "magma_dgesvd failed with info="@ + signed_decimal(
            info as int,
        ),
        SvdError::UnexpectedFactorShape => backend_text(backend)
            + " SVD returned factors of unexpected shape"@,
        SvdError::BackendNotCompiled => "the requested backend is not compiled in this build configuration"@,
    }
}

/// The name of a buffer, as messages write it.
pub fn buffer_label(buffer: Buffer) -> (s: &'static str)
    ensures
        s@ == buffer_text(buffer),
{
    match buffer {
        Buffer::Input => "A",
        Buffer::SingularValues => "singular values",
        Buffer::LeftVectors => "U",
        Buffer::RightVectors => "Vt",
        Buffer::Workspace => "cuSOLVER workspace",
        Buffer::DeviceInfo => "cuSOLVER devInfo",
    }
}

/// The name of a backend, as messages write it.
fn backend_label(backend: Backend) -> (s: &'static str)
    ensures
        s@ == backend_text(backend),
{
    match backend {
        Backend::Cpu => "CPU",
        Backend::Cuda => "CUDA",
        Backend::Julia => "Julia",
    }
}

/// A copy direction, as messages write it.
fn direction_label(direction: CopyDirection) -> (s: &'static str)
    ensures
        s@ == direction_text(direction),
{
    match direction {
        CopyDirection::HostToDevice => "host-to-device",
        CopyDirection::DeviceToHost => "device-to-host",
    }
}

/// A string holding `text`.
fn text_of(text: &str) -> (s: String)
    ensures
        s@ == text@,
{
    let mut s = String::new();
    s.append(text);
    s
}

impl SvdError {
    /// The message of this error as `backend` reports it; `routine` names the
    /// solver routine whose devInfo is read (such as `cusolverDnDgesvd`).
    pub fn message(&self, backend: Backend, routine: &str) -> (m: String)
        ensures
            m@ == error_text(*self, backend, routine@),
    {
        match self {
            SvdError::EmptyInput => match backend {
                Backend::Cpu => text_of("SVD input matrix must be non-empty"),
                Backend::Cuda => text_of("CUDA SVD requires a non-empty matrix"),
                Backend::Julia => text_of("SVD requires a non-empty matrix"),
            },
            SvdError::IncompatibleShape => text_of("ShapeError/IncompatibleShape: incompatible shapes"),
            SvdError::MissingU => text_of("LAPACK did not return U"),
            SvdError::MissingVt => text_of("LAPACK did not return V^T"),
            SvdError::TooManyRows => text_of("matrix row count exceeds cuSOLVER i32 limits"),
            SvdError::TooManyColumns => text_of("matrix column count exceeds cuSOLVER i32 limits"),
            SvdError::ElementCountOverflow(buffer) => match buffer {
                Buffer::Input => text_of("matrix element count overflow"),
                _ => {
                    let mut m = text_of(buffer_label(*buffer));
                    m.append(" element count overflow");
                    m
                },
            },
            SvdError::ByteSizeOverflow(buffer) => {
                let mut m = text_of("byte-size overflow while allocating ");
                m.append(buffer_label(*buffer));
                m
            },
            SvdError::ZeroSizedAllocation(buffer) => {
                let mut m = text_of("cannot allocate zero bytes for ");
                m.append(buffer_label(*buffer));
                m
            },
            SvdError::TransferTooLarge { buffer, direction, requested, capacity } => {
                let mut m = text_of(direction_label(*direction));
                m.append(" copy for ");
                m.append(buffer_label(*buffer));
                m.append(" exceeds device buffer: ");
                push_decimal(&mut m, *requested as u64);
                m.append(" > ");
                push_decimal(&mut m, *capacity as u64);
                m
            },
            SvdError::InvalidWorkspaceSize(lwork) => {
                let mut m = text_of("cuSOLVER returned invalid workspace size ");
                push_signed_decimal(&mut m, *lwork as i64);
                m
            },
            SvdError::ArgumentRejected(position) => {
                let mut m = text_of(routine);
                m.append(" rejected argument ");
                push_decimal(&mut m, *position as u64);
                m
            },
            SvdError::NotConverged(count) => {
                let mut m = text_of(routine);
                m.append(" did not converge; ");
                push_signed_decimal(&mut m, *count as i64);
                m.append(" superdiagonals did not converge");
                m
            },
            SvdError::DriverFailure { operation, status: _, status_name } => {
                let mut m = text_of(operation.as_str());
                m.append(" failed with CUDA status ");
                m.append(status_name.as_str());
                m
            },
            SvdError::SolverFailure { operation, status: _, status_name } => {
                let mut m = text_of(operation.as_str());
                m.append(" failed with status ");
                m.append(status_name.as_str());
                m
            },
            SvdError::NotTwoDimensional(factor) => match factor {
                Factor::U => text_of("Julia U result is not two-dimensional"),
                Factor::Vt => text_of("Julia Vt result is not two-dimensional"),
            },
            SvdError::MagmaFailure(info) => {
                let mut m = text_of("magma_dgesvd failed with info=");
                push_signed_decimal(&mut m, *info as i64);
                m
            },
            SvdError::UnexpectedFactorShape => {
                let mut m = text_of(backend_label(backend));
                m.append(" SVD returned factors of unexpected shape");
                m
            },
            SvdError::BackendNotCompiled => text_of(
                "the requested backend is not compiled in this build configuration",
            ),
        }
    }
}

/// Admits a backend only when it is part of this build (`cpu`, `cuda`, `julia`
/// say which are).
pub fn check_backend_compiled(backend: Backend, cpu: bool, cuda: bool, julia: bool) -> (res: Result<
    Backend,
    SvdError,
>)
    ensures
        res is Ok <==> match backend {
            Backend::Cpu => cpu,
            Backend::Cuda => cuda,
            Backend::Julia => julia,
        },
        res matches Ok(b) ==> b == backend,
        res matches Err(e) ==> e == SvdError::BackendNotCompiled,
{
    let compiled = match backend {
        Backend::Cpu => cpu,
        Backend::Cuda => cuda,
        Backend::Julia => julia,
    };
    if compiled {
        Ok(backend)
    } else {
        Err(SvdError::BackendNotCompiled)
    }
}

} // verus!
