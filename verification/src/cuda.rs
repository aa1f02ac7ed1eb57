use vstd::prelude::*;

use crate::matrix::{
    column_major_grid, grid_shaped, lemma_reconstruction_of_transposed_factors, reconstruction,
    transposed_grid, Matrix,
};
use crate::svd::{
    job_of, max_dim, min_dim, Buffer, SolverJob, SvdError, SvdMode, SvdOutput, job_for_mode,
};

verus! {

/// How a `rows x cols` matrix is handed to cuSOLVER's gesvd, which only
/// decomposes matrices with at least as many rows as columns: a wide matrix is
/// transposed first, and its factors are mapped back afterwards.
#[derive(Debug, Clone, Copy)]
pub struct CudaPlan {
    /// Rows of the input matrix.
    pub rows: usize,
    /// Columns of the input matrix.
    pub cols: usize,
    /// The requested output mode.
    pub mode: SvdMode,
    /// The input is wide (rows < cols) and the solver works on its transpose.
    pub transposed: bool,
    /// Rows of the matrix the solver sees: max(rows, cols).
    pub solver_rows: usize,
    /// Columns of the matrix the solver sees: min(rows, cols), the number of singular values.
    pub solver_cols: usize,
    /// `solver_rows` as the solver's 32-bit integer.
    pub solver_rows_i32: i32,
    /// `solver_cols` as the solver's 32-bit integer.
    pub solver_cols_i32: i32,
    /// Elements of the column-major input buffer.
    pub input_elements: usize,
    /// Columns of the solver's U.
    pub u_cols: usize,
    /// Rows of the solver's Vt.
    pub vt_rows: usize,
    /// Which singular vectors the solver computes.
    pub job: SolverJob,
    /// Elements of the solver's U buffer.
    pub u_elements: usize,
    /// Elements of the solver's Vt buffer.
    pub vt_elements: usize,
}

/// Columns of the solver's U: all of its rows in full mode, min(rows, cols) in reduced mode.
pub open spec fn solver_u_cols(rows: nat, cols: nat, mode: SvdMode) -> nat {
    match mode {
        SvdMode::Full => max_dim(rows, cols),
        SvdMode::Reduced => min_dim(rows, cols),
    }
}

/// Why no plan exists for a `rows x cols` input, checked in this order; `None` when one does.
pub open spec fn cuda_plan_failure(rows: nat, cols: nat, mode: SvdMode) -> Option<SvdError> {
    let big = max_dim(rows, cols);
    let small = min_dim(rows, cols);
    if rows == 0 || cols == 0 {
        Some(SvdError::EmptyInput)
    } else if big > i32::MAX {
        Some(SvdError::TooManyRows)
    } else if small > i32::MAX {
        Some(SvdError::TooManyColumns)
    } else if big * small > usize::MAX {
        Some(SvdError::ElementCountOverflow(Buffer::Input))
    } else if big * solver_u_cols(rows, cols, mode) > usize::MAX {
        Some(SvdError::ElementCountOverflow(Buffer::LeftVectors))
    } else if small * small > usize::MAX {
        Some(SvdError::ElementCountOverflow(Buffer::RightVectors))
    } else {
        None
    }
}

/// The plan for a `rows x cols` input for which `cuda_plan_failure` is `None`.
pub open spec fn planned_cuda(rows: usize, cols: usize, mode: SvdMode) -> CudaPlan {
    let big = max_dim(rows as nat, cols as nat);
    let small = min_dim(rows as nat, cols as nat);
    let u_cols = solver_u_cols(rows as nat, cols as nat, mode);
    CudaPlan {
        rows,
        cols,
        mode,
        transposed: rows < cols,
        solver_rows: big as usize,
        solver_cols: small as usize,
        solver_rows_i32: big as i32,
        solver_cols_i32: small as i32,
        input_elements: (big * small) as usize,
        u_cols: u_cols as usize,
        vt_rows: small as usize,
        job: job_of(mode),
        u_elements: (big * u_cols) as usize,
        vt_elements: (small * small) as usize,
    }
}

impl CudaPlan {
    /// This is the plan for its own input shape and mode.
    pub open spec fn valid(&self) -> bool {
        &&& cuda_plan_failure(self.rows as nat, self.cols as nat, self.mode) is None
        &&& *self == planned_cuda(self.rows, self.cols, self.mode)
    }

    /// The matrix the solver decomposes, given the input matrix `a`.
    pub open spec fn solver_matrix<T>(&self, a: Seq<Seq<T>>) -> Seq<Seq<T>> {
        if self.transposed {
            transposed_grid(a, self.rows as nat, self.cols as nat)
        } else {
            a
        }
    }
}

/// Plans the CUDA decomposition of a `rows x cols` matrix: rejects an empty
/// input, dimensions past the solver's 32-bit limits and buffers whose element
/// counts overflow, in that order.
pub fn plan_cuda_svd(rows: usize, cols: usize, mode: SvdMode) -> (res: Result<CudaPlan, SvdError>)
    ensures
        match cuda_plan_failure(rows as nat, cols as nat, mode) {
            Some(e) => res == Err::<CudaPlan, SvdError>(e),
            None => res == Ok::<CudaPlan, SvdError>(planned_cuda(rows, cols, mode)),
        },
        (rows == 0 || cols == 0) <==> res == Err::<CudaPlan, SvdError>(SvdError::EmptyInput),
        (rows > 0 && cols > 0 && rows <= i32::MAX && cols <= i32::MAX && rows as int * rows as int
            <= usize::MAX && cols as int * cols as int <= usize::MAX) ==> res is Ok,
        res matches Ok(plan) ==> {
            &&& plan.valid()
            &&& plan.transposed == (rows < cols)
            &&& plan.solver_rows_i32 as int == (if rows < cols { cols as int } else { rows as int })
            &&& plan.solver_cols_i32 as int == (if rows < cols { rows as int } else { cols as int })
            &&& plan.solver_rows_i32 as int == plan.solver_rows as int
            &&& plan.solver_cols_i32 as int == plan.solver_cols as int
            &&& plan.solver_rows_i32 >= plan.solver_cols_i32
            &&& plan.u_elements as int == plan.solver_rows as int * plan.u_cols as int
            &&& plan.vt_elements as int == plan.vt_rows as int * plan.solver_cols as int
            &&& plan.job == (match mode {
                SvdMode::Full => SolverJob::All,
                SvdMode::Reduced => SolverJob::Leading,
            })
        },
{
    proof {
        if rows > 0 && cols > 0 && rows <= i32::MAX && cols <= i32::MAX && rows as int * rows as int
            <= usize::MAX && cols as int * cols as int <= usize::MAX {
            lemma_plan_sizes_fit(rows as int, cols as int);
        }
        if cuda_plan_failure(rows as nat, cols as nat, mode) is None {
            lemma_plan_solver_dimensions(planned_cuda(rows, cols, mode));
            lemma_plan_job(planned_cuda(rows, cols, mode));
        }
    }
    if rows == 0 || cols == 0 {
        return Err(SvdError::EmptyInput);
    }
    let transposed = rows < cols;
    let solver_rows = if rows < cols {
        cols
    } else {
        rows
    };
    let solver_cols = if rows < cols {
        rows
    } else {
        cols
    };
    if solver_rows > 2147483647usize {
        return Err(SvdError::TooManyRows);
    }
    if solver_cols > 2147483647usize {
        return Err(SvdError::TooManyColumns);
    }
    let solver_rows_i32 = solver_rows as i32;
    let solver_cols_i32 = solver_cols as i32;
    let input_elements = match solver_rows.checked_mul(solver_cols) {
        Some(n) => n,
        None => {
            return Err(SvdError::ElementCountOverflow(Buffer::Input));
        },
    };
    let job = job_for_mode(mode);
    let (u_cols, vt_rows) = match mode {
        SvdMode::Full => (solver_rows, solver_cols),
        SvdMode::Reduced => (solver_cols, solver_cols),
    };
    let u_elements = match solver_rows.checked_mul(u_cols) {
        Some(n) => n,
        None => {
            return Err(SvdError::ElementCountOverflow(Buffer::LeftVectors));
        },
    };
    let vt_elements = match vt_rows.checked_mul(solver_cols) {
        Some(n) => n,
        None => {
            return Err(SvdError::ElementCountOverflow(Buffer::RightVectors));
        },
    };
    Ok(
        CudaPlan {
            rows,
            cols,
            mode,
            transposed,
            solver_rows,
            solver_cols,
            solver_rows_i32,
            solver_cols_i32,
            input_elements,
            u_cols,
            vt_rows,
            job,
            u_elements,
            vt_elements,
        },
    )
}

/// When both squares fit, every product of two dimensions fits.
proof fn lemma_plan_sizes_fit(rows: int, cols: int)
    requires
        rows > 0,
        cols > 0,
        rows * rows <= usize::MAX,
        cols * cols <= usize::MAX,
    ensures
        rows * cols <= usize::MAX,
        cols * rows <= usize::MAX,
{
    if rows <= cols {
        assert(rows * cols <= cols * cols) by (nonlinear_arith)
            requires
                0 < rows <= cols,
        ;
    } else {
        assert(rows * cols <= rows * rows) by (nonlinear_arith)
            requires
                0 < cols < rows,
        ;
    }
    vstd::arithmetic::mul::lemma_mul_is_commutative(rows, cols);
}

/// The dimensions handed to the solver as 32-bit integers are those of the
/// matrix it decomposes: m = max(rows, cols) rows and n = min(rows, cols)
/// columns, so m >= n, and m * n is the input's element count.
pub proof fn lemma_plan_solver_dimensions(plan: CudaPlan)
    requires
        plan.valid(),
    ensures
        plan.solver_rows_i32 as int == plan.solver_rows as int,
        plan.solver_cols_i32 as int == plan.solver_cols as int,
        plan.solver_rows_i32 as int == (if plan.rows < plan.cols {
            plan.cols as int
        } else {
            plan.rows as int
        }),
        plan.solver_cols_i32 as int == (if plan.rows < plan.cols {
            plan.rows as int
        } else {
            plan.cols as int
        }),
        plan.solver_rows_i32 >= plan.solver_cols_i32 > 0,
        plan.solver_rows_i32 as int * plan.solver_cols_i32 as int == plan.rows as int
            * plan.cols as int,
        plan.input_elements as int == plan.rows as int * plan.cols as int,
        plan.u_elements as int == plan.solver_rows as int * plan.u_cols as int,
        plan.vt_elements as int == plan.vt_rows as int * plan.solver_cols as int,
{
    vstd::arithmetic::mul::lemma_mul_is_commutative(plan.rows as int, plan.cols as int);
}

/// The solver computes all singular vectors in full mode and the leading
/// min(rows, cols) in reduced mode, whether or not the input is transposed;
/// in full mode the solver's U is square, so all of its columns are computed.
pub proof fn lemma_plan_job(plan: CudaPlan)
    requires
        plan.valid(),
    ensures
        plan.mode == SvdMode::Full ==> plan.job == SolverJob::All,
        plan.mode == SvdMode::Reduced ==> plan.job == SolverJob::Leading,
        plan.job == SolverJob::All ==> plan.u_cols == plan.solver_rows && plan.vt_rows
            == plan.solver_cols,
        plan.job == SolverJob::Leading ==> plan.u_cols == plan.solver_cols && plan.vt_rows
            == plan.solver_cols,
{
}

/// The solver always receives a tall (or square) matrix of min(rows, cols)
/// columns: the input itself when it is tall or square, its transpose when it is wide.
pub proof fn lemma_solver_matrix_is_tall<T>(plan: CudaPlan, a: Seq<Seq<T>>)
    requires
        plan.valid(),
        grid_shaped(a, plan.rows as nat, plan.cols as nat),
    ensures
        plan.solver_rows >= plan.solver_cols,
        plan.solver_cols == min_dim(plan.rows as nat, plan.cols as nat),
        plan.solver_rows == max_dim(plan.rows as nat, plan.cols as nat),
        grid_shaped(plan.solver_matrix(a), plan.solver_rows as nat, plan.solver_cols as nat),
{
}

/// For a wide input, the factors built by `assemble_solver_output` reconstruct
/// the transpose of what the solver's own factors reconstruct, exactly, in any
/// number system whose multiplication is commutative and associative: if the
/// solver decomposed the transpose of the input, the assembled factors
/// decompose the input.
pub proof fn lemma_wide_input_reconstruction<T>(
    plan: CudaPlan,
    s: Seq<T>,
    u_col: Seq<T>,
    vt_col: Seq<T>,
    plus: spec_fn(T, T) -> T,
    times: spec_fn(T, T) -> T,
    zero: T,
)
    requires
        plan.valid(),
        plan.transposed,
        s.len() == plan.solver_cols,
        forall|a: T, b: T| #[trigger] times(a, b) == times(b, a),
        forall|a: T, b: T, c: T| #[trigger] times(times(a, b), c) == times(a, times(b, c)),
    ensures
        ({
            let solver_u = column_major_grid(u_col, plan.solver_rows as nat, plan.u_cols as nat);
            let solver_vt = column_major_grid(vt_col, plan.vt_rows as nat, plan.solver_cols as nat);
            let u = transposed_grid(solver_vt, plan.vt_rows as nat, plan.solver_cols as nat);
            let vt = transposed_grid(solver_u, plan.solver_rows as nat, plan.u_cols as nat);
            reconstruction(u, s, vt, plan.rows as nat, plan.cols as nat, plus, times, zero)
                == transposed_grid(
                reconstruction(
                    solver_u,
                    s,
                    solver_vt,
                    plan.solver_rows as nat,
                    plan.solver_cols as nat,
                    plus,
                    times,
                    zero,
                ),
                plan.solver_rows as nat,
                plan.solver_cols as nat,
            )
        }),
{
    let solver_u = column_major_grid(u_col, plan.solver_rows as nat, plan.u_cols as nat);
    let solver_vt = column_major_grid(vt_col, plan.vt_rows as nat, plan.solver_cols as nat);
    lemma_reconstruction_of_transposed_factors(
        solver_u,
        s,
        solver_vt,
        plan.solver_rows as nat,
        plan.u_cols as nat,
        plan.vt_rows as nat,
        plan.solver_cols as nat,
        plus,
        times,
        zero,
    );
}

/// Lays the input out for the solver in column-major order: the matrix itself
/// when it is tall or square, its transpose when it is wide.
pub fn pack_solver_input<T: Copy>(a: &Matrix<T>, plan: &CudaPlan) -> (packed: Vec<T>)
    requires
        plan.valid(),
        plan.rows == a.height(),
        plan.cols == a.width(),
    ensures
        packed@.len() == plan.input_elements,
        column_major_grid(packed@, plan.solver_rows as nat, plan.solver_cols as nat)
            == plan.solver_matrix(a@),
{
    if plan.transposed {
        a.transpose().to_column_major()
    } else {
        proof {
            vstd::arithmetic::mul::lemma_mul_is_commutative(plan.rows as int, plan.cols as int);
        }
        a.to_column_major()
    }
}

/// Admits the workspace size that the solver asked for: it must be positive.
pub fn check_workspace(lwork: i32) -> (res: Result<usize, SvdError>)
    ensures
        res is Ok <==> lwork > 0,
        res matches Ok(n) ==> n == lwork,
        res matches Err(e) ==> e == SvdError::InvalidWorkspaceSize(lwork),
{
    if lwork <= 0 {
        Err(SvdError::InvalidWorkspaceSize(lwork))
    } else {
        Ok(lwork as usize)
    }
}

/// Reads gesvd's devInfo: 0 is success, -i means the i-th argument was
/// rejected, a positive value counts the superdiagonals that did not converge.
pub fn check_dev_info(info: i32) -> (res: Result<(), SvdError>)
    ensures
        res is Ok <==> info == 0,
        info < 0 ==> res == Err::<(), SvdError>(SvdError::ArgumentRejected((-info) as u32)),
        info > 0 ==> res == Err::<(), SvdError>(SvdError::NotConverged(info)),
{
    if info == 0 {
        Ok(())
    } else if info < 0 {
        let position = (-(info as i64)) as u32;
        Err(SvdError::ArgumentRejected(position))
    } else {
        Err(SvdError::NotConverged(info))
    }
}

/// Builds the factors from the solver's column-major buffers. For a wide input
/// the solver decomposed the transpose, so U is the transpose of the solver's
/// Vt and Vt the transpose of the solver's U.
pub fn assemble_solver_output<T: Copy>(
    plan: &CudaPlan,
    singular_values: Vec<T>,
    u_col: Vec<T>,
    vt_col: Vec<T>,
) -> (out: SvdOutput<T>)
    requires
        plan.valid(),
        singular_values@.len() == plan.solver_cols,
        u_col@.len() == plan.u_elements,
        vt_col@.len() == plan.vt_elements,
    ensures
        out.s@ == singular_values@,
        out.u@ == (if plan.transposed {
            transposed_grid(
                column_major_grid(vt_col@, plan.vt_rows as nat, plan.solver_cols as nat),
                plan.vt_rows as nat,
                plan.solver_cols as nat,
            )
        } else {
            column_major_grid(u_col@, plan.solver_rows as nat, plan.u_cols as nat)
        }),
        out.vt@ == (if plan.transposed {
            transposed_grid(
                column_major_grid(u_col@, plan.solver_rows as nat, plan.u_cols as nat),
                plan.solver_rows as nat,
                plan.u_cols as nat,
            )
        } else {
            column_major_grid(vt_col@, plan.vt_rows as nat, plan.solver_cols as nat)
        }),
        out.has_shape(plan.rows as nat, plan.cols as nat, plan.mode),
{
    let solver_u = Matrix::from_column_major_storage(plan.solver_rows, plan.u_cols, u_col);
    let solver_vt = Matrix::from_column_major_storage(plan.vt_rows, plan.solver_cols, vt_col);
    if plan.transposed {
        let u = solver_vt.transpose();
        let vt = solver_u.transpose();
        SvdOutput { u, s: singular_values, vt }
    } else {
        SvdOutput { u: solver_u, s: singular_values, vt: solver_vt }
    }
}

/// A step of a gesvd run on the device, in the order the run takes them.
#[derive(Debug, Clone, PartialEq, Eq)]
pub enum GesvdStep {
    /// Allocate the input, singular-value and factor buffers and copy the input over.
    PrepareBuffers,
    /// Ask the solver how large a workspace it needs.
    QueryWorkspace,
    /// Allocate a workspace of `elements` elements and the devInfo word;
    /// `lwork` is that size as the solver takes it.
    AllocateWorkspace { elements: usize, lwork: i32 },
    /// Run the solver with a workspace of `lwork` elements and copy devInfo back.
    Solve { lwork: i32 },
    /// Copy the singular values and both factors back.
    ReadFactors,
    /// Build the factors of the input from what was read.
    Assemble,
    /// Stop with this error.
    Fail(SvdError),
}

/// What the device reported after a step was carried out.
#[derive(Debug, Clone, Copy, PartialEq, Eq)]
pub enum GesvdEvent {
    /// The buffers are allocated and the input is on the device.
    BuffersReady,
    /// The solver asked for a workspace of this many elements.
    WorkspaceSize(i32),
    /// The workspace and the devInfo word are allocated.
    WorkspaceReady,
    /// The solver ran and left this value in devInfo.
    Solved(i32),
    /// The singular values and both factors are back on the host.
    FactorsRead,
}

/// The step after `step` once `event` is reported. An event that does not
/// answer the current step leaves it where it is, and a failure is final.
pub open spec fn gesvd_next(step: GesvdStep, event: GesvdEvent) -> GesvdStep {
    match step {
        GesvdStep::PrepareBuffers => match event {
            GesvdEvent::BuffersReady => GesvdStep::QueryWorkspace,
            _ => step,
        },
        GesvdStep::QueryWorkspace => match event {
            GesvdEvent::WorkspaceSize(lwork) => if lwork > 0 {
                GesvdStep::AllocateWorkspace { elements: lwork as usize, lwork }
            } else {
                GesvdStep::Fail(SvdError::InvalidWorkspaceSize(lwork))
            },
            _ => step,
        },
        GesvdStep::AllocateWorkspace { elements: _, lwork } => match event {
            GesvdEvent::WorkspaceReady => GesvdStep::Solve { lwork },
            _ => step,
        },
        GesvdStep::Solve { lwork: _ } => match event {
            GesvdEvent::Solved(info) => if info == 0 {
                GesvdStep::ReadFactors
            } else if info < 0 {
                GesvdStep::Fail(SvdError::ArgumentRejected((-info) as u32))
            } else {
                GesvdStep::Fail(SvdError::NotConverged(info))
            },
            _ => step,
        },
        GesvdStep::ReadFactors => match event {
            GesvdEvent::FactorsRead => GesvdStep::Assemble,
            _ => step,
        },
        GesvdStep::Assemble => step,
        GesvdStep::Fail(_) => step,
    }
}

/// Where a run that starts at `step` stands after `events`, in order.
pub open spec fn gesvd_run(step: GesvdStep, events: Seq<GesvdEvent>) -> GesvdStep
    decreases events.len(),
{
    if events.len() == 0 {
        step
    } else {
        gesvd_run(gesvd_next(step, events[0]), events.drop_first())
    }
}

/// The run has not yet reached the point where the factors are read.
pub open spec fn gesvd_before_read(step: GesvdStep) -> bool {
    ||| step is PrepareBuffers
    ||| step is QueryWorkspace
    ||| step is AllocateWorkspace
    ||| step is Solve
}

/// Decides the next step of a gesvd run from the current step and what the
/// device reported: the workspace size is admitted only when positive, and
/// the factors are read only when devInfo is 0.
pub fn next_gesvd_step(step: GesvdStep, event: GesvdEvent) -> (next: GesvdStep)
    ensures
        next == gesvd_next(step, event),
{
    match step {
        GesvdStep::PrepareBuffers => match event {
            GesvdEvent::BuffersReady => GesvdStep::QueryWorkspace,
            _ => GesvdStep::PrepareBuffers,
        },
        GesvdStep::QueryWorkspace => match event {
            GesvdEvent::WorkspaceSize(lwork) => match check_workspace(lwork) {
                Ok(elements) => GesvdStep::AllocateWorkspace { elements, lwork },
                Err(e) => GesvdStep::Fail(e),
            },
            _ => GesvdStep::QueryWorkspace,
        },
        GesvdStep::AllocateWorkspace { elements, lwork } => match event {
            GesvdEvent::WorkspaceReady => GesvdStep::Solve { lwork },
            _ => GesvdStep::AllocateWorkspace { elements, lwork },
        },
        GesvdStep::Solve { lwork } => match event {
            GesvdEvent::Solved(info) => match check_dev_info(info) {
                Ok(()) => GesvdStep::ReadFactors,
                Err(e) => GesvdStep::Fail(e),
            },
            _ => GesvdStep::Solve { lwork },
        },
        GesvdStep::ReadFactors => match event {
            GesvdEvent::FactorsRead => GesvdStep::Assemble,
            _ => GesvdStep::ReadFactors,
        },
        GesvdStep::Assemble => GesvdStep::Assemble,
        GesvdStep::Fail(e) => GesvdStep::Fail(e),
    }
}

/// A failed run stays failed with the same error, whatever is reported after.
pub proof fn lemma_gesvd_failure_is_final(e: SvdError, events: Seq<GesvdEvent>)
    ensures
        gesvd_run(GesvdStep::Fail(e), events) == GesvdStep::Fail(e),
    decreases events.len(),
{
    if events.len() > 0 {
        lemma_gesvd_failure_is_final(e, events.drop_first());
    }
}

/// The factors are read only after the solver left 0 in devInfo: a run that
/// starts before the factors are read and gets to reading them (or past it)
/// saw a `Solved(0)` report on the way.
pub proof fn lemma_gesvd_reads_factors_only_after_success(
    step: GesvdStep,
    events: Seq<GesvdEvent>,
)
    requires
        gesvd_before_read(step),
        gesvd_run(step, events) is ReadFactors || gesvd_run(step, events) is Assemble,
    ensures
        exists|i: int| 0 <= i < events.len() && #[trigger] events[i] == GesvdEvent::Solved(0),
    decreases events.len(),
{
    if events.len() == 0 {
        assert(false);
    } else {
        let next = gesvd_next(step, events[0]);
        let rest = events.drop_first();
        if next is ReadFactors {
            assert(events[0] == GesvdEvent::Solved(0));
        } else if next is Fail {
            lemma_gesvd_failure_is_final(next->Fail_0, rest);
            assert(false);
        } else {
            assert(gesvd_before_read(next));
            lemma_gesvd_reads_factors_only_after_success(next, rest);
            let i = choose|i: int| 0 <= i < rest.len() && #[trigger] rest[i] == GesvdEvent::Solved(0);
            assert(events[i + 1] == rest[i]);
        }
    }
}

/// A run in which every report is the good one gets to assembling the factors,
/// and the workspace it allocates, and hands the solver, is exactly the size
/// the solver asked for.
pub proof fn lemma_gesvd_clean_run(lwork: i32)
    requires
        lwork > 0,
    ensures
        gesvd_next(GesvdStep::QueryWorkspace, GesvdEvent::WorkspaceSize(lwork))
            == (GesvdStep::AllocateWorkspace { elements: lwork as usize, lwork }),
        gesvd_next(
            GesvdStep::AllocateWorkspace { elements: lwork as usize, lwork },
            GesvdEvent::WorkspaceReady,
        ) == (GesvdStep::Solve { lwork }),
        gesvd_run(
            GesvdStep::PrepareBuffers,
            seq![
                GesvdEvent::BuffersReady,
                GesvdEvent::WorkspaceSize(lwork),
                GesvdEvent::WorkspaceReady,
                GesvdEvent::Solved(0),
                GesvdEvent::FactorsRead,
            ],
        ) == GesvdStep::Assemble,
{
    let events = seq![
        GesvdEvent::BuffersReady,
        GesvdEvent::WorkspaceSize(lwork),
        GesvdEvent::WorkspaceReady,
        GesvdEvent::Solved(0),
        GesvdEvent::FactorsRead,
    ];
    let e1 = events.drop_first();
    let e2 = e1.drop_first();
    let e3 = e2.drop_first();
    let e4 = e3.drop_first();
    let e5 = e4.drop_first();
    assert(e5.len() == 0);
    assert(gesvd_run(GesvdStep::Assemble, e5) == GesvdStep::Assemble);
    assert(gesvd_run(GesvdStep::ReadFactors, e4) == GesvdStep::Assemble);
    assert(gesvd_run(GesvdStep::Solve { lwork }, e3) == GesvdStep::Assemble);
    assert(
        gesvd_run(GesvdStep::AllocateWorkspace { elements: lwork as usize, lwork }, e2)
            == GesvdStep::Assemble
    );
    assert(gesvd_run(GesvdStep::QueryWorkspace, e1) == GesvdStep::Assemble);
}

} // verus!
