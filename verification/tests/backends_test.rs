use svdwrapper::cpu::{collect_lapack_factors, lapack_job};
use svdwrapper::julia::{collect_julia_output, julia_input};
use svdwrapper::matrix::Matrix;
use svdwrapper::{
    CpuF32Svd, CpuF64Svd, CpuSvd, Factor, JuliaF32Svd, JuliaF64Svd, OpenClSvd, SolverJob, SvdError,
    SvdMode,
};

fn entries(m: &Matrix<i32>) -> Vec<Vec<i32>> {
    (0..m.nrows()).map(|r| (0..m.ncols()).map(|c| *m.get(r, c)).collect()).collect()
}

fn square(n: usize) -> Matrix<i32> {
    Matrix::from_shape_vec(n, n, (1..=(n * n) as i32).collect()).unwrap()
}

#[test]
fn lapack_job_follows_mode() {
    assert_eq!(lapack_job(4, 3, SvdMode::Full), Ok(SolverJob::All));
    assert_eq!(lapack_job(4, 3, SvdMode::Reduced), Ok(SolverJob::Leading));
    assert_eq!(lapack_job(0, 3, SvdMode::Full), Err(SvdError::EmptyInput));
}

#[test]
fn cpu_backends_refuse_empty_input() {
    assert_eq!(CpuF32Svd.prepare(0, 3, SvdMode::Full), Err(SvdError::EmptyInput));
    assert_eq!(CpuF64Svd.prepare(3, 0, SvdMode::Reduced), Err(SvdError::EmptyInput));
    assert_eq!(CpuF64Svd.prepare(3, 4, SvdMode::Reduced), Ok(SolverJob::Leading));
}

#[test]
fn lapack_factors_must_be_present() {
    let err = collect_lapack_factors::<i32>(1, 1, SvdMode::Full, None, vec![1], Some(square(1)))
        .unwrap_err();
    assert_eq!(err, SvdError::MissingU);
    let err = collect_lapack_factors::<i32>(1, 1, SvdMode::Full, None, vec![1], None).unwrap_err();
    assert_eq!(err, SvdError::MissingU);
    let err = CpuF32Svd
        .finish::<i32>(1, 1, SvdMode::Full, Some(square(1)), vec![1], None)
        .unwrap_err();
    assert_eq!(err, SvdError::MissingVt);
    let out = CpuF64Svd
        .finish(2, 2, SvdMode::Full, Some(square(2)), vec![3, 1], Some(square(2)))
        .unwrap();
    assert_eq!(out.s, vec![3, 1]);
    assert_eq!(entries(&out.u), vec![vec![1, 2], vec![3, 4]]);
}

#[test]
fn lapack_factors_must_have_the_mode_shapes() {
    let u_thin = || Matrix::from_shape_vec(4, 3, (1..=12).collect()).unwrap();
    let out = CpuF64Svd
        .finish(4, 3, SvdMode::Reduced, Some(u_thin()), vec![9, 5, 2], Some(square(3)))
        .unwrap();
    assert_eq!(out.u.dims(), (4, 3));
    assert_eq!(out.vt.dims(), (3, 3));
    let err = CpuF64Svd
        .finish(4, 3, SvdMode::Full, Some(u_thin()), vec![9, 5, 2], Some(square(3)))
        .unwrap_err();
    assert_eq!(err, SvdError::UnexpectedFactorShape);
    let err = CpuF32Svd
        .finish(4, 3, SvdMode::Full, Some(square(4)), vec![9, 5], Some(square(3)))
        .unwrap_err();
    assert_eq!(err, SvdError::UnexpectedFactorShape);
}

#[test]
fn cpu_sigma_is_diagonal() {
    let out = CpuSvd.finish(4, 3, Some(square(4)), vec![9, 5, 2], Some(square(3))).unwrap();
    assert_eq!(out.u.dims(), (4, 4));
    assert_eq!(out.s, vec![9, 5, 2]);
    assert_eq!(out.vt.dims(), (3, 3));
    let err = CpuSvd.finish::<i32>(4, 3, None, vec![], Some(square(3))).unwrap_err();
    assert_eq!(err, SvdError::MissingU);
    let err = CpuSvd.finish(4, 3, Some(square(4)), vec![9, 5, 2], None).unwrap_err();
    assert_eq!(err, SvdError::MissingVt);
}

#[test]
fn julia_input_is_column_major() {
    let a = Matrix::from_shape_vec(2, 3, vec![1, 2, 3, 4, 5, 6]).unwrap();
    let req = julia_input(&a, SvdMode::Full).unwrap();
    assert_eq!(req.data, vec![1, 4, 2, 5, 3, 6]);
    assert!(req.full);
    let req = JuliaF32Svd.prepare_input(&a, SvdMode::Reduced).unwrap();
    assert_eq!(req.data, vec![1, 4, 2, 5, 3, 6]);
    assert!(!req.full);
    assert!(JuliaF64Svd.prepare_input(&a, SvdMode::Full).unwrap().full);
}

#[test]
fn julia_refuses_empty_input() {
    let empty = Matrix::<i32>::from_shape_vec(0, 3, vec![]).unwrap();
    assert_eq!(JuliaF32Svd.prepare_input(&empty, SvdMode::Full), Err(SvdError::EmptyInput));
    assert_eq!(JuliaF64Svd.prepare_input(&empty, SvdMode::Reduced), Err(SvdError::EmptyInput));
}

#[test]
fn julia_output_is_read_column_major() {
    let out = collect_julia_output(
        2,
        3,
        SvdMode::Full,
        Some(2),
        Some(2),
        vec![1, 2, 3, 4],
        vec![8, 1],
        Some(3),
        Some(3),
        vec![1, 2, 3, 4, 5, 6, 7, 8, 9],
    )
    .unwrap();
    assert_eq!(entries(&out.u), vec![vec![1, 3], vec![2, 4]]);
    assert_eq!(out.s, vec![8, 1]);
    assert_eq!(entries(&out.vt), vec![vec![1, 4, 7], vec![2, 5, 8], vec![3, 6, 9]]);
}

#[test]
fn julia_reduced_output_has_reduced_shapes() {
    let out = collect_julia_output(
        2,
        3,
        SvdMode::Reduced,
        Some(2),
        Some(2),
        vec![1, 2, 3, 4],
        vec![8, 1],
        Some(2),
        Some(3),
        vec![1, 2, 3, 4, 5, 6],
    )
    .unwrap();
    assert_eq!(out.u.dims(), (2, 2));
    assert_eq!(entries(&out.vt), vec![vec![1, 3, 5], vec![2, 4, 6]]);
    let err = collect_julia_output(
        2,
        3,
        SvdMode::Full,
        Some(2),
        Some(2),
        vec![1, 2, 3, 4],
        vec![8, 1],
        Some(2),
        Some(3),
        vec![1, 2, 3, 4, 5, 6],
    )
    .unwrap_err();
    assert_eq!(err, SvdError::UnexpectedFactorShape);
}

#[test]
fn julia_output_errors() {
    let err = collect_julia_output(
        1, 1, SvdMode::Full, None, Some(2), vec![1, 2], vec![], Some(1), Some(1), vec![1],
    )
    .unwrap_err();
    assert_eq!(err, SvdError::NotTwoDimensional(Factor::U));
    let err = collect_julia_output(
        1, 1, SvdMode::Full, Some(1), Some(1), vec![1], vec![], Some(1), None, vec![1],
    )
    .unwrap_err();
    assert_eq!(err, SvdError::NotTwoDimensional(Factor::Vt));
    let err = collect_julia_output(
        1, 1, SvdMode::Full, Some(2), Some(2), vec![1, 2, 3], vec![], Some(1), Some(1), vec![1],
    )
    .unwrap_err();
    assert_eq!(err, SvdError::IncompatibleShape);
    let err = collect_julia_output(
        1, 1, SvdMode::Full, Some(1), Some(1), vec![1], vec![], Some(2), Some(1), vec![1],
    )
    .unwrap_err();
    assert_eq!(err, SvdError::IncompatibleShape);
    let err = collect_julia_output(
        1, 1, SvdMode::Full, Some(1), Some(1), vec![1], vec![], Some(1), Some(1), vec![1],
    )
    .unwrap_err();
    assert_eq!(err, SvdError::UnexpectedFactorShape);
}

#[test]
fn opencl_packs_input_column_major() {
    let a = square(2);
    assert_eq!(OpenClSvd {}.pack_input(&a), vec![1, 3, 2, 4]);
    let tall = Matrix::from_shape_vec(4, 3, (1..=12).collect()).unwrap();
    assert_eq!(
        OpenClSvd {}.pack_input(&tall),
        vec![1, 4, 7, 10, 2, 5, 8, 11, 3, 6, 9, 12]
    );
}

#[test]
fn opencl_assembles_factors() {
    let out = OpenClSvd {}
        .assemble(2, 3, 0, vec![4, 2], vec![1, 2, 3, 4], vec![1, 2, 3, 4, 5, 6, 7, 8, 9])
        .unwrap();
    assert_eq!(entries(&out.u), vec![vec![1, 3], vec![2, 4]]);
    assert_eq!(out.s, vec![4, 2]);
    assert_eq!(entries(&out.vt), vec![vec![1, 4, 7], vec![2, 5, 8], vec![3, 6, 9]]);
    let err = OpenClSvd {}
        .assemble(2, 3, -1, vec![4, 2], vec![1, 2, 3, 4], vec![1, 2, 3, 4, 5, 6, 7, 8, 9])
        .unwrap_err();
    assert_eq!(err, SvdError::MagmaFailure(-1));
}
