use svdwrapper::cuda::{
    next_gesvd_step, GesvdEvent, GesvdStep,
    assemble_solver_output, check_dev_info, check_workspace, pack_solver_input, plan_cuda_svd,
};
use svdwrapper::cuda_common::{check_cuda, check_cusolver, checked_bytes, DeviceExtent};
use svdwrapper::matrix::Matrix;
use svdwrapper::{Buffer, CopyDirection, SolverJob, SvdError, SvdMode};

fn entries(m: &Matrix<i32>) -> Vec<Vec<i32>> {
    (0..m.nrows()).map(|r| (0..m.ncols()).map(|c| *m.get(r, c)).collect()).collect()
}

#[test]
fn plan_for_tall_full() {
    let plan = plan_cuda_svd(4, 3, SvdMode::Full).unwrap();
    assert!(!plan.transposed);
    assert_eq!((plan.solver_rows, plan.solver_cols), (4, 3));
    assert_eq!((plan.solver_rows_i32, plan.solver_cols_i32), (4, 3));
    assert_eq!((plan.u_cols, plan.vt_rows), (4, 3));
    assert_eq!(plan.job, SolverJob::All);
    assert_eq!((plan.input_elements, plan.u_elements, plan.vt_elements), (12, 16, 9));
}

#[test]
fn plan_for_wide_reduced() {
    let plan = plan_cuda_svd(3, 4, SvdMode::Reduced).unwrap();
    assert!(plan.transposed);
    assert_eq!((plan.solver_rows, plan.solver_cols), (4, 3));
    assert_eq!((plan.u_cols, plan.vt_rows), (3, 3));
    assert_eq!(plan.job, SolverJob::Leading);
    assert_eq!((plan.input_elements, plan.u_elements, plan.vt_elements), (12, 12, 9));
}

#[test]
fn plan_for_wide_full() {
    let plan = plan_cuda_svd(2, 5, SvdMode::Full).unwrap();
    assert!(plan.transposed);
    assert_eq!((plan.solver_rows, plan.solver_cols), (5, 2));
    assert_eq!((plan.u_elements, plan.vt_elements), (25, 4));
}

#[test]
fn plan_refuses_empty_input() {
    assert_eq!(plan_cuda_svd(0, 3, SvdMode::Full).unwrap_err(), SvdError::EmptyInput);
    assert_eq!(plan_cuda_svd(3, 0, SvdMode::Reduced).unwrap_err(), SvdError::EmptyInput);
}

#[test]
fn plan_refuses_rows_past_i32() {
    let err = plan_cuda_svd(1usize << 31, 1, SvdMode::Full).unwrap_err();
    assert_eq!(err, SvdError::TooManyRows);
    let err = plan_cuda_svd(1, 1usize << 31, SvdMode::Reduced).unwrap_err();
    assert_eq!(err, SvdError::TooManyRows);
}

#[test]
fn plan_accepts_i32_max_rows() {
    let plan = plan_cuda_svd(i32::MAX as usize, 1, SvdMode::Reduced).unwrap();
    assert_eq!(plan.solver_rows_i32, i32::MAX);
}

#[test]
fn pack_tall_is_column_major() {
    // [[1, 2], [3, 4], [5, 6]]
    let a = Matrix::from_shape_vec(3, 2, vec![1, 2, 3, 4, 5, 6]).unwrap();
    let plan = plan_cuda_svd(3, 2, SvdMode::Full).unwrap();
    assert_eq!(pack_solver_input(&a, &plan), vec![1, 3, 5, 2, 4, 6]);
}

#[test]
fn pack_wide_is_transposed_column_major() {
    // [[1, 2, 3], [4, 5, 6]]; the solver sees its 3 x 2 transpose.
    let a = Matrix::from_shape_vec(2, 3, vec![1, 2, 3, 4, 5, 6]).unwrap();
    let plan = plan_cuda_svd(2, 3, SvdMode::Full).unwrap();
    let packed = pack_solver_input(&a, &plan);
    assert_eq!(packed, vec![1, 2, 3, 4, 5, 6]);
    for r in 0..3 {
        for c in 0..2 {
            assert_eq!(packed[c * 3 + r], *a.get(c, r));
        }
    }
}

#[test]
fn workspace_must_be_positive() {
    assert_eq!(check_workspace(0), Err(SvdError::InvalidWorkspaceSize(0)));
    assert_eq!(check_workspace(-4), Err(SvdError::InvalidWorkspaceSize(-4)));
    assert_eq!(check_workspace(128), Ok(128));
}

#[test]
fn dev_info_codes() {
    assert_eq!(check_dev_info(0), Ok(()));
    assert_eq!(check_dev_info(-2), Err(SvdError::ArgumentRejected(2)));
    assert_eq!(check_dev_info(i32::MIN), Err(SvdError::ArgumentRejected(2147483648)));
    assert_eq!(check_dev_info(3), Err(SvdError::NotConverged(3)));
}

#[test]
fn assemble_tall_full() {
    let plan = plan_cuda_svd(3, 2, SvdMode::Full).unwrap();
    // solver U is 3 x 3, solver Vt is 2 x 2, both column-major.
    let u_col = vec![1, 2, 3, 4, 5, 6, 7, 8, 9];
    let vt_col = vec![10, 20, 30, 40];
    let out = assemble_solver_output(&plan, vec![7, 3], u_col, vt_col);
    assert_eq!(out.s, vec![7, 3]);
    assert_eq!(entries(&out.u), vec![vec![1, 4, 7], vec![2, 5, 8], vec![3, 6, 9]]);
    assert_eq!(entries(&out.vt), vec![vec![10, 30], vec![20, 40]]);
}

#[test]
fn assemble_wide_reduced_maps_factors_back() {
    let plan = plan_cuda_svd(2, 3, SvdMode::Reduced).unwrap();
    // The solver decomposed the 3 x 2 transpose: its U is 3 x 2, its Vt 2 x 2.
    let u_col = vec![1, 2, 3, 4, 5, 6];
    let vt_col = vec![10, 20, 30, 40];
    let out = assemble_solver_output(&plan, vec![9, 1], u_col, vt_col);
    assert_eq!(out.u.dims(), (2, 2));
    assert_eq!(out.vt.dims(), (2, 3));
    // U is the transpose of the solver's Vt [[10, 30], [20, 40]].
    assert_eq!(entries(&out.u), vec![vec![10, 20], vec![30, 40]]);
    // Vt is the transpose of the solver's U [[1, 4], [2, 5], [3, 6]].
    assert_eq!(entries(&out.vt), vec![vec![1, 2, 3], vec![4, 5, 6]]);
}

#[test]
fn assembled_shapes_follow_mode() {
    for &(rows, cols) in &[(4usize, 3usize), (3, 4), (3, 3), (1, 5), (5, 1)] {
        for &mode in &[SvdMode::Full, SvdMode::Reduced] {
            let plan = plan_cuda_svd(rows, cols, mode).unwrap();
            let k = rows.min(cols);
            let out = assemble_solver_output(
                &plan,
                vec![0; plan.solver_cols],
                vec![0; plan.u_elements],
                vec![0; plan.vt_elements],
            );
            assert_eq!(out.s.len(), k);
            match mode {
                SvdMode::Full => {
                    assert_eq!(out.u.dims(), (rows, rows));
                    assert_eq!(out.vt.dims(), (cols, cols));
                },
                SvdMode::Reduced => {
                    assert_eq!(out.u.dims(), (rows, k));
                    assert_eq!(out.vt.dims(), (k, cols));
                },
            }
        }
    }
}

#[test]
fn cuda_status_codes() {
    assert_eq!(check_cuda(0, "CUDA_SUCCESS".to_string(), "cuInit".to_string()), Ok(()));
    assert_eq!(
        check_cuda(100, "CUDA_ERROR_NO_DEVICE".to_string(), "cuDeviceGet".to_string()),
        Err(SvdError::DriverFailure {
            operation: "cuDeviceGet".to_string(),
            status: 100,
            status_name: "CUDA_ERROR_NO_DEVICE".to_string(),
        })
    );
    assert_eq!(
        check_cusolver(0, "CUSOLVER_STATUS_SUCCESS".to_string(), "cusolverDnCreate".to_string()),
        Ok(())
    );
    assert_eq!(
        check_cusolver(7, "CUSOLVER_STATUS_INTERNAL_ERROR".to_string(), "cusolverDnDgesvd".to_string()),
        Err(SvdError::SolverFailure {
            operation: "cusolverDnDgesvd".to_string(),
            status: 7,
            status_name: "CUSOLVER_STATUS_INTERNAL_ERROR".to_string(),
        })
    );
}

#[test]
fn byte_sizes() {
    assert_eq!(checked_bytes::<f64>(3, Buffer::Input), Ok(24));
    assert_eq!(checked_bytes::<f32>(3, Buffer::Input), Ok(12));
    assert_eq!(checked_bytes::<i32>(1, Buffer::DeviceInfo), Ok(4));
    assert_eq!(
        checked_bytes::<f64>(usize::MAX / 4, Buffer::LeftVectors),
        Err(SvdError::ByteSizeOverflow(Buffer::LeftVectors))
    );
}

#[test]
fn device_extents() {
    assert_eq!(
        DeviceExtent::new(0, Buffer::Workspace).unwrap_err(),
        SvdError::ZeroSizedAllocation(Buffer::Workspace)
    );
    let extent = DeviceExtent::new(16, Buffer::Input).unwrap();
    assert_eq!(extent.bytes(), 16);
    assert_eq!(extent.buffer(), Buffer::Input);
    assert_eq!(DeviceExtent::new(4, Buffer::DeviceInfo).unwrap().buffer(), Buffer::DeviceInfo);
    assert_eq!(extent.check_transfer(16, CopyDirection::HostToDevice), Ok(()));
    assert_eq!(extent.check_transfer(8, CopyDirection::DeviceToHost), Ok(()));
    assert_eq!(
        extent.check_transfer(17, CopyDirection::DeviceToHost),
        Err(SvdError::TransferTooLarge {
            buffer: Buffer::Input,
            direction: CopyDirection::DeviceToHost,
            requested: 17,
            capacity: 16,
        })
    );
}

#[test]
fn solver_matrix_is_tall_for_every_shape() {
    for rows in 1..6usize {
        for cols in 1..6usize {
            for &mode in &[SvdMode::Full, SvdMode::Reduced] {
                let plan = plan_cuda_svd(rows, cols, mode).unwrap();
                assert!(plan.solver_rows >= plan.solver_cols);
                assert_eq!(plan.solver_cols, rows.min(cols));
                assert_eq!(plan.transposed, rows < cols);
                let a = Matrix::from_shape_vec(rows, cols, (0..(rows * cols) as i32).collect()).unwrap();
                let packed = pack_solver_input(&a, &plan);
                assert_eq!(packed.len(), plan.input_elements);
                let seen = Matrix::from_column_major(plan.solver_rows, plan.solver_cols, packed).unwrap();
                let expected = if plan.transposed { a.transpose() } else { a };
                assert_eq!(entries(&seen), entries(&expected));
            }
        }
    }
}

fn reconstruct(u: &Matrix<i32>, s: &[i32], vt: &Matrix<i32>) -> Vec<Vec<i32>> {
    (0..u.nrows())
        .map(|i| {
            (0..vt.ncols())
                .map(|j| (0..s.len()).map(|t| u.get(i, t) * s[t] * vt.get(t, j)).sum())
                .collect()
        })
        .collect()
}

#[test]
fn wide_factors_reconstruct_the_input() {
    // The solver decomposes the 3 x 2 transpose of a 2 x 3 input; whatever
    // factors it returns, the mapped factors reconstruct the transpose of what
    // the solver's factors reconstruct.
    let plan = plan_cuda_svd(2, 3, SvdMode::Reduced).unwrap();
    let u_col = vec![1, -2, 3, 4, 0, -1];
    let vt_col = vec![2, 1, -3, 5];
    let s = vec![3, 2];
    let solver_u = Matrix::from_column_major(plan.solver_rows, plan.u_cols, u_col.clone()).unwrap();
    let solver_vt = Matrix::from_column_major(plan.vt_rows, plan.solver_cols, vt_col.clone()).unwrap();
    let solver_product = reconstruct(&solver_u, &s, &solver_vt);

    let out = assemble_solver_output(&plan, s.clone(), u_col, vt_col);
    let product = reconstruct(&out.u, &out.s, &out.vt);
    for i in 0..2 {
        for j in 0..3 {
            assert_eq!(product[i][j], solver_product[j][i]);
        }
    }
}

#[test]
fn gesvd_clean_run_reaches_assembly() {
    let mut step = GesvdStep::PrepareBuffers;
    let events = [
        GesvdEvent::BuffersReady,
        GesvdEvent::WorkspaceSize(64),
        GesvdEvent::WorkspaceReady,
        GesvdEvent::Solved(0),
        GesvdEvent::FactorsRead,
    ];
    let expected = [
        GesvdStep::QueryWorkspace,
        GesvdStep::AllocateWorkspace { elements: 64, lwork: 64 },
        GesvdStep::Solve { lwork: 64 },
        GesvdStep::ReadFactors,
        GesvdStep::Assemble,
    ];
    for (event, want) in events.iter().zip(expected.iter()) {
        step = next_gesvd_step(step, *event);
        assert_eq!(&step, want);
    }
}

#[test]
fn gesvd_steps_refuse_bad_reports() {
    assert_eq!(
        next_gesvd_step(GesvdStep::QueryWorkspace, GesvdEvent::WorkspaceSize(0)),
        GesvdStep::Fail(SvdError::InvalidWorkspaceSize(0))
    );
    assert_eq!(
        next_gesvd_step(GesvdStep::Solve { lwork: 8 }, GesvdEvent::Solved(-4)),
        GesvdStep::Fail(SvdError::ArgumentRejected(4))
    );
    assert_eq!(
        next_gesvd_step(GesvdStep::Solve { lwork: 8 }, GesvdEvent::Solved(2)),
        GesvdStep::Fail(SvdError::NotConverged(2))
    );
}

#[test]
fn gesvd_steps_wait_for_their_report() {
    assert_eq!(
        next_gesvd_step(GesvdStep::Solve { lwork: 8 }, GesvdEvent::FactorsRead),
        GesvdStep::Solve { lwork: 8 }
    );
    assert_eq!(
        next_gesvd_step(GesvdStep::PrepareBuffers, GesvdEvent::Solved(0)),
        GesvdStep::PrepareBuffers
    );
    assert_eq!(
        next_gesvd_step(
            GesvdStep::AllocateWorkspace { elements: 8, lwork: 8 },
            GesvdEvent::BuffersReady
        ),
        GesvdStep::AllocateWorkspace { elements: 8, lwork: 8 }
    );
    let failed = GesvdStep::Fail(SvdError::NotConverged(1));
    assert_eq!(next_gesvd_step(failed.clone(), GesvdEvent::Solved(0)), failed);
    assert_eq!(next_gesvd_step(GesvdStep::Assemble, GesvdEvent::FactorsRead), GesvdStep::Assemble);
}
