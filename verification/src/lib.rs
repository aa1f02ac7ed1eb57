//! Backend-independent dense singular value decomposition.
//!
//! A decomposition `A = U * diag(S) * Vt` is computed by a numerical backend
//! (LAPACK on the CPU, cuSOLVER on an NVIDIA GPU, or Julia). This library holds
//! everything around the numerical solver that decides something: which factor
//! shapes a mode asks for, which inputs a backend refuses, how a matrix is laid
//! out for a column-major solver and read back, how a wide matrix is handed to
//! a solver that only takes tall ones, which buffer sizes a solver needs, how
//! solver status codes are read, and in which order a device run takes its
//! steps.

pub mod cpu;
pub mod cuda;
pub mod cuda_common;
pub mod julia;
pub mod matrix;
pub mod opencl;
pub mod svd;
pub mod text;

pub use crate::cpu::{CpuF32Svd, CpuF64Svd, CpuSvd};
pub use crate::julia::{JuliaF32Svd, JuliaF64Svd};
pub use crate::matrix::Matrix;
pub use crate::opencl::OpenClSvd;
pub use crate::svd::{
    Backend, Buffer, CopyDirection, Factor, SolverJob, SvdError, SvdMode, SvdOutput,
};
