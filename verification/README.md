# svdwrapper

Dense singular value decomposition `A = U * diag(S) * Vt` behind one API, with
interchangeable numerical backends (LAPACK on the CPU, cuSOLVER on NVIDIA GPUs).

## Layout

- `src/` — the verified library (Verus). It decides everything around the
  numerical solver:
  - `svd.rs`: output modes and the factor shapes they ask for, solver jobs,
    the error type and the exact text of each error's message, the rejection
    of empty inputs, and which backends a build offers;
  - `text.rs`: decimal notation of integers, for the messages;
  - `matrix.rs`: a dense matrix with row-major storage; column-major layout
    and read-back, transposition, and the laws relating them;
  - `cpu.rs`: the LAPACK backends' input checks and factor collection, with
    the factor shapes each mode asks for;
  - `cuda.rs`: planning a cuSOLVER gesvd call (transposing wide inputs, 32-bit
    limits, buffer element counts), laying out the input, reading workspace
    sizes and devInfo, mapping the solver's factors back, and the order of the
    steps of a device run (the factors are read only after devInfo is 0);
  - `cuda_common.rs`: CUDA status codes, byte sizes, device buffer extents;
  - `julia.rs`, `opencl.rs`: input layout, the factor size requested, and
    column-major output reading for the Julia and MAGMA paths.
- `app/` — ordinary Rust: the `Svd<T>` API over `ndarray` matrices, the calls
  into ndarray-linalg and the CUDA driver/cuSOLVER, and a benchmark `main`.
  The Julia backend is not part of this build: it needs the jlrs crate, which
  needs a Julia installation at build time, so `Svd::new(Backend::Julia)`
  reports that the backend is not compiled. The MAGMA path has no bindings
  here either; only its input layout and output reading exist, in `src/`.
- `tests/` — tests of the library on concrete values.
