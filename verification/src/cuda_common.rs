use vstd::prelude::*;

use crate::svd::{Buffer, CopyDirection, SvdError};

verus! {

/// Status code that the CUDA driver and cuSOLVER use for success.
pub const SUCCESS_STATUS: u32 = 0;

/// Reads a CUDA driver status (`status_name` is the driver's name for it):
/// success is Ok, anything else names the operation and the status.
pub fn check_cuda(status: u32, status_name: String, operation: String) -> (res: Result<
    (),
    SvdError,
>)
    ensures
        res is Ok <==> status == SUCCESS_STATUS,
        res matches Err(e) ==> e == (SvdError::DriverFailure { operation, status, status_name }),
{
    if status == SUCCESS_STATUS {
        Ok(())
    } else {
        Err(SvdError::DriverFailure { operation, status, status_name })
    }
}

/// Reads a cuSOLVER status (`status_name` is cuSOLVER's name for it): success
/// is Ok, anything else names the operation and the status.
pub fn check_cusolver(status: u32, status_name: String, operation: String) -> (res: Result<
    (),
    SvdError,
>)
    ensures
        res is Ok <==> status == SUCCESS_STATUS,
        res matches Err(e) ==> e == (SvdError::SolverFailure { operation, status, status_name }),
{
    if status == SUCCESS_STATUS {
        Ok(())
    } else {
        Err(SvdError::SolverFailure { operation, status, status_name })
    }
}

/// Byte size of `elements` values of type `T`, or an overflow error naming the buffer.
pub fn checked_bytes<T>(elements: usize, buffer: Buffer) -> (res: Result<usize, SvdError>)
    ensures
        res is Ok <==> elements * vstd::layout::size_of::<T>() <= usize::MAX,
        res matches Ok(bytes) ==> bytes == elements * vstd::layout::size_of::<T>(),
        res matches Err(e) ==> e == SvdError::ByteSizeOverflow(buffer),
{
    let size = core::mem::size_of::<T>();
    match elements.checked_mul(size) {
        Some(bytes) => Ok(bytes),
        None => Err(SvdError::ByteSizeOverflow(buffer)),
    }
}

/// The extent of a device buffer: how many bytes were allocated for it.
#[derive(Debug)]
pub struct DeviceExtent {
    bytes: usize,
    buffer: Buffer,
}

impl DeviceExtent {
    /// Bytes allocated.
    pub closed spec fn capacity(&self) -> nat {
        self.bytes as nat
    }

    /// The buffer this extent belongs to.
    pub closed spec fn kind(&self) -> Buffer {
        self.buffer
    }

    /// Admits an allocation of `bytes` for `buffer`; an empty allocation is refused.
    pub fn new(bytes: usize, buffer: Buffer) -> (res: Result<DeviceExtent, SvdError>)
        ensures
            res is Ok <==> bytes > 0,
            res matches Ok(extent) ==> extent.capacity() == bytes && extent.kind() == buffer,
            res matches Err(e) ==> e == SvdError::ZeroSizedAllocation(buffer),
    {
        if bytes == 0 {
            Err(SvdError::ZeroSizedAllocation(buffer))
        } else {
            Ok(DeviceExtent { bytes, buffer })
        }
    }

    /// Bytes allocated.
    pub fn bytes(&self) -> (b: usize)
        ensures
            b == self.capacity(),
    {
        self.bytes
    }

    /// The buffer this extent belongs to.
    pub fn buffer(&self) -> (b: Buffer)
        ensures
            b == self.kind(),
    {
        self.buffer
    }

    /// Admits a copy of `bytes` into or out of this buffer (as `direction`
    /// says); a copy larger than the buffer is refused.
    pub fn check_transfer(&self, bytes: usize, direction: CopyDirection) -> (res: Result<
        (),
        SvdError,
    >)
        ensures
            res is Ok <==> bytes <= self.capacity(),
            res matches Err(e) ==> e == (SvdError::TransferTooLarge {
                buffer: self.kind(),
                direction,
                requested: bytes,
                capacity: self.capacity() as usize,
            }),
    {
        if bytes > self.bytes {
            Err(
                SvdError::TransferTooLarge {
                    buffer: self.buffer,
                    direction,
                    requested: bytes,
                    capacity: self.bytes,
                },
            )
        } else {
            Ok(())
        }
    }
}

} // verus!
