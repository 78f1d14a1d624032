use vstd::prelude::*;

verus! {

/// The status code by which the native library reports success.
pub const STATUS_SUCCESS: i32 = 0;

/// A native call that failed, with the status code it returned.
#[derive(Clone, Copy, Debug, PartialEq, Eq, Structural)]
pub struct CudnnError {
    pub status: i32,
}

impl CudnnError {
    /// The native status code carried by this error.
    pub fn status(&self) -> (r: i32)
        ensures
            r == self.status,
    {
        self.status
    }
}

/// Reads a native status code: success, or the error that carries it.
pub fn into_result(status: i32) -> (r: Result<(), CudnnError>)
    ensures
        status == STATUS_SUCCESS <==> r is Ok,
        r is Err ==> r->Err_0 == (CudnnError { status }),
{
    if status == STATUS_SUCCESS {
        Ok(())
    } else {
        Err(CudnnError { status })
    }
}

} // verus!
