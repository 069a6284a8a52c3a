//! The result code that every driver operation returns, and the two ways a
//! backend arrives at one: by a numeric cast of the vendor's status, or by
//! encoding the reimplemented driver's own error.
use vstd::prelude::*;

verus! {

/// The operation completed.
pub const CUDA_SUCCESS: u32 = 0;

/// An argument was outside the accepted values, such as non-zero
/// initialization flags.
pub const CUDA_ERROR_INVALID_VALUE: u32 = 1;

/// The allocation could not be satisfied.
pub const CUDA_ERROR_OUT_OF_MEMORY: u32 = 2;

/// The driver was used before it was initialized.
pub const CUDA_ERROR_NOT_INITIALIZED: u32 = 3;

/// The device index does not name a device.
pub const CUDA_ERROR_INVALID_DEVICE: u32 = 101;

/// No context is current on the calling thread.
pub const CUDA_ERROR_INVALID_CONTEXT: u32 = 201;

/// The handle does not name a live resource: it was destroyed already, or
/// never created.
pub const CUDA_ERROR_INVALID_HANDLE: u32 = 400;

/// The status shared by both backends. Zero is success; every other value
/// names one error, with the same meaning whichever backend returned it.
#[derive(Clone, Copy, Debug, PartialEq, Eq, Structural, Hash)]
pub struct CUresult(pub u32);

impl CUresult {
    pub open spec fn spec_is_success(self) -> bool {
        self.0 == CUDA_SUCCESS
    }

    /// Whether this code reports success.
    #[verifier::when_used_as_spec(spec_is_success)]
    pub fn is_success(self) -> (b: bool)
        ensures
            b == self.spec_is_success(),
    {
        self.0 == CUDA_SUCCESS
    }

    pub open spec fn spec_from_native(status: u32) -> CUresult {
        CUresult(status)
    }

    /// The result code for a status of the vendor's driver. The two share
    /// width and numbering, so the status is carried over as it is and never
    /// translated.
    #[verifier::when_used_as_spec(spec_from_native)]
    pub fn from_native(status: u32) -> (code: CUresult)
        ensures
            code == Self::spec_from_native(status),
            code.0 == status,
            code.is_success() <==> status == 0,
    {
        CUresult(status)
    }
}

/// What can go wrong inside the reimplemented driver. It tells apart more
/// conditions than the result codes do.
#[derive(Clone, Copy, Debug, PartialEq, Eq, Structural, Hash)]
pub enum DriverError {
    /// Initialization was asked for with flags other than zero.
    UnsupportedFlags,
    /// An output or an argument was not usable.
    InvalidArgument,
    /// An operation came before initialization.
    NotInitialized,
    /// The device index is negative or not below the device count.
    DeviceOutOfRange,
    /// The calling thread has no current context.
    NoCurrentContext,
    /// The handle was destroyed before.
    AlreadyDestroyed,
    /// The handle never named a resource of this driver.
    UnknownHandle,
    /// The device has too little free memory for the request.
    DeviceMemoryExhausted,
    /// The host has too little free memory for the driver's bookkeeping.
    HostMemoryExhausted,
}

impl DriverError {
    /// The one result code that stands for this error.
    pub open spec fn spec_code(self) -> CUresult {
        match self {
            DriverError::UnsupportedFlags => CUresult(CUDA_ERROR_INVALID_VALUE),
            DriverError::InvalidArgument => CUresult(CUDA_ERROR_INVALID_VALUE),
            DriverError::NotInitialized => CUresult(CUDA_ERROR_NOT_INITIALIZED),
            DriverError::DeviceOutOfRange => CUresult(CUDA_ERROR_INVALID_DEVICE),
            DriverError::NoCurrentContext => CUresult(CUDA_ERROR_INVALID_CONTEXT),
            DriverError::AlreadyDestroyed => CUresult(CUDA_ERROR_INVALID_HANDLE),
            DriverError::UnknownHandle => CUresult(CUDA_ERROR_INVALID_HANDLE),
            DriverError::DeviceMemoryExhausted => CUresult(CUDA_ERROR_OUT_OF_MEMORY),
            DriverError::HostMemoryExhausted => CUresult(CUDA_ERROR_OUT_OF_MEMORY),
        }
    }

    /// Maps the error down to the flat space of result codes. Every error has
    /// a code, the code is never the success code, and it depends on the
    /// error alone.
    #[verifier::when_used_as_spec(spec_code)]
    pub fn code(self) -> (code: CUresult)
        ensures
            code == self.spec_code(),
            !code.is_success(),
    {
        match self {
            DriverError::UnsupportedFlags => CUresult(CUDA_ERROR_INVALID_VALUE),
            DriverError::InvalidArgument => CUresult(CUDA_ERROR_INVALID_VALUE),
            DriverError::NotInitialized => CUresult(CUDA_ERROR_NOT_INITIALIZED),
            DriverError::DeviceOutOfRange => CUresult(CUDA_ERROR_INVALID_DEVICE),
            DriverError::NoCurrentContext => CUresult(CUDA_ERROR_INVALID_CONTEXT),
            DriverError::AlreadyDestroyed => CUresult(CUDA_ERROR_INVALID_HANDLE),
            DriverError::UnknownHandle => CUresult(CUDA_ERROR_INVALID_HANDLE),
            DriverError::DeviceMemoryExhausted => CUresult(CUDA_ERROR_OUT_OF_MEMORY),
            DriverError::HostMemoryExhausted => CUresult(CUDA_ERROR_OUT_OF_MEMORY),
        }
    }
}

/// The result code of an outcome of the reimplemented driver.
pub open spec fn spec_encuda(outcome: Result<(), DriverError>) -> CUresult {
    match outcome {
        Ok(_) => CUresult(CUDA_SUCCESS),
        Err(e) => e.spec_code(),
    }
}

/// Encodes an outcome of the reimplemented driver as the shared result code:
/// success as zero, an error as its code.
#[verifier::when_used_as_spec(spec_encuda)]
pub fn encuda(outcome: Result<(), DriverError>) -> (code: CUresult)
    ensures
        code == spec_encuda(outcome),
        code.is_success() <==> outcome is Ok,
{
    match outcome {
        Ok(_) => CUresult(CUDA_SUCCESS),
        Err(e) => e.code(),
    }
}

/// The vendor's statuses and the result codes correspond one to one: two
/// statuses give the same code only if they are the same status.
pub proof fn lemma_native_codes_one_to_one(a: u32, b: u32)
    ensures
        CUresult::spec_from_native(a) == CUresult::spec_from_native(b) <==> a == b,
{
}

/// Both backends mean the same by a code: whatever the reimplemented driver
/// reports, some status of the vendor's comes out as the same code, and it
/// is the success status exactly if the outcome is a success.
pub proof fn lemma_codes_shared(outcome: Result<(), DriverError>)
    ensures
        exists|status: u32|
            #[trigger] CUresult::spec_from_native(status) == spec_encuda(outcome) && (status
                == CUDA_SUCCESS <==> outcome is Ok),
{
    let status = spec_encuda(outcome).0;
    assert(CUresult::spec_from_native(status) == spec_encuda(outcome));
}

} // verus!
