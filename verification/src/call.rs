//! One call through the driver interface: what was asked, and what the
//! backend answered.
use vstd::prelude::*;
use crate::handle::{CUcontext, CUdeviceptr, CUstream, CUuuid};
use crate::result::CUresult;

verus! {

/// An operation of the driver interface together with its inputs.
#[derive(Clone, Copy, Debug, PartialEq, Eq, Structural, Hash)]
pub enum Request {
    /// Set the driver up, once per process.
    Init { flags: u32 },
    /// Create a context on a device and make it current.
    CtxCreate { flags: u32, dev: i32 },
    /// Release a context.
    CtxDestroy { ctx: CUcontext },
    /// Take the current context off the calling thread.
    CtxPopCurrent,
    /// Ask for the interface version that a context was created with.
    CtxGetApiVersion { ctx: CUcontext },
    /// Read the current context and leave it in place.
    CtxGetCurrent,
    /// Allocate device memory in the current context.
    MemAlloc { bytesize: usize },
    /// Ask for a device's identifier.
    DeviceGetUuid { dev: i32 },
    /// Ask whether a device's primary context is active, and for its flags.
    DevicePrimaryCtxGetState { dev: i32 },
    /// Ask for the context that a stream belongs to.
    StreamGetCtx { stream: CUstream },
}

/// What stands behind the output parameters of a call, before it or after.
#[derive(Clone, Copy, Debug, PartialEq, Eq, Structural, Hash)]
pub enum Written {
    /// The operation has no output parameter.
    Nothing,
    Context(CUcontext),
    Version(u32),
    DevicePtr(CUdeviceptr),
    Uuid(CUuuid),
    PrimaryCtxState { flags: u32, active: i32 },
}

/// A request and the backend's answer to it.
#[derive(Clone, Copy, Debug, PartialEq, Eq, Structural, Hash)]
pub struct Call {
    pub request: Request,
    /// What stood behind the output parameters when the call was made.
    pub given: Written,
    /// The result code that the call returned.
    pub code: CUresult,
    /// What stood behind the output parameters when the call returned.
    pub written: Written,
}

/// The record of a request that was made over the outputs `given` and
/// answered with `code` and `written`.
pub open spec fn answered(request: Request, given: Written, code: CUresult, written: Written) -> Call {
    Call { request, given, code, written }
}

impl Request {
    /// The outputs of this operation with nothing in them: every handle and
    /// address null, every number zero.
    pub open spec fn spec_blank(self) -> Written {
        match self {
            Request::Init { .. } => Written::Nothing,
            Request::CtxCreate { .. } => Written::Context(CUcontext(0)),
            Request::CtxDestroy { .. } => Written::Nothing,
            Request::CtxPopCurrent => Written::Context(CUcontext(0)),
            Request::CtxGetApiVersion { .. } => Written::Version(0),
            Request::CtxGetCurrent => Written::Context(CUcontext(0)),
            Request::MemAlloc { .. } => Written::DevicePtr(CUdeviceptr(0)),
            Request::DeviceGetUuid { .. } => Written::Uuid(CUuuid(0)),
            Request::DevicePrimaryCtxGetState { .. } => Written::PrimaryCtxState {
                flags: 0,
                active: 0,
            },
            Request::StreamGetCtx { .. } => Written::Context(CUcontext(0)),
        }
    }

    #[verifier::when_used_as_spec(spec_blank)]
    pub fn blank(self) -> (outputs: Written)
        ensures
            outputs == self.spec_blank(),
    {
        match self {
            Request::Init { .. } => Written::Nothing,
            Request::CtxCreate { .. } => Written::Context(CUcontext(0)),
            Request::CtxDestroy { .. } => Written::Nothing,
            Request::CtxPopCurrent => Written::Context(CUcontext(0)),
            Request::CtxGetApiVersion { .. } => Written::Version(0),
            Request::CtxGetCurrent => Written::Context(CUcontext(0)),
            Request::MemAlloc { .. } => Written::DevicePtr(CUdeviceptr(0)),
            Request::DeviceGetUuid { .. } => Written::Uuid(CUuuid(0)),
            Request::DevicePrimaryCtxGetState { .. } => Written::PrimaryCtxState {
                flags: 0,
                active: 0,
            },
            Request::StreamGetCtx { .. } => Written::Context(CUcontext(0)),
        }
    }
}

impl Call {
    /// The context handle that the call wrote, or the null handle where it
    /// wrote something else.
    pub open spec fn spec_context(self) -> CUcontext {
        match self.written {
            Written::Context(ctx) => ctx,
            _ => CUcontext(0),
        }
    }

    #[verifier::when_used_as_spec(spec_context)]
    pub fn context(self) -> (ctx: CUcontext)
        ensures
            ctx == self.spec_context(),
    {
        match self.written {
            Written::Context(ctx) => ctx,
            _ => CUcontext(0),
        }
    }
}

} // verus!
