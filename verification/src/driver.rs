//! The capability contract: every driver operation that the harness
//! exercises, stated once and independent of the backend behind it.
use vstd::prelude::*;
use crate::call::{answered, Call, Request, Written};
use crate::handle::{CUcontext, CUdeviceptr, CUstream, CUuuid};
use crate::result::CUresult;

verus! {

/// The driver operations under test. A backend answers each call with a
/// result code and writes its outputs through the `&mut` parameters; what it
/// answers is its own affair, and a scenario judges it afterwards.
///
/// Every backend keeps a record of the calls it has answered. The record is
/// what the contracts of this crate speak of: each operation appends exactly
/// one entry, holding the request as it was made, the outputs as they stood
/// when the call was made, the code that was returned and the outputs as
/// they stood on return. Each operation also says, by [`serves`], where the
/// answer came from.
///
/// [`serves`]: CudaDriverFns::serves
pub trait CudaDriverFns: Sized {
    /// The calls answered so far, oldest first.
    spec fn calls(&self) -> Seq<Call>;

    /// Whether this backend can answer `call` and be left as `after`: what
    /// stands behind the backend gave this answer to this request.
    spec fn serves(&self, call: Call, after: &Self) -> bool;

    /// Sets the driver up. `flags` must be 0 on current driver versions.
    fn cuInit(&mut self, flags: u32) -> (code: CUresult)
        ensures
            final(self).calls() == old(self).calls().push(
                answered(Request::Init { flags }, Written::Nothing, code, Written::Nothing),
            ),
            old(self).serves(
                answered(Request::Init { flags }, Written::Nothing, code, Written::Nothing),
                final(self),
            ),
    ;

    /// Creates a context on device `dev` and writes its handle to `pctx`.
    fn cuCtxCreate_v2(&mut self, pctx: &mut CUcontext, flags: u32, dev: i32) -> (code: CUresult)
        ensures
            final(self).calls() == old(self).calls().push(
                answered(
                    Request::CtxCreate { flags, dev },
                    Written::Context(*old(pctx)),
                    code,
                    Written::Context(*final(pctx)),
                ),
            ),
            old(self).serves(
                answered(
                    Request::CtxCreate { flags, dev },
                    Written::Context(*old(pctx)),
                    code,
                    Written::Context(*final(pctx)),
                ),
                final(self),
            ),
    ;

    /// Releases the context `ctx`.
    fn cuCtxDestroy_v2(&mut self, ctx: CUcontext) -> (code: CUresult)
        ensures
            final(self).calls() == old(self).calls().push(
                answered(Request::CtxDestroy { ctx }, Written::Nothing, code, Written::Nothing),
            ),
            old(self).serves(
                answered(Request::CtxDestroy { ctx }, Written::Nothing, code, Written::Nothing),
                final(self),
            ),
    ;

    /// Takes the current context off the calling thread and writes its
    /// handle to `pctx`.
    fn cuCtxPopCurrent_v2(&mut self, pctx: &mut CUcontext) -> (code: CUresult)
        ensures
            final(self).calls() == old(self).calls().push(
                answered(
                    Request::CtxPopCurrent,
                    Written::Context(*old(pctx)),
                    code,
                    Written::Context(*final(pctx)),
                ),
            ),
            old(self).serves(
                answered(
                    Request::CtxPopCurrent,
                    Written::Context(*old(pctx)),
                    code,
                    Written::Context(*final(pctx)),
                ),
                final(self),
            ),
    ;

    /// Writes the interface version of the context `ctx` to `version`.
    fn cuCtxGetApiVersion(&mut self, ctx: CUcontext, version: &mut u32) -> (code: CUresult)
        ensures
            final(self).calls() == old(self).calls().push(
                answered(
                    Request::CtxGetApiVersion { ctx },
                    Written::Version(*old(version)),
                    code,
                    Written::Version(*final(version)),
                ),
            ),
            old(self).serves(
                answered(
                    Request::CtxGetApiVersion { ctx },
                    Written::Version(*old(version)),
                    code,
                    Written::Version(*final(version)),
                ),
                final(self),
            ),
    ;

    /// Writes the handle of the current context to `pctx` and leaves the
    /// context current.
    fn cuCtxGetCurrent(&mut self, pctx: &mut CUcontext) -> (code: CUresult)
        ensures
            final(self).calls() == old(self).calls().push(
                answered(
                    Request::CtxGetCurrent,
                    Written::Context(*old(pctx)),
                    code,
                    Written::Context(*final(pctx)),
                ),
            ),
            old(self).serves(
                answered(
                    Request::CtxGetCurrent,
                    Written::Context(*old(pctx)),
                    code,
                    Written::Context(*final(pctx)),
                ),
                final(self),
            ),
    ;

    /// Allocates `bytesize` bytes on the device of the current context and
    /// writes their address to `dptr`.
    fn cuMemAlloc_v2(&mut self, dptr: &mut CUdeviceptr, bytesize: usize) -> (code: CUresult)
        ensures
            final(self).calls() == old(self).calls().push(
                answered(
                    Request::MemAlloc { bytesize },
                    Written::DevicePtr(*old(dptr)),
                    code,
                    Written::DevicePtr(*final(dptr)),
                ),
            ),
            old(self).serves(
                answered(
                    Request::MemAlloc { bytesize },
                    Written::DevicePtr(*old(dptr)),
                    code,
                    Written::DevicePtr(*final(dptr)),
                ),
                final(self),
            ),
    ;

    /// Writes the identifier of device `dev` to `uuid`.
    fn cuDeviceGetUuid(&mut self, uuid: &mut CUuuid, dev: i32) -> (code: CUresult)
        ensures
            final(self).calls() == old(self).calls().push(
                answered(
                    Request::DeviceGetUuid { dev },
                    Written::Uuid(*old(uuid)),
                    code,
                    Written::Uuid(*final(uuid)),
                ),
            ),
            old(self).serves(
                answered(
                    Request::DeviceGetUuid { dev },
                    Written::Uuid(*old(uuid)),
                    code,
                    Written::Uuid(*final(uuid)),
                ),
                final(self),
            ),
    ;

    /// Writes to `flags` and `active` the flags of the primary context of
    /// device `dev` and whether it is active.
    fn cuDevicePrimaryCtxGetState(&mut self, dev: i32, flags: &mut u32, active: &mut i32) -> (code:
        CUresult)
        ensures
            final(self).calls() == old(self).calls().push(
                answered(
                    Request::DevicePrimaryCtxGetState { dev },
                    Written::PrimaryCtxState { flags: *old(flags), active: *old(active) },
                    code,
                    Written::PrimaryCtxState { flags: *final(flags), active: *final(active) },
                ),
            ),
            old(self).serves(
                answered(
                    Request::DevicePrimaryCtxGetState { dev },
                    Written::PrimaryCtxState { flags: *old(flags), active: *old(active) },
                    code,
                    Written::PrimaryCtxState { flags: *final(flags), active: *final(active) },
                ),
                final(self),
            ),
    ;

    /// Writes to `pctx` the handle of the context that owns `hStream`.
    fn cuStreamGetCtx(&mut self, hStream: CUstream, pctx: &mut CUcontext) -> (code: CUresult)
        ensures
            final(self).calls() == old(self).calls().push(
                answered(
                    Request::StreamGetCtx { stream: hStream },
                    Written::Context(*old(pctx)),
                    code,
                    Written::Context(*final(pctx)),
                ),
            ),
            old(self).serves(
                answered(
                    Request::StreamGetCtx { stream: hStream },
                    Written::Context(*old(pctx)),
                    code,
                    Written::Context(*final(pctx)),
                ),
                final(self),
            ),
    ;
}

/// Whether one operation on the backend `before` answered `call` and left
/// the backend as `after`: the record has grown by the call, and the call is
/// one that the backend serves.
pub open spec fn answers<B: CudaDriverFns>(before: &B, call: Call, after: &B) -> bool {
    &&& after.calls() == before.calls().push(call)
    &&& before.serves(call, after)
}

/// Makes the one call that `request` describes, over outputs that hold
/// nothing yet, and returns the record of it.
pub fn perform<B: CudaDriverFns>(backend: &mut B, request: Request) -> (call: Call)
    ensures
        answers(old(backend), call, final(backend)),
        call.request == request,
        call.given == request.spec_blank(),
{
    let given = request.blank();
    match request {
        Request::Init { flags } => {
            let code = backend.cuInit(flags);
            Call { request, given, code, written: Written::Nothing }
        },
        Request::CtxCreate { flags, dev } => {
            let mut ctx = CUcontext(0);
            let code = backend.cuCtxCreate_v2(&mut ctx, flags, dev);
            Call { request, given, code, written: Written::Context(ctx) }
        },
        Request::CtxDestroy { ctx } => {
            let code = backend.cuCtxDestroy_v2(ctx);
            Call { request, given, code, written: Written::Nothing }
        },
        Request::CtxPopCurrent => {
            let mut ctx = CUcontext(0);
            let code = backend.cuCtxPopCurrent_v2(&mut ctx);
            Call { request, given, code, written: Written::Context(ctx) }
        },
        Request::CtxGetApiVersion { ctx } => {
            let mut version: u32 = 0;
            let code = backend.cuCtxGetApiVersion(ctx, &mut version);
            Call { request, given, code, written: Written::Version(version) }
        },
        Request::CtxGetCurrent => {
            let mut ctx = CUcontext(0);
            let code = backend.cuCtxGetCurrent(&mut ctx);
            Call { request, given, code, written: Written::Context(ctx) }
        },
        Request::MemAlloc { bytesize } => {
            let mut dptr = CUdeviceptr(0);
            let code = backend.cuMemAlloc_v2(&mut dptr, bytesize);
            Call { request, given, code, written: Written::DevicePtr(dptr) }
        },
        Request::DeviceGetUuid { dev } => {
            let mut uuid = CUuuid(0);
            let code = backend.cuDeviceGetUuid(&mut uuid, dev);
            Call { request, given, code, written: Written::Uuid(uuid) }
        },
        Request::DevicePrimaryCtxGetState { dev } => {
            let mut flags: u32 = 0;
            let mut active: i32 = 0;
            let code = backend.cuDevicePrimaryCtxGetState(dev, &mut flags, &mut active);
            Call { request, given, code, written: Written::PrimaryCtxState { flags, active } }
        },
        Request::StreamGetCtx { stream } => {
            let mut ctx = CUcontext(0);
            let code = backend.cuStreamGetCtx(stream, &mut ctx);
            Call { request, given, code, written: Written::Context(ctx) }
        },
    }
}

} // verus!
