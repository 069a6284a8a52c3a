//! The reimplementation backend: the driver interface answered by a driver
//! stack that stands in for the vendor's.
use vstd::prelude::*;
use crate::call::{answered, Call, Request, Written};
use crate::driver::CudaDriverFns;
use crate::handle::{CUcontext, CUdeviceptr, CUstream, CUuuid, Index};
use crate::result::{encuda, spec_encuda, CUresult, DriverError};

verus! {

/// What an operation of the driver stack returns: a result code, or an
/// outcome that carries the stack's own error.
#[derive(Clone, Copy, Debug)]
pub enum Reply {
    Code(CUresult),
    Outcome(Result<(), DriverError>),
}

impl Reply {
    /// The result code that stands for the reply: a code stands for itself,
    /// an outcome is encoded.
    pub open spec fn code(self) -> CUresult {
        match self {
            Reply::Code(code) => code,
            Reply::Outcome(outcome) => spec_encuda(outcome),
        }
    }
}

/// The reimplemented driver stack, under its own names. Some of its
/// operations report a result code themselves; the others return an outcome
/// with the stack's own error, which the backend encodes.
pub trait Reimplementation: Sized {
    /// Whether the stack, as it stands in `self`, may be asked `request`
    /// over the outputs `given`, return `reply`, leave the outputs as
    /// `written` and be left as `after`. A stack that is described in this
    /// crate's terms says here what it does; the body below is for every
    /// other stack, and admits every answer.
    open spec fn may_answer(
        &self,
        request: Request,
        given: Written,
        reply: Reply,
        written: Written,
        after: &Self,
    ) -> bool {
        true
    }

    fn init(&mut self, flags: u32) -> (code: CUresult)
        ensures
            old(self).may_answer(
                Request::Init { flags },
                Written::Nothing,
                Reply::Code(code),
                Written::Nothing,
                final(self),
            ),
    ;

    fn context_create_v2(&mut self, pctx: &mut CUcontext, flags: u32, dev: Index) -> (outcome:
        Result<(), DriverError>)
        ensures
            old(self).may_answer(
                Request::CtxCreate { flags, dev: dev.0 },
                Written::Context(*old(pctx)),
                Reply::Outcome(outcome),
                Written::Context(*final(pctx)),
                final(self),
            ),
    ;

    fn context_destroy_v2(&mut self, ctx: CUcontext) -> (code: CUresult)
        ensures
            old(self).may_answer(
                Request::CtxDestroy { ctx },
                Written::Nothing,
                Reply::Code(code),
                Written::Nothing,
                final(self),
            ),
    ;

    fn context_pop_current_v2(&mut self, pctx: &mut CUcontext) -> (code: CUresult)
        ensures
            old(self).may_answer(
                Request::CtxPopCurrent,
                Written::Context(*old(pctx)),
                Reply::Code(code),
                Written::Context(*final(pctx)),
                final(self),
            ),
    ;

    fn context_get_api_version(&mut self, ctx: CUcontext, version: &mut u32) -> (code: CUresult)
        ensures
            old(self).may_answer(
                Request::CtxGetApiVersion { ctx },
                Written::Version(*old(version)),
                Reply::Code(code),
                Written::Version(*final(version)),
                final(self),
            ),
    ;

    fn context_get_current(&mut self, pctx: &mut CUcontext) -> (outcome: Result<(), DriverError>)
        ensures
            old(self).may_answer(
                Request::CtxGetCurrent,
                Written::Context(*old(pctx)),
                Reply::Outcome(outcome),
                Written::Context(*final(pctx)),
                final(self),
            ),
    ;

    fn memory_alloc_v2(&mut self, dptr: &mut CUdeviceptr, bytesize: usize) -> (code: CUresult)
        ensures
            old(self).may_answer(
                Request::MemAlloc { bytesize },
                Written::DevicePtr(*old(dptr)),
                Reply::Code(code),
                Written::DevicePtr(*final(dptr)),
                final(self),
            ),
    ;

    fn device_get_uuid(&mut self, uuid: &mut CUuuid, dev: Index) -> (outcome: Result<
        (),
        DriverError,
    >)
        ensures
            old(self).may_answer(
                Request::DeviceGetUuid { dev: dev.0 },
                Written::Uuid(*old(uuid)),
                Reply::Outcome(outcome),
                Written::Uuid(*final(uuid)),
                final(self),
            ),
    ;

    fn device_primary_ctx_get_state(
        &mut self,
        dev: Index,
        flags: &mut u32,
        active: &mut i32,
    ) -> (outcome: Result<(), DriverError>)
        ensures
            old(self).may_answer(
                Request::DevicePrimaryCtxGetState { dev: dev.0 },
                Written::PrimaryCtxState { flags: *old(flags), active: *old(active) },
                Reply::Outcome(outcome),
                Written::PrimaryCtxState { flags: *final(flags), active: *final(active) },
                final(self),
            ),
    ;

    fn stream_get_ctx(&mut self, stream: CUstream, pctx: &mut CUcontext) -> (code: CUresult)
        ensures
            old(self).may_answer(
                Request::StreamGetCtx { stream },
                Written::Context(*old(pctx)),
                Reply::Code(code),
                Written::Context(*final(pctx)),
                final(self),
            ),
    ;
}

/// The backend that forwards every operation to the reimplemented driver
/// stack. Device numbers are handed over as [`Index`]; an outcome that
/// carries the stack's own error comes back through [`encuda`], and a result
/// code comes back as it is: the call it records is the call that the stack
/// answered, with the code that stands for the stack's reply.
pub struct NotCuda<R: Reimplementation> {
    stack: R,
    answered: Ghost<Seq<Call>>,
}

impl<R: Reimplementation> NotCuda<R> {
    /// The driver stack that the calls are forwarded to.
    pub closed spec fn inner(&self) -> R {
        self.stack
    }

    /// A backend over `stack` that has answered no call yet.
    pub fn new(stack: R) -> (backend: Self)
        ensures
            backend.calls() == Seq::<Call>::empty(),
            backend.inner() == stack,
    {
        NotCuda { stack, answered: Ghost(Seq::empty()) }
    }

    /// Gives the driver stack back.
    pub fn into_inner(self) -> (stack: R)
        ensures
            stack == self.inner(),
    {
        self.stack
    }
}

impl<R: Reimplementation> CudaDriverFns for NotCuda<R> {
    closed spec fn calls(&self) -> Seq<Call> {
        self.answered@
    }

    open spec fn serves(&self, call: Call, after: &Self) -> bool {
        exists|reply: Reply|
            {
                &&& #[trigger] self.inner().may_answer(
                    call.request,
                    call.given,
                    reply,
                    call.written,
                    &after.inner(),
                )
                &&& reply.code() == call.code
            }
    }

    fn cuInit(&mut self, flags: u32) -> (code: CUresult) {
        let ghost given = Written::Nothing;
        let code = self.stack.init(flags);
        proof {
            let written = Written::Nothing;
            let call = answered(Request::Init { flags }, given, code, written);
            self.answered@ = self.answered@.push(call);
            assert(old(self).inner().may_answer(
                call.request,
                call.given,
                Reply::Code(code),
                call.written,
                &self.inner(),
            ));
        }
        code
    }

    fn cuCtxCreate_v2(&mut self, pctx: &mut CUcontext, flags: u32, dev: i32) -> (code: CUresult) {
        let ghost given = Written::Context(*pctx);
        let outcome = self.stack.context_create_v2(pctx, flags, Index(dev));
        let code = encuda(outcome);
        proof {
            let written = Written::Context(*pctx);
            let call = answered(Request::CtxCreate { flags, dev }, given, code, written);
            self.answered@ = self.answered@.push(call);
            assert(old(self).inner().may_answer(
                call.request,
                call.given,
                Reply::Outcome(outcome),
                call.written,
                &self.inner(),
            ));
        }
        code
    }

    fn cuCtxDestroy_v2(&mut self, ctx: CUcontext) -> (code: CUresult) {
        let ghost given = Written::Nothing;
        let code = self.stack.context_destroy_v2(ctx);
        proof {
            let written = Written::Nothing;
            let call = answered(Request::CtxDestroy { ctx }, given, code, written);
            self.answered@ = self.answered@.push(call);
            assert(old(self).inner().may_answer(
                call.request,
                call.given,
                Reply::Code(code),
                call.written,
                &self.inner(),
            ));
        }
        code
    }

    fn cuCtxPopCurrent_v2(&mut self, pctx: &mut CUcontext) -> (code: CUresult) {
        let ghost given = Written::Context(*pctx);
        let code = self.stack.context_pop_current_v2(pctx);
        proof {
            let written = Written::Context(*pctx);
            let call = answered(Request::CtxPopCurrent, given, code, written);
            self.answered@ = self.answered@.push(call);
            assert(old(self).inner().may_answer(
                call.request,
                call.given,
                Reply::Code(code),
                call.written,
                &self.inner(),
            ));
        }
        code
    }

    fn cuCtxGetApiVersion(&mut self, ctx: CUcontext, version: &mut u32) -> (code: CUresult) {
        let ghost given = Written::Version(*version);
        let code = self.stack.context_get_api_version(ctx, version);
        proof {
            let written = Written::Version(*version);
            let call = answered(Request::CtxGetApiVersion { ctx }, given, code, written);
            self.answered@ = self.answered@.push(call);
            assert(old(self).inner().may_answer(
                call.request,
                call.given,
                Reply::Code(code),
                call.written,
                &self.inner(),
            ));
        }
        code
    }

    fn cuCtxGetCurrent(&mut self, pctx: &mut CUcontext) -> (code: CUresult) {
        let ghost given = Written::Context(*pctx);
        let outcome = self.stack.context_get_current(pctx);
        let code = encuda(outcome);
        proof {
            let written = Written::Context(*pctx);
            let call = answered(Request::CtxGetCurrent, given, code, written);
            self.answered@ = self.answered@.push(call);
            assert(old(self).inner().may_answer(
                call.request,
                call.given,
                Reply::Outcome(outcome),
                call.written,
                &self.inner(),
            ));
        }
        code
    }

    fn cuMemAlloc_v2(&mut self, dptr: &mut CUdeviceptr, bytesize: usize) -> (code: CUresult) {
        let ghost given = Written::DevicePtr(*dptr);
        let code = self.stack.memory_alloc_v2(dptr, bytesize);
        proof {
            let written = Written::DevicePtr(*dptr);
            let call = answered(Request::MemAlloc { bytesize }, given, code, written);
            self.answered@ = self.answered@.push(call);
            assert(old(self).inner().may_answer(
                call.request,
                call.given,
                Reply::Code(code),
                call.written,
                &self.inner(),
            ));
        }
        code
    }

    fn cuDeviceGetUuid(&mut self, uuid: &mut CUuuid, dev: i32) -> (code: CUresult) {
        let ghost given = Written::Uuid(*uuid);
        let outcome = self.stack.device_get_uuid(uuid, Index(dev));
        let code = encuda(outcome);
        proof {
            let written = Written::Uuid(*uuid);
            let call = answered(Request::DeviceGetUuid { dev }, given, code, written);
            self.answered@ = self.answered@.push(call);
            assert(old(self).inner().may_answer(
                call.request,
                call.given,
                Reply::Outcome(outcome),
                call.written,
                &self.inner(),
            ));
        }
        code
    }

    fn cuDevicePrimaryCtxGetState(&mut self, dev: i32, flags: &mut u32, active: &mut i32) -> (code:
        CUresult) {
        let ghost given = Written::PrimaryCtxState { flags: *flags, active: *active };
        let outcome = self.stack.device_primary_ctx_get_state(Index(dev), flags, active);
        let code = encuda(outcome);
        proof {
            let written = Written::PrimaryCtxState { flags: *flags, active: *active };
            let call = answered(Request::DevicePrimaryCtxGetState { dev }, given, code, written);
            self.answered@ = self.answered@.push(call);
            assert(old(self).inner().may_answer(
                call.request,
                call.given,
                Reply::Outcome(outcome),
                call.written,
                &self.inner(),
            ));
        }
        code
    }

    fn cuStreamGetCtx(&mut self, hStream: CUstream, pctx: &mut CUcontext) -> (code: CUresult) {
        let ghost given = Written::Context(*pctx);
        let code = self.stack.stream_get_ctx(hStream, pctx);
        proof {
            let written = Written::Context(*pctx);
            let call = answered(Request::StreamGetCtx { stream: hStream }, given, code, written);
            self.answered@ = self.answered@.push(call);
            assert(old(self).inner().may_answer(
                call.request,
                call.given,
                Reply::Code(code),
                call.written,
                &self.inner(),
            ));
        }
        code
    }
}

} // verus!
