//! The native backend: the driver interface answered by the vendor's driver.
use vstd::prelude::*;
use crate::call::{answered, Call, Request, Written};
use crate::driver::CudaDriverFns;
use crate::handle::{CUcontext, CUdeviceptr, CUstream, CUuuid};
use crate::result::CUresult;

verus! {

/// The vendor's driver as it is reached across the foreign boundary: handles
/// and addresses are bare numbers, and every entry point returns the
/// vendor's numeric status.
pub trait NativeDriver: Sized {
    /// Whether the driver, as it stands in `self`, may answer `call` and be
    /// left as `after`. The call is written as the harness records it, with
    /// the status as a result code and the bare numbers as handles. A driver
    /// that is described in this crate's terms says here what it does; the
    /// body below is for every other driver, and admits every answer.
    open spec fn may_answer(&self, call: Call, after: &Self) -> bool {
        true
    }

    fn cuInit(&mut self, flags: u32) -> (status: u32)
        ensures
            old(self).may_answer(
                answered(Request::Init { flags }, Written::Nothing, CUresult(status), Written::Nothing),
                final(self),
            ),
    ;

    fn cuCtxCreate_v2(&mut self, pctx: &mut u64, flags: u32, dev: i32) -> (status: u32)
        ensures
            old(self).may_answer(
                answered(
                    Request::CtxCreate { flags, dev },
                    Written::Context(CUcontext(*old(pctx))),
                    CUresult(status),
                    Written::Context(CUcontext(*final(pctx))),
                ),
                final(self),
            ),
    ;

    fn cuCtxDestroy_v2(&mut self, ctx: u64) -> (status: u32)
        ensures
            old(self).may_answer(
                answered(
                    Request::CtxDestroy { ctx: CUcontext(ctx) },
                    Written::Nothing,
                    CUresult(status),
                    Written::Nothing,
                ),
                final(self),
            ),
    ;

    fn cuCtxPopCurrent_v2(&mut self, pctx: &mut u64) -> (status: u32)
        ensures
            old(self).may_answer(
                answered(
                    Request::CtxPopCurrent,
                    Written::Context(CUcontext(*old(pctx))),
                    CUresult(status),
                    Written::Context(CUcontext(*final(pctx))),
                ),
                final(self),
            ),
    ;

    fn cuCtxGetApiVersion(&mut self, ctx: u64, version: &mut u32) -> (status: u32)
        ensures
            old(self).may_answer(
                answered(
                    Request::CtxGetApiVersion { ctx: CUcontext(ctx) },
                    Written::Version(*old(version)),
                    CUresult(status),
                    Written::Version(*final(version)),
                ),
                final(self),
            ),
    ;

    fn cuCtxGetCurrent(&mut self, pctx: &mut u64) -> (status: u32)
        ensures
            old(self).may_answer(
                answered(
                    Request::CtxGetCurrent,
                    Written::Context(CUcontext(*old(pctx))),
                    CUresult(status),
                    Written::Context(CUcontext(*final(pctx))),
                ),
                final(self),
            ),
    ;

    fn cuMemAlloc_v2(&mut self, dptr: &mut u64, bytesize: usize) -> (status: u32)
        ensures
            old(self).may_answer(
                answered(
                    Request::MemAlloc { bytesize },
                    Written::DevicePtr(CUdeviceptr(*old(dptr))),
                    CUresult(status),
                    Written::DevicePtr(CUdeviceptr(*final(dptr))),
                ),
                final(self),
            ),
    ;

    fn cuDeviceGetUuid(&mut self, uuid: &mut u128, dev: i32) -> (status: u32)
        ensures
            old(self).may_answer(
                answered(
                    Request::DeviceGetUuid { dev },
                    Written::Uuid(CUuuid(*old(uuid))),
                    CUresult(status),
                    Written::Uuid(CUuuid(*final(uuid))),
                ),
                final(self),
            ),
    ;

    fn cuDevicePrimaryCtxGetState(&mut self, dev: i32, flags: &mut u32, active: &mut i32) -> (status:
        u32)
        ensures
            old(self).may_answer(
                answered(
                    Request::DevicePrimaryCtxGetState { dev },
                    Written::PrimaryCtxState { flags: *old(flags), active: *old(active) },
                    CUresult(status),
                    Written::PrimaryCtxState { flags: *final(flags), active: *final(active) },
                ),
                final(self),
            ),
    ;

    fn cuStreamGetCtx(&mut self, hStream: u64, pctx: &mut u64) -> (status: u32)
        ensures
            old(self).may_answer(
                answered(
                    Request::StreamGetCtx { stream: CUstream(hStream) },
                    Written::Context(CUcontext(*old(pctx))),
                    CUresult(status),
                    Written::Context(CUcontext(*final(pctx))),
                ),
                final(self),
            ),
    ;
}

/// The backend that forwards every operation to the vendor's driver. It
/// hands the arguments over as bare numbers, takes the outputs back the same
/// way, and turns the status into a result code by
/// [`CUresult::from_native`]. It translates nothing and recovers from
/// nothing: the call it records is the call that the driver answered.
pub struct Cuda<D: NativeDriver> {
    driver: D,
    answered: Ghost<Seq<Call>>,
}

impl<D: NativeDriver> Cuda<D> {
    /// The driver that the calls are forwarded to.
    pub closed spec fn inner(&self) -> D {
        self.driver
    }

    /// A backend over `driver` that has answered no call yet.
    pub fn new(driver: D) -> (backend: Self)
        ensures
            backend.calls() == Seq::<Call>::empty(),
            backend.inner() == driver,
    {
        Cuda { driver, answered: Ghost(Seq::empty()) }
    }

    /// Gives the driver back.
    pub fn into_inner(self) -> (driver: D)
        ensures
            driver == self.inner(),
    {
        self.driver
    }
}

impl<D: NativeDriver> CudaDriverFns for Cuda<D> {
    closed spec fn calls(&self) -> Seq<Call> {
        self.answered@
    }

    open spec fn serves(&self, call: Call, after: &Self) -> bool {
        self.inner().may_answer(call, &after.inner())
    }

    fn cuInit(&mut self, flags: u32) -> (code: CUresult) {
        let ghost given = Written::Nothing;
        let status = self.driver.cuInit(flags);
        let code = CUresult::from_native(status);
        proof {
            self.answered@ = self.answered@.push(
                answered(Request::Init { flags }, given, code, Written::Nothing),
            );
        }
        code
    }

    fn cuCtxCreate_v2(&mut self, pctx: &mut CUcontext, flags: u32, dev: i32) -> (code: CUresult) {
        let ghost given = Written::Context(*pctx);
        let mut raw: u64 = pctx.0;
        let status = self.driver.cuCtxCreate_v2(&mut raw, flags, dev);
        *pctx = CUcontext(raw);
        let code = CUresult::from_native(status);
        proof {
            self.answered@ = self.answered@.push(
                answered(Request::CtxCreate { flags, dev }, given, code, Written::Context(*pctx)),
            );
        }
        code
    }

    fn cuCtxDestroy_v2(&mut self, ctx: CUcontext) -> (code: CUresult) {
        let ghost given = Written::Nothing;
        let status = self.driver.cuCtxDestroy_v2(ctx.0);
        let code = CUresult::from_native(status);
        proof {
            self.answered@ = self.answered@.push(
                answered(Request::CtxDestroy { ctx }, given, code, Written::Nothing),
            );
        }
        code
    }

    fn cuCtxPopCurrent_v2(&mut self, pctx: &mut CUcontext) -> (code: CUresult) {
        let ghost given = Written::Context(*pctx);
        let mut raw: u64 = pctx.0;
        let status = self.driver.cuCtxPopCurrent_v2(&mut raw);
        *pctx = CUcontext(raw);
        let code = CUresult::from_native(status);
        proof {
            self.answered@ = self.answered@.push(
                answered(Request::CtxPopCurrent, given, code, Written::Context(*pctx)),
            );
        }
        code
    }

    fn cuCtxGetApiVersion(&mut self, ctx: CUcontext, version: &mut u32) -> (code: CUresult) {
        let ghost given = Written::Version(*version);
        let status = self.driver.cuCtxGetApiVersion(ctx.0, version);
        let code = CUresult::from_native(status);
        proof {
            self.answered@ = self.answered@.push(
                answered(Request::CtxGetApiVersion { ctx }, given, code, Written::Version(*version)),
            );
        }
        code
    }

    fn cuCtxGetCurrent(&mut self, pctx: &mut CUcontext) -> (code: CUresult) {
        let ghost given = Written::Context(*pctx);
        let mut raw: u64 = pctx.0;
        let status = self.driver.cuCtxGetCurrent(&mut raw);
        *pctx = CUcontext(raw);
        let code = CUresult::from_native(status);
        proof {
            self.answered@ = self.answered@.push(
                answered(Request::CtxGetCurrent, given, code, Written::Context(*pctx)),
            );
        }
        code
    }

    fn cuMemAlloc_v2(&mut self, dptr: &mut CUdeviceptr, bytesize: usize) -> (code: CUresult) {
        let ghost given = Written::DevicePtr(*dptr);
        let mut raw: u64 = dptr.0;
        let status = self.driver.cuMemAlloc_v2(&mut raw, bytesize);
        *dptr = CUdeviceptr(raw);
        let code = CUresult::from_native(status);
        proof {
            self.answered@ = self.answered@.push(
                answered(Request::MemAlloc { bytesize }, given, code, Written::DevicePtr(*dptr)),
            );
        }
        code
    }

    fn cuDeviceGetUuid(&mut self, uuid: &mut CUuuid, dev: i32) -> (code: CUresult) {
        let ghost given = Written::Uuid(*uuid);
        let mut raw: u128 = uuid.0;
        let status = self.driver.cuDeviceGetUuid(&mut raw, dev);
        *uuid = CUuuid(raw);
        let code = CUresult::from_native(status);
        proof {
            self.answered@ = self.answered@.push(
                answered(Request::DeviceGetUuid { dev }, given, code, Written::Uuid(*uuid)),
            );
        }
        code
    }

    fn cuDevicePrimaryCtxGetState(&mut self, dev: i32, flags: &mut u32, active: &mut i32) -> (code:
        CUresult) {
        let ghost given = Written::PrimaryCtxState { flags: *flags, active: *active };
        let status = self.driver.cuDevicePrimaryCtxGetState(dev, flags, active);
        let code = CUresult::from_native(status);
        proof {
            self.answered@ = self.answered@.push(
                answered(
                    Request::DevicePrimaryCtxGetState { dev },
                    given,
                    code,
                    Written::PrimaryCtxState { flags: *flags, active: *active },
                ),
            );
        }
        code
    }

    fn cuStreamGetCtx(&mut self, hStream: CUstream, pctx: &mut CUcontext) -> (code: CUresult) {
        let ghost given = Written::Context(*pctx);
        let mut raw: u64 = pctx.0;
        let status = self.driver.cuStreamGetCtx(hStream.0, &mut raw);
        *pctx = CUcontext(raw);
        let code = CUresult::from_native(status);
        proof {
            self.answered@ = self.answered@.push(
                answered(Request::StreamGetCtx { stream: hStream }, given, code, Written::Context(*pctx)),
            );
        }
        code
    }
}

} // verus!
