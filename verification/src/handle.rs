//! The opaque tokens that pass through the driver interface. The harness
//! never looks inside one: it hands them back to the backend that made them,
//! and compares them for equality.
use vstd::prelude::*;

verus! {

/// A context: a session bound to one device. Zero is the null handle.
#[derive(Clone, Copy, Debug, PartialEq, Eq, Structural, Hash)]
pub struct CUcontext(pub u64);

impl CUcontext {
    pub open spec fn spec_null() -> CUcontext {
        CUcontext(0)
    }

    /// The handle that names no context.
    #[verifier::when_used_as_spec(spec_null)]
    pub fn null() -> (h: CUcontext)
        ensures
            h == Self::spec_null(),
    {
        CUcontext(0)
    }

    pub open spec fn spec_is_null(self) -> bool {
        self.0 == 0
    }

    /// Whether this is the null handle.
    #[verifier::when_used_as_spec(spec_is_null)]
    pub fn is_null(self) -> (b: bool)
        ensures
            b == self.spec_is_null(),
    {
        self.0 == 0
    }
}

/// A stream of work that belongs to a context. Zero is the default stream.
#[derive(Clone, Copy, Debug, PartialEq, Eq, Structural, Hash)]
pub struct CUstream(pub u64);

/// An address in device memory. Zero is the null address.
#[derive(Clone, Copy, Debug, PartialEq, Eq, Structural, Hash)]
pub struct CUdeviceptr(pub u64);

/// The sixteen bytes that identify one physical device, held as one number
/// with the first byte in the most significant place.
#[derive(Clone, Copy, Debug, PartialEq, Eq, Structural, Hash)]
pub struct CUuuid(pub u128);

/// A device index as the reimplemented driver takes it.
#[derive(Clone, Copy, Debug, PartialEq, Eq, Structural, Hash)]
pub struct Index(pub i32);

} // verus!
