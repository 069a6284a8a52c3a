//! The scenarios of the harness. A scenario is a fixed line of calls, each
//! with an expectation on its answer; a run makes the calls in order against
//! one backend and stops at the first answer that misses its expectation.
use vstd::prelude::*;
use crate::call::{Call, Request};
use crate::driver::{answers, perform, CudaDriverFns};
use crate::result::{CUDA_ERROR_INVALID_CONTEXT, CUDA_ERROR_INVALID_HANDLE};

verus! {

/// A line of calls with expectations. Every scenario starts by initializing
/// the driver with flags 0, and expects nothing of that call: what a backend
/// answers to a repeated initialization is for the comparison to report.
#[derive(Clone, Copy, Debug, PartialEq, Eq, Structural, Hash)]
pub enum Scenario {
    /// Create a context on device 0 and expect success and a handle that is
    /// not null; ask for its interface version and expect success; destroy
    /// it and expect success; destroy it again and expect the invalid-handle
    /// code.
    ContextLifecycle,
    /// Create a context on device `dev` and expect success; destroy it and
    /// expect success; destroy it again and expect the invalid-handle code.
    CreateDestroyTwice { dev: i32 },
    /// Pop the current context on a thread that has none, and expect the
    /// invalid-context code and a null handle.
    PopWithoutCurrent,
    /// Create a context on device 0 and expect success; allocate zero bytes,
    /// twice, and expect the second attempt to return the code of the
    /// first, whichever that was; destroy the context and expect success.
    AllocZero,
    /// Create a context on device 0 and expect success; read the current
    /// context and expect success and the handle that was created; destroy
    /// the context and expect success.
    CreateThenGetCurrent,
    /// Ask for the identifier of device `dev`, twice, and expect success
    /// both times and the same identifier.
    DeviceUuidStable { dev: i32 },
}

impl Scenario {
    /// The number of calls in a run that meets every expectation.
    pub open spec fn spec_steps(self) -> usize {
        match self {
            Scenario::ContextLifecycle => 5,
            Scenario::CreateDestroyTwice { .. } => 4,
            Scenario::PopWithoutCurrent => 2,
            Scenario::AllocZero => 5,
            Scenario::CreateThenGetCurrent => 4,
            Scenario::DeviceUuidStable { .. } => 3,
        }
    }

    #[verifier::when_used_as_spec(spec_steps)]
    pub fn steps(self) -> (n: usize)
        ensures
            n == self.spec_steps(),
            1 <= n <= 5,
    {
        match self {
            Scenario::ContextLifecycle => 5,
            Scenario::CreateDestroyTwice { .. } => 4,
            Scenario::PopWithoutCurrent => 2,
            Scenario::AllocZero => 5,
            Scenario::CreateThenGetCurrent => 4,
            Scenario::DeviceUuidStable { .. } => 3,
        }
    }

    /// The request of call number `i`, given the calls `seen` before it.
    /// Call 0 is the initialization; a later call may take a handle that
    /// call 1 wrote.
    pub open spec fn request_at(self, seen: Seq<Call>, i: int) -> Request {
        if i == 0 {
            Request::Init { flags: 0 }
        } else {
            match self {
                Scenario::ContextLifecycle => {
                    if i == 1 {
                        Request::CtxCreate { flags: 0, dev: 0 }
                    } else if i == 2 {
                        Request::CtxGetApiVersion { ctx: seen[1].context() }
                    } else {
                        Request::CtxDestroy { ctx: seen[1].context() }
                    }
                },
                Scenario::CreateDestroyTwice { dev } => {
                    if i == 1 {
                        Request::CtxCreate { flags: 0, dev }
                    } else {
                        Request::CtxDestroy { ctx: seen[1].context() }
                    }
                },
                Scenario::PopWithoutCurrent => Request::CtxPopCurrent,
                Scenario::AllocZero => {
                    if i == 1 {
                        Request::CtxCreate { flags: 0, dev: 0 }
                    } else if i == 4 {
                        Request::CtxDestroy { ctx: seen[1].context() }
                    } else {
                        Request::MemAlloc { bytesize: 0 }
                    }
                },
                Scenario::CreateThenGetCurrent => {
                    if i == 1 {
                        Request::CtxCreate { flags: 0, dev: 0 }
                    } else if i == 2 {
                        Request::CtxGetCurrent
                    } else {
                        Request::CtxDestroy { ctx: seen[1].context() }
                    }
                },
                Scenario::DeviceUuidStable { dev } => Request::DeviceGetUuid { dev },
            }
        }
    }

    /// Whether the answer to call number `i` is the expected one, given the
    /// calls `seen` up to and including it.
    pub open spec fn expect_at(self, seen: Seq<Call>, i: int) -> bool {
        if i == 0 {
            true
        } else {
            match self {
                Scenario::ContextLifecycle => {
                    if i == 1 {
                        seen[1].code.is_success() && !seen[1].context().is_null()
                    } else if i == 4 {
                        seen[4].code.0 == CUDA_ERROR_INVALID_HANDLE
                    } else {
                        seen[i].code.is_success()
                    }
                },
                Scenario::CreateDestroyTwice { .. } => {
                    if i == 3 {
                        seen[3].code.0 == CUDA_ERROR_INVALID_HANDLE
                    } else {
                        seen[i].code.is_success()
                    }
                },
                Scenario::PopWithoutCurrent => {
                    seen[i].code.0 == CUDA_ERROR_INVALID_CONTEXT && seen[i].context().is_null()
                },
                Scenario::AllocZero => {
                    if i == 2 {
                        true
                    } else if i == 3 {
                        seen[3].code == seen[2].code
                    } else {
                        seen[i].code.is_success()
                    }
                },
                Scenario::CreateThenGetCurrent => {
                    if i == 2 {
                        seen[2].code.is_success() && seen[2].context() == seen[1].context()
                    } else {
                        seen[i].code.is_success()
                    }
                },
                Scenario::DeviceUuidStable { .. } => {
                    if i == 2 {
                        seen[2].code.is_success() && seen[2].written == seen[1].written
                    } else {
                        seen[i].code.is_success()
                    }
                },
            }
        }
    }

    /// Whether `trace` is what a run of this scenario leaves behind: every
    /// call is the one the scenario asks for at its place and was made over
    /// outputs that held nothing, every answer but the last met its
    /// expectation, and the run ended early only because the last answer did
    /// not.
    pub open spec fn is_run(self, trace: Seq<Call>) -> bool {
        &&& 1 <= trace.len() <= self.spec_steps()
        &&& forall|i: int|
            0 <= i < trace.len() ==> trace[i].request == #[trigger] self.request_at(trace, i)
        &&& forall|i: int|
            0 <= i < trace.len() ==> (#[trigger] trace[i]).given == trace[i].request.spec_blank()
        &&& forall|i: int| 0 <= i < trace.len() - 1 ==> #[trigger] self.expect_at(trace, i)
        &&& trace.len() < self.spec_steps() ==> !self.expect_at(trace, trace.len() - 1)
    }

    /// Whether `trace` holds every call of the scenario and every answer met
    /// its expectation.
    pub open spec fn has_passed(self, trace: Seq<Call>) -> bool {
        &&& trace.len() == self.spec_steps()
        &&& forall|i: int| 0 <= i < trace.len() ==> #[trigger] self.expect_at(trace, i)
    }

    /// Computes the request of call number `i` from the calls made so far.
    fn request(self, seen: &Vec<Call>, i: usize) -> (request: Request)
        requires
            i < self.spec_steps(),
            i <= seen.len(),
        ensures
            request == self.request_at(seen@, i as int),
    {
        if i == 0 {
            Request::Init { flags: 0 }
        } else {
            match self {
                Scenario::ContextLifecycle => {
                    if i == 1 {
                        Request::CtxCreate { flags: 0, dev: 0 }
                    } else if i == 2 {
                        Request::CtxGetApiVersion { ctx: seen[1].context() }
                    } else {
                        Request::CtxDestroy { ctx: seen[1].context() }
                    }
                },
                Scenario::CreateDestroyTwice { dev } => {
                    if i == 1 {
                        Request::CtxCreate { flags: 0, dev }
                    } else {
                        Request::CtxDestroy { ctx: seen[1].context() }
                    }
                },
                Scenario::PopWithoutCurrent => Request::CtxPopCurrent,
                Scenario::AllocZero => {
                    if i == 1 {
                        Request::CtxCreate { flags: 0, dev: 0 }
                    } else if i == 4 {
                        Request::CtxDestroy { ctx: seen[1].context() }
                    } else {
                        Request::MemAlloc { bytesize: 0 }
                    }
                },
                Scenario::CreateThenGetCurrent => {
                    if i == 1 {
                        Request::CtxCreate { flags: 0, dev: 0 }
                    } else if i == 2 {
                        Request::CtxGetCurrent
                    } else {
                        Request::CtxDestroy { ctx: seen[1].context() }
                    }
                },
                Scenario::DeviceUuidStable { dev } => Request::DeviceGetUuid { dev },
            }
        }
    }

    /// Judges the answer to call number `i`.
    fn expect(self, seen: &Vec<Call>, i: usize) -> (met: bool)
        requires
            i < self.spec_steps(),
            i < seen.len(),
        ensures
            met == self.expect_at(seen@, i as int),
    {
        if i == 0 {
            true
        } else {
            match self {
                Scenario::ContextLifecycle => {
                    if i == 1 {
                        seen[1].code.is_success() && !seen[1].context().is_null()
                    } else if i == 4 {
                        seen[4].code.0 == CUDA_ERROR_INVALID_HANDLE
                    } else {
                        seen[i].code.is_success()
                    }
                },
                Scenario::CreateDestroyTwice { .. } => {
                    if i == 3 {
                        seen[3].code.0 == CUDA_ERROR_INVALID_HANDLE
                    } else {
                        seen[i].code.is_success()
                    }
                },
                Scenario::PopWithoutCurrent => {
                    seen[i].code.0 == CUDA_ERROR_INVALID_CONTEXT && seen[i].context().is_null()
                },
                Scenario::AllocZero => {
                    if i == 2 {
                        true
                    } else if i == 3 {
                        seen[3].code == seen[2].code
                    } else {
                        seen[i].code.is_success()
                    }
                },
                Scenario::CreateThenGetCurrent => {
                    if i == 2 {
                        seen[2].code.is_success() && seen[2].context() == seen[1].context()
                    } else {
                        seen[i].code.is_success()
                    }
                },
                Scenario::DeviceUuidStable { .. } => {
                    if i == 2 {
                        seen[2].code.is_success() && seen[2].written == seen[1].written
                    } else {
                        seen[i].code.is_success()
                    }
                },
            }
        }
    }

    /// Whether a trace is that of a run in which every expectation was met.
    pub fn passed(self, trace: &Vec<Call>) -> (verdict: bool)
        ensures
            verdict == self.has_passed(trace@),
    {
        if trace.len() != self.steps() {
            return false;
        }
        let mut i: usize = 0;
        while i < trace.len()
            invariant
                i <= trace.len() == self.spec_steps(),
                forall|j: int| 0 <= j < i ==> #[trigger] self.expect_at(trace@, j),
            decreases trace.len() - i,
        {
            if !self.expect(trace, i) {
                return false;
            }
            i += 1;
        }
        true
    }
}

/// Whether the backend `before` answered the calls of `trace`, one
/// operation after another and nothing in between, and was left as `after`.
pub open spec fn served<B: CudaDriverFns>(before: B, trace: Seq<Call>, after: B) -> bool
    decreases trace.len(),
{
    if trace.len() == 0 {
        before == after
    } else {
        exists|mid: B|
            served(before, trace.drop_last(), mid) && #[trigger] answers(&mid, trace.last(), &after)
    }
}

/// A backend that served a trace has recorded it: its record has grown by
/// the calls of the trace, in their order.
pub proof fn lemma_served_is_recorded<B: CudaDriverFns>(before: B, trace: Seq<Call>, after: B)
    requires
        served(before, trace, after),
    ensures
        after.calls() == before.calls() + trace,
    decreases trace.len(),
{
    if trace.len() == 0 {
        assert(before.calls() + trace =~= before.calls());
    } else {
        let mid = choose|mid: B|
            served(before, trace.drop_last(), mid) && #[trigger] answers(&mid, trace.last(), &after);
        lemma_served_is_recorded(before, trace.drop_last(), mid);
        assert(before.calls() + trace =~= (before.calls() + trace.drop_last()).push(trace.last()));
    }
}

/// Runs `scenario` against `backend`: makes its calls in order, each with
/// the inputs that the scenario derives from the answers before it, and
/// stops after the first answer that misses its expectation. Returns the
/// calls made: they are what the backend served, and what its record has
/// grown by.
pub fn run<B: CudaDriverFns>(backend: &mut B, scenario: Scenario) -> (trace: Vec<Call>)
    ensures
        scenario.is_run(trace@),
        served(*old(backend), trace@, *final(backend)),
        final(backend).calls() == old(backend).calls() + trace@,
{
    let ghost start = *backend;
    let steps = scenario.steps();
    let mut trace: Vec<Call> = Vec::new();
    let mut met = true;
    let mut i: usize = 0;
    while i < steps && met
        invariant
            steps == scenario.spec_steps(),
            i == trace.len(),
            i <= steps,
            served(start, trace@, *backend),
            forall|j: int|
                0 <= j < i ==> trace@[j].request == #[trigger] scenario.request_at(trace@, j),
            forall|j: int|
                0 <= j < i ==> (#[trigger] trace@[j]).given == trace@[j].request.spec_blank(),
            forall|j: int| 0 <= j < i - 1 ==> #[trigger] scenario.expect_at(trace@, j),
            i > 0 ==> met == scenario.expect_at(trace@, i - 1),
            i == 0 ==> met,
        decreases steps - i,
    {
        let ghost earlier = trace@;
        let ghost mid = *backend;
        let request = scenario.request(&trace, i);
        let call = perform(backend, request);
        trace.push(call);
        met = scenario.expect(&trace, i);
        proof {
            assert(trace@.drop_last() == earlier);
            assert(trace@.last() == call);
            assert(served(start, trace@.drop_last(), mid) && answers(&mid, trace@.last(), backend));
            assert forall|j: int| 0 <= j <= i implies trace@[j].request
                == #[trigger] scenario.request_at(trace@, j) by {
                if j < i {
                    assert(scenario.request_at(earlier, j) == scenario.request_at(trace@, j));
                }
            }
            assert forall|j: int| 0 <= j < i implies #[trigger] scenario.expect_at(trace@, j) by {
                assert(scenario.expect_at(earlier, j) == scenario.expect_at(trace@, j));
            }
        }
        i += 1;
    }
    proof {
        lemma_served_is_recorded(start, trace@, *backend);
    }
    trace
}

/// The calls of a run depend on the answers alone: two runs of one scenario
/// that were given the same answers made the same calls.
pub proof fn lemma_run_determined(scenario: Scenario, a: Seq<Call>, b: Seq<Call>)
    requires
        scenario.is_run(a),
        scenario.is_run(b),
        a.len() == b.len(),
        forall|i: int| 0 <= i < a.len() ==> a[i].code == b[i].code && a[i].written == b[i].written,
    ensures
        a == b,
{
    assert forall|i: int| 0 <= i < a.len() implies a[i] == b[i] by {
        assert(a[i].request == scenario.request_at(a, i));
        assert(b[i].request == scenario.request_at(b, i));
        if i >= 2 {
            assert(a[1].written == b[1].written);
        }
    }
    assert(a =~= b);
}

/// A run passes exactly if it made every call and its last answer met its
/// expectation.
pub proof fn lemma_passed_run(scenario: Scenario, trace: Seq<Call>)
    requires
        scenario.is_run(trace),
    ensures
        scenario.has_passed(trace) <==> trace.len() == scenario.spec_steps() && scenario.expect_at(
            trace,
            trace.len() - 1,
        ),
{
    if trace.len() == scenario.spec_steps() && scenario.expect_at(trace, trace.len() - 1) {
        assert forall|i: int| 0 <= i < trace.len() implies #[trigger] scenario.expect_at(
            trace,
            i,
        ) by {
            if i < trace.len() - 1 {
                assert(scenario.expect_at(trace, i));
            }
        }
    }
    if scenario.has_passed(trace) {
        assert(scenario.expect_at(trace, trace.len() - 1));
    }
}

/// What a passed run of the context lifecycle shows: a context was created
/// on device 0 with success and a handle that is not null, its interface
/// version was read with success, the handle was destroyed with success, and
/// destroying the same handle again gave the invalid-handle code.
pub proof fn lemma_context_lifecycle(trace: Seq<Call>)
    requires
        Scenario::ContextLifecycle.is_run(trace),
    ensures
        trace[0].request == (Request::Init { flags: 0 }),
        Scenario::ContextLifecycle.has_passed(trace) <==> {
            &&& trace.len() == 5
            &&& trace[1].request == (Request::CtxCreate { flags: 0, dev: 0 })
            &&& trace[1].code.is_success()
            &&& !trace[1].context().is_null()
            &&& trace[2].request == (Request::CtxGetApiVersion { ctx: trace[1].context() })
            &&& trace[2].code.is_success()
            &&& trace[3].request == (Request::CtxDestroy { ctx: trace[1].context() })
            &&& trace[3].code.is_success()
            &&& trace[4].request == (Request::CtxDestroy { ctx: trace[1].context() })
            &&& trace[4].code.0 == CUDA_ERROR_INVALID_HANDLE
        },
{
    let s = Scenario::ContextLifecycle;
    lemma_passed_run(s, trace);
    assert(trace[0].request == s.request_at(trace, 0));
    if trace.len() == 5 {
        assert(trace[1].request == s.request_at(trace, 1));
        assert(trace[2].request == s.request_at(trace, 2));
        assert(trace[3].request == s.request_at(trace, 3));
        assert(trace[4].request == s.request_at(trace, 4));
        assert(s.expect_at(trace, 1));
        assert(s.expect_at(trace, 2));
        assert(s.expect_at(trace, 3));
    }
}

/// What a passed run of create-and-destroy-twice shows: a context was
/// created on the device with success, the returned handle was destroyed
/// with success, and destroying it a second time gave the invalid-handle
/// code.
pub proof fn lemma_create_destroy_twice(dev: i32, trace: Seq<Call>)
    requires
        (Scenario::CreateDestroyTwice { dev }).is_run(trace),
    ensures
        trace[0].request == (Request::Init { flags: 0 }),
        (Scenario::CreateDestroyTwice { dev }).has_passed(trace) <==> {
            &&& trace.len() == 4
            &&& trace[1].request == (Request::CtxCreate { flags: 0, dev })
            &&& trace[1].code.is_success()
            &&& trace[2].request == (Request::CtxDestroy { ctx: trace[1].context() })
            &&& trace[2].code.is_success()
            &&& trace[3].request == (Request::CtxDestroy { ctx: trace[1].context() })
            &&& trace[3].code.0 == CUDA_ERROR_INVALID_HANDLE
        },
{
    let s = Scenario::CreateDestroyTwice { dev };
    lemma_passed_run(s, trace);
    assert(trace[0].request == s.request_at(trace, 0));
    if trace.len() == 4 {
        assert(trace[1].request == s.request_at(trace, 1));
        assert(trace[2].request == s.request_at(trace, 2));
        assert(trace[3].request == s.request_at(trace, 3));
        assert(s.expect_at(trace, 1));
        assert(s.expect_at(trace, 2));
    }
}

/// What a passed run of pop-without-current shows: popping the current
/// context gave the invalid-context code and wrote the null handle.
pub proof fn lemma_pop_without_current(trace: Seq<Call>)
    requires
        Scenario::PopWithoutCurrent.is_run(trace),
    ensures
        trace[0].request == (Request::Init { flags: 0 }),
        Scenario::PopWithoutCurrent.has_passed(trace) <==> {
            &&& trace.len() == 2
            &&& trace[1].request == Request::CtxPopCurrent
            &&& trace[1].code.0 == CUDA_ERROR_INVALID_CONTEXT
            &&& trace[1].context().is_null()
        },
{
    let s = Scenario::PopWithoutCurrent;
    lemma_passed_run(s, trace);
    assert(trace[0].request == s.request_at(trace, 0));
    if trace.len() == 2 {
        assert(trace[1].request == s.request_at(trace, 1));
    }
}

/// What a passed run of the zero-byte allocation shows: with a context
/// current, two allocations of zero bytes returned the same code, so both
/// succeeded or both failed in the same way, and the context was destroyed
/// with success afterwards.
pub proof fn lemma_alloc_zero(trace: Seq<Call>)
    requires
        Scenario::AllocZero.is_run(trace),
    ensures
        trace[0].request == (Request::Init { flags: 0 }),
        Scenario::AllocZero.has_passed(trace) <==> {
            &&& trace.len() == 5
            &&& trace[1].request == (Request::CtxCreate { flags: 0, dev: 0 })
            &&& trace[1].code.is_success()
            &&& trace[2].request == (Request::MemAlloc { bytesize: 0 })
            &&& trace[3].request == (Request::MemAlloc { bytesize: 0 })
            &&& trace[3].code == trace[2].code
            &&& trace[4].request == (Request::CtxDestroy { ctx: trace[1].context() })
            &&& trace[4].code.is_success()
        },
{
    let s = Scenario::AllocZero;
    lemma_passed_run(s, trace);
    assert(trace[0].request == s.request_at(trace, 0));
    if trace.len() == 5 {
        assert(trace[1].request == s.request_at(trace, 1));
        assert(trace[2].request == s.request_at(trace, 2));
        assert(trace[3].request == s.request_at(trace, 3));
        assert(trace[4].request == s.request_at(trace, 4));
        assert(s.expect_at(trace, 1));
        assert(s.expect_at(trace, 2));
        assert(s.expect_at(trace, 3));
    }
}

/// What a passed run of create-then-get-current shows: a context was
/// created with success, reading the current context succeeded and gave the
/// handle that was created, and the context was destroyed with success.
pub proof fn lemma_create_then_get_current(trace: Seq<Call>)
    requires
        Scenario::CreateThenGetCurrent.is_run(trace),
    ensures
        trace[0].request == (Request::Init { flags: 0 }),
        Scenario::CreateThenGetCurrent.has_passed(trace) <==> {
            &&& trace.len() == 4
            &&& trace[1].request == (Request::CtxCreate { flags: 0, dev: 0 })
            &&& trace[1].code.is_success()
            &&& trace[2].request == Request::CtxGetCurrent
            &&& trace[2].code.is_success()
            &&& trace[2].context() == trace[1].context()
            &&& trace[3].request == (Request::CtxDestroy { ctx: trace[1].context() })
            &&& trace[3].code.is_success()
        },
{
    let s = Scenario::CreateThenGetCurrent;
    lemma_passed_run(s, trace);
    assert(trace[0].request == s.request_at(trace, 0));
    if trace.len() == 4 {
        assert(trace[1].request == s.request_at(trace, 1));
        assert(trace[2].request == s.request_at(trace, 2));
        assert(trace[3].request == s.request_at(trace, 3));
        assert(s.expect_at(trace, 1));
        assert(s.expect_at(trace, 2));
    }
}

/// What a passed run of the identifier scenario shows: the device's
/// identifier was read twice with success, and the same identifier was
/// written both times.
pub proof fn lemma_device_uuid_stable(dev: i32, trace: Seq<Call>)
    requires
        (Scenario::DeviceUuidStable { dev }).is_run(trace),
    ensures
        trace[0].request == (Request::Init { flags: 0 }),
        (Scenario::DeviceUuidStable { dev }).has_passed(trace) <==> {
            &&& trace.len() == 3
            &&& trace[1].request == (Request::DeviceGetUuid { dev })
            &&& trace[1].code.is_success()
            &&& trace[2].request == (Request::DeviceGetUuid { dev })
            &&& trace[2].code.is_success()
            &&& trace[2].written == trace[1].written
        },
{
    let s = Scenario::DeviceUuidStable { dev };
    lemma_passed_run(s, trace);
    assert(trace[0].request == s.request_at(trace, 0));
    if trace.len() == 3 {
        assert(trace[1].request == s.request_at(trace, 1));
        assert(trace[2].request == s.request_at(trace, 2));
        assert(s.expect_at(trace, 1));
    }
}

} // verus!
