//! The test generator: one scenario, written once over any backend, becomes
//! one named test per backend.
use vstd::prelude::*;
use crate::call::Call;
use crate::driver::CudaDriverFns;
use crate::scenario::{run, served, Scenario};

verus! {

/// Which of the two backends a test runs against.
#[derive(Clone, Copy, Debug, PartialEq, Eq, Structural, Hash)]
pub enum Backend {
    /// The reimplemented driver stack.
    NotCuda,
    /// The vendor's native driver.
    Cuda,
}

impl Backend {
    /// What the backend adds to a scenario's name.
    pub open spec fn spec_suffix(self) -> Seq<char> {
        match self {
            Backend::NotCuda => "_notcuda"@,
            Backend::Cuda => "_cuda"@,
        }
    }

    pub fn suffix(self) -> (s: &'static str)
        ensures
            s@ == self.spec_suffix(),
    {
        match self {
            Backend::NotCuda => "_notcuda",
            Backend::Cuda => "_cuda",
        }
    }
}

/// The name of the test that runs the scenario `func` against `backend`:
/// the scenario's name followed by the backend's suffix.
pub open spec fn spec_test_name(func: Seq<char>, backend: Backend) -> Seq<char> {
    func + backend.spec_suffix()
}

pub fn test_name(func: &str, backend: Backend) -> (name: String)
    ensures
        name@ == spec_test_name(func@, backend),
{
    String::from_str(func).concat(backend.suffix())
}

/// One generated test: a scenario bound to a backend, under its own name.
#[derive(Debug, PartialEq, Eq)]
pub struct TestUnit {
    pub name: String,
    pub backend: Backend,
}

impl TestUnit {
    /// Runs `scenario` as this test: against the backend that the test is
    /// bound to, and without a call to the other one.
    pub fn run<A: CudaDriverFns, B: CudaDriverFns>(
        &self,
        scenario: Scenario,
        notcuda: &mut A,
        cuda: &mut B,
    ) -> (trace: Vec<Call>)
        ensures
            scenario.is_run(trace@),
            self.backend == Backend::NotCuda ==> {
                &&& served(*old(notcuda), trace@, *final(notcuda))
                &&& final(notcuda).calls() == old(notcuda).calls() + trace@
                &&& *final(cuda) == *old(cuda)
            },
            self.backend == Backend::Cuda ==> {
                &&& served(*old(cuda), trace@, *final(cuda))
                &&& final(cuda).calls() == old(cuda).calls() + trace@
                &&& *final(notcuda) == *old(notcuda)
            },
    {
        match self.backend {
            Backend::NotCuda => run(notcuda, scenario),
            Backend::Cuda => run(cuda, scenario),
        }
    }
}

/// The test of `func` against `backend`.
pub open spec fn unit_of(unit: TestUnit, func: Seq<char>, backend: Backend) -> bool {
    unit.backend == backend && unit.name@ == spec_test_name(func, backend)
}

/// Generates the two tests of one scenario: the first against the
/// reimplementation, the second against the native driver.
pub fn cuda_driver_test(func: &str) -> (units: (TestUnit, TestUnit))
    ensures
        unit_of(units.0, func@, Backend::NotCuda),
        unit_of(units.1, func@, Backend::Cuda),
{
    (
        TestUnit { name: test_name(func, Backend::NotCuda), backend: Backend::NotCuda },
        TestUnit { name: test_name(func, Backend::Cuda), backend: Backend::Cuda },
    )
}

/// The backend of the test at place `k` of a generated list: the
/// reimplementation at the even places, the native driver at the odd ones.
pub open spec fn backend_at(k: int) -> Backend {
    if k % 2 == 0 {
        Backend::NotCuda
    } else {
        Backend::Cuda
    }
}

/// Generates the tests of a list of scenarios, two for each and in the
/// order of the list: the tests of scenario `i` stand at places `2 * i` and
/// `2 * i + 1`.
pub fn cuda_driver_tests(funcs: &Vec<String>) -> (units: Vec<TestUnit>)
    ensures
        units.len() == 2 * funcs.len(),
        forall|k: int|
            0 <= k < units.len() ==> unit_of(#[trigger] units[k], funcs[k / 2]@, backend_at(k)),
{
    let mut units: Vec<TestUnit> = Vec::new();
    let mut i: usize = 0;
    while i < funcs.len()
        invariant
            i <= funcs.len(),
            units.len() == 2 * i,
            forall|k: int|
                0 <= k < units.len() ==> unit_of(#[trigger] units[k], funcs[k / 2]@, backend_at(k)),
        decreases funcs.len() - i,
    {
        let pair = cuda_driver_test(funcs[i].as_str());
        units.push(pair.0);
        units.push(pair.1);
        i += 1;
    }
    units
}

/// A test's name tells which scenario and which backend it stands for: two
/// tests with the same name have both in common.
pub proof fn lemma_test_name_injective(f: Seq<char>, a: Backend, g: Seq<char>, b: Backend)
    requires
        spec_test_name(f, a) == spec_test_name(g, b),
    ensures
        f == g,
        a == b,
{
    reveal_strlit("_notcuda");
    reveal_strlit("_cuda");
    let name = spec_test_name(f, a);
    let n = name.len() as int;
    assert(name == f + a.spec_suffix());
    assert(name == g + b.spec_suffix());
    if a != b {
        // Five places from the end, one suffix has its underscore and the
        // other the letter t.
        if a == Backend::Cuda {
            assert((f + "_cuda"@)[n - 5] == '_');
            assert((g + "_notcuda"@)[n - 5] == 't');
        } else {
            assert((f + "_notcuda"@)[n - 5] == 't');
            assert((g + "_cuda"@)[n - 5] == '_');
        }
        assert(false);
    }
    assert(f.len() == g.len());
    assert forall|i: int| 0 <= i < f.len() implies f[i] == g[i] by {
        assert((f + a.spec_suffix())[i] == f[i]);
        assert((g + b.spec_suffix())[i] == g[i]);
    }
    assert(f =~= g);
}

/// The tests generated from a list of scenarios with different names all
/// have different names: the tests at two places of the generated list never
/// share one.
pub proof fn lemma_generated_names_distinct(funcs: Seq<Seq<char>>, j: int, k: int)
    requires
        forall|a: int, b: int| 0 <= a < b < funcs.len() ==> funcs[a] != funcs[b],
        0 <= j < k < 2 * funcs.len(),
    ensures
        spec_test_name(funcs[j / 2], backend_at(j)) != spec_test_name(funcs[k / 2], backend_at(k)),
{
    if spec_test_name(funcs[j / 2], backend_at(j)) == spec_test_name(funcs[k / 2], backend_at(k)) {
        lemma_test_name_injective(funcs[j / 2], backend_at(j), funcs[k / 2], backend_at(k));
        assert(j / 2 == k / 2);
        assert(j % 2 == k % 2);
        assert(false);
    }
}

} // verus!
