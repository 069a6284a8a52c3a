//! Comparison of what two backends answered to the same scenario.
use vstd::prelude::*;
use crate::call::{Call, Written};
use crate::driver::CudaDriverFns;
use crate::scenario::{run, served, Scenario};

verus! {

/// How closely two answers have to match to count as agreeing.
#[derive(Clone, Copy, Debug, PartialEq, Eq, Structural, Hash)]
pub enum Level {
    /// Both succeeded or both failed.
    Kind,
    /// Both returned the same result code.
    Codes,
    /// Both returned the same result code and wrote the same output. Handles
    /// and device addresses belong to the backend that made them, so of
    /// those only being null or not is compared.
    Answers,
}

/// Whether two outputs are the same as far as they can be across backends.
pub open spec fn spec_same_written(a: Written, b: Written) -> bool {
    match (a, b) {
        (Written::Nothing, Written::Nothing) => true,
        (Written::Context(x), Written::Context(y)) => x.is_null() == y.is_null(),
        (Written::Version(x), Written::Version(y)) => x == y,
        (Written::DevicePtr(x), Written::DevicePtr(y)) => (x.0 == 0) == (y.0 == 0),
        (Written::Uuid(x), Written::Uuid(y)) => x == y,
        (
            Written::PrimaryCtxState { flags: f, active: s },
            Written::PrimaryCtxState { flags: g, active: t },
        ) => f == g && s == t,
        _ => false,
    }
}

#[verifier::when_used_as_spec(spec_same_written)]
pub fn same_written(a: Written, b: Written) -> (same: bool)
    ensures
        same == spec_same_written(a, b),
{
    match (a, b) {
        (Written::Nothing, Written::Nothing) => true,
        (Written::Context(x), Written::Context(y)) => x.is_null() == y.is_null(),
        (Written::Version(x), Written::Version(y)) => x == y,
        (Written::DevicePtr(x), Written::DevicePtr(y)) => (x.0 == 0) == (y.0 == 0),
        (Written::Uuid(x), Written::Uuid(y)) => x == y,
        (
            Written::PrimaryCtxState { flags: f, active: s },
            Written::PrimaryCtxState { flags: g, active: t },
        ) => f == g && s == t,
        _ => false,
    }
}

/// Whether two answers agree at `level`.
pub open spec fn spec_agree(level: Level, a: Call, b: Call) -> bool {
    match level {
        Level::Kind => a.code.is_success() == b.code.is_success(),
        Level::Codes => a.code == b.code,
        Level::Answers => a.code == b.code && spec_same_written(a.written, b.written),
    }
}

#[verifier::when_used_as_spec(spec_agree)]
pub fn agree(level: Level, a: Call, b: Call) -> (same: bool)
    ensures
        same == spec_agree(level, a, b),
{
    match level {
        Level::Kind => a.code.is_success() == b.code.is_success(),
        Level::Codes => a.code == b.code,
        Level::Answers => a.code == b.code && same_written(a.written, b.written),
    }
}

/// Whether two traces have the same number of calls and agree at every one.
pub open spec fn traces_agree(level: Level, a: Seq<Call>, b: Seq<Call>) -> bool {
    &&& a.len() == b.len()
    &&& forall|i: int| 0 <= i < a.len() ==> spec_agree(level, #[trigger] a[i], b[i])
}

/// Whether two traces part at call number `i`: both hold such a call and the
/// answers disagree, or only one of them holds such a call.
pub open spec fn differ_at(level: Level, a: Seq<Call>, b: Seq<Call>, i: int) -> bool {
    if i < a.len() && i < b.len() {
        !spec_agree(level, a[i], b[i])
    } else {
        i < a.len() || i < b.len()
    }
}

/// Finds the first call at which two traces part, if there is one.
pub fn first_divergence(level: Level, a: &Vec<Call>, b: &Vec<Call>) -> (found: Option<usize>)
    ensures
        found is None <==> traces_agree(level, a@, b@),
        found matches Some(k) ==> {
            &&& differ_at(level, a@, b@, k as int)
            &&& forall|j: int| 0 <= j < k ==> !differ_at(level, a@, b@, j)
        },
{
    let mut i: usize = 0;
    while i < a.len() && i < b.len()
        invariant
            i <= a.len(),
            i <= b.len(),
            forall|j: int| 0 <= j < i ==> spec_agree(level, #[trigger] a@[j], b@[j]),
        decreases a.len() - i,
    {
        if !agree(level, a[i], b[i]) {
            return Some(i);
        }
        i += 1;
    }
    if a.len() == b.len() {
        None
    } else {
        Some(i)
    }
}

/// Whether two traces agree at `level` from the first call to the last.
pub fn parity(level: Level, a: &Vec<Call>, b: &Vec<Call>) -> (same: bool)
    ensures
        same == traces_agree(level, a@, b@),
{
    first_divergence(level, a, b).is_none()
}

/// What running one scenario against both backends showed.
pub struct Comparison {
    /// The calls that the reimplementation backend answered.
    pub notcuda: Vec<Call>,
    /// The calls that the native backend answered.
    pub cuda: Vec<Call>,
    /// The first call at which the two part, if they do.
    pub divergence: Option<usize>,
}

/// Runs `scenario` once against each backend, the reimplementation first,
/// and compares the two traces at `level`.
pub fn compare<A: CudaDriverFns, B: CudaDriverFns>(
    notcuda: &mut A,
    cuda: &mut B,
    scenario: Scenario,
    level: Level,
) -> (seen: Comparison)
    ensures
        scenario.is_run(seen.notcuda@),
        scenario.is_run(seen.cuda@),
        served(*old(notcuda), seen.notcuda@, *final(notcuda)),
        served(*old(cuda), seen.cuda@, *final(cuda)),
        final(notcuda).calls() == old(notcuda).calls() + seen.notcuda@,
        final(cuda).calls() == old(cuda).calls() + seen.cuda@,
        seen.divergence is None <==> traces_agree(level, seen.notcuda@, seen.cuda@),
        seen.divergence matches Some(k) ==> {
            &&& differ_at(level, seen.notcuda@, seen.cuda@, k as int)
            &&& forall|j: int| 0 <= j < k ==> !differ_at(level, seen.notcuda@, seen.cuda@, j)
        },
{
    let first = run(notcuda, scenario);
    let second = run(cuda, scenario);
    let divergence = first_divergence(level, &first, &second);
    Comparison { notcuda: first, cuda: second, divergence }
}

/// Agreement is reflexive: a trace agrees with itself at every level.
pub proof fn lemma_agreement_reflexive(level: Level, a: Seq<Call>)
    ensures
        traces_agree(level, a, a),
{
}

/// Agreement is symmetric: the order of the two backends does not matter.
pub proof fn lemma_agreement_symmetric(level: Level, a: Seq<Call>, b: Seq<Call>)
    requires
        traces_agree(level, a, b),
    ensures
        traces_agree(level, b, a),
{
    assert forall|i: int| 0 <= i < b.len() implies spec_agree(level, #[trigger] b[i], a[i]) by {
        assert(spec_agree(level, a[i], b[i]));
    }
}

/// Agreement is transitive: backends that each agree with a third agree
/// with one another.
pub proof fn lemma_agreement_transitive(level: Level, a: Seq<Call>, b: Seq<Call>, c: Seq<Call>)
    requires
        traces_agree(level, a, b),
        traces_agree(level, b, c),
    ensures
        traces_agree(level, a, c),
{
    assert forall|i: int| 0 <= i < a.len() implies spec_agree(level, #[trigger] a[i], c[i]) by {
        assert(spec_agree(level, a[i], b[i]));
        assert(spec_agree(level, b[i], c[i]));
    }
}

/// The levels are nested: the same answers are the same codes, and the same
/// codes are the same kind.
pub proof fn lemma_levels_nested(a: Seq<Call>, b: Seq<Call>)
    ensures
        traces_agree(Level::Answers, a, b) ==> traces_agree(Level::Codes, a, b),
        traces_agree(Level::Codes, a, b) ==> traces_agree(Level::Kind, a, b),
{
    if traces_agree(Level::Answers, a, b) {
        assert forall|i: int| 0 <= i < a.len() implies spec_agree(
            Level::Codes,
            #[trigger] a[i],
            b[i],
        ) by {
            assert(spec_agree(Level::Answers, a[i], b[i]));
        }
    }
    if traces_agree(Level::Codes, a, b) {
        assert forall|i: int| 0 <= i < a.len() implies spec_agree(
            Level::Kind,
            #[trigger] a[i],
            b[i],
        ) by {
            assert(spec_agree(Level::Codes, a[i], b[i]));
        }
    }
}

} // verus!
