//! Which backends a construction request tries, and in what order.
//!
//! A build holds the testing backend and any subset of the hypervisor
//! backends. A request that names a backend tries that one alone. A request
//! that names none tries the backends of the build in a fixed order of
//! precedence, hypervisors first and the testing backend last; whoever
//! constructs them stops at the first that succeeds.

use vstd::prelude::*;
use crate::api::DriverType;

verus! {

/// The hypervisor backends that a build holds. The testing backend is in
/// every build.
#[derive(Clone, Copy, Debug, PartialEq, Eq, Structural)]
pub struct Compiled {
    pub hyperv: bool,
    pub kvm: bool,
    pub virtualbox: bool,
    pub xen: bool,
}

/// Why a construction request is turned down before any backend is tried.
#[derive(Clone, Copy, Debug, PartialEq, Eq, Structural)]
pub enum InitError {
    /// The request names a backend that the build does not hold.
    NotCompiled(DriverType),
    /// The request names one backend and brings a payload meant for another.
    ParamMismatch { requested: DriverType, tagged: DriverType },
    /// The payload handed over the foreign boundary has no native form.
    InvalidParam,
    /// The tag handed over the foreign boundary stands for no backend.
    UnknownDriver(u32),
}

/// One backend to construct, and whether it gets the payload of the request.
#[derive(Clone, Copy, Debug, PartialEq, Eq, Structural)]
pub struct Attempt {
    pub kind: DriverType,
    pub with_param: bool,
}

/// Number of backend variants.
pub const VARIANTS: usize = 5;

/// The order of precedence in which backends are probed.
pub open spec fn priority() -> Seq<DriverType> {
    seq![
        DriverType::HyperV,
        DriverType::KVM,
        DriverType::VirtualBox,
        DriverType::Xen,
        DriverType::Dummy,
    ]
}

/// The place of `kind` in the order of precedence.
pub open spec fn rank(kind: DriverType) -> int {
    match kind {
        DriverType::HyperV => 0,
        DriverType::KVM => 1,
        DriverType::VirtualBox => 2,
        DriverType::Xen => 3,
        DriverType::Dummy => 4,
    }
}

/// Every backend has one place in the order of precedence, and `rank` names
/// it.
pub proof fn lemma_rank_is_place(kind: DriverType)
    ensures
        0 <= rank(kind) < priority().len(),
        priority()[rank(kind)] == kind,
{
}

/// The attempt on `kind` under a request whose payload, if any, is tagged
/// for `tagged`: the payload goes to the backend it is tagged for and to no
/// other.
pub open spec fn attempt_on(kind: DriverType, tagged: Option<DriverType>) -> Attempt {
    Attempt { kind, with_param: tagged == Some(kind) }
}

/// The attempts on those of the first `n` backends in the order of precedence
/// that the build holds.
pub open spec fn probe(compiled: Compiled, tagged: Option<DriverType>, n: nat) -> Seq<Attempt>
    recommends
        n <= priority().len(),
    decreases n,
{
    if n == 0 {
        Seq::empty()
    } else {
        let kind = priority()[n - 1];
        let before = probe(compiled, tagged, (n - 1) as nat);
        if compiled.has(kind) {
            before.push(attempt_on(kind, tagged))
        } else {
            before
        }
    }
}

/// What a request leads to in a build: the attempts to make, in order, or
/// the reason why none is made.
pub open spec fn plan_of(
    compiled: Compiled,
    requested: Option<DriverType>,
    tagged: Option<DriverType>,
) -> Result<Seq<Attempt>, InitError> {
    match requested {
        Some(kind) => {
            if !compiled.has(kind) {
                Err(InitError::NotCompiled(kind))
            } else if tagged is Some && tagged != Some(kind) {
                Err(InitError::ParamMismatch { requested: kind, tagged: tagged->0 })
            } else {
                Ok(seq![attempt_on(kind, tagged)])
            }
        },
        None => Ok(probe(compiled, tagged, priority().len())),
    }
}

impl Compiled {
    /// Whether the build holds the backend `kind`.
    pub open spec fn has(&self, kind: DriverType) -> bool {
        match kind {
            DriverType::Dummy => true,
            DriverType::HyperV => self.hyperv,
            DriverType::KVM => self.kvm,
            DriverType::VirtualBox => self.virtualbox,
            DriverType::Xen => self.xen,
        }
    }

    /// The build that holds no hypervisor backend.
    pub open spec fn minimal() -> Compiled {
        Compiled { hyperv: false, kvm: false, virtualbox: false, xen: false }
    }

    /// The build that holds no hypervisor backend.
    pub fn testing_only() -> (compiled: Compiled)
        ensures
            compiled == Compiled::minimal(),
    {
        Compiled { hyperv: false, kvm: false, virtualbox: false, xen: false }
    }

    /// Whether the build holds the backend `kind`.
    pub fn contains(&self, kind: DriverType) -> (held: bool)
        ensures
            held == self.has(kind),
    {
        match kind {
            DriverType::Dummy => true,
            DriverType::HyperV => self.hyperv,
            DriverType::KVM => self.kvm,
            DriverType::VirtualBox => self.virtualbox,
            DriverType::Xen => self.xen,
        }
    }
}

/// The backend at place `place` of the order of precedence.
fn priority_at(place: usize) -> (kind: DriverType)
    requires
        place < VARIANTS,
    ensures
        kind == priority()[place as int],
        rank(kind) == place,
{
    if place == 0 {
        DriverType::HyperV
    } else if place == 1 {
        DriverType::KVM
    } else if place == 2 {
        DriverType::VirtualBox
    } else if place == 3 {
        DriverType::Xen
    } else {
        DriverType::Dummy
    }
}

/// Decides what a request leads to in the build `compiled`: `requested` is the
/// backend it names, `tagged` the backend its payload is meant for.
pub fn plan(compiled: &Compiled, requested: Option<DriverType>, tagged: Option<DriverType>) -> (res:
    Result<Vec<Attempt>, InitError>)
    ensures
        res is Ok <==> plan_of(*compiled, requested, tagged) is Ok,
        res matches Ok(attempts) ==> plan_of(*compiled, requested, tagged) == Ok::<
            Seq<Attempt>,
            InitError,
        >(attempts@),
        res matches Err(e) ==> plan_of(*compiled, requested, tagged) == Err::<
            Seq<Attempt>,
            InitError,
        >(e),
{
    let mut attempts: Vec<Attempt> = Vec::new();
    match requested {
        Some(kind) => {
            if !compiled.contains(kind) {
                return Err(InitError::NotCompiled(kind));
            }
            let with_param = match tagged {
                Some(target) => {
                    if target != kind {
                        return Err(InitError::ParamMismatch { requested: kind, tagged: target });
                    }
                    true
                },
                None => false,
            };
            attempts.push(Attempt { kind, with_param });
            assert(attempts@ =~= seq![attempt_on(kind, tagged)]);
        },
        None => {
            let mut place: usize = 0;
            while place < VARIANTS
                invariant
                    place <= VARIANTS,
                    attempts@ == probe(*compiled, tagged, place as nat),
                decreases VARIANTS - place,
            {
                let kind = priority_at(place);
                if compiled.contains(kind) {
                    let with_param = match tagged {
                        Some(target) => target == kind,
                        None => false,
                    };
                    attempts.push(Attempt { kind, with_param });
                }
                place += 1;
            }
        },
    }
    Ok(attempts)
}

/// Among the first `n` backends in the order of precedence, the probe tries
/// exactly those that the build holds, each once, in that order.
proof fn lemma_probe_prefix(compiled: Compiled, tagged: Option<DriverType>, n: nat)
    requires
        n <= priority().len(),
    ensures
        forall|i: int|
            0 <= i < probe(compiled, tagged, n).len() ==> {
                let a = #[trigger] probe(compiled, tagged, n)[i];
                &&& compiled.has(a.kind)
                &&& rank(a.kind) < n
                &&& a == attempt_on(a.kind, tagged)
            },
        forall|i: int, j: int|
            0 <= i < j < probe(compiled, tagged, n).len() ==> rank(
                (#[trigger] probe(compiled, tagged, n)[i]).kind,
            ) < rank((#[trigger] probe(compiled, tagged, n)[j]).kind),
        forall|kind: DriverType|
            compiled.has(kind) && rank(kind) < n ==> probe(compiled, tagged, n).contains(
                #[trigger] attempt_on(kind, tagged),
            ),
    decreases n,
{
    if n > 0 {
        let before = probe(compiled, tagged, (n - 1) as nat);
        let last = priority()[n - 1];
        lemma_probe_prefix(compiled, tagged, (n - 1) as nat);
        assert(rank(last) == n - 1);
        assert forall|kind: DriverType| compiled.has(kind) && rank(kind) < n implies probe(
            compiled,
            tagged,
            n,
        ).contains(#[trigger] attempt_on(kind, tagged)) by {
            if rank(kind) < n - 1 {
                let i = choose|i: int|
                    0 <= i < before.len() && before[i] == attempt_on(kind, tagged);
                assert(probe(compiled, tagged, n)[i] == attempt_on(kind, tagged));
            } else {
                assert(kind == last);
                assert(probe(compiled, tagged, n)[before.len() as int] == attempt_on(
                    kind,
                    tagged,
                ));
            }
        }
    }
}

/// A request that names no backend is never turned down, whatever the build
/// and the payload, and the last backend it tries is the testing backend.
pub proof fn lemma_probe_is_total(compiled: Compiled, tagged: Option<DriverType>)
    ensures
        plan_of(compiled, None, tagged) is Ok,
        plan_of(compiled, None, tagged)->Ok_0.len() >= 1,
        plan_of(compiled, None, tagged)->Ok_0.last() == attempt_on(DriverType::Dummy, tagged),
{
    assert(priority().len() == 5);
    assert(priority()[4] == DriverType::Dummy);
}

/// A request that names no backend tries the backends that the build holds,
/// and no others, each once and in the order of precedence; the payload goes
/// to the backend it is tagged for alone.
pub proof fn lemma_probe_follows_priority(compiled: Compiled, tagged: Option<DriverType>)
    ensures
        plan_of(compiled, None, tagged) is Ok,
        forall|i: int|
            0 <= i < plan_of(compiled, None, tagged)->Ok_0.len() ==> {
                let a = #[trigger] plan_of(compiled, None, tagged)->Ok_0[i];
                compiled.has(a.kind) && a == attempt_on(a.kind, tagged)
            },
        forall|i: int, j: int|
            0 <= i < j < plan_of(compiled, None, tagged)->Ok_0.len() ==> rank(
                (#[trigger] plan_of(compiled, None, tagged)->Ok_0[i]).kind,
            ) < rank((#[trigger] plan_of(compiled, None, tagged)->Ok_0[j]).kind),
        forall|kind: DriverType|
            compiled.has(kind) ==> plan_of(compiled, None, tagged)->Ok_0.contains(
                #[trigger] attempt_on(kind, tagged),
            ),
{
    lemma_probe_prefix(compiled, tagged, priority().len());
}

/// A request that names a backend which the build does not hold is turned
/// down for that reason, whatever else it brings.
pub proof fn lemma_missing_backend_is_refused(
    compiled: Compiled,
    kind: DriverType,
    tagged: Option<DriverType>,
)
    requires
        !compiled.has(kind),
    ensures
        plan_of(compiled, Some(kind), tagged) == Err::<Seq<Attempt>, InitError>(
            InitError::NotCompiled(kind),
        ),
{
}

/// A request that names a backend of the build is turned down exactly when it
/// brings a payload tagged for another backend; otherwise it tries the named
/// backend and nothing else.
pub proof fn lemma_named_backend_alone(
    compiled: Compiled,
    kind: DriverType,
    tagged: Option<DriverType>,
)
    requires
        compiled.has(kind),
    ensures
        plan_of(compiled, Some(kind), tagged) is Err <==> tagged is Some && tagged != Some(kind),
        plan_of(compiled, Some(kind), tagged) matches Ok(attempts) ==> attempts == seq![
            attempt_on(kind, tagged),
        ],
{
}

/// In the build without hypervisor backends a request that names no backend
/// tries the testing backend and nothing else.
pub proof fn lemma_minimal_build_probes_testing(tagged: Option<DriverType>)
    ensures
        plan_of(Compiled::minimal(), None, tagged) == Ok::<Seq<Attempt>, InitError>(
            seq![attempt_on(DriverType::Dummy, tagged)],
        ),
{
    reveal_with_fuel(probe, 6);
    assert(priority().len() == 5);
    assert(probe(Compiled::minimal(), tagged, 5) =~= seq![
        attempt_on(DriverType::Dummy, tagged),
    ]);
}

} // verus!
