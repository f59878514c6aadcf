//! The rules of the foreign boundary.
//!
//! A foreign caller holds a backend behind one more allocation of fixed size,
//! names a backend variant by a number, hands text over as bytes, and learns of
//! an operation only whether it succeeded: what it asked for is written to
//! storage of its own on success and left alone on failure.

use vstd::prelude::*;
use vstd::utf8::{decode_utf8, valid_utf8};
use crate::Microvmi;
use crate::api::{DriverError, DriverInitParam, DriverType, Exchange, Introspectable, Registers};
use crate::driver::dummy::{answers, memory, registers_of, MAX_PHYSICAL_ADDR};
use crate::select::{plan_of, Compiled, InitError};

verus! {

/// The error of `String::from_utf8` of std. Nothing is read from it.
#[verifier::external_type_specification]
#[verifier::external_body]
pub struct ExFromUtf8Error(std::string::FromUtf8Error);

/// Extra configuration for one backend variant, as a foreign caller hands it
/// over.
#[derive(Debug)]
pub enum DriverInitParamFFI {
    /// Path of the introspection socket of a KVM domain: the bytes of the
    /// text, without the terminator.
    KVMiSocket(Vec<u8>),
}

/// The number that stands for a backend variant at the boundary.
pub open spec fn tag_of(kind: DriverType) -> u32 {
    match kind {
        DriverType::Dummy => 0,
        DriverType::HyperV => 1,
        DriverType::KVM => 2,
        DriverType::VirtualBox => 3,
        DriverType::Xen => 4,
    }
}

/// The backend variant that a number stands for at the boundary, if any.
pub open spec fn kind_of(tag: u32) -> Option<DriverType> {
    if tag == 0 {
        Some(DriverType::Dummy)
    } else if tag == 1 {
        Some(DriverType::HyperV)
    } else if tag == 2 {
        Some(DriverType::KVM)
    } else if tag == 3 {
        Some(DriverType::VirtualBox)
    } else if tag == 4 {
        Some(DriverType::Xen)
    } else {
        None
    }
}

/// The number that stands for `kind` at the boundary.
pub fn driver_type_tag(kind: DriverType) -> (tag: u32)
    ensures
        tag == tag_of(kind),
{
    match kind {
        DriverType::Dummy => 0,
        DriverType::HyperV => 1,
        DriverType::KVM => 2,
        DriverType::VirtualBox => 3,
        DriverType::Xen => 4,
    }
}

/// The backend variant that `tag` stands for, or `None` where it stands for
/// none.
pub fn driver_type_from_tag(tag: u32) -> (kind: Option<DriverType>)
    ensures
        kind == kind_of(tag),
{
    if tag == 0 {
        Some(DriverType::Dummy)
    } else if tag == 1 {
        Some(DriverType::HyperV)
    } else if tag == 2 {
        Some(DriverType::KVM)
    } else if tag == 3 {
        Some(DriverType::VirtualBox)
    } else if tag == 4 {
        Some(DriverType::Xen)
    } else {
        None
    }
}

/// Every backend variant has a number of its own, and a number stands for the
/// variant whose number it is and for no other.
pub proof fn lemma_tags_round_trip(kind: DriverType, tag: u32)
    ensures
        kind_of(tag_of(kind)) == Some(kind),
        kind_of(tag) == Some(kind) <==> tag == tag_of(kind),
{
}

/// `String::from_utf8` of std: it hands back the text that `bytes` encode in
/// UTF-8, and fails exactly where they encode none.
#[verifier::external_body]
fn string_from_utf8(bytes: Vec<u8>) -> (res: Result<String, std::string::FromUtf8Error>)
    ensures
        res is Ok <==> valid_utf8(bytes@),
        res matches Ok(text) ==> text@ == decode_utf8(bytes@),
{
    String::from_utf8(bytes)
}

impl DriverInitParamFFI {
    /// Whether the payload has a native form: its bytes are text in UTF-8.
    pub open spec fn converts(&self) -> bool {
        match self {
            DriverInitParamFFI::KVMiSocket(bytes) => valid_utf8(bytes@),
        }
    }

    /// The backend variant that the payload is meant for.
    pub open spec fn target(&self) -> DriverType {
        match self {
            DriverInitParamFFI::KVMiSocket(_) => DriverType::KVM,
        }
    }

    /// Whether `param` is the native form of this payload.
    pub open spec fn is_native(&self, param: DriverInitParam) -> bool {
        match (self, param) {
            (DriverInitParamFFI::KVMiSocket(bytes), DriverInitParam::KVMiSocket(path)) => path@
                == decode_utf8(bytes@),
        }
    }

    /// The native form of the payload.
    pub fn into_native(self) -> (res: Result<DriverInitParam, InitError>)
        ensures
            res is Ok <==> self.converts(),
            res matches Ok(param) ==> self.is_native(param) && param.target() == self.target(),
            res matches Err(e) ==> e == InitError::InvalidParam,
    {
        match self {
            DriverInitParamFFI::KVMiSocket(bytes) => match string_from_utf8(bytes) {
                Ok(path) => Ok(DriverInitParam::KVMiSocket(path)),
                Err(_) => Err(InitError::InvalidParam),
            },
        }
    }
}

/// The backend variant that a foreign payload is tagged for, if there is a
/// payload.
pub open spec fn tagged_for(option: Option<DriverInitParamFFI>) -> Option<DriverType> {
    match option {
        Some(param) => Some(param.target()),
        None => None,
    }
}

/// Why a foreign construction request fails, or `None` where it succeeds. A
/// number that stands for no backend is found first, then a payload without
/// native form, then what the build cannot serve.
pub open spec fn init_failure(driver_type: Option<u32>, option: Option<DriverInitParamFFI>) -> Option<
    InitError,
> {
    if driver_type is Some && kind_of(driver_type->0) is None {
        Some(InitError::UnknownDriver(driver_type->0))
    } else if option is Some && !option->0.converts() {
        Some(InitError::InvalidParam)
    } else {
        let requested = match driver_type {
            Some(tag) => kind_of(tag),
            None => None,
        };
        match plan_of(Compiled::minimal(), requested, tagged_for(option)) {
            Ok(_) => None,
            Err(e) => Some(e),
        }
    }
}

/// In this build a foreign request that names no backend fails only on a
/// payload without native form; one that names the testing backend succeeds
/// exactly when it brings no payload; one that names anything else fails.
pub proof fn lemma_foreign_construction(driver_type: Option<u32>, option: Option<DriverInitParamFFI>)
    ensures
        driver_type is None ==> (init_failure(driver_type, option) is None <==> (option is None
            || option->0.converts())),
        driver_type == Some(tag_of(DriverType::Dummy)) ==> (init_failure(driver_type, option)
            is None <==> option is None),
        driver_type is Some && driver_type != Some(tag_of(DriverType::Dummy)) ==> init_failure(
            driver_type,
            option,
        ) is Some,
        forall|kind: DriverType|
            kind != DriverType::Dummy && option is None ==> init_failure(
                Some(#[trigger] tag_of(kind)),
                option,
            ) == Some(InitError::NotCompiled(kind)),
{
    crate::select::lemma_minimal_build_probes_testing(tagged_for(option));
}

/// Constructs a backend for the domain `domain_name` and puts it behind an
/// allocation of its own, whose size does not depend on the backend.
///
/// `driver_type` is the number of the backend asked for, `None` where the
/// caller passed no number; `driver_init_option` is the payload in its
/// foreign form, `None` where the caller passed none.
pub fn microvmi_init(
    domain_name: &str,
    driver_type: Option<u32>,
    driver_init_option: Option<DriverInitParamFFI>,
) -> (res: Result<Box<Microvmi>, InitError>)
    ensures
        match res {
            Ok(context) => {
                &&& init_failure(driver_type, driver_init_option) is None
                &&& context.kind() == DriverType::Dummy
                &&& forall|exchange: Exchange| #[trigger]
                    context.allows(exchange) == answers(exchange)
            },
            Err(e) => init_failure(driver_type, driver_init_option) == Some(e),
        },
{
    let optional_driver_type: Option<DriverType> = match driver_type {
        Some(tag) => match driver_type_from_tag(tag) {
            Some(kind) => Some(kind),
            None => {
                return Err(InitError::UnknownDriver(tag));
            },
        },
        None => None,
    };
    let init_option: Option<DriverInitParam> = match driver_init_option {
        Some(param) => match param.into_native() {
            Ok(native) => Some(native),
            Err(e) => {
                return Err(e);
            },
        },
        None => None,
    };
    match crate::refusal(optional_driver_type, &init_option) {
        Some(e) => Err(e),
        None => {
            let driver = crate::init(domain_name, optional_driver_type, init_option);
            Ok(Box::new(driver))
        },
    }
}

/// Releases the allocation of the boundary and, with it, the backend. The
/// handle is taken by value, so nothing is left to use or to release again.
pub fn microvmi_destroy(context: Box<Microvmi>) {
    let _ = context;
}

/// Asks the backend to stop the domain and says whether its answer was a
/// success.
pub fn microvmi_pause(context: &mut Microvmi) -> (ok: bool)
    ensures
        ok ==> old(context).allows(Exchange::Pause { res: Ok(()) }),
        !ok ==> exists|e: DriverError| #[trigger]
            old(context).allows(Exchange::Pause { res: Err(e) }),
        final(context).kind() == old(context).kind(),
        old(context).kind() == DriverType::Dummy ==> ok,
{
    let answer = context.pause();
    proof {
        match answer {
            Ok(unit) => assert(old(context).allows(Exchange::Pause { res: Ok(unit) })),
            Err(e) => assert(old(context).allows(Exchange::Pause { res: Err(e) })),
        }
    }
    answer.is_ok()
}

/// Asks the backend to let the domain run again and says whether its answer
/// was a success.
pub fn microvmi_resume(context: &mut Microvmi) -> (ok: bool)
    ensures
        ok ==> old(context).allows(Exchange::Resume { res: Ok(()) }),
        !ok ==> exists|e: DriverError| #[trigger]
            old(context).allows(Exchange::Resume { res: Err(e) }),
        final(context).kind() == old(context).kind(),
        old(context).kind() == DriverType::Dummy ==> ok,
{
    let answer = context.resume();
    proof {
        match answer {
            Ok(unit) => assert(old(context).allows(Exchange::Resume { res: Ok(unit) })),
            Err(e) => assert(old(context).allows(Exchange::Resume { res: Err(e) })),
        }
    }
    answer.is_ok()
}

/// Has the backend fill `buffer` with the physical memory from
/// `physical_address` on and says whether its answer was a success.
pub fn microvmi_read_physical(context: &Microvmi, physical_address: u64, buffer: &mut [u8]) -> (ok:
    bool)
    ensures
        final(buffer)@.len() == old(buffer)@.len(),
        ok ==> context.allows(
            Exchange::ReadPhysical {
                paddr: physical_address,
                before: old(buffer)@,
                after: final(buffer)@,
                res: Ok(()),
            },
        ),
        !ok ==> exists|e: DriverError| #[trigger]
            context.allows(
                Exchange::ReadPhysical {
                    paddr: physical_address,
                    before: old(buffer)@,
                    after: final(buffer)@,
                    res: Err(e),
                },
            ),
        context.kind() == DriverType::Dummy ==> ok && final(buffer)@ == memory(
            physical_address,
            old(buffer)@.len(),
        ),
{
    let answer = context.read_physical(physical_address, buffer);
    proof {
        let (before, after) = (old(buffer)@, buffer@);
        match answer {
            Ok(unit) => assert(context.allows(
                Exchange::ReadPhysical { paddr: physical_address, before, after, res: Ok(unit) },
            )),
            Err(e) => assert(context.allows(
                Exchange::ReadPhysical { paddr: physical_address, before, after, res: Err(e) },
            )),
        }
    }
    answer.is_ok()
}

/// Hands an answer over the boundary: on success the value is written to the
/// storage of the caller, on failure that storage stays as it was.
pub fn write_on_success<T>(answer: Result<T, DriverError>, out: &mut T) -> (ok: bool)
    ensures
        ok == answer is Ok,
        answer matches Ok(value) ==> *final(out) == value,
        answer is Err ==> *final(out) == *old(out),
{
    match answer {
        Ok(value) => {
            *out = value;
            true
        },
        Err(_) => false,
    }
}

/// Writes the highest valid physical address to `address` and says whether
/// the backend gave one; if not, `address` stays as it was.
pub fn microvmi_get_max_physical_addr(context: &Microvmi, address: &mut u64) -> (ok: bool)
    ensures
        ok ==> context.allows(Exchange::MaxPhysicalAddr { addr: Ok(*final(address)) }),
        !ok ==> exists|e: DriverError| #[trigger]
            context.allows(Exchange::MaxPhysicalAddr { addr: Err(e) }),
        !ok ==> *final(address) == *old(address),
        context.kind() == DriverType::Dummy ==> ok && *final(address) == MAX_PHYSICAL_ADDR,
{
    let answer = context.get_max_physical_addr();
    proof {
        if let Err(e) = answer {
            assert(context.allows(Exchange::MaxPhysicalAddr { addr: Err(e) }));
        }
    }
    write_on_success(answer, address)
}

/// Writes the registers of the virtual CPU `vcpu` to `registers` and says
/// whether the backend gave them; if not, `registers` stays as it was.
pub fn microvmi_read_registers(context: &Microvmi, vcpu: u16, registers: &mut Registers) -> (ok:
    bool)
    ensures
        ok ==> context.allows(Exchange::ReadRegisters { vcpu, regs: Ok(*final(registers)) }),
        !ok ==> exists|e: DriverError| #[trigger]
            context.allows(Exchange::ReadRegisters { vcpu, regs: Err(e) }),
        !ok ==> *final(registers) == *old(registers),
        context.kind() == DriverType::Dummy ==> (ok <==> registers_of(vcpu) is Ok),
        context.kind() == DriverType::Dummy && ok ==> registers_of(vcpu) == Ok::<
            Registers,
            DriverError,
        >(*final(registers)),
{
    let answer = context.read_registers(vcpu);
    proof {
        if let Err(e) = answer {
            assert(context.allows(Exchange::ReadRegisters { vcpu, regs: Err(e) }));
        }
    }
    write_on_success(answer, registers)
}

/// Whether the logging of the process has been set up.
pub struct LogBootstrap {
    done: bool,
}

impl LogBootstrap {
    /// Whether the set-up has been asked for before.
    pub closed spec fn is_done(&self) -> bool {
        self.done
    }

    /// The state of a process in which nothing has been set up.
    pub fn new() -> (state: LogBootstrap)
        ensures
            !state.is_done(),
    {
        LogBootstrap { done: false }
    }
}

/// Asks for the logging to be set up and says whether the caller is to do it
/// now: on the first request it is, on every later one it is not.
pub fn microvmi_envlogger_init(state: &mut LogBootstrap) -> (setup: bool)
    ensures
        setup == !old(state).is_done(),
        final(state).is_done(),
{
    let setup: bool = !state.done;
    state.done = true;
    setup
}

} // verus!
