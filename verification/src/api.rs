//! The capability interface that every hypervisor backend satisfies, and the
//! plain data that crosses it.

use vstd::prelude::*;
use crate::driver::dummy::{memory, registers_of, MAX_PHYSICAL_ADDR};

verus! {

/// Tag of a backend variant.
#[derive(Clone, Copy, Debug, PartialEq, Eq, Structural)]
pub enum DriverType {
    /// The testing backend, present in every build.
    Dummy,
    HyperV,
    KVM,
    VirtualBox,
    Xen,
}

/// Extra configuration for one backend variant.
#[derive(Debug)]
pub enum DriverInitParam {
    /// Path of the introspection socket of a KVM domain.
    KVMiSocket(String),
}

impl DriverInitParam {
    /// The backend variant that this payload is meant for.
    pub open spec fn target(&self) -> DriverType {
        match self {
            DriverInitParam::KVMiSocket(_) => DriverType::KVM,
        }
    }

    /// The backend variant that this payload is meant for.
    pub fn driver_type(&self) -> (kind: DriverType)
        ensures
            kind == self.target(),
    {
        match self {
            DriverInitParam::KVMiSocket(_) => DriverType::KVM,
        }
    }
}

/// General-purpose and control registers of one x86-64 virtual CPU.
#[derive(Clone, Copy, Debug, PartialEq, Eq, Structural)]
pub struct X86Registers {
    pub rax: u64,
    pub rbx: u64,
    pub rcx: u64,
    pub rdx: u64,
    pub rsi: u64,
    pub rdi: u64,
    pub rsp: u64,
    pub rbp: u64,
    pub r8: u64,
    pub r9: u64,
    pub r10: u64,
    pub r11: u64,
    pub r12: u64,
    pub r13: u64,
    pub r14: u64,
    pub r15: u64,
    pub rip: u64,
    pub rflags: u64,
    pub cr0: u64,
    pub cr2: u64,
    pub cr3: u64,
    pub cr4: u64,
}

/// Snapshot of the architectural state of one virtual CPU.
#[derive(Clone, Copy, Debug, PartialEq, Eq, Structural)]
pub enum Registers {
    X86(X86Registers),
}

/// Why a backend could not answer a request.
#[derive(Clone, Copy, Debug, PartialEq, Eq, Structural)]
pub enum DriverError {
    /// The range is not backed by the physical memory of the domain.
    InvalidAddress,
    /// The domain has no virtual CPU of that index.
    InvalidVcpu,
    /// The channel to the hypervisor is down.
    Unavailable,
}

/// One operation as it passes between a caller and a backend: what was asked
/// and what was answered.
pub enum Exchange {
    /// A read at `paddr` into a buffer that held `before` and holds `after`.
    ReadPhysical { paddr: u64, before: Seq<u8>, after: Seq<u8>, res: Result<(), DriverError> },
    /// A question for the highest physical address.
    MaxPhysicalAddr { addr: Result<u64, DriverError> },
    /// A request to stop the domain.
    Pause { res: Result<(), DriverError> },
    /// A request to let the domain run again.
    Resume { res: Result<(), DriverError> },
    /// A question for the registers of the virtual CPU `vcpu`.
    ReadRegisters { vcpu: u16, regs: Result<Registers, DriverError> },
}

/// What every backend offers.
///
/// Each backend says by [`allows`](Self::allows) which answers it may give as
/// it stands, and every operation answers within that. A backend that
/// answers from a hypervisor may allow any answer. A value whose
/// [`kind`](Self::kind) is [`DriverType::Dummy`] answers as the testing
/// backend is documented to.
pub trait Introspectable {
    /// The variant that this backend is an instance of.
    spec fn kind(&self) -> DriverType;

    /// Whether the backend, as it stands, may take part in `exchange`.
    spec fn allows(&self, exchange: Exchange) -> bool;

    /// Fills `buf` with the bytes of physical memory that start at `paddr`.
    fn read_physical(&self, paddr: u64, buf: &mut [u8]) -> (res: Result<(), DriverError>)
        ensures
            final(buf)@.len() == old(buf)@.len(),
            self.allows(
                Exchange::ReadPhysical { paddr, before: old(buf)@, after: final(buf)@, res },
            ),
            self.kind() == DriverType::Dummy ==> res is Ok && final(buf)@ == memory(
                paddr,
                old(buf)@.len(),
            ),
    ;

    /// The highest physical address that the backend holds valid.
    fn get_max_physical_addr(&self) -> (res: Result<u64, DriverError>)
        ensures
            self.allows(Exchange::MaxPhysicalAddr { addr: res }),
            self.kind() == DriverType::Dummy ==> res == Ok::<u64, DriverError>(MAX_PHYSICAL_ADDR),
    ;

    /// Stops the domain. Its variant stays what it was.
    fn pause(&mut self) -> (res: Result<(), DriverError>)
        ensures
            old(self).allows(Exchange::Pause { res }),
            final(self).kind() == old(self).kind(),
            old(self).kind() == DriverType::Dummy ==> res is Ok,
    ;

    /// Lets the domain run again. Its variant stays what it was.
    fn resume(&mut self) -> (res: Result<(), DriverError>)
        ensures
            old(self).allows(Exchange::Resume { res }),
            final(self).kind() == old(self).kind(),
            old(self).kind() == DriverType::Dummy ==> res is Ok,
    ;

    /// The registers of the virtual CPU `vcpu`.
    fn read_registers(&self, vcpu: u16) -> (res: Result<Registers, DriverError>)
        ensures
            self.allows(Exchange::ReadRegisters { vcpu, regs: res }),
            self.kind() == DriverType::Dummy ==> res == registers_of(vcpu),
    ;
}

} // verus!
