//! The testing backend: a domain that needs no hypervisor.
//!
//! Its answers are fixed. Every physical address is readable and holds the low
//! byte of its own address. It has one virtual CPU, whose registers are all
//! zero. Pausing and resuming always succeed, in any order.

use vstd::prelude::*;
use crate::api::{DriverError, DriverType, Exchange, Introspectable, Registers, X86Registers};

verus! {

/// What the testing backend reports as its highest physical address.
pub const MAX_PHYSICAL_ADDR: u64 = 0;

/// Number of virtual CPUs of the testing backend.
pub const VCPU_COUNT: u16 = 1;

/// The byte that the testing backend holds at physical address `paddr + offset`,
/// addresses wrapping at 2^64.
pub open spec fn byte_at(paddr: u64, offset: int) -> u8 {
    ((paddr + offset) % 256) as u8
}

/// The `len` bytes that the testing backend holds from `paddr` on.
pub open spec fn memory(paddr: u64, len: nat) -> Seq<u8> {
    Seq::new(len, |i: int| byte_at(paddr, i))
}

/// Every address holds one byte, whichever read reaches it: the byte at
/// offset `i + j` of a read from `paddr` is the byte at offset `j` of a read
/// from `start`, the address `i` further on.
pub proof fn lemma_memory_by_address(paddr: u64, start: u64, i: int, j: int)
    requires
        0 <= i,
        0 <= j,
        start == (paddr + i) % 0x1_0000_0000_0000_0000,
    ensures
        byte_at(paddr, i + j) == byte_at(start, j),
{
    let x = paddr + i;
    assert(0x1_0000_0000_0000_0000int == 256 * 0x100_0000_0000_0000int);
    vstd::arithmetic::div_mod::lemma_mod_mod(x, 256, 0x100_0000_0000_0000);
    vstd::arithmetic::div_mod::lemma_add_mod_noop(x, j, 256);
    vstd::arithmetic::div_mod::lemma_add_mod_noop(start as int, j, 256);
}

/// Registers with every field zero.
pub open spec fn zeroed() -> Registers {
    Registers::X86(
        X86Registers {
            rax: 0,
            rbx: 0,
            rcx: 0,
            rdx: 0,
            rsi: 0,
            rdi: 0,
            rsp: 0,
            rbp: 0,
            r8: 0,
            r9: 0,
            r10: 0,
            r11: 0,
            r12: 0,
            r13: 0,
            r14: 0,
            r15: 0,
            rip: 0,
            rflags: 0,
            cr0: 0,
            cr2: 0,
            cr3: 0,
            cr4: 0,
        },
    )
}

/// What the testing backend answers when asked for the registers of `vcpu`.
pub open spec fn registers_of(vcpu: u16) -> Result<Registers, DriverError> {
    if vcpu < VCPU_COUNT {
        Ok(zeroed())
    } else {
        Err(DriverError::InvalidVcpu)
    }
}

/// The exchanges that the testing backend takes part in: to each request it
/// has one answer.
pub open spec fn answers(exchange: Exchange) -> bool {
    match exchange {
        Exchange::ReadPhysical { paddr, before, after, res } => res is Ok && after == memory(
            paddr,
            before.len(),
        ),
        Exchange::MaxPhysicalAddr { addr } => addr == Ok::<u64, DriverError>(MAX_PHYSICAL_ADDR),
        Exchange::Pause { res } => res is Ok,
        Exchange::Resume { res } => res is Ok,
        Exchange::ReadRegisters { vcpu, regs } => regs == registers_of(vcpu),
    }
}

/// The testing backend.
#[derive(Debug)]
pub struct Dummy {}

impl Dummy {
    /// The testing backend for the domain `domain_name`. It accepts any name.
    pub fn new(domain_name: &str) -> (dummy: Dummy)
        ensures
            dummy.kind() == DriverType::Dummy,
    {
        Dummy {  }
    }
}

impl Introspectable for Dummy {
    open spec fn kind(&self) -> DriverType {
        DriverType::Dummy
    }

    open spec fn allows(&self, exchange: Exchange) -> bool {
        answers(exchange)
    }

    fn read_physical(&self, paddr: u64, buf: &mut [u8]) -> (res: Result<(), DriverError>) {
        let len: usize = buf.len();
        let base: u64 = paddr % 256;
        let mut i: usize = 0;
        while i < len
            invariant
                buf@.len() == len,
                i <= len,
                base == paddr % 256,
                forall|k: int| 0 <= k < i ==> buf@[k] == byte_at(paddr, k),
            decreases len - i,
        {
            let low: u64 = (base + (i % 256) as u64) % 256;
            assert(low == (paddr + i) % 256) by {
                vstd::arithmetic::div_mod::lemma_add_mod_noop(paddr as int, i as int, 256);
            }
            buf[i] = low as u8;
            i += 1;
        }
        assert(buf@ =~= memory(paddr, len as nat));
        Ok(())
    }

    fn get_max_physical_addr(&self) -> (res: Result<u64, DriverError>) {
        Ok(MAX_PHYSICAL_ADDR)
    }

    fn pause(&mut self) -> (res: Result<(), DriverError>) {
        Ok(())
    }

    fn resume(&mut self) -> (res: Result<(), DriverError>) {
        Ok(())
    }

    fn read_registers(&self, vcpu: u16) -> (res: Result<Registers, DriverError>) {
        if vcpu < VCPU_COUNT {
            Ok(
                Registers::X86(
                    X86Registers {
                        rax: 0,
                        rbx: 0,
                        rcx: 0,
                        rdx: 0,
                        rsi: 0,
                        rdi: 0,
                        rsp: 0,
                        rbp: 0,
                        r8: 0,
                        r9: 0,
                        r10: 0,
                        r11: 0,
                        r12: 0,
                        r13: 0,
                        r14: 0,
                        r15: 0,
                        rip: 0,
                        rflags: 0,
                        cr0: 0,
                        cr2: 0,
                        cr3: 0,
                        cr4: 0,
                    },
                ),
            )
        } else {
            Err(DriverError::InvalidVcpu)
        }
    }
}

} // verus!
