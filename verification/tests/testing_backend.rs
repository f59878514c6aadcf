use microvmi::api::{DriverError, DriverInitParam, DriverType, Introspectable, Registers, X86Registers};
use microvmi::driver::dummy::{Dummy, MAX_PHYSICAL_ADDR, VCPU_COUNT};
use microvmi::{init, Microvmi};

fn zero_registers() -> Registers {
    Registers::X86(X86Registers {
        rax: 0,
        rbx: 0,
        rcx: 0,
        rdx: 0,
        rsi: 0,
        rdi: 0,
        rsp: 0,
        rbp: 0,
        r8: 0,
        r9: 0,
        r10: 0,
        r11: 0,
        r12: 0,
        r13: 0,
        r14: 0,
        r15: 0,
        rip: 0,
        rflags: 0,
        cr0: 0,
        cr2: 0,
        cr3: 0,
        cr4: 0,
    })
}

#[test]
fn construction_without_a_named_backend_always_succeeds() {
    let names = ["", "windows10", "a domain with spaces", "\u{e9}t\u{e9}"];
    for name in names {
        let vmi = init(name, None, None);
        assert_eq!(vmi.get_max_physical_addr(), Ok(MAX_PHYSICAL_ADDR));
        let socket = DriverInitParam::KVMiSocket(String::from("/tmp/introspector"));
        let vmi = init(name, None, Some(socket));
        assert_eq!(vmi.get_max_physical_addr(), Ok(MAX_PHYSICAL_ADDR));
    }
}

#[test]
fn construction_of_the_named_testing_backend_succeeds() {
    let vmi = init("windows10", Some(DriverType::Dummy), None);
    assert_eq!(vmi.read_registers(0), Ok(zero_registers()));
}

#[test]
fn the_highest_address_is_the_same_on_every_call() {
    let vmi = init("windows10", None, None);
    assert_eq!(MAX_PHYSICAL_ADDR, 0);
    for _ in 0..4 {
        assert_eq!(vmi.get_max_physical_addr(), Ok(0));
    }
}

#[test]
fn a_read_fills_the_whole_buffer_with_the_low_bytes_of_the_addresses() {
    let vmi = init("windows10", None, None);
    let mut buffer = [0xaau8; 6];
    assert_eq!(vmi.read_physical(0x1000, &mut buffer), Ok(()));
    assert_eq!(buffer, [0x00, 0x01, 0x02, 0x03, 0x04, 0x05]);
    let mut buffer = [0xaau8; 4];
    assert_eq!(vmi.read_physical(0x12fe, &mut buffer), Ok(()));
    assert_eq!(buffer, [0xfe, 0xff, 0x00, 0x01]);
}

#[test]
fn a_read_of_the_same_address_gives_the_same_bytes() {
    let vmi = init("windows10", None, None);
    let mut first = vec![0u8; 700];
    let mut second = vec![0xffu8; 700];
    assert_eq!(vmi.read_physical(0xdead_beef, &mut first), Ok(()));
    assert_eq!(vmi.read_physical(0xdead_beef, &mut second), Ok(()));
    assert_eq!(first, second);
    for (offset, byte) in first.iter().enumerate() {
        assert_eq!(*byte, ((0xdead_beefusize + offset) % 256) as u8);
    }
}

#[test]
fn overlapping_reads_agree_on_the_bytes_they_share() {
    let vmi = init("windows10", None, None);
    let mut long = [0u8; 16];
    let mut short = [0u8; 8];
    assert_eq!(vmi.read_physical(0x7ffc, &mut long), Ok(()));
    assert_eq!(vmi.read_physical(0x7ffc + 5, &mut short), Ok(()));
    assert_eq!(long[5..13], short);
}

#[test]
fn a_read_of_no_bytes_succeeds() {
    let vmi = init("windows10", None, None);
    let mut buffer: [u8; 0] = [];
    assert_eq!(vmi.read_physical(0, &mut buffer), Ok(()));
}

#[test]
fn a_read_past_the_last_address_wraps() {
    let vmi = init("windows10", None, None);
    let mut buffer = [0x55u8; 3];
    assert_eq!(vmi.read_physical(u64::MAX, &mut buffer), Ok(()));
    assert_eq!(buffer, [0xff, 0x00, 0x01]);
}

#[test]
fn the_only_virtual_cpu_has_zeroed_registers() {
    let vmi = init("windows10", None, None);
    assert_eq!(VCPU_COUNT, 1);
    assert_eq!(vmi.read_registers(0), Ok(zero_registers()));
}

#[test]
fn a_virtual_cpu_out_of_range_is_refused() {
    let vmi = init("windows10", None, None);
    assert_eq!(vmi.read_registers(1), Err(DriverError::InvalidVcpu));
    assert_eq!(vmi.read_registers(2), Err(DriverError::InvalidVcpu));
    assert_eq!(vmi.read_registers(u16::MAX), Err(DriverError::InvalidVcpu));
}

#[test]
fn pausing_and_resuming_succeed_in_any_order() {
    let mut vmi = init("windows10", None, None);
    assert_eq!(vmi.resume(), Ok(()));
    assert_eq!(vmi.pause(), Ok(()));
    assert_eq!(vmi.pause(), Ok(()));
    assert_eq!(vmi.resume(), Ok(()));
    assert_eq!(vmi.resume(), Ok(()));
    assert_eq!(vmi.get_max_physical_addr(), Ok(0));
}

#[test]
fn the_bare_backend_answers_as_the_handle_does() {
    let mut dummy = Dummy::new("windows10");
    let mut buffer = [0u8; 3];
    assert_eq!(dummy.read_physical(0x41, &mut buffer), Ok(()));
    assert_eq!(buffer, [0x41, 0x42, 0x43]);
    assert_eq!(dummy.get_max_physical_addr(), Ok(0));
    assert_eq!(dummy.pause(), Ok(()));
    assert_eq!(dummy.resume(), Ok(()));
    assert_eq!(dummy.read_registers(0), Ok(zero_registers()));
    assert_eq!(dummy.read_registers(7), Err(DriverError::InvalidVcpu));
    let vmi = Microvmi::new(Box::new(dummy));
    let mut again = [0u8; 3];
    assert_eq!(vmi.read_physical(0x41, &mut again), Ok(()));
    assert_eq!(again, buffer);
}
