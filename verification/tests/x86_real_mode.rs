use rustemu86::cpu::model::{cpu_factory, CpuModel, Pipeline};
use rustemu86::display::VgaTextBuffer;
use rustemu86::peripherals::interconnect::Interconnect;
use rustemu86::peripherals::memory_access::MemoryAccess;
use rustemu86::peripherals::uart16550::{uart_factory, Target};
use rustemu86::targets::x86::gpr::Reg32::{Eax, Ebx, Esi, Esp};
use rustemu86::targets::x86::gpr::SegReg::{Ds, Es, Fs, Gs, Ss};
use rustemu86::targets::x86::isa::eflags::EFlags;
use rustemu86::targets::x86::status_regs::CpuState;
use rustemu86::targets::x86::X86;

fn bus_with(program: &Vec<u8>, start_addr: usize) -> Interconnect {
    let serial = uart_factory(Target::Buffer);
    let mut mmio = Interconnect::new(serial, VgaTextBuffer::new());
    mmio.init_memory(program, start_addr);
    mmio
}

fn execute_program(program: Vec<u8>, start_addr: usize) -> X86 {
    let mmio = bus_with(&program, start_addr);
    let mut x86: X86 = cpu_factory(mmio);
    let result = x86.run();
    assert!(result.is_ok(), "{:?}", result.err());
    x86
}

fn execute_program_after(program: Vec<u8>, initializer: fn(&mut X86)) -> X86 {
    let mmio = bus_with(&program, 0);
    let mut x86 = X86::new(mmio);
    initializer(&mut x86);
    let result = x86.run();
    assert!(result.is_ok(), "{:?}", result.err());
    x86
}

#[test]
fn mod_skip_bios() {
    let program = vec![0xf4];
    let mmio = bus_with(&program, 0x7c00);
    let mut x86: X86 = cpu_factory(mmio);
    x86.boot_bios();

    assert_eq!(x86.read_register(Eax), 0xaa55u64);
    assert_eq!(x86.read_register(Esp), 0x6f2cu64);
    assert_eq!(x86.get_ip(), 0x7c00u64);

    let result = x86.run();
    assert!(result.is_ok(), "{:?}", result.err());
    assert_eq!(x86.get_ip(), 0x7c01u64);
    assert_eq!(x86.state(), CpuState::Halted);
}

#[test]
fn mod_stop_at_hlt() {
    let program = vec![0xf4]; // hlt
    let x86 = execute_program(program, 0);
    assert_eq!(x86.state(), CpuState::Halted);
}

#[test]
fn mod_clear_register_by_xor() {
    let program = vec![
        0x31, 0xc0, // xor    ax,ax
        0xf4,
    ];
    let x86 = execute_program(program, 0);
    assert_eq!(x86.read_register(Eax), 0);
}

#[test]
fn mov_rm_to_sreg() {
    let program = vec![
        0x8e, 0xd8, // mov    ds,ax
        0x8e, 0xc0, // mov    es,ax
        0x8e, 0xd0, // mov    ss,ax
        0x8e, 0xe0, // mov    fs,ax
        0x8e, 0xe8, // mov    gs,ax
        0xf4,
    ];
    let x86 = execute_program_after(program, |cpu: &mut X86| {
        cpu.write_register(Eax, 0xaa55u64);
    });

    assert_eq!(x86.read_segment(Ds), x86.read_register(Eax));
    assert_eq!(x86.read_segment(Es), x86.read_register(Eax));
    assert_eq!(x86.read_segment(Ss), x86.read_register(Eax));
    assert_eq!(x86.read_segment(Fs), x86.read_register(Eax));
    assert_eq!(x86.read_segment(Gs), x86.read_register(Eax));
}

#[test]
fn mov_imm() {
    let program = vec![
        0xbc, 0x00, 0x7c, // mov    sp,0x7c00
        0xf4,
    ];
    let x86 = execute_program(program, 0);
    assert_eq!(x86.read_register(Esp), 0x7c00u64);
}

#[test]
fn cld() {
    let program = vec![
        0xfc, // cld
        0xf4,
    ];
    let x86 = execute_program_after(program, |cpu: &mut X86| {
        cpu.set_eflags(EFlags::direction_flag(), true);
    });
    assert!(x86.eflags().intersection(EFlags::direction_flag()).is_empty());
}

#[test]
fn lea() {
    let program = vec![
        0x67, 0x8d, 0x35, 0x16, 0x7d, 0x00, 0x00, // addr32 lea si,ds:0x7d16
        0xf4,
    ];
    let x86 = execute_program(program, 0);
    assert_eq!(x86.read_register(Esi), 0x00007d16);
}

#[test]
fn load_mr_store_rm() {
    let program = vec![
        0x67, 0x89, 0x18, // addr32 mov [eax], ebx
        0xf4,
    ];
    let initializer = |cpu: &mut X86| {
        cpu.write_register(Eax, 100);
        cpu.write_register(Ebx, 1);
    };
    let x86 = execute_program_after(program, initializer);
    assert_eq!(x86.mmio().read_u64(100).unwrap(), 1);
}

#[test]
fn undefined_opcode_message_names_the_byte() {
    let program = vec![0x0f, 0xf4];
    let mmio = bus_with(&program, 0);
    let mut x86 = X86::new(mmio);
    let err = x86.run().unwrap_err();
    assert_eq!(err.0, "Encounters undefined opcode: '0xf' in fetch stage.");
}

#[test]
fn undefined_opcode_message_has_two_hex_digits() {
    let program = vec![0xd6, 0xf4];
    let mmio = bus_with(&program, 0);
    let mut x86 = X86::new(mmio);
    let err = x86.run().unwrap_err();
    assert_eq!(err.0, "Encounters undefined opcode: '0xd6' in fetch stage.");
}

#[test]
fn unsupported_addressing_mode_is_an_error() {
    // xor with a one-byte displacement (mode 1) is not handled.
    let program = vec![0x31, 0x40, 0x00, 0xf4];
    let mmio = bus_with(&program, 0);
    let mut x86 = X86::new(mmio);
    let err = x86.run().unwrap_err();
    assert_eq!(err.0, "Unsupported addressing mode.");
}

#[test]
fn invalid_segment_register_is_an_error() {
    // mov with reg field 6, which names no segment register.
    let program = vec![0x8e, 0xf0, 0xf4];
    let mmio = bus_with(&program, 0);
    let mut x86 = X86::new(mmio);
    let err = x86.run().unwrap_err();
    assert_eq!(err.0, "Invalid segment register.");
}

#[test]
fn store_outside_memory_is_an_error() {
    let program = vec![0x67, 0x89, 0x18, 0xf4];
    let mmio = bus_with(&program, 0);
    let mut x86 = X86::new(mmio);
    x86.write_register(Eax, 0x20000);
    x86.write_register(Ebx, 1);
    let err = x86.run().unwrap_err();
    assert_eq!(err.0, "Invalid memory operation.");
}

#[test]
fn short_window_is_an_invalid_memory_operation() {
    let mmio = bus_with(&vec![0xf4], 0);
    let mut x86 = X86::new(mmio);
    // mov sp, imm16 needs three bytes.
    let err = x86.execute_an_instruction(&[0xbc, 0x00]).unwrap_err();
    assert_eq!(err.0, "Invalid memory operation.");
}

#[test]
fn whole_instruction_is_enough_to_fetch() {
    let mmio = bus_with(&vec![0xf4], 0);
    let mut x86 = X86::new(mmio);
    assert!(x86.execute_an_instruction(&[0xbc, 0x00, 0x7c, 0xf4]).is_ok());
    assert_eq!(x86.read_register(Esp), 0x7c00);
    assert_eq!(x86.get_ip(), 3);
    let inst = x86.fetch(&[0x67, 0x8d, 0x35, 0x16, 0x7d, 0x00, 0x00, 0xf4]).unwrap();
    assert_eq!(inst.get_disp(), 0x7d16);
    assert_eq!(inst.increment_ip(0), 7);
    assert!(x86.execute_an_instruction(&[0xf4]).is_ok());
    assert_eq!(x86.state(), CpuState::Halted);
}

#[test]
fn power_on_registers_are_all_ones() {
    let mmio = bus_with(&vec![0xf4], 0);
    let x86 = X86::new(mmio);
    assert_eq!(x86.read_register(Ebx), 0xffff_ffff_ffff_ffff);
    assert_eq!(x86.read_segment(Ds), 0xffff_ffff_ffff_ffff);
    assert_eq!(x86.get_ip(), 0);
    assert_eq!(x86.eflags().bits(), 0);
}

#[test]
fn bitflag() {
    let mut eflags = EFlags::empty();
    eflags.set(EFlags::direction_flag(), true);
    assert_eq!(eflags.bits(), 1 << 10);

    eflags.set(EFlags::direction_flag(), false);
    assert_eq!(eflags.bits(), 0);
}

#[test]
fn eflags_contains_after_set() {
    let mut eflags = EFlags::empty();
    assert!(!eflags.contains(EFlags::direction_flag()));
    eflags.set(EFlags::direction_flag(), true);
    assert!(eflags.contains(EFlags::direction_flag()));
    assert!(!eflags.is_empty());
}
