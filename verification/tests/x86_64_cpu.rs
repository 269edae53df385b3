use rustemu86::cpu::exceptions::InternalException;
use rustemu86::cpu::isa::opcode::Opcode;
use rustemu86::cpu::isa::registers::Reg64Id::{Rax, Rbx, Rcx, Rsp};
use rustemu86::cpu::model::{CpuModel, Pipeline};
use rustemu86::display::VgaTextBuffer;
use rustemu86::peripherals::interconnect::Interconnect;
use rustemu86::peripherals::memory_access::MemoryAccess;
use rustemu86::peripherals::uart16550::{uart_factory, Target};
use rustemu86::targets::x86_64::{CpuState, X86_64};

fn machine(program: &Vec<u8>) -> X86_64 {
    let serial = uart_factory(Target::Buffer);
    let mut mmio = Interconnect::new(serial, VgaTextBuffer::new());
    mmio.init_memory(program, 0);
    X86_64::new(mmio)
}

fn execute_program(program: Vec<u8>) -> X86_64 {
    let mut x86_64 = machine(&program);
    let result = x86_64.run();
    assert!(result.is_ok(), "{:?}", result.err());
    x86_64
}

fn execute_program_after_init(program: Vec<u8>, initializer: &dyn Fn(&mut X86_64)) -> X86_64 {
    let mut x86_64 = machine(&program);
    initializer(&mut x86_64);
    let result = x86_64.run();
    assert!(result.is_ok(), "{:?}", result.err());
    x86_64
}

#[test]
fn mod_execute_two_instructions() {
    let program = vec![
        0xb8, 0x00, 0x00, 0x00, 0x00, // mov rax, 0
        0x48, 0xff, 0xc0, // inc rax
        0xf4,
    ]; // hlt
    let x86_64 = execute_program(program);
    assert_eq!(x86_64.get_rip(), 9);
}

#[test]
fn mod_execute_mov32() {
    let program = vec![0xb8, 0x01, 0x00, 0x00, 0x00, 0xf4];
    let x86_64 = execute_program(program);
    assert_eq!(x86_64.read_register(Rax), 1);
}

#[test]
fn execute_mov_rm_imm32() {
    let program = vec![0x48, 0xc7, 0xc0, 0x00, 0x00, 0x00, 0x10, 0xf4];
    let x86_64 = execute_program(program);
    assert_eq!(x86_64.read_register(Rax), 0x10000000);
}

#[test]
fn mod_execute_inc() {
    let program = vec![0x48, 0xff, 0xc0, 0xf4];
    let initializer = |x86_64: &mut X86_64| x86_64.write_register(Rax, 0);
    let x86_64 = execute_program_after_init(program, &initializer);
    assert_eq!(x86_64.read_register(Rax), 1);
}

#[test]
fn mod_execute_add() {
    let program = vec![0x48, 0x01, 0xc8, 0xf4];
    let initializer = |x86_64: &mut X86_64| {
        x86_64.write_register(Rax, 1);
        x86_64.write_register(Rcx, 2);
    };
    let x86_64 = execute_program_after_init(program, &initializer);
    assert_eq!(x86_64.read_register(Rax), 3);
}

#[test]
fn mod_execute_jmp_short() {
    let program = vec![0xeb, 0x05, 0x00, 0x00, 0x00, 0x00, 0x00, 0xf4];
    let x86_64 = execute_program(program);
    assert_eq!(x86_64.get_rip(), 8);
}

#[test]
fn mod_execute_load_store() {
    let program = vec![0x48, 0x89, 0x18, 0x48, 0x8b, 0x08, 0xf4];
    let initializer = |x86_64: &mut X86_64| {
        x86_64.write_register(Rax, 100);
        x86_64.write_register(Rbx, 1);
    };
    let x86_64 = execute_program_after_init(program, &initializer);
    assert_eq!(x86_64.mmio().read_u64(100).unwrap(), 1);
    assert_eq!(x86_64.read_register(Rcx), 1);
}

#[test]
fn execute_push_pop() {
    let program = vec![0x50, 0x5b, 0xf4];
    let initializer = |x86_64: &mut X86_64| {
        x86_64.write_register(Rsp, 0x0100);
        x86_64.write_register(Rax, 1);
    };
    let x86_64 = execute_program_after_init(program, &initializer);
    assert_eq!(x86_64.mmio().read_u64(0x100 - 8).unwrap(), 1);
    assert_eq!(x86_64.read_register(Rbx), 1);
}

#[test]
fn execute_call_ret() {
    let program = vec![0xe8, 0x03, 0x00, 0x00, 0x00, 0xf4, 0x00, 0x00, 0xc3];
    let initializer = |x86_64: &mut X86_64| {
        x86_64.write_register(Rsp, 0x0100);
    };
    let x86_64 = execute_program_after_init(program, &initializer);
    assert_eq!(x86_64.mmio().read_u64(0x100 - 8).unwrap(), 5);
    assert_eq!(x86_64.executed_insts(), 3);
}

#[test]
fn execute_mov_rm8_imm8() {
    let program = vec![0xC6, 0x04, 0x25, 0x00, 0x01, 0x00, 0x00, 0x48, 0xf4];
    let x86_64 = execute_program(program);
    assert_eq!(x86_64.mmio().read_u64(0x100).unwrap(), 0x48);
}

#[test]
fn execute_mov_rm16_imm16() {
    let program = vec![
        0x66, 0xC7, 0x04, 0x25, 0x00, 0x01, 0x00, 0x00, 0x48, 0x0e, 0xf4,
    ];
    let x86_64 = execute_program(program);
    assert_eq!(x86_64.mmio().read_u64(0x100).unwrap(), 0x0e48);
}

#[test]
fn push_pop_restores_stack_pointer() {
    // push rcx; pop rdx; hlt
    let program = vec![0x51, 0x5a, 0xf4];
    let initializer = |x86_64: &mut X86_64| {
        x86_64.write_register(Rsp, 0x0200);
        x86_64.write_register(Rcx, 0x1122_3344_5566_7788);
    };
    let x86_64 = execute_program_after_init(program, &initializer);
    assert_eq!(x86_64.read_register(rustemu86::cpu::isa::registers::Reg64Id::Rdx), 0x1122_3344_5566_7788);
    assert_eq!(x86_64.read_register(Rsp), 0x0200);
}

#[test]
fn call_ret_restores_stack_pointer() {
    let program = vec![0xe8, 0x03, 0x00, 0x00, 0x00, 0xf4, 0x00, 0x00, 0xc3];
    let initializer = |x86_64: &mut X86_64| {
        x86_64.write_register(Rsp, 0x0100);
    };
    let x86_64 = execute_program_after_init(program, &initializer);
    assert_eq!(x86_64.read_register(Rsp), 0x100);
    assert_eq!(x86_64.get_rip(), 6);
    assert_eq!(x86_64.state(), CpuState::Halt);
}

#[test]
fn undefined_opcode_stops_the_run() {
    let program = vec![0x06, 0xf4];
    let mut x86_64 = machine(&program);
    let result = x86_64.run();
    assert_eq!(
        result,
        Err(InternalException::UndefinedInstruction { opcode: Opcode::Invalid })
    );
    assert_eq!(x86_64.executed_insts(), 0);
}

#[test]
fn store_to_unmapped_address_is_a_bus_error() {
    let program = vec![0x48, 0x89, 0x18, 0xf4];
    let initializer = |x86_64: &mut X86_64| {
        x86_64.write_register(Rax, 0x20000);
    };
    let mut x86_64 = machine(&program);
    initializer(&mut x86_64);
    assert_eq!(x86_64.run(), Err(InternalException::BusError { addr: 0x20000 }));
}

#[test]
fn fetch_past_ram_is_a_bus_error() {
    // jmp to 0xfffd0 + ... : a short jump far past RAM is impossible, so
    // start from an instruction pointer whose window is not RAM.
    let program = vec![0xe8, 0x00, 0x00, 0x10, 0x00]; // call 0x100005
    let mut x86_64 = machine(&program);
    x86_64.write_register(Rsp, 0x100);
    let result = x86_64.run();
    assert_eq!(result, Err(InternalException::BusError { addr: 0x100005 }));
}

#[test]
fn add_wraps_around() {
    let program = vec![0x48, 0x01, 0xc8, 0xf4];
    let initializer = |x86_64: &mut X86_64| {
        x86_64.write_register(Rax, u64::MAX);
        x86_64.write_register(Rcx, 2);
    };
    let x86_64 = execute_program_after_init(program, &initializer);
    assert_eq!(x86_64.read_register(Rax), 1);
}

#[test]
fn step_counts_one_instruction() {
    let program = vec![0xb8, 0x07, 0x00, 0x00, 0x00, 0xf4];
    let mut x86_64 = machine(&program);
    assert!(x86_64.step().is_ok());
    assert_eq!(x86_64.executed_insts(), 1);
    assert_eq!(x86_64.get_rip(), 5);
    assert_eq!(x86_64.read_register(Rax), 7);
    assert_eq!(x86_64.state(), CpuState::Running);
}

#[test]
fn serial_output_through_store() {
    // mov [rax], rbx with rax at the serial port transmits the low byte.
    let program = vec![0x48, 0x89, 0x18, 0xf4];
    let initializer = |x86_64: &mut X86_64| {
        x86_64.write_register(Rax, 0x10000000);
        x86_64.write_register(Rbx, b'A' as u64);
    };
    let mut x86_64 = execute_program_after_init(program, &initializer);
    assert_eq!(x86_64.take_serial_output(), vec![b'A']);
    assert!(x86_64.take_serial_output().is_empty());
}

#[test]
fn pipeline_stages_one_by_one() {
    let program = vec![0xb8, 0x2a, 0x00, 0x00, 0x00, 0xf4, 0, 0, 0, 0, 0, 0, 0, 0, 0];
    let mut x86_64 = machine(&program);
    let fetched = x86_64.fetch(&program).unwrap();
    assert_eq!(fetched.opcode, Opcode::MovImm32);
    assert_eq!(fetched.next_rip, 5);
    let decoded = x86_64.decode(&fetched).unwrap();
    let executed = x86_64.execute(&decoded).unwrap();
    assert!(x86_64.write_back(&executed).is_ok());
    assert_eq!(x86_64.read_register(Rax), 0x2a);
    // The fetch stage alone does not move the instruction pointer.
    assert_eq!(x86_64.get_rip(), 0);
}

#[test]
fn status_dump_writes_counts_in_decimal_and_registers_in_hex() {
    let mut x86_64 = machine(&vec![0xf4]);
    x86_64.write_register(Rax, 0xff);
    x86_64.write_register(Rbx, 0x1_2345_6789_abcd);
    let expected = "=== CPU status (0 instructions executed.)===\n\
RIP: 0x00000000\n\
Registers:\n  rax: 0x000000FF\n  rcx: 0x00000000\n  rdx: 0x00000000\n  rbx: 0x123456789ABCD\n  \
rsp: 0x00000000\n  rbp: 0x00000000\n  rsi: 0x00000000\n  rdi: 0x00000000";
    assert_eq!(x86_64.to_string(), expected);
}

#[test]
fn status_dump_counts_executed_instructions() {
    let program = vec![0xb8, 0x0c, 0x00, 0x00, 0x00, 0x48, 0xff, 0xc0, 0xf4];
    let x86_64 = execute_program(program);
    let text = x86_64.to_string();
    let first = format!("=== CPU status ({} instructions executed.)===", x86_64.executed_insts());
    assert!(text.starts_with(&first));
    assert!(text.contains("\nRIP: 0x00000009\n"));
    assert!(text.contains("\n  rax: 0x0000000D\n"));
}
