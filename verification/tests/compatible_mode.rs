use rustemu86::compatible::gpr::Reg32::{Eax, Esp};
use rustemu86::compatible::status_regs::CpuState;
use rustemu86::compatible::CompatibleMode;
use rustemu86::cpu::model::{cpu_factory, CpuModel, Pipeline};
use rustemu86::display::VgaTextBuffer;
use rustemu86::peripherals::interconnect::Interconnect;
use rustemu86::peripherals::uart16550::{uart_factory, Target};

fn bus_with(program: &Vec<u8>) -> Interconnect {
    let mut interconnect = Interconnect::new(uart_factory(Target::Buffer), VgaTextBuffer::new());
    interconnect.init_memory(program, 0);
    interconnect
}

fn execute_program(program: Vec<u8>) -> CompatibleMode {
    let interconnect = bus_with(&program);
    let mut cpu: CompatibleMode = cpu_factory(interconnect);
    let result = cpu.run();
    assert!(result.is_ok(), "{:?}", result.err());
    cpu
}

#[test]
fn compatible_skip_bios() {
    let interconnect = bus_with(&vec![]);
    let cpu = CompatibleMode::boot_bios(interconnect);

    assert_eq!(cpu.read_register(Eax as usize), 0xaa55u64);
    assert_eq!(cpu.read_register(Esp as usize), 0x6f2cu64);
    assert_eq!(cpu.get_ip(), 0x7c00u64);
}

#[test]
fn compatible_stop_at_hlt() {
    let program = vec![0xf4];
    let cpu = execute_program(program);
    assert_eq!(cpu.state(), CpuState::Halted)
}

#[test]
fn compatible_clear_register_by_xor() {
    let program = vec![0x31, 0xc0, 0xf4];
    let cpu = execute_program(program);
    assert_eq!(cpu.read_register(0), 0);
}

#[test]
fn compatible_undefined_opcode() {
    let interconnect = bus_with(&vec![0x90, 0xf4]);
    let mut cpu: CompatibleMode = cpu_factory(interconnect);
    let err = cpu.run().unwrap_err();
    assert_eq!(err.0, "Undefined opcode.");
    assert_eq!(cpu.get_ip(), 0);
}

#[test]
fn compatible_ip_advances_by_instruction_length() {
    let program = vec![0x31, 0xc0, 0x31, 0xc0, 0xf4];
    let cpu = execute_program(program);
    assert_eq!(cpu.get_ip(), 5);
}

#[test]
fn compatible_lone_hlt_is_fetched() {
    let interconnect = bus_with(&vec![]);
    let mut cpu: CompatibleMode = cpu_factory(interconnect);
    assert!(cpu.execute_an_instruction(&[0xf4]).is_ok());
    assert_eq!(cpu.state(), CpuState::Halted);
    assert_eq!(cpu.get_ip(), 1);
    let err = cpu.execute_an_instruction(&[0x31]).unwrap_err();
    assert_eq!(err.0, "Invalid memory operation.");
}
