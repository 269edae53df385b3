use rustemu86::boot_x86_64;
use rustemu86::cpu::decoder::{decode as first_decode, ExOpcode, ExecuteInst, ExecuteInstType};
use rustemu86::cpu::exceptions::InternalException;
use rustemu86::cpu::ex_stage::{execute, DestType, WriteBackInst};
use rustemu86::cpu::fetcher::{fetch_inst, FetchUnit};
use rustemu86::cpu::isa::modrm::{ModRm, ModRmModeField, Sib};
use rustemu86::cpu::isa::opcode::{decode_opcode, Opcode};
use rustemu86::cpu::isa::registers::Reg64Id;
use rustemu86::cpu::model::CpuModel;
use rustemu86::cpu::register_file::RegisterFile;
use rustemu86::debug::DebugMode;
use rustemu86::display::VgaTextBuffer;
use rustemu86::instructions::{decode_add, decode_inc, decode_jmp, decode_mov_imm64, undefined, DestType as OldDest};
use rustemu86::options::{args_from_flags, parse_args, EmulationMode, ParseOutcome};
use rustemu86::peripherals::interconnect::Interconnect;
use rustemu86::peripherals::uart16550::{uart_factory, Target};
use rustemu86::register_file::{GeneralRegisterId, RegisterFile as OldRegisterFile};
use rustemu86::targets::riscv::Riscv;
use rustemu86::targets::x86_64::ex_stage::{execute as execute64, WriteBack, WriteBackData};
use rustemu86::targets::x86_64::isa::opcode::OperandSize;

fn uop(opcode: ExOpcode) -> ExecuteInst {
    ExecuteInst {
        opcode,
        dest: None,
        rip: None,
        op1: None,
        op2: None,
        op3: None,
        op4: None,
        op_size: OperandSize::QuadWord,
    }
}

#[test]
fn fetch_sib_displacement_and_immediate() {
    let mut program = vec![0x66, 0xC7, 0x04, 0x25, 0x00, 0x01, 0x00, 0x00, 0x48, 0x0e, 0xf4];
    program.resize(15, 0);
    let inst = fetch_inst(&program, 0x40);
    assert_eq!(inst.lecacy_prefix, 0x66);
    assert_eq!(inst.opcode, Opcode::MovRmImm32);
    assert_eq!(inst.sib, 0x25);
    assert_eq!(inst.displacement, 0x100);
    assert_eq!(inst.immediate, 0x0e48);
    assert_eq!(inst.next_rip, 0x40 + 10);
}

#[test]
fn fetch_unit_moves_past_the_instruction() {
    let mut program = vec![0x48, 0xff, 0xc0];
    program.resize(15, 0);
    let mut unit = FetchUnit::new();
    let inst = unit.fetch(&program).unwrap();
    assert_eq!(inst.opcode, Opcode::Inc);
    assert_eq!(inst.rex_prefix, 0x48);
    assert_eq!(inst.mod_rm, ModRm::new(0xc0));
    assert_eq!(unit.get_rip(), 3);
    unit.set_rip(0x77);
    assert_eq!(unit.get_rip(), 0x77);
}

#[test]
fn fetch_takes_exactly_the_instruction_bytes() {
    let mut unit = FetchUnit::new();
    let inst = unit.fetch(&[0xf4]).unwrap();
    assert_eq!(inst.opcode, Opcode::Halt);
    assert_eq!(unit.get_rip(), 1);
    let inst = fetch_inst(&[0xb9, 0x78, 0x56, 0x34, 0x12], 0x10);
    assert_eq!(inst.opcode, Opcode::MovImm32);
    assert_eq!(inst.r, 1);
    assert_eq!(inst.immediate, 0x1234_5678);
    assert_eq!(inst.next_rip, 0x15);
}

#[test]
fn opcode_with_register_bits() {
    assert_eq!(decode_opcode(0x53), Opcode::PushR);
    assert_eq!(decode_opcode(0x5f), Opcode::PopR);
    assert_eq!(decode_opcode(0xbc), Opcode::MovImm32);
    assert_eq!(decode_opcode(0x06), Opcode::Invalid);
    assert_eq!(decode_opcode(0x0f), Opcode::Invalid);
}

#[test]
fn modrm_and_sib_fields() {
    let m = ModRm::new(0xd9);
    assert_eq!(m.mode, ModRmModeField::Direct);
    assert_eq!(m.reg, Reg64Id::Rbx);
    assert_eq!(m.rm, Reg64Id::Rcx);
    let s = Sib::new(0x8c);
    assert_eq!(s.scale, 2 ^ 2);
    assert_eq!(s.index, Reg64Id::Rcx);
    assert_eq!(s.base, Reg64Id::Rsp);
}

#[test]
fn register_file_read_after_write() {
    let mut rf = RegisterFile::new();
    assert_eq!(rf.read64(Reg64Id::Rdi), 0);
    rf.write64(Reg64Id::Rdi, 42);
    assert_eq!(rf.read64(Reg64Id::Rdi), 42);
    assert_eq!(rf.read64(Reg64Id::Rsi), 0);
}

#[test]
fn first_execute_stage() {
    let inc = ExecuteInstType::ArithLogic(ExecuteInst { dest: Some(Reg64Id::Rax), op1: Some(9), ..uop(ExOpcode::Inc) });
    let wb = execute(inc);
    assert_eq!(wb.dest_type, DestType::Register);
    assert_eq!(wb.dest_rf, Reg64Id::Rax);
    assert_eq!(wb.result, 10);

    let jump = ExecuteInstType::Branch(ExecuteInst { rip: Some(2), op1: Some(5), ..uop(ExOpcode::Jump) });
    assert_eq!(execute(jump).dest_type, DestType::Rip);
    assert_eq!(execute(jump).result, 7);

    let store = ExecuteInstType::LoadStore(ExecuteInst { op1: Some(100), op2: Some(1), ..uop(ExOpcode::Store) });
    assert_eq!(
        execute(store),
        WriteBackInst { dest_type: DestType::Memory, dest_rf: Reg64Id::Unknown, addr: 100, result: 1 }
    );

    let ret = ExecuteInstType::Branch(ExecuteInst { op1: Some(100), ..uop(ExOpcode::Return) });
    assert_eq!(
        execute(ret),
        WriteBackInst { dest_type: DestType::Register, dest_rf: Reg64Id::Unknown, addr: 0, result: 0 }
    );
    let halt = ExecuteInstType::Privilege(uop(ExOpcode::Halt));
    assert_eq!(execute(halt).dest_type, DestType::CpuState);
}

#[test]
fn second_execute_stage() {
    let store = ExecuteInstType::LoadStore(ExecuteInst {
        op1: Some(0x10),
        op2: Some(0x1234_5678),
        op_size: OperandSize::Word,
        ..uop(ExOpcode::Store)
    });
    assert_eq!(execute64(&store), Ok(WriteBack::Store(0x10, WriteBackData::Word(0x5678))));
    let load = ExecuteInstType::ArithLogic(ExecuteInst { dest: Some(Reg64Id::Rax), ..uop(ExOpcode::Load) });
    assert_eq!(execute64(&load), Err(()));
}

#[test]
fn old_register_file() {
    let mut rf = OldRegisterFile::new();
    assert_eq!(rf.read64(GeneralRegisterId::RegRbx), 0xFFFFFFFF);
    rf.write64(GeneralRegisterId::RegRbx, 3);
    assert_eq!(rf.read64(GeneralRegisterId::RegRbx), 3);
    assert!(GeneralRegisterId::from_u8(4).is_none());
}

#[test]
fn old_instruction_decoders() {
    let mut rf = OldRegisterFile::new();
    let mov = decode_mov_imm64(&[0xb9, 0x02, 0x00, 0x00, 0x00]);
    assert_eq!(mov.dest_rf, Some(GeneralRegisterId::RegRcx));
    assert_eq!(mov.result, 2);
    rf.write64(GeneralRegisterId::RegRax, 1);
    rf.write64(GeneralRegisterId::RegRcx, 2);
    let add = decode_add(&rf, &[0x48, 0x01, 0xc8]);
    assert_eq!(add.dest_rf, Some(GeneralRegisterId::RegRax));
    assert_eq!(add.result, 3);
    let inc = decode_inc(&rf, &[0x48, 0xff, 0xc0]);
    assert_eq!(inc.result, 2);
    let jmp = decode_jmp(0, &[0xeb, 0x05]);
    assert_eq!(jmp.dest_type, OldDest::Rip);
    assert_eq!(jmp.result, 5);
    undefined(&mut rf, &[0x06]);
    assert_eq!(rf.read64(GeneralRegisterId::RegRax), 1);
}

#[test]
fn flags_select_the_mode() {
    let free = vec!["prog.bin".to_string()];
    match args_from_flags(false, true, true, free.clone(), String::new()) {
        ParseOutcome::Run(args) => {
            assert_eq!(args.file_path, "prog.bin");
            assert!(matches!(args.emulation_mode, EmulationMode::PerCycleDump));
        },
        _ => panic!("expected a run"),
    }
    match args_from_flags(false, false, true, free.clone(), String::new()) {
        ParseOutcome::Run(args) => assert!(matches!(args.emulation_mode, EmulationMode::InteractiveMode)),
        _ => panic!("expected a run"),
    }
    assert!(matches!(args_from_flags(true, false, false, free, "u".to_string()), ParseOutcome::Usage(_)));
    assert!(matches!(args_from_flags(false, false, false, vec![], "u".to_string()), ParseOutcome::Usage(_)));
}

#[test]
fn command_line_parsing() {
    let line = vec!["rustemu86".to_string(), "-v".to_string(), "a.bin".to_string()];
    match parse_args(&line) {
        ParseOutcome::Run(args) => {
            assert_eq!(args.file_path, "a.bin");
            assert!(matches!(args.emulation_mode, EmulationMode::PerCycleDump));
        },
        other => panic!("unexpected {:?}", other),
    }
    let help = vec!["rustemu86".to_string(), "--help".to_string()];
    match parse_args(&help) {
        ParseOutcome::Usage(text) => assert!(text.starts_with("Usage: rustemu86 BINARY [options]")),
        other => panic!("unexpected {:?}", other),
    }
    let bad = vec!["rustemu86".to_string(), "-x".to_string()];
    assert!(matches!(parse_args(&bad), ParseOutcome::Failed(_)));
}

#[test]
fn failure_message_and_usage_text_come_from_getopts() {
    let bad = vec!["emu".to_string(), "-x".to_string(), "a.bin".to_string()];
    match parse_args(&bad) {
        ParseOutcome::Failed(message) => assert_eq!(message, "Unrecognized option: 'x'"),
        other => panic!("unexpected {:?}", other),
    }
    let help = vec!["emu".to_string(), "a.bin".to_string(), "-h".to_string()];
    match parse_args(&help) {
        ParseOutcome::Usage(text) => assert_eq!(
            text,
            "Usage: emu BINARY [options]\n\nOptions:\n    -h, --help          Print this help menu\n    -v, --verbose       Print verbose log messages during emulation\n    -i, --interactive   Run emulation with interactive shell.\n"
        ),
        other => panic!("unexpected {:?}", other),
    }
}

#[test]
fn debug_modes() {
    assert_eq!(DebugMode::from_mode(&EmulationMode::Normal), DebugMode::Disabled);
    assert_eq!(DebugMode::from_mode(&EmulationMode::Test("t".to_string())), DebugMode::Disabled);
    assert_eq!(DebugMode::from_mode(&EmulationMode::PerCycleDump), DebugMode::PerCycleDump);
    assert_eq!(DebugMode::from_mode(&EmulationMode::InteractiveMode), DebugMode::Interactive);
}

#[test]
fn boot_loads_the_program() {
    let program = vec![0xb8, 0x05, 0x00, 0x00, 0x00, 0xf4];
    let mut cpu = boot_x86_64(&program, uart_factory(Target::Buffer), VgaTextBuffer::new()).ok().unwrap();
    assert!(cpu.run().is_ok());
    assert_eq!(cpu.read_register(Reg64Id::Rax), 5);
    let too_big = vec![0u8; 0x10001];
    assert!(boot_x86_64(&too_big, uart_factory(Target::Buffer), VgaTextBuffer::new()).is_err());
}

#[test]
fn stop_at_wfi() {
    let program = vec![0x73, 0x00, 0x50, 0x10];
    let serial = uart_factory(Target::Buffer);
    let mut mmio = Interconnect::new(serial, VgaTextBuffer::new());
    mmio.init_memory(&program, 0);
    let mut riscv = Riscv::new(mmio);

    let result = riscv.run();
    assert!(result.is_ok());
}

fn window(bytes: &[u8]) -> Vec<u8> {
    let mut v = bytes.to_vec();
    v.resize(15, 0);
    v
}

#[test]
fn first_decoder_addresses_by_register_value() {
    let mut rf = RegisterFile::new();
    rf.write64(Reg64Id::Rax, 100);
    rf.write64(Reg64Id::Rbx, 7);
    // mov [rax + 1], rbx: the first decoder stores at the value of rax.
    let inst = fetch_inst(&window(&[0x48, 0x89, 0x58, 0x01]), 0);
    let uops = first_decode(&rf, &inst).unwrap();
    assert_eq!(uops.len(), 1);
    match uops[0] {
        ExecuteInstType::LoadStore(u) => {
            assert_eq!(u.opcode, ExOpcode::Store);
            assert_eq!(u.op1, Some(100));
            assert_eq!(u.op2, Some(7));
        },
        _ => panic!("expected a store"),
    }
    // mov r/m8, imm8 is not known to the first decoder.
    let inst = fetch_inst(&window(&[0xc6, 0xc0, 0x48]), 0);
    assert_eq!(
        first_decode(&rf, &inst).unwrap_err(),
        InternalException::UndefinedInstruction { opcode: Opcode::MovRm8Imm8 }
    );
    // mov r/m, imm32 always moves into the r/m register.
    let inst = fetch_inst(&window(&[0xc7, 0x00, 0x05, 0x00, 0x00, 0x00]), 0);
    let uops = first_decode(&rf, &inst).unwrap();
    match uops[0] {
        ExecuteInstType::ArithLogic(u) => {
            assert_eq!(u.opcode, ExOpcode::Mov);
            assert_eq!(u.dest, Some(Reg64Id::Rax));
            assert_eq!(u.op1, Some(5));
        },
        _ => panic!("expected a move"),
    }
}

#[test]
fn interactive_flag_selects_interactive_mode() {
    let line = vec!["rustemu86".to_string(), "x.bin".to_string(), "--interactive".to_string()];
    match parse_args(&line) {
        ParseOutcome::Run(args) => {
            assert_eq!(args.file_path, "x.bin");
            assert!(matches!(args.emulation_mode, EmulationMode::InteractiveMode));
        },
        other => panic!("unexpected {:?}", other),
    }
    let none = vec!["rustemu86".to_string()];
    assert!(matches!(parse_args(&none), ParseOutcome::Usage(_)));
}
