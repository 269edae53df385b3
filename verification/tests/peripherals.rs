use rustemu86::display::{ScreenChar, VgaTextBuffer};
use rustemu86::peripherals::interconnect::Interconnect;
use rustemu86::peripherals::memory::Memory;
use rustemu86::peripherals::memory_access::MemoryAccess;
use rustemu86::peripherals::uart16550::{uart_factory, Target};

fn bus() -> Interconnect {
    Interconnect::new(uart_factory(Target::Buffer), VgaTextBuffer::new())
}

fn eight_byte_memory(bytes: Vec<u8>) -> Memory {
    let mut memory = Memory::new(8);
    memory.fill_ram(bytes, 0);
    memory
}

#[test]
fn read() {
    let memory = Memory::new(1024);

    assert_eq!(memory.read64(0), 0);
    assert_eq!(memory.read64(24), 0);
}

#[test]
fn read_after_write() {
    let mut memory = Memory::new(1024);

    memory.write64(0, 1);
    assert_eq!(memory.read64(0), 1);
}

#[test]
fn test_read() {
    let buffer = vec![0x00, 0x01, 0x02, 0x03, 0x04, 0x05, 0x06, 0x07];
    let memory = eight_byte_memory(buffer);
    assert_eq!(memory.read_u8(0).unwrap(), 0x00);
    assert_eq!(memory.read_u8(1).unwrap(), 0x01);

    assert_eq!(memory.read_u16(0).unwrap(), 0x0100);
    assert_eq!(memory.read_u32(0).unwrap(), 0x03020100);
    assert_eq!(memory.read_u64(0).unwrap(), 0x0706050403020100);
}

#[test]
fn test_read_error() {
    let buffer = vec![0x00, 0x01, 0x02, 0x03, 0x04, 0x05, 0x06, 0x07];
    let memory = eight_byte_memory(buffer);
    assert!(memory.read_u8(8).is_err());
    assert!(memory.read_u16(8).is_err());
    assert!(memory.read_u32(8).is_err());
    assert!(memory.read_u64(8).is_err());
}

#[test]
fn test_write() {
    let buffer = vec![0x00; 8];
    let mut memory = eight_byte_memory(buffer);

    assert!(memory.write_u8(1, 0x01).is_ok());
    assert!(memory.write_u16(2, 0x0302).is_ok());
    assert!(memory.write_u32(4, 0x07060504).is_ok());

    assert_eq!(memory.read_u64(0).unwrap(), 0x0706050403020100);
}

#[test]
fn partial_write_stops_at_the_end() {
    let mut memory = eight_byte_memory(vec![0x00; 8]);
    assert!(memory.write_u32(6, 0x0403_0201).is_err());
    // The bytes before the end were written.
    assert_eq!(memory.read_u8(6).unwrap(), 0x01);
    assert_eq!(memory.read_u8(7).unwrap(), 0x02);
}

#[test]
fn stdout_write() {
    let mut uart = uart_factory(Target::Stdout);
    assert!(uart.write_u8(0, b'a').is_ok());
}

#[test]
fn uart_keeps_bytes_in_order() {
    let mut uart = uart_factory(Target::Buffer);
    assert!(uart.write_u8(0, b'o').is_ok());
    assert!(uart.write_u8(3, b'k').is_ok());
    assert!(uart.read_u8(0).is_err());
    assert_eq!(uart.take_output(), b"ok".to_vec());
    assert!(uart.take_output().is_empty());
}

#[test]
fn uart_write() {
    let mut interconnect = bus();
    assert!(interconnect.write_u8(0x10000000, 'h' as u8).is_ok());
    assert!(interconnect.write_u8(0x10000000, 'e' as u8).is_ok());
    assert!(interconnect.write_u8(0x10000000, 'l' as u8).is_ok());
    assert!(interconnect.write_u8(0x10000000, 'l' as u8).is_ok());
    assert!(interconnect.write_u8(0x10000000, 'o' as u8).is_ok());

    let contents = String::from_utf8(interconnect.take_serial_output()).unwrap();
    assert_eq!(contents, "hello");
}

#[test]
fn test_init_memory() {
    let program = vec![0x48, 0xff, 0xc0];
    let mut interconnect = bus();
    interconnect.init_memory(&program, 0);

    assert_eq!(interconnect.read_u8(0x0).unwrap(), 0x48);
    assert_eq!(interconnect.read_u8(0x1).unwrap(), 0xff);
    assert_eq!(interconnect.read_u8(0x2).unwrap(), 0xc0);
}

#[test]
fn bus_reads_back_a_quadword() {
    let mut interconnect = bus();
    assert!(interconnect.write_u64(0x200, 0x0102_0304_0506_0708).is_ok());
    assert_eq!(interconnect.read_quad(0x200).unwrap(), 0x0102_0304_0506_0708);
    assert_eq!(interconnect.read_u8(0x200).unwrap(), 0x08);
    assert_eq!(interconnect.read_u8(0x1ff).unwrap(), 0x00);
}

#[test]
fn bus_refuses_unmapped_addresses() {
    let mut interconnect = bus();
    assert!(interconnect.write_u8(0x20000, 1).is_err());
    assert!(interconnect.read_u8(0x20000).is_err());
    assert!(interconnect.read_quad(0x20000).is_err());
    assert!(interconnect.read_quad(u64::MAX).is_err());
}

#[test]
fn vga_word_write_sets_a_cell() {
    let mut interconnect = bus();
    let word: u16 = 0x1f41; // 'A', white on blue
    assert!(interconnect.write_u64(0xb8000 + 2 * 81, word as u64).is_ok());
    let cell = interconnect.display().char_at(1, 1);
    assert_eq!(cell, ScreenChar::from(word));
    assert_eq!(cell.ascii_character, b'A');
    assert_eq!(interconnect.display().char_at(0, 0).ascii_character, b' ');
}

#[test]
fn fetch_window_is_fifteen_bytes() {
    let program: Vec<u8> = (0u8..20).collect();
    let mut interconnect = bus();
    interconnect.init_memory(&program, 0x10);
    let window = interconnect.fetch_inst_candidate(0x10).unwrap();
    assert_eq!(window, (0u8..15).collect::<Vec<u8>>());
    assert!(interconnect.fetch_inst_candidate(0xfff8).is_err());
}
