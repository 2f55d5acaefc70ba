use x86sim::cpu::X86Cpu;
use x86sim::registers::{Registers, STACK_START};

fn cpu_with_sp(sp: u16) -> X86Cpu {
    let mut regs = Registers::default();
    regs.sp = sp;
    X86Cpu::with_registers(regs)
}

fn cpu_with_ip(ip: u16) -> X86Cpu {
    let mut regs = Registers::default();
    regs.ip = ip;
    regs.sp = STACK_START;
    X86Cpu::with_registers(regs)
}

#[test]
fn new_cpu_is_at_reset() {
    let cpu = X86Cpu::new();
    let regs = cpu.regs();
    assert_eq!(regs.sp, 0xFFF0);
    assert_eq!(regs.ip, 0);
    assert_eq!(regs.ax, 0);
    assert_eq!(regs.bx, 0);
    assert_eq!(regs.cx, 0);
    assert_eq!(regs.dx, 0);
    assert_eq!(regs.si, 0);
    assert_eq!(regs.di, 0);
    assert_eq!(regs.bp, 0);
    assert_eq!(regs.flags, 0);
    assert!(!cpu.halted());
    assert_eq!(cpu.read_u8(0), 0);
    assert_eq!(cpu.read_u8(0x8000), 0);
    assert_eq!(cpu.read_u8(0xFFFF), 0);
}

#[test]
fn default_registers_are_zero() {
    let regs = Registers::default();
    assert_eq!(
        regs,
        Registers { ax: 0, bx: 0, cx: 0, dx: 0, si: 0, di: 0, sp: 0, bp: 0, ip: 0, flags: 0 }
    );
}

#[test]
fn fetch_u8_reads_and_advances() {
    let mut cpu = X86Cpu::new();
    assert!(cpu.load(0, &[0xAB, 0xCD]));
    assert_eq!(cpu.fetch_u8(), 0xAB);
    assert_eq!(cpu.regs().ip, 1);
    assert_eq!(cpu.fetch_u8(), 0xCD);
    assert_eq!(cpu.regs().ip, 2);
}

#[test]
fn fetch_u8_wraps_at_top_of_memory() {
    let mut cpu = cpu_with_ip(0xFFFF);
    cpu.write_u8(0xFFFF, 0x5A);
    assert_eq!(cpu.fetch_u8(), 0x5A);
    assert_eq!(cpu.regs().ip, 0);
}

#[test]
fn fetch_u16_is_little_endian() {
    let mut cpu = X86Cpu::new();
    assert!(cpu.load(0, &[0x34, 0x12]));
    assert_eq!(cpu.fetch_u16(), 0x1234);
    assert_eq!(cpu.regs().ip, 2);
}

#[test]
fn fetch_u16_is_little_endian_at_any_ip() {
    let mut cpu = cpu_with_ip(0x4000);
    assert!(cpu.load(0x4000, &[0x34, 0x12]));
    assert_eq!(cpu.fetch_u16(), 0x1234);
    assert_eq!(cpu.regs().ip, 0x4002);
}

#[test]
fn fetch_u16_wraps_between_its_bytes() {
    let mut cpu = cpu_with_ip(0xFFFF);
    cpu.write_u8(0xFFFF, 0xCD);
    cpu.write_u8(0x0000, 0xAB);
    assert_eq!(cpu.fetch_u16(), 0xABCD);
    assert_eq!(cpu.regs().ip, 1);
}

#[test]
fn push_stores_little_endian_below_sp() {
    let mut cpu = X86Cpu::new();
    cpu.push(0xBEEF);
    assert_eq!(cpu.regs().sp, 0xFFEE);
    assert_eq!(cpu.read_u8(0xFFEE), 0xEF);
    assert_eq!(cpu.read_u8(0xFFEF), 0xBE);
    assert_eq!(cpu.read_u8(0xFFF0), 0);
    assert_eq!(cpu.read_u8(0xFFED), 0);
}

#[test]
fn pop_reads_little_endian_and_raises_sp() {
    let mut cpu = cpu_with_sp(0x2000);
    assert!(cpu.load(0x2000, &[0x78, 0x56]));
    assert_eq!(cpu.pop(), 0x5678);
    assert_eq!(cpu.regs().sp, 0x2002);
    assert_eq!(cpu.read_u8(0x2000), 0x78);
    assert_eq!(cpu.read_u8(0x2001), 0x56);
}

#[test]
fn push_then_pop_round_trips_every_value() {
    let mut cpu = X86Cpu::new();
    let mut v: u32 = 0;
    while v <= 0xFFFF {
        cpu.push(v as u16);
        assert_eq!(cpu.pop(), v as u16);
        assert_eq!(cpu.regs().sp, 0xFFF0);
        v += 1;
    }
}

#[test]
fn push_then_pop_round_trips_at_any_sp() {
    let mut starts: Vec<u16> = vec![0, 1, 2, 3, 0x7FFF, 0x8000, 0xFFF0, 0xFFFD, 0xFFFE, 0xFFFF];
    let mut sp: u32 = 5;
    while sp <= 0xFFFF {
        starts.push(sp as u16);
        sp += 997;
    }
    for &start in &starts {
        let mut cpu = cpu_with_sp(start);
        for &v in &[0x0000u16, 0x0001, 0x00FF, 0x0100, 0x1234, 0x8000, 0xFF00, 0xFFFF] {
            cpu.push(v);
            assert_eq!(cpu.regs().sp, start.wrapping_sub(2));
            assert_eq!(cpu.pop(), v);
            assert_eq!(cpu.regs().sp, start);
        }
    }
}

#[test]
fn push_wraps_below_zero() {
    let mut cpu = cpu_with_sp(0);
    cpu.push(0x1234);
    assert_eq!(cpu.regs().sp, 0xFFFE);
    assert_eq!(cpu.read_u8(0xFFFE), 0x34);
    assert_eq!(cpu.read_u8(0xFFFF), 0x12);
    assert_eq!(cpu.pop(), 0x1234);
    assert_eq!(cpu.regs().sp, 0);
}

#[test]
fn push_with_sp_one_splits_the_word_across_the_top() {
    let mut cpu = cpu_with_sp(1);
    cpu.push(0x1234);
    assert_eq!(cpu.regs().sp, 0xFFFF);
    assert_eq!(cpu.read_u8(0xFFFF), 0x34);
    assert_eq!(cpu.read_u8(0x0000), 0x12);
    assert_eq!(cpu.pop(), 0x1234);
    assert_eq!(cpu.regs().sp, 1);
}

#[test]
fn pop_on_fresh_cpu_returns_zero() {
    let mut cpu = X86Cpu::new();
    assert_eq!(cpu.pop(), 0);
    assert_eq!(cpu.regs().sp, 0xFFF2);
}

#[test]
fn load_writes_bytes_and_nothing_else() {
    let mut cpu = X86Cpu::new();
    assert!(cpu.load(0x0100, &[1, 2, 3]));
    assert_eq!(cpu.read_u8(0x00FF), 0);
    assert_eq!(cpu.read_u8(0x0100), 1);
    assert_eq!(cpu.read_u8(0x0101), 2);
    assert_eq!(cpu.read_u8(0x0102), 3);
    assert_eq!(cpu.read_u8(0x0103), 0);
    assert_eq!(cpu.regs(), X86Cpu::new().regs());
    assert!(!cpu.halted());
}

#[test]
fn load_up_to_the_last_byte_fits() {
    let mut cpu = X86Cpu::new();
    assert!(cpu.load(0xFFFE, &[7, 8]));
    assert_eq!(cpu.read_u8(0xFFFE), 7);
    assert_eq!(cpu.read_u8(0xFFFF), 8);
}

#[test]
fn load_past_the_end_is_refused_and_changes_nothing() {
    let mut cpu = X86Cpu::new();
    assert!(!cpu.load(0xFFFE, &[7, 8, 9]));
    assert_eq!(cpu.read_u8(0xFFFE), 0);
    assert_eq!(cpu.read_u8(0xFFFF), 0);
    assert_eq!(cpu.read_u8(0), 0);
}

#[test]
fn load_of_nothing_fits_anywhere() {
    let mut cpu = X86Cpu::new();
    assert!(cpu.load(0xFFFF, &[]));
    assert!(cpu.load(0, &[]));
    assert_eq!(cpu.read_u8(0xFFFF), 0);
}

#[test]
fn load_of_the_whole_memory_fits_at_zero_only() {
    let image = vec![0x11u8; 0x10000];
    let mut cpu = X86Cpu::new();
    assert!(cpu.load(0, &image));
    assert_eq!(cpu.read_u8(0), 0x11);
    assert_eq!(cpu.read_u8(0xFFFF), 0x11);
    let mut other = X86Cpu::new();
    assert!(!other.load(1, &image));
    assert_eq!(other.read_u8(1), 0);
}

#[test]
fn write_u8_changes_one_byte() {
    let mut cpu = X86Cpu::new();
    cpu.write_u8(0x1234, 0x99);
    assert_eq!(cpu.read_u8(0x1233), 0);
    assert_eq!(cpu.read_u8(0x1234), 0x99);
    assert_eq!(cpu.read_u8(0x1235), 0);
}
