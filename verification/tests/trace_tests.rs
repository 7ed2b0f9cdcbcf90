use nes_emu::addressings::{Addressing, AddressingResult, OpArg};
use nes_emu::cpu::{debug_op, CpuStep};
use nes_emu::nes::{Cartridge, Nes};
use nes_emu::opcode::Opcode;
use nes_emu::trace::NestestTrace;

fn machine(program: &[u8]) -> Nes {
    let mut prg = vec![0xEAu8; 0x4000];
    prg[..program.len()].copy_from_slice(program);
    prg[0x3FFC] = 0x00;
    prg[0x3FFD] = 0xC0;
    let cart = Cartridge::new(prg, vec![0u8; 0x2000], 0).unwrap();
    Nes::start(cart)
}

fn line_of(nes: &mut Nes) -> String {
    let step = nes.run();
    match &step {
        CpuStep::Op(_, _, arg) => assert!(arg.traceable()),
        _ => panic!("not an instruction"),
    }
    debug_op(&step)
}

#[test]
fn test_trace_jmp_absolute() {
    let mut nes = machine(&[0x4C, 0xF5, 0xC5]);
    assert_eq!(line_of(&mut nes), "C000  4C F5 C5  JMP $C5F5");
}

#[test]
fn test_trace_immediate_and_implied() {
    let mut nes = machine(&[0xA2, 0x00, 0x38, 0x0A]);
    assert_eq!(line_of(&mut nes), "C000  A2 00     LDX #$00");
    assert_eq!(line_of(&mut nes), "C002  38        SEC ");
    assert_eq!(line_of(&mut nes), "C003  0A        ASL A");
}

#[test]
fn test_trace_store_shows_old_byte() {
    let mut nes = machine(&[0xA9, 0x11, 0x86, 0x10, 0x8D, 0x00, 0x02]);
    nes.trace = true;
    nes.write8(0x0010, 0x77);
    nes.write8(0x0200, 0x33);
    assert_eq!(line_of(&mut nes), "C000  A9 11     LDA #$11");
    assert_eq!(line_of(&mut nes), "C002  86 10     STX $10 = 77");
    assert_eq!(line_of(&mut nes), "C004  8D 00 02  STA $0200 = 33");
}

#[test]
fn test_trace_indexed_and_indirect() {
    // LDX #$02; LDA $0300,X; LDA $10,X; LDA ($20,X); LDY #$01; LDA ($30),Y
    let mut nes = machine(&[0xA2, 0x02, 0xBD, 0x00, 0x03, 0xB5, 0x10, 0xA1, 0x20, 0xA0, 0x01, 0xB1, 0x30]);
    nes.trace = true;
    nes.write8(0x0302, 0xAB);
    nes.write8(0x0012, 0xCD);
    nes.write8(0x0022, 0x00);
    nes.write8(0x0023, 0x04);
    nes.write8(0x0400, 0xEF);
    nes.write8(0x0030, 0xFF);
    nes.write8(0x0031, 0x04);
    nes.write8(0x0500, 0x99);
    assert_eq!(line_of(&mut nes), "C000  A2 02     LDX #$02");
    assert_eq!(line_of(&mut nes), "C002  BD 00 03  LDA $0300,X @ 0302 = AB");
    assert_eq!(line_of(&mut nes), "C005  B5 10     LDA $10,X @ 12 = CD");
    assert_eq!(line_of(&mut nes), "C007  A1 20     LDA ($20,X) @ 22 = 0400 = EF");
    assert_eq!(line_of(&mut nes), "C009  A0 01     LDY #$01");
    assert_eq!(line_of(&mut nes), "C00B  B1 30     LDA ($30),Y = 04FF @ 0500 = 99");
}

#[test]
fn test_trace_jump_indirect() {
    let mut nes = machine(&[0x6C, 0x00, 0x02]);
    nes.write8(0x0200, 0x34);
    nes.write8(0x0201, 0x12);
    assert_eq!(line_of(&mut nes), "C000  6C 00 02  JMP ($0200) = 1234");
}

#[test]
fn test_trace_operand_bytes_padding() {
    let arg = OpArg { addressing: Addressing::Imm, args: vec![0x01, 0x02, 0x03], value: AddressingResult::RWValue(0x0F) };
    assert!(arg.traceable());
    let step = CpuStep::Op(0x1234, Opcode::from_u8(0xA9).unwrap(), arg);
    assert_eq!(debug_op(&step), "1234  A9 01 02 03  LDA #$0F");
}

#[test]
fn test_trace_untraceable_operands() {
    let arg = OpArg { addressing: Addressing::Abs, args: vec![0x01], value: AddressingResult::RWValue(0) };
    assert!(!arg.traceable());
    let arg = OpArg { addressing: Addressing::Imm, args: vec![], value: AddressingResult::IndInfo(0, 0, 0, 0) };
    assert!(!arg.traceable());
    let arg = OpArg::default();
    assert!(arg.traceable());
}

#[test]
fn test_trace_wide_pointer_byte() {
    let arg = OpArg { addressing: Addressing::XInd, args: vec![0x80], value: AddressingResult::IndInfo(0x80, 0x1FF, 0x0203, 0x04) };
    let step = CpuStep::Op(0xC000, Opcode::from_u8(0xA1).unwrap(), arg);
    assert_eq!(debug_op(&step), "C000  A1 80     LDA ($80,X) @ 1FF = 0203 = 04");
}

#[test]
fn test_nestest_trace_lines() {
    let mut program = vec![0xEAu8; 0x600];
    program[0] = 0x4C;
    program[1] = 0xF5;
    program[2] = 0xC5;
    program[0x5F5] = 0xA2;
    program[0x5F6] = 0x00;
    program[0x5F7] = 0x86;
    program[0x5F8] = 0x00;
    let mut nes = machine(&program);
    nes.trace = true;
    nes.cpu.p = nes_emu::flags::Status::from_bits_truncate(0x24);
    let mut trace = NestestTrace::new(&nes);
    let mut lines = Vec::new();
    for _ in 0..3 {
        let step = nes.run();
        lines.push(trace.record(&step, &nes));
    }
    assert_eq!(lines[0], "C000  4C F5 C5  JMP $C5F5                       A:00 X:00 Y:00 P:24 SP:FD PPU:  0, 21 CYC:7");
    assert_eq!(lines[1], "C5F5  A2 00     LDX #$00                        A:00 X:00 Y:00 P:24 SP:FD PPU:  0, 30 CYC:10");
    assert_eq!(lines[2], "C5F7  86 00     STX $00 = 00                    A:00 X:00 Y:00 P:26 SP:FD PPU:  0, 36 CYC:12");
    assert_eq!(trace.cpu_cycle, 15);
    assert_eq!(trace.ppu_cycle, 45);
}

#[test]
fn test_nestest_counters_wrap_lines() {
    let mut nes = machine(&[]);
    let mut trace = NestestTrace::new(&nes);
    let step = nes.run();
    for _ in 0..200 {
        nes.tick();
    }
    let line = trace.record(&step, &nes);
    assert!(line.ends_with("PPU:  0, 21 CYC:7"));
    assert_eq!(trace.cpu_cycle, 7 + 2 + 200);
    assert_eq!(trace.ppu_line, 1);
    assert_eq!(trace.ppu_cycle, (21 + 3 * 202) % 341);
}
