use nes_emu::cpu::{debug_reg, Cpu, CpuStep};
use nes_emu::fault::Fault;
use nes_emu::flags::Status;
use nes_emu::nes::{Cartridge, Nes};
use nes_emu::opcode::{Opcode, OpcodeStr};

/// A 16 KiB NROM-128 image with `program` at $C000 (and $8000), the reset
/// vector at $C000, the NMI vector at $C100 and the BRK vector at $C200.
fn machine_with(program: &[u8], nmi_handler: &[u8], brk_handler: &[u8]) -> Nes {
    let mut prg = vec![0xEAu8; 0x4000];
    prg[..program.len()].copy_from_slice(program);
    prg[0x100..0x100 + nmi_handler.len()].copy_from_slice(nmi_handler);
    prg[0x200..0x200 + brk_handler.len()].copy_from_slice(brk_handler);
    prg[0x3FFA] = 0x00;
    prg[0x3FFB] = 0xC1;
    prg[0x3FFC] = 0x00;
    prg[0x3FFD] = 0xC0;
    prg[0x3FFE] = 0x00;
    prg[0x3FFF] = 0xC2;
    let cart = Cartridge::new(prg, vec![0u8; 0x2000], 0).unwrap();
    Nes::start(cart)
}

fn machine(program: &[u8]) -> Nes {
    machine_with(program, &[0x40], &[0x40])
}

fn steps(nes: &mut Nes, n: usize) {
    for _ in 0..n {
        let step = nes.run();
        assert!(matches!(step, CpuStep::Op(_, _, _)));
    }
}

fn carry(nes: &Nes) -> bool {
    nes.cpu.p.bits & Status::C != 0
}

#[test]
fn test_power_up_state() {
    let nes = machine(&[]);
    assert_eq!(nes.cpu.pc, 0xC000);
    assert_eq!(nes.cpu.s, 0xFD);
    assert_eq!(nes.cpu.p.bits, 0x34);
    assert_eq!(nes.cpu.a, 0);
    assert_eq!(nes.fault, None);
    let cpu = Cpu::power_up();
    assert_eq!(cpu.s, 0xFD);
    assert_eq!(cpu.stack_addr(), 0x01FD);
}

#[test]
fn test_lda_adc() {
    // LDA #$05; CLC; ADC #$03
    let mut nes = machine(&[0xA9, 0x05, 0x18, 0x69, 0x03]);
    steps(&mut nes, 3);
    assert_eq!(nes.cpu.a, 0x08);
    assert!(!carry(&nes));
    assert_eq!(nes.cpu.pc, 0xC005);
}

#[test]
fn test_adc_signed_overflow() {
    // LDA #$7F; CLC; ADC #$01
    let mut nes = machine(&[0xA9, 0x7F, 0x18, 0x69, 0x01]);
    steps(&mut nes, 3);
    assert_eq!(nes.cpu.a, 0x80);
    assert!(nes.cpu.p.bits & Status::V != 0);
    assert!(nes.cpu.p.bits & Status::N != 0);
    assert!(!carry(&nes));
}

#[test]
fn test_adc_carry_out() {
    // LDA #$FF; SEC; ADC #$01
    let mut nes = machine(&[0xA9, 0xFF, 0x38, 0x69, 0x01]);
    steps(&mut nes, 3);
    assert_eq!(nes.cpu.a, 0x01);
    assert!(carry(&nes));
    assert!(nes.cpu.p.bits & Status::Z == 0);
}

#[test]
fn test_sbc_borrows() {
    // SEC; LDA #$05; SBC #$07; SEC; LDA #$07; SBC #$05; CLC; SBC #$01
    let mut nes = machine(&[0x38, 0xA9, 0x05, 0xE9, 0x07, 0x38, 0xA9, 0x07, 0xE9, 0x05, 0x18, 0xE9, 0x01]);
    steps(&mut nes, 3);
    assert_eq!(nes.cpu.a, 0xFE);
    assert!(!carry(&nes));
    steps(&mut nes, 3);
    assert_eq!(nes.cpu.a, 0x02);
    assert!(carry(&nes));
    steps(&mut nes, 2);
    assert_eq!(nes.cpu.a, 0x00);
    assert!(carry(&nes));
    assert!(nes.cpu.p.bits & Status::Z != 0);
}

#[test]
fn test_cmp_flags() {
    // LDA #$40; CMP #$41; CMP #$40; CMP #$3F
    let mut nes = machine(&[0xA9, 0x40, 0xC9, 0x41, 0xC9, 0x40, 0xC9, 0x3F]);
    steps(&mut nes, 2);
    assert!(!carry(&nes));
    assert!(nes.cpu.p.bits & Status::N != 0);
    steps(&mut nes, 1);
    assert!(carry(&nes));
    assert!(nes.cpu.p.bits & Status::Z != 0);
    steps(&mut nes, 1);
    assert!(carry(&nes));
    assert!(nes.cpu.p.bits & Status::Z == 0);
}

#[test]
fn test_rol_then_ror_restores() {
    // CLC; LDA #$81; ROL A; ROR A
    let mut nes = machine(&[0x18, 0xA9, 0x81, 0x2A, 0x6A]);
    steps(&mut nes, 3);
    assert_eq!(nes.cpu.a, 0x02);
    assert!(carry(&nes));
    steps(&mut nes, 1);
    assert_eq!(nes.cpu.a, 0x81);
    assert!(!carry(&nes));
}

#[test]
fn test_inc_dec_memory() {
    // INC $10; INC $10; DEC $10
    let mut nes = machine(&[0xE6, 0x10, 0xE6, 0x10, 0xC6, 0x10]);
    steps(&mut nes, 2);
    assert_eq!(nes.ram()[0x10], 2);
    steps(&mut nes, 1);
    assert_eq!(nes.ram()[0x10], 1);
    assert!(nes.cpu.p.bits & Status::Z == 0);
}

#[test]
fn test_dec_wraps() {
    // DEC $20
    let mut nes = machine(&[0xC6, 0x20]);
    steps(&mut nes, 1);
    assert_eq!(nes.ram()[0x20], 0xFF);
    assert!(nes.cpu.p.bits & Status::N != 0);
}

#[test]
fn test_jsr_rts_returns_after_call() {
    // $C000: JSR $C010; LDX #$01   $C010: LDA #$42; RTS
    let mut program = vec![0x20, 0x10, 0xC0, 0xA2, 0x01];
    program.resize(0x10, 0xEA);
    program.extend_from_slice(&[0xA9, 0x42, 0x60]);
    let mut nes = machine(&program);
    steps(&mut nes, 1);
    assert_eq!(nes.cpu.pc, 0xC010);
    assert_eq!(nes.cpu.s, 0xFB);
    assert_eq!(nes.ram()[0x1FD], 0xC0);
    assert_eq!(nes.ram()[0x1FC], 0x02);
    steps(&mut nes, 2);
    assert_eq!(nes.cpu.pc, 0xC003);
    assert_eq!(nes.cpu.s, 0xFD);
    steps(&mut nes, 1);
    assert_eq!(nes.cpu.x, 0x01);
    assert_eq!(nes.cpu.a, 0x42);
}

#[test]
fn test_pha_pla_restores_a() {
    // LDA #$99; PHA; LDA #$00; PLA
    let mut nes = machine(&[0xA9, 0x99, 0x48, 0xA9, 0x00, 0x68]);
    steps(&mut nes, 3);
    assert_eq!(nes.cpu.a, 0x00);
    assert_eq!(nes.cpu.s, 0xFC);
    steps(&mut nes, 1);
    assert_eq!(nes.cpu.a, 0x99);
    assert_eq!(nes.cpu.s, 0xFD);
    assert!(nes.cpu.p.bits & Status::N != 0);
}

#[test]
fn test_php_plp_clears_break() {
    // PHP; PLP
    let mut nes = machine(&[0x08, 0x28]);
    steps(&mut nes, 1);
    assert_eq!(nes.ram()[0x1FD], 0x34 | 0x10);
    steps(&mut nes, 1);
    assert_eq!(nes.cpu.p.bits, 0x24);
    assert_eq!(nes.cpu.s, 0xFD);
}

#[test]
fn test_brk_rti_returns_past_padding() {
    // $C000: CLI; BRK; (padding); LDY #$07   $C200: RTI
    let mut nes = machine(&[0x58, 0x00, 0xEA, 0xA0, 0x07]);
    steps(&mut nes, 1);
    assert_eq!(nes.cpu.p.bits, 0x30);
    steps(&mut nes, 1);
    assert_eq!(nes.cpu.pc, 0xC200);
    assert_eq!(nes.cpu.s, 0xFA);
    assert_eq!(nes.ram()[0x1FD], 0xC0);
    assert_eq!(nes.ram()[0x1FC], 0x03);
    assert_eq!(nes.ram()[0x1FB], 0x30 | 0x10 | 0x20);
    assert!(nes.cpu.p.bits & Status::I != 0);
    steps(&mut nes, 1);
    assert_eq!(nes.cpu.pc, 0xC003);
    assert_eq!(nes.cpu.p.bits, 0x30);
    assert_eq!(nes.cpu.s, 0xFD);
    steps(&mut nes, 1);
    assert_eq!(nes.cpu.y, 0x07);
}

#[test]
fn test_nmi_at_vblank_and_rti() {
    // wait: BIT $2002; BPL wait; LDA #$80; STA $2000; loop: JMP loop
    // NMI handler: INX; RTI
    let program = [0x2C, 0x02, 0x20, 0x10, 0xFB, 0xA9, 0x80, 0x8D, 0x00, 0x20, 0x4C, 0x0A, 0xC0];
    let mut nes = machine_with(&program, &[0xE8, 0x40], &[0x40]);
    let mut n = 0;
    while nes.cpu.x == 0 {
        steps(&mut nes, 1);
        n += 1;
        assert!(n < 40000);
    }
    // The NMI was served and the handler's first instruction ran.
    assert_eq!(nes.cpu.pc, 0xC101);
    assert_eq!(nes.ppu.scanline, 241);
    assert_eq!(nes.cpu.s, 0xFA);
    assert_eq!(nes.ram()[0x1FD], 0xC0);
    assert_eq!(nes.ram()[0x1FC], 0x0A);
    assert_eq!(nes.ram()[0x1FB], 0xB4);
    assert!(nes.cpu.p.bits & Status::I != 0);
    assert!(nes.vblank);
    steps(&mut nes, 1);
    assert_eq!(nes.cpu.x, 1);
    assert_eq!(nes.cpu.pc, 0xC00A);
    assert_eq!(nes.cpu.s, 0xFD);
    assert_eq!(nes.cpu.p.bits, 0xB4);
}

#[test]
fn test_control_writes_ignored_before_first_vblank() {
    // LDA #$80; STA $2000
    let mut nes = machine(&[0xA9, 0x80, 0x8D, 0x00, 0x20]);
    steps(&mut nes, 2);
    assert_eq!(nes.ppu.ctrl.bits, 0);
}

/// CPU cycles since power-up, from the PPU cycles that have passed.
fn cycles(nes: &Nes) -> u64 {
    (nes.ppu.frame as u64 * 89342 + nes.ppu.scanline as u64 * 341 + nes.ppu.dot as u64) / 3
}

fn cycles_of_next(nes: &mut Nes) -> u64 {
    let before = cycles(nes);
    steps(nes, 1);
    cycles(nes) - before
}

#[test]
fn test_instruction_cycle_counts() {
    // LDY #$01; LDX #$01; LDA $02FF,Y; LDA $0200,Y; ORA $02FF,X; ORA $0200,X;
    // STA ($10),Y (pointer $02FF); STA ($12),Y (pointer $0200); PHA; JSR $C020 ... $C020: RTS
    let mut program = vec![
        0xA0, 0x01, 0xA2, 0x01, 0xB9, 0xFF, 0x02, 0xB9, 0x00, 0x02, 0x1D, 0xFF, 0x02, 0x1D, 0x00, 0x02, 0x91, 0x10,
        0x91, 0x12, 0x48, 0x20, 0x20, 0xC0,
    ];
    program.resize(0x20, 0xEA);
    program.push(0x60);
    let mut nes = machine(&program);
    nes.write8(0x0010, 0xFF);
    nes.write8(0x0011, 0x02);
    nes.write8(0x0012, 0x00);
    nes.write8(0x0013, 0x02);
    assert_eq!(cycles_of_next(&mut nes), 2);
    assert_eq!(cycles_of_next(&mut nes), 2);
    assert_eq!(cycles_of_next(&mut nes), 5);
    assert_eq!(cycles_of_next(&mut nes), 4);
    assert_eq!(cycles_of_next(&mut nes), 5);
    assert_eq!(cycles_of_next(&mut nes), 4);
    assert_eq!(cycles_of_next(&mut nes), 6);
    assert_eq!(cycles_of_next(&mut nes), 6);
    assert_eq!(cycles_of_next(&mut nes), 3);
    assert_eq!(cycles_of_next(&mut nes), 6);
    assert_eq!(cycles_of_next(&mut nes), 6);
}

#[test]
fn test_nmi_and_brk_take_seven_cycles() {
    let mut nes = machine(&[0x00]);
    assert_eq!(cycles_of_next(&mut nes), 7);
    // An NMI pending before an RTI at $C200: 7 cycles for the NMI, then the handler's RTI (6).
    nes.cpu.nmi = true;
    assert_eq!(cycles_of_next(&mut nes), 13);
    assert_eq!(nes.cpu.pc, 0xC200);
}

#[test]
fn test_ram_mirror() {
    // LDA #$AB; STA $0801; LDA #$00; LDA $1801
    let mut nes = machine(&[0xA9, 0xAB, 0x8D, 0x01, 0x08, 0xA9, 0x00, 0xAD, 0x01, 0x18]);
    steps(&mut nes, 2);
    assert_eq!(nes.ram()[1], 0xAB);
    steps(&mut nes, 2);
    assert_eq!(nes.cpu.a, 0xAB);
}

#[test]
fn test_unknown_opcode_is_seen_before_it_runs() {
    let mut nes = machine(&[0xEA, 0x02]);
    steps(&mut nes, 1);
    assert_eq!(Cpu::begin_step(&mut nes), 0x02);
    assert_eq!(nes.cpu.pc, 0xC001);
    assert!(Opcode::from_u8(0x02).is_none());
    assert_eq!(nes.fault, None);
}

#[test]
fn test_begin_step_then_execute() {
    // LDA #$42
    let mut nes = machine(&[0xA9, 0x42]);
    let b = Cpu::begin_step(&mut nes);
    let op = Opcode::from_u8(b).unwrap();
    let arg = nes_emu::dispatch::execute(&mut nes, op);
    assert_eq!(arg.args, vec![0x42]);
    assert_eq!(nes.cpu.a, 0x42);
    assert_eq!(nes.cpu.pc, 0xC002);
}

#[test]
fn test_rom_write_records_first_fault() {
    // STA $8000; STA $6000
    let mut nes = machine(&[0x8D, 0x00, 0x80, 0x8D, 0x00, 0x60]);
    steps(&mut nes, 1);
    assert_eq!(nes.fault, Some(Fault::RomWrite(0x8000)));
    steps(&mut nes, 1);
    assert_eq!(nes.fault, Some(Fault::RomWrite(0x8000)));
}

#[test]
fn test_unmapped_accesses_record_faults() {
    let mut nes = machine(&[]);
    assert_eq!(nes.read8(0x5000), 0);
    assert_eq!(nes.fault, Some(Fault::UnmappedRead(0x5000)));
    // LDA #$01; STA $6000
    let mut nes = machine(&[0xA9, 0x01, 0x8D, 0x00, 0x60]);
    steps(&mut nes, 2);
    assert_eq!(nes.fault, Some(Fault::UnmappedWrite(0x6000)));
}

#[test]
fn test_push_pop_stack() {
    let mut nes = machine(&[]);
    Cpu::push(&mut nes, 0x5A);
    assert_eq!(nes.cpu.s, 0xFC);
    assert_eq!(nes.ram()[0x1FD], 0x5A);
    assert_eq!(Cpu::pop(&mut nes), 0x5A);
    assert_eq!(nes.cpu.s, 0xFD);
}

#[test]
fn test_stack_wraps() {
    let mut nes = machine(&[]);
    nes.cpu.s = 0x00;
    Cpu::push(&mut nes, 0x11);
    assert_eq!(nes.cpu.s, 0xFF);
    assert_eq!(nes.ram()[0x100], 0x11);
    assert_eq!(Cpu::pop(&mut nes), 0x11);
    assert_eq!(nes.cpu.s, 0x00);
}

#[test]
fn test_fetch_byte_inc_pc() {
    let mut nes = machine(&[0xA9, 0x33]);
    assert_eq!(Cpu::fetch_byte_inc_pc(&mut nes), 0xA9);
    assert_eq!(Cpu::fetch_byte_inc_pc(&mut nes), 0x33);
    assert_eq!(nes.cpu.pc, 0xC002);
}

#[test]
fn test_debug_reg_power_up() {
    let nes = machine(&[]);
    assert_eq!(debug_reg(&nes.cpu), "A:00 X:00 Y:00 P:34 SP:FD");
    let mut cpu = Cpu::power_up();
    cpu.a = 0xAB;
    cpu.x = 0x0C;
    cpu.y = 0xF0;
    cpu.p = Status::from_bits_truncate(0x24);
    cpu.s = 0x01;
    assert_eq!(debug_reg(&cpu), "A:AB X:0C Y:F0 P:24 SP:01");
}

#[test]
fn test_opcode_byte_roundtrip() {
    let mut known = 0;
    for b in 0..=255u8 {
        if let Some(op) = Opcode::from_u8(b) {
            assert_eq!(op.to_u8(), b);
            known += 1;
        }
    }
    assert_eq!(known, 231);
    assert_eq!(OpcodeStr(&Opcode::from_u8(0xA9).unwrap()), "LDA");
    assert_eq!(OpcodeStr(&Opcode::from_u8(0x4C).unwrap()), "JMP");
    assert!(Opcode::from_u8(0x02).is_none());
}

#[test]
fn test_branch_cycle_counts() {
    // LDX #$00 (Z set); BNE +2 (not taken); BEQ +0 (taken, same page); NOP
    let mut nes = machine(&[0xA2, 0x00, 0xD0, 0x02, 0xF0, 0x00, 0xEA]);
    assert_eq!(cycles_of_next(&mut nes), 2);
    assert_eq!(cycles_of_next(&mut nes), 2);
    assert_eq!(cycles_of_next(&mut nes), 3);
    assert_eq!(nes.cpu.pc, 0xC006);
}

#[test]
fn test_branch_across_page_takes_four_cycles() {
    // At $C0FD: BEQ +$10 lands on $C10F, in the next page.
    let mut program = vec![0xEAu8; 0x120];
    program[0] = 0x4C;
    program[1] = 0xFC;
    program[2] = 0xC0;
    program[0xFC] = 0xEA;
    program[0xFD] = 0xF0;
    program[0xFE] = 0x10;
    let mut nes = machine(&program);
    steps(&mut nes, 2);
    assert_eq!(nes.cpu.pc, 0xC0FD);
    assert!(nes.cpu.p.bits & Status::Z == 0);
    nes.cpu.p = Status::from_bits_truncate(nes.cpu.p.bits | Status::Z);
    assert_eq!(cycles_of_next(&mut nes), 4);
    assert_eq!(nes.cpu.pc, 0xC10F);
}
