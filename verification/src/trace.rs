//! Text for the CPU trace: upper-case hexadecimal numbers, padded fields,
//! and the strings they are written into.
use vstd::prelude::*;
use crate::addressings::{Addressing, AddressingResult, OpArg, OpArgModel};
use crate::cpu::{Cpu, CpuStep};
use crate::nes::{Nes, NesModel};
use crate::dispatch::exec_spec;
use crate::opcode::{Opcode, OpcodeStr, mnemonic, opcode_byte};

verus! {

/// The upper-case hexadecimal digit for `d` (0 to 15).
pub open spec fn hex_char(d: int) -> char {
    if d < 10 {
        (48 + d) as char
    } else {
        (55 + d) as char
    }
}

/// The upper-case hexadecimal digits of `v`, without leading zeros.
pub open spec fn hex_repr(v: nat) -> Seq<char>
    decreases v,
{
    if v < 16 {
        seq![hex_char(v as int)]
    } else {
        hex_repr(v / 16) + seq![hex_char((v % 16) as int)]
    }
}

/// `n` copies of `c`.
pub open spec fn repeat(c: char, n: nat) -> Seq<char> {
    Seq::new(n, |i: int| c)
}

/// `s` padded on the left with zeros to `w` characters.
pub open spec fn zero_pad(s: Seq<char>, w: nat) -> Seq<char> {
    if s.len() < w {
        repeat('0', (w - s.len()) as nat) + s
    } else {
        s
    }
}

/// `v` in upper-case hexadecimal, zero-padded to at least `w` digits (what
/// a `{:0wX}` format prints).
pub open spec fn upper_hex(v: nat, w: nat) -> Seq<char> {
    zero_pad(hex_repr(v), w)
}

/// `s` padded on the right with spaces to `w` characters (`{:<w}`).
pub open spec fn pad_right(s: Seq<char>, w: nat) -> Seq<char> {
    if s.len() < w {
        s + repeat(' ', (w - s.len()) as nat)
    } else {
        s
    }
}

/// `s` padded on the left with spaces to `w` characters (`{:>w}`).
pub open spec fn pad_left(s: Seq<char>, w: nat) -> Seq<char> {
    if s.len() < w {
        repeat(' ', (w - s.len()) as nat) + s
    } else {
        s
    }
}

/// Appends the hexadecimal digit of `d`.
fn push_digit(s: &mut String, d: u16)
    requires
        d < 16,
    ensures
        final(s)@ == old(s)@.push(hex_char(d as int)),
{
    let t: &str = match d {
        0 => "0",
        1 => "1",
        2 => "2",
        3 => "3",
        4 => "4",
        5 => "5",
        6 => "6",
        7 => "7",
        8 => "8",
        9 => "9",
        10 => "A",
        11 => "B",
        12 => "C",
        13 => "D",
        14 => "E",
        _ => "F",
    };
    proof {
        reveal_strlit("0");
        reveal_strlit("1");
        reveal_strlit("2");
        reveal_strlit("3");
        reveal_strlit("4");
        reveal_strlit("5");
        reveal_strlit("6");
        reveal_strlit("7");
        reveal_strlit("8");
        reveal_strlit("9");
        reveal_strlit("A");
        reveal_strlit("B");
        reveal_strlit("C");
        reveal_strlit("D");
        reveal_strlit("E");
        reveal_strlit("F");
    }
    s.append(t);
    assert(s@ =~= old(s)@.push(hex_char(d as int)));
}

/// Appends `n` copies of the one-character string `pad`.
pub(crate) fn push_repeat(s: &mut String, pad: &str, n: usize)
    requires
        pad@.len() == 1,
    ensures
        final(s)@ == old(s)@ + repeat(pad@[0], n as nat),
{
    let mut i: usize = 0;
    while i < n
        invariant
            i <= n,
            pad@.len() == 1,
            s@ == old(s)@ + repeat(pad@[0], i as nat),
        decreases n - i,
    {
        s.append(pad);
        i = i + 1;
        assert(s@ =~= old(s)@ + repeat(pad@[0], i as nat));
    }
}

/// The digits of a number below 16^4, one to four of them.
pub(crate) proof fn lemma_hex_repr(n: nat)
    requires
        n < 65536,
    ensures
        n < 16 ==> hex_repr(n) == seq![hex_char(n as int)],
        16 <= n < 256 ==> hex_repr(n) == seq![hex_char((n / 16) as int), hex_char((n % 16) as int)],
        256 <= n < 4096 ==> hex_repr(n) == seq![hex_char((n / 256) as int), hex_char(((n / 16) % 16) as int), hex_char((n % 16) as int)],
        4096 <= n ==> hex_repr(n) == seq![
            hex_char((n / 4096) as int),
            hex_char(((n / 256) % 16) as int),
            hex_char(((n / 16) % 16) as int),
            hex_char((n % 16) as int),
        ],
{
    reveal_with_fuel(hex_repr, 4);
    if 256 <= n {
        assert(n / 16 / 16 == n / 256);
        assert((n / 16) % 16 == (n / 16) % 16);
    }
    if 256 <= n < 4096 {
        assert(hex_repr(n / 16) =~= seq![hex_char((n / 256) as int), hex_char(((n / 16) % 16) as int)]);
    }
    if 4096 <= n {
        assert(n / 16 / 16 / 16 == n / 4096);
        assert((n / 16 / 16) % 16 == (n / 256) % 16);
        assert(hex_repr(n / 16 / 16) =~= seq![hex_char((n / 4096) as int), hex_char(((n / 256) % 16) as int)]);
        assert(hex_repr(n / 16) =~= seq![
            hex_char((n / 4096) as int),
            hex_char(((n / 256) % 16) as int),
            hex_char(((n / 16) % 16) as int),
        ]);
    }
}

/// Appends `v` in upper-case hexadecimal, zero-padded to at least `w` digits.
pub(crate) fn push_hex(s: &mut String, v: u16, w: usize)
    requires
        w <= 4,
    ensures
        final(s)@ == old(s)@ + upper_hex(v as nat, w as nat),
{
    proof {
        lemma_hex_repr(v as nat);
    }
    let n: usize = if v < 16 {
        1
    } else if v < 256 {
        2
    } else if v < 4096 {
        3
    } else {
        4
    };
    assert(hex_repr(v as nat).len() == n);
    if w > n {
        proof {
            reveal_strlit("0");
        }
        push_repeat(s, "0", w - n);
    }
    if n >= 4 {
        push_digit(s, v / 4096);
    }
    if n >= 3 {
        push_digit(s, (v / 256) % 16);
    }
    if n >= 2 {
        push_digit(s, (v / 16) % 16);
    }
    push_digit(s, v % 16);
    assert(s@ =~= old(s)@ + upper_hex(v as nat, w as nat));
}

/// The register part of a CPU trace line: `A:xx X:xx Y:xx P:xx SP:xx`.
pub open spec fn reg_line(cpu: Cpu) -> Seq<char> {
    "A:"@ + upper_hex(cpu.a as nat, 2) + " X:"@ + upper_hex(cpu.x as nat, 2) + " Y:"@ + upper_hex(cpu.y as nat, 2)
        + " P:"@ + upper_hex(cpu.p.bits as nat, 2) + " SP:"@ + upper_hex(cpu.s as nat, 2)
}

/// The operand bytes in hexadecimal, separated by spaces.
pub open spec fn args_hex(args: Seq<u8>) -> Seq<char>
    decreases args.len(),
{
    if args.len() == 0 {
        Seq::empty()
    } else if args.len() == 1 {
        upper_hex(args[0] as nat, 2)
    } else {
        args_hex(args.drop_last()) + " "@ + upper_hex(args.last() as nat, 2)
    }
}

/// The name of the register that an indexed addressing mode adds.
pub open spec fn index_reg(addressing: Addressing) -> Seq<char> {
    match addressing {
        Addressing::AbsX | Addressing::ZpgX => "X"@,
        _ => "Y"@,
    }
}

/// Whether the trace can show an operand: its addressing mode and what it
/// resolved to go together, and it has the operand bytes the text shows.
pub open spec fn trace_ok(arg: OpArgModel) -> bool {
    match (arg.addressing, arg.value) {
        (Addressing::Abs, AddressingResult::RWValue(_)) => arg.args.len() >= 2,
        (Addressing::Zpg, AddressingResult::RWValue(_)) => arg.args.len() >= 1,
        (Addressing::XInd, AddressingResult::IndInfo(_, _, _, _)) => true,
        (Addressing::IndY, AddressingResult::IndInfo(_, _, _, _)) => true,
        (Addressing::Branch, AddressingResult::IndInfo(_, _, _, _)) => true,
        (_, AddressingResult::IndInfo(_, _, _, _)) => false,
        (Addressing::AbsX, AddressingResult::AbsZpgInfo(_, _)) => arg.args.len() >= 2,
        (Addressing::AbsY, AddressingResult::AbsZpgInfo(_, _)) => arg.args.len() >= 2,
        (Addressing::ZpgX, AddressingResult::AbsZpgInfo(_, _)) => arg.args.len() >= 1,
        (Addressing::ZpgY, AddressingResult::AbsZpgInfo(_, _)) => arg.args.len() >= 1,
        (_, AddressingResult::AbsZpgInfo(_, _)) => false,
        _ => true,
    }
}

/// What the trace shows of an operand: the address and the byte there, the
/// immediate byte, the target, or the steps of an indirect access.
pub open spec fn arg_mean(arg: OpArgModel) -> Seq<char> {
    match (arg.addressing, arg.value) {
        (Addressing::Abs, AddressingResult::RWValue(v)) => "$"@ + upper_hex(arg.args[1] as nat, 2) + upper_hex(arg.args[0] as nat, 2)
            + " = "@ + upper_hex(v as nat, 2),
        (Addressing::Zpg, AddressingResult::RWValue(v)) => "$"@ + upper_hex(arg.args[0] as nat, 2) + " = "@ + upper_hex(v as nat, 2),
        (_, AddressingResult::RWValue(v)) => "#$"@ + upper_hex(v as nat, 2),
        (_, AddressingResult::Address(a)) => "$"@ + upper_hex(a as nat, 4),
        (Addressing::XInd, AddressingResult::IndInfo(offset, base, addr, v)) => "($"@ + upper_hex(offset as nat, 2) + ",X) @ "@
            + upper_hex(base as nat, 2) + " = "@ + upper_hex(addr as nat, 4) + " = "@ + upper_hex(v as nat, 2),
        (Addressing::IndY, AddressingResult::IndInfo(offset, tmp, addr, v)) => "($"@ + upper_hex(offset as nat, 2) + "),Y = "@
            + upper_hex(tmp as nat, 4) + " @ "@ + upper_hex(addr as nat, 4) + " = "@ + upper_hex(v as nat, 2),
        (_, AddressingResult::IndInfo(_, base, target, _)) => "($"@ + upper_hex(base as nat, 4) + ") = "@ + upper_hex(target as nat, 4),
        (Addressing::AbsX, AddressingResult::AbsZpgInfo(addr, v)) | (Addressing::AbsY, AddressingResult::AbsZpgInfo(addr, v)) => "$"@
            + upper_hex(arg.args[1] as nat, 2) + upper_hex(arg.args[0] as nat, 2) + ","@ + index_reg(arg.addressing) + " @ "@
            + upper_hex(addr as nat, 4) + " = "@ + upper_hex(v as nat, 2),
        (_, AddressingResult::AbsZpgInfo(addr, v)) => "$"@ + upper_hex(arg.args[0] as nat, 2) + ","@ + index_reg(arg.addressing)
            + " @ "@ + upper_hex((addr % 256) as nat, 2) + " = "@ + upper_hex(v as nat, 2),
        (_, AddressingResult::RegA) => "A"@,
        (_, AddressingResult::Empty) => Seq::empty(),
    }
}

/// The instruction part of a CPU trace line: the address, the opcode byte,
/// the operand bytes (padded to five characters), the mnemonic (right
/// aligned in four) and the meaning of the operand.
pub open spec fn op_line(pc: u16, op: Opcode, arg: OpArgModel) -> Seq<char> {
    upper_hex(pc as nat, 4) + "  "@ + upper_hex(opcode_byte(op) as nat, 2) + " "@ + pad_right(args_hex(arg.args), 5) + " "@
        + pad_left(mnemonic(op), 4) + " "@ + arg_mean(arg)
}

/// Appends the operand bytes in hexadecimal, separated by spaces.
fn push_args_hex(s: &mut String, args: &Vec<u8>)
    ensures
        final(s)@ == old(s)@ + args_hex(args@),
{
    let mut i: usize = 0;
    while i < args.len()
        invariant
            i <= args.len(),
            s@ == old(s)@ + args_hex(args@.take(i as int)),
        decreases args.len() - i,
    {
        let ghost before = s@;
        if i > 0 {
            s.append(" ");
        }
        push_hex(s, args[i] as u16, 2);
        proof {
            let t = args@.take(i as int + 1);
            assert(t.drop_last() =~= args@.take(i as int));
            assert(t.last() == args@[i as int]);
            if i == 0 {
                assert(args@.take(0) =~= Seq::<u8>::empty());
            }
        }
        i = i + 1;
        assert(s@ =~= old(s)@ + args_hex(args@.take(i as int)));
    }
    assert(args@.take(args.len() as int) =~= args@);
}

/// Appends what the trace shows of a byte operand (see `arg_mean`).
fn push_rw_mean(s: &mut String, addressing: Addressing, args: &Vec<u8>, v: u8)
    requires
        trace_ok(OpArgModel { addressing, args: args@, value: AddressingResult::RWValue(v) }),
    ensures
        final(s)@ == old(s)@ + arg_mean(OpArgModel { addressing, args: args@, value: AddressingResult::RWValue(v) }),
{
    let ghost want = arg_mean(OpArgModel { addressing, args: args@, value: AddressingResult::RWValue(v) });
    match addressing {
        Addressing::Abs => {
            s.append("$");
            push_hex(s, args[1] as u16, 2);
            push_hex(s, args[0] as u16, 2);
            s.append(" = ");
            push_hex(s, v as u16, 2);
        },
        Addressing::Zpg => {
            s.append("$");
            push_hex(s, args[0] as u16, 2);
            s.append(" = ");
            push_hex(s, v as u16, 2);
        },
        _ => {
            s.append("#$");
            push_hex(s, v as u16, 2);
        },
    }
    assert(s@ =~= old(s)@ + want);
}

/// Appends what the trace shows of an indirect access (see `arg_mean`).
fn push_ind_mean(s: &mut String, addressing: Addressing, args: Ghost<Seq<u8>>, offset: u8, base: u16, addr: u16, v: u8)
    requires
        trace_ok(OpArgModel { addressing, args: args@, value: AddressingResult::IndInfo(offset, base, addr, v) }),
    ensures
        final(s)@ == old(s)@ + arg_mean(OpArgModel { addressing, args: args@, value: AddressingResult::IndInfo(offset, base, addr, v) }),
{
    let ghost want = arg_mean(OpArgModel { addressing, args: args@, value: AddressingResult::IndInfo(offset, base, addr, v) });
    match addressing {
        Addressing::XInd => {
            s.append("($");
            push_hex(s, offset as u16, 2);
            s.append(",X) @ ");
            push_hex(s, base, 2);
            s.append(" = ");
            push_hex(s, addr, 4);
            s.append(" = ");
            push_hex(s, v as u16, 2);
        },
        Addressing::IndY => {
            s.append("($");
            push_hex(s, offset as u16, 2);
            s.append("),Y = ");
            push_hex(s, base, 4);
            s.append(" @ ");
            push_hex(s, addr, 4);
            s.append(" = ");
            push_hex(s, v as u16, 2);
        },
        _ => {
            s.append("($");
            push_hex(s, base, 4);
            s.append(") = ");
            push_hex(s, addr, 4);
        },
    }
    assert(s@ =~= old(s)@ + want);
}

/// Appends what the trace shows of an indexed access (see `arg_mean`).
fn push_indexed_mean(s: &mut String, addressing: Addressing, args: &Vec<u8>, addr: u16, v: u8)
    requires
        trace_ok(OpArgModel { addressing, args: args@, value: AddressingResult::AbsZpgInfo(addr, v) }),
    ensures
        final(s)@ == old(s)@ + arg_mean(OpArgModel { addressing, args: args@, value: AddressingResult::AbsZpgInfo(addr, v) }),
{
    let ghost want = arg_mean(OpArgModel { addressing, args: args@, value: AddressingResult::AbsZpgInfo(addr, v) });
    let reg: &str = match addressing {
        Addressing::AbsX | Addressing::ZpgX => "X",
        _ => "Y",
    };
    assert(reg@ == index_reg(addressing));
    s.append("$");
    match addressing {
        Addressing::AbsX | Addressing::AbsY => {
            push_hex(s, args[1] as u16, 2);
            push_hex(s, args[0] as u16, 2);
            s.append(",");
            s.append(reg);
            s.append(" @ ");
            push_hex(s, addr, 4);
        },
        _ => {
            push_hex(s, args[0] as u16, 2);
            s.append(",");
            s.append(reg);
            s.append(" @ ");
            push_hex(s, addr % 256, 2);
        },
    }
    s.append(" = ");
    push_hex(s, v as u16, 2);
    assert(s@ =~= old(s)@ + want);
}

/// Appends what the trace shows of an operand (see `arg_mean`).
fn push_arg_mean(s: &mut String, arg: &OpArg)
    requires
        trace_ok(arg@),
    ensures
        final(s)@ == old(s)@ + arg_mean(arg@),
{
    match arg.value {
        AddressingResult::RWValue(v) => push_rw_mean(s, arg.addressing, &arg.args, v),
        AddressingResult::Address(a) => {
            s.append("$");
            push_hex(s, a, 4);
            assert(s@ =~= old(s)@ + arg_mean(arg@));
        },
        AddressingResult::IndInfo(offset, base, addr, v) => push_ind_mean(s, arg.addressing, Ghost(arg.args@), offset, base, addr, v),
        AddressingResult::AbsZpgInfo(addr, v) => push_indexed_mean(s, arg.addressing, &arg.args, addr, v),
        AddressingResult::RegA => {
            s.append("A");
        },
        AddressingResult::Empty => {
            assert(s@ =~= old(s)@ + arg_mean(arg@));
        },
    }
}

/// The instruction part of a CPU trace line (see `op_line`).
pub(crate) fn format_op(pc: u16, op: Opcode, arg: &OpArg) -> (r: String)
    requires
        trace_ok(arg@),
    ensures
        r@ == op_line(pc, op, arg@),
{
    let mut s = String::new();
    push_hex(&mut s, pc, 4);
    s.append("  ");
    push_hex(&mut s, op.to_u8() as u16, 2);
    s.append(" ");
    let mut a = String::new();
    push_args_hex(&mut a, &arg.args);
    let ahex: &str = a.as_str();
    let n: usize = ahex.unicode_len();
    s.append(ahex);
    proof {
        reveal_strlit(" ");
    }
    if n < 5 {
        push_repeat(&mut s, " ", 5 - n);
    }
    s.append(" ");
    let name: &str = OpcodeStr(&op);
    let k: usize = name.unicode_len();
    if k < 4 {
        push_repeat(&mut s, " ", 4 - k);
    }
    s.append(name);
    s.append(" ");
    push_arg_mean(&mut s, arg);
    assert(s@ =~= op_line(pc, op, arg@));
    s
}


impl OpArg {
    /// Whether the trace can show this operand (see `trace_ok`).
    pub fn traceable(&self) -> (r: bool)
        ensures
            r == trace_ok(self@),
    {
        match (self.addressing, self.value) {
            (Addressing::Abs, AddressingResult::RWValue(_)) => self.args.len() >= 2,
            (Addressing::Zpg, AddressingResult::RWValue(_)) => self.args.len() >= 1,
            (Addressing::XInd, AddressingResult::IndInfo(_, _, _, _)) => true,
            (Addressing::IndY, AddressingResult::IndInfo(_, _, _, _)) => true,
            (Addressing::Branch, AddressingResult::IndInfo(_, _, _, _)) => true,
            (_, AddressingResult::IndInfo(_, _, _, _)) => false,
            (Addressing::AbsX, AddressingResult::AbsZpgInfo(_, _)) => self.args.len() >= 2,
            (Addressing::AbsY, AddressingResult::AbsZpgInfo(_, _)) => self.args.len() >= 2,
            (Addressing::ZpgX, AddressingResult::AbsZpgInfo(_, _)) => self.args.len() >= 1,
            (Addressing::ZpgY, AddressingResult::AbsZpgInfo(_, _)) => self.args.len() >= 1,
            (_, AddressingResult::AbsZpgInfo(_, _)) => false,
            _ => true,
        }
    }
}

/// The decimal digits of `v`, without leading zeros.
pub open spec fn dec_repr(v: nat) -> Seq<char>
    decreases v,
{
    if v < 10 {
        seq![hex_char(v as int)]
    } else {
        dec_repr(v / 10) + seq![hex_char((v % 10) as int)]
    }
}

/// Appends `v` in decimal.
fn push_dec(s: &mut String, v: u64)
    ensures
        final(s)@ == old(s)@ + dec_repr(v as nat),
    decreases v,
{
    if v >= 10 {
        push_dec(s, v / 10);
    }
    let d: u16 = (v % 10) as u16;
    push_digit(s, d);
    assert(s@ =~= old(s)@ + dec_repr(v as nat));
}

/// A line of the CPU trace: the instruction part padded to 48 characters,
/// the registers, the PPU line and dot (each right-aligned in three) and the
/// CPU cycle count, all taken before the instruction ran.
pub open spec fn nestest_line(op: Seq<char>, regs: Seq<char>, line: u64, dot: u64, cycles: u64) -> Seq<char> {
    pad_right(op, 48) + regs + " PPU:"@ + pad_left(dec_repr(line as nat), 3) + ","@ + pad_left(dec_repr(dot as nat), 3)
        + " CYC:"@ + dec_repr(cycles as nat)
}

/// PPU dots from power-up to the given frame, line and dot.
pub open spec fn ppu_dots(frame: u32, scanline: u32, dot: u32) -> int {
    frame * 89342 + scanline * 341 + dot
}

/// Appends `t` padded on the left with spaces to `w` characters.
fn push_padded_left(s: &mut String, t: &str, w: usize)
    ensures
        final(s)@ == old(s)@ + pad_left(t@, w as nat),
{
    let n = t.unicode_len();
    proof {
        reveal_strlit(" ");
    }
    if n < w {
        push_repeat(s, " ", w - n);
    }
    s.append(t);
    assert(s@ =~= old(s)@ + pad_left(t@, w as nat));
}

/// The counters of the CPU trace: the CPU cycles, the PPU line and dot
/// (the dot wraps at 341 into the next line), the registers, all as they
/// were before the instruction about to be traced, and the PPU dots that
/// had passed then.
pub struct NestestTrace {
    pub cpu_cycle: u64,
    pub ppu_cycle: u64,
    pub ppu_line: u64,
    pub regs: Cpu,
    pub dots: u64,
}

impl NestestTrace {
    /// The counters at the first instruction: 7 CPU cycles (the reset
    /// sequence), PPU dot 21 of line 0, with the registers `regs` and the
    /// PPU dots that `nes` shows as passed.
    pub fn new(nes: &Nes) -> (r: NestestTrace)
        ensures
            r.cpu_cycle == 7,
            r.ppu_cycle == 21,
            r.ppu_line == 0,
            r.regs == nes.cpu,
            r.dots == ppu_dots(nes.ppu.frame, nes.ppu.scanline, nes.ppu.dot),
    {
        let dots: u64 = nes.ppu.frame as u64 * 89342 + nes.ppu.scanline as u64 * 341 + nes.ppu.dot as u64;
        NestestTrace { cpu_cycle: 7, ppu_cycle: 21, ppu_line: 0, regs: nes.cpu, dots }
    }

    /// The trace line of instruction `op`, which has just run on `nes`
    /// (see `nestest_line`); the counters then move on by the PPU dots that
    /// passed (a third of them CPU cycles), and the registers become those
    /// of `nes`.
    pub fn record(&mut self, op: &CpuStep, nes: &Nes) -> (r: String)
        requires
            op is Op,
            trace_ok(op->Op_2@),
            old(self).ppu_cycle < 341,
        ensures
            r@ == nestest_line(
                op_line(op->Op_0, op->Op_1, op->Op_2@),
                reg_line(old(self).regs),
                old(self).ppu_line,
                old(self).ppu_cycle,
                old(self).cpu_cycle,
            ),
            ({
                let now = ppu_dots(nes.ppu.frame, nes.ppu.scanline, nes.ppu.dot);
                let passed = (now as u64).wrapping_sub(old(self).dots);
                &&& final(self).dots == now
                &&& final(self).cpu_cycle == old(self).cpu_cycle.wrapping_add(passed / 3)
                &&& final(self).ppu_cycle == (old(self).ppu_cycle + passed) % 341
                &&& final(self).ppu_line == old(self).ppu_line.wrapping_add(((old(self).ppu_cycle + passed) / 341) as u64)
                &&& final(self).regs == nes.cpu
            }),
            final(self).ppu_cycle < 341,
    {
        let mut s = match op {
            CpuStep::Op(pc, opcode, arg) => format_op(*pc, *opcode, arg),
            _ => String::new(),
        };
        let n = s.as_str().unicode_len();
        proof {
            reveal_strlit(" ");
        }
        if n < 48 {
            push_repeat(&mut s, " ", 48 - n);
        }
        let regs = crate::cpu::debug_reg(&self.regs);
        s.append(regs.as_str());
        s.append(" PPU:");
        let mut line = String::new();
        push_dec(&mut line, self.ppu_line);
        push_padded_left(&mut s, line.as_str(), 3);
        s.append(",");
        let mut dot = String::new();
        push_dec(&mut dot, self.ppu_cycle);
        push_padded_left(&mut s, dot.as_str(), 3);
        s.append(" CYC:");
        push_dec(&mut s, self.cpu_cycle);
        let now: u64 = nes.ppu.frame as u64 * 89342 + nes.ppu.scanline as u64 * 341 + nes.ppu.dot as u64;
        let passed: u64 = now.wrapping_sub(self.dots);
        let t: u64 = self.ppu_cycle + passed % 341;
        assert(passed / 341 + t / 341 == (self.ppu_cycle + passed) / 341 && t % 341 == (self.ppu_cycle + passed) % 341)
            by (nonlinear_arith)
            requires
                t == self.ppu_cycle + passed % 341,
                self.ppu_cycle < 341,
        ;
        self.cpu_cycle = self.cpu_cycle.wrapping_add(passed / 3);
        self.ppu_line = self.ppu_line.wrapping_add(passed / 341 + t / 341);
        self.ppu_cycle = t % 341;
        self.regs = nes.cpu;
        self.dots = now;
        s
    }
}

/// Every instruction's operand can be traced: its addressing mode and what
/// it resolved to go together, with the operand bytes the trace shows.
#[verifier::spinoff_prover]
#[verifier::rlimit(100)]
pub proof fn lemma_exec_traceable(m: NesModel, op: Opcode)
    ensures
        trace_ok(exec_spec(m, op).1),
{
    reveal(exec_spec);
}

} // verus!
