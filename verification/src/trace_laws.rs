//! What the CPU trace says of an indexed operand: the register it names.
use vstd::prelude::*;
use crate::addressings::{Addressing, AddressingResult, OpArgModel};
use crate::cpu::Cpu;
use crate::trace::{arg_mean, hex_char, hex_repr, nestest_line, pad_right, reg_line, index_reg, lemma_hex_repr, trace_ok, upper_hex};

verus! {

/// Whether an addressing mode adds Y (rather than X) to its operand.
pub open spec fn indexes_by_y(addressing: Addressing) -> bool {
    addressing is AbsY || addressing is ZpgY
}

/// A byte in hexadecimal, padded to two digits, takes two characters.
proof fn lemma_two_digits(v: u8)
    ensures
        upper_hex(v as nat, 2).len() == 2,
{
    lemma_hex_repr(v as nat);
    assert(hex_repr(v as nat).len() == 1 || hex_repr(v as nat).len() == 2);
}

/// The trace names the register that an indexed operand adds: `Y` for the
/// `,Y` forms and `X` for the `,X` forms, after a comma that follows the
/// operand's digits (`$nn,Y @ ...` for page zero, `$nnnn,Y @ ...` for
/// absolute operands).
pub proof fn lemma_trace_names_index(arg: OpArgModel)
    requires
        trace_ok(arg),
        arg.value is AbsZpgInfo,
        arg.addressing is ZpgX || arg.addressing is ZpgY || arg.addressing is AbsX || arg.addressing is AbsY,
    ensures
        index_reg(arg.addressing) == (if indexes_by_y(arg.addressing) { seq!['Y'] } else { seq!['X'] }),
        ({
            let s = arg_mean(arg);
            let k: int = if arg.addressing is ZpgX || arg.addressing is ZpgY { 3 } else { 5 };
            &&& s.len() > k + 1
            &&& s[0] == '$'
            &&& s[k] == ','
            &&& s[k + 1] == (if indexes_by_y(arg.addressing) { 'Y' } else { 'X' })
        }),
{
    reveal_strlit("X");
    reveal_strlit("Y");
    reveal_strlit("$");
    reveal_strlit(",");
    reveal_strlit(" @ ");
    reveal_strlit(" = ");
    lemma_two_digits(arg.args[0]);
    let reg = index_reg(arg.addressing);
    if arg.addressing is ZpgX || arg.addressing is ZpgY {
        let h = upper_hex(arg.args[0] as nat, 2);
        let s = arg_mean(arg);
        if let AddressingResult::AbsZpgInfo(addr, v) = arg.value {
            let rest = " @ "@ + upper_hex((addr % 256) as nat, 2) + " = "@ + upper_hex(v as nat, 2);
            assert(s == "$"@ + h + ","@ + reg + rest);
            assert(("$"@ + h + ","@ + reg)[3] == ',');
            assert(("$"@ + h + ","@ + reg)[4] == reg[0]);
        }
    } else {
        lemma_two_digits(arg.args[1]);
        let h1 = upper_hex(arg.args[1] as nat, 2);
        let h0 = upper_hex(arg.args[0] as nat, 2);
        let s = arg_mean(arg);
        if let AddressingResult::AbsZpgInfo(addr, v) = arg.value {
            let rest = " @ "@ + upper_hex(addr as nat, 4) + " = "@ + upper_hex(v as nat, 2);
            assert(s == "$"@ + h1 + h0 + ","@ + reg + rest);
            assert(("$"@ + h1 + h0 + ","@ + reg)[5] == ',');
            assert(("$"@ + h1 + h0 + ","@ + reg)[6] == reg[0]);
        }
    }
}

/// The value of an upper-case hexadecimal digit; -1 for any other character.
pub open spec fn digit_value(c: char) -> int {
    if '0' <= c && c <= '9' {
        c as int - 48
    } else if 'A' <= c && c <= 'F' {
        c as int - 55
    } else {
        -1
    }
}

/// The trace writes a byte as two upper-case hexadecimal digits, most
/// significant first, that read back as the byte; and a 16-bit word as four.
#[verifier::rlimit(50)]
pub proof fn lemma_hex_reads_back(v: u16)
    ensures
        v < 256 ==> ({
            let s = upper_hex(v as nat, 2);
            &&& s.len() == 2
            &&& digit_value(s[0]) >= 0 && digit_value(s[1]) >= 0
            &&& 16 * digit_value(s[0]) + digit_value(s[1]) == v
        }),
        ({
            let s = upper_hex(v as nat, 4);
            &&& s.len() == 4
            &&& digit_value(s[0]) >= 0 && digit_value(s[1]) >= 0 && digit_value(s[2]) >= 0 && digit_value(s[3]) >= 0
            &&& 4096 * digit_value(s[0]) + 256 * digit_value(s[1]) + 16 * digit_value(s[2]) + digit_value(s[3]) == v
        }),
{
    lemma_hex_repr(v as nat);
    let n = v as nat;
    assert forall|d: int| 0 <= d < 16 implies digit_value(#[trigger] hex_char(d)) == d by {
        if d < 10 {
            assert((48 + d) as char as int == 48 + d);
        } else {
            assert((55 + d) as char as int == 55 + d);
        }
    }
    assert(digit_value('0') == 0);
    let s2 = upper_hex(n, 2);
    let s4 = upper_hex(n, 4);
    if n < 16 {
        assert(s2 =~= seq!['0', hex_char(n as int)]);
        assert(s4 =~= seq!['0', '0', '0', hex_char(n as int)]);
    } else if n < 256 {
        assert(s4 =~= seq!['0', '0', hex_char((n / 16) as int), hex_char((n % 16) as int)]);
    } else if n < 4096 {
        assert(s4 =~= seq!['0', hex_char((n / 256) as int), hex_char(((n / 16) % 16) as int), hex_char((n % 16) as int)]);
    }
}

/// The byte that two hexadecimal digits of `s` at `i` and `i + 1` read as.
pub open spec fn byte_at(s: Seq<char>, i: int) -> int {
    16 * digit_value(s[i]) + digit_value(s[i + 1])
}

/// The register part of a trace line shows A, X, Y, P and SP in that order,
/// each as two hexadecimal digits after its label (`A:`, ` X:`, ` Y:`,
/// ` P:`, ` SP:`), 25 characters in all.
pub proof fn lemma_reg_line_reads(cpu: Cpu)
    ensures
        ({
            let s = reg_line(cpu);
            &&& s.len() == 25
            &&& s[0] == 'A' && s[1] == ':'
            &&& s[5] == 'X' && s[6] == ':'
            &&& s[10] == 'Y' && s[11] == ':'
            &&& s[15] == 'P' && s[16] == ':'
            &&& s[20] == 'S' && s[21] == 'P' && s[22] == ':'
            &&& byte_at(s, 2) == cpu.a
            &&& byte_at(s, 7) == cpu.x
            &&& byte_at(s, 12) == cpu.y
            &&& byte_at(s, 17) == cpu.p.bits
            &&& byte_at(s, 23) == cpu.s
        }),
{
    reveal_strlit("A:");
    reveal_strlit(" X:");
    reveal_strlit(" Y:");
    reveal_strlit(" P:");
    reveal_strlit(" SP:");
    lemma_hex_reads_back(cpu.a as u16);
    lemma_hex_reads_back(cpu.x as u16);
    lemma_hex_reads_back(cpu.y as u16);
    lemma_hex_reads_back(cpu.p.bits as u16);
    lemma_hex_reads_back(cpu.s as u16);
    let ha = upper_hex(cpu.a as nat, 2);
    let hx = upper_hex(cpu.x as nat, 2);
    let hy = upper_hex(cpu.y as nat, 2);
    let hp = upper_hex(cpu.p.bits as nat, 2);
    let hs = upper_hex(cpu.s as nat, 2);
    let s = reg_line(cpu);
    assert(s =~= seq!['A', ':', ha[0], ha[1], ' ', 'X', ':', hx[0], hx[1], ' ', 'Y', ':', hy[0], hy[1], ' ', 'P', ':', hp[0], hp[1],
        ' ', 'S', 'P', ':', hs[0], hs[1]]);
}

/// A trace line starts with the instruction part, filled with spaces to
/// column 48, where the register part begins.
pub proof fn lemma_line_columns(op: Seq<char>, regs: Seq<char>, line: u64, dot: u64, cycles: u64)
    requires
        op.len() <= 48,
    ensures
        ({
            let l = nestest_line(op, regs, line, dot, cycles);
            &&& l.len() >= 48 + regs.len()
            &&& l.subrange(0, op.len() as int) == op
            &&& forall|i: int| op.len() <= i < 48 ==> l[i] == ' '
            &&& l.subrange(48, 48 + regs.len() as int) == regs
        }),
{
    let l = nestest_line(op, regs, line, dot, cycles);
    let head = pad_right(op, 48);
    assert(head.len() == 48);
    assert(l.subrange(0, op.len() as int) =~= op);
    assert(l.subrange(48, 48 + regs.len() as int) =~= regs);
}

} // verus!
