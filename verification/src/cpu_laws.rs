//! Laws of the 65816: what pairs of instructions undo, and what the
//! arithmetic computes.
use vstd::prelude::*;
use crate::bits::{sext8, wadd16, wsub16, word};
use crate::memory::{MemView, mem_read, law_bank0_low_ram, long_addr, WRAM_SIZE};
use crate::cpu::{decode, fetch8, alu_result, sbc_value, AluOp, Mode, set_nz};
use crate::cpu::{
    Cpu65816, StatusFlags, Instr, Effect, exec_instr, exec_flow, exec_stack, exec_register,
    lemma_exec_register, lemma_exec_stack, lemma_exec_flow, stack_addr,
    stack_wrap, push8, pull8, push16, pull16, fetch16, normalize, flags_byte, flags_from_byte,
    law_flags_byte_roundtrip, merge_a, compare, modulus, digit, add_decimal, sub_decimal,
    bcd_digit_add, bcd_digit_sub, cpu_step, exec_other, is_register_op, is_stack_op, is_flow_op,
    lemma_exec_other, with_status,
};

verus! {

// ---------------------------------------------------------------------------
// Laws
// ---------------------------------------------------------------------------

/// The stack has room for `depth` bytes in low WRAM ($0000-$1FFF of bank 0)
/// below and at the stack pointer: in emulation mode the stack pointer is in
/// page 1 (where pushes wrap), in native mode it is at least `depth - 1` and
/// below $2000.
pub open spec fn stack_in_low_ram(c: Cpu65816, depth: int) -> bool {
    if c.p.e {
        c.s / 256 == 1
    } else {
        depth - 1 <= c.s < 0x2000
    }
}

proof fn lemma_stack_step(c: Cpu65816)
    ensures
        c.p.e ==> stack_addr(c) == 0x100 + c.s % 256,
        !c.p.e ==> stack_addr(c) == c.s,
        c.p.e && c.s / 256 == 1 ==> stack_wrap(wadd16(stack_wrap(wsub16(c.s, 1), true), 1), true)
            == c.s,
        c.p.e ==> stack_wrap(wsub16(c.s, 1), true) / 256 == 1,
        c.p.e ==> stack_wrap(wadd16(c.s, 1), true) / 256 == 1,
        c.p.e ==> stack_wrap(wsub16(c.s, 1), true) % 256 != c.s % 256,
{
    let s = c.s;
    let d0 = wsub16(s, 1);
    let w0 = (0x0100u16 | (d0 & 0xFF));
    assert(w0 % 256 != s % 256) by (bit_vector)
        requires
            d0 == ((s as int - 1 + 0x10000) % 0x10000) as u16,
            w0 == (0x0100u16 | (d0 & 0xFF)),
    ;
    assert((0x0100u16 | (s & 0xFF)) == 0x100 + s % 256) by (bit_vector);
    let d = wsub16(s, 1);
    let w = (0x0100u16 | (d & 0xFF));
    assert(w / 256 == 1) by (bit_vector)
        requires
            w == (0x0100u16 | (d & 0xFF)),
    ;
    let u = wadd16(s, 1);
    let w2 = (0x0100u16 | (u & 0xFF));
    assert(w2 / 256 == 1) by (bit_vector)
        requires
            w2 == (0x0100u16 | (u & 0xFF)),
    ;
    let back = wadd16(w, 1);
    assert(s / 256 == 1 ==> (0x0100u16 | (back & 0xFF)) == s) by (bit_vector)
        requires
            d == ((s as int - 1 + 0x10000) % 0x10000) as u16,
            w == (0x0100u16 | (d & 0xFF)),
            back == ((w as int + 1) % 0x10000) as u16,
    ;
}

/// A byte pushed and then pulled comes back, and the CPU is as it was.
pub proof fn law_push_pull_byte(c: Cpu65816, m: MemView, v: u8)
    requires
        m.wram.len() == WRAM_SIZE,
        stack_in_low_ram(c, 1),
    ensures
        pull8(push8(c, m, v).0, push8(c, m, v).1) == (c, v),
{
    lemma_stack_step(c);
    let a = stack_addr(c);
    law_bank0_low_ram(m, a, v);
    let (c1, m1) = push8(c, m, v);
    let c2 = Cpu65816 { s: stack_wrap(wadd16(c1.s, 1), c1.p.e), ..c1 };
    assert(c2 == c);
    law_bank0_low_ram(m1, a, v);
}

/// A word pushed and then pulled comes back, and the CPU is as it was.
pub proof fn law_push_pull_word(c: Cpu65816, m: MemView, v: u16)
    requires
        m.wram.len() == WRAM_SIZE,
        stack_in_low_ram(c, 2),
    ensures
        pull16(push16(c, m, v).0, push16(c, m, v).1) == (c, v),
{
    let (c1, m1) = push8(c, m, (v / 256) as u8);
    let (c2, m2) = push8(c1, m1, (v % 256) as u8);
    lemma_stack_step(c);
    lemma_stack_step(c1);
    let a1 = stack_addr(c);
    let a2 = stack_addr(c1);
    law_bank0_low_ram(m, a1, (v / 256) as u8);
    law_bank0_low_ram(m1, a2, (v % 256) as u8);
    assert(a1 != a2);
    law_push_pull_byte(c1, m1, (v % 256) as u8);
    assert(pull8(c2, m2) == (c1, (v % 256) as u8));
    let c3 = Cpu65816 { s: stack_wrap(wadd16(c1.s, 1), c1.p.e), ..c1 };
    assert(c3 == c);
    law_bank0_low_ram(m2, a1, 0);
    assert(mem_read(m2, a1) == (v / 256) as u8);
    assert(word((v % 256) as u8, (v / 256) as u8) == v);
}

/// JSR followed by RTS returns to the instruction after the JSR with
/// every register as it was.
pub proof fn law_jsr_rts(c: Cpu65816, m: MemView)
    requires
        m.wram.len() == WRAM_SIZE,
        stack_in_low_ram(c, 2),
    ensures
        exec_instr(Instr::Rts, exec_instr(Instr::Jsr, c, m).cpu, exec_instr(Instr::Jsr, c, m).mem).cpu
            == (Cpu65816 { pc: wadd16(c.pc, 2), ..c }),
{
    let (w, c1) = fetch16(c, m);
    let ret = wsub16(c1.pc, 1);
    assert(c1 == Cpu65816 { pc: wadd16(c.pc, 2), ..c } && wadd16(ret, 1) == c1.pc
        && stack_in_low_ram(c1, 2));
    let (c2, m2) = push16(c1, m, ret);
    let e = Effect { cpu: Cpu65816 { pc: w, ..c2 }, mem: m2, cycles: 6 };
    assert(exec_instr(Instr::Jsr, c, m) == e) by {
        lemma_exec_flow(Instr::Jsr, c, m);
    }
    let (c3, v) = pull16(e.cpu, m2);
    assert(c3 == Cpu65816 { pc: w, ..c1 } && v == ret) by {
        law_push_pull_word(c1, m, ret);
    }
    assert(exec_instr(Instr::Rts, e.cpu, e.mem).cpu == Cpu65816 { pc: wadd16(v, 1), ..c3 }) by {
        lemma_exec_flow(Instr::Rts, e.cpu, e.mem);
    }
}

/// PHA followed by PLA gives the accumulator back and leaves the stack
/// pointer where it was.
pub proof fn law_pha_pla(c: Cpu65816, m: MemView)
    requires
        m.wram.len() == WRAM_SIZE,
        stack_in_low_ram(c, 2),
    ensures
        exec_instr(Instr::Pla, exec_instr(Instr::Pha, c, m).cpu, exec_instr(Instr::Pha, c, m).mem).cpu.a
            == c.a,
        exec_instr(Instr::Pla, exec_instr(Instr::Pha, c, m).cpu, exec_instr(Instr::Pha, c, m).mem).cpu.s
            == c.s,
{
    lemma_exec_stack(Instr::Pha, c, m);
    let e = exec_stack(Instr::Pha, c, m);
    lemma_exec_stack(Instr::Pla, e.cpu, e.mem);
    if c.p.m {
        let a = c.a;
        law_push_pull_byte(c, m, (a % 256) as u8);
        assert(((a & 0xFF00) | (((a % 256) as u8) as u16 & 0xFF)) == a) by (bit_vector);
    } else {
        law_push_pull_word(c, m, c.a);
    }
}

/// PHP followed by PLP restores the CPU exactly when its registers already
/// fit the mode (see `normalize`).
pub proof fn law_php_plp(c: Cpu65816, m: MemView)
    requires
        m.wram.len() == WRAM_SIZE,
        stack_in_low_ram(c, 1),
        normalize(c) == c,
    ensures
        exec_instr(Instr::Plp, exec_instr(Instr::Php, c, m).cpu, exec_instr(Instr::Php, c, m).mem).cpu
            == c,
{
    lemma_exec_stack(Instr::Php, c, m);
    let e = exec_stack(Instr::Php, c, m);
    lemma_exec_stack(Instr::Plp, e.cpu, e.mem);
    law_push_pull_byte(c, m, flags_byte(c.p));
    law_flags_byte_roundtrip(c.p);
    assert(Cpu65816 { p: flags_from_byte(c.p, flags_byte(c.p)), ..c } == c);
}

/// The accumulator with its two bytes swapped.
pub open spec fn swap_bytes(a: u16) -> u16 {
    ((a / 256) + (a % 256) * 256) as u16
}

/// XBA twice gives the accumulator back.
pub proof fn law_xba_twice(c: Cpu65816, m: MemView)
    ensures
        exec_instr(Instr::Xba, exec_instr(Instr::Xba, c, m).cpu, m).cpu.a == c.a,
{
    lemma_exec_register(Instr::Xba, c, m);
    let e1 = exec_register(Instr::Xba, c, m);
    lemma_exec_register(Instr::Xba, e1.cpu, m);
    let e2 = exec_register(Instr::Xba, e1.cpu, m);
    assert(e1.cpu.a == swap_bytes(c.a));
    assert(e2.cpu.a == swap_bytes(e1.cpu.a));
    let a = c.a;
    let b = swap_bytes(a);
    assert(((b / 256) + (b % 256) * 256) as u16 == a) by (bit_vector)
        requires
            b == ((a / 256) + (a % 256) * 256) as u16,
    ;
}

/// A comparison sets C exactly when the register is at least the operand
/// and Z exactly when they are equal (both taken at the width).
pub proof fn law_compare_flags(reg: u16, v: u16, p: StatusFlags, wide: bool)
    requires
        wide || (reg < 256 && v < 256),
    ensures
        compare(reg, v, p, wide).c == (reg >= v),
        compare(reg, v, p, wide).z == (reg == v),
{
    let md = modulus(wide);
    let diff = ((reg as int - v as int + md) % md) as u16;
    if !wide {
        assert(((diff & 0xFF) as u8 == 0) == (diff == 0)) by (bit_vector)
            requires
                diff < 256,
        ;
    }
}

/// A value whose 4-bit digits are all decimal digits (two digits when
/// 8 bits wide, four when 16).
pub open spec fn bcd_valid(v: u16, wide: bool) -> bool {
    &&& digit(v, 0) <= 9
    &&& digit(v, 1) <= 9
    &&& if wide {
        digit(v, 2) <= 9 && digit(v, 3) <= 9
    } else {
        v < 256
    }
}

/// The number a BCD value stands for.
pub open spec fn bcd_value(v: u16, wide: bool) -> int {
    digit(v, 0) + 10 * digit(v, 1) + if wide {
        100 * digit(v, 2) + 1000 * digit(v, 3)
    } else {
        0
    }
}

/// One past the largest number of the given BCD width.
pub open spec fn bcd_modulus(wide: bool) -> int {
    if wide {
        10000
    } else {
        100
    }
}

proof fn lemma_digits_of(d0: int, d1: int, d2: int, d3: int)
    requires
        0 <= d0 < 16,
        0 <= d1 < 16,
        0 <= d2 < 16,
        0 <= d3 < 16,
    ensures
        digit((d0 + 16 * d1 + 256 * d2 + 4096 * d3) as u16, 0) == d0,
        digit((d0 + 16 * d1 + 256 * d2 + 4096 * d3) as u16, 1) == d1,
        digit((d0 + 16 * d1 + 256 * d2 + 4096 * d3) as u16, 2) == d2,
        digit((d0 + 16 * d1 + 256 * d2 + 4096 * d3) as u16, 3) == d3,
{
    let r = d0 + 16 * d1 + 256 * d2 + 4096 * d3;
    assert(r / 16 == d1 + 16 * d2 + 256 * d3);
    assert(r / 256 == d2 + 16 * d3);
    assert(r / 4096 == d3);
}

proof fn lemma_digit_bound(v: u16)
    ensures
        0 <= digit(v, 0) < 16,
        0 <= digit(v, 1) < 16,
        0 <= digit(v, 2) < 16,
        0 <= digit(v, 3) < 16,
        v as int == digit(v, 0) + 16 * digit(v, 1) + 256 * digit(v, 2) + 4096 * digit(v, 3),
        v < 256 ==> digit(v, 2) == 0 && digit(v, 3) == 0,
{
    assert(v == (v % 16) + 16 * ((v / 16) % 16) + 256 * ((v / 256) % 16) + 4096 * ((v / 4096)
        % 16)) by (bit_vector);
    assert(v < 256 ==> (v / 256) % 16 == 0 && (v / 4096) % 16 == 0) by (bit_vector);
}

proof fn lemma_bcd_digit_add(x: int, y: int, c: int)
    requires
        0 <= x <= 9,
        0 <= y <= 9,
        0 <= c <= 1,
    ensures
        x + y + c == bcd_digit_add(x, y, c).0 + 10 * bcd_digit_add(x, y, c).1,
        0 <= bcd_digit_add(x, y, c).0 <= 9,
        0 <= bcd_digit_add(x, y, c).1 <= 1,
{
}

proof fn lemma_bcd_digit_sub(x: int, y: int, b: int)
    requires
        0 <= x <= 9,
        0 <= y <= 9,
        0 <= b <= 1,
    ensures
        x - y - b == bcd_digit_sub(x, y, b).0 - 10 * bcd_digit_sub(x, y, b).1,
        0 <= bcd_digit_sub(x, y, b).0 <= 9,
        0 <= bcd_digit_sub(x, y, b).1 <= 1,
{
}

proof fn lemma_mod_window(r: int, k: int, md: int)
    requires
        0 <= r < md,
        -1 <= k <= 1,
        md > 0,
    ensures
        (r + md * k) % md == r,
{
    if k == 1 {
        assert((r + md) % md == r) by (nonlinear_arith)
            requires
                0 <= r < md,
        ;
    } else if k == -1 {
        assert((r - md) % md == r) by (nonlinear_arith)
            requires
                0 <= r < md,
        ;
    } else {
        assert(r % md == r) by (nonlinear_arith)
            requires
                0 <= r < md,
        ;
    }
}

/// Decimal ADC adds BCD numbers: on valid BCD operands the result is the
/// BCD form of the sum (with the carry in) modulo 100 (8 bits) or 10000
/// (16 bits), and the carry out tells whether the sum reached it.
pub proof fn law_decimal_add(a: u16, v: u16, carry: bool, wide: bool)
    requires
        bcd_valid(a, wide),
        bcd_valid(v, wide),
    ensures
        bcd_valid(add_decimal(a, v, carry, wide).0, wide),
        bcd_value(add_decimal(a, v, carry, wide).0, wide) == (bcd_value(a, wide) + bcd_value(
            v,
            wide,
        ) + (if carry { 1int } else { 0int })) % bcd_modulus(wide),
        add_decimal(a, v, carry, wide).1 == (bcd_value(a, wide) + bcd_value(v, wide) + (if carry {
            1int
        } else {
            0int
        }) >= bcd_modulus(wide)),
{
    lemma_digit_bound(a);
    lemma_digit_bound(v);
    let cin: int = if carry { 1 } else { 0 };
    let d0 = bcd_digit_add(digit(a, 0), digit(v, 0), cin);
    lemma_bcd_digit_add(digit(a, 0), digit(v, 0), cin);
    let d1 = bcd_digit_add(digit(a, 1), digit(v, 1), d0.1);
    lemma_bcd_digit_add(digit(a, 1), digit(v, 1), d0.1);
    if wide {
        let d2 = bcd_digit_add(digit(a, 2), digit(v, 2), d1.1);
        lemma_bcd_digit_add(digit(a, 2), digit(v, 2), d1.1);
        let d3 = bcd_digit_add(digit(a, 3), digit(v, 3), d2.1);
        lemma_bcd_digit_add(digit(a, 3), digit(v, 3), d2.1);
        lemma_digits_of(d0.0, d1.0, d2.0, d3.0);
        let r = d0.0 + 10 * d1.0 + 100 * d2.0 + 1000 * d3.0;
        assert(bcd_value(a, wide) + bcd_value(v, wide) + cin == r + 10000 * d3.1);
        lemma_mod_window(r, d3.1, 10000);
    } else {
        lemma_digits_of(d0.0, d1.0, 0, 0);
        let r = d0.0 + 10 * d1.0;
        assert(bcd_value(a, wide) + bcd_value(v, wide) + cin == r + 100 * d1.1);
        lemma_mod_window(r, d1.1, 100);
    }
}

/// Decimal SBC subtracts BCD numbers: on valid BCD operands the result is
/// the BCD form of the difference (less one when carry is clear) modulo
/// 100 or 10000, and the carry out is set exactly when nothing was borrowed.
pub proof fn law_decimal_sub(a: u16, v: u16, carry: bool, wide: bool)
    requires
        bcd_valid(a, wide),
        bcd_valid(v, wide),
    ensures
        bcd_valid(sub_decimal(a, v, carry, wide).0, wide),
        bcd_value(sub_decimal(a, v, carry, wide).0, wide) == (bcd_value(a, wide) - bcd_value(
            v,
            wide,
        ) - (if carry { 0int } else { 1int })) % bcd_modulus(wide),
        sub_decimal(a, v, carry, wide).1 == (bcd_value(a, wide) - bcd_value(v, wide) - (if carry {
            0int
        } else {
            1int
        }) >= 0),
{
    lemma_digit_bound(a);
    lemma_digit_bound(v);
    let bin: int = if carry { 0 } else { 1 };
    let d0 = bcd_digit_sub(digit(a, 0), digit(v, 0), bin);
    lemma_bcd_digit_sub(digit(a, 0), digit(v, 0), bin);
    let d1 = bcd_digit_sub(digit(a, 1), digit(v, 1), d0.1);
    lemma_bcd_digit_sub(digit(a, 1), digit(v, 1), d0.1);
    if wide {
        let d2 = bcd_digit_sub(digit(a, 2), digit(v, 2), d1.1);
        lemma_bcd_digit_sub(digit(a, 2), digit(v, 2), d1.1);
        let d3 = bcd_digit_sub(digit(a, 3), digit(v, 3), d2.1);
        lemma_bcd_digit_sub(digit(a, 3), digit(v, 3), d2.1);
        lemma_digits_of(d0.0, d1.0, d2.0, d3.0);
        let r = d0.0 + 10 * d1.0 + 100 * d2.0 + 1000 * d3.0;
        assert(bcd_value(a, wide) - bcd_value(v, wide) - bin == r - 10000 * d3.1);
        lemma_mod_window(r, -d3.1, 10000);
    } else {
        lemma_digits_of(d0.0, d1.0, 0, 0);
        let r = d0.0 + 10 * d1.0;
        assert(bcd_value(a, wide) - bcd_value(v, wide) - bin == r - 100 * d1.1);
        lemma_mod_window(r, -d1.1, 100);
    }
}

// ---------------------------------------------------------------------------
// Register widths
// ---------------------------------------------------------------------------

/// The register shape the mode asks for: M and X set in emulation mode, and
/// 8-bit index registers while X is set.
pub open spec fn widths_ok(c: Cpu65816) -> bool {
    &&& c.p.e ==> c.p.m && c.p.x
    &&& c.p.x ==> c.x < 256 && c.y < 256
}

proof fn lemma_low_byte(v: u16)
    by (bit_vector)
    ensures
        v & 0xFF < 256,
        v < 256 ==> v & 0xFF == v,
{
}

/// A CPU fitted to its mode has the shape; one with the shape is fitted.
proof fn lemma_normalize_widths(c: Cpu65816)
    ensures
        widths_ok(normalize(c)),
        widths_ok(c) ==> normalize(c) == c,
{
    lemma_low_byte(c.x);
    lemma_low_byte(c.y);
}

#[verifier::spinoff_prover]
proof fn lemma_register_widths(i: Instr, c: Cpu65816, m: MemView)
    requires
        is_register_op(i),
        widths_ok(c),
    ensures
        widths_ok(exec_register(i, c, m).cpu),
{
    match i {
        Instr::Tax | Instr::Tay => {
            lemma_low_byte(c.a);
        },
        Instr::Tsx => {
            lemma_low_byte(c.s);
        },
        Instr::Txy => {
            lemma_low_byte(c.x);
        },
        Instr::Tyx => {
            lemma_low_byte(c.y);
        },
        Instr::Rep => {
            let (mask, c1) = crate::cpu::fetch8(c, m);
            lemma_normalize_widths(Cpu65816 { p: flags_from_byte(c1.p, flags_byte(c.p) & !mask), ..c1 });
        },
        Instr::Sep => {
            let (mask, c1) = crate::cpu::fetch8(c, m);
            lemma_normalize_widths(Cpu65816 { p: flags_from_byte(c1.p, flags_byte(c.p) | mask), ..c1 });
        },
        Instr::Xce => {
            let c1 = Cpu65816 { p: StatusFlags { c: c.p.e, e: c.p.c, ..c.p }, ..c };
            let c2 = if c1.p.e {
                Cpu65816 { s: stack_wrap(c1.s, true), ..c1 }
            } else {
                c1
            };
            lemma_normalize_widths(c2);
        },
        _ => {},
    }
}

proof fn lemma_stack_widths(i: Instr, c: Cpu65816, m: MemView)
    requires
        is_stack_op(i),
        widths_ok(c),
    ensures
        widths_ok(exec_stack(i, c, m).cpu),
{
    let (c1, v) = pull8(c, m);
    lemma_normalize_widths(Cpu65816 { p: flags_from_byte(c1.p, v), ..c1 });
}

proof fn lemma_flow_widths(i: Instr, c: Cpu65816, m: MemView)
    requires
        is_flow_op(i),
        widths_ok(c),
    ensures
        widths_ok(exec_flow(i, c, m).cpu),
{
}

proof fn lemma_load_widths(c: Cpu65816, m: MemView, r: crate::cpu::Reg, mode: crate::cpu::Mode)
    requires
        widths_ok(c),
    ensures
        widths_ok(crate::cpu::exec_load(c, m, r, mode).cpu),
{
}

proof fn lemma_rti_widths(c: Cpu65816, m: MemView)
    requires
        widths_ok(c),
    ensures
        widths_ok(crate::cpu::exec_rti(c, m).cpu),
{
    let (c1, st) = pull8(c, m);
    lemma_normalize_widths(Cpu65816 { p: flags_from_byte(c1.p, st), ..c1 });
}

proof fn lemma_block_move_widths(c: Cpu65816, m: MemView, up: bool)
    requires
        widths_ok(c),
    ensures
        widths_ok(crate::cpu::exec_block_move(c, m, up).cpu),
{
}

proof fn lemma_interrupt_widths(c: Cpu65816, m: MemView, brk: bool)
    requires
        widths_ok(c),
    ensures
        widths_ok(crate::cpu::exec_interrupt(c, m, brk).cpu),
{
}

proof fn lemma_store_widths(c: Cpu65816, m: MemView, r: crate::cpu::Reg, mode: crate::cpu::Mode)
    requires
        widths_ok(c),
    ensures
        widths_ok(crate::cpu::exec_store(c, m, r, mode).cpu),
{
}

#[verifier::spinoff_prover]
#[verifier::rlimit(60)]
proof fn lemma_alu_widths(c: Cpu65816, m: MemView, op: crate::cpu::AluOp, mode: crate::cpu::Mode)
    requires
        widths_ok(c),
    ensures
        widths_ok(crate::cpu::exec_alu(c, m, op, mode).cpu),
{
}

proof fn lemma_compare_widths(c: Cpu65816, m: MemView, reg: u16, mode: crate::cpu::Mode)
    requires
        widths_ok(c),
    ensures
        widths_ok(crate::cpu::exec_compare_index(c, m, reg, mode).cpu),
{
}

proof fn lemma_rmw_widths(c: Cpu65816, m: MemView, op: crate::cpu::RmwOp, mode: crate::cpu::Mode)
    requires
        widths_ok(c),
    ensures
        widths_ok(crate::cpu::exec_rmw_a(c, m, op).cpu),
        widths_ok(crate::cpu::exec_rmw_mem(c, m, op, mode).cpu),
{
}

#[verifier::spinoff_prover]
proof fn lemma_other_widths(i: Instr, c: Cpu65816, m: MemView)
    requires
        !is_register_op(i),
        !is_stack_op(i),
        !is_flow_op(i),
        widths_ok(c),
    ensures
        widths_ok(exec_other(i, c, m).cpu),
{
    match i {
        Instr::Load(r, mode) => lemma_load_widths(c, m, r, mode),
        Instr::Rti => lemma_rti_widths(c, m),
        Instr::Mvn => lemma_block_move_widths(c, m, true),
        Instr::Mvp => lemma_block_move_widths(c, m, false),
        Instr::Brk => lemma_interrupt_widths(c, m, true),
        Instr::Cop => lemma_interrupt_widths(c, m, false),
        Instr::Store(r, mode) => lemma_store_widths(c, m, r, mode),
        Instr::Alu(op, mode) => lemma_alu_widths(c, m, op, mode),
        Instr::CompareX(mode) => lemma_compare_widths(c, m, c.x, mode),
        Instr::CompareY(mode) => lemma_compare_widths(c, m, c.y, mode),
        Instr::RmwA(op) => lemma_rmw_widths(c, m, op, crate::cpu::Mode::Imm),
        Instr::RmwMem(op, mode) => lemma_rmw_widths(c, m, op, mode),
        _ => {},
    }
}

/// Every step keeps the registers fitted to the mode: emulation mode keeps
/// 8-bit registers, and 8-bit index registers keep clear high bytes.
#[verifier::spinoff_prover]
pub proof fn law_step_keeps_widths(c: Cpu65816, m: MemView)
    requires
        normalize(c) == c,
    ensures
        normalize(cpu_step(c, m).cpu) == cpu_step(c, m).cpu,
{
    lemma_normalize_widths(c);
    if !(c.stopped || c.waiting) {
        let (op, c1) = crate::cpu::fetch8(c, m);
        let i = crate::cpu::decode(op);
        if is_register_op(i) {
            lemma_exec_register(i, c1, m);
            lemma_register_widths(i, c1, m);
        } else if is_stack_op(i) {
            lemma_exec_stack(i, c1, m);
            lemma_stack_widths(i, c1, m);
        } else if is_flow_op(i) {
            lemma_exec_flow(i, c1, m);
            lemma_flow_widths(i, c1, m);
        } else {
            lemma_exec_other(i, c1, m);
            lemma_other_widths(i, c1, m);
        }
    }
    lemma_normalize_widths(cpu_step(c, m).cpu);
}

/// What one step does at a relative branch, taken or not: the offset byte
/// after the opcode is read as a signed displacement; a taken branch goes to
/// PC + 2 + displacement (within the bank) in 3 cycles, one not taken to
/// PC + 2 in 2 cycles; flags, registers other than PC, and memory stay.
pub open spec fn branch_outcome(c: Cpu65816, m: MemView, taken: bool) -> bool {
    let e = cpu_step(c, m);
    let off = mem_read(m, long_addr(c.pbr, ((c.pc as int + 1) % 0x10000) as u16)) as int;
    let disp: int = if off < 128 {
        off
    } else {
        off - 256
    };
    let next = c.pc as int + 2;
    &&& e.cpu.pc as int == (if taken {
        (next + disp) % 0x10000
    } else {
        next % 0x10000
    })
    &&& e.cycles == (if taken {
        3u8
    } else {
        2u8
    })
    &&& e.mem == m
    &&& e.cpu.p == c.p
    &&& e.cpu.a == c.a && e.cpu.x == c.x && e.cpu.y == c.y && e.cpu.s == c.s
    &&& e.cpu.pbr == c.pbr
}

proof fn lemma_branch_target(pc: u16, o: u8)
    ensures
        wadd16(wadd16(pc, 1), 1) as int == (pc as int + 2) % 0x10000,
        wadd16(wadd16(wadd16(pc, 1), 1), sext8(o)) as int == (pc as int + 2 + (if o < 128 {
            o as int
        } else {
            o as int - 256
        })) % 0x10000,
{
}

/// The conditional branches test the flags the 65816 defines: BPL ($10)
/// branches when N is clear and BMI ($30) when it is set, BVC ($50) / BVS
/// ($70) on V, BCC ($90) / BCS ($B0) on C, BNE ($D0) / BEQ ($F0) on Z, and
/// BRA ($80) always.
pub proof fn law_conditional_branches(c: Cpu65816, m: MemView)
    requires
        !c.stopped,
        !c.waiting,
    ensures
        ({
            let op = mem_read(m, long_addr(c.pbr, c.pc));
            &&& op == 0x10 ==> branch_outcome(c, m, !c.p.n)
            &&& op == 0x30 ==> branch_outcome(c, m, c.p.n)
            &&& op == 0x50 ==> branch_outcome(c, m, !c.p.v)
            &&& op == 0x70 ==> branch_outcome(c, m, c.p.v)
            &&& op == 0x90 ==> branch_outcome(c, m, !c.p.c)
            &&& op == 0xB0 ==> branch_outcome(c, m, c.p.c)
            &&& op == 0xD0 ==> branch_outcome(c, m, !c.p.z)
            &&& op == 0xF0 ==> branch_outcome(c, m, c.p.z)
            &&& op == 0x80 ==> branch_outcome(c, m, true)
        }),
{
    let (op, c1) = fetch8(c, m);
    let (o, c2) = fetch8(c1, m);
    lemma_branch_target(c.pc, o);
    if op == 0x10 || op == 0x30 || op == 0x50 || op == 0x70 || op == 0x90 || op == 0xB0 || op
        == 0xD0 || op == 0xF0 || op == 0x80 {
        lemma_exec_flow(decode(op), c1, m);
    }
}

proof fn lemma_byte_arith(full: u16, v: u16, r: u16)
    by (bit_vector)
    requires
        v < 256,
        r < 256,
    ensures
        full & 0xFF == full % 256,
        r & 0xFF == r,
        ((full & 0xFF00) | (r & 0xFF)) % 256 == r,
        ((full & 0xFF00) | (r & 0xFF)) / 256 == full / 256,
        ((r as u8) & 0x80 != 0) == (r >= 128),
        ((!((full & 0xFF) ^ v)) & ((full & 0xFF) ^ r) & 0x80 != 0) == (((full & 0xFF) < 128) == (v
            < 128) && (r < 128) != ((full & 0xFF) < 128)),
        (!v) & 0xFF == 255 - v,
        ((!((full & 0xFF) ^ ((!v) & 0xFF))) & ((full & 0xFF) ^ r) & 0x80 != 0) == (((full & 0xFF)
            < 128) != (v < 128) && (r < 128) != ((full & 0xFF) < 128)),
{
}

/// What the law on immediate accumulator instructions says of opcode `op`
/// run from `c` with operand byte `vb`, giving `e`.
pub open spec fn immediate_result(c: Cpu65816, m: MemView, vb: u8, op: u8, e: Effect) -> bool {
    let v = vb as int;
    let a = c.a as int % 256;
    let cin: int = if c.p.c {
        1
    } else {
        0
    };
    let r = e.cpu.a as int % 256;
    let common = e.cpu.pc as int == (c.pc as int + 2) % 0x10000 && e.cycles == 2 && e.mem == m
        && e.cpu.a as int / 256 == c.a as int / 256 && e.cpu.x == c.x && e.cpu.y == c.y && e.cpu.s
        == c.s;
    let nz = e.cpu.p.z == (r == 0) && e.cpu.p.n == (r >= 128);
    &&& op == 0xA9 ==> common && nz && r == v
    &&& op == 0x69 && !c.p.d ==> common && nz && r == (a + v + cin) % 256 && e.cpu.p.c == (a + v
        + cin >= 256) && e.cpu.p.v == ((a < 128) == (v < 128) && (r < 128) != (a < 128))
    &&& op == 0xE9 && !c.p.d ==> common && nz && r == (a - v - (1 - cin)) % 256 && e.cpu.p.c == (a
        - v - (1 - cin) >= 0) && e.cpu.p.v == ((a < 128) != (v < 128) && (r < 128) != (a < 128))
    &&& op == 0xC9 ==> common && r == a && e.cpu.p.c == (a >= v) && e.cpu.p.z == (a == v)
        && e.cpu.p.n == ((a - v) % 256 >= 128)
}

/// The law on immediate accumulator instructions for the opcode at PC.
pub open spec fn immediate_op_result(c: Cpu65816, m: MemView, op: u8) -> bool {
    immediate_result(
        c,
        m,
        mem_read(m, long_addr(c.pbr, ((c.pc as int + 1) % 0x10000) as u16)),
        op,
        cpu_step(c, m),
    )
}

/// One step at an 8-bit immediate accumulator operation `aop` (opcode
/// `op`): the operand byte after the opcode goes through `alu_result`.
proof fn lemma_step_imm_alu(c: Cpu65816, m: MemView, op: u8, aop: AluOp)
    requires
        !c.stopped,
        !c.waiting,
        c.p.m,
        op == mem_read(m, long_addr(c.pbr, c.pc)),
        decode(op) == Instr::Alu(aop, Mode::Imm),
    ensures
        ({
            let vb = mem_read(m, long_addr(c.pbr, wadd16(c.pc, 1)));
            let (a, p) = alu_result(aop, Mode::Imm, c.a, c.a & 0xFF, vb as u16, c.p, false);
            let e = cpu_step(c, m);
            &&& e.cpu.a == a
            &&& e.cpu.p == p
            &&& e.cpu.pc == wadd16(wadd16(c.pc, 1), 1)
            &&& e.cpu.x == c.x && e.cpu.y == c.y && e.cpu.s == c.s
            &&& e.mem == m
            &&& e.cycles == 2
        }),
{
    let (op1, c1) = fetch8(c, m);
    lemma_exec_other(decode(op), c1, m);
}

/// One step at LDA #v with an 8-bit accumulator.
proof fn lemma_step_imm_lda(c: Cpu65816, m: MemView)
    requires
        !c.stopped,
        !c.waiting,
        c.p.m,
        mem_read(m, long_addr(c.pbr, c.pc)) == 0xA9,
    ensures
        ({
            let vb = mem_read(m, long_addr(c.pbr, wadd16(c.pc, 1)));
            let e = cpu_step(c, m);
            &&& e.cpu.a == merge_a(c.a, vb as u16, false)
            &&& e.cpu.p == set_nz(c.p, vb as u16, false)
            &&& e.cpu.pc == wadd16(wadd16(c.pc, 1), 1)
            &&& e.cpu.x == c.x && e.cpu.y == c.y && e.cpu.s == c.s
            &&& e.mem == m
            &&& e.cycles == 2
        }),
{
    let (op1, c1) = fetch8(c, m);
    lemma_exec_other(decode(0xA9), c1, m);
}

proof fn lemma_imm_lda_arith(c: Cpu65816, m: MemView, vb: u8, e: Effect)
    requires
        e.cpu.pc == wadd16(wadd16(c.pc, 1), 1),
        e.cpu.x == c.x && e.cpu.y == c.y && e.cpu.s == c.s,
        e.cycles == 2,
        e.mem == m,
        e.cpu.a == merge_a(c.a, vb as u16, false),
        e.cpu.p == set_nz(c.p, vb as u16, false),
    ensures
        immediate_result(c, m, vb, 0xA9u8, e),
{
    lemma_branch_target(c.pc, vb);
    let a16 = c.a & 0xFF;
    let v16 = vb as u16;
    let cin: int = if c.p.c {
        1
    } else {
        0
    };
    lemma_byte_arith(c.a, v16, 0);
    lemma_byte_arith(c.a, v16, v16);
}

proof fn lemma_imm_adc_arith(c: Cpu65816, m: MemView, vb: u8, e: Effect)
    requires
        e.cpu.pc == wadd16(wadd16(c.pc, 1), 1),
        e.cpu.x == c.x && e.cpu.y == c.y && e.cpu.s == c.s,
        e.cycles == 2,
        e.mem == m,
        (e.cpu.a, e.cpu.p) == alu_result(AluOp::Adc, Mode::Imm, c.a, c.a & 0xFF, vb as u16, c.p, false),
        !c.p.d,
    ensures
        immediate_result(c, m, vb, 0x69u8, e),
{
    lemma_branch_target(c.pc, vb);
    let a16 = c.a & 0xFF;
    let v16 = vb as u16;
    let cin: int = if c.p.c {
        1
    } else {
        0
    };
    lemma_byte_arith(c.a, v16, 0);
    let r16 = ((a16 + v16 + cin) % 256) as u16;
    lemma_byte_arith(c.a, v16, r16);
}

#[verifier::rlimit(40)]
proof fn lemma_imm_sbc_arith(c: Cpu65816, m: MemView, vb: u8, e: Effect)
    requires
        e.cpu.pc == wadd16(wadd16(c.pc, 1), 1),
        e.cpu.x == c.x && e.cpu.y == c.y && e.cpu.s == c.s,
        e.cycles == 2,
        e.mem == m,
        (e.cpu.a, e.cpu.p) == alu_result(AluOp::Sbc, Mode::Imm, c.a, c.a & 0xFF, vb as u16, c.p, false),
        !c.p.d,
    ensures
        immediate_result(c, m, vb, 0xE9u8, e),
{
    lemma_branch_target(c.pc, vb);
    let a16 = c.a & 0xFF;
    let v16 = vb as u16;
    let cin: int = if c.p.c {
        1
    } else {
        0
    };
    lemma_byte_arith(c.a, v16, 0);
    let inv = (!v16) & 0xFFu16;
    let sum = a16 + inv + cin;
    let r16 = (sum % 256) as u16;
    lemma_byte_arith(c.a, v16, r16);
    assert(inv == 255 - v16);
    let x = a16 as int - v16 as int - (1 - cin);
    vstd::arithmetic::div_mod::lemma_mod_add_multiples_vanish(x, 256);
    assert(sum == 256 + x);
    assert(r16 as int == x % 256);
    assert(sbc_value(a16, v16, c.p, false) == (
        r16,
        set_nz(
            StatusFlags { c: sum >= 256, v: (!(a16 ^ inv)) & (a16 ^ r16) & 0x80 != 0, ..c.p },
            r16,
            false,
        ),
    ));
}

proof fn lemma_imm_compare_arith(c: Cpu65816, m: MemView, vb: u8, e: Effect)
    requires
        e.cpu.pc == wadd16(wadd16(c.pc, 1), 1),
        e.cpu.x == c.x && e.cpu.y == c.y && e.cpu.s == c.s,
        e.cycles == 2,
        e.mem == m,
        (e.cpu.a, e.cpu.p) == alu_result(AluOp::Cmp, Mode::Imm, c.a, c.a & 0xFF, vb as u16, c.p, false),
    ensures
        immediate_result(c, m, vb, 0xC9u8, e),
{
    lemma_branch_target(c.pc, vb);
    let a16 = c.a & 0xFF;
    let v16 = vb as u16;
    let cin: int = if c.p.c {
        1
    } else {
        0
    };
    lemma_byte_arith(c.a, v16, 0);
    let d16 = ((a16 as int - v16 as int + 256) % 256) as u16;
    lemma_byte_arith(c.a, v16, d16);
}

proof fn lemma_immediate_op(c: Cpu65816, m: MemView, op: u8)
    requires
        !c.stopped,
        !c.waiting,
        c.p.m,
        op == mem_read(m, long_addr(c.pbr, c.pc)),
        op == 0xA9 || op == 0x69 || op == 0xE9 || op == 0xC9,
    ensures
        immediate_op_result(c, m, op),
{
    let vb = mem_read(m, long_addr(c.pbr, wadd16(c.pc, 1)));
    let e = cpu_step(c, m);
    if op == 0xA9 {
        lemma_step_imm_lda(c, m);
        lemma_imm_lda_arith(c, m, vb, e);
    } else if op == 0x69 {
        lemma_step_imm_alu(c, m, op, AluOp::Adc);
        if !c.p.d {
            lemma_imm_adc_arith(c, m, vb, e);
        }
    } else if op == 0xE9 {
        lemma_step_imm_alu(c, m, op, AluOp::Sbc);
        if !c.p.d {
            lemma_imm_sbc_arith(c, m, vb, e);
        }
    } else {
        lemma_step_imm_alu(c, m, op, AluOp::Cmp);
        lemma_imm_compare_arith(c, m, vb, e);
    }
}

/// The 8-bit immediate accumulator instructions (accumulator 8 bits wide,
/// M set) compute on the low byte `a` of A and the operand byte `v` after
/// the opcode, leave the high byte of A, X, Y and S, take 2 cycles and move
/// PC past the operand (see `immediate_op_result`):
/// - LDA #v ($A9) loads v;
/// - ADC #v ($69, binary mode) gives (a + v + C) mod 256, carry out when the
///   sum passes 255, and V when both operands have one sign and the result
///   the other;
/// - SBC #v ($E9, binary mode) gives (a - v - (1 - C)) mod 256, C when
///   nothing was borrowed, and V when the operands' signs differ and the
///   result's sign is not a's;
/// - CMP #v ($C9) leaves A, sets C when a >= v, Z when equal, N from the
///   top bit of (a - v) mod 256;
/// and each result sets Z when 0 and N from its top bit.
pub proof fn law_immediate_accumulator_ops(c: Cpu65816, m: MemView)
    requires
        !c.stopped,
        !c.waiting,
        c.p.m,
    ensures
        immediate_op_result(c, m, mem_read(m, long_addr(c.pbr, c.pc))),
{
    let op = mem_read(m, long_addr(c.pbr, c.pc));
    if op == 0xA9 || op == 0x69 || op == 0xE9 || op == 0xC9 {
        lemma_immediate_op(c, m, op);
    }
}

} // verus!
