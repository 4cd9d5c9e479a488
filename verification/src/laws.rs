//! What holds of the instruction set, proved of the model.
use crate::font::{font_byte, glyph_row, has_font};
use crate::model::{count_down, next_pc, sprite_bit, ticks_due, wrap_addr, Machine};
use crate::opcode::{
    decode_spec, encode, field_kk, field_n, field_op, lemma_decode_wf, lemma_field_bounds,
    lemma_fields_of_word, Fault, Opcode,
};
use vstd::prelude::*;

verus! {

/// Running an instruction keeps the invariant of the machine, whether it
/// ends in a fault or not: afterwards the program counter is within RAM, the
/// stack pointer is at most 16 and equal to the depth of the call stack, and
/// RAM, registers and screen have their sizes.
pub proof fn law_instruction_keeps_invariant(m: Machine, op: Opcode, random: u8)
    requires
        m.wf(),
        op.wf(),
    ensures
        m.run_op(op, random).0.wf(),
        m.run_op(op, random).0.pc <= 4095,
        m.run_op(op, random).0.sp <= 16,
        m.run_op(op, random).0.stack.len() == m.run_op(op, random).0.sp,
{
}

/// A whole step keeps the invariant of the machine, whatever the time, the
/// random byte and the word at the program counter.
pub proof fn law_step_keeps_invariant(m: Machine, now_us: u64, random: u8)
    requires
        m.wf(),
    ensures
        m.step(now_us, random).0.wf(),
        m.step(now_us, random).0.pc <= 4095,
        m.step(now_us, random).0.sp <= 16,
        m.step(now_us, random).0.stack.len() == m.step(now_us, random).0.sp,
{
    let ticked = m.advance_timers(now_us);
    let word = ticked.fetch();
    lemma_decode_wf(word);
    match decode_spec(word) {
        Ok(op) => {
            law_instruction_keeps_invariant(ticked, op, random);
        },
        Err(_) => {},
    }
}

/// Decoding reads the table of instruction words backwards: the word that
/// stands for an instruction decodes to that instruction.
pub proof fn law_decode_encode(op: Opcode)
    requires
        op.wf(),
    ensures
        decode_spec(encode(op)) == Ok::<Opcode, Fault>(op),
{
    match op {
        Opcode::Sys => lemma_fields_of_word(0x0, 0x0, 0x0, 0x0),
        Opcode::Cls => lemma_fields_of_word(0x0, 0x0, 0xE, 0x0),
        Opcode::Ret => lemma_fields_of_word(0x0, 0x0, 0xE, 0xE),
        Opcode::Jp { nnn } => lemma_fields_of_word(0x1, (nnn / 256) as int, ((nnn / 16) % 16) as int, (nnn % 16) as int),
        Opcode::Call { nnn } => lemma_fields_of_word(0x2, (nnn / 256) as int, ((nnn / 16) % 16) as int, (nnn % 16) as int),
        Opcode::SeByte { x, kk } => lemma_fields_of_word(0x3, x as int, (kk / 16) as int, (kk % 16) as int),
        Opcode::SneByte { x, kk } => lemma_fields_of_word(0x4, x as int, (kk / 16) as int, (kk % 16) as int),
        Opcode::SeReg { x, y } => lemma_fields_of_word(0x5, x as int, y as int, 0x0),
        Opcode::LdByte { x, kk } => lemma_fields_of_word(0x6, x as int, (kk / 16) as int, (kk % 16) as int),
        Opcode::AddByte { x, kk } => lemma_fields_of_word(0x7, x as int, (kk / 16) as int, (kk % 16) as int),
        Opcode::LdReg { x, y } => lemma_fields_of_word(0x8, x as int, y as int, 0x0),
        Opcode::Or { x, y } => lemma_fields_of_word(0x8, x as int, y as int, 0x1),
        Opcode::And { x, y } => lemma_fields_of_word(0x8, x as int, y as int, 0x2),
        Opcode::Xor { x, y } => lemma_fields_of_word(0x8, x as int, y as int, 0x3),
        Opcode::AddReg { x, y } => lemma_fields_of_word(0x8, x as int, y as int, 0x4),
        Opcode::Sub { x, y } => lemma_fields_of_word(0x8, x as int, y as int, 0x5),
        Opcode::Shr { x, y } => lemma_fields_of_word(0x8, x as int, y as int, 0x6),
        Opcode::Subn { x, y } => lemma_fields_of_word(0x8, x as int, y as int, 0x7),
        Opcode::Shl { x, y } => lemma_fields_of_word(0x8, x as int, y as int, 0xE),
        Opcode::SneReg { x, y } => lemma_fields_of_word(0x9, x as int, y as int, 0x0),
        Opcode::LdI { nnn } => lemma_fields_of_word(0xA, (nnn / 256) as int, ((nnn / 16) % 16) as int, (nnn % 16) as int),
        Opcode::JpV0 { nnn } => lemma_fields_of_word(0xB, (nnn / 256) as int, ((nnn / 16) % 16) as int, (nnn % 16) as int),
        Opcode::Rnd { x, kk } => lemma_fields_of_word(0xC, x as int, (kk / 16) as int, (kk % 16) as int),
        Opcode::Drw { x, y, n } => lemma_fields_of_word(0xD, x as int, y as int, n as int),
        Opcode::Skp { x } => lemma_fields_of_word(0xE, x as int, 0x9, 0xE),
        Opcode::Sknp { x } => lemma_fields_of_word(0xE, x as int, 0xA, 0x1),
        Opcode::LdVxDt { x } => lemma_fields_of_word(0xF, x as int, 0x0, 0x7),
        Opcode::LdVxK { x } => lemma_fields_of_word(0xF, x as int, 0x0, 0xA),
        Opcode::LdDtVx { x } => lemma_fields_of_word(0xF, x as int, 0x1, 0x5),
        Opcode::LdStVx { x } => lemma_fields_of_word(0xF, x as int, 0x1, 0x8),
        Opcode::AddI { x } => lemma_fields_of_word(0xF, x as int, 0x1, 0xE),
        Opcode::LdF { x } => lemma_fields_of_word(0xF, x as int, 0x2, 0x9),
        Opcode::LdB { x } => lemma_fields_of_word(0xF, x as int, 0x3, 0x3),
        Opcode::StoreRegs { x } => lemma_fields_of_word(0xF, x as int, 0x5, 0x5),
        Opcode::LoadRegs { x } => lemma_fields_of_word(0xF, x as int, 0x6, 0x5),
    }
}

/// Running the word that stands for an instruction is running that
/// instruction.
pub proof fn law_word_runs_instruction(m: Machine, op: Opcode, random: u8)
    requires
        op.wf(),
    ensures
        m.run_word(encode(op), random) == m.run_op(op, random),
{
    law_decode_encode(op);
}

/// A call followed at once by a return is a step past the call: the call
/// stack is as it was, and the program counter is behind the call.
pub proof fn law_call_return(m: Machine, nnn: u16)
    requires
        m.wf(),
        m.stack.len() < 16,
    ensures
        m.call(nnn).ret() == m.advance(),
        m.call(nnn).stack.len() == m.stack.len() + 1,
        m.call(nnn).stack.last() == m.pc,
{
    assert(m.call(nnn).ret().stack =~= m.stack);
}

/// Only the `8`, `E` and `F` families hold words that are no instruction,
/// and the fault names the word.
pub proof fn law_decode_faults(w: u16)
    ensures
        decode_spec(w) is Err <==> {
            ||| field_op(w) == 0x8 && 0x8 <= field_n(w) <= 0xD
            ||| field_op(w) == 0x8 && field_n(w) == 0xF
            ||| field_op(w) == 0xE && field_kk(w) != 0x9E && field_kk(w) != 0xA1
            ||| field_op(w) == 0xF && field_kk(w) != 0x07 && field_kk(w) != 0x0A && field_kk(w)
                != 0x15 && field_kk(w) != 0x18 && field_kk(w) != 0x1E && field_kk(w) != 0x29
                && field_kk(w) != 0x33 && field_kk(w) != 0x55 && field_kk(w) != 0x65
        },
        decode_spec(w) matches Err(fault) ==> fault == (Fault::DecodeFault { word: w }),
{
    lemma_field_bounds(w);
}

/// A fault changes nothing: the machine stays on the instruction that ran
/// into it, and running it again gives the same fault.
pub proof fn law_fault_changes_nothing(m: Machine, word: u16, random: u8)
    requires
        m.run_word(word, random).1 is Err,
    ensures
        m.run_word(word, random).0 == m,
        m.run_word(word, random).0.run_word(word, random) == m.run_word(word, random),
{
}

/// Waiting for a key: while no key-down edge is waiting, a step on `Fx0A`
/// counts the timers and changes nothing else, so the program counter stays
/// on the instruction. With an edge waiting, the step takes it: its key goes
/// to `Vx`, the program counter moves on, and the keys that are held stay
/// held.
pub proof fn law_wait_for_key(m: Machine, x: u8, now_us: u64, random: u8)
    requires
        m.wf(),
        x < 16,
        decode_spec(m.advance_timers(now_us).fetch()) == Ok::<Opcode, Fault>(Opcode::LdVxK { x }),
    ensures
        m.keypad.edge is None ==> m.step(now_us, random) == (
            m.advance_timers(now_us),
            Ok::<(), Fault>(()),
        ),
        m.keypad.edge is None ==> m.step(now_us, random).0.pc == m.pc,
        m.keypad.edge matches Some(k) ==> {
            &&& m.step(now_us, random).1 is Ok
            &&& m.step(now_us, random).0.v[x as int] == k
            &&& m.step(now_us, random).0.pc == next_pc(m.pc, 2)
            &&& m.step(now_us, random).0.keypad.held == m.keypad.held
            &&& m.step(now_us, random).0.keypad.edge is None
        },
{
}

/// `00E0` leaves every pixel off.
pub proof fn law_clear_screen(m: Machine, x: int, y: int)
    requires
        0 <= x < 64,
        0 <= y < 32,
    ensures
        !m.cls().pixel(x, y),
{
}

/// `6xkk` followed by `3xkk` skips; `6xkk` followed by `4xkk` does not.
pub proof fn law_load_then_skip(m: Machine, x: int, kk: u8)
    requires
        m.wf(),
        0 <= x < 16,
    ensures
        m.ld_byte(x, kk).se_byte(x, kk).pc == next_pc(m.ld_byte(x, kk).pc, 4),
        m.ld_byte(x, kk).sne_byte(x, kk).pc == next_pc(m.ld_byte(x, kk).pc, 2),
{
}

/// `LD V0, a; LD V1, b; ADD V0, V1` leaves `(a + b) mod 256` in `V0`, and
/// `VF` is 1 if `a + b > 255` and 0 if not.
pub proof fn law_add_carry(m: Machine, a: u8, b: u8)
    requires
        m.wf(),
    ensures
        m.ld_byte(0, a).ld_byte(1, b).add_reg(0, 1).v[0] == (a + b) % 256,
        m.ld_byte(0, a).ld_byte(1, b).add_reg(0, 1).v[15] == (if a + b > 255 {
            1int
        } else {
            0int
        }),
{
}

/// `ADD Vx, Vy` on any two registers: `VF` is the carry, and `Vx` the sum
/// modulo 256 unless `Vx` is `VF` itself, in which the flag stays.
pub proof fn law_add_any(m: Machine, x: int, y: int)
    requires
        m.wf(),
        0 <= x < 16,
        0 <= y < 16,
    ensures
        m.add_reg(x, y).v[15] == (if m.v[x] + m.v[y] > 255 {
            1int
        } else {
            0int
        }),
        x != 15 ==> m.add_reg(x, y).v[x] == (m.v[x] + m.v[y]) % 256,
        forall|k: int| 0 <= k < 15 && k != x ==> m.add_reg(x, y).v[k] == m.v[k],
{
}

/// `SUB Vx, Vy` with `a` in `Vx` and `b` in `Vy`: `VF` is 1 if `a >= b` and
/// 0 if not, and `Vx` is `(a - b) mod 256` unless `Vx` is `VF` itself, in
/// which the flag stays.
pub proof fn law_sub_borrow(m: Machine, x: int, y: int)
    requires
        m.wf(),
        0 <= x < 16,
        0 <= y < 16,
    ensures
        m.sub_reg(x, y).v[15] == (if m.v[x] >= m.v[y] {
            1int
        } else {
            0int
        }),
        x != 15 ==> m.sub_reg(x, y).v[x] == (m.v[x] - m.v[y]) % 256,
        forall|k: int| 0 <= k < 15 && k != x ==> m.sub_reg(x, y).v[k] == m.v[k],
{
}

/// `LD V0, a; LD V1, b; SUB V0, V1` leaves `(a - b) mod 256` in `V0`, and
/// `VF` is 1 if `a >= b` and 0 if not.
pub proof fn law_sub_loaded(m: Machine, a: u8, b: u8)
    requires
        m.wf(),
    ensures
        m.ld_byte(0, a).ld_byte(1, b).sub_reg(0, 1).v[0] == (a - b) % 256,
        m.ld_byte(0, a).ld_byte(1, b).sub_reg(0, 1).v[15] == (if a >= b {
            1int
        } else {
            0int
        }),
{
}

/// `SUBN Vx, Vy` with `a` in `Vx` and `b` in `Vy`: `VF` is 1 if `b >= a`
/// and 0 if not, and `Vx` is `(b - a) mod 256` unless `Vx` is `VF` itself.
pub proof fn law_subn_borrow(m: Machine, x: int, y: int)
    requires
        m.wf(),
        0 <= x < 16,
        0 <= y < 16,
    ensures
        m.subn_reg(x, y).v[15] == (if m.v[y] >= m.v[x] {
            1int
        } else {
            0int
        }),
        x != 15 ==> m.subn_reg(x, y).v[x] == (m.v[y] - m.v[x]) % 256,
{
}

/// `SHR Vx`: `VF` is the lowest bit of what `Vx` held, and `Vx` is that
/// value shifted right by one, which is half of it rounded down, unless `Vx`
/// is `VF` itself.
pub proof fn law_shift_right(m: Machine, x: int)
    requires
        m.wf(),
        0 <= x < 16,
    ensures
        m.shr(x).v[15] == m.v[x] & 1,
        m.shr(x).v[15] == m.v[x] % 2,
        x != 15 ==> m.shr(x).v[x] == m.v[x] >> 1,
        x != 15 ==> m.shr(x).v[x] == m.v[x] / 2,
{
    let vx = m.v[x];
    assert(vx & 1 == 0 || vx & 1 == 1) by (bit_vector);
    assert(vx & 1 == vx % 2) by (bit_vector);
    assert(vx >> 1 == vx / 2) by (bit_vector);
}

/// `SHL Vx`: `VF` is the highest bit of what `Vx` held, and `Vx` is that
/// value shifted left by one, which is twice it modulo 256, unless `Vx` is
/// `VF` itself.
pub proof fn law_shift_left(m: Machine, x: int)
    requires
        m.wf(),
        0 <= x < 16,
    ensures
        m.shl(x).v[15] == (m.v[x] >> 7) & 1,
        m.shl(x).v[15] == m.v[x] / 128,
        x != 15 ==> m.shl(x).v[x] == m.v[x] << 1,
        x != 15 ==> m.shl(x).v[x] == (2 * m.v[x]) % 256,
{
    let vx = m.v[x];
    assert((vx >> 7) & 1 == 0 || (vx >> 7) & 1 == 1) by (bit_vector);
    assert((vx >> 7) & 1 == vx / 128) by (bit_vector);
    assert(vx << 1 == (2 * vx) % 256) by (bit_vector);
}

/// `Fx33` leaves the hundreds, tens and ones of `Vx` at `I`, `I + 1` and
/// `I + 2`, each address taken modulo the size of RAM.
pub proof fn law_bcd(m: Machine, x: int)
    requires
        m.wf(),
        0 <= x < 16,
    ensures
        m.ld_b(x).ram[wrap_addr(m.i as int)] == m.v[x] / 100,
        m.ld_b(x).ram[wrap_addr(m.i + 1)] == (m.v[x] / 10) % 10,
        m.ld_b(x).ram[wrap_addr(m.i + 2)] == m.v[x] % 10,
        100 * (m.v[x] / 100) + 10 * ((m.v[x] / 10) % 10) + m.v[x] % 10 == m.v[x],
{
}

/// `Fx55` leaves `V0..=Vx` in RAM from `I` on, and touches no other byte.
pub proof fn law_store_registers(m: Machine, x: int, k: int)
    requires
        m.wf(),
        0 <= x < 16,
        0 <= k < 4096,
    ensures
        k <= x ==> m.store_regs(x).ram[wrap_addr(m.i + k)] == m.v[k],
        k > x ==> m.store_regs(x).ram[wrap_addr(m.i + k)] == m.ram[wrap_addr(m.i + k)],
{
    let a = wrap_addr(m.i + k);
    assert((a - m.i) % 4096 == k);
}

/// `Fx55` followed by `Fx65` with the same `x` and the same `I` restores
/// `V0..=Vx`, whatever happened to the registers in between: `stored` is
/// any state with the RAM and the `I` that the store left.
pub proof fn law_store_load_round_trip(m: Machine, stored: Machine, x: int)
    requires
        m.wf(),
        stored.wf(),
        0 <= x < 16,
        stored.ram == m.store_regs(x).ram,
        stored.i == m.i,
    ensures
        forall|k: int| 0 <= k <= x ==> stored.load_regs(x).v[k] == m.v[k],
        forall|k: int| x < k < 16 ==> stored.load_regs(x).v[k] == stored.v[k],
        m.store_regs(x).load_regs(x).v == m.v,
{
    assert forall|k: int| 0 <= k <= x implies stored.load_regs(x).v[k] == m.v[k] by {
        law_store_registers(m, x, k);
    }
    assert forall|k: int| 0 <= k < 16 implies m.store_regs(x).load_regs(x).v[k] == m.v[k] by {
        law_store_registers(m, x, k);
    }
}

/// Where the cells of a sprite fall: bit `c` of row `r` lands on column
/// `(left + c) mod 64` of row `(top + r) mod 32`, and a sprite of at most
/// fifteen rows puts no two cells on one pixel.
pub proof fn law_sprite_cell(m: Machine, left: u8, top: u8, rows: int, r: int, c: int)
    requires
        0 <= rows < 16,
        0 <= r < rows,
        0 <= c < 8,
    ensures
        m.sprite_covers(left, top, rows, (left + c) % 64, (top + r) % 32) == sprite_bit(
            m.sprite_row(r),
            c,
        ),
{
    let px = (left + c) % 64;
    let py = (top + r) % 32;
    assert((py - top) % 32 == r);
    assert((px - left) % 64 == c);
}

/// A pixel that no cell of the sprite falls on is not covered.
pub proof fn law_sprite_extent(m: Machine, left: u8, top: u8, rows: int, px: int, py: int)
    requires
        0 <= rows < 16,
        0 <= px < 64,
        0 <= py < 32,
        m.sprite_covers(left, top, rows, px, py),
    ensures
        exists|r: int, c: int|
            0 <= r < rows && 0 <= c < 8 && px == (left + c) % 64 && py == (top + r) % 32
                && sprite_bit(m.sprite_row(r), c),
{
    let r = (py - top) % 32;
    let c = (px - left) % 64;
    assert(px == (left + c) % 64);
    assert(py == (top + r) % 32);
}

/// `Dxyn` run twice at the same `(Vx, Vy)` leaves the screen as it was. The
/// second run sets `VF` to 1 if the sprite has a set bit on a pixel that was
/// off before the first run, and to 0 if not.
pub proof fn law_draw_twice(m: Machine, x: int, y: int, n: int)
    requires
        m.wf(),
        0 <= x < 16,
        0 <= y < 16,
        0 <= n < 16,
        m.drw(x, y, n).v[x] == m.v[x],
        m.drw(x, y, n).v[y] == m.v[y],
    ensures
        m.drw(x, y, n).drw(x, y, n).screen == m.screen,
        m.drw(x, y, n).drw(x, y, n).v[15] == 1 <==> exists|px: int, py: int|
            0 <= px < 64 && 0 <= py < 32 && !m.screen[py][px] && m.sprite_covers(
                m.v[x],
                m.v[y],
                n,
                px,
                py,
            ),
        m.drw(x, y, n).drw(x, y, n).v[15] == 0 || m.drw(x, y, n).drw(x, y, n).v[15] == 1,
{
    let left = m.v[x];
    let top = m.v[y];
    let once = m.drw(x, y, n);
    let twice = once.drw(x, y, n);
    assert forall|px: int, py: int| 0 <= px < 64 && 0 <= py < 32 implies once.sprite_covers(
        left,
        top,
        n,
        px,
        py,
    ) == m.sprite_covers(left, top, n, px, py) by {}
    assert(twice.screen =~~= m.screen);
    if once.sprite_collides(left, top, n) {
        let (px, py) = choose|px: int, py: int|
            0 <= px < 64 && 0 <= py < 32 && once.screen[py][px] && once.sprite_covers(
                left,
                top,
                n,
                px,
                py,
            );
        assert(!m.screen[py][px] && m.sprite_covers(left, top, n, px, py));
    }
    if exists|px: int, py: int|
        0 <= px < 64 && 0 <= py < 32 && !m.screen[py][px] && m.sprite_covers(left, top, n, px, py) {
        let (px, py) = choose|px: int, py: int|
            0 <= px < 64 && 0 <= py < 32 && !m.screen[py][px] && m.sprite_covers(
                left,
                top,
                n,
                px,
                py,
            );
        assert(once.screen[py][px] && once.sprite_covers(left, top, n, px, py));
    }
}

/// `Dxyn` run twice at the same `(Vx, Vy)`, unless the sprite has set bits
/// and every pixel under them was on before the first run: the second run
/// sets `VF` to 1 if the sprite has any set bit at all, and to 0 if not.
pub proof fn law_draw_twice_flag(m: Machine, x: int, y: int, n: int)
    requires
        m.wf(),
        0 <= x < 16,
        0 <= y < 16,
        0 <= n < 16,
        m.drw(x, y, n).v[x] == m.v[x],
        m.drw(x, y, n).v[y] == m.v[y],
        (exists|r: int, c: int| 0 <= r < n && 0 <= c < 8 && sprite_bit(m.sprite_row(r), c))
            ==> exists|px: int, py: int|
            0 <= px < 64 && 0 <= py < 32 && !m.screen[py][px] && m.sprite_covers(
                m.v[x],
                m.v[y],
                n,
                px,
                py,
            ),
    ensures
        m.drw(x, y, n).drw(x, y, n).screen == m.screen,
        m.drw(x, y, n).drw(x, y, n).v[15] == 1 <==> exists|r: int, c: int|
            0 <= r < n && 0 <= c < 8 && sprite_bit(m.sprite_row(r), c),
{
    let left = m.v[x];
    let top = m.v[y];
    law_draw_twice(m, x, y, n);
    if exists|px: int, py: int|
        0 <= px < 64 && 0 <= py < 32 && !m.screen[py][px] && m.sprite_covers(left, top, n, px, py) {
        let (px, py) = choose|px: int, py: int|
            0 <= px < 64 && 0 <= py < 32 && !m.screen[py][px] && m.sprite_covers(
                left,
                top,
                n,
                px,
                py,
            );
        law_sprite_extent(m, left, top, n, px, py);
    }
}

/// `Dxyn` onto pixels that are off, run twice at the same `(Vx, Vy)`: the
/// first run sets `VF` to 0, the second to 1 if the sprite has any set bit
/// at all and to 0 if not, and the screen is as it was.
pub proof fn law_draw_twice_on_blank(m: Machine, x: int, y: int, n: int)
    requires
        m.wf(),
        0 <= x < 15,
        0 <= y < 15,
        0 <= n < 16,
        forall|px: int, py: int|
            0 <= px < 64 && 0 <= py < 32 && m.sprite_covers(m.v[x], m.v[y], n, px, py)
                ==> !m.screen[py][px],
    ensures
        m.drw(x, y, n).v[15] == 0,
        m.drw(x, y, n).drw(x, y, n).screen == m.screen,
        m.drw(x, y, n).drw(x, y, n).v[15] == 1 <==> exists|r: int, c: int|
            0 <= r < n && 0 <= c < 8 && sprite_bit(m.sprite_row(r), c),
{
    let left = m.v[x];
    let top = m.v[y];
    if exists|r: int, c: int| 0 <= r < n && 0 <= c < 8 && sprite_bit(m.sprite_row(r), c) {
        let (r, c) = choose|r: int, c: int|
            0 <= r < n && 0 <= c < 8 && sprite_bit(m.sprite_row(r), c);
        law_sprite_cell(m, left, top, n, r, c);
        let px = (left + c) % 64;
        let py = (top + r) % 32;
        assert(0 <= px < 64 && 0 <= py < 32 && !m.screen[py][px] && m.sprite_covers(
            left,
            top,
            n,
            px,
            py,
        ));
    }
    law_draw_twice_flag(m, x, y, n);
}

/// `Fx29` with hex digit `d` in `Vx` leaves `5 * d` in `I`, and while the
/// font is in RAM the five bytes from there on are the glyph of `d`.
pub proof fn law_font_address(m: Machine, x: int, j: int)
    requires
        m.wf(),
        0 <= x < 16,
        m.v[x] < 16,
        0 <= j < 5,
    ensures
        m.ld_f(x).i == 5 * m.v[x],
        has_font(m.ram) ==> m.ld_f(x).ram[m.ld_f(x).i + j] == glyph_row(m.v[x] as int, j),
{
    let d = m.v[x] as int;
    if has_font(m.ram) {
        assert(m.ram[5 * d + j] == font_byte(5 * d + j));
    }
}

/// The font is in RAM when the machine is built, and loading a program
/// leaves it there.
pub proof fn law_font_installed(m: Machine, program: Seq<u8>)
    requires
        program.len() <= 3584,
    ensures
        has_font(Machine::fresh().ram),
        has_font(m.ram) ==> has_font(m.load(program).ram),
{
}

/// The timers count whole 60 Hz ticks and stop at zero: a machine whose
/// timers were brought up to date at `t`, and in which no instruction has
/// set them since, shows at `t2 >= t` each timer lowered by the ticks that
/// fell due between the two, but not below zero.
pub proof fn law_timer_countdown(m: Machine, t: u64, t2: u64)
    requires
        t <= t2,
        m.ticks == ticks_due(t),
    ensures
        ticks_due(t) <= ticks_due(t2),
        m.advance_timers(t2).dt == count_down(m.dt, ticks_due(t2) - ticks_due(t)),
        m.advance_timers(t2).st == count_down(m.st, ticks_due(t2) - ticks_due(t)),
        m.advance_timers(t2).dt as int == (if m.dt - (ticks_due(t2) - ticks_due(t)) > 0 {
            m.dt - (ticks_due(t2) - ticks_due(t))
        } else {
            0
        }),
        m.advance_timers(t2).ticks == ticks_due(t2),
{
}

/// From the start, a timer that stands at `k` and that no instruction sets
/// shows `max(0, k - floor(t * 60 / 1000000))` when it is brought up to
/// date `t` microseconds later.
pub proof fn law_timer_from_start(m: Machine, t: u64)
    requires
        m.ticks == 0,
    ensures
        m.advance_timers(t).dt as int == (if m.dt - (t * 60) / 1_000_000 > 0 {
            m.dt - (t * 60) / 1_000_000
        } else {
            0
        }),
{
}

/// Bringing the timers up to date in two goes gives what one go gives, and
/// a timer never rises by it.
pub proof fn law_timer_monotone(m: Machine, t: u64, t2: u64)
    requires
        t <= t2,
    ensures
        m.advance_timers(t).advance_timers(t2) == m.advance_timers(t2),
        m.advance_timers(t2).dt <= m.advance_timers(t).dt <= m.dt,
        m.advance_timers(t2).st <= m.advance_timers(t).st <= m.st,
{
}

} // verus!
