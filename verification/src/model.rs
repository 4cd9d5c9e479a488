//! The machine as contracts see it: a plain mathematical state, and one
//! function on it for each instruction.
use crate::font::font_byte;
use crate::keypad::{HostEvent, KeypadModel, Polled};
use crate::opcode::{decode_spec, Fault, Opcode};
use vstd::prelude::*;

verus! {

/// Where programs are loaded and start.
pub const PROGRAM_BASE: u16 = 0x200;

/// The longest program image that fits behind the program base.
pub const MAX_PROGRAM_LEN: usize = 3584;

/// How one turn of the host's loop ended.
#[derive(Clone, Copy, Debug, PartialEq, Eq)]
pub enum Progress {
    /// The host asked to quit; no instruction ran.
    Quit,
    /// An instruction ran. `tone` is what the host is asked to do about its
    /// tone: `Some(true)` to start it, `Some(false)` to stop it, `None` to
    /// leave it as it is.
    Running { tone: Option<bool> },
    /// The instruction at the program counter ran into `fault`. The machine
    /// stays on it until a program is loaded. The timers were counted all
    /// the same, and `tone` is as in `Running`.
    Halted { fault: Fault, tone: Option<bool> },
}

/// The state of the machine.
#[verifier::ext_equal]
pub struct Machine {
    /// RAM, 4096 bytes.
    pub ram: Seq<u8>,
    /// The screen, 32 rows of 64 pixels: `screen[y][x]`.
    pub screen: Seq<Seq<bool>>,
    /// The call stack, innermost return address last.
    pub stack: Seq<u16>,
    /// The registers `V0..=VF`.
    pub v: Seq<u8>,
    /// The program counter.
    pub pc: u16,
    /// The stack pointer: the depth of the call stack.
    pub sp: u8,
    /// The address register `I`.
    pub i: u16,
    /// The delay timer `DT`.
    pub dt: u8,
    /// The sound timer `ST`.
    pub st: u8,
    /// The keypad.
    pub keypad: KeypadModel,
    /// The timer ticks that the two timers have counted so far.
    pub ticks: u64,
}

/// An address taken modulo the size of RAM.
pub open spec fn wrap_addr(a: int) -> int {
    a % 4096
}

/// The program counter `by` bytes on, taken modulo the size of RAM.
pub open spec fn next_pc(pc: u16, by: int) -> u16 {
    wrap_addr(pc + by) as u16
}

/// A screen with every pixel off.
pub open spec fn blank_screen() -> Seq<Seq<bool>> {
    Seq::new(32, |y: int| Seq::new(64, |x: int| false))
}

/// Bit `c` of a sprite row, counted from the left: column 0 is bit 7.
pub open spec fn sprite_bit(row: u8, c: int) -> bool {
    (row >> ((7 - c) as u8)) & 1 == 1
}

/// The timer ticks that have fallen due `now_us` microseconds after the
/// machine was started: sixty to the second.
pub open spec fn ticks_due(now_us: u64) -> int {
    now_us * 60 / 1_000_000
}

/// A timer that stood at `t`, `n` ticks later.
pub open spec fn count_down(t: u8, n: int) -> u8 {
    if n >= t {
        0u8
    } else if n <= 0 {
        t
    } else {
        (t - n) as u8
    }
}

/// What the host is asked to do about its tone when the sound timer was
/// above zero or not before (`was_on`) and is above zero or not now
/// (`is_on`): to start it, to stop it, or nothing.
pub open spec fn tone_request(was_on: bool, is_on: bool) -> Option<bool> {
    if was_on == is_on {
        None
    } else {
        Some(is_on)
    }
}

impl Machine {
    /// The machine as it is built: the font at the bottom of RAM and zeroes
    /// above it, the program counter at the program base, everything else
    /// zero, empty or off.
    pub open spec fn fresh() -> Machine {
        Machine {
            ram: Seq::new(
                4096,
                |a: int|
                    if a < 80 {
                        font_byte(a)
                    } else {
                        0u8
                    },
            ),
            screen: blank_screen(),
            stack: Seq::empty(),
            v: Seq::new(16, |k: int| 0u8),
            pc: 0x200,
            sp: 0,
            i: 0,
            dt: 0,
            st: 0,
            keypad: KeypadModel::idle(),
            ticks: 0,
        }
    }

    /// The invariant of the machine: the sizes of its parts, the program
    /// counter within RAM, and the stack pointer equal to the depth of a call
    /// stack of at most sixteen entries.
    pub open spec fn wf(self) -> bool {
        &&& self.ram.len() == 4096
        &&& self.screen.len() == 32
        &&& forall|y: int| 0 <= y < 32 ==> (#[trigger] self.screen[y]).len() == 64
        &&& self.v.len() == 16
        &&& self.stack.len() <= 16
        &&& self.sp == self.stack.len()
        &&& self.pc < 4096
        &&& self.keypad.wf()
    }

    /// The pixel in column `x` of row `y`.
    pub open spec fn pixel(self, x: int, y: int) -> bool {
        self.screen[y][x]
    }

    /// Whether the host should sound its tone.
    pub open spec fn audio_on(self) -> bool {
        self.st > 0
    }

    /// The program counter moved past one instruction.
    pub open spec fn advance(self) -> Machine {
        Machine { pc: next_pc(self.pc, 2), ..self }
    }

    /// The program counter moved past one instruction, and past the next one
    /// too if `cond` holds.
    pub open spec fn skip_if(self, cond: bool) -> Machine {
        Machine { pc: next_pc(self.pc, if cond { 4 } else { 2 }), ..self }
    }

    /// Register `x` set to `value`.
    pub open spec fn with_v(self, x: int, value: u8) -> Machine {
        Machine { v: self.v.update(x, value), ..self }
    }

    /// `VF` set to 1 if `flag` holds and to 0 if not.
    pub open spec fn with_flag(self, flag: bool) -> Machine {
        self.with_v(15, if flag { 1u8 } else { 0u8 })
    }

    /// `0nnn`.
    pub open spec fn sys(self) -> Machine {
        self.advance()
    }

    /// `00E0`.
    pub open spec fn cls(self) -> Machine {
        Machine { screen: blank_screen(), ..self }.advance()
    }

    /// `00EE`, on a call stack that is not empty: the program counter goes to
    /// the instruction behind the call that the innermost entry names.
    pub open spec fn ret(self) -> Machine {
        Machine {
            pc: next_pc(self.stack.last(), 2),
            stack: self.stack.drop_last(),
            sp: (self.sp - 1) as u8,
            ..self
        }
    }

    /// `1nnn`.
    pub open spec fn jp(self, nnn: u16) -> Machine {
        Machine { pc: next_pc(nnn, 0), ..self }
    }

    /// `2nnn`, on a call stack that is not full: the address of the call
    /// itself is pushed.
    pub open spec fn call(self, nnn: u16) -> Machine {
        Machine {
            pc: next_pc(nnn, 0),
            stack: self.stack.push(self.pc),
            sp: (self.sp + 1) as u8,
            ..self
        }
    }

    /// `3xkk`.
    pub open spec fn se_byte(self, x: int, kk: u8) -> Machine {
        self.skip_if(self.v[x] == kk)
    }

    /// `4xkk`.
    pub open spec fn sne_byte(self, x: int, kk: u8) -> Machine {
        self.skip_if(self.v[x] != kk)
    }

    /// `5xy_`.
    pub open spec fn se_reg(self, x: int, y: int) -> Machine {
        self.skip_if(self.v[x] == self.v[y])
    }

    /// `9xy_`.
    pub open spec fn sne_reg(self, x: int, y: int) -> Machine {
        self.skip_if(self.v[x] != self.v[y])
    }

    /// `6xkk`.
    pub open spec fn ld_byte(self, x: int, kk: u8) -> Machine {
        self.with_v(x, kk).advance()
    }

    /// `7xkk`.
    pub open spec fn add_byte(self, x: int, kk: u8) -> Machine {
        self.with_v(x, ((self.v[x] + kk) % 256) as u8).advance()
    }

    /// `8xy0`.
    pub open spec fn ld_reg(self, x: int, y: int) -> Machine {
        self.with_v(x, self.v[y]).advance()
    }

    /// `8xy1`.
    pub open spec fn or_reg(self, x: int, y: int) -> Machine {
        self.with_v(x, self.v[x] | self.v[y]).advance()
    }

    /// `8xy2`.
    pub open spec fn and_reg(self, x: int, y: int) -> Machine {
        self.with_v(x, self.v[x] & self.v[y]).advance()
    }

    /// `8xy3`.
    pub open spec fn xor_reg(self, x: int, y: int) -> Machine {
        self.with_v(x, self.v[x] ^ self.v[y]).advance()
    }

    /// `8xy4`. The flag is written last, so with `x == 0xF` it is the flag
    /// that stays in `VF`; so too in the four instructions that follow.
    pub open spec fn add_reg(self, x: int, y: int) -> Machine {
        let sum = self.v[x] + self.v[y];
        self.with_v(x, (sum % 256) as u8).with_flag(sum > 255).advance()
    }

    /// `8xy5`.
    pub open spec fn sub_reg(self, x: int, y: int) -> Machine {
        let vx = self.v[x];
        let vy = self.v[y];
        self.with_v(x, ((vx - vy) % 256) as u8).with_flag(vx >= vy).advance()
    }

    /// `8xy6`. `Vy` plays no part.
    pub open spec fn shr(self, x: int) -> Machine {
        let vx = self.v[x];
        self.with_v(x, vx >> 1).with_flag(vx & 1 == 1).advance()
    }

    /// `8xy7`.
    pub open spec fn subn_reg(self, x: int, y: int) -> Machine {
        let vx = self.v[x];
        let vy = self.v[y];
        self.with_v(x, ((vy - vx) % 256) as u8).with_flag(vy >= vx).advance()
    }

    /// `8xyE`. `Vy` plays no part.
    pub open spec fn shl(self, x: int) -> Machine {
        let vx = self.v[x];
        self.with_v(x, vx << 1).with_flag((vx >> 7) & 1 == 1).advance()
    }

    /// `Annn`.
    pub open spec fn ld_i(self, nnn: u16) -> Machine {
        Machine { i: nnn, ..self }.advance()
    }

    /// `Bnnn`.
    pub open spec fn jp_v0(self, nnn: u16) -> Machine {
        Machine { pc: next_pc(nnn, self.v[0] as int), ..self }
    }

    /// `Cxkk`, with `random` the byte that the random source gave.
    pub open spec fn rnd(self, x: int, kk: u8, random: u8) -> Machine {
        self.with_v(x, random & kk).advance()
    }

    /// Row `r` of the sprite at `I`.
    pub open spec fn sprite_row(self, r: int) -> u8 {
        self.ram[wrap_addr(self.i + r)]
    }

    /// Whether the `rows`-row sprite at `I`, put with its top left corner at
    /// `(left, top)` and wrapped round the edges of the screen, has a set bit
    /// on the pixel in column `px` of row `py`.
    pub open spec fn sprite_covers(self, left: u8, top: u8, rows: int, px: int, py: int) -> bool {
        let r = (py - top) % 32;
        let c = (px - left) % 64;
        r < rows && c < 8 && sprite_bit(self.sprite_row(r), c)
    }

    /// Whether that sprite has a set bit on a pixel that is on.
    pub open spec fn sprite_collides(self, left: u8, top: u8, rows: int) -> bool {
        exists|px: int, py: int|
            0 <= px < 64 && 0 <= py < 32 && self.screen[py][px] && self.sprite_covers(
                left,
                top,
                rows,
                px,
                py,
            )
    }

    /// The screen with that sprite drawn onto it by exclusive or.
    pub open spec fn screen_with_sprite(self, left: u8, top: u8, rows: int) -> Seq<Seq<bool>> {
        Seq::new(
            32,
            |py: int|
                Seq::new(
                    64,
                    |px: int| self.screen[py][px] ^ self.sprite_covers(left, top, rows, px, py),
                ),
        )
    }

    /// `Dxyn`. `I` and RAM stay as they are; `VF` is written once, after the
    /// pixels.
    pub open spec fn drw(self, x: int, y: int, n: int) -> Machine {
        let left = self.v[x];
        let top = self.v[y];
        Machine { screen: self.screen_with_sprite(left, top, n), ..self }.with_flag(
            self.sprite_collides(left, top, n),
        ).advance()
    }

    /// The hex key that register `x` names: its low nibble.
    pub open spec fn key_of(self, x: int) -> u8 {
        (self.v[x] % 16) as u8
    }

    /// `Ex9E`.
    pub open spec fn skp(self, x: int) -> Machine {
        self.skip_if(self.keypad.held.contains(self.key_of(x)))
    }

    /// `ExA1`.
    pub open spec fn sknp(self, x: int) -> Machine {
        self.skip_if(!self.keypad.held.contains(self.key_of(x)))
    }

    /// `Fx07`.
    pub open spec fn ld_vx_dt(self, x: int) -> Machine {
        self.with_v(x, self.dt).advance()
    }

    /// `Fx0A`. With a key-down edge waiting, the edge is taken, its key goes
    /// to `Vx` and the program counter moves on; with none, nothing changes,
    /// so that the instruction runs again at the next step.
    pub open spec fn ld_vx_k(self, x: int) -> Machine {
        match self.keypad.edge {
            Some(k) => Machine { keypad: self.keypad.consume_edge(), ..self }.with_v(
                x,
                k,
            ).advance(),
            None => self,
        }
    }

    /// `Fx15`.
    pub open spec fn ld_dt_vx(self, x: int) -> Machine {
        Machine { dt: self.v[x], ..self }.advance()
    }

    /// `Fx18`.
    pub open spec fn ld_st_vx(self, x: int) -> Machine {
        Machine { st: self.v[x], ..self }.advance()
    }

    /// `Fx1E`: sixteen-bit wrapping sum, no flag.
    pub open spec fn add_i(self, x: int) -> Machine {
        Machine { i: ((self.i + self.v[x]) % 65536) as u16, ..self }.advance()
    }

    /// `Fx29`: glyphs are five bytes each and start at address 0.
    pub open spec fn ld_f(self, x: int) -> Machine {
        Machine { i: (5 * (self.v[x] % 16)) as u16, ..self }.advance()
    }

    /// `Fx33`.
    pub open spec fn ld_b(self, x: int) -> Machine {
        let vx = self.v[x];
        Machine {
            ram: self.ram.update(wrap_addr(self.i as int), vx / 100).update(
                wrap_addr(self.i + 1),
                (vx / 10) % 10,
            ).update(wrap_addr(self.i + 2), vx % 10),
            ..self
        }.advance()
    }

    /// `Fx55`. `I` stays as it is.
    pub open spec fn store_regs(self, x: int) -> Machine {
        Machine {
            ram: Seq::new(
                4096,
                |a: int|
                    {
                        let k = (a - self.i) % 4096;
                        if k <= x {
                            self.v[k]
                        } else {
                            self.ram[a]
                        }
                    },
            ),
            ..self
        }.advance()
    }

    /// `Fx65`. `I` stays as it is.
    pub open spec fn load_regs(self, x: int) -> Machine {
        Machine {
            v: Seq::new(
                16,
                |k: int|
                    if k <= x {
                        self.ram[wrap_addr(self.i + k)]
                    } else {
                        self.v[k]
                    },
            ),
            ..self
        }.advance()
    }

    /// The fault that instruction `op` runs into in this state, if any.
    pub open spec fn fault_of(self, op: Opcode) -> Option<Fault> {
        match op {
            Opcode::Ret => if self.stack.len() == 0 {
                Some(Fault::StackUnderflow)
            } else {
                None
            },
            Opcode::Call { .. } => if self.stack.len() >= 16 {
                Some(Fault::StackOverflow)
            } else {
                None
            },
            _ => None,
        }
    }

    /// The state after instruction `op`, where it runs into no fault.
    /// `random` is the byte that the random source gave; only `Cxkk` reads it.
    pub open spec fn apply(self, op: Opcode, random: u8) -> Machine {
        match op {
            Opcode::Sys => self.sys(),
            Opcode::Cls => self.cls(),
            Opcode::Ret => self.ret(),
            Opcode::Jp { nnn } => self.jp(nnn),
            Opcode::Call { nnn } => self.call(nnn),
            Opcode::SeByte { x, kk } => self.se_byte(x as int, kk),
            Opcode::SneByte { x, kk } => self.sne_byte(x as int, kk),
            Opcode::SeReg { x, y } => self.se_reg(x as int, y as int),
            Opcode::LdByte { x, kk } => self.ld_byte(x as int, kk),
            Opcode::AddByte { x, kk } => self.add_byte(x as int, kk),
            Opcode::LdReg { x, y } => self.ld_reg(x as int, y as int),
            Opcode::Or { x, y } => self.or_reg(x as int, y as int),
            Opcode::And { x, y } => self.and_reg(x as int, y as int),
            Opcode::Xor { x, y } => self.xor_reg(x as int, y as int),
            Opcode::AddReg { x, y } => self.add_reg(x as int, y as int),
            Opcode::Sub { x, y } => self.sub_reg(x as int, y as int),
            Opcode::Shr { x, .. } => self.shr(x as int),
            Opcode::Subn { x, y } => self.subn_reg(x as int, y as int),
            Opcode::Shl { x, .. } => self.shl(x as int),
            Opcode::SneReg { x, y } => self.sne_reg(x as int, y as int),
            Opcode::LdI { nnn } => self.ld_i(nnn),
            Opcode::JpV0 { nnn } => self.jp_v0(nnn),
            Opcode::Rnd { x, kk } => self.rnd(x as int, kk, random),
            Opcode::Drw { x, y, n } => self.drw(x as int, y as int, n as int),
            Opcode::Skp { x } => self.skp(x as int),
            Opcode::Sknp { x } => self.sknp(x as int),
            Opcode::LdVxDt { x } => self.ld_vx_dt(x as int),
            Opcode::LdVxK { x } => self.ld_vx_k(x as int),
            Opcode::LdDtVx { x } => self.ld_dt_vx(x as int),
            Opcode::LdStVx { x } => self.ld_st_vx(x as int),
            Opcode::AddI { x } => self.add_i(x as int),
            Opcode::LdF { x } => self.ld_f(x as int),
            Opcode::LdB { x } => self.ld_b(x as int),
            Opcode::StoreRegs { x } => self.store_regs(x as int),
            Opcode::LoadRegs { x } => self.load_regs(x as int),
        }
    }

    /// Instruction `op` run: the fault and the state as it was, or the state
    /// after the instruction.
    pub open spec fn run_op(self, op: Opcode, random: u8) -> (Machine, Result<(), Fault>) {
        match self.fault_of(op) {
            Some(fault) => (self, Err(fault)),
            None => (self.apply(op, random), Ok(())),
        }
    }

    /// The instruction word `word` decoded and run.
    pub open spec fn run_word(self, word: u16, random: u8) -> (Machine, Result<(), Fault>) {
        match decode_spec(word) {
            Ok(op) => self.run_op(op, random),
            Err(fault) => (self, Err(fault)),
        }
    }

    /// The instruction word at the program counter, high byte first.
    pub open spec fn fetch(self) -> u16 {
        ((self.ram[self.pc as int] as u16) << 8) | (self.ram[wrap_addr(self.pc + 1)] as u16)
    }

    /// The two timers counted down by the ticks that have fallen due at
    /// `now_us` and were not counted yet. A clock that runs backwards counts
    /// nothing.
    pub open spec fn advance_timers(self, now_us: u64) -> Machine {
        let due = ticks_due(now_us);
        if due <= self.ticks {
            self
        } else {
            Machine {
                dt: count_down(self.dt, due - self.ticks),
                st: count_down(self.st, due - self.ticks),
                ticks: due as u64,
                ..self
            }
        }
    }

    /// One step of the interpreter at time `now_us`: the timers first, then
    /// the instruction at the program counter.
    pub open spec fn step(self, now_us: u64, random: u8) -> (Machine, Result<(), Fault>) {
        let ticked = self.advance_timers(now_us);
        ticked.run_word(ticked.fetch(), random)
    }

    /// One turn of the host's loop: the batch of host events goes to the
    /// keypad, and unless it held a quit request the interpreter makes one
    /// step at time `now_us`. The host's tone follows the sound timer: a
    /// turn that takes the timer from zero or to zero asks for the tone to
    /// start or to stop.
    pub open spec fn frame(self, events: Seq<HostEvent>, now_us: u64, random: u8) -> (
        Machine,
        Progress,
    ) {
        let (keypad, polled) = self.keypad.poll(None, events);
        let polled_machine = Machine { keypad, ..self };
        if polled == Polled::Quit {
            (polled_machine, Progress::Quit)
        } else {
            let (stepped, done) = polled_machine.step(now_us, random);
            let tone = tone_request(self.audio_on(), stepped.audio_on());
            (
                stepped,
                match done {
                    Ok(_) => Progress::Running { tone },
                    Err(fault) => Progress::Halted { fault, tone },
                },
            )
        }
    }

    /// A program image of at most 3584 bytes loaded: the image behind the
    /// program base, registers, stack, timers and screen reset, and the rest
    /// of RAM, the keypad and the tick count as they were.
    pub open spec fn load(self, program: Seq<u8>) -> Machine {
        Machine {
            ram: Seq::new(
                4096,
                |a: int|
                    if 0x200 <= a < 0x200 + program.len() {
                        program[a - 0x200]
                    } else {
                        self.ram[a]
                    },
            ),
            screen: blank_screen(),
            stack: Seq::empty(),
            v: Seq::new(16, |k: int| 0u8),
            pc: 0x200,
            sp: 0,
            i: 0,
            dt: 0,
            st: 0,
            ..self
        }
    }
}

} // verus!
