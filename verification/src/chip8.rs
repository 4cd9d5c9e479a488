//! The machine in its executable form: its state, how it is built and
//! loaded, and how a host looks into it.
use crate::font::SPRITES;
use crate::keypad::Keypad;
use crate::model::{blank_screen, next_pc, wrap_addr, Machine, MAX_PROGRAM_LEN, PROGRAM_BASE};
use crate::opcode::Fault;
use vstd::prelude::*;

pub mod cycle;
pub mod display;
pub mod instructions;

verus! {

/// A CHIP-8 machine.
pub struct ChipEight {
    // 4 KiB of RAM. Programs start at 0x200; the font lives below that.
    memory: [u8; 4096],
    // The 64x32 monochrome screen, row by row.
    screen: [[bool; 64]; 32],
    // Return addresses of the subroutines that are running, sixteen at most.
    stack: Vec<u16>,
    // The general-purpose registers V0 - VF. VF doubles as the flag register.
    v_registers: [u8; 16],
    // The address of the instruction that runs next.
    pc: u16,
    // The depth of the call stack.
    sp: u8,
    // The address register. Only its low twelve bits reach RAM.
    i_register: u16,
    // Counts down at 60 Hz while above zero.
    delay_timer: u8,
    // Counts down at 60 Hz while above zero; the tone sounds while it does.
    sound_timer: u8,
    // The keys that are held and the key-down edge that is waiting.
    keypad: Keypad,
    // The 60 Hz ticks that the timers have counted so far.
    timer_ticks: u64,
}

impl View for ChipEight {
    type V = Machine;

    closed spec fn view(&self) -> Machine {
        Machine {
            ram: self.memory@,
            screen: Seq::new(32, |y: int| self.screen@[y]@),
            stack: self.stack@,
            v: self.v_registers@,
            pc: self.pc,
            sp: self.sp,
            i: self.i_register,
            dt: self.delay_timer,
            st: self.sound_timer,
            keypad: self.keypad@,
            ticks: self.timer_ticks,
        }
    }
}

/// An address reduced to its low twelve bits.
pub(crate) fn mask_addr(a: usize) -> (masked: usize)
    ensures
        masked == wrap_addr(a as int),
        masked < 4096,
{
    assert(a & 0xFFF == a % 4096) by (bit_vector);
    a & 0xFFF
}

/// A program counter reduced to its low twelve bits.
pub(crate) fn mask_pc(a: u16) -> (masked: u16)
    ensures
        masked == next_pc(a, 0),
        masked < 4096,
{
    assert(a & 0xFFF == a % 4096) by (bit_vector);
    a & 0xFFF
}

/// The low nibble of a byte.
pub(crate) fn low_nibble(b: u8) -> (nibble: u8)
    ensures
        nibble == b % 16,
        nibble < 16,
{
    assert(b & 0xF == b % 16) by (bit_vector);
    b & 0xF
}

impl ChipEight {
    /// The invariant of the machine, see [`Machine::wf`].
    pub open spec fn wf(&self) -> bool {
        self@.wf()
    }

    /// A machine with the font installed, the program counter at the program
    /// base and everything else zero.
    pub fn new() -> (chip: ChipEight)
        ensures
            chip@ == Machine::fresh(),
            chip.wf(),
    {
        let chip = ChipEight {
            memory: Self::init_memory(SPRITES),
            screen: [[false; 64]; 32],
            stack: Vec::<u16>::with_capacity(16),
            v_registers: [0; 16],
            pc: 0x200,
            sp: 0,
            i_register: 0,
            delay_timer: 0,
            sound_timer: 0,
            keypad: Keypad::new(),
            timer_ticks: 0,
        };
        proof {
            assert(chip@.screen =~~= Machine::fresh().screen);
        }
        chip
    }

    /// RAM as it is at the start: glyph `d` of `sprites` in the five bytes
    /// from `5 * d` on, zeroes behind the glyphs.
    pub fn init_memory(sprites: [[u8; 5]; 16]) -> (memory: [u8; 4096])
        ensures
            forall|d: int, j: int|
                0 <= d < 16 && 0 <= j < 5 ==> memory@[5 * d + j] == #[trigger] sprites@[d]@[j],
            forall|a: int| 80 <= a < 4096 ==> memory@[a] == 0,
    {
        let mut memory: [u8; 4096] = [0; 4096];
        let mut i: usize = 0;
        while i < 16
            invariant
                i <= 16,
                forall|d: int, j: int|
                    0 <= d < i && 0 <= j < 5 ==> memory@[5 * d + j] == #[trigger] sprites@[d]@[j],
                forall|a: int| 5 * i <= a < 4096 ==> memory@[a] == 0,
            decreases 16 - i,
        {
            let mut j: usize = 0;
            while j < 5
                invariant
                    i < 16,
                    j <= 5,
                    forall|d: int, k: int|
                        0 <= d < i && 0 <= k < 5 ==> memory@[5 * d + k] == #[trigger] sprites@[d]@[k],
                    forall|k: int| 0 <= k < j ==> memory@[5 * i + k] == sprites@[i as int]@[k],
                    forall|a: int| 5 * i + j <= a < 4096 ==> memory@[a] == 0,
                decreases 5 - j,
            {
                let current_sprite: usize = i * 5;
                memory[current_sprite + j] = sprites[i][j];
                j += 1;
            }
            i += 1;
        }
        memory
    }

    /// Loads a program image behind the program base and makes the machine
    /// ready to run it: the program counter at the program base, registers,
    /// call stack, timers and screen reset. The rest of RAM, and with it the
    /// font, stays. An image of more than 3584 bytes does not fit: that is a
    /// load error, and nothing changes.
    pub fn load_program(&mut self, program: Vec<u8>) -> (done: Result<(), Fault>)
        requires
            old(self).wf(),
        ensures
            program@.len() > 3584 ==> done == Err::<(), Fault>(Fault::LoadError) && final(self)@
                == old(self)@,
            program@.len() <= 3584 ==> done == Ok::<(), Fault>(()) && final(self)@ == old(
                self,
            )@.load(program@),
            final(self).wf(),
    {
        if program.len() > MAX_PROGRAM_LEN {
            return Err(Fault::LoadError);
        }
        let ghost before = self@;
        let mut mem_idx: usize = 0x200;
        let mut at: usize = 0;
        while at < program.len()
            invariant
                at <= program.len() <= 3584,
                mem_idx == 0x200 + at,
                before.wf(),
                self@ == (Machine { ram: self@.ram, ..before }),
                self@.ram.len() == 4096,
                forall|a: int|
                    0 <= a < 4096 ==> #[trigger] self@.ram[a] == if 0x200 <= a < 0x200 + at {
                        program@[a - 0x200]
                    } else {
                        before.ram[a]
                    },
            decreases program.len() - at,
        {
            let byte: u8 = program[at];

            self.memory[mem_idx] = byte;
            mem_idx += 1;
            at += 1;
        }
        self.screen = [[false; 64]; 32];
        self.stack.clear();
        self.v_registers = [0; 16];
        self.pc = PROGRAM_BASE;
        self.sp = 0;
        self.i_register = 0;
        self.delay_timer = 0;
        self.sound_timer = 0;
        proof {
            assert(self@.screen =~~= before.load(program@).screen);
        }
        Ok(())
    }

    /// The program counter `by` bytes on, kept within RAM.
    pub(crate) fn pc_after(pc: u16, by: u16) -> (next: u16)
        requires
            pc < 4096,
            by <= 4,
        ensures
            next == next_pc(pc, by as int),
            next < 4096,
    {
        let sum: u16 = pc + by;
        assert(sum & 0xFFF == sum % 4096) by (bit_vector);
        sum & 0xFFF
    }

    /// Records that hex key `key` went down. Values above `0xF` are ignored.
    pub fn key_down(&mut self, key: u8)
        requires
            old(self).wf(),
        ensures
            final(self)@ == (Machine { keypad: old(self)@.keypad.key_down(key), ..old(self)@ }),
            final(self).wf(),
    {
        self.keypad.key_down(key);
    }

    /// Records that hex key `key` went up.
    pub fn key_up(&mut self, key: u8)
        requires
            old(self).wf(),
        ensures
            final(self)@ == (Machine { keypad: old(self)@.keypad.key_up(key), ..old(self)@ }),
            final(self).wf(),
    {
        self.keypad.key_up(key);
    }

    /// The program counter.
    pub fn pc(&self) -> (pc: u16)
        ensures
            pc == self@.pc,
    {
        self.pc
    }

    /// The stack pointer: the depth of the call stack.
    pub fn sp(&self) -> (sp: u8)
        ensures
            sp == self@.sp,
    {
        self.sp
    }

    /// The depth of the call stack.
    pub fn stack_depth(&self) -> (depth: usize)
        ensures
            depth == self@.stack.len(),
    {
        self.stack.len()
    }

    /// The address register `I`.
    pub fn i_register(&self) -> (i: u16)
        ensures
            i == self@.i,
    {
        self.i_register
    }

    /// Register `Vx`.
    pub fn v_register(&self, x: usize) -> (value: u8)
        requires
            x < 16,
        ensures
            value == self@.v[x as int],
    {
        self.v_registers[x]
    }

    /// The delay timer.
    pub fn delay_timer(&self) -> (dt: u8)
        ensures
            dt == self@.dt,
    {
        self.delay_timer
    }

    /// The sound timer.
    pub fn sound_timer(&self) -> (st: u8)
        ensures
            st == self@.st,
    {
        self.sound_timer
    }

    /// Whether the host should sound its tone: the sound timer is above zero.
    pub fn audio_on(&self) -> (on: bool)
        ensures
            on == self@.audio_on(),
            on == (self@.st > 0),
    {
        self.sound_timer > 0
    }

    /// The byte of RAM at `address`, of which the low twelve bits count.
    pub fn read_memory(&self, address: u16) -> (byte: u8)
        ensures
            byte == self@.ram[wrap_addr(address as int)],
    {
        self.memory[mask_addr(address as usize)]
    }

    /// Whether hex key `key` is held. Values above `0xF` are never held.
    pub fn is_key_held(&self, key: u8) -> (held: bool)
        ensures
            held == self@.keypad.held.contains(key),
    {
        self.keypad.is_held(key)
    }

    /// The key-down edge that is waiting for a wait-for-key instruction.
    pub fn key_edge(&self) -> (edge: Option<u8>)
        ensures
            edge == self@.keypad.edge,
    {
        self.keypad.edge()
    }
}

} // verus!
