//! The interpreter's cycle: the timers, the fetch, decode and execute of
//! one instruction, and one turn of the host's loop.
use crate::chip8::{mask_addr, ChipEight};
use crate::keypad::{HostEvent, Polled};
use crate::model::{count_down, ticks_due, tone_request, Machine, Progress};
use crate::opcode::{decode, Fault, Opcode};
use vstd::prelude::*;

verus! {

/// The 60 Hz ticks that have fallen due `now_us` microseconds after the start.
fn ticks_due_at(now_us: u64) -> (due: u64)
    ensures
        due == ticks_due(now_us),
{
    // Sixty ticks in a million microseconds; the product needs more than 64 bits.
    let scaled: u128 = now_us as u128 * 60;
    (scaled / 1_000_000) as u64
}

/// A timer that stood at `timer`, `elapsed` ticks later.
fn timer_after(timer: u8, elapsed: u64) -> (left: u8)
    ensures
        left == count_down(timer, elapsed as int),
{
    if elapsed >= timer as u64 {
        0
    } else {
        timer - elapsed as u8
    }
}

impl ChipEight {
    /// Runs the decoded instruction `op`, with `random` the byte that `Cxkk`
    /// takes for the random one. On a fault nothing changes.
    pub fn perform(&mut self, op: Opcode, random: u8) -> (done: Result<(), Fault>)
        requires
            old(self).wf(),
            op.wf(),
        ensures
            (final(self)@, done) == old(self)@.run_op(op, random),
            final(self).wf(),
    {
        match op {
            Opcode::Sys => self.jump_to_machine_code(),
            Opcode::Cls => self.clear_screen(),
            Opcode::Ret => {
                return self.return_from_subroutine();
            },
            Opcode::Jp { nnn } => self.jump_to_address(nnn),
            Opcode::Call { nnn } => {
                return self.call_subroutine_at_address(nnn);
            },
            Opcode::SeByte { x, kk } => self.skip_if_vx_equals_data(x as usize, kk),
            Opcode::SneByte { x, kk } => self.skip_if_vx_not_equals_data(x as usize, kk),
            Opcode::SeReg { x, y } => self.skip_if_vx_equals_vy(x as usize, y as usize),
            Opcode::LdByte { x, kk } => self.set_vx_equals_data(x as usize, kk),
            Opcode::AddByte { x, kk } => self.add_assign_data_to_vx(x as usize, kk),
            Opcode::LdReg { x, y } => self.set_vx_equals_vy(x as usize, y as usize),
            Opcode::Or { x, y } => self.bitor_assign_vy_to_vx(x as usize, y as usize),
            Opcode::And { x, y } => self.bitand_assign_vy_to_vx(x as usize, y as usize),
            Opcode::Xor { x, y } => self.bitxor_assign_vy_to_vx(x as usize, y as usize),
            Opcode::AddReg { x, y } => self.add_assign_vy_to_vx(x as usize, y as usize),
            Opcode::Sub { x, y } => self.sub_assign_vy_to_vx(x as usize, y as usize),
            Opcode::Shr { x, y } => self.shift_right_vx(x as usize, y as usize),
            Opcode::Subn { x, y } => self.sub_vx_from_vy(x as usize, y as usize),
            Opcode::Shl { x, y } => self.shift_left_vx(x as usize, y as usize),
            Opcode::SneReg { x, y } => self.skip_if_vx_not_equals_vy(x as usize, y as usize),
            Opcode::LdI { nnn } => self.set_i_to_address(nnn),
            Opcode::JpV0 { nnn } => self.jump_to_address_plus_v0(nnn),
            Opcode::Rnd { x, kk } => self.set_vx_equals_masked(x as usize, kk, random),
            Opcode::Drw { x, y, n } => self.draw_n_bytes_at_xy(x as usize, y as usize, n as u16),
            Opcode::Skp { x } => self.skip_if_vx_pressed(x as usize),
            Opcode::Sknp { x } => self.skip_if_vx_not_pressed(x as usize),
            Opcode::LdVxDt { x } => self.set_vx_equals_delay(x as usize),
            Opcode::LdVxK { x } => self.set_vx_equals_key(x as usize),
            Opcode::LdDtVx { x } => self.set_delay_equals_vx(x as usize),
            Opcode::LdStVx { x } => self.set_sound_equals_vx(x as usize),
            Opcode::AddI { x } => self.add_assign_vx_to_i(x as usize),
            Opcode::LdF { x } => self.set_i_to_sprite(x as usize),
            Opcode::LdB { x } => self.set_i_to_bcd(x as usize),
            Opcode::StoreRegs { x } => self.store_v_registers(x as usize),
            Opcode::LoadRegs { x } => self.restore_v_registers(x as usize),
        }
        Ok(())
    }

    /// Decodes and runs the instruction word `instruction`, with `random`
    /// the byte that `Cxkk` takes for the random one. On a fault nothing
    /// changes.
    pub fn execute_with(&mut self, instruction: u16, random: u8) -> (done: Result<(), Fault>)
        requires
            old(self).wf(),
        ensures
            (final(self)@, done) == old(self)@.run_word(instruction, random),
            final(self).wf(),
    {
        match decode(instruction) {
            Ok(op) => self.perform(op, random),
            Err(fault) => Err(fault),
        }
    }

    /// Decodes and runs the instruction word `instruction`; `Cxkk` draws its
    /// byte from the random source. On a fault nothing changes.
    pub fn execute(&mut self, instruction: u16) -> (done: Result<(), Fault>)
        requires
            old(self).wf(),
        ensures
            exists|random: u8|
                (final(self)@, done) == old(self)@.run_word(instruction, random),
            final(self).wf(),
    {
        match decode(instruction) {
            Ok(Opcode::Rnd { x, kk }) => {
                self.set_vx_equals_rand(x as usize, kk);
                proof {
                    let random = choose|random: u8|
                        self@ == old(self)@.rnd(x as int, kk, random);
                    assert((self@, Ok::<(), Fault>(())) == old(self)@.run_word(instruction, random));
                }
                Ok(())
            },
            Ok(op) => {
                let done = self.perform(op, 0);
                proof {
                    assert((self@, done) == old(self)@.run_word(instruction, 0));
                }
                done
            },
            Err(fault) => {
                proof {
                    assert((self@, Err::<(), Fault>(fault)) == old(self)@.run_word(instruction, 0));
                }
                Err(fault)
            },
        }
    }

    /// The instruction word at the program counter, high byte first. The
    /// low byte of a word at the last address of RAM is the byte at address 0.
    pub fn fetch(&self) -> (word: u16)
        requires
            self.wf(),
        ensures
            word == self@.fetch(),
    {
        let high: u8 = self.memory[self.pc as usize];
        let low: u8 = self.memory[mask_addr(self.pc as usize + 1)];
        (high as u16) << 8 | low as u16
    }

    /// Counts the two timers down by the 60 Hz ticks that have fallen due
    /// `now_us` microseconds after the machine was started and that were not
    /// counted yet. A timer at zero stays at zero.
    pub fn advance_timers(&mut self, now_us: u64)
        requires
            old(self).wf(),
        ensures
            final(self)@ == old(self)@.advance_timers(now_us),
            final(self).wf(),
    {
        let due: u64 = ticks_due_at(now_us);
        if due > self.timer_ticks {
            let elapsed: u64 = due - self.timer_ticks;
            self.delay_timer = timer_after(self.delay_timer, elapsed);
            self.sound_timer = timer_after(self.sound_timer, elapsed);
            self.timer_ticks = due;
        }
    }

    /// One step at time `now_us`, with `random` the byte that `Cxkk` takes
    /// for the random one: the timers are brought up to date, then the
    /// instruction at the program counter runs. On a fault the timers have
    /// moved and nothing else has.
    pub fn step_with(&mut self, now_us: u64, random: u8) -> (done: Result<(), Fault>)
        requires
            old(self).wf(),
        ensures
            (final(self)@, done) == old(self)@.step(now_us, random),
            final(self).wf(),
    {
        self.advance_timers(now_us);
        let instruction: u16 = self.fetch();
        self.execute_with(instruction, random)
    }

    /// One step at time `now_us`: the timers are brought up to date, then
    /// the instruction at the program counter runs; `Cxkk` draws its byte
    /// from the random source. On a fault the timers have moved and nothing
    /// else has.
    pub fn step(&mut self, now_us: u64) -> (done: Result<(), Fault>)
        requires
            old(self).wf(),
        ensures
            exists|random: u8| (final(self)@, done) == old(self)@.step(now_us, random),
            final(self).wf(),
    {
        self.advance_timers(now_us);
        let instruction: u16 = self.fetch();
        let ghost ticked = self@;
        let done = self.execute(instruction);
        proof {
            let random = choose|random: u8| (self@, done) == ticked.run_word(instruction, random);
            assert((self@, done) == old(self)@.step(now_us, random));
        }
        done
    }

    /// Feeds a batch of host events into the keypad, in order, up to the
    /// first quit request, and reports the quit request or the key pressed
    /// last.
    pub fn poll_input(&mut self, events: &Vec<HostEvent>) -> (polled: Polled)
        requires
            old(self).wf(),
        ensures
            (final(self)@.keypad, polled) == old(self)@.keypad.poll(None, events@),
            final(self)@ == (Machine { keypad: final(self)@.keypad, ..old(self)@ }),
            final(self).wf(),
    {
        self.keypad.poll_input(events)
    }

    /// One turn of the host's loop at time `now_us`: polls `events`, and
    /// unless they held a quit request makes one step and says whether the
    /// host's tone is to start or to stop.
    pub fn frame(&mut self, events: &Vec<HostEvent>, now_us: u64) -> (progress: Progress)
        requires
            old(self).wf(),
        ensures
            exists|random: u8|
                (final(self)@, progress) == old(self)@.frame(events@, now_us, random),
            final(self).wf(),
    {
        let was_on: bool = self.audio_on();
        let key = self.poll_input(events);

        if let Polled::Quit = key {
            proof {
                assert((self@, Progress::Quit) == old(self)@.frame(events@, now_us, 0));
            }
            return Progress::Quit;
        }
        let ghost polled = self@;
        let done = self.step(now_us);
        proof {
            let random = choose|random: u8| (self@, done) == polled.step(now_us, random);
            let tone = tone_request(was_on, self@.audio_on());
            let progress = match done {
                Ok(_) => Progress::Running { tone },
                Err(fault) => Progress::Halted { fault, tone },
            };
            assert((self@, progress) == old(self)@.frame(events@, now_us, random));
        }
        let is_on: bool = self.audio_on();
        let tone: Option<bool> = if was_on == is_on { None } else { Some(is_on) };
        match done {
            Ok(_) => Progress::Running { tone },
            Err(fault) => Progress::Halted { fault, tone },
        }
    }
}

} // verus!
