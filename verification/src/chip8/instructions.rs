//! One method for each instruction but the sprite draw.
use crate::chip8::{low_nibble, mask_addr, mask_pc, ChipEight};
use crate::model::{blank_screen, wrap_addr, Machine};
use crate::opcode::Fault;
use crate::random::random_byte;
use vstd::prelude::*;

verus! {

impl ChipEight {
    /// `0nnn`: a call into host machine code, which this machine has none of.
    pub fn jump_to_machine_code(&mut self)
        requires
            old(self).wf(),
        ensures
            final(self)@ == old(self)@.sys(),
            final(self).wf(),
    {
        // Do nothing
        self.pc = Self::pc_after(self.pc, 2);
    }

    /// `00E0`: turns every pixel off.
    pub fn clear_screen(&mut self)
        requires
            old(self).wf(),
        ensures
            final(self)@ == old(self)@.cls(),
            forall|x: int, y: int| 0 <= x < 64 && 0 <= y < 32 ==> !final(self)@.pixel(x, y),
            final(self).wf(),
    {
        self.screen = [[false; 64]; 32];
        self.pc = Self::pc_after(self.pc, 2);
        proof {
            assert(self@.screen =~~= blank_screen());
        }
    }

    /// `00EE`: pops the innermost return address, which is the address of the
    /// call, and goes on behind that call. On an empty call stack this is a
    /// stack underflow, and nothing changes.
    pub fn return_from_subroutine(&mut self) -> (done: Result<(), Fault>)
        requires
            old(self).wf(),
        ensures
            old(self)@.stack.len() == 0 ==> done == Err::<(), Fault>(Fault::StackUnderflow)
                && final(self)@ == old(self)@,
            old(self)@.stack.len() > 0 ==> done == Ok::<(), Fault>(()) && final(self)@ == old(
                self,
            )@.ret(),
            final(self).wf(),
    {
        match self.stack.pop() {
            Some(val) => {
                self.sp -= 1;
                self.pc = Self::pc_after(mask_pc(val), 2);
                Ok(())
            },
            None => Err(Fault::StackUnderflow),
        }
    }

    /// `1nnn`: goes on at `address`, of which the low twelve bits count.
    pub fn jump_to_address(&mut self, address: u16)
        requires
            old(self).wf(),
        ensures
            final(self)@ == old(self)@.jp(address),
            final(self).wf(),
    {
        self.pc = mask_pc(address);
    }

    /// `2nnn`: pushes the address of this call and goes on at `address`. With
    /// sixteen return addresses on the call stack this is a stack overflow,
    /// and nothing changes.
    pub fn call_subroutine_at_address(&mut self, address: u16) -> (done: Result<(), Fault>)
        requires
            old(self).wf(),
        ensures
            old(self)@.stack.len() >= 16 ==> done == Err::<(), Fault>(Fault::StackOverflow)
                && final(self)@ == old(self)@,
            old(self)@.stack.len() < 16 ==> done == Ok::<(), Fault>(()) && final(self)@ == old(
                self,
            )@.call(address),
            final(self).wf(),
    {
        if self.stack.len() >= 16 {
            return Err(Fault::StackOverflow);
        }
        self.stack.push(self.pc);
        self.sp += 1;
        self.pc = mask_pc(address);
        Ok(())
    }

    /// `3xkk`: skips the next instruction if `Vx == kk`.
    pub fn skip_if_vx_equals_data(&mut self, x: usize, data: u8)
        requires
            old(self).wf(),
            x < 16,
        ensures
            final(self)@ == old(self)@.se_byte(x as int, data),
            final(self).wf(),
    {
        self.pc = Self::pc_after(self.pc, if self.v_registers[x] == data { 4 } else { 2 });
    }

    /// `4xkk`: skips the next instruction if `Vx != kk`.
    pub fn skip_if_vx_not_equals_data(&mut self, x: usize, data: u8)
        requires
            old(self).wf(),
            x < 16,
        ensures
            final(self)@ == old(self)@.sne_byte(x as int, data),
            final(self).wf(),
    {
        self.pc = Self::pc_after(self.pc, if self.v_registers[x] != data { 4 } else { 2 });
    }

    /// `5xy_`: skips the next instruction if `Vx == Vy`.
    pub fn skip_if_vx_equals_vy(&mut self, x: usize, y: usize)
        requires
            old(self).wf(),
            x < 16,
            y < 16,
        ensures
            final(self)@ == old(self)@.se_reg(x as int, y as int),
            final(self).wf(),
    {
        self.pc = Self::pc_after(
            self.pc,
            if self.v_registers[x] == self.v_registers[y] {
                4
            } else {
                2
            },
        );
    }

    /// `6xkk`: `Vx = kk`.
    pub fn set_vx_equals_data(&mut self, x: usize, data: u8)
        requires
            old(self).wf(),
            x < 16,
        ensures
            final(self)@ == old(self)@.ld_byte(x as int, data),
            final(self).wf(),
    {
        self.v_registers[x] = data;
        self.pc = Self::pc_after(self.pc, 2);
    }

    /// `7xkk`: `Vx = Vx + kk`, wrapping; `VF` is left alone.
    pub fn add_assign_data_to_vx(&mut self, x: usize, data: u8)
        requires
            old(self).wf(),
            x < 16,
        ensures
            final(self)@ == old(self)@.add_byte(x as int, data),
            final(self).wf(),
    {
        self.v_registers[x] = self.v_registers[x].wrapping_add(data);
        self.pc = Self::pc_after(self.pc, 2);
    }

    /// `8xy0`: `Vx = Vy`.
    pub fn set_vx_equals_vy(&mut self, x: usize, y: usize)
        requires
            old(self).wf(),
            x < 16,
            y < 16,
        ensures
            final(self)@ == old(self)@.ld_reg(x as int, y as int),
            final(self).wf(),
    {
        self.v_registers[x] = self.v_registers[y];
        self.pc = Self::pc_after(self.pc, 2);
    }

    /// `8xy1`: `Vx = Vx | Vy`.
    pub fn bitor_assign_vy_to_vx(&mut self, x: usize, y: usize)
        requires
            old(self).wf(),
            x < 16,
            y < 16,
        ensures
            final(self)@ == old(self)@.or_reg(x as int, y as int),
            final(self).wf(),
    {
        self.v_registers[x] = self.v_registers[x] | self.v_registers[y];
        self.pc = Self::pc_after(self.pc, 2);
    }

    /// `8xy2`: `Vx = Vx & Vy`.
    pub fn bitand_assign_vy_to_vx(&mut self, x: usize, y: usize)
        requires
            old(self).wf(),
            x < 16,
            y < 16,
        ensures
            final(self)@ == old(self)@.and_reg(x as int, y as int),
            final(self).wf(),
    {
        self.v_registers[x] = self.v_registers[x] & self.v_registers[y];
        self.pc = Self::pc_after(self.pc, 2);
    }

    /// `8xy3`: `Vx = Vx ^ Vy`.
    pub fn bitxor_assign_vy_to_vx(&mut self, x: usize, y: usize)
        requires
            old(self).wf(),
            x < 16,
            y < 16,
        ensures
            final(self)@ == old(self)@.xor_reg(x as int, y as int),
            final(self).wf(),
    {
        self.v_registers[x] = self.v_registers[x] ^ self.v_registers[y];
        self.pc = Self::pc_after(self.pc, 2);
    }

    /// `8xy4`: `Vx = Vx + Vy`, wrapping, then `VF` = 1 if the sum passed
    /// 255 and 0 if not.
    pub fn add_assign_vy_to_vx(&mut self, x: usize, y: usize)
        requires
            old(self).wf(),
            x < 16,
            y < 16,
        ensures
            final(self)@ == old(self)@.add_reg(x as int, y as int),
            final(self).wf(),
    {
        let f: usize = 0xF;
        let sum: u16 = self.v_registers[x] as u16 + self.v_registers[y] as u16;

        // We only need the lower byte, so just mask it.
        assert(sum & 0x00FF == sum % 256) by (bit_vector);
        self.v_registers[x] = (sum & 0x00FF) as u8;
        self.v_registers[f] = if sum > 255 { 1 } else { 0 };
        self.pc = Self::pc_after(self.pc, 2);
    }

    /// `8xy5`: `Vx = Vx - Vy`, wrapping, then `VF` = 1 if `Vx >= Vy` held
    /// before and 0 if not.
    pub fn sub_assign_vy_to_vx(&mut self, x: usize, y: usize)
        requires
            old(self).wf(),
            x < 16,
            y < 16,
        ensures
            final(self)@ == old(self)@.sub_reg(x as int, y as int),
            final(self).wf(),
    {
        let f: usize = 0xF;
        let vx: u8 = self.v_registers[x];
        let vy: u8 = self.v_registers[y];

        self.v_registers[x] = vx.wrapping_sub(vy);

        self.v_registers[f] = if vx >= vy { 1 } else { 0 };

        self.pc = Self::pc_after(self.pc, 2);
    }

    /// `8xy6`: `Vx = Vx >> 1`, then `VF` = the bit that fell out. `Vy` is
    /// not looked at.
    pub fn shift_right_vx(&mut self, x: usize, _y: usize)
        requires
            old(self).wf(),
            x < 16,
        ensures
            final(self)@ == old(self)@.shr(x as int),
            final(self).wf(),
    {
        let f: usize = 0xF;
        let prev: u8 = self.v_registers[x] & 0x0001;

        self.v_registers[x] = self.v_registers[x] >> 1;

        self.v_registers[f] = if prev == 1 { 1 } else { 0 };

        self.pc = Self::pc_after(self.pc, 2);
    }

    /// `8xy7`: `Vx = Vy - Vx`, wrapping, then `VF` = 1 if `Vy >= Vx` held
    /// before and 0 if not.
    pub fn sub_vx_from_vy(&mut self, x: usize, y: usize)
        requires
            old(self).wf(),
            x < 16,
            y < 16,
        ensures
            final(self)@ == old(self)@.subn_reg(x as int, y as int),
            final(self).wf(),
    {
        let f: usize = 0xF;
        let vx: u8 = self.v_registers[x];
        let vy: u8 = self.v_registers[y];

        self.v_registers[x] = vy.wrapping_sub(vx);

        self.v_registers[f] = if vy >= vx { 1 } else { 0 };

        self.pc = Self::pc_after(self.pc, 2);
    }

    /// `8xyE`: `Vx = Vx << 1`, then `VF` = the bit that fell out. `Vy` is
    /// not looked at.
    pub fn shift_left_vx(&mut self, x: usize, _y: usize)
        requires
            old(self).wf(),
            x < 16,
        ensures
            final(self)@ == old(self)@.shl(x as int),
            final(self).wf(),
    {
        let f: usize = 0xF;
        let vx: u8 = self.v_registers[x];
        let prev: u8 = vx & 0x80;
        assert((vx & 0x80 != 0) == ((vx >> 7) & 1 == 1)) by (bit_vector);

        self.v_registers[x] = vx << 1;

        self.v_registers[f] = if prev != 0 { 1 } else { 0 };

        self.pc = Self::pc_after(self.pc, 2);
    }

    /// `9xy_`: skips the next instruction if `Vx != Vy`.
    pub fn skip_if_vx_not_equals_vy(&mut self, x: usize, y: usize)
        requires
            old(self).wf(),
            x < 16,
            y < 16,
        ensures
            final(self)@ == old(self)@.sne_reg(x as int, y as int),
            final(self).wf(),
    {
        self.pc = Self::pc_after(
            self.pc,
            if self.v_registers[x] != self.v_registers[y] {
                4
            } else {
                2
            },
        );
    }

    /// `Annn`: `I = nnn`.
    pub fn set_i_to_address(&mut self, address: u16)
        requires
            old(self).wf(),
        ensures
            final(self)@ == old(self)@.ld_i(address),
            final(self).wf(),
    {
        self.i_register = address;
        self.pc = Self::pc_after(self.pc, 2);
    }

    /// `Bnnn`: goes on at `nnn + V0`, of which the low twelve bits count.
    pub fn jump_to_address_plus_v0(&mut self, address: u16)
        requires
            old(self).wf(),
        ensures
            final(self)@ == old(self)@.jp_v0(address),
            final(self).wf(),
    {
        let target: usize = mask_addr(address as usize + self.v_registers[0] as usize);
        self.pc = target as u16;
    }

    /// `Cxkk`: `Vx = kk & random byte`, with a byte drawn from the random
    /// source.
    pub fn set_vx_equals_rand(&mut self, x: usize, data: u8)
        requires
            old(self).wf(),
            x < 16,
        ensures
            exists|random: u8| final(self)@ == old(self)@.rnd(x as int, data, random),
            final(self).wf(),
    {
        let rand: u8 = random_byte();

        self.set_vx_equals_masked(x, data, rand);
    }

    /// `Cxkk` with the random byte given: `Vx = kk & random`.
    pub fn set_vx_equals_masked(&mut self, x: usize, data: u8, random: u8)
        requires
            old(self).wf(),
            x < 16,
        ensures
            final(self)@ == old(self)@.rnd(x as int, data, random),
            final(self).wf(),
    {
        self.v_registers[x] = random & data;
        self.pc = Self::pc_after(self.pc, 2);
    }

    /// `Ex9E`: skips the next instruction if the key that the low nibble of
    /// `Vx` names is held.
    pub fn skip_if_vx_pressed(&mut self, x: usize)
        requires
            old(self).wf(),
            x < 16,
        ensures
            final(self)@ == old(self)@.skp(x as int),
            final(self).wf(),
    {
        let key: u8 = low_nibble(self.v_registers[x]);
        self.pc = Self::pc_after(self.pc, if self.keypad.is_held(key) { 4 } else { 2 });
    }

    /// `ExA1`: skips the next instruction if the key that the low nibble of
    /// `Vx` names is not held.
    pub fn skip_if_vx_not_pressed(&mut self, x: usize)
        requires
            old(self).wf(),
            x < 16,
        ensures
            final(self)@ == old(self)@.sknp(x as int),
            final(self).wf(),
    {
        let key: u8 = low_nibble(self.v_registers[x]);
        self.pc = Self::pc_after(self.pc, if !self.keypad.is_held(key) { 4 } else { 2 });
    }

    /// `Fx07`: `Vx = DT`.
    pub fn set_vx_equals_delay(&mut self, x: usize)
        requires
            old(self).wf(),
            x < 16,
        ensures
            final(self)@ == old(self)@.ld_vx_dt(x as int),
            final(self).wf(),
    {
        self.v_registers[x] = self.delay_timer;
        self.pc = Self::pc_after(self.pc, 2);
    }

    /// `Fx0A`: takes the key-down edge that is waiting, stores its key in
    /// `Vx` and moves on. With no edge waiting nothing changes: the program
    /// counter stays on this instruction, which so runs again at the next
    /// step, until a key goes down.
    pub fn set_vx_equals_key(&mut self, x: usize)
        requires
            old(self).wf(),
            x < 16,
        ensures
            final(self)@ == old(self)@.ld_vx_k(x as int),
            final(self).wf(),
    {
        match self.keypad.take_edge() {
            Some(key) => {
                self.v_registers[x] = key;
                self.pc = Self::pc_after(self.pc, 2);
            },
            None => {},
        }
    }

    /// `Fx15`: `DT = Vx`.
    pub fn set_delay_equals_vx(&mut self, x: usize)
        requires
            old(self).wf(),
            x < 16,
        ensures
            final(self)@ == old(self)@.ld_dt_vx(x as int),
            final(self).wf(),
    {
        self.delay_timer = self.v_registers[x];
        self.pc = Self::pc_after(self.pc, 2);
    }

    /// `Fx18`: `ST = Vx`.
    pub fn set_sound_equals_vx(&mut self, x: usize)
        requires
            old(self).wf(),
            x < 16,
        ensures
            final(self)@ == old(self)@.ld_st_vx(x as int),
            final(self).wf(),
    {
        self.sound_timer = self.v_registers[x];
        self.pc = Self::pc_after(self.pc, 2);
    }

    /// `Fx1E`: `I = I + Vx`, wrapping at sixteen bits; `VF` is left alone.
    pub fn add_assign_vx_to_i(&mut self, x: usize)
        requires
            old(self).wf(),
            x < 16,
        ensures
            final(self)@ == old(self)@.add_i(x as int),
            final(self).wf(),
    {
        self.i_register = self.i_register.wrapping_add(self.v_registers[x] as u16);
        self.pc = Self::pc_after(self.pc, 2);
    }

    /// `Fx29`: `I` = the address of the glyph for the low nibble of `Vx`.
    pub fn set_i_to_sprite(&mut self, x: usize)
        requires
            old(self).wf(),
            x < 16,
        ensures
            final(self)@ == old(self)@.ld_f(x as int),
            final(self).wf(),
    {
        // A glyph takes five bytes, so the glyph for digit d starts at 5 * d.
        let i: u16 = low_nibble(self.v_registers[x]) as u16 * 5;

        self.i_register = i;
        self.pc = Self::pc_after(self.pc, 2);
    }

    /// `Fx33`: stores the hundreds, tens and ones of `Vx` at `I`, `I + 1`
    /// and `I + 2`.
    pub fn set_i_to_bcd(&mut self, x: usize)
        requires
            old(self).wf(),
            x < 16,
        ensures
            final(self)@ == old(self)@.ld_b(x as int),
            final(self).wf(),
    {
        let hundreds: u8 = self.v_registers[x] / 100;
        let tens: u8 = (self.v_registers[x] / 10) % 10;
        let ones: u8 = self.v_registers[x] % 10;
        let idx: usize = self.i_register as usize;

        self.memory[mask_addr(idx)] = hundreds;
        self.memory[mask_addr(idx + 1)] = tens;
        self.memory[mask_addr(idx + 2)] = ones;
        self.pc = Self::pc_after(self.pc, 2);
    }

    /// `Fx55`: stores `V0..=Vx` in RAM from `I` on. `I` stays as it is.
    pub fn store_v_registers(&mut self, x: usize)
        requires
            old(self).wf(),
            x < 16,
        ensures
            final(self)@ == old(self)@.store_regs(x as int),
            final(self).wf(),
    {
        let idx: usize = self.i_register as usize;
        let ghost before = self@;

        let mut i: usize = 0;
        while i <= x
            invariant
                i <= x + 1 <= 16,
                idx == before.i,
                before == old(self)@,
                before.wf(),
                self@ == (Machine { ram: self@.ram, ..before }),
                self@.ram.len() == 4096,
                forall|a: int|
                    0 <= a < 4096 ==> #[trigger] self@.ram[a] == if (a - idx) % 4096 < i {
                        before.v[(a - idx) % 4096]
                    } else {
                        before.ram[a]
                    },
            decreases x + 1 - i,
        {
            let at: usize = mask_addr(idx + i);
            self.memory[at] = self.v_registers[i];
            proof {
                // No two of the addresses `I + k`, `k <= x`, fall on one byte.
                assert forall|a: int| 0 <= a < 4096 implies #[trigger] self@.ram[a] == if (a
                    - idx) % 4096 < i + 1 {
                    before.v[(a - idx) % 4096]
                } else {
                    before.ram[a]
                } by {
                    assert(((a - idx) % 4096 == i) == (a == at));
                }
            }
            i += 1;
        }
        self.pc = Self::pc_after(self.pc, 2);
    }

    /// `Fx65`: loads `V0..=Vx` from RAM from `I` on. `I` stays as it is.
    pub fn restore_v_registers(&mut self, x: usize)
        requires
            old(self).wf(),
            x < 16,
        ensures
            final(self)@ == old(self)@.load_regs(x as int),
            final(self).wf(),
    {
        let idx: usize = self.i_register as usize;
        let ghost before = self@;

        let mut i: usize = 0;
        while i <= x
            invariant
                i <= x + 1 <= 16,
                idx == before.i,
                before == old(self)@,
                before.wf(),
                self@ == (Machine { v: self@.v, ..before }),
                self@.v.len() == 16,
                forall|k: int|
                    0 <= k < 16 ==> #[trigger] self@.v[k] == if k < i {
                        before.ram[wrap_addr(idx + k)]
                    } else {
                        before.v[k]
                    },
            decreases x + 1 - i,
        {
            self.v_registers[i] = self.memory[mask_addr(idx + i)];
            i += 1;
        }
        self.pc = Self::pc_after(self.pc, 2);
    }
}

} // verus!
