use vstd::prelude::*;
use crate::display::{lemma_draw_done, lemma_draw_row, sprite_covers_upto};
use crate::fault::{Fault, FaultKind, Status};
use crate::machine::FONTSET_START;
use crate::random::random_byte;
use crate::state::State;

verus! {

/// The instruction set: one method for each operation. Each executes the
/// current instruction word of the machine that it is called on and reports
/// `Running`, `Blocked` or a fault; an instruction that faults changes
/// nothing.
pub trait CPU {
    fn cls(&mut self) -> Status;

    fn ret(&mut self) -> Status;

    fn jp_addr(&mut self) -> Status;

    fn call_addr(&mut self) -> Status;

    fn se_vx_byte(&mut self) -> Status;

    fn sne_vx_byte(&mut self) -> Status;

    fn se_vx_vy(&mut self) -> Status;

    fn ld_vx_byte(&mut self) -> Status;

    fn add_vx_byte(&mut self) -> Status;

    fn ld_vx_vy(&mut self) -> Status;

    fn or_vx_vy(&mut self) -> Status;

    fn and_vx_vy(&mut self) -> Status;

    fn xor_vx_vy(&mut self) -> Status;

    fn add_vx_vy(&mut self) -> Status;

    fn sub_vx_vy(&mut self) -> Status;

    fn shr_vx_vy(&mut self) -> Status;

    fn subn_vx_vy(&mut self) -> Status;

    fn shl_vx_vy(&mut self) -> Status;

    fn sne_vx_vy(&mut self) -> Status;

    fn ld_i_addr(&mut self) -> Status;

    fn jp_v0_addr(&mut self) -> Status;

    fn rnd_vx_byte(&mut self) -> Status;

    fn drw_vx_vy_nibble(&mut self) -> Status;

    fn skp_vx(&mut self) -> Status;

    fn sknp_vx(&mut self) -> Status;

    fn ld_vx_dt(&mut self) -> Status;

    fn ld_vx_k(&mut self) -> Status;

    fn ld_dt_vx(&mut self) -> Status;

    fn ld_st_vx(&mut self) -> Status;

    fn add_i_vx(&mut self) -> Status;

    fn ld_f_vx(&mut self) -> Status;

    fn ld_b_vx(&mut self) -> Status;

    fn ld_mem_vx(&mut self) -> Status;

    fn ld_vx_mem(&mut self) -> Status;
}

impl State {
    /// The fault of the given kind at the current instruction.
    fn fault_here(&self, kind: FaultKind) -> (r: Status)
        ensures
            r == Status::Fault(self@.fault_here(kind)),
    {
        Status::Fault(Fault { kind, pc: self.pc, opcode: self.opcode })
    }

    /// Moves the program counter to the next instruction, or to the one
    /// after it where `skip` holds.
    fn advance(&mut self, skip: bool) -> (r: Status)
        ensures
            final(self)@ == old(self)@.skip_if(skip).machine,
            r == Status::Running,
    {
        self.pc = self.pc.wrapping_add(if skip { 4 } else { 2 });
        Status::Running
    }

    /// Writes the flag register and then the first operand register.
    fn set_flag_then_vx(&mut self, flag: u8, value: u8)
        ensures
            final(self)@ == old(self)@.set_flag_then_vx(flag, value),
    {
        let x = self.get_x() as usize;
        self.registers[0xF] = flag;
        self.registers[x] = value;
        assert(self@ =~= old(self)@.set_flag_then_vx(flag, value));
    }

    /// Writes the first operand register.
    fn set_vx(&mut self, value: u8)
        ensures
            final(self)@ == old(self)@.set_vx(value),
    {
        let x = self.get_x() as usize;
        self.registers[x] = value;
        assert(self@ =~= old(self)@.set_vx(value));
    }

    /// The value of the first operand register.
    fn vx(&self) -> (r: u8)
        ensures
            r == self@.vx(),
    {
        self.registers[self.get_x() as usize]
    }

    /// The value of the second operand register.
    fn vy(&self) -> (r: u8)
        ensures
            r == self@.vy(),
    {
        self.registers[self.get_y() as usize]
    }

    /// The random instruction with the byte that was drawn given: the first
    /// operand register gets `random` masked with the immediate operand.
    pub fn rnd_vx_with(&mut self, random: u8) -> (r: Status)
        ensures
            final(self)@ == old(self)@.rnd_vx_byte(random).machine,
            r == old(self)@.rnd_vx_byte(random).status,
            old(self)@.wf() ==> final(self)@.wf(),
    {
        let nn = self.get_nn();
        self.set_vx(random & nn);
        self.advance(false)
    }
}

impl CPU for State {
    /// 00E0: turns every pixel off.
    fn cls(&mut self) -> (r: Status)
        ensures
            final(self)@ == old(self)@.cls().machine,
            r == old(self)@.cls().status,
            old(self)@.wf() ==> final(self)@.wf(),
    {
        self.display.clear();
        self.advance(false)
    }

    /// 00EE: returns from a subroutine. A stack fault where the call stack
    /// is empty.
    fn ret(&mut self) -> (r: Status)
        ensures
            final(self)@ == old(self)@.ret().machine,
            r == old(self)@.ret().status,
            old(self)@.wf() ==> final(self)@.wf(),
    {
        if self.sp == 0 || self.sp > 16 {
            return self.fault_here(FaultKind::StackFault);
        }
        self.sp -= 1;
        self.pc = self.stack[self.sp as usize];
        Status::Running
    }

    /// 1nnn: jumps to nnn.
    fn jp_addr(&mut self) -> (r: Status)
        ensures
            final(self)@ == old(self)@.jp_addr().machine,
            r == old(self)@.jp_addr().status,
            old(self)@.wf() ==> final(self)@.wf(),
    {
        self.pc = self.get_nnn();
        Status::Running
    }

    /// 2nnn: calls the subroutine at nnn; the address of the instruction
    /// after the call goes on the call stack. A stack fault where the call
    /// stack is full.
    fn call_addr(&mut self) -> (r: Status)
        ensures
            final(self)@ == old(self)@.call_addr().machine,
            r == old(self)@.call_addr().status,
            old(self)@.wf() ==> final(self)@.wf(),
    {
        if self.sp >= 16 {
            return self.fault_here(FaultKind::StackFault);
        }
        self.stack[self.sp as usize] = self.pc.wrapping_add(2);
        self.sp += 1;
        self.pc = self.get_nnn();
        assert(self@ =~= old(self)@.call_addr().machine);
        Status::Running
    }

    /// 3xkk: skips the next instruction if Vx equals kk.
    fn se_vx_byte(&mut self) -> (r: Status)
        ensures
            final(self)@ == old(self)@.se_vx_byte().machine,
            r == old(self)@.se_vx_byte().status,
            old(self)@.wf() ==> final(self)@.wf(),
    {
        let skip = self.vx() == self.get_nn();
        self.advance(skip)
    }

    /// 4xkk: skips the next instruction if Vx differs from kk.
    fn sne_vx_byte(&mut self) -> (r: Status)
        ensures
            final(self)@ == old(self)@.sne_vx_byte().machine,
            r == old(self)@.sne_vx_byte().status,
            old(self)@.wf() ==> final(self)@.wf(),
    {
        let skip = self.vx() != self.get_nn();
        self.advance(skip)
    }

    /// 5xy0: skips the next instruction if Vx equals Vy.
    fn se_vx_vy(&mut self) -> (r: Status)
        ensures
            final(self)@ == old(self)@.se_vx_vy().machine,
            r == old(self)@.se_vx_vy().status,
            old(self)@.wf() ==> final(self)@.wf(),
    {
        let skip = self.vx() == self.vy();
        self.advance(skip)
    }

    /// 6xkk: Vx gets kk.
    fn ld_vx_byte(&mut self) -> (r: Status)
        ensures
            final(self)@ == old(self)@.ld_vx_byte().machine,
            r == old(self)@.ld_vx_byte().status,
            old(self)@.wf() ==> final(self)@.wf(),
    {
        let nn = self.get_nn();
        self.set_vx(nn);
        self.advance(false)
    }

    /// 7xkk: Vx gets Vx + kk modulo 256; the flag register is left alone.
    fn add_vx_byte(&mut self) -> (r: Status)
        ensures
            final(self)@ == old(self)@.add_vx_byte().machine,
            r == old(self)@.add_vx_byte().status,
            old(self)@.wf() ==> final(self)@.wf(),
    {
        let sum = self.vx().wrapping_add(self.get_nn());
        self.set_vx(sum);
        self.advance(false)
    }

    /// 8xy0: Vx gets Vy.
    fn ld_vx_vy(&mut self) -> (r: Status)
        ensures
            final(self)@ == old(self)@.ld_vx_vy().machine,
            r == old(self)@.ld_vx_vy().status,
            old(self)@.wf() ==> final(self)@.wf(),
    {
        let vy = self.vy();
        self.set_vx(vy);
        self.advance(false)
    }

    /// 8xy1: Vx gets Vx or Vy, bit by bit.
    fn or_vx_vy(&mut self) -> (r: Status)
        ensures
            final(self)@ == old(self)@.or_vx_vy().machine,
            r == old(self)@.or_vx_vy().status,
            old(self)@.wf() ==> final(self)@.wf(),
    {
        let value = self.vx() | self.vy();
        self.set_vx(value);
        self.advance(false)
    }

    /// 8xy2: Vx gets Vx and Vy, bit by bit.
    fn and_vx_vy(&mut self) -> (r: Status)
        ensures
            final(self)@ == old(self)@.and_vx_vy().machine,
            r == old(self)@.and_vx_vy().status,
            old(self)@.wf() ==> final(self)@.wf(),
    {
        let value = self.vx() & self.vy();
        self.set_vx(value);
        self.advance(false)
    }

    /// 8xy3: Vx gets Vx exclusive-or Vy, bit by bit.
    fn xor_vx_vy(&mut self) -> (r: Status)
        ensures
            final(self)@ == old(self)@.xor_vx_vy().machine,
            r == old(self)@.xor_vx_vy().status,
            old(self)@.wf() ==> final(self)@.wf(),
    {
        let value = self.vx() ^ self.vy();
        self.set_vx(value);
        self.advance(false)
    }

    /// 8xy4: the flag register gets 1 if Vx + Vy exceeds 255 and 0 if not;
    /// then Vx gets the low 8 bits of the sum.
    fn add_vx_vy(&mut self) -> (r: Status)
        ensures
            final(self)@ == old(self)@.add_vx_vy().machine,
            r == old(self)@.add_vx_vy().status,
            old(self)@.wf() ==> final(self)@.wf(),
    {
        let sum: u16 = self.vx() as u16 + self.vy() as u16;
        let flag: u8 = if sum > 255 { 1 } else { 0 };
        assert(sum & 0xff == sum % 256) by (bit_vector);
        self.set_flag_then_vx(flag, (sum & 0xff) as u8);
        self.advance(false)
    }

    /// 8xy5: the flag register gets 1 if Vx exceeds Vy and 0 if not; then Vx
    /// gets Vx - Vy modulo 256.
    fn sub_vx_vy(&mut self) -> (r: Status)
        ensures
            final(self)@ == old(self)@.sub_vx_vy().machine,
            r == old(self)@.sub_vx_vy().status,
            old(self)@.wf() ==> final(self)@.wf(),
    {
        let vx = self.vx();
        let vy = self.vy();
        let flag: u8 = if vx > vy { 1 } else { 0 };
        self.set_flag_then_vx(flag, vx.wrapping_sub(vy));
        self.advance(false)
    }

    /// 8xy6: the flag register gets the lowest bit of Vx; then Vx gets Vx
    /// shifted right by one.
    fn shr_vx_vy(&mut self) -> (r: Status)
        ensures
            final(self)@ == old(self)@.shr_vx_vy().machine,
            r == old(self)@.shr_vx_vy().status,
            old(self)@.wf() ==> final(self)@.wf(),
    {
        let vx = self.vx();
        assert(vx & 0x1 == vx % 2) by (bit_vector);
        assert(vx >> 1 == vx / 2) by (bit_vector);
        self.set_flag_then_vx(vx & 0x1, vx >> 1);
        self.advance(false)
    }

    /// 8xy7: the flag register gets 1 if Vy exceeds Vx and 0 if not; then Vx
    /// gets Vy - Vx modulo 256.
    fn subn_vx_vy(&mut self) -> (r: Status)
        ensures
            final(self)@ == old(self)@.subn_vx_vy().machine,
            r == old(self)@.subn_vx_vy().status,
            old(self)@.wf() ==> final(self)@.wf(),
    {
        let vx = self.vx();
        let vy = self.vy();
        let flag: u8 = if vy > vx { 1 } else { 0 };
        self.set_flag_then_vx(flag, vy.wrapping_sub(vx));
        self.advance(false)
    }

    /// 8xyE: the flag register gets the highest bit of Vx; then Vx gets Vx
    /// shifted left by one, modulo 256.
    fn shl_vx_vy(&mut self) -> (r: Status)
        ensures
            final(self)@ == old(self)@.shl_vx_vy().machine,
            r == old(self)@.shl_vx_vy().status,
            old(self)@.wf() ==> final(self)@.wf(),
    {
        let vx = self.vx();
        assert((vx & 0x80) >> 7 == vx / 128) by (bit_vector);
        assert(vx << 1 == (vx as int * 2) % 256) by (bit_vector);
        self.set_flag_then_vx((vx & 0x80) >> 7, vx << 1);
        self.advance(false)
    }

    /// 9xy0: skips the next instruction if Vx differs from Vy.
    fn sne_vx_vy(&mut self) -> (r: Status)
        ensures
            final(self)@ == old(self)@.sne_vx_vy().machine,
            r == old(self)@.sne_vx_vy().status,
            old(self)@.wf() ==> final(self)@.wf(),
    {
        let skip = self.vx() != self.vy();
        self.advance(skip)
    }

    /// Annn: the address register gets nnn.
    fn ld_i_addr(&mut self) -> (r: Status)
        ensures
            final(self)@ == old(self)@.ld_i_addr().machine,
            r == old(self)@.ld_i_addr().status,
            old(self)@.wf() ==> final(self)@.wf(),
    {
        self.index = self.get_nnn();
        self.advance(false)
    }

    /// Bnnn: jumps to V0 + nnn.
    fn jp_v0_addr(&mut self) -> (r: Status)
        ensures
            final(self)@ == old(self)@.jp_v0_addr().machine,
            r == old(self)@.jp_v0_addr().status,
            old(self)@.wf() ==> final(self)@.wf(),
    {
        self.pc = self.registers[0x0] as u16 + self.get_nnn();
        Status::Running
    }

    /// Cxkk: Vx gets a random byte masked with kk. Whatever byte is drawn,
    /// the machine ends as `rnd_vx_with` leaves it for that byte.
    fn rnd_vx_byte(&mut self) -> (r: Status)
        ensures
            exists|random: u8|
                final(self)@ == (#[trigger] old(self)@.rnd_vx_byte(random)).machine && r == old(
                    self,
                )@.rnd_vx_byte(random).status,
            old(self)@.wf() ==> final(self)@.wf(),
    {
        let random = random_byte();
        self.rnd_vx_with(random)
    }

    /// Dxyn: combines the sprite of n rows at the address register into the
    /// display by exclusive or, its top left corner at column Vx of row Vy,
    /// with wrap-around at the edges. The coordinates are read first; then
    /// the flag register gets 1 if a lit pixel went dark and 0 if not. A
    /// memory fault where the sprite does not lie in memory.
    #[verifier::rlimit(40)]
    fn drw_vx_vy_nibble(&mut self) -> (r: Status)
        ensures
            final(self)@ == old(self)@.drw_vx_vy_nibble().machine,
            r == old(self)@.drw_vx_vy_nibble().status,
            old(self)@.wf() ==> final(self)@.wf(),
    {
        let vx = self.vx();
        let vy = self.vy();
        let n = self.get_n();
        if n > 0 && self.index as usize + n as usize > 4096 {
            return self.fault_here(FaultKind::MemoryFault);
        }
        let ghost sprite = self@.sprite();
        let ghost before = self.display@;
        let mut collision = false;
        let mut row: u8 = 0;
        while row < n
            invariant
                row <= n < 16,
                n > 0 ==> self.index + n <= 4096,
                sprite == old(self)@.sprite(),
                sprite.len() == n,
                before == old(self).display@,
                self.registers == old(self).registers,
                self.memory == old(self).memory,
                self.index == old(self).index,
                self.pc == old(self).pc,
                self.sp == old(self).sp,
                self.stack == old(self).stack,
                self.delay == old(self).delay,
                self.sound == old(self).sound,
                self.opcode == old(self).opcode,
                self.keyboard == old(self).keyboard,
                self.fault == old(self).fault,
                self.blocked == old(self).blocked,
                forall|p: int|
                    0 <= p < 2048 ==> #[trigger] self.display@.pixels[p] == (before.pixels[p]
                        != sprite_covers_upto(sprite, vx as int, vy as int, row as int, p)),
                collision == (exists|p: int|
                    0 <= p < 2048 && before.pixels[p] && #[trigger] sprite_covers_upto(
                        sprite,
                        vx as int,
                        vy as int,
                        row as int,
                        p,
                    )),
            decreases n - row,
        {
            let bits = self.memory[self.index as usize + row as usize];
            let y = ((vy as u16 + row as u16) % 32) as u8;
            let ghost shown = self.display@;
            let hit = self.display.draw_row(bits, vx, y);
            proof {
                assert(bits == sprite[row as int]);
                lemma_draw_row(before, shown, sprite, vx as int, vy as int, row as int, collision);
            }
            collision = collision || hit;
            row += 1;
        }
        let ghost drawn = self.display@;
        proof {
            lemma_draw_done(before, drawn, sprite, vx as int, vy as int, collision);
        }
        self.display.dirty = true;
        self.registers[0xF] = if collision { 1 } else { 0 };
        assert(self.display@ =~= before.xor_sprite(sprite, vx as int, vy as int));
        let r = self.advance(false);
        proof {
            assert(self@ =~= old(self)@.drw_vx_vy_nibble().machine);
        }
        r
    }

    /// Ex9E: skips the next instruction if the key Vx is down. A memory
    /// fault where Vx is no key of the pad.
    fn skp_vx(&mut self) -> (r: Status)
        ensures
            final(self)@ == old(self)@.skp_vx().machine,
            r == old(self)@.skp_vx().status,
            old(self)@.wf() ==> final(self)@.wf(),
    {
        let key = self.vx();
        if key >= 16 {
            return self.fault_here(FaultKind::MemoryFault);
        }
        let skip = self.keyboard.keypad[key as usize];
        self.advance(skip)
    }

    /// ExA1: skips the next instruction if the key Vx is up. A memory fault
    /// where Vx is no key of the pad.
    fn sknp_vx(&mut self) -> (r: Status)
        ensures
            final(self)@ == old(self)@.sknp_vx().machine,
            r == old(self)@.sknp_vx().status,
            old(self)@.wf() ==> final(self)@.wf(),
    {
        let key = self.vx();
        if key >= 16 {
            return self.fault_here(FaultKind::MemoryFault);
        }
        let skip = !self.keyboard.keypad[key as usize];
        self.advance(skip)
    }

    /// Fx07: Vx gets the delay timer.
    fn ld_vx_dt(&mut self) -> (r: Status)
        ensures
            final(self)@ == old(self)@.ld_vx_dt().machine,
            r == old(self)@.ld_vx_dt().status,
            old(self)@.wf() ==> final(self)@.wf(),
    {
        let delay = self.delay;
        self.set_vx(delay);
        self.advance(false)
    }

    /// Fx0A: waits for a key. On a running machine it forgets the keys that
    /// went down before, and blocks. On a blocked machine it takes the
    /// oldest key that went down since: Vx gets it and the machine runs on;
    /// where there is none, the machine stays blocked.
    fn ld_vx_k(&mut self) -> (r: Status)
        ensures
            final(self)@ == old(self)@.ld_vx_k().machine,
            r == old(self)@.ld_vx_k().status,
            old(self)@.wf() ==> final(self)@.wf(),
    {
        if !self.blocked {
            self.keyboard.discard_pending();
            self.blocked = true;
            return Status::Blocked;
        }
        match self.keyboard.wait_for_keypress() {
            None => Status::Blocked,
            Some(key) => {
                self.set_vx(key);
                self.blocked = false;
                self.advance(false)
            },
        }
    }

    /// Fx15: the delay timer gets Vx.
    fn ld_dt_vx(&mut self) -> (r: Status)
        ensures
            final(self)@ == old(self)@.ld_dt_vx().machine,
            r == old(self)@.ld_dt_vx().status,
            old(self)@.wf() ==> final(self)@.wf(),
    {
        self.delay = self.vx();
        self.advance(false)
    }

    /// Fx18: the sound timer gets Vx.
    fn ld_st_vx(&mut self) -> (r: Status)
        ensures
            final(self)@ == old(self)@.ld_st_vx().machine,
            r == old(self)@.ld_st_vx().status,
            old(self)@.wf() ==> final(self)@.wf(),
    {
        self.sound = self.vx();
        self.advance(false)
    }

    /// Fx1E: the address register gets itself plus Vx, modulo 65536; no flag
    /// is written.
    fn add_i_vx(&mut self) -> (r: Status)
        ensures
            final(self)@ == old(self)@.add_i_vx().machine,
            r == old(self)@.add_i_vx().status,
            old(self)@.wf() ==> final(self)@.wf(),
    {
        self.index = self.index.wrapping_add(self.vx() as u16);
        self.advance(false)
    }

    /// Fx29: the address register gets the address of the sprite of the
    /// digit Vx: the start of the digit sprites plus five times Vx.
    fn ld_f_vx(&mut self) -> (r: Status)
        ensures
            final(self)@ == old(self)@.ld_f_vx().machine,
            r == old(self)@.ld_f_vx().status,
            old(self)@.wf() ==> final(self)@.wf(),
    {
        self.index = FONTSET_START + self.vx() as u16 * 5;
        self.advance(false)
    }

    /// Fx33: the hundreds, tens and ones of Vx go to memory at the address
    /// register and the two bytes after it. A memory fault where these do
    /// not lie in memory.
    fn ld_b_vx(&mut self) -> (r: Status)
        ensures
            final(self)@ == old(self)@.ld_b_vx().machine,
            r == old(self)@.ld_b_vx().status,
            old(self)@.wf() ==> final(self)@.wf(),
    {
        if self.index >= 4094 {
            return self.fault_here(FaultKind::MemoryFault);
        }
        let value = self.vx();
        let at = self.index as usize;
        self.memory[at] = value / 100;
        self.memory[at + 1] = (value / 10) % 10;
        self.memory[at + 2] = value % 10;
        assert(self@ =~= old(self)@.ld_b_vx().machine.set_pc(old(self).pc));
        self.advance(false)
    }

    /// Fx55: the registers V0 to Vx go to memory from the address register
    /// on, and the address register moves on by x + 1. A memory fault where
    /// the bytes do not lie in memory.
    fn ld_mem_vx(&mut self) -> (r: Status)
        ensures
            final(self)@ == old(self)@.ld_mem_vx().machine,
            r == old(self)@.ld_mem_vx().status,
            old(self)@.wf() ==> final(self)@.wf(),
    {
        let x = self.get_x() as usize;
        let base = self.index as usize;
        if base + x >= 4096 {
            return self.fault_here(FaultKind::MemoryFault);
        }
        let mut i: usize = 0;
        while i <= x
            invariant
                i <= x + 1,
                x < 16,
                base + x < 4096,
                base == old(self).index,
                forall|a: int|
                    0 <= a < 4096 ==> #[trigger] self.memory@[a] == if base <= a < base + i {
                        old(self).registers@[a - base]
                    } else {
                        old(self).memory@[a]
                    },
                self.registers == old(self).registers,
                self.index == old(self).index,
                self.pc == old(self).pc,
                self.sp == old(self).sp,
                self.stack == old(self).stack,
                self.delay == old(self).delay,
                self.sound == old(self).sound,
                self.opcode == old(self).opcode,
                self.keyboard == old(self).keyboard,
                self.display == old(self).display,
                self.fault == old(self).fault,
                self.blocked == old(self).blocked,
            decreases x + 1 - i,
        {
            self.memory[base + i] = self.registers[i];
            i += 1;
        }
        self.index = (base + x + 1) as u16;
        assert(self@ =~= old(self)@.ld_mem_vx().machine.set_pc(old(self).pc));
        self.advance(false)
    }

    /// Fx65: the registers V0 to Vx are read from memory from the address
    /// register on, and the address register moves on by x + 1. A memory
    /// fault where the bytes do not lie in memory.
    fn ld_vx_mem(&mut self) -> (r: Status)
        ensures
            final(self)@ == old(self)@.ld_vx_mem().machine,
            r == old(self)@.ld_vx_mem().status,
            old(self)@.wf() ==> final(self)@.wf(),
    {
        let x = self.get_x() as usize;
        let base = self.index as usize;
        if base + x >= 4096 {
            return self.fault_here(FaultKind::MemoryFault);
        }
        let mut i: usize = 0;
        while i <= x
            invariant
                i <= x + 1,
                x < 16,
                base + x < 4096,
                base == old(self).index,
                forall|k: int|
                    0 <= k < 16 ==> #[trigger] self.registers@[k] == if k < i {
                        old(self).memory@[base + k]
                    } else {
                        old(self).registers@[k]
                    },
                self.memory == old(self).memory,
                self.index == old(self).index,
                self.pc == old(self).pc,
                self.sp == old(self).sp,
                self.stack == old(self).stack,
                self.delay == old(self).delay,
                self.sound == old(self).sound,
                self.opcode == old(self).opcode,
                self.keyboard == old(self).keyboard,
                self.display == old(self).display,
                self.fault == old(self).fault,
                self.blocked == old(self).blocked,
            decreases x + 1 - i,
        {
            self.registers[i] = self.memory[base + i];
            i += 1;
        }
        self.index = (base + x + 1) as u16;
        assert(self@ =~= old(self)@.ld_vx_mem().machine.set_pc(old(self).pc));
        self.advance(false)
    }
}

} // verus!
