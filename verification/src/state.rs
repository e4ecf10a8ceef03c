use vstd::prelude::*;
use crate::cpu::CPU;
use crate::display::Display;
use crate::laws::step_preserves_wf;
use crate::fault::{Fault, FaultKind, Status};
use crate::keyboard::Keyboard;
use crate::machine::{Machine, Outcome, FONTSET, FONTSET_START, PROGRAM_START};
use crate::opcode::{
    address_field, decode, immediate_byte, nibble_field, nn_of, nnn_of, register_x, register_y,
    x_of, y_of, Operation,
};

verus! {

/// The whole state of the machine.
pub struct State {
    pub registers: [u8; 16],
    pub memory: [u8; 4096],
    pub index: u16,
    pub pc: u16,
    pub sp: u8,
    pub stack: [u16; 16],
    pub delay: u8,
    pub sound: u8,
    pub opcode: u16,
    pub keyboard: Keyboard,
    pub display: Display,
    pub fault: Option<Fault>,
    pub blocked: bool,
}

impl View for State {
    type V = Machine;

    open spec fn view(&self) -> Machine {
        Machine {
            registers: self.registers@,
            memory: self.memory@,
            index: self.index,
            pc: self.pc,
            sp: self.sp,
            stack: self.stack@,
            delay: self.delay,
            sound: self.sound,
            opcode: self.opcode,
            keyboard: self.keyboard@,
            display: self.display@,
            fault: self.fault,
            blocked: self.blocked,
        }
    }
}

impl State {
    /// A machine in its initial state.
    pub fn new() -> (r: State)
        ensures
            r@ == Machine::initial(),
            r@.wf(),
    {
        let mut state = State {
            registers: [0u8; 16],
            memory: [0u8; 4096],
            index: 0,
            pc: PROGRAM_START,
            sp: 0,
            stack: [0u16; 16],
            delay: 0,
            sound: 0,
            opcode: 0,
            keyboard: Keyboard::new(),
            display: Display::new(),
            fault: None,
            blocked: false,
        };
        let mut i: usize = 0;
        while i < 80
            invariant
                i <= 80,
                forall|a: int|
                    0 <= a < 4096 ==> #[trigger] state.memory@[a] == if FONTSET_START <= a
                        < FONTSET_START + i {
                        FONTSET@[a - FONTSET_START]
                    } else {
                        0u8
                    },
                state.registers@ == Seq::new(16, |i: int| 0u8),
                state.stack@ == Seq::new(16, |i: int| 0u16),
                state.index == 0,
                state.pc == PROGRAM_START,
                state.sp == 0,
                state.delay == 0,
                state.sound == 0,
                state.opcode == 0,
                state.keyboard@ == crate::keyboard::KeyboardView::idle(),
                state.display@ == crate::display::DisplayView::blank(),
                state.fault.is_none(),
                !state.blocked,
            decreases 80 - i,
        {
            state.memory[FONTSET_START as usize + i] = FONTSET[i];
            i += 1;
        }
        assert(state@ =~= Machine::initial());
        state
    }

    /// Puts the machine back into its initial state, as the host does after
    /// a fault.
    pub fn reset(&mut self)
        ensures
            final(self)@ == Machine::initial(),
            final(self)@.wf(),
    {
        *self = State::new();
    }

    /// Copies a program to memory from address 0x200 on. A program of more
    /// than 3584 bytes does not fit: it is rejected with a memory fault, and
    /// nothing changes.
    pub fn load_rom(&mut self, rom: &[u8]) -> (r: Result<(), FaultKind>)
        ensures
            final(self)@ == old(self)@.loaded(rom@),
            r == if rom@.len() <= 4096 - PROGRAM_START {
                Ok::<(), FaultKind>(())
            } else {
                Err::<(), FaultKind>(FaultKind::MemoryFault)
            },
            old(self)@.wf() ==> final(self)@.wf(),
    {
        if rom.len() > 4096 - PROGRAM_START as usize {
            return Err(FaultKind::MemoryFault);
        }
        let mut i: usize = 0;
        while i < rom.len()
            invariant
                i <= rom@.len() <= 4096 - PROGRAM_START,
                forall|a: int|
                    0 <= a < 4096 ==> #[trigger] self.memory@[a] == if PROGRAM_START <= a
                        < PROGRAM_START + i {
                        rom@[a - PROGRAM_START]
                    } else {
                        old(self).memory@[a]
                    },
                self.registers == old(self).registers,
                self.stack == old(self).stack,
                self.index == old(self).index,
                self.pc == old(self).pc,
                self.sp == old(self).sp,
                self.delay == old(self).delay,
                self.sound == old(self).sound,
                self.opcode == old(self).opcode,
                self.keyboard == old(self).keyboard,
                self.display == old(self).display,
                self.fault == old(self).fault,
                self.blocked == old(self).blocked,
            decreases rom@.len() - i,
        {
            self.memory[PROGRAM_START as usize + i] = rom[i];
            i += 1;
        }
        assert(self@ =~= old(self)@.loaded(rom@));
        Ok(())
    }

    /// One tick of the 60 Hz clock: each timer that is not zero goes down by
    /// one.
    pub fn decrement_timers(&mut self)
        ensures
            final(self)@ == old(self)@.timers_decremented(),
            old(self)@.wf() ==> final(self)@.wf(),
    {
        if self.delay > 0 {
            self.delay -= 1;
        }
        if self.sound > 0 {
            self.sound -= 1;
        }
    }

    /// Fetches the instruction at the program counter, high byte first, and
    /// makes it the current instruction. Where its two bytes do not lie in
    /// memory, nothing changes and a memory fault is returned.
    pub fn read_cycle(&mut self) -> (r: Result<u16, FaultKind>)
        ensures
            final(self)@ == old(self)@.fetched(),
            r == if old(self)@.can_fetch() {
                Ok::<u16, FaultKind>(old(self)@.word_at_pc())
            } else {
                Err::<u16, FaultKind>(FaultKind::MemoryFault)
            },
            old(self)@.wf() ==> final(self)@.wf(),
    {
        if self.pc >= 4095 {
            return Err(FaultKind::MemoryFault);
        }
        let high: u16 = self.memory[self.pc as usize] as u16;
        let low: u16 = self.memory[self.pc as usize + 1] as u16;
        assert((high << 8) | low == high * 256 + low) by (bit_vector)
            requires
                high < 256,
                low < 256,
        ;
        self.opcode = (high << 8) | low;
        Ok(self.opcode)
    }

    /// Executes `operation` on the current instruction word. A random
    /// instruction takes `injected` for its byte, or draws one where none is
    /// given.
    fn execute(&mut self, operation: Operation, injected: Option<u8>) -> (r: Status)
        ensures
            match injected {
                Some(random) => (Outcome { machine: final(self)@, status: r }) == old(
                    self,
                )@.execute(operation, random),
                None => exists|random: u8|
                    (Outcome { machine: final(self)@, status: r }) == #[trigger] old(
                        self,
                    )@.execute(operation, random),
            },
    {
        let r = match operation {
            Operation::Cls => self.cls(),
            Operation::Ret => self.ret(),
            Operation::JpAddr => self.jp_addr(),
            Operation::CallAddr => self.call_addr(),
            Operation::SeVxByte => self.se_vx_byte(),
            Operation::SneVxByte => self.sne_vx_byte(),
            Operation::SeVxVy => self.se_vx_vy(),
            Operation::LdVxByte => self.ld_vx_byte(),
            Operation::AddVxByte => self.add_vx_byte(),
            Operation::LdVxVy => self.ld_vx_vy(),
            Operation::OrVxVy => self.or_vx_vy(),
            Operation::AndVxVy => self.and_vx_vy(),
            Operation::XorVxVy => self.xor_vx_vy(),
            Operation::AddVxVy => self.add_vx_vy(),
            Operation::SubVxVy => self.sub_vx_vy(),
            Operation::ShrVxVy => self.shr_vx_vy(),
            Operation::SubnVxVy => self.subn_vx_vy(),
            Operation::ShlVxVy => self.shl_vx_vy(),
            Operation::SneVxVy => self.sne_vx_vy(),
            Operation::LdIAddr => self.ld_i_addr(),
            Operation::JpV0Addr => self.jp_v0_addr(),
            Operation::RndVxByte => match injected {
                Some(random) => self.rnd_vx_with(random),
                None => self.rnd_vx_byte(),
            },
            Operation::DrwVxVyNibble => self.drw_vx_vy_nibble(),
            Operation::SkpVx => self.skp_vx(),
            Operation::SknpVx => self.sknp_vx(),
            Operation::LdVxDt => self.ld_vx_dt(),
            Operation::LdVxK => self.ld_vx_k(),
            Operation::LdDtVx => self.ld_dt_vx(),
            Operation::LdStVx => self.ld_st_vx(),
            Operation::AddIVx => self.add_i_vx(),
            Operation::LdFVx => self.ld_f_vx(),
            Operation::LdBVx => self.ld_b_vx(),
            Operation::LdMemVx => self.ld_mem_vx(),
            Operation::LdVxMem => self.ld_vx_mem(),
        };
        proof {
            let after = Outcome { machine: self@, status: r };
            if injected.is_none() {
                if operation == Operation::RndVxByte {
                    let random = choose|random: u8|
                        self@ == (#[trigger] old(self)@.rnd_vx_byte(random)).machine && r == old(
                            self,
                        )@.rnd_vx_byte(random).status;
                    assert(after == old(self)@.execute(operation, random));
                } else {
                    assert(after == old(self)@.execute(operation, 0u8));
                }
            }
        }
        r
    }

    /// Keeps a fault that an instruction reported.
    fn latch(&mut self, status: Status) -> (r: Status)
        ensures
            (Outcome { machine: final(self)@, status: r }) == Machine::latch(
                Outcome { machine: old(self)@, status },
            ),
    {
        if let Status::Fault(f) = status {
            self.fault = Some(f);
        }
        status
    }

    /// One step, with the byte of a random instruction given or drawn.
    fn run(&mut self, injected: Option<u8>) -> (r: Status)
        ensures
            match injected {
                Some(random) => (Outcome { machine: final(self)@, status: r }) == old(self)@.step(
                    random,
                ),
                None => exists|random: u8|
                    (Outcome { machine: final(self)@, status: r }) == #[trigger] old(self)@.step(
                        random,
                    ),
            },
    {
        let ghost start = self@;
        if let Some(f) = self.fault {
            assert((Outcome { machine: self@, status: Status::Fault(f) }) == start.step(0u8));
            return Status::Fault(f);
        }
        if self.blocked {
            let r = self.ld_vx_k();
            assert((Outcome { machine: self@, status: r }) == start.step(0u8));
            return r;
        }
        match self.read_cycle() {
            Err(kind) => {
                let status = Status::Fault(Fault { kind, pc: self.pc, opcode: self.opcode });
                let r = self.latch(status);
                assert((Outcome { machine: self@, status: r }) == start.step(0u8));
                r
            },
            Ok(word) => {
                let ghost fetched = self@;
                match decode(word) {
                    None => {
                        let status = Status::Fault(
                            Fault { kind: FaultKind::DecodeFault, pc: self.pc, opcode: self.opcode },
                        );
                        let r = self.latch(status);
                        assert((Outcome { machine: self@, status: r }) == start.step(0u8));
                        r
                    },
                    Some(operation) => {
                        let status = self.execute(operation, injected);
                        let ghost executed = self@;
                        let r = self.latch(status);
                        proof {
                            let after = Outcome { machine: self@, status: r };
                            match injected {
                                Some(random) => {
                                    assert(after == start.step(random));
                                },
                                None => {
                                    let random = choose|random: u8|
                                        (Outcome { machine: executed, status }) == #[trigger] fetched.execute(
                                            operation,
                                            random,
                                        );
                                    assert(after == start.step(random));
                                },
                            }
                        }
                        r
                    },
                }
            },
        }
    }

    /// One step of the machine: after a fault nothing; on a blocked machine
    /// the key wait; else the instruction at the program counter is fetched,
    /// decoded and executed. A fault is kept and ends the run.
    ///
    /// A random instruction draws its byte; whatever byte is drawn, the
    /// machine ends as `tick_with` leaves it for that byte.
    pub fn tick(&mut self) -> (r: Status)
        ensures
            exists|random: u8|
                (Outcome { machine: final(self)@, status: r }) == #[trigger] old(self)@.step(
                    random,
                ),
            old(self)@.wf() ==> final(self)@.wf(),
    {
        let r = self.run(None);
        proof {
            let random = choose|random: u8|
                (Outcome { machine: self@, status: r }) == #[trigger] old(self)@.step(random);
            if old(self)@.wf() {
                step_preserves_wf(old(self)@, random);
            }
        }
        r
    }

    /// One step of the machine, as `tick` makes it, with `random` for the
    /// byte that a random instruction draws.
    pub fn tick_with(&mut self, random: u8) -> (r: Status)
        ensures
            final(self)@ == old(self)@.step(random).machine,
            r == old(self)@.step(random).status,
            old(self)@.wf() ==> final(self)@.wf(),
    {
        let r = self.run(Some(random));
        proof {
            if old(self)@.wf() {
                step_preserves_wf(old(self)@, random);
            }
        }
        r
    }

    /// The low 12 bits of the current instruction: its address operand.
    pub fn get_nnn(&self) -> (r: u16)
        ensures
            r == self@.nnn(),
            r < 4096,
    {
        address_field(self.opcode)
    }

    /// The low 8 bits of the current instruction: its immediate operand.
    pub fn get_nn(&self) -> (r: u8)
        ensures
            r == self@.nn(),
    {
        immediate_byte(self.opcode)
    }

    /// The low 4 bits of the current instruction: its small count.
    pub fn get_n(&self) -> (r: u8)
        ensures
            r == self@.n(),
            r < 16,
    {
        nibble_field(self.opcode)
    }

    /// Bits 8 to 11 of the current instruction: its first operand register.
    pub fn get_x(&self) -> (r: u8)
        ensures
            r == self@.x(),
            r < 16,
    {
        register_x(self.opcode)
    }

    /// Bits 4 to 7 of the current instruction: its second operand register.
    pub fn get_y(&self) -> (r: u8)
        ensures
            r == self@.y(),
            r < 16,
    {
        register_y(self.opcode)
    }

    /// The address operand of the current instruction, as `get_nnn` gives it.
    pub fn get_u16(&self) -> (r: u16)
        ensures
            r == nnn_of(self.opcode),
            r < 4096,
    {
        self.get_nnn()
    }

    /// The immediate operand of the current instruction, as `get_nn` gives
    /// it.
    pub fn get_u8(&self) -> (r: u8)
        ensures
            r == nn_of(self.opcode),
    {
        self.get_nn()
    }

    /// The first operand register of the current instruction, as `get_x`
    /// gives it.
    pub fn get_vx(&self) -> (r: u8)
        ensures
            r == x_of(self.opcode),
            r < 16,
    {
        self.get_x()
    }

    /// The second operand register of the current instruction, as `get_y`
    /// gives it.
    pub fn get_vy(&self) -> (r: u8)
        ensures
            r == y_of(self.opcode),
            r < 16,
    {
        self.get_y()
    }
}

impl Default for State {
    fn default() -> (r: State)
        ensures
            r@ == Machine::initial(),
    {
        State::new()
    }
}

} // verus!
