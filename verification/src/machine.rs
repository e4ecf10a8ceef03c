use vstd::prelude::*;
use crate::display::DisplayView;
use crate::fault::{Fault, FaultKind, Status};
use crate::keyboard::KeyboardView;
use crate::opcode::{decode_spec, n_of, nn_of, nnn_of, x_of, y_of, Operation};

verus! {

/// Where the digit sprites lie in memory.
pub const FONTSET_START: u16 = 0x50;

/// Where programs are loaded, and where execution starts.
pub const PROGRAM_START: u16 = 0x200;

/// The digit sprites 0 to F, five rows each.
pub const FONTSET: [u8; 80] = [
    0xF0, 0x90, 0x90, 0x90, 0xF0,
    0x20, 0x60, 0x20, 0x20, 0x70,
    0xF0, 0x10, 0xF0, 0x80, 0xF0,
    0xF0, 0x10, 0xF0, 0x10, 0xF0,
    0x90, 0x90, 0xF0, 0x10, 0x10,
    0xF0, 0x80, 0xF0, 0x10, 0xF0,
    0xF0, 0x80, 0xF0, 0x90, 0xF0,
    0xF0, 0x10, 0x20, 0x40, 0x40,
    0xF0, 0x90, 0xF0, 0x90, 0xF0,
    0xF0, 0x90, 0xF0, 0x10, 0xF0,
    0xF0, 0x90, 0xF0, 0x90, 0x90,
    0xE0, 0x90, 0xE0, 0x90, 0xE0,
    0xF0, 0x80, 0x80, 0x80, 0xF0,
    0xE0, 0x90, 0x90, 0x90, 0xE0,
    0xF0, 0x80, 0xF0, 0x80, 0xF0,
    0xF0, 0x80, 0xF0, 0x80, 0x80,
];

/// The value of an 8-bit counter that was set to `i`.
pub open spec fn wrap8(i: int) -> u8 {
    (i % 256) as u8
}

/// The value of a 16-bit counter that was set to `i`.
pub open spec fn wrap16(i: int) -> u16 {
    (i % 65536) as u16
}

/// The model of a machine state: what the instructions are defined on.
#[verifier::ext_equal]
pub struct Machine {
    /// The 16 registers; register 15 is the flag register.
    pub registers: Seq<u8>,
    /// The 4096 bytes of memory.
    pub memory: Seq<u8>,
    /// The address register.
    pub index: u16,
    /// The program counter.
    pub pc: u16,
    /// The number of return addresses on the call stack.
    pub sp: u8,
    /// The 16 slots of the call stack.
    pub stack: Seq<u16>,
    pub delay: u8,
    pub sound: u8,
    /// The instruction word that was fetched last.
    pub opcode: u16,
    pub keyboard: KeyboardView,
    pub display: DisplayView,
    /// The fault that ended the run, if one did.
    pub fault: Option<Fault>,
    /// Whether the machine waits for a key to go down.
    pub blocked: bool,
}

/// A machine state after an instruction, and what the instruction reports.
#[verifier::ext_equal]
pub struct Outcome {
    pub machine: Machine,
    pub status: Status,
}

impl Machine {
    /// The sizes are right, the stack pointer is at most 16, and only keys of
    /// the pad are pending.
    pub open spec fn wf(self) -> bool {
        &&& self.registers.len() == 16
        &&& self.memory.len() == 4096
        &&& self.stack.len() == 16
        &&& self.sp <= 16
        &&& self.keyboard.wf()
        &&& self.display.wf()
    }

    /// The state in which a machine starts: everything zero, the digit
    /// sprites in memory, the program counter at the start of the program.
    pub open spec fn initial() -> Machine {
        Machine {
            registers: Seq::new(16, |i: int| 0u8),
            memory: Seq::new(
                4096,
                |a: int|
                    if FONTSET_START <= a < FONTSET_START + 80 {
                        FONTSET@[a - FONTSET_START]
                    } else {
                        0u8
                    },
            ),
            index: 0,
            pc: PROGRAM_START,
            sp: 0,
            stack: Seq::new(16, |i: int| 0u16),
            delay: 0,
            sound: 0,
            opcode: 0,
            keyboard: KeyboardView::idle(),
            display: DisplayView::blank(),
            fault: None,
            blocked: false,
        }
    }

    /// The state after a program was copied to memory. A program of more
    /// than 3584 bytes does not fit and changes nothing.
    pub open spec fn loaded(self, rom: Seq<u8>) -> Machine {
        if rom.len() > 4096 - PROGRAM_START {
            self
        } else {
            Machine {
                memory: Seq::new(
                    4096,
                    |a: int|
                        if PROGRAM_START <= a < PROGRAM_START + rom.len() {
                            rom[a - PROGRAM_START]
                        } else {
                            self.memory[a]
                        },
                ),
                ..self
            }
        }
    }

    /// The state after one tick of the 60 Hz clock: each timer that is not
    /// zero goes down by one.
    pub open spec fn timers_decremented(self) -> Machine {
        Machine {
            delay: if self.delay > 0 { (self.delay - 1) as u8 } else { 0 },
            sound: if self.sound > 0 { (self.sound - 1) as u8 } else { 0 },
            ..self
        }
    }

    pub open spec fn nnn(self) -> u16 {
        nnn_of(self.opcode)
    }

    pub open spec fn nn(self) -> u8 {
        nn_of(self.opcode)
    }

    pub open spec fn n(self) -> u8 {
        n_of(self.opcode)
    }

    pub open spec fn x(self) -> int {
        x_of(self.opcode) as int
    }

    pub open spec fn y(self) -> int {
        y_of(self.opcode) as int
    }

    /// The value of the first operand register.
    pub open spec fn vx(self) -> u8 {
        self.registers[self.x()]
    }

    /// The value of the second operand register.
    pub open spec fn vy(self) -> u8 {
        self.registers[self.y()]
    }

    /// The instruction is done and the machine goes on.
    pub open spec fn done(self) -> Outcome {
        Outcome { machine: self, status: Status::Running }
    }

    /// The instruction is done and the next one follows it.
    pub open spec fn next(self) -> Outcome {
        Machine { pc: wrap16(self.pc + 2), ..self }.done()
    }

    /// The next instruction is skipped if `condition` holds.
    pub open spec fn skip_if(self, condition: bool) -> Outcome {
        Machine { pc: wrap16(self.pc + if condition { 4int } else { 2int }), ..self }.done()
    }

    /// The record of a fault at the current instruction.
    pub open spec fn fault_here(self, kind: FaultKind) -> Fault {
        Fault { kind, pc: self.pc, opcode: self.opcode }
    }

    /// The instruction cannot run: nothing changes and the fault is reported.
    pub open spec fn refuse(self, kind: FaultKind) -> Outcome {
        Outcome { machine: self, status: Status::Fault(self.fault_here(kind)) }
    }

    /// The same state with the program counter at `pc`.
    pub open spec fn set_pc(self, pc: u16) -> Machine {
        Machine { pc, ..self }
    }

    /// The first operand register gets `value`.
    pub open spec fn set_vx(self, value: u8) -> Machine {
        Machine { registers: self.registers.update(self.x(), value), ..self }
    }

    /// The flag register gets `flag`, and then the first operand register
    /// gets `value`: where that register is the flag register itself, it
    /// ends up holding `value`.
    pub open spec fn set_flag_then_vx(self, flag: u8, value: u8) -> Machine {
        Machine { registers: self.registers.update(15, flag).update(self.x(), value), ..self }
    }

    pub open spec fn cls(self) -> Outcome {
        Machine { display: self.display.cleared(), ..self }.next()
    }

    pub open spec fn ret(self) -> Outcome {
        if self.sp == 0 || self.sp > 16 {
            self.refuse(FaultKind::StackFault)
        } else {
            Machine { sp: (self.sp - 1) as u8, pc: self.stack[self.sp - 1], ..self }.done()
        }
    }

    pub open spec fn jp_addr(self) -> Outcome {
        Machine { pc: self.nnn(), ..self }.done()
    }

    pub open spec fn call_addr(self) -> Outcome {
        if self.sp >= 16 {
            self.refuse(FaultKind::StackFault)
        } else {
            Machine {
                stack: self.stack.update(self.sp as int, wrap16(self.pc + 2)),
                sp: (self.sp + 1) as u8,
                pc: self.nnn(),
                ..self
            }.done()
        }
    }

    pub open spec fn se_vx_byte(self) -> Outcome {
        self.skip_if(self.vx() == self.nn())
    }

    pub open spec fn sne_vx_byte(self) -> Outcome {
        self.skip_if(self.vx() != self.nn())
    }

    pub open spec fn se_vx_vy(self) -> Outcome {
        self.skip_if(self.vx() == self.vy())
    }

    pub open spec fn ld_vx_byte(self) -> Outcome {
        self.set_vx(self.nn()).next()
    }

    pub open spec fn add_vx_byte(self) -> Outcome {
        self.set_vx(wrap8(self.vx() + self.nn())).next()
    }

    pub open spec fn ld_vx_vy(self) -> Outcome {
        self.set_vx(self.vy()).next()
    }

    pub open spec fn or_vx_vy(self) -> Outcome {
        self.set_vx(self.vx() | self.vy()).next()
    }

    pub open spec fn and_vx_vy(self) -> Outcome {
        self.set_vx(self.vx() & self.vy()).next()
    }

    pub open spec fn xor_vx_vy(self) -> Outcome {
        self.set_vx(self.vx() ^ self.vy()).next()
    }

    pub open spec fn add_vx_vy(self) -> Outcome {
        let sum = self.vx() + self.vy();
        self.set_flag_then_vx(if sum > 255 { 1 } else { 0 }, wrap8(sum)).next()
    }

    pub open spec fn sub_vx_vy(self) -> Outcome {
        self.set_flag_then_vx(
            if self.vx() > self.vy() { 1 } else { 0 },
            wrap8(self.vx() - self.vy()),
        ).next()
    }

    pub open spec fn shr_vx_vy(self) -> Outcome {
        self.set_flag_then_vx(self.vx() % 2, self.vx() / 2).next()
    }

    pub open spec fn subn_vx_vy(self) -> Outcome {
        self.set_flag_then_vx(
            if self.vy() > self.vx() { 1 } else { 0 },
            wrap8(self.vy() - self.vx()),
        ).next()
    }

    pub open spec fn shl_vx_vy(self) -> Outcome {
        self.set_flag_then_vx(self.vx() / 128, wrap8(self.vx() * 2)).next()
    }

    pub open spec fn sne_vx_vy(self) -> Outcome {
        self.skip_if(self.vx() != self.vy())
    }

    pub open spec fn ld_i_addr(self) -> Outcome {
        Machine { index: self.nnn(), ..self }.next()
    }

    pub open spec fn jp_v0_addr(self) -> Outcome {
        Machine { pc: (self.registers[0] + self.nnn()) as u16, ..self }.done()
    }

    pub open spec fn rnd_vx_byte(self, random: u8) -> Outcome {
        self.set_vx(random & self.nn()).next()
    }

    /// The sprite that a draw instruction reads: `n` bytes from the address
    /// register on.
    pub open spec fn sprite(self) -> Seq<u8> {
        Seq::new(self.n() as nat, |row: int| self.memory[self.index + row])
    }

    /// Whether the sprite of a draw instruction leaves memory.
    pub open spec fn sprite_out_of_memory(self) -> bool {
        self.n() > 0 && self.index + self.n() > 4096
    }

    pub open spec fn drw_vx_vy_nibble(self) -> Outcome {
        if self.sprite_out_of_memory() {
            self.refuse(FaultKind::MemoryFault)
        } else {
            let x = self.vx() as int;
            let y = self.vy() as int;
            let collision: u8 = if self.display.collides(self.sprite(), x, y) { 1 } else { 0 };
            Machine {
                display: self.display.xor_sprite(self.sprite(), x, y),
                registers: self.registers.update(15, collision),
                ..self
            }.next()
        }
    }

    pub open spec fn skp_vx(self) -> Outcome {
        if self.vx() >= 16 {
            self.refuse(FaultKind::MemoryFault)
        } else {
            self.skip_if(self.keyboard.keypad[self.vx() as int])
        }
    }

    pub open spec fn sknp_vx(self) -> Outcome {
        if self.vx() >= 16 {
            self.refuse(FaultKind::MemoryFault)
        } else {
            self.skip_if(!self.keyboard.keypad[self.vx() as int])
        }
    }

    pub open spec fn ld_vx_dt(self) -> Outcome {
        self.set_vx(self.delay).next()
    }

    /// The key wait. A running machine forgets the keys that went down
    /// before, and blocks. A blocked machine stays blocked until a key has
    /// gone down; then the first operand register gets the key, and the
    /// machine runs on with the next instruction.
    pub open spec fn ld_vx_k(self) -> Outcome {
        if !self.blocked {
            Outcome {
                machine: Machine { blocked: true, keyboard: self.keyboard.drained(), ..self },
                status: Status::Blocked,
            }
        } else if self.keyboard.pending.len() == 0 {
            Outcome { machine: self, status: Status::Blocked }
        } else {
            Machine {
                blocked: false,
                keyboard: self.keyboard.taken(),
                ..self.set_vx(self.keyboard.pending[0])
            }.next()
        }
    }

    pub open spec fn ld_dt_vx(self) -> Outcome {
        Machine { delay: self.vx(), ..self }.next()
    }

    pub open spec fn ld_st_vx(self) -> Outcome {
        Machine { sound: self.vx(), ..self }.next()
    }

    pub open spec fn add_i_vx(self) -> Outcome {
        Machine { index: wrap16(self.index + self.vx()), ..self }.next()
    }

    pub open spec fn ld_f_vx(self) -> Outcome {
        Machine { index: (FONTSET_START + self.vx() * 5) as u16, ..self }.next()
    }

    pub open spec fn ld_b_vx(self) -> Outcome {
        if self.index + 2 >= 4096 {
            self.refuse(FaultKind::MemoryFault)
        } else {
            let v = self.vx();
            Machine {
                memory: self.memory.update(self.index as int, v / 100).update(
                    self.index + 1,
                    (v / 10) % 10,
                ).update(self.index + 2, v % 10),
                ..self
            }.next()
        }
    }

    /// The registers 0 to x go to memory from the address register on, which
    /// then moves behind them.
    pub open spec fn ld_mem_vx(self) -> Outcome {
        if self.index + self.x() >= 4096 {
            self.refuse(FaultKind::MemoryFault)
        } else {
            Machine {
                memory: Seq::new(
                    4096,
                    |a: int|
                        if self.index <= a <= self.index + self.x() {
                            self.registers[a - self.index]
                        } else {
                            self.memory[a]
                        },
                ),
                index: (self.index + self.x() + 1) as u16,
                ..self
            }.next()
        }
    }

    /// The registers 0 to x are read from memory from the address register
    /// on, which then moves behind what was read.
    pub open spec fn ld_vx_mem(self) -> Outcome {
        if self.index + self.x() >= 4096 {
            self.refuse(FaultKind::MemoryFault)
        } else {
            Machine {
                registers: Seq::new(
                    16,
                    |r: int|
                        if r <= self.x() {
                            self.memory[self.index + r]
                        } else {
                            self.registers[r]
                        },
                ),
                index: (self.index + self.x() + 1) as u16,
                ..self
            }.next()
        }
    }

    /// What `operation` does to the machine, with the current instruction
    /// word giving the operands and `random` the byte that was drawn.
    pub open spec fn execute(self, operation: Operation, random: u8) -> Outcome {
        match operation {
            Operation::Cls => self.cls(),
            Operation::Ret => self.ret(),
            Operation::JpAddr => self.jp_addr(),
            Operation::CallAddr => self.call_addr(),
            Operation::SeVxByte => self.se_vx_byte(),
            Operation::SneVxByte => self.sne_vx_byte(),
            Operation::SeVxVy => self.se_vx_vy(),
            Operation::LdVxByte => self.ld_vx_byte(),
            Operation::AddVxByte => self.add_vx_byte(),
            Operation::LdVxVy => self.ld_vx_vy(),
            Operation::OrVxVy => self.or_vx_vy(),
            Operation::AndVxVy => self.and_vx_vy(),
            Operation::XorVxVy => self.xor_vx_vy(),
            Operation::AddVxVy => self.add_vx_vy(),
            Operation::SubVxVy => self.sub_vx_vy(),
            Operation::ShrVxVy => self.shr_vx_vy(),
            Operation::SubnVxVy => self.subn_vx_vy(),
            Operation::ShlVxVy => self.shl_vx_vy(),
            Operation::SneVxVy => self.sne_vx_vy(),
            Operation::LdIAddr => self.ld_i_addr(),
            Operation::JpV0Addr => self.jp_v0_addr(),
            Operation::RndVxByte => self.rnd_vx_byte(random),
            Operation::DrwVxVyNibble => self.drw_vx_vy_nibble(),
            Operation::SkpVx => self.skp_vx(),
            Operation::SknpVx => self.sknp_vx(),
            Operation::LdVxDt => self.ld_vx_dt(),
            Operation::LdVxK => self.ld_vx_k(),
            Operation::LdDtVx => self.ld_dt_vx(),
            Operation::LdStVx => self.ld_st_vx(),
            Operation::AddIVx => self.add_i_vx(),
            Operation::LdFVx => self.ld_f_vx(),
            Operation::LdBVx => self.ld_b_vx(),
            Operation::LdMemVx => self.ld_mem_vx(),
            Operation::LdVxMem => self.ld_vx_mem(),
        }
    }

    /// Whether the two bytes of the next instruction lie in memory.
    pub open spec fn can_fetch(self) -> bool {
        self.pc + 1 < 4096
    }

    /// The instruction word at the program counter, high byte first.
    pub open spec fn word_at_pc(self) -> u16 {
        (self.memory[self.pc as int] * 256 + self.memory[self.pc + 1]) as u16
    }

    /// The state after the fetch: the word at the program counter is the
    /// current instruction. Nothing changes where it cannot be fetched.
    pub open spec fn fetched(self) -> Machine {
        if self.can_fetch() {
            Machine { opcode: self.word_at_pc(), ..self }
        } else {
            self
        }
    }

    /// The fetched instruction is decoded and executed; a word that names no
    /// operation is a decode fault.
    pub open spec fn dispatch(self, random: u8) -> Outcome {
        match decode_spec(self.opcode) {
            Some(operation) => self.execute(operation, random),
            None => self.refuse(FaultKind::DecodeFault),
        }
    }

    /// A fault ends the run: the machine keeps it.
    pub open spec fn latch(outcome: Outcome) -> Outcome {
        match outcome.status {
            Status::Fault(f) => Outcome {
                machine: Machine { fault: Some(f), ..outcome.machine },
                status: outcome.status,
            },
            _ => outcome,
        }
    }

    /// One step of the machine, where `random` is the byte that a random
    /// instruction draws.
    ///
    /// After a fault nothing changes any more, and the fault is reported
    /// again. A blocked machine goes on with its key wait. A running machine
    /// fetches the instruction at the program counter, which is a memory
    /// fault where its two bytes do not lie in memory, decodes it and
    /// executes it.
    pub open spec fn step(self, random: u8) -> Outcome {
        match self.fault {
            Some(f) => Outcome { machine: self, status: Status::Fault(f) },
            None => if self.blocked {
                self.ld_vx_k()
            } else if !self.can_fetch() {
                Self::latch(self.refuse(FaultKind::MemoryFault))
            } else {
                Self::latch(self.fetched().dispatch(random))
            },
        }
    }
}

} // verus!
