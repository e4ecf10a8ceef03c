use vstd::prelude::*;
use crate::display::{sprite_covers, DisplayView};
use crate::fault::{FaultKind, Status};
use crate::machine::{wrap16, Machine, Outcome};
use crate::opcode::{nnn_of, Operation};

verus! {

/// Every instruction keeps a well-formed machine well-formed.
pub proof fn execute_preserves_wf(m: Machine, operation: Operation, random: u8)
    requires
        m.wf(),
    ensures
        m.execute(operation, random).machine.wf(),
{
}

/// Every step keeps a well-formed machine well-formed.
pub proof fn step_preserves_wf(m: Machine, random: u8)
    requires
        m.wf(),
    ensures
        m.step(random).machine.wf(),
{
    if m.fault.is_none() && !m.blocked && m.can_fetch() {
        let f = m.fetched();
        match crate::opcode::decode_spec(f.opcode) {
            Some(operation) => {
                execute_preserves_wf(f, operation, random);
            },
            None => {},
        }
    }
}

/// After a fault the machine does not move: every further step leaves it as
/// it is and reports the same fault.
pub proof fn fault_is_final(m: Machine, random: u8)
    requires
        m.fault.is_some(),
    ensures
        m.step(random).machine == m,
        m.step(random).status == Status::Fault(m.fault.unwrap()),
{
}

/// A step that reports a fault leaves the machine in that fault and changes
/// nothing else but the current instruction word, which is the one that was
/// fetched. A step that reports none leaves the machine without a fault.
pub proof fn fault_is_kept(m: Machine, random: u8)
    requires
        m.wf(),
        m.fault.is_none(),
    ensures
        m.step(random).status matches Status::Fault(f) ==> m.step(random).machine == (Machine {
            fault: Some(f),
            opcode: if m.blocked {
                m.opcode
            } else {
                m.fetched().opcode
            },
            ..m
        }),
        !(m.step(random).status is Fault) ==> m.step(random).machine.fault.is_none(),
{
}

/// The machine after nested calls: call `i` is made with the program counter
/// at `sites[i]` and `words[i]` for the current instruction word.
pub open spec fn after_calls(m: Machine, sites: Seq<u16>, words: Seq<u16>) -> Machine {
    if sites.len() == 0 {
        m
    } else {
        call_at(m, sites, words, sites.len() - 1).machine
    }
}

/// Call `i` of the nested calls: the call instruction on the machine that
/// the calls before it left, with the program counter at `sites[i]` and
/// `words[i]` for the current instruction word.
pub open spec fn call_at(m: Machine, sites: Seq<u16>, words: Seq<u16>, i: int) -> Outcome
    decreases i + 1,
    when 0 <= i
{
    let before = if i == 0 {
        m
    } else {
        call_at(m, sites, words, i - 1).machine
    };
    Machine { pc: sites[i], opcode: words[i], ..before }.call_addr()
}

/// Return `k`, counted from 1, of the returns that follow the nested calls.
pub open spec fn return_at(m: Machine, sites: Seq<u16>, words: Seq<u16>, k: int) -> Outcome
    decreases k,
    when 1 <= k
{
    let before = if k == 1 {
        after_calls(m, sites, words)
    } else {
        return_at(m, sites, words, k - 1).machine
    };
    before.ret()
}

/// What the first `i + 1` nested calls leave: the stack pointer moved up by
/// `i + 1`, and the address behind each call in its slot of the call stack.
proof fn calls_fill_the_stack(m: Machine, sites: Seq<u16>, words: Seq<u16>, i: int)
    requires
        m.wf(),
        0 <= i < sites.len(),
        m.sp + sites.len() <= 16,
    ensures
        call_at(m, sites, words, i).status == Status::Running,
        call_at(m, sites, words, i).machine.wf(),
        call_at(m, sites, words, i).machine.sp == m.sp + i + 1,
        call_at(m, sites, words, i).machine.pc == nnn_of(words[i]),
        forall|j: int|
            0 <= j <= i ==> #[trigger] call_at(m, sites, words, i).machine.stack[m.sp + j]
                == wrap16(sites[j] + 2),
        forall|j: int|
            0 <= j < m.sp ==> #[trigger] call_at(m, sites, words, i).machine.stack[j]
                == m.stack[j],
    decreases i,
{
    if i > 0 {
        calls_fill_the_stack(m, sites, words, i - 1);
    }
}

/// What the first `k` returns after the nested calls leave: the stack
/// pointer moved down by `k`, the call stack as the calls left it, and the
/// program counter behind the call that was made last among those not yet
/// returned from.
proof fn returns_empty_the_stack(m: Machine, sites: Seq<u16>, words: Seq<u16>, k: int)
    requires
        m.wf(),
        1 <= k <= sites.len(),
        m.sp + sites.len() <= 16,
    ensures
        return_at(m, sites, words, k).status == Status::Running,
        return_at(m, sites, words, k).machine.wf(),
        return_at(m, sites, words, k).machine.sp == m.sp + sites.len() - k,
        return_at(m, sites, words, k).machine.stack == after_calls(m, sites, words).stack,
        return_at(m, sites, words, k).machine.pc == wrap16(sites[sites.len() - k] + 2),
    decreases k,
{
    calls_fill_the_stack(m, sites, words, sites.len() - 1);
    let c = after_calls(m, sites, words);
    assert(c.stack[m.sp + (sites.len() - k)] == wrap16(sites[sites.len() - k] + 2));
    if k > 1 {
        returns_empty_the_stack(m, sites, words, k - 1);
    }
}

/// Nested calls and returns, to any depth that the call stack holds. On a
/// machine with room for them on its call stack, calls made one inside the
/// other all run; so do as many returns, and they come back last in first
/// out: return `k` leaves the program counter behind the call that was made
/// `k`-th from last, and the last return leaves the stack pointer where it
/// was before the first call.
pub proof fn nested_calls_return_in_reverse(m: Machine, sites: Seq<u16>, words: Seq<u16>)
    requires
        m.wf(),
        m.sp + sites.len() <= 16,
    ensures
        forall|i: int|
            0 <= i < sites.len() ==> {
                &&& (#[trigger] call_at(m, sites, words, i)).status == Status::Running
                &&& call_at(m, sites, words, i).machine.pc == nnn_of(words[i])
                &&& call_at(m, sites, words, i).machine.sp == m.sp + i + 1
            },
        forall|k: int|
            1 <= k <= sites.len() ==> {
                &&& (#[trigger] return_at(m, sites, words, k)).status == Status::Running
                &&& return_at(m, sites, words, k).machine.pc == wrap16(
                    sites[sites.len() - k] + 2,
                )
                &&& return_at(m, sites, words, k).machine.sp == m.sp + sites.len() - k
            },
{
    assert forall|i: int| 0 <= i < sites.len() implies {
        &&& (#[trigger] call_at(m, sites, words, i)).status == Status::Running
        &&& call_at(m, sites, words, i).machine.pc == nnn_of(words[i])
        &&& call_at(m, sites, words, i).machine.sp == m.sp + i + 1
    } by {
        calls_fill_the_stack(m, sites, words, i);
    }
    assert forall|k: int| 1 <= k <= sites.len() implies {
        &&& (#[trigger] return_at(m, sites, words, k)).status == Status::Running
        &&& return_at(m, sites, words, k).machine.pc == wrap16(sites[sites.len() - k] + 2)
        &&& return_at(m, sites, words, k).machine.sp == m.sp + sites.len() - k
    } by {
        returns_empty_the_stack(m, sites, words, k);
    }
}

/// A blocked machine executes nothing: while no key has gone down since it
/// blocked, a step changes nothing and reports `Blocked`; once one has, the
/// step hands the oldest such key to the register that the key wait names
/// and the machine runs on behind the key wait.
pub proof fn blocked_until_key_down(m: Machine, random: u8)
    requires
        m.wf(),
        m.fault.is_none(),
        m.blocked,
    ensures
        m.keyboard.pending.len() == 0 ==> m.step(random).machine == m && m.step(random).status
            == Status::Blocked,
        m.keyboard.pending.len() > 0 ==> {
            &&& m.step(random).status == Status::Running
            &&& !m.step(random).machine.blocked
            &&& m.step(random).machine.registers == m.registers.update(
                m.x(),
                m.keyboard.pending[0],
            )
            &&& m.step(random).machine.pc == wrap16(m.pc + 2)
            &&& m.keyboard.pending[0] < 16
        },
{
}

/// The key wait on a running machine blocks it, whatever keys went down
/// before.
pub proof fn key_wait_blocks(m: Machine)
    requires
        m.wf(),
        !m.blocked,
    ensures
        m.ld_vx_k().status == Status::Blocked,
        m.ld_vx_k().machine.blocked,
        m.ld_vx_k().machine.keyboard.pending.len() == 0,
        m.ld_vx_k().machine.pc == m.pc,
        m.ld_vx_k().machine.registers == m.registers,
{
}

/// Whether an operation sets the program counter itself or may skip.
pub open spec fn transfers_control(operation: Operation) -> bool {
    matches!(
        operation,
        Operation::Ret | Operation::JpAddr | Operation::CallAddr | Operation::JpV0Addr
            | Operation::SeVxByte | Operation::SneVxByte | Operation::SeVxVy | Operation::SneVxVy
            | Operation::SkpVx | Operation::SknpVx | Operation::LdVxK
    )
}

/// An instruction that runs and does not transfer control moves the program
/// counter by exactly 2; one that faults does not move it.
pub proof fn step_advances_by_two(m: Machine, random: u8)
    requires
        m.wf(),
        m.fault.is_none(),
        !m.blocked,
    ensures
        m.step(random).status is Fault ==> m.step(random).machine.pc == m.pc,
        m.can_fetch() && m.step(random).status == Status::Running ==> (
        match crate::opcode::decode_spec(m.word_at_pc()) {
            Some(operation) => !transfers_control(operation) ==> m.step(random).machine.pc == m.pc
                + 2,
            None => false,
        }),
{
}

/// Loading a byte into a register: that register then holds the byte, and
/// every other register holds what it held.
pub proof fn load_byte_sets_one_register(m: Machine)
    requires
        m.wf(),
    ensures
        m.ld_vx_byte().status == Status::Running,
        m.ld_vx_byte().machine.registers.len() == 16,
        m.ld_vx_byte().machine.registers[m.x()] == m.nn(),
        forall|r: int|
            0 <= r < 16 && r != m.x() ==> #[trigger] m.ld_vx_byte().machine.registers[r]
                == m.registers[r],
{
}

/// A call followed by a return. With room on the call stack both run, and
/// the return leaves the program counter behind the call, the stack
/// pointer where it was, and registers, memory and display untouched.
pub proof fn call_then_return(m: Machine)
    requires
        m.wf(),
        m.sp < 16,
    ensures
        m.call_addr().status == Status::Running,
        m.call_addr().machine.pc == m.nnn(),
        m.call_addr().machine.sp == m.sp + 1,
        m.call_addr().machine.ret().status == Status::Running,
        m.call_addr().machine.ret().machine.pc == wrap16(m.pc + 2),
        m.call_addr().machine.ret().machine.sp == m.sp,
        m.call_addr().machine.ret().machine == (Machine {
            pc: wrap16(m.pc + 2),
            stack: m.stack.update(m.sp as int, wrap16(m.pc + 2)),
            ..m
        }),
{
}

/// A call on a full call stack is a stack fault and changes nothing; so is a
/// return on an empty one.
pub proof fn stack_faults(m: Machine)
    requires
        m.wf(),
    ensures
        m.sp == 16 ==> m.call_addr() == m.refuse(FaultKind::StackFault),
        m.sp == 0 ==> m.ret() == m.refuse(FaultKind::StackFault),
        m.refuse(FaultKind::StackFault).machine == m,
{
}

/// Drawing a sprite twice at the same place restores the pixels. The second
/// draw reports a collision exactly if the first one lit a pixel.
pub proof fn draw_twice_restores(d: DisplayView, sprite: Seq<u8>, x: int, y: int)
    requires
        d.wf(),
    ensures
        d.xor_sprite(sprite, x, y).xor_sprite(sprite, x, y).pixels == d.pixels,
        d.xor_sprite(sprite, x, y).collides(sprite, x, y) <==> exists|p: int|
            0 <= p < 2048 && !d.pixels[p] && #[trigger] sprite_covers(sprite, x, y, p),
{
    let once = d.xor_sprite(sprite, x, y);
    assert(once.xor_sprite(sprite, x, y).pixels =~= d.pixels);
    if once.collides(sprite, x, y) {
        let p = choose|p: int|
            0 <= p < 2048 && once.pixels[p] && #[trigger] sprite_covers(sprite, x, y, p);
        assert(!d.pixels[p]);
    }
    if exists|p: int| 0 <= p < 2048 && !d.pixels[p] && #[trigger] sprite_covers(sprite, x, y, p) {
        let p = choose|p: int|
            0 <= p < 2048 && !d.pixels[p] && #[trigger] sprite_covers(sprite, x, y, p);
        assert(once.pixels[p]);
    }
}

/// The same for the draw instruction: where neither coordinate register is
/// the flag register, executing it twice restores the pixels. It faults
/// exactly where its sprite leaves memory, and on a dark display the first
/// draw reports no collision.
pub proof fn draw_instruction_twice_restores(m: Machine)
    requires
        m.wf(),
        m.x() != 15,
        m.y() != 15,
    ensures
        m.drw_vx_vy_nibble().machine.drw_vx_vy_nibble().machine.display.pixels == m.display.pixels,
        m.drw_vx_vy_nibble().status is Fault <==> m.sprite_out_of_memory(),
        m.drw_vx_vy_nibble().machine.drw_vx_vy_nibble().status == m.drw_vx_vy_nibble().status,
        !m.sprite_out_of_memory() && m.display.pixels == DisplayView::blank().pixels
            ==> m.drw_vx_vy_nibble().machine.registers[15] == 0,
{
    if !m.sprite_out_of_memory() {
        let once = m.drw_vx_vy_nibble().machine;
        assert(once.sprite() =~= m.sprite());
        assert(once.vx() == m.vx());
        assert(once.vy() == m.vy());
        draw_twice_restores(m.display, m.sprite(), m.vx() as int, m.vy() as int);
    }
}

} // verus!
