use vstd::prelude::*;
use crate::constants::{MEMORY_SIZE, STACK_SIZE};
use crate::display::{collides, lemma_draw_twice_restores};
use crate::error::{CpuError, MemoryError};
use crate::isa::{
    any_pressed, apply, cycle_spec, digits, execute_spec, fetch, flag, is_lowest_pressed,
    lemma_lowest_pressed, low_byte, nibble1, nibble2, nibble3, nibble4, Instruction,
};
use crate::machine::{done, failed, Machine};

verus! {

/// `7XNN` never fails: it leaves `Vx` holding `(Vx + nn) mod 256` and
/// touches nothing else.
pub proof fn lemma_add_immediate_wraps(m: Machine, op: u16, random: u8)
    requires
        m.wf(),
        nibble1(op) == 0x7,
    ensures
        execute_spec(m, op, random) == done(
            m.with_reg(nibble2(op), ((m.reg(nibble2(op)) + low_byte(op)) % 256) as u8),
        ),
        execute_spec(m, op, random).machine.reg(nibble2(op)) == (m.reg(nibble2(op)) + low_byte(op))
            % 256,
{
}

/// `8XY4` never fails and sets `VF` to 1 exactly when `Vx + Vy` exceeds
/// 255. Unless `x` names `VF` itself, `Vx` then holds the sum modulo 256.
pub proof fn lemma_add_sets_carry(m: Machine, op: u16, random: u8)
    requires
        m.wf(),
        nibble1(op) == 0x8,
        nibble4(op) == 0x4,
    ensures
        execute_spec(m, op, random).result is Ok,
        execute_spec(m, op, random).machine.reg(0xF) == flag(
            m.reg(nibble2(op)) + m.reg(nibble3(op)) > 255,
        ),
        nibble2(op) != 0xF ==> execute_spec(m, op, random).machine.reg(nibble2(op)) == (m.reg(
            nibble2(op),
        ) + m.reg(nibble3(op))) % 256,
{
}

/// `8XY5` never fails and sets `VF` to 1 exactly when `Vx >= Vy`, that is
/// when `Vx - Vy` needs no borrow. Unless `x` names `VF` itself, `Vx` then
/// holds the difference modulo 256.
pub proof fn lemma_sub_sets_no_borrow(m: Machine, op: u16, random: u8)
    requires
        m.wf(),
        nibble1(op) == 0x8,
        nibble4(op) == 0x5,
    ensures
        execute_spec(m, op, random).result is Ok,
        execute_spec(m, op, random).machine.reg(0xF) == flag(
            m.reg(nibble2(op)) >= m.reg(nibble3(op)),
        ),
        nibble2(op) != 0xF ==> execute_spec(m, op, random).machine.reg(nibble2(op)) == (m.reg(
            nibble2(op),
        ) - m.reg(nibble3(op))) % 256,
{
}

/// `8XY7` never fails and sets `VF` to 1 exactly when `Vy >= Vx`, that is
/// when `Vy - Vx` needs no borrow. Unless `x` names `VF` itself, `Vx` then
/// holds the difference modulo 256.
pub proof fn lemma_sub_from_sets_no_borrow(m: Machine, op: u16, random: u8)
    requires
        m.wf(),
        nibble1(op) == 0x8,
        nibble4(op) == 0x7,
    ensures
        execute_spec(m, op, random).result is Ok,
        execute_spec(m, op, random).machine.reg(0xF) == flag(
            m.reg(nibble3(op)) >= m.reg(nibble2(op)),
        ),
        nibble2(op) != 0xF ==> execute_spec(m, op, random).machine.reg(nibble2(op)) == (m.reg(
            nibble3(op),
        ) - m.reg(nibble2(op))) % 256,
{
}

/// `DXYN` run twice in a row, on a sprite that lies inside RAM and with
/// coordinate registers other than `VF`, so that both draws go to the
/// same place: both succeed, the display is afterwards what it was
/// before, and the second leaves `VF` at 1 exactly when the first had
/// left a pixel of the sprite lit.
pub proof fn lemma_draw_twice_restores_display(m: Machine, op: u16, random: u8)
    requires
        m.wf(),
        nibble1(op) == 0xD,
        nibble2(op) != 0xF,
        nibble3(op) != 0xF,
        m.cpu.i + nibble4(op) <= MEMORY_SIZE,
    ensures
        execute_spec(m, op, random).result is Ok,
        execute_spec(execute_spec(m, op, random).machine, op, random).result is Ok,
        execute_spec(execute_spec(m, op, random).machine, op, random).machine.display == m.display,
        execute_spec(execute_spec(m, op, random).machine, op, random).machine.reg(0xF) == flag(
            collides(
                execute_spec(m, op, random).machine.display,
                m.reg(nibble2(op)) as int,
                m.reg(nibble3(op)) as int,
                m.memory.ram.subrange(m.cpu.i as int, m.cpu.i + nibble4(op)),
            ),
        ),
{
    let sprite = m.memory.ram.subrange(m.cpu.i as int, m.cpu.i + nibble4(op));
    lemma_draw_twice_restores(
        m.display,
        m.reg(nibble2(op)) as int,
        m.reg(nibble3(op)) as int,
        sprite,
    );
}

/// The digits that `FX33` stores are the decimal digits of the byte.
pub proof fn lemma_digits_are_decimal(value: u8)
    ensures
        digits(value).len() == 3,
        digits(value)[0] < 10 && digits(value)[1] < 10 && digits(value)[2] < 10,
        digits(value)[0] * 100 + digits(value)[1] * 10 + digits(value)[2] == value,
{
}

/// The machine after a series of calls: before call `k` the program
/// counter stands at `sites[k]`, and the call goes to `targets[k]`.
pub open spec fn after_calls(m: Machine, sites: Seq<u16>, targets: Seq<u16>) -> Machine
    decreases sites.len(),
{
    if sites.len() == 0 {
        m
    } else {
        apply(
            after_calls(m, sites.drop_last(), targets.drop_last()).with_pc(sites.last()),
            Instruction::Call { addr: targets.last() },
            0,
        ).machine
    }
}

/// The machine after `count` returns in a row.
pub open spec fn after_returns(m: Machine, count: nat) -> Machine
    decreases count,
{
    if count == 0 {
        m
    } else {
        apply(after_returns(m, (count - 1) as nat), Instruction::Return, 0).machine
    }
}

/// After calls that fit on the stack, the stack pointer has advanced by
/// their number and the slots above the old stack pointer hold the call
/// sites in order; the last call succeeded.
proof fn lemma_calls_fill_stack(m: Machine, sites: Seq<u16>, targets: Seq<u16>)
    requires
        m.wf(),
        sites.len() == targets.len(),
        m.cpu.sp + sites.len() <= STACK_SIZE,
    ensures
        after_calls(m, sites, targets).wf(),
        after_calls(m, sites, targets).cpu.sp == m.cpu.sp + sites.len(),
        forall|k: int|
            0 <= k < sites.len() ==> #[trigger] after_calls(m, sites, targets).memory.stack[m.cpu.sp
                + k] == sites[k],
        sites.len() > 0 ==> apply(
            after_calls(m, sites.drop_last(), targets.drop_last()).with_pc(sites.last()),
            Instruction::Call { addr: targets.last() },
            0,
        ).result is Ok,
    decreases sites.len(),
{
    if sites.len() > 0 {
        lemma_calls_fill_stack(m, sites.drop_last(), targets.drop_last());
    }
}

/// Returns that find enough addresses on the stack succeed, leave the
/// stack as it is, step the stack pointer back, and hand the program
/// counter the address in the slot that they uncover.
proof fn lemma_returns_unwind_stack(m: Machine, count: nat)
    requires
        m.wf(),
        count <= m.cpu.sp <= STACK_SIZE,
    ensures
        after_returns(m, count).wf(),
        after_returns(m, count).memory == m.memory,
        after_returns(m, count).cpu.sp == m.cpu.sp - count,
        count > 0 ==> after_returns(m, count).cpu.pc == m.memory.stack[m.cpu.sp - count],
        count > 0 ==> apply(after_returns(m, (count - 1) as nat), Instruction::Return, 0).result
            is Ok,
    decreases count,
{
    if count > 0 {
        lemma_returns_unwind_stack(m, (count - 1) as nat);
    }
}

/// Calls and returns pair up last in, first out: after calls made from
/// `sites`, which fit on the stack, the `j`-th return that follows
/// succeeds and resumes at the site of the `j`-th most recent call. When
/// every call has been returned from, the stack pointer is back where it
/// was.
pub proof fn lemma_calls_return_in_reverse(
    m: Machine,
    sites: Seq<u16>,
    targets: Seq<u16>,
    j: nat,
)
    requires
        m.wf(),
        sites.len() == targets.len(),
        m.cpu.sp + sites.len() <= STACK_SIZE,
        1 <= j <= sites.len(),
    ensures
        apply(
            after_returns(after_calls(m, sites, targets), (j - 1) as nat),
            Instruction::Return,
            0,
        ).result is Ok,
        after_returns(after_calls(m, sites, targets), j).cpu.pc == sites[sites.len() - j],
        after_returns(after_calls(m, sites, targets), j).cpu.sp == m.cpu.sp + sites.len() - j,
{
    lemma_calls_fill_stack(m, sites, targets);
    let called = after_calls(m, sites, targets);
    lemma_returns_unwind_stack(called, j);
    assert(called.memory.stack[m.cpu.sp + (sites.len() - j)] == sites[sites.len() - j]);
}

/// Every call in a series that fits on the stack succeeds.
pub proof fn lemma_calls_succeed(m: Machine, sites: Seq<u16>, targets: Seq<u16>, k: int)
    requires
        m.wf(),
        sites.len() == targets.len(),
        m.cpu.sp + sites.len() <= STACK_SIZE,
        0 <= k < sites.len(),
    ensures
        apply(
            after_calls(m, sites.take(k), targets.take(k)).with_pc(sites[k]),
            Instruction::Call { addr: targets[k] },
            0,
        ).result is Ok,
{
    lemma_calls_fill_stack(m, sites.take(k), targets.take(k));
}

/// A call on a full stack fails with a stack-overflow error that carries
/// the stack pointer, and changes nothing. With sixteen calls outstanding
/// this is the seventeenth.
pub proof fn lemma_call_on_full_stack_fails(m: Machine, op: u16, random: u8)
    requires
        m.wf(),
        nibble1(op) == 0x2,
        m.cpu.sp >= STACK_SIZE,
    ensures
        execute_spec(m, op, random) == failed(
            m,
            CpuError::Memory { source: MemoryError::StackOverflow { sp: m.cpu.sp as usize } },
        ),
{
}

/// No instruction moves the stack pointer out of the range `0..=16`.
pub proof fn lemma_stack_pointer_stays_in_range(m: Machine, op: u16, random: u8)
    requires
        m.wf(),
        m.cpu.sp <= STACK_SIZE,
    ensures
        execute_spec(m, op, random).machine.cpu.sp <= STACK_SIZE,
        cycle_spec(m, random).machine.cpu.sp <= STACK_SIZE,
{
    lemma_execute_keeps_stack_pointer(m, op, random);
    match fetch(m) {
        Ok(word) => {
            lemma_execute_keeps_stack_pointer(m.with_pc((m.cpu.pc + 2) as u16), word, random);
        },
        Err(_) => {},
    }
}

proof fn lemma_execute_keeps_stack_pointer(m: Machine, op: u16, random: u8)
    requires
        m.wf(),
        m.cpu.sp <= STACK_SIZE,
    ensures
        execute_spec(m, op, random).machine.cpu.sp <= STACK_SIZE,
{
}

/// A cycle that finds `FX0A` with no key down changes nothing at all: the
/// program counter is stepped back onto the instruction, which runs again
/// next cycle.
pub proof fn lemma_wait_key_repeats_while_idle(m: Machine, random: u8)
    requires
        m.wf(),
        fetch(m) matches Ok(op) && nibble1(op) == 0xF && low_byte(op) == 0x0A,
        !any_pressed(m.keys),
    ensures
        cycle_spec(m, random) == done(m),
{
}

/// A cycle that finds `FX0A` with a key down puts the lowest key that is
/// down into `Vx` and moves on to the next instruction.
pub proof fn lemma_wait_key_takes_lowest(m: Machine, random: u8, key: int)
    requires
        m.wf(),
        fetch(m) matches Ok(op) && nibble1(op) == 0xF && low_byte(op) == 0x0A,
        is_lowest_pressed(m.keys, key),
    ensures
        cycle_spec(m, random) == done(
            m.with_pc((m.cpu.pc + 2) as u16).with_reg(nibble2(fetch(m)->Ok_0), key as u8),
        ),
{
    lemma_lowest_pressed(m.keys, key);
}

} // verus!
