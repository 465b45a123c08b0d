use vstd::prelude::*;
use crate::constants::MEMORY_SIZE;
use crate::display::{blank_frame, collides, draw};
use crate::error::{CpuError, KeypadError, MemoryError};
use crate::machine::{done, failed, CpuView, Machine, Outcome};

verus! {

/// The instructions of the base set. `x` and `y` name registers, `nn` is
/// an immediate byte, `addr` a twelve-bit address and `n` a row count.
#[derive(Debug, Clone, Copy, PartialEq, Eq)]
pub enum Instruction {
    /// `0000`: do nothing.
    Nop,
    /// `00E0`: turn every pixel dark.
    ClearScreen,
    /// `00EE`: return from a subroutine.
    Return,
    /// `1NNN`: continue at `addr`.
    Jump { addr: u16 },
    /// `2NNN`: call the subroutine at `addr`.
    Call { addr: u16 },
    /// `3XNN`: skip the next instruction if `Vx == nn`.
    SkipEqImm { x: u8, nn: u8 },
    /// `4XNN`: skip the next instruction if `Vx != nn`.
    SkipNeImm { x: u8, nn: u8 },
    /// `5XY0`: skip the next instruction if `Vx == Vy`.
    SkipEq { x: u8, y: u8 },
    /// `6XNN`: `Vx := nn`.
    LoadImm { x: u8, nn: u8 },
    /// `7XNN`: `Vx := Vx + nn`, wrapping, flag untouched.
    AddImm { x: u8, nn: u8 },
    /// `8XY0`: `Vx := Vy`.
    Move { x: u8, y: u8 },
    /// `8XY1`: `Vx := Vx | Vy`.
    Or { x: u8, y: u8 },
    /// `8XY2`: `Vx := Vx & Vy`.
    And { x: u8, y: u8 },
    /// `8XY3`: `Vx := Vx ^ Vy`.
    Xor { x: u8, y: u8 },
    /// `8XY4`: `Vx := Vx + Vy`, `VF :=` carry.
    Add { x: u8, y: u8 },
    /// `8XY5`: `Vx := Vx - Vy`, `VF :=` no borrow.
    Sub { x: u8, y: u8 },
    /// `8XY6`: `Vx := Vy >> 1`, `VF :=` the bit shifted out.
    ShiftRight { x: u8, y: u8 },
    /// `8XY7`: `Vx := Vy - Vx`, `VF :=` no borrow.
    SubFrom { x: u8, y: u8 },
    /// `8XYE`: `Vx := Vy << 1`, `VF :=` the bit shifted out.
    ShiftLeft { x: u8, y: u8 },
    /// `9XY0`: skip the next instruction if `Vx != Vy`.
    SkipNe { x: u8, y: u8 },
    /// `ANNN`: `I := addr`.
    LoadIndex { addr: u16 },
    /// `BNNN`: continue at `addr + V0`.
    JumpOffset { addr: u16 },
    /// `CXNN`: `Vx :=` a random byte masked with `nn`.
    Random { x: u8, nn: u8 },
    /// `DXYN`: draw the `n`-row sprite at `I` at `(Vx, Vy)`, `VF :=` collision.
    Draw { x: u8, y: u8, n: u8 },
    /// `EX9E`: skip the next instruction if key `Vx` is down.
    SkipKey { x: u8 },
    /// `EXA1`: skip the next instruction if key `Vx` is up.
    SkipNoKey { x: u8 },
    /// `FX07`: `Vx :=` delay timer.
    ReadDelay { x: u8 },
    /// `FX0A`: wait for a key and put its index in `Vx`.
    WaitKey { x: u8 },
    /// `FX15`: delay timer `:= Vx`.
    SetDelay { x: u8 },
    /// `FX18`: sound timer `:= Vx`.
    SetSound { x: u8 },
    /// `FX1E`: `I := I + Vx`, wrapping.
    AddIndex { x: u8 },
    /// `FX29`: `I :=` the address of the font glyph for `Vx`.
    FontAddr { x: u8 },
    /// `FX33`: store the decimal digits of `Vx` at `I`, `I + 1`, `I + 2`.
    Bcd { x: u8 },
    /// `FX55`: store `V0..=Vx` at `I`, advancing `I`.
    Store { x: u8 },
    /// `FX65`: load `V0..=Vx` from `I`, advancing `I`.
    Load { x: u8 },
}

/// The first (most significant) nibble of an instruction word.
pub open spec fn nibble1(op: u16) -> u8 {
    (op / 0x1000) as u8
}

/// The second nibble of an instruction word: the register `x`.
pub open spec fn nibble2(op: u16) -> u8 {
    ((op / 0x100) % 0x10) as u8
}

/// The third nibble of an instruction word: the register `y`.
pub open spec fn nibble3(op: u16) -> u8 {
    ((op / 0x10) % 0x10) as u8
}

/// The fourth (least significant) nibble of an instruction word.
pub open spec fn nibble4(op: u16) -> u8 {
    (op % 0x10) as u8
}

/// The low byte of an instruction word: the immediate `nn`.
pub open spec fn low_byte(op: u16) -> u8 {
    (op % 0x100) as u8
}

/// The low twelve bits of an instruction word: the address `nnn`.
pub open spec fn low_address(op: u16) -> u16 {
    op % 0x1000
}

/// The instruction that the word `op` encodes, if it encodes one.
pub open spec fn decode_spec(op: u16) -> Option<Instruction> {
    let k = nibble1(op);
    let x = nibble2(op);
    let y = nibble3(op);
    let n = nibble4(op);
    let nn = low_byte(op);
    let addr = low_address(op);
    if op == 0x0000 {
        Some(Instruction::Nop)
    } else if op == 0x00E0 {
        Some(Instruction::ClearScreen)
    } else if op == 0x00EE {
        Some(Instruction::Return)
    } else if k == 0x1 {
        Some(Instruction::Jump { addr })
    } else if k == 0x2 {
        Some(Instruction::Call { addr })
    } else if k == 0x3 {
        Some(Instruction::SkipEqImm { x, nn })
    } else if k == 0x4 {
        Some(Instruction::SkipNeImm { x, nn })
    } else if k == 0x5 && n == 0x0 {
        Some(Instruction::SkipEq { x, y })
    } else if k == 0x6 {
        Some(Instruction::LoadImm { x, nn })
    } else if k == 0x7 {
        Some(Instruction::AddImm { x, nn })
    } else if k == 0x8 && n == 0x0 {
        Some(Instruction::Move { x, y })
    } else if k == 0x8 && n == 0x1 {
        Some(Instruction::Or { x, y })
    } else if k == 0x8 && n == 0x2 {
        Some(Instruction::And { x, y })
    } else if k == 0x8 && n == 0x3 {
        Some(Instruction::Xor { x, y })
    } else if k == 0x8 && n == 0x4 {
        Some(Instruction::Add { x, y })
    } else if k == 0x8 && n == 0x5 {
        Some(Instruction::Sub { x, y })
    } else if k == 0x8 && n == 0x6 {
        Some(Instruction::ShiftRight { x, y })
    } else if k == 0x8 && n == 0x7 {
        Some(Instruction::SubFrom { x, y })
    } else if k == 0x8 && n == 0xE {
        Some(Instruction::ShiftLeft { x, y })
    } else if k == 0x9 && n == 0x0 {
        Some(Instruction::SkipNe { x, y })
    } else if k == 0xA {
        Some(Instruction::LoadIndex { addr })
    } else if k == 0xB {
        Some(Instruction::JumpOffset { addr })
    } else if k == 0xC {
        Some(Instruction::Random { x, nn })
    } else if k == 0xD {
        Some(Instruction::Draw { x, y, n })
    } else if k == 0xE && nn == 0x9E {
        Some(Instruction::SkipKey { x })
    } else if k == 0xE && nn == 0xA1 {
        Some(Instruction::SkipNoKey { x })
    } else if k == 0xF && nn == 0x07 {
        Some(Instruction::ReadDelay { x })
    } else if k == 0xF && nn == 0x0A {
        Some(Instruction::WaitKey { x })
    } else if k == 0xF && nn == 0x15 {
        Some(Instruction::SetDelay { x })
    } else if k == 0xF && nn == 0x18 {
        Some(Instruction::SetSound { x })
    } else if k == 0xF && nn == 0x1E {
        Some(Instruction::AddIndex { x })
    } else if k == 0xF && nn == 0x29 {
        Some(Instruction::FontAddr { x })
    } else if k == 0xF && nn == 0x33 {
        Some(Instruction::Bcd { x })
    } else if k == 0xF && nn == 0x55 {
        Some(Instruction::Store { x })
    } else if k == 0xF && nn == 0x65 {
        Some(Instruction::Load { x })
    } else {
        None
    }
}

impl Instruction {
    /// Whether the operands fit their fields: registers and row counts
    /// below 16, addresses below 4096.
    pub open spec fn wf(self) -> bool {
        match self {
            Instruction::Nop | Instruction::ClearScreen | Instruction::Return => true,
            Instruction::Jump { addr }
            | Instruction::Call { addr }
            | Instruction::LoadIndex { addr }
            | Instruction::JumpOffset { addr } => addr < 0x1000,
            Instruction::SkipEqImm { x, nn }
            | Instruction::SkipNeImm { x, nn }
            | Instruction::LoadImm { x, nn }
            | Instruction::AddImm { x, nn }
            | Instruction::Random { x, nn } => x < 16,
            Instruction::SkipEq { x, y }
            | Instruction::Move { x, y }
            | Instruction::Or { x, y }
            | Instruction::And { x, y }
            | Instruction::Xor { x, y }
            | Instruction::Add { x, y }
            | Instruction::Sub { x, y }
            | Instruction::ShiftRight { x, y }
            | Instruction::SubFrom { x, y }
            | Instruction::ShiftLeft { x, y }
            | Instruction::SkipNe { x, y } => x < 16 && y < 16,
            Instruction::Draw { x, y, n } => x < 16 && y < 16 && n < 16,
            Instruction::SkipKey { x }
            | Instruction::SkipNoKey { x }
            | Instruction::ReadDelay { x }
            | Instruction::WaitKey { x }
            | Instruction::SetDelay { x }
            | Instruction::SetSound { x }
            | Instruction::AddIndex { x }
            | Instruction::FontAddr { x }
            | Instruction::Bcd { x }
            | Instruction::Store { x }
            | Instruction::Load { x } => x < 16,
        }
    }
}

/// Decodes the instruction word `op`: splits it into its four nibbles and
/// dispatches on them. A word outside the base set gives `None`.
pub fn decode(op: u16) -> (instruction: Option<Instruction>)
    ensures
        instruction == decode_spec(op),
        instruction matches Some(i) ==> i.wf(),
{
    let n1 = (op & 0xF000) >> 12;
    let n2 = (op & 0x0F00) >> 8;
    let n3 = (op & 0x00F0) >> 4;
    let n4 = op & 0x000F;
    let low = op & 0x00FF;
    let addr = op & 0x0FFF;
    assert(n1 == op / 0x1000) by (bit_vector)
        requires
            n1 == (op & 0xF000) >> 12,
    ;
    assert(n2 == (op / 0x100) % 0x10) by (bit_vector)
        requires
            n2 == (op & 0x0F00) >> 8,
    ;
    assert(n3 == (op / 0x10) % 0x10) by (bit_vector)
        requires
            n3 == (op & 0x00F0) >> 4,
    ;
    assert(n4 == op % 0x10) by (bit_vector)
        requires
            n4 == op & 0x000F,
    ;
    assert(low == op % 0x100) by (bit_vector)
        requires
            low == op & 0x00FF,
    ;
    assert(addr == op % 0x1000) by (bit_vector)
        requires
            addr == op & 0x0FFF,
    ;
    let x = n2 as u8;
    let y = n3 as u8;
    let n = n4 as u8;
    let nn = low as u8;
    match (n1, n2, n3, n4) {
        (0, 0, 0, 0) => Some(Instruction::Nop),
        (0, 0, 0xE, 0) => Some(Instruction::ClearScreen),
        (0, 0, 0xE, 0xE) => Some(Instruction::Return),
        (1, _, _, _) => Some(Instruction::Jump { addr }),
        (2, _, _, _) => Some(Instruction::Call { addr }),
        (3, _, _, _) => Some(Instruction::SkipEqImm { x, nn }),
        (4, _, _, _) => Some(Instruction::SkipNeImm { x, nn }),
        (5, _, _, 0) => Some(Instruction::SkipEq { x, y }),
        (6, _, _, _) => Some(Instruction::LoadImm { x, nn }),
        (7, _, _, _) => Some(Instruction::AddImm { x, nn }),
        (8, _, _, 0) => Some(Instruction::Move { x, y }),
        (8, _, _, 1) => Some(Instruction::Or { x, y }),
        (8, _, _, 2) => Some(Instruction::And { x, y }),
        (8, _, _, 3) => Some(Instruction::Xor { x, y }),
        (8, _, _, 4) => Some(Instruction::Add { x, y }),
        (8, _, _, 5) => Some(Instruction::Sub { x, y }),
        (8, _, _, 6) => Some(Instruction::ShiftRight { x, y }),
        (8, _, _, 7) => Some(Instruction::SubFrom { x, y }),
        (8, _, _, 0xE) => Some(Instruction::ShiftLeft { x, y }),
        (9, _, _, 0) => Some(Instruction::SkipNe { x, y }),
        (0xA, _, _, _) => Some(Instruction::LoadIndex { addr }),
        (0xB, _, _, _) => Some(Instruction::JumpOffset { addr }),
        (0xC, _, _, _) => Some(Instruction::Random { x, nn }),
        (0xD, _, _, _) => Some(Instruction::Draw { x, y, n }),
        (0xE, _, 9, 0xE) => Some(Instruction::SkipKey { x }),
        (0xE, _, 0xA, 1) => Some(Instruction::SkipNoKey { x }),
        (0xF, _, 0, 7) => Some(Instruction::ReadDelay { x }),
        (0xF, _, 0, 0xA) => Some(Instruction::WaitKey { x }),
        (0xF, _, 1, 5) => Some(Instruction::SetDelay { x }),
        (0xF, _, 1, 8) => Some(Instruction::SetSound { x }),
        (0xF, _, 1, 0xE) => Some(Instruction::AddIndex { x }),
        (0xF, _, 2, 9) => Some(Instruction::FontAddr { x }),
        (0xF, _, 3, 3) => Some(Instruction::Bcd { x }),
        (0xF, _, 5, 5) => Some(Instruction::Store { x }),
        (0xF, _, 6, 5) => Some(Instruction::Load { x }),
        _ => None,
    }
}

/// The flag value for a condition: 1 if it holds, 0 if not.
pub open spec fn flag(condition: bool) -> u8 {
    if condition {
        1
    } else {
        0
    }
}

/// Whether some key is held down.
pub open spec fn any_pressed(keys: Seq<bool>) -> bool {
    exists|k: int| 0 <= k < keys.len() && #[trigger] keys[k]
}

/// Whether `k` is a key that is held down while no key below it is.
pub open spec fn is_lowest_pressed(keys: Seq<bool>, k: int) -> bool {
    &&& 0 <= k < keys.len()
    &&& keys[k]
    &&& forall|j: int| 0 <= j < k ==> !#[trigger] keys[j]
}

/// The key with the lowest index among those held down.
pub open spec fn lowest_pressed(keys: Seq<bool>) -> int {
    choose|k: int| is_lowest_pressed(keys, k)
}

/// How many of `wanted` consecutive bytes starting at `start` lie inside
/// RAM.
pub open spec fn span(start: u16, wanted: int) -> int {
    let room = if start < MEMORY_SIZE {
        MEMORY_SIZE - start
    } else {
        0
    };
    if wanted <= room {
        wanted
    } else {
        room
    }
}

/// The hundreds, tens and ones digits of a byte.
pub open spec fn digits(value: u8) -> Seq<u8> {
    seq![value / 100, (value / 10) % 10, value % 10]
}

/// `00EE`: the stack pointer steps back and the program counter takes the
/// address found there. With an empty stack the pointer stays and the
/// pop fails at the slot below zero, which wraps to 65535.
pub open spec fn apply_return(m: Machine) -> Outcome {
    let slot = m.cpu.sp.wrapping_sub(1);
    if slot < m.memory.stack.len() {
        done(Machine { cpu: CpuView { sp: slot, pc: m.memory.stack[slot as int], ..m.cpu }, ..m })
    } else {
        failed(m, CpuError::Memory { source: MemoryError::StackUnderflow { sp: slot as usize } })
    }
}

/// `2NNN`: the program counter is pushed, the stack pointer advances and
/// execution continues at `addr`. With a full stack nothing changes and
/// the push fails.
pub open spec fn apply_call(m: Machine, addr: u16) -> Outcome {
    if m.cpu.sp < m.memory.stack.len() {
        done(
            Machine {
                cpu: CpuView { sp: (m.cpu.sp + 1) as u16, pc: addr, ..m.cpu },
                memory: m.memory.with_slot(m.cpu.sp as int, m.cpu.pc),
                ..m
            },
        )
    } else {
        failed(m, CpuError::Memory { source: MemoryError::StackOverflow { sp: m.cpu.sp as usize } })
    }
}

/// `DXYN`: the `n` bytes at `I` are drawn at `(Vx, Vy)` and `VF` receives
/// the collision flag. If they do not all lie inside RAM nothing changes
/// and the read fails.
pub open spec fn apply_draw(m: Machine, x: u8, y: u8, n: u8) -> Outcome {
    let start = m.cpu.i;
    let end = start.wrapping_add(n as u16);
    if start <= end <= MEMORY_SIZE {
        let sprite = m.memory.ram.subrange(start as int, end as int);
        let px = m.reg(x) as int;
        let py = m.reg(y) as int;
        done(
            Machine { display: draw(m.display, px, py, sprite), ..m }.with_reg(
                0xF,
                flag(collides(m.display, px, py, sprite)),
            ),
        )
    } else {
        failed(m, CpuError::Memory { source: MemoryError::OutOfBoundsReadRange { start, end } })
    }
}

/// `EX9E` and `EXA1`: the next instruction is skipped if key `Vx` is in
/// the state `wanted`. If `Vx` names no key nothing changes and the
/// query fails.
pub open spec fn apply_skip_key(m: Machine, x: u8, wanted: bool) -> Outcome {
    let key = m.reg(x);
    if key < m.keys.len() {
        done(m.skip_if(m.keys[key as int] == wanted))
    } else {
        failed(m, CpuError::Keypad { source: KeypadError::OutOfBoundsKeyIndex { idx: key as usize } })
    }
}

/// `FX0A`: with a key down, `Vx` receives the lowest such key. With none
/// down the program counter steps back over this instruction, so that it
/// runs again.
pub open spec fn apply_wait_key(m: Machine, x: u8) -> Outcome {
    if any_pressed(m.keys) {
        done(m.with_reg(x, lowest_pressed(m.keys) as u8))
    } else {
        done(m.with_pc(m.cpu.pc.wrapping_sub(2)))
    }
}

/// The outcome of storing `data` at `I`: the bytes that lie inside RAM are
/// written in order, and the store fails at the first address outside it.
pub open spec fn store_at_index(m: Machine, data: Seq<u8>, advance: bool) -> Outcome {
    let start = m.cpu.i;
    let count = span(start, data.len() as int);
    let after = Machine {
        memory: m.memory.with_bytes(start as int, data.subrange(0, count)),
        ..m
    }.with_i(if advance { (start + count) as u16 } else { start });
    if count == data.len() {
        done(after)
    } else {
        failed(
            after,
            CpuError::Memory { source: MemoryError::OutOfBoundsWrite { addr: (start + count) as u16 } },
        )
    }
}

/// `FX65`: registers `V0..=Vx` are loaded in order from the bytes at `I`
/// that lie inside RAM, `I` moves past them, and the load fails at the
/// first address outside it.
pub open spec fn apply_load(m: Machine, x: u8) -> Outcome {
    let start = m.cpu.i;
    let count = span(start, x + 1);
    let after = Machine {
        cpu: CpuView {
            v: Seq::new(
                m.cpu.v.len(),
                |k: int| if k < count { m.memory.ram[start + k] } else { m.cpu.v[k] },
            ),
            i: (start + count) as u16,
            ..m.cpu
        },
        ..m
    };
    if count == x + 1 {
        done(after)
    } else {
        failed(
            after,
            CpuError::Memory { source: MemoryError::OutOfBoundsRead { addr: (start + count) as u16 } },
        )
    }
}

/// What executing `instruction` does to the machine `m`, whose program
/// counter already points past the instruction. `random` is the byte that
/// the random-number instruction draws.
pub open spec fn apply(m: Machine, instruction: Instruction, random: u8) -> Outcome {
    match instruction {
        Instruction::Nop => done(m),
        Instruction::ClearScreen => done(Machine { display: blank_frame(), ..m }),
        Instruction::Return => apply_return(m),
        Instruction::Jump { addr } => done(m.with_pc(addr)),
        Instruction::Call { addr } => apply_call(m, addr),
        Instruction::SkipEqImm { x, nn } => done(m.skip_if(m.reg(x) == nn)),
        Instruction::SkipNeImm { x, nn } => done(m.skip_if(m.reg(x) != nn)),
        Instruction::SkipEq { x, y } => done(m.skip_if(m.reg(x) == m.reg(y))),
        Instruction::LoadImm { x, nn } => done(m.with_reg(x, nn)),
        Instruction::AddImm { x, nn } => done(m.with_reg(x, ((m.reg(x) + nn) % 256) as u8)),
        Instruction::Move { x, y } => done(m.with_reg(x, m.reg(y))),
        Instruction::Or { x, y } => done(m.with_reg(x, m.reg(x) | m.reg(y))),
        Instruction::And { x, y } => done(m.with_reg(x, m.reg(x) & m.reg(y))),
        Instruction::Xor { x, y } => done(m.with_reg(x, m.reg(x) ^ m.reg(y))),
        Instruction::Add { x, y } => done(
            m.with_reg(x, ((m.reg(x) + m.reg(y)) % 256) as u8).with_reg(
                0xF,
                flag(m.reg(x) + m.reg(y) > 255),
            ),
        ),
        Instruction::Sub { x, y } => done(
            m.with_reg(x, ((m.reg(x) - m.reg(y)) % 256) as u8).with_reg(
                0xF,
                flag(m.reg(x) >= m.reg(y)),
            ),
        ),
        Instruction::ShiftRight { x, y } => done(
            m.with_reg(x, m.reg(y) / 2).with_reg(0xF, m.reg(y) % 2),
        ),
        Instruction::SubFrom { x, y } => done(
            m.with_reg(x, ((m.reg(y) - m.reg(x)) % 256) as u8).with_reg(
                0xF,
                flag(m.reg(y) >= m.reg(x)),
            ),
        ),
        Instruction::ShiftLeft { x, y } => done(
            m.with_reg(x, ((m.reg(y) * 2) % 256) as u8).with_reg(0xF, m.reg(y) / 128),
        ),
        Instruction::SkipNe { x, y } => done(m.skip_if(m.reg(x) != m.reg(y))),
        Instruction::LoadIndex { addr } => done(m.with_i(addr)),
        Instruction::JumpOffset { addr } => done(m.with_pc((addr + m.reg(0)) as u16)),
        Instruction::Random { x, nn } => done(m.with_reg(x, random & nn)),
        Instruction::Draw { x, y, n } => apply_draw(m, x, y, n),
        Instruction::SkipKey { x } => apply_skip_key(m, x, true),
        Instruction::SkipNoKey { x } => apply_skip_key(m, x, false),
        Instruction::ReadDelay { x } => done(m.with_reg(x, m.cpu.dt)),
        Instruction::WaitKey { x } => apply_wait_key(m, x),
        Instruction::SetDelay { x } => done(Machine { cpu: CpuView { dt: m.reg(x), ..m.cpu }, ..m }),
        Instruction::SetSound { x } => done(Machine { cpu: CpuView { st: m.reg(x), ..m.cpu }, ..m }),
        Instruction::AddIndex { x } => done(m.with_i(m.cpu.i.wrapping_add(m.reg(x) as u16))),
        Instruction::FontAddr { x } => done(m.with_i((m.reg(x) * 5) as u16)),
        Instruction::Bcd { x } => store_at_index(m, digits(m.reg(x)), false),
        Instruction::Store { x } => store_at_index(m, m.cpu.v.subrange(0, x + 1), true),
        Instruction::Load { x } => apply_load(m, x),
    }
}

/// What executing the instruction word `op` does to the machine `m`: the
/// effect of the instruction it encodes, or, if it encodes none, no change
/// and an error that names the word.
pub open spec fn execute_spec(m: Machine, op: u16, random: u8) -> Outcome {
    match decode_spec(op) {
        Some(instruction) => apply(m, instruction, random),
        None => failed(m, CpuError::UnimplementedOpcode { opcode: op }),
    }
}

/// The instruction word at the program counter, high byte first, or the
/// read error for the first of its two bytes that lies outside RAM.
pub open spec fn fetch(m: Machine) -> Result<u16, CpuError> {
    let pc = m.cpu.pc;
    if pc >= MEMORY_SIZE {
        Err(CpuError::Memory { source: MemoryError::OutOfBoundsRead { addr: pc } })
    } else if pc + 1 >= MEMORY_SIZE {
        Err(CpuError::Memory { source: MemoryError::OutOfBoundsRead { addr: (pc + 1) as u16 } })
    } else {
        Ok((m.memory.ram[pc as int] * 256 + m.memory.ram[pc + 1]) as u16)
    }
}

/// Whether the next cycle draws a random byte: the word at the program
/// counter is a `CXNN`.
pub open spec fn draws_random(m: Machine) -> bool {
    fetch(m) matches Ok(op) && nibble1(op) == 0xC
}

/// What one cycle does to the machine `m`: fetch the word at the program
/// counter, move the program counter past it, and execute it. If the
/// fetch fails nothing changes.
pub open spec fn cycle_spec(m: Machine, random: u8) -> Outcome {
    match fetch(m) {
        Ok(op) => execute_spec(m.with_pc((m.cpu.pc + 2) as u16), op, random),
        Err(error) => failed(m, error),
    }
}

/// A key that is down while none below it is, is the lowest key that is
/// down.
pub proof fn lemma_lowest_pressed(keys: Seq<bool>, k: int)
    requires
        is_lowest_pressed(keys, k),
    ensures
        any_pressed(keys),
        lowest_pressed(keys) == k,
{
}

/// Only `CXNN` looks at the random byte: every other instruction word has
/// the same outcome whatever byte is given.
pub proof fn lemma_random_unused(m: Machine, op: u16, random1: u8, random2: u8)
    requires
        op / 0x1000 != 0xC,
    ensures
        execute_spec(m, op, random1) == execute_spec(m, op, random2),
{
}

} // verus!
