use vstd::prelude::*;
use crate::constants::{MEMORY_SIZE, NUM_KEYS, NUM_REGS, PROGRAM_START, STACK_SIZE};
use crate::display::Display;
use crate::error::CpuError;
use crate::input::Keypad;
use crate::isa::{
    apply, apply_call, apply_draw, apply_load, apply_return, apply_skip_key, apply_wait_key,
    cycle_spec, decode, digits, draws_random, execute_spec, lemma_lowest_pressed,
    lemma_random_unused, store_at_index, Instruction,
};
use crate::machine::{CpuView, Machine, Outcome};
use crate::memory::{Memory, MemoryView};

verus! {

/// Whether a step with outcome `outcome` leaves the four components in
/// the given states and returns `result`.
pub open spec fn leaves(
    outcome: Outcome,
    cpu: CpuView,
    memory: MemoryView,
    display: Seq<Seq<bool>>,
    keys: Seq<bool>,
    result: Result<(), CpuError>,
) -> bool {
    &&& outcome.machine.cpu == cpu
    &&& outcome.machine.memory == memory
    &&& outcome.machine.display == display
    &&& outcome.machine.keys == keys
    &&& outcome.result == result
}

/// Draws a byte from `rand::random`, the thread-local generator of the
/// `rand` crate. Nothing is claimed of the byte: every value may come
/// back, and two calls may differ. The generator panics if the operating
/// system cannot seed it, which no argument here can rule out.
#[verifier::external_body]
fn random_byte() -> (byte: u8) {
    rand::random::<u8>()
}

/// The processor: registers, program counter, stack pointer and timers.
pub struct Cpu {
    pc: u16,
    sp: u16,
    v_reg: [u8; NUM_REGS],
    i_reg: u16,
    dt: u8,
    st: u8,
}

impl View for Cpu {
    type V = CpuView;

    closed spec fn view(&self) -> CpuView {
        CpuView {
            pc: self.pc,
            sp: self.sp,
            v: self.v_reg@,
            i: self.i_reg,
            dt: self.dt,
            st: self.st,
        }
    }
}

impl Cpu {
    /// The stack pointer never leaves the range `0..=16`.
    #[verifier::type_invariant]
    spec fn stack_pointer_in_range(&self) -> bool {
        self.sp <= STACK_SIZE
    }

    /// Every processor has sixteen general registers.
    pub proof fn lemma_view_wf(&self)
        ensures
            self@.wf(),
    {
    }

    /// Creates a processor in its initial state.
    pub fn new() -> (cpu: Self)
        ensures
            cpu@ == CpuView::initial(),
    {
        Self { pc: PROGRAM_START, sp: 0, v_reg: [0; NUM_REGS], i_reg: 0, dt: 0, st: 0 }
    }

    /// Puts the processor back into its initial state.
    pub fn reset(&mut self)
        ensures
            final(self)@ == CpuView::initial(),
    {
        self.sp = 0;
        self.pc = PROGRAM_START;
        self.v_reg = [0; NUM_REGS];
        self.i_reg = 0;
        self.dt = 0;
        self.st = 0;
    }

    /// Moves each timer one step towards zero; a timer at zero stays there.
    pub fn tick_timers(&mut self)
        ensures
            final(self)@ == old(self)@.ticked(),
    {
        proof {
            use_type_invariant(&*self);
        }
        if self.dt > 0 {
            self.dt -= 1
        }
        if self.st > 0 {
            self.st -= 1
        }
    }

    /// The sound timer. A sound should play while it is above zero.
    pub fn get_st(&self) -> (st: u8)
        ensures
            st == self@.st,
    {
        self.st
    }

    /// The program counter.
    pub fn get_pc(&self) -> (pc: u16)
        ensures
            pc == self@.pc,
    {
        self.pc
    }

    /// The stack pointer, which is at most 16.
    pub fn get_sp(&self) -> (sp: u16)
        ensures
            sp == self@.sp,
            sp <= STACK_SIZE,
    {
        proof {
            use_type_invariant(self);
        }
        self.sp
    }

    /// The index register.
    pub fn get_i(&self) -> (i: u16)
        ensures
            i == self@.i,
    {
        self.i_reg
    }

    /// The delay timer.
    pub fn get_dt(&self) -> (dt: u8)
        ensures
            dt == self@.dt,
    {
        self.dt
    }

    /// Borrows the general registers `V0..VF`.
    pub fn get_registers(&self) -> (v: &[u8; NUM_REGS])
        ensures
            v@ == self@.v,
    {
        &self.v_reg
    }

    /// Runs one cycle: fetches the instruction word at the program counter,
    /// high byte first, moves the program counter past it, and executes it.
    /// A word `CXNN` draws a random byte first, so its outcome is one of
    /// those that some byte gives; every other cycle is determined by the
    /// machine alone.
    pub fn cycle(
        &mut self,
        memory: &mut Memory,
        display: &mut Display,
        keypad: &mut Keypad,
    ) -> (r: Result<(), CpuError>)
        ensures
            ({
                let m = Machine {
                    cpu: old(self)@,
                    memory: old(memory)@,
                    display: old(display)@,
                    keys: old(keypad)@,
                };
                &&& !draws_random(m) ==> leaves(
                    cycle_spec(m, 0),
                    final(self)@,
                    final(memory)@,
                    final(display)@,
                    final(keypad)@,
                    r,
                )
                &&& draws_random(m) ==> exists|random: u8|
                    leaves(
                        #[trigger] cycle_spec(m, random),
                        final(self)@,
                        final(memory)@,
                        final(display)@,
                        final(keypad)@,
                        r,
                    )
            }),
            final(self)@.sp <= STACK_SIZE,
    {
        proof {
            use_type_invariant(&*self);
            memory.lemma_view_wf();
        }
        let ghost m = Machine { cpu: self@, memory: memory@, display: display@, keys: keypad@ };
        let high = match memory.read_byte(self.pc) {
            Ok(byte) => byte,
            Err(e) => return Err(CpuError::from(e)),
        };
        let low = match memory.read_byte(self.pc + 1) {
            Ok(byte) => byte,
            Err(e) => return Err(CpuError::from(e)),
        };
        let op = (high as u16) << 8 | low as u16;
        assert(op == high * 256 + low) by (bit_vector)
            requires
                op == (high as u16) << 8 | low as u16,
        ;
        self.pc += 2;
        let random = if op & 0xF000 == 0xC000 {
            random_byte()
        } else {
            0
        };
        assert((op & 0xF000 == 0xC000) == (op / 0x1000 == 0xC)) by (bit_vector);
        let r = self.execute(op, random, memory, display, keypad);
        proof {
            let after = m.with_pc((m.cpu.pc + 2) as u16);
            assert(cycle_spec(m, random) == execute_spec(after, op, random));
            if !draws_random(m) {
                lemma_random_unused(after, op, random, 0);
            }
        }
        r
    }

    /// Executes the instruction word `op` on a machine whose program
    /// counter already points past it. `random` is the byte that `CXNN`
    /// uses.
    pub fn execute(
        &mut self,
        op: u16,
        random: u8,
        memory: &mut Memory,
        display: &mut Display,
        keypad: &mut Keypad,
    ) -> (r: Result<(), CpuError>)
        ensures
            leaves(
                execute_spec(
                    Machine {
                        cpu: old(self)@,
                        memory: old(memory)@,
                        display: old(display)@,
                        keys: old(keypad)@,
                    },
                    op,
                    random,
                ),
                final(self)@,
                final(memory)@,
                final(display)@,
                final(keypad)@,
                r,
            ),
            final(self)@.sp <= STACK_SIZE,
    {
        proof {
            use_type_invariant(&*self);
        }
        match decode(op) {
            Some(instruction) => self.perform(instruction, random, memory, display, keypad),
            None => Err(CpuError::UnimplementedOpcode { opcode: op }),
        }
    }

    /// Carries out a decoded instruction.
    fn perform(
        &mut self,
        instruction: Instruction,
        random: u8,
        memory: &mut Memory,
        display: &mut Display,
        keypad: &mut Keypad,
    ) -> (r: Result<(), CpuError>)
        requires
            instruction.wf(),
        ensures
            leaves(
                apply(
                    Machine {
                        cpu: old(self)@,
                        memory: old(memory)@,
                        display: old(display)@,
                        keys: old(keypad)@,
                    },
                    instruction,
                    random,
                ),
                final(self)@,
                final(memory)@,
                final(display)@,
                final(keypad)@,
                r,
            ),
            final(self)@.sp <= STACK_SIZE,
    {
        proof {
            use_type_invariant(&*self);
        }
        let ghost m = Machine { cpu: self@, memory: memory@, display: display@, keys: keypad@ };
        match instruction {
            Instruction::Nop => Ok(()),
            Instruction::ClearScreen => {
                display.clear();
                Ok(())
            },
            Instruction::Return => self.op_return(memory, Ghost(m)),
            Instruction::Jump { addr } => {
                self.set_pc(addr);
                Ok(())
            },
            Instruction::Call { addr } => self.op_call(addr, memory, Ghost(m)),
            Instruction::SkipEqImm { x, nn } => {
                self.skip_if(self.v_reg[x as usize] == nn);
                Ok(())
            },
            Instruction::SkipNeImm { x, nn } => {
                self.skip_if(self.v_reg[x as usize] != nn);
                Ok(())
            },
            Instruction::SkipEq { x, y } => {
                self.skip_if(self.v_reg[x as usize] == self.v_reg[y as usize]);
                Ok(())
            },
            Instruction::LoadImm { x, nn } => {
                self.set_reg(x, nn);
                Ok(())
            },
            Instruction::AddImm { x, nn } => {
                proof {
                    lemma_wrapping_sum(self.v_reg[x as int], nn);
                }
                self.set_reg(x, self.v_reg[x as usize].wrapping_add(nn));
                Ok(())
            },
            Instruction::Move { x, y } => {
                self.set_reg(x, self.v_reg[y as usize]);
                Ok(())
            },
            Instruction::Or { x, y } => {
                self.set_reg(x, self.v_reg[x as usize] | self.v_reg[y as usize]);
                Ok(())
            },
            Instruction::And { x, y } => {
                self.set_reg(x, self.v_reg[x as usize] & self.v_reg[y as usize]);
                Ok(())
            },
            Instruction::Xor { x, y } => {
                self.set_reg(x, self.v_reg[x as usize] ^ self.v_reg[y as usize]);
                Ok(())
            },
            Instruction::Add { x, y } => {
                let vx = self.v_reg[x as usize];
                let vy = self.v_reg[y as usize];
                let carry = vy > 255 - vx;
                proof {
                    lemma_wrapping_sum(vx, vy);
                }
                self.set_reg_and_flag(x, vx.wrapping_add(vy), if carry { 1 } else { 0 });
                Ok(())
            },
            Instruction::Sub { x, y } => {
                let vx = self.v_reg[x as usize];
                let vy = self.v_reg[y as usize];
                let borrow = vx < vy;
                proof {
                    lemma_wrapping_difference(vx, vy);
                }
                self.set_reg_and_flag(x, vx.wrapping_sub(vy), if borrow { 0 } else { 1 });
                Ok(())
            },
            Instruction::ShiftRight { x, y } => {
                let vy = self.v_reg[y as usize];
                let lsb = vy & 1;
                let half = vy >> 1;
                assert(lsb == vy % 2 && half == vy / 2) by (bit_vector)
                    requires
                        lsb == vy & 1,
                        half == vy >> 1,
                ;
                self.set_reg_and_flag(x, half, lsb);
                Ok(())
            },
            Instruction::SubFrom { x, y } => {
                let vx = self.v_reg[x as usize];
                let vy = self.v_reg[y as usize];
                let borrow = vy < vx;
                proof {
                    lemma_wrapping_difference(vy, vx);
                }
                self.set_reg_and_flag(x, vy.wrapping_sub(vx), if borrow { 0 } else { 1 });
                Ok(())
            },
            Instruction::ShiftLeft { x, y } => {
                let vy = self.v_reg[y as usize];
                let msb = (vy >> 7) & 1;
                let twice = vy << 1;
                assert(msb == vy / 128 && twice == (vy * 2) % 256) by (bit_vector)
                    requires
                        msb == (vy >> 7) & 1,
                        twice == vy << 1,
                ;
                self.set_reg_and_flag(x, twice, msb);
                Ok(())
            },
            Instruction::SkipNe { x, y } => {
                self.skip_if(self.v_reg[x as usize] != self.v_reg[y as usize]);
                Ok(())
            },
            Instruction::LoadIndex { addr } => {
                self.set_index(addr);
                Ok(())
            },
            Instruction::JumpOffset { addr } => {
                self.set_pc(addr + self.v_reg[0] as u16);
                Ok(())
            },
            Instruction::Random { x, nn } => {
                self.set_reg(x, random & nn);
                Ok(())
            },
            Instruction::Draw { x, y, n } => self.op_draw(
                x as usize,
                y as usize,
                n as u16,
                memory,
                display,
                Ghost(m),
            ),
            Instruction::SkipKey { x } => self.op_skip_key(x as usize, true, keypad, Ghost(m)),
            Instruction::SkipNoKey { x } => self.op_skip_key(x as usize, false, keypad, Ghost(m)),
            Instruction::ReadDelay { x } => {
                self.set_reg(x, self.dt);
                Ok(())
            },
            Instruction::WaitKey { x } => self.op_wait_key(x as usize, keypad, Ghost(m)),
            Instruction::SetDelay { x } => {
                self.set_delay(self.v_reg[x as usize]);
                Ok(())
            },
            Instruction::SetSound { x } => {
                self.set_sound(self.v_reg[x as usize]);
                Ok(())
            },
            Instruction::AddIndex { x } => {
                self.set_index(self.i_reg.wrapping_add(self.v_reg[x as usize] as u16));
                Ok(())
            },
            Instruction::FontAddr { x } => {
                self.set_index(self.v_reg[x as usize] as u16 * 5);
                Ok(())
            },
            Instruction::Bcd { x } => self.op_bcd(x as usize, memory, Ghost(m)),
            Instruction::Store { x } => self.op_store(x as usize, memory, Ghost(m)),
            Instruction::Load { x } => self.op_load(x as usize, memory, Ghost(m)),
        }
    }

    /// Sets the program counter.
    fn set_pc(&mut self, pc: u16)
        ensures
            final(self)@ == (CpuView { pc, ..old(self)@ }),
            final(self)@.sp <= STACK_SIZE,
    {
        proof {
            use_type_invariant(&*self);
        }
        self.pc = pc;
    }

    /// Sets the index register.
    fn set_index(&mut self, i: u16)
        ensures
            final(self)@ == (CpuView { i, ..old(self)@ }),
            final(self)@.sp <= STACK_SIZE,
    {
        proof {
            use_type_invariant(&*self);
        }
        self.i_reg = i;
    }

    /// Sets the delay timer.
    fn set_delay(&mut self, dt: u8)
        ensures
            final(self)@ == (CpuView { dt, ..old(self)@ }),
            final(self)@.sp <= STACK_SIZE,
    {
        proof {
            use_type_invariant(&*self);
        }
        self.dt = dt;
    }

    /// Sets the sound timer.
    fn set_sound(&mut self, st: u8)
        ensures
            final(self)@ == (CpuView { st, ..old(self)@ }),
            final(self)@.sp <= STACK_SIZE,
    {
        proof {
            use_type_invariant(&*self);
        }
        self.st = st;
    }

    /// Moves the program counter past one more instruction if `condition`
    /// holds.
    fn skip_if(&mut self, condition: bool)
        ensures
            final(self)@ == (CpuView {
                pc: if condition { old(self)@.pc.wrapping_add(2) } else { old(self)@.pc },
                ..old(self)@
            }),
            final(self)@.sp <= STACK_SIZE,
    {
        proof {
            use_type_invariant(&*self);
        }
        if condition {
            self.pc = self.pc.wrapping_add(2);
        }
    }

    /// Sets register `Vx`.
    fn set_reg(&mut self, x: u8, value: u8)
        requires
            x < NUM_REGS,
        ensures
            final(self)@ == (CpuView { v: old(self)@.v.update(x as int, value), ..old(self)@ }),
            final(self)@.sp <= STACK_SIZE,
    {
        proof {
            use_type_invariant(&*self);
        }
        self.v_reg[x as usize] = value;
    }

    /// Sets register `Vx` and then the flag register `VF`.
    fn set_reg_and_flag(&mut self, x: u8, value: u8, flag: u8)
        requires
            x < NUM_REGS,
        ensures
            final(self)@ == (CpuView {
                v: old(self)@.v.update(x as int, value).update(0xF, flag),
                ..old(self)@
            }),
            final(self)@.sp <= STACK_SIZE,
    {
        proof {
            use_type_invariant(&*self);
        }
        self.v_reg[x as usize] = value;
        self.v_reg[0xF] = flag;
    }

    /// `00EE`.
    fn op_return(&mut self, memory: &mut Memory, Ghost(m): Ghost<Machine>) -> (r: Result<
        (),
        CpuError,
    >)
        requires
            m.cpu == old(self)@,
            m.memory == old(memory)@,
        ensures
            leaves(apply_return(m), final(self)@, final(memory)@, m.display, m.keys, r),
            final(self)@.sp <= STACK_SIZE,
    {
        proof {
            use_type_invariant(&*self);
            memory.lemma_view_wf();
        }
        let slot = self.sp.wrapping_sub(1);
        match memory.pop_stack(slot as usize) {
            Ok(addr) => {
                self.sp = slot;
                self.pc = addr;
                Ok(())
            },
            Err(e) => Err(CpuError::from(e)),
        }
    }

    /// `2NNN`.
    fn op_call(&mut self, addr: u16, memory: &mut Memory, Ghost(m): Ghost<Machine>) -> (r: Result<
        (),
        CpuError,
    >)
        requires
            m.cpu == old(self)@,
            m.memory == old(memory)@,
        ensures
            leaves(apply_call(m, addr), final(self)@, final(memory)@, m.display, m.keys, r),
            final(self)@.sp <= STACK_SIZE,
    {
        proof {
            use_type_invariant(&*self);
            memory.lemma_view_wf();
        }
        match memory.push_stack(self.sp as usize, self.pc) {
            Ok(()) => {
                self.sp += 1;
                self.pc = addr;
                Ok(())
            },
            Err(e) => Err(CpuError::from(e)),
        }
    }

    /// `DXYN`.
    fn op_draw(
        &mut self,
        x: usize,
        y: usize,
        rows: u16,
        memory: &mut Memory,
        display: &mut Display,
        Ghost(m): Ghost<Machine>,
    ) -> (r: Result<(), CpuError>)
        requires
            x < NUM_REGS,
            y < NUM_REGS,
            rows < 16,
            m.cpu == old(self)@,
            m.memory == old(memory)@,
            m.display == old(display)@,
        ensures
            leaves(
                apply_draw(m, x as u8, y as u8, rows as u8),
                final(self)@,
                final(memory)@,
                final(display)@,
                m.keys,
                r,
            ),
            final(self)@.sp <= STACK_SIZE,
    {
        proof {
            use_type_invariant(&*self);
        }
        let px = self.v_reg[x] as usize;
        let py = self.v_reg[y] as usize;
        match memory.read_bytes(self.i_reg, self.i_reg.wrapping_add(rows)) {
            Ok(sprite) => {
                let flipped = display.draw_sprite(px, py, sprite.as_slice());
                self.v_reg[0xF] = if flipped { 1 } else { 0 };
                Ok(())
            },
            Err(e) => Err(CpuError::from(e)),
        }
    }

    /// `EX9E` and `EXA1`.
    fn op_skip_key(&mut self, x: usize, wanted: bool, keypad: &Keypad, Ghost(m): Ghost<Machine>) -> (r:
        Result<(), CpuError>)
        requires
            x < NUM_REGS,
            m.cpu == old(self)@,
            m.keys == keypad@,
        ensures
            leaves(
                apply_skip_key(m, x as u8, wanted),
                final(self)@,
                m.memory,
                m.display,
                m.keys,
                r,
            ),
            final(self)@.sp <= STACK_SIZE,
    {
        proof {
            use_type_invariant(&*self);
            keypad.lemma_view_len();
        }
        match keypad.is_pressed(self.v_reg[x] as usize) {
            Ok(down) => {
                if down == wanted {
                    self.pc = self.pc.wrapping_add(2);
                }
                Ok(())
            },
            Err(e) => Err(CpuError::from(e)),
        }
    }

    /// `FX0A`.
    fn op_wait_key(&mut self, x: usize, keypad: &Keypad, Ghost(m): Ghost<Machine>) -> (r: Result<
        (),
        CpuError,
    >)
        requires
            x < NUM_REGS,
            m.cpu == old(self)@,
            m.keys == keypad@,
        ensures
            leaves(apply_wait_key(m, x as u8), final(self)@, m.memory, m.display, m.keys, r),
            final(self)@.sp <= STACK_SIZE,
    {
        proof {
            use_type_invariant(&*self);
            keypad.lemma_view_len();
        }
        let mut key: usize = 0;
        while key < NUM_KEYS
            invariant
                key <= NUM_KEYS,
                keypad@.len() == NUM_KEYS,
                x < NUM_REGS,
                m.cpu == self@,
                m.keys == keypad@,
                self.sp <= STACK_SIZE,
                forall|j: int| 0 <= j < key ==> !#[trigger] keypad@[j],
            decreases NUM_KEYS - key,
        {
            match keypad.is_pressed(key) {
                Ok(down) => {
                    if down {
                        proof {
                            lemma_lowest_pressed(keypad@, key as int);
                        }
                        self.v_reg[x] = key as u8;
                        return Ok(());
                    }
                },
                Err(e) => {
                    return Err(CpuError::from(e));
                },
            }
            key += 1;
        }
        self.pc = self.pc.wrapping_sub(2);
        Ok(())
    }

    /// `FX33`.
    fn op_bcd(&mut self, x: usize, memory: &mut Memory, Ghost(m): Ghost<Machine>) -> (r: Result<
        (),
        CpuError,
    >)
        requires
            x < NUM_REGS,
            m.cpu == old(self)@,
            m.memory == old(memory)@,
        ensures
            leaves(
                store_at_index(m, digits(m.reg(x as u8)), false),
                final(self)@,
                final(memory)@,
                m.display,
                m.keys,
                r,
            ),
            final(self)@.sp <= STACK_SIZE,
    {
        proof {
            use_type_invariant(&*self);
            memory.lemma_view_wf();
        }
        let vx = self.v_reg[x];
        let hundreds = vx / 100;
        let tens = (vx / 10) % 10;
        let ones = vx % 10;
        match memory.write_byte(self.i_reg, hundreds) {
            Ok(()) => {},
            Err(e) => {
                assert(memory@ =~= store_at_index(m, digits(vx), false).machine.memory);
                return Err(CpuError::from(e));
            },
        }
        match memory.write_byte(self.i_reg + 1, tens) {
            Ok(()) => {},
            Err(e) => {
                assert(memory@ =~= store_at_index(m, digits(vx), false).machine.memory);
                return Err(CpuError::from(e));
            },
        }
        match memory.write_byte(self.i_reg + 2, ones) {
            Ok(()) => {},
            Err(e) => {
                assert(memory@ =~= store_at_index(m, digits(vx), false).machine.memory);
                return Err(CpuError::from(e));
            },
        }
        assert(memory@ =~= store_at_index(m, digits(vx), false).machine.memory);
        Ok(())
    }

    /// `FX55`.
    fn op_store(&mut self, x: usize, memory: &mut Memory, Ghost(m): Ghost<Machine>) -> (r: Result<
        (),
        CpuError,
    >)
        requires
            x < NUM_REGS,
            m.cpu == old(self)@,
            m.memory == old(memory)@,
        ensures
            leaves(
                store_at_index(m, m.cpu.v.subrange(0, x + 1), true),
                final(self)@,
                final(memory)@,
                m.display,
                m.keys,
                r,
            ),
            final(self)@.sp <= STACK_SIZE,
    {
        proof {
            use_type_invariant(&*self);
            memory.lemma_view_wf();
        }
        let ghost data = m.cpu.v.subrange(0, x + 1);
        let mut k: usize = 0;
        while k <= x
            invariant
                x < NUM_REGS,
                k <= x + 1,
                m.cpu == old(self)@,
                m.memory == old(memory)@,
                m.memory.wf(),
                data == m.cpu.v.subrange(0, x + 1),
                self.sp <= STACK_SIZE,
                self@ == (CpuView { i: (m.cpu.i + k) as u16, ..m.cpu }),
                k > 0 ==> m.cpu.i + k <= MEMORY_SIZE,
                memory@ == m.memory.with_bytes(m.cpu.i as int, data.subrange(0, k as int)),
            decreases x + 1 - k,
        {
            match memory.write_byte(self.i_reg, self.v_reg[k]) {
                Ok(()) => {},
                Err(e) => {
                    return Err(CpuError::from(e));
                },
            }
            self.i_reg += 1;
            k += 1;
        }
        Ok(())
    }

    /// `FX65`.
    fn op_load(&mut self, x: usize, memory: &mut Memory, Ghost(m): Ghost<Machine>) -> (r: Result<
        (),
        CpuError,
    >)
        requires
            x < NUM_REGS,
            m.cpu == old(self)@,
            m.memory == old(memory)@,
        ensures
            leaves(apply_load(m, x as u8), final(self)@, final(memory)@, m.display, m.keys, r),
            final(self)@.sp <= STACK_SIZE,
    {
        proof {
            use_type_invariant(&*self);
            memory.lemma_view_wf();
        }
        let mut k: usize = 0;
        while k <= x
            invariant
                x < NUM_REGS,
                k <= x + 1,
                m.cpu == old(self)@,
                m.memory == old(memory)@,
                m.memory.wf(),
                memory@ == m.memory,
                self.sp <= STACK_SIZE,
                k > 0 ==> m.cpu.i + k <= MEMORY_SIZE,
                self@ == (CpuView {
                    v: Seq::new(
                        NUM_REGS as nat,
                        |j: int| if j < k { m.memory.ram[m.cpu.i + j] } else { m.cpu.v[j] },
                    ),
                    i: (m.cpu.i + k) as u16,
                    ..m.cpu
                }),
            decreases x + 1 - k,
        {
            match memory.read_byte(self.i_reg) {
                Ok(byte) => {
                    self.v_reg[k] = byte;
                },
                Err(e) => {
                    return Err(CpuError::from(e));
                },
            }
            self.i_reg += 1;
            k += 1;
        }
        Ok(())
    }
}

/// Wrapping addition of bytes is addition modulo 256.
proof fn lemma_wrapping_sum(a: u8, b: u8)
    ensures
        a.wrapping_add(b) == ((a + b) % 256) as u8,
{
}

/// Wrapping subtraction of bytes is subtraction modulo 256.
proof fn lemma_wrapping_difference(a: u8, b: u8)
    ensures
        a.wrapping_sub(b) == ((a - b) % 256) as u8,
{
}

} // verus!
