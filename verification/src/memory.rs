use vstd::prelude::*;
use crate::constants::{FONTSET, FONTSET_SIZE, MEMORY_SIZE, STACK_SIZE};
use crate::error::MemoryError;

verus! {

/// What a [`Memory`] holds, as mathematical sequences.
#[verifier::ext_equal]
pub struct MemoryView {
    /// The bytes of RAM, indexed by address.
    pub ram: Seq<u8>,
    /// The slots of the call stack, indexed by stack pointer.
    pub stack: Seq<u16>,
}

impl MemoryView {
    /// RAM has 4096 bytes and the call stack has 16 slots.
    pub open spec fn wf(self) -> bool {
        &&& self.ram.len() == MEMORY_SIZE
        &&& self.stack.len() == STACK_SIZE
    }

    /// The state after construction or reset: the font table at the bottom
    /// of RAM, zero everywhere else, and a zeroed call stack.
    pub open spec fn initial() -> MemoryView {
        MemoryView {
            ram: Seq::new(
                MEMORY_SIZE as nat,
                |a: int| if a < FONTSET_SIZE { FONTSET@[a] } else { 0u8 },
            ),
            stack: Seq::new(STACK_SIZE as nat, |s: int| 0u16),
        }
    }

    /// RAM with the byte at `addr` replaced by `value`.
    pub open spec fn with_byte(self, addr: int, value: u8) -> MemoryView {
        MemoryView { ram: self.ram.update(addr, value), stack: self.stack }
    }

    /// RAM with `data` laid over the addresses `start .. start + data.len()`.
    pub open spec fn with_bytes(self, start: int, data: Seq<u8>) -> MemoryView {
        MemoryView {
            ram: Seq::new(
                self.ram.len(),
                |a: int| if start <= a < start + data.len() { data[a - start] } else { self.ram[a] },
            ),
            stack: self.stack,
        }
    }

    /// The call stack with slot `sp` replaced by `value`.
    pub open spec fn with_slot(self, sp: int, value: u16) -> MemoryView {
        MemoryView { ram: self.ram, stack: self.stack.update(sp, value) }
    }
}

/// RAM and the call stack of the machine.
pub struct Memory {
    ram: [u8; MEMORY_SIZE],
    stack: [u16; STACK_SIZE],
}

impl View for Memory {
    type V = MemoryView;

    closed spec fn view(&self) -> MemoryView {
        MemoryView { ram: self.ram@, stack: self.stack@ }
    }
}

impl Memory {
    /// Every memory has 4096 bytes of RAM and 16 stack slots.
    pub proof fn lemma_view_wf(&self)
        ensures
            self@.wf(),
    {
    }

    /// Creates a memory with zeroed RAM and stack and the font table loaded
    /// at address 0.
    pub fn new() -> (mem: Self)
        ensures
            mem@ == MemoryView::initial(),
    {
        let mut mem = Self { ram: [0; MEMORY_SIZE], stack: [0; STACK_SIZE] };
        mem.load_fontset();
        mem
    }

    /// Zeroes RAM and the stack, then reloads the font table.
    pub fn reset(&mut self)
        ensures
            final(self)@ == MemoryView::initial(),
    {
        self.ram = [0; MEMORY_SIZE];
        self.stack = [0; STACK_SIZE];
        self.load_fontset();
    }

    /// Stores `value` at `addr`, or fails if `addr` lies outside RAM.
    pub fn write_byte(&mut self, addr: u16, value: u8) -> (r: Result<(), MemoryError>)
        ensures
            addr < MEMORY_SIZE ==> r == Ok::<(), MemoryError>(()) && final(self)@ == old(self)@.with_byte(
                addr as int,
                value,
            ),
            addr >= MEMORY_SIZE ==> r == Err::<(), MemoryError>(
                MemoryError::OutOfBoundsWrite { addr },
            ) && final(self)@ == old(self)@,
    {
        if (addr as usize) < MEMORY_SIZE {
            self.ram[addr as usize] = value;
            Ok(())
        } else {
            Err(MemoryError::OutOfBoundsWrite { addr })
        }
    }

    /// Copies `data` into RAM starting at `start`, or fails, writing nothing,
    /// if the block would run past the end of RAM.
    pub fn write_bytes(&mut self, start: u16, data: &[u8]) -> (r: Result<(), MemoryError>)
        ensures
            start + data@.len() <= MEMORY_SIZE ==> r == Ok::<(), MemoryError>(()) && final(self)@
                == old(self)@.with_bytes(start as int, data@),
            start + data@.len() > MEMORY_SIZE ==> r == Err::<(), MemoryError>(
                MemoryError::OutOfBoundsWriteRange { start, len: data.len() },
            ) && final(self)@ == old(self)@,
    {
        let len = data.len();
        if len <= MEMORY_SIZE && start as usize + len <= MEMORY_SIZE {
            let base = start as usize;
            let mut k: usize = 0;
            while k < len
                invariant
                    k <= len,
                    len == data@.len(),
                    base == start,
                    base + len <= MEMORY_SIZE,
                    self.stack@ == old(self).stack@,
                    forall|a: int|
                        0 <= a < MEMORY_SIZE ==> self.ram@[a] == if base <= a < base + k {
                            data@[a - base]
                        } else {
                            old(self).ram@[a]
                        },
                decreases len - k,
            {
                self.ram[base + k] = data[k];
                k += 1;
            }
            Ok(())
        } else {
            Err(MemoryError::OutOfBoundsWriteRange { start, len })
        }
    }

    /// Loads the byte at `addr`, or fails if `addr` lies outside RAM.
    /// The memory is left as it was.
    pub fn read_byte(&mut self, addr: u16) -> (r: Result<u8, MemoryError>)
        ensures
            final(self)@ == old(self)@,
            addr < MEMORY_SIZE ==> r == Ok::<u8, MemoryError>(old(self)@.ram[addr as int]),
            addr >= MEMORY_SIZE ==> r == Err::<u8, MemoryError>(
                MemoryError::OutOfBoundsRead { addr },
            ),
    {
        if (addr as usize) < MEMORY_SIZE {
            Ok(self.ram[addr as usize])
        } else {
            Err(MemoryError::OutOfBoundsRead { addr })
        }
    }

    /// Copies out the bytes at `start .. end`, or fails if the bounds are
    /// reversed or `end` lies past the end of RAM.
    pub fn read_bytes(&self, start: u16, end: u16) -> (r: Result<Vec<u8>, MemoryError>)
        ensures
            match r {
                Ok(bytes) => start <= end <= MEMORY_SIZE && bytes@ == self@.ram.subrange(
                    start as int,
                    end as int,
                ),
                Err(e) => !(start <= end <= MEMORY_SIZE) && e == (MemoryError::OutOfBoundsReadRange {
                    start,
                    end,
                }),
            },
    {
        let first = start as usize;
        let last = end as usize;
        if first <= last && last <= MEMORY_SIZE {
            let mut bytes: Vec<u8> = Vec::new();
            let mut k: usize = first;
            while k < last
                invariant
                    first <= k <= last <= MEMORY_SIZE,
                    bytes@ == self.ram@.subrange(first as int, k as int),
                decreases last - k,
            {
                bytes.push(self.ram[k]);
                k += 1;
            }
            Ok(bytes)
        } else {
            Err(MemoryError::OutOfBoundsReadRange { start, end })
        }
    }

    /// Stores `value` in stack slot `sp`, or fails if the stack is full
    /// (`sp` is 16 or more). The caller advances its stack pointer only
    /// after a successful push.
    pub fn push_stack(&mut self, sp: usize, value: u16) -> (r: Result<(), MemoryError>)
        ensures
            sp < STACK_SIZE ==> r == Ok::<(), MemoryError>(()) && final(self)@ == old(self)@.with_slot(
                sp as int,
                value,
            ),
            sp >= STACK_SIZE ==> r == Err::<(), MemoryError>(MemoryError::StackOverflow { sp })
                && final(self)@ == old(self)@,
    {
        if sp < STACK_SIZE {
            self.stack[sp] = value;
            Ok(())
        } else {
            Err(MemoryError::StackOverflow { sp })
        }
    }

    /// Loads the value in stack slot `sp`, or fails if `sp` lies outside the
    /// stack. The caller steps its stack pointer back before popping. The
    /// memory is left as it was.
    pub fn pop_stack(&mut self, sp: usize) -> (r: Result<u16, MemoryError>)
        ensures
            final(self)@ == old(self)@,
            sp < STACK_SIZE ==> r == Ok::<u16, MemoryError>(old(self)@.stack[sp as int]),
            sp >= STACK_SIZE ==> r == Err::<u16, MemoryError>(MemoryError::StackUnderflow { sp }),
    {
        if sp < STACK_SIZE {
            Ok(self.stack[sp])
        } else {
            Err(MemoryError::StackUnderflow { sp })
        }
    }

    /// Copies the font table to the bottom of RAM.
    fn load_fontset(&mut self)
        ensures
            final(self)@ == old(self)@.with_bytes(0, FONTSET@),
    {
        let mut k: usize = 0;
        while k < FONTSET_SIZE
            invariant
                k <= FONTSET_SIZE,
                self.stack@ == old(self).stack@,
                forall|a: int|
                    0 <= a < MEMORY_SIZE ==> self.ram@[a] == if a < k {
                        FONTSET@[a]
                    } else {
                        old(self).ram@[a]
                    },
            decreases FONTSET_SIZE - k,
        {
            self.ram[k] = FONTSET[k];
            k += 1;
        }
    }
}

} // verus!
