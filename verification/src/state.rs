//! A read-only look at the emulated machine: registers, `hi` and `lo`, the
//! program counter, and byte-addressable memory. A cell that was never
//! written cannot be read.

use std::collections::HashMap;
use vstd::prelude::*;
use crate::error::{MipsyError, MipsyErrorView, RuntimeError, RuntimeErrorView};

verus! {

broadcast use vstd::std_specs::hash::group_hash_axioms;

/// The machine as contracts see it.
pub struct StateView {
    pub registers: Seq<Option<i32>>,
    pub hi: Option<i32>,
    pub lo: Option<i32>,
    pub pc: u32,
    pub memory: Map<u32, u8>,
}

impl StateView {
    /// What register `id` holds: nothing when it was never written, or when
    /// there is no such register.
    pub open spec fn reg(self, id: int) -> Option<i32> {
        if 0 <= id < self.registers.len() {
            self.registers[id]
        } else {
            None
        }
    }

    /// The byte at `addr`: nothing when it was never written, or when `addr`
    /// is no address.
    pub open spec fn byte(self, addr: int) -> Option<u8> {
        if 0 <= addr <= u32::MAX && self.memory.contains_key(addr as u32) {
            Some(self.memory[addr as u32])
        } else {
            None
        }
    }

    /// The two bytes from `addr` on, the low byte first.
    pub open spec fn half(self, addr: int) -> Option<u16> {
        if self.byte(addr) is Some && self.byte(addr + 1) is Some {
            Some((self.byte(addr)->0 + 256 * self.byte(addr + 1)->0) as u16)
        } else {
            None
        }
    }

    /// The four bytes from `addr` on, the low byte first.
    pub open spec fn word(self, addr: int) -> Option<u32> {
        if self.half(addr) is Some && self.half(addr + 2) is Some {
            Some((self.half(addr)->0 + 65536 * self.half(addr + 2)->0) as u32)
        } else {
            None
        }
    }
}

/// The emulated machine's registers and memory.
pub struct RuntimeState {
    registers: [Option<i32>; 32],
    hi: Option<i32>,
    lo: Option<i32>,
    pc: u32,
    memory: HashMap<u32, u8>,
}

impl View for RuntimeState {
    type V = StateView;

    closed spec fn view(&self) -> StateView {
        StateView {
            registers: self.registers@,
            hi: self.hi,
            lo: self.lo,
            pc: self.pc,
            memory: self.memory@,
        }
    }
}

/// The error of every read that finds nothing.
pub open spec fn unreadable() -> MipsyErrorView {
    MipsyErrorView::Runtime(RuntimeErrorView::Uninitialised)
}

/// A read's result: the value where there is one, the error otherwise.
pub open spec fn read_result<T>(found: Option<T>, r: Result<T, MipsyError>) -> bool {
    match r {
        Ok(value) => found == Some(value),
        Err(e) => found is None && e@ == unreadable(),
    }
}

fn unreadable_error() -> (e: MipsyError)
    ensures
        e@ == unreadable(),
{
    MipsyError::Runtime(RuntimeError::Uninitialised)
}

impl RuntimeState {
    /// A machine in which nothing was written yet, at program counter `pc`.
    pub fn new(pc: u32) -> (state: RuntimeState)
        ensures
            state@.registers == Seq::new(32, |i: int| None::<i32>),
            state@.hi is None,
            state@.lo is None,
            state@.pc == pc,
            state@.memory == Map::<u32, u8>::empty(),
    {
        let registers: [Option<i32>; 32] = [None; 32];
        assert(registers@ =~= Seq::new(32, |i: int| None::<i32>));
        RuntimeState { registers, hi: None, lo: None, pc, memory: HashMap::new() }
    }

    /// Writes `value` to register `id`.
    pub fn set_reg(&mut self, id: u32, value: i32)
        requires
            id < 32,
        ensures
            final(self)@ == (StateView {
                registers: old(self)@.registers.update(id as int, Some(value)),
                ..old(self)@
            }),
            final(self)@.registers.len() == 32,
    {
        self.registers.set(id as usize, Some(value));
    }

    /// Writes `value` to `hi`.
    pub fn set_hi(&mut self, value: i32)
        ensures
            final(self)@ == (StateView { hi: Some(value), ..old(self)@ }),
    {
        self.hi = Some(value);
    }

    /// Writes `value` to `lo`.
    pub fn set_lo(&mut self, value: i32)
        ensures
            final(self)@ == (StateView { lo: Some(value), ..old(self)@ }),
    {
        self.lo = Some(value);
    }

    /// Moves the program counter to `pc`.
    pub fn set_pc(&mut self, pc: u32)
        ensures
            final(self)@ == (StateView { pc, ..old(self)@ }),
    {
        self.pc = pc;
    }

    /// Writes `value` to the byte at `addr`.
    pub fn set_byte(&mut self, addr: u32, value: u8)
        ensures
            final(self)@ == (StateView {
                memory: old(self)@.memory.insert(addr, value),
                ..old(self)@
            }),
    {
        self.memory.insert(addr, value);
    }

    /// Reads register `id`.
    pub fn get_reg(&self, id: u32) -> (r: Result<i32, MipsyError>)
        ensures
            read_result(self@.reg(id as int), r),
    {
        if id < 32 {
            match self.registers[id as usize] {
                Some(value) => Ok(value),
                None => Err(unreadable_error()),
            }
        } else {
            Err(unreadable_error())
        }
    }

    /// Reads `hi`.
    pub fn get_hi(&self) -> (r: Result<i32, MipsyError>)
        ensures
            read_result(self@.hi, r),
    {
        match self.hi {
            Some(value) => Ok(value),
            None => Err(unreadable_error()),
        }
    }

    /// Reads `lo`.
    pub fn get_lo(&self) -> (r: Result<i32, MipsyError>)
        ensures
            read_result(self@.lo, r),
    {
        match self.lo {
            Some(value) => Ok(value),
            None => Err(unreadable_error()),
        }
    }

    /// The program counter, which is always there.
    pub fn get_pc(&self) -> (pc: u32)
        ensures
            pc == self@.pc,
    {
        self.pc
    }

    /// Reads the byte at `addr`.
    pub fn get_byte(&self, addr: u32) -> (r: Result<u8, MipsyError>)
        ensures
            read_result(self@.byte(addr as int), r),
    {
        match self.memory.get(&addr) {
            Some(value) => Ok(*value),
            None => Err(unreadable_error()),
        }
    }

    /// Reads the two bytes from `addr` on as one number, the low byte first.
    pub fn get_half(&self, addr: u32) -> (r: Result<u16, MipsyError>)
        ensures
            read_result(self@.half(addr as int), r),
    {
        if addr > u32::MAX - 1 {
            return Err(unreadable_error());
        }
        let low: u8 = match self.get_byte(addr) {
            Ok(b) => b,
            Err(e) => { return Err(e); },
        };
        let high: u8 = match self.get_byte(addr + 1) {
            Ok(b) => b,
            Err(e) => { return Err(e); },
        };
        Ok(low as u16 + 256 * (high as u16))
    }

    /// Reads the four bytes from `addr` on as one number, the low byte first.
    pub fn get_word(&self, addr: u32) -> (r: Result<u32, MipsyError>)
        ensures
            read_result(self@.word(addr as int), r),
    {
        if addr > u32::MAX - 3 {
            return Err(unreadable_error());
        }
        let low: u16 = match self.get_half(addr) {
            Ok(h) => h,
            Err(e) => { return Err(e); },
        };
        let high: u16 = match self.get_half(addr + 2) {
            Ok(h) => h,
            Err(e) => { return Err(e); },
        };
        Ok(low as u32 + 65536 * (high as u32))
    }
}

} // verus!
