//! The register bus: the one place through which every driver reaches the
//! hardware.
//!
//! A driver never holds a pointer. It holds the base address of its block and
//! is handed a bus, which reads and writes 32-bit registers by address and can
//! block until a status field shows an awaited value. On the target the bus is
//! the memory-mapped address space; on a host it is a [`RegisterBank`].
//!
//! The model behind the contracts is a register file that keeps what was last
//! written, together with the ordered record of every write and every wait.
//! Nothing else changes a register between two accesses: a second writer, be
//! it an interrupt handler or the hardware itself, is outside the model, and a
//! caller that shares a register with one has to exclude it for the span of a
//! read-modify-write. In a program that holds one bus value the borrow rules
//! see to it: a call that writes holds the bus mutably, so no two of them
//! overlap.

use vstd::prelude::*;
use std::collections::HashMap;
use crate::bits::{field_en, field_set, tremo_reg_en, tremo_reg_set};
use crate::bits::{
    lemma_en_touches_only_mask, lemma_enable_disable_round_trip, lemma_set_of_held_value,
    lemma_set_touches_only_mask,
};

verus! {

/// One effect on the bus, as the record keeps it.
#[derive(Clone, Copy, Debug, PartialEq, Eq, Structural)]
pub enum Access {
    /// `value` was stored in the register at `addr`.
    Write { addr: u32, value: u32 },
    /// The caller blocked until the register at `addr`, under `mask`, showed
    /// `expected`.
    Wait { addr: u32, mask: u32, expected: u32 },
}

/// What a bus looks like to a contract: the contents of every register and
/// the record of the writes and waits made so far, oldest first.
pub struct BusState {
    pub regs: Map<u32, u32>,
    pub log: Seq<Access>,
}

impl BusState {
    /// A register file in which every register holds zero and nothing has
    /// been recorded.
    pub open spec fn power_on() -> BusState {
        BusState { regs: Map::new(|a: u32| true, |a: u32| 0u32), log: Seq::empty() }
    }

    /// The contents of the register at `addr`.
    pub open spec fn read(self, addr: u32) -> u32 {
        self.regs[addr]
    }

    /// The state with the register at `addr` holding `value`, without a
    /// record of how it came to: the way a fixture is preset.
    pub open spec fn preset(self, addr: u32, value: u32) -> BusState {
        BusState { regs: self.regs.insert(addr, value), log: self.log }
    }

    /// The state after `value` was written to the register at `addr`.
    pub open spec fn write(self, addr: u32, value: u32) -> BusState {
        BusState {
            regs: self.regs.insert(addr, value),
            log: self.log.push(Access::Write { addr, value }),
        }
    }

    /// The state after a wait on the register at `addr` has returned: under
    /// `mask` the register shows `expected`, its other bits are as before.
    pub open spec fn settle(self, addr: u32, mask: u32, expected: u32) -> BusState {
        BusState {
            regs: self.regs.insert(addr, field_set(self.regs[addr], mask, expected)),
            log: self.log.push(Access::Wait { addr, mask, expected }),
        }
    }

    /// The state after a read-modify-write that replaces the field under
    /// `mask` by `value`.
    pub open spec fn set(self, addr: u32, mask: u32, value: u32) -> BusState {
        self.write(addr, field_set(self.read(addr), mask, value))
    }

    /// The state after a read-modify-write that switches the bits of `mask`
    /// on or off.
    pub open spec fn enable(self, addr: u32, mask: u32, flag: bool) -> BusState {
        self.write(addr, field_en(self.read(addr), mask, flag))
    }

    /// Every register holds in `self` what it holds in `other`.
    pub open spec fn same_regs(self, other: BusState) -> bool {
        forall|a: u32| self.regs[a] == other.regs[a]
    }

    /// Every register but the one at `addr` holds in `self` what it holds in
    /// `other`.
    pub open spec fn same_regs_except(self, other: BusState, addr: u32) -> bool {
        forall|a: u32| a != addr ==> self.regs[a] == other.regs[a]
    }
}

/// A bus of 32-bit registers.
///
/// An implementation for the target reads and writes the address itself and
/// spins in `wait_for`. Its registers are not a memory: status bits move by
/// themselves and some registers do not read back what was written. What is
/// proved of a driver holds of the run in which each register was touched by
/// this bus alone.
pub trait RegisterBus {
    /// The register file and the record, as the contracts see them. A bus
    /// that is verified says what they are; for any other they are left
    /// open.
    open spec fn view(&self) -> BusState {
        arbitrary()
    }

    /// Reads the register at `addr`.
    fn read(&self, addr: u32) -> (value: u32)
        ensures
            value == self@.read(addr),
    ;

    /// Writes the whole register at `addr`.
    fn write(&mut self, addr: u32, value: u32)
        ensures
            final(self)@ == old(self)@.write(addr, value),
    ;

    /// Blocks until the register at `addr` shows `expected` under `mask`.
    /// There is no timeout: on hardware that never reaches the value this
    /// does not return.
    fn wait_for(&mut self, addr: u32, mask: u32, expected: u32)
        ensures
            final(self)@ == old(self)@.settle(addr, mask, expected),
    ;
}

/// Reads the register at `addr`.
pub fn reg_rd<B: RegisterBus>(bus: &B, addr: u32) -> (value: u32)
    ensures
        value == bus@.read(addr),
{
    bus.read(addr)
}

/// Writes `value` to the register at `addr`, without reading it first.
pub fn reg_wr<B: RegisterBus>(bus: &mut B, addr: u32, value: u32)
    ensures
        final(bus)@ == old(bus)@.write(addr, value),
{
    bus.write(addr, value);
}

/// Reads the register at `addr`, replaces the field under `mask` by `value`
/// and writes the register back.
pub fn reg_set<B: RegisterBus>(bus: &mut B, addr: u32, mask: u32, value: u32)
    ensures
        final(bus)@ == old(bus)@.set(addr, mask, value),
{
    let mut word = bus.read(addr);
    tremo_reg_set(&mut word, mask, value);
    bus.write(addr, word);
}

/// Reads the register at `addr`, switches the bits of `mask` on or off and
/// writes the register back.
pub fn reg_en<B: RegisterBus>(bus: &mut B, addr: u32, mask: u32, enable: bool)
    ensures
        final(bus)@ == old(bus)@.enable(addr, mask, enable),
{
    let mut word = bus.read(addr);
    tremo_reg_en(&mut word, mask, enable);
    bus.write(addr, word);
}

/// A field update changes no other register, and in its own register no bit
/// outside the mask.
pub proof fn lemma_set_frame(s: BusState, addr: u32, mask: u32, value: u32)
    ensures
        s.set(addr, mask, value).same_regs_except(s, addr),
        s.set(addr, mask, value).read(addr) & !mask == s.read(addr) & !mask,
        s.set(addr, mask, value).read(addr) & mask == value & mask,
{
    lemma_set_touches_only_mask(s.read(addr), mask, value);
}

/// Switching a mask changes no other register, and in its own register no
/// bit outside the mask; inside the mask every bit is set, or every bit is
/// clear.
pub proof fn lemma_enable_frame(s: BusState, addr: u32, mask: u32, flag: bool)
    ensures
        s.enable(addr, mask, flag).same_regs_except(s, addr),
        s.enable(addr, mask, flag).read(addr) & !mask == s.read(addr) & !mask,
        s.enable(addr, mask, flag).read(addr) & mask == if flag {
            mask
        } else {
            0
        },
{
    lemma_en_touches_only_mask(s.read(addr), mask, flag);
}

/// Enabling a mask that was clear and then disabling it leaves every register
/// holding what it held.
pub proof fn lemma_enable_disable_restores(s: BusState, addr: u32, mask: u32)
    requires
        s.read(addr) & mask == 0,
    ensures
        s.enable(addr, mask, true).enable(addr, mask, false).same_regs(s),
{
    lemma_enable_disable_round_trip(s.read(addr), mask);
}

/// A wait for what its register already shows changes no register.
pub proof fn lemma_settle_of_settled(s: BusState, addr: u32, mask: u32, expected: u32)
    requires
        s.read(addr) & mask == expected & mask,
    ensures
        s.settle(addr, mask, expected).same_regs(s),
{
    lemma_set_of_held_value(s.read(addr), mask, expected);
}

/// After a wait its register shows, under the mask, what was awaited; its
/// other bits and every other register are as before.
pub proof fn lemma_settle_frame(s: BusState, addr: u32, mask: u32, expected: u32)
    ensures
        s.settle(addr, mask, expected).same_regs_except(s, addr),
        s.settle(addr, mask, expected).read(addr) & mask == expected & mask,
        s.settle(addr, mask, expected).read(addr) & !mask == s.read(addr) & !mask,
{
    lemma_set_touches_only_mask(s.read(addr), mask, expected);
}

/// Whether, from the position `from` of the record on, no write to the
/// register at `addr` has a bit of `mask` set.
pub open spec fn writes_keep_clear(log: Seq<Access>, from: int, addr: u32, mask: u32) -> bool {
    forall|i: int|
        from <= i < log.len() ==> match #[trigger] log[i] {
            Access::Write { addr: a, value } => a == addr ==> value & mask == 0,
            Access::Wait { .. } => true,
        }
}

/// A record that keeps a mask clear still does so after one more write, if
/// that write goes to another register or has the mask clear.
pub proof fn lemma_write_keeps_clear(
    s: BusState,
    from: int,
    addr: u32,
    mask: u32,
    a: u32,
    value: u32,
)
    requires
        0 <= from,
        writes_keep_clear(s.log, from, addr, mask),
        a != addr || value & mask == 0,
    ensures
        writes_keep_clear(s.write(a, value).log, from, addr, mask),
{
    let log = s.write(a, value).log;
    assert forall|i: int| from <= i < log.len() implies match #[trigger] log[i] {
        Access::Write { addr: a, value } => a == addr ==> value & mask == 0,
        Access::Wait { .. } => true,
    } by {
        if i < s.log.len() {
            assert(log[i] == s.log[i]);
        }
    }
}

/// A register bank in ordinary memory. Every register starts at zero, keeps
/// what was last written, and is moved by a wait straight to the awaited
/// value, as hardware does that completes every handshake at once.
pub struct RegisterBank {
    cells: HashMap<u32, u32>,
    log: Vec<Access>,
}

impl RegisterBank {
    /// The contents of the register at `addr`: zero until it is written.
    pub closed spec fn cell(&self, addr: u32) -> u32 {
        if self.cells@.contains_key(addr) {
            self.cells@[addr]
        } else {
            0
        }
    }

    /// A bank in which every register holds zero.
    pub fn new() -> (bank: RegisterBank)
        ensures
            bank@ == BusState::power_on(),
    {
        let bank = RegisterBank { cells: HashMap::new(), log: Vec::new() };
        assert(bank@.regs =~= BusState::power_on().regs);
        assert(bank@.log =~= BusState::power_on().log);
        bank
    }

    /// Puts `value` in the register at `addr` without recording a write.
    pub fn preset(&mut self, addr: u32, value: u32)
        ensures
            final(self)@ == old(self)@.preset(addr, value),
    {
        broadcast use vstd::std_specs::hash::group_hash_axioms;

        self.cells.insert(addr, value);
        assert(self@.regs =~= old(self)@.regs.insert(addr, value));
    }

    /// The writes and waits made so far, oldest first.
    pub fn log(&self) -> (log: &Vec<Access>)
        ensures
            log@ == self@.log,
    {
        &self.log
    }
}

impl RegisterBus for RegisterBank {
    closed spec fn view(&self) -> BusState {
        BusState { regs: Map::new(|a: u32| true, |a: u32| self.cell(a)), log: self.log@ }
    }

    fn read(&self, addr: u32) -> (value: u32) {
        broadcast use vstd::std_specs::hash::group_hash_axioms;

        match self.cells.get(&addr) {
            Some(value) => *value,
            None => 0,
        }
    }

    fn write(&mut self, addr: u32, value: u32) {
        broadcast use vstd::std_specs::hash::group_hash_axioms;

        self.cells.insert(addr, value);
        self.log.push(Access::Write { addr, value });
        assert(self@.regs =~= old(self)@.regs.insert(addr, value));
    }

    fn wait_for(&mut self, addr: u32, mask: u32, expected: u32) {
        broadcast use vstd::std_specs::hash::group_hash_axioms;

        let mut word = self.read(addr);
        tremo_reg_set(&mut word, mask, expected);
        self.cells.insert(addr, word);
        self.log.push(Access::Wait { addr, mask, expected });
        assert(self@.regs =~= old(self)@.regs.insert(addr, word));
    }
}

} // verus!
