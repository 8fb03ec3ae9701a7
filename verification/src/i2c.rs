//! Master side of the two-wire serial bus.
//!
//! A transaction is a value that decides what happens next on the bus. The
//! caller performs each operation on the controller and hands back what a
//! poll read. What a transaction has asked for so far is its trace, and what
//! the transactions promise is stated over traces: which bytes are sent, in
//! which order bytes are stored, and that the bus is let go of at the end.

pub mod read;
pub mod write;
pub mod write_read;

use crate::gpio::port4::Pin;
use crate::gpio::{AlternateFunction, Output};
use crate::i2c::read::ReadTransaction;
use crate::i2c::write::WriteTransaction;
use crate::i2c::write_read::WriteReadTransaction;
use vstd::prelude::*;

verus! {

/// Whether the master sends to the addressed slave or receives from it.
#[derive(Clone, Copy, Debug, PartialEq, Eq)]
pub enum Direction {
    Write,
    Read,
}

impl Direction {
    /// The read/write bit that follows the seven address bits on the wire.
    pub open spec fn spec_bit(self) -> u8 {
        match self {
            Direction::Write => 0u8,
            Direction::Read => 1u8,
        }
    }

    /// The read/write bit that follows the seven address bits on the wire.
    pub fn bit(self) -> (b: u8)
        ensures
            b == self.spec_bit(),
    {
        match self {
            Direction::Write => 0,
            Direction::Read => 1,
        }
    }
}

/// Why a transaction failed. Each kind belongs to one bounded wait, or to a
/// slave that did not acknowledge.
#[derive(Clone, Copy, Debug, PartialEq, Eq)]
pub enum I2cError {
    /// The bus did not become free.
    BusBusy,
    /// The slave did not acknowledge, or the transmission never completed.
    SlaveNotResponding,
    /// The stop condition was requested but never seen on the bus.
    PeripheralNotStopped,
    /// The transmit buffer did not become ready for the next byte.
    TransmitBufferNotReady,
    /// No byte arrived in the receive buffer.
    DataNotReceived,
}

/// The first byte of a transaction as a number: the address in bits 7 to 1,
/// the read/write bit in bit 0. An address wider than seven bits loses its
/// top bit.
pub open spec fn slave_address_byte(address: u8, direction: Direction) -> int {
    (address as int % 128) * 2 + direction.spec_bit() as int
}

/// The first byte of a transaction: the slave's address shifted up by one,
/// with the read/write bit below it.
pub fn get_slave_address(address: u8, direction: Direction) -> (byte: u8)
    ensures
        byte as int == slave_address_byte(address, direction),
        byte == (address << 1) | direction.spec_bit(),
{
    let bit: u8 = direction.bit();
    let shifted: u8 = address << 1;
    assert(bit <= 1 ==> ((address << 1) | bit) as int == (address as int % 128) * 2 + bit as int)
        by (bit_vector);
    shifted | bit
}

/// A pin that can be the data line of the bus.
pub trait I2cSDAPin {

}

/// A pin that can be the clock line of the bus.
pub trait I2cSCLPin {

}

impl<const N: u8> I2cSDAPin for Pin<Output<AlternateFunction>, N> {

}

impl<const N: u8> I2cSCLPin for Pin<Output<AlternateFunction>, N> {

}

/// `ra4m2_pac::Iic0`, the handle of the bus controller's registers as the
/// peripheral access crate gives it out. Nothing is claimed of what is in
/// it: it is only carried along here.
#[verifier::external_type_specification]
#[verifier::external_body]
pub struct ExIic0(ra4m2_pac::Iic0);

/// The master of the first two-wire bus. It owns the controller's registers
/// and the two pins of the bus. Of the pins of this crate, only those that
/// have been handed to a peripheral can be the lines of a bus.
pub struct I2c0<SDA: I2cSDAPin, SCL: I2cSCLPin> {
    iic: ra4m2_pac::Iic0,
    _sda: SDA,
    _scl: SCL,
}

impl<SDA: I2cSDAPin, SCL: I2cSCLPin> I2c0<SDA, SCL> {
    /// The controller's registers.
    pub closed spec fn spec_registers(&self) -> ra4m2_pac::Iic0 {
        self.iic
    }

    /// Takes the controller's registers and the two pins.
    pub fn new(iic: ra4m2_pac::Iic0, sda: SDA, scl: SCL) -> (master: Self)
        ensures
            master.spec_registers() == iic,
    {
        I2c0 { iic, _sda: sda, _scl: scl }
    }

    /// The controller's registers.
    pub fn registers(&self) -> (iic: &ra4m2_pac::Iic0)
        ensures
            *iic == self.spec_registers(),
    {
        &self.iic
    }

    /// Begins a write of `data` to the slave at `address`.
    pub fn write<'a>(&mut self, address: u8, data: &'a [u8]) -> (txn: WriteTransaction<'a>)
        ensures
            txn.wf(),
            txn@ == write::write_initial(address, data@),
            write::write_budget(txn@) == write::write_step_limit(data@.len()),
    {
        WriteTransaction::new(address, data)
    }

    /// Begins a read of `len` bytes from the slave at `address`.
    pub fn read(&mut self, address: u8, len: usize) -> (txn: ReadTransaction)
        requires
            len >= 1,
        ensures
            txn.wf(),
            txn@ == read::read_initial(address, len as nat),
            read::read_budget(txn@) == read::read_step_limit(len as nat),
    {
        ReadTransaction::new(address, len)
    }

    /// Begins a write of `data` to the slave at `address` that is followed
    /// by a read of `len` bytes from it.
    pub fn write_read<'a>(&mut self, address: u8, data: &'a [u8], len: usize) -> (txn:
        WriteReadTransaction<'a>)
        requires
            len >= 1,
        ensures
            txn.wf(),
            txn@ == write_read::write_read_initial(address, data@, len as nat),
            write_read::write_read_budget(txn@) == write::write_step_limit(data@.len())
                + read::read_step_limit(len as nat),
    {
        WriteReadTransaction::new(address, data, len)
    }
}

/// The states that a transaction passes through.
#[derive(Clone, Copy, Debug, PartialEq, Eq)]
pub enum TransactionState {
    /// No transaction is under way: none has begun, or the last has ended.
    BusIdle,
    /// Waiting for the bus to become free.
    WaitBusFree,
    /// Requesting the start condition.
    Start,
    /// Sending the address byte.
    AddressPhase,
    /// Sending or receiving payload.
    DataPhase,
    /// Looking for the slave's acknowledge.
    WaitAck,
    /// Waiting for the last byte to leave.
    WaitComplete,
    /// Requesting the stop condition.
    Stop,
    /// Waiting for the stop condition to be detected.
    WaitStopped,
    /// Clearing the flags that the transaction leaves behind.
    ClearFlags,
}

/// How many failed polls a bounded wait tolerates before it may give up: the
/// wait fails on the first failed poll after this many have been counted.
pub const POLL_CEILING: u32 = 10_000;

/// The largest number of polls that one bounded wait can issue.
pub open spec fn max_polls() -> nat {
    (POLL_CEILING + 2) as nat
}

/// One thing a transaction asks of the bus controller. The caller performs it
/// and, where it is a poll, hands the flag it read to the next step.
#[derive(Clone, Copy, Debug, PartialEq, Eq)]
pub enum BusOp {
    /// Reset the controller and program the slave-address-match register.
    Configure(u8),
    /// Poll: is the bus free?
    PollBusFree,
    /// Request a start condition.
    Start,
    /// Poll: is the not-acknowledge flag clear?
    PollAcknowledged,
    /// Poll: can the transmit buffer take a byte?
    PollTransmitReady,
    /// Put this byte into the transmit buffer.
    Transmit(u8),
    /// Poll: has the last byte left the shift register?
    PollTransmitComplete,
    /// Clear the stop-detected flag.
    ClearStopFlag,
    /// Request a stop condition.
    Stop,
    /// Poll: has the stop condition been detected?
    PollStopped,
    /// Clear the not-acknowledge flag.
    ClearNackFlag,
    /// Withdraw the stop request.
    Unstop,
    /// Poll: is a received byte waiting?
    PollDataReceived,
    /// Read the receive buffer and throw the byte away.
    ReadDiscard,
    /// Read the receive buffer into the caller's buffer at this index.
    ReadInto(usize),
    /// Hold the clock low after the next byte until it has been read.
    SetWait,
    /// Release that hold.
    ClearWait,
    /// Answer the next received byte with a not-acknowledge.
    NackNext,
    /// The transaction is over, with this outcome. Nothing is left to perform.
    Done(Result<(), I2cError>),
}

/// What a transaction reports when it ends: the failure it remembered, if any.
pub open spec fn outcome(failure: Option<I2cError>) -> Result<(), I2cError> {
    match failure {
        Some(e) => Err(e),
        None => Ok(()),
    }
}

/// How often `op` occurs in `trace`.
pub open spec fn occurrences(trace: Seq<BusOp>, op: BusOp) -> nat
    decreases trace.len(),
{
    if trace.len() == 0 {
        0
    } else {
        occurrences(trace.drop_last(), op) + if trace.last() == op {
            1nat
        } else {
            0nat
        }
    }
}

/// The bytes that `trace` puts into the transmit buffer, in order.
pub open spec fn transmitted(trace: Seq<BusOp>) -> Seq<u8>
    decreases trace.len(),
{
    if trace.len() == 0 {
        Seq::empty()
    } else {
        match trace.last() {
            BusOp::Transmit(b) => transmitted(trace.drop_last()).push(b),
            _ => transmitted(trace.drop_last()),
        }
    }
}

/// Whether an operation belongs to the handshake of a read: storing a
/// received byte, arming the hold, or refusing the next byte.
pub open spec fn is_handshake(op: BusOp) -> bool {
    op is ReadInto || op == BusOp::SetWait || op == BusOp::NackNext
}

/// The handshake operations of `trace`, in order.
pub open spec fn handshake(trace: Seq<BusOp>) -> Seq<BusOp>
    decreases trace.len(),
{
    if trace.len() == 0 {
        Seq::empty()
    } else if is_handshake(trace.last()) {
        handshake(trace.drop_last()).push(trace.last())
    } else {
        handshake(trace.drop_last())
    }
}

/// Whether the master holds the bus at the end of `trace`: it has requested
/// a start, and has not requested a stop since.
pub open spec fn holds_bus(trace: Seq<BusOp>) -> bool
    decreases trace.len(),
{
    if trace.len() == 0 {
        false
    } else if trace.last() == BusOp::Start {
        true
    } else if trace.last() == BusOp::Stop {
        false
    } else {
        holds_bus(trace.drop_last())
    }
}

/// `trace` ends with the operations of `tail`, in that order.
pub open spec fn ends_with(trace: Seq<BusOp>, tail: Seq<BusOp>) -> bool {
    &&& tail.len() <= trace.len()
    &&& trace.subrange(trace.len() - tail.len(), trace.len() as int) == tail
}

/// Appending one operation changes each count by one or not at all.
pub proof fn lemma_occurrences_push(trace: Seq<BusOp>, last: BusOp, op: BusOp)
    ensures
        occurrences(trace.push(last), op) == occurrences(trace, op) + if last == op {
            1nat
        } else {
            0nat
        },
{
    assert(trace.push(last).drop_last() =~= trace);
}

/// A start takes the bus, a stop gives it up, and nothing else changes who
/// holds it.
pub proof fn lemma_holds_bus_push(trace: Seq<BusOp>, last: BusOp)
    ensures
        holds_bus(trace.push(last)) == if last == BusOp::Start {
            true
        } else if last == BusOp::Stop {
            false
        } else {
            holds_bus(trace)
        },
{
    assert(trace.push(last).drop_last() =~= trace);
}

/// Who holds the bus after two traces in a row is decided by the second, if
/// it requests a start or a stop at all, and by the first otherwise.
pub proof fn lemma_holds_bus_concat(first: Seq<BusOp>, second: Seq<BusOp>)
    ensures
        holds_bus(first + second) == if occurrences(second, BusOp::Start) + occurrences(
            second,
            BusOp::Stop,
        ) > 0 {
            holds_bus(second)
        } else {
            holds_bus(first)
        },
    decreases second.len(),
{
    if second.len() == 0 {
        assert(first + second =~= first);
    } else {
        let shorter = second.drop_last();
        lemma_holds_bus_concat(first, shorter);
        assert(first + second =~= (first + shorter).push(second.last()));
        assert(second =~= shorter.push(second.last()));
        lemma_holds_bus_push(first + shorter, second.last());
        lemma_holds_bus_push(shorter, second.last());
        lemma_occurrences_push(shorter, second.last(), BusOp::Start);
        lemma_occurrences_push(shorter, second.last(), BusOp::Stop);
    }
}

/// Appending an operation appends its byte to the transmitted bytes, if it
/// carries one.
pub proof fn lemma_transmitted_push(trace: Seq<BusOp>, last: BusOp)
    ensures
        transmitted(trace.push(last)) == match last {
            BusOp::Transmit(b) => transmitted(trace).push(b),
            _ => transmitted(trace),
        },
{
    assert(trace.push(last).drop_last() =~= trace);
}

/// Appending an operation appends it to the handshake, if it belongs there.
pub proof fn lemma_handshake_push(trace: Seq<BusOp>, last: BusOp)
    ensures
        handshake(trace.push(last)) == if is_handshake(last) {
            handshake(trace).push(last)
        } else {
            handshake(trace)
        },
{
    assert(trace.push(last).drop_last() =~= trace);
}

/// A trace that ends with the first `n` operations of a sequence ends with
/// its first `n + 1` once the next of them is appended.
pub proof fn lemma_ends_with_push(trace: Seq<BusOp>, whole: Seq<BusOp>, n: int, op: BusOp)
    requires
        0 <= n < whole.len(),
        ends_with(trace, whole.take(n)),
        op == whole[n],
    ensures
        ends_with(trace.push(op), whole.take(n + 1)),
{
    let grown = trace.push(op);
    let before = trace.subrange(trace.len() - n, trace.len() as int);
    let after = grown.subrange(grown.len() - (n + 1), grown.len() as int);
    assert(before == whole.take(n));
    assert forall|i: int| 0 <= i < n + 1 implies after[i] == whole.take(n + 1)[i] by {
        if i < n {
            assert(after[i] == before[i]);
            assert(whole.take(n)[i] == whole[i]);
        }
    }
    assert(after =~= whole.take(n + 1));
}

} // verus!
