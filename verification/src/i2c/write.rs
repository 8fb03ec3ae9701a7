//! A write transaction, one step at a time.
//!
//! The transaction decides; the caller touches the bus. Each call of
//! [`WriteTransaction::step`] names the next operation, and the caller hands
//! the flag that a poll read to the step after it.

use crate::i2c::{
    ends_with, get_slave_address, holds_bus, lemma_ends_with_push, lemma_holds_bus_push,
    lemma_occurrences_push, lemma_transmitted_push, max_polls, occurrences, outcome,
    slave_address_byte, transmitted, BusOp, Direction, I2cError, TransactionState, POLL_CEILING,
};
use vstd::prelude::*;

verus! {

/// Where a write transaction stands: which operation it asked for last.
#[derive(Clone, Copy, Debug, PartialEq, Eq)]
pub enum WritePhase {
    /// Nothing has been asked for yet.
    Idle,
    /// The controller has been configured for the slave.
    Configured,
    /// Waiting for the bus to become free.
    WaitBusFree,
    /// The start condition has been requested.
    Started,
    /// Asked whether the slave has acknowledged so far.
    CheckAck,
    /// Asked whether the transmit buffer can take the next byte.
    CheckReady,
    /// A byte has been handed to the transmit buffer.
    Sent,
    /// Waiting for the last byte to leave the shift register.
    WaitComplete,
    /// The stop flag has been cleared.
    ClearingStop,
    /// The stop condition has been requested.
    Stopping,
    /// Waiting for the stop condition to be detected.
    WaitStopped,
    /// The not-acknowledge flag has been cleared.
    ClearingNack,
    /// The stop request has been withdrawn.
    Releasing,
    /// The outcome has been reported.
    Finished,
}

/// A write transaction as a mathematical value.
pub struct WriteState {
    /// The slave's address.
    pub address: u8,
    /// The payload.
    pub data: Seq<u8>,
    /// Which operation was asked for last.
    pub phase: WritePhase,
    /// How many bytes of the frame have been handed to the transmit buffer.
    pub sent: nat,
    /// How many polls of the current wait have failed and been counted.
    pub polls: nat,
    /// The failure to report at the end, if any.
    pub failure: Option<I2cError>,
    /// How often the stop condition has been polled for.
    pub stop_polls: nat,
    /// Every bus operation asked for so far, in order.
    pub trace: Seq<BusOp>,
}

impl WriteState {
    /// The state of the transaction by its common name.
    pub open spec fn state(self) -> TransactionState {
        match self.phase {
            WritePhase::Idle | WritePhase::Finished => TransactionState::BusIdle,
            WritePhase::Configured | WritePhase::WaitBusFree => TransactionState::WaitBusFree,
            WritePhase::Started => TransactionState::Start,
            WritePhase::CheckAck => TransactionState::WaitAck,
            WritePhase::CheckReady | WritePhase::Sent => if self.sent == 0 {
                TransactionState::AddressPhase
            } else {
                TransactionState::DataPhase
            },
            WritePhase::WaitComplete => TransactionState::WaitComplete,
            WritePhase::ClearingStop | WritePhase::Stopping => TransactionState::Stop,
            WritePhase::WaitStopped => TransactionState::WaitStopped,
            WritePhase::ClearingNack | WritePhase::Releasing => TransactionState::ClearFlags,
        }
    }
}

/// The bytes of a write transaction on the wire: the address byte with the
/// write bit, then the payload.
pub open spec fn write_frame(address: u8, data: Seq<u8>) -> Seq<u8> {
    seq![slave_address_byte(address, Direction::Write) as u8] + data
}

/// The operations that release the bus after a write, where the stop
/// condition is polled for `polls` times.
pub open spec fn write_release(polls: nat) -> Seq<BusOp> {
    seq![BusOp::ClearStopFlag, BusOp::Stop] + Seq::new(polls, |i: int| BusOp::PollStopped)
        + seq![BusOp::ClearNackFlag, BusOp::Unstop]
}

/// A write transaction before its first step.
pub open spec fn write_initial(address: u8, data: Seq<u8>) -> WriteState {
    WriteState {
        address,
        data,
        phase: WritePhase::Idle,
        sent: 0,
        polls: 0,
        failure: None,
        stop_polls: 0,
        trace: Seq::empty(),
    }
}

/// The operation that a write transaction in state `s` asks for next, where
/// `flag` is what the last poll read.
pub open spec fn write_op(s: WriteState, flag: bool) -> BusOp {
    match s.phase {
        WritePhase::Idle => BusOp::Configure(s.address),
        WritePhase::Configured => BusOp::PollBusFree,
        WritePhase::WaitBusFree => if flag {
            BusOp::Start
        } else if s.polls > POLL_CEILING {
            BusOp::Done(Err(I2cError::BusBusy))
        } else {
            BusOp::PollBusFree
        },
        WritePhase::Started => BusOp::PollAcknowledged,
        WritePhase::CheckAck => if flag {
            BusOp::PollTransmitReady
        } else {
            BusOp::ClearStopFlag
        },
        WritePhase::CheckReady => if flag {
            BusOp::Transmit(write_frame(s.address, s.data)[s.sent as int])
        } else if s.polls > POLL_CEILING {
            BusOp::ClearStopFlag
        } else {
            BusOp::PollAcknowledged
        },
        WritePhase::Sent => if s.sent <= s.data.len() {
            BusOp::PollAcknowledged
        } else {
            BusOp::PollTransmitComplete
        },
        WritePhase::WaitComplete => if flag || s.polls > POLL_CEILING {
            BusOp::ClearStopFlag
        } else {
            BusOp::PollTransmitComplete
        },
        WritePhase::ClearingStop => BusOp::Stop,
        WritePhase::Stopping => BusOp::PollStopped,
        WritePhase::WaitStopped => if flag || s.polls > POLL_CEILING {
            BusOp::ClearNackFlag
        } else {
            BusOp::PollStopped
        },
        WritePhase::ClearingNack => BusOp::Unstop,
        WritePhase::Releasing => BusOp::Done(outcome(s.failure)),
        WritePhase::Finished => BusOp::Done(outcome(s.failure)),
    }
}

/// The phase that a write transaction in state `s` enters with its next step.
pub open spec fn write_next_phase(s: WriteState, flag: bool) -> WritePhase {
    match s.phase {
        WritePhase::Idle => WritePhase::Configured,
        WritePhase::Configured => WritePhase::WaitBusFree,
        WritePhase::WaitBusFree => if flag {
            WritePhase::Started
        } else if s.polls > POLL_CEILING {
            WritePhase::Finished
        } else {
            WritePhase::WaitBusFree
        },
        WritePhase::Started => WritePhase::CheckAck,
        WritePhase::CheckAck => if flag {
            WritePhase::CheckReady
        } else {
            WritePhase::ClearingStop
        },
        WritePhase::CheckReady => if flag {
            WritePhase::Sent
        } else if s.polls > POLL_CEILING {
            WritePhase::ClearingStop
        } else {
            WritePhase::CheckAck
        },
        WritePhase::Sent => if s.sent <= s.data.len() {
            WritePhase::CheckAck
        } else {
            WritePhase::WaitComplete
        },
        WritePhase::WaitComplete => if flag || s.polls > POLL_CEILING {
            WritePhase::ClearingStop
        } else {
            WritePhase::WaitComplete
        },
        WritePhase::ClearingStop => WritePhase::Stopping,
        WritePhase::Stopping => WritePhase::WaitStopped,
        WritePhase::WaitStopped => if flag || s.polls > POLL_CEILING {
            WritePhase::ClearingNack
        } else {
            WritePhase::WaitStopped
        },
        WritePhase::ClearingNack => WritePhase::Releasing,
        WritePhase::Releasing => WritePhase::Finished,
        WritePhase::Finished => WritePhase::Finished,
    }
}

/// The failure that a write transaction in state `s` remembers after its next
/// step. A slave that does not acknowledge and a transmission that never
/// completes both count as a slave that does not respond; a stop condition
/// that is never detected replaces whatever was remembered before.
pub open spec fn write_next_failure(s: WriteState, flag: bool) -> Option<I2cError> {
    match s.phase {
        WritePhase::WaitBusFree => if !flag && s.polls > POLL_CEILING {
            Some(I2cError::BusBusy)
        } else {
            s.failure
        },
        WritePhase::CheckAck => if flag {
            s.failure
        } else {
            Some(I2cError::SlaveNotResponding)
        },
        WritePhase::CheckReady => if !flag && s.polls > POLL_CEILING {
            Some(I2cError::TransmitBufferNotReady)
        } else {
            s.failure
        },
        WritePhase::WaitComplete => if !flag && s.polls > POLL_CEILING {
            Some(I2cError::SlaveNotResponding)
        } else {
            s.failure
        },
        WritePhase::WaitStopped => if !flag && s.polls > POLL_CEILING {
            Some(I2cError::PeripheralNotStopped)
        } else {
            s.failure
        },
        _ => s.failure,
    }
}

/// The count of failed polls after the next step: a failed poll that is
/// repeated adds one, and every new wait starts from nothing.
pub open spec fn write_next_polls(s: WriteState, flag: bool) -> nat {
    match s.phase {
        WritePhase::WaitBusFree | WritePhase::WaitComplete | WritePhase::WaitStopped => if !flag
            && s.polls <= POLL_CEILING {
            s.polls + 1
        } else {
            0
        },
        WritePhase::CheckAck => if flag {
            s.polls
        } else {
            0
        },
        WritePhase::CheckReady => if !flag && s.polls <= POLL_CEILING {
            s.polls + 1
        } else {
            0
        },
        _ => 0,
    }
}

/// The state of a write transaction after its next step.
pub open spec fn write_after(s: WriteState, flag: bool) -> WriteState {
    let op = write_op(s, flag);
    WriteState {
        address: s.address,
        data: s.data,
        phase: write_next_phase(s, flag),
        sent: if op is Transmit {
            s.sent + 1
        } else {
            s.sent
        },
        polls: write_next_polls(s, flag),
        failure: write_next_failure(s, flag),
        stop_polls: if op == BusOp::PollStopped {
            s.stop_polls + 1
        } else {
            s.stop_polls
        },
        trace: if op is Done {
            s.trace
        } else {
            s.trace.push(op)
        },
    }
}

/// Whether a phase lies before the start condition.
pub open spec fn write_before_start(phase: WritePhase) -> bool {
    phase == WritePhase::Idle || phase == WritePhase::Configured || phase
        == WritePhase::WaitBusFree
}

/// Whether a phase lies before the request for the stop condition.
pub open spec fn write_before_stop(phase: WritePhase) -> bool {
    write_before_start(phase) || phase == WritePhase::Started || phase == WritePhase::CheckAck
        || phase == WritePhase::CheckReady || phase == WritePhase::Sent || phase
        == WritePhase::WaitComplete || phase == WritePhase::ClearingStop
}

/// Whether a write has given up before it ever requested a start.
pub open spec fn write_gave_up(s: WriteState) -> bool {
    s.phase == WritePhase::Finished && s.failure == Some(I2cError::BusBusy)
}

/// How far into its release sequence a write is in a phase, counted in
/// operations, where the stop condition has been polled for `polls` times.
pub open spec fn write_release_progress(phase: WritePhase, polls: int) -> int {
    match phase {
        WritePhase::ClearingStop => 1,
        WritePhase::Stopping => 2,
        WritePhase::WaitStopped => polls + 2,
        WritePhase::ClearingNack => polls + 3,
        _ => polls + 4,
    }
}

/// What holds of every state that a write transaction can reach.
pub open spec fn write_wf(s: WriteState) -> bool {
    let released = !write_before_stop(s.phase) && !write_gave_up(s);
    &&& s.sent <= s.data.len() + 1
    &&& s.polls <= POLL_CEILING + 1
    &&& s.stop_polls <= max_polls()
    &&& transmitted(s.trace) == write_frame(s.address, s.data).take(s.sent as int)
    &&& occurrences(s.trace, BusOp::Start) == if write_before_start(s.phase) || write_gave_up(s) {
        0nat
    } else {
        1nat
    }
    &&& occurrences(s.trace, BusOp::Stop) == if released {
        1nat
    } else {
        0nat
    }
    &&& holds_bus(s.trace) == (!write_before_start(s.phase) && write_before_stop(s.phase))
    &&& s.failure != Some(I2cError::DataNotReceived)
    &&& s.failure == Some(I2cError::BusBusy) ==> write_gave_up(s)
    &&& write_gave_up(s) ==> s.sent == 0
    &&& s.phase == WritePhase::Idle ==> s.trace.len() == 0
    &&& s.phase == WritePhase::CheckAck ==> ends_with(s.trace, seq![BusOp::PollAcknowledged])
    &&& s.phase == WritePhase::CheckReady ==> ends_with(
        s.trace,
        seq![BusOp::PollAcknowledged, BusOp::PollTransmitReady],
    )
    &&& if released || s.phase == WritePhase::ClearingStop {
        &&& s.failure is None ==> s.sent == s.data.len() + 1
        &&& s.phase == WritePhase::ClearingStop || s.phase == WritePhase::Stopping
            ==> s.stop_polls == 0
        &&& s.phase == WritePhase::WaitStopped ==> s.stop_polls == s.polls + 1
        &&& !write_before_stop(s.phase) && s.phase != WritePhase::Stopping ==> s.stop_polls >= 1
        &&& ends_with(
            s.trace,
            write_release(s.stop_polls).take(write_release_progress(s.phase, s.stop_polls as int)),
        )
    } else {
        &&& s.stop_polls == 0
        &&& write_gave_up(s) || s.failure is None
        &&& match s.phase {
            WritePhase::CheckAck | WritePhase::CheckReady => s.sent <= s.data.len(),
            WritePhase::Sent => s.sent >= 1,
            WritePhase::WaitComplete => s.sent == s.data.len() + 1,
            _ => s.sent == 0,
        }
    }
}

/// The steps that a write transaction may still take after `remaining` bytes
/// of its frame are left and one has just been handed over.
pub open spec fn write_tail_budget(remaining: int) -> int {
    2 * POLL_CEILING + 9 + remaining * (2 * POLL_CEILING + 5)
}

/// An upper bound on the steps that a write transaction in state `s` takes
/// before it has reported its outcome.
pub open spec fn write_budget(s: WriteState) -> int {
    let c = POLL_CEILING as int;
    let remaining = s.data.len() + 1 - s.sent;
    match s.phase {
        WritePhase::Idle => 3 * c + 9 + write_tail_budget(s.data.len() as int),
        WritePhase::Configured => 3 * c + 8 + write_tail_budget(s.data.len() as int),
        WritePhase::WaitBusFree => 3 * c + 7 - s.polls + write_tail_budget(s.data.len() as int),
        WritePhase::Started => 2 * c + 5 + write_tail_budget(s.data.len() as int),
        WritePhase::CheckAck => 2 * (c + 1 - s.polls) + 2 + write_tail_budget(remaining - 1),
        WritePhase::CheckReady => 2 * (c + 1 - s.polls) + 1 + write_tail_budget(remaining - 1),
        WritePhase::Sent => write_tail_budget(remaining),
        WritePhase::WaitComplete => 2 * c + 8 - s.polls,
        WritePhase::ClearingStop => c + 6,
        WritePhase::Stopping => c + 5,
        WritePhase::WaitStopped => c + 4 - s.polls,
        WritePhase::ClearingNack => 2,
        WritePhase::Releasing => 1,
        WritePhase::Finished => 0,
    }
}

/// The number of steps within which a write of `len` payload bytes reports
/// its outcome, whatever the bus does.
pub open spec fn write_step_limit(len: nat) -> int {
    3 * POLL_CEILING + 9 + write_tail_budget(len as int)
}

/// The release sequence grows at its polls: up to the end of the polls, the
/// sequence with one more poll starts as the shorter one does.
pub proof fn lemma_write_release_shape(polls: nat)
    ensures
        write_release(polls).len() == polls + 4,
        write_release(polls)[0] == BusOp::ClearStopFlag,
        write_release(polls)[1] == BusOp::Stop,
        forall|i: int| 2 <= i < 2 + polls ==> write_release(polls)[i] == BusOp::PollStopped,
        write_release(polls)[(2 + polls) as int] == BusOp::ClearNackFlag,
        write_release(polls)[(3 + polls) as int] == BusOp::Unstop,
        write_release(polls).take((2 + polls) as int) == write_release(polls + 1).take(
            (2 + polls) as int,
        ),
        write_release(polls).take((4 + polls) as int) == write_release(polls),
{
    let short = write_release(polls);
    let long = write_release(polls + 1);
    assert(short.take((2 + polls) as int) =~= long.take((2 + polls) as int));
    assert(short.take((4 + polls) as int) =~= short);
}

/// Each byte that is still to be sent adds the same number of steps.
pub proof fn lemma_write_tail_budget(remaining: int)
    requires
        remaining >= 0,
    ensures
        write_tail_budget(remaining) >= 2 * POLL_CEILING + 9,
        write_tail_budget(remaining + 1) == write_tail_budget(remaining) + 2 * POLL_CEILING + 5,
{
    let k = 2 * POLL_CEILING + 5;
    assert(remaining * k >= 0) by (nonlinear_arith)
        requires
            remaining >= 0,
            k >= 0,
    ;
    assert((remaining + 1) * k == remaining * k + k) by (nonlinear_arith);
}

/// Every step keeps a write transaction well-formed, and every step but
/// those after the end brings the end nearer.
pub proof fn lemma_write_step(s: WriteState, flag: bool)
    requires
        write_wf(s),
    ensures
        write_wf(write_after(s, flag)),
        s.phase != WritePhase::Finished ==> 0 <= write_budget(write_after(s, flag))
            < write_budget(s),
        write_budget(s) >= 0,
{
    let t = write_after(s, flag);
    let op = write_op(s, flag);
    let frame = write_frame(s.address, s.data);
    let c = POLL_CEILING as int;
    let remaining = s.data.len() + 1 - s.sent;
    lemma_write_tail_budget(s.data.len() as int);
    if remaining >= 1 {
        lemma_write_tail_budget(remaining - 1);
        assert(t.data.len() + 1 - (s.sent + 1) == remaining - 1);
    }
    lemma_write_tail_budget(remaining);
    if !(op is Done) {
        lemma_occurrences_push(s.trace, op, BusOp::Start);
        lemma_occurrences_push(s.trace, op, BusOp::Stop);
        lemma_transmitted_push(s.trace, op);
        lemma_holds_bus_push(s.trace, op);
    }
    if op is Transmit {
        assert(frame.take(s.sent as int).push(frame[s.sent as int]) =~= frame.take(
            s.sent as int + 1,
        ));
    }
    if t.phase == WritePhase::CheckAck {
        assert(t.trace.subrange(t.trace.len() - 1, t.trace.len() as int) =~= seq![
            BusOp::PollAcknowledged,
        ]);
    }
    if t.phase == WritePhase::CheckReady {
        let pair = seq![BusOp::PollAcknowledged, BusOp::PollTransmitReady];
        assert(pair.take(1) =~= seq![BusOp::PollAcknowledged]);
        assert(pair.take(2) =~= pair);
        lemma_ends_with_push(s.trace, pair, 1, op);
    }
    lemma_write_release_shape(s.stop_polls);
    lemma_write_release_shape(t.stop_polls);
    if !(op is Done) && !write_before_stop(t.phase) || t.phase == WritePhase::ClearingStop {
        let whole = write_release(t.stop_polls);
        let n = write_release_progress(t.phase, t.stop_polls as int) - 1;
        if n == 0 {
            assert(s.trace.push(op).subrange(s.trace.len() as int, s.trace.len() as int + 1)
                =~= whole.take(1));
        } else {
            if op == BusOp::PollStopped {
                assert(write_release(s.stop_polls).take((2 + s.stop_polls) as int) == whole.take(
                    (2 + s.stop_polls) as int,
                ));
            }
            assert(ends_with(s.trace, whole.take(n)));
            assert(whole[n] == op);
            lemma_ends_with_push(s.trace, whole, n, op);
        }
    }
}

/// A write transaction starts in a state that the invariant admits.
pub proof fn lemma_write_initial(address: u8, data: Seq<u8>)
    ensures
        write_wf(write_initial(address, data)),
        write_budget(write_initial(address, data)) == write_step_limit(data.len()),
{
    assert(write_frame(address, data).take(0) =~= Seq::<u8>::empty());
}

/// A write transaction always lets go of the bus. Once it has ended it does
/// not hold the bus, whether or not the slave acknowledged. Either it never
/// requested a start and reports a busy bus, or it requested one start and
/// one stop, and the last things it asked for are the whole release
/// sequence: clear the stop flag, request the stop, poll for it at least
/// once, clear the not-acknowledge flag, withdraw the request.
pub proof fn law_write_releases_bus(s: WriteState)
    requires
        write_wf(s),
        s.phase == WritePhase::Finished,
    ensures
        !holds_bus(s.trace),
        s.failure == Some(I2cError::BusBusy) <==> occurrences(s.trace, BusOp::Start) == 0,
        s.failure != Some(I2cError::BusBusy) ==> {
            &&& occurrences(s.trace, BusOp::Start) == 1
            &&& occurrences(s.trace, BusOp::Stop) == 1
            &&& 1 <= s.stop_polls <= max_polls()
            &&& ends_with(s.trace, write_release(s.stop_polls))
        },
{
    lemma_write_release_shape(s.stop_polls);
}

/// The bytes that a write transaction has handed over are always the first
/// bytes of its frame, in order: the address byte with the write bit, then
/// the payload. A transaction that ends without failure has handed over the
/// whole frame.
pub proof fn law_write_sends_frame_in_order(s: WriteState)
    requires
        write_wf(s),
    ensures
        s.sent <= s.data.len() + 1,
        transmitted(s.trace) == write_frame(s.address, s.data).take(s.sent as int),
        s.phase == WritePhase::Finished && s.failure is None ==> transmitted(s.trace)
            == write_frame(s.address, s.data),
{
    let frame = write_frame(s.address, s.data);
    assert(frame.take(frame.len() as int) =~= frame);
}

/// No byte is handed over unchecked. Whenever the transaction hands a byte
/// to the transmit buffer, the two operations before it were the poll for
/// the slave's acknowledge and the poll for the transmit buffer, in that
/// order, and the poll for the transmit buffer read that it is ready.
pub proof fn law_write_checks_before_each_byte(s: WriteState, flag: bool)
    requires
        write_wf(s),
        write_op(s, flag) is Transmit,
    ensures
        flag,
        s.phase == WritePhase::CheckReady,
        ends_with(s.trace, seq![BusOp::PollAcknowledged, BusOp::PollTransmitReady]),
        write_op(s, flag) == BusOp::Transmit(write_frame(s.address, s.data)[s.sent as int]),
{
}

/// A failure, once remembered, is what the transaction reports, unless the
/// stop condition is then never detected.
pub proof fn law_write_keeps_failure(s: WriteState, flag: bool)
    requires
        write_wf(s),
        s.failure is Some,
    ensures
        write_after(s, flag).failure == s.failure || write_after(s, flag).failure == Some(
            I2cError::PeripheralNotStopped,
        ),
{
}

/// A slave that does not acknowledge makes the transaction remember that it
/// does not respond, and turn to releasing the bus at once: no further byte
/// is handed over.
pub proof fn law_write_stops_on_nack(s: WriteState)
    requires
        write_wf(s),
        s.phase == WritePhase::CheckAck,
    ensures
        write_op(s, false) == BusOp::ClearStopFlag,
        write_after(s, false).failure == Some(I2cError::SlaveNotResponding),
        write_after(s, false).sent == s.sent,
{
}

/// A write transaction in progress: the slave's address, the payload, and
/// how far the transaction has come.
pub struct WriteTransaction<'a> {
    address: u8,
    data: &'a [u8],
    phase: WritePhase,
    /// Whether the address byte has been handed to the transmit buffer.
    addressed: bool,
    /// How many payload bytes have been handed to the transmit buffer.
    sent: usize,
    polls: u32,
    failure: Option<I2cError>,
    stop_polls: Ghost<nat>,
    trace: Ghost<Seq<BusOp>>,
}

impl<'a> View for WriteTransaction<'a> {
    type V = WriteState;

    closed spec fn view(&self) -> WriteState {
        WriteState {
            address: self.address,
            data: self.data@,
            phase: self.phase,
            sent: if self.addressed {
                (self.sent + 1) as nat
            } else {
                0
            },
            polls: self.polls as nat,
            failure: self.failure,
            stop_polls: self.stop_polls@,
            trace: self.trace@,
        }
    }
}

impl<'a> WriteTransaction<'a> {
    /// The transaction is in a state that it can reach from its start.
    pub closed spec fn wf(&self) -> bool {
        &&& write_wf(self@)
        &&& self.sent <= self.data@.len()
        &&& !self.addressed ==> self.sent == 0
    }

    /// A transaction that writes `data` to the slave at `address`. Nothing
    /// has been asked of the bus yet.
    pub fn new(address: u8, data: &'a [u8]) -> (txn: Self)
        ensures
            txn.wf(),
            txn@ == write_initial(address, data@),
            write_budget(txn@) == write_step_limit(data@.len()),
    {
        let txn = WriteTransaction {
            address,
            data,
            phase: WritePhase::Idle,
            addressed: false,
            sent: 0,
            polls: 0,
            failure: None,
            stop_polls: Ghost(0),
            trace: Ghost(Seq::empty()),
        };
        proof {
            assert(write_frame(address, data@).take(0) =~= Seq::<u8>::empty());
        }
        txn
    }

    /// The phase that the transaction is in.
    pub fn phase(&self) -> (phase: WritePhase)
        ensures
            phase == self@.phase,
    {
        self.phase
    }

    /// Whether the outcome has been reported.
    pub fn is_finished(&self) -> (done: bool)
        ensures
            done == (self@.phase == WritePhase::Finished),
    {
        match self.phase {
            WritePhase::Finished => true,
            _ => false,
        }
    }

    /// The state of the transaction by its common name. A transaction is
    /// idle before its first step and after its outcome is reported,
    /// whatever the outcome.
    pub fn state(&self) -> (state: TransactionState)
        ensures
            state == self@.state(),
            self@.phase == WritePhase::Finished ==> state == TransactionState::BusIdle,
    {
        match self.phase {
            WritePhase::Idle | WritePhase::Finished => TransactionState::BusIdle,
            WritePhase::Configured | WritePhase::WaitBusFree => TransactionState::WaitBusFree,
            WritePhase::Started => TransactionState::Start,
            WritePhase::CheckAck => TransactionState::WaitAck,
            WritePhase::CheckReady | WritePhase::Sent => if self.addressed {
                TransactionState::DataPhase
            } else {
                TransactionState::AddressPhase
            },
            WritePhase::WaitComplete => TransactionState::WaitComplete,
            WritePhase::ClearingStop | WritePhase::Stopping => TransactionState::Stop,
            WritePhase::WaitStopped => TransactionState::WaitStopped,
            WritePhase::ClearingNack | WritePhase::Releasing => TransactionState::ClearFlags,
        }
    }

    /// The byte of the frame that is handed over next.
    fn next_byte(&self) -> (byte: u8)
        requires
            self.wf(),
            self@.sent <= self@.data.len(),
        ensures
            byte == write_frame(self@.address, self@.data)[self@.sent as int],
    {
        if self.addressed {
            self.data[self.sent]
        } else {
            get_slave_address(self.address, Direction::Write)
        }
    }

    /// Takes the flag that the last poll read, or anything where the last
    /// operation was no poll, and names the operation to perform next.
    ///
    /// The transaction configures the controller, waits for the bus, requests
    /// a start, and hands over the address byte and the payload in order,
    /// each byte only while the slave acknowledges and once the transmit
    /// buffer is ready. Whatever happened after the start, it then clears the
    /// stop flag, requests a stop, waits for it, clears the not-acknowledge
    /// flag and withdraws the request, and only then reports the outcome.
    pub fn step(&mut self, flag: bool) -> (op: BusOp)
        requires
            old(self).wf(),
        ensures
            final(self).wf(),
            op == write_op(old(self)@, flag),
            final(self)@ == write_after(old(self)@, flag),
            (op is Done) == (final(self)@.phase == WritePhase::Finished),
            op is Done ==> !holds_bus(final(self)@.trace),
            old(self)@.phase != WritePhase::Finished ==> 0 <= write_budget(final(self)@)
                < write_budget(old(self)@),
    {
        let ghost before = self@;
        proof {
            lemma_write_step(before, flag);
        }
        let timed_out = self.polls > POLL_CEILING;
        let len = self.data.len();
        let op = match self.phase {
            WritePhase::Idle => {
                self.phase = WritePhase::Configured;
                self.polls = 0;
                BusOp::Configure(self.address)
            },
            WritePhase::Configured => {
                self.phase = WritePhase::WaitBusFree;
                self.polls = 0;
                BusOp::PollBusFree
            },
            WritePhase::WaitBusFree => {
                if flag {
                    self.phase = WritePhase::Started;
                    self.polls = 0;
                    BusOp::Start
                } else if timed_out {
                    self.phase = WritePhase::Finished;
                    self.polls = 0;
                    self.failure = Some(I2cError::BusBusy);
                    BusOp::Done(Err(I2cError::BusBusy))
                } else {
                    self.polls = self.polls + 1;
                    BusOp::PollBusFree
                }
            },
            WritePhase::Started => {
                self.phase = WritePhase::CheckAck;
                self.polls = 0;
                BusOp::PollAcknowledged
            },
            WritePhase::CheckAck => {
                if flag {
                    self.phase = WritePhase::CheckReady;
                    BusOp::PollTransmitReady
                } else {
                    self.phase = WritePhase::ClearingStop;
                    self.polls = 0;
                    self.failure = Some(I2cError::SlaveNotResponding);
                    BusOp::ClearStopFlag
                }
            },
            WritePhase::CheckReady => {
                if flag {
                    let byte = self.next_byte();
                    if self.addressed {
                        self.sent = self.sent + 1;
                    } else {
                        self.addressed = true;
                    }
                    self.phase = WritePhase::Sent;
                    self.polls = 0;
                    BusOp::Transmit(byte)
                } else if timed_out {
                    self.phase = WritePhase::ClearingStop;
                    self.polls = 0;
                    self.failure = Some(I2cError::TransmitBufferNotReady);
                    BusOp::ClearStopFlag
                } else {
                    self.phase = WritePhase::CheckAck;
                    self.polls = self.polls + 1;
                    BusOp::PollAcknowledged
                }
            },
            WritePhase::Sent => {
                self.polls = 0;
                if self.sent < len {
                    self.phase = WritePhase::CheckAck;
                    BusOp::PollAcknowledged
                } else {
                    self.phase = WritePhase::WaitComplete;
                    BusOp::PollTransmitComplete
                }
            },
            WritePhase::WaitComplete => {
                if flag || timed_out {
                    if !flag {
                        self.failure = Some(I2cError::SlaveNotResponding);
                    }
                    self.phase = WritePhase::ClearingStop;
                    self.polls = 0;
                    BusOp::ClearStopFlag
                } else {
                    self.polls = self.polls + 1;
                    BusOp::PollTransmitComplete
                }
            },
            WritePhase::ClearingStop => {
                self.phase = WritePhase::Stopping;
                self.polls = 0;
                BusOp::Stop
            },
            WritePhase::Stopping => {
                self.phase = WritePhase::WaitStopped;
                self.polls = 0;
                BusOp::PollStopped
            },
            WritePhase::WaitStopped => {
                if flag || timed_out {
                    if !flag {
                        self.failure = Some(I2cError::PeripheralNotStopped);
                    }
                    self.phase = WritePhase::ClearingNack;
                    self.polls = 0;
                    BusOp::ClearNackFlag
                } else {
                    self.polls = self.polls + 1;
                    BusOp::PollStopped
                }
            },
            WritePhase::ClearingNack => {
                self.phase = WritePhase::Releasing;
                self.polls = 0;
                BusOp::Unstop
            },
            WritePhase::Releasing => {
                self.phase = WritePhase::Finished;
                self.polls = 0;
                self.report()
            },
            WritePhase::Finished => {
                self.polls = 0;
                self.report()
            },
        };
        self.stop_polls = Ghost(write_after(before, flag).stop_polls);
        self.trace = Ghost(write_after(before, flag).trace);
        assert(self@ == write_after(before, flag));
        op
    }

    /// The end of the transaction, with the failure it remembered.
    fn report(&self) -> (op: BusOp)
        ensures
            op == BusOp::Done(outcome(self.failure)),
    {
        match self.failure {
            Some(e) => BusOp::Done(Err(e)),
            None => BusOp::Done(Ok(())),
        }
    }
}

} // verus!
