//! A read transaction, one step at a time.
//!
//! As with a write, the transaction decides and the caller touches the bus.
//! The bytes themselves never pass through the transaction: it says at which
//! index of the caller's buffer each received byte belongs.

use crate::i2c::{
    ends_with, get_slave_address, handshake, holds_bus, is_handshake, lemma_ends_with_push,
    lemma_handshake_push, lemma_holds_bus_push, lemma_occurrences_push, lemma_transmitted_push,
    max_polls, occurrences, outcome, slave_address_byte, transmitted, BusOp, Direction, I2cError,
    TransactionState, POLL_CEILING,
};
use vstd::prelude::*;

verus! {

/// Where a read transaction stands: which operation it asked for last.
#[derive(Clone, Copy, Debug, PartialEq, Eq)]
pub enum ReadPhase {
    /// Nothing has been asked for yet.
    Idle,
    /// The controller has been configured for the slave.
    Configured,
    /// Waiting for the bus to become free.
    WaitBusFree,
    /// The start condition has been requested.
    Started,
    /// Waiting for the transmit buffer to take the address byte.
    WaitReady,
    /// The address byte has been handed to the transmit buffer.
    Addressed,
    /// Waiting for the receive flag that ends the address phase.
    WaitFirst,
    /// Asked whether the slave acknowledged its address.
    CheckAck,
    /// The byte that follows the address phase has been read and dropped.
    Discarded,
    /// Waiting for a byte other than the last.
    WaitData,
    /// The hold has been armed for the byte before the last.
    Armed,
    /// A received byte has been stored.
    Stored,
    /// The last byte has been set up to be refused.
    Refusing,
    /// Waiting for the last byte.
    WaitLast,
    /// The stop flag has been cleared.
    ClearingStop,
    /// The stop condition has been requested.
    Stopping,
    /// The byte that the stop sequence asks for has been read and dropped.
    Draining,
    /// The hold has been released.
    Unheld,
    /// After a refused address: the byte has been read and dropped.
    NackDrained,
    /// After a refused address: the stop condition has been requested.
    NackStopping,
    /// Waiting for the stop condition to be detected.
    WaitStopped,
    /// The not-acknowledge flag has been cleared.
    ClearingNack,
    /// The stop flag has been cleared for the last time.
    Cleared,
    /// The outcome has been reported.
    Finished,
}

/// A read transaction as a mathematical value.
pub struct ReadState {
    /// The slave's address.
    pub address: u8,
    /// How many bytes are to be read.
    pub len: nat,
    /// Which operation was asked for last.
    pub phase: ReadPhase,
    /// How many received bytes the caller has been told to store.
    pub stored: nat,
    /// How many polls of the current wait have failed and been counted.
    pub polls: nat,
    /// The failure to report at the end, if any.
    pub failure: Option<I2cError>,
    /// Whether the slave refused its address.
    pub refused: bool,
    /// How often the stop condition has been polled for.
    pub stop_polls: nat,
    /// Every bus operation asked for so far, in order.
    pub trace: Seq<BusOp>,
}

impl ReadState {
    /// The state of the transaction by its common name.
    pub open spec fn state(self) -> TransactionState {
        match self.phase {
            ReadPhase::Idle | ReadPhase::Finished => TransactionState::BusIdle,
            ReadPhase::Configured | ReadPhase::WaitBusFree => TransactionState::WaitBusFree,
            ReadPhase::Started => TransactionState::Start,
            ReadPhase::WaitReady | ReadPhase::Addressed | ReadPhase::WaitFirst =>
                TransactionState::AddressPhase,
            ReadPhase::CheckAck => TransactionState::WaitAck,
            ReadPhase::Discarded | ReadPhase::WaitData | ReadPhase::Armed | ReadPhase::Stored
            | ReadPhase::Refusing | ReadPhase::WaitLast => TransactionState::DataPhase,
            ReadPhase::ClearingStop | ReadPhase::Stopping | ReadPhase::Draining
            | ReadPhase::Unheld | ReadPhase::NackDrained | ReadPhase::NackStopping =>
                TransactionState::Stop,
            ReadPhase::WaitStopped => TransactionState::WaitStopped,
            ReadPhase::ClearingNack | ReadPhase::Cleared => TransactionState::ClearFlags,
        }
    }
}

/// The address byte of a read: the address with the read bit.
pub open spec fn read_address_byte(address: u8) -> u8 {
    slave_address_byte(address, Direction::Read) as u8
}

/// A read transaction before its first step.
pub open spec fn read_initial(address: u8, len: nat) -> ReadState {
    ReadState {
        address,
        len,
        phase: ReadPhase::Idle,
        stored: 0,
        polls: 0,
        failure: None,
        refused: false,
        stop_polls: 0,
        trace: Seq::empty(),
    }
}

/// What a read does between two bytes, and after the last: release the bus
/// when every byte is stored, set up the refusal when one byte is left, and
/// wait for the next byte otherwise.
pub open spec fn read_between_bytes(s: ReadState) -> BusOp {
    if s.stored >= s.len {
        BusOp::ClearStopFlag
    } else if s.stored + 1 == s.len {
        BusOp::NackNext
    } else {
        BusOp::PollDataReceived
    }
}

/// The operation that a read transaction in state `s` asks for next, where
/// `flag` is what the last poll read.
pub open spec fn read_op(s: ReadState, flag: bool) -> BusOp {
    let timed_out = s.polls > POLL_CEILING;
    match s.phase {
        ReadPhase::Idle => BusOp::Configure(s.address),
        ReadPhase::Configured => BusOp::PollBusFree,
        ReadPhase::WaitBusFree => if flag {
            BusOp::Start
        } else if timed_out {
            BusOp::Done(Err(I2cError::BusBusy))
        } else {
            BusOp::PollBusFree
        },
        ReadPhase::Started => BusOp::PollTransmitReady,
        ReadPhase::WaitReady => if flag {
            BusOp::Transmit(read_address_byte(s.address))
        } else if timed_out {
            BusOp::ClearStopFlag
        } else {
            BusOp::PollTransmitReady
        },
        ReadPhase::Addressed => BusOp::PollDataReceived,
        ReadPhase::WaitFirst => if flag {
            BusOp::PollAcknowledged
        } else if timed_out {
            BusOp::ClearStopFlag
        } else {
            BusOp::PollDataReceived
        },
        ReadPhase::CheckAck => BusOp::ReadDiscard,
        ReadPhase::Discarded | ReadPhase::Stored => read_between_bytes(s),
        ReadPhase::WaitData => if flag {
            if s.stored + 2 == s.len {
                BusOp::SetWait
            } else {
                BusOp::ReadInto(s.stored as usize)
            }
        } else if timed_out {
            BusOp::ClearStopFlag
        } else {
            BusOp::PollDataReceived
        },
        ReadPhase::Armed => BusOp::ReadInto(s.stored as usize),
        ReadPhase::Refusing => BusOp::PollDataReceived,
        ReadPhase::WaitLast => if flag {
            BusOp::ReadInto(s.stored as usize)
        } else if timed_out {
            BusOp::ClearStopFlag
        } else {
            BusOp::PollDataReceived
        },
        ReadPhase::ClearingStop => BusOp::Stop,
        ReadPhase::Stopping => BusOp::ReadDiscard,
        ReadPhase::Draining => BusOp::ClearWait,
        ReadPhase::Unheld => BusOp::PollStopped,
        ReadPhase::NackDrained => BusOp::Stop,
        ReadPhase::NackStopping => BusOp::PollStopped,
        ReadPhase::WaitStopped => if flag || timed_out {
            BusOp::ClearNackFlag
        } else {
            BusOp::PollStopped
        },
        ReadPhase::ClearingNack => BusOp::ClearStopFlag,
        ReadPhase::Cleared => BusOp::Done(outcome(s.failure)),
        ReadPhase::Finished => BusOp::Done(outcome(s.failure)),
    }
}

/// The phase that follows a wait: on to `onward` when the flag came, to the
/// release of the bus when the wait has lasted too long, and the same wait
/// again otherwise.
pub open spec fn read_after_wait(s: ReadState, flag: bool, onward: ReadPhase) -> ReadPhase {
    if flag {
        onward
    } else if s.polls > POLL_CEILING {
        ReadPhase::ClearingStop
    } else {
        s.phase
    }
}

/// The phase that a read transaction in state `s` enters with its next step.
pub open spec fn read_next_phase(s: ReadState, flag: bool) -> ReadPhase {
    match s.phase {
        ReadPhase::Idle => ReadPhase::Configured,
        ReadPhase::Configured => ReadPhase::WaitBusFree,
        ReadPhase::WaitBusFree => if flag {
            ReadPhase::Started
        } else if s.polls > POLL_CEILING {
            ReadPhase::Finished
        } else {
            ReadPhase::WaitBusFree
        },
        ReadPhase::Started => ReadPhase::WaitReady,
        ReadPhase::WaitReady => read_after_wait(s, flag, ReadPhase::Addressed),
        ReadPhase::Addressed => ReadPhase::WaitFirst,
        ReadPhase::WaitFirst => read_after_wait(s, flag, ReadPhase::CheckAck),
        ReadPhase::CheckAck => if flag {
            ReadPhase::Discarded
        } else {
            ReadPhase::NackDrained
        },
        ReadPhase::Discarded | ReadPhase::Stored => if s.stored >= s.len {
            ReadPhase::ClearingStop
        } else if s.stored + 1 == s.len {
            ReadPhase::Refusing
        } else {
            ReadPhase::WaitData
        },
        ReadPhase::WaitData => read_after_wait(
            s,
            flag,
            if s.stored + 2 == s.len {
                ReadPhase::Armed
            } else {
                ReadPhase::Stored
            },
        ),
        ReadPhase::Armed => ReadPhase::Stored,
        ReadPhase::Refusing => ReadPhase::WaitLast,
        ReadPhase::WaitLast => read_after_wait(s, flag, ReadPhase::Stored),
        ReadPhase::ClearingStop => ReadPhase::Stopping,
        ReadPhase::Stopping => ReadPhase::Draining,
        ReadPhase::Draining => ReadPhase::Unheld,
        ReadPhase::Unheld => ReadPhase::WaitStopped,
        ReadPhase::NackDrained => ReadPhase::NackStopping,
        ReadPhase::NackStopping => ReadPhase::WaitStopped,
        ReadPhase::WaitStopped => if flag || s.polls > POLL_CEILING {
            ReadPhase::ClearingNack
        } else {
            ReadPhase::WaitStopped
        },
        ReadPhase::ClearingNack => ReadPhase::Cleared,
        ReadPhase::Cleared => ReadPhase::Finished,
        ReadPhase::Finished => ReadPhase::Finished,
    }
}

/// Whether a phase is a bounded wait.
pub open spec fn read_is_wait(phase: ReadPhase) -> bool {
    phase == ReadPhase::WaitBusFree || phase == ReadPhase::WaitReady || phase
        == ReadPhase::WaitFirst || phase == ReadPhase::WaitData || phase == ReadPhase::WaitLast
        || phase == ReadPhase::WaitStopped
}

/// The failure that a read transaction in state `s` remembers after its next
/// step. Each wait that lasts too long has its own kind; a stop condition
/// that is never detected replaces whatever was remembered before.
pub open spec fn read_next_failure(s: ReadState, flag: bool) -> Option<I2cError> {
    let timed_out = !flag && s.polls > POLL_CEILING;
    match s.phase {
        ReadPhase::WaitBusFree => if timed_out {
            Some(I2cError::BusBusy)
        } else {
            s.failure
        },
        ReadPhase::WaitReady => if timed_out {
            Some(I2cError::TransmitBufferNotReady)
        } else {
            s.failure
        },
        ReadPhase::WaitFirst | ReadPhase::WaitData | ReadPhase::WaitLast => if timed_out {
            Some(I2cError::DataNotReceived)
        } else {
            s.failure
        },
        ReadPhase::CheckAck => if flag {
            s.failure
        } else {
            Some(I2cError::SlaveNotResponding)
        },
        ReadPhase::WaitStopped => if timed_out {
            Some(I2cError::PeripheralNotStopped)
        } else {
            s.failure
        },
        _ => s.failure,
    }
}

/// The state of a read transaction after its next step.
pub open spec fn read_after(s: ReadState, flag: bool) -> ReadState {
    let op = read_op(s, flag);
    ReadState {
        address: s.address,
        len: s.len,
        phase: read_next_phase(s, flag),
        stored: if op is ReadInto {
            s.stored + 1
        } else {
            s.stored
        },
        polls: if read_is_wait(s.phase) && !flag && s.polls <= POLL_CEILING {
            s.polls + 1
        } else {
            0
        },
        failure: read_next_failure(s, flag),
        refused: s.refused || (s.phase == ReadPhase::CheckAck && !flag),
        stop_polls: if op == BusOp::PollStopped {
            s.stop_polls + 1
        } else {
            s.stop_polls
        },
        trace: if op is Done {
            s.trace
        } else {
            s.trace.push(op)
        },
    }
}

/// The handshake of a complete read of `len` bytes: every byte but the last
/// two is simply stored, the hold is armed just before the byte before the
/// last is stored, and the refusal is set up just before the last byte is
/// stored.
pub open spec fn read_handshake(len: nat) -> Seq<BusOp> {
    if len >= 2 {
        Seq::new((len - 2) as nat, |i: int| BusOp::ReadInto(i as usize)) + seq![
            BusOp::SetWait,
            BusOp::ReadInto((len - 2) as usize),
            BusOp::NackNext,
            BusOp::ReadInto((len - 1) as usize),
        ]
    } else {
        seq![BusOp::NackNext, BusOp::ReadInto(0)]
    }
}

/// How many handshake operations a read of `len` bytes has asked for by the
/// time it has stored `stored` of them.
pub open spec fn read_handshake_done(len: nat, stored: nat) -> nat {
    stored + if len >= 2 && stored + 1 >= len {
        1nat
    } else {
        0nat
    } + if stored >= len {
        1nat
    } else {
        0nat
    }
}

/// The operations that release the bus after a read, where the stop
/// condition is polled for `polls` times. After a refused address the byte in
/// the receive buffer is dropped first and the stop requested then;
/// otherwise the stop flag is cleared, the stop requested, the byte dropped
/// and the hold released.
pub open spec fn read_release(refused: bool, polls: nat) -> Seq<BusOp> {
    read_release_head(refused) + Seq::new(polls, |i: int| BusOp::PollStopped) + seq![
        BusOp::ClearNackFlag,
        BusOp::ClearStopFlag,
    ]
}

/// What a read asks for between deciding to release the bus and polling for
/// the stop condition.
pub open spec fn read_release_head(refused: bool) -> Seq<BusOp> {
    if refused {
        seq![BusOp::ReadDiscard, BusOp::Stop]
    } else {
        seq![BusOp::ClearStopFlag, BusOp::Stop, BusOp::ReadDiscard, BusOp::ClearWait]
    }
}

/// Whether a phase lies before the start condition.
pub open spec fn read_before_start(phase: ReadPhase) -> bool {
    phase == ReadPhase::Idle || phase == ReadPhase::Configured || phase == ReadPhase::WaitBusFree
}

/// Whether a phase lies before the address byte.
pub open spec fn read_before_address(phase: ReadPhase) -> bool {
    read_before_start(phase) || phase == ReadPhase::Started || phase == ReadPhase::WaitReady
}

/// Whether a phase belongs to the release of the bus, or lies after it.
pub open spec fn read_in_release(phase: ReadPhase) -> bool {
    phase == ReadPhase::ClearingStop || phase == ReadPhase::Stopping || phase
        == ReadPhase::Draining || phase == ReadPhase::Unheld || phase == ReadPhase::NackDrained
        || phase == ReadPhase::NackStopping || phase == ReadPhase::WaitStopped || phase
        == ReadPhase::ClearingNack || phase == ReadPhase::Cleared || phase == ReadPhase::Finished
}

/// Whether a phase belongs to the release of the bus and lies before the
/// first poll for the stop condition.
pub open spec fn read_in_head(phase: ReadPhase) -> bool {
    phase == ReadPhase::ClearingStop || phase == ReadPhase::Stopping || phase
        == ReadPhase::Draining || phase == ReadPhase::Unheld || phase == ReadPhase::NackDrained
        || phase == ReadPhase::NackStopping
}

/// Whether the stop condition has been requested by the time of a phase.
pub open spec fn read_stop_requested(phase: ReadPhase) -> bool {
    read_in_release(phase) && phase != ReadPhase::ClearingStop && phase != ReadPhase::NackDrained
}

/// How far into its release sequence a read is in a phase, counted in
/// operations, where the stop condition has been polled for `polls` times.
pub open spec fn read_release_progress(phase: ReadPhase, refused: bool, polls: nat) -> int {
    let head = read_head_len(refused);
    match phase {
        ReadPhase::ClearingStop | ReadPhase::NackDrained => 1,
        ReadPhase::Stopping | ReadPhase::NackStopping => 2,
        ReadPhase::Draining => 3,
        ReadPhase::Unheld => 4,
        ReadPhase::WaitStopped => head + polls,
        ReadPhase::ClearingNack => head + polls + 1,
        _ => head + polls + 2,
    }
}

/// Whether a read has given up before it ever requested a start.
pub open spec fn read_gave_up(s: ReadState) -> bool {
    s.phase == ReadPhase::Finished && s.failure == Some(I2cError::BusBusy)
}

/// The counters of a read stay in range, and agree with its phase.
pub open spec fn read_wf_progress(s: ReadState) -> bool {
    &&& 1 <= s.len <= usize::MAX
    &&& s.stored <= s.len
    &&& s.polls <= POLL_CEILING + 1
    &&& s.stop_polls <= max_polls()
    &&& s.failure == Some(I2cError::BusBusy) ==> read_gave_up(s)
    &&& if read_in_release(s.phase) {
        &&& s.failure is None ==> s.stored == s.len && !s.refused
        &&& s.refused ==> s.stored == 0 && !read_gave_up(s)
        &&& s.phase == ReadPhase::NackDrained || s.phase == ReadPhase::NackStopping
            ==> s.refused
        &&& read_in_head(s.phase) && s.phase != ReadPhase::NackDrained && s.phase
            != ReadPhase::NackStopping ==> !s.refused
        &&& read_in_head(s.phase) ==> s.stop_polls == 0
        &&& s.phase == ReadPhase::WaitStopped ==> s.stop_polls == s.polls + 1
        &&& s.phase == ReadPhase::ClearingNack || s.phase == ReadPhase::Cleared || (s.phase
            == ReadPhase::Finished && !read_gave_up(s)) ==> s.stop_polls >= 1
        &&& read_gave_up(s) ==> s.stored == 0 && s.stop_polls == 0
    } else {
        &&& s.failure is None
        &&& !s.refused
        &&& s.stop_polls == 0
        &&& match s.phase {
            ReadPhase::Stored => s.stored >= 1,
            ReadPhase::WaitData => s.stored + 2 <= s.len,
            ReadPhase::Armed => s.stored + 2 == s.len,
            ReadPhase::Refusing | ReadPhase::WaitLast => s.stored + 1 == s.len,
            _ => s.stored == 0,
        }
    }
}

/// The trace of a read holds one start once it has been requested, one stop
/// once that has been requested, and the address byte once it has been
/// handed over, and no other byte.
pub open spec fn read_wf_framing(s: ReadState) -> bool {
    let address_sent = seq![read_address_byte(s.address)];
    &&& s.phase == ReadPhase::Idle ==> s.trace.len() == 0
    &&& s.phase == ReadPhase::WaitData || s.phase == ReadPhase::WaitLast ==> ends_with(
        s.trace,
        seq![BusOp::PollDataReceived],
    )
    &&& s.phase == ReadPhase::Armed ==> ends_with(
        s.trace,
        seq![BusOp::PollDataReceived, BusOp::SetWait],
    )
    &&& occurrences(s.trace, BusOp::Start) == if read_before_start(s.phase) || read_gave_up(s) {
        0nat
    } else {
        1nat
    }
    &&& occurrences(s.trace, BusOp::Stop) == if read_stop_requested(s.phase) && !read_gave_up(
        s,
    ) {
        1nat
    } else {
        0nat
    }
    &&& holds_bus(s.trace) == (!read_before_start(s.phase) && !read_stop_requested(s.phase))
    &&& transmitted(s.trace).len() == 0 || transmitted(s.trace) == address_sent
    &&& read_before_address(s.phase) || read_gave_up(s) ==> transmitted(s.trace).len() == 0
    &&& !read_before_address(s.phase) && (!read_in_release(s.phase) || s.failure is None
        || s.stored > 0 || s.refused) ==> transmitted(s.trace) == address_sent
}

/// The handshake of a read so far is the beginning of the handshake of a
/// complete read, as far as its phase and the bytes stored say.
pub open spec fn read_wf_handshake(s: ReadState) -> bool {
    let shaken = handshake(s.trace);
    &&& shaken.len() <= read_handshake(s.len).len()
    &&& shaken == read_handshake(s.len).take(shaken.len() as int)
    &&& s.stored == s.len ==> shaken == read_handshake(s.len)
    &&& !read_in_release(s.phase) ==> shaken.len() == match s.phase {
        ReadPhase::Stored => read_handshake_done(s.len, s.stored),
        ReadPhase::WaitData => s.stored,
        ReadPhase::Armed => s.stored + 1,
        ReadPhase::Refusing | ReadPhase::WaitLast => read_handshake_done(s.len, s.stored) + 1,
        _ => 0,
    }
}

/// While a read releases the bus, and after it has, its trace ends with the
/// release sequence as far as the phase has come.
pub open spec fn read_wf_release(s: ReadState) -> bool {
    read_in_release(s.phase) && !read_gave_up(s) ==> ends_with(
        s.trace,
        read_release(s.refused, s.stop_polls).take(
            read_release_progress(s.phase, s.refused, s.stop_polls),
        ),
    )
}

/// What holds of every state that a read transaction can reach.
pub open spec fn read_wf(s: ReadState) -> bool {
    &&& read_wf_progress(s)
    &&& read_wf_framing(s)
    &&& read_wf_handshake(s)
    &&& read_wf_release(s)
}

/// The steps that a read transaction may still take when `remaining` bytes
/// are yet to be stored and none is being waited for.
pub open spec fn read_tail_budget(remaining: int) -> int {
    POLL_CEILING + 9 + remaining * (POLL_CEILING + 4)
}

/// An upper bound on the steps that a read transaction in state `s` takes
/// before it has reported its outcome.
pub open spec fn read_budget(s: ReadState) -> int {
    let c = POLL_CEILING as int;
    let whole = read_tail_budget(s.len as int);
    let rest = read_tail_budget(s.len - s.stored - 1);
    match s.phase {
        ReadPhase::Idle => 3 * c + 11 + whole,
        ReadPhase::Configured => 3 * c + 10 + whole,
        ReadPhase::WaitBusFree => 3 * c + 9 - s.polls + whole,
        ReadPhase::Started => 2 * c + 7 + whole,
        ReadPhase::WaitReady => 2 * c + 6 - s.polls + whole,
        ReadPhase::Addressed => c + 4 + whole,
        ReadPhase::WaitFirst => c + 3 - s.polls + whole,
        ReadPhase::CheckAck => 1 + whole,
        ReadPhase::Discarded | ReadPhase::Stored => read_tail_budget(s.len - s.stored),
        ReadPhase::WaitData => c + 3 - s.polls + rest,
        ReadPhase::Armed => 1 + rest,
        ReadPhase::Refusing => c + 3 + rest,
        ReadPhase::WaitLast => c + 2 - s.polls + rest,
        ReadPhase::ClearingStop => c + 8,
        ReadPhase::Stopping => c + 7,
        ReadPhase::Draining => c + 6,
        ReadPhase::Unheld => c + 5,
        ReadPhase::NackDrained => c + 6,
        ReadPhase::NackStopping => c + 5,
        ReadPhase::WaitStopped => c + 4 - s.polls,
        ReadPhase::ClearingNack => 2,
        ReadPhase::Cleared => 1,
        ReadPhase::Finished => 0,
    }
}

/// The number of steps within which a read of `len` bytes reports its
/// outcome, whatever the bus does.
pub open spec fn read_step_limit(len: nat) -> int {
    3 * POLL_CEILING + 11 + read_tail_budget(len as int)
}

/// How many operations of the release sequence come before the polls.
pub open spec fn read_head_len(refused: bool) -> int {
    if refused {
        2
    } else {
        4
    }
}

/// The shape of the release sequence, and how it grows at its polls.
pub proof fn lemma_read_release_shape(refused: bool, polls: nat)
    ensures
        read_release_head(refused).len() == read_head_len(refused),
        read_release(refused, polls).len() == read_head_len(refused) + polls + 2,
        forall|i: int|
            0 <= i < read_head_len(refused) ==> read_release(refused, polls)[i]
                == read_release_head(refused)[i],
        forall|i: int|
            read_head_len(refused) <= i < read_head_len(refused) + polls ==> read_release(
                refused,
                polls,
            )[i] == BusOp::PollStopped,
        read_release(refused, polls)[read_head_len(refused) + polls] == BusOp::ClearNackFlag,
        read_release(refused, polls)[read_head_len(refused) + polls + 1]
            == BusOp::ClearStopFlag,
        read_release(refused, polls).take(read_head_len(refused) + polls) == read_release(
            refused,
            polls + 1,
        ).take(read_head_len(refused) + polls),
        read_release(refused, polls).take(read_head_len(refused) + polls + 2) == read_release(
            refused,
            polls,
        ),
{
    let head = read_head_len(refused);
    let short = read_release(refused, polls);
    let long = read_release(refused, polls + 1);
    assert(short.take(head + polls) =~= long.take(head + polls));
    assert(short.take(head + polls + 2) =~= short);
}

/// The handshake of a complete read of `len` bytes, position by position:
/// the bytes before the last two are stored one after the other with
/// nothing between them; the hold is armed exactly once, directly before
/// the byte before the last is stored; the refusal is set up exactly once,
/// directly before the last byte is stored.
pub proof fn lemma_read_handshake_shape(len: nat)
    requires
        1 <= len <= usize::MAX,
    ensures
        read_handshake(len).len() == read_handshake_done(len, len),
        forall|i: int|
            0 <= i && i + 2 < len ==> read_handshake(len)[i] == BusOp::ReadInto(i as usize),
        len >= 2 ==> read_handshake(len)[len - 2] == BusOp::SetWait,
        len >= 2 ==> read_handshake(len)[len - 1] == BusOp::ReadInto((len - 2) as usize),
        len >= 2 ==> read_handshake(len)[len as int] == BusOp::NackNext,
        len >= 2 ==> read_handshake(len)[len as int + 1] == BusOp::ReadInto((len - 1) as usize),
        len == 1 ==> read_handshake(len)[0] == BusOp::NackNext,
        len == 1 ==> read_handshake(len)[1] == BusOp::ReadInto(0),
{
}

/// Each byte that is still to be stored adds the same number of steps.
pub proof fn lemma_read_tail_budget(remaining: int)
    requires
        remaining >= 0,
    ensures
        read_tail_budget(remaining) >= POLL_CEILING + 9,
        read_tail_budget(remaining + 1) == read_tail_budget(remaining) + POLL_CEILING + 4,
{
    let k = POLL_CEILING + 4;
    assert(remaining * k >= 0) by (nonlinear_arith)
        requires
            remaining >= 0,
            k >= 0,
    ;
    assert((remaining + 1) * k == remaining * k + k) by (nonlinear_arith);
}

/// A step keeps the counters of a read in range and in agreement with its
/// phase.
proof fn lemma_read_step_progress(s: ReadState, flag: bool)
    requires
        read_wf_progress(s),
    ensures
        read_wf_progress(read_after(s, flag)),
{
}

/// A step keeps the count of starts, stops and transmitted bytes right.
proof fn lemma_read_step_framing(s: ReadState, flag: bool)
    requires
        read_wf_progress(s),
        read_wf_framing(s),
    ensures
        read_wf_framing(read_after(s, flag)),
{
    let op = read_op(s, flag);
    lemma_read_step_progress(s, flag);
    if !(op is Done) {
        lemma_occurrences_push(s.trace, op, BusOp::Start);
        lemma_occurrences_push(s.trace, op, BusOp::Stop);
        lemma_transmitted_push(s.trace, op);
        lemma_holds_bus_push(s.trace, op);
    }
    if op is Transmit {
        assert(transmitted(s.trace) =~= Seq::<u8>::empty());
        assert(Seq::<u8>::empty().push(read_address_byte(s.address)) =~= seq![
            read_address_byte(s.address),
        ]);
    }
    let t = read_after(s, flag);
    if t.phase == ReadPhase::WaitData || t.phase == ReadPhase::WaitLast {
        assert(t.trace.subrange(t.trace.len() - 1, t.trace.len() as int) =~= seq![
            BusOp::PollDataReceived,
        ]);
    }
    if t.phase == ReadPhase::Armed {
        let pair = seq![BusOp::PollDataReceived, BusOp::SetWait];
        assert(pair.take(1) =~= seq![BusOp::PollDataReceived]);
        assert(pair.take(2) =~= pair);
        lemma_ends_with_push(s.trace, pair, 1, op);
    }
}

/// A step extends the handshake of a read by the next operation of the
/// handshake of a complete read, or leaves it as it is.
proof fn lemma_read_step_handshake(s: ReadState, flag: bool)
    requires
        read_wf_progress(s),
        read_wf_handshake(s),
    ensures
        read_wf_handshake(read_after(s, flag)),
{
    let t = read_after(s, flag);
    let op = read_op(s, flag);
    let expected = read_handshake(s.len);
    let shaken = handshake(s.trace);
    lemma_read_step_progress(s, flag);
    lemma_read_handshake_shape(s.len);
    if !(op is Done) {
        lemma_handshake_push(s.trace, op);
    }
    if is_handshake(op) {
        assert(!read_in_release(s.phase));
        assert(shaken.len() < expected.len());
        assert(expected[shaken.len() as int] == op);
        assert(expected.take(shaken.len() as int).push(expected[shaken.len() as int])
            =~= expected.take(shaken.len() as int + 1));
    }
    if t.stored == t.len {
        assert(expected.take(expected.len() as int) =~= expected);
    }
}

/// A step extends the release sequence at the end of the trace by its next
/// operation.
proof fn lemma_read_step_release(s: ReadState, flag: bool)
    requires
        read_wf_progress(s),
        read_wf_release(s),
    ensures
        read_wf_release(read_after(s, flag)),
{
    let t = read_after(s, flag);
    let op = read_op(s, flag);
    lemma_read_step_progress(s, flag);
    lemma_read_release_shape(s.refused, s.stop_polls);
    lemma_read_release_shape(t.refused, t.stop_polls);
    let head = read_head_len(t.refused);
    if read_in_release(t.phase) && !read_gave_up(t) && !(op is Done) {
        let whole = read_release(t.refused, t.stop_polls);
        let n = read_release_progress(t.phase, t.refused, t.stop_polls) - 1;
        if n == 0 {
            assert(s.trace.push(op).subrange(s.trace.len() as int, s.trace.len() as int + 1)
                =~= whole.take(1));
        } else {
            assert(s.refused == t.refused);
            if op == BusOp::PollStopped {
                assert(read_release(s.refused, s.stop_polls).take(head + s.stop_polls)
                    == whole.take(head + s.stop_polls));
            }
            assert(ends_with(s.trace, whole.take(n)));
            assert(whole[n] == op);
            lemma_ends_with_push(s.trace, whole, n, op);
        }
    }
}

/// Every step but those after the end brings the end of a read nearer.
proof fn lemma_read_step_budget(s: ReadState, flag: bool)
    requires
        read_wf_progress(s),
    ensures
        s.phase != ReadPhase::Finished ==> 0 <= read_budget(read_after(s, flag)) < read_budget(
            s,
        ),
        read_budget(s) >= 0,
{
    let t = read_after(s, flag);
    let remaining = s.len - s.stored;
    lemma_read_tail_budget(s.len as int);
    lemma_read_tail_budget(remaining);
    if remaining >= 1 {
        lemma_read_tail_budget(remaining - 1);
        assert(t.len - (s.stored + 1) == remaining - 1);
    }
    if remaining >= 2 {
        lemma_read_tail_budget(remaining - 2);
    }
}

/// Every step keeps a read transaction well-formed, and every step but those
/// after the end brings the end nearer.
pub proof fn lemma_read_step(s: ReadState, flag: bool)
    requires
        read_wf(s),
    ensures
        read_wf(read_after(s, flag)),
        s.phase != ReadPhase::Finished ==> 0 <= read_budget(read_after(s, flag)) < read_budget(
            s,
        ),
        read_budget(s) >= 0,
{
    lemma_read_step_progress(s, flag);
    lemma_read_step_framing(s, flag);
    lemma_read_step_handshake(s, flag);
    lemma_read_step_release(s, flag);
    lemma_read_step_budget(s, flag);
}

/// A read transaction starts in a state that the invariant admits.
pub proof fn lemma_read_initial(address: u8, len: nat)
    requires
        1 <= len <= usize::MAX,
    ensures
        read_wf(read_initial(address, len)),
        read_budget(read_initial(address, len)) == read_step_limit(len),
{
    assert(read_handshake(len).take(0) =~= Seq::<BusOp>::empty());
}

/// A read transaction always lets go of the bus. Once it has ended it does
/// not hold the bus, whether the read succeeded, the slave refused, or a
/// wait took too long. Either it never requested a start and reports a busy
/// bus, or it requested one start and one stop, and the last things it
/// asked for are the whole release sequence, with at least one poll for the
/// stop condition.
pub proof fn law_read_releases_bus(s: ReadState)
    requires
        read_wf(s),
        s.phase == ReadPhase::Finished,
    ensures
        !holds_bus(s.trace),
        s.failure == Some(I2cError::BusBusy) <==> occurrences(s.trace, BusOp::Start) == 0,
        s.failure != Some(I2cError::BusBusy) ==> {
            &&& occurrences(s.trace, BusOp::Start) == 1
            &&& occurrences(s.trace, BusOp::Stop) == 1
            &&& 1 <= s.stop_polls <= max_polls()
            &&& ends_with(s.trace, read_release(s.refused, s.stop_polls))
        },
{
    lemma_read_release_shape(s.refused, s.stop_polls);
}

/// The bytes of a read are stored in order, each once, and the handshake
/// goes as the bus asks: at every moment the stores, the arming of the hold
/// and the refusal asked for so far are the beginning of the handshake of a
/// complete read. A read that ends without failure has sent the address byte
/// with the read bit and nothing else, has stored every byte, and its
/// handshake is the complete one.
pub proof fn law_read_stores_in_order(s: ReadState)
    requires
        read_wf(s),
    ensures
        s.stored <= s.len,
        handshake(s.trace).len() <= read_handshake(s.len).len(),
        handshake(s.trace) == read_handshake(s.len).take(handshake(s.trace).len() as int),
        s.phase == ReadPhase::Finished && s.failure is None ==> {
            &&& s.stored == s.len
            &&& handshake(s.trace) == read_handshake(s.len)
            &&& transmitted(s.trace) == seq![read_address_byte(s.address)]
        },
{
}

/// No byte is stored that has not arrived. Whenever the read tells the
/// caller to store a byte, either the operation before was the poll for a
/// received byte, and it read that one is waiting, or the two operations
/// before were that poll and the arming of the hold. The index is the number
/// of bytes stored before, and lies within the buffer.
pub proof fn law_read_waits_before_each_byte(s: ReadState, flag: bool)
    requires
        read_wf(s),
        read_op(s, flag) is ReadInto,
    ensures
        read_op(s, flag) == BusOp::ReadInto(s.stored as usize),
        s.stored < s.len,
        s.phase == ReadPhase::Armed || flag,
        s.phase == ReadPhase::Armed ==> ends_with(
            s.trace,
            seq![BusOp::PollDataReceived, BusOp::SetWait],
        ),
        s.phase != ReadPhase::Armed ==> ends_with(s.trace, seq![BusOp::PollDataReceived]),
{
}

/// A slave that refuses its address makes the read remember that it does not
/// respond. The read then drops the byte in the receive buffer and requests
/// the stop, and stores nothing.
pub proof fn law_read_stops_on_nack(s: ReadState)
    requires
        read_wf(s),
        s.phase == ReadPhase::CheckAck,
    ensures
        read_op(s, false) == BusOp::ReadDiscard,
        read_after(s, false).failure == Some(I2cError::SlaveNotResponding),
        read_after(s, false).refused,
        read_op(read_after(s, false), false) == BusOp::Stop,
        s.stored == 0,
{
}

/// A failure, once remembered, is what the read reports, unless the stop
/// condition is then never detected.
pub proof fn law_read_keeps_failure(s: ReadState, flag: bool)
    requires
        read_wf(s),
        s.failure is Some,
    ensures
        read_after(s, flag).failure == s.failure || read_after(s, flag).failure == Some(
            I2cError::PeripheralNotStopped,
        ),
{
}

/// A read transaction in progress: the slave's address, the number of bytes
/// wanted, and how far the transaction has come.
pub struct ReadTransaction {
    address: u8,
    len: usize,
    phase: ReadPhase,
    stored: usize,
    polls: u32,
    failure: Option<I2cError>,
    refused: Ghost<bool>,
    stop_polls: Ghost<nat>,
    trace: Ghost<Seq<BusOp>>,
}

impl View for ReadTransaction {
    type V = ReadState;

    closed spec fn view(&self) -> ReadState {
        ReadState {
            address: self.address,
            len: self.len as nat,
            phase: self.phase,
            stored: self.stored as nat,
            polls: self.polls as nat,
            failure: self.failure,
            refused: self.refused@,
            stop_polls: self.stop_polls@,
            trace: self.trace@,
        }
    }
}

impl ReadTransaction {
    /// The transaction is in a state that it can reach from its start.
    pub closed spec fn wf(&self) -> bool {
        read_wf(self@)
    }

    /// A transaction that reads `len` bytes from the slave at `address`.
    /// Nothing has been asked of the bus yet. A read has a last byte, so
    /// `len` is at least one.
    pub fn new(address: u8, len: usize) -> (txn: Self)
        requires
            len >= 1,
        ensures
            txn.wf(),
            txn@ == read_initial(address, len as nat),
            read_budget(txn@) == read_step_limit(len as nat),
    {
        proof {
            lemma_read_initial(address, len as nat);
        }
        ReadTransaction {
            address,
            len,
            phase: ReadPhase::Idle,
            stored: 0,
            polls: 0,
            failure: None,
            refused: Ghost(false),
            stop_polls: Ghost(0),
            trace: Ghost(Seq::empty()),
        }
    }

    /// The phase that the transaction is in.
    pub fn phase(&self) -> (phase: ReadPhase)
        ensures
            phase == self@.phase,
    {
        self.phase
    }

    /// Whether the outcome has been reported.
    pub fn is_finished(&self) -> (done: bool)
        ensures
            done == (self@.phase == ReadPhase::Finished),
    {
        match self.phase {
            ReadPhase::Finished => true,
            _ => false,
        }
    }

    /// The state of the transaction by its common name. A transaction is
    /// idle before its first step and after its outcome is reported,
    /// whatever the outcome.
    pub fn state(&self) -> (state: TransactionState)
        ensures
            state == self@.state(),
            self@.phase == ReadPhase::Finished ==> state == TransactionState::BusIdle,
    {
        match self.phase {
            ReadPhase::Idle | ReadPhase::Finished => TransactionState::BusIdle,
            ReadPhase::Configured | ReadPhase::WaitBusFree => TransactionState::WaitBusFree,
            ReadPhase::Started => TransactionState::Start,
            ReadPhase::WaitReady | ReadPhase::Addressed | ReadPhase::WaitFirst =>
                TransactionState::AddressPhase,
            ReadPhase::CheckAck => TransactionState::WaitAck,
            ReadPhase::Discarded | ReadPhase::WaitData | ReadPhase::Armed | ReadPhase::Stored
            | ReadPhase::Refusing | ReadPhase::WaitLast => TransactionState::DataPhase,
            ReadPhase::ClearingStop | ReadPhase::Stopping | ReadPhase::Draining
            | ReadPhase::Unheld | ReadPhase::NackDrained | ReadPhase::NackStopping =>
                TransactionState::Stop,
            ReadPhase::WaitStopped => TransactionState::WaitStopped,
            ReadPhase::ClearingNack | ReadPhase::Cleared => TransactionState::ClearFlags,
        }
    }

    /// The end of the transaction, with the failure it remembered.
    fn report(&self) -> (op: BusOp)
        ensures
            op == BusOp::Done(outcome(self.failure)),
    {
        match self.failure {
            Some(e) => BusOp::Done(Err(e)),
            None => BusOp::Done(Ok(())),
        }
    }

    /// Counts a failed poll of the wait that the transaction is in. Returns
    /// whether the wait goes on; if not, the transaction remembers `kind` and
    /// turns to releasing the bus.
    fn wait_on(&mut self, kind: I2cError) -> (again: bool)
        requires
            old(self).polls <= POLL_CEILING + 1,
        ensures
            again == (old(self).polls <= POLL_CEILING),
            again ==> *final(self) == (ReadTransaction {
                polls: (old(self).polls + 1) as u32,
                ..*old(self)
            }),
            !again ==> *final(self) == (ReadTransaction {
                polls: 0,
                phase: ReadPhase::ClearingStop,
                failure: Some(kind),
                ..*old(self)
            }),
    {
        if self.polls > POLL_CEILING {
            self.polls = 0;
            self.phase = ReadPhase::ClearingStop;
            self.failure = Some(kind);
            false
        } else {
            self.polls = self.polls + 1;
            true
        }
    }

    /// What the transaction does between two bytes, and after the last.
    fn between_bytes(&mut self) -> (op: BusOp)
        requires
            old(self).phase == ReadPhase::Discarded || old(self).phase == ReadPhase::Stored,
            old(self).stored <= old(self).len,
        ensures
            op == read_between_bytes(old(self)@),
            *final(self) == (ReadTransaction {
                polls: 0,
                phase: read_next_phase(old(self)@, false),
                ..*old(self)
            }),
    {
        self.polls = 0;
        if self.stored >= self.len {
            self.phase = ReadPhase::ClearingStop;
            BusOp::ClearStopFlag
        } else if self.stored + 1 == self.len {
            self.phase = ReadPhase::Refusing;
            BusOp::NackNext
        } else {
            self.phase = ReadPhase::WaitData;
            BusOp::PollDataReceived
        }
    }

    /// Takes the flag that the last poll read, or anything where the last
    /// operation was no poll, and names the operation to perform next.
    ///
    /// The transaction configures the controller, waits for the bus, requests
    /// a start and sends the address byte with the read bit. If the slave
    /// refuses, it drops the byte in the receive buffer, requests a stop and
    /// clears the flags. Otherwise it drops the first byte, stores each
    /// further byte at the next index once it has arrived, arms the hold
    /// before it stores the byte before the last, sets up the refusal before
    /// it waits for the last, and releases the bus. It releases the bus too
    /// when a wait after the start takes too long.
    pub fn step(&mut self, flag: bool) -> (op: BusOp)
        requires
            old(self).wf(),
        ensures
            final(self).wf(),
            op == read_op(old(self)@, flag),
            final(self)@ == read_after(old(self)@, flag),
            (op is Done) == (final(self)@.phase == ReadPhase::Finished),
            op is Done ==> !holds_bus(final(self)@.trace),
            old(self)@.phase != ReadPhase::Finished ==> 0 <= read_budget(final(self)@)
                < read_budget(old(self)@),
            op matches BusOp::ReadInto(index) ==> index < old(self)@.len,
    {
        let ghost before = self@;
        proof {
            lemma_read_step(before, flag);
        }
        let op = match self.phase {
            ReadPhase::Idle => {
                self.phase = ReadPhase::Configured;
                self.polls = 0;
                BusOp::Configure(self.address)
            },
            ReadPhase::Configured => {
                self.phase = ReadPhase::WaitBusFree;
                self.polls = 0;
                BusOp::PollBusFree
            },
            ReadPhase::WaitBusFree => {
                if flag {
                    self.phase = ReadPhase::Started;
                    self.polls = 0;
                    BusOp::Start
                } else if self.polls > POLL_CEILING {
                    self.phase = ReadPhase::Finished;
                    self.polls = 0;
                    self.failure = Some(I2cError::BusBusy);
                    BusOp::Done(Err(I2cError::BusBusy))
                } else {
                    self.polls = self.polls + 1;
                    BusOp::PollBusFree
                }
            },
            ReadPhase::Started => {
                self.phase = ReadPhase::WaitReady;
                self.polls = 0;
                BusOp::PollTransmitReady
            },
            ReadPhase::WaitReady => {
                if flag {
                    self.phase = ReadPhase::Addressed;
                    self.polls = 0;
                    BusOp::Transmit(get_slave_address(self.address, Direction::Read))
                } else if self.wait_on(I2cError::TransmitBufferNotReady) {
                    BusOp::PollTransmitReady
                } else {
                    BusOp::ClearStopFlag
                }
            },
            ReadPhase::Addressed => {
                self.phase = ReadPhase::WaitFirst;
                self.polls = 0;
                BusOp::PollDataReceived
            },
            ReadPhase::WaitFirst => {
                if flag {
                    self.phase = ReadPhase::CheckAck;
                    self.polls = 0;
                    BusOp::PollAcknowledged
                } else if self.wait_on(I2cError::DataNotReceived) {
                    BusOp::PollDataReceived
                } else {
                    BusOp::ClearStopFlag
                }
            },
            ReadPhase::CheckAck => {
                self.polls = 0;
                if flag {
                    self.phase = ReadPhase::Discarded;
                } else {
                    self.phase = ReadPhase::NackDrained;
                    self.failure = Some(I2cError::SlaveNotResponding);
                }
                BusOp::ReadDiscard
            },
            ReadPhase::Discarded => self.between_bytes(),
            ReadPhase::Stored => self.between_bytes(),
            ReadPhase::WaitData => {
                if flag {
                    self.polls = 0;
                    if self.stored + 2 == self.len {
                        self.phase = ReadPhase::Armed;
                        BusOp::SetWait
                    } else {
                        let index = self.stored;
                        self.phase = ReadPhase::Stored;
                        self.stored = index + 1;
                        BusOp::ReadInto(index)
                    }
                } else if self.wait_on(I2cError::DataNotReceived) {
                    BusOp::PollDataReceived
                } else {
                    BusOp::ClearStopFlag
                }
            },
            ReadPhase::Armed => {
                let index = self.stored;
                self.phase = ReadPhase::Stored;
                self.polls = 0;
                self.stored = index + 1;
                BusOp::ReadInto(index)
            },
            ReadPhase::Refusing => {
                self.phase = ReadPhase::WaitLast;
                self.polls = 0;
                BusOp::PollDataReceived
            },
            ReadPhase::WaitLast => {
                if flag {
                    let index = self.stored;
                    self.phase = ReadPhase::Stored;
                    self.polls = 0;
                    self.stored = index + 1;
                    BusOp::ReadInto(index)
                } else if self.wait_on(I2cError::DataNotReceived) {
                    BusOp::PollDataReceived
                } else {
                    BusOp::ClearStopFlag
                }
            },
            ReadPhase::ClearingStop => {
                self.phase = ReadPhase::Stopping;
                self.polls = 0;
                BusOp::Stop
            },
            ReadPhase::Stopping => {
                self.phase = ReadPhase::Draining;
                self.polls = 0;
                BusOp::ReadDiscard
            },
            ReadPhase::Draining => {
                self.phase = ReadPhase::Unheld;
                self.polls = 0;
                BusOp::ClearWait
            },
            ReadPhase::Unheld => {
                self.phase = ReadPhase::WaitStopped;
                self.polls = 0;
                BusOp::PollStopped
            },
            ReadPhase::NackDrained => {
                self.phase = ReadPhase::NackStopping;
                self.polls = 0;
                BusOp::Stop
            },
            ReadPhase::NackStopping => {
                self.phase = ReadPhase::WaitStopped;
                self.polls = 0;
                BusOp::PollStopped
            },
            ReadPhase::WaitStopped => {
                if flag || self.polls > POLL_CEILING {
                    if !flag {
                        self.failure = Some(I2cError::PeripheralNotStopped);
                    }
                    self.phase = ReadPhase::ClearingNack;
                    self.polls = 0;
                    BusOp::ClearNackFlag
                } else {
                    self.polls = self.polls + 1;
                    BusOp::PollStopped
                }
            },
            ReadPhase::ClearingNack => {
                self.phase = ReadPhase::Cleared;
                self.polls = 0;
                BusOp::ClearStopFlag
            },
            ReadPhase::Cleared => {
                self.phase = ReadPhase::Finished;
                self.polls = 0;
                self.report()
            },
            ReadPhase::Finished => {
                self.polls = 0;
                self.report()
            },
        };
        self.refused = Ghost(read_after(before, flag).refused);
        self.stop_polls = Ghost(read_after(before, flag).stop_polls);
        self.trace = Ghost(read_after(before, flag).trace);
        assert(self@ == read_after(before, flag));
        op
    }
}

} // verus!
