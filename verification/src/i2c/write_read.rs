//! A write followed by a read from the same slave.
//!
//! The two are separate transactions on the bus: the write releases the bus
//! with a stop condition, and the read acquires it again with a start of its
//! own. There is no repeated start between them.

use crate::i2c::read::{
    law_read_releases_bus, lemma_read_initial, lemma_read_step, read_after, read_budget,
    read_initial, read_op, read_step_limit, read_wf, ReadPhase, ReadState, ReadTransaction,
};
use crate::i2c::write::{
    law_write_releases_bus, lemma_write_initial, lemma_write_step, write_after, write_budget,
    write_initial, write_op, write_release, write_step_limit, write_wf, WritePhase, WriteState,
    WriteTransaction,
};
use crate::i2c::{
    ends_with, holds_bus, lemma_holds_bus_concat, max_polls, occurrences, outcome, BusOp,
    I2cError,
};
use vstd::prelude::*;

verus! {

/// Which of the two transactions is under way.
#[derive(Clone, Copy, Debug, PartialEq, Eq)]
pub enum WriteReadStage {
    /// The write has not ended yet.
    Writing,
    /// The write has succeeded, and the read has begun.
    Reading,
    /// The outcome has been reported.
    Finished,
}

/// A write followed by a read, as a mathematical value.
pub struct WriteReadState {
    /// The write.
    pub write: WriteState,
    /// The read.
    pub read: ReadState,
    /// Which of the two is under way.
    pub stage: WriteReadStage,
}

impl WriteReadState {
    /// Every bus operation asked for so far, in order: those of the write,
    /// then those of the read.
    pub open spec fn trace(self) -> Seq<BusOp> {
        self.write.trace + self.read.trace
    }

    /// The failure that the pair reports at its end, if any: that of the
    /// write if the write failed, else that of the read.
    pub open spec fn failure(self) -> Option<I2cError> {
        if self.write.failure is Some {
            self.write.failure
        } else {
            self.read.failure
        }
    }
}

/// A write of `data` and a read of `len` bytes, before the first step.
pub open spec fn write_read_initial(address: u8, data: Seq<u8>, len: nat) -> WriteReadState {
    WriteReadState {
        write: write_initial(address, data),
        read: read_initial(address, len),
        stage: WriteReadStage::Writing,
    }
}

/// The operation that the pair asks for next. While the write is under way
/// it is the write's, except that the write's success is not reported: the
/// read's first operation takes its place. A failed write ends the pair with
/// the write's failure, and the read never begins.
pub open spec fn write_read_op(s: WriteReadState, flag: bool) -> BusOp {
    match s.stage {
        WriteReadStage::Writing => if write_op(s.write, flag) == BusOp::Done(Ok(())) {
            read_op(s.read, false)
        } else {
            write_op(s.write, flag)
        },
        WriteReadStage::Reading => read_op(s.read, flag),
        WriteReadStage::Finished => BusOp::Done(outcome(s.failure())),
    }
}

/// The state of the pair after its next step.
pub open spec fn write_read_after(s: WriteReadState, flag: bool) -> WriteReadState {
    match s.stage {
        WriteReadStage::Writing => {
            let op = write_op(s.write, flag);
            if op == BusOp::Done(Ok(())) {
                WriteReadState {
                    write: write_after(s.write, flag),
                    read: read_after(s.read, false),
                    stage: WriteReadStage::Reading,
                }
            } else {
                WriteReadState {
                    write: write_after(s.write, flag),
                    read: s.read,
                    stage: if op is Done {
                        WriteReadStage::Finished
                    } else {
                        WriteReadStage::Writing
                    },
                }
            }
        },
        WriteReadStage::Reading => WriteReadState {
            write: s.write,
            read: read_after(s.read, flag),
            stage: if read_op(s.read, flag) is Done {
                WriteReadStage::Finished
            } else {
                WriteReadStage::Reading
            },
        },
        WriteReadStage::Finished => s,
    }
}

/// What holds of every state that the pair can reach.
pub open spec fn write_read_wf(s: WriteReadState) -> bool {
    &&& write_wf(s.write)
    &&& read_wf(s.read)
    &&& s.write.address == s.read.address
    &&& match s.stage {
        WriteReadStage::Writing => s.write.phase != WritePhase::Finished && s.read == read_initial(
            s.read.address,
            s.read.len,
        ),
        WriteReadStage::Reading => s.write.phase == WritePhase::Finished && s.write.failure is None
            && s.read.phase != ReadPhase::Idle && s.read.phase != ReadPhase::Finished,
        WriteReadStage::Finished => s.write.phase == WritePhase::Finished && if s.write.failure
            is Some {
            s.read == read_initial(s.read.address, s.read.len)
        } else {
            s.read.phase == ReadPhase::Finished
        },
    }
}

/// An upper bound on the steps that the pair takes before it has reported
/// its outcome.
pub open spec fn write_read_budget(s: WriteReadState) -> int {
    match s.stage {
        WriteReadStage::Writing => write_budget(s.write) + read_budget(s.read),
        WriteReadStage::Reading => read_budget(s.read),
        WriteReadStage::Finished => 0,
    }
}

/// Every step keeps the pair well-formed, and every step but those after the
/// end brings the end nearer.
pub proof fn lemma_write_read_step(s: WriteReadState, flag: bool)
    requires
        write_read_wf(s),
    ensures
        write_read_wf(write_read_after(s, flag)),
        s.stage != WriteReadStage::Finished ==> 0 <= write_read_budget(write_read_after(s, flag))
            < write_read_budget(s),
{
    lemma_write_step(s.write, flag);
    lemma_read_step(s.read, flag);
    lemma_read_step(s.read, false);
}

/// The read begins only after the write has let go of the bus. As soon as
/// the read has asked for anything, the write has ended without failure,
/// and the last things the write asked for are its whole release sequence,
/// with its one stop. The read then requests a start of its own: over both
/// transactions, no start is requested while the bus is still held.
pub proof fn law_write_releases_before_read(s: WriteReadState)
    requires
        write_read_wf(s),
        s.read.trace.len() > 0,
    ensures
        s.write.phase == WritePhase::Finished,
        s.write.failure is None,
        occurrences(s.write.trace, BusOp::Start) == 1,
        occurrences(s.write.trace, BusOp::Stop) == 1,
        1 <= s.write.stop_polls <= max_polls(),
        ends_with(s.write.trace, write_release(s.write.stop_polls)),
        occurrences(s.read.trace, BusOp::Start) <= 1,
{
    law_write_releases_bus(s.write);
}

/// The pair always lets go of the bus: once it has ended, the master does
/// not hold the bus, whichever of the two transactions ended it and however.
pub proof fn law_write_read_releases_bus(s: WriteReadState)
    requires
        write_read_wf(s),
        s.stage == WriteReadStage::Finished,
    ensures
        !holds_bus(s.trace()),
{
    law_write_releases_bus(s.write);
    lemma_holds_bus_concat(s.write.trace, s.read.trace);
    if s.write.failure is None {
        law_read_releases_bus(s.read);
    }
}

/// A failed write ends the pair: the read asks for nothing, and the pair
/// reports the write's failure.
pub proof fn law_failed_write_skips_read(s: WriteReadState)
    requires
        write_read_wf(s),
        s.write.failure is Some,
        s.stage == WriteReadStage::Finished,
    ensures
        s.read.trace.len() == 0,
        s.failure() == s.write.failure,
        s.trace() == s.write.trace,
{
    assert(s.write.trace + Seq::<BusOp>::empty() =~= s.write.trace);
}

/// A write followed by a read, in progress.
pub struct WriteReadTransaction<'a> {
    write: WriteTransaction<'a>,
    read: ReadTransaction,
    stage: WriteReadStage,
    /// The outcome, once it has been reported.
    reported: Result<(), I2cError>,
}

impl<'a> View for WriteReadTransaction<'a> {
    type V = WriteReadState;

    closed spec fn view(&self) -> WriteReadState {
        WriteReadState { write: self.write@, read: self.read@, stage: self.stage }
    }
}

impl<'a> WriteReadTransaction<'a> {
    /// The pair is in a state that it can reach from its start.
    pub closed spec fn wf(&self) -> bool {
        &&& write_read_wf(self@)
        &&& self.write.wf()
        &&& self.read.wf()
        &&& self.stage == WriteReadStage::Finished ==> self.reported == outcome(self@.failure())
    }

    /// A write of `data` to the slave at `address`, followed by a read of
    /// `len` bytes from it. A read has a last byte, so `len` is at least one.
    pub fn new(address: u8, data: &'a [u8], len: usize) -> (txn: Self)
        requires
            len >= 1,
        ensures
            txn.wf(),
            txn@ == write_read_initial(address, data@, len as nat),
            write_read_budget(txn@) == write_step_limit(data@.len()) + read_step_limit(len as nat),
    {
        proof {
            lemma_write_initial(address, data@);
            lemma_read_initial(address, len as nat);
        }
        WriteReadTransaction {
            write: WriteTransaction::new(address, data),
            read: ReadTransaction::new(address, len),
            stage: WriteReadStage::Writing,
            reported: Ok(()),
        }
    }

    /// Which of the two transactions is under way.
    pub fn stage(&self) -> (stage: WriteReadStage)
        ensures
            stage == self@.stage,
    {
        self.stage
    }

    /// Takes the flag that the last poll read, or anything where the last
    /// operation was no poll, and names the operation to perform next: the
    /// write's until the write has ended, then the read's.
    pub fn step(&mut self, flag: bool) -> (op: BusOp)
        requires
            old(self).wf(),
        ensures
            final(self).wf(),
            op == write_read_op(old(self)@, flag),
            final(self)@ == write_read_after(old(self)@, flag),
            (op is Done) == (final(self)@.stage == WriteReadStage::Finished),
            op is Done ==> !holds_bus(final(self)@.trace()),
            old(self)@.stage != WriteReadStage::Finished ==> 0 <= write_read_budget(final(self)@)
                < write_read_budget(old(self)@),
    {
        proof {
            lemma_write_read_step(self@, flag);
            if write_read_after(self@, flag).stage == WriteReadStage::Finished {
                law_write_read_releases_bus(write_read_after(self@, flag));
            }
        }
        match self.stage {
            WriteReadStage::Writing => {
                let op = self.write.step(flag);
                match op {
                    BusOp::Done(Ok(())) => {
                        self.stage = WriteReadStage::Reading;
                        self.read.step(false)
                    },
                    BusOp::Done(Err(e)) => {
                        self.stage = WriteReadStage::Finished;
                        self.reported = Err(e);
                        BusOp::Done(Err(e))
                    },
                    _ => op,
                }
            },
            WriteReadStage::Reading => {
                let op = self.read.step(flag);
                match op {
                    BusOp::Done(result) => {
                        self.stage = WriteReadStage::Finished;
                        self.reported = result;
                    },
                    _ => {},
                }
                op
            },
            WriteReadStage::Finished => BusOp::Done(self.reported),
        }
    }
}

} // verus!
