use ra4m2_hal::i2c::write::{WritePhase, WriteTransaction};
use ra4m2_hal::i2c::{get_slave_address, BusOp, Direction, I2cError, TransactionState, POLL_CEILING};

/// Runs a write to its end against a bus that answers each poll as `answer`
/// says, and gives back everything the transaction asked for and its outcome.
fn run_write(
    address: u8,
    data: &[u8],
    mut answer: impl FnMut(BusOp, &[BusOp]) -> bool,
) -> (Vec<BusOp>, Result<(), I2cError>) {
    let mut txn = WriteTransaction::new(address, data);
    let mut trace = Vec::new();
    let mut flag = false;
    loop {
        match txn.step(flag) {
            BusOp::Done(outcome) => {
                assert!(txn.is_finished());
                assert_eq!(txn.state(), TransactionState::BusIdle);
                assert_eq!(txn.step(true), BusOp::Done(outcome));
                return (trace, outcome);
            }
            op => {
                flag = answer(op, &trace);
                trace.push(op);
            }
        }
    }
}

fn count(trace: &[BusOp], op: BusOp) -> usize {
    trace.iter().filter(|seen| **seen == op).count()
}

fn transmitted(trace: &[BusOp]) -> Vec<u8> {
    trace
        .iter()
        .filter_map(|op| match op {
            BusOp::Transmit(byte) => Some(*byte),
            _ => None,
        })
        .collect()
}

/// The release of the bus with one poll for the stop condition.
const RELEASE: [BusOp; 5] = [
    BusOp::ClearStopFlag,
    BusOp::Stop,
    BusOp::PollStopped,
    BusOp::ClearNackFlag,
    BusOp::Unstop,
];

fn write_step_limit(len: usize) -> usize {
    let c = POLL_CEILING as usize;
    5 * c + 18 + len * (2 * c + 5)
}

#[test]
fn address_byte_has_the_direction_in_its_lowest_bit() {
    assert_eq!(get_slave_address(0x68, Direction::Write), 0xD0);
    assert_eq!(get_slave_address(0x68, Direction::Read), 0xD1);
    assert_eq!(get_slave_address(0x00, Direction::Write), 0x00);
    assert_eq!(get_slave_address(0x7F, Direction::Read), 0xFF);
    assert_eq!(Direction::Write.bit(), 0);
    assert_eq!(Direction::Read.bit(), 1);
}

#[test]
fn address_wider_than_seven_bits_loses_its_top_bit() {
    assert_eq!(get_slave_address(0xFF, Direction::Write), 0xFE);
    assert_eq!(get_slave_address(0x80, Direction::Read), 0x01);
}

#[test]
fn write_on_a_willing_bus_asks_for_every_step_in_order() {
    let (trace, outcome) = run_write(0x68, &[0x6B, 0x00], |_, _| true);
    assert_eq!(outcome, Ok(()));
    assert_eq!(
        trace,
        vec![
            BusOp::Configure(0x68),
            BusOp::PollBusFree,
            BusOp::Start,
            BusOp::PollAcknowledged,
            BusOp::PollTransmitReady,
            BusOp::Transmit(0xD0),
            BusOp::PollAcknowledged,
            BusOp::PollTransmitReady,
            BusOp::Transmit(0x6B),
            BusOp::PollAcknowledged,
            BusOp::PollTransmitReady,
            BusOp::Transmit(0x00),
            BusOp::PollTransmitComplete,
            BusOp::ClearStopFlag,
            BusOp::Stop,
            BusOp::PollStopped,
            BusOp::ClearNackFlag,
            BusOp::Unstop,
        ]
    );
}

#[test]
fn write_of_no_payload_sends_the_address_byte_alone() {
    let (trace, outcome) = run_write(0x10, &[], |_, _| true);
    assert_eq!(outcome, Ok(()));
    assert_eq!(transmitted(&trace), vec![0x20]);
    assert!(trace.ends_with(&RELEASE));
}

#[test]
fn write_names_its_states_as_it_goes() {
    let data = [0xAA];
    let mut txn = WriteTransaction::new(0x21, &data);
    assert_eq!(txn.state(), TransactionState::BusIdle);
    assert_eq!(txn.phase(), WritePhase::Idle);
    let mut seen = Vec::new();
    loop {
        let op = txn.step(true);
        seen.push(txn.state());
        if let BusOp::Done(_) = op {
            break;
        }
    }
    assert_eq!(
        seen,
        vec![
            TransactionState::WaitBusFree,
            TransactionState::WaitBusFree,
            TransactionState::Start,
            TransactionState::WaitAck,
            TransactionState::AddressPhase,
            TransactionState::DataPhase,
            TransactionState::WaitAck,
            TransactionState::DataPhase,
            TransactionState::DataPhase,
            TransactionState::WaitComplete,
            TransactionState::Stop,
            TransactionState::Stop,
            TransactionState::WaitStopped,
            TransactionState::ClearFlags,
            TransactionState::ClearFlags,
            TransactionState::BusIdle,
        ]
    );
}

#[test]
fn nack_on_the_address_byte_is_a_slave_that_does_not_respond() {
    let (trace, outcome) = run_write(0x68, &[1, 2, 3], |op, _| op != BusOp::PollAcknowledged);
    assert_eq!(outcome, Err(I2cError::SlaveNotResponding));
    assert_eq!(transmitted(&trace), Vec::<u8>::new());
    assert_eq!(
        trace,
        vec![
            BusOp::Configure(0x68),
            BusOp::PollBusFree,
            BusOp::Start,
            BusOp::PollAcknowledged,
            BusOp::ClearStopFlag,
            BusOp::Stop,
            BusOp::PollStopped,
            BusOp::ClearNackFlag,
            BusOp::Unstop,
        ]
    );
    assert!(trace.len() + 1 <= write_step_limit(3));
}

#[test]
fn nack_in_the_middle_stops_the_transmission_and_releases_the_bus() {
    let (trace, outcome) = run_write(0x68, &[1, 2, 3], |op, seen| {
        op != BusOp::PollAcknowledged || transmitted(seen).len() < 2
    });
    assert_eq!(outcome, Err(I2cError::SlaveNotResponding));
    assert_eq!(transmitted(&trace), vec![0xD0, 1]);
    assert!(trace.ends_with(&RELEASE));
    assert_eq!(count(&trace, BusOp::Start), 1);
    assert_eq!(count(&trace, BusOp::Stop), 1);
    assert_eq!(count(&trace, BusOp::PollTransmitComplete), 0);
}

#[test]
fn write_gives_up_on_a_bus_that_stays_busy() {
    let (trace, outcome) = run_write(0x68, &[1], |_, _| false);
    assert_eq!(outcome, Err(I2cError::BusBusy));
    assert_eq!(trace.len(), 1 + POLL_CEILING as usize + 2);
    assert_eq!(count(&trace, BusOp::PollBusFree), POLL_CEILING as usize + 2);
    assert_eq!(count(&trace, BusOp::Start), 0);
    assert_eq!(count(&trace, BusOp::Stop), 0);
}

#[test]
fn write_waits_for_a_bus_that_becomes_free_at_the_last_poll() {
    let (trace, outcome) = run_write(0x68, &[], |op, seen| {
        op != BusOp::PollBusFree || count(seen, BusOp::PollBusFree) == POLL_CEILING as usize + 1
    });
    assert_eq!(outcome, Ok(()));
    assert_eq!(count(&trace, BusOp::PollBusFree), POLL_CEILING as usize + 2);
    assert_eq!(count(&trace, BusOp::Start), 1);
}

#[test]
fn transmit_buffer_that_never_gets_ready_ends_the_write() {
    let (trace, outcome) = run_write(0x68, &[9], |op, _| op != BusOp::PollTransmitReady);
    assert_eq!(outcome, Err(I2cError::TransmitBufferNotReady));
    assert_eq!(count(&trace, BusOp::PollTransmitReady), POLL_CEILING as usize + 2);
    assert_eq!(count(&trace, BusOp::PollAcknowledged), POLL_CEILING as usize + 2);
    assert_eq!(transmitted(&trace), Vec::<u8>::new());
    assert!(trace.ends_with(&RELEASE));
}

#[test]
fn transmission_that_never_completes_is_a_slave_that_does_not_respond() {
    let (trace, outcome) = run_write(0x68, &[9], |op, _| op != BusOp::PollTransmitComplete);
    assert_eq!(outcome, Err(I2cError::SlaveNotResponding));
    assert_eq!(count(&trace, BusOp::PollTransmitComplete), POLL_CEILING as usize + 2);
    assert_eq!(transmitted(&trace), vec![0xD0, 9]);
    assert!(trace.ends_with(&RELEASE));
}

#[test]
fn stop_that_is_never_detected_is_reported_after_the_flags_are_cleared() {
    let (trace, outcome) = run_write(0x68, &[9], |op, _| op != BusOp::PollStopped);
    assert_eq!(outcome, Err(I2cError::PeripheralNotStopped));
    assert_eq!(count(&trace, BusOp::PollStopped), POLL_CEILING as usize + 2);
    assert!(trace.ends_with(&[BusOp::PollStopped, BusOp::ClearNackFlag, BusOp::Unstop]));
    assert_eq!(count(&trace, BusOp::Stop), 1);
}

#[test]
fn stop_that_is_never_detected_outweighs_a_nack() {
    let (_, outcome) = run_write(0x68, &[9], |op, _| {
        op != BusOp::PollStopped && op != BusOp::PollAcknowledged
    });
    assert_eq!(outcome, Err(I2cError::PeripheralNotStopped));
}

#[test]
fn write_ends_within_its_step_limit_on_the_slowest_bus() {
    // Every wait succeeds at its very last poll.
    let data = [1, 2, 3];
    let mut polls = 0usize;
    let (trace, outcome) = run_write(0x68, &data, |op, _| match op {
        BusOp::PollAcknowledged => true,
        BusOp::PollBusFree
        | BusOp::PollTransmitReady
        | BusOp::PollTransmitComplete
        | BusOp::PollStopped => {
            polls += 1;
            if polls == POLL_CEILING as usize + 2 {
                polls = 0;
                true
            } else {
                false
            }
        }
        _ => true,
    });
    assert_eq!(outcome, Ok(()));
    assert_eq!(transmitted(&trace), vec![0xD0, 1, 2, 3]);
    assert!(trace.len() + 1 <= write_step_limit(data.len()));
    assert_eq!(write_step_limit(3), 110_033);
}

#[test]
fn write_releases_the_bus_whatever_the_bus_answers() {
    // A few thousand buses, each answering by its own pattern.
    for seed in 0u32..2000 {
        let mut state = seed.wrapping_mul(2_654_435_761).wrapping_add(1);
        let data = [seed as u8, (seed >> 8) as u8];
        let (trace, outcome) = run_write(0x42, &data, |op, _| {
            state = state.wrapping_mul(1_664_525).wrapping_add(1_013_904_223);
            match op {
                BusOp::PollStopped | BusOp::PollBusFree => state >> 28 != 0,
                _ => state >> 30 != 0,
            }
        });
        assert!(trace.len() + 1 <= write_step_limit(data.len()));
        if count(&trace, BusOp::Start) == 0 {
            assert_eq!(outcome, Err(I2cError::BusBusy));
        } else {
            assert_ne!(outcome, Err(I2cError::BusBusy));
            assert_eq!(count(&trace, BusOp::Start), 1);
            assert_eq!(count(&trace, BusOp::Stop), 1);
            assert!(trace.ends_with(&[BusOp::ClearNackFlag, BusOp::Unstop]));
            let sent = transmitted(&trace);
            assert_eq!(sent[..], [0x84, data[0], data[1]][..sent.len()]);
            if outcome.is_ok() {
                assert_eq!(sent.len(), 3);
            }
        }
    }
}
