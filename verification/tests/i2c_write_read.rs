use ra4m2_hal::i2c::write_read::{WriteReadStage, WriteReadTransaction};
use ra4m2_hal::i2c::{BusOp, I2cError};

fn run_write_read(
    address: u8,
    data: &[u8],
    len: usize,
    mut answer: impl FnMut(BusOp, &[BusOp]) -> bool,
) -> (Vec<BusOp>, Result<(), I2cError>) {
    let mut txn = WriteReadTransaction::new(address, data, len);
    assert_eq!(txn.stage(), WriteReadStage::Writing);
    let mut trace = Vec::new();
    let mut flag = false;
    loop {
        match txn.step(flag) {
            BusOp::Done(outcome) => {
                assert_eq!(txn.stage(), WriteReadStage::Finished);
                assert_eq!(txn.step(false), BusOp::Done(outcome));
                return (trace, outcome);
            }
            op => {
                flag = answer(op, &trace);
                trace.push(op);
            }
        }
    }
}

#[test]
fn write_then_read_releases_the_bus_between_the_two() {
    let (trace, outcome) = run_write_read(0x68, &[0x3B], 2, |_, _| true);
    assert_eq!(outcome, Ok(()));
    assert_eq!(
        trace,
        vec![
            BusOp::Configure(0x68),
            BusOp::PollBusFree,
            BusOp::Start,
            BusOp::PollAcknowledged,
            BusOp::PollTransmitReady,
            BusOp::Transmit(0xD0),
            BusOp::PollAcknowledged,
            BusOp::PollTransmitReady,
            BusOp::Transmit(0x3B),
            BusOp::PollTransmitComplete,
            BusOp::ClearStopFlag,
            BusOp::Stop,
            BusOp::PollStopped,
            BusOp::ClearNackFlag,
            BusOp::Unstop,
            BusOp::Configure(0x68),
            BusOp::PollBusFree,
            BusOp::Start,
            BusOp::PollTransmitReady,
            BusOp::Transmit(0xD1),
            BusOp::PollDataReceived,
            BusOp::PollAcknowledged,
            BusOp::ReadDiscard,
            BusOp::PollDataReceived,
            BusOp::SetWait,
            BusOp::ReadInto(0),
            BusOp::NackNext,
            BusOp::PollDataReceived,
            BusOp::ReadInto(1),
            BusOp::ClearStopFlag,
            BusOp::Stop,
            BusOp::ReadDiscard,
            BusOp::ClearWait,
            BusOp::PollStopped,
            BusOp::ClearNackFlag,
            BusOp::ClearStopFlag,
        ]
    );
    let starts: Vec<usize> =
        (0..trace.len()).filter(|i| trace[*i] == BusOp::Start).collect();
    let stops: Vec<usize> = (0..trace.len()).filter(|i| trace[*i] == BusOp::Stop).collect();
    assert_eq!(starts.len(), 2);
    assert_eq!(stops.len(), 2);
    assert!(starts[0] < stops[0] && stops[0] < starts[1] && starts[1] < stops[1]);
}

#[test]
fn failed_write_ends_the_pair_before_the_read_begins() {
    let (trace, outcome) = run_write_read(0x68, &[0x3B], 2, |op, _| op != BusOp::PollAcknowledged);
    assert_eq!(outcome, Err(I2cError::SlaveNotResponding));
    assert_eq!(trace.iter().filter(|op| **op == BusOp::Start).count(), 1);
    assert_eq!(trace.iter().filter(|op| **op == BusOp::Configure(0x68)).count(), 1);
    assert!(trace.ends_with(&[BusOp::ClearNackFlag, BusOp::Unstop]));
}

#[test]
fn failed_read_after_a_good_write_reports_the_read() {
    let (trace, outcome) = run_write_read(0x68, &[0x3B], 2, |op, _| op != BusOp::PollDataReceived);
    assert_eq!(outcome, Err(I2cError::DataNotReceived));
    assert_eq!(trace.iter().filter(|op| **op == BusOp::Start).count(), 2);
    assert_eq!(trace.iter().filter(|op| **op == BusOp::Stop).count(), 2);
}

#[test]
fn busy_bus_before_the_read_is_reported_without_a_second_start() {
    let (trace, outcome) = run_write_read(0x68, &[], 1, |op, seen| {
        op != BusOp::PollBusFree || !seen.contains(&BusOp::Unstop)
    });
    assert_eq!(outcome, Err(I2cError::BusBusy));
    assert_eq!(trace.iter().filter(|op| **op == BusOp::Start).count(), 1);
    assert_eq!(trace.iter().filter(|op| **op == BusOp::Stop).count(), 1);
}
