use dht_sensor::decode::Model;
use dht_sensor::protocol::{
    pack_byte, pack_frame, Command, Event, Level, Transfer, BIT_HIGH_BUDGET_US,
    BIT_START_BUDGET_US, PRESENCE_BUDGET_US, RELEASE_US, WAKE_LOW_US,
};
use dht_sensor::{DhtError, Reading};

/// For each level wait in order, the poll at which the level shows up, or
/// `None` if it never does.
fn waits_for_frame(frame: [u8; 5], zero_us: u32, one_us: u32) -> Vec<Option<u32>> {
    let mut waits = vec![Some(80), Some(80)];
    for i in 0..40 {
        let bit = (frame[i / 8] >> (7 - i % 8)) & 1;
        waits.push(Some(50));
        waits.push(Some(if bit == 1 { one_us } else { zero_us }));
    }
    waits
}

/// Runs a transfer against a simulated sensor; `fault_at` makes the sample of
/// that wait fail with a pin fault.
fn run(
    model: Model,
    waits: &[Option<u32>],
    fault_at: Option<usize>,
) -> (Result<Reading, DhtError<&'static str>>, Vec<u32>) {
    let (mut t, mut cmd) = Transfer::start::<&'static str>(model);
    let mut wait: usize = 0;
    let mut polls: u32 = 0;
    let mut pauses: Vec<u32> = Vec::new();
    loop {
        let ev = match cmd {
            Command::DriveLow | Command::DriveHigh => Event::Done,
            Command::Pause(us) => {
                pauses.push(us);
                Event::Done
            }
            Command::Sample(level) => {
                let expected = if wait % 2 == 0 { Level::High } else { Level::Low };
                assert_eq!(level, expected);
                if fault_at == Some(wait) {
                    Event::PinFault("pin fault")
                } else if waits.get(wait).copied().flatten() == Some(polls) {
                    wait += 1;
                    polls = 0;
                    Event::Sampled(true)
                } else {
                    polls += 1;
                    Event::Sampled(false)
                }
            }
            Command::Finish(r) => {
                assert!(t.is_finished());
                return (r, pauses);
            }
        };
        assert!(t.accepts(&ev));
        cmd = t.resume(ev);
    }
}

const GOOD_DHT22: [u8; 5] = [0x02, 0x8C, 0x01, 0x11, 0xA0];

#[test]
fn first_commands_wake_the_sensor() {
    let (mut t, cmd) = Transfer::start::<()>(Model::Dht22);
    assert!(matches!(cmd, Command::DriveLow));
    assert!(matches!(t.resume::<()>(Event::Done), Command::Pause(3000)));
    assert!(matches!(t.resume::<()>(Event::Done), Command::DriveHigh));
    assert!(matches!(t.resume::<()>(Event::Done), Command::Pause(25)));
    assert!(matches!(t.resume::<()>(Event::Done), Command::Sample(Level::High)));
    assert_eq!(t.model(), Model::Dht22);
    assert!(!t.is_finished());
}

#[test]
fn pauses_follow_the_timing_budgets() {
    assert_eq!(WAKE_LOW_US, 3000);
    assert_eq!(RELEASE_US, 25);
    assert_eq!(PRESENCE_BUDGET_US, 85);
    assert_eq!(BIT_START_BUDGET_US, 55);
    assert_eq!(BIT_HIGH_BUDGET_US, 70);
}

#[test]
fn full_dht22_read_succeeds() {
    let (r, pauses) = run(Model::Dht22, &waits_for_frame(GOOD_DHT22, 26, 70), None);
    let reading = r.unwrap();
    assert_eq!(reading.humidity_tenths(), 652);
    assert_eq!(reading.temperature_tenths(), 273);
    assert_eq!(&pauses[0..2], &[3000, 25]);
    assert!(pauses[2..].iter().all(|p| *p == 1));
}

#[test]
fn full_dht11_read_succeeds() {
    let frame = [0x32, 0x00, 0x23, 0x00, 0x55];
    let (r, _) = run(Model::Dht11, &waits_for_frame(frame, 0, 31), None);
    let reading = r.unwrap();
    assert_eq!(reading.humidity_tenths(), 500);
    assert_eq!(reading.temperature_tenths(), 350);
}

#[test]
fn pulse_of_thirty_us_is_a_zero() {
    let frame = [0xFF, 0xFF, 0xFF, 0xFF, 0xFC];
    let (r, _) = run(Model::Dht22, &waits_for_frame(frame, 0, 30), None);
    let reading = r.unwrap();
    assert_eq!(reading.humidity_tenths(), 0);
}

#[test]
fn corrupt_frame_is_a_checksum_mismatch() {
    let frame = [0x02, 0x8C, 0x01, 0x11, 0xA1];
    let (r, _) = run(Model::Dht22, &waits_for_frame(frame, 20, 60), None);
    assert_eq!(r, Err(DhtError::ChecksumMismatch(0xA1, 0xA0)));
}

#[test]
fn impossible_humidity_is_invalid_data() {
    let frame = [101, 0, 20, 0, 121];
    let (r, _) = run(Model::Dht11, &waits_for_frame(frame, 20, 60), None);
    assert_eq!(r, Err(DhtError::InvalidData));
}

#[test]
fn silent_line_is_not_present() {
    let (r, pauses) = run(Model::Dht22, &[None], None);
    assert_eq!(r, Err(DhtError::NotPresent));
    assert_eq!(pauses.len(), 2 + 86);
}

#[test]
fn missing_second_handshake_level_is_not_present() {
    let (r, _) = run(Model::Dht22, &[Some(85), None], None);
    assert_eq!(r, Err(DhtError::NotPresent));
}

#[test]
fn handshake_level_just_past_budget_is_not_present() {
    let (r, _) = run(Model::Dht22, &[Some(86)], None);
    assert_eq!(r, Err(DhtError::NotPresent));
}

#[test]
fn missing_bit_start_is_a_timeout() {
    let mut waits = waits_for_frame(GOOD_DHT22, 20, 60);
    waits[2 + 2 * 17] = None;
    let (r, _) = run(Model::Dht22, &waits, None);
    assert_eq!(r, Err(DhtError::Timeout));
}

#[test]
fn overlong_high_pulse_is_a_timeout() {
    let mut waits = waits_for_frame(GOOD_DHT22, 20, 60);
    waits[3] = Some(71);
    let (r, _) = run(Model::Dht22, &waits, None);
    assert_eq!(r, Err(DhtError::Timeout));
}

#[test]
fn high_pulse_at_budget_still_counts() {
    let (r, _) = run(Model::Dht22, &waits_for_frame(GOOD_DHT22, 0, 70), None);
    assert!(r.is_ok());
}

#[test]
fn pin_fault_is_passed_on() {
    let (r, _) = run(Model::Dht22, &waits_for_frame(GOOD_DHT22, 20, 60), Some(9));
    assert_eq!(r, Err(DhtError::PinError("pin fault")));
    let (mut t, _) = Transfer::start::<&'static str>(Model::Dht11);
    let cmd = t.resume(Event::PinFault("cannot drive"));
    assert!(matches!(cmd, Command::Finish(Err(DhtError::PinError("cannot drive")))));
    assert!(t.is_finished());
}

#[test]
fn transfer_only_accepts_answers_to_its_command() {
    let (mut t, _) = Transfer::start::<()>(Model::Dht11);
    assert!(t.accepts::<()>(&Event::Done));
    assert!(!t.accepts::<()>(&Event::Sampled(true)));
    t.resume::<()>(Event::Done);
    assert!(!t.accepts::<()>(&Event::PinFault(())));
}

#[test]
fn bits_pack_most_significant_first() {
    let bits = vec![true, false, true, false, false, false, false, true];
    assert_eq!(pack_byte(&bits, 0), 0xA1);
    let mut frame_bits = Vec::new();
    for byte in GOOD_DHT22 {
        for k in 0..8 {
            frame_bits.push((byte >> (7 - k)) & 1 == 1);
        }
    }
    assert_eq!(pack_frame(&frame_bits), GOOD_DHT22);
}
