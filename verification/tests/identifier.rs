use plunger::common::plunger_error::{CallError, PlungerError, Status};
use plunger::common::probe_info::{ProbeInfo, ProbeSelector};
use plunger::common::registry::Registry;
use plunger::identifier::base_identifier::{BaseIdentifier, TargetIdentity};
use plunger::identifier::identifier_binding::{
    identify_target, identify_verdict, identify_with_timeout, Waited,
};
use plunger::identifier::identify_run::{Goal, IdentifyRun};
use plunger::identifier::stm32l0_identifier::{
    flash_size_from, identify_stm32l0, STM32L0Identifier,
};
use plunger::probe::link::{ProbeReply, ProbeRequest};

const UID_LSB: u32 = 0x1ff8_0050;
const UID_MID: u32 = 0x1ff8_0054;
const UID_MSB: u32 = 0x1ff8_0058;
const FL_SIZE: u32 = 0x1ff8_007c;

fn probe() -> ProbeInfo {
    ProbeInfo {
        vid: 0x0483,
        pid: 0x374b,
        serial_num: Some("066DFF".to_string()),
        probe_type: None,
        short_id: None,
    }
}

fn selector() -> ProbeSelector {
    ProbeSelector { vendor_id: 0x0483, product_id: 0x374b, serial_number: Some("066DFF".to_string()) }
}

fn identifier() -> STM32L0Identifier {
    STM32L0Identifier::new(&probe(), "STM32L053R8".to_string()).unwrap()
}

/// A target with fixed contents at the identity addresses.
struct Target {
    halted: bool,
    size: Vec<u8>,
    log: Vec<ProbeRequest>,
}

impl Target {
    fn new(halted: bool, size: [u8; 2]) -> Target {
        Target { halted, size: size.to_vec(), log: Vec::new() }
    }

    fn perform(&mut self, request: ProbeRequest) -> ProbeReply {
        self.log.push(request);
        match request {
            ProbeRequest::CoreHalted => ProbeReply::Halted(self.halted),
            ProbeRequest::Read8 { address, len } => {
                let bytes = match address {
                    UID_LSB => vec![0x01, 0x02, 0x03, 0x04],
                    UID_MID => vec![0x11, 0x12, 0x13, 0x14],
                    UID_MSB => vec![0x21, 0x22, 0x23, 0x24],
                    FL_SIZE => self.size.clone(),
                    _ => vec![0; len],
                };
                assert_eq!(bytes.len(), len);
                ProbeReply::Bytes(bytes)
            }
            ProbeRequest::ReadWord32 { .. } => ProbeReply::Word(0),
            _ => ProbeReply::Done,
        }
    }

    fn drive(&mut self, mut run: IdentifyRun) -> Result<TargetIdentity, PlungerError> {
        let mut turns = 0;
        while let Some(request) = run.request() {
            assert!(turns < 1000, "the run does not end");
            turns += 1;
            let reply = self.perform(request);
            run.advance(reply);
        }
        assert!(run.finished());
        run.outcome().expect("a run without a pending request is over")
    }
}

fn session(halted: bool) -> Vec<ProbeRequest> {
    let mut trace = vec![
        ProbeRequest::Open,
        ProbeRequest::Detach,
        ProbeRequest::Attach,
        ProbeRequest::Core { index: 0 },
        ProbeRequest::CoreHalted,
    ];
    if !halted {
        trace.push(ProbeRequest::Halt { timeout_ms: 1000 });
    }
    trace
}

fn uid_reads() -> Vec<ProbeRequest> {
    vec![
        ProbeRequest::Read8 { address: UID_LSB, len: 4 },
        ProbeRequest::Read8 { address: UID_MID, len: 4 },
        ProbeRequest::Read8 { address: UID_MSB, len: 4 },
    ]
}

fn uid() -> Vec<u8> {
    vec![0x01, 0x02, 0x03, 0x04, 0x11, 0x12, 0x13, 0x14, 0x21, 0x22, 0x23, 0x24]
}

#[test]
fn identifier_refuses_a_name_outside_the_family() {
    for name in ["STM32F407VG", "nRF52840", "", "STM32L1", "stm32L0"] {
        let made = STM32L0Identifier::new(&probe(), name.to_string());
        assert_eq!(
            made,
            Err(PlungerError::InvalidTarget(format!("Target {} is not STM32L0!", name)))
        );
    }
}

#[test]
fn identifier_accepts_the_family_and_selects_the_probe() {
    for name in ["STM32L0", "STM32L053R8", "stm32l011", "a-stm32l0"] {
        let made = STM32L0Identifier::new(&probe(), name.to_string()).unwrap();
        assert_eq!(made.target_name(), name);
        assert_eq!(made.probe(), &selector());
    }
}

#[test]
fn selector_is_taken_from_the_probe() {
    assert_eq!(ProbeSelector::from(&probe()), selector());
    assert_eq!(ProbeSelector::from(probe()), selector());
    let bare = ProbeInfo { vid: 1, pid: 2, serial_num: None, probe_type: None, short_id: Some(7) };
    assert_eq!(
        ProbeSelector::from(&bare),
        ProbeSelector { vendor_id: 1, product_id: 2, serial_number: None }
    );
    assert_eq!(selector().duplicate(), selector());
    assert_eq!(ProbeSelector::new(0x0483, 0x374b, Some("066DFF".to_string())), selector());
}

#[test]
fn flash_size_of_sixteen_kilobytes() {
    assert_eq!(flash_size_from(0x10, 0x00), 16384);
    let mut target = Target::new(true, [0x10, 0x00]);
    let identity = target.drive(identifier().get_flash_size()).unwrap();
    assert_eq!(identity, TargetIdentity { unique_id: None, flash_size: Some(16384) });
}

#[test]
fn flash_size_of_two_megabytes() {
    assert_eq!(flash_size_from(0x00, 0x08), 2_097_152);
    let mut target = Target::new(true, [0x00, 0x08]);
    let identity = target.drive(identifier().get_flash_size()).unwrap();
    assert_eq!(identity, TargetIdentity { unique_id: None, flash_size: Some(2_097_152) });
}

#[test]
fn flash_size_is_little_endian() {
    assert_eq!(flash_size_from(0, 0), 0);
    assert_eq!(flash_size_from(1, 0), 1024);
    assert_eq!(flash_size_from(0, 1), 256 * 1024);
    assert_eq!(flash_size_from(0xC0, 0x00), 192 * 1024);
    assert_eq!(flash_size_from(0x34, 0x12), 0x1234 * 1024);
    assert_eq!(flash_size_from(0xFF, 0xFF), 65535 * 1024);
}

#[test]
fn unique_id_is_low_mid_high() {
    let mut target = Target::new(true, [0x40, 0x00]);
    let identity = target.drive(identifier().get_uid()).unwrap();
    assert_eq!(identity, TargetIdentity { unique_id: Some(uid()), flash_size: None });
    assert_eq!(identity.unique_id.unwrap().len(), 12);
    let mut expected = session(true);
    expected.extend(uid_reads());
    assert_eq!(target.log, expected);
}

#[test]
fn a_running_core_is_halted_first() {
    let mut target = Target::new(false, [0x40, 0x00]);
    let identity = target.drive(identifier().get_uid()).unwrap();
    assert_eq!(identity.unique_id, Some(uid()));
    let mut expected = session(false);
    expected.extend(uid_reads());
    assert_eq!(target.log, expected);

    let mut target = Target::new(false, [0x40, 0x00]);
    let identity = target.drive(identifier().get_flash_size()).unwrap();
    assert_eq!(identity.flash_size, Some(64 * 1024));
    let mut expected = session(false);
    expected.push(ProbeRequest::Read8 { address: FL_SIZE, len: 2 });
    assert_eq!(target.log, expected);
}

#[test]
fn identify_reads_the_id_and_then_the_size() {
    let run = identify_stm32l0("STM32L053R8".to_string(), 0x0483, 0x374b, Some("066DFF".to_string()))
        .unwrap();
    assert_eq!(run.goal(), Goal::Identity);
    assert_eq!(run.probe(), &selector());
    assert_eq!(run.target_name(), "STM32L053R8");
    let mut target = Target::new(true, [0x40, 0x00]);
    let identity = target.drive(run).unwrap();
    assert_eq!(identity, TargetIdentity { unique_id: Some(uid()), flash_size: Some(65536) });
    let mut expected = session(true);
    expected.extend(uid_reads());
    expected.extend(session(true));
    expected.push(ProbeRequest::Read8 { address: FL_SIZE, len: 2 });
    assert_eq!(target.log, expected);
}

#[test]
fn identify_fails_as_a_whole_if_one_reading_fails() {
    let failure = PlungerError::ProbeRsSessionError("read failed".to_string());
    for after in 0..13 {
        let mut run = identifier_run();
        let mut target = Target::new(true, [0x40, 0x00]);
        for _ in 0..after {
            let request = run.request().unwrap();
            let reply = target.perform(request);
            run.advance(reply);
        }
        assert!(!run.finished());
        run.advance(ProbeReply::Failed(failure.clone()));
        assert_eq!(run.request(), None);
        assert_eq!(run.outcome(), Some(Err(failure.clone())));
    }
}

fn identifier_run() -> IdentifyRun {
    identify_stm32l0("STM32L053R8".to_string(), 0x0483, 0x374b, None).unwrap()
}

#[test]
fn identify_reports_a_wrong_name_as_an_invalid_argument() {
    let made = identify_stm32l0("ATSAMD21".to_string(), 1, 2, None);
    assert_eq!(
        made,
        Err(CallError {
            status: Status::InvalidArg,
            reason: "Invalid target: Target ATSAMD21 is not STM32L0!".to_string()
        })
    );
}

#[test]
fn bytes_of_the_wrong_length_are_a_state_error() {
    let wrong = PlungerError::StateError(
        "the reply does not answer the pending request".to_string(),
    );
    let mut run = identifier().get_flash_size();
    for _ in 0..4 {
        run.advance(ProbeReply::Done);
    }
    run.advance(ProbeReply::Halted(true));
    assert_eq!(run.request(), Some(ProbeRequest::Read8 { address: FL_SIZE, len: 2 }));
    run.advance(ProbeReply::Bytes(vec![0x10]));
    assert_eq!(run.outcome(), Some(Err(wrong.clone())));

    let mut run = identifier().get_uid();
    for _ in 0..4 {
        run.advance(ProbeReply::Done);
    }
    run.advance(ProbeReply::Halted(true));
    run.advance(ProbeReply::Bytes(vec![1, 2, 3, 4, 5]));
    assert_eq!(run.outcome(), Some(Err(wrong.clone())));

    let mut run = identifier().get_uid();
    run.advance(ProbeReply::Halted(true));
    assert_eq!(run.outcome(), Some(Err(wrong)));
}

#[test]
fn a_finished_identification_ignores_further_replies() {
    let mut target = Target::new(true, [0x10, 0x00]);
    let mut run = identifier().get_flash_size();
    while let Some(request) = run.request() {
        let reply = target.perform(request);
        run.advance(reply);
    }
    let kept = run.clone();
    run.advance(ProbeReply::Done);
    run.advance(ProbeReply::Bytes(vec![0, 8]));
    run.advance(ProbeReply::Failed(PlungerError::InvalidProtectionLevel));
    assert_eq!(run, kept);
    assert_eq!(
        run.outcome(),
        Some(Ok(TargetIdentity { unique_id: None, flash_size: Some(16384) }))
    );
}

#[test]
fn identify_target_checks_the_ids() {
    let made = identify_target("STM32L0".to_string(), 0x0483, 0x374b, Some("066DFF".to_string()));
    assert_eq!(made, Ok(("STM32L0".to_string(), selector())));
    let made = identify_target("STM32L0".to_string(), 0xFFFF, 0, None);
    assert_eq!(
        made,
        Ok((
            "STM32L0".to_string(),
            ProbeSelector { vendor_id: 0xFFFF, product_id: 0, serial_number: None }
        ))
    );
    let invalid =
        CallError { status: Status::InvalidArg, reason: "Invalid VID/PID provided".to_string() };
    assert_eq!(identify_target("x".to_string(), 0x1_0000, 1, None), Err(invalid.clone()));
    assert_eq!(identify_target("x".to_string(), 1, 0x1_0000, None), Err(invalid.clone()));
    assert_eq!(identify_target("x".to_string(), i32::MAX, i32::MAX, None), Err(invalid.clone()));
    assert_eq!(identify_target("x".to_string(), 0x0483, -2, None), Err(invalid.clone()));
    assert_eq!(identify_target("x".to_string(), -1, 0x374b, None), Err(invalid.clone()));
    assert_eq!(identify_target("x".to_string(), i32::MIN, 0, None), Err(invalid));
}

#[test]
fn identify_dispatches_by_the_family_tag() {
    let registry = Registry::standard();
    let run = identify_with_timeout(&registry, "STM32L071KBTx".to_string(), 1, 2, None).unwrap();
    assert_eq!(run.goal(), Goal::Identity);
    assert_eq!(run.request(), Some(ProbeRequest::Open));
    assert_eq!(run.target_name(), "STM32L071KBTx");
}

#[test]
fn identify_knows_no_generic_fallback() {
    let registry = Registry::standard();
    for name in ["STM32F407", "stm32l071", "", "nRF52"] {
        let made = identify_with_timeout(&registry, name.to_string(), 1, 2, None);
        assert_eq!(
            made,
            Err(CallError {
                status: Status::Unknown,
                reason: format!("Unsupported target for identify {}", name)
            })
        );
    }
}

#[test]
fn waiting_for_an_identification() {
    let identity = TargetIdentity { unique_id: Some(uid()), flash_size: Some(65536) };
    assert_eq!(identify_verdict(Waited::Returned(Ok(identity.clone()))), Ok(identity));
    let failed = CallError { status: Status::GenericFailure, reason: "read failed".to_string() };
    assert_eq!(identify_verdict(Waited::Returned(Err(failed.clone()))), Err(failed));
    assert_eq!(
        identify_verdict(Waited::TimedOut),
        Err(CallError {
            status: Status::GenericFailure,
            reason: "Identifier is not responding after 3 seconds".to_string()
        })
    );
    assert_eq!(
        identify_verdict(Waited::JoinFailed("task 7 panicked".to_string())),
        Err(CallError {
            status: Status::Unknown,
            reason: "Unexpected failure to join identifier thread: task 7 panicked".to_string()
        })
    );
}
