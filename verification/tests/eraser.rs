use plunger::common::plunger_error::{CallError, PlungerError, Status};
use plunger::common::probe_info::ProbeSelector;
use plunger::eraser::base_eraser::BaseEraser;
use plunger::eraser::erase_run::{EraseRun, Stage};
use plunger::eraser::generic_eraser::{erase_generic, GenericEraser};
use plunger::eraser::stm32l0_eraser::{erase_stm32l0, STM32L0Eraser};
use plunger::probe::link::{ProbeReply, ProbeRequest};

const PECR: u32 = 0x4002_2004;
const PKEYR: u32 = 0x4002_200C;
const PRGKEYR: u32 = 0x4002_2010;
const OPTKEYR: u32 = 0x4002_2014;
const SR: u32 = 0x4002_2018;
const OPTR: u32 = 0x4002_201C;
const OPT_BASE: u32 = 0x1ff8_0000;

fn selector() -> ProbeSelector {
    ProbeSelector { vendor_id: 0x0d28, product_id: 0x0204, serial_number: Some("A1".to_string()) }
}

fn eraser() -> STM32L0Eraser {
    STM32L0Eraser::new("STM32L071KBTx".to_string(), selector()).unwrap()
}

/// A register facade that reports `optr` in the option register and a
/// status that is busy for the first `busy` reads of every wait.
struct Facade {
    optr: u32,
    busy: u32,
    pending_busy: u32,
    log: Vec<ProbeRequest>,
}

impl Facade {
    fn new(optr: u32, busy: u32) -> Facade {
        Facade { optr, busy, pending_busy: busy, log: Vec::new() }
    }

    fn perform(&mut self, request: ProbeRequest) -> ProbeReply {
        self.log.push(request);
        match request {
            ProbeRequest::ReadWord32 { address } if address == SR => {
                if self.pending_busy > 0 {
                    self.pending_busy -= 1;
                    ProbeReply::Word(0x0000_0009)
                } else {
                    self.pending_busy = self.busy;
                    ProbeReply::Word(0x0000_0008)
                }
            }
            ProbeRequest::ReadWord32 { address } if address == OPTR => ProbeReply::Word(self.optr),
            ProbeRequest::ReadWord32 { .. } => ProbeReply::Word(0),
            ProbeRequest::CoreHalted => ProbeReply::Halted(true),
            ProbeRequest::Read8 { len, .. } => ProbeReply::Bytes(vec![0; len]),
            _ => ProbeReply::Done,
        }
    }

    fn drive(&mut self, mut run: EraseRun) -> Result<(), PlungerError> {
        let mut turns = 0;
        while let Some(request) = run.request() {
            assert!(turns < 10_000, "the run does not end");
            turns += 1;
            let reply = self.perform(request);
            run.advance(reply);
        }
        assert!(run.finished());
        run.outcome().expect("a run without a pending request is over")
    }

    fn option_byte_writes(&self) -> Vec<u32> {
        self.log
            .iter()
            .filter_map(|request| match request {
                ProbeRequest::WriteWord32 { address, value } if *address == OPT_BASE => Some(*value),
                _ => None,
            })
            .collect()
    }
}

fn write(address: u32, value: u32) -> ProbeRequest {
    ProbeRequest::WriteWord32 { address, value }
}

fn read(address: u32) -> ProbeRequest {
    ProbeRequest::ReadWord32 { address }
}

fn unlock_trace() -> Vec<ProbeRequest> {
    vec![
        ProbeRequest::Open,
        ProbeRequest::AttachUnderReset,
        ProbeRequest::Core { index: 0 },
        ProbeRequest::Halt { timeout_ms: 1000 },
        write(PKEYR, 0x89ab_cdef),
        write(PKEYR, 0x0203_0405),
        read(SR),
        write(PRGKEYR, 0x8c9d_aebf),
        write(PRGKEYR, 0x1314_1516),
        read(SR),
        write(OPTKEYR, 0xfbea_d9c8),
        write(OPTKEYR, 0x2425_2627),
        read(SR),
    ]
}

fn session_trace() -> Vec<ProbeRequest> {
    vec![
        ProbeRequest::Open,
        ProbeRequest::Detach,
        ProbeRequest::Attach,
        ProbeRequest::Core { index: 0 },
        ProbeRequest::Halt { timeout_ms: 1000 },
    ]
}

fn option_trace() -> Vec<ProbeRequest> {
    let mut trace = session_trace();
    trace.push(read(OPTR));
    trace
}

fn raise_trace() -> Vec<ProbeRequest> {
    let mut trace = session_trace();
    trace.extend(vec![
        write(PECR, 0x200),
        read(SR),
        write(OPT_BASE, 0),
        read(SR),
        write(PECR, 0x4_0000),
        ProbeRequest::Sleep { micros: 200 },
    ]);
    trace
}

fn regress_trace(word: u32) -> Vec<ProbeRequest> {
    let mut trace = session_trace();
    trace.extend(vec![
        write(OPT_BASE, word),
        read(SR),
        write(PECR, 0x4_0000),
        ProbeRequest::Sleep { micros: 200 },
    ]);
    trace
}

#[test]
fn eraser_refuses_a_name_outside_the_family() {
    for name in ["STM32F407VG", "nRF52840", "", "STM32L", "stm32L0", "Stm32l0"] {
        let made = STM32L0Eraser::new(name.to_string(), selector());
        assert_eq!(
            made,
            Err(PlungerError::InvalidTarget(format!("Target {} is not STM32L0!", name)))
        );
    }
}

#[test]
fn eraser_accepts_the_tag_in_capitals_and_in_small_letters() {
    for name in ["STM32L0", "STM32L071KBTx", "stm32l053", "my-stm32l0-board", "xSTM32L0x"] {
        let made = STM32L0Eraser::new(name.to_string(), selector()).unwrap();
        assert_eq!(made.target_name(), name);
        assert_eq!(made.probe(), &selector());
    }
}

#[test]
fn level_two_is_refused_without_an_option_byte_write() {
    for optr in [0x0000_00CC_u32, 0x8070_00CC, 0xFFFF_FFCC] {
        let mut facade = Facade::new(optr, 0);
        let outcome = facade.drive(eraser().mass_erase());
        assert_eq!(outcome, Err(PlungerError::InvalidProtectionLevel));
        assert!(facade.option_byte_writes().is_empty());
        let mut expected = unlock_trace();
        expected.extend(option_trace());
        assert_eq!(facade.log, expected);
    }
}

#[test]
fn level_zero_takes_the_detour_before_the_regression() {
    let mut facade = Facade::new(0x8070_00AA, 0);
    let outcome = facade.drive(eraser().mass_erase());
    assert_eq!(outcome, Ok(()));
    let mut expected = unlock_trace();
    expected.extend(option_trace());
    expected.extend(raise_trace());
    expected.extend(unlock_trace());
    expected.extend(regress_trace(0xFF55_00AA));
    assert_eq!(facade.log, expected);
    assert_eq!(facade.option_byte_writes(), vec![0, 0xFF55_00AA]);
}

#[test]
fn any_other_level_goes_straight_to_the_regression() {
    for optr in [0x8070_0000_u32, 0x8070_0055, 0x8070_00BB, 0x0000_12AB, 0xFFFF_FFFF] {
        let mut facade = Facade::new(optr, 0);
        let outcome = facade.drive(eraser().mass_erase());
        assert_eq!(outcome, Ok(()));
        let word = STM32L0Eraser::regression_word(optr);
        let mut expected = unlock_trace();
        expected.extend(option_trace());
        expected.extend(regress_trace(word));
        assert_eq!(facade.log, expected);
        assert_eq!(facade.option_byte_writes(), vec![word]);
    }
}

#[test]
fn regression_word_has_exact_values() {
    assert_eq!(STM32L0Eraser::regression_word(0x8070_00AA), 0xFF55_00AA);
    assert_eq!(STM32L0Eraser::regression_word(0x0000_0000), 0xFF55_00AA);
    assert_eq!(STM32L0Eraser::regression_word(0x1234_5678), 0xA955_56AA);
    assert_eq!(STM32L0Eraser::regression_word(0xFFFF_FFFF), 0x0055_FFAA);
    assert_eq!(STM32L0Eraser::regression_word(0x0000_12BB), 0xED55_12AA);
}

#[test]
fn regression_word_is_complemented_and_marked() {
    for optr in [0u32, 1, 0xAA, 0xCC, 0x55AA, 0x8070_00AA, 0xDEAD_BEEF, 0xFFFF_FFFF, 0x0001_0000] {
        let word = STM32L0Eraser::regression_word(optr);
        let low = word & 0xFFFF;
        let high = word >> 16;
        assert_eq!(high, !low & 0xFFFF);
        assert_eq!(low & 0xFF, 0xAA);
        assert_eq!(low & 0xFF00, optr & 0xFF00);
    }
}

#[test]
fn wait_for_flash_looks_at_bit_zero_only() {
    assert!(!STM32L0Eraser::wait_for_flash(0));
    assert!(STM32L0Eraser::wait_for_flash(1));
    assert!(!STM32L0Eraser::wait_for_flash(0xFFFF_FFFE));
    assert!(STM32L0Eraser::wait_for_flash(0xFFFF_FFFF));
    assert!(!STM32L0Eraser::wait_for_flash(8));
    assert!(STM32L0Eraser::wait_for_flash(9));
}

#[test]
fn a_ready_flash_is_still_read_once() {
    let mut facade = Facade::new(0, 0);
    let outcome = facade.drive(eraser().unlock_flash());
    assert_eq!(outcome, Ok(()));
    assert_eq!(facade.log, unlock_trace());
    let reads = facade.log.iter().filter(|request| **request == read(SR)).count();
    assert_eq!(reads, 3);
}

#[test]
fn a_busy_flash_is_read_until_it_is_ready() {
    let mut facade = Facade::new(0, 5);
    let outcome = facade.drive(eraser().unlock_flash());
    assert_eq!(outcome, Ok(()));
    let reads = facade.log.iter().filter(|request| **request == read(SR)).count();
    assert_eq!(reads, 3 * 6);
    let mut expected = Vec::new();
    for request in unlock_trace() {
        let times = if request == read(SR) { 6 } else { 1 };
        for _ in 0..times {
            expected.push(request);
        }
    }
    assert_eq!(facade.log, expected);
}

#[test]
fn a_run_stays_at_the_status_read_while_busy() {
    let mut run = eraser().unlock_flash();
    for _ in 0..6 {
        run.advance(ProbeReply::Done);
    }
    assert_eq!(run.request(), Some(read(SR)));
    for _ in 0..100 {
        run.advance(ProbeReply::Word(1));
        assert_eq!(run.request(), Some(read(SR)));
    }
    run.advance(ProbeReply::Word(0));
    assert_eq!(run.request(), Some(write(PRGKEYR, 0x8c9d_aebf)));
}

#[test]
fn busy_waits_in_a_mass_erase_repeat_every_status_read() {
    let mut facade = Facade::new(0x0000_00AA, 2);
    let outcome = facade.drive(eraser().mass_erase());
    assert_eq!(outcome, Ok(()));
    let reads = facade.log.iter().filter(|request| **request == read(SR)).count();
    assert_eq!(reads, (3 + 2 + 3 + 1) * 3);
    assert_eq!(facade.option_byte_writes(), vec![0, 0xFF55_00AA]);
}

#[test]
fn a_failure_ends_the_run_with_the_host_s_error() {
    let failures = [
        PlungerError::ProbeRsCommError("probe not found".to_string()),
        PlungerError::ProbeRsSessionError("core did not halt".to_string()),
        PlungerError::ProbeFlashingError("erase failed".to_string()),
    ];
    for failure in failures {
        for after in 0..40 {
            let mut run = eraser().mass_erase();
            let mut facade = Facade::new(0x0000_00AA, 0);
            for _ in 0..after {
                let request = run.request().unwrap();
                let reply = facade.perform(request);
                run.advance(reply);
            }
            assert!(!run.finished());
            run.advance(ProbeReply::Failed(failure.clone()));
            assert!(run.finished());
            assert_eq!(run.request(), None);
            assert_eq!(run.outcome(), Some(Err(failure.clone())));
        }
    }
}

#[test]
fn a_reply_of_the_wrong_kind_is_a_state_error() {
    let wrong = PlungerError::StateError(
        "the reply does not answer the pending request".to_string(),
    );
    let mut run = eraser().mass_erase();
    run.advance(ProbeReply::Word(7));
    assert_eq!(run.outcome(), Some(Err(wrong.clone())));

    let mut run = eraser().unlock_flash();
    for _ in 0..6 {
        run.advance(ProbeReply::Done);
    }
    run.advance(ProbeReply::Done);
    assert_eq!(run.outcome(), Some(Err(wrong.clone())));

    let mut run = eraser().unlock_flash();
    run.advance(ProbeReply::Bytes(vec![1, 2]));
    assert_eq!(run.outcome(), Some(Err(wrong.clone())));

    let mut run = eraser().unlock_flash();
    run.advance(ProbeReply::Halted(true));
    assert_eq!(run.outcome(), Some(Err(wrong)));
}

#[test]
fn a_finished_run_ignores_further_replies() {
    let mut run = eraser().mass_erase();
    run.advance(ProbeReply::Failed(PlungerError::ProbeRsCommError("gone".to_string())));
    let kept = run.clone();
    run.advance(ProbeReply::Done);
    run.advance(ProbeReply::Word(0xAA));
    run.advance(ProbeReply::Failed(PlungerError::InvalidProtectionLevel));
    assert_eq!(run, kept);

    let mut run = GenericEraser::new(selector()).unwrap().unlock_flash();
    assert!(run.finished());
    run.advance(ProbeReply::Failed(PlungerError::InvalidProtectionLevel));
    assert_eq!(run.outcome(), Some(Ok(())));
}

#[test]
fn an_unfinished_run_has_no_outcome() {
    let run = eraser().mass_erase();
    assert!(!run.finished());
    assert_eq!(run.stage(), Stage::Unlock);
    assert_eq!(run.outcome(), None);
}

#[test]
fn a_run_names_the_probe_and_the_target() {
    let run = eraser().mass_erase();
    assert_eq!(run.probe(), &selector());
    assert_eq!(run.target_name(), "STM32L071KBTx");
    let run = eraser().unlock_flash();
    assert_eq!(run.probe(), &selector());
    assert_eq!(run.target_name(), "STM32L071KBTx");
    assert_eq!(run.stage(), Stage::UnlockOnly);
}

#[test]
fn the_generic_eraser_opens_detaches_attaches_and_erases() {
    let mut generic = GenericEraser::new(selector()).unwrap();
    assert_eq!(generic.probe(), &selector());
    let run = generic.mass_erase();
    assert_eq!(run.probe(), &selector());
    assert_eq!(run.target_name(), "");
    let mut facade = Facade::new(0, 0);
    assert_eq!(facade.drive(run), Ok(()));
    assert_eq!(
        facade.log,
        vec![
            ProbeRequest::Open,
            ProbeRequest::Detach,
            ProbeRequest::AttachAuto,
            ProbeRequest::EraseAll
        ]
    );
}

#[test]
fn the_generic_eraser_passes_failures_on() {
    let failure = PlungerError::ProbeFlashingError("chip erase is not supported".to_string());
    let mut run = GenericEraser::new(selector()).unwrap().mass_erase();
    for _ in 0..3 {
        run.advance(ProbeReply::Done);
    }
    assert_eq!(run.request(), Some(ProbeRequest::EraseAll));
    run.advance(ProbeReply::Failed(failure.clone()));
    assert_eq!(run.outcome(), Some(Err(failure)));
}

#[test]
fn the_generic_unlock_is_a_no_op() {
    let mut generic = GenericEraser::new(selector()).unwrap();
    let run = generic.unlock_flash();
    assert!(run.finished());
    assert_eq!(run.request(), None);
    assert_eq!(run.outcome(), Some(Ok(())));
}

#[test]
fn erase_generic_builds_the_generic_run() {
    let run = erase_generic(0x1366, 0x0101, None).unwrap();
    assert_eq!(run.stage(), Stage::GenericErase);
    assert_eq!(
        run.probe(),
        &ProbeSelector { vendor_id: 0x1366, product_id: 0x0101, serial_number: None }
    );
    assert_eq!(run.request(), Some(ProbeRequest::Open));
}

#[test]
fn erase_stm32l0_builds_the_mass_erase() {
    let run = erase_stm32l0("stm32l011".to_string(), 1, 2, Some("sn".to_string())).unwrap();
    assert_eq!(run.stage(), Stage::Unlock);
    assert_eq!(run.target_name(), "stm32l011");
    assert_eq!(
        run.probe(),
        &ProbeSelector { vendor_id: 1, product_id: 2, serial_number: Some("sn".to_string()) }
    );
    assert_eq!(run.request(), Some(ProbeRequest::Open));
}

#[test]
fn erase_stm32l0_reports_a_wrong_name_as_an_invalid_argument() {
    let made = erase_stm32l0("STM32F1".to_string(), 1, 2, None);
    assert_eq!(
        made,
        Err(CallError {
            status: Status::InvalidArg,
            reason: "Invalid target: Target STM32F1 is not STM32L0!".to_string()
        })
    );
}

#[test]
fn planning_a_run_leaves_the_eraser_as_it_was() {
    let mut stm = eraser();
    let before = stm.clone();
    let first = stm.mass_erase();
    let second = stm.mass_erase();
    assert_eq!(stm, before);
    assert_eq!(first, second);
}

#[test]
fn the_delay_after_a_commit_can_be_set() {
    assert_eq!(eraser().settle_delay(), 200);
    let mut slow = eraser().with_settle_delay(5000);
    assert_eq!(slow.settle_delay(), 5000);
    assert_eq!(slow.target_name(), "STM32L071KBTx");
    assert_eq!(slow.probe(), &selector());
    let mut facade = Facade::new(0x0000_00AA, 0);
    assert_eq!(facade.drive(slow.mass_erase()), Ok(()));
    let sleeps: Vec<u64> = facade
        .log
        .iter()
        .filter_map(|request| match request {
            ProbeRequest::Sleep { micros } => Some(*micros),
            _ => None,
        })
        .collect();
    assert_eq!(sleeps, vec![5000, 5000]);

    let mut facade = Facade::new(0x0000_0000, 0);
    let run = erase_generic(1, 2, None).unwrap().with_settle_delay(7);
    assert_eq!(facade.drive(run), Ok(()));
    assert_eq!(facade.log.len(), 4);
}
