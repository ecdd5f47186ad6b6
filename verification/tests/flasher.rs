use plunger::common::plunger_error::{CallError, Status};
use plunger::common::probe_info::ProbeSelector;
use plunger::flasher::generic_flasher::{
    flash_firmware_file, FirmwareFormat, FlashReply, FlashRequest, FlashRun, FlashStage,
    GenericFlasherTask,
};

fn task(firmware_type: &str, skip_erase: Option<bool>, speed: Option<u32>) -> GenericFlasherTask {
    flash_firmware_file(
        "/tmp/fw.bin".to_string(),
        "STM32L071KBTx".to_string(),
        firmware_type.to_string(),
        skip_erase,
        0x0d28,
        0x0204,
        speed,
        Some("A1".to_string()),
    )
    .unwrap()
}

fn requests(mut run: FlashRun) -> (Vec<FlashRequest>, Option<Result<(), CallError>>) {
    let mut log = Vec::new();
    while let Some(request) = run.request() {
        assert!(log.len() < 100, "the run does not end");
        log.push(request);
        run.advance(FlashReply::Done);
    }
    (log, run.outcome())
}

#[test]
fn firmware_types_name_their_formats() {
    for name in ["bin", "Bin", "BIN"] {
        assert_eq!(FirmwareFormat::parse(name), Some(FirmwareFormat::Bin));
    }
    for name in ["hex", "IHex", "Hex", "ihex", "HEX"] {
        assert_eq!(FirmwareFormat::parse(name), Some(FirmwareFormat::Hex));
    }
    for name in ["elf", "Elf", "ELF"] {
        assert_eq!(FirmwareFormat::parse(name), Some(FirmwareFormat::Elf));
    }
    for name in ["", "bIN", "IHEX", "ihEx", "axf", "bin ", "elf\n", "binhex"] {
        assert_eq!(FirmwareFormat::parse(name), None);
    }
}

#[test]
fn a_download_goes_through_its_steps_in_order() {
    let (log, outcome) = requests(task("hex", None, None).compute());
    assert_eq!(
        log,
        vec![
            FlashRequest::OpenProbe,
            FlashRequest::Detach,
            FlashRequest::SetSpeed { khz: 1800 },
            FlashRequest::AttachUnderReset,
            FlashRequest::OpenFile,
            FlashRequest::Load { format: Some(FirmwareFormat::Hex) },
            FlashRequest::Commit { keep_unwritten_bytes: false, skip_erase: false },
        ]
    );
    assert_eq!(outcome, Some(Ok(())));
}

#[test]
fn a_download_uses_the_speed_that_was_asked_for() {
    let (log, _) = requests(task("bin", Some(false), Some(4000)).compute());
    assert_eq!(log[2], FlashRequest::SetSpeed { khz: 4000 });
    assert_eq!(log[5], FlashRequest::Load { format: Some(FirmwareFormat::Bin) });
    let (log, _) = requests(task("bin", Some(false), Some(0)).compute());
    assert_eq!(log[2], FlashRequest::SetSpeed { khz: 0 });
}

#[test]
fn skipping_the_erase_keeps_the_unwritten_bytes() {
    let (log, outcome) = requests(task("ELF", Some(true), None).compute());
    assert_eq!(log[5], FlashRequest::Load { format: Some(FirmwareFormat::Elf) });
    assert_eq!(log[6], FlashRequest::Commit { keep_unwritten_bytes: true, skip_erase: true });
    assert_eq!(outcome, Some(Ok(())));
}

#[test]
fn a_file_of_an_unknown_type_fails_at_the_loading() {
    let (log, outcome) = requests(task("axf", None, None).compute());
    assert_eq!(log.len(), 6);
    assert_eq!(log[5], FlashRequest::Load { format: None });
    assert_eq!(
        outcome,
        Some(Err(CallError {
            status: Status::Unknown,
            reason: "Failed to open firmware: Not a valid Bin/Hex/Elf file".to_string()
        }))
    );

    let mut run = task("axf", None, None).compute();
    for _ in 0..5 {
        run.advance(FlashReply::Done);
    }
    run.advance(FlashReply::Failed("Object Error: Not a valid Bin/Hex/Elf file.".to_string()));
    assert_eq!(
        run.outcome(),
        Some(Err(CallError {
            status: Status::Unknown,
            reason: "Failed to open firmware: Object Error: Not a valid Bin/Hex/Elf file."
                .to_string()
        }))
    );
}

#[test]
fn each_step_words_its_own_failure() {
    let expected = [
        (Status::Unknown, "Failed to open probe: boom"),
        (Status::Unknown, "Failed to detach probe: boom"),
        (Status::Unknown, "Failed to set speed: boom"),
        (Status::Unknown, "Failed to open session: boom"),
        (Status::InvalidArg, "Failed to open file: boom"),
        (Status::Unknown, "Failed to open firmware: boom"),
        (Status::Unknown, "Failed to download firmware: boom"),
    ];
    for (after, (status, reason)) in expected.iter().enumerate() {
        let mut run = task("bin", None, None).compute();
        for _ in 0..after {
            run.advance(FlashReply::Done);
        }
        assert!(!run.finished());
        run.advance(FlashReply::Failed("boom".to_string()));
        assert!(run.finished());
        assert_eq!(run.request(), None);
        let failure = CallError { status: *status, reason: reason.to_string() };
        let kept = run.clone();
        run.advance(FlashReply::Done);
        assert_eq!(run, kept);
        assert_eq!(run.outcome(), Some(Err(failure)));
    }
}

#[test]
fn stages_follow_each_other() {
    let order = [
        FlashStage::OpenProbe,
        FlashStage::Detach,
        FlashStage::SetSpeed,
        FlashStage::Attach,
        FlashStage::OpenFile,
        FlashStage::Load,
        FlashStage::Commit,
    ];
    for pair in order.windows(2) {
        assert_eq!(pair[0].next(), Some(pair[1]));
    }
    assert_eq!(FlashStage::Commit.next(), None);
    assert_eq!(
        FlashStage::OpenFile.failure("no such file"),
        CallError {
            status: Status::InvalidArg,
            reason: "Failed to open file: no such file".to_string()
        }
    );
}

#[test]
fn a_download_names_the_probe_the_target_and_the_file() {
    let run = task("bin", None, None).compute();
    assert_eq!(
        run.probe(),
        &ProbeSelector {
            vendor_id: 0x0d28,
            product_id: 0x0204,
            serial_number: Some("A1".to_string())
        }
    );
    assert_eq!(run.target_name(), "STM32L071KBTx");
    assert_eq!(run.firmware_path(), "/tmp/fw.bin");
    assert!(!run.finished());
    assert_eq!(run.outcome(), None);
}

#[test]
fn flash_firmware_file_refuses_numbers_that_are_no_ids() {
    let invalid =
        CallError { status: Status::InvalidArg, reason: "Invalid VID/PID provided".to_string() };
    let refused =
        [(0x1_0000, 0), (0, 0x1_0000), (i32::MAX, i32::MAX), (-1, 0), (0, -1), (i32::MIN, 5)];
    for (vid, pid) in refused {
        let made = flash_firmware_file(
            "f".to_string(),
            "t".to_string(),
            "bin".to_string(),
            None,
            vid,
            pid,
            None,
            None,
        );
        assert_eq!(made, Err(invalid.clone()));
    }
}
