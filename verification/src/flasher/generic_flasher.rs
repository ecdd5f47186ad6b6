//! The download of a firmware file: the validation of the arguments, the order
//! of the steps, and the wording of what went wrong at each.
//!
//! The probe layer decodes the file and programs the flash. The library
//! says in which order the host asks for what, with which settings, and
//! how a failure of each step is reported.

use crate::common::plunger_error::{CallError, CallErrorView, Status};
use crate::common::probe_info::{copy_serial, is_probe_id, probe_ids, ProbeSelector};
use crate::text::same_text;
use vstd::prelude::*;
use vstd::string::*;

verus! {

/// The speed of the probe's link where none is asked for, in kHz.
pub const DEFAULT_SPEED_KHZ: u32 = 1800;

/// The text of the error for a number that is no vendor or product id.
pub const INVALID_FLASH_IDS: &'static str = "Invalid VID/PID provided";

/// What the host reports of a file whose type names no format.
pub const INVALID_FIRMWARE_TYPE: &'static str = "Not a valid Bin/Hex/Elf file";

/// The format of a firmware file.
#[derive(Debug, Clone, Copy, PartialEq, Eq, Structural)]
pub enum FirmwareFormat {
    /// The contents of the flash, byte for byte.
    Bin,
    /// Intel hex records.
    Hex,
    /// An ELF object.
    Elf,
}

impl FirmwareFormat {
    /// The format that the type `name` names. Each format has a few
    /// spellings; any other text names none.
    pub open spec fn spec_parse(name: Seq<char>) -> Option<FirmwareFormat> {
        if name == "bin"@ || name == "Bin"@ || name == "BIN"@ {
            Some(FirmwareFormat::Bin)
        } else if name == "hex"@ || name == "IHex"@ || name == "Hex"@ || name == "ihex"@ || name
            == "HEX"@ {
            Some(FirmwareFormat::Hex)
        } else if name == "elf"@ || name == "Elf"@ || name == "ELF"@ {
            Some(FirmwareFormat::Elf)
        } else {
            None
        }
    }

    /// The format that the type `name` names.
    pub fn parse(name: &str) -> (format: Option<FirmwareFormat>)
        ensures
            format == Self::spec_parse(name@),
    {
        if same_text(name, "bin") || same_text(name, "Bin") || same_text(name, "BIN") {
            Some(FirmwareFormat::Bin)
        } else if same_text(name, "hex") || same_text(name, "IHex") || same_text(name, "Hex")
            || same_text(name, "ihex") || same_text(name, "HEX") {
            Some(FirmwareFormat::Hex)
        } else if same_text(name, "elf") || same_text(name, "Elf") || same_text(name, "ELF") {
            Some(FirmwareFormat::Elf)
        } else {
            None
        }
    }
}

/// A step of the download.
#[derive(Debug, Clone, Copy, PartialEq, Eq, Structural)]
pub enum FlashStage {
    OpenProbe,
    Detach,
    SetSpeed,
    Attach,
    OpenFile,
    Load,
    Commit,
}

/// What the host is asked to do at a step of the download.
#[derive(Debug, Clone, Copy, PartialEq, Eq, Structural)]
pub enum FlashRequest {
    /// Open the selected probe.
    OpenProbe,
    /// Detach the probe from whatever it is attached to.
    Detach,
    /// Set the speed of the probe's link.
    SetSpeed { khz: u32 },
    /// Attach to the named target while holding it in reset.
    AttachUnderReset,
    /// Open the firmware file.
    OpenFile,
    /// Decode the file into a loader for the target's memory map. Without
    /// a format nothing can be decoded, and the host reports that.
    Load { format: Option<FirmwareFormat> },
    /// Program what was loaded.
    Commit { keep_unwritten_bytes: bool, skip_erase: bool },
}

/// What came of a step of the download.
#[derive(Debug, Clone, PartialEq, Eq)]
pub enum FlashReply {
    /// The step was carried out.
    Done,
    /// The step failed; the text is the probe layer's or the system's.
    Failed(String),
}

/// A `FlashReply` with its text as a sequence of characters.
pub enum FlashReplyView {
    Done,
    Failed(Seq<char>),
}

impl View for FlashReply {
    type V = FlashReplyView;

    open spec fn view(&self) -> FlashReplyView {
        match self {
            FlashReply::Done => FlashReplyView::Done,
            FlashReply::Failed(text) => FlashReplyView::Failed(text@),
        }
    }
}

impl FlashStage {
    /// What precedes the failure's own text in the error for a failure of
    /// this step.
    pub open spec fn spec_complaint(self) -> Seq<char> {
        match self {
            FlashStage::OpenProbe => "Failed to open probe: "@,
            FlashStage::Detach => "Failed to detach probe: "@,
            FlashStage::SetSpeed => "Failed to set speed: "@,
            FlashStage::Attach => "Failed to open session: "@,
            FlashStage::OpenFile => "Failed to open file: "@,
            FlashStage::Load => "Failed to open firmware: "@,
            FlashStage::Commit => "Failed to download firmware: "@,
        }
    }

    /// The status of a failure of this step: a file that cannot be opened
    /// is the caller's mistake, every other failure has no better status.
    pub open spec fn spec_status(self) -> Status {
        match self {
            FlashStage::OpenFile => Status::InvalidArg,
            _ => Status::Unknown,
        }
    }

    /// The step that follows this one; none after the last.
    pub open spec fn spec_next(self) -> Option<FlashStage> {
        match self {
            FlashStage::OpenProbe => Some(FlashStage::Detach),
            FlashStage::Detach => Some(FlashStage::SetSpeed),
            FlashStage::SetSpeed => Some(FlashStage::Attach),
            FlashStage::Attach => Some(FlashStage::OpenFile),
            FlashStage::OpenFile => Some(FlashStage::Load),
            FlashStage::Load => Some(FlashStage::Commit),
            FlashStage::Commit => None,
        }
    }

    /// The error for a failure of this step with the text `text`.
    pub open spec fn spec_failure(self, text: Seq<char>) -> CallErrorView {
        CallErrorView { status: self.spec_status(), reason: self.spec_complaint() + text }
    }

    /// The step that follows this one; none after the last.
    pub fn next(self) -> (next: Option<FlashStage>)
        ensures
            next == self.spec_next(),
    {
        match self {
            FlashStage::OpenProbe => Some(FlashStage::Detach),
            FlashStage::Detach => Some(FlashStage::SetSpeed),
            FlashStage::SetSpeed => Some(FlashStage::Attach),
            FlashStage::Attach => Some(FlashStage::OpenFile),
            FlashStage::OpenFile => Some(FlashStage::Load),
            FlashStage::Load => Some(FlashStage::Commit),
            FlashStage::Commit => None,
        }
    }

    /// The error for a failure of this step with the text `text`.
    pub fn failure(self, text: &str) -> (err: CallError)
        ensures
            err@ == self.spec_failure(text@),
    {
        let complaint = match self {
            FlashStage::OpenProbe => "Failed to open probe: ",
            FlashStage::Detach => "Failed to detach probe: ",
            FlashStage::SetSpeed => "Failed to set speed: ",
            FlashStage::Attach => "Failed to open session: ",
            FlashStage::OpenFile => "Failed to open file: ",
            FlashStage::Load => "Failed to open firmware: ",
            FlashStage::Commit => "Failed to download firmware: ",
        };
        let status = match self {
            FlashStage::OpenFile => Status::InvalidArg,
            _ => Status::Unknown,
        };
        CallError { status, reason: String::from_str(complaint).concat(text) }
    }
}

/// A download that was asked for.
#[derive(Debug, Clone, PartialEq, Eq)]
pub struct GenericFlasherTask {
    probe_sn: Option<String>,
    firmware_type: String,
    speed_khz: Option<u32>,
    probe_vid: u16,
    probe_pid: u16,
    target_name: String,
    firmware_path: String,
    skip_erase: bool,
}

/// A `GenericFlasherTask` with its texts as sequences of characters.
pub struct GenericFlasherTaskView {
    pub probe_sn: Option<String>,
    pub firmware_type: Seq<char>,
    pub speed_khz: Option<u32>,
    pub probe_vid: u16,
    pub probe_pid: u16,
    pub target_name: Seq<char>,
    pub firmware_path: Seq<char>,
    pub skip_erase: bool,
}

impl View for GenericFlasherTask {
    type V = GenericFlasherTaskView;

    closed spec fn view(&self) -> GenericFlasherTaskView {
        GenericFlasherTaskView {
            probe_sn: self.probe_sn,
            firmware_type: self.firmware_type@,
            speed_khz: self.speed_khz,
            probe_vid: self.probe_vid,
            probe_pid: self.probe_pid,
            target_name: self.target_name@,
            firmware_path: self.firmware_path@,
            skip_erase: self.skip_erase,
        }
    }
}

/// A run of a download.
#[derive(Debug, Clone, PartialEq, Eq)]
pub struct FlashRun {
    probe: ProbeSelector,
    target_name: String,
    firmware_path: String,
    speed_khz: u32,
    format: Option<FirmwareFormat>,
    skip_erase: bool,
    stage: FlashStage,
    outcome: Option<Result<(), CallError>>,
}

/// The state of a run of a download.
pub struct FlashRunView {
    /// The probe that the host is to work through.
    pub probe: ProbeSelector,
    /// The target that the host is to attach to.
    pub target_name: Seq<char>,
    /// The file that the host is to open.
    pub firmware_path: Seq<char>,
    /// The speed that the host is to set, in kHz.
    pub speed_khz: u32,
    /// The format of the file, if its type names one.
    pub format: Option<FirmwareFormat>,
    /// Whether the flash is taken to be erased already.
    pub skip_erase: bool,
    /// The step that the run is at, or ended at.
    pub stage: FlashStage,
    /// How the run ended, once it has.
    pub outcome: Option<Result<(), CallErrorView>>,
}

/// The outcome of a run as the run holds it.
pub open spec fn flash_outcome_view(outcome: Option<Result<(), CallError>>) -> Option<
    Result<(), CallErrorView>,
> {
    match outcome {
        Some(Ok(())) => Some(Ok(())),
        Some(Err(err)) => Some(Err(err@)),
        None => None,
    }
}

impl View for FlashRun {
    type V = FlashRunView;

    closed spec fn view(&self) -> FlashRunView {
        FlashRunView {
            probe: self.probe,
            target_name: self.target_name@,
            firmware_path: self.firmware_path@,
            speed_khz: self.speed_khz,
            format: self.format,
            skip_erase: self.skip_erase,
            stage: self.stage,
            outcome: flash_outcome_view(self.outcome),
        }
    }
}

impl GenericFlasherTaskView {
    /// The run that carries out the task, at its first step: on the
    /// task's probe, target and file, at the speed that was asked for or
    /// the default speed, with the format that the file's type names.
    pub open spec fn run(self) -> FlashRunView {
        FlashRunView {
            probe: ProbeSelector {
                vendor_id: self.probe_vid,
                product_id: self.probe_pid,
                serial_number: self.probe_sn,
            },
            target_name: self.target_name,
            firmware_path: self.firmware_path,
            speed_khz: match self.speed_khz {
                Some(khz) => khz,
                None => DEFAULT_SPEED_KHZ,
            },
            format: FirmwareFormat::spec_parse(self.firmware_type),
            skip_erase: self.skip_erase,
            stage: FlashStage::OpenProbe,
            outcome: None,
        }
    }
}

impl FlashRunView {
    /// The run is over.
    pub open spec fn finished(self) -> bool {
        self.outcome is Some
    }

    /// What the run asks for at its step, whether or not it is over. A
    /// flash that is taken to be erased is neither erased nor are its
    /// unwritten bytes touched.
    pub open spec fn script_request(self) -> FlashRequest {
        match self.stage {
            FlashStage::OpenProbe => FlashRequest::OpenProbe,
            FlashStage::Detach => FlashRequest::Detach,
            FlashStage::SetSpeed => FlashRequest::SetSpeed { khz: self.speed_khz },
            FlashStage::Attach => FlashRequest::AttachUnderReset,
            FlashStage::OpenFile => FlashRequest::OpenFile,
            FlashStage::Load => FlashRequest::Load { format: self.format },
            FlashStage::Commit => FlashRequest::Commit {
                keep_unwritten_bytes: self.skip_erase,
                skip_erase: self.skip_erase,
            },
        }
    }

    /// The request that the run waits on; none once it is over.
    pub open spec fn request(self) -> Option<FlashRequest> {
        if self.finished() {
            None
        } else {
            Some(self.script_request())
        }
    }

    /// The run ended with `outcome` where it stood.
    pub open spec fn end(self, outcome: Result<(), CallErrorView>) -> Self {
        FlashRunView { outcome: Some(outcome), ..self }
    }

    /// The run after `reply` to its pending request.
    ///
    /// A run that is over stays as it is. A failure ends the run with the
    /// error of its step. A file without a format cannot be loaded: the
    /// run ends at that step even if the host reports no failure. Any
    /// other step that was carried out leads to the next, and the last
    /// ends the run with success.
    pub open spec fn advance(self, reply: FlashReplyView) -> Self {
        if self.finished() {
            self
        } else {
            match reply {
                FlashReplyView::Failed(text) => self.end(Err(self.stage.spec_failure(text))),
                FlashReplyView::Done => if self.stage == FlashStage::Load && self.format is None {
                    self.end(Err(self.stage.spec_failure(INVALID_FIRMWARE_TYPE@)))
                } else {
                    match self.stage.spec_next() {
                        Some(stage) => FlashRunView { stage, ..self },
                        None => self.end(Ok(())),
                    }
                },
            }
        }
    }
}

impl GenericFlasherTask {
    /// The run that carries out the task, at its first step.
    pub fn compute(&self) -> (run: FlashRun)
        ensures
            run@ == self@.run(),
    {
        FlashRun {
            probe: ProbeSelector {
                vendor_id: self.probe_vid,
                product_id: self.probe_pid,
                serial_number: copy_serial(&self.probe_sn),
            },
            target_name: self.target_name.clone(),
            firmware_path: self.firmware_path.clone(),
            speed_khz: match self.speed_khz {
                Some(khz) => khz,
                None => DEFAULT_SPEED_KHZ,
            },
            format: FirmwareFormat::parse(self.firmware_type.as_str()),
            skip_erase: self.skip_erase,
            stage: FlashStage::OpenProbe,
            outcome: None,
        }
    }
}

impl FlashRun {
    /// The probe that the host is to work through.
    pub fn probe(&self) -> (probe: &ProbeSelector)
        ensures
            *probe == self@.probe,
    {
        &self.probe
    }

    /// The target that the host is to attach to.
    pub fn target_name(&self) -> (name: &String)
        ensures
            name@ == self@.target_name,
    {
        &self.target_name
    }

    /// The file that the host is to open.
    pub fn firmware_path(&self) -> (path: &String)
        ensures
            path@ == self@.firmware_path,
    {
        &self.firmware_path
    }

    /// Whether the run is over.
    pub fn finished(&self) -> (over: bool)
        ensures
            over == self@.finished(),
    {
        self.outcome.is_some()
    }

    /// The request that the run waits on; none once it is over.
    pub fn request(&self) -> (request: Option<FlashRequest>)
        ensures
            request == self@.request(),
    {
        if self.outcome.is_some() {
            return None;
        }
        Some(
            match self.stage {
                FlashStage::OpenProbe => FlashRequest::OpenProbe,
                FlashStage::Detach => FlashRequest::Detach,
                FlashStage::SetSpeed => FlashRequest::SetSpeed { khz: self.speed_khz },
                FlashStage::Attach => FlashRequest::AttachUnderReset,
                FlashStage::OpenFile => FlashRequest::OpenFile,
                FlashStage::Load => FlashRequest::Load { format: self.format },
                FlashStage::Commit => FlashRequest::Commit {
                    keep_unwritten_bytes: self.skip_erase,
                    skip_erase: self.skip_erase,
                },
            },
        )
    }

    /// How the run ended; nothing while it is not over.
    pub fn outcome(self) -> (outcome: Option<Result<(), CallError>>)
        ensures
            flash_outcome_view(outcome) == self@.outcome,
    {
        self.outcome
    }

    /// Takes the reply to the pending request and moves the run on.
    pub fn advance(&mut self, reply: FlashReply)
        ensures
            final(self)@ == old(self)@.advance(reply@),
    {
        if self.outcome.is_some() {
            return ;
        }
        match reply {
            FlashReply::Failed(text) => {
                self.outcome = Some(Err(self.stage.failure(text.as_str())));
            },
            FlashReply::Done => {
                let unreadable = match self.stage {
                    FlashStage::Load => self.format.is_none(),
                    _ => false,
                };
                if unreadable {
                    self.outcome = Some(Err(self.stage.failure(INVALID_FIRMWARE_TYPE)));
                } else {
                    match self.stage.next() {
                        Some(stage) => {
                            self.stage = stage;
                        },
                        None => {
                            self.outcome = Some(Ok(()));
                        },
                    }
                }
            },
        }
    }
}

/// The task of writing the file `firmware_path`, of the type
/// `firmware_type`, to the target `target_name`, through the probe with
/// these ids and this serial number.
///
/// The flash is erased unless `skip_erase` says otherwise. A vendor or
/// product id that is negative or above 16 bits is refused as an invalid
/// argument.
pub fn flash_firmware_file(
    firmware_path: String,
    target_name: String,
    firmware_type: String,
    skip_erase: Option<bool>,
    vid: i32,
    pid: i32,
    speed_khz: Option<u32>,
    serial_num: Option<String>,
) -> (made: Result<GenericFlasherTask, CallError>)
    ensures
        match made {
            Ok(task) => is_probe_id(vid) && is_probe_id(pid) && task@ == (
            GenericFlasherTaskView {
                probe_sn: serial_num,
                firmware_type: firmware_type@,
                speed_khz,
                probe_vid: vid as u16,
                probe_pid: pid as u16,
                target_name: target_name@,
                firmware_path: firmware_path@,
                skip_erase: skip_erase == Some(true),
            }),
            Err(err) => !(is_probe_id(vid) && is_probe_id(pid)) && err.status
                == Status::InvalidArg && err.reason@ == INVALID_FLASH_IDS@,
        },
{
    let skip_erase = match skip_erase {
        Some(skip) => skip,
        None => false,
    };
    match probe_ids(vid, pid) {
        Some((probe_vid, probe_pid)) => Ok(
            GenericFlasherTask {
                probe_sn: serial_num,
                firmware_type,
                speed_khz,
                probe_vid,
                probe_pid,
                target_name,
                firmware_path,
                skip_erase,
            },
        ),
        None => Err(CallError::new(Status::InvalidArg, INVALID_FLASH_IDS)),
    }
}

/// A download whose every step is carried out ends with success after
/// seven replies, having asked for the probe, the detach, the speed, the
/// session, the file, the loading and the programming, in this order.
/// A file whose type names no format ends the run at the loading.
pub proof fn lemma_download_order(task: GenericFlasherTaskView)
    ensures
        ({
            let opened = task.run().advance(FlashReplyView::Done);
            let detached = opened.advance(FlashReplyView::Done);
            let timed = detached.advance(FlashReplyView::Done);
            let attached = timed.advance(FlashReplyView::Done);
            let found = attached.advance(FlashReplyView::Done);
            let loaded = found.advance(FlashReplyView::Done);
            let written = loaded.advance(FlashReplyView::Done);
            &&& task.run().request() == Some(FlashRequest::OpenProbe)
            &&& opened.request() == Some(FlashRequest::Detach)
            &&& detached.request() == Some(FlashRequest::SetSpeed { khz: task.run().speed_khz })
            &&& timed.request() == Some(FlashRequest::AttachUnderReset)
            &&& attached.request() == Some(FlashRequest::OpenFile)
            &&& found.request() == Some(FlashRequest::Load { format: task.run().format })
            &&& task.run().format is Some ==> loaded.request() == Some(
                FlashRequest::Commit {
                    keep_unwritten_bytes: task.skip_erase,
                    skip_erase: task.skip_erase,
                },
            ) && written.outcome == Some(Ok::<(), CallErrorView>(()))
            &&& task.run().format is None ==> loaded.outcome == Some(
                Err::<(), CallErrorView>(
                    CallErrorView {
                        status: Status::Unknown,
                        reason: "Failed to open firmware: "@ + INVALID_FIRMWARE_TYPE@,
                    },
                ),
            )
        }),
{
}

} // verus!
