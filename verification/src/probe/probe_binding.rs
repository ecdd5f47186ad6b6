//! The listing of the attached probes.
//!
//! The host enumerates the probes and, for the DAPLink workaround, the
//! block devices that carry the DAPLink label. The library decides which
//! probes are listed and what is said of each.

use crate::common::probe_info::{copy_serial, ProbeInfo, ProbeType};
use crate::text::same_text;
use vstd::prelude::*;
use vstd::string::*;
use vstd::utf8::encode_utf8;

verus! {

/// The property under which a block device names the serial number of
/// the probe that it belongs to.
pub const SERIAL_PROPERTY: &'static str = "ID_SERIAL_SHORT";

/// The property by which the host finds the block devices of DAPLink
/// probes.
pub const LABEL_PROPERTY: &'static str = "ID_FS_LABEL";

/// The value of that property on the block device of a DAPLink probe.
pub const DAPLINK_LABEL: &'static str = "DAPLINK";

/// The CKSUM variant of CRC-32 over `bytes`, as the CRC library computes it.
pub uninterp spec fn crc32_cksum(bytes: Seq<u8>) -> u32;

/// The make of a probe as the probe layer names it.
#[derive(Debug, Clone, Copy, PartialEq, Eq, Structural)]
pub enum ListedProbeType {
    CmsisDap,
    Ftdi,
    StLink,
    JLink,
    EspJtag,
}

/// A probe as the probe layer lists it.
#[derive(Debug, Clone, PartialEq, Eq)]
pub struct ListedProbe {
    pub vendor_id: u16,
    pub product_id: u16,
    pub serial_number: Option<String>,
    pub probe_type: ListedProbeType,
}

/// One property of a device: its name and its value.
#[derive(Debug, Clone, PartialEq, Eq)]
pub struct DeviceProperty {
    pub name: String,
    pub value: String,
}

/// A block device with the DAPLink label, by its properties.
#[derive(Debug, Clone, PartialEq, Eq)]
pub struct LabelledDevice {
    pub properties: Vec<DeviceProperty>,
}

/// The probes that are listed to the caller.
#[derive(Debug, Clone, PartialEq, Eq)]
pub struct ProbeInfoObject {
    probes: Vec<ProbeInfo>,
}

impl View for ProbeInfoObject {
    type V = Seq<ProbeInfo>;

    closed spec fn view(&self) -> Seq<ProbeInfo> {
        self.probes@
    }
}

impl ProbeInfoObject {
    /// The probes, in the order in which they were listed.
    pub fn probes(&self) -> (probes: &Vec<ProbeInfo>)
        ensures
            probes@ == self@,
    {
        &self.probes
    }
}

impl ListedProbeType {
    /// The make under which the caller knows a probe of this kind; none
    /// for a kind that the caller has no name for.
    pub open spec fn spec_probe_type(self) -> Option<ProbeType> {
        match self {
            ListedProbeType::CmsisDap => Some(ProbeType::DapLink),
            ListedProbeType::Ftdi => Some(ProbeType::Ftdi),
            ListedProbeType::StLink => Some(ProbeType::StLink),
            ListedProbeType::JLink => Some(ProbeType::JLink),
            ListedProbeType::EspJtag => None,
        }
    }

    /// The make under which the caller knows a probe of this kind.
    pub fn probe_type(self) -> (make: Option<ProbeType>)
        ensures
            make == self.spec_probe_type(),
    {
        match self {
            ListedProbeType::CmsisDap => Some(ProbeType::DapLink),
            ListedProbeType::Ftdi => Some(ProbeType::Ftdi),
            ListedProbeType::StLink => Some(ProbeType::StLink),
            ListedProbeType::JLink => Some(ProbeType::JLink),
            ListedProbeType::EspJtag => None,
        }
    }
}

/// The device names `serial` as the serial number of its probe.
pub open spec fn device_names(device: LabelledDevice, serial: Seq<char>) -> bool {
    exists|k: int|
        0 <= k < device.properties@.len() && (#[trigger] device.properties@[k]).name@
            == SERIAL_PROPERTY@ && device.properties@[k].value@ == serial
}

/// One of the devices names `serial` as the serial number of its probe.
pub open spec fn daplink_ready(devices: Seq<LabelledDevice>, serial: Seq<char>) -> bool {
    exists|i: int| 0 <= i < devices.len() && device_names(#[trigger] devices[i], serial)
}

/// Whether the probe is listed depends on the block devices: it is a
/// DAPLink with a serial number.
pub open spec fn asks_readiness(probe: ListedProbe) -> bool {
    probe.probe_type == ListedProbeType::CmsisDap && probe.serial_number is Some
}

/// One of the probes is a DAPLink with a serial number.
pub open spec fn any_asks_readiness(probes: Seq<ListedProbe>) -> bool {
    exists|i: int| 0 <= i < probes.len() && asks_readiness(#[trigger] probes[i])
}

/// The probe is listed: every probe is, but a DAPLink with a serial
/// number, which is listed only once its block device is there.
pub open spec fn is_listed(probe: ListedProbe, devices: Seq<LabelledDevice>) -> bool {
    probe.probe_type == ListedProbeType::CmsisDap ==> match probe.serial_number {
        Some(serial) => daplink_ready(devices, serial@),
        None => true,
    }
}

/// The short id of a probe: the checksum of its serial number's bytes in
/// UTF-8, if it has one.
pub open spec fn spec_short_id(serial: Option<String>) -> Option<u32> {
    match serial {
        Some(text) => Some(crc32_cksum(encode_utf8(text@))),
        None => None,
    }
}

/// What is said of a listed probe whose short id is `short_id`.
pub open spec fn spec_describe(probe: ListedProbe, short_id: Option<u32>) -> ProbeInfo {
    ProbeInfo {
        vid: probe.vendor_id,
        pid: probe.product_id,
        serial_num: probe.serial_number,
        probe_type: probe.probe_type.spec_probe_type(),
        short_id,
    }
}

/// What the caller is shown of the probes `probes`: those that are
/// listed, in their order, each with its short id.
pub open spec fn spec_listing(probes: Seq<ListedProbe>, devices: Seq<LabelledDevice>) -> Seq<
    ProbeInfo,
>
    decreases probes.len(),
{
    if probes.len() == 0 {
        Seq::empty()
    } else {
        let before = spec_listing(probes.drop_last(), devices);
        if is_listed(probes.last(), devices) {
            before.push(spec_describe(probes.last(), spec_short_id(probes.last().serial_number)))
        } else {
            before
        }
    }
}

/// Calls `crc::Crc::<u32>::checksum` of the CRC library, on the table of
/// its `CRC_32_CKSUM` algorithm. The library computes the checksum from
/// the bytes alone; the contract gives that number its name and claims
/// nothing else of it.
#[verifier::external_body]
fn cksum(bytes: &[u8]) -> (sum: u32)
    ensures
        sum == crc32_cksum(bytes@),
{
    crc::Crc::<u32>::new(&crc::CRC_32_CKSUM).checksum(bytes)
}

/// The short id of a probe with the serial number `serial`.
pub fn short_id(serial: &Option<String>) -> (id: Option<u32>)
    ensures
        id == spec_short_id(*serial),
{
    match serial {
        Some(text) => Some(cksum(text.as_str().as_bytes())),
        None => None,
    }
}

/// What is said of the listed probe `probe` whose short id is
/// `short_id`: its ids and serial number, its make as the caller knows
/// it, and the short id.
pub fn describe(probe: &ListedProbe, short_id: Option<u32>) -> (info: ProbeInfo)
    ensures
        info == spec_describe(*probe, short_id),
{
    ProbeInfo {
        vid: probe.vendor_id,
        pid: probe.product_id,
        serial_num: copy_serial(&probe.serial_number),
        probe_type: probe.probe_type.probe_type(),
        short_id,
    }
}

/// Whether `device` names `serial_num` as the serial number of its probe.
fn names_serial(device: &LabelledDevice, serial_num: &str) -> (named: bool)
    ensures
        named == device_names(*device, serial_num@),
{
    let mut k: usize = 0;
    while k < device.properties.len()
        invariant
            k <= device.properties.len(),
            forall|j: int|
                0 <= j < k ==> !((#[trigger] device.properties@[j]).name@ == SERIAL_PROPERTY@
                    && device.properties@[j].value@ == serial_num@),
        decreases device.properties.len() - k,
    {
        let property = &device.properties[k];
        if same_text(property.name.as_str(), SERIAL_PROPERTY) && same_text(
            property.value.as_str(),
            serial_num,
        ) {
            return true;
        }
        k += 1;
    }
    false
}

/// Whether the DAPLink with the serial number `serial_num` is ready: one
/// of the block devices with the DAPLink label names that serial number.
pub fn is_daplink_ready(serial_num: &str, devices: &Vec<LabelledDevice>) -> (ready: bool)
    ensures
        ready == daplink_ready(devices@, serial_num@),
{
    let mut i: usize = 0;
    while i < devices.len()
        invariant
            i <= devices.len(),
            forall|j: int| 0 <= j < i ==> !device_names(#[trigger] devices@[j], serial_num@),
        decreases devices.len() - i,
    {
        if names_serial(&devices[i], serial_num) {
            return true;
        }
        i += 1;
    }
    false
}

/// Whether the block devices have to be looked at to list `probes`: only
/// if one of them is a DAPLink with a serial number.
pub fn needs_devices(probes: &Vec<ListedProbe>) -> (needed: bool)
    ensures
        needed == any_asks_readiness(probes@),
{
    let mut i: usize = 0;
    while i < probes.len()
        invariant
            i <= probes.len(),
            forall|j: int| 0 <= j < i ==> !asks_readiness(#[trigger] probes@[j]),
        decreases probes.len() - i,
    {
        let asks = match probes[i].probe_type {
            ListedProbeType::CmsisDap => probes[i].serial_number.is_some(),
            _ => false,
        };
        if asks {
            return true;
        }
        i += 1;
    }
    false
}

/// Whether the probe `probe` is listed.
fn listed(probe: &ListedProbe, devices: &Vec<LabelledDevice>) -> (shown: bool)
    ensures
        shown == is_listed(*probe, devices@),
{
    match probe.probe_type {
        ListedProbeType::CmsisDap => match &probe.serial_number {
            Some(serial) => is_daplink_ready(serial.as_str(), devices),
            None => true,
        },
        _ => true,
    }
}

/// What the caller is shown of the probes `probes`, given the block
/// devices with the DAPLink label: every probe in its order, each with
/// its short id, but for the DAPLinks that are not ready.
pub fn get_all_probes(probes: Vec<ListedProbe>, devices: &Vec<LabelledDevice>) -> (shown:
    ProbeInfoObject)
    ensures
        shown@ == spec_listing(probes@, devices@),
{
    let mut new_probes: Vec<ProbeInfo> = Vec::new();
    let mut i: usize = 0;
    while i < probes.len()
        invariant
            i <= probes.len(),
            new_probes@ == spec_listing(probes@.take(i as int), devices@),
        decreases probes.len() - i,
    {
        proof {
            assert(probes@.take(i + 1).drop_last() =~= probes@.take(i as int));
            assert(probes@.take(i + 1).last() == probes@[i as int]);
        }
        let probe = &probes[i];
        if listed(probe, devices) {
            let id = short_id(&probe.serial_number);
            new_probes.push(describe(probe, id));
        }
        i += 1;
    }
    assert(probes@.take(probes@.len() as int) =~= probes@);
    ProbeInfoObject { probes: new_probes }
}

/// The block devices matter for DAPLinks with a serial number only:
/// without such a probe, the listing is the same whatever the devices.
pub proof fn lemma_devices_matter_for_daplinks_only(
    probes: Seq<ListedProbe>,
    devices: Seq<LabelledDevice>,
    others: Seq<LabelledDevice>,
)
    requires
        !any_asks_readiness(probes),
    ensures
        spec_listing(probes, devices) == spec_listing(probes, others),
    decreases probes.len(),
{
    if probes.len() > 0 {
        assert forall|i: int| 0 <= i < probes.drop_last().len() implies !asks_readiness(
            #[trigger] probes.drop_last()[i],
        ) by {
            assert(probes.drop_last()[i] == probes[i]);
        }
        lemma_devices_matter_for_daplinks_only(probes.drop_last(), devices, others);
        assert(!asks_readiness(probes[probes.len() - 1]));
    }
}

} // verus!
