//! What is known of a debug probe, and what is needed to pick one.

use vstd::prelude::*;

verus! {

/// The make of a debug probe.
#[derive(Debug, Clone, Copy, PartialEq, Eq, Structural)]
pub enum ProbeType {
    DapLink,
    StLink,
    Ftdi,
    JLink,
}

/// A debug probe as it is listed to the caller.
#[derive(Debug, Clone, PartialEq, Eq)]
pub struct ProbeInfo {
    pub vid: u16,
    pub pid: u16,
    pub serial_num: Option<String>,
    pub probe_type: Option<ProbeType>,
    pub short_id: Option<u32>,
}

/// Picks one physical probe: by its USB vendor and product id and, where
/// several of a kind are attached, by its serial number.
#[derive(Debug, Clone, PartialEq, Eq)]
pub struct ProbeSelector {
    pub vendor_id: u16,
    pub product_id: u16,
    pub serial_number: Option<String>,
}

/// A copy of an optional serial number.
pub fn copy_serial(serial: &Option<String>) -> (copy: Option<String>)
    ensures
        copy == *serial,
{
    match serial {
        Some(text) => Some(text.clone()),
        None => None,
    }
}

/// The largest number that a vendor or product id can be.
pub const MAX_PROBE_ID: i32 = 0xffff;

/// The number is a vendor or product id: an unsigned number of 16 bits.
pub open spec fn is_probe_id(number: i32) -> bool {
    0 <= number <= MAX_PROBE_ID
}

/// The vendor and product id that the numbers `vid` and `pid` stand for.
///
/// A number that is negative or above 16 bits is no id, and a pair with
/// such a number stands for nothing. A number that fits is the id itself.
pub fn probe_ids(vid: i32, pid: i32) -> (ids: Option<(u16, u16)>)
    ensures
        ids is None <==> !(is_probe_id(vid) && is_probe_id(pid)),
        ids matches Some(pair) ==> pair.0 == vid && pair.1 == pid,
{
    if vid < 0 || pid < 0 || vid > MAX_PROBE_ID || pid > MAX_PROBE_ID {
        return None;
    }
    Some((vid as u16, pid as u16))
}

impl ProbeSelector {
    /// The selector for the probe with these ids and this serial number.
    pub fn new(vendor_id: u16, product_id: u16, serial_number: Option<String>) -> (selector:
        ProbeSelector)
        ensures
            selector == (ProbeSelector { vendor_id, product_id, serial_number }),
    {
        ProbeSelector { vendor_id, product_id, serial_number }
    }

    /// A copy of the selector.
    pub fn duplicate(&self) -> (copy: ProbeSelector)
        ensures
            copy == *self,
    {
        ProbeSelector {
            vendor_id: self.vendor_id,
            product_id: self.product_id,
            serial_number: copy_serial(&self.serial_number),
        }
    }
}

impl vstd::std_specs::convert::FromSpecImpl<ProbeInfo> for ProbeSelector {
    open spec fn obeys_from_spec() -> bool {
        true
    }

    open spec fn from_spec(probe: ProbeInfo) -> ProbeSelector {
        ProbeSelector {
            vendor_id: probe.vid,
            product_id: probe.pid,
            serial_number: probe.serial_num,
        }
    }
}

impl From<ProbeInfo> for ProbeSelector {
    /// The selector that picks `probe`: its ids and its serial number.
    fn from(probe: ProbeInfo) -> (selector: ProbeSelector) {
        ProbeSelector {
            vendor_id: probe.vid,
            product_id: probe.pid,
            serial_number: probe.serial_num,
        }
    }
}

impl<'a> vstd::std_specs::convert::FromSpecImpl<&'a ProbeInfo> for ProbeSelector {
    open spec fn obeys_from_spec() -> bool {
        true
    }

    open spec fn from_spec(probe: &'a ProbeInfo) -> ProbeSelector {
        ProbeSelector {
            vendor_id: probe.vid,
            product_id: probe.pid,
            serial_number: probe.serial_num,
        }
    }
}

impl<'a> From<&'a ProbeInfo> for ProbeSelector {
    /// The selector that picks `probe`: its ids and a copy of its serial
    /// number.
    fn from(probe: &'a ProbeInfo) -> (selector: ProbeSelector) {
        ProbeSelector {
            vendor_id: probe.vid,
            product_id: probe.pid,
            serial_number: copy_serial(&probe.serial_num),
        }
    }
}

} // verus!
