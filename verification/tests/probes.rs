use plunger::common::probe_info::{ProbeInfo, ProbeType};
use plunger::probe::probe_binding::{
    describe, get_all_probes, is_daplink_ready, needs_devices, short_id, DeviceProperty,
    LabelledDevice, ListedProbe, ListedProbeType,
};

fn property(name: &str, value: &str) -> DeviceProperty {
    DeviceProperty { name: name.to_string(), value: value.to_string() }
}

fn device(serial: &str) -> LabelledDevice {
    LabelledDevice {
        properties: vec![
            property("ID_FS_LABEL", "DAPLINK"),
            property("ID_SERIAL_SHORT", serial),
            property("DEVNAME", "/dev/sda"),
        ],
    }
}

fn listed(kind: ListedProbeType, serial: Option<&str>) -> ListedProbe {
    ListedProbe {
        vendor_id: 0x0d28,
        product_id: 0x0204,
        serial_number: serial.map(|text| text.to_string()),
        probe_type: kind,
    }
}

#[test]
fn short_id_is_the_cksum_of_the_serial_number() {
    assert_eq!(short_id(&Some("123456789".to_string())), Some(0x765e_7680));
    assert_eq!(short_id(&Some("".to_string())), Some(0xffff_ffff));
    assert_eq!(short_id(&Some("a".to_string())), Some(0x579b_24df));
    assert_eq!(short_id(&None), None);
    assert_ne!(short_id(&Some("0240000034544e45".to_string())), Some(0x0240_0000));
}

#[test]
fn probe_types_are_named_for_the_caller() {
    assert_eq!(ListedProbeType::CmsisDap.probe_type(), Some(ProbeType::DapLink));
    assert_eq!(ListedProbeType::Ftdi.probe_type(), Some(ProbeType::Ftdi));
    assert_eq!(ListedProbeType::StLink.probe_type(), Some(ProbeType::StLink));
    assert_eq!(ListedProbeType::JLink.probe_type(), Some(ProbeType::JLink));
    assert_eq!(ListedProbeType::EspJtag.probe_type(), None);
}

#[test]
fn describe_keeps_the_ids_and_the_serial_number() {
    let info = describe(&listed(ListedProbeType::StLink, Some("066DFF")), Some(42));
    assert_eq!(
        info,
        ProbeInfo {
            vid: 0x0d28,
            pid: 0x0204,
            serial_num: Some("066DFF".to_string()),
            probe_type: Some(ProbeType::StLink),
            short_id: Some(42),
        }
    );
}

#[test]
fn a_daplink_is_ready_once_its_block_device_is_there() {
    let devices = vec![device("0240AAAA"), device("0240BBBB")];
    assert!(is_daplink_ready("0240AAAA", &devices));
    assert!(is_daplink_ready("0240BBBB", &devices));
    assert!(!is_daplink_ready("0240CCCC", &devices));
    assert!(!is_daplink_ready("0240AAA", &devices));
    assert!(!is_daplink_ready("0240AAAA", &Vec::new()));
    let unnamed = vec![LabelledDevice { properties: vec![property("ID_SERIAL", "0240AAAA")] }];
    assert!(!is_daplink_ready("0240AAAA", &unnamed));
    let empty = vec![LabelledDevice { properties: Vec::new() }];
    assert!(!is_daplink_ready("", &empty));
}

#[test]
fn probes_are_listed_in_order_with_their_short_ids() {
    let probes = vec![
        listed(ListedProbeType::StLink, Some("123456789")),
        listed(ListedProbeType::JLink, None),
        listed(ListedProbeType::Ftdi, Some("a")),
    ];
    let shown = get_all_probes(probes, &Vec::new());
    let shown = shown.probes();
    assert_eq!(shown.len(), 3);
    assert_eq!(shown[0].probe_type, Some(ProbeType::StLink));
    assert_eq!(shown[0].short_id, Some(0x765e_7680));
    assert_eq!(shown[0].serial_num, Some("123456789".to_string()));
    assert_eq!(shown[1].probe_type, Some(ProbeType::JLink));
    assert_eq!(shown[1].short_id, None);
    assert_eq!(shown[2].probe_type, Some(ProbeType::Ftdi));
    assert_eq!(shown[2].short_id, Some(0x579b_24df));
    assert_eq!(shown[2].vid, 0x0d28);
    assert_eq!(shown[2].pid, 0x0204);
}

#[test]
fn a_daplink_that_is_not_ready_is_left_out() {
    let probes = vec![
        listed(ListedProbeType::CmsisDap, Some("0240AAAA")),
        listed(ListedProbeType::CmsisDap, Some("0240BBBB")),
        listed(ListedProbeType::CmsisDap, None),
        listed(ListedProbeType::StLink, Some("0240BBBB")),
    ];
    let devices = vec![device("0240AAAA")];
    let shown = get_all_probes(probes, &devices);
    let serials: Vec<Option<String>> =
        shown.probes().iter().map(|info| info.serial_num.clone()).collect();
    assert_eq!(
        serials,
        vec![Some("0240AAAA".to_string()), None, Some("0240BBBB".to_string())]
    );
    let kinds: Vec<Option<ProbeType>> =
        shown.probes().iter().map(|info| info.probe_type).collect();
    assert_eq!(
        kinds,
        vec![Some(ProbeType::DapLink), Some(ProbeType::DapLink), Some(ProbeType::StLink)]
    );
}

#[test]
fn no_probes_give_an_empty_listing() {
    let shown = get_all_probes(Vec::new(), &vec![device("x")]);
    assert!(shown.probes().is_empty());
}

#[test]
fn block_devices_are_needed_for_daplinks_with_a_serial_number_only() {
    assert!(!needs_devices(&Vec::new()));
    assert!(!needs_devices(&vec![
        listed(ListedProbeType::StLink, Some("a")),
        listed(ListedProbeType::CmsisDap, None),
        listed(ListedProbeType::EspJtag, Some("b")),
    ]));
    assert!(needs_devices(&vec![
        listed(ListedProbeType::StLink, Some("a")),
        listed(ListedProbeType::CmsisDap, Some("c")),
    ]));
}

#[test]
fn a_probe_of_a_make_without_a_name_is_listed_without_one() {
    let shown = get_all_probes(vec![listed(ListedProbeType::EspJtag, Some("e"))], &Vec::new());
    assert_eq!(shown.probes().len(), 1);
    assert_eq!(shown.probes()[0].probe_type, None);
    assert_eq!(shown.probes()[0].serial_num, Some("e".to_string()));
}
