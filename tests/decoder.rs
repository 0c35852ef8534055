use netflow_collector::error::DecodeError;
use netflow_collector::exporters::{Exporter, ExporterList, IpAddress};
use netflow_collector::field_type::FieldType;
use netflow_collector::flow::Flow;
use netflow_collector::ipfix::FieldValue;
use netflow_collector::listener::{parse_ipfix_msg, parse_msg, parse_v5_msg};

const NETFLOW5_MSG: [u8; 168] = [
    0x00, 0x05, 0x00, 0x03, 0x00, 0x00, 0x2e, 0xae, 0x60, 0x86, 0xd4, 0xc7,
    0x2c, 0x4a, 0x07, 0x28, 0x00, 0x00, 0x00, 0x16, 0x01, 0x00, 0x00, 0x00,
    0x70, 0x0a, 0x14, 0x0a, 0xac, 0x1e, 0xbe, 0x0a, 0xac, 0xc7, 0x0f, 0x01,
    0x00, 0x00, 0x00, 0x00, 0x00, 0x00, 0x00, 0x1b, 0x00, 0x00, 0x01, 0x69,
    0x00, 0x00, 0x2c, 0x8e, 0x00, 0x00, 0x2e, 0x13, 0x00, 0x28, 0x00, 0x50,
    0x00, 0x00, 0x06, 0x00, 0xa8, 0x64, 0x17, 0x93, 0x1d, 0x05, 0x00, 0x00,
    0xc0, 0xa8, 0x14, 0x0a, 0xca, 0x0c, 0xbe, 0x0a, 0xac, 0xc7, 0x0f, 0x01,
    0x00, 0x00, 0x00, 0x00, 0x00, 0x00, 0x02, 0x23, 0x00, 0x00, 0x03, 0xdf,
    0x00, 0x00, 0x2c, 0x34, 0x00, 0x00, 0x2d, 0xbb, 0x00, 0x28, 0x01, 0xbb,
    0x00, 0x00, 0x06, 0x00, 0xff, 0x5c, 0xaf, 0x70, 0x1a, 0x03, 0x00, 0x00,
    0x0a, 0x0a, 0x14, 0x7a, 0x54, 0x0c, 0xbe, 0xd2, 0xc0, 0xc7, 0x0f, 0x01,
    0x00, 0x00, 0x00, 0x00, 0x00, 0x00, 0x01, 0xab, 0x00, 0x00, 0x00, 0x8b,
    0x00, 0x00, 0x2d, 0x35, 0x00, 0x00, 0x2e, 0x84, 0x2e, 0xe1, 0x1f, 0x90,
    0x00, 0x00, 0x06, 0x00, 0xf4, 0x97, 0xe1, 0x16, 0x15, 0x06, 0x00, 0x00,
];

const TEMPLATE_IPFIX_MSG: [u8; 132] = [
    0x00, 0x0a, 0x00, 0x84, 0x60, 0x6c, 0x55, 0x89, 0xdf, 0xb2, 0xba, 0xd2,
    0x00, 0x08, 0x00, 0x00, 0x00, 0x02, 0x00, 0x74, 0x01, 0x00, 0x00, 0x1b,
    0x00, 0x08, 0x00, 0x04, 0x00, 0x0c, 0x00, 0x04, 0x00, 0x05, 0x00, 0x01,
    0x00, 0x04, 0x00, 0x01, 0x00, 0x07, 0x00, 0x02, 0x00, 0x0b, 0x00, 0x02,
    0x00, 0x20, 0x00, 0x02, 0x00, 0x0a, 0x00, 0x04, 0x00, 0x3a, 0x00, 0x02,
    0x00, 0x09, 0x00, 0x01, 0x00, 0x0d, 0x00, 0x01, 0x00, 0x10, 0x00, 0x04,
    0x00, 0x11, 0x00, 0x04, 0x00, 0x0f, 0x00, 0x04, 0x00, 0x06, 0x00, 0x01,
    0x00, 0x0e, 0x00, 0x04, 0x00, 0x01, 0x00, 0x08, 0x00, 0x02, 0x00, 0x08,
    0x00, 0x34, 0x00, 0x01, 0x00, 0x35, 0x00, 0x01, 0x00, 0x98, 0x00, 0x08,
    0x00, 0x99, 0x00, 0x08, 0x00, 0x88, 0x00, 0x01, 0x00, 0x3d, 0x00, 0x01,
    0x00, 0xf3, 0x00, 0x02, 0x00, 0xf5, 0x00, 0x02, 0x00, 0x36, 0x00, 0x04,
];

const OPTION_TEMPLATE_IPFIX_MSG: [u8; 72] = [
    0x00, 0x0a, 0x00, 0x48, 0x60, 0x6c, 0x55, 0xa9, 0x00, 0x01, 0xeb, 0x6a,
    0x00, 0x08, 0x00, 0x00, 0x00, 0x03, 0x00, 0x38, 0x02, 0x00, 0x00, 0x0b,
    0x00, 0x01, 0x00, 0x90, 0x00, 0x04, 0x00, 0x29, 0x00, 0x08, 0x00, 0x2a,
    0x00, 0x08, 0x00, 0xa0, 0x00, 0x08, 0x00, 0x82, 0x00, 0x04, 0x00, 0x83,
    0x00, 0x10, 0x00, 0x22, 0x00, 0x04, 0x00, 0x24, 0x00, 0x02, 0x00, 0x25,
    0x00, 0x02, 0x00, 0xd6, 0x00, 0x01, 0x00, 0xd7, 0x00, 0x01, 0x00, 0x00,
];

const DATA_SET_IPFIX_MSG: [u8; 190] = [
    0x00, 0x0a, 0x00, 0xbe, 0x60, 0x6c, 0x55, 0xa7, 0xff, 0xe5, 0xab, 0xd5,
    0x00, 0x08, 0x00, 0x00, 0x01, 0x00, 0x00, 0xae, 0x3e, 0xd4, 0x68, 0xd1,
    0x0d, 0x20, 0xdb, 0x4a, 0x00, 0x06, 0xbc, 0xee, 0x01, 0xbb, 0x00, 0x00,
    0x00, 0x00, 0x03, 0x3d, 0x00, 0x00, 0x20, 0x15, 0x00, 0x00, 0x33, 0x89,
    0x00, 0x00, 0x40, 0x7d, 0x25, 0x31, 0xec, 0x76, 0x18, 0x00, 0x00, 0x02,
    0xf9, 0x00, 0x00, 0x00, 0x00, 0x00, 0x00, 0x00, 0x40, 0x00, 0x00, 0x00,
    0x00, 0x00, 0x00, 0x00, 0x01, 0x79, 0x79, 0x00, 0x00, 0x01, 0x78, 0xa7,
    0x2e, 0x6f, 0x00, 0x00, 0x00, 0x01, 0x78, 0xa7, 0x2e, 0x6f, 0x00, 0x02,
    0xff, 0x00, 0x00, 0x00, 0x00, 0x00, 0x00, 0x00, 0x00, 0xd5, 0xd7, 0x24,
    0xb2, 0xc1, 0x46, 0x12, 0x90, 0x00, 0x06, 0x13, 0x74, 0x00, 0x19, 0x00,
    0x00, 0x00, 0x00, 0x03, 0x3d, 0x00, 0x00, 0x1e, 0x11, 0x00, 0x00, 0x33,
    0x89, 0x00, 0x00, 0x3f, 0x94, 0x25, 0x31, 0xec, 0x90, 0x18, 0x00, 0x00,
    0x02, 0xf9, 0x00, 0x00, 0x00, 0x00, 0x00, 0x00, 0x00, 0x5a, 0x00, 0x00,
    0x00, 0x00, 0x00, 0x00, 0x00, 0x01, 0x39, 0x39, 0x00, 0x00, 0x01, 0x78,
    0xa7, 0x2e, 0x6e, 0x00, 0x00, 0x00, 0x01, 0x78, 0xa7, 0x2e, 0x6e, 0x00,
    0x02, 0xff, 0x00, 0x00, 0x00, 0x00, 0x00, 0x00, 0x00, 0x00,
];

const OPTION_DATA_SET_IPFIX_MSG: [u8; 80] = [
    0x00, 0x0a, 0x00, 0x50, 0x60, 0x6c, 0x55, 0xa9, 0x00, 0x01, 0xeb, 0x6a,
    0x00, 0x08, 0x00, 0x00, 0x02, 0x00, 0x00, 0x40, 0x00, 0x00, 0x00, 0x02,
    0x00, 0x00, 0x00, 0x09, 0x31, 0xc3, 0x26, 0xc6, 0x00, 0x00, 0x00, 0x26,
    0x5b, 0x7e, 0xcc, 0x9b, 0x00, 0x00, 0x01, 0x4a, 0xa2, 0xd7, 0x85, 0x28,
    0xb2, 0x84, 0x10, 0x20, 0x00, 0x00, 0x00, 0x00, 0x00, 0x00, 0x00, 0x00,
    0x00, 0x00, 0x00, 0x00, 0x00, 0x00, 0x00, 0x00, 0x00, 0x00, 0x00, 0x0a,
    0x00, 0x0a, 0x00, 0x0a, 0x0a, 0x11, 0x00, 0x00,
];

const DATASET: [u8; 85] = [
    0xc3, 0x05, 0xed, 0x5a, 0x34, 0x71, 0x91, 0xde, 0x00, 0x11, 0xf0, 0x58,
    0x0d, 0x98, 0x00, 0x00, 0x00, 0x00, 0x02, 0x2d, 0x00, 0x00, 0x1e, 0x0e,
    0x00, 0x00, 0x33, 0x89, 0x00, 0x00, 0x1f, 0x8b, 0xc3, 0x42, 0xe0, 0x8c,
    0x00, 0x00, 0x00, 0x02, 0x2c, 0x00, 0x00, 0x00, 0x00, 0x00, 0x00, 0x12,
    0x6a, 0x00, 0x00, 0x00, 0x00, 0x00, 0x00, 0x00, 0x25, 0x75, 0x75, 0x00,
    0x00, 0x01, 0x78, 0xa7, 0x2c, 0xc9, 0x00, 0x00, 0x00, 0x01, 0x78, 0xa7,
    0x2e, 0x2a, 0x00, 0x02, 0xff, 0x00, 0x00, 0x00, 0x00, 0x00, 0x00, 0x00,
    0x00,
];

const DATA_SET_PAYLOD: [u8; 48] = [
    0x70, 0x0a, 0x14, 0x0a, 0xac, 0x1e, 0xbe, 0x0a, 0xac, 0xc7, 0x0f, 0x01,
    0x00, 0x00, 0x00, 0x00, 0x00, 0x00, 0x03, 0x1b, 0x00, 0x00, 0x01, 0x03,
    0x00, 0x00, 0x02, 0x36, 0x00, 0x00, 0x03, 0xa8, 0x00, 0x28, 0x00, 0x50,
    0x00, 0x00, 0x06, 0x00, 0xc3, 0x0d, 0x35, 0xbd, 0x15, 0x1a, 0x00, 0x00,
];

const DOMAIN: u32 = 0x0008_0000;

fn v4(a: u8, b: u8, c: u8, d: u8) -> IpAddress {
    IpAddress::V4(u32::from_be_bytes([a, b, c, d]))
}

/// An IPFIX datagram of domain 0x00080000 holding the given sets.
fn ipfix_datagram(sets: &[(u16, &[u8])]) -> Vec<u8> {
    let mut body: Vec<u8> = Vec::new();
    for (id, content) in sets {
        body.extend_from_slice(&id.to_be_bytes());
        body.extend_from_slice(&((content.len() + 4) as u16).to_be_bytes());
        body.extend_from_slice(content);
    }
    let mut msg: Vec<u8> = vec![0x00, 0x0a];
    msg.extend_from_slice(&((body.len() + 16) as u16).to_be_bytes());
    msg.extend_from_slice(&[0x60, 0x6c, 0x55, 0xa7, 0x00, 0x00, 0x00, 0x01]);
    msg.extend_from_slice(&DOMAIN.to_be_bytes());
    msg.extend_from_slice(&body);
    msg
}

fn ipfix_record(flow: &Flow) -> &netflow_collector::ipfix::DataSet {
    match flow {
        Flow::Ipfix(d) => d,
        Flow::V5(_) => panic!("expected an IPFIX record"),
    }
}

#[test]
fn read_netflow5_msg() {
    let pdu_list = parse_v5_msg(&NETFLOW5_MSG).unwrap();
    // expect 3 pdu in result
    assert_eq!(pdu_list.len(), 3);
}

#[test]
fn read_ipfix_template() {
    let mut exporter_list = ExporterList::new();
    let from = v4(127, 0, 0, 1);

    let data_list = parse_ipfix_msg(from, &TEMPLATE_IPFIX_MSG, &mut exporter_list).unwrap();

    assert_eq!(exporter_list.len(), 1); // template should be stored in the map
    assert_eq!(data_list.len(), 0);
}

#[test]
fn read_ipfix_option_template() {
    let mut exporter_list = ExporterList::new();
    let from = v4(127, 0, 0, 1);

    let data_list = parse_ipfix_msg(from, &OPTION_TEMPLATE_IPFIX_MSG, &mut exporter_list).unwrap();

    assert_eq!(exporter_list.len(), 1); // option template should be stored in the map
    assert_eq!(data_list.len(), 0);
}

#[test]
fn read_ipfix_dataset() {
    let mut exporter_list = ExporterList::new();
    let from = v4(127, 0, 0, 1);

    // read and store the template for the dataset first
    parse_ipfix_msg(from, &TEMPLATE_IPFIX_MSG, &mut exporter_list).unwrap();
    assert_eq!(exporter_list.len(), 1);

    // then read the data set with the template
    let data_list = parse_ipfix_msg(from, &DATA_SET_IPFIX_MSG, &mut exporter_list).unwrap();
    assert_eq!(data_list.len(), 2);
}

#[test]
fn read_ipfix_dataset_without_template() {
    let mut exporter_list = ExporterList::new();
    let from = v4(127, 0, 0, 1);

    let data_list = parse_ipfix_msg(from, &DATA_SET_IPFIX_MSG, &mut exporter_list).unwrap();

    // no template to read the dataset with, so no record
    assert_eq!(exporter_list.len(), 0);
    assert_eq!(data_list.len(), 0);
}

#[test]
fn read_ipfix_dataset_with_template_from_difference_source() {
    let mut exporter_list = ExporterList::new();
    let from_template = v4(127, 0, 0, 1);

    parse_ipfix_msg(from_template, &TEMPLATE_IPFIX_MSG, &mut exporter_list).unwrap();

    // change the source exporter for the flow data
    let from_data = v4(10, 0, 0, 8);
    let data_list = parse_ipfix_msg(from_data, &DATA_SET_IPFIX_MSG, &mut exporter_list).unwrap();

    // the template must not match
    assert_eq!(data_list.len(), 0);
}

#[test]
fn read_ipfix_option_dataset() {
    let mut exporter_list = ExporterList::new();
    let from = v4(127, 0, 0, 1);

    // read and store the option template for the dataset first
    parse_ipfix_msg(from, &OPTION_TEMPLATE_IPFIX_MSG, &mut exporter_list).unwrap();
    assert_eq!(exporter_list.len(), 1);

    // then read the data set with the template
    let data_list = parse_ipfix_msg(from, &OPTION_DATA_SET_IPFIX_MSG, &mut exporter_list).unwrap();

    // option records are kept by the collector, not handed on
    assert_eq!(data_list.len(), 0);
}

#[test]
fn read_ipfix_option_dataset_without_template() {
    let mut exporter_list = ExporterList::new();
    let from = v4(127, 0, 0, 1);

    let data_list = parse_ipfix_msg(from, &OPTION_DATA_SET_IPFIX_MSG, &mut exporter_list).unwrap();

    // no change expected
    assert_eq!(exporter_list.len(), 0);
    assert_eq!(data_list.len(), 0);
}

#[test]
fn template_then_single_record() {
    let mut exporter_list = ExporterList::new();
    let from = v4(127, 0, 0, 1);

    let first = parse_msg(from, &TEMPLATE_IPFIX_MSG, &mut exporter_list).unwrap();
    assert_eq!(first.len(), 0);

    let datagram = ipfix_datagram(&[(256, &DATASET)]);
    assert_eq!(datagram.len(), 105);
    let second = parse_msg(from, &datagram, &mut exporter_list).unwrap();
    assert_eq!(second.len(), 1);
    let rec = ipfix_record(&second[0]);
    assert_eq!(rec.len(), 27);
    assert_eq!(rec.get(FieldType::SourceIPv4Address), Some(&FieldValue::U32(u32::from_be_bytes([195, 5, 237, 90]))));
    assert_eq!(rec.get(FieldType::DestinationIPv4Address), Some(&FieldValue::U32(u32::from_be_bytes([52, 113, 145, 222]))));
    assert_eq!(rec.get(FieldType::ProtocolIdentifier), Some(&FieldValue::U8(17)));
    assert_eq!(rec.get(FieldType::OctetDeltaCount), Some(&FieldValue::U64(4714)));
    assert_eq!(rec.get(FieldType::PacketDeltaCount), Some(&FieldValue::U64(37)));
    assert_eq!(rec.get(FieldType::FlowStartMilliseconds), Some(&FieldValue::U64(1617712433408)));
    assert_eq!(rec.get(FieldType::FlowEndReason), Some(&FieldValue::U8(2)));
}

#[test]
fn option_sampling_scales_later_records() {
    let mut exporter_list = ExporterList::new();
    let from = v4(127, 0, 0, 1);
    let key = Exporter { addr: from, domain_id: DOMAIN };

    parse_msg(from, &OPTION_TEMPLATE_IPFIX_MSG, &mut exporter_list).unwrap();
    assert_eq!(exporter_list.get(&key).unwrap().sampling, 1);
    let options = parse_msg(from, &OPTION_DATA_SET_IPFIX_MSG, &mut exporter_list).unwrap();
    assert_eq!(options.len(), 0);
    assert_eq!(exporter_list.get(&key).unwrap().sampling, 10);

    parse_msg(from, &TEMPLATE_IPFIX_MSG, &mut exporter_list).unwrap();
    let datagram = ipfix_datagram(&[(256, &DATASET)]);
    let flows = parse_msg(from, &datagram, &mut exporter_list).unwrap();
    assert_eq!(flows.len(), 1);
    let rec = ipfix_record(&flows[0]);
    assert_eq!(rec.get(FieldType::OctetDeltaCount), Some(&FieldValue::U64(47140)));
    assert_eq!(rec.get(FieldType::PacketDeltaCount), Some(&FieldValue::U64(370)));
    assert_eq!(rec.get(FieldType::ProtocolIdentifier), Some(&FieldValue::U8(17)));
}

#[test]
fn option_data_twice_keeps_sampling() {
    let mut exporter_list = ExporterList::new();
    let from = v4(127, 0, 0, 1);
    let key = Exporter { addr: from, domain_id: DOMAIN };

    parse_msg(from, &OPTION_TEMPLATE_IPFIX_MSG, &mut exporter_list).unwrap();
    parse_msg(from, &OPTION_DATA_SET_IPFIX_MSG, &mut exporter_list).unwrap();
    assert_eq!(exporter_list.get(&key).unwrap().sampling, 10);
    parse_msg(from, &OPTION_DATA_SET_IPFIX_MSG, &mut exporter_list).unwrap();
    assert_eq!(exporter_list.get(&key).unwrap().sampling, 10);
    assert_eq!(exporter_list.len(), 1);
}

#[test]
fn other_domain_does_not_share_templates() {
    let mut exporter_list = ExporterList::new();
    let from = v4(127, 0, 0, 1);
    parse_msg(from, &TEMPLATE_IPFIX_MSG, &mut exporter_list).unwrap();
    let mut datagram = ipfix_datagram(&[(256, &DATASET)]);
    datagram[15] = 1;
    let flows = parse_msg(from, &datagram, &mut exporter_list).unwrap();
    assert_eq!(flows.len(), 0);
}

#[test]
fn v5_datagram_applies_header_sampling() {
    let mut datagram: Vec<u8> = vec![
        0x00, 0x05, 0x00, 0x01, 0x00, 0x00, 0x04, 0xb2, 0x60, 0x80, 0xb8, 0x9c, 0x1a, 0x47, 0xff, 0x30,
        0x00, 0x00, 0x00, 0x02, 0x01, 0x00, 0x00, 0x0a,
    ];
    datagram.extend_from_slice(&DATA_SET_PAYLOD);
    let mut exporter_list = ExporterList::new();
    let flows = parse_msg(v4(127, 0, 0, 1), &datagram, &mut exporter_list).unwrap();
    assert_eq!(flows.len(), 1);
    match &flows[0] {
        Flow::V5(d) => {
            assert_eq!(d.octets, 2590);
            assert_eq!(d.packets, 7950);
            assert_eq!(d.src_port, 40);
        }
        Flow::Ipfix(_) => panic!("expected a NetFlow v5 record"),
    }
    assert_eq!(exporter_list.len(), 0);
}

#[test]
fn v5_count_mismatch_is_refused() {
    assert_eq!(
        parse_v5_msg(&NETFLOW5_MSG[0..120]).unwrap_err(),
        DecodeError::CountMismatch { declared: 3, received: 2 }
    );
    assert_eq!(parse_v5_msg(&NETFLOW5_MSG[0..20]).unwrap_err(), DecodeError::ShortBuffer { required: 24, received: 20 });
}

#[test]
fn unknown_version_is_refused() {
    let mut exporter_list = ExporterList::new();
    let buf = [0x00, 0x09, 0x00, 0x00];
    assert_eq!(parse_msg(v4(127, 0, 0, 1), &buf, &mut exporter_list).unwrap_err(), DecodeError::BadVersion(9));
    assert_eq!(
        parse_msg(v4(127, 0, 0, 1), &buf[0..1], &mut exporter_list).unwrap_err(),
        DecodeError::ShortBuffer { required: 2, received: 1 }
    );
}

#[test]
fn ipfix_length_mismatch_is_refused() {
    let mut exporter_list = ExporterList::new();
    let err = parse_ipfix_msg(v4(127, 0, 0, 1), &TEMPLATE_IPFIX_MSG[0..131], &mut exporter_list).unwrap_err();
    assert_eq!(err, DecodeError::LengthMismatch { declared: 132, received: 131 });
    assert_eq!(exporter_list.len(), 0);
}

#[test]
fn reserved_set_id_is_refused() {
    let mut exporter_list = ExporterList::new();
    let datagram = ipfix_datagram(&[(5, &[0, 0, 0, 0])]);
    let err = parse_ipfix_msg(v4(127, 0, 0, 1), &datagram, &mut exporter_list).unwrap_err();
    assert_eq!(err, DecodeError::BadSetId(5));
}

#[test]
fn set_longer_than_datagram_is_refused() {
    let mut exporter_list = ExporterList::new();
    let mut datagram = ipfix_datagram(&[(256, &[0, 0, 0, 0])]);
    datagram[19] = 9;
    let err = parse_ipfix_msg(v4(127, 0, 0, 1), &datagram, &mut exporter_list).unwrap_err();
    assert_eq!(err, DecodeError::ShortBuffer { required: 9, received: 8 });
}

#[test]
fn template_with_unknown_element_is_dropped() {
    let mut exporter_list = ExporterList::new();
    let from = v4(127, 0, 0, 1);
    let set: [u8; 16] = [
        // template 300: one field of unassigned element 65
        0x01, 0x2c, 0x00, 0x01, 0x00, 0x41, 0x00, 0x04,
        // template 301: protocolIdentifier, one octet
        0x01, 0x2d, 0x00, 0x01, 0x00, 0x04, 0x00, 0x01,
    ];
    let datagram = ipfix_datagram(&[(2, &set)]);
    let flows = parse_ipfix_msg(from, &datagram, &mut exporter_list).unwrap();
    assert_eq!(flows.len(), 0);
    let infos = exporter_list.get(&Exporter { addr: from, domain_id: DOMAIN }).unwrap();
    assert!(!infos.template.contains_key(&300));
    assert!(infos.template.contains_key(&301));
}

#[test]
fn cut_record_ends_its_set_only() {
    let mut exporter_list = ExporterList::new();
    let from = v4(127, 0, 0, 1);
    parse_msg(from, &TEMPLATE_IPFIX_MSG, &mut exporter_list).unwrap();
    // a set with one record and 40 octets of a second, then a set with one record
    let mut cut: Vec<u8> = DATASET.to_vec();
    cut.extend_from_slice(&DATASET[0..40]);
    let datagram = ipfix_datagram(&[(256, &cut), (256, &DATASET)]);
    let flows = parse_msg(from, &datagram, &mut exporter_list).unwrap();
    assert_eq!(flows.len(), 2);
}

#[test]
fn template_id_below_256_is_dropped() {
    let mut exporter_list = ExporterList::new();
    let set: [u8; 8] = [0x00, 0xff, 0x00, 0x01, 0x00, 0x04, 0x00, 0x01];
    let datagram = ipfix_datagram(&[(2, &set)]);
    let flows = parse_ipfix_msg(v4(127, 0, 0, 1), &datagram, &mut exporter_list).unwrap();
    assert_eq!(flows.len(), 0);
    assert_eq!(exporter_list.len(), 0);
}

#[test]
fn decoders_check_their_version() {
    let mut exporter_list = ExporterList::new();
    let mut v9 = TEMPLATE_IPFIX_MSG;
    v9[1] = 9;
    let err = parse_ipfix_msg(v4(127, 0, 0, 1), &v9, &mut exporter_list).unwrap_err();
    assert_eq!(err, DecodeError::BadVersion(9));
    assert_eq!(exporter_list.len(), 0);
    let mut v6 = NETFLOW5_MSG;
    v6[1] = 6;
    assert_eq!(parse_v5_msg(&v6).unwrap_err(), DecodeError::BadVersion(6));
}
