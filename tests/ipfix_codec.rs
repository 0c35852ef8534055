use netflow_collector::error::DecodeError;
use netflow_collector::field_type::{EndReason, FieldType};
use netflow_collector::ipfix::{
    DataSet, DataSetTemplate, FieldValue, Header, OptionDataSetTemplate, SetHeader, TemplateField, VERSION,
};

const HEADER_PAYLOD: [u8; 16] = [
    0x00, 0x0a, 0x00, 0x84, 0x60, 0x6c, 0x55, 0x89, 0xdf, 0xb2, 0xba, 0xd2,
    0x00, 0x08, 0x00, 0x00,
];

const SET_HEADER_PAYLOAD: [u8; 4] = [
    0x00, 0x02, 0x00, 0x74,
];

const TEMPLATE_PAYLOAD: [u8; 112] = [
    0x01, 0x00, 0x00, 0x1b, 0x00, 0x08, 0x00, 0x04, 0x00, 0x0c, 0x00, 0x04,
    0x00, 0x05, 0x00, 0x01, 0x00, 0x04, 0x00, 0x01, 0x00, 0x07, 0x00, 0x02,
    0x00, 0x0b, 0x00, 0x02, 0x00, 0x20, 0x00, 0x02, 0x00, 0x0a, 0x00, 0x04,
    0x00, 0x3a, 0x00, 0x02, 0x00, 0x09, 0x00, 0x01, 0x00, 0x0d, 0x00, 0x01,
    0x00, 0x10, 0x00, 0x04, 0x00, 0x11, 0x00, 0x04, 0x00, 0x0f, 0x00, 0x04,
    0x00, 0x06, 0x00, 0x01, 0x00, 0x0e, 0x00, 0x04, 0x00, 0x01, 0x00, 0x08,
    0x00, 0x02, 0x00, 0x08, 0x00, 0x34, 0x00, 0x01, 0x00, 0x35, 0x00, 0x01,
    0x00, 0x98, 0x00, 0x08, 0x00, 0x99, 0x00, 0x08, 0x00, 0x88, 0x00, 0x01,
    0x00, 0x3d, 0x00, 0x01, 0x00, 0xf3, 0x00, 0x02, 0x00, 0xf5, 0x00, 0x02,
    0x00, 0x36, 0x00, 0x04,
];

const OPTION_TEMPLATE_PAYLOAD: [u8; 50] = [
    0x02, 0x00, 0x00, 0x0b, 0x00, 0x01, 0x00, 0x90, 0x00, 0x04, 0x00, 0x29,
    0x00, 0x08, 0x00, 0x2a, 0x00, 0x08, 0x00, 0xa0, 0x00, 0x08, 0x00, 0x82,
    0x00, 0x04, 0x00, 0x83, 0x00, 0x10, 0x00, 0x22, 0x00, 0x04, 0x00, 0x24,
    0x00, 0x02, 0x00, 0x25, 0x00, 0x02, 0x00, 0xd6, 0x00, 0x01, 0x00, 0xd7,
    0x00, 0x01,
];

const DATASET: [u8; 85] = [
    0xc3, 0x05, 0xed, 0x5a, 0x34, 0x71, 0x91, 0xde, 0x00, 0x11, 0xf0, 0x58,
    0x0d, 0x98, 0x00, 0x00, 0x00, 0x00, 0x02, 0x2d, 0x00, 0x00, 0x1e, 0x0e,
    0x00, 0x00, 0x33, 0x89, 0x00, 0x00, 0x1f, 0x8b, 0xc3, 0x42, 0xe0, 0x8c,
    0x00, 0x00, 0x00, 0x02, 0x2c, 0x00, 0x00, 0x00, 0x00, 0x00, 0x00, 0x12,
    0x6a, 0x00, 0x00, 0x00, 0x00, 0x00, 0x00, 0x00, 0x25, 0x75, 0x75, 0x00,
    0x00, 0x01, 0x78, 0xa7, 0x2c, 0xc9, 0x00, 0x00, 0x00, 0x01, 0x78, 0xa7,
    0x2e, 0x2a, 0x00, 0x02, 0xff, 0x00, 0x00, 0x00, 0x00, 0x00, 0x00, 0x00,
    0x00,
];

const OPTION_DATASET: [u8; 58] = [
    0x00, 0x00, 0x00, 0x02, 0x00, 0x00, 0x00, 0x09, 0x31, 0xc3, 0x26, 0xc6,
    0x00, 0x00, 0x00, 0x26, 0x5b, 0x7e, 0xcc, 0x9b, 0x00, 0x00, 0x01, 0x4a,
    0xa2, 0xd7, 0x85, 0x28, 0xb2, 0x84, 0x10, 0x20, 0x00, 0x00, 0x00, 0x00,
    0x00, 0x00, 0x00, 0x00, 0x00, 0x00, 0x00, 0x00, 0x00, 0x00, 0x00, 0x00,
    0x00, 0x00, 0x00, 0x0a, 0x00, 0x0a, 0x00, 0x0a, 0x0a, 0x11,
];

fn field(id: FieldType, length: u16) -> TemplateField {
    TemplateField { id, length }
}

fn ipv4(a: u8, b: u8, c: u8, d: u8) -> u32 {
    u32::from_be_bytes([a, b, c, d])
}

#[test]
fn read_msg_header() {
    let header = Header::read(&HEADER_PAYLOD).unwrap();

    assert_eq!(header.version, VERSION);
    assert_eq!(header.length, 132);
    assert_eq!(header.export_time, 1617712521);
    assert_eq!(header.seq_number, 3753032402);
    assert_eq!(header.domain_id, 524288);
}

#[test]
#[should_panic]
fn ipfix_read_invalid_msg_header() {
    Header::read(&HEADER_PAYLOD[0..HEADER_PAYLOD.len() - 1]).unwrap();
}

#[test]
fn read_set_header() {
    let set = SetHeader::read(&SET_HEADER_PAYLOAD).unwrap();

    assert_eq!(set.id, 2);
    assert_eq!(set.length, 116);
    assert_eq!(set.content_size(), 112);
}

#[test]
#[should_panic]
fn read_invalid_set_header() {
    SetHeader::read(&SET_HEADER_PAYLOAD[0..SET_HEADER_PAYLOAD.len() - 1]).unwrap();
}

#[test]
fn read_data_template() {
    let (template, size_read) = DataSetTemplate::read(&TEMPLATE_PAYLOAD).unwrap();

    assert_eq!(template.header.id, 256);
    assert_eq!(template.header.field_count, 27);
    assert_eq!(size_read, TEMPLATE_PAYLOAD.len());
    assert_eq!(template.fields.len(), template.header.field_count as usize);

    assert_eq!(template.fields[0], field(FieldType::SourceIPv4Address, 4));
    assert_eq!(template.fields[1], field(FieldType::DestinationIPv4Address, 4));
    assert_eq!(template.fields[2], field(FieldType::IPClassOfService, 1));
    assert_eq!(template.fields[3], field(FieldType::ProtocolIdentifier, 1));
    assert_eq!(template.fields[4], field(FieldType::SourceTransportPort, 2));
    assert_eq!(template.fields[5], field(FieldType::DestinationTransportPort, 2));
    assert_eq!(template.fields[6], field(FieldType::IcmpTypeCodeIPv4, 2));
    assert_eq!(template.fields[7], field(FieldType::IngressInterface, 4));
    assert_eq!(template.fields[8], field(FieldType::VlanId, 2));
    assert_eq!(template.fields[9], field(FieldType::SourceIPv4PrefixLength, 1));
    assert_eq!(template.fields[10], field(FieldType::DestinationIPv4PrefixLength, 1));
    assert_eq!(template.fields[11], field(FieldType::BgpSourceAsNumber, 4));
    assert_eq!(template.fields[12], field(FieldType::BgpDestinationAsNumber, 4));
    assert_eq!(template.fields[13], field(FieldType::IpNextHopIPv4Address, 4));
    assert_eq!(template.fields[14], field(FieldType::TcpControlBits, 1));
    assert_eq!(template.fields[15], field(FieldType::EgressInterface, 4));
    assert_eq!(template.fields[16], field(FieldType::OctetDeltaCount, 8));
    assert_eq!(template.fields[17], field(FieldType::PacketDeltaCount, 8));
    assert_eq!(template.fields[18], field(FieldType::MinimumTTL, 1));
    assert_eq!(template.fields[19], field(FieldType::MaximumTTL, 1));
    assert_eq!(template.fields[20], field(FieldType::FlowStartMilliseconds, 8));
    assert_eq!(template.fields[21], field(FieldType::FlowEndMilliseconds, 8));
    assert_eq!(template.fields[22], field(FieldType::FlowEndReason, 1));
    assert_eq!(template.fields[23], field(FieldType::FlowDirection, 1));
    assert_eq!(template.fields[24], field(FieldType::Dot1qVlanId, 2));
    assert_eq!(template.fields[25], field(FieldType::Dot1qCustomerVlanId, 2));
    assert_eq!(template.fields[26], field(FieldType::FragmentIdentification, 4));
}

#[test]
#[should_panic]
fn read_invalid_data_template() {
    DataSetTemplate::read(&TEMPLATE_PAYLOAD[0..TEMPLATE_PAYLOAD.len() - 1]).unwrap();
}

#[test]
fn read_option_template() {
    let (template, size_read) = OptionDataSetTemplate::read(&OPTION_TEMPLATE_PAYLOAD).unwrap();

    assert_eq!(template.header.id, 512);
    assert_eq!(template.header.field_count, 11);
    assert_eq!(template.header.scope_field_count, 1);
    assert_eq!(template.length, 58);
    assert_eq!(size_read, OPTION_TEMPLATE_PAYLOAD.len());
    assert_eq!(template.fields.len(), template.header.field_count as usize);

    assert_eq!(template.fields[0], field(FieldType::ExportingProcessId, 4));
    assert_eq!(template.fields[1], field(FieldType::ExportedMessageTotalCount, 8));
    assert_eq!(template.fields[2], field(FieldType::ExportedFlowRecordTotalCount, 8));
    assert_eq!(template.fields[3], field(FieldType::SystemInitTimeMilliseconds, 8));
    assert_eq!(template.fields[4], field(FieldType::ExporterIPv4Address, 4));
    assert_eq!(template.fields[5], field(FieldType::ExporterIPv6Address, 16));
    assert_eq!(template.fields[6], field(FieldType::SamplingInterval, 4));
    assert_eq!(template.fields[7], field(FieldType::FlowActiveTimeout, 2));
    assert_eq!(template.fields[8], field(FieldType::FlowIdleTimeout, 2));
    assert_eq!(template.fields[9], field(FieldType::ExportProtocolVersion, 1));
    assert_eq!(template.fields[10], field(FieldType::ExportTransportProtocol, 1));
}

#[test]
#[should_panic]
fn read_invalid_option_template() {
    OptionDataSetTemplate::read(&OPTION_TEMPLATE_PAYLOAD[0..OPTION_TEMPLATE_PAYLOAD.len() - 1]).unwrap();
}

#[test]
fn readd_dataset() {
    let (template, _) = DataSetTemplate::read(&TEMPLATE_PAYLOAD).unwrap();
    let msg = DataSet::read(&DATASET, &template.fields, template.length).unwrap();

    assert_eq!(msg.len(), template.fields.len());
    assert_eq!(msg.get(FieldType::SourceIPv4Address), Some(&FieldValue::U32(ipv4(195, 5, 237, 90))));
    assert_eq!(msg.get(FieldType::DestinationIPv4Address), Some(&FieldValue::U32(ipv4(52, 113, 145, 222))));
    assert_eq!(msg.get(FieldType::IPClassOfService), Some(&FieldValue::U8(0)));
    assert_eq!(msg.get(FieldType::ProtocolIdentifier), Some(&FieldValue::U8(17)));
    assert_eq!(msg.get(FieldType::SourceTransportPort), Some(&FieldValue::U16(61528)));
    assert_eq!(msg.get(FieldType::DestinationTransportPort), Some(&FieldValue::U16(3480)));
    assert_eq!(msg.get(FieldType::IcmpTypeCodeIPv4), Some(&FieldValue::U16(0)));
    assert_eq!(msg.get(FieldType::IngressInterface), Some(&FieldValue::U32(557)));
    assert_eq!(msg.get(FieldType::VlanId), Some(&FieldValue::U16(0)));
    assert_eq!(msg.get(FieldType::SourceIPv4PrefixLength), Some(&FieldValue::U8(30)));
    assert_eq!(msg.get(FieldType::DestinationIPv4PrefixLength), Some(&FieldValue::U8(14)));
    assert_eq!(msg.get(FieldType::BgpSourceAsNumber), Some(&FieldValue::U32(13193)));
    assert_eq!(msg.get(FieldType::BgpDestinationAsNumber), Some(&FieldValue::U32(8075)));
    assert_eq!(msg.get(FieldType::IpNextHopIPv4Address), Some(&FieldValue::U32(ipv4(195, 66, 224, 140))));
    assert_eq!(msg.get(FieldType::TcpControlBits), Some(&FieldValue::U8(0)));
    assert_eq!(msg.get(FieldType::EgressInterface), Some(&FieldValue::U32(556)));
    assert_eq!(msg.get(FieldType::OctetDeltaCount), Some(&FieldValue::U64(4714)));
    assert_eq!(msg.get(FieldType::PacketDeltaCount), Some(&FieldValue::U64(37)));
    assert_eq!(msg.get(FieldType::MinimumTTL), Some(&FieldValue::U8(117)));
    assert_eq!(msg.get(FieldType::MaximumTTL), Some(&FieldValue::U8(117)));
    assert_eq!(msg.get(FieldType::FlowStartMilliseconds), Some(&FieldValue::U64(1617712433408)));
    assert_eq!(msg.get(FieldType::FlowEndMilliseconds), Some(&FieldValue::U64(1617712523776)));
    assert_eq!(msg.get(FieldType::FlowEndReason), Some(&FieldValue::U8(2)));
    assert_eq!(msg.get(FieldType::FlowDirection), Some(&FieldValue::U8(255)));
    assert_eq!(msg.get(FieldType::Dot1qVlanId), Some(&FieldValue::U16(0)));
    assert_eq!(msg.get(FieldType::Dot1qCustomerVlanId), Some(&FieldValue::U16(0)));
    assert_eq!(msg.get(FieldType::FragmentIdentification), Some(&FieldValue::U32(0)));
}

#[test]
#[should_panic]
fn read_invalid_dataset() {
    let (template, _) = DataSetTemplate::read(&TEMPLATE_PAYLOAD).unwrap();
    DataSet::read(&DATASET[0..DATASET.len() - 1], &template.fields, template.length).unwrap();
}

#[test]
fn read_option_dataset() {
    let (template, _) = OptionDataSetTemplate::read(&OPTION_TEMPLATE_PAYLOAD).unwrap();
    let msg = DataSet::read(&OPTION_DATASET, &template.fields, template.length).unwrap();

    assert_eq!(msg.len(), template.fields.len());

    assert_eq!(msg.get(FieldType::ExportingProcessId), Some(&FieldValue::U32(2)));
    assert_eq!(msg.get(FieldType::ExportedMessageTotalCount), Some(&FieldValue::U64(39489578694)));
    assert_eq!(msg.get(FieldType::SamplingInterval), Some(&FieldValue::U32(10)));
    assert_eq!(msg.get(FieldType::ExportProtocolVersion), Some(&FieldValue::U8(VERSION as u8)));
    assert_eq!(msg.get(FieldType::SystemInitTimeMilliseconds), Some(&FieldValue::U64(1420071241000)));
    assert_eq!(msg.get(FieldType::ExporterIPv6Address), Some(&FieldValue::U128(0)));
    assert_eq!(msg.get(FieldType::FlowIdleTimeout), Some(&FieldValue::U16(10)));
    assert_eq!(msg.get(FieldType::ExporterIPv4Address), Some(&FieldValue::U32(ipv4(178, 132, 16, 32))));
    assert_eq!(msg.get(FieldType::ExportTransportProtocol), Some(&FieldValue::U8(17)));
    assert_eq!(msg.get(FieldType::FlowActiveTimeout), Some(&FieldValue::U16(10)));
    assert_eq!(msg.get(FieldType::ExportedFlowRecordTotalCount), Some(&FieldValue::U64(164743793819)));
}

#[test]
#[should_panic]
fn read_invalid_option_dataset() {
    let (template, _) = OptionDataSetTemplate::read(&TEMPLATE_PAYLOAD).unwrap();
    DataSet::read(&OPTION_DATASET[0..OPTION_DATASET.len() - 1], &template.fields, template.length).unwrap();
}

#[test]
fn short_buffers_name_the_shortfall() {
    assert_eq!(Header::read(&HEADER_PAYLOD[0..15]).unwrap_err(), DecodeError::ShortBuffer { required: 16, received: 15 });
    assert_eq!(SetHeader::read(&SET_HEADER_PAYLOAD[0..1]).unwrap_err(), DecodeError::ShortBuffer { required: 4, received: 1 });
    let (template, _) = DataSetTemplate::read(&TEMPLATE_PAYLOAD).unwrap();
    assert_eq!(
        DataSet::read(&DATASET[0..84], &template.fields, template.length).unwrap_err(),
        DecodeError::ShortBuffer { required: 85, received: 84 }
    );
}

#[test]
fn unknown_element_is_refused() {
    // element 65 is unassigned
    assert_eq!(TemplateField::read(&[0x00, 0x41, 0x00, 0x04]).unwrap_err(), DecodeError::UnknownFieldId(65));
    assert_eq!(TemplateField::read(&[0x01, 0xec, 0x00, 0x04]).unwrap_err(), DecodeError::UnknownFieldId(492));
    let f = TemplateField::read(&[0x01, 0xeb, 0x00, 0x02]).unwrap();
    assert_eq!(f.id.id(), 491);
    assert_eq!(f.length, 2);
}

#[test]
fn registry_round_trips_identifiers() {
    let mut known = 0;
    for v in 0..=600u16 {
        if let Some(f) = FieldType::from_u16(v) {
            assert_eq!(f.id(), v);
            known += 1;
        }
    }
    assert_eq!(known, 461);
    assert_eq!(FieldType::from_u16(34), Some(FieldType::SamplingInterval));
    assert_eq!(FieldType::from_u16(416), None);
}

#[test]
fn odd_lengths_decode_as_octets() {
    let fields = vec![field(FieldType::ApplicationName, 3), field(FieldType::OctetDeltaCount, 8)];
    let buf = [0x61, 0x62, 0x63, 0, 0, 0, 0, 0, 0, 0x01, 0x00];
    let msg = DataSet::read(&buf, &fields, 11).unwrap();
    assert_eq!(msg.get(FieldType::ApplicationName), Some(&FieldValue::Dyn(vec![0x61, 0x62, 0x63])));
    assert_eq!(msg.get(FieldType::OctetDeltaCount), Some(&FieldValue::U64(256)));
}

#[test]
fn repeated_element_keeps_last_value() {
    let fields = vec![field(FieldType::ProtocolIdentifier, 1), field(FieldType::ProtocolIdentifier, 1)];
    let msg = DataSet::read(&[6, 17], &fields, 2).unwrap();
    assert_eq!(msg.len(), 1);
    assert_eq!(msg.get(FieldType::ProtocolIdentifier), Some(&FieldValue::U8(17)));
}

#[test]
fn ipfix_sampling_scales_64_bit_counters() {
    let (template, _) = DataSetTemplate::read(&TEMPLATE_PAYLOAD).unwrap();
    let mut msg = DataSet::read(&DATASET, &template.fields, template.length).unwrap();
    msg.add_sampling(0);
    assert_eq!(msg.get(FieldType::OctetDeltaCount), Some(&FieldValue::U64(4714)));
    msg.add_sampling(10);
    assert_eq!(msg.get(FieldType::OctetDeltaCount), Some(&FieldValue::U64(47140)));
    assert_eq!(msg.get(FieldType::PacketDeltaCount), Some(&FieldValue::U64(370)));
    assert_eq!(msg.get(FieldType::ProtocolIdentifier), Some(&FieldValue::U8(17)));
}

#[test]
fn record_writes_back_to_its_octets() {
    let (template, _) = DataSetTemplate::read(&TEMPLATE_PAYLOAD).unwrap();
    let msg = DataSet::read(&DATASET, &template.fields, template.length).unwrap();
    let mut out: Vec<u8> = Vec::new();
    for f in &template.fields {
        match msg.get(f.id).unwrap() {
            FieldValue::U8(v) => out.extend_from_slice(&v.to_be_bytes()),
            FieldValue::U16(v) => out.extend_from_slice(&v.to_be_bytes()),
            FieldValue::U32(v) => out.extend_from_slice(&v.to_be_bytes()),
            FieldValue::U64(v) => out.extend_from_slice(&v.to_be_bytes()),
            FieldValue::U128(v) => out.extend_from_slice(&v.to_be_bytes()),
            FieldValue::Dyn(d) => out.extend_from_slice(d),
        }
    }
    assert_eq!(out, DATASET.to_vec());
}

#[test]
fn end_reason_codes() {
    let (template, _) = DataSetTemplate::read(&TEMPLATE_PAYLOAD).unwrap();
    let msg = DataSet::read(&DATASET, &template.fields, template.length).unwrap();
    match msg.get(FieldType::FlowEndReason) {
        Some(FieldValue::U8(v)) => assert_eq!(EndReason::from_u8(*v), Some(EndReason::ActiveTimeout)),
        other => panic!("unexpected {:?}", other),
    }
    assert_eq!(EndReason::from_u8(0), None);
    assert_eq!(EndReason::from_u8(5), Some(EndReason::LackOfResources));
}

#[test]
fn template_id_below_256_is_refused() {
    assert_eq!(DataSetTemplate::read(&[0x00, 0xc8, 0x00, 0x00]).err(), Some(DecodeError::BadTemplateId(200)));
    assert_eq!(
        OptionDataSetTemplate::read(&[0x00, 0xc8, 0x00, 0x00, 0x00, 0x00]).err(),
        Some(DecodeError::BadTemplateId(200))
    );
    let (t, size) = DataSetTemplate::read(&[0x01, 0x00, 0x00, 0x00]).unwrap();
    assert_eq!(t.header.id, 256);
    assert_eq!(size, 4);
}
